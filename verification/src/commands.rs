//! The discrete input commands that translation emits, and the
//! edge classification shared by the boolean controller flags.

use vstd::prelude::*;

verus! {

/// A mouse button the translator can press or release.
#[derive(Clone, Copy, PartialEq, Eq, Structural, Debug)]
pub enum ButtonId {
    Left,
    Right,
}

/// A logical key the translator can press or release.
#[derive(Clone, Copy, PartialEq, Eq, Structural, Debug)]
pub enum KeyId {
    Meta,
    Escape,
}

/// The axis a scroll tick applies to.
#[derive(Clone, Copy, PartialEq, Eq, Structural, Debug)]
pub enum ScrollAxis {
    Vertical,
}

/// One discrete host-input command. Commands are fire-and-forget data:
/// the translator returns them in order and retains nothing about them.
#[derive(Clone, Copy, PartialEq, Eq, Structural, Debug)]
pub enum InputCommand {
    /// Relative pointer motion by (dx, dy).
    MoveRelative(i32, i32),
    /// One signed scroll tick along an axis.
    ScrollBy(i32, ScrollAxis),
    ButtonPress(ButtonId),
    ButtonRelease(ButtonId),
    KeyPress(KeyId),
    KeyRelease(KeyId),
}

/// The transition a boolean flag made between two consecutive snapshots.
#[derive(Clone, Copy, PartialEq, Eq, Structural, Debug)]
pub enum Edge {
    /// false then true.
    Rising,
    /// true then false.
    Falling,
    /// true in both snapshots.
    SteadyHigh,
    /// false in both snapshots.
    SteadyLow,
}

/// The edge that the pair (current, previous) forms.
pub open spec fn spec_edge(cur: bool, prev: bool) -> Edge {
    if cur && !prev {
        Edge::Rising
    } else if !cur && prev {
        Edge::Falling
    } else if cur {
        Edge::SteadyHigh
    } else {
        Edge::SteadyLow
    }
}

/// Classify the transition a flag made from the previous snapshot to the
/// current one.
pub fn edge(cur: bool, prev: bool) -> (e: Edge)
    ensures
        e == spec_edge(cur, prev),
{
    if cur && !prev {
        Edge::Rising
    } else if !cur && prev {
        Edge::Falling
    } else if cur {
        Edge::SteadyHigh
    } else {
        Edge::SteadyLow
    }
}

} // verus!
