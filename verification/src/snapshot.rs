//! The decoded state of the controller at one instant.

use vstd::prelude::*;

verus! {

/// One decoded instant of controller state: touchpad coordinates in
/// [0, 255] relative to an implicit center of 128, and six boolean flags.
///
/// A value of this type exists only as the result of a successful decode
/// (or as the all-clear default used before the first packet arrives) and
/// is immutable once produced.
#[derive(Clone, Copy, PartialEq, Eq, Structural, Debug)]
pub struct DaydreamControllerData {
    pub touchpad_x: u8,
    pub touchpad_y: u8,
    pub app: bool,
    pub home: bool,
    pub vol_up: bool,
    pub vol_down: bool,
    pub touch_click: bool,
    pub touch_down: bool,
}

impl DaydreamControllerData {
    /// The all-clear snapshot: coordinates zero, every flag false.
    pub open spec fn spec_default() -> DaydreamControllerData {
        DaydreamControllerData {
            touchpad_x: 0,
            touchpad_y: 0,
            app: false,
            home: false,
            vol_up: false,
            vol_down: false,
            touch_click: false,
            touch_down: false,
        }
    }
}

impl Default for DaydreamControllerData {
    /// The snapshot used as the "previous" state before any packet has
    /// been decoded.
    fn default() -> (r: DaydreamControllerData)
        ensures
            r == DaydreamControllerData::spec_default(),
    {
        DaydreamControllerData {
            touchpad_x: 0,
            touchpad_y: 0,
            app: false,
            home: false,
            vol_up: false,
            vol_down: false,
            touch_click: false,
            touch_down: false,
        }
    }
}

} // verus!
