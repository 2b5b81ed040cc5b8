//! The stateful translation engine: successive controller snapshots in,
//! ordered host-input commands out.
//!
//! The translator retains the previous snapshot, a scroll-mode flag and
//! the reference pointing angle. Each cycle derives all commands from the
//! current snapshot and the retained state, then replaces the retained
//! state; a malformed packet produces no commands and leaves the state
//! untouched.

use vstd::prelude::*;
use crate::snapshot::DaydreamControllerData;
use crate::commands::{ButtonId, Edge, InputCommand, KeyId, ScrollAxis, edge, spec_edge};
use crate::angle::{
    PI_MICRORADIANS, SCROLL_DEADZONE_MICRORADIANS, spec_abs, spec_wrap_angle, wrap_angle,
    abs_angle,
};
use crate::decoder::{parse_raw_controller_data, spec_snapshot};

verus! {

/// The state the translator carries from one cycle to the next.
pub struct InputTranslator {
    /// The last successfully decoded snapshot; all-clear before the
    /// first packet.
    pub prev_data: DaydreamControllerData,
    /// Whether touchpad motion is currently interpreted as rotary
    /// scrolling instead of pointer movement.
    pub scroll_mode: bool,
    /// The reference pointing angle in microradians, updated only when a
    /// scroll tick fires.
    pub prev_angle: i64,
}

/// The commands the motion phase of one cycle emits. Motion requires a
/// touch on both the current and the previous snapshot; the first sample
/// of a fresh touch emits nothing, which keeps the all-clear sentinel
/// from causing a spurious jump.
///
/// In scroll mode the signed shortest rotation from the reference angle
/// to the current one decides the tick: past the deadzone, a positive
/// difference emits one upward tick, a negative one a downward tick.
pub open spec fn spec_motion_commands(
    prev: DaydreamControllerData,
    scroll_mode: bool,
    prev_angle: int,
    cur: DaydreamControllerData,
    cur_angle: int,
) -> Seq<InputCommand> {
    if cur.touch_down && prev.touch_down {
        if !scroll_mode {
            seq![
                InputCommand::MoveRelative(
                    ((cur.touchpad_x - prev.touchpad_x) * 2) as i32,
                    ((cur.touchpad_y - prev.touchpad_y) * 2) as i32,
                ),
            ]
        } else {
            let d = spec_wrap_angle(cur_angle - prev_angle);
            if spec_abs(d) > SCROLL_DEADZONE_MICRORADIANS {
                seq![
                    InputCommand::ScrollBy(
                        if d > 0 {
                            1i32
                        } else {
                            -1i32
                        },
                        ScrollAxis::Vertical,
                    ),
                ]
            } else {
                Seq::<InputCommand>::empty()
            }
        }
    } else {
        Seq::<InputCommand>::empty()
    }
}

/// The commands a mouse button emits for one flag transition: a press on
/// a rising edge, a release on a falling edge, nothing otherwise.
pub open spec fn spec_button_commands(cur: bool, prev: bool, id: ButtonId) -> Seq<InputCommand> {
    match spec_edge(cur, prev) {
        Edge::Rising => seq![InputCommand::ButtonPress(id)],
        Edge::Falling => seq![InputCommand::ButtonRelease(id)],
        Edge::SteadyHigh => Seq::<InputCommand>::empty(),
        Edge::SteadyLow => Seq::<InputCommand>::empty(),
    }
}

/// The commands a logical key emits for one flag transition. The pattern
/// is deliberately asymmetric: a rising edge presses the key, and the
/// next cycle on which the flag is still high releases it — the release
/// comes one cycle after the press while the physical button is held,
/// not when it is let go.
pub open spec fn spec_key_commands(cur: bool, prev: bool, id: KeyId) -> Seq<InputCommand> {
    match spec_edge(cur, prev) {
        Edge::Rising => seq![InputCommand::KeyPress(id)],
        Edge::SteadyHigh => seq![InputCommand::KeyRelease(id)],
        Edge::Falling => Seq::<InputCommand>::empty(),
        Edge::SteadyLow => Seq::<InputCommand>::empty(),
    }
}

/// Every command one cycle emits, in order: touchpad motion, then the
/// left-button edge (touch click), then the right-button edge (app
/// button), then the Meta key (volume down), then the Escape key
/// (volume up). The home button only toggles scroll mode and emits
/// nothing.
pub open spec fn spec_cycle_commands(
    state: InputTranslator,
    cur: DaydreamControllerData,
    cur_angle: int,
) -> Seq<InputCommand> {
    spec_motion_commands(state.prev_data, state.scroll_mode, state.prev_angle as int, cur, cur_angle)
        + spec_button_commands(cur.touch_click, state.prev_data.touch_click, ButtonId::Left)
        + spec_button_commands(cur.app, state.prev_data.app, ButtonId::Right)
        + spec_key_commands(cur.vol_down, state.prev_data.vol_down, KeyId::Meta)
        + spec_key_commands(cur.vol_up, state.prev_data.vol_up, KeyId::Escape)
}

/// The scroll-mode flag after one cycle: a fresh touch click forces
/// scroll mode off, and after that a rising home edge toggles it.
pub open spec fn spec_next_scroll_mode(state: InputTranslator, cur: DaydreamControllerData) -> bool {
    let after_click = if cur.touch_click && !state.prev_data.touch_click {
        false
    } else {
        state.scroll_mode
    };
    if cur.home && !state.prev_data.home {
        !after_click
    } else {
        after_click
    }
}

/// Whether this cycle fires a scroll tick: scroll mode is on, the touch
/// is down on both samples, and the normalized angle change exceeds the
/// deadzone.
pub open spec fn spec_tick_fires(
    state: InputTranslator,
    cur: DaydreamControllerData,
    cur_angle: int,
) -> bool {
    state.scroll_mode && cur.touch_down && state.prev_data.touch_down
        && spec_abs(spec_wrap_angle(cur_angle - state.prev_angle as int))
            > SCROLL_DEADZONE_MICRORADIANS
}

/// The reference angle after one cycle: it moves to the current angle
/// exactly when a scroll tick fired, so jitter below the deadzone never
/// drifts the reference.
pub open spec fn spec_next_prev_angle(
    state: InputTranslator,
    cur: DaydreamControllerData,
    cur_angle: int,
) -> int {
    if spec_tick_fires(state, cur, cur_angle) {
        cur_angle
    } else {
        state.prev_angle as int
    }
}

/// Append the commands of one mouse-button edge to the cycle's command
/// list.
fn emit_button_commands(cmds: &mut Vec<InputCommand>, cur: bool, prev: bool, id: ButtonId)
    ensures
        final(cmds)@ == old(cmds)@ + spec_button_commands(cur, prev, id),
{
    match edge(cur, prev) {
        Edge::Rising => {
            cmds.push(InputCommand::ButtonPress(id));
        },
        Edge::Falling => {
            cmds.push(InputCommand::ButtonRelease(id));
        },
        Edge::SteadyHigh => {},
        Edge::SteadyLow => {},
    }
    assert(cmds@ =~= old(cmds)@ + spec_button_commands(cur, prev, id));
}

/// Append the commands of one logical-key transition to the cycle's
/// command list.
fn emit_key_commands(cmds: &mut Vec<InputCommand>, cur: bool, prev: bool, id: KeyId)
    ensures
        final(cmds)@ == old(cmds)@ + spec_key_commands(cur, prev, id),
{
    match edge(cur, prev) {
        Edge::Rising => {
            cmds.push(InputCommand::KeyPress(id));
        },
        Edge::SteadyHigh => {
            cmds.push(InputCommand::KeyRelease(id));
        },
        Edge::Falling => {},
        Edge::SteadyLow => {},
    }
    assert(cmds@ =~= old(cmds)@ + spec_key_commands(cur, prev, id));
}

impl InputTranslator {
    /// The retained reference angle always lies within [-pi, pi], as
    /// every angle handed in does.
    pub open spec fn wf(&self) -> bool {
        -PI_MICRORADIANS <= self.prev_angle <= PI_MICRORADIANS
    }

    /// A translator in its initial state: all-clear previous snapshot,
    /// scroll mode off, reference angle zero.
    pub fn new() -> (t: InputTranslator)
        ensures
            t.wf(),
            t.prev_data == DaydreamControllerData::spec_default(),
            !t.scroll_mode,
            t.prev_angle == 0,
    {
        InputTranslator {
            prev_data: DaydreamControllerData::default(),
            scroll_mode: false,
            prev_angle: 0,
        }
    }

    /// Run the motion phase of one cycle: pointer motion, or a rotary
    /// scroll tick in scroll mode. Appends the motion commands and moves
    /// the reference angle exactly when a tick fires; no other state
    /// changes.
    fn motion_phase(&mut self, cur: &DaydreamControllerData, cur_angle: i64, cmds: &mut Vec<InputCommand>)
        requires
            old(self).wf(),
            -PI_MICRORADIANS <= cur_angle <= PI_MICRORADIANS,
        ensures
            final(cmds)@ == old(cmds)@ + spec_motion_commands(
                old(self).prev_data,
                old(self).scroll_mode,
                old(self).prev_angle as int,
                *cur,
                cur_angle as int,
            ),
            final(self).prev_data == old(self).prev_data,
            final(self).scroll_mode == old(self).scroll_mode,
            final(self).prev_angle as int == spec_next_prev_angle(*old(self), *cur, cur_angle as int),
            final(self).wf(),
    {
        let ghost motion = spec_motion_commands(
            old(self).prev_data,
            old(self).scroll_mode,
            old(self).prev_angle as int,
            *cur,
            cur_angle as int,
        );
        if cur.touch_down && self.prev_data.touch_down {
            if !self.scroll_mode {
                let dx: i32 = ((cur.touchpad_x as i32) - (self.prev_data.touchpad_x as i32)) * 2;
                let dy: i32 = ((cur.touchpad_y as i32) - (self.prev_data.touchpad_y as i32)) * 2;
                cmds.push(InputCommand::MoveRelative(dx, dy));
            } else {
                let d: i64 = wrap_angle(cur_angle - self.prev_angle);
                if abs_angle(d) > SCROLL_DEADZONE_MICRORADIANS {
                    self.prev_angle = cur_angle;
                    cmds.push(
                        InputCommand::ScrollBy(
                            if d > 0 {
                                1
                            } else {
                                -1
                            },
                            ScrollAxis::Vertical,
                        ),
                    );
                }
            }
        }
        assert(cmds@ =~= old(cmds)@ + motion);
    }

    /// Translate one successfully decoded snapshot into the commands of
    /// this cycle and advance the retained state.
    ///
    /// `cur_angle` is the pointing angle of the current touch point
    /// around the touchpad center, in microradians within [-pi, pi]; it
    /// is consulted only in scroll mode while the touch is held. All
    /// commands are derived from the state as it was before this call.
    pub fn step(&mut self, cur: DaydreamControllerData, cur_angle: i64) -> (cmds: Vec<
        InputCommand,
    >)
        requires
            old(self).wf(),
            -PI_MICRORADIANS <= cur_angle <= PI_MICRORADIANS,
        ensures
            final(self).wf(),
            cmds@ == spec_cycle_commands(*old(self), cur, cur_angle as int),
            final(self).prev_data == cur,
            final(self).scroll_mode == spec_next_scroll_mode(*old(self), cur),
            final(self).prev_angle as int == spec_next_prev_angle(*old(self), cur, cur_angle as int),
    {
        let ghost motion = spec_motion_commands(
            old(self).prev_data,
            old(self).scroll_mode,
            old(self).prev_angle as int,
            cur,
            cur_angle as int,
        );
        let ghost left = spec_button_commands(
            cur.touch_click,
            old(self).prev_data.touch_click,
            ButtonId::Left,
        );
        let ghost right = spec_button_commands(cur.app, old(self).prev_data.app, ButtonId::Right);
        let ghost meta = spec_key_commands(cur.vol_down, old(self).prev_data.vol_down, KeyId::Meta);
        let ghost esc = spec_key_commands(cur.vol_up, old(self).prev_data.vol_up, KeyId::Escape);

        let mut cmds: Vec<InputCommand> = Vec::new();

        self.motion_phase(&cur, cur_angle, &mut cmds);

        // Touch click drives the left mouse button; a fresh click also
        // drops out of scroll mode as a user-accessible reset.
        emit_button_commands(&mut cmds, cur.touch_click, self.prev_data.touch_click, ButtonId::Left);
        if cur.touch_click && !self.prev_data.touch_click {
            self.scroll_mode = false;
        }

        // The app button drives the right mouse button.
        emit_button_commands(&mut cmds, cur.app, self.prev_data.app, ButtonId::Right);

        // A rising home edge toggles scroll mode; it emits no command.
        if cur.home && !self.prev_data.home {
            self.scroll_mode = !self.scroll_mode;
        }

        // Volume down maps to the Meta key, volume up to Escape, both
        // with the press-then-auto-release pattern.
        emit_key_commands(&mut cmds, cur.vol_down, self.prev_data.vol_down, KeyId::Meta);
        emit_key_commands(&mut cmds, cur.vol_up, self.prev_data.vol_up, KeyId::Escape);

        assert(cmds@ =~= motion + left + right + meta + esc);

        self.prev_data = cur;
        cmds
    }

    /// Handle one raw packet: decode it and, on success, translate the
    /// snapshot. A buffer of any length other than 20 emits no commands
    /// and leaves the translator exactly as it was — the malformed
    /// sample is dropped, never retained as a new baseline.
    pub fn process_packet(&mut self, data: Vec<u8>, cur_angle: i64) -> (cmds: Vec<InputCommand>)
        requires
            old(self).wf(),
            -PI_MICRORADIANS <= cur_angle <= PI_MICRORADIANS,
        ensures
            final(self).wf(),
            data@.len() != 20 ==> cmds@ =~= Seq::<InputCommand>::empty() && *final(self) == *old(self),
            data@.len() == 20 ==> {
                &&& cmds@ == spec_cycle_commands(*old(self), spec_snapshot(data@), cur_angle as int)
                &&& final(self).prev_data == spec_snapshot(data@)
                &&& final(self).scroll_mode == spec_next_scroll_mode(*old(self), spec_snapshot(data@))
                &&& final(self).prev_angle as int == spec_next_prev_angle(*old(self), spec_snapshot(data@), cur_angle as int)
            },
    {
        match parse_raw_controller_data(data) {
            Some(cur) => self.step(cur, cur_angle),
            None => Vec::new(),
        }
    }
}

/// Whether a command moves the pointer or scrolls — the two kinds of
/// command that touchpad motion can produce.
pub open spec fn spec_is_motion_command(c: InputCommand) -> bool {
    c is MoveRelative || c is ScrollBy
}

/// Button edges never produce motion commands.
proof fn lemma_button_commands_not_motion(cur: bool, prev: bool, id: ButtonId)
    ensures
        forall|i: int|
            0 <= i < spec_button_commands(cur, prev, id).len() ==> !spec_is_motion_command(
                #[trigger] spec_button_commands(cur, prev, id)[i],
            ),
{
}

/// Key transitions never produce motion commands.
proof fn lemma_key_commands_not_motion(cur: bool, prev: bool, id: KeyId)
    ensures
        forall|i: int|
            0 <= i < spec_key_commands(cur, prev, id).len() ==> !spec_is_motion_command(
                #[trigger] spec_key_commands(cur, prev, id)[i],
            ),
{
}

/// Motion needs two consecutive touch-down samples: a cycle whose
/// current or previous snapshot has the touch up emits neither pointer
/// motion nor a scroll tick, whatever else it emits. In particular an
/// isolated touch-down sample, preceded by touch up, moves nothing.
pub proof fn lemma_motion_needs_two_touch_downs(
    state: InputTranslator,
    cur: DaydreamControllerData,
    cur_angle: int,
)
    requires
        !(cur.touch_down && state.prev_data.touch_down),
    ensures
        forall|i: int|
            0 <= i < spec_cycle_commands(state, cur, cur_angle).len() ==> !spec_is_motion_command(
                #[trigger] spec_cycle_commands(state, cur, cur_angle)[i],
            ),
{
    let motion = spec_motion_commands(
        state.prev_data,
        state.scroll_mode,
        state.prev_angle as int,
        cur,
        cur_angle,
    );
    let left = spec_button_commands(cur.touch_click, state.prev_data.touch_click, ButtonId::Left);
    let right = spec_button_commands(cur.app, state.prev_data.app, ButtonId::Right);
    let meta = spec_key_commands(cur.vol_down, state.prev_data.vol_down, KeyId::Meta);
    let esc = spec_key_commands(cur.vol_up, state.prev_data.vol_up, KeyId::Escape);
    assert(motion.len() == 0);
    lemma_button_commands_not_motion(cur.touch_click, state.prev_data.touch_click, ButtonId::Left);
    lemma_button_commands_not_motion(cur.app, state.prev_data.app, ButtonId::Right);
    lemma_key_commands_not_motion(cur.vol_down, state.prev_data.vol_down, KeyId::Meta);
    lemma_key_commands_not_motion(cur.vol_up, state.prev_data.vol_up, KeyId::Escape);
    assert forall|i: int| 0 <= i < spec_cycle_commands(state, cur, cur_angle).len()
        implies !spec_is_motion_command(spec_cycle_commands(state, cur, cur_angle)[i]) by {
        let cycle = spec_cycle_commands(state, cur, cur_angle);
        assert(cycle[i] == (motion + left + right + meta + esc)[i]);
    }
}

/// The left mouse button follows the touch-click edges exactly. On a
/// cycle that is otherwise quiet — no touch held across both samples, no
/// app edge, both volume flags low — a rising click edge emits exactly
/// one left press, a steady-high click emits nothing, and a falling edge
/// emits exactly one left release.
pub proof fn lemma_left_button_edge_sequence(
    state: InputTranslator,
    cur: DaydreamControllerData,
    cur_angle: int,
)
    requires
        !(cur.touch_down && state.prev_data.touch_down),
        cur.app == state.prev_data.app,
        !cur.vol_down,
        !cur.vol_up,
    ensures
        cur.touch_click && !state.prev_data.touch_click ==> spec_cycle_commands(
            state,
            cur,
            cur_angle,
        ) =~= seq![InputCommand::ButtonPress(ButtonId::Left)],
        cur.touch_click && state.prev_data.touch_click ==> spec_cycle_commands(
            state,
            cur,
            cur_angle,
        ) =~= Seq::<InputCommand>::empty(),
        !cur.touch_click && state.prev_data.touch_click ==> spec_cycle_commands(
            state,
            cur,
            cur_angle,
        ) =~= seq![InputCommand::ButtonRelease(ButtonId::Left)],
{
}

/// The deadzone suppresses scrolling: when the normalized change between
/// the reference angle and the current angle is at most the deadzone,
/// the cycle emits no scroll tick and the stored reference angle does
/// not move.
pub proof fn lemma_deadzone_suppresses_scroll(
    state: InputTranslator,
    cur: DaydreamControllerData,
    cur_angle: int,
)
    requires
        spec_abs(spec_wrap_angle(cur_angle - state.prev_angle as int))
            <= SCROLL_DEADZONE_MICRORADIANS,
    ensures
        forall|i: int|
            0 <= i < spec_cycle_commands(state, cur, cur_angle).len() ==> !(
            #[trigger] spec_cycle_commands(state, cur, cur_angle)[i] is ScrollBy),
        spec_next_prev_angle(state, cur, cur_angle) == state.prev_angle as int,
{
    let motion = spec_motion_commands(
        state.prev_data,
        state.scroll_mode,
        state.prev_angle as int,
        cur,
        cur_angle,
    );
    let left = spec_button_commands(cur.touch_click, state.prev_data.touch_click, ButtonId::Left);
    let right = spec_button_commands(cur.app, state.prev_data.app, ButtonId::Right);
    let meta = spec_key_commands(cur.vol_down, state.prev_data.vol_down, KeyId::Meta);
    let esc = spec_key_commands(cur.vol_up, state.prev_data.vol_up, KeyId::Escape);
    assert(forall|i: int| 0 <= i < motion.len() ==> !(#[trigger] motion[i] is ScrollBy));
    lemma_button_commands_not_motion(cur.touch_click, state.prev_data.touch_click, ButtonId::Left);
    lemma_button_commands_not_motion(cur.app, state.prev_data.app, ButtonId::Right);
    lemma_key_commands_not_motion(cur.vol_down, state.prev_data.vol_down, KeyId::Meta);
    lemma_key_commands_not_motion(cur.vol_up, state.prev_data.vol_up, KeyId::Escape);
    assert forall|i: int| 0 <= i < spec_cycle_commands(state, cur, cur_angle).len()
        implies !(spec_cycle_commands(state, cur, cur_angle)[i] is ScrollBy) by {
        let cycle = spec_cycle_commands(state, cur, cur_angle);
        assert(cycle[i] == (motion + left + right + meta + esc)[i]);
    }
}

} // verus!


