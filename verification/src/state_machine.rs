//! The modifier/remap state machine.
//!
//! One transition at a time, the machine decides whether the original event
//! is suppressed and which synthetic events are injected in its place:
//! CapsLock is rewritten to a momentary LeftControl, and, while a Control
//! source is active, H/J/K/L are rewritten to the arrow keys, bracketed by
//! a release and a re-press of whichever Control source was found active so
//! that applications see a plain arrow key while the logical Control state
//! is preserved.

use vstd::prelude::*;

use crate::keys::ARROW_DOWN;
use crate::keys::ARROW_RIGHT;
use crate::keys::CAPS_LOCK;
use crate::keys::Direction;
use crate::keys::KEY_J;
use crate::keys::KEY_L;
use crate::keys::KeyEvent;
use crate::keys::LEFT_CTRL;
use crate::keys::RIGHT_CTRL;
use crate::keys::arrow_for;
use crate::keys::is_injected_code;
use crate::keys::spec_arrow_for;

verus! {

/// Where the logically-active Control modifier comes from at the moment an
/// H/J/K/L event is processed. At most one source is treated as active:
/// the emulated CapsLock flag wins over the physical left Control, which
/// wins over the physical right Control.
#[derive(Clone, Copy, Debug, PartialEq, Eq, Structural)]
pub enum CtrlSource {
    Inactive,
    CapsEmulated,
    LeftPhysical,
    RightPhysical,
}

/// The effective Control source, derived from the emulated flag and the
/// live physical key states: first match wins, in the order CapsLock
/// emulation, physical left Control, physical right Control.
pub open spec fn spec_ctrl_source(
    caps_as_ctrl: bool,
    left_ctrl_down: bool,
    right_ctrl_down: bool,
) -> CtrlSource {
    if caps_as_ctrl {
        CtrlSource::CapsEmulated
    } else if left_ctrl_down {
        CtrlSource::LeftPhysical
    } else if right_ctrl_down {
        CtrlSource::RightPhysical
    } else {
        CtrlSource::Inactive
    }
}

/// The virtual key that is released and re-pressed around an arrow
/// substitution for a given Control source: RightControl only for the
/// physical right key, LeftControl for the emulated and left sources.
pub open spec fn spec_source_ctrl_vk(source: CtrlSource) -> u16 {
    match source {
        CtrlSource::RightPhysical => RIGHT_CTRL,
        _ => LEFT_CTRL,
    }
}

/// Executable form of [`spec_ctrl_source`].
pub fn effective_ctrl_source(
    caps_as_ctrl: bool,
    left_ctrl_down: bool,
    right_ctrl_down: bool,
) -> (source: CtrlSource)
    ensures
        source == spec_ctrl_source(caps_as_ctrl, left_ctrl_down, right_ctrl_down),
{
    if caps_as_ctrl {
        CtrlSource::CapsEmulated
    } else if left_ctrl_down {
        CtrlSource::LeftPhysical
    } else if right_ctrl_down {
        CtrlSource::RightPhysical
    } else {
        CtrlSource::Inactive
    }
}

/// Executable form of [`spec_source_ctrl_vk`].
pub fn source_ctrl_vk(source: CtrlSource) -> (vk: u16)
    ensures
        vk == spec_source_ctrl_vk(source),
{
    match source {
        CtrlSource::RightPhysical => RIGHT_CTRL,
        _ => LEFT_CTRL,
    }
}

/// What one transition does: the CapsLock-as-Control flag afterwards,
/// whether the original event is suppressed, and the synthetic events to
/// inject, in order.
pub struct Step {
    pub caps_as_ctrl: bool,
    pub suppress: bool,
    pub injections: Seq<KeyEvent>,
}

/// A transition that passes through: nothing injected, state unchanged.
pub open spec fn spec_pass(caps_as_ctrl: bool) -> Step {
    Step { caps_as_ctrl, suppress: false, injections: Seq::empty() }
}

/// The transition relation of the state machine, per raw key event.
///
/// - CapsLock down sets the emulated flag and injects LeftControl down;
///   CapsLock up clears it and injects LeftControl up; both suppress the
///   original. A CapsLock up with the flag already clear still injects the
///   release, so an emulated Control can never stay stuck.
/// - H/J/K/L with a Control source active becomes the mapped arrow key:
///   on down, the active source's Control key is released before the arrow
///   goes down; on up, the arrow goes up and the source's Control key is
///   pressed again; both suppress the original.
/// - Every other transition passes through untouched.
pub open spec fn spec_step(
    caps_as_ctrl: bool,
    vk: u16,
    direction: Direction,
    left_ctrl_down: bool,
    right_ctrl_down: bool,
) -> Step {
    if vk == CAPS_LOCK {
        Step {
            caps_as_ctrl: direction is Down,
            suppress: true,
            injections: seq![KeyEvent { vk: LEFT_CTRL, direction }],
        }
    } else {
        let source = spec_ctrl_source(caps_as_ctrl, left_ctrl_down, right_ctrl_down);
        match spec_arrow_for(vk) {
            Some(arrow) => {
                if source is Inactive {
                    spec_pass(caps_as_ctrl)
                } else {
                    let ctrl = spec_source_ctrl_vk(source);
                    Step {
                        caps_as_ctrl,
                        suppress: true,
                        injections: if direction is Down {
                            seq![
                                KeyEvent { vk: ctrl, direction: Direction::Up },
                                KeyEvent { vk: arrow, direction: Direction::Down },
                            ]
                        } else {
                            seq![
                                KeyEvent { vk: arrow, direction: Direction::Up },
                                KeyEvent { vk: ctrl, direction: Direction::Down },
                            ]
                        },
                    }
                }
            },
            None => spec_pass(caps_as_ctrl),
        }
    }
}

/// What the state machine hands back to the hook for one raw event:
/// whether to swallow the original, and the events to inject before
/// returning, in order.
#[derive(Clone, Debug)]
pub struct Verdict {
    pub suppress: bool,
    pub injections: Vec<KeyEvent>,
}

/// The process-wide modifier state: whether CapsLock is currently held
/// down and being emulated as a Control modifier.
#[derive(Clone, Copy, Debug, PartialEq, Eq, Structural)]
pub struct ModifierState {
    pub caps_as_ctrl: bool,
}

impl ModifierState {
    /// The startup state: CapsLock not held, no emulated Control.
    pub fn new() -> (state: ModifierState)
        ensures
            !state.caps_as_ctrl,
    {
        ModifierState { caps_as_ctrl: false }
    }

    /// Handles one raw key transition. `left_ctrl_down` and
    /// `right_ctrl_down` are the live physical Control key states, queried
    /// from the OS at the moment the event is processed. The returned
    /// verdict and the updated state are exactly what [`spec_step`] says.
    pub fn handle(
        &mut self,
        vk: u16,
        direction: Direction,
        left_ctrl_down: bool,
        right_ctrl_down: bool,
    ) -> (verdict: Verdict)
        ensures
            ({
                let step = spec_step(
                    old(self).caps_as_ctrl,
                    vk,
                    direction,
                    left_ctrl_down,
                    right_ctrl_down,
                );
                &&& final(self).caps_as_ctrl == step.caps_as_ctrl
                &&& verdict.suppress == step.suppress
                &&& verdict.injections@ =~= step.injections
            }),
    {
        if vk == CAPS_LOCK {
            self.caps_as_ctrl = matches!(direction, Direction::Down);
            let mut injections: Vec<KeyEvent> = Vec::new();
            injections.push(KeyEvent { vk: LEFT_CTRL, direction });
            Verdict { suppress: true, injections }
        } else {
            let source = effective_ctrl_source(
                self.caps_as_ctrl,
                left_ctrl_down,
                right_ctrl_down,
            );
            match arrow_for(vk) {
                Some(arrow) => {
                    if source == CtrlSource::Inactive {
                        Verdict { suppress: false, injections: Vec::new() }
                    } else {
                        let ctrl = source_ctrl_vk(source);
                        let mut injections: Vec<KeyEvent> = Vec::new();
                        match direction {
                            Direction::Down => {
                                injections.push(KeyEvent { vk: ctrl, direction: Direction::Up });
                                injections.push(KeyEvent { vk: arrow, direction: Direction::Down });
                            },
                            Direction::Up => {
                                injections.push(KeyEvent { vk: arrow, direction: Direction::Up });
                                injections.push(KeyEvent { vk: ctrl, direction: Direction::Down });
                            },
                        }
                        Verdict { suppress: true, injections }
                    }
                },
                None => Verdict { suppress: false, injections: Vec::new() },
            }
        }
    }
}

/// A CapsLock transition is always suppressed and injects exactly one
/// LeftControl event moving the same way: one press for CapsLock down, one
/// release for CapsLock up — whatever the state and the physical keys.
pub proof fn lemma_caps_lock_injects_ctrl(
    caps_as_ctrl: bool,
    direction: Direction,
    left_ctrl_down: bool,
    right_ctrl_down: bool,
)
    ensures
        ({
            let step = spec_step(caps_as_ctrl, CAPS_LOCK, direction, left_ctrl_down, right_ctrl_down);
            &&& step.suppress
            &&& step.injections =~= seq![KeyEvent { vk: LEFT_CTRL, direction }]
            &&& step.caps_as_ctrl == (direction is Down)
        }),
{
}

/// With no Control source active, any key other than CapsLock — H
/// included — passes through: not suppressed, nothing injected, state
/// unchanged.
pub proof fn lemma_pass_through_without_ctrl(vk: u16, direction: Direction)
    requires
        vk != CAPS_LOCK,
    ensures
        ({
            let step = spec_step(false, vk, direction, false, false);
            &&& !step.suppress
            &&& step.injections =~= Seq::<KeyEvent>::empty()
            &&& !step.caps_as_ctrl
        }),
{
}

/// A key that is not CapsLock and not one of H/J/K/L passes through
/// whatever the Control sources say.
pub proof fn lemma_other_keys_pass_through(
    caps_as_ctrl: bool,
    vk: u16,
    direction: Direction,
    left_ctrl_down: bool,
    right_ctrl_down: bool,
)
    requires
        vk != CAPS_LOCK,
        spec_arrow_for(vk) is None,
    ensures
        ({
            let step = spec_step(caps_as_ctrl, vk, direction, left_ctrl_down, right_ctrl_down);
            &&& !step.suppress
            &&& step.injections =~= Seq::<KeyEvent>::empty()
            &&& step.caps_as_ctrl == caps_as_ctrl
        }),
{
}

/// While CapsLock is held as Control, a press and a release of J are both
/// suppressed and inject exactly LeftControl up, ArrowDown down, ArrowDown
/// up, LeftControl down, in that order — whatever the physical Control
/// keys do in the meantime.
pub proof fn lemma_caps_j_brackets(
    left_ctrl_down: bool,
    right_ctrl_down: bool,
    left_ctrl_later: bool,
    right_ctrl_later: bool,
)
    ensures
        ({
            let down = spec_step(true, KEY_J, Direction::Down, left_ctrl_down, right_ctrl_down);
            let up = spec_step(down.caps_as_ctrl, KEY_J, Direction::Up, left_ctrl_later, right_ctrl_later);
            &&& down.suppress
            &&& up.suppress
            &&& down.injections + up.injections =~= seq![
                KeyEvent { vk: LEFT_CTRL, direction: Direction::Up },
                KeyEvent { vk: ARROW_DOWN, direction: Direction::Down },
                KeyEvent { vk: ARROW_DOWN, direction: Direction::Up },
                KeyEvent { vk: LEFT_CTRL, direction: Direction::Down },
            ]
        }),
{
}

/// With only the physical right Control held, an L transition brackets
/// with RightControl, not LeftControl: the release before the arrow goes
/// down and the re-press after the arrow goes up both target RightControl.
pub proof fn lemma_right_ctrl_brackets_right(direction: Direction)
    ensures
        ({
            let step = spec_step(false, KEY_L, direction, false, true);
            &&& step.suppress
            &&& step.injections =~= (if direction is Down {
                seq![
                    KeyEvent { vk: RIGHT_CTRL, direction: Direction::Up },
                    KeyEvent { vk: ARROW_RIGHT, direction: Direction::Down },
                ]
            } else {
                seq![
                    KeyEvent { vk: ARROW_RIGHT, direction: Direction::Up },
                    KeyEvent { vk: RIGHT_CTRL, direction: Direction::Down },
                ]
            })
        }),
{
}

/// No feedback: a code the remapper itself injects (either Control key or
/// any arrow key) is never remapped when it comes back through the
/// handler — it passes through with no injections and no state change, in
/// every state.
pub proof fn lemma_no_feedback(
    caps_as_ctrl: bool,
    vk: u16,
    direction: Direction,
    left_ctrl_down: bool,
    right_ctrl_down: bool,
)
    requires
        is_injected_code(vk),
    ensures
        ({
            let step = spec_step(caps_as_ctrl, vk, direction, left_ctrl_down, right_ctrl_down);
            &&& !step.suppress
            &&& step.injections =~= Seq::<KeyEvent>::empty()
            &&& step.caps_as_ctrl == caps_as_ctrl
        }),
{
}

/// Every event a transition injects carries one of the injectable codes,
/// so together with [`lemma_no_feedback`] the injected stream can never
/// feed the remap logic.
pub proof fn lemma_injections_closed(
    caps_as_ctrl: bool,
    vk: u16,
    direction: Direction,
    left_ctrl_down: bool,
    right_ctrl_down: bool,
)
    ensures
        forall|i: int|
            0 <= i < spec_step(caps_as_ctrl, vk, direction, left_ctrl_down, right_ctrl_down).injections.len()
                ==> is_injected_code(
                #[trigger] spec_step(
                    caps_as_ctrl,
                    vk,
                    direction,
                    left_ctrl_down,
                    right_ctrl_down,
                ).injections[i].vk,
            ),
{
}

} // verus!
