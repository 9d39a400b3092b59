//! Whole input sequences run through the state machine.
//!
//! [`spec_run`] folds the per-event transition relation over a sequence of
//! raw inputs and collects every injected event in order. On top of it the
//! balance law is proved: over any sequence of CapsLock transitions, the
//! injected LeftControl presses track the CapsLock presses one for one, and
//! the releases likewise, so at every balanced point the injected presses
//! and releases are equal and no emulated Control is left stuck.

use vstd::prelude::*;

use crate::keys::CAPS_LOCK;
use crate::keys::Direction;
use crate::keys::KeyEvent;
use crate::keys::LEFT_CTRL;
use crate::state_machine::spec_step;

verus! {

/// One raw transition as the hook sees it, together with the live physical
/// Control key states queried from the OS at that moment.
#[derive(Clone, Copy, Debug, PartialEq, Eq, Structural)]
pub struct RawInput {
    pub vk: u16,
    pub direction: Direction,
    pub left_ctrl_down: bool,
    pub right_ctrl_down: bool,
}

/// The outcome of a whole run: the CapsLock-as-Control flag at the end and
/// every injected event, in the order the injector would emit them.
pub struct Run {
    pub caps_as_ctrl: bool,
    pub injections: Seq<KeyEvent>,
}

/// Folds [`spec_step`] over an input sequence, threading the flag through
/// and concatenating the injections of every step.
pub open spec fn spec_run(caps_as_ctrl: bool, inputs: Seq<RawInput>) -> Run
    decreases inputs.len(),
{
    if inputs.len() == 0 {
        Run { caps_as_ctrl, injections: Seq::empty() }
    } else {
        let first = spec_step(
            caps_as_ctrl,
            inputs[0].vk,
            inputs[0].direction,
            inputs[0].left_ctrl_down,
            inputs[0].right_ctrl_down,
        );
        let rest = spec_run(first.caps_as_ctrl, inputs.drop_first());
        Run { caps_as_ctrl: rest.caps_as_ctrl, injections: first.injections + rest.injections }
    }
}

/// How many events in `s` are exactly `vk` moving in `direction`.
pub open spec fn count_events(s: Seq<KeyEvent>, vk: u16, direction: Direction) -> nat
    decreases s.len(),
{
    if s.len() == 0 {
        0
    } else {
        (if s[0].vk == vk && s[0].direction == direction {
            1nat
        } else {
            0nat
        }) + count_events(s.drop_first(), vk, direction)
    }
}

/// How many inputs in `s` move in `direction`.
pub open spec fn count_direction(s: Seq<RawInput>, direction: Direction) -> nat
    decreases s.len(),
{
    if s.len() == 0 {
        0
    } else {
        (if s[0].direction == direction {
            1nat
        } else {
            0nat
        }) + count_direction(s.drop_first(), direction)
    }
}

/// Counting distributes over concatenation.
pub proof fn lemma_count_events_add(a: Seq<KeyEvent>, b: Seq<KeyEvent>, vk: u16, direction: Direction)
    ensures
        count_events(a + b, vk, direction) == count_events(a, vk, direction) + count_events(
            b,
            vk,
            direction,
        ),
    decreases a.len(),
{
    if a.len() == 0 {
        assert(a + b =~= b);
    } else {
        assert((a + b).drop_first() =~= a.drop_first() + b);
        lemma_count_events_add(a.drop_first(), b, vk, direction);
    }
}

/// Over any sequence of CapsLock transitions, the injected LeftControl
/// presses equal the CapsLock presses seen so far, and the injected
/// LeftControl releases equal the CapsLock releases seen so far.
pub proof fn lemma_caps_run_counts(caps_as_ctrl: bool, inputs: Seq<RawInput>)
    requires
        forall|i: int| 0 <= i < inputs.len() ==> (#[trigger] inputs[i]).vk == CAPS_LOCK,
    ensures
        count_events(spec_run(caps_as_ctrl, inputs).injections, LEFT_CTRL, Direction::Down)
            == count_direction(inputs, Direction::Down),
        count_events(spec_run(caps_as_ctrl, inputs).injections, LEFT_CTRL, Direction::Up)
            == count_direction(inputs, Direction::Up),
    decreases inputs.len(),
{
    if inputs.len() > 0 {
        let first = spec_step(
            caps_as_ctrl,
            inputs[0].vk,
            inputs[0].direction,
            inputs[0].left_ctrl_down,
            inputs[0].right_ctrl_down,
        );
        let rest = spec_run(first.caps_as_ctrl, inputs.drop_first());
        lemma_caps_run_counts(first.caps_as_ctrl, inputs.drop_first());
        lemma_count_events_add(first.injections, rest.injections, LEFT_CTRL, Direction::Down);
        lemma_count_events_add(first.injections, rest.injections, LEFT_CTRL, Direction::Up);
        assert(first.injections.drop_first() =~= Seq::<KeyEvent>::empty());
        assert(count_events(Seq::<KeyEvent>::empty(), LEFT_CTRL, Direction::Down) == 0);
        assert(count_events(Seq::<KeyEvent>::empty(), LEFT_CTRL, Direction::Up) == 0);
    }
}

/// The balance law at any point: take any prefix of a CapsLock sequence in
/// which presses and releases balance; the LeftControl presses and
/// releases injected up to that point are equal.
pub proof fn lemma_caps_balanced_prefix(caps_as_ctrl: bool, inputs: Seq<RawInput>, point: int)
    requires
        forall|i: int| 0 <= i < inputs.len() ==> (#[trigger] inputs[i]).vk == CAPS_LOCK,
        0 <= point <= inputs.len(),
        count_direction(inputs.take(point), Direction::Down) == count_direction(
            inputs.take(point),
            Direction::Up,
        ),
    ensures
        count_events(spec_run(caps_as_ctrl, inputs.take(point)).injections, LEFT_CTRL, Direction::Down)
            == count_events(
            spec_run(caps_as_ctrl, inputs.take(point)).injections,
            LEFT_CTRL,
            Direction::Up,
        ),
{
    assert forall|i: int| 0 <= i < inputs.take(point).len() implies (#[trigger] inputs.take(
        point,
    )[i]).vk == CAPS_LOCK by {
        assert(inputs.take(point)[i] == inputs[i]);
    }
    lemma_caps_run_counts(caps_as_ctrl, inputs.take(point));
}

} // verus!
