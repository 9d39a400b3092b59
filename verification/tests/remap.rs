use caps_hjkl::keys::arrow_for;
use caps_hjkl::keys::direction_of_message;
use caps_hjkl::keys::Direction;
use caps_hjkl::keys::KeyEvent;
use caps_hjkl::keys::ARROW_DOWN;
use caps_hjkl::keys::ARROW_LEFT;
use caps_hjkl::keys::ARROW_RIGHT;
use caps_hjkl::keys::ARROW_UP;
use caps_hjkl::keys::CAPS_LOCK;
use caps_hjkl::keys::KEY_H;
use caps_hjkl::keys::KEY_J;
use caps_hjkl::keys::KEY_K;
use caps_hjkl::keys::KEY_L;
use caps_hjkl::keys::LEFT_CTRL;
use caps_hjkl::keys::RIGHT_CTRL;
use caps_hjkl::keys::MSG_KEY_DOWN;
use caps_hjkl::keys::MSG_KEY_UP;
use caps_hjkl::keys::MSG_SYS_KEY_DOWN;
use caps_hjkl::keys::MSG_SYS_KEY_UP;
use caps_hjkl::state_machine::effective_ctrl_source;
use caps_hjkl::state_machine::source_ctrl_vk;
use caps_hjkl::state_machine::CtrlSource;
use caps_hjkl::state_machine::ModifierState;

fn ev(vk: u16, direction: Direction) -> KeyEvent {
    KeyEvent { vk, direction }
}

#[test]
fn arrow_for_maps_hjkl_and_nothing_else() {
    assert_eq!(arrow_for(KEY_H), Some(ARROW_LEFT));
    assert_eq!(arrow_for(KEY_J), Some(ARROW_DOWN));
    assert_eq!(arrow_for(KEY_K), Some(ARROW_UP));
    assert_eq!(arrow_for(KEY_L), Some(ARROW_RIGHT));
    assert_eq!(arrow_for(0x41), None); // the letter A
    assert_eq!(arrow_for(CAPS_LOCK), None);
    assert_eq!(arrow_for(LEFT_CTRL), None);
    assert_eq!(arrow_for(0x20), None); // space
}

#[test]
fn direction_of_message_decodes_all_four_transitions() {
    assert_eq!(direction_of_message(MSG_KEY_DOWN), Some(Direction::Down));
    assert_eq!(direction_of_message(MSG_SYS_KEY_DOWN), Some(Direction::Down));
    assert_eq!(direction_of_message(MSG_KEY_UP), Some(Direction::Up));
    assert_eq!(direction_of_message(MSG_SYS_KEY_UP), Some(Direction::Up));
    assert_eq!(direction_of_message(0x0102), None); // a character message
    assert_eq!(direction_of_message(0), None);
}

#[test]
fn ctrl_source_priority_is_caps_then_left_then_right() {
    assert_eq!(effective_ctrl_source(false, false, false), CtrlSource::Inactive);
    assert_eq!(effective_ctrl_source(true, false, false), CtrlSource::CapsEmulated);
    assert_eq!(effective_ctrl_source(true, true, true), CtrlSource::CapsEmulated);
    assert_eq!(effective_ctrl_source(false, true, false), CtrlSource::LeftPhysical);
    assert_eq!(effective_ctrl_source(false, true, true), CtrlSource::LeftPhysical);
    assert_eq!(effective_ctrl_source(false, false, true), CtrlSource::RightPhysical);
}

#[test]
fn source_ctrl_vk_targets_the_concrete_key() {
    assert_eq!(source_ctrl_vk(CtrlSource::CapsEmulated), LEFT_CTRL);
    assert_eq!(source_ctrl_vk(CtrlSource::LeftPhysical), LEFT_CTRL);
    assert_eq!(source_ctrl_vk(CtrlSource::RightPhysical), RIGHT_CTRL);
}

#[test]
fn caps_down_injects_one_ctrl_down_and_suppresses() {
    let mut state = ModifierState::new();
    let verdict = state.handle(CAPS_LOCK, Direction::Down, false, false);
    assert!(verdict.suppress);
    assert_eq!(verdict.injections, vec![ev(LEFT_CTRL, Direction::Down)]);
    assert!(state.caps_as_ctrl);
}

#[test]
fn caps_up_injects_one_ctrl_up_and_suppresses() {
    let mut state = ModifierState::new();
    state.handle(CAPS_LOCK, Direction::Down, false, false);
    let verdict = state.handle(CAPS_LOCK, Direction::Up, false, false);
    assert!(verdict.suppress);
    assert_eq!(verdict.injections, vec![ev(LEFT_CTRL, Direction::Up)]);
    assert!(!state.caps_as_ctrl);
}

#[test]
fn caps_up_while_idle_still_releases_ctrl() {
    // Mirrors a release with no observed press (e.g. a key already held at
    // startup): the redundant release keeps Control from sticking.
    let mut state = ModifierState::new();
    let verdict = state.handle(CAPS_LOCK, Direction::Up, false, false);
    assert!(verdict.suppress);
    assert_eq!(verdict.injections, vec![ev(LEFT_CTRL, Direction::Up)]);
    assert!(!state.caps_as_ctrl);
}

#[test]
fn caps_down_twice_is_harmless() {
    let mut state = ModifierState::new();
    state.handle(CAPS_LOCK, Direction::Down, false, false);
    let verdict = state.handle(CAPS_LOCK, Direction::Down, false, false);
    assert!(verdict.suppress);
    assert_eq!(verdict.injections, vec![ev(LEFT_CTRL, Direction::Down)]);
    assert!(state.caps_as_ctrl);
}

#[test]
fn h_passes_through_without_any_ctrl_source() {
    let mut state = ModifierState::new();
    let verdict = state.handle(KEY_H, Direction::Down, false, false);
    assert!(!verdict.suppress);
    assert_eq!(verdict.injections, vec![]);
    assert!(!state.caps_as_ctrl);
}

#[test]
fn plain_letter_passes_through_even_with_ctrl_held() {
    let mut state = ModifierState::new();
    let verdict = state.handle(0x41, Direction::Down, true, false); // Ctrl+A
    assert!(!verdict.suppress);
    assert_eq!(verdict.injections, vec![]);
}

#[test]
fn caps_j_press_and_release_bracket_left_ctrl() {
    let mut state = ModifierState::new();
    state.handle(CAPS_LOCK, Direction::Down, false, false);

    let down = state.handle(KEY_J, Direction::Down, false, false);
    let up = state.handle(KEY_J, Direction::Up, false, false);
    assert!(down.suppress);
    assert!(up.suppress);

    let mut injected = down.injections.clone();
    injected.extend(up.injections.iter().cloned());
    assert_eq!(
        injected,
        vec![
            ev(LEFT_CTRL, Direction::Up),
            ev(ARROW_DOWN, Direction::Down),
            ev(ARROW_DOWN, Direction::Up),
            ev(LEFT_CTRL, Direction::Down),
        ]
    );
    assert!(state.caps_as_ctrl);
}

#[test]
fn right_physical_ctrl_l_brackets_right_ctrl() {
    let mut state = ModifierState::new();
    let down = state.handle(KEY_L, Direction::Down, false, true);
    assert!(down.suppress);
    assert_eq!(
        down.injections,
        vec![ev(RIGHT_CTRL, Direction::Up), ev(ARROW_RIGHT, Direction::Down)]
    );

    let up = state.handle(KEY_L, Direction::Up, false, true);
    assert!(up.suppress);
    assert_eq!(
        up.injections,
        vec![ev(ARROW_RIGHT, Direction::Up), ev(RIGHT_CTRL, Direction::Down)]
    );
}

#[test]
fn left_physical_ctrl_h_brackets_left_ctrl() {
    let mut state = ModifierState::new();
    let down = state.handle(KEY_H, Direction::Down, true, false);
    assert!(down.suppress);
    assert_eq!(
        down.injections,
        vec![ev(LEFT_CTRL, Direction::Up), ev(ARROW_LEFT, Direction::Down)]
    );
}

#[test]
fn caps_k_maps_to_arrow_up() {
    let mut state = ModifierState::new();
    state.handle(CAPS_LOCK, Direction::Down, false, false);
    let down = state.handle(KEY_K, Direction::Down, false, false);
    assert_eq!(
        down.injections,
        vec![ev(LEFT_CTRL, Direction::Up), ev(ARROW_UP, Direction::Down)]
    );
}

#[test]
fn injected_codes_never_feed_back() {
    let injected = [LEFT_CTRL, RIGHT_CTRL, ARROW_LEFT, ARROW_DOWN, ARROW_UP, ARROW_RIGHT];
    let directions = [Direction::Down, Direction::Up];
    for caps in [false, true] {
        for left in [false, true] {
            for right in [false, true] {
                for &vk in &injected {
                    for &direction in &directions {
                        let mut state = ModifierState { caps_as_ctrl: caps };
                        let verdict = state.handle(vk, direction, left, right);
                        assert!(!verdict.suppress);
                        assert_eq!(verdict.injections, vec![]);
                        assert_eq!(state.caps_as_ctrl, caps);
                    }
                }
            }
        }
    }
}

#[test]
fn caps_sequence_balances_ctrl_injections() {
    let mut state = ModifierState::new();
    let sequence = [
        Direction::Down,
        Direction::Up,
        Direction::Down,
        Direction::Down,
        Direction::Up,
    ];
    let mut injected: Vec<KeyEvent> = Vec::new();
    for &direction in &sequence {
        let verdict = state.handle(CAPS_LOCK, direction, false, false);
        injected.extend(verdict.injections.iter().cloned());
    }
    let downs = injected
        .iter()
        .filter(|e| e.vk == LEFT_CTRL && e.direction == Direction::Down)
        .count();
    let ups = injected
        .iter()
        .filter(|e| e.vk == LEFT_CTRL && e.direction == Direction::Up)
        .count();
    // Three CapsLock presses, two releases seen in the sequence.
    assert_eq!(downs, 3);
    assert_eq!(ups, 2);
    // At the balanced points (after two and after five events) the injected
    // presses and releases are equal.
    let at = |n: usize| {
        let prefix = &injected[..n];
        let d = prefix
            .iter()
            .filter(|e| e.vk == LEFT_CTRL && e.direction == Direction::Down)
            .count();
        let u = prefix
            .iter()
            .filter(|e| e.vk == LEFT_CTRL && e.direction == Direction::Up)
            .count();
        (d, u)
    };
    let (d2, u2) = at(2);
    assert_eq!(d2, u2);
}

#[test]
fn end_to_end_caps_h_session() {
    let mut state = ModifierState::new();
    let inputs = [
        (CAPS_LOCK, Direction::Down),
        (KEY_H, Direction::Down),
        (KEY_H, Direction::Up),
        (CAPS_LOCK, Direction::Up),
    ];
    let mut injected: Vec<KeyEvent> = Vec::new();
    for &(vk, direction) in &inputs {
        let verdict = state.handle(vk, direction, false, false);
        assert!(verdict.suppress);
        injected.extend(verdict.injections.iter().cloned());
    }
    assert_eq!(
        injected,
        vec![
            ev(LEFT_CTRL, Direction::Down),
            ev(LEFT_CTRL, Direction::Up),
            ev(ARROW_LEFT, Direction::Down),
            ev(ARROW_LEFT, Direction::Up),
            ev(LEFT_CTRL, Direction::Down),
            ev(LEFT_CTRL, Direction::Up),
        ]
    );
    assert!(!state.caps_as_ctrl);
}
