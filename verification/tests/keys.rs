use stt_core::keys::{ActivationSource, ActivationState, Key, Keys, Transition};

fn told(state: ActivationState, source: ActivationSource) -> Option<Transition> {
    Some(Transition { state, source: Some(source) })
}

/// Left modifier and secondary key held: active by the left chord.
fn active_by_left() -> Keys {
    let mut keys = Keys::new();
    assert_eq!(keys.handle_key(Key::MetaLeft, true), None);
    assert_eq!(
        keys.handle_key(Key::Alt, true),
        told(ActivationState::Active, ActivationSource::LeftChord)
    );
    keys
}

#[test]
fn new_engine_is_inactive_without_source() {
    let keys = Keys::new();
    assert_eq!(keys.get_state(), ActivationState::Inactive);
    assert_eq!(keys.get_source(), None);
    assert_eq!(keys.check_chord(), None);
}

#[test]
fn default_engine_is_a_new_engine() {
    let mut keys = Keys::default();
    assert_eq!(keys.get_state(), ActivationState::Inactive);
    assert_eq!(keys.get_source(), None);
    // both sides are enabled
    keys.handle_key(Key::Alt, true);
    assert_eq!(
        keys.handle_key(Key::MetaRight, true),
        told(ActivationState::Active, ActivationSource::RightChord)
    );
}

#[test]
fn left_modifier_then_secondary_activates_once() {
    let mut keys = Keys::new();
    let mut fired = Vec::new();
    fired.extend(keys.handle_key(Key::MetaLeft, true));
    fired.extend(keys.handle_key(Key::Alt, true));
    assert_eq!(
        fired,
        vec![Transition {
            state: ActivationState::Active,
            source: Some(ActivationSource::LeftChord)
        }]
    );
    assert_eq!(keys.get_state(), ActivationState::Active);
    assert_eq!(keys.get_source(), Some(ActivationSource::LeftChord));
}

#[test]
fn second_modifier_while_active_changes_nothing() {
    let mut keys = active_by_left();
    assert_eq!(keys.handle_key(Key::MetaRight, true), None);
    assert_eq!(keys.get_state(), ActivationState::Active);
    assert_eq!(keys.get_source(), Some(ActivationSource::LeftChord));
}

#[test]
fn releasing_the_activating_side_keeps_the_other_chord_active() {
    let mut keys = active_by_left();
    keys.handle_key(Key::MetaRight, true);
    assert_eq!(keys.handle_key(Key::MetaLeft, false), None);
    assert_eq!(keys.get_state(), ActivationState::Active);
    assert_eq!(keys.get_source(), Some(ActivationSource::LeftChord));
    // the right side is the one that holds now
    assert_eq!(keys.check_chord(), Some(ActivationSource::RightChord));
}

#[test]
fn last_release_reports_the_recorded_source() {
    let mut keys = active_by_left();
    keys.handle_key(Key::MetaRight, true);
    keys.handle_key(Key::MetaLeft, false);
    assert_eq!(
        keys.handle_key(Key::MetaRight, false),
        told(ActivationState::Inactive, ActivationSource::LeftChord)
    );
    assert_eq!(keys.get_state(), ActivationState::Inactive);
    assert_eq!(keys.get_source(), None);
}

#[test]
fn disabled_right_side_does_not_activate() {
    let mut keys = Keys::new();
    keys.set_enabled(true, false);
    assert_eq!(keys.handle_key(Key::MetaRight, true), None);
    assert_eq!(keys.handle_key(Key::Alt, true), None);
    assert_eq!(keys.get_state(), ActivationState::Inactive);
    assert_eq!(keys.get_source(), None);
    assert_eq!(keys.check_chord(), None);
}

#[test]
fn disabled_left_side_does_not_activate() {
    let mut keys = Keys::new();
    keys.set_enabled(false, true);
    assert_eq!(keys.handle_key(Key::Alt, true), None);
    assert_eq!(keys.handle_key(Key::MetaLeft, true), None);
    assert_eq!(keys.get_state(), ActivationState::Inactive);
}

#[test]
fn right_chord_activates_with_right_source() {
    let mut keys = Keys::new();
    assert_eq!(keys.handle_key(Key::Alt, true), None);
    assert_eq!(
        keys.handle_key(Key::MetaRight, true),
        told(ActivationState::Active, ActivationSource::RightChord)
    );
    assert_eq!(keys.get_source(), Some(ActivationSource::RightChord));
    assert_eq!(
        keys.handle_key(Key::Alt, false),
        told(ActivationState::Inactive, ActivationSource::RightChord)
    );
}

#[test]
fn left_side_takes_priority_when_both_are_held() {
    let mut keys = Keys::new();
    keys.handle_key(Key::MetaRight, true);
    keys.handle_key(Key::MetaLeft, true);
    assert_eq!(
        keys.handle_key(Key::Alt, true),
        told(ActivationState::Active, ActivationSource::LeftChord)
    );
}

#[test]
fn left_side_disabled_falls_through_to_right() {
    let mut keys = Keys::new();
    keys.set_enabled(false, true);
    keys.handle_key(Key::MetaLeft, true);
    keys.handle_key(Key::MetaRight, true);
    assert_eq!(
        keys.handle_key(Key::Alt, true),
        told(ActivationState::Active, ActivationSource::RightChord)
    );
}

#[test]
fn untracked_keys_are_ignored() {
    let mut keys = Keys::new();
    assert_eq!(keys.handle_key(Key::Other, true), None);
    assert_eq!(keys.handle_key(Key::Other, false), None);
    assert_eq!(keys.get_state(), ActivationState::Inactive);

    let mut keys = active_by_left();
    assert_eq!(keys.handle_key(Key::Other, false), None);
    assert_eq!(keys.handle_key(Key::Other, true), None);
    assert_eq!(keys.get_state(), ActivationState::Active);
    assert_eq!(keys.get_source(), Some(ActivationSource::LeftChord));
    assert_eq!(keys.check_chord(), Some(ActivationSource::LeftChord));
}

#[test]
fn a_release_never_activates() {
    let mut keys = Keys::new();
    keys.handle_key(Key::MetaLeft, true);
    keys.handle_key(Key::MetaRight, true);
    keys.handle_key(Key::Alt, true);
    // active by the left chord; drop everything
    keys.handle_key(Key::Alt, false);
    assert_eq!(keys.get_state(), ActivationState::Inactive);
    keys.set_enabled(false, false);
    keys.handle_key(Key::Alt, true);
    keys.set_enabled(true, true);
    // the chord is held and enabled again, but only a press looks for it
    assert_eq!(keys.check_chord(), Some(ActivationSource::LeftChord));
    assert_eq!(keys.handle_key(Key::MetaRight, false), None);
    assert_eq!(keys.get_state(), ActivationState::Inactive);
}

#[test]
fn a_press_never_deactivates() {
    let mut keys = active_by_left();
    keys.set_enabled(false, false);
    assert_eq!(keys.check_chord(), None);
    assert_eq!(keys.handle_key(Key::MetaRight, true), None);
    assert_eq!(keys.handle_key(Key::Alt, true), None);
    assert_eq!(keys.get_state(), ActivationState::Active);
    assert_eq!(keys.get_source(), Some(ActivationSource::LeftChord));
}

#[test]
fn two_secondary_keys_count_separately() {
    let mut keys = active_by_left();
    // the second physical key of the same code goes down, then one comes up
    assert_eq!(keys.handle_key(Key::Alt, true), None);
    assert_eq!(keys.handle_key(Key::Alt, false), None);
    assert_eq!(keys.get_state(), ActivationState::Active);
    assert_eq!(
        keys.handle_key(Key::Alt, false),
        told(ActivationState::Inactive, ActivationSource::LeftChord)
    );
}

#[test]
fn repeated_modifier_press_changes_nothing() {
    let mut keys = Keys::new();
    keys.handle_key(Key::MetaLeft, true);
    assert_eq!(keys.handle_key(Key::MetaLeft, true), None);
    assert_eq!(keys.handle_key(Key::MetaLeft, true), None);
    assert_eq!(keys.get_state(), ActivationState::Inactive);
    assert_eq!(
        keys.handle_key(Key::Alt, true),
        told(ActivationState::Active, ActivationSource::LeftChord)
    );
    // key repeat while active
    assert_eq!(keys.handle_key(Key::MetaLeft, true), None);
    assert_eq!(keys.get_state(), ActivationState::Active);
    // one release undoes any number of presses of a modifier
    assert_eq!(
        keys.handle_key(Key::MetaLeft, false),
        told(ActivationState::Inactive, ActivationSource::LeftChord)
    );
}

#[test]
fn press_and_release_net_to_the_prior_count() {
    let mut keys = Keys::new();
    keys.handle_key(Key::MetaLeft, true);
    for _ in 0..5 {
        keys.handle_key(Key::Alt, true);
    }
    for _ in 0..4 {
        assert_eq!(keys.handle_key(Key::Alt, false), None);
    }
    assert_eq!(keys.get_state(), ActivationState::Active);
    assert_eq!(
        keys.handle_key(Key::Alt, false),
        told(ActivationState::Inactive, ActivationSource::LeftChord)
    );
    assert_eq!(keys.check_chord(), None);
}

#[test]
fn disabling_the_active_side_waits_for_the_next_release() {
    let mut keys = active_by_left();
    keys.set_enabled(false, true);
    assert_eq!(keys.get_state(), ActivationState::Active);
    assert_eq!(keys.get_source(), Some(ActivationSource::LeftChord));
    // a release of a key that is not even part of the chord looks again
    assert_eq!(
        keys.handle_key(Key::MetaRight, false),
        told(ActivationState::Inactive, ActivationSource::LeftChord)
    );
    assert_eq!(keys.get_source(), None);
}

#[test]
fn enabling_does_not_activate_by_itself() {
    let mut keys = Keys::new();
    keys.set_enabled(false, false);
    keys.handle_key(Key::MetaLeft, true);
    keys.handle_key(Key::Alt, true);
    assert_eq!(keys.get_state(), ActivationState::Inactive);
    keys.set_enabled(true, true);
    assert_eq!(keys.get_state(), ActivationState::Inactive);
    assert_eq!(keys.get_source(), None);
    // the next press of a tracked key finds the chord
    assert_eq!(
        keys.handle_key(Key::MetaLeft, true),
        told(ActivationState::Active, ActivationSource::LeftChord)
    );
}

#[test]
fn source_stays_while_sides_come_and_go() {
    let mut keys = Keys::new();
    keys.handle_key(Key::Alt, true);
    assert_eq!(
        keys.handle_key(Key::MetaRight, true),
        told(ActivationState::Active, ActivationSource::RightChord)
    );
    for _ in 0..3 {
        keys.handle_key(Key::MetaLeft, true);
        assert_eq!(keys.check_chord(), Some(ActivationSource::LeftChord));
        assert_eq!(keys.get_source(), Some(ActivationSource::RightChord));
        keys.handle_key(Key::MetaLeft, false);
        assert_eq!(keys.get_source(), Some(ActivationSource::RightChord));
    }
    keys.handle_key(Key::MetaLeft, true);
    assert_eq!(keys.handle_key(Key::MetaRight, false), None);
    assert_eq!(
        keys.handle_key(Key::MetaLeft, false),
        told(ActivationState::Inactive, ActivationSource::RightChord)
    );
}

#[test]
fn source_is_recorded_exactly_while_active() {
    let events = [
        (Key::Alt, true),
        (Key::MetaLeft, true),
        (Key::MetaRight, true),
        (Key::Alt, true),
        (Key::MetaLeft, false),
        (Key::Other, true),
        (Key::Alt, false),
        (Key::MetaRight, false),
        (Key::Alt, false),
        (Key::MetaRight, true),
        (Key::Alt, true),
        (Key::Alt, false),
    ];
    let mut keys = Keys::new();
    let mut active = false;
    for (key, pressed) in events {
        let fired = keys.handle_key(key, pressed);
        // active exactly if the last thing told was an activation
        if let Some(transition) = fired {
            assert!(transition.source.is_some());
            assert_ne!(transition.source, Some(ActivationSource::EitherChord));
            active = transition.state == ActivationState::Active;
        }
        assert_eq!(keys.get_state() == ActivationState::Active, active);
        assert_eq!(keys.get_source().is_some(), active);
        // and, on this sequence, exactly while a side is satisfied
        assert_eq!(keys.check_chord().is_some(), active);
    }
    assert!(!active);
}

#[test]
fn unmatched_release_wraps_the_count_and_reads_as_held() {
    let mut keys = Keys::new();
    // a release that no press went before: the count falls below zero
    assert_eq!(keys.handle_key(Key::Alt, false), None);
    assert_eq!(keys.check_chord(), None);
    // and now reads as two hundred and fifty-five keys held
    assert_eq!(
        keys.handle_key(Key::MetaLeft, true),
        told(ActivationState::Active, ActivationSource::LeftChord)
    );
    // the press that was missing brings the count back to zero, but a press
    // does not switch off
    assert_eq!(keys.handle_key(Key::Alt, true), None);
    assert_eq!(keys.check_chord(), None);
    assert_eq!(keys.get_state(), ActivationState::Active);
    assert_eq!(
        keys.handle_key(Key::MetaLeft, false),
        told(ActivationState::Inactive, ActivationSource::LeftChord)
    );
}

#[test]
fn count_wraps_to_zero_after_256_presses() {
    let mut keys = Keys::new();
    keys.handle_key(Key::MetaLeft, true);
    assert_eq!(
        keys.handle_key(Key::Alt, true),
        told(ActivationState::Active, ActivationSource::LeftChord)
    );
    for _ in 0..254 {
        assert_eq!(keys.handle_key(Key::Alt, true), None);
        assert_eq!(keys.check_chord(), Some(ActivationSource::LeftChord));
    }
    // the 256th press: no side is satisfied, the engine is still active
    assert_eq!(keys.handle_key(Key::Alt, true), None);
    assert_eq!(keys.check_chord(), None);
    assert_eq!(keys.get_state(), ActivationState::Active);
    assert_eq!(keys.get_source(), Some(ActivationSource::LeftChord));
}

#[test]
fn what_is_told_goes_to_and_fro() {
    let events = [
        (Key::MetaRight, true),
        (Key::Alt, true),
        (Key::MetaLeft, true),
        (Key::MetaRight, false),
        (Key::Alt, true),
        (Key::Alt, false),
        (Key::Alt, false),
        (Key::Alt, true),
        (Key::MetaLeft, false),
        (Key::MetaRight, true),
        (Key::MetaLeft, true),
        (Key::MetaRight, false),
        (Key::MetaLeft, false),
    ];
    let mut keys = Keys::new();
    let mut heard = Vec::new();
    for (key, pressed) in events {
        heard.extend(keys.handle_key(key, pressed));
    }
    let on = |source| Transition { state: ActivationState::Active, source: Some(source) };
    let off = |source| Transition { state: ActivationState::Inactive, source: Some(source) };
    assert_eq!(
        heard,
        vec![
            on(ActivationSource::RightChord),
            off(ActivationSource::RightChord),
            on(ActivationSource::LeftChord),
            off(ActivationSource::LeftChord),
            on(ActivationSource::RightChord),
            off(ActivationSource::RightChord),
        ]
    );
    assert_eq!(keys.get_state(), ActivationState::Inactive);
}
