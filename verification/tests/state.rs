use opendeck_teams_for_linux::state::{MicState, StateTopic, TeamsState};

fn state(muted: bool, in_call: Option<bool>) -> MicState {
    MicState { muted, in_call }
}

// -- microphone/control topic --

#[test]
fn control_muted_sets_muted() {
    let mut s = MicState::default();
    assert!(s.apply(StateTopic::MicrophoneControl, "muted"));
    assert_eq!(s, state(true, None));
}

#[test]
fn control_unmuted_clears_muted() {
    let mut s = state(true, Some(true));
    assert!(s.apply(StateTopic::MicrophoneControl, "unmuted"));
    assert_eq!(s, state(false, Some(true)));
}

#[test]
fn control_off_ends_call_and_unmutes() {
    let mut s = state(true, Some(true));
    assert!(s.apply(StateTopic::MicrophoneControl, "off"));
    assert_eq!(s, state(false, Some(false)));
}

#[test]
fn control_unknown_payload_ignored() {
    let mut s = state(true, Some(true));
    assert!(!s.apply(StateTopic::MicrophoneControl, "weird"));
    assert_eq!(s, state(true, Some(true)));
}

// -- microphone topic (rich + boolean payloads) --

#[test]
fn microphone_true_and_muted_set_muted() {
    for payload in ["true", "muted"] {
        let mut s = state(false, Some(true));
        assert!(s.apply(StateTopic::Microphone, payload));
        assert_eq!(s, state(true, Some(true)), "payload {payload}");
    }
}

#[test]
fn microphone_false_speaking_silent_clear_muted() {
    for payload in ["false", "speaking", "silent"] {
        let mut s = state(true, Some(true));
        assert!(s.apply(StateTopic::Microphone, payload));
        assert_eq!(s, state(false, Some(true)), "payload {payload}");
    }
}

#[test]
fn microphone_off_ends_call_and_unmutes() {
    let mut s = state(true, Some(true));
    assert!(s.apply(StateTopic::Microphone, "off"));
    assert_eq!(s, state(false, Some(false)));
}

#[test]
fn microphone_unknown_payload_ignored() {
    let mut s = state(false, Some(true));
    assert!(!s.apply(StateTopic::Microphone, "garbled"));
    assert_eq!(s, state(false, Some(true)));
}

// -- in-call topic --

#[test]
fn in_call_true_sets_active() {
    let mut s = MicState::default();
    assert!(s.apply(StateTopic::InCall, "true"));
    assert_eq!(s, state(false, Some(true)));
}

#[test]
fn in_call_false_resets_mute() {
    let mut s = state(true, Some(true));
    assert!(s.apply(StateTopic::InCall, "false"));
    assert_eq!(s, state(false, Some(false)));
}

#[test]
fn apply_returns_false_when_nothing_changes() {
    let mut s = state(false, Some(true));
    assert!(!s.apply(StateTopic::InCall, "true"));
}

// -- further cases --

#[test]
fn payloads_are_matched_exactly() {
    // Case and surrounding blanks are normalised before `apply`, not by it.
    for payload in ["MUTED", " muted", "muted ", "mute", ""] {
        let mut s = state(false, Some(true));
        assert!(!s.apply(StateTopic::MicrophoneControl, payload), "payload {payload:?}");
        assert_eq!(s, state(false, Some(true)));
    }
}

#[test]
fn microphone_control_does_not_take_boolean_payloads() {
    let mut s = state(false, Some(true));
    assert!(!s.apply(StateTopic::MicrophoneControl, "true"));
    assert_eq!(s, state(false, Some(true)));
}

#[test]
fn in_call_topic_ignores_mute_payloads() {
    let mut s = state(false, Some(true));
    assert!(!s.apply(StateTopic::InCall, "muted"));
    assert!(!s.apply(StateTopic::InCall, "off"));
    assert_eq!(s, state(false, Some(true)));
}

#[test]
fn in_call_true_keeps_mute_flag() {
    let mut s = state(true, Some(false));
    assert!(s.apply(StateTopic::InCall, "true"));
    assert_eq!(s, state(true, Some(true)));
}

#[test]
fn applying_twice_changes_nothing_the_second_time() {
    let topics = [StateTopic::Microphone, StateTopic::MicrophoneControl, StateTopic::InCall];
    let payloads = ["true", "false", "muted", "unmuted", "off", "speaking", "silent", "x"];
    let starts = [state(false, None), state(true, Some(true)), state(true, Some(false))];
    for topic in topics {
        for payload in payloads {
            for start in starts {
                let mut s = start;
                let _ = s.apply(topic, payload);
                let once = s;
                assert!(!s.apply(topic, payload));
                assert_eq!(s, once);
            }
        }
    }
}

#[test]
fn call_end_always_resets_mute() {
    for start in [state(true, None), state(true, Some(true)), state(false, Some(true))] {
        for (topic, payload) in [
            (StateTopic::MicrophoneControl, "off"),
            (StateTopic::Microphone, "off"),
            (StateTopic::InCall, "false"),
        ] {
            let mut s = start;
            let _ = s.apply(topic, payload);
            assert_eq!(s, state(false, Some(false)));
        }
    }
}

#[test]
fn in_active_call_only_for_some_true() {
    assert!(state(false, Some(true)).in_active_call());
    assert!(!state(false, Some(false)).in_active_call());
    assert!(!state(true, None).in_active_call());
}

#[test]
fn teams_state_leaves_camera_unreported() {
    let t = state(true, Some(true)).teams_state();
    assert_eq!(t, TeamsState { muted: true, in_call: Some(true), camera_on: None });
    assert!(t.in_active_call());
    assert_eq!(TeamsState::default(), TeamsState { muted: false, in_call: None, camera_on: None });
}
