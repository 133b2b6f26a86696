use opendeck_teams_for_linux::control::{
    png_data_uri, CameraControl, Control, HandControl, Icon, MuteControl,
};
use opendeck_teams_for_linux::state::TeamsState;

fn in_call(muted: bool) -> TeamsState {
    TeamsState { muted, in_call: Some(true), camera_on: None }
}

/// Stand-in image bytes: the PNG signature followed by the icon's file name,
/// so that every icon has different contents.
fn icon_bytes(icon: Icon) -> Vec<u8> {
    let mut bytes = vec![0x89, b'P', b'N', b'G', 0x0D, 0x0A, 0x1A, 0x0A];
    bytes.extend_from_slice(icon.file_name().as_bytes());
    bytes
}

fn uri(icon: Icon) -> String {
    png_data_uri(&icon_bytes(icon))
}

// -- mute --

#[test]
fn mute_control_command_and_uuid() {
    assert_eq!(MuteControl::UUID, "com.geoffdavis.teamsforlinux.toggle-mute");
    assert_eq!(MuteControl::COMMAND, r#"{"action":"toggle-mute"}"#);
}

#[test]
fn mute_display_setup_when_unconfigured() {
    let d = MuteControl::display(TeamsState::default(), false);
    assert_eq!(d.title, "SETUP");
}

#[test]
fn mute_display_off_when_not_in_call() {
    // Unknown call state (None) and an ended call (Some(false)) both show OFF.
    for in_call in [None, Some(false)] {
        let d = MuteControl::display(TeamsState { in_call, ..Default::default() }, true);
        assert_eq!(d.title, "OFF", "in_call = {in_call:?}");
        assert_eq!(d.image, Icon::MuteOff);
        assert_eq!(d.image.file_name(), "icon-off@2x.png");
    }
}

#[test]
fn mute_display_mic_and_muted() {
    assert_eq!(MuteControl::display(in_call(false), true).title, "MIC");
    let muted = MuteControl::display(in_call(true), true);
    assert_eq!(muted.title, "MUTED");
    assert_eq!(muted.state_index, 1);
    assert_eq!(muted.image, Icon::MuteMuted);
    assert_eq!(muted.image.file_name(), "icon-muted@2x.png");
}

// -- camera --

#[test]
fn camera_control_command_and_uuid() {
    assert_eq!(CameraControl::UUID, "com.geoffdavis.teamsforlinux.toggle-camera");
    assert_eq!(CameraControl::COMMAND, r#"{"action":"toggle-video"}"#);
}

#[test]
fn camera_display_setup_and_off() {
    assert_eq!(CameraControl::display(TeamsState::default(), false).title, "SETUP");
    // Configured but not in a call -> OFF (disabled image).
    let off = CameraControl::display(TeamsState::default(), true);
    assert_eq!(off.title, "OFF");
    assert_eq!(off.image, Icon::CamDisabled);
}

#[test]
fn camera_display_on_when_camera_on_in_call() {
    let mut s = in_call(false);
    s.camera_on = Some(true);
    let d = CameraControl::display(s, true);
    assert_eq!(d.title, "CAM");
    assert_eq!(d.state_index, 0);
    assert_eq!(d.image, Icon::CamOn);
}

#[test]
fn camera_display_off_when_camera_off_or_unknown_in_call() {
    for cam in [Some(false), None] {
        let mut s = in_call(false);
        s.camera_on = cam;
        let d = CameraControl::display(s, true);
        assert_eq!(d.title, "CAM OFF", "camera_on = {cam:?}");
        assert_eq!(d.state_index, 1);
        assert_eq!(d.image, Icon::CamOff);
    }
}

// -- hand-raise --

#[test]
fn hand_control_command_and_uuid() {
    assert_eq!(HandControl::UUID, "com.geoffdavis.teamsforlinux.toggle-hand-raise");
    assert_eq!(HandControl::COMMAND, r#"{"action":"toggle-hand-raise"}"#);
}

#[test]
fn hand_display_setup_off_and_active() {
    // Unconfigured and configured-but-not-in-call both show the disabled
    // image; only an active call shows the lit hand.
    let setup = HandControl::display(TeamsState::default(), false);
    assert_eq!(setup.title, "SETUP");
    assert_eq!(setup.image, Icon::HandDisabled);
    let off = HandControl::display(TeamsState::default(), true);
    assert_eq!(off.title, "OFF");
    assert_eq!(off.image, Icon::HandDisabled);

    let on = HandControl::display(in_call(false), true);
    assert_eq!(on.title, "HAND");
    assert_eq!(on.state_index, 0);
    assert_eq!(on.image, Icon::HandOn);
}

// -- shared activation guard --

#[test]
fn controls_activate_only_in_call_and_configured() {
    for active in [
        MuteControl::can_activate(in_call(false), true),
        CameraControl::can_activate(in_call(false), true),
        HandControl::can_activate(in_call(false), true),
    ] {
        assert!(active);
    }
    assert!(!MuteControl::can_activate(in_call(false), false));
    assert!(!CameraControl::can_activate(TeamsState::default(), true));
    assert!(!HandControl::can_activate(TeamsState::default(), true));
}

#[test]
fn action_images_are_distinct_data_uris() {
    for icon in [
        Icon::MuteNormal,
        Icon::CamOn,
        Icon::CamOff,
        Icon::CamDisabled,
        Icon::HandOn,
        Icon::HandDisabled,
    ] {
        assert!(uri(icon).starts_with("data:image/png;base64,"));
    }
    assert_ne!(uri(Icon::CamOn), uri(Icon::CamOff));
    assert_ne!(uri(Icon::CamOn), uri(Icon::MuteNormal));
    assert_ne!(uri(Icon::HandOn), uri(Icon::HandDisabled));
    assert_ne!(uri(Icon::HandOn), uri(Icon::CamOn));
}

// -- further cases --

#[test]
fn png_data_uri_encodes_in_standard_base64() {
    assert_eq!(png_data_uri(b"hi"), "data:image/png;base64,aGk=");
    assert_eq!(png_data_uri(b""), "data:image/png;base64,");
    assert_eq!(png_data_uri(&[0xfb, 0xff]), "data:image/png;base64,+/8=");
}

#[test]
fn icon_file_names() {
    let expected = [
        (Icon::MuteNormal, "icon@2x.png"),
        (Icon::MuteMuted, "icon-muted@2x.png"),
        (Icon::MuteOff, "icon-off@2x.png"),
        (Icon::CamOn, "cam@2x.png"),
        (Icon::CamOff, "cam-off@2x.png"),
        (Icon::CamDisabled, "cam-disabled@2x.png"),
        (Icon::HandOn, "hand@2x.png"),
        (Icon::HandDisabled, "hand-disabled@2x.png"),
    ];
    for (icon, name) in expected {
        assert_eq!(icon.file_name(), name);
    }
}

#[test]
fn unconfigured_wins_over_call_state() {
    let d = MuteControl::display(in_call(true), false);
    assert_eq!((d.state_index, d.title, d.image), (0, "SETUP", Icon::MuteOff));
    let d = CameraControl::display(in_call(false), false);
    assert_eq!((d.state_index, d.title, d.image), (0, "SETUP", Icon::CamDisabled));
}

#[test]
fn press_acts_exactly_when_key_looks_active() {
    let states = [
        TeamsState::default(),
        TeamsState { muted: true, in_call: Some(false), camera_on: Some(true) },
        in_call(false),
        in_call(true),
        TeamsState { muted: false, in_call: Some(true), camera_on: Some(true) },
    ];
    for s in states {
        for configured in [false, true] {
            let titles = [
                (MuteControl::can_activate(s, configured), MuteControl::display(s, configured).title),
                (CameraControl::can_activate(s, configured), CameraControl::display(s, configured).title),
                (HandControl::can_activate(s, configured), HandControl::display(s, configured).title),
            ];
            for (acts, title) in titles {
                assert_eq!(acts, title != "SETUP" && title != "OFF", "{s:?} {configured} {title}");
            }
        }
    }
}

#[test]
fn activation_ignores_mute_and_camera_state() {
    let base = TeamsState { muted: false, in_call: Some(true), camera_on: None };
    for muted in [false, true] {
        for camera_on in [None, Some(false), Some(true)] {
            let s = TeamsState { muted, camera_on, ..base };
            assert_eq!(MuteControl::can_activate(s, true), MuteControl::can_activate(base, true));
            assert_eq!(CameraControl::can_activate(s, true), true);
            let out = TeamsState { in_call: Some(false), ..s };
            assert!(!HandControl::can_activate(out, true));
        }
    }
}
