use opendeck_teams_for_linux::settings::{
    config_file_path, join_topic, resolve, FileSettings, PiSettings,
};

#[test]
fn any_set_false_for_default() {
    assert!(!PiSettings::default().any_set());
}

#[test]
fn any_set_ignores_whitespace_but_sees_values() {
    let pi_ws = PiSettings { username: "  ".into(), ..Default::default() };
    assert!(!pi_ws.any_set());
    let pi_val = PiSettings { username: "geoff".into(), ..Default::default() };
    assert!(pi_val.any_set());
}

#[test]
fn join_topic_trims_slashes() {
    assert_eq!(join_topic("teams", "microphone"), "teams/microphone");
    assert_eq!(join_topic("/teams/", "/microphone/control/"), "teams/microphone/control");
}

#[test]
fn resolve_pure_defaults_unconfigured() {
    let r = resolve(None, &PiSettings::default());
    assert!(!r.configured);
    assert_eq!(r.broker_host, "127.0.0.1");
    assert_eq!(r.broker_port, 1883);
    assert_eq!(r.username, "");
    assert_eq!(r.password, "");
    assert_eq!(r.microphone_topic(), "teams/microphone");
    assert_eq!(r.microphone_control_topic(), "teams/microphone/control");
    assert_eq!(r.in_call_topic(), "teams/in-call");
    assert_eq!(r.command_topic(), "teams/command");
}

#[test]
fn resolve_file_overrides_defaults_and_marks_configured() {
    let file = FileSettings {
        broker_host: Some("10.0.0.5".into()),
        broker_port: Some(1884),
        topic_prefix: Some("work-teams".into()),
        ..Default::default()
    };
    let r = resolve(Some(&file), &PiSettings::default());
    assert!(r.configured);
    assert_eq!(r.broker_host, "10.0.0.5");
    assert_eq!(r.broker_port, 1884);
    assert_eq!(r.in_call_topic(), "work-teams/in-call");
}

#[test]
fn resolve_pi_overrides_file() {
    let file = FileSettings {
        broker_host: Some("10.0.0.5".into()),
        username: Some("file-user".into()),
        ..Default::default()
    };
    let pi = PiSettings { username: "pi-user".into(), ..Default::default() };
    let r = resolve(Some(&file), &pi);
    assert_eq!(r.broker_host, "10.0.0.5"); // empty PI field inherits
    assert_eq!(r.username, "pi-user"); // non-empty PI field wins
}

#[test]
fn resolve_pi_only_marks_configured() {
    let pi = PiSettings { broker_host: "127.0.0.1".into(), ..Default::default() };
    let r = resolve(None, &pi);
    assert!(r.configured);
}

#[test]
fn resolve_invalid_pi_port_falls_through() {
    let file = FileSettings { broker_port: Some(2000), ..Default::default() };
    let pi = PiSettings { broker_port: "not-a-port".into(), ..Default::default() };
    let r = resolve(Some(&file), &pi);
    assert_eq!(r.broker_port, 2000);
}

// -- further cases --

#[test]
fn join_topic_edge_cases() {
    assert_eq!(join_topic("", ""), "/");
    assert_eq!(join_topic("///", "x"), "/x");
    assert_eq!(join_topic("a//b", "//c//d//"), "a//b/c//d");
}

#[test]
fn resolve_trims_values_and_keeps_blank_file_values() {
    let file = FileSettings {
        username: Some("  ".into()),
        topic_prefix: Some(" office ".into()),
        ..Default::default()
    };
    let pi = PiSettings {
        broker_host: "\t10.1.1.1 \n".into(),
        password: "\u{3000}pw\u{a0}".into(),
        ..Default::default()
    };
    let r = resolve(Some(&file), &pi);
    assert_eq!(r.broker_host, "10.1.1.1");
    assert_eq!(r.password, "pw");
    assert_eq!(r.username, ""); // a blank file value is used, not the default
    assert_eq!(r.topic_prefix, "office");
    assert_eq!(r.command_topic(), "office/command");
}

#[test]
fn resolve_port_parsing() {
    let file = FileSettings { broker_port: Some(2000), ..Default::default() };
    let cases = [
        (" 1884 ", 1884),
        ("+1885", 1885),
        ("0065535", 65535),
        ("65536", 2000),
        ("-1", 2000),
        ("+", 2000),
        ("", 2000),
        ("18 83", 2000),
        ("١٢", 2000),
    ];
    for (port, expected) in cases {
        let pi = PiSettings { broker_port: port.into(), ..Default::default() };
        assert_eq!(resolve(Some(&file), &pi).broker_port, expected, "port {port:?}");
    }
    let pi = PiSettings { broker_port: "nope".into(), ..Default::default() };
    let r = resolve(None, &pi);
    assert_eq!(r.broker_port, 1883);
    assert!(r.configured); // a set field, even unusable, counts
}

#[test]
fn resolve_topic_overrides() {
    let file = FileSettings { in_call_topic: Some("call".into()), ..Default::default() };
    let pi = PiSettings {
        topic_prefix: "/t4l/".into(),
        microphone_topic: "mic".into(),
        microphone_control_topic: "mic/ctl".into(),
        command_topic: "/cmd".into(),
        ..Default::default()
    };
    let r = resolve(Some(&file), &pi);
    assert_eq!(r.microphone_topic(), "t4l/mic");
    assert_eq!(r.microphone_control_topic(), "t4l/mic/ctl");
    assert_eq!(r.in_call_topic(), "t4l/call");
    assert_eq!(r.command_topic(), "t4l/cmd");
}

#[test]
fn password_file_wins_over_inline_password() {
    let mut file = FileSettings {
        password: Some("inline".into()),
        password_file: Some("/run/secrets/pw".into()),
        ..Default::default()
    };
    file.use_password_file(Some(" s3cret \n"));
    // Only trailing white space goes: leading white space is intentional.
    assert_eq!(file.password.as_deref(), Some(" s3cret"));
}

#[test]
fn unreadable_password_file_keeps_inline_password() {
    let mut file = FileSettings {
        password: Some("inline".into()),
        password_file: Some("/nonexistent/pw".into()),
        ..Default::default()
    };
    file.use_password_file(None);
    assert_eq!(file.password.as_deref(), Some("inline"));
}

#[test]
fn password_contents_ignored_without_password_file() {
    let mut file = FileSettings { password: Some("inline".into()), ..Default::default() };
    file.use_password_file(Some("other"));
    assert_eq!(file.password.as_deref(), Some("inline"));
}

#[test]
fn config_file_path_resolution() {
    let name = "opendeck-teams-for-linux/config.toml";
    assert_eq!(
        config_file_path(Some("/xdg"), Some("/home/me")),
        format!("/xdg/{name}")
    );
    assert_eq!(config_file_path(Some("/xdg/"), None), format!("/xdg/{name}"));
    // A relative XDG_CONFIG_HOME is ignored.
    assert_eq!(
        config_file_path(Some("xdg"), Some("/home/me")),
        format!("/home/me/.config/{name}")
    );
    assert_eq!(config_file_path(None, Some("/home/me/")), format!("/home/me/.config/{name}"));
    assert_eq!(config_file_path(Some(""), Some("")), format!("/.config/{name}"));
    assert_eq!(config_file_path(None, None), format!("/.config/{name}"));
}

#[test]
fn effective_settings_hide_the_password() {
    let pi = PiSettings { password: "secret".into(), username: "u".into(), ..Default::default() };
    let e = resolve(None, &pi).effective();
    assert!(e.password_set);
    assert_eq!(e.username, "u");
    assert_eq!(e.broker_host, "127.0.0.1");
    assert_eq!(e.broker_port, 1883);
    assert_eq!(e.topic_prefix, "teams");
    assert_eq!(e.microphone_topic, "microphone");
    assert_eq!(e.microphone_control_topic, "microphone/control");
    assert_eq!(e.in_call_topic, "in-call");
    assert_eq!(e.command_topic, "command");
    assert!(!resolve(None, &PiSettings::default()).effective().password_set);
}

#[test]
fn same_as_and_copied() {
    let a = resolve(None, &PiSettings::default());
    let b = a.copied();
    assert!(a.same_as(&b));
    assert_eq!(a, b);
    let c = resolve(None, &PiSettings { topic_prefix: "x".into(), ..Default::default() });
    assert!(!a.same_as(&c));
}
