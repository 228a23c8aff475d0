use microxdg::Env;
use microxdg::EnvValue;
use microxdg::Xdg;

fn text(value: &str) -> EnvValue {
    EnvValue::Unicode(value.to_string())
}

#[test]
fn later_binding_shadows_earlier() {
    let mut env = Env::new();
    env.set("XDG_CONFIG_HOME", text("/first"));
    env.set("XDG_CONFIG_HOME", text("/second"));
    env.set("HOME", text("/home/user"));
    let xdg = Xdg::new(env).unwrap();
    assert_eq!("/second", xdg.config().unwrap());
}

#[test]
fn get_reads_the_snapshot() {
    let mut env = Env::new();
    env.set("HOME", text("/home/user"));
    assert!(env.get("USER").is_none());
    match env.get("HOME") {
        Some(EnvValue::Unicode(v)) => assert_eq!("/home/user", v),
        other => panic!("unexpected value: {other:?}"),
    }
}

#[test]
fn absolute_file_segment_replaces_base() {
    // The same push rule as the standard library's path type: pushing an
    // absolute segment discards the base.
    let mut env = Env::new();
    env.set("HOME", text("/home/user"));
    let xdg = Xdg::new(env).unwrap();
    assert_eq!("/abs/file", xdg.config_file("/abs/file").unwrap());
}

#[test]
fn empty_file_segment_keeps_separator() {
    let mut env = Env::new();
    env.set("HOME", text("/home/user"));
    let xdg = Xdg::new(env).unwrap();
    assert_eq!("/home/user/.config/", xdg.config_file("").unwrap());
}
