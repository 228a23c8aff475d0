use microxdg::Env;
use microxdg::EnvValue;
use microxdg::Xdg;
use microxdg::XdgError;

const INVALID_UNICODE_BYTES: [u8; 4] = [0xF0, 0x90, 0x80, 0x67];

fn text(value: &str) -> EnvValue {
    EnvValue::Unicode(value.to_string())
}

#[test]
fn new_xdg() {
    let mut env = Env::new();
    env.set("HOME", text("/home/user1"));
    env.set("USER", text("user2"));
    assert_eq!("/home/user1", Xdg::new(env).unwrap().home());

    let mut env = Env::new();
    env.set("USER", text("user2"));
    assert_eq!("/home/user2", Xdg::new(env).unwrap().home());

    let env = Env::new();
    assert_eq!(XdgError::HomeNotFound, Xdg::new(env).unwrap_err());
}

#[test]
fn home_empty_value_is_used_verbatim() {
    let mut env = Env::new();
    env.set("HOME", text(""));
    env.set("USER", text("user2"));
    let xdg = Xdg::new(env).unwrap();
    assert_eq!("", xdg.home());
    // An empty home contributes nothing to the fallback path.
    assert_eq!(".config", xdg.config().unwrap());
}

#[test]
fn home_non_unicode_falls_to_user() {
    let mut env = Env::new();
    env.set("HOME", EnvValue::NonUnicode(INVALID_UNICODE_BYTES.to_vec()));
    env.set("USER", text("bob"));
    let xdg = Xdg::new(env).unwrap();
    assert_eq!("/home/bob", xdg.home());

    let mut env = Env::new();
    env.set("HOME", EnvValue::NonUnicode(INVALID_UNICODE_BYTES.to_vec()));
    env.set("USER", EnvValue::NonUnicode(INVALID_UNICODE_BYTES.to_vec()));
    assert_eq!(XdgError::HomeNotFound, Xdg::new(env).unwrap_err());
}

#[test]
fn lib_usr_base_dirs() {
    let mut env = Env::new();
    env.set("HOME", text("/home/user1"));
    env.set("USER", text("user1"));
    let xdg = Xdg::new(env).unwrap();

    assert_eq!("/home/user1/.local/bin", xdg.exec());
    assert_eq!("/home/user1", xdg.home());
    assert_eq!("/home/user1/.cache", xdg.cache().unwrap());
    assert_eq!("/home/user1/.config", xdg.config().unwrap());
    assert_eq!("/home/user1/.local/share", xdg.data().unwrap());
    assert_eq!("/home/user1/.local/state", xdg.state().unwrap());
    assert_eq!(None, xdg.runtime().unwrap());

    let mut env = Env::new();
    env.set("HOME", text("/home/user1"));
    env.set("USER", text("user1"));
    env.set("XDG_CACHE_HOME", text("/home/user2/.cache"));
    env.set("XDG_CONFIG_HOME", text("/home/user2/.config"));
    env.set("XDG_DATA_HOME", text("/home/user2/.local/share"));
    env.set("XDG_STATE_HOME", text("/home/user2/.local/state"));
    env.set("XDG_RUNTIME_DIR", text("/run/user/1000"));
    let xdg = Xdg::new(env).unwrap();
    assert_eq!("/home/user2/.cache", xdg.cache().unwrap());
    assert_eq!("/home/user2/.config", xdg.config().unwrap());
    assert_eq!("/home/user2/.local/share", xdg.data().unwrap());
    assert_eq!("/home/user2/.local/state", xdg.state().unwrap());
    assert_eq!(Some("/run/user/1000".to_string()), xdg.runtime().unwrap());

    let mut env = Env::new();
    env.set("HOME", text("/home/user1"));
    env.set("USER", text("user1"));
    env.set("XDG_CACHE_HOME", text(""));
    env.set("XDG_CONFIG_HOME", text(""));
    env.set("XDG_DATA_HOME", text(""));
    env.set("XDG_STATE_HOME", text(""));
    env.set("XDG_RUNTIME_DIR", text(""));
    let xdg = Xdg::new(env).unwrap();
    assert_eq!("/home/user1/.cache", xdg.cache().unwrap());
    assert_eq!("/home/user1/.config", xdg.config().unwrap());
    assert_eq!("/home/user1/.local/share", xdg.data().unwrap());
    assert_eq!("/home/user1/.local/state", xdg.state().unwrap());
    assert_eq!(None, xdg.runtime().unwrap());

    let mut env = Env::new();
    env.set("HOME", text("/home/user1"));
    env.set("USER", text("user1"));
    env.set("XDG_CACHE_HOME", text("./cache"));
    env.set("XDG_CONFIG_HOME", text("./config"));
    env.set("XDG_DATA_HOME", text("./data"));
    env.set("XDG_STATE_HOME", text("./state"));
    env.set("XDG_RUNTIME_DIR", text("./runtime"));
    let xdg = Xdg::new(env).unwrap();
    assert_eq!(
        XdgError::RelativePath {
            env_var_key: "XDG_CACHE_HOME".to_string(),
            path: "./cache".to_string(),
        },
        xdg.cache().unwrap_err(),
    );
    assert_eq!(
        XdgError::RelativePath {
            env_var_key: "XDG_CONFIG_HOME".to_string(),
            path: "./config".to_string(),
        },
        xdg.config().unwrap_err(),
    );
    assert_eq!(
        XdgError::RelativePath {
            env_var_key: "XDG_DATA_HOME".to_string(),
            path: "./data".to_string(),
        },
        xdg.data().unwrap_err(),
    );
    assert_eq!(
        XdgError::RelativePath {
            env_var_key: "XDG_STATE_HOME".to_string(),
            path: "./state".to_string(),
        },
        xdg.state().unwrap_err(),
    );
    assert_eq!(
        XdgError::RelativePath {
            env_var_key: "XDG_RUNTIME_DIR".to_string(),
            path: "./runtime".to_string(),
        },
        xdg.runtime().unwrap_err(),
    );

    let mut env = Env::new();
    env.set("HOME", text("/home/user1"));
    env.set("USER", text("user1"));
    env.set("XDG_CACHE_HOME", EnvValue::NonUnicode(INVALID_UNICODE_BYTES.to_vec()));
    env.set("XDG_CONFIG_HOME", EnvValue::NonUnicode(INVALID_UNICODE_BYTES.to_vec()));
    env.set("XDG_DATA_HOME", EnvValue::NonUnicode(INVALID_UNICODE_BYTES.to_vec()));
    env.set("XDG_STATE_HOME", EnvValue::NonUnicode(INVALID_UNICODE_BYTES.to_vec()));
    env.set("XDG_RUNTIME_DIR", EnvValue::NonUnicode(INVALID_UNICODE_BYTES.to_vec()));
    let xdg = Xdg::new(env).unwrap();
    assert_eq!(
        XdgError::InvalidUnicode {
            env_var_key: "XDG_CACHE_HOME".to_string(),
            env_var_val: INVALID_UNICODE_BYTES.to_vec(),
        },
        xdg.cache().unwrap_err(),
    );
    assert_eq!(
        XdgError::InvalidUnicode {
            env_var_key: "XDG_CONFIG_HOME".to_string(),
            env_var_val: INVALID_UNICODE_BYTES.to_vec(),
        },
        xdg.config().unwrap_err(),
    );
    assert_eq!(
        XdgError::InvalidUnicode {
            env_var_key: "XDG_DATA_HOME".to_string(),
            env_var_val: INVALID_UNICODE_BYTES.to_vec(),
        },
        xdg.data().unwrap_err(),
    );
    assert_eq!(
        XdgError::InvalidUnicode {
            env_var_key: "XDG_STATE_HOME".to_string(),
            env_var_val: INVALID_UNICODE_BYTES.to_vec(),
        },
        xdg.state().unwrap_err(),
    );
    assert_eq!(
        XdgError::InvalidUnicode {
            env_var_key: "XDG_RUNTIME_DIR".to_string(),
            env_var_val: INVALID_UNICODE_BYTES.to_vec(),
        },
        xdg.runtime().unwrap_err(),
    );
}

#[test]
fn lib_sys_base_dirs() {
    let mut env = Env::new();
    env.set("HOME", text("/home/user"));
    env.set("USER", text("user"));
    let xdg = Xdg::new(env).unwrap();

    assert_eq!(vec!["/etc/xdg".to_string()], xdg.sys_config().unwrap());
    assert_eq!(
        vec!["/usr/local/share".to_string(), "/usr/share".to_string()],
        xdg.sys_data().unwrap(),
    );

    let mut env = Env::new();
    env.set("HOME", text("/home/user"));
    env.set("USER", text("user"));
    env.set(
        "XDG_CONFIG_DIRS",
        text("/config/dir1:/config/dir2:/config/dir3:/config/dir4"),
    );
    env.set("XDG_DATA_DIRS", text("/data/dir1:/data/dir2:/data/dir3:/data/dir4"));
    let xdg = Xdg::new(env).unwrap();
    assert_eq!(
        vec![
            "/config/dir1".to_string(),
            "/config/dir2".to_string(),
            "/config/dir3".to_string(),
            "/config/dir4".to_string(),
        ],
        xdg.sys_config().unwrap(),
    );
    assert_eq!(
        vec![
            "/data/dir1".to_string(),
            "/data/dir2".to_string(),
            "/data/dir3".to_string(),
            "/data/dir4".to_string(),
        ],
        xdg.sys_data().unwrap(),
    );
}

#[test]
fn sys_list_empty_segment_rejected() {
    let mut env = Env::new();
    env.set("HOME", text("/home/user"));
    env.set("XDG_CONFIG_DIRS", text("/a::/b"));
    let xdg = Xdg::new(env).unwrap();
    assert_eq!(
        XdgError::RelativePath {
            env_var_key: "XDG_CONFIG_DIRS".to_string(),
            path: "".to_string(),
        },
        xdg.sys_config().unwrap_err(),
    );
}

#[test]
fn sys_list_first_relative_segment_reported() {
    let mut env = Env::new();
    env.set("HOME", text("/home/user"));
    env.set("XDG_DATA_DIRS", text("/a:rel1:rel2"));
    let xdg = Xdg::new(env).unwrap();
    assert_eq!(
        XdgError::RelativePath {
            env_var_key: "XDG_DATA_DIRS".to_string(),
            path: "rel1".to_string(),
        },
        xdg.sys_data().unwrap_err(),
    );
}

#[test]
fn sys_list_duplicates_and_order_preserved() {
    let mut env = Env::new();
    env.set("HOME", text("/home/user"));
    env.set("XDG_DATA_DIRS", text("/b:/a:/b"));
    let xdg = Xdg::new(env).unwrap();
    assert_eq!(
        vec!["/b".to_string(), "/a".to_string(), "/b".to_string()],
        xdg.sys_data().unwrap(),
    );
}

#[test]
fn sys_list_non_unicode_rejected() {
    let mut env = Env::new();
    env.set("HOME", text("/home/user"));
    env.set("XDG_CONFIG_DIRS", EnvValue::NonUnicode(INVALID_UNICODE_BYTES.to_vec()));
    let xdg = Xdg::new(env).unwrap();
    assert_eq!(
        XdgError::InvalidUnicode {
            env_var_key: "XDG_CONFIG_DIRS".to_string(),
            env_var_val: INVALID_UNICODE_BYTES.to_vec(),
        },
        xdg.sys_config().unwrap_err(),
    );
}

#[test]
fn lib_usr_file() {
    let mut env = Env::new();
    env.set("HOME", text("/home/user"));
    env.set("USER", text("user"));
    let xdg = Xdg::new(env).unwrap();
    assert_eq!("/home/user/.cache/file", xdg.cache_file("file").unwrap());
    assert_eq!("/home/user/.config/file", xdg.config_file("file").unwrap());
    assert_eq!("/home/user/.local/share/file", xdg.data_file("file").unwrap());
    assert_eq!("/home/user/.local/state/file", xdg.state_file("file").unwrap());

    let mut env = Env::new();
    env.set("HOME", text("/home/user"));
    env.set("USER", text("user"));
    env.set("XDG_CACHE_HOME", text("/home/user1/.cache"));
    env.set("XDG_CONFIG_HOME", text("/home/user1/.config"));
    env.set("XDG_DATA_HOME", text("/home/user1/.local/share"));
    env.set("XDG_STATE_HOME", text("/home/user1/.local/state"));
    let xdg = Xdg::new(env).unwrap();
    assert_eq!("/home/user1/.cache/file", xdg.cache_file("file").unwrap());
    assert_eq!("/home/user1/.config/file", xdg.config_file("file").unwrap());
    assert_eq!("/home/user1/.local/share/file", xdg.data_file("file").unwrap());
    assert_eq!("/home/user1/.local/state/file", xdg.state_file("file").unwrap());
}

#[test]
fn trailing_separator_not_doubled() {
    let mut env = Env::new();
    env.set("HOME", text("/home/user/"));
    let xdg = Xdg::new(env).unwrap();
    assert_eq!("/home/user/.config", xdg.config().unwrap());
}

#[test]
fn repeated_calls_return_equal_results() {
    let mut env = Env::new();
    env.set("HOME", text("/home/user"));
    env.set("XDG_CONFIG_HOME", text("/etc/conf"));
    env.set("XDG_DATA_DIRS", text("/d1:/d2"));
    let xdg = Xdg::new(env).unwrap();
    assert_eq!(xdg.cache(), xdg.cache());
    assert_eq!(xdg.config(), xdg.config());
    assert_eq!(xdg.data(), xdg.data());
    assert_eq!(xdg.state(), xdg.state());
    assert_eq!(xdg.runtime(), xdg.runtime());
    assert_eq!(xdg.exec(), xdg.exec());
    assert_eq!(xdg.sys_config(), xdg.sys_config());
    assert_eq!(xdg.sys_data(), xdg.sys_data());
    assert_eq!(xdg.config_file("f"), xdg.config_file("f"));
    let present: Vec<String> = vec!["/etc/conf/f".to_string()];
    assert_eq!(
        xdg.search_config_file("f", &present),
        xdg.search_config_file("f", &present),
    );
}

#[test]
fn scenario_home_set_no_xdg_vars() {
    let mut env = Env::new();
    env.set("HOME", text("/home/alice"));
    let xdg = Xdg::new(env).unwrap();
    assert_eq!("/home/alice/.config", xdg.config().unwrap());
    assert_eq!("/home/alice/.cache", xdg.cache().unwrap());
    assert_eq!("/home/alice/.local/bin", xdg.exec());
}

#[test]
fn scenario_home_unset_user_set() {
    let mut env = Env::new();
    env.set("USER", text("bob"));
    let xdg = Xdg::new(env).unwrap();
    assert_eq!("/home/bob", xdg.home());
    assert_eq!("/home/bob/.local/share", xdg.data().unwrap());
}

#[test]
fn scenario_neither_home_nor_user() {
    let env = Env::new();
    assert_eq!(XdgError::HomeNotFound, Xdg::new(env).unwrap_err());
}

#[test]
fn scenario_relative_config_home() {
    let mut env = Env::new();
    env.set("HOME", text("/home/alice"));
    env.set("XDG_CONFIG_HOME", text("./relative"));
    let xdg = Xdg::new(env).unwrap();
    assert_eq!(
        XdgError::RelativePath {
            env_var_key: "XDG_CONFIG_HOME".to_string(),
            path: "./relative".to_string(),
        },
        xdg.config().unwrap_err(),
    );
}

#[test]
fn scenario_data_dirs_unset() {
    let mut env = Env::new();
    env.set("HOME", text("/home/alice"));
    let xdg = Xdg::new(env).unwrap();
    assert_eq!(
        vec!["/usr/local/share".to_string(), "/usr/share".to_string()],
        xdg.sys_data().unwrap(),
    );
}
