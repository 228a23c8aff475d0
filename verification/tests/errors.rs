use microxdg::Env;
use microxdg::EnvValue;
use microxdg::Xdg;
use microxdg::XdgError;

const INVALID_UNICODE_BYTES: [u8; 4] = [0xF0, 0x90, 0x80, 0x67];

#[test]
fn error_messages() {
    assert_eq!(
        "Unable to retrieve user's home directory, \
        neither HOME nor USER environment variable set",
        XdgError::HomeNotFound.message(),
    );
    assert_eq!(
        "The `XDG_CONFIG_HOME` environment variable contains a relative \
        path, while paths in XDG environment variables must be asbolute: `./config`",
        XdgError::RelativePath {
            env_var_key: "XDG_CONFIG_HOME".to_string(),
            path: "./config".to_string(),
        }
        .message(),
    );
    assert_eq!(
        "The `XDG_CONFIG_HOME` environment variable contains invalid unicode",
        XdgError::InvalidUnicode {
            env_var_key: "XDG_CONFIG_HOME".to_string(),
            env_var_val: INVALID_UNICODE_BYTES.to_vec(),
        }
        .message(),
    );
}

#[test]
fn error_equality() {
    assert_eq!(XdgError::HomeNotFound, XdgError::HomeNotFound);
    let relative = XdgError::RelativePath {
        env_var_key: "XDG_DATA_HOME".to_string(),
        path: "./data".to_string(),
    };
    assert_eq!(relative.clone(), relative.clone());
    assert_ne!(XdgError::HomeNotFound, relative);
    assert_ne!(
        relative,
        XdgError::RelativePath {
            env_var_key: "XDG_DATA_HOME".to_string(),
            path: "./elsewhere".to_string(),
        },
    );
    let invalid = XdgError::InvalidUnicode {
        env_var_key: "XDG_DATA_HOME".to_string(),
        env_var_val: INVALID_UNICODE_BYTES.to_vec(),
    };
    assert_eq!(invalid.clone(), invalid.clone());
    assert_ne!(relative, invalid);
    assert_ne!(
        invalid,
        XdgError::InvalidUnicode {
            env_var_key: "XDG_DATA_HOME".to_string(),
            env_var_val: vec![0xFF],
        },
    );
}

#[test]
fn error_carries_raw_bytes() {
    let mut env = Env::new();
    env.set("HOME", EnvValue::Unicode("/home/user".to_string()));
    env.set(
        "XDG_CACHE_HOME",
        EnvValue::NonUnicode(INVALID_UNICODE_BYTES.to_vec()),
    );
    let xdg = Xdg::new(env).unwrap();
    match xdg.cache().unwrap_err() {
        XdgError::InvalidUnicode { env_var_key, env_var_val } => {
            assert_eq!("XDG_CACHE_HOME", env_var_key);
            assert_eq!(INVALID_UNICODE_BYTES.to_vec(), env_var_val);
        }
        other => panic!("unexpected error: {other:?}"),
    }
}
