//! An implementation of the XDG Base Directory Specification whose
//! resolution logic is verified with Verus.
//!
//! The resolver works on an explicit snapshot of environment variables
//! ([`Env`]) instead of reading the live process environment, so that every
//! resolution function is a pure, fully specified function of its inputs.
//! The caller captures the environment once, hands it to [`Xdg::new`] (or
//! [`XdgApp::new`] for application-scoped queries), and every directory or
//! file query is then answered from that snapshot.

pub mod app;
pub mod env;
pub mod error;
pub mod paths;
pub mod strings;
pub mod xdg;

pub use app::XdgApp;
pub use env::Env;
pub use env::EnvValue;
pub use env::EnvVarView;
pub use error::XdgError;
pub use error::XdgErrorView;
pub use xdg::Xdg;
pub use xdg::XdgDir;
pub use xdg::XdgSysDirs;

pub use paths::absolute;
pub use paths::is_absolute;
pub use paths::join;
pub use paths::joined;
