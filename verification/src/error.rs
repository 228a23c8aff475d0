//! The closed error taxonomy of the resolver.
//!
//! Three things can go wrong: no home directory can be determined
//! ([`XdgError::HomeNotFound`]), a variable that must hold an absolute path
//! holds a relative one ([`XdgError::RelativePath`]), or a variable's value
//! is not valid text ([`XdgError::InvalidUnicode`]). Every failure is
//! returned to the caller; nothing is retried or swallowed.

use vstd::prelude::*;
use vstd::string::*;

use crate::strings::bytes_eq;
use crate::strings::str_eq;

verus! {

/// The mathematical value of an [`XdgError`].
pub enum XdgErrorView {
    /// Neither `HOME` nor `USER` yields a home directory.
    HomeNotFound,
    /// The variable `var` holds the relative path `path`.
    RelativePath { var: Seq<char>, path: Seq<char> },
    /// The variable `var` holds the bytes `value`, which are not valid text.
    InvalidUnicode { var: Seq<char>, value: Seq<u8> },
}

/// An error of the directory resolver.
#[derive(Debug, Clone)]
pub enum XdgError {
    /// Unable to determine the user's home directory: neither the `HOME`
    /// nor the `USER` environment variable is usable.
    HomeNotFound,
    /// An environment variable that must hold an absolute path holds a
    /// relative one.
    RelativePath {
        /// The name of the offending environment variable.
        env_var_key: String,
        /// The relative path the variable holds.
        path: String,
    },
    /// An environment variable's raw value cannot be decoded as text.
    InvalidUnicode {
        /// The name of the offending environment variable.
        env_var_key: String,
        /// The raw bytes of the variable's value.
        env_var_val: Vec<u8>,
    },
}

impl View for XdgError {
    type V = XdgErrorView;

    open spec fn view(&self) -> XdgErrorView {
        match self {
            XdgError::HomeNotFound => XdgErrorView::HomeNotFound,
            XdgError::RelativePath { env_var_key, path } => XdgErrorView::RelativePath {
                var: env_var_key@,
                path: path@,
            },
            XdgError::InvalidUnicode { env_var_key, env_var_val } => XdgErrorView::InvalidUnicode {
                var: env_var_key@,
                value: env_var_val@,
            },
        }
    }
}

impl PartialEq for XdgError {
    fn eq(&self, other: &XdgError) -> (r: bool) {
        match (self, other) {
            (XdgError::HomeNotFound, XdgError::HomeNotFound) => true,
            (
                XdgError::RelativePath { env_var_key: k1, path: p1 },
                XdgError::RelativePath { env_var_key: k2, path: p2 },
            ) => str_eq(k1.as_str(), k2.as_str()) && str_eq(p1.as_str(), p2.as_str()),
            (
                XdgError::InvalidUnicode { env_var_key: k1, env_var_val: v1 },
                XdgError::InvalidUnicode { env_var_key: k2, env_var_val: v2 },
            ) => str_eq(k1.as_str(), k2.as_str()) && bytes_eq(v1, v2),
            _ => false,
        }
    }
}

impl vstd::std_specs::cmp::PartialEqSpecImpl for XdgError {
    open spec fn obeys_eq_spec() -> bool {
        true
    }

    open spec fn eq_spec(&self, other: &XdgError) -> bool {
        self@ == other@
    }
}

/// The human-readable description of an error.
///
/// The wording of these messages, spelling included, is part of the
/// interface and is kept stable for callers that match on it.
pub open spec fn message_of(e: XdgErrorView) -> Seq<char> {
    match e {
        XdgErrorView::HomeNotFound => "Unable to retrieve user's home directory, neither HOME nor USER environment variable set"@,
        XdgErrorView::RelativePath { var, path } => "The `"@ + var
            + "` environment variable contains a relative path, while paths in XDG environment variables must be asbolute: `"@
            + path + "`"@,
        XdgErrorView::InvalidUnicode { var, value: _ } => "The `"@ + var
            + "` environment variable contains invalid unicode"@,
    }
}

impl XdgError {
    /// Renders the error as a human-readable message, as [`message_of`]
    /// states it.
    ///
    /// The invalid-unicode message names the offending variable but does
    /// not render its raw bytes: a rendering of arbitrary bytes is not
    /// worth specifying, and the error value itself carries them in
    /// `env_var_val` for callers that want them.
    pub fn message(&self) -> (m: String)
        ensures
            m@ == message_of(self@),
    {
        match self {
            XdgError::HomeNotFound => String::from_str(
                "Unable to retrieve user's home directory, neither HOME nor USER environment variable set",
            ),
            XdgError::RelativePath { env_var_key, path } => {
                let mut m = String::from_str("The `");
                m.append(env_var_key.as_str());
                m.append(
                    "` environment variable contains a relative path, while paths in XDG environment variables must be asbolute: `",
                );
                m.append(path.as_str());
                m.append("`");
                proof {
                    assert(m@ =~= message_of(self@));
                }
                m
            },
            XdgError::InvalidUnicode { env_var_key, env_var_val: _ } => {
                let mut m = String::from_str("The `");
                m.append(env_var_key.as_str());
                m.append("` environment variable contains invalid unicode");
                proof {
                    assert(m@ =~= message_of(self@));
                }
                m
            },
        }
    }
}

/// The mathematical value of a resolution result that carries one path.
pub open spec fn path_result_view(r: Result<String, XdgError>) -> Result<
    Seq<char>,
    XdgErrorView,
> {
    match r {
        Result::Ok(p) => Result::Ok(p@),
        Result::Err(e) => Result::Err(e@),
    }
}

/// The mathematical value of a resolution result that carries a
/// preference-ordered list of paths.
pub open spec fn paths_result_view(r: Result<Vec<String>, XdgError>) -> Result<
    Seq<Seq<char>>,
    XdgErrorView,
> {
    match r {
        Result::Ok(v) => Result::Ok(v.deep_view()),
        Result::Err(e) => Result::Err(e@),
    }
}

/// The mathematical value of a resolution result that carries an optional
/// path.
pub open spec fn opt_path_result_view(r: Result<Option<String>, XdgError>) -> Result<
    Option<Seq<char>>,
    XdgErrorView,
> {
    match r {
        Result::Ok(Option::Some(p)) => Result::Ok(Option::Some(p@)),
        Result::Ok(Option::None) => Result::Ok(Option::None),
        Result::Err(e) => Result::Err(e@),
    }
}

} // verus!
