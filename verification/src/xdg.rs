//! The XDG base-directory resolver.
//!
//! [`Xdg`] owns a captured environment snapshot and the home directory
//! derived from it once at construction. Every query is a pure function of
//! that state: user-specific directories follow the variable-or-fallback
//! rule of [`user_dir_outcome`], system-wide directory lists follow
//! [`sys_dirs_outcome`], and searches walk a preference-ordered candidate
//! list with the user-specific directory first.

use vstd::prelude::*;
use vstd::string::*;

use crate::env::Env;
use crate::env::EnvValue;
use crate::env::EnvVarView;
use crate::error::XdgError;
use crate::error::XdgErrorView;
use crate::error::opt_path_result_view;
use crate::error::path_result_view;
use crate::error::paths_result_view;
use crate::paths::absolute;
use crate::paths::is_absolute;
use crate::paths::join;
use crate::paths::joined;
use crate::strings::copy_bytes;

verus! {

/// The user-specific XDG base directories.
#[derive(Debug, Clone, Copy, PartialEq, Eq, Structural)]
pub enum XdgDir {
    /// The cache directory, governed by `XDG_CACHE_HOME`.
    Cache,
    /// The configuration directory, governed by `XDG_CONFIG_HOME`.
    Config,
    /// The data directory, governed by `XDG_DATA_HOME`.
    Data,
    /// The state directory, governed by `XDG_STATE_HOME`.
    State,
}

/// The system-wide, preference-ordered XDG base directory lists.
#[derive(Debug, Clone, Copy, PartialEq, Eq, Structural)]
pub enum XdgSysDirs {
    /// The configuration directories, governed by `XDG_CONFIG_DIRS`.
    Config,
    /// The data directories, governed by `XDG_DATA_DIRS`.
    Data,
}

/// The environment variable that governs a user-specific directory kind.
pub open spec fn dir_env_var(d: XdgDir) -> Seq<char> {
    match d {
        XdgDir::Cache => "XDG_CACHE_HOME"@,
        XdgDir::Config => "XDG_CONFIG_HOME"@,
        XdgDir::Data => "XDG_DATA_HOME"@,
        XdgDir::State => "XDG_STATE_HOME"@,
    }
}

/// The fallback suffix, relative to the home directory, of a
/// user-specific directory kind.
pub open spec fn dir_fallback(d: XdgDir) -> Seq<char> {
    match d {
        XdgDir::Cache => ".cache"@,
        XdgDir::Config => ".config"@,
        XdgDir::Data => ".local/share"@,
        XdgDir::State => ".local/state"@,
    }
}

/// The system-wide counterpart of a user-specific directory kind, for the
/// two kinds that have one.
pub open spec fn dir_sys(d: XdgDir) -> Option<XdgSysDirs> {
    match d {
        XdgDir::Cache => Option::None,
        XdgDir::Config => Option::Some(XdgSysDirs::Config),
        XdgDir::Data => Option::Some(XdgSysDirs::Data),
        XdgDir::State => Option::None,
    }
}

/// The environment variable that governs a system-wide directory list.
pub open spec fn sys_env_var(s: XdgSysDirs) -> Seq<char> {
    match s {
        XdgSysDirs::Config => "XDG_CONFIG_DIRS"@,
        XdgSysDirs::Data => "XDG_DATA_DIRS"@,
    }
}

/// The fixed fallback list, in declared order, of a system-wide directory
/// list.
pub open spec fn sys_fallback(s: XdgSysDirs) -> Seq<Seq<char>> {
    match s {
        XdgSysDirs::Config => seq!["/etc/xdg"@],
        XdgSysDirs::Data => seq!["/usr/local/share"@, "/usr/share"@],
    }
}

impl XdgDir {
    /// The name of the environment variable for this directory kind.
    pub fn env_var(self) -> (r: &'static str)
        ensures
            r@ == dir_env_var(self),
    {
        match self {
            XdgDir::Cache => "XDG_CACHE_HOME",
            XdgDir::Config => "XDG_CONFIG_HOME",
            XdgDir::Data => "XDG_DATA_HOME",
            XdgDir::State => "XDG_STATE_HOME",
        }
    }

    /// The fallback suffix, relative to the home directory, for this
    /// directory kind.
    pub fn fallback(self) -> (r: &'static str)
        ensures
            r@ == dir_fallback(self),
    {
        match self {
            XdgDir::Cache => ".cache",
            XdgDir::Config => ".config",
            XdgDir::Data => ".local/share",
            XdgDir::State => ".local/state",
        }
    }

    /// The system-wide counterpart of this directory kind, if any.
    pub fn to_sys(self) -> (r: Option<XdgSysDirs>)
        ensures
            r == dir_sys(self),
    {
        match self {
            XdgDir::Cache => Option::None,
            XdgDir::Config => Option::Some(XdgSysDirs::Config),
            XdgDir::Data => Option::Some(XdgSysDirs::Data),
            XdgDir::State => Option::None,
        }
    }
}

impl XdgSysDirs {
    /// The name of the environment variable for this directory list.
    pub fn env_var(self) -> (r: &'static str)
        ensures
            r@ == sys_env_var(self),
    {
        match self {
            XdgSysDirs::Config => "XDG_CONFIG_DIRS",
            XdgSysDirs::Data => "XDG_DATA_DIRS",
        }
    }

    /// The fixed fallback list, in declared order, for this directory
    /// list.
    pub fn fallback(self) -> (r: Vec<String>)
        ensures
            r.deep_view() == sys_fallback(self),
    {
        match self {
            XdgSysDirs::Config => {
                let mut v: Vec<String> = Vec::new();
                v.push(String::from_str("/etc/xdg"));
                proof {
                    assert(v.deep_view() =~= sys_fallback(XdgSysDirs::Config));
                }
                v
            },
            XdgSysDirs::Data => {
                let mut v: Vec<String> = Vec::new();
                v.push(String::from_str("/usr/local/share"));
                v.push(String::from_str("/usr/share"));
                proof {
                    assert(v.deep_view() =~= sys_fallback(XdgSysDirs::Data));
                }
                v
            },
        }
    }
}

/// The home directory determined by the `HOME` and `USER` variables:
/// a textual `HOME` is taken verbatim, otherwise a textual `USER` yields
/// `/home/<USER>`, otherwise no home directory exists.
pub open spec fn home_outcome(home_var: EnvVarView, user_var: EnvVarView) -> Option<Seq<char>> {
    match home_var {
        EnvVarView::Unicode(h) => Option::Some(h),
        _ => match user_var {
            EnvVarView::Unicode(u) => Option::Some("/home/"@ + u),
            _ => Option::None,
        },
    }
}

/// Resolution of one user-specific directory from the state `v` of its
/// environment variable `key`: an unset or empty variable falls back to
/// the home directory extended with `fallback`; a non-empty textual value
/// must be an absolute path and is returned unchanged; anything else is an
/// error naming `key`.
pub open spec fn user_dir_outcome(
    v: EnvVarView,
    key: Seq<char>,
    home: Seq<char>,
    fallback: Seq<char>,
) -> Result<Seq<char>, XdgErrorView> {
    match v {
        EnvVarView::Unset => Result::Ok(joined(home, fallback)),
        EnvVarView::Unicode(p) => if p.len() == 0 {
            Result::Ok(joined(home, fallback))
        } else if absolute(p) {
            Result::Ok(p)
        } else {
            Result::Err(XdgErrorView::RelativePath { var: key, path: p })
        },
        EnvVarView::NonUnicode(b) => Result::Err(
            XdgErrorView::InvalidUnicode { var: key, value: b },
        ),
    }
}

/// Resolution of the runtime directory from the state `v` of its
/// environment variable `key`: there is no fallback, so an unset or empty
/// variable yields no directory rather than an error.
pub open spec fn runtime_outcome(v: EnvVarView, key: Seq<char>) -> Result<
    Option<Seq<char>>,
    XdgErrorView,
> {
    match v {
        EnvVarView::Unset => Result::Ok(Option::None),
        EnvVarView::Unicode(p) => if p.len() == 0 {
            Result::Ok(Option::None)
        } else if absolute(p) {
            Result::Ok(Option::Some(p))
        } else {
            Result::Err(XdgErrorView::RelativePath { var: key, path: p })
        },
        EnvVarView::NonUnicode(b) => Result::Err(
            XdgErrorView::InvalidUnicode { var: key, value: b },
        ),
    }
}

/// A successfully resolved path extended with one further segment;
/// an error passes through unchanged.
pub open spec fn appended(r: Result<Seq<char>, XdgErrorView>, seg: Seq<char>) -> Result<
    Seq<char>,
    XdgErrorView,
> {
    match r {
        Result::Ok(p) => Result::Ok(joined(p, seg)),
        Result::Err(e) => Result::Err(e),
    }
}

/// Every path of a successfully resolved list extended with one further
/// segment, preserving order; an error passes through unchanged.
pub open spec fn all_appended(r: Result<Seq<Seq<char>>, XdgErrorView>, seg: Seq<char>) -> Result<
    Seq<Seq<char>>,
    XdgErrorView,
> {
    match r {
        Result::Ok(l) => Result::Ok(with_file(l, seg)),
        Result::Err(e) => Result::Err(e),
    }
}

/// The colon-separated segments of `s`, given the partial segment `cur`
/// read so far: a colon ends the current segment, and the end of the
/// input ends the last one. Splitting keeps empty segments and duplicates
/// and preserves order.
pub open spec fn split_colon(s: Seq<char>, cur: Seq<char>) -> Seq<Seq<char>>
    decreases s.len(),
{
    if s.len() == 0 {
        seq![cur]
    } else if s[0] == ':' {
        seq![cur] + split_colon(s.drop_first(), Seq::<char>::empty())
    } else {
        split_colon(s.drop_first(), cur.push(s[0]))
    }
}

/// Validation of a segment list against the variable `key`: the list is
/// returned unchanged when every segment is an absolute path, and the
/// first segment that is not yields a [`XdgErrorView::RelativePath`]
/// error naming it.
pub open spec fn validated(parts: Seq<Seq<char>>, key: Seq<char>) -> Result<
    Seq<Seq<char>>,
    XdgErrorView,
>
    decreases parts.len(),
{
    if parts.len() == 0 {
        Result::Ok(Seq::<Seq<char>>::empty())
    } else if !absolute(parts[0]) {
        Result::Err(XdgErrorView::RelativePath { var: key, path: parts[0] })
    } else {
        match validated(parts.drop_first(), key) {
            Result::Ok(rest) => Result::Ok(seq![parts[0]] + rest),
            Result::Err(e) => Result::Err(e),
        }
    }
}

/// The value `s` of the variable `key` split on `:` and validated:
/// the ordered segment list when every segment is absolute, and an error
/// naming the first segment that is not.
pub open spec fn split_paths(s: Seq<char>, key: Seq<char>) -> Result<
    Seq<Seq<char>>,
    XdgErrorView,
> {
    validated(split_colon(s, Seq::<char>::empty()), key)
}

/// Resolution of one system-wide directory list from the state `v` of its
/// environment variable `key`: an unset or empty variable yields the
/// fixed `fallback` list, a non-empty textual value is split on `:` and
/// validated, and anything else is an error naming `key`.
pub open spec fn sys_dirs_outcome(
    v: EnvVarView,
    key: Seq<char>,
    fallback: Seq<Seq<char>>,
) -> Result<Seq<Seq<char>>, XdgErrorView> {
    match v {
        EnvVarView::Unset => Result::Ok(fallback),
        EnvVarView::Unicode(p) => if p.len() == 0 {
            Result::Ok(fallback)
        } else {
            split_paths(p, key)
        },
        EnvVarView::NonUnicode(b) => Result::Err(
            XdgErrorView::InvalidUnicode { var: key, value: b },
        ),
    }
}

/// A list of segments that are all absolute validates to itself.
proof fn lemma_validated_all_ok(parts: Seq<Seq<char>>, key: Seq<char>)
    requires
        forall|k: int| 0 <= k < parts.len() ==> absolute(parts[k]),
    ensures
        validated(parts, key) == Result::<Seq<Seq<char>>, XdgErrorView>::Ok(parts),
    decreases parts.len(),
{
    if parts.len() == 0 {
        assert(parts =~= Seq::<Seq<char>>::empty());
    } else {
        assert(forall|k: int|
            0 <= k < parts.drop_first().len() ==> absolute(#[trigger] parts.drop_first()[k]));
        lemma_validated_all_ok(parts.drop_first(), key);
        assert(seq![parts[0]] + parts.drop_first() =~= parts);
    }
}

/// Validation stops at the first segment that is not absolute, whatever
/// follows it.
proof fn lemma_validated_first_bad(
    pre: Seq<Seq<char>>,
    bad: Seq<char>,
    rest: Seq<Seq<char>>,
    key: Seq<char>,
)
    requires
        forall|k: int| 0 <= k < pre.len() ==> absolute(pre[k]),
        !absolute(bad),
    ensures
        validated(pre + seq![bad] + rest, key) == Result::<Seq<Seq<char>>, XdgErrorView>::Err(
            XdgErrorView::RelativePath { var: key, path: bad },
        ),
    decreases pre.len(),
{
    let whole = pre + seq![bad] + rest;
    if pre.len() == 0 {
        assert(whole[0] == bad);
    } else {
        assert(whole[0] == pre[0]);
        assert(whole.drop_first() =~= pre.drop_first() + seq![bad] + rest);
        assert(forall|k: int|
            0 <= k < pre.drop_first().len() ==> absolute(#[trigger] pre.drop_first()[k]));
        lemma_validated_first_bad(pre.drop_first(), bad, rest, key);
    }
}

/// Splits the value `val` of the variable `key` on `:` and validates
/// every segment as an absolute path, stopping at the first failure.
fn split_validated(key: &str, val: &str) -> (r: Result<Vec<String>, XdgError>)
    ensures
        paths_result_view(r) == split_paths(val@, key@),
{
    let ghost whole: Seq<Seq<char>> = split_colon(val@, Seq::<char>::empty());
    let n = val.unicode_len();
    let mut parts: Vec<String> = Vec::new();
    let mut start: usize = 0;
    let mut i: usize = 0;
    proof {
        assert(val@.skip(0) =~= val@);
        assert(val@.subrange(0, 0) =~= Seq::<char>::empty());
    }
    while i < n
        invariant
            n as nat == val@.len(),
            start <= i <= n,
            whole == split_colon(val@, Seq::<char>::empty()),
            whole == parts.deep_view() + split_colon(
                val@.skip(i as int),
                val@.subrange(start as int, i as int),
            ),
            forall|k: int| 0 <= k < parts.deep_view().len() ==> absolute(
                #[trigger] parts.deep_view()[k],
            ),
        decreases n - i,
    {
        proof {
            assert(val@.skip(i as int)[0] == val@[i as int]);
            assert(val@.skip(i as int).drop_first() =~= val@.skip(i as int + 1));
        }
        let c = val.get_char(i);
        if c == ':' {
            let seg = val.substring_char(start, i);
            let ghost tail: Seq<Seq<char>> = split_colon(
                val@.skip(i as int + 1),
                Seq::<char>::empty(),
            );
            proof {
                assert(whole == parts.deep_view() + (seq![seg@] + tail));
                assert(parts.deep_view() + (seq![seg@] + tail) =~= parts.deep_view() + seq![seg@]
                    + tail);
            }
            if !is_absolute(seg) {
                proof {
                    lemma_validated_first_bad(parts.deep_view(), seg@, tail, key@);
                }
                return Result::Err(
                    XdgError::RelativePath { env_var_key: key.to_owned(), path: seg.to_owned() },
                );
            }
            let ghost prev = parts.deep_view();
            parts.push(seg.to_owned());
            proof {
                assert(parts.deep_view() =~= prev + seq![seg@]);
                assert(val@.subrange(i as int + 1, i as int + 1) =~= Seq::<char>::empty());
                assert(parts.deep_view() + tail =~= prev + (seq![seg@] + tail));
            }
            start = i + 1;
        } else {
            proof {
                assert(val@.subrange(start as int, i as int).push(val@[i as int])
                    =~= val@.subrange(start as int, i as int + 1));
            }
        }
        i += 1;
    }
    proof {
        assert(val@.skip(n as int) =~= Seq::<char>::empty());
    }
    let seg = val.substring_char(start, n);
    proof {
        assert(whole == parts.deep_view() + seq![seg@]);
    }
    if !is_absolute(seg) {
        proof {
            lemma_validated_first_bad(parts.deep_view(), seg@, Seq::<Seq<char>>::empty(), key@);
            assert(parts.deep_view() + seq![seg@] + Seq::<Seq<char>>::empty() =~= parts.deep_view()
                + seq![seg@]);
        }
        return Result::Err(
            XdgError::RelativePath { env_var_key: key.to_owned(), path: seg.to_owned() },
        );
    }
    let ghost prev = parts.deep_view();
    parts.push(seg.to_owned());
    proof {
        assert(parts.deep_view() =~= prev + seq![seg@]);
        lemma_validated_all_ok(parts.deep_view(), key@);
    }
    Result::Ok(parts)
}

/// Every directory of `dirs` extended with the segment `file`, in order.
pub open spec fn with_file(dirs: Seq<Seq<char>>, file: Seq<char>) -> Seq<Seq<char>> {
    dirs.map_values(|d: Seq<char>| joined(d, file))
}

/// The first candidate path that is present, searching `cands` in order
/// through the set `present` of paths that exist as regular files.
pub open spec fn first_hit(cands: Seq<Seq<char>>, present: Seq<Seq<char>>) -> Option<Seq<char>>
    decreases cands.len(),
{
    if cands.len() == 0 {
        Option::None
    } else if present.contains(cands[0]) {
        Option::Some(cands[0])
    } else {
        first_hit(cands.drop_first(), present)
    }
}

/// Whether the path `p` occurs in `present`.
pub(crate) fn contains_str(present: &Vec<String>, p: &str) -> (r: bool)
    ensures
        r == present.deep_view().contains(p@),
{
    let mut i: usize = 0;
    while i < present.len()
        invariant
            i <= present@.len(),
            forall|j: int| 0 <= j < i ==> #[trigger] present.deep_view()[j] != p@,
        decreases present@.len() - i,
    {
        if crate::strings::str_eq(present[i].as_str(), p) {
            proof {
                assert(present.deep_view()[i as int] == p@);
            }
            return true;
        }
        i += 1;
    }
    false
}

/// Walks `list` in order, extending each directory with `file`, and
/// returns the first resulting path that occurs in `present`.
pub(crate) fn find_first(list: &Vec<String>, file: &str, present: &Vec<String>) -> (r: Option<
    String,
>)
    ensures
        r.deep_view() == first_hit(with_file(list.deep_view(), file@), present.deep_view()),
{
    let ghost mapped: Seq<Seq<char>> = with_file(list.deep_view(), file@);
    let mut j: usize = 0;
    proof {
        assert(mapped.skip(0) =~= mapped);
    }
    while j < list.len()
        invariant
            j <= list@.len(),
            mapped == with_file(list.deep_view(), file@),
            first_hit(mapped, present.deep_view()) == first_hit(
                mapped.skip(j as int),
                present.deep_view(),
            ),
        decreases list@.len() - j,
    {
        proof {
            assert(mapped.skip(j as int)[0] == mapped[j as int]);
            assert(mapped.skip(j as int).drop_first() =~= mapped.skip(j as int + 1));
        }
        let c = join(list[j].as_str(), file);
        if contains_str(present, c.as_str()) {
            return Option::Some(c);
        }
        j += 1;
    }
    proof {
        assert(mapped.skip(list@.len() as int) =~= Seq::<Seq<char>>::empty());
    }
    Option::None
}

/// An implementation of the XDG Base Directory Specification working on a
/// captured environment snapshot.
///
/// The home directory is computed once, at construction, from the
/// snapshot's `HOME` and `USER` variables; every other directory is
/// resolved on demand from the snapshot.
#[derive(Debug, Clone)]
pub struct Xdg {
    /// The captured environment the resolver answers from.
    env: Env,
    /// Home directory of the user owning the snapshot.
    home: String,
}

impl Xdg {
    /// The home directory this resolver was constructed with.
    pub closed spec fn spec_home(&self) -> Seq<char> {
        self.home@
    }

    /// The state of the variable `name` in the captured environment.
    pub closed spec fn var(&self, name: Seq<char>) -> EnvVarView {
        self.env.var(name)
    }

    /// Resolution of the user-specific directory of kind `d` from this
    /// resolver's state.
    pub open spec fn spec_user_dir(&self, d: XdgDir) -> Result<Seq<char>, XdgErrorView> {
        user_dir_outcome(self.var(dir_env_var(d)), dir_env_var(d), self.spec_home(), dir_fallback(d))
    }

    /// Constructs a resolver from a captured environment.
    ///
    /// A textual `HOME` value is used verbatim as the home directory;
    /// otherwise a textual `USER` value yields `/home/<USER>`; otherwise
    /// the construction fails with [`XdgError::HomeNotFound`].
    pub fn new(env: Env) -> (r: Result<Xdg, XdgError>)
        ensures
            match r {
                Result::Ok(x) => {
                    &&& home_outcome(env.var("HOME"@), env.var("USER"@)) == Option::Some(
                        x.spec_home(),
                    )
                    &&& forall|name: Seq<char>| x.var(name) == env.var(name)
                },
                Result::Err(e) => {
                    &&& e@ == XdgErrorView::HomeNotFound
                    &&& home_outcome(env.var("HOME"@), env.var("USER"@)) is None
                },
            },
    {
        let home_val: Option<String> = match env.get("HOME") {
            Option::Some(EnvValue::Unicode(h)) => Option::Some(h.clone()),
            _ => Option::None,
        };
        if let Option::Some(home) = home_val {
            return Result::Ok(Xdg { env, home });
        }
        let user_val: Option<String> = match env.get("USER") {
            Option::Some(EnvValue::Unicode(u)) => Option::Some(u.clone()),
            _ => Option::None,
        };
        match user_val {
            Option::Some(user) => {
                let mut home = String::from_str("/home/");
                home.append(user.as_str());
                Result::Ok(Xdg { env, home })
            },
            Option::None => Result::Err(XdgError::HomeNotFound),
        }
    }

    /// Constructs an application-scoped resolver for `app_name` from a
    /// captured environment, as [`crate::XdgApp::new`] does.
    pub fn new_app(app_name: &str, env: Env) -> (r: Result<crate::app::XdgApp, XdgError>)
        ensures
            match r {
                Result::Ok(a) => {
                    &&& home_outcome(env.var("HOME"@), env.var("USER"@)) == Option::Some(
                        a.spec_home(),
                    )
                    &&& a.spec_name() == app_name@
                    &&& forall|name: Seq<char>| a.var(name) == env.var(name)
                },
                Result::Err(e) => {
                    &&& e@ == XdgErrorView::HomeNotFound
                    &&& home_outcome(env.var("HOME"@), env.var("USER"@)) is None
                },
            },
    {
        crate::app::XdgApp::new(app_name, env)
    }

    /// Returns the home directory of the user owning the snapshot.
    pub fn home(&self) -> (r: &str)
        ensures
            r@ == self.spec_home(),
    {
        self.home.as_str()
    }

    /// Resolves the user-specific directory of kind `dir`.
    pub(crate) fn get_dir_path(&self, dir: XdgDir) -> (r: Result<String, XdgError>)
        ensures
            path_result_view(r) == self.spec_user_dir(dir),
    {
        let key = dir.env_var();
        match self.env.get(key) {
            Option::None => Result::Ok(join(self.home.as_str(), dir.fallback())),
            Option::Some(EnvValue::Unicode(val)) => {
                if val.as_str().is_empty() {
                    Result::Ok(join(self.home.as_str(), dir.fallback()))
                } else if is_absolute(val.as_str()) {
                    Result::Ok(val.clone())
                } else {
                    Result::Err(
                        XdgError::RelativePath { env_var_key: key.to_owned(), path: val.clone() },
                    )
                }
            },
            Option::Some(EnvValue::NonUnicode(bytes)) => Result::Err(
                XdgError::InvalidUnicode {
                    env_var_key: key.to_owned(),
                    env_var_val: copy_bytes(bytes),
                },
            ),
        }
    }

    /// Returns the user-specific XDG **cache** directory: the value of
    /// `XDG_CACHE_HOME`, or `<home>/.cache` when that variable is unset or
    /// empty.
    pub fn cache(&self) -> (r: Result<String, XdgError>)
        ensures
            path_result_view(r) == self.spec_user_dir(XdgDir::Cache),
    {
        self.get_dir_path(XdgDir::Cache)
    }

    /// Returns the user-specific XDG **configuration** directory: the
    /// value of `XDG_CONFIG_HOME`, or `<home>/.config` when that variable
    /// is unset or empty.
    pub fn config(&self) -> (r: Result<String, XdgError>)
        ensures
            path_result_view(r) == self.spec_user_dir(XdgDir::Config),
    {
        self.get_dir_path(XdgDir::Config)
    }

    /// Returns the user-specific XDG **data** directory: the value of
    /// `XDG_DATA_HOME`, or `<home>/.local/share` when that variable is
    /// unset or empty.
    pub fn data(&self) -> (r: Result<String, XdgError>)
        ensures
            path_result_view(r) == self.spec_user_dir(XdgDir::Data),
    {
        self.get_dir_path(XdgDir::Data)
    }

    /// Returns the user-specific XDG **state** directory: the value of
    /// `XDG_STATE_HOME`, or `<home>/.local/state` when that variable is
    /// unset or empty.
    pub fn state(&self) -> (r: Result<String, XdgError>)
        ensures
            path_result_view(r) == self.spec_user_dir(XdgDir::State),
    {
        self.get_dir_path(XdgDir::State)
    }

    /// Returns the XDG **runtime** directory named by `XDG_RUNTIME_DIR`.
    /// No fallback is defined for it, so `None` is returned when the
    /// variable is unset or empty.
    pub fn runtime(&self) -> (r: Result<Option<String>, XdgError>)
        ensures
            opt_path_result_view(r) == runtime_outcome(
                self.var("XDG_RUNTIME_DIR"@),
                "XDG_RUNTIME_DIR"@,
            ),
    {
        let key = "XDG_RUNTIME_DIR";
        match self.env.get(key) {
            Option::None => Result::Ok(Option::None),
            Option::Some(EnvValue::Unicode(val)) => {
                if val.as_str().is_empty() {
                    Result::Ok(Option::None)
                } else if is_absolute(val.as_str()) {
                    Result::Ok(Option::Some(val.clone()))
                } else {
                    Result::Err(
                        XdgError::RelativePath { env_var_key: key.to_owned(), path: val.clone() },
                    )
                }
            },
            Option::Some(EnvValue::NonUnicode(bytes)) => Result::Err(
                XdgError::InvalidUnicode {
                    env_var_key: key.to_owned(),
                    env_var_val: copy_bytes(bytes),
                },
            ),
        }
    }

    /// Returns the user-specific XDG **executable** directory,
    /// `<home>/.local/bin`. No environment variable governs it.
    pub fn exec(&self) -> (r: String)
        ensures
            r@ == joined(self.spec_home(), ".local/bin"@),
    {
        join(self.home.as_str(), ".local/bin")
    }

    /// Resolves the user-specific directory of kind `dir` and extends it
    /// with `file`.
    fn get_file_path(&self, dir: XdgDir, file: &str) -> (r: Result<String, XdgError>)
        ensures
            path_result_view(r) == appended(self.spec_user_dir(dir), file@),
    {
        match self.get_dir_path(dir) {
            Result::Ok(p) => Result::Ok(join(p.as_str(), file)),
            Result::Err(e) => Result::Err(e),
        }
    }

    /// Returns the user-specific XDG **cache** file path
    /// `<cache dir>/<file>`. The path is constructed only; nothing checks
    /// that it exists.
    pub fn cache_file(&self, file: &str) -> (r: Result<String, XdgError>)
        ensures
            path_result_view(r) == appended(self.spec_user_dir(XdgDir::Cache), file@),
    {
        self.get_file_path(XdgDir::Cache, file)
    }

    /// Returns the user-specific XDG **configuration** file path
    /// `<config dir>/<file>`. The path is constructed only; nothing checks
    /// that it exists.
    pub fn config_file(&self, file: &str) -> (r: Result<String, XdgError>)
        ensures
            path_result_view(r) == appended(self.spec_user_dir(XdgDir::Config), file@),
    {
        self.get_file_path(XdgDir::Config, file)
    }

    /// Returns the user-specific XDG **data** file path
    /// `<data dir>/<file>`. The path is constructed only; nothing checks
    /// that it exists.
    pub fn data_file(&self, file: &str) -> (r: Result<String, XdgError>)
        ensures
            path_result_view(r) == appended(self.spec_user_dir(XdgDir::Data), file@),
    {
        self.get_file_path(XdgDir::Data, file)
    }

    /// Returns the user-specific XDG **state** file path
    /// `<state dir>/<file>`. The path is constructed only; nothing checks
    /// that it exists.
    pub fn state_file(&self, file: &str) -> (r: Result<String, XdgError>)
        ensures
            path_result_view(r) == appended(self.spec_user_dir(XdgDir::State), file@),
    {
        self.get_file_path(XdgDir::State, file)
    }

    /// Resolution of the system-wide directory list of kind `s` from this
    /// resolver's state.
    pub open spec fn spec_sys_dirs(&self, s: XdgSysDirs) -> Result<Seq<Seq<char>>, XdgErrorView> {
        sys_dirs_outcome(self.var(sys_env_var(s)), sys_env_var(s), sys_fallback(s))
    }

    /// Resolves the system-wide directory list of kind `dirs`.
    pub(crate) fn get_sys_dir_paths(&self, dirs: XdgSysDirs) -> (r: Result<Vec<String>, XdgError>)
        ensures
            paths_result_view(r) == self.spec_sys_dirs(dirs),
    {
        let key = dirs.env_var();
        match self.env.get(key) {
            Option::None => Result::Ok(dirs.fallback()),
            Option::Some(EnvValue::Unicode(val)) => {
                if val.as_str().is_empty() {
                    Result::Ok(dirs.fallback())
                } else {
                    split_validated(key, val.as_str())
                }
            },
            Option::Some(EnvValue::NonUnicode(bytes)) => Result::Err(
                XdgError::InvalidUnicode {
                    env_var_key: key.to_owned(),
                    env_var_val: copy_bytes(bytes),
                },
            ),
        }
    }

    /// Returns the system-wide, preference-ordered XDG **configuration**
    /// directories: the colon-separated value of `XDG_CONFIG_DIRS`, or
    /// `/etc/xdg` when that variable is unset or empty. The first entry
    /// has the highest precedence.
    pub fn sys_config(&self) -> (r: Result<Vec<String>, XdgError>)
        ensures
            paths_result_view(r) == self.spec_sys_dirs(XdgSysDirs::Config),
    {
        self.get_sys_dir_paths(XdgSysDirs::Config)
    }

    /// Returns the system-wide, preference-ordered XDG **data**
    /// directories: the colon-separated value of `XDG_DATA_DIRS`, or
    /// `/usr/local/share` then `/usr/share` when that variable is unset
    /// or empty. The first entry has the highest precedence.
    pub fn sys_data(&self) -> (r: Result<Vec<String>, XdgError>)
        ensures
            paths_result_view(r) == self.spec_sys_dirs(XdgSysDirs::Data),
    {
        self.get_sys_dir_paths(XdgSysDirs::Data)
    }

    /// The outcome of searching for `file` among the directories of kind
    /// `d`: the user-specific directory is probed first; only when the
    /// file is not there is the system-wide list of `d`'s counterpart
    /// (when `d` has one) resolved and probed in preference order.
    pub open spec fn spec_search_file(
        &self,
        d: XdgDir,
        file: Seq<char>,
        present: Seq<Seq<char>>,
    ) -> Result<Option<Seq<char>>, XdgErrorView> {
        match self.spec_user_dir(d) {
            Result::Err(e) => Result::Err(e),
            Result::Ok(dirp) => {
                let cand = joined(dirp, file);
                if present.contains(cand) {
                    Result::Ok(Option::Some(cand))
                } else {
                    match dir_sys(d) {
                        Option::None => Result::Ok(Option::None),
                        Option::Some(sd) => match self.spec_sys_dirs(sd) {
                            Result::Err(e) => Result::Err(e),
                            Result::Ok(list) => Result::Ok(
                                first_hit(with_file(list, file), present),
                            ),
                        },
                    }
                }
            },
        }
    }

    /// Searches for `file` among the directories of kind `dir`, given in
    /// `present` the paths that exist as regular files.
    fn search_file(&self, dir: XdgDir, file: &str, present: &Vec<String>) -> (r: Result<
        Option<String>,
        XdgError,
    >)
        ensures
            opt_path_result_view(r) == self.spec_search_file(dir, file@, present.deep_view()),
    {
        let dirp = match self.get_dir_path(dir) {
            Result::Ok(p) => p,
            Result::Err(e) => {
                return Result::Err(e);
            },
        };
        let cand = join(dirp.as_str(), file);
        if contains_str(present, cand.as_str()) {
            return Result::Ok(Option::Some(cand));
        }
        match dir.to_sys() {
            Option::None => Result::Ok(Option::None),
            Option::Some(sd) => {
                let list = match self.get_sys_dir_paths(sd) {
                    Result::Ok(l) => l,
                    Result::Err(e) => {
                        return Result::Err(e);
                    },
                };
                Result::Ok(find_first(&list, file, present))
            },
        }
    }

    /// Searches for `file` in the user-specific XDG **cache** directory.
    /// `present` names the paths that exist as regular files; `None` is
    /// the valid "not found" outcome, not an error.
    pub fn search_cache_file(&self, file: &str, present: &Vec<String>) -> (r: Result<
        Option<String>,
        XdgError,
    >)
        ensures
            opt_path_result_view(r) == self.spec_search_file(
                XdgDir::Cache,
                file@,
                present.deep_view(),
            ),
    {
        self.search_file(XdgDir::Cache, file, present)
    }

    /// Searches for `file` in the user-specific XDG **configuration**
    /// directory first, then in the system-wide configuration directories
    /// in preference order. `present` names the paths that exist as
    /// regular files; `None` is the valid "not found" outcome, not an
    /// error.
    pub fn search_config_file(&self, file: &str, present: &Vec<String>) -> (r: Result<
        Option<String>,
        XdgError,
    >)
        ensures
            opt_path_result_view(r) == self.spec_search_file(
                XdgDir::Config,
                file@,
                present.deep_view(),
            ),
    {
        self.search_file(XdgDir::Config, file, present)
    }

    /// Searches for `file` in the user-specific XDG **data** directory
    /// first, then in the system-wide data directories in preference
    /// order. `present` names the paths that exist as regular files;
    /// `None` is the valid "not found" outcome, not an error.
    pub fn search_data_file(&self, file: &str, present: &Vec<String>) -> (r: Result<
        Option<String>,
        XdgError,
    >)
        ensures
            opt_path_result_view(r) == self.spec_search_file(
                XdgDir::Data,
                file@,
                present.deep_view(),
            ),
    {
        self.search_file(XdgDir::Data, file, present)
    }

    /// Searches for `file` in the user-specific XDG **state** directory.
    /// `present` names the paths that exist as regular files; `None` is
    /// the valid "not found" outcome, not an error.
    pub fn search_state_file(&self, file: &str, present: &Vec<String>) -> (r: Result<
        Option<String>,
        XdgError,
    >)
        ensures
            opt_path_result_view(r) == self.spec_search_file(
                XdgDir::State,
                file@,
                present.deep_view(),
            ),
    {
        self.search_file(XdgDir::State, file, present)
    }
}

/// Law: for every user-specific directory kind, when the kind's
/// environment variable is unset or set to the empty value and the home
/// directory is known, resolution yields exactly the home directory
/// extended with the kind's fallback suffix.
pub proof fn lemma_unset_or_empty_falls_back(x: Xdg, d: XdgDir)
    requires
        x.var(dir_env_var(d)) == EnvVarView::Unset || x.var(dir_env_var(d))
            == EnvVarView::Unicode(Seq::<char>::empty()),
    ensures
        x.spec_user_dir(d) == Result::<Seq<char>, XdgErrorView>::Ok(
            joined(x.spec_home(), dir_fallback(d)),
        ),
{
}

/// Law: for every user-specific directory kind, a variable set to a
/// non-empty relative textual value fails with a `RelativePath` error
/// naming that variable and that value, whatever the home directory is.
pub proof fn lemma_relative_value_rejected(x: Xdg, d: XdgDir, p: Seq<char>)
    requires
        x.var(dir_env_var(d)) == EnvVarView::Unicode(p),
        p.len() > 0,
        !absolute(p),
    ensures
        x.spec_user_dir(d) == Result::<Seq<char>, XdgErrorView>::Err(
            XdgErrorView::RelativePath { var: dir_env_var(d), path: p },
        ),
{
}

/// Law: for every system-wide kind, an unset list variable resolves to
/// exactly the kind's fixed fallback list, in declared order.
pub proof fn lemma_sys_unset_falls_back(x: Xdg, s: XdgSysDirs)
    requires
        x.var(sys_env_var(s)) == EnvVarView::Unset,
    ensures
        x.spec_sys_dirs(s) == Result::<Seq<Seq<char>>, XdgErrorView>::Ok(sys_fallback(s)),
{
}

/// Law: resolution has no hidden state — a user-specific directory
/// outcome is a function of the resolver's state alone, so any two
/// results that satisfy the same resolution contract against an
/// unchanged resolver are equal as mathematical values.
pub proof fn lemma_user_dir_deterministic(
    x: Xdg,
    d: XdgDir,
    r1: Result<String, XdgError>,
    r2: Result<String, XdgError>,
)
    requires
        path_result_view(r1) == x.spec_user_dir(d),
        path_result_view(r2) == x.spec_user_dir(d),
    ensures
        path_result_view(r1) == path_result_view(r2),
{
}

/// Law: resolution has no hidden state — a system-wide list outcome is a
/// function of the resolver's state alone, so any two results that
/// satisfy the same resolution contract against an unchanged resolver
/// are equal as mathematical values.
pub proof fn lemma_sys_dirs_deterministic(
    x: Xdg,
    s: XdgSysDirs,
    r1: Result<Vec<String>, XdgError>,
    r2: Result<Vec<String>, XdgError>,
)
    requires
        paths_result_view(r1) == x.spec_sys_dirs(s),
        paths_result_view(r2) == x.spec_sys_dirs(s),
    ensures
        paths_result_view(r1) == paths_result_view(r2),
{
}

/// Law: search precedence — whenever the user-specific directory of a
/// kind resolves and holds the file, the search returns that path,
/// whatever the system-wide directories hold.
pub proof fn lemma_search_prefers_user(
    x: Xdg,
    d: XdgDir,
    dirp: Seq<char>,
    file: Seq<char>,
    present: Seq<Seq<char>>,
)
    requires
        x.spec_user_dir(d) == Result::<Seq<char>, XdgErrorView>::Ok(dirp),
        present.contains(joined(dirp, file)),
    ensures
        x.spec_search_file(d, file, present) == Result::<Option<Seq<char>>, XdgErrorView>::Ok(
            Option::Some(joined(dirp, file)),
        ),
{
}

/// Law: among the system-wide candidates, earlier entries take
/// precedence — the first candidate that is present is the one the
/// search yields.
pub proof fn lemma_first_hit_is_first(cands: Seq<Seq<char>>, present: Seq<Seq<char>>, i: int)
    requires
        0 <= i < cands.len(),
        present.contains(cands[i]),
        forall|j: int| 0 <= j < i ==> !present.contains(#[trigger] cands[j]),
    ensures
        first_hit(cands, present) == Option::Some(cands[i]),
    decreases i,
{
    if i > 0 {
        assert(!present.contains(cands[0]));
        assert(cands.drop_first()[i - 1] == cands[i]);
        assert forall|j: int| 0 <= j < i - 1 implies !present.contains(
            #[trigger] cands.drop_first()[j],
        ) by {
            assert(cands.drop_first()[j] == cands[j + 1]);
        }
        lemma_first_hit_is_first(cands.drop_first(), present, i - 1);
    }
}

/// Law: a search that yields nothing really found nothing — the search
/// over a candidate list comes back empty exactly when no candidate is
/// present.
pub proof fn lemma_first_hit_none(cands: Seq<Seq<char>>, present: Seq<Seq<char>>)
    ensures
        first_hit(cands, present) is None <==> forall|j: int|
            0 <= j < cands.len() ==> !present.contains(#[trigger] cands[j]),
    decreases cands.len(),
{
    if cands.len() > 0 {
        lemma_first_hit_none(cands.drop_first(), present);
        if !present.contains(cands[0]) && first_hit(cands, present) is None {
            assert forall|j: int| 0 <= j < cands.len() implies !present.contains(
                #[trigger] cands[j],
            ) by {
                if j > 0 {
                    assert(cands[j] == cands.drop_first()[j - 1]);
                }
            }
        }
    }
}

/// A segment list that validates successfully is returned exactly as it
/// was, and every segment in it is absolute.
proof fn lemma_validated_ok_exact(parts: Seq<Seq<char>>, key: Seq<char>)
    requires
        validated(parts, key) is Ok,
    ensures
        validated(parts, key) == Result::<Seq<Seq<char>>, XdgErrorView>::Ok(parts),
        forall|k: int| 0 <= k < parts.len() ==> absolute(#[trigger] parts[k]),
    decreases parts.len(),
{
    if parts.len() == 0 {
        assert(parts =~= Seq::<Seq<char>>::empty());
    } else {
        lemma_validated_ok_exact(parts.drop_first(), key);
        assert(seq![parts[0]] + parts.drop_first() =~= parts);
        assert forall|k: int| 0 <= k < parts.len() implies absolute(#[trigger] parts[k]) by {
            if k > 0 {
                assert(parts[k] == parts.drop_first()[k - 1]);
            }
        }
    }
}

/// Law: a textual list value that resolves successfully yields exactly
/// its colon-split segments — order kept, duplicates kept, nothing
/// filtered — and each of them is an absolute path.
pub proof fn lemma_split_ok_is_exact_split(s: Seq<char>, key: Seq<char>)
    requires
        split_paths(s, key) is Ok,
    ensures
        split_paths(s, key) == Result::<Seq<Seq<char>>, XdgErrorView>::Ok(
            split_colon(s, Seq::<char>::empty()),
        ),
        forall|k: int|
            0 <= k < split_colon(s, Seq::<char>::empty()).len() ==> absolute(
                #[trigger] split_colon(s, Seq::<char>::empty())[k],
            ),
{
    lemma_validated_ok_exact(split_colon(s, Seq::<char>::empty()), key);
}

/// Law: searching has no hidden state — a search outcome is a function
/// of the resolver's state, the file name and the set of present paths
/// alone, so any two results that satisfy the same search contract
/// against unchanged inputs are equal as mathematical values.
pub proof fn lemma_search_deterministic(
    x: Xdg,
    d: XdgDir,
    file: Seq<char>,
    present: Seq<Seq<char>>,
    r1: Result<Option<String>, XdgError>,
    r2: Result<Option<String>, XdgError>,
)
    requires
        opt_path_result_view(r1) == x.spec_search_file(d, file, present),
        opt_path_result_view(r2) == x.spec_search_file(d, file, present),
    ensures
        opt_path_result_view(r1) == opt_path_result_view(r2),
{
}

} // verus!
