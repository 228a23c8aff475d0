//! The application overlay over the base resolver.
//!
//! [`XdgApp`] binds an application name to an [`Xdg`] resolver. Every
//! base-directory query of [`Xdg`] is available unchanged, and the `app_`
//! variants extend each resolved path — or every entry of a resolved list —
//! with the bound name as a further segment, propagating errors unchanged.

use vstd::prelude::*;
use vstd::string::*;

use crate::env::Env;
use crate::env::EnvVarView;
use crate::error::XdgError;
use crate::error::XdgErrorView;
use crate::error::opt_path_result_view;
use crate::error::path_result_view;
use crate::error::paths_result_view;
use crate::paths::join;
use crate::paths::joined;
use crate::xdg::Xdg;
use crate::xdg::XdgDir;
use crate::xdg::XdgSysDirs;
use crate::xdg::all_appended;
use crate::xdg::appended;
use crate::xdg::contains_str;
use crate::xdg::dir_sys;
use crate::xdg::find_first;
use crate::xdg::first_hit;
use crate::xdg::home_outcome;
use crate::xdg::runtime_outcome;
use crate::xdg::with_file;

verus! {

/// Every path of `list` extended with the segment `seg`, in order.
fn append_all(list: &Vec<String>, seg: &str) -> (r: Vec<String>)
    ensures
        r.deep_view() == with_file(list.deep_view(), seg@),
{
    let mut r: Vec<String> = Vec::new();
    let mut j: usize = 0;
    while j < list.len()
        invariant
            j <= list@.len(),
            r.deep_view() == with_file(list.deep_view(), seg@).take(j as int),
        decreases list@.len() - j,
    {
        let ghost prev = r.deep_view();
        r.push(join(list[j].as_str(), seg));
        proof {
            assert(r.deep_view() =~= prev.push(joined(list.deep_view()[j as int], seg@)));
            assert(r.deep_view() =~= with_file(list.deep_view(), seg@).take(j as int + 1));
        }
        j += 1;
    }
    proof {
        assert(with_file(list.deep_view(), seg@).take(list@.len() as int) =~= with_file(
            list.deep_view(),
            seg@,
        ));
    }
    r
}

/// An XDG Base Directory resolver with an application name bound to it,
/// scoping the `app_` queries to that application's subdirectories.
#[derive(Debug, Clone)]
pub struct XdgApp {
    /// The underlying base resolver.
    xdg: Xdg,
    /// The bound application name.
    name: String,
}

impl XdgApp {
    /// The underlying base resolver.
    pub closed spec fn spec_xdg(&self) -> Xdg {
        self.xdg
    }

    /// The bound application name.
    pub closed spec fn spec_name(&self) -> Seq<char> {
        self.name@
    }

    /// The home directory this resolver was constructed with.
    pub open spec fn spec_home(&self) -> Seq<char> {
        self.spec_xdg().spec_home()
    }

    /// The state of the variable `name` in the captured environment.
    pub open spec fn var(&self, name: Seq<char>) -> EnvVarView {
        self.spec_xdg().var(name)
    }

    /// Resolution of the user-specific directory of kind `d`.
    pub open spec fn spec_user_dir(&self, d: XdgDir) -> Result<Seq<char>, XdgErrorView> {
        self.spec_xdg().spec_user_dir(d)
    }

    /// Resolution of the system-wide directory list of kind `s`.
    pub open spec fn spec_sys_dirs(&self, s: XdgSysDirs) -> Result<Seq<Seq<char>>, XdgErrorView> {
        self.spec_xdg().spec_sys_dirs(s)
    }

    /// Resolution of the application subdirectory of kind `d`: the base
    /// directory outcome with the bound name pushed as final segment.
    pub open spec fn spec_app_dir(&self, d: XdgDir) -> Result<Seq<char>, XdgErrorView> {
        appended(self.spec_user_dir(d), self.spec_name())
    }

    /// Resolution of the application subdirectories of the system-wide
    /// kind `s`: every entry of the base list extended with the bound
    /// name, preserving order.
    pub open spec fn spec_app_sys_dirs(&self, s: XdgSysDirs) -> Result<
        Seq<Seq<char>>,
        XdgErrorView,
    > {
        all_appended(self.spec_sys_dirs(s), self.spec_name())
    }

    /// Constructs a resolver for the application `app_name` from a
    /// captured environment, determining the home directory exactly as
    /// [`Xdg::new`] does.
    pub fn new(app_name: &str, env: Env) -> (r: Result<XdgApp, XdgError>)
        ensures
            match r {
                Result::Ok(a) => {
                    &&& home_outcome(env.var("HOME"@), env.var("USER"@)) == Option::Some(
                        a.spec_home(),
                    )
                    &&& a.spec_name() == app_name@
                    &&& forall|name: Seq<char>| a.var(name) == env.var(name)
                },
                Result::Err(e) => {
                    &&& e@ == XdgErrorView::HomeNotFound
                    &&& home_outcome(env.var("HOME"@), env.var("USER"@)) is None
                },
            },
    {
        match Xdg::new(env) {
            Result::Ok(xdg) => Result::Ok(XdgApp { xdg, name: String::from_str(app_name) }),
            Result::Err(e) => Result::Err(e),
        }
    }

    /// Binds the application name `app_name` to an existing resolver.
    pub fn from_xdg(xdg: Xdg, app_name: &str) -> (a: XdgApp)
        ensures
            a.spec_xdg() == xdg,
            a.spec_name() == app_name@,
    {
        XdgApp { xdg, name: String::from_str(app_name) }
    }

    /// Returns the home directory of the user owning the snapshot.
    pub fn home(&self) -> (r: &str)
        ensures
            r@ == self.spec_home(),
    {
        self.xdg.home()
    }

    /// Returns the user-specific XDG **cache** directory, as
    /// [`Xdg::cache`] does.
    pub fn cache(&self) -> (r: Result<String, XdgError>)
        ensures
            path_result_view(r) == self.spec_user_dir(XdgDir::Cache),
    {
        self.xdg.cache()
    }

    /// Returns the user-specific XDG **configuration** directory, as
    /// [`Xdg::config`] does.
    pub fn config(&self) -> (r: Result<String, XdgError>)
        ensures
            path_result_view(r) == self.spec_user_dir(XdgDir::Config),
    {
        self.xdg.config()
    }

    /// Returns the user-specific XDG **data** directory, as [`Xdg::data`]
    /// does.
    pub fn data(&self) -> (r: Result<String, XdgError>)
        ensures
            path_result_view(r) == self.spec_user_dir(XdgDir::Data),
    {
        self.xdg.data()
    }

    /// Returns the user-specific XDG **state** directory, as
    /// [`Xdg::state`] does.
    pub fn state(&self) -> (r: Result<String, XdgError>)
        ensures
            path_result_view(r) == self.spec_user_dir(XdgDir::State),
    {
        self.xdg.state()
    }

    /// Returns the XDG **runtime** directory, as [`Xdg::runtime`] does.
    pub fn runtime(&self) -> (r: Result<Option<String>, XdgError>)
        ensures
            opt_path_result_view(r) == runtime_outcome(
                self.var("XDG_RUNTIME_DIR"@),
                "XDG_RUNTIME_DIR"@,
            ),
    {
        self.xdg.runtime()
    }

    /// Returns the user-specific XDG **executable** directory,
    /// `<home>/.local/bin`.
    pub fn exec(&self) -> (r: String)
        ensures
            r@ == joined(self.spec_home(), ".local/bin"@),
    {
        self.xdg.exec()
    }

    /// Returns the system-wide, preference-ordered XDG **configuration**
    /// directories, as [`Xdg::sys_config`] does.
    pub fn sys_config(&self) -> (r: Result<Vec<String>, XdgError>)
        ensures
            paths_result_view(r) == self.spec_sys_dirs(XdgSysDirs::Config),
    {
        self.xdg.sys_config()
    }

    /// Returns the system-wide, preference-ordered XDG **data**
    /// directories, as [`Xdg::sys_data`] does.
    pub fn sys_data(&self) -> (r: Result<Vec<String>, XdgError>)
        ensures
            paths_result_view(r) == self.spec_sys_dirs(XdgSysDirs::Data),
    {
        self.xdg.sys_data()
    }

    /// Resolves the application subdirectory of kind `dir`.
    fn get_app_dir_path(&self, dir: XdgDir) -> (r: Result<String, XdgError>)
        ensures
            path_result_view(r) == self.spec_app_dir(dir),
    {
        match self.xdg.get_dir_path(dir) {
            Result::Ok(p) => Result::Ok(join(p.as_str(), self.name.as_str())),
            Result::Err(e) => Result::Err(e),
        }
    }

    /// Returns the user-specific XDG **cache** subdirectory for the bound
    /// application: the cache directory with the application name pushed
    /// as final segment.
    pub fn app_cache(&self) -> (r: Result<String, XdgError>)
        ensures
            path_result_view(r) == self.spec_app_dir(XdgDir::Cache),
    {
        self.get_app_dir_path(XdgDir::Cache)
    }

    /// Returns the user-specific XDG **configuration** subdirectory for
    /// the bound application: the configuration directory with the
    /// application name pushed as final segment.
    pub fn app_config(&self) -> (r: Result<String, XdgError>)
        ensures
            path_result_view(r) == self.spec_app_dir(XdgDir::Config),
    {
        self.get_app_dir_path(XdgDir::Config)
    }

    /// Returns the user-specific XDG **data** subdirectory for the bound
    /// application: the data directory with the application name pushed
    /// as final segment.
    pub fn app_data(&self) -> (r: Result<String, XdgError>)
        ensures
            path_result_view(r) == self.spec_app_dir(XdgDir::Data),
    {
        self.get_app_dir_path(XdgDir::Data)
    }

    /// Returns the user-specific XDG **state** subdirectory for the bound
    /// application: the state directory with the application name pushed
    /// as final segment.
    pub fn app_state(&self) -> (r: Result<String, XdgError>)
        ensures
            path_result_view(r) == self.spec_app_dir(XdgDir::State),
    {
        self.get_app_dir_path(XdgDir::State)
    }

    /// Resolves the application subdirectories of the system-wide kind
    /// `dirs`.
    fn get_app_sys_dir_paths(&self, dirs: XdgSysDirs) -> (r: Result<Vec<String>, XdgError>)
        ensures
            paths_result_view(r) == self.spec_app_sys_dirs(dirs),
    {
        match self.xdg.get_sys_dir_paths(dirs) {
            Result::Ok(list) => Result::Ok(append_all(&list, self.name.as_str())),
            Result::Err(e) => Result::Err(e),
        }
    }

    /// Returns the system-wide, preference-ordered XDG **configuration**
    /// subdirectories for the bound application: every entry of the
    /// configuration list extended with the application name, in order.
    pub fn app_sys_config(&self) -> (r: Result<Vec<String>, XdgError>)
        ensures
            paths_result_view(r) == self.spec_app_sys_dirs(XdgSysDirs::Config),
    {
        self.get_app_sys_dir_paths(XdgSysDirs::Config)
    }

    /// Returns the system-wide, preference-ordered XDG **data**
    /// subdirectories for the bound application: every entry of the data
    /// list extended with the application name, in order.
    pub fn app_sys_data(&self) -> (r: Result<Vec<String>, XdgError>)
        ensures
            paths_result_view(r) == self.spec_app_sys_dirs(XdgSysDirs::Data),
    {
        self.get_app_sys_dir_paths(XdgSysDirs::Data)
    }

    /// Returns the user-specific XDG **cache** file path, as
    /// [`Xdg::cache_file`] does.
    pub fn cache_file(&self, file: &str) -> (r: Result<String, XdgError>)
        ensures
            path_result_view(r) == appended(self.spec_user_dir(XdgDir::Cache), file@),
    {
        self.xdg.cache_file(file)
    }

    /// Returns the user-specific XDG **configuration** file path, as
    /// [`Xdg::config_file`] does.
    pub fn config_file(&self, file: &str) -> (r: Result<String, XdgError>)
        ensures
            path_result_view(r) == appended(self.spec_user_dir(XdgDir::Config), file@),
    {
        self.xdg.config_file(file)
    }

    /// Returns the user-specific XDG **data** file path, as
    /// [`Xdg::data_file`] does.
    pub fn data_file(&self, file: &str) -> (r: Result<String, XdgError>)
        ensures
            path_result_view(r) == appended(self.spec_user_dir(XdgDir::Data), file@),
    {
        self.xdg.data_file(file)
    }

    /// Returns the user-specific XDG **state** file path, as
    /// [`Xdg::state_file`] does.
    pub fn state_file(&self, file: &str) -> (r: Result<String, XdgError>)
        ensures
            path_result_view(r) == appended(self.spec_user_dir(XdgDir::State), file@),
    {
        self.xdg.state_file(file)
    }

    /// Resolves the application subdirectory of kind `dir` and extends it
    /// with `file`.
    fn get_app_file_path(&self, dir: XdgDir, file: &str) -> (r: Result<String, XdgError>)
        ensures
            path_result_view(r) == appended(self.spec_app_dir(dir), file@),
    {
        match self.get_app_dir_path(dir) {
            Result::Ok(p) => Result::Ok(join(p.as_str(), file)),
            Result::Err(e) => Result::Err(e),
        }
    }

    /// Returns the application's **cache** file path
    /// `<cache dir>/<app name>/<file>`. The path is constructed only;
    /// nothing checks that it exists.
    pub fn app_cache_file(&self, file: &str) -> (r: Result<String, XdgError>)
        ensures
            path_result_view(r) == appended(self.spec_app_dir(XdgDir::Cache), file@),
    {
        self.get_app_file_path(XdgDir::Cache, file)
    }

    /// Returns the application's **configuration** file path
    /// `<config dir>/<app name>/<file>`. The path is constructed only;
    /// nothing checks that it exists.
    pub fn app_config_file(&self, file: &str) -> (r: Result<String, XdgError>)
        ensures
            path_result_view(r) == appended(self.spec_app_dir(XdgDir::Config), file@),
    {
        self.get_app_file_path(XdgDir::Config, file)
    }

    /// Returns the application's **data** file path
    /// `<data dir>/<app name>/<file>`. The path is constructed only;
    /// nothing checks that it exists.
    pub fn app_data_file(&self, file: &str) -> (r: Result<String, XdgError>)
        ensures
            path_result_view(r) == appended(self.spec_app_dir(XdgDir::Data), file@),
    {
        self.get_app_file_path(XdgDir::Data, file)
    }

    /// Returns the application's **state** file path
    /// `<state dir>/<app name>/<file>`. The path is constructed only;
    /// nothing checks that it exists.
    pub fn app_state_file(&self, file: &str) -> (r: Result<String, XdgError>)
        ensures
            path_result_view(r) == appended(self.spec_app_dir(XdgDir::State), file@),
    {
        self.get_app_file_path(XdgDir::State, file)
    }

    /// Searches for `file` among the **cache** directories, as
    /// [`Xdg::search_cache_file`] does.
    pub fn search_cache_file(&self, file: &str, present: &Vec<String>) -> (r: Result<
        Option<String>,
        XdgError,
    >)
        ensures
            opt_path_result_view(r) == self.spec_xdg().spec_search_file(
                XdgDir::Cache,
                file@,
                present.deep_view(),
            ),
    {
        self.xdg.search_cache_file(file, present)
    }

    /// Searches for `file` among the **configuration** directories, as
    /// [`Xdg::search_config_file`] does.
    pub fn search_config_file(&self, file: &str, present: &Vec<String>) -> (r: Result<
        Option<String>,
        XdgError,
    >)
        ensures
            opt_path_result_view(r) == self.spec_xdg().spec_search_file(
                XdgDir::Config,
                file@,
                present.deep_view(),
            ),
    {
        self.xdg.search_config_file(file, present)
    }

    /// Searches for `file` among the **data** directories, as
    /// [`Xdg::search_data_file`] does.
    pub fn search_data_file(&self, file: &str, present: &Vec<String>) -> (r: Result<
        Option<String>,
        XdgError,
    >)
        ensures
            opt_path_result_view(r) == self.spec_xdg().spec_search_file(
                XdgDir::Data,
                file@,
                present.deep_view(),
            ),
    {
        self.xdg.search_data_file(file, present)
    }

    /// Searches for `file` among the **state** directories, as
    /// [`Xdg::search_state_file`] does.
    pub fn search_state_file(&self, file: &str, present: &Vec<String>) -> (r: Result<
        Option<String>,
        XdgError,
    >)
        ensures
            opt_path_result_view(r) == self.spec_xdg().spec_search_file(
                XdgDir::State,
                file@,
                present.deep_view(),
            ),
    {
        self.xdg.search_state_file(file, present)
    }

    /// The outcome of searching for `file` among the application
    /// subdirectories of kind `d`: the user-specific application
    /// subdirectory is probed first; only when the file is not there is
    /// the application's system-wide list (when `d` has one) resolved and
    /// probed in preference order.
    pub open spec fn spec_search_app_file(
        &self,
        d: XdgDir,
        file: Seq<char>,
        present: Seq<Seq<char>>,
    ) -> Result<Option<Seq<char>>, XdgErrorView> {
        match self.spec_app_dir(d) {
            Result::Err(e) => Result::Err(e),
            Result::Ok(dirp) => {
                let cand = joined(dirp, file);
                if present.contains(cand) {
                    Result::Ok(Option::Some(cand))
                } else {
                    match dir_sys(d) {
                        Option::None => Result::Ok(Option::None),
                        Option::Some(sd) => match self.spec_app_sys_dirs(sd) {
                            Result::Err(e) => Result::Err(e),
                            Result::Ok(list) => Result::Ok(
                                first_hit(with_file(list, file), present),
                            ),
                        },
                    }
                }
            },
        }
    }

    /// Searches for `file` among the application subdirectories of kind
    /// `dir`, given in `present` the paths that exist as regular files.
    fn search_app_file(&self, dir: XdgDir, file: &str, present: &Vec<String>) -> (r: Result<
        Option<String>,
        XdgError,
    >)
        ensures
            opt_path_result_view(r) == self.spec_search_app_file(dir, file@, present.deep_view()),
    {
        let dirp = match self.get_app_dir_path(dir) {
            Result::Ok(p) => p,
            Result::Err(e) => {
                return Result::Err(e);
            },
        };
        let cand = join(dirp.as_str(), file);
        if contains_str(present, cand.as_str()) {
            return Result::Ok(Option::Some(cand));
        }
        match dir.to_sys() {
            Option::None => Result::Ok(Option::None),
            Option::Some(sd) => {
                let list = match self.get_app_sys_dir_paths(sd) {
                    Result::Ok(l) => l,
                    Result::Err(e) => {
                        return Result::Err(e);
                    },
                };
                Result::Ok(find_first(&list, file, present))
            },
        }
    }

    /// Searches for `file` in the application's **cache** subdirectory.
    /// `present` names the paths that exist as regular files; `None` is
    /// the valid "not found" outcome, not an error.
    pub fn search_app_cache_file(&self, file: &str, present: &Vec<String>) -> (r: Result<
        Option<String>,
        XdgError,
    >)
        ensures
            opt_path_result_view(r) == self.spec_search_app_file(
                XdgDir::Cache,
                file@,
                present.deep_view(),
            ),
    {
        self.search_app_file(XdgDir::Cache, file, present)
    }

    /// Searches for `file` in the application's **configuration**
    /// subdirectory first, then in the application's system-wide
    /// configuration subdirectories in preference order. `present` names
    /// the paths that exist as regular files; `None` is the valid "not
    /// found" outcome, not an error.
    pub fn search_app_config_file(&self, file: &str, present: &Vec<String>) -> (r: Result<
        Option<String>,
        XdgError,
    >)
        ensures
            opt_path_result_view(r) == self.spec_search_app_file(
                XdgDir::Config,
                file@,
                present.deep_view(),
            ),
    {
        self.search_app_file(XdgDir::Config, file, present)
    }

    /// Searches for `file` in the application's **data** subdirectory
    /// first, then in the application's system-wide data subdirectories
    /// in preference order. `present` names the paths that exist as
    /// regular files; `None` is the valid "not found" outcome, not an
    /// error.
    pub fn search_app_data_file(&self, file: &str, present: &Vec<String>) -> (r: Result<
        Option<String>,
        XdgError,
    >)
        ensures
            opt_path_result_view(r) == self.spec_search_app_file(
                XdgDir::Data,
                file@,
                present.deep_view(),
            ),
    {
        self.search_app_file(XdgDir::Data, file, present)
    }

    /// Searches for `file` in the application's **state** subdirectory.
    /// `present` names the paths that exist as regular files; `None` is
    /// the valid "not found" outcome, not an error.
    pub fn search_app_state_file(&self, file: &str, present: &Vec<String>) -> (r: Result<
        Option<String>,
        XdgError,
    >)
        ensures
            opt_path_result_view(r) == self.spec_search_app_file(
                XdgDir::State,
                file@,
                present.deep_view(),
            ),
    {
        self.search_app_file(XdgDir::State, file, present)
    }
}

/// Law: the application overlay appends exactly the bound name — for
/// every kind, the application subdirectory outcome equals the base
/// directory outcome with the application name pushed as final segment,
/// and an error passes through unchanged.
pub proof fn lemma_app_dir_appends_name(a: XdgApp, d: XdgDir)
    ensures
        a.spec_app_dir(d) == appended(a.spec_user_dir(d), a.spec_name()),
{
}

/// Law: the system-wide application overlay appends exactly the bound
/// name to every entry — for every system-wide kind, the application
/// outcome equals the base list outcome with the name pushed onto each
/// entry, in order, and an error passes through unchanged.
pub proof fn lemma_app_sys_dirs_append_name(a: XdgApp, s: XdgSysDirs)
    ensures
        a.spec_app_sys_dirs(s) == all_appended(a.spec_sys_dirs(s), a.spec_name()),
{
}

} // verus!
