//! The process-wide source stack: the machine file, the working-directory
//! file, the project file it points to, and optionally the environment.
use vstd::prelude::*;
use crate::config::Config;
use crate::config_env::ConfigEnv;
use crate::config_json::ConfigJson;
use crate::json::{json_is_null, json_string_of};
use crate::paths::{resolve_path, resolved_path};
use crate::provider::{first_json, first_value, reads_first, routed_write, ConfigProvider};
use crate::value::ConfigValue;

verus! {

/// The recognized keys.
#[derive(Debug, Clone, Copy, PartialEq, Eq, Hash, Structural)]
pub enum KnownConfigs {
    RepoPath,
    GitUser,
    GitEmail,
    LogLevel,
}

/// The scopes a value can come from.
#[derive(Debug, Clone, Copy, PartialEq, Eq, Structural)]
pub enum ConfigTarget {
    Machine,
    Repo,
    Local,
    Env,
}

impl KnownConfigs {
    /// The dotted name of the key.
    pub open spec fn name(self) -> Seq<char> {
        match self {
            KnownConfigs::RepoPath => "core.repo.path"@,
            KnownConfigs::GitUser => "core.git.user"@,
            KnownConfigs::GitEmail => "core.git.email"@,
            KnownConfigs::LogLevel => "core.log.level"@,
        }
    }

    pub fn to_str(&self) -> (r: &'static str)
        ensures
            r@ == self.name(),
    {
        match self {
            KnownConfigs::RepoPath => "core.repo.path",
            KnownConfigs::GitUser => "core.git.user",
            KnownConfigs::GitEmail => "core.git.email",
            KnownConfigs::LogLevel => "core.log.level",
        }
    }

    /// The key whose dotted name is `value`.
    pub fn from_str(value: &str) -> (r: Option<KnownConfigs>)
        ensures
            match r {
                Some(k) => k.name() == value@,
                None => forall|k: KnownConfigs| k.name() != value@,
            },
    {
        let v = value.to_string();
        if v == "core.repo.path".to_string() {
            Some(KnownConfigs::RepoPath)
        } else if v == "core.git.user".to_string() {
            Some(KnownConfigs::GitUser)
        } else if v == "core.git.email".to_string() {
            Some(KnownConfigs::GitEmail)
        } else if v == "core.log.level".to_string() {
            Some(KnownConfigs::LogLevel)
        } else {
            proof {
                assert forall|k: KnownConfigs| k.name() != value@ by {
                    match k {
                        KnownConfigs::RepoPath => {},
                        KnownConfigs::GitUser => {},
                        KnownConfigs::GitEmail => {},
                        KnownConfigs::LogLevel => {},
                    }
                }
            }
            None
        }
    }

    /// The dotted names of all recognized keys.
    pub fn list() -> (r: Vec<&'static str>)
        ensures
            r@.len() == 4,
            r@[0]@ == KnownConfigs::RepoPath.name(),
            r@[1]@ == KnownConfigs::GitUser.name(),
            r@[2]@ == KnownConfigs::GitEmail.name(),
            r@[3]@ == KnownConfigs::LogLevel.name(),
    {
        vec!["core.repo.path", "core.git.user", "core.git.email", "core.log.level"]
    }
}

/// What the bootstrap does about the config file of a scope folder.
#[derive(Debug, Clone, Copy, PartialEq, Eq, Structural)]
pub enum FolderStep {
    /// The scope is absent: nothing is created.
    Skip,
    /// The existing file is loaded.
    Load,
    /// The folder and a file holding `{}` are created, then loaded.
    Create,
}

/// The step for a scope folder's config file: an existing file is loaded, and
/// a missing one is created only for a scope that is always present (the
/// project scope); otherwise the scope is absent (the working directory).
pub fn folder_step(file_exists: bool, create: bool) -> (r: FolderStep)
    ensures
        r == if file_exists {
            FolderStep::Load
        } else if create {
            FolderStep::Create
        } else {
            FolderStep::Skip
        },
{
    if file_exists {
        FolderStep::Load
    } else if create {
        FolderStep::Create
    } else {
        FolderStep::Skip
    }
}

/// The text stored under the project-path key of `machine`, if it is a string.
pub open spec fn repo_text(machine: ConfigJson) -> Option<Seq<char>> {
    match machine.value(KnownConfigs::RepoPath.name()) {
        Some(v) => json_string_of(v),
        None => None,
    }
}

/// The resolver of a running process, with the path of the machine file that
/// relative project paths are taken from.
pub struct AppConfig {
    pub provider: ConfigProvider,
    pub root: String,
}

impl AppConfig {
    pub open spec fn wf(&self) -> bool {
        self.provider.wf()
    }

    /// The path of the machine file.
    pub open spec fn root_path(&self) -> Seq<char> {
        self.root@
    }

    /// An empty stack anchored at the machine file `root`.
    pub fn new(root: String) -> (r: AppConfig)
        ensures
            r.wf(),
            r.provider.sources().len() == 0,
            r.root_path() == root@,
    {
        AppConfig { provider: ConfigProvider::new(), root }
    }

    /// Registers, above every other source, the environment variables `vars`
    /// read under the prefix `SH`: key `k` is read from variable `SH_k`.
    pub fn use_env(&mut self, vars: Vec<(String, String)>)
        requires
            old(self).wf(),
            old(self).provider.sources().len() < i64::MAX,
        ensures
            final(self).wf(),
            final(self).root_path() == old(self).root_path(),
            final(self).provider.sources().len() == old(self).provider.sources().len() + 1,
            final(self).provider.sources().drop_first() == old(self).provider.sources(),
            final(self).provider.sources()[0] matches Config::Env(e) && e.enabled()
                && e.prefix_view() == Some("SH"@) && e.variables() == vars@,
    {
        let env = ConfigEnv::from_vars(true, Some("SH".to_string()), vars);
        self.provider.register_top(Config::Env(env));
        proof {
            assert(self.provider.sources().drop_first() =~= old(self).provider.sources());
        }
    }

    /// The stack of a process: the machine document, then the
    /// working-directory source, then the project source, in that precedence.
    pub fn assemble(root: String, machine: ConfigJson, cwd: Config, project: Config) -> (r:
        AppConfig)
        ensures
            r.wf(),
            r.root_path() == root@,
            r.provider.sources() == seq![Config::Json(machine), cwd, project],
    {
        let mut config = AppConfig::new(root);
        let ghost m = Config::Json(machine);
        config.provider.register_default(Config::Json(machine));
        config.provider.register_default(cwd);
        config.provider.register_default(project);
        proof {
            assert(config.provider.sources() =~= seq![m, cwd, project]);
        }
        config
    }

    /// The project directory that the machine document points to, relative
    /// paths being taken from the directory of the machine file `root`.
    pub fn project_dir(machine: &ConfigJson, root: &str) -> (r: Option<String>)
        ensures
            match repo_text(*machine) {
                Some(s) => r matches Some(p) && p@ == resolved_path(s, root@),
                None => r is None,
            },
    {
        let repo_var = machine.get::<String>(KnownConfigs::RepoPath.to_str());
        AppConfig::internal_get_repo_path(repo_var, root)
    }

    /// Where the stored project path leads, relative paths being taken from
    /// the directory of the machine file `root_file`.
    pub fn internal_get_repo_path(path: Option<String>, root_file: &str) -> (r: Option<String>)
        ensures
            match path {
                Some(p) => r matches Some(q) && q@ == resolved_path(p@, root_file@),
                None => r is None,
            },
    {
        match path {
            Some(p) => Some(resolve_path(p.as_str(), root_file)),
            None => None,
        }
    }

    /// The value of the recognized key `key` read as a `T`.
    pub fn get<T: ConfigValue>(&self, key: KnownConfigs) -> (r: Option<T>)
        ensures
            reads_first(self.provider.sources(), key.name(), r),
    {
        self.provider.get(key.to_str())
    }

    /// The raw value of the recognized key `key`.
    pub fn get_value(&self, key: KnownConfigs) -> (r: Option<serde_json::Value>)
        ensures
            r == first_value(self.provider.sources(), key.name()),
    {
        self.provider.get_value(key.to_str())
    }

    /// Writes `value` under the recognized key `key`.
    pub fn set<T: ConfigValue>(&mut self, key: KnownConfigs, value: T)
        requires
            old(self).wf(),
        ensures
            final(self).wf(),
            final(self).root_path() == old(self).root_path(),
            routed_write(
                old(self).provider.sources(),
                final(self).provider.sources(),
                key.name(),
                T::json_of(value),
            ),
            first_json(old(self).provider.sources()) is Some ==> T::reads_json(
                T::json_of(value),
                Some(value),
            ) && !json_is_null(T::json_of(value)),
    {
        self.provider.set(key.to_str(), value)
    }

    /// Writes the raw `value` under the recognized key `key`.
    pub fn set_value(&mut self, key: KnownConfigs, value: serde_json::Value)
        requires
            old(self).wf(),
        ensures
            final(self).wf(),
            final(self).root_path() == old(self).root_path(),
            routed_write(
                old(self).provider.sources(),
                final(self).provider.sources(),
                key.name(),
                value,
            ),
    {
        self.provider.set_value(key.to_str(), value)
    }

    /// The project directory that the configuration points to.
    pub fn get_repo_path(&self) -> (r: Option<String>)
        ensures
            exists|s: Option<String>|
                {
                    &&& reads_first(self.provider.sources(), KnownConfigs::RepoPath.name(), s)
                    &&& match s {
                        Some(t) => r matches Some(q) && q@ == resolved_path(t@, self.root_path()),
                        None => r is None,
                    }
                },
    {
        let path = self.get::<String>(KnownConfigs::RepoPath);
        AppConfig::internal_get_repo_path(path, self.root.as_str())
    }
}

} // verus!
