use std::cell::RefCell;
use std::rc::Rc;

use script_herder::app_config::{folder_step, AppConfig, FolderStep, KnownConfigs};
use script_herder::config::Config;
use script_herder::config_json::ConfigJson;
use script_herder::error::ConfigError;
use script_herder::io::ConfigIO;
use script_herder::logger::{level_for, level_from_name, load_level, LogLevel};
use script_herder::paths::resolve_path;

/// A machine file held in a shared cell.
struct MachineFile {
    text: Rc<RefCell<String>>,
}

impl ConfigIO for MachineFile {
    fn read(&self) -> Result<String, ConfigError> {
        Ok(self.text.borrow().clone())
    }

    fn write(&mut self, data: &str) -> Result<(), ConfigError> {
        *self.text.borrow_mut() = data.to_string();
        Ok(())
    }
}

fn machine_document(content: &str) -> (ConfigJson, Rc<RefCell<String>>) {
    let text = Rc::new(RefCell::new(content.to_string()));
    let doc = ConfigJson::open(Box::new(MachineFile { text: text.clone() }), true).unwrap();
    (doc, text)
}

const ROOT: &str = "/home/u/.config-sh.json";

#[test]
fn bootstrap_writes_to_machine_file_when_alone() {
    let (machine, text) = machine_document("{}");
    assert_eq!(AppConfig::project_dir(&machine, ROOT), None);
    let mut config =
        AppConfig::assemble(ROOT.to_string(), machine, Config::Absent, Config::Absent);
    config.set(KnownConfigs::LogLevel, "debug".to_string());
    assert_eq!(config.get::<String>(KnownConfigs::LogLevel), Some("debug".to_string()));
    let outcomes = config.provider.sync();
    assert_eq!(outcomes.len(), 1);
    assert!(outcomes[0].is_ok());
    assert_eq!(*text.borrow(), "{\n  \"core.log.level\": \"debug\"\n}");
}

#[test]
fn project_dir_is_resolved_from_machine_file_directory() {
    let (machine, _) = machine_document(r#"{"core.repo.path": "../myrepo"}"#);
    assert_eq!(AppConfig::project_dir(&machine, ROOT), Some("/home/myrepo".to_string()));
    let config = AppConfig::assemble(ROOT.to_string(), machine, Config::Absent, Config::Absent);
    assert_eq!(config.get_repo_path(), Some("/home/myrepo".to_string()));
}

#[test]
fn environment_on_top_outranks_machine_file() {
    let (machine, _) = machine_document(r#"{"core.log.level": "error"}"#);
    let mut config =
        AppConfig::assemble(ROOT.to_string(), machine, Config::Absent, Config::Absent);
    config.use_env(vec![("SH_core.log.level".to_string(), "trace".to_string())]);
    assert_eq!(config.get::<String>(KnownConfigs::LogLevel), Some("trace".to_string()));
    assert_eq!(load_level(&config), LogLevel::Trace);
}

#[test]
fn precedence_is_machine_then_cwd_then_project() {
    let (machine, _) = machine_document(r#"{"a": "machine"}"#);
    let cwd = ConfigJson::from_data(r#"{"a": "cwd", "b": "cwd"}"#.to_string()).unwrap();
    let project =
        ConfigJson::from_data(r#"{"a": "project", "b": "project", "c": "project"}"#.to_string())
            .unwrap();
    let config = AppConfig::assemble(
        ROOT.to_string(),
        machine,
        Config::Json(cwd),
        Config::Json(project),
    );
    assert_eq!(config.provider.get::<String>("a"), Some("machine".to_string()));
    assert_eq!(config.provider.get::<String>("b"), Some("cwd".to_string()));
    assert_eq!(config.provider.get::<String>("c"), Some("project".to_string()));
}

#[test]
fn absolute_project_path_is_kept() {
    assert_eq!(
        AppConfig::internal_get_repo_path(Some("/srv/repo".to_string()), ROOT),
        Some("/srv/repo".to_string())
    );
    assert_eq!(AppConfig::internal_get_repo_path(None, ROOT), None);
}

#[test]
fn relative_project_paths_are_resolved_lexically() {
    assert_eq!(resolve_path("repo", ROOT), "/home/u/repo");
    assert_eq!(resolve_path("./a/../b/", ROOT), "/home/u/b");
    assert_eq!(resolve_path("../../../x", ROOT), "/x");
    assert_eq!(resolve_path("..", "/cfg.json"), "/");
    assert_eq!(resolve_path("repo", "cfg.json"), "repo");
    assert_eq!(resolve_path("../x", "a.json"), "../x");
    assert_eq!(resolve_path("../../x", "up/a.json"), "../x");
    assert_eq!(resolve_path("y", "../a.json"), "../y");
}

#[test]
fn known_keys_have_dotted_names() {
    assert_eq!(KnownConfigs::RepoPath.to_str(), "core.repo.path");
    assert_eq!(KnownConfigs::LogLevel.to_str(), "core.log.level");
    assert_eq!(KnownConfigs::from_str("core.git.email"), Some(KnownConfigs::GitEmail));
    assert_eq!(KnownConfigs::from_str("core.git"), None);
    assert_eq!(
        KnownConfigs::list(),
        vec!["core.repo.path", "core.git.user", "core.git.email", "core.log.level"]
    );
}

#[test]
fn level_names_are_read_in_any_case() {
    assert_eq!(level_for("DEBUG"), LogLevel::Debug);
    assert_eq!(level_for("Warn"), LogLevel::Warn);
    assert_eq!(level_for("loud"), LogLevel::Error);
    assert_eq!(level_from_name("off"), LogLevel::Off);
    assert_eq!(level_from_name("OFF"), LogLevel::Error);
}

#[test]
fn no_configured_level_means_off() {
    let (machine, _) = machine_document("{}");
    let config = AppConfig::assemble(ROOT.to_string(), machine, Config::Absent, Config::Absent);
    assert_eq!(load_level(&config), LogLevel::Off);
    assert_eq!(config.get_value(KnownConfigs::GitUser), None);
}

#[test]
fn scope_file_is_created_only_when_asked() {
    assert_eq!(folder_step(true, false), FolderStep::Load);
    assert_eq!(folder_step(true, true), FolderStep::Load);
    assert_eq!(folder_step(false, true), FolderStep::Create);
    assert_eq!(folder_step(false, false), FolderStep::Skip);
}
