use std::cell::RefCell;
use std::rc::Rc;

use script_herder::config::Config;
use script_herder::config_env::ConfigEnv;
use script_herder::config_json::ConfigJson;
use script_herder::error::ConfigError;
use script_herder::io::{ConfigData, ConfigIO};
use script_herder::provider::ConfigProvider;
use serde_json::Value;

/// A store kept in a shared cell, which can be made to refuse writes.
struct CellStore {
    text: Rc<RefCell<String>>,
    writable: Rc<RefCell<bool>>,
}

impl ConfigIO for CellStore {
    fn read(&self) -> Result<String, ConfigError> {
        Ok(self.text.borrow().clone())
    }

    fn write(&mut self, data: &str) -> Result<(), ConfigError> {
        if *self.writable.borrow() {
            *self.text.borrow_mut() = data.to_string();
            Ok(())
        } else {
            Err(ConfigError::Io("Permission denied".to_string()))
        }
    }
}

fn cell_document(content: &str) -> (ConfigJson, Rc<RefCell<String>>, Rc<RefCell<bool>>) {
    let text = Rc::new(RefCell::new(content.to_string()));
    let writable = Rc::new(RefCell::new(true));
    let store = CellStore { text: text.clone(), writable: writable.clone() };
    (ConfigJson::open(Box::new(store), true).unwrap(), text, writable)
}

#[test]
fn get_return_first_match() {
    let config1 = ConfigJson::from_data(r#"{ "key": "value_1" }"#.to_string()).unwrap();
    let config2 = ConfigJson::from_data(r#"{ "key": "value_2" }"#.to_string()).unwrap();
    let config3 = ConfigJson::from_data(r#"{ "key": "value_3" }"#.to_string()).unwrap();

    let mut provider = ConfigProvider::new();
    provider.register_default(Config::Json(config1));
    provider.register_top(Config::Json(config3));
    provider.register_default(Config::Json(config2));

    let value = provider.get::<String>("key");
    assert_eq!(value, Some("value_3".to_string()));
}

#[test]
fn get_skip_invalid_match() {
    let config1 = ConfigJson::from_data(r#"{ "key": "value_1" }"#.to_string()).unwrap();

    let mut provider = ConfigProvider::new();
    provider.register_default(Config::Absent);
    provider.register_default(Config::Json(config1));
    provider.register_default(Config::Absent);
    provider.register_top(Config::Absent);

    let value = provider.get::<String>("key");
    assert_eq!(value, Some("value_1".to_string()));
}

#[test]
fn get_return_none_if_no_match() {
    let mut provider = ConfigProvider::new();
    provider.register_default(Config::Absent);
    provider.register_top(Config::Absent);

    let value = provider.get::<String>("key");
    assert_eq!(value, None);
}

#[test]
fn set_save_to_first_match() {
    let config1 = ConfigJson::from_data(r#"{ "key": "value_1" }"#.to_string()).unwrap();
    let config2 = ConfigJson::from_data(r#"{ "key": "value_2" }"#.to_string()).unwrap();
    let config3 = ConfigJson::from_data(r#"{ "key": "value_3" }"#.to_string()).unwrap();

    let mut provider = ConfigProvider::new();
    provider.register_default(Config::Json(config1));
    provider.register_top(Config::Json(config3));
    provider.register_default(Config::Json(config2));

    provider.set("key", "value_4".to_string());
    let value = provider.get::<String>("key");
    assert_eq!(value, Some("value_4".to_string()));
}

#[test]
fn write_then_read_returns_written_value() {
    let (doc, _, _) = cell_document("{}");
    let mut provider = ConfigProvider::new();
    provider.register_default(Config::Absent);
    provider.register_default(Config::Json(doc));
    provider.set_value("k", Value::from(7));
    assert_eq!(provider.get_value("k"), Some(Value::from(7)));
    assert_eq!(provider.get::<i32>("k"), Some(7));
}

#[test]
fn write_with_no_document_is_dropped() {
    let mut provider = ConfigProvider::new();
    provider.register_default(Config::Absent);
    provider.register_default(Config::Env(ConfigEnv::new(true, None)));
    provider.set("k", 1);
    assert_eq!(provider.get::<i32>("k"), None);
    assert!(provider.sync().is_empty());
}

#[test]
fn higher_source_wins_over_lower_one() {
    let high = ConfigJson::from_data(r#"{ "k": "high" }"#.to_string()).unwrap();
    let low = ConfigJson::from_data(r#"{ "k": "low", "only": "low" }"#.to_string()).unwrap();
    let mut provider = ConfigProvider::new();
    provider.register_default(Config::Json(high));
    provider.register_default(Config::Json(low));
    assert_eq!(provider.get_value("k"), Some(Value::from("high")));
    assert_eq!(provider.get_value("only"), Some(Value::from("low")));
}

#[test]
fn top_source_outranks_all_defaults() {
    let a = ConfigJson::from_data(r#"{ "k": "a" }"#.to_string()).unwrap();
    let b = ConfigJson::from_data(r#"{ "k": "b" }"#.to_string()).unwrap();
    let top = ConfigJson::from_data(r#"{ "k": "top" }"#.to_string()).unwrap();
    let mut provider = ConfigProvider::new();
    provider.register_default(Config::Json(a));
    provider.register_default(Config::Json(b));
    provider.register_top(Config::Json(top));
    assert_eq!(provider.get::<String>("k"), Some("top".to_string()));
}

#[test]
fn typed_read_skips_value_of_other_type() {
    let high = ConfigJson::from_data(r#"{ "k": "text" }"#.to_string()).unwrap();
    let low = ConfigJson::from_data(r#"{ "k": 5 }"#.to_string()).unwrap();
    let mut provider = ConfigProvider::new();
    provider.register_default(Config::Json(high));
    provider.register_default(Config::Json(low));
    assert_eq!(provider.get::<i32>("k"), Some(5));
    assert_eq!(provider.get_value("k"), Some(Value::from("text")));
}

#[test]
fn null_value_falls_through_to_lower_source() {
    let high = ConfigJson::from_data(r#"{ "k": null }"#.to_string()).unwrap();
    let low = ConfigJson::from_data(r#"{ "k": "low" }"#.to_string()).unwrap();
    let mut provider = ConfigProvider::new();
    provider.register_default(Config::Json(high));
    provider.register_default(Config::Json(low));
    assert_eq!(provider.get::<String>("k"), Some("low".to_string()));
}

#[test]
fn sync_saves_only_modified_writable_document() {
    let (unmodified, unmodified_text, _) = cell_document(r#"{"a": 1}"#);
    let (mut modified, modified_text, _) = cell_document(r#"{"b": 1}"#);
    modified.set("b", 2);
    let mut read_only = ConfigJson::from_data(r#"{"c": 1}"#.to_string()).unwrap();
    read_only.set("c", 2);

    let mut provider = ConfigProvider::new();
    provider.register_default(Config::Json(unmodified));
    provider.register_default(Config::Json(modified));
    provider.register_default(Config::Json(read_only));

    let outcomes = provider.sync();
    assert_eq!(outcomes.len(), 1);
    assert!(outcomes[0].is_ok());
    assert_eq!(*unmodified_text.borrow(), r#"{"a": 1}"#);
    assert_eq!(*modified_text.borrow(), "{\n  \"b\": 2\n}");
}

#[test]
fn sync_reports_failure_of_unwritable_store() {
    let (mut doc, text, writable) = cell_document(r#"{"k": "v"}"#);
    doc.set("k", "w".to_string());
    *writable.borrow_mut() = false;
    let mut provider = ConfigProvider::new();
    provider.register_default(Config::Json(doc));

    let outcomes = provider.sync();
    assert_eq!(outcomes.len(), 1);
    assert!(matches!(outcomes[0], Err(ConfigError::Io(_))));
    assert_eq!(*text.borrow(), r#"{"k": "v"}"#);
}

#[test]
fn sync_goes_on_after_a_failure() {
    let (mut broken, _, broken_writable) = cell_document("{}");
    let (mut fine, fine_text, _) = cell_document("{}");
    broken.set("x", 1);
    fine.set("y", 2);
    *broken_writable.borrow_mut() = false;
    let mut provider = ConfigProvider::new();
    provider.register_default(Config::Json(broken));
    provider.register_default(Config::Json(fine));

    let outcomes = provider.sync();
    assert_eq!(outcomes.len(), 2);
    assert!(outcomes[0].is_err());
    assert!(outcomes[1].is_ok());
    assert_eq!(*fine_text.borrow(), "{\n  \"y\": 2\n}");
}

#[test]
fn second_sync_has_nothing_to_save() {
    let (doc, _, _) = cell_document("{}");
    let mut provider = ConfigProvider::new();
    provider.register_default(Config::Json(doc));
    provider.set("k", 1);
    let first = provider.sync();
    assert_eq!(first.len(), 1);
    assert!(first[0].is_ok());
    let second = provider.sync();
    assert!(second.is_empty());
}

#[test]
fn iter_walks_sources_in_precedence_order() {
    let mut provider = ConfigProvider::new();
    provider.register_default(Config::Absent);
    provider.register_top(Config::Env(ConfigEnv::new(true, None)));
    let mut iter = provider.iter();
    assert!(matches!(iter.next(), Some(Config::Env(_))));
    assert!(matches!(iter.next(), Some(Config::Absent)));
    assert!(iter.next().is_none());
}

#[test]
fn sync_of_empty_writable_document_happens_once() {
    let (doc, _, _) = cell_document("{}");
    let mut empty = ConfigJson::new(Box::new(ConfigData::new(String::new())), true);
    assert!(!empty.is_synced());
    empty.set_can_write(true);
    let mut provider = ConfigProvider::new();
    provider.register_default(Config::Json(empty));
    provider.register_default(Config::Json(doc));
    let first = provider.sync();
    assert_eq!(first.len(), 1);
    assert!(first[0].is_ok());
    assert!(provider.sync().is_empty());
}
