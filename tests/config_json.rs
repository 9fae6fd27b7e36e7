use std::cell::RefCell;
use std::rc::Rc;

use script_herder::config_json::ConfigJson;
use script_herder::error::ConfigError;
use script_herder::io::{ConfigData, ConfigIO};
use serde_json::Value;

/// A store whose content the test can still see after handing it over.
struct SharedStore {
    text: Rc<RefCell<String>>,
}

impl ConfigIO for SharedStore {
    fn read(&self) -> Result<String, ConfigError> {
        Ok(self.text.borrow().clone())
    }

    fn write(&mut self, data: &str) -> Result<(), ConfigError> {
        *self.text.borrow_mut() = data.to_string();
        Ok(())
    }
}

/// A store that can be neither read nor written.
struct BrokenStore;

impl ConfigIO for BrokenStore {
    fn read(&self) -> Result<String, ConfigError> {
        Err(ConfigError::Io("No such file or directory".to_string()))
    }

    fn write(&mut self, _data: &str) -> Result<(), ConfigError> {
        Err(ConfigError::Io("Permission denied".to_string()))
    }
}

#[test]
fn config_json_has_init_data() {
    let src = ConfigJson::from_data(r#"{ "key": "value" }"#.to_string()).unwrap();
    assert_eq!(src.is_loaded(), true);
    assert_eq!(src.get_value("key").unwrap(), "value");
}

#[test]
fn load_fails_if_io_read_fails() {
    let io = Box::new(BrokenStore);
    let mut src = ConfigJson::new(io, true);
    assert!(src.load().is_err());
}

#[test]
fn load_fails_if_json_parse_fails() {
    let io = Box::new(ConfigData::new("".to_string()));
    let mut src = ConfigJson::new(io, true);
    assert!(src.load().is_err());
}

#[test]
fn get_value_returns_none_if_data_is_none() {
    let src = ConfigJson::from_data(r#"{}"#.to_string()).unwrap();
    assert_eq!(src.get_value("key"), None);
}

#[test]
fn set_value_creates_data_if_none() {
    let mut src = ConfigJson::from_data(r#"{}"#.to_string()).unwrap();
    src.set_value("key", Value::String("value".to_string()));
    assert_eq!(src.get_value("key").unwrap(), "value");
}

#[test]
fn set_value_updates_data_if_exists() {
    let mut src = ConfigJson::from_data(r#"{ "key": "value" }"#.to_string()).unwrap();
    src.set_value("key", Value::String("new_value".to_string()));
    assert_eq!(src.get_value("key").unwrap(), "new_value");
}

#[test]
fn save_fails_if_cannot_write() {
    let mut src = ConfigJson::from_data(r#"{ "key": "value" }"#.to_string()).unwrap();
    src.set_can_write(false);
    assert!(src.save().is_err());
}

#[test]
fn save_does_nothing_if_data_is_none() {
    let io = Box::new(ConfigData::new("".to_string()));
    let mut src = ConfigJson::new(io, true);
    assert!(src.save().is_ok());
}

#[test]
fn save_writes_data_to_io() {
    let text = Rc::new(RefCell::new(String::new()));
    let io = Box::new(SharedStore { text: text.clone() });
    let mut src = ConfigJson::new(io, true);
    src.set_value("key", Value::String("value".to_string()));
    assert!(src.save().is_ok());
    assert_eq!(*text.borrow(), "{\n  \"key\": \"value\"\n}");
}

#[test]
fn get_return_none_if_null() {
    let src = ConfigJson::from_data(r#"{ "key": null }"#.to_string()).unwrap();
    assert_eq!(src.get_value("key"), None);
}

#[test]
fn get_return_none_if_invalid_type() {
    let src = ConfigJson::from_data(r#"{ "key": "value" }"#.to_string()).unwrap();
    let v: Option<i32> = src.get("key");
    assert_eq!(v, None);
}

#[test]
fn get_return_value() {
    let src = ConfigJson::from_data(r#"{ "key": 10 }"#.to_string()).unwrap();
    let v: i32 = src.get("key").unwrap();
    assert_eq!(v, 10);
}

#[test]
fn from_data_is_synced_and_read_only() {
    let src = ConfigJson::from_data("{}".to_string()).unwrap();
    assert!(src.is_synced());
    assert!(!src.can_write());
}

#[test]
fn from_data_rejects_invalid_json() {
    let r = ConfigJson::from_data("{ not json".to_string());
    assert!(matches!(r, Err(ConfigError::Parse(_))));
}

#[test]
fn from_data_rejects_a_root_that_is_no_object() {
    assert!(matches!(ConfigJson::from_data("[1, 2]".to_string()), Err(ConfigError::Parse(_))));
}

#[test]
fn null_reads_as_absent_for_typed_reads() {
    let with_null = ConfigJson::from_data(r#"{ "key": null }"#.to_string()).unwrap();
    let without = ConfigJson::from_data(r#"{}"#.to_string()).unwrap();
    assert_eq!(with_null.get::<String>("key"), without.get::<String>("key"));
    assert_eq!(with_null.get::<i32>("key"), None);
}

#[test]
fn set_marks_unsynced_and_typed_value_reads_back() {
    let mut src = ConfigJson::from_data("{}".to_string()).unwrap();
    src.set("n", 42);
    src.set("s", "text".to_string());
    assert!(!src.is_synced());
    assert_eq!(src.get::<i32>("n"), Some(42));
    assert_eq!(src.get::<String>("s"), Some("text".to_string()));
    assert_eq!(src.get::<String>("n"), None);
}

#[test]
fn save_on_read_only_document_is_write_forbidden() {
    let mut src = ConfigJson::from_data(r#"{ "a": 1 }"#.to_string()).unwrap();
    src.set("a", 2);
    assert_eq!(src.save(), Err(ConfigError::WriteForbidden));
    assert!(!src.is_synced());
}

#[test]
fn load_and_save_round_trip_through_store() {
    let text = Rc::new(RefCell::new(r#"{"b": 1, "a": 2}"#.to_string()));
    let mut src = ConfigJson::open(Box::new(SharedStore { text: text.clone() }), true).unwrap();
    assert!(src.is_synced());
    src.set("c", 3);
    assert!(src.save().is_ok());
    assert!(src.is_synced());
    assert_eq!(*text.borrow(), "{\n  \"b\": 1,\n  \"a\": 2,\n  \"c\": 3\n}");
}

#[test]
fn failed_save_keeps_document_unsynced() {
    let mut src = ConfigJson::new(Box::new(BrokenStore), true);
    src.set("a", 1);
    assert!(matches!(src.save(), Err(ConfigError::Io(_))));
    assert!(!src.is_synced());
}
