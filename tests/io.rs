use script_herder::io::{ConfigData, ConfigIO};

#[test]
fn config_data_has_init_data() {
    let data = ConfigData::new("test".to_string());
    assert_eq!(data.data, "test");
}

#[test]
fn config_data_can_read() {
    let data = ConfigData::new("test".to_string());
    let result = data.read();
    assert!(result.is_ok());
    assert_eq!(result.unwrap(), "test");
}

#[test]
fn config_data_can_write() {
    let mut data = ConfigData::new("test".to_string());
    let result = data.write("test2");
    assert!(result.is_ok());
    assert_eq!(data.data, "test2");
}
