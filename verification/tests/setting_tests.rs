use ai_task_manager::settings::{check_setting, new_setting_record, order_settings_by_recency, SettingRecord, UpsertSettingInput};

fn input(key: &str, value_type: Option<&str>) -> UpsertSettingInput {
    UpsertSettingInput {
        setting_key: key.to_string(),
        setting_value: "{\"theme\":\"dark\"}".to_string(),
        value_type: value_type.map(|s| s.to_string()),
    }
}

fn setting(key: &str, updated_at: &str) -> SettingRecord {
    let mut row = new_setting_record(input(key, None), "0".to_string()).unwrap();
    row.updated_at = updated_at.to_string();
    row
}

#[test]
fn setting_value_type_defaults_to_json() {
    let row = new_setting_record(input("ui", None), "77".to_string()).unwrap();
    assert_eq!(row.setting_key, "ui");
    assert_eq!(row.setting_value, "{\"theme\":\"dark\"}");
    assert_eq!(row.value_type, "json");
    assert_eq!(row.created_at, "77");
    assert_eq!(row.updated_at, "77");
    let row = new_setting_record(input("ui", Some("text")), "78".to_string()).unwrap();
    assert_eq!(row.value_type, "text");
}

#[test]
fn blank_setting_key_is_refused() {
    assert_eq!(new_setting_record(input(" ", None), "1".to_string()).unwrap_err(), "settingKey is required");
    assert_eq!(check_setting(&input("", None)).unwrap_err(), "settingKey is required");
    assert!(check_setting(&input("k", None)).is_ok());
}

#[test]
fn settings_are_listed_most_recent_first() {
    let ordered = order_settings_by_recency(vec![setting("a", "1"), setting("b", "3"), setting("c", "2")]);
    let keys: Vec<&str> = ordered.iter().map(|s| s.setting_key.as_str()).collect();
    assert_eq!(keys, vec!["b", "c", "a"]);
}
