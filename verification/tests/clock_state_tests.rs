use ai_task_manager::text::{signed_decimal_text, text_no_later};
use ai_task_manager::clock::{log_id_for, millis_from_elapsed, new_log_id, now_millis, now_text};
use ai_task_manager::state::{lock_outcome, DatabaseState};

#[test]
fn millis_are_cut_to_i64() {
    assert_eq!(millis_from_elapsed(Some(1_700_000_000_123)), 1_700_000_000_123);
    assert_eq!(millis_from_elapsed(None), 0);
    assert_eq!(millis_from_elapsed(Some(u128::from(u64::MAX))), -1);
    assert_eq!(millis_from_elapsed(Some(1u128 << 63)), i64::MIN);
}

#[test]
fn clock_reads_after_the_epoch() {
    let ms = now_millis();
    assert!(ms > 1_600_000_000_000);
    let text = now_text();
    assert!(!text.is_empty());
    assert!(text.chars().all(|c| c.is_ascii_digit()));
    assert!(text.parse::<i64>().unwrap() >= ms);
}

#[test]
fn log_id_names_task_and_reading() {
    assert_eq!(log_id_for("t1", 1234567), "log_t1_1234567");
    assert_eq!(log_id_for("a_b", 0), "log_a_b_0");
    assert_ne!(log_id_for("x_1", 23), log_id_for("x", 123));
    let id = new_log_id("task-7");
    assert!(id.starts_with("log_task-7_"));
    let digits = &id["log_task-7_".len()..];
    assert!(!digits.is_empty());
    assert!(digits.chars().all(|c| c.is_ascii_digit()));
}

#[test]
fn database_state_reports_its_path() {
    let state = DatabaseState::new("/tmp/ai-task-manager.sqlite".to_string());
    assert_eq!(state.path(), "/tmp/ai-task-manager.sqlite");
    let health = state.health();
    assert!(health.ready);
    assert_eq!(health.db_path, "/tmp/ai-task-manager.sqlite");
}

#[test]
fn poisoned_lock_is_reported() {
    assert_eq!(lock_outcome(Some(5)), Ok(5));
    assert_eq!(lock_outcome::<u8>(None), Err("database lock is poisoned".to_string()));
    let lock = std::sync::Mutex::new(());
    assert!(lock_outcome(lock.lock().ok()).is_ok());
}

#[test]
fn equally_long_timestamps_sort_as_time() {
    let earlier = signed_decimal_text(1_700_000_000_123);
    let later = signed_decimal_text(1_700_000_000_999);
    assert!(text_no_later(&earlier, &later));
    assert!(!text_no_later(&later, &earlier));
}
