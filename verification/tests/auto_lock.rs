use offline_wallet::security::auto_lock::{AutoLockConfig, AutoLockManager};
use std::time::{Duration, SystemTime};

fn config(enabled: bool, timeout_seconds: u64) -> AutoLockConfig {
    AutoLockConfig { enabled, timeout_seconds, lock_on_background: true }
}

#[test]
fn fresh_activity_does_not_lock() {
    let mut manager = AutoLockManager::new(config(true, 5));
    assert!(!manager.should_lock());
    assert_eq!(manager.get_remaining_seconds(), None);
    manager.update_activity();
    assert!(!manager.should_lock());
    let left = manager.get_remaining_seconds().unwrap();
    assert!(left == 5 || left == 4);
}

#[test]
fn locking_is_due_once_the_timeout_has_passed() {
    let mut manager = AutoLockManager::new(config(true, 5));
    assert!(!manager.should_lock_after(Some(6)));
    manager.update_activity();
    assert!(!manager.should_lock_after(Some(4)));
    assert!(manager.should_lock_after(Some(5)));
    assert!(manager.should_lock_after(Some(6)));
    assert!(!manager.should_lock_after(None));
    assert_eq!(manager.remaining_after(Some(0)), Some(5));
    assert_eq!(manager.remaining_after(Some(2)), Some(3));
    assert_eq!(manager.remaining_after(Some(5)), None);
    assert_eq!(manager.remaining_after(None), None);
}

#[test]
fn disabled_or_without_timeout_never_locks() {
    let mut manager = AutoLockManager::new(config(false, 5));
    manager.update_activity();
    assert!(!manager.should_lock_after(Some(100)));
    assert_eq!(manager.remaining_after(Some(1)), None);
    manager.update_config(config(true, 0));
    assert!(!manager.should_lock_after(Some(100)));
    assert_eq!(manager.remaining_after(Some(1)), None);
    assert!(!manager.should_lock());
}

#[test]
fn activity_ten_seconds_ago_is_past_a_timeout_of_five() {
    let mut manager = AutoLockManager::new(config(true, 5));
    manager.update_activity_at(SystemTime::now() - Duration::from_secs(10));
    assert!(manager.should_lock());
    assert_eq!(manager.get_remaining_seconds(), None);
    manager.update_config(config(true, 3600));
    assert!(!manager.should_lock());
    let left = manager.get_remaining_seconds().unwrap();
    assert!(left == 3590 || left == 3589);
    manager.lock();
    let left = manager.get_remaining_seconds().unwrap();
    assert!(left == 3590 || left == 3589);
    manager.unlock();
    let left = manager.get_remaining_seconds().unwrap();
    assert!(left == 3600 || left == 3599);
    manager.unlock_at(SystemTime::now() - Duration::from_secs(4000));
    assert!(!manager.is_locked());
    assert!(manager.should_lock());
    manager.update_activity();
    assert!(!manager.should_lock());
}

#[test]
fn activity_after_now_never_locks() {
    let mut manager = AutoLockManager::new(config(true, 5));
    manager.update_activity_at(SystemTime::now() + Duration::from_secs(1000));
    assert!(!manager.should_lock());
    assert_eq!(manager.get_remaining_seconds(), None);
}

#[test]
fn lock_and_unlock() {
    let mut manager = AutoLockManager::new(AutoLockConfig::default());
    assert!(!manager.is_locked());
    manager.lock();
    assert!(manager.is_locked());
    manager.unlock();
    assert!(!manager.is_locked());
    assert_eq!(manager.remaining_after(Some(299)), Some(1));
    let c = manager.get_config();
    assert!(c.enabled);
    assert_eq!(c.timeout_seconds, 300);
    assert!(c.lock_on_background);
}
