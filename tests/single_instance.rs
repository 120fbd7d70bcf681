use desktop_shell::single_instance::{
    attempt_outcome, hyphenate_spaces, lock_file_name, lock_name_from_normalized, LockError,
    LockObservation, LockStore, LockStrategy, SingleInstance,
};

fn observed(existed: bool, opened: Result<(), String>, lock_rc: i32) -> LockObservation {
    LockObservation { existed, opened, lock_rc }
}

#[test]
fn lock_name_is_lowercase_and_hyphenated() {
    assert_eq!(lock_file_name("Tauri Vue Template"), "tauri-vue-template.lock");
    assert_eq!(lock_file_name("My  App"), "my--app.lock");
    assert_eq!(lock_file_name("plain"), "plain.lock");
    assert_eq!(lock_file_name(""), ".lock");
}

#[test]
fn hyphenation_replaces_only_spaces() {
    assert_eq!(hyphenate_spaces(" a b "), "-a-b-");
    assert_eq!(hyphenate_spaces("A_B"), "A_B");
    assert_eq!(hyphenate_spaces(""), "");
    assert_eq!(hyphenate_spaces("像素 朋克"), "像素-朋克");
}

#[test]
fn normalized_name_gets_extension() {
    assert_eq!(lock_name_from_normalized("pixelpunk"), "pixelpunk.lock");
}

#[test]
fn second_acquisition_is_refused() {
    let mut store = LockStore::new();
    let first = store.acquire("My App");
    let second = store.acquire("My App");
    assert!(first.is_ok());
    assert_eq!(second.err(), Some(LockError::InstanceAlreadyRunning));
    assert_eq!(first.unwrap().lock_name(), "my-app.lock");
}

#[test]
fn names_that_normalize_alike_share_a_lock() {
    let mut store = LockStore::new();
    assert!(store.acquire("My App").is_ok());
    assert_eq!(store.acquire("my app").err(), Some(LockError::InstanceAlreadyRunning));
    assert!(store.acquire("Other App").is_ok());
}

#[test]
fn release_twice_then_reacquire() {
    let mut store = LockStore::new();
    let mut guard = store.acquire("My App").unwrap();
    assert!(guard.holds_lock());
    assert!(store.release(&mut guard));
    assert!(!store.release(&mut guard));
    assert!(!guard.holds_lock());
    assert!(!store.is_locked("my-app.lock"));
    assert!(store.acquire("My App").is_ok());
    assert!(store.is_locked("my-app.lock"));
}

#[test]
fn releasing_a_stale_guard_keeps_the_new_owner() {
    let mut store = LockStore::new();
    let mut old = store.acquire("App").unwrap();
    assert!(store.release(&mut old));
    let _new = store.acquire("App").unwrap();
    assert!(!store.release(&mut old));
    assert!(store.is_locked("app.lock"));
}

#[test]
fn store_lock_and_unlock() {
    let mut store = LockStore::new();
    assert_eq!(store.try_lock("a"), Ok(()));
    assert_eq!(store.try_lock("b"), Ok(()));
    assert_eq!(store.try_lock("a"), Err(LockError::InstanceAlreadyRunning));
    store.unlock("a");
    store.unlock("a");
    assert!(!store.is_locked("a"));
    assert!(store.is_locked("b"));
    assert_eq!(store.try_lock("a"), Ok(()));
}

#[test]
fn guard_from_platform_attempt() {
    let mut g = SingleInstance::new("My App", Ok(())).unwrap();
    assert_eq!(g.lock_name(), "my-app.lock");
    assert!(g.release());
    assert!(!g.release());
    let e = SingleInstance::new("My App", Err(LockError::InstanceAlreadyRunning));
    assert_eq!(e.err(), Some(LockError::InstanceAlreadyRunning));
}

#[test]
fn advisory_strategy_outcomes() {
    let s = LockStrategy::Advisory;
    assert_eq!(attempt_outcome(s, observed(true, Ok(()), 0)), Ok(()));
    assert_eq!(
        attempt_outcome(s, observed(true, Ok(()), -1)),
        Err(LockError::InstanceAlreadyRunning)
    );
    assert_eq!(
        attempt_outcome(s, observed(false, Err("denied".to_string()), 0)),
        Err(LockError::LockIoError("denied".to_string()))
    );
}

#[test]
fn exclusive_open_strategy_outcomes() {
    let s = LockStrategy::ExclusiveOpen;
    assert_eq!(attempt_outcome(s, observed(true, Ok(()), 0)), Ok(()));
    assert_eq!(
        attempt_outcome(s, observed(true, Err("sharing violation".to_string()), 0)),
        Err(LockError::InstanceAlreadyRunning)
    );
}

#[test]
fn existence_check_strategy_outcomes() {
    let s = LockStrategy::ExistenceCheck;
    assert_eq!(attempt_outcome(s, observed(false, Ok(()), 0)), Ok(()));
    assert_eq!(
        attempt_outcome(s, observed(true, Ok(()), 0)),
        Err(LockError::InstanceAlreadyRunning)
    );
    assert_eq!(
        attempt_outcome(s, observed(false, Err("read-only".to_string()), 0)),
        Err(LockError::LockIoError("read-only".to_string()))
    );
}

#[test]
fn error_messages() {
    assert_eq!(LockError::InstanceAlreadyRunning.message(), "Another instance is already running");
    assert_eq!(
        LockError::LockIoError("denied".to_string()).message(),
        "Failed to open lock file: denied"
    );
}
