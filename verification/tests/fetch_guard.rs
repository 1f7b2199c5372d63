use std::sync::Arc;
use vault_compass::use_cases::asset_price_fetch::FetchGuard;

#[test]
fn try_acquire_returns_some_when_free() {
    let guard = Arc::new(FetchGuard::new());
    let lease = guard.try_acquire();
    assert!(lease.is_some(), "expected Some lease when guard is free");
}

#[test]
fn try_acquire_returns_none_when_already_held() {
    let guard = Arc::new(FetchGuard::new());
    let _lease = guard.try_acquire().expect("first acquire must succeed");
    let second = guard.try_acquire();
    assert!(second.is_none(), "expected None while lease is still held");
}

#[test]
fn lease_drop_releases_guard() {
    let guard = Arc::new(FetchGuard::new());
    {
        let _lease = guard.try_acquire().expect("first acquire must succeed");
    }
    let after_drop = guard.try_acquire();
    assert!(after_drop.is_some(), "expected Some after lease was dropped, got None");
}

#[test]
fn separate_guards_do_not_share_the_flag() {
    let a = Arc::new(FetchGuard::new());
    let b = Arc::new(FetchGuard::new());
    let _la = a.try_acquire().expect("a is free");
    assert!(b.try_acquire().is_some());
}

#[test]
fn a_shared_guard_is_held_through_every_handle() {
    let guard = Arc::new(FetchGuard::new());
    let other = Arc::clone(&guard);
    let lease = guard.try_acquire().expect("free");
    assert!(other.try_acquire().is_none());
    drop(lease);
    assert!(other.try_acquire().is_some());
}
