use tilecore::session::{Edges, SessionManager};
use tilecore::visibility::VisibilityStack;

#[test]
fn session_starts_absent() {
    let manager = SessionManager::new();
    assert_eq!(manager.current(), None);
}

#[test]
fn second_acquire_fails_and_changes_nothing() {
    let mut manager = SessionManager::new();
    assert!(manager.acquire(1));
    assert!(!manager.acquire(2));
    assert!(!manager.acquire_resize(3));
    assert_eq!(manager.current(), Some((1, Edges::Empty)));
}

#[test]
fn second_acquire_after_resize_fails_and_changes_nothing() {
    let mut manager = SessionManager::new();
    assert!(manager.acquire_resize(4));
    assert!(!manager.acquire(5));
    assert!(!manager.acquire_resize(6));
    assert_eq!(manager.current(), Some((4, Edges::BottomRight)));
}

#[test]
fn release_clears_the_session_and_is_idempotent() {
    let mut manager = SessionManager::new();
    assert!(manager.acquire(1));
    manager.release();
    assert_eq!(manager.current(), None);
    manager.release();
    assert_eq!(manager.current(), None);
    assert!(manager.acquire(2));
    assert_eq!(manager.current(), Some((2, Edges::Empty)));
}

#[test]
fn hide_then_restore_returns_the_window() {
    let mut hidden = VisibilityStack::new();
    hidden.hide_window(7);
    assert!(hidden.contains(7));
    assert_eq!(hidden.restore(), Some(7));
    assert!(!hidden.contains(7));
    assert_eq!(hidden.restore(), None);
}

#[test]
fn restore_pops_most_recently_hidden_first() {
    let mut hidden = VisibilityStack::new();
    hidden.hide_window(1);
    hidden.hide_window(2);
    hidden.hide_window(3);
    assert_eq!(hidden.restore(), Some(3));
    assert_eq!(hidden.restore(), Some(2));
    assert_eq!(hidden.restore(), Some(1));
    assert_eq!(hidden.restore(), None);
}

#[test]
fn hiding_twice_does_not_duplicate() {
    let mut hidden = VisibilityStack::new();
    hidden.hide_window(5);
    hidden.hide_window(5);
    assert_eq!(hidden.restore(), Some(5));
    assert_eq!(hidden.restore(), None);
}

#[test]
fn removed_window_is_never_restored() {
    let mut hidden = VisibilityStack::new();
    hidden.hide_window(1);
    hidden.hide_window(2);
    hidden.remove_if_present(1);
    assert!(!hidden.contains(1));
    assert_eq!(hidden.restore(), Some(2));
    assert_eq!(hidden.restore(), None);
}

#[test]
fn remove_if_present_ignores_absent_handles() {
    let mut hidden = VisibilityStack::new();
    hidden.hide_window(1);
    hidden.remove_if_present(9);
    assert_eq!(hidden.restore(), Some(1));
}
