use psst_data::{Promise, PromiseState, Same};

fn fresh() -> Promise<u64, String> {
    Promise::new()
}

#[test]
fn new_cell_is_empty() {
    let p = fresh();
    assert!(matches!(p.state, PromiseState::Empty));
    assert_eq!(p.last_id, 0);
    assert!(p.is_empty());
    assert!(!p.is_pending());
    assert_eq!(p.resolved(), None);
    assert_eq!(p.rejected(), None);
}

#[test]
fn resolve_on_empty_is_noop() {
    let mut p = fresh();
    p.resolve(0, 7);
    assert!(matches!(p.state, PromiseState::Empty));
    p.resolve(1, 7);
    assert!(matches!(p.state, PromiseState::Empty));
}

#[test]
fn reject_on_empty_is_noop() {
    let mut p = fresh();
    p.reject(0, String::from("boom"));
    assert!(matches!(p.state, PromiseState::Empty));
}

#[test]
fn resolve_on_settled_is_noop() {
    let mut p = fresh();
    let id = p.to_pending();
    p.resolve(id, 7);
    assert_eq!(p.state, PromiseState::Resolved(7));
    p.resolve(id, 9);
    assert_eq!(p.state, PromiseState::Resolved(7));
    p.reject(id, String::from("late failure"));
    assert_eq!(p.state, PromiseState::Resolved(7));
}

#[test]
fn reject_on_settled_is_noop() {
    let mut p = fresh();
    let id = p.to_pending();
    p.reject(id, String::from("network error"));
    assert_eq!(p.state, PromiseState::Rejected(String::from("network error")));
    p.resolve(id, 7);
    assert_eq!(p.state, PromiseState::Rejected(String::from("network error")));
    p.reject(id, String::from("again"));
    assert_eq!(p.state, PromiseState::Rejected(String::from("network error")));
}

#[test]
fn pending_then_resolve_yields_value() {
    let mut p = fresh();
    let id = p.to_pending();
    assert_eq!(id, 1);
    assert!(p.is_pending());
    p.resolve(id, 42);
    assert_eq!(p.state, PromiseState::Resolved(42));
    assert_eq!(p.resolved(), Some(&42));
    assert_eq!(p.rejected(), None);
}

#[test]
fn rejected_reports_error() {
    let mut p = fresh();
    let id = p.to_pending();
    p.reject(id, String::from("not found"));
    assert_eq!(p.rejected(), Some(&String::from("not found")));
    assert_eq!(p.resolved(), None);
}

#[test]
fn stale_resolution_leaves_cell_pending() {
    let mut p = fresh();
    let id1 = p.to_pending();
    let id2 = p.to_pending();
    assert_eq!((id1, id2), (1, 2));
    p.resolve(id1, 7);
    assert!(matches!(p.state, PromiseState::Pending));
    assert_eq!(p.last_id, 2);
    p.reject(id1, String::from("stale failure"));
    assert!(matches!(p.state, PromiseState::Pending));
    p.resolve(id2, 8);
    assert_eq!(p.state, PromiseState::Resolved(8));
}

#[test]
fn clear_resets_to_empty_and_keeps_ids_monotonic() {
    let mut p = fresh();
    let id = p.to_pending();
    p.resolve(id, 7);
    p.clear();
    assert!(p.is_empty());
    assert_eq!(p.last_id, 1);
    let id2 = p.to_pending();
    assert_eq!(id2, 2);
}

#[test]
fn promise_equality_compares_state_and_payload() {
    let mut a = fresh();
    let mut b = fresh();
    assert!(a.same(&b));
    let ia = a.to_pending();
    assert!(!a.same(&b));
    let ib = b.to_pending();
    assert!(a.same(&b));
    a.resolve(ia, 5);
    b.resolve(ib, 5);
    assert!(a.same(&b));
    let mut c = fresh();
    let ic = c.to_pending();
    c.resolve(ic, 6);
    assert!(!a.same(&c));
}
