use loro_core::id::ID;
use loro_core::y_span::{Status, StatusChange, YSpan};
use loro_core::ContentType;

fn span(origin_left: Option<ID>, origin_right: Option<ID>, id: ID, len: usize) -> YSpan {
    YSpan { origin_left, origin_right, id, len, status: Default::default() }
}

/// Appends `next` to a run-length list of spans, merging it into the last
/// span when the two are mergable, as a run-length vector does.
fn push_merging(list: &mut Vec<YSpan>, next: YSpan) {
    if let Some(last) = list.last_mut() {
        if last.is_mergable(&next) {
            last.merge(&next);
            return;
        }
    }
    list.push(next);
}

#[test]
fn test_merge() {
    let mut vec: Vec<YSpan> = Vec::new();
    push_merging(&mut vec, span(Some(ID::new(0, 0)), None, ID::new(0, 1), 1));
    push_merging(&mut vec, span(Some(ID::new(0, 1)), None, ID::new(0, 2), 1));
    assert_eq!(vec.len(), 1);
    let merged = &vec[0];
    assert_eq!(merged.id(), ContentType::Text);
    assert_eq!(merged.len(), 2);
}

#[test]
fn slice() {
    let mut vec: Vec<YSpan> = Vec::new();
    push_merging(&mut vec, span(Some(ID::new(0, 0)), None, ID::new(0, 1), 4));
    push_merging(&mut vec, span(Some(ID::new(0, 0)), Some(ID::new(0, 1)), ID::new(0, 5), 4));
    assert_eq!(vec.len(), 2);
    // atoms 2 .. 6 of the list: atoms 2 .. 4 of the first span, 0 .. 2 of the second
    let lens: Vec<usize> = vec![vec[0].slice(2, 4).len, vec[1].slice(0, 2).len];
    assert_eq!(lens, vec![2, 2]);
}

#[test]
fn status_new_is_activated() {
    let s = Status::new();
    assert!(s.is_activated());
    assert_eq!(s, Status::default());
}

#[test]
fn status_apply_reports_activation_change() {
    let mut s = Status::new();
    assert!(s.apply(StatusChange::Undo));
    assert_eq!(s.undo_times, 1);
    assert!(!s.apply(StatusChange::Delete));
    assert_eq!(s.delete_times, 1);
    assert!(!s.apply(StatusChange::Redo));
    assert_eq!(s.undo_times, 0);
    assert!(s.apply(StatusChange::UndoDelete));
    assert!(s.is_activated());
    assert!(s.apply(StatusChange::PreApply));
    assert!(s.unapplied);
    assert!(!s.apply(StatusChange::PreApply));
    assert!(s.apply(StatusChange::Apply));
    assert!(!s.apply(StatusChange::Apply));
    assert_eq!(s, Status::new());
}

#[test]
fn status_undo_then_redo_restores() {
    let mut s = Status { unapplied: true, delete_times: 3, undo_times: 2 };
    let before = s;
    s.apply(StatusChange::Undo);
    s.apply(StatusChange::Redo);
    assert_eq!(s, before);
    s.apply(StatusChange::Delete);
    s.apply(StatusChange::UndoDelete);
    assert_eq!(s, before);
}

#[test]
fn status_changes_commute() {
    let s = Status { unapplied: false, delete_times: 1, undo_times: 1 };
    let mut a = s;
    a.apply(StatusChange::Undo);
    a.apply(StatusChange::UndoDelete);
    let mut b = s;
    b.apply(StatusChange::UndoDelete);
    b.apply(StatusChange::Undo);
    assert_eq!(a, b);
}

#[test]
fn last_id_and_contain_id() {
    let s = span(None, None, ID::new(7, 10), 4);
    assert_eq!(s.last_id(), ID::new(7, 13));
    assert!(s.contain_id(ID::new(7, 10)));
    assert!(s.contain_id(ID::new(7, 12)));
    // the last atom itself is not counted
    assert!(!s.contain_id(ID::new(7, 13)));
    assert!(!s.contain_id(ID::new(7, 9)));
    assert!(!s.contain_id(ID::new(8, 11)));
}

#[test]
fn can_be_origin_follows_status() {
    let mut s = span(None, None, ID::new(1, 0), 3);
    assert!(s.can_be_origin());
    s.status.apply(StatusChange::Delete);
    assert!(!s.can_be_origin());
}

#[test]
fn len_of_inactive_span_is_zero() {
    let mut s = span(None, None, ID::new(1, 0), 3);
    assert_eq!(s.len(), 3);
    s.status.apply(StatusChange::Undo);
    assert_eq!(s.len(), 0);
    assert_eq!(s.len, 3);
}

#[test]
fn slice_from_middle_sets_origin_and_id() {
    let s = span(Some(ID::new(2, 100)), Some(ID::new(3, 4)), ID::new(1, 20), 6);
    let t = s.slice(2, 5);
    assert_eq!(t.id, ID::new(1, 22));
    assert_eq!(t.origin_left, Some(ID::new(1, 21)));
    assert_eq!(t.origin_right, Some(ID::new(3, 4)));
    assert_eq!(t.len, 3);
    let h = s.slice(0, 2);
    assert_eq!(h.id, ID::new(1, 20));
    assert_eq!(h.origin_left, Some(ID::new(2, 100)));
    assert_eq!(h.len, 2);
}

#[test]
fn split_then_merge_gives_span_back() {
    let s = span(Some(ID::new(2, 100)), Some(ID::new(3, 4)), ID::new(1, 20), 6);
    let mut a = s.slice(0, 2);
    let b = s.slice(2, 6);
    assert!(a.is_mergable(&b));
    a.merge(&b);
    assert_eq!(a.id, s.id);
    assert_eq!(a.origin_left, s.origin_left);
    assert_eq!(a.origin_right, s.origin_right);
    assert_eq!(a.len, s.len);
    assert_eq!(a.status, s.status);
    assert_eq!(a.last_id(), b.last_id());
}

#[test]
fn slice_of_slice() {
    let s = span(None, None, ID::new(1, 20), 10);
    let t = s.slice(3, 9).slice(2, 5);
    let u = s.slice(5, 8);
    assert_eq!(t.id, u.id);
    assert_eq!(t.origin_left, u.origin_left);
    assert_eq!(t.len, u.len);
}

#[test]
fn not_mergable_when_origin_differs() {
    let a = span(None, None, ID::new(1, 0), 2);
    let b = span(Some(ID::new(1, 0)), None, ID::new(1, 2), 2);
    assert!(!a.is_mergable(&b));
    let c = span(Some(ID::new(1, 1)), None, ID::new(1, 2), 2);
    assert!(a.is_mergable(&c));
    let d = span(Some(ID::new(1, 1)), None, ID::new(2, 2), 2);
    assert!(!a.is_mergable(&d));
}

#[test]
fn inc_moves_counter() {
    assert_eq!(ID::new(4, 5).inc(3), ID::new(4, 8));
    assert_eq!(ID::new(4, 5).inc(-5), ID::new(4, 0));
}

#[test]
fn adjacent_slices_stay_linked() {
    let s = span(Some(ID::new(2, 100)), None, ID::new(1, 20), 10);
    let first = s.slice(3, 6);
    let second = s.slice(6, 9);
    assert_eq!(first.last_id(), ID::new(1, 25));
    assert_eq!(second.origin_left, Some(first.last_id()));
    let head = s.slice(0, 4);
    let rest = s.slice(4, 10);
    assert_eq!(rest.origin_left, Some(head.last_id()));
}
