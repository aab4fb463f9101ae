//! Spans of inserted text, as the tracker of a text container keeps them.
use vstd::prelude::*;

use crate::id::{Counter, ID};
use crate::ContentType;

verus! {

/// The activation status of a span: a span is visible only when it is applied,
/// not deleted and not undone.
#[derive(Clone, Copy, Debug, PartialEq, Eq, Structural)]
pub struct Status {
    pub unapplied: bool,
    pub delete_times: usize,
    pub undo_times: usize,
}

/// A change to the status of a span.
#[derive(Clone, Copy, Debug, PartialEq, Eq, Structural)]
pub enum StatusChange {
    Apply,
    PreApply,
    Redo,
    Undo,
    Delete,
    UndoDelete,
}

impl Status {
    /// The status is activated: applied, never deleted (net), never undone (net).
    pub open spec fn spec_activated(self) -> bool {
        !self.unapplied && self.delete_times == 0 && self.undo_times == 0
    }

    /// `change` can be applied without a counter leaving the range of `usize`.
    pub open spec fn can_apply(self, change: StatusChange) -> bool {
        match change {
            StatusChange::Redo => self.undo_times > 0,
            StatusChange::Undo => self.undo_times < usize::MAX,
            StatusChange::Delete => self.delete_times < usize::MAX,
            StatusChange::UndoDelete => self.delete_times > 0,
            _ => true,
        }
    }

    /// The status after `change`.
    pub open spec fn applied(self, change: StatusChange) -> Status {
        match change {
            StatusChange::Apply => Status { unapplied: false, ..self },
            StatusChange::PreApply => Status { unapplied: true, ..self },
            StatusChange::Redo => Status { undo_times: (self.undo_times - 1) as usize, ..self },
            StatusChange::Undo => Status { undo_times: (self.undo_times + 1) as usize, ..self },
            StatusChange::Delete => Status { delete_times: (self.delete_times + 1) as usize, ..self },
            StatusChange::UndoDelete => Status {
                delete_times: (self.delete_times - 1) as usize,
                ..self
            },
        }
    }

    pub fn new() -> (r: Self)
        ensures
            !r.unapplied,
            r.delete_times == 0,
            r.undo_times == 0,
            r.spec_activated(),
    {
        Status { unapplied: false, delete_times: 0, undo_times: 0 }
    }

    pub fn is_activated(&self) -> (r: bool)
        ensures
            r == self.spec_activated(),
    {
        !self.unapplied && self.delete_times == 0 && self.undo_times == 0
    }

    /// Applies `change`; returns whether the activation changed.
    pub fn apply(&mut self, change: StatusChange) -> (changed: bool)
        requires
            old(self).can_apply(change),
        ensures
            *final(self) == old(self).applied(change),
            changed == (final(self).spec_activated() != old(self).spec_activated()),
    {
        let activated = self.is_activated();
        match change {
            StatusChange::Apply => self.unapplied = false,
            StatusChange::PreApply => self.unapplied = true,
            StatusChange::Redo => self.undo_times -= 1,
            StatusChange::Undo => self.undo_times += 1,
            StatusChange::Delete => self.delete_times += 1,
            StatusChange::UndoDelete => self.delete_times -= 1,
        }
        self.is_activated() != activated
    }
}

impl Default for Status {
    fn default() -> (r: Self)
        ensures
            r == (Status { unapplied: false, delete_times: 0, undo_times: 0 }),
    {
        Status::new()
    }
}

/// A run of consecutive text atoms inserted by one client: `len` atoms with
/// counters `id.counter ..`, inserted between `origin_left` and `origin_right`.
#[derive(Clone, Debug)]
pub struct YSpan {
    pub origin_left: Option<ID>,
    pub origin_right: Option<ID>,
    pub id: ID,
    pub len: usize,
    pub status: Status,
}

impl YSpan {
    /// The length that the span contributes to the text: its atoms when it is
    /// activated, none otherwise.
    pub open spec fn active_len(self) -> usize {
        if self.status.spec_activated() {
            self.len
        } else {
            0
        }
    }

    /// The counter of the span's last atom, `len` taken as a `Counter`.
    pub open spec fn last_counter(self) -> int {
        self.id.counter + (self.len as i32) - 1
    }

    /// The last atom's counter is a `Counter`, and so is each step towards it.
    pub open spec fn last_id_in_range(self) -> bool {
        &&& i32::MIN <= (self.len as i32) - 1
        &&& i32::MIN <= self.last_counter() <= i32::MAX
    }

    /// The identifier of the span's last atom.
    pub open spec fn spec_last_id(self) -> ID {
        self.id.spec_inc((self.len as i32) - 1)
    }

    pub open spec fn spec_contain_id(self, id: ID) -> bool {
        &&& self.id.client_id == id.client_id
        &&& self.id.counter <= id.counter
        &&& self.last_counter() > id.counter
    }

    /// What `contain_id` needs so that no counter leaves its range.
    pub open spec fn contain_id_in_range(self, id: ID) -> bool {
        (self.id.client_id == id.client_id && self.id.counter <= id.counter)
            ==> self.last_id_in_range()
    }

    /// `other` continues `self`: same client, `other`'s counter right after
    /// `self`'s counter plus its active length (so, for a span that is not
    /// activated, equal to `self`'s counter), `other` inserted right after
    /// `self`'s last atom, same right origin and status.
    pub open spec fn spec_is_mergable(self, other: YSpan) -> bool {
        &&& other.id.client_id == self.id.client_id
        &&& self.id.counter + (self.active_len() as i32) == other.id.counter
        &&& other.origin_left == Some(self.spec_last_id())
        &&& self.origin_right == other.origin_right
        &&& self.status == other.status
    }

    /// What `is_mergable` needs so that no counter leaves its range.
    pub open spec fn mergable_in_range(self, other: YSpan) -> bool {
        other.id.client_id == self.id.client_id ==> {
            &&& i32::MIN <= self.id.counter + (self.active_len() as i32) <= i32::MAX
            &&& self.id.counter + (self.active_len() as i32) == other.id.counter
                ==> self.last_id_in_range()
        }
    }

    /// `self` with `other` appended.
    pub open spec fn merged(self, other: YSpan) -> YSpan {
        YSpan { origin_right: other.origin_right, len: (self.len + other.len) as usize, ..self }
    }

    /// The atoms `from .. to` of the span.
    pub open spec fn spec_slice(self, from: usize, to: usize) -> YSpan {
        if from == 0 {
            YSpan { len: (to - from) as usize, ..self }
        } else {
            YSpan {
                origin_left: Some(
                    ID {
                        client_id: self.id.client_id,
                        counter: (self.id.counter + (from as i32) - 1) as i32,
                    },
                ),
                origin_right: self.origin_right,
                id: ID { client_id: self.id.client_id, counter: (self.id.counter + (from as i32)) as i32 },
                len: (to - from) as usize,
                status: self.status,
            }
        }
    }

    /// What `slice` needs: an ordered range, and counters that stay in range.
    pub open spec fn slice_in_range(self, from: usize, to: usize) -> bool {
        &&& from <= to
        &&& from != 0 ==> {
            &&& i32::MIN <= self.id.counter + (from as i32) <= i32::MAX
            &&& i32::MIN <= self.id.counter + (from as i32) - 1
        }
    }

    pub fn last_id(&self) -> (r: ID)
        requires
            self.last_id_in_range(),
        ensures
            r == self.spec_last_id(),
            r.client_id == self.id.client_id,
            r.counter == self.last_counter(),
    {
        self.id.inc(self.len as i32 - 1)
    }

    pub fn can_be_origin(&self) -> (r: bool)
        requires
            self.len > 0,
        ensures
            r == self.status.spec_activated(),
    {
        self.status.is_activated()
    }

    /// Whether `id` lies in the span, short of its last atom.
    pub fn contain_id(&self, id: ID) -> (r: bool)
        requires
            self.contain_id_in_range(id),
        ensures
            r == self.spec_contain_id(id),
            r == (self.id.client_id == id.client_id && self.id.counter <= id.counter && id.counter
                < self.id.counter + (self.len as i32) - 1),
    {
        self.id.client_id == id.client_id && self.id.counter <= id.counter
            && self.last_id().counter > id.counter
    }

    pub fn is_mergable(&self, other: &Self) -> (r: bool)
        requires
            self.mergable_in_range(*other),
        ensures
            r == self.spec_is_mergable(*other),
            r ==> self.status == other.status && self.origin_right == other.origin_right
                && self.id.client_id == other.id.client_id,
    {
        other.id.client_id == self.id.client_id
            && self.id.counter + self.len() as Counter == other.id.counter
            && same_origin(&Some(self.id.inc(self.len as Counter - 1)), &other.origin_left)
            && same_origin(&self.origin_right, &other.origin_right)
            && self.status == other.status
    }

    pub fn merge(&mut self, other: &Self)
        requires
            old(self).len + other.len <= usize::MAX,
        ensures
            *final(self) == old(self).merged(*other),
            final(self).len == old(self).len + other.len,
            final(self).origin_right == other.origin_right,
            final(self).origin_left == old(self).origin_left,
            final(self).id == old(self).id,
            final(self).status == old(self).status,
    {
        self.origin_right = other.origin_right;
        self.len += other.len;
    }

    pub fn slice(&self, from: usize, to: usize) -> (r: Self)
        requires
            self.slice_in_range(from, to),
        ensures
            r == self.spec_slice(from, to),
            r.status == self.status,
            r.origin_right == self.origin_right,
            r.id.client_id == self.id.client_id,
            r.len == to - from,
    {
        if from == 0 {
            YSpan {
                origin_left: self.origin_left,
                origin_right: self.origin_right,
                id: self.id,
                len: to - from,
                status: self.status.clone(),
            }
        } else {
            YSpan {
                origin_left: Some(
                    ID { client_id: self.id.client_id, counter: self.id.counter + from as Counter - 1 },
                ),
                origin_right: self.origin_right,
                id: ID { client_id: self.id.client_id, counter: self.id.counter + from as Counter },
                len: to - from,
                status: self.status.clone(),
            }
        }
    }

    /// The kind of content that a span inserts.
    pub fn id(&self) -> (r: ContentType)
        ensures
            r == ContentType::Text,
    {
        ContentType::Text
    }

    /// The length that the span contributes to the text.
    pub fn len(&self) -> (r: usize)
        ensures
            r == self.active_len(),
            r == (if !self.status.unapplied && self.status.delete_times == 0
                && self.status.undo_times == 0 {
                self.len
            } else {
                0
            }),
    {
        if self.status.is_activated() {
            self.len
        } else {
            0
        }
    }
}

/// Equality of two optional identifiers.
fn same_origin(a: &Option<ID>, b: &Option<ID>) -> (r: bool)
    ensures
        r == (*a == *b),
{
    match (a, b) {
        (Some(x), Some(y)) => x.client_id == y.client_id && x.counter == y.counter,
        (None, None) => true,
        _ => false,
    }
}

} // verus!
