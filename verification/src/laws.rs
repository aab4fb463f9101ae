//! Properties that relate several operations on statuses and spans.
use vstd::prelude::*;

use crate::id::ID;
use crate::y_span::{Status, StatusChange, YSpan};

verus! {

/// An undo followed by a redo leaves a status as it was.
pub proof fn lemma_undo_then_redo(s: Status)
    requires
        s.can_apply(StatusChange::Undo),
    ensures
        s.applied(StatusChange::Undo).can_apply(StatusChange::Redo),
        s.applied(StatusChange::Undo).applied(StatusChange::Redo) == s,
{
}

/// A redo followed by an undo leaves a status as it was.
pub proof fn lemma_redo_then_undo(s: Status)
    requires
        s.can_apply(StatusChange::Redo),
    ensures
        s.applied(StatusChange::Redo).can_apply(StatusChange::Undo),
        s.applied(StatusChange::Redo).applied(StatusChange::Undo) == s,
{
}

/// A delete followed by its undo leaves a status as it was.
pub proof fn lemma_delete_then_undo_delete(s: Status)
    requires
        s.can_apply(StatusChange::Delete),
    ensures
        s.applied(StatusChange::Delete).can_apply(StatusChange::UndoDelete),
        s.applied(StatusChange::Delete).applied(StatusChange::UndoDelete) == s,
{
}

/// Undoing a delete and deleting again leaves a status as it was.
pub proof fn lemma_undo_delete_then_delete(s: Status)
    requires
        s.can_apply(StatusChange::UndoDelete),
    ensures
        s.applied(StatusChange::UndoDelete).can_apply(StatusChange::Delete),
        s.applied(StatusChange::UndoDelete).applied(StatusChange::Delete) == s,
{
}

/// Applying after a pre-apply is the same as applying; on an applied status
/// the pair changes nothing.
pub proof fn lemma_pre_apply_then_apply(s: Status)
    ensures
        s.applied(StatusChange::PreApply).applied(StatusChange::Apply) == s.applied(
            StatusChange::Apply,
        ),
        !s.unapplied ==> s.applied(StatusChange::PreApply).applied(StatusChange::Apply) == s,
{
}

/// Apply and pre-apply are idempotent.
pub proof fn lemma_apply_idempotent(s: Status)
    ensures
        s.applied(StatusChange::Apply).applied(StatusChange::Apply) == s.applied(
            StatusChange::Apply,
        ),
        s.applied(StatusChange::PreApply).applied(StatusChange::PreApply) == s.applied(
            StatusChange::PreApply,
        ),
{
}

/// A pre-applied, deleted or undone status is not activated.
pub proof fn lemma_deactivating_changes(s: Status)
    ensures
        !s.applied(StatusChange::PreApply).spec_activated(),
        s.can_apply(StatusChange::Delete) ==> !s.applied(StatusChange::Delete).spec_activated(),
        s.can_apply(StatusChange::Undo) ==> !s.applied(StatusChange::Undo).spec_activated(),
{
}

/// Two changes other than the pair apply / pre-apply give the same status in
/// either order.
pub proof fn lemma_changes_commute(s: Status, a: StatusChange, b: StatusChange)
    requires
        !(a == StatusChange::Apply && b == StatusChange::PreApply),
        !(a == StatusChange::PreApply && b == StatusChange::Apply),
        s.can_apply(a),
        s.applied(a).can_apply(b),
        s.can_apply(b),
        s.applied(b).can_apply(a),
    ensures
        s.applied(a).applied(b) == s.applied(b).applied(a),
{
}

/// Slicing a span from its start to its length gives the span back.
pub proof fn lemma_slice_whole(span: YSpan)
    ensures
        span.slice_in_range(0, span.len),
        span.spec_slice(0, span.len) == span,
{
}

/// Taken as a `Counter`, a sum of two lengths differs from the sum of the two
/// lengths taken as `Counter`s by at most one turn of the `i32` range.
proof fn lemma_counter_of_sum(x: usize, y: usize, sum: usize)
    by (bit_vector)
    requires
        sum == x + y,
    ensures
        sum as i32 == x as i32 + y as i32 || sum as i32 == x as i32 + y as i32 - 0x1_0000_0000
            || sum as i32 == x as i32 + y as i32 + 0x1_0000_0000,
{
}

/// A slice of a slice is a slice of the span, at the offsets added up,
/// wherever the three slices keep their counters in range.
pub proof fn lemma_slice_of_slice(span: YSpan, a: usize, b: usize, c: usize, d: usize)
    requires
        a + d <= usize::MAX,
        span.slice_in_range(a, b),
        span.spec_slice(a, b).slice_in_range(c, d),
        span.slice_in_range((a + c) as usize, (a + d) as usize),
    ensures
        span.spec_slice(a, b).spec_slice(c, d) == span.spec_slice(
            (a + c) as usize,
            (a + d) as usize,
        ),
{
    if a != 0 && c != 0 {
        lemma_counter_of_sum(a, c, (a + c) as usize);
    }
}

/// Two adjacent slices stay linked: the second starts right after the last
/// atom of the first, and that atom is the span's atom `b - 1`.
pub proof fn lemma_adjacent_slices_linked(span: YSpan, a: usize, b: usize, c: usize)
    requires
        a < b < c,
        span.slice_in_range(a, b),
        span.slice_in_range(b, c),
        span.spec_slice(a, b).last_id_in_range(),
    ensures
        span.spec_slice(a, b).spec_last_id() == (ID {
            client_id: span.id.client_id,
            counter: (span.id.counter + (b as i32) - 1) as i32,
        }),
        span.spec_slice(b, c).origin_left == Some(span.spec_slice(a, b).spec_last_id()),
{
    if a != 0 {
        lemma_counter_of_sum(a, (b - a) as usize, b);
    }
}

/// An activated span cut in two at `k` merges back into itself: the two
/// pieces are mergable and their merge is the span, wherever the cut and the
/// test of the two pieces keep their counters in range.
pub proof fn lemma_split_then_merge(span: YSpan, k: usize)
    requires
        span.status.spec_activated(),
        0 < k <= span.len,
        span.slice_in_range(k, span.len),
        span.spec_slice(0, k).last_id_in_range(),
    ensures
        span.slice_in_range(0, k),
        span.spec_slice(0, k).mergable_in_range(span.spec_slice(k, span.len)),
        span.spec_slice(0, k).spec_is_mergable(span.spec_slice(k, span.len)),
        span.spec_slice(0, k).len + span.spec_slice(k, span.len).len <= usize::MAX,
        span.spec_slice(0, k).merged(span.spec_slice(k, span.len)) == span,
{
}

/// Merging a span that continues an activated span gives a span that ends
/// where the second one ended and is as long as both together.
pub proof fn lemma_merge_ends_with_other(first: YSpan, second: YSpan)
    requires
        first.status.spec_activated(),
        first.spec_is_mergable(second),
        first.len + second.len <= usize::MAX,
        first.merged(second).last_id_in_range(),
        second.last_id_in_range(),
    ensures
        first.merged(second).len == first.len + second.len,
        first.merged(second).id == first.id,
        first.merged(second).spec_last_id() == second.spec_last_id(),
{
    lemma_counter_of_sum(first.len, second.len, (first.len + second.len) as usize);
}

/// Every identifier that a slice of a span contains, the span contains too.
pub proof fn lemma_slice_contains_within(span: YSpan, from: usize, to: usize, id: ID)
    requires
        from <= to <= span.len,
        span.len <= i32::MAX,
        span.id.counter + span.len <= i32::MAX,
        span.spec_slice(from, to).spec_contain_id(id),
    ensures
        span.spec_contain_id(id),
{
}


/// The length that a span contributes to the text is its number of atoms when
/// its status is applied, not deleted and not undone, and 0 otherwise: a
/// deleted, undone or pre-applied span contributes nothing.
pub proof fn lemma_span_length_follows_status(span: YSpan)
    ensures
        span.active_len() == (if !span.status.unapplied && span.status.delete_times == 0
            && span.status.undo_times == 0 {
            span.len
        } else {
            0
        }),
        span.status.delete_times > 0 ==> span.active_len() == 0,
        span.status.undo_times > 0 ==> span.active_len() == 0,
        span.status.unapplied ==> span.active_len() == 0,
{
}

/// Deleting a span, or undoing it, takes all of its length out of the text.
pub proof fn lemma_delete_or_undo_hides_span(span: YSpan)
    ensures
        span.status.delete_times < usize::MAX ==> (YSpan {
            status: Status { delete_times: (span.status.delete_times + 1) as usize, ..span.status },
            ..span
        }).active_len() == 0,
        span.status.undo_times < usize::MAX ==> (YSpan {
            status: Status { undo_times: (span.status.undo_times + 1) as usize, ..span.status },
            ..span
        }).active_len() == 0,
{
}

/// Two spans are mergable exactly when the second is the same client's
/// continuation of the first: its counter follows the first's counter by the
/// first's length in the text, it was inserted right after the first's last
/// atom, and both share the right origin and the status.
pub proof fn lemma_mergable_means_continuation(a: YSpan, b: YSpan)
    ensures
        a.spec_is_mergable(b) <==> {
            &&& b.id.client_id == a.id.client_id
            &&& a.id.counter + ((if !a.status.unapplied && a.status.delete_times == 0
                && a.status.undo_times == 0 {
                a.len
            } else {
                0usize
            }) as i32) == b.id.counter
            &&& b.origin_left == Some(
                ID {
                    client_id: a.id.client_id,
                    counter: (a.id.counter + (a.len as i32) - 1) as i32,
                },
            )
            &&& a.origin_right == b.origin_right
            &&& a.status == b.status
        },
        a.spec_is_mergable(b) ==> a.status == b.status,
        a.status != b.status ==> !a.spec_is_mergable(b),
        a.origin_right != b.origin_right ==> !a.spec_is_mergable(b),
        a.id.client_id != b.id.client_id ==> !a.spec_is_mergable(b),
{
}

/// A slice keeps the span's client, right origin and status; it holds
/// `to - from` atoms starting `from` atoms into the span, and, unless it starts
/// the span, its left origin is the atom just before it. A slice of a span that
/// is not activated contributes no length either.
pub proof fn lemma_slice_keeps_status_and_origins(span: YSpan, from: usize, to: usize)
    requires
        from <= to,
    ensures
        span.spec_slice(from, to).status == span.status,
        span.spec_slice(from, to).origin_right == span.origin_right,
        span.spec_slice(from, to).id.client_id == span.id.client_id,
        span.spec_slice(from, to).len == to - from,
        span.spec_slice(from, to).id.counter == (span.id.counter + (from as i32)) as i32,
        from == 0 ==> span.spec_slice(from, to).origin_left == span.origin_left,
        from != 0 ==> span.spec_slice(from, to).origin_left == Some(
            ID {
                client_id: span.id.client_id,
                counter: (span.id.counter + (from as i32) - 1) as i32,
            },
        ),
        (span.status.unapplied || span.status.delete_times > 0 || span.status.undo_times > 0)
            ==> span.spec_slice(from, to).active_len() == 0,
{
}

/// Whether a span contains an id depends on the span's client, first counter
/// and length alone, never on its status: the id must be the same client's,
/// from the span's first counter up to, but not including, its last one.
pub proof fn lemma_contain_id_ignores_status(span: YSpan, id: ID, status: Status)
    ensures
        span.spec_contain_id(id) <==> (span.id.client_id == id.client_id && span.id.counter
            <= id.counter && id.counter < span.id.counter + (span.len as i32) - 1),
        (YSpan { status, ..span }).spec_contain_id(id) == span.spec_contain_id(id),
{
}

/// Merging appends the other span whatever the status: the length becomes
/// the sum of both lengths, the right origin becomes the other span's, and
/// the left origin, id and status stay.
pub proof fn lemma_merge_appends(a: YSpan, b: YSpan)
    requires
        a.len + b.len <= usize::MAX,
    ensures
        a.merged(b).len == a.len + b.len,
        a.merged(b).origin_right == b.origin_right,
        a.merged(b).origin_left == a.origin_left,
        a.merged(b).id == a.id,
        a.merged(b).status == a.status,
{
}

} // verus!
