//! What holds of the document over a whole history of mutations.

use vstd::prelude::*;

use crate::elements::{has_id, mentions, replaced};
use crate::json::JsonView;
use crate::store::{CanvasView, PayloadView};

verus! {

/// One of the three fields that a payload may write.
pub enum Field {
    Elements,
    AppState,
    Files,
}

/// A mutation of the document as a whole.
pub enum Mutation {
    /// Fields were written, by a draw or an update.
    Write(PayloadView),
    /// The document was cleared.
    Clear,
}

impl CanvasView {
    /// The value of one field.
    pub open spec fn field(self, field: Field) -> Option<JsonView> {
        match field {
            Field::Elements => self.elements,
            Field::AppState => self.app_state,
            Field::Files => self.files,
        }
    }

    /// The document after one mutation at `now`.
    pub open spec fn applied(self, mutation: Mutation, now: Seq<char>) -> CanvasView {
        match mutation {
            Mutation::Write(payload) => self.written(payload, now),
            Mutation::Clear => self.cleared(now),
        }
    }

    /// The document after a history of mutations, each with its time, the
    /// earliest first.
    pub open spec fn replayed(self, history: Seq<(Mutation, Seq<char>)>) -> CanvasView
        decreases history.len(),
    {
        if history.len() == 0 {
            self
        } else {
            self.replayed(history.drop_last()).applied(history.last().0, history.last().1)
        }
    }
}

impl PayloadView {
    /// The value that the payload holds for one field.
    pub open spec fn field(self, field: Field) -> Option<JsonView> {
        match field {
            Field::Elements => self.elements,
            Field::AppState => self.app_state,
            Field::Files => self.files,
        }
    }
}

impl Mutation {
    /// Whether the mutation decides the field: a clear decides every field, a
    /// write those that its payload holds.
    pub open spec fn sets(self, field: Field) -> bool {
        match self {
            Mutation::Write(payload) => payload.field(field) is Some,
            Mutation::Clear => true,
        }
    }

    /// The value that the mutation leaves in a field that it decides.
    pub open spec fn value(self, field: Field) -> Option<JsonView> {
        match self {
            Mutation::Write(payload) => payload.field(field),
            Mutation::Clear => match field {
                Field::Elements => Some(JsonView::Array(Seq::empty())),
                _ => None,
            },
        }
    }
}

/// The last mutation that decides a field wins: after any history, a field
/// holds what the latest write that named it left there, or what a later
/// clear made of it. A payload that omits the field changes nothing of it.
pub proof fn law_last_writer_wins(
    canvas: CanvasView,
    history: Seq<(Mutation, Seq<char>)>,
    field: Field,
    last: int,
)
    requires
        0 <= last < history.len(),
        history[last].0.sets(field),
        forall|later: int| last < later < history.len() ==> !(#[trigger] history[later]).0.sets(field),
    ensures
        canvas.replayed(history).field(field) == history[last].0.value(field),
    decreases history.len(),
{
    if last < history.len() - 1 {
        // The last mutation leaves the field alone, so the field is what the
        // history before it made of it.
        let earlier = history.drop_last();
        assert forall|later: int| last < later < earlier.len() implies !(#[trigger] earlier[later]).0.sets(
            field,
        ) by {
            assert(earlier[later] == history[later]);
        }
        law_last_writer_wins(canvas, earlier, field, last);
    }
}

/// A field that no mutation of a history decides stays as it was.
pub proof fn law_untouched_field_stays(
    canvas: CanvasView,
    history: Seq<(Mutation, Seq<char>)>,
    field: Field,
)
    requires
        forall|at: int| 0 <= at < history.len() ==> !(#[trigger] history[at]).0.sets(field),
    ensures
        canvas.replayed(history).field(field) == canvas.field(field),
    decreases history.len(),
{
    if history.len() > 0 {
        let earlier = history.drop_last();
        assert forall|at: int| 0 <= at < earlier.len() implies !(#[trigger] earlier[at]).0.sets(
            field,
        ) by {
            assert(earlier[at] == history[at]);
        }
        law_untouched_field_stays(canvas, earlier, field);
    }
}

/// Every mutation refreshes the time of the last mutation: after a history
/// it is the time of the latest one, so it differs from the time before
/// whenever the clock has moved.
pub proof fn law_mutation_refreshes_time(canvas: CanvasView, history: Seq<(Mutation, Seq<char>)>)
    requires
        history.len() > 0,
    ensures
        canvas.replayed(history).updated_at == history.last().1,
        history.last().1 != canvas.replayed(history.drop_last()).updated_at ==> canvas.replayed(
            history,
        ).updated_at != canvas.replayed(history.drop_last()).updated_at,
{
}

/// Clearing twice is clearing once: the second clear succeeds on the cleared
/// document and leaves the same shape, with only the time refreshed.
pub proof fn law_clear_is_idempotent(canvas: CanvasView, first: Seq<char>, second: Seq<char>)
    ensures
        canvas.cleared(first).cleared(second) == canvas.cleared(second),
        canvas.cleared(first).cleared(second) == (CanvasView {
            updated_at: second,
            ..canvas.cleared(first)
        }),
{
}

/// The element list after a sequence of replacements, each of an `id` by a
/// record, the earliest first.
pub open spec fn after_updates(items: Seq<JsonView>, updates: Seq<(Seq<char>, JsonView)>) -> Seq<
    JsonView,
>
    decreases updates.len(),
{
    if updates.len() == 0 {
        items
    } else {
        replaced(after_updates(items, updates.drop_last()), updates.last().0, updates.last().1)
    }
}

/// Whether the element is one that update number `k` replaces.
pub open spec fn hit_by(element: JsonView, updates: Seq<(Seq<char>, JsonView)>, k: int) -> bool {
    0 <= k < updates.len() && has_id(element, updates[k].0)
}

/// Replacements of distinct ids, made one after another, all land. Where the
/// ids are pairwise distinct, each is the `id` of some element, and no record
/// carries the `id` of a later replacement: every replacement finds its
/// element, and in the end every element that had one of the ids holds the
/// record sent for that id, while every other element is as it was.
pub proof fn law_distinct_updates_all_land(
    items: Seq<JsonView>,
    updates: Seq<(Seq<char>, JsonView)>,
)
    requires
        forall|j: int, k: int|
            0 <= j < k < updates.len() ==> (#[trigger] updates[j]).0 != (#[trigger] updates[k]).0,
        forall|j: int, k: int|
            0 <= j < k < updates.len() ==> !has_id((#[trigger] updates[j]).1, (#[trigger] updates[k]).0),
        forall|k: int| 0 <= k < updates.len() ==> mentions(items, (#[trigger] updates[k]).0),
    ensures
        after_updates(items, updates).len() == items.len(),
        forall|k: int|
            0 <= k < updates.len() ==> mentions(
                after_updates(items, updates.take(k)),
                (#[trigger] updates[k]).0,
            ),
        forall|p: int, k: int|
            0 <= p < items.len() && #[trigger] hit_by(items[p], updates, k) ==> after_updates(
                items,
                updates,
            )[p] == updates[k].1,
        forall|p: int|
            0 <= p < items.len() && (forall|k: int| !hit_by(items[p], updates, k))
                ==> #[trigger] after_updates(items, updates)[p] == items[p],
    decreases updates.len(),
{
    if updates.len() > 0 {
        let n = updates.len() - 1;
        let earlier = updates.drop_last();
        let before = after_updates(items, earlier);
        let after = after_updates(items, updates);
        let id = updates[n].0;
        law_distinct_updates_all_land(items, earlier);
        // Before the last step an element has the last id exactly where the
        // element that it came from had it: a record put there by an earlier
        // step does not carry the last id.
        assert forall|p: int| 0 <= p < items.len() implies (has_id(#[trigger] before[p], id)
            <==> has_id(items[p], id)) by {
            if exists|k: int| hit_by(items[p], earlier, k) {
                let k = choose|k: int| hit_by(items[p], earlier, k);
                assert(before[p] == updates[k].1);
            } else {
                assert(before[p] == items[p]);
            }
        }
        assert forall|k: int| 0 <= k < updates.len() implies mentions(
            after_updates(items, updates.take(k)),
            (#[trigger] updates[k]).0,
        ) by {
            if k < n {
                assert(earlier.take(k) =~= updates.take(k));
                assert(earlier[k] == updates[k]);
            } else {
                assert(updates.take(k) =~= earlier);
                let p = choose|p: int| 0 <= p < items.len() && has_id(#[trigger] items[p], id);
                assert(has_id(before[p], id));
            }
        }
        assert forall|p: int, k: int|
            0 <= p < items.len() && #[trigger] hit_by(items[p], updates, k) implies after[p]
            == updates[k].1 by {
            if k < n {
                assert(hit_by(items[p], earlier, k));
            }
        }
        assert forall|p: int|
            0 <= p < items.len() && (forall|k: int| !hit_by(items[p], updates, k)) implies #[trigger] after[p]
            == items[p] by {
            assert(!hit_by(items[p], updates, n));
            assert forall|k: int| !hit_by(items[p], earlier, k) by {
                assert(!hit_by(items[p], updates, k));
            }
        }
    }
}

} // verus!
