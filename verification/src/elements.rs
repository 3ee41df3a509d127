//! Operations on single elements of the list, found by their `id`.
//!
//! Each one works on the whole list: every element whose `id` is the given
//! text is removed or replaced, not only the first.

use vstd::prelude::*;

use crate::json::{views, Json, JsonView};
use crate::text::same_text;

verus! {

/// Whether the element's `id` is the given text.
pub open spec fn has_id(element: JsonView, id: Seq<char>) -> bool {
    element.get("id"@) == Some(JsonView::Text(id))
}

/// Whether some element of the list has the given `id`.
pub open spec fn mentions(items: Seq<JsonView>, id: Seq<char>) -> bool {
    exists|i: int| 0 <= i < items.len() && has_id(#[trigger] items[i], id)
}

/// The list without the elements that have the given `id`; the others keep
/// their order.
pub open spec fn without(items: Seq<JsonView>, id: Seq<char>) -> Seq<JsonView> {
    items.filter(|element: JsonView| !has_id(element, id))
}

/// The list with the record in the place of each element that has the given
/// `id`; the others stay where they are.
pub open spec fn replaced(items: Seq<JsonView>, id: Seq<char>, record: JsonView) -> Seq<JsonView> {
    Seq::new(
        items.len(),
        |i: int|
            if has_id(items[i], id) {
                record
            } else {
                items[i]
            },
    )
}

/// The positions of the elements that do not have the given `id`, in
/// ascending order.
pub open spec fn kept_positions(items: Seq<JsonView>, id: Seq<char>) -> Seq<int>
    decreases items.len(),
{
    if items.len() == 0 {
        Seq::empty()
    } else {
        let earlier = kept_positions(items.drop_last(), id);
        if has_id(items.last(), id) {
            earlier
        } else {
            earlier.push(items.len() - 1)
        }
    }
}

/// Removal takes out exactly the elements with the `id` and leaves the
/// others in their order: what is left are the elements at the kept
/// positions, which ascend, none of which has the `id`, and among which is
/// every position whose element does not have it.
pub proof fn law_removal_keeps_the_rest_in_order(items: Seq<JsonView>, id: Seq<char>)
    ensures
        without(items, id).len() == kept_positions(items, id).len(),
        forall|k: int|
            0 <= k < kept_positions(items, id).len() ==> {
                let at = #[trigger] kept_positions(items, id)[k];
                &&& 0 <= at < items.len()
                &&& !has_id(items[at], id)
                &&& without(items, id)[k] == items[at]
            },
        forall|j: int, k: int|
            0 <= j < k < kept_positions(items, id).len() ==> #[trigger] kept_positions(items, id)[j]
                < #[trigger] kept_positions(items, id)[k],
        forall|at: int|
            0 <= at < items.len() && !has_id(#[trigger] items[at], id) ==> kept_positions(
                items,
                id,
            ).contains(at),
        !mentions(without(items, id), id),
    decreases items.len(),
{
    reveal(Seq::filter);
    if items.len() > 0 {
        let earlier = items.drop_last();
        law_removal_keeps_the_rest_in_order(earlier, id);
        let kept = kept_positions(items, id);
        let kept_earlier = kept_positions(earlier, id);
        assert forall|at: int| 0 <= at < items.len() && !has_id(#[trigger] items[at], id) implies kept.contains(
            at,
        ) by {
            if at < items.len() - 1 {
                assert(earlier[at] == items[at]);
                let k = choose|k: int| 0 <= k < kept_earlier.len() && kept_earlier[k] == at;
                assert(kept[k] == at);
            } else {
                assert(kept[kept.len() - 1] == at);
            }
        }
    }
    let rest = without(items, id);
    if mentions(rest, id) {
        let k = choose|k: int| 0 <= k < rest.len() && has_id(#[trigger] rest[k], id);
    }
}

/// Replacement touches the elements with the `id` and nothing else: the list
/// keeps its length, the record stands at every position whose element had
/// the `id`, and every other position holds what it held.
pub proof fn law_replacement_stays_in_place(items: Seq<JsonView>, id: Seq<char>, record: JsonView)
    ensures
        replaced(items, id, record).len() == items.len(),
        forall|at: int|
            0 <= at < items.len() && has_id(items[at], id) ==> #[trigger] replaced(
                items,
                id,
                record,
            )[at] == record,
        forall|at: int|
            0 <= at < items.len() && !has_id(items[at], id) ==> #[trigger] replaced(
                items,
                id,
                record,
            )[at] == items[at],
        !mentions(items, id) ==> replaced(items, id, record) == items,
{
    if !mentions(items, id) {
        assert(replaced(items, id, record) =~= items);
    }
}

/// Whether the element's `id` is the given text.
pub fn element_has_id(element: &Json, id: &str) -> (same: bool)
    ensures
        same == has_id(element@, id@),
{
    match element.get("id") {
        Some(value) => match value.as_str() {
            Some(text) => same_text(text, id),
            None => false,
        },
        None => false,
    }
}

/// The list without the elements that have the given `id`, and whether there
/// was one.
pub fn without_element(items: &Vec<Json>, id: &str) -> (result: (Vec<Json>, bool))
    ensures
        views(result.0@) == without(views(items@), id@),
        result.1 == mentions(views(items@), id@),
{
    let ghost all = views(items@);
    let ghost keep = |element: JsonView| !has_id(element, id@);
    let mut kept: Vec<Json> = Vec::new();
    let mut found = false;
    let mut i: usize = 0;
    proof {
        reveal(Seq::filter);
    }
    while i < items.len()
        invariant
            i <= items.len(),
            all == views(items@),
            keep == |element: JsonView| !has_id(element, id@),
            views(kept@) == all.take(i as int).filter(keep),
            found == mentions(all.take(i as int), id@),
        decreases items.len() - i,
    {
        let ghost before = all.take(i as int);
        let ghost after = all.take(i + 1);
        let ghost kept_before = views(kept@);
        proof {
            reveal(Seq::filter);
            assert(after.drop_last() =~= before);
        }
        if element_has_id(&items[i], id) {
            found = true;
        } else {
            kept.push(items[i].clone());
            assert(views(kept@) =~= kept_before.push(items@[i as int]@));
        }
        i += 1;
    }
    proof {
        assert(all.take(items.len() as int) =~= all);
    }
    (kept, found)
}

/// The list with a copy of the record in the place of each element that has
/// the given `id`, and whether there was one.
pub fn with_element_replaced(items: &Vec<Json>, id: &str, record: &Json) -> (result: (
    Vec<Json>,
    bool,
))
    ensures
        views(result.0@) == replaced(views(items@), id@, record@),
        result.1 == mentions(views(items@), id@),
{
    let ghost all = views(items@);
    let mut out: Vec<Json> = Vec::new();
    let mut found = false;
    let mut i: usize = 0;
    while i < items.len()
        invariant
            i <= items.len(),
            all == views(items@),
            out@.len() == i,
            forall|k: int| 0 <= k < i ==> (#[trigger] out@[k])@ == replaced(all, id@, record@)[k],
            found == mentions(all.take(i as int), id@),
        decreases items.len() - i,
    {
        if element_has_id(&items[i], id) {
            out.push(record.clone());
            found = true;
            assert(has_id(all.take(i + 1)[i as int], id@));
        } else {
            out.push(items[i].clone());
        }
        i += 1;
    }
    proof {
        assert(all.take(items.len() as int) =~= all);
    }
    (out, found)
}

} // verus!
