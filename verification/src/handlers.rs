//! The operations of the control plane, as decisions.
//!
//! A mutating operation runs in two steps. The first commits the change to
//! the document and says what to tell the user interface: an [`Outcome`].
//! The caller sends that notification, which the library cannot do, and
//! hands the result to [`conclude`], which gives the response. A
//! notification that fails does not undo the change; it only turns the
//! response into an error.

use vstd::prelude::*;
use vstd::string::StringExecFns;

use crate::clock::now_rfc3339;
use crate::elements::{mentions, replaced, with_element_replaced, without, without_element};
use crate::json::{
    clone_items, empty_array, lemma_array_view, member_views, or_null, or_null_copy, views, Json,
    JsonView,
};
use crate::response::{
    entry, error_record, json_response, object, respond_error, respond_json, respond_success,
    respond_success_message, success_message_record, success_record, text, Response,
    ResponseView,
};
use crate::store::{CanvasData, CanvasView, DrawPayload, PayloadView, UpdateElementPayload};

verus! {

/// The name of the event that tells the user interface of a change.
pub const EVENT_DRAW: &'static str = "excalidraw_draw";

/// The loopback port on which the control plane listens.
pub const DEFAULT_PORT: u16 = 31337;

/// The operation whose notification is on its way.
#[derive(Debug, PartialEq, Eq)]
pub enum Pending {
    /// Fields of the document were written.
    Draw,
    /// The document was cleared.
    Clear,
    /// The elements with this `id` were removed.
    Removed(String),
    /// The elements with this `id` were replaced.
    Updated(String),
}

/// What a [`Pending`] holds.
pub enum PendingView {
    Draw,
    Clear,
    Removed(Seq<char>),
    Updated(Seq<char>),
}

impl View for Pending {
    type V = PendingView;

    open spec fn view(&self) -> PendingView {
        match self {
            Pending::Draw => PendingView::Draw,
            Pending::Clear => PendingView::Clear,
            Pending::Removed(id) => PendingView::Removed(id@),
            Pending::Updated(id) => PendingView::Updated(id@),
        }
    }
}

/// What an operation has decided once the document is as it shall be.
#[derive(Debug, PartialEq, Eq)]
pub enum Outcome {
    /// The change is committed: send the payload to the user interface, then
    /// [`conclude`].
    Notify { payload: DrawPayload, pending: Pending },
    /// Nothing was changed and nothing is to be sent: this is the response.
    Reply(Response),
}

/// What an [`Outcome`] holds.
pub enum OutcomeView {
    Notify { payload: PayloadView, pending: PendingView },
    Reply(ResponseView),
}

impl View for Outcome {
    type V = OutcomeView;

    open spec fn view(&self) -> OutcomeView {
        match self {
            Outcome::Notify { payload, pending } => OutcomeView::Notify {
                payload: payload@,
                pending: pending@,
            },
            Outcome::Reply(response) => OutcomeView::Reply(response@),
        }
    }
}

/// The notification that carries a whole element list and nothing else.
pub open spec fn elements_payload(items: Seq<JsonView>) -> PayloadView {
    PayloadView { elements: Some(JsonView::Array(items)), app_state: None, files: None }
}

/// What is said of an `id` that no element has.
pub open spec fn not_found_message(id: Seq<char>) -> Seq<char> {
    "Element with ID '"@ + id + "' not found"@
}

/// What is said of the elements that were removed.
pub open spec fn removed_message(id: Seq<char>) -> Seq<char> {
    "Element '"@ + id + "' removed"@
}

/// What is said of the elements that were replaced.
pub open spec fn updated_message(id: Seq<char>) -> Seq<char> {
    "Element '"@ + id + "' updated"@
}

/// The response once the notification was sent, or could not be sent.
pub open spec fn concluded(pending: PendingView, emitted: bool) -> ResponseView {
    match pending {
        PendingView::Draw => if emitted {
            json_response(200, success_record())
        } else {
            json_response(500, error_record("Failed to emit draw event"@))
        },
        PendingView::Clear => if emitted {
            json_response(200, success_record())
        } else {
            json_response(500, error_record("Failed to emit clear event"@))
        },
        PendingView::Removed(id) => if emitted {
            json_response(200, success_message_record(removed_message(id)))
        } else {
            json_response(500, error_record("Failed to emit remove event"@))
        },
        PendingView::Updated(id) => if emitted {
            json_response(200, success_message_record(updated_message(id)))
        } else {
            json_response(500, error_record("Failed to emit update event"@))
        },
    }
}

/// The document as `GET /canvas` shows it.
pub open spec fn canvas_record(canvas: CanvasView) -> JsonView {
    JsonView::Object(
        seq![
            ("elements"@, or_null(canvas.elements)),
            ("appState"@, or_null(canvas.app_state)),
            ("files"@, or_null(canvas.files)),
            ("updated_at"@, JsonView::Text(canvas.updated_at)),
        ],
    )
}

/// The document that a server starts with: no field set, and the time that
/// the clock shows.
pub fn open_canvas() -> (canvas: CanvasData)
    ensures
        canvas@ == CanvasView::initial(canvas.updated_at@),
{
    CanvasData::new(now_rfc3339())
}

/// The answer to the health check.
pub fn health() -> (answer: &'static str)
    ensures
        answer@ == "ok"@,
{
    "ok"
}

/// The current document, in a response. The document is not touched.
pub fn get_canvas(canvas: &CanvasData) -> (response: Response)
    ensures
        response@ == json_response(
            200,
            JsonView::Object(seq![("canvas"@, canvas_record(canvas@))]),
        ),
{
    let mut fields: Vec<(String, Json)> = Vec::new();
    fields.push(entry("elements", or_null_copy(&canvas.elements)));
    fields.push(entry("appState", or_null_copy(&canvas.app_state)));
    fields.push(entry("files", or_null_copy(&canvas.files)));
    fields.push(entry("updated_at", text(canvas.updated_at.as_str())));
    assert(member_views(fields@) =~= canvas_record(canvas@)->Object_0);
    let mut members: Vec<(String, Json)> = Vec::new();
    members.push(entry("canvas", object(fields)));
    assert(member_views(members@) =~= seq![("canvas"@, canvas_record(canvas@))]);
    respond_json(200, object(members))
}

/// Writes the fields that the payload holds, at the time that the clock
/// shows, and asks for the payload to be sent on as it came.
pub fn draw_canvas(canvas: &mut CanvasData, payload: &DrawPayload) -> (outcome: Outcome)
    ensures
        final(canvas)@ == old(canvas)@.written(payload@, final(canvas).updated_at@),
        outcome@ == (OutcomeView::Notify { payload: payload@, pending: PendingView::Draw }),
{
    let now = now_rfc3339();
    canvas.replace_fields(payload, now);
    Outcome::Notify { payload: payload.clone(), pending: Pending::Draw }
}

/// Updates the document: the same change and the same notification as
/// [`draw_canvas`].
pub fn update_canvas(canvas: &mut CanvasData, payload: &DrawPayload) -> (outcome: Outcome)
    ensures
        final(canvas)@ == old(canvas)@.written(payload@, final(canvas).updated_at@),
        outcome@ == (OutcomeView::Notify { payload: payload@, pending: PendingView::Draw }),
{
    draw_canvas(canvas, payload)
}

/// Clears the document at the time that the clock shows, and asks for a
/// notification that holds an empty element list and nothing else.
pub fn clear_canvas(canvas: &mut CanvasData) -> (outcome: Outcome)
    ensures
        final(canvas)@ == old(canvas)@.cleared(final(canvas).updated_at@),
        outcome@ == (OutcomeView::Notify {
            payload: elements_payload(Seq::empty()),
            pending: PendingView::Clear,
        }),
{
    let payload = DrawPayload { elements: Some(empty_array()), app_state: None, files: None };
    let now = now_rfc3339();
    canvas.clear(now);
    Outcome::Notify { payload, pending: Pending::Clear }
}

fn commit_elements(canvas: &mut CanvasData, items: Vec<Json>, now: String) -> (payload: DrawPayload)
    ensures
        final(canvas)@ == old(canvas)@.with_elements(views(items@), now@),
        payload@ == elements_payload(views(items@)),
{
    let copies = clone_items(&items);
    proof {
        lemma_array_view(copies);
    }
    let payload = DrawPayload { elements: Some(Json::Array(copies)), app_state: None, files: None };
    canvas.replace_elements(items, now);
    payload
}

fn respond_not_found(element_id: &str) -> (response: Response)
    ensures
        response@ == json_response(404, error_record(not_found_message(element_id@))),
{
    let mut message = String::from_str("Element with ID '");
    message.append(element_id);
    message.append("' not found");
    respond_error(404, message.as_str())
}

/// What becomes of the document when the elements with an `id` are removed
/// at `now`, and what is decided: where no element has the `id`, nothing
/// changes and the response is 404; otherwise the list without those
/// elements is committed at `now` and sent on.
pub open spec fn removal(canvas: CanvasView, id: Seq<char>, now: Seq<char>) -> (
    CanvasView,
    OutcomeView,
) {
    let items = canvas.items();
    if mentions(items, id) {
        (
            canvas.with_elements(without(items, id), now),
            OutcomeView::Notify {
                payload: elements_payload(without(items, id)),
                pending: PendingView::Removed(id),
            },
        )
    } else {
        (canvas, OutcomeView::Reply(json_response(404, error_record(not_found_message(id)))))
    }
}

/// What becomes of the document when the elements with an `id` are replaced
/// by a record at `now`, and what is decided: where no element has the `id`,
/// nothing changes and the response is 404; otherwise the list with the
/// record in their places is committed at `now` and sent on.
pub open spec fn replacement(
    canvas: CanvasView,
    id: Seq<char>,
    record: JsonView,
    now: Seq<char>,
) -> (CanvasView, OutcomeView) {
    let items = canvas.items();
    if mentions(items, id) {
        (
            canvas.with_elements(replaced(items, id, record), now),
            OutcomeView::Notify {
                payload: elements_payload(replaced(items, id, record)),
                pending: PendingView::Updated(id),
            },
        )
    } else {
        (canvas, OutcomeView::Reply(json_response(404, error_record(not_found_message(id)))))
    }
}

/// Removes, at `now`, every element whose `id` is the given text; the others
/// keep their order. Where no element has that `id`, the document stays as
/// it is, its time too, and the response is 404. Otherwise the new list is
/// committed with `now` as the time of the last mutation, and the
/// notification carries the whole new list.
pub fn remove_element_at(canvas: &mut CanvasData, element_id: &str, now: String) -> (outcome:
    Outcome)
    ensures
        final(canvas)@ == removal(old(canvas)@, element_id@, now@).0,
        outcome@ == removal(old(canvas)@, element_id@, now@).1,
        !mentions(old(canvas)@.items(), element_id@) ==> *final(canvas) == *old(canvas),
{
    let change = match &canvas.elements {
        Some(elements) => match elements.as_array() {
            Some(items) => Some(without_element(items, element_id)),
            None => None,
        },
        None => None,
    };
    match change {
        Some((kept, true)) => {
            let payload = commit_elements(canvas, kept, now);
            Outcome::Notify { payload, pending: Pending::Removed(String::from_str(element_id)) }
        },
        _ => Outcome::Reply(respond_not_found(element_id)),
    }
}

/// Removes every element whose `id` is the given text, at the time that the
/// clock shows: what [`remove_element_at`] does for that time.
pub fn remove_element(canvas: &mut CanvasData, element_id: &str) -> (outcome: Outcome)
    ensures
        final(canvas)@ == removal(old(canvas)@, element_id@, final(canvas).updated_at@).0,
        outcome@ == removal(old(canvas)@, element_id@, final(canvas).updated_at@).1,
        !mentions(old(canvas)@.items(), element_id@) ==> *final(canvas) == *old(canvas),
{
    remove_element_at(canvas, element_id, now_rfc3339())
}

/// Puts the record, at `now`, in the place of every element whose `id` is
/// the given text; every other element stays where it is. Where no element
/// has that `id`, the document stays as it is, its time too, and the
/// response is 404. Otherwise the new list is committed with `now` as the
/// time of the last mutation, and the notification carries the whole new
/// list.
pub fn update_element_at(
    canvas: &mut CanvasData,
    element_id: &str,
    payload: &UpdateElementPayload,
    now: String,
) -> (outcome: Outcome)
    ensures
        final(canvas)@ == replacement(old(canvas)@, element_id@, payload@, now@).0,
        outcome@ == replacement(old(canvas)@, element_id@, payload@, now@).1,
        !mentions(old(canvas)@.items(), element_id@) ==> *final(canvas) == *old(canvas),
{
    let change = match &canvas.elements {
        Some(elements) => match elements.as_array() {
            Some(items) => Some(with_element_replaced(items, element_id, &payload.element)),
            None => None,
        },
        None => None,
    };
    match change {
        Some((updated, true)) => {
            let payload = commit_elements(canvas, updated, now);
            Outcome::Notify { payload, pending: Pending::Updated(String::from_str(element_id)) }
        },
        _ => Outcome::Reply(respond_not_found(element_id)),
    }
}

/// Replaces every element whose `id` is the given text, at the time that the
/// clock shows: what [`update_element_at`] does for that time.
pub fn update_element(
    canvas: &mut CanvasData,
    element_id: &str,
    payload: &UpdateElementPayload,
) -> (outcome: Outcome)
    ensures
        final(canvas)@ == replacement(
            old(canvas)@,
            element_id@,
            payload@,
            final(canvas).updated_at@,
        ).0,
        outcome@ == replacement(old(canvas)@, element_id@, payload@, final(canvas).updated_at@).1,
        !mentions(old(canvas)@.items(), element_id@) ==> *final(canvas) == *old(canvas),
{
    update_element_at(canvas, element_id, payload, now_rfc3339())
}

/// The response of a mutating operation, once its notification was sent
/// (`emitted`) or could not be sent.
pub fn conclude(pending: &Pending, emitted: bool) -> (response: Response)
    ensures
        response@ == concluded(pending@, emitted),
{
    match pending {
        Pending::Draw => if emitted {
            respond_success()
        } else {
            respond_error(500, "Failed to emit draw event")
        },
        Pending::Clear => if emitted {
            respond_success()
        } else {
            respond_error(500, "Failed to emit clear event")
        },
        Pending::Removed(id) => if emitted {
            let mut message = String::from_str("Element '");
            message.append(id.as_str());
            message.append("' removed");
            respond_success_message(message.as_str())
        } else {
            respond_error(500, "Failed to emit remove event")
        },
        Pending::Updated(id) => if emitted {
            let mut message = String::from_str("Element '");
            message.append(id.as_str());
            message.append("' updated");
            respond_success_message(message.as_str())
        } else {
            respond_error(500, "Failed to emit update event")
        },
    }
}

} // verus!
