//! The canvas store: the one document, and what each mutation makes of it.
//!
//! Every function here is pure state. The time of a mutation is an argument;
//! exclusive access is the `&mut` that a mutation takes.

use vstd::prelude::*;

use crate::json::{empty_array, lemma_array_view, optional_view, views, Json, JsonView};

verus! {

/// The document: the elements of the canvas, its view state, its embedded
/// files, and the time of the last mutation.
#[derive(Debug, PartialEq, Eq)]
pub struct CanvasData {
    pub elements: Option<Json>,
    pub app_state: Option<Json>,
    pub files: Option<Json>,
    pub updated_at: String,
}

/// What a [`CanvasData`] holds.
pub struct CanvasView {
    pub elements: Option<JsonView>,
    pub app_state: Option<JsonView>,
    pub files: Option<JsonView>,
    pub updated_at: Seq<char>,
}

/// The fields that a caller sends to be written, and the shape of the
/// notification that tells of a change.
#[derive(Debug, PartialEq, Eq)]
pub struct DrawPayload {
    pub elements: Option<Json>,
    pub app_state: Option<Json>,
    pub files: Option<Json>,
}

/// What a [`DrawPayload`] holds.
pub struct PayloadView {
    pub elements: Option<JsonView>,
    pub app_state: Option<JsonView>,
    pub files: Option<JsonView>,
}

/// The record that replaces an element.
#[derive(Debug, PartialEq, Eq)]
pub struct UpdateElementPayload {
    pub element: Json,
}

impl View for CanvasData {
    type V = CanvasView;

    open spec fn view(&self) -> CanvasView {
        CanvasView {
            elements: optional_view(self.elements),
            app_state: optional_view(self.app_state),
            files: optional_view(self.files),
            updated_at: self.updated_at@,
        }
    }
}

impl View for DrawPayload {
    type V = PayloadView;

    open spec fn view(&self) -> PayloadView {
        PayloadView {
            elements: optional_view(self.elements),
            app_state: optional_view(self.app_state),
            files: optional_view(self.files),
        }
    }
}

impl View for UpdateElementPayload {
    type V = JsonView;

    open spec fn view(&self) -> JsonView {
        self.element@
    }
}

/// The field after a write: the new value where one was sent, else the old.
pub open spec fn overwritten(old: Option<JsonView>, new: Option<JsonView>) -> Option<JsonView> {
    if new is Some {
        new
    } else {
        old
    }
}

impl CanvasView {
    /// The element list of the document, or an empty list where it has
    /// none.
    pub open spec fn elements_or_empty(self) -> JsonView {
        match self.elements {
            Some(elements) => elements,
            None => JsonView::Array(Seq::empty()),
        }
    }

    /// The elements of the document; none where it has no list.
    pub open spec fn items(self) -> Seq<JsonView> {
        self.elements_or_empty().items()
    }

    /// The document that a server starts with: no field set.
    pub open spec fn initial(now: Seq<char>) -> CanvasView {
        CanvasView { elements: None, app_state: None, files: None, updated_at: now }
    }

    /// The document after the fields of a payload were written at `now`:
    /// each field that the payload holds replaces the document's, the others
    /// stay.
    pub open spec fn written(self, payload: PayloadView, now: Seq<char>) -> CanvasView {
        CanvasView {
            elements: overwritten(self.elements, payload.elements),
            app_state: overwritten(self.app_state, payload.app_state),
            files: overwritten(self.files, payload.files),
            updated_at: now,
        }
    }

    /// The document after it was cleared at `now`: an empty element list, no
    /// view state, no files.
    pub open spec fn cleared(self, now: Seq<char>) -> CanvasView {
        CanvasView {
            elements: Some(JsonView::Array(Seq::empty())),
            app_state: None,
            files: None,
            updated_at: now,
        }
    }

    /// The document after its element list was replaced at `now`.
    pub open spec fn with_elements(self, items: Seq<JsonView>, now: Seq<char>) -> CanvasView {
        CanvasView { elements: Some(JsonView::Array(items)), updated_at: now, ..self }
    }
}

/// A copy of an optional value.
pub fn clone_optional(value: &Option<Json>) -> (copy: Option<Json>)
    ensures
        optional_view(copy) == optional_view(*value),
{
    match value {
        Some(json) => Some(json.clone()),
        None => None,
    }
}

impl Clone for DrawPayload {
    /// A copy that holds the same fields.
    fn clone(&self) -> (copy: DrawPayload)
        ensures
            copy@ == self@,
    {
        DrawPayload {
            elements: clone_optional(&self.elements),
            app_state: clone_optional(&self.app_state),
            files: clone_optional(&self.files),
        }
    }
}

impl Clone for CanvasData {
    /// A copy that holds the same document.
    fn clone(&self) -> (copy: CanvasData)
        ensures
            copy@ == self@,
    {
        CanvasData {
            elements: clone_optional(&self.elements),
            app_state: clone_optional(&self.app_state),
            files: clone_optional(&self.files),
            updated_at: self.updated_at.clone(),
        }
    }
}

impl CanvasData {
    /// The document that a server starts with.
    pub fn new(now: String) -> (canvas: CanvasData)
        ensures
            canvas@ == CanvasView::initial(now@),
    {
        CanvasData { elements: None, app_state: None, files: None, updated_at: now }
    }

    /// A deep copy of the document.
    pub fn get_snapshot(&self) -> (snapshot: CanvasData)
        ensures
            snapshot@ == self@,
    {
        self.clone()
    }

    /// Writes the fields that the payload holds, leaves the others, and sets
    /// the time of the last mutation to `now`, which it returns.
    pub fn replace_fields(&mut self, payload: &DrawPayload, now: String) -> (stamp: String)
        ensures
            final(self)@ == old(self)@.written(payload@, now@),
            stamp@ == now@,
    {
        if let Some(elements) = &payload.elements {
            self.elements = Some(elements.clone());
        }
        if let Some(app_state) = &payload.app_state {
            self.app_state = Some(app_state.clone());
        }
        if let Some(files) = &payload.files {
            self.files = Some(files.clone());
        }
        let stamp = now.clone();
        self.updated_at = now;
        stamp
    }

    /// Empties the document: an empty element list, no view state, no files.
    pub fn clear(&mut self, now: String)
        ensures
            final(self)@ == old(self)@.cleared(now@),
    {
        self.elements = Some(empty_array());
        self.app_state = None;
        self.files = None;
        self.updated_at = now;
    }

    /// Replaces the whole element list and leaves the other fields.
    pub fn replace_elements(&mut self, elements: Vec<Json>, now: String)
        ensures
            final(self)@ == old(self)@.with_elements(views(elements@), now@),
    {
        proof {
            lemma_array_view(elements);
        }
        self.elements = Some(Json::Array(elements));
        self.updated_at = now;
    }
}

} // verus!
