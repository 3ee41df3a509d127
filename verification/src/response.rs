//! What an operation answers: a status, the headers that matter, and a body.

use vstd::prelude::*;
use vstd::string::StringExecFns;

use crate::json::{lemma_object_view, member_views, Json, JsonView};

verus! {

/// The body of a response: a structured value for the caller to serialise,
/// or text that is sent as it is.
#[derive(Debug, PartialEq, Eq)]
pub enum Body {
    Json(Json),
    Text(String),
}

/// What a [`Body`] holds.
pub enum BodyView {
    Json(JsonView),
    Text(Seq<char>),
}

impl View for Body {
    type V = BodyView;

    open spec fn view(&self) -> BodyView {
        match self {
            Body::Json(json) => BodyView::Json(json@),
            Body::Text(text) => BodyView::Text(text@),
        }
    }
}

/// The answer to one request.
#[derive(Debug, PartialEq, Eq)]
pub struct Response {
    pub status: u16,
    pub content_type: String,
    pub content_disposition: Option<String>,
    pub body: Body,
}

/// What a [`Response`] holds.
pub struct ResponseView {
    pub status: u16,
    pub content_type: Seq<char>,
    pub content_disposition: Option<Seq<char>>,
    pub body: BodyView,
}

impl View for Response {
    type V = ResponseView;

    open spec fn view(&self) -> ResponseView {
        ResponseView {
            status: self.status,
            content_type: self.content_type@,
            content_disposition: match self.content_disposition {
                Some(text) => Some(text@),
                None => None,
            },
            body: self.body@,
        }
    }
}

/// A response whose body is a structured value.
pub open spec fn json_response(status: u16, body: JsonView) -> ResponseView {
    ResponseView {
        status,
        content_type: "application/json"@,
        content_disposition: None,
        body: BodyView::Json(body),
    }
}

/// The record `{"success": true}`.
pub open spec fn success_record() -> JsonView {
    JsonView::Object(seq![("success"@, JsonView::Bool(true))])
}

/// The record `{"success": true, "message": ..}`.
pub open spec fn success_message_record(message: Seq<char>) -> JsonView {
    JsonView::Object(
        seq![("success"@, JsonView::Bool(true)), ("message"@, JsonView::Text(message))],
    )
}

/// The record `{"error": ..}`.
pub open spec fn error_record(message: Seq<char>) -> JsonView {
    JsonView::Object(seq![("error"@, JsonView::Text(message))])
}

/// An object with the given members, in their order.
pub fn object(members: Vec<(String, Json)>) -> (json: Json)
    ensures
        json@ == JsonView::Object(member_views(members@)),
{
    proof {
        lemma_object_view(members);
    }
    Json::Object(members)
}

/// One member of an object.
pub fn entry(key: &str, value: Json) -> (member: (String, Json))
    ensures
        member.0@ == key@,
        member.1@ == value@,
{
    (String::from_str(key), value)
}

/// A text value.
pub fn text(content: &str) -> (json: Json)
    ensures
        json@ == JsonView::Text(content@),
{
    Json::Text(String::from_str(content))
}

/// A response with the given status whose body is a structured value.
pub fn respond_json(status: u16, body: Json) -> (response: Response)
    ensures
        response@ == json_response(status, body@),
{
    Response {
        status,
        content_type: String::from_str("application/json"),
        content_disposition: None,
        body: Body::Json(body),
    }
}

/// The response `200 {"success": true}`.
pub fn respond_success() -> (response: Response)
    ensures
        response@ == json_response(200, success_record()),
{
    let mut members: Vec<(String, Json)> = Vec::new();
    members.push(entry("success", Json::Bool(true)));
    assert(member_views(members@) =~= seq![("success"@, JsonView::Bool(true))]);
    respond_json(200, object(members))
}

/// The response `200 {"success": true, "message": ..}`.
pub fn respond_success_message(message: &str) -> (response: Response)
    ensures
        response@ == json_response(200, success_message_record(message@)),
{
    let mut members: Vec<(String, Json)> = Vec::new();
    members.push(entry("success", Json::Bool(true)));
    members.push(entry("message", text(message)));
    assert(member_views(members@) =~= seq![
        ("success"@, JsonView::Bool(true)),
        ("message"@, JsonView::Text(message@)),
    ]);
    respond_json(200, object(members))
}

/// The response with the given status and the body `{"error": ..}`.
pub fn respond_error(status: u16, message: &str) -> (response: Response)
    ensures
        response@ == json_response(status, error_record(message@)),
{
    let mut members: Vec<(String, Json)> = Vec::new();
    members.push(entry("error", text(message)));
    assert(member_views(members@) =~= seq![("error"@, JsonView::Text(message@))]);
    respond_json(status, object(members))
}

} // verus!
