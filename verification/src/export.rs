//! Export: the document as SVG markup, as a JSON snapshot or as a data URL.

use vstd::prelude::*;
use vstd::string::StringExecFns;

use crate::clock::now_rfc3339;
use crate::encoding::{base64_standard, data_url, to_data_url};
use crate::json::{empty_array, member_views, or_null, or_null_copy, Json, JsonView, Number};
use crate::query::ExportQuery;
use crate::response::{
    entry, error_record, json_response, object, respond_error, respond_json, text, Body, BodyView,
    Response, ResponseView,
};
use crate::store::{CanvasData, CanvasView};
use crate::svg::{document, generate_svg, Measures};
use crate::text::same_text;

verus! {

/// The JSON snapshot of a document, taken at `now`.
pub open spec fn snapshot_record(canvas: CanvasView, now: Seq<char>) -> JsonView {
    JsonView::Object(
        seq![
            ("elements"@, canvas.elements_or_empty()),
            ("appState"@, or_null(canvas.app_state)),
            ("files"@, or_null(canvas.files)),
            ("exported_at"@, JsonView::Text(now)),
            ("format"@, JsonView::Text("excalidraw"@)),
        ],
    )
}

/// The record that carries a data URL, made at `now`.
pub open spec fn data_url_record(url: Seq<char>, width: u32, height: u32, now: Seq<char>) -> JsonView {
    JsonView::Object(
        seq![
            ("dataURL"@, JsonView::Text(url)),
            ("width"@, JsonView::Number(Number::PosInt(width as u64))),
            ("height"@, JsonView::Number(Number::PosInt(height as u64))),
            ("format"@, JsonView::Text("svg"@)),
            ("exported_at"@, JsonView::Text(now)),
        ],
    )
}

/// What is said of a format that nothing here knows.
pub open spec fn unsupported_message(format: Seq<char>) -> Seq<char> {
    "Unsupported format: "@ + format
        + ". Supported formats: svg, json, toDataURL, png, jpeg, webp"@
}

/// The body that answers a request for a raster format.
pub open spec fn not_implemented_text(format: Seq<char>) -> Seq<char> {
    "{\"error\": \"Format '"@ + format + "' not yet implemented. Use 'svg' or 'json' instead.\"}"@
}

/// Whether the format names a raster encoding, which is known but not made.
pub open spec fn is_raster(format: Seq<char>) -> bool {
    format == "png"@ || format == "jpeg"@ || format == "webp"@
}

/// The record that carries the SVG document of an element list as a data
/// URL.
pub open spec fn svg_data_url_record(
    elements: JsonView,
    measures: Seq<Option<Measures<String>>>,
    width: u32,
    height: u32,
    now: Seq<char>,
) -> JsonView {
    let svg = document(elements, measures, width, height);
    data_url_record(data_url(base64_standard(vstd::utf8::encode_utf8(svg))), width, height, now)
}

/// The answer to an export request made at `now`, given for each item of the
/// element list, at the same position, the decimal texts of its quantities.
pub open spec fn export_response(
    canvas: CanvasView,
    format: Seq<char>,
    width: u32,
    height: u32,
    measures: Seq<Option<Measures<String>>>,
    now: Seq<char>,
) -> ResponseView {
    let svg = document(canvas.elements_or_empty(), measures, width, height);
    if format == "svg"@ {
        ResponseView {
            status: 200,
            content_type: "image/svg+xml"@,
            content_disposition: Some("inline; filename=\"canvas.svg\""@),
            body: BodyView::Text(svg),
        }
    } else if format == "json"@ {
        ResponseView {
            status: 200,
            content_type: "application/json"@,
            content_disposition: Some("attachment; filename=\"canvas.excalidraw\""@),
            body: BodyView::Json(snapshot_record(canvas, now)),
        }
    } else if format == "toDataURL"@ {
        json_response(
            200,
            svg_data_url_record(canvas.elements_or_empty(), measures, width, height, now),
        )
    } else if is_raster(format) {
        ResponseView {
            status: 501,
            content_type: "application/json"@,
            content_disposition: None,
            body: BodyView::Text(not_implemented_text(format)),
        }
    } else {
        json_response(400, error_record(unsupported_message(format)))
    }
}

/// The JSON snapshot of a document: its elements (an empty list where it has
/// none), its view state and files (null where it has none), the time of the
/// export and the format tag.
pub fn to_json_snapshot(canvas: &CanvasData, now: &str) -> (record: Json)
    ensures
        record@ == snapshot_record(canvas@, now@),
{
    let elements = match &canvas.elements {
        Some(elements) => elements.clone(),
        None => empty_array(),
    };
    let mut members: Vec<(String, Json)> = Vec::new();
    members.push(entry("elements", elements));
    members.push(entry("appState", or_null_copy(&canvas.app_state)));
    members.push(entry("files", or_null_copy(&canvas.files)));
    members.push(entry("exported_at", text(now)));
    members.push(entry("format", text("excalidraw")));
    assert(member_views(members@) =~= snapshot_record(canvas@, now@)->Object_0);
    object(members)
}

/// The record that carries a data URL with the size of the canvas, the
/// format tag and the time of the export.
pub fn data_url_snapshot(url: &str, width: u32, height: u32, now: &str) -> (record: Json)
    ensures
        record@ == data_url_record(url@, width, height, now@),
{
    let mut members: Vec<(String, Json)> = Vec::new();
    members.push(entry("dataURL", text(url)));
    members.push(entry("width", Json::Number(Number::PosInt(width as u64))));
    members.push(entry("height", Json::Number(Number::PosInt(height as u64))));
    members.push(entry("format", text("svg")));
    members.push(entry("exported_at", text(now)));
    assert(member_views(members@) =~= data_url_record(url@, width, height, now@)->Object_0);
    object(members)
}

/// The SVG document of an element list as a data URL, in a record with the
/// size of the canvas, the format tag and the time of the export.
pub fn to_data_url_snapshot(
    elements: &Json,
    measures: &Vec<Option<Measures<String>>>,
    width: u32,
    height: u32,
    now: &str,
) -> (record: Json)
    ensures
        record@ == svg_data_url_record(elements@, measures@, width, height, now@),
{
    let svg = generate_svg(elements, measures, width, height);
    let url = to_data_url(svg.as_str());
    data_url_snapshot(url.as_str(), width, height, now)
}

/// The answer to an export request made at `now`.
///
/// `svg` gives the markup inline, `json` the snapshot as an attachment and
/// `toDataURL` a record with the data URL of the markup. The raster formats
/// `png`, `jpeg` and `webp` are answered with 501, any other format with 400.
pub fn export_canvas_at(
    canvas: &CanvasData,
    params: &ExportQuery,
    measures: &Vec<Option<Measures<String>>>,
    now: &str,
) -> (response: Response)
    ensures
        response@ == export_response(
            canvas@,
            params.format@,
            params.width,
            params.height,
            measures@,
            now@,
        ),
{
    let fallback = empty_array();
    let elements = match &canvas.elements {
        Some(elements) => elements,
        None => &fallback,
    };
    let format = params.format.as_str();
    if same_text(format, "svg") {
        let svg = generate_svg(elements, measures, params.width, params.height);
        Response {
            status: 200,
            content_type: String::from_str("image/svg+xml"),
            content_disposition: Some(String::from_str("inline; filename=\"canvas.svg\"")),
            body: Body::Text(svg),
        }
    } else if same_text(format, "json") {
        Response {
            status: 200,
            content_type: String::from_str("application/json"),
            content_disposition: Some(
                String::from_str("attachment; filename=\"canvas.excalidraw\""),
            ),
            body: Body::Json(to_json_snapshot(canvas, now)),
        }
    } else if same_text(format, "toDataURL") {
        respond_json(
            200,
            to_data_url_snapshot(elements, measures, params.width, params.height, now),
        )
    } else if same_text(format, "png") || same_text(format, "jpeg") || same_text(format, "webp") {
        let mut placeholder = String::from_str("{\"error\": \"Format '");
        placeholder.append(format);
        placeholder.append("' not yet implemented. Use 'svg' or 'json' instead.\"}");
        Response {
            status: 501,
            content_type: String::from_str("application/json"),
            content_disposition: None,
            body: Body::Text(placeholder),
        }
    } else {
        let mut message = String::from_str("Unsupported format: ");
        message.append(format);
        message.append(". Supported formats: svg, json, toDataURL, png, jpeg, webp");
        respond_error(400, message.as_str())
    }
}

/// The answer to an export request made now. It is what
/// [`export_canvas_at`] gives for the time that the clock shows.
pub fn export_canvas(canvas: &CanvasData, params: &ExportQuery, measures: &Vec<Option<Measures<String>>>) -> (response:
    Response)
    ensures
        exists|now: Seq<char>|
            response@ == export_response(
                canvas@,
                params.format@,
                params.width,
                params.height,
                measures@,
                now,
            ),
{
    let now = now_rfc3339();
    export_canvas_at(canvas, params, measures, now.as_str())
}

} // verus!
