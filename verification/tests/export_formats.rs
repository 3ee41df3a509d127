use canvas_service::encoding::{data_url_of, to_data_url};
use canvas_service::export::{data_url_snapshot, export_canvas, export_canvas_at, to_json_snapshot};
use canvas_service::json::{Json, Number};
use canvas_service::query::{default_format, default_height, default_width, ExportQuery};
use canvas_service::response::{Body, Response};
use canvas_service::store::CanvasData;
use canvas_service::svg::{canvas_scalars, Measures, Scalar};

fn record(members: Vec<(&str, Json)>) -> Json {
    Json::Object(members.into_iter().map(|(key, value)| (key.to_string(), value)).collect())
}

fn word(content: &str) -> Json {
    Json::Text(content.to_string())
}

fn whole(n: u64) -> Json {
    Json::Number(Number::PosInt(n))
}

fn as_real(n: &Number) -> f64 {
    match n {
        Number::PosInt(u) => *u as f64,
        Number::NegInt(i) => *i as f64,
        Number::Float(bits) => f64::from_bits(*bits),
    }
}

fn render(scalar: &Scalar) -> String {
    let value = match scalar {
        Scalar::Plain(n) => as_real(n),
        Scalar::Half(n) => as_real(n) / 2.0,
        Scalar::Sum(a, b) => as_real(a) + as_real(b),
        Scalar::SumHalf(a, b) => as_real(a) + as_real(b) / 2.0,
    };
    format!("{}", value)
}

fn measures_of(canvas: &CanvasData) -> Vec<Option<Measures<String>>> {
    let scalars = match &canvas.elements {
        Some(elements) => canvas_scalars(elements),
        None => Vec::new(),
    };
    scalars
        .iter()
        .map(|entry| entry.as_ref().map(|s| Measures {
            x: render(&s.x),
            y: render(&s.y),
            width: render(&s.width),
            height: render(&s.height),
            stroke_width: render(&s.stroke_width),
            font_size: render(&s.font_size),
            center_x: render(&s.center_x),
            center_y: render(&s.center_y),
            radius_x: render(&s.radius_x),
            radius_y: render(&s.radius_y),
            end_x: render(&s.end_x),
            end_y: render(&s.end_y),
        }))
        .collect()
}

fn rectangle() -> Json {
    record(vec![
        ("id", word("r1")),
        ("type", word("rectangle")),
        ("x", whole(10)),
        ("y", whole(10)),
        ("width", whole(100)),
        ("height", whole(50)),
        ("strokeColor", word("#000000")),
        ("backgroundColor", word("transparent")),
        ("strokeWidth", whole(2)),
    ])
}

fn canvas_with(elements: Option<Json>) -> CanvasData {
    CanvasData {
        elements,
        app_state: Some(record(vec![("zoom", whole(1))])),
        files: None,
        updated_at: "2024-05-01T10:00:00+00:00".to_string(),
    }
}

fn query(format: &str) -> ExportQuery {
    ExportQuery { format: format.to_string(), width: 800, height: 600 }
}

fn export(canvas: &CanvasData, format: &str) -> Response {
    export_canvas_at(canvas, &query(format), &measures_of(canvas), "2024-05-02T00:00:00+00:00")
}

const HEAD: &str = "<?xml version=\"1.0\" encoding=\"UTF-8\"?>\n<svg width=\"800\" height=\"600\" viewBox=\"0 0 800 600\" xmlns=\"http://www.w3.org/2000/svg\">\n  <rect width=\"100%\" height=\"100%\" fill=\"white\"/>\n  ";

const RECT: &str = "<rect x=\"10\" y=\"10\" width=\"100\" height=\"50\" fill=\"transparent\" stroke=\"#000000\" stroke-width=\"2\"/>";

#[test]
fn export_defaults() {
    assert_eq!(default_format(), "svg");
    assert_eq!(default_width(), 800);
    assert_eq!(default_height(), 600);
    let query = ExportQuery::default();
    assert_eq!(query.format, "svg");
    assert_eq!(query.width, 800);
    assert_eq!(query.height, 600);
}

#[test]
fn export_svg_of_one_rectangle() {
    let canvas = canvas_with(Some(Json::Array(vec![rectangle()])));
    let response = export(&canvas, "svg");
    assert_eq!(response.status, 200);
    assert_eq!(response.content_type, "image/svg+xml");
    assert_eq!(response.content_disposition, Some("inline; filename=\"canvas.svg\"".to_string()));
    let svg = match response.body {
        Body::Text(svg) => svg,
        Body::Json(_) => panic!("markup is text"),
    };
    assert_eq!(svg, format!("{}{}\n</svg>", HEAD, RECT));
    assert_eq!(svg.matches("<rect x=").count(), 1);
    assert_eq!(svg.matches("<rect width=\"100%\" height=\"100%\" fill=\"white\"/>").count(), 1);
}

#[test]
fn export_svg_of_a_document_without_elements() {
    let response = export(&canvas_with(None), "svg");
    assert_eq!(response.status, 200);
    assert_eq!(response.body, Body::Text(format!("{}\n</svg>", HEAD)));
}

#[test]
fn export_svg_uses_the_size_of_the_query() {
    let canvas = canvas_with(Some(Json::Array(vec![])));
    let query = ExportQuery { format: "svg".to_string(), width: 320, height: 200 };
    let response = export_canvas_at(&canvas, &query, &measures_of(&canvas), "now");
    match response.body {
        Body::Text(svg) => {
            assert!(svg.contains("<svg width=\"320\" height=\"200\" viewBox=\"0 0 320 200\""))
        }
        Body::Json(_) => panic!("markup is text"),
    }
}

#[test]
fn export_json_snapshot() {
    let canvas = canvas_with(Some(Json::Array(vec![rectangle()])));
    let response = export(&canvas, "json");
    assert_eq!(response.status, 200);
    assert_eq!(response.content_type, "application/json");
    assert_eq!(
        response.content_disposition,
        Some("attachment; filename=\"canvas.excalidraw\"".to_string())
    );
    assert_eq!(
        response.body,
        Body::Json(record(vec![
            ("elements", Json::Array(vec![rectangle()])),
            ("appState", record(vec![("zoom", whole(1))])),
            ("files", Json::Null),
            ("exported_at", word("2024-05-02T00:00:00+00:00")),
            ("format", word("excalidraw")),
        ]))
    );
}

#[test]
fn json_snapshot_of_an_empty_document() {
    let canvas = CanvasData::new("t0".to_string());
    assert_eq!(
        to_json_snapshot(&canvas, "t1"),
        record(vec![
            ("elements", Json::Array(vec![])),
            ("appState", Json::Null),
            ("files", Json::Null),
            ("exported_at", word("t1")),
            ("format", word("excalidraw")),
        ])
    );
}

#[test]
fn json_snapshot_keeps_elements_that_are_no_array() {
    let mut canvas = CanvasData::new("t0".to_string());
    canvas.elements = Some(word("odd"));
    canvas.files = Some(record(vec![("f", word("x"))]));
    assert_eq!(
        to_json_snapshot(&canvas, "t1"),
        record(vec![
            ("elements", word("odd")),
            ("appState", Json::Null),
            ("files", record(vec![("f", word("x"))])),
            ("exported_at", word("t1")),
            ("format", word("excalidraw")),
        ])
    );
}

#[test]
fn data_url_has_the_prefix_and_the_base64_text() {
    assert_eq!(to_data_url("<svg/>"), "data:image/svg+xml;base64,PHN2Zy8+");
    assert_eq!(to_data_url(""), "data:image/svg+xml;base64,");
    assert_eq!(to_data_url("a"), "data:image/svg+xml;base64,YQ==");
    assert_eq!(to_data_url("ab"), "data:image/svg+xml;base64,YWI=");
    assert_eq!(to_data_url("abc"), "data:image/svg+xml;base64,YWJj");
    assert_eq!(to_data_url("grüße"), "data:image/svg+xml;base64,Z3LDvMOfZQ==");
}

#[test]
fn data_url_of_an_encoded_text() {
    assert_eq!(data_url_of("PHN2Zy8+"), "data:image/svg+xml;base64,PHN2Zy8+");
    assert_eq!(data_url_of(""), "data:image/svg+xml;base64,");
}

#[test]
fn data_url_record() {
    assert_eq!(
        data_url_snapshot("data:x", 800, 600, "t1"),
        record(vec![
            ("dataURL", word("data:x")),
            ("width", whole(800)),
            ("height", whole(600)),
            ("format", word("svg")),
            ("exported_at", word("t1")),
        ])
    );
}

#[test]
fn export_to_data_url() {
    let canvas = canvas_with(Some(Json::Array(vec![rectangle()])));
    let response = export(&canvas, "toDataURL");
    assert_eq!(response.status, 200);
    assert_eq!(response.content_type, "application/json");
    assert_eq!(response.content_disposition, None);
    assert_eq!(
        response.body,
        Body::Json(record(vec![
            ("dataURL", word("data:image/svg+xml;base64,PD94bWwgdmVyc2lvbj0iMS4wIiBlbmNvZGluZz0iVVRGLTgiPz4KPHN2ZyB3aWR0aD0iODAwIiBoZWlnaHQ9IjYwMCIgdmlld0JveD0iMCAwIDgwMCA2MDAiIHhtbG5zPSJodHRwOi8vd3d3LnczLm9yZy8yMDAwL3N2ZyI+CiAgPHJlY3Qgd2lkdGg9IjEwMCUiIGhlaWdodD0iMTAwJSIgZmlsbD0id2hpdGUiLz4KICA8cmVjdCB4PSIxMCIgeT0iMTAiIHdpZHRoPSIxMDAiIGhlaWdodD0iNTAiIGZpbGw9InRyYW5zcGFyZW50IiBzdHJva2U9IiMwMDAwMDAiIHN0cm9rZS13aWR0aD0iMiIvPgo8L3N2Zz4=")),
            ("width", whole(800)),
            ("height", whole(600)),
            ("format", word("svg")),
            ("exported_at", word("2024-05-02T00:00:00+00:00")),
        ]))
    );
}

#[test]
fn export_to_data_url_of_an_empty_canvas() {
    let response = export(&canvas_with(None), "toDataURL");
    match response.body {
        Body::Json(body) => assert_eq!(
            body.get("dataURL"),
            Some(&word("data:image/svg+xml;base64,PD94bWwgdmVyc2lvbj0iMS4wIiBlbmNvZGluZz0iVVRGLTgiPz4KPHN2ZyB3aWR0aD0iODAwIiBoZWlnaHQ9IjYwMCIgdmlld0JveD0iMCAwIDgwMCA2MDAiIHhtbG5zPSJodHRwOi8vd3d3LnczLm9yZy8yMDAwL3N2ZyI+CiAgPHJlY3Qgd2lkdGg9IjEwMCUiIGhlaWdodD0iMTAwJSIgZmlsbD0id2hpdGUiLz4KICAKPC9zdmc+"))
        ),
        Body::Text(_) => panic!("the record is structured"),
    }
}

#[test]
fn export_of_a_raster_format_is_not_implemented() {
    let canvas = canvas_with(Some(Json::Array(vec![rectangle()])));
    for format in ["png", "jpeg", "webp"] {
        let response = export(&canvas, format);
        assert_eq!(response.status, 501);
        assert_ne!(response.status, 400);
        assert_eq!(response.content_type, "application/json");
        assert_eq!(response.content_disposition, None);
        assert_eq!(
            response.body,
            Body::Text(format!(
                "{{\"error\": \"Format '{}' not yet implemented. Use 'svg' or 'json' instead.\"}}",
                format
            ))
        );
    }
}

#[test]
fn export_of_an_unknown_format_is_refused() {
    let canvas = canvas_with(Some(Json::Array(vec![rectangle()])));
    let response = export(&canvas, "bogus");
    assert_eq!(response.status, 400);
    assert_eq!(response.content_type, "application/json");
    assert_eq!(response.content_disposition, None);
    assert_eq!(
        response.body,
        Body::Json(record(vec![(
            "error",
            word("Unsupported format: bogus. Supported formats: svg, json, toDataURL, png, jpeg, webp")
        )]))
    );
}

#[test]
fn export_format_is_matched_exactly() {
    let canvas = canvas_with(None);
    for format in ["", "SVG", "Json", "todataurl", "PNG", "jpg", "svg ", " svg", "gif"] {
        let response = export(&canvas, format);
        assert_eq!(response.status, 400, "format {:?}", format);
        let message = match response.body {
            Body::Json(body) => body.get("error").and_then(|m| m.as_str()).unwrap().to_string(),
            Body::Text(_) => panic!("the error is structured"),
        };
        assert_eq!(
            message,
            format!(
                "Unsupported format: {}. Supported formats: svg, json, toDataURL, png, jpeg, webp",
                format
            )
        );
    }
}

#[test]
fn export_does_not_need_elements_to_be_an_array() {
    let canvas = canvas_with(Some(record(vec![("not", word("a list"))])));
    let response = export(&canvas, "svg");
    assert_eq!(response.body, Body::Text(format!("{}\n</svg>", HEAD)));
}

#[test]
fn export_now_stamps_the_snapshot_with_the_clock() {
    let canvas = canvas_with(Some(Json::Array(vec![rectangle()])));
    let response = export_canvas(&canvas, &query("json"), &measures_of(&canvas));
    assert_eq!(response.status, 200);
    let body = match response.body {
        Body::Json(body) => body,
        Body::Text(_) => panic!("the snapshot is structured"),
    };
    assert_eq!(body.get("elements"), Some(&Json::Array(vec![rectangle()])));
    assert_eq!(body.get("format"), Some(&word("excalidraw")));
    let stamp = body.get("exported_at").and_then(|s| s.as_str()).unwrap();
    assert!(stamp.len() >= 20);
    assert_eq!(&stamp[4..5], "-");
    assert_eq!(&stamp[10..11], "T");
    assert!(stamp.ends_with("+00:00"));
    assert!(stamp[0..4].parse::<u32>().unwrap() >= 2024);
}

#[test]
fn export_now_of_the_other_formats() {
    let canvas = canvas_with(Some(Json::Array(vec![rectangle()])));
    let svg = export_canvas(&canvas, &query("svg"), &measures_of(&canvas));
    assert_eq!(svg, export(&canvas, "svg"));
    let png = export_canvas(&canvas, &query("png"), &measures_of(&canvas));
    assert_eq!(png, export(&canvas, "png"));
    let bogus = export_canvas(&canvas, &query("bogus"), &measures_of(&canvas));
    assert_eq!(bogus, export(&canvas, "bogus"));
}

#[test]
fn data_url_snapshot_of_an_element_list() {
    let canvas = canvas_with(Some(Json::Array(vec![rectangle()])));
    let elements = Json::Array(vec![rectangle()]);
    let record = canvas_service::export::to_data_url_snapshot(
        &elements,
        &measures_of(&canvas),
        800,
        600,
        "t1",
    );
    assert_eq!(record.get("dataURL"), Some(&word("data:image/svg+xml;base64,PD94bWwgdmVyc2lvbj0iMS4wIiBlbmNvZGluZz0iVVRGLTgiPz4KPHN2ZyB3aWR0aD0iODAwIiBoZWlnaHQ9IjYwMCIgdmlld0JveD0iMCAwIDgwMCA2MDAiIHhtbG5zPSJodHRwOi8vd3d3LnczLm9yZy8yMDAwL3N2ZyI+CiAgPHJlY3Qgd2lkdGg9IjEwMCUiIGhlaWdodD0iMTAwJSIgZmlsbD0id2hpdGUiLz4KICA8cmVjdCB4PSIxMCIgeT0iMTAiIHdpZHRoPSIxMDAiIGhlaWdodD0iNTAiIGZpbGw9InRyYW5zcGFyZW50IiBzdHJva2U9IiMwMDAwMDAiIHN0cm9rZS13aWR0aD0iMiIvPgo8L3N2Zz4=")));
    assert_eq!(record.get("width"), Some(&whole(800)));
    assert_eq!(record.get("height"), Some(&whole(600)));
    assert_eq!(record.get("format"), Some(&word("svg")));
    assert_eq!(record.get("exported_at"), Some(&word("t1")));
}
