use canvas_service::json::{Json, Number};
use canvas_service::store::{clone_optional, CanvasData, DrawPayload};

fn record(members: Vec<(&str, Json)>) -> Json {
    Json::Object(members.into_iter().map(|(key, value)| (key.to_string(), value)).collect())
}

fn word(content: &str) -> Json {
    Json::Text(content.to_string())
}

fn element(id: &str) -> Json {
    record(vec![("id", word(id)), ("type", word("rectangle"))])
}

fn payload(elements: Option<Json>, app_state: Option<Json>, files: Option<Json>) -> DrawPayload {
    DrawPayload { elements, app_state, files }
}

#[test]
fn new_document_holds_nothing_but_its_time() {
    let canvas = CanvasData::new("2024-01-01T00:00:00+00:00".to_string());
    assert_eq!(canvas.elements, None);
    assert_eq!(canvas.app_state, None);
    assert_eq!(canvas.files, None);
    assert_eq!(canvas.updated_at, "2024-01-01T00:00:00+00:00");
}

#[test]
fn replace_fields_writes_what_the_payload_holds() {
    let mut canvas = CanvasData::new("t0".to_string());
    let elements = Json::Array(vec![element("a")]);
    let state = record(vec![("zoom", Json::Number(Number::PosInt(2)))]);
    let files = record(vec![("f1", word("data"))]);
    let stamp = canvas.replace_fields(
        &payload(Some(elements.clone()), Some(state.clone()), Some(files.clone())),
        "t1".to_string(),
    );
    assert_eq!(stamp, "t1");
    assert_eq!(
        canvas,
        CanvasData {
            elements: Some(elements),
            app_state: Some(state),
            files: Some(files),
            updated_at: "t1".to_string(),
        }
    );
}

#[test]
fn replace_fields_leaves_the_fields_that_the_payload_omits() {
    let elements = Json::Array(vec![element("a")]);
    let state = record(vec![("zoom", Json::Number(Number::PosInt(2)))]);
    let files = record(vec![("f1", word("data"))]);
    let mut canvas = CanvasData {
        elements: Some(elements.clone()),
        app_state: Some(state.clone()),
        files: Some(files.clone()),
        updated_at: "t0".to_string(),
    };
    canvas.replace_fields(&payload(None, None, None), "t1".to_string());
    assert_eq!(canvas.elements, Some(elements.clone()));
    assert_eq!(canvas.app_state, Some(state.clone()));
    assert_eq!(canvas.files, Some(files.clone()));
    assert_eq!(canvas.updated_at, "t1");

    let other = record(vec![("zoom", Json::Number(Number::PosInt(3)))]);
    canvas.replace_fields(&payload(None, Some(other.clone()), None), "t2".to_string());
    assert_eq!(canvas.elements, Some(elements));
    assert_eq!(canvas.app_state, Some(other));
    assert_eq!(canvas.files, Some(files));
    assert_eq!(canvas.updated_at, "t2");
}

#[test]
fn replace_fields_can_write_a_null() {
    let mut canvas = CanvasData::new("t0".to_string());
    canvas.replace_fields(&payload(Some(Json::Array(vec![])), None, None), "t1".to_string());
    canvas.replace_fields(&payload(Some(Json::Null), None, None), "t2".to_string());
    assert_eq!(canvas.elements, Some(Json::Null));
}

#[test]
fn last_write_of_each_field_wins() {
    let mut canvas = CanvasData::new("t0".to_string());
    canvas.replace_fields(&payload(Some(word("e1")), Some(word("s1")), None), "t1".to_string());
    canvas.replace_fields(&payload(None, Some(word("s2")), Some(word("f2"))), "t2".to_string());
    canvas.replace_fields(&payload(Some(word("e3")), None, None), "t3".to_string());
    canvas.replace_fields(&payload(None, None, None), "t4".to_string());
    assert_eq!(
        canvas,
        CanvasData {
            elements: Some(word("e3")),
            app_state: Some(word("s2")),
            files: Some(word("f2")),
            updated_at: "t4".to_string(),
        }
    );
}

#[test]
fn clear_empties_the_document() {
    let mut canvas = CanvasData {
        elements: Some(Json::Array(vec![element("a")])),
        app_state: Some(word("state")),
        files: Some(word("files")),
        updated_at: "t0".to_string(),
    };
    canvas.clear("t1".to_string());
    assert_eq!(
        canvas,
        CanvasData {
            elements: Some(Json::Array(vec![])),
            app_state: None,
            files: None,
            updated_at: "t1".to_string(),
        }
    );
}

#[test]
fn clear_twice_leaves_the_same_shape() {
    let mut canvas = CanvasData::new("t0".to_string());
    canvas.replace_fields(&payload(Some(word("e")), Some(word("s")), Some(word("f"))), "t1".to_string());
    canvas.clear("t2".to_string());
    let once = canvas.clone();
    canvas.clear("t3".to_string());
    assert_eq!(canvas.elements, once.elements);
    assert_eq!(canvas.app_state, once.app_state);
    assert_eq!(canvas.files, once.files);
    assert_eq!(canvas.updated_at, "t3");
}

#[test]
fn write_after_clear_fills_the_named_fields_only() {
    let mut canvas = CanvasData::new("t0".to_string());
    canvas.replace_fields(&payload(Some(word("e")), Some(word("s")), Some(word("f"))), "t1".to_string());
    canvas.clear("t2".to_string());
    canvas.replace_fields(&payload(None, None, Some(word("f3"))), "t3".to_string());
    assert_eq!(canvas.elements, Some(Json::Array(vec![])));
    assert_eq!(canvas.app_state, None);
    assert_eq!(canvas.files, Some(word("f3")));
}

#[test]
fn replace_elements_overwrites_the_list_and_nothing_else() {
    let mut canvas = CanvasData {
        elements: Some(word("anything")),
        app_state: Some(word("state")),
        files: Some(word("files")),
        updated_at: "t0".to_string(),
    };
    canvas.replace_elements(vec![element("a"), element("b")], "t1".to_string());
    assert_eq!(
        canvas,
        CanvasData {
            elements: Some(Json::Array(vec![element("a"), element("b")])),
            app_state: Some(word("state")),
            files: Some(word("files")),
            updated_at: "t1".to_string(),
        }
    );
}

#[test]
fn snapshot_is_a_copy_of_its_own() {
    let mut canvas = CanvasData::new("t0".to_string());
    canvas.replace_fields(&payload(Some(Json::Array(vec![element("a")])), None, Some(word("f"))), "t1".to_string());
    let snapshot = canvas.get_snapshot();
    assert_eq!(snapshot, canvas);
    canvas.clear("t2".to_string());
    assert_eq!(snapshot.elements, Some(Json::Array(vec![element("a")])));
    assert_eq!(snapshot.files, Some(word("f")));
    assert_eq!(snapshot.updated_at, "t1");
    assert_eq!(canvas.updated_at, "t2");
}

#[test]
fn snapshot_does_not_touch_the_document() {
    let mut canvas = CanvasData::new("t0".to_string());
    canvas.replace_fields(&payload(Some(word("e")), None, None), "t1".to_string());
    let before = canvas.clone();
    let _ = canvas.get_snapshot();
    let _ = canvas.get_snapshot();
    assert_eq!(canvas, before);
}

#[test]
fn payload_clone_holds_the_same_fields() {
    let start = payload(Some(Json::Array(vec![element("a")])), None, Some(word("f")));
    assert_eq!(start.clone(), start);
    let nothing = payload(None, None, None);
    assert_eq!(nothing.clone(), nothing);
}

#[test]
fn clone_optional_of_both_cases() {
    assert_eq!(clone_optional(&None), None);
    assert_eq!(clone_optional(&Some(element("a"))), Some(element("a")));
}
