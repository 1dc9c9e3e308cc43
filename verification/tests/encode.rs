use heliotrope::FieldValue;
use heliotrope::SolrDocument;
use heliotrope::SolrError;
use heliotrope::SolrQueryResponse;
use heliotrope::SolrUpdateResponse;
use heliotrope::client::delete_body;
use heliotrope::client::interpret_query_reply;
use heliotrope::client::interpret_update_reply;
use heliotrope::client::update_body;

#[test]
fn new_document_is_empty() {
    let doc = SolrDocument::new();
    assert_eq!(doc.fields.len(), 0);
}

#[test]
fn add_field_keeps_order_and_duplicates() {
    let mut doc = SolrDocument::new();
    doc.add_field("tag", FieldValue::Text("a".to_string()));
    doc.add_field("tag", FieldValue::Text("b".to_string()));
    assert_eq!(doc.fields.len(), 2);
    assert_eq!(doc.fields[0].name, "tag");
    assert_eq!(doc.fields[0].value, FieldValue::Text("a".to_string()));
    assert_eq!(doc.fields[1].name, "tag");
    assert_eq!(doc.fields[1].value, FieldValue::Text("b".to_string()));
}

#[test]
fn update_body_prints_the_add_envelope() {
    let mut doc = SolrDocument::new();
    doc.add_field("city", FieldValue::Text("London".to_string()));
    doc.add_field("id", FieldValue::I64(1));
    let body = update_body(&doc);
    assert_eq!(body, r#"[{"city":"London","id":1}]"#);
}

#[test]
fn delete_body_prints_the_delete_envelope() {
    let body = delete_body("city:NY");
    assert_eq!(body, r#"{"delete":{"query":"city:NY"}}"#);
}

#[test]
fn document_round_trip_through_query_response() {
    let mut doc = SolrDocument::new();
    doc.add_field("big", FieldValue::U64(18446744073709551615));
    doc.add_field("city", FieldValue::Text("London".to_string()));
    doc.add_field("flag", FieldValue::Boolean(false));
    doc.add_field("id", FieldValue::I64(-7));
    doc.add_field("nothing", FieldValue::Null);
    doc.add_field("pi", FieldValue::F64("1.5".to_string()));
    let docs_json = update_body(&doc);
    let envelope = format!(
        r#"{{"responseHeader":{{"status":0,"QTime":1}},"response":{{"numFound":1,"start":0,"docs":{}}}}}"#,
        docs_json
    );
    let r = SolrQueryResponse::from_json_str(&envelope).unwrap();
    assert_eq!(r.items.len(), 1);
    assert_eq!(r.items[0], doc);
}

#[test]
fn success_reply_is_decoded_as_update() {
    let r = interpret_update_reply(200, r#"{"responseHeader":{"status":0,"QTime":3}}"#);
    assert_eq!(r, Ok(SolrUpdateResponse { status: 0, time: 3 }));
}

#[test]
fn failure_reply_is_decoded_as_error_envelope() {
    let r = interpret_update_reply(400, r#"{"error":{"msg":"bad request","code":400}}"#);
    let e = r.unwrap_err();
    assert_eq!(e.status, 400);
    assert_eq!(e.message, "bad request");
}

#[test]
fn failure_reply_without_envelope_reports_decoding() {
    let r = interpret_query_reply(500, "oops");
    let e = r.unwrap_err();
    assert_eq!(e.status, 0);
    assert_eq!(e.time, 0);
    assert!(e.message.starts_with("SolrError JSON parsing error: "));
}

#[test]
fn success_reply_is_decoded_as_query() {
    let text = r#"{"responseHeader":{"status":0,"QTime":1},"response":{"numFound":0,"start":0,"docs":[]}}"#;
    let r = interpret_query_reply(204, text).unwrap();
    assert_eq!(r.total, 0);
    assert_eq!(r.items.len(), 0);
}

#[test]
fn error_struct_round_trip_stays_equal() {
    let text = r#"{"error":{"msg":"boom","code":503}}"#;
    let a = SolrError::from_json_str(text);
    let b = SolrError::from_json_str(text);
    assert_eq!(a, b);
}
