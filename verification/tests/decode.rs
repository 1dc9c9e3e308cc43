use heliotrope::FieldValue;
use heliotrope::HttpResponse;
use heliotrope::SolrError;
use heliotrope::SolrQueryResponse;
use heliotrope::SolrUpdateResponse;

#[test]
fn query_decode_example() {
    let text = r#"{"responseHeader":{"status":0,"QTime":1},"response":{"numFound":57,"start":0,"docs":[{"id":1},{"id":3}]}}"#;
    let r = SolrQueryResponse::from_json_str(text).unwrap();
    assert_eq!(r.status, 0);
    assert_eq!(r.time, 1);
    assert_eq!(r.total, 57);
    assert_eq!(r.start, 0);
    assert_eq!(r.items.len(), 2);
    assert_eq!(r.items[0].fields.len(), 1);
    assert_eq!(r.items[0].fields[0].name, "id");
    assert_eq!(r.items[0].fields[0].value, FieldValue::I64(1));
    assert_eq!(r.items[1].fields[0].value, FieldValue::I64(3));
}

#[test]
fn missing_response_header_is_error() {
    let text = r#"{"response":{"numFound":0,"start":0,"docs":[]}}"#;
    let e = SolrQueryResponse::from_json_str(text).unwrap_err();
    assert_eq!(e.status, 0);
    assert_eq!(e.time, 0);
    assert!(e.message.contains("responseHeader"));
    assert_eq!(
        e.message,
        "SolrQueryResponse JSON parsing error: responseHeader not found"
    );
}

#[test]
fn non_json_is_parse_failure() {
    let e = SolrQueryResponse::from_json_str("not json").unwrap_err();
    assert_eq!(e.status, 0);
    assert_eq!(e.time, 0);
    assert!(e.message.starts_with("SolrQueryResponse JSON parsing error: "));
}

#[test]
fn nested_object_field_decodes_to_null() {
    let text = r#"{"responseHeader":{"status":0,"QTime":2},"response":{"numFound":1,"start":0,"docs":[{"a":{"x":1},"b":2,"c":[1,2]}]}}"#;
    let r = SolrQueryResponse::from_json_str(text).unwrap();
    assert_eq!(r.total, 1);
    let doc = &r.items[0];
    assert_eq!(doc.fields.len(), 3);
    assert_eq!(doc.fields[0].name, "a");
    assert_eq!(doc.fields[0].value, FieldValue::Null);
    assert_eq!(doc.fields[1].name, "b");
    assert_eq!(doc.fields[1].value, FieldValue::I64(2));
    assert_eq!(doc.fields[2].name, "c");
    assert_eq!(doc.fields[2].value, FieldValue::Null);
}

#[test]
fn error_envelope_decodes() {
    let text = r#"{"error":{"msg":"bad request","code":400}}"#;
    let e = SolrError::from_json_str(text).unwrap();
    assert_eq!(e.status, 400);
    assert_eq!(e.time, 0);
    assert_eq!(e.message, "bad request");
}

#[test]
fn decode_twice_yields_equal_results() {
    let text = r#"{"responseHeader":{"status":0,"QTime":1},"response":{"numFound":57,"start":0,"docs":[{"id":1},{"id":3}]}}"#;
    let a = SolrQueryResponse::from_json_str(text);
    let b = SolrQueryResponse::from_json_str(text);
    assert_eq!(a, b);
    let bad = "not json";
    let c = SolrQueryResponse::from_json_str(bad);
    let d = SolrQueryResponse::from_json_str(bad);
    assert_eq!(c, d);
}

#[test]
fn update_decode_example() {
    let text = r#"{"responseHeader":{"status":0,"QTime":5}}"#;
    let r = SolrUpdateResponse::from_json_str(text).unwrap();
    assert_eq!(r.status, 0);
    assert_eq!(r.time, 5);
}

#[test]
fn update_missing_qtime_is_error() {
    let text = r#"{"responseHeader":{"status":0}}"#;
    let e = SolrUpdateResponse::from_json_str(text).unwrap_err();
    assert_eq!(
        e.message,
        "SolrUpdateResponse JSON parsing error (responseHeader): QTime not found"
    );
}

#[test]
fn update_not_an_object_is_error() {
    let e = SolrUpdateResponse::from_json_str("[1,2]").unwrap_err();
    assert_eq!(
        e.message,
        "SolrUpdateResponse JSON parsing error: update response is not a JSON object."
    );
}

#[test]
fn query_mistyped_qtime_is_error() {
    let text = r#"{"responseHeader":{"status":0,"QTime":"fast"},"response":{"numFound":0,"start":0,"docs":[]}}"#;
    let e = SolrQueryResponse::from_json_str(text).unwrap_err();
    assert_eq!(
        e.message,
        "SolrQueryResponse JSON parsing error (responseHeader): QTime is not an integer"
    );
}

#[test]
fn query_docs_not_a_list_is_error() {
    let text = r#"{"responseHeader":{"status":0,"QTime":1},"response":{"numFound":0,"start":0,"docs":7}}"#;
    let e = SolrQueryResponse::from_json_str(text).unwrap_err();
    assert_eq!(
        e.message,
        "SolrQueryResponse JSON parsing error (response): docs is not a JSON list"
    );
}

#[test]
fn query_doc_not_an_object_is_error() {
    let text = r#"{"responseHeader":{"status":0,"QTime":1},"response":{"numFound":1,"start":0,"docs":[5]}}"#;
    let e = SolrQueryResponse::from_json_str(text).unwrap_err();
    assert_eq!(
        e.message,
        "SolrQueryResponse JSON parsing error (response => docs): doc is not an object"
    );
}

#[test]
fn query_missing_num_found_is_error() {
    let text = r#"{"responseHeader":{"status":0,"QTime":1},"response":{"start":0,"docs":[]}}"#;
    let e = SolrQueryResponse::from_json_str(text).unwrap_err();
    assert_eq!(
        e.message,
        "SolrQueryResponse JSON parsing error (response): numFound not found"
    );
}

#[test]
fn error_envelope_missing_code_is_error() {
    let text = r#"{"error":{"msg":"bad"}}"#;
    let e = SolrError::from_json_str(text).unwrap_err();
    assert_eq!(e.message, "SolrError JSON parsing error (error): code not found");
}

#[test]
fn error_envelope_mistyped_msg_is_error() {
    let text = r#"{"error":{"msg":7,"code":400}}"#;
    let e = SolrError::from_json_str(text).unwrap_err();
    assert_eq!(e.message, "SolrError JSON parsing error (error): msg is not a string");
}

#[test]
fn number_shapes_decode_by_range() {
    let text = r#"{"responseHeader":{"status":0,"QTime":1},"response":{"numFound":1,"start":0,"docs":[{"a":-5,"b":5,"c":18446744073709551615,"d":1.5,"e":"x","f":true,"g":null}]}}"#;
    let r = SolrQueryResponse::from_json_str(text).unwrap();
    let doc = &r.items[0];
    assert_eq!(doc.fields[0].value, FieldValue::I64(-5));
    assert_eq!(doc.fields[1].value, FieldValue::I64(5));
    assert_eq!(doc.fields[2].value, FieldValue::U64(18446744073709551615));
    assert_eq!(doc.fields[3].value, FieldValue::F64("1.5".to_string()));
    assert_eq!(doc.fields[4].value, FieldValue::Text("x".to_string()));
    assert_eq!(doc.fields[5].value, FieldValue::Boolean(true));
    assert_eq!(doc.fields[6].value, FieldValue::Null);
}

#[test]
fn body_str_decodes_utf8() {
    let r = HttpResponse { code: 200, body: b"hello".to_vec() };
    assert_eq!(r.body_str(), Some("hello"));
    let bad = HttpResponse { code: 200, body: vec![0xff, 0xfe] };
    assert_eq!(bad.body_str(), None);
}
