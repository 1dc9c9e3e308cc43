use vstd::prelude::*;

use crate::document::FieldModel;
use crate::document::FieldValue;
use crate::document::SolrDocument;
use crate::json::JsonModel;
use crate::json::JsonValue;
use crate::json::jmodel;
use crate::json::jmodel_pairs;
use crate::json::jmodel_seq;
use crate::json::json_parse;
use crate::json::json_text_of;
use crate::json::lemma_jmodel_pairs;
use crate::json::lemma_jmodel_seq;
use crate::json::slookup;
use crate::json::spec_as_u32;
use crate::json::to_json_text;
use crate::response::DocModel;
use crate::response::ErrorModel;
use crate::response::QueryModel;
use crate::response::SolrError;
use crate::response::SolrQueryResponse;
use crate::response::SolrUpdateResponse;
use crate::response::all_objects;
use crate::response::spec_doc_of;
use crate::response::spec_doc_of_value;
use crate::response::spec_docs_of;
use crate::response::spec_error_decode;
use crate::response::spec_field_of;
use crate::response::spec_query_decode;
use crate::response::spec_update_decode;
use crate::response::query_result_model;
use crate::response::update_result_model;

verus! {

/// How one field value appears in JSON: each variant keeps its shape.
pub open spec fn spec_field_json(f: FieldModel) -> JsonModel {
    match f {
        FieldModel::I64(i) => JsonModel::I64(i),
        FieldModel::U64(u) => JsonModel::U64(u),
        FieldModel::F64(s) => JsonModel::Float(s),
        FieldModel::Text(s) => JsonModel::Text(s),
        FieldModel::Boolean(b) => JsonModel::Boolean(b),
        FieldModel::Null => JsonModel::Null,
    }
}

/// How a document appears in JSON: one object, one pair per field, in order.
pub open spec fn spec_document_json(d: DocModel) -> JsonModel {
    JsonModel::Object(d.map_values(|p: (Seq<char>, FieldModel)| (p.0, spec_field_json(p.1))))
}

fn field_to_json(f: &FieldValue) -> (r: JsonValue)
    ensures
        jmodel(r) == spec_field_json(f@),
{
    match f {
        FieldValue::I64(i) => JsonValue::I64(*i),
        FieldValue::U64(u) => JsonValue::U64(*u),
        FieldValue::F64(s) => JsonValue::Float(s.clone()),
        FieldValue::Text(s) => JsonValue::Text(s.clone()),
        FieldValue::Boolean(b) => JsonValue::Boolean(*b),
        FieldValue::Null => JsonValue::Null,
    }
}

/// Turns a document into its JSON object, field by field, keeping order.
pub fn document_to_json(doc: &SolrDocument) -> (r: JsonValue)
    ensures
        jmodel(r) == spec_document_json(doc@),
{
    let mut pairs: Vec<(String, JsonValue)> = Vec::new();
    let n = doc.fields.len();
    let mut i: usize = 0;
    while i < n
        invariant
            n == doc.fields.len(),
            0 <= i <= n,
            pairs@.len() == i,
            forall|k: int|
                0 <= k < i ==> (pairs@[k].0@, jmodel(pairs@[k].1)) == (
                    doc@[k].0,
                    spec_field_json(doc@[k].1),
                ),
        decreases n - i,
    {
        let f = &doc.fields[i];
        let v = field_to_json(&f.value);
        pairs.push((f.name.clone(), v));
        i = i + 1;
    }
    let r = JsonValue::Object(pairs);
    proof {
        lemma_jmodel_pairs(pairs@);
        assert(jmodel_pairs(pairs@) =~= doc@.map_values(
            |p: (Seq<char>, FieldModel)| (p.0, spec_field_json(p.1)),
        ));
    }
    r
}

/// The engine's document-add envelope: a one-element array of documents.
pub open spec fn spec_update_envelope(d: DocModel) -> JsonModel {
    JsonModel::Array(seq![spec_document_json(d)])
}

/// The JSON body that adds one document (the engine's document-add
/// envelope); the caller posts it and requests a commit.
pub fn update_body(doc: &SolrDocument) -> (r: String)
    ensures
        r@ == json_text_of(spec_update_envelope(doc@)),
{
    let dj = document_to_json(doc);
    let mut arr: Vec<JsonValue> = Vec::new();
    arr.push(dj);
    let tree = JsonValue::Array(arr);
    proof {
        lemma_jmodel_seq(arr@);
        assert(jmodel_seq(arr@) =~= seq![spec_document_json(doc@)]);
    }
    to_json_text(&tree)
}

/// The delete-by-query envelope `{"delete":{"query": ..}}`.
pub open spec fn spec_delete_envelope(q: Seq<char>) -> JsonModel {
    JsonModel::Object(
        seq![
            (
                "delete"@,
                JsonModel::Object(seq![("query"@, JsonModel::Text(q))]),
            ),
        ],
    )
}

/// The JSON body of a delete-by-query request.
pub fn delete_body(query: &str) -> (r: String)
    ensures
        r@ == json_text_of(spec_delete_envelope(query@)),
{
    let mut inner: Vec<(String, JsonValue)> = Vec::new();
    inner.push((String::from_str("query"), JsonValue::Text(query.to_owned())));
    let mut outer: Vec<(String, JsonValue)> = Vec::new();
    outer.push((String::from_str("delete"), JsonValue::Object(inner)));
    let tree = JsonValue::Object(outer);
    proof {
        lemma_jmodel_pairs(outer@);
        lemma_jmodel_pairs(outer@[0].1->Object_0@);
        assert(jmodel_pairs(outer@[0].1->Object_0@) =~= seq![
            ("query"@, JsonModel::Text(query@)),
        ]);
        assert(jmodel_pairs(outer@) =~= seq![
            ("delete"@, JsonModel::Object(seq![("query"@, JsonModel::Text(query@))])),
        ]);
    }
    to_json_text(&tree)
}

/// A status in the HTTP success range.
pub open spec fn spec_is_success(code: u16) -> bool {
    200 <= code < 300
}

/// The error reported for a reply outside the success range: the engine's
/// own error envelope where the body decodes as one, else the decoding
/// failure itself.
pub open spec fn spec_reply_error(p: Result<JsonModel, Seq<char>>) -> ErrorModel {
    match spec_error_decode(p) {
        Ok(e) => e,
        Err(e) => e,
    }
}

/// Interprets one HTTP exchange of an add, commit or delete request: a
/// success status has its body decoded as an update reply, any other as the
/// engine's error envelope. Transport failures never reach this point: the
/// caller reports those with status 0.
pub fn interpret_update_reply(code: u16, body: &str) -> (r: Result<SolrUpdateResponse, SolrError>)
    ensures
        spec_is_success(code) ==> update_result_model(r) == spec_update_decode(
            json_parse(body@),
        ),
        !spec_is_success(code) ==> (r matches Err(e) && e@ == spec_reply_error(
            json_parse(body@),
        )),
{
    if 200 <= code && code < 300 {
        SolrUpdateResponse::from_json_str(body)
    } else {
        match SolrError::from_json_str(body) {
            Ok(e) => Err(e),
            Err(e) => Err(e),
        }
    }
}

/// Interprets one HTTP exchange of a query request, as
/// `interpret_update_reply` does for updates.
pub fn interpret_query_reply(code: u16, body: &str) -> (r: Result<SolrQueryResponse, SolrError>)
    ensures
        spec_is_success(code) ==> query_result_model(r) == spec_query_decode(json_parse(body@)),
        !spec_is_success(code) ==> (r matches Err(e) && e@ == spec_reply_error(
            json_parse(body@),
        )),
{
    if 200 <= code && code < 300 {
        SolrQueryResponse::from_json_str(body)
    } else {
        match SolrError::from_json_str(body) {
            Ok(e) => Err(e),
            Err(e) => Err(e),
        }
    }
}

/// Law: turning a document into its JSON object and decoding that object
/// back yields the same (name, value) pairs in the same order.
pub proof fn lemma_document_round_trip(d: DocModel)
    ensures
        spec_document_json(d) matches JsonModel::Object(ps) && spec_doc_of(ps) == d,
{
    let ps = d.map_values(|p: (Seq<char>, FieldModel)| (p.0, spec_field_json(p.1)));
    assert forall|i: int| 0 <= i < d.len() implies spec_doc_of(ps)[i] == d[i] by {
        assert(spec_field_of(spec_field_json(d[i].1)) == d[i].1);
    }
    assert(spec_doc_of(ps) =~= d);
}

/// Law: a docs array holding the JSON serializations of given documents
/// decodes back to exactly those documents, in the same order.
pub proof fn lemma_docs_round_trip(docs: Seq<DocModel>)
    ensures
        all_objects(docs.map_values(|d: DocModel| spec_document_json(d))),
        spec_docs_of(docs.map_values(|d: DocModel| spec_document_json(d))) == docs,
{
    let ds = docs.map_values(|d: DocModel| spec_document_json(d));
    assert forall|i: int| 0 <= i < docs.len() implies ds[i] is Object && spec_doc_of_value(ds[i])
        == docs[i] by {
        lemma_document_round_trip(docs[i]);
    }
    assert(spec_docs_of(ds) =~= docs);
}

/// A well-formed query envelope around the given documents.
pub open spec fn spec_query_envelope(
    docs: Seq<DocModel>,
    status: u32,
    time: u32,
    total: u64,
    start: u64,
) -> JsonModel {
    JsonModel::Object(
        seq![
            (
                "responseHeader"@,
                JsonModel::Object(
                    seq![
                        ("QTime"@, JsonModel::U64(time as u64)),
                        ("status"@, JsonModel::U64(status as u64)),
                    ],
                ),
            ),
            (
                "response"@,
                JsonModel::Object(
                    seq![
                        ("numFound"@, JsonModel::U64(total)),
                        ("start"@, JsonModel::U64(start)),
                        (
                            "docs"@,
                            JsonModel::Array(
                                docs.map_values(|d: DocModel| spec_document_json(d)),
                            ),
                        ),
                    ],
                ),
            ),
        ],
    )
}

/// Law: decoding a well-formed query envelope whose docs array carries the
/// JSON serializations of given documents succeeds and yields exactly those
/// documents, with the envelope's own counts.
pub proof fn lemma_query_envelope_round_trip(
    docs: Seq<DocModel>,
    status: u32,
    time: u32,
    total: u64,
    start: u64,
)
    ensures
        spec_query_decode(Ok(spec_query_envelope(docs, status, time, total, start))) == Ok::<
            QueryModel,
            ErrorModel,
        >(QueryModel { status, time, total, start, items: docs }),
{
    broadcast use vstd::string::group_string_axioms;

    reveal_strlit("responseHeader");
    reveal_strlit("response");
    reveal_strlit("QTime");
    reveal_strlit("status");
    reveal_strlit("numFound");
    reveal_strlit("start");
    reveal_strlit("docs");
    let hdr = seq![
        ("QTime"@, JsonModel::U64(time as u64)),
        ("status"@, JsonModel::U64(status as u64)),
    ];
    let ds = docs.map_values(|d: DocModel| spec_document_json(d));
    let rsp = seq![
        ("numFound"@, JsonModel::U64(total)),
        ("start"@, JsonModel::U64(start)),
        ("docs"@, JsonModel::Array(ds)),
    ];
    let ps = seq![
        ("responseHeader"@, JsonModel::Object(hdr)),
        ("response"@, JsonModel::Object(rsp)),
    ];
    let ps1 = seq![("response"@, JsonModel::Object(rsp))];
    let hdr1 = seq![("status"@, JsonModel::U64(status as u64))];
    let rsp1 = seq![("start"@, JsonModel::U64(start)), ("docs"@, JsonModel::Array(ds))];
    let rsp2 = seq![("docs"@, JsonModel::Array(ds))];
    assert(slookup(ps, "responseHeader"@) == Some(JsonModel::Object(hdr)));
    assert("responseHeader"@.len() == 14);
    assert("response"@.len() == 8);
    assert("responseHeader"@ != "response"@);
    assert(ps.drop_first() =~= ps1);
    assert(slookup(ps1, "response"@) == Some(JsonModel::Object(rsp)));
    assert(slookup(ps, "response"@) == slookup(ps.drop_first(), "response"@));
    assert(slookup(ps, "response"@) == Some(JsonModel::Object(rsp)));
    assert(slookup(hdr, "QTime"@) == Some(JsonModel::U64(time as u64)));
    assert("QTime"@.len() == 5);
    assert("status"@.len() == 6);
    assert("QTime"@ != "status"@);
    assert(hdr.drop_first() =~= hdr1);
    assert(slookup(hdr1, "status"@) == Some(JsonModel::U64(status as u64)));
    assert(slookup(hdr, "status"@) == slookup(hdr.drop_first(), "status"@));
    assert(slookup(hdr, "status"@) == Some(JsonModel::U64(status as u64)));
    assert(spec_as_u32(JsonModel::U64(time as u64)) == Some(time));
    assert(spec_as_u32(JsonModel::U64(status as u64)) == Some(status));
    assert(slookup(rsp, "numFound"@) == Some(JsonModel::U64(total)));
    assert("numFound"@.len() == 8);
    assert("start"@.len() == 5);
    assert("docs"@.len() == 4);
    assert("numFound"@ != "start"@);
    assert("numFound"@ != "docs"@);
    assert("start"@ != "docs"@);
    assert(rsp.drop_first() =~= rsp1);
    assert(slookup(rsp1, "start"@) == Some(JsonModel::U64(start)));
    assert(slookup(rsp, "start"@) == slookup(rsp.drop_first(), "start"@));
    assert(slookup(rsp, "start"@) == Some(JsonModel::U64(start)));
    assert(rsp1.drop_first() =~= rsp2);
    assert(slookup(rsp2, "docs"@) == Some(JsonModel::Array(ds)));
    assert(slookup(rsp1, "docs"@) == slookup(rsp1.drop_first(), "docs"@));
    assert(slookup(rsp, "docs"@) == slookup(rsp.drop_first(), "docs"@));
    assert(slookup(rsp, "docs"@) == Some(JsonModel::Array(ds)));
    lemma_docs_round_trip(docs);
}

} // verus!
