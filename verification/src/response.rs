use vstd::prelude::*;

use crate::document::FieldModel;
use crate::document::FieldValue;
use crate::document::SolrDocument;
use crate::document::SolrField;
use crate::json::JsonModel;
use crate::json::JsonValue;
use crate::json::jlookup;
use crate::json::jmodel;
use crate::json::jmodel_pairs;
use crate::json::jmodel_seq;
use crate::json::json_parse;
use crate::json::lemma_jmodel_pairs;
use crate::json::lemma_jmodel_seq;
use crate::json::lookup;
use crate::json::lookup_in;
use crate::json::parse_json;
use crate::json::as_u32_value;
use crate::json::as_u64_value;
use crate::json::as_i64_value;
use crate::json::slookup;
use crate::json::spec_as_i64;
use crate::json::spec_as_u32;
use crate::json::spec_as_u64;

verus! {

/// The mathematical value of one decoded document: its (name, value) pairs
/// in order.
pub type DocModel = Seq<(Seq<char>, FieldModel)>;

/// A failure of a request or of response decoding.
///
/// `status` is the HTTP status, 0 when no well-formed reply was reached
/// (transport failure, unparsable or mis-shaped response body).
#[derive(Debug, Clone, PartialEq)]
pub struct SolrError {
    /// HTTP status; 0 when no well-formed reply was reached.
    pub status: i64,
    /// Time the engine took in milliseconds; 0 if unknown.
    pub time: i64,
    /// What failed, and where in the response structure.
    pub message: String,
}

pub struct ErrorModel {
    pub status: i64,
    pub time: i64,
    pub message: Seq<char>,
}

impl View for SolrError {
    type V = ErrorModel;

    open spec fn view(&self) -> ErrorModel {
        ErrorModel { status: self.status, time: self.time, message: self.message@ }
    }
}

/// The outcome of an add, commit or delete request, which carries no
/// document payload.
#[derive(Debug, Clone, PartialEq)]
pub struct SolrUpdateResponse {
    /// HTTP status reported in the response header.
    pub status: i64,
    /// Time the engine took in milliseconds.
    pub time: i64,
}

pub struct UpdateModel {
    pub status: i64,
    pub time: i64,
}

impl View for SolrUpdateResponse {
    type V = UpdateModel;

    open spec fn view(&self) -> UpdateModel {
        UpdateModel { status: self.status, time: self.time }
    }
}

/// One page of query results.
///
/// `total` counts every match, independent of the size of this page;
/// `items` is this page only.
#[derive(Debug, Clone, PartialEq)]
pub struct SolrQueryResponse {
    /// Status reported in the response header.
    pub status: u32,
    /// Time the engine took in milliseconds.
    pub time: u32,
    /// Total number of rows found, across all pages.
    pub total: u64,
    /// Zero-based offset of this page.
    pub start: u64,
    /// The documents of this page, in the order the engine returned them.
    pub items: Vec<SolrDocument>,
}

pub struct QueryModel {
    pub status: u32,
    pub time: u32,
    pub total: u64,
    pub start: u64,
    pub items: Seq<DocModel>,
}

pub open spec fn docs_model(items: Seq<SolrDocument>) -> Seq<DocModel> {
    items.map_values(|d: SolrDocument| d@)
}

impl View for SolrQueryResponse {
    type V = QueryModel;

    open spec fn view(&self) -> QueryModel {
        QueryModel {
            status: self.status,
            time: self.time,
            total: self.total,
            start: self.start,
            items: docs_model(self.items@),
        }
    }
}

/// An error that never reached a well-formed reply: status and time 0.
pub open spec fn decode_err(message: Seq<char>) -> ErrorModel {
    ErrorModel { status: 0, time: 0, message }
}

impl SolrError {
    /// Wraps a decoding failure message; status and time are 0 because no
    /// well-formed reply was reached.
    pub fn decode_failure(message: String) -> (e: SolrError)
        ensures
            e@ == decode_err(message@),
    {
        SolrError { status: 0, time: 0, message }
    }
}

/// How one JSON value becomes a field value: each scalar keeps its shape,
/// and any nested object or array degrades to the null variant by design.
pub open spec fn spec_field_of(j: JsonModel) -> FieldModel {
    match j {
        JsonModel::I64(i) => FieldModel::I64(i),
        JsonModel::U64(u) => FieldModel::U64(u),
        JsonModel::Float(s) => FieldModel::F64(s),
        JsonModel::Text(s) => FieldModel::Text(s),
        JsonModel::Boolean(b) => FieldModel::Boolean(b),
        JsonModel::Null => FieldModel::Null,
        JsonModel::Array(_) => FieldModel::Null,
        JsonModel::Object(_) => FieldModel::Null,
    }
}

/// How one JSON object becomes a document: every pair becomes a field, in
/// order. This never fails: field decoding only degrades (see
/// `spec_field_of`).
pub open spec fn spec_doc_of(ps: Seq<(Seq<char>, JsonModel)>) -> DocModel {
    ps.map_values(|p: (Seq<char>, JsonModel)| (p.0, spec_field_of(p.1)))
}

pub open spec fn spec_doc_of_value(j: JsonModel) -> DocModel {
    match j {
        JsonModel::Object(ps) => spec_doc_of(ps),
        _ => Seq::empty(),
    }
}

pub open spec fn spec_docs_of(ds: Seq<JsonModel>) -> Seq<DocModel> {
    ds.map_values(|d: JsonModel| spec_doc_of_value(d))
}

pub open spec fn all_objects(ds: Seq<JsonModel>) -> bool {
    forall|i: int| 0 <= i < ds.len() ==> ds[i] is Object
}

/// What decoding an update reply returns, for every parse outcome.
///
/// Decoding stops at the first missing or mistyped field and reports it —
/// the deliberate policy for all decoders of this library — and the error
/// names the field and its containing section.
pub open spec fn spec_update_decode(p: Result<JsonModel, Seq<char>>) -> Result<
    UpdateModel,
    ErrorModel,
> {
    match p {
        Err(e) => Err(decode_err("SolrUpdateResponse JSON parsing error: "@ + e)),
        Ok(j) => match j {
            JsonModel::Object(ps) => match slookup(ps, "responseHeader"@) {
                None => Err(
                    decode_err("SolrUpdateResponse JSON parsing error: responseHeader not found"@),
                ),
                Some(rh) => match jlookup(rh, "QTime"@) {
                    None => Err(
                        decode_err(
                            "SolrUpdateResponse JSON parsing error (responseHeader): QTime not found"@,
                        ),
                    ),
                    Some(tj) => match spec_as_i64(tj) {
                        None => Err(
                            decode_err(
                                "SolrUpdateResponse JSON parsing error (responseHeader): QTime is not an integer"@,
                            ),
                        ),
                        Some(time) => match jlookup(rh, "status"@) {
                            None => Err(
                                decode_err(
                                    "SolrUpdateResponse JSON parsing error (responseHeader): status not found"@,
                                ),
                            ),
                            Some(sj) => match spec_as_i64(sj) {
                                None => Err(
                                    decode_err(
                                        "SolrUpdateResponse JSON parsing error (responseHeader): status is not an integer"@,
                                    ),
                                ),
                                Some(status) => Ok(UpdateModel { status, time }),
                            },
                        },
                    },
                },
            },
            _ => Err(
                decode_err(
                    "SolrUpdateResponse JSON parsing error: update response is not a JSON object."@,
                ),
            ),
        },
    }
}

/// What decoding a query reply returns, for every parse outcome; same
/// stop-at-first-error policy as `spec_update_decode`, with the sections
/// visited top-down: the header, then the result section, then the docs.
pub open spec fn spec_query_decode(p: Result<JsonModel, Seq<char>>) -> Result<
    QueryModel,
    ErrorModel,
> {
    match p {
        Err(e) => Err(decode_err("SolrQueryResponse JSON parsing error: "@ + e)),
        Ok(j) => match j {
            JsonModel::Object(ps) => match slookup(ps, "responseHeader"@) {
                None => Err(
                    decode_err("SolrQueryResponse JSON parsing error: responseHeader not found"@),
                ),
                Some(rh) => match jlookup(rh, "QTime"@) {
                    None => Err(
                        decode_err(
                            "SolrQueryResponse JSON parsing error (responseHeader): QTime not found"@,
                        ),
                    ),
                    Some(tj) => match spec_as_u32(tj) {
                        None => Err(
                            decode_err(
                                "SolrQueryResponse JSON parsing error (responseHeader): QTime is not an integer"@,
                            ),
                        ),
                        Some(time) => match jlookup(rh, "status"@) {
                            None => Err(
                                decode_err(
                                    "SolrQueryResponse JSON parsing error (responseHeader): status not found"@,
                                ),
                            ),
                            Some(sj) => match spec_as_u32(sj) {
                                None => Err(
                                    decode_err(
                                        "SolrQueryResponse JSON parsing error (responseHeader): status is not an integer"@,
                                    ),
                                ),
                                Some(status) => spec_query_decode_body(ps, status, time),
                            },
                        },
                    },
                },
            },
            _ => Err(
                decode_err(
                    "SolrQueryResponse JSON parsing error: query response is not a JSON object."@,
                ),
            ),
        },
    }
}

/// The result section of a query reply: `numFound`, `start`, then `docs`.
pub open spec fn spec_query_decode_body(
    ps: Seq<(Seq<char>, JsonModel)>,
    status: u32,
    time: u32,
) -> Result<QueryModel, ErrorModel> {
    match slookup(ps, "response"@) {
        None => Err(decode_err("SolrQueryResponse JSON parsing error: response not found"@)),
        Some(rs) => match jlookup(rs, "numFound"@) {
            None => Err(
                decode_err("SolrQueryResponse JSON parsing error (response): numFound not found"@),
            ),
            Some(nj) => match spec_as_u64(nj) {
                None => Err(
                    decode_err(
                        "SolrQueryResponse JSON parsing error (response): numFound is not an integer"@,
                    ),
                ),
                Some(total) => match jlookup(rs, "start"@) {
                    None => Err(
                        decode_err(
                            "SolrQueryResponse JSON parsing error (response): start not found"@,
                        ),
                    ),
                    Some(sj) => match spec_as_u64(sj) {
                        None => Err(
                            decode_err(
                                "SolrQueryResponse JSON parsing error (response): start is not an integer"@,
                            ),
                        ),
                        Some(start) => match jlookup(rs, "docs"@) {
                            None => Err(
                                decode_err(
                                    "SolrQueryResponse JSON parsing error (response): docs not found"@,
                                ),
                            ),
                            Some(dj) => match dj {
                                JsonModel::Array(ds) => if all_objects(ds) {
                                    Ok(
                                        QueryModel {
                                            status,
                                            time,
                                            total,
                                            start,
                                            items: spec_docs_of(ds),
                                        },
                                    )
                                } else {
                                    Err(
                                        decode_err(
                                            "SolrQueryResponse JSON parsing error (response => docs): doc is not an object"@,
                                        ),
                                    )
                                },
                                _ => Err(
                                    decode_err(
                                        "SolrQueryResponse JSON parsing error (response): docs is not a JSON list"@,
                                    ),
                                ),
                            },
                        },
                    },
                },
            },
        },
    }
}

/// What decoding the engine's error envelope `{"error":{"msg":..,"code":..}}`
/// returns: the envelope's own message and code on success, and a decoding
/// failure under the same stop-at-first-error policy otherwise.
pub open spec fn spec_error_decode(p: Result<JsonModel, Seq<char>>) -> Result<
    ErrorModel,
    ErrorModel,
> {
    match p {
        Err(e) => Err(decode_err("SolrError JSON parsing error: "@ + e)),
        Ok(j) => match j {
            JsonModel::Object(ps) => match slookup(ps, "error"@) {
                None => Err(decode_err("SolrError JSON parsing error: error not found"@)),
                Some(er) => match jlookup(er, "msg"@) {
                    None => Err(decode_err("SolrError JSON parsing error (error): msg not found"@)),
                    Some(mj) => match mj {
                        JsonModel::Text(msg) => match jlookup(er, "code"@) {
                            None => Err(
                                decode_err(
                                    "SolrError JSON parsing error (error): code not found"@,
                                ),
                            ),
                            Some(cj) => match spec_as_i64(cj) {
                                None => Err(
                                    decode_err(
                                        "SolrError JSON parsing error (error): code is not an integer"@,
                                    ),
                                ),
                                Some(code) => Ok(
                                    ErrorModel { status: code, time: 0, message: msg },
                                ),
                            },
                        },
                        _ => Err(
                            decode_err("SolrError JSON parsing error (error): msg is not a string"@),
                        ),
                    },
                },
            },
            _ => Err(
                decode_err("SolrError JSON parsing error: error response is not a JSON object."@),
            ),
        },
    }
}

pub open spec fn update_result_model(r: Result<SolrUpdateResponse, SolrError>) -> Result<
    UpdateModel,
    ErrorModel,
> {
    match r {
        Ok(u) => Ok(u@),
        Err(e) => Err(e@),
    }
}

pub open spec fn query_result_model(r: Result<SolrQueryResponse, SolrError>) -> Result<
    QueryModel,
    ErrorModel,
> {
    match r {
        Ok(q) => Ok(q@),
        Err(e) => Err(e@),
    }
}

pub open spec fn error_result_model(r: Result<SolrError, SolrError>) -> Result<
    ErrorModel,
    ErrorModel,
> {
    match r {
        Ok(e) => Ok(e@),
        Err(e) => Err(e@),
    }
}

/// Decodes one JSON value into a field value, cloning what it borrows.
fn field_of(v: &JsonValue) -> (f: FieldValue)
    ensures
        f@ == spec_field_of(jmodel(*v)),
{
    match v {
        JsonValue::I64(i) => FieldValue::I64(*i),
        JsonValue::U64(u) => FieldValue::U64(*u),
        JsonValue::Float(s) => FieldValue::F64(s.clone()),
        JsonValue::Text(s) => FieldValue::Text(s.clone()),
        JsonValue::Boolean(b) => FieldValue::Boolean(*b),
        JsonValue::Null => FieldValue::Null,
        JsonValue::Array(_) => FieldValue::Null,
        JsonValue::Object(_) => FieldValue::Null,
    }
}

/// Decodes one JSON object's pairs into a document, field by field.
fn decode_document(pairs: &Vec<(String, JsonValue)>) -> (d: SolrDocument)
    ensures
        d@ == spec_doc_of(jmodel_pairs(pairs@)),
{
    proof {
        lemma_jmodel_pairs(pairs@);
    }
    let ghost pm = jmodel_pairs(pairs@);
    let mut fields: Vec<SolrField> = Vec::new();
    let n = pairs.len();
    let mut i: usize = 0;
    while i < n
        invariant
            n == pairs.len(),
            0 <= i <= n,
            pm == jmodel_pairs(pairs@),
            pm.len() == n,
            forall|k: int| 0 <= k < n ==> pm[k] == (pairs@[k].0@, jmodel(pairs@[k].1)),
            fields@.len() == i,
            forall|k: int| 0 <= k < i ==> fields@[k]@ == (pm[k].0, spec_field_of(pm[k].1)),
        decreases n - i,
    {
        let p = &pairs[i];
        let f = field_of(&p.1);
        fields.push(SolrField { name: p.0.clone(), value: f });
        i = i + 1;
    }
    let d = SolrDocument { fields };
    proof {
        assert(d@ =~= spec_doc_of(pm));
    }
    d
}

/// Decodes the elements of a `docs` array; `None` if some element is not a
/// JSON object.
fn decode_documents(ds: &Vec<JsonValue>) -> (r: Option<Vec<SolrDocument>>)
    ensures
        match r {
            Some(items) => all_objects(jmodel_seq(ds@)) && docs_model(items@) == spec_docs_of(
                jmodel_seq(ds@),
            ),
            None => !all_objects(jmodel_seq(ds@)),
        },
{
    proof {
        lemma_jmodel_seq(ds@);
    }
    let ghost dm = jmodel_seq(ds@);
    let mut items: Vec<SolrDocument> = Vec::new();
    let n = ds.len();
    let mut i: usize = 0;
    while i < n
        invariant
            n == ds.len(),
            0 <= i <= n,
            dm == jmodel_seq(ds@),
            dm.len() == n,
            forall|k: int| 0 <= k < n ==> dm[k] == jmodel(ds@[k]),
            items@.len() == i,
            forall|k: int| 0 <= k < i ==> dm[k] is Object,
            forall|k: int| 0 <= k < i ==> items@[k]@ == spec_doc_of_value(dm[k]),
        decreases n - i,
    {
        match &ds[i] {
            JsonValue::Object(ps) => {
                let d = decode_document(ps);
                items.push(d);
            },
            _ => {
                proof {
                    assert(!(dm[i as int] is Object));
                }
                return None;
            },
        }
        i = i + 1;
    }
    proof {
        assert(docs_model(items@) =~= spec_docs_of(dm));
    }
    Some(items)
}

impl SolrUpdateResponse {
    /// Decodes the JSON text of an add, commit or delete reply.
    ///
    /// Expects `responseHeader` with integer `QTime` and `status`; the first
    /// missing or mistyped field stops decoding and is named, with its
    /// containing section, in the error message.
    pub fn from_json_str(json_str: &str) -> (r: Result<SolrUpdateResponse, SolrError>)
        ensures
            update_result_model(r) == spec_update_decode(json_parse(json_str@)),
    {
        let j = match parse_json(json_str) {
            Err(e) => {
                let m = String::from_str("SolrUpdateResponse JSON parsing error: ").concat(
                    e.as_str(),
                );
                return Err(SolrError::decode_failure(m));
            },
            Ok(j) => j,
        };
        let ps = match &j {
            JsonValue::Object(ps) => ps,
            _ => {
                return Err(
                    SolrError::decode_failure(
                        String::from_str(
                            "SolrUpdateResponse JSON parsing error: update response is not a JSON object.",
                        ),
                    ),
                );
            },
        };
        let rh = match lookup(ps, "responseHeader") {
            Some(v) => v,
            None => {
                return Err(
                    SolrError::decode_failure(
                        String::from_str(
                            "SolrUpdateResponse JSON parsing error: responseHeader not found",
                        ),
                    ),
                );
            },
        };
        let time = match lookup_in(rh, "QTime") {
            Some(tv) => match as_i64_value(tv) {
                Some(t) => t,
                None => {
                    return Err(
                        SolrError::decode_failure(
                            String::from_str(
                                "SolrUpdateResponse JSON parsing error (responseHeader): QTime is not an integer",
                            ),
                        ),
                    );
                },
            },
            None => {
                return Err(
                    SolrError::decode_failure(
                        String::from_str(
                            "SolrUpdateResponse JSON parsing error (responseHeader): QTime not found",
                        ),
                    ),
                );
            },
        };
        let status = match lookup_in(rh, "status") {
            Some(sv) => match as_i64_value(sv) {
                Some(s) => s,
                None => {
                    return Err(
                        SolrError::decode_failure(
                            String::from_str(
                                "SolrUpdateResponse JSON parsing error (responseHeader): status is not an integer",
                            ),
                        ),
                    );
                },
            },
            None => {
                return Err(
                    SolrError::decode_failure(
                        String::from_str(
                            "SolrUpdateResponse JSON parsing error (responseHeader): status not found",
                        ),
                    ),
                );
            },
        };
        Ok(SolrUpdateResponse { status, time })
    }
}

impl SolrQueryResponse {
    /// Decodes the JSON text of a query reply into one page of results.
    ///
    /// Expects `responseHeader.QTime` and `.status`, and `response` with
    /// `numFound`, `start` and a `docs` array of objects; the first missing
    /// or mistyped field stops decoding and is named, with its containing
    /// section, in the error message. What a single field of a single
    /// document holds never fails the response: an unrecognized shape
    /// degrades that field to null.
    pub fn from_json_str(json_str: &str) -> (r: Result<SolrQueryResponse, SolrError>)
        ensures
            query_result_model(r) == spec_query_decode(json_parse(json_str@)),
    {
        let j = match parse_json(json_str) {
            Err(e) => {
                let m = String::from_str("SolrQueryResponse JSON parsing error: ").concat(
                    e.as_str(),
                );
                return Err(SolrError::decode_failure(m));
            },
            Ok(j) => j,
        };
        let ps = match &j {
            JsonValue::Object(ps) => ps,
            _ => {
                return Err(
                    SolrError::decode_failure(
                        String::from_str(
                            "SolrQueryResponse JSON parsing error: query response is not a JSON object.",
                        ),
                    ),
                );
            },
        };
        let rh = match lookup(ps, "responseHeader") {
            Some(v) => v,
            None => {
                return Err(
                    SolrError::decode_failure(
                        String::from_str(
                            "SolrQueryResponse JSON parsing error: responseHeader not found",
                        ),
                    ),
                );
            },
        };
        let time = match lookup_in(rh, "QTime") {
            Some(tv) => match as_u32_value(tv) {
                Some(t) => t,
                None => {
                    return Err(
                        SolrError::decode_failure(
                            String::from_str(
                                "SolrQueryResponse JSON parsing error (responseHeader): QTime is not an integer",
                            ),
                        ),
                    );
                },
            },
            None => {
                return Err(
                    SolrError::decode_failure(
                        String::from_str(
                            "SolrQueryResponse JSON parsing error (responseHeader): QTime not found",
                        ),
                    ),
                );
            },
        };
        let status = match lookup_in(rh, "status") {
            Some(sv) => match as_u32_value(sv) {
                Some(s) => s,
                None => {
                    return Err(
                        SolrError::decode_failure(
                            String::from_str(
                                "SolrQueryResponse JSON parsing error (responseHeader): status is not an integer",
                            ),
                        ),
                    );
                },
            },
            None => {
                return Err(
                    SolrError::decode_failure(
                        String::from_str(
                            "SolrQueryResponse JSON parsing error (responseHeader): status not found",
                        ),
                    ),
                );
            },
        };
        let rs = match lookup(ps, "response") {
            Some(v) => v,
            None => {
                return Err(
                    SolrError::decode_failure(
                        String::from_str("SolrQueryResponse JSON parsing error: response not found"),
                    ),
                );
            },
        };
        let total = match lookup_in(rs, "numFound") {
            Some(nv) => match as_u64_value(nv) {
                Some(t) => t,
                None => {
                    return Err(
                        SolrError::decode_failure(
                            String::from_str(
                                "SolrQueryResponse JSON parsing error (response): numFound is not an integer",
                            ),
                        ),
                    );
                },
            },
            None => {
                return Err(
                    SolrError::decode_failure(
                        String::from_str(
                            "SolrQueryResponse JSON parsing error (response): numFound not found",
                        ),
                    ),
                );
            },
        };
        let start = match lookup_in(rs, "start") {
            Some(sv) => match as_u64_value(sv) {
                Some(s) => s,
                None => {
                    return Err(
                        SolrError::decode_failure(
                            String::from_str(
                                "SolrQueryResponse JSON parsing error (response): start is not an integer",
                            ),
                        ),
                    );
                },
            },
            None => {
                return Err(
                    SolrError::decode_failure(
                        String::from_str(
                            "SolrQueryResponse JSON parsing error (response): start not found",
                        ),
                    ),
                );
            },
        };
        let dv = match lookup_in(rs, "docs") {
            Some(v) => v,
            None => {
                return Err(
                    SolrError::decode_failure(
                        String::from_str(
                            "SolrQueryResponse JSON parsing error (response): docs not found",
                        ),
                    ),
                );
            },
        };
        let ds = match dv {
            JsonValue::Array(ds) => ds,
            _ => {
                return Err(
                    SolrError::decode_failure(
                        String::from_str(
                            "SolrQueryResponse JSON parsing error (response): docs is not a JSON list",
                        ),
                    ),
                );
            },
        };
        let items = match decode_documents(ds) {
            Some(items) => items,
            None => {
                return Err(
                    SolrError::decode_failure(
                        String::from_str(
                            "SolrQueryResponse JSON parsing error (response => docs): doc is not an object",
                        ),
                    ),
                );
            },
        };
        Ok(SolrQueryResponse { status, time, total, start, items })
    }
}

impl SolrError {
    /// Decodes the engine's error envelope `{"error":{"msg":..,"code":..}}`
    /// into the error it describes: its `code` becomes the status, its `msg`
    /// the message; time is 0, the envelope does not carry it.
    pub fn from_json_str(json_str: &str) -> (r: Result<SolrError, SolrError>)
        ensures
            error_result_model(r) == spec_error_decode(json_parse(json_str@)),
    {
        let j = match parse_json(json_str) {
            Err(e) => {
                let m = String::from_str("SolrError JSON parsing error: ").concat(e.as_str());
                return Err(SolrError::decode_failure(m));
            },
            Ok(j) => j,
        };
        let ps = match &j {
            JsonValue::Object(ps) => ps,
            _ => {
                return Err(
                    SolrError::decode_failure(
                        String::from_str(
                            "SolrError JSON parsing error: error response is not a JSON object.",
                        ),
                    ),
                );
            },
        };
        let er = match lookup(ps, "error") {
            Some(v) => v,
            None => {
                return Err(
                    SolrError::decode_failure(
                        String::from_str("SolrError JSON parsing error: error not found"),
                    ),
                );
            },
        };
        let message = match lookup_in(er, "msg") {
            Some(mv) => match mv {
                JsonValue::Text(s) => s.clone(),
                _ => {
                    return Err(
                        SolrError::decode_failure(
                            String::from_str(
                                "SolrError JSON parsing error (error): msg is not a string",
                            ),
                        ),
                    );
                },
            },
            None => {
                return Err(
                    SolrError::decode_failure(
                        String::from_str("SolrError JSON parsing error (error): msg not found"),
                    ),
                );
            },
        };
        let status = match lookup_in(er, "code") {
            Some(cv) => match as_i64_value(cv) {
                Some(c) => c,
                None => {
                    return Err(
                        SolrError::decode_failure(
                            String::from_str(
                                "SolrError JSON parsing error (error): code is not an integer",
                            ),
                        ),
                    );
                },
            },
            None => {
                return Err(
                    SolrError::decode_failure(
                        String::from_str("SolrError JSON parsing error (error): code not found"),
                    ),
                );
            },
        };
        Ok(SolrError { status, time: 0, message })
    }
}

/// Law: a JSON object without `responseHeader` decodes to an error — never
/// to a success with zero-valued header fields — and the error's message
/// names `responseHeader`.
pub proof fn lemma_missing_header_is_error(ps: Seq<(Seq<char>, JsonModel)>)
    requires
        slookup(ps, "responseHeader"@) is None,
    ensures
        spec_query_decode(Ok(JsonModel::Object(ps))) == Err::<QueryModel, ErrorModel>(
            decode_err("SolrQueryResponse JSON parsing error: responseHeader not found"@),
        ),
        spec_update_decode(Ok(JsonModel::Object(ps))) == Err::<UpdateModel, ErrorModel>(
            decode_err("SolrUpdateResponse JSON parsing error: responseHeader not found"@),
        ),
{
}

/// Law: text the parser rejects decodes to an error with status 0 and time
/// 0 that carries the parser's own message.
pub proof fn lemma_parse_failure_is_error(s: Seq<char>, m: Seq<char>)
    requires
        json_parse(s) == Err::<JsonModel, Seq<char>>(m),
    ensures
        spec_query_decode(json_parse(s)) == Err::<QueryModel, ErrorModel>(
            decode_err("SolrQueryResponse JSON parsing error: "@ + m),
        ),
        spec_update_decode(json_parse(s)) == Err::<UpdateModel, ErrorModel>(
            decode_err("SolrUpdateResponse JSON parsing error: "@ + m),
        ),
{
}

/// Law: a field holding a nested object or array decodes to the null
/// variant — not an error — and every other field of the document is
/// decoded exactly as it would be alone.
pub proof fn lemma_nested_field_decodes_to_null(ps: Seq<(Seq<char>, JsonModel)>, i: int)
    requires
        0 <= i < ps.len(),
        ps[i].1 is Object || ps[i].1 is Array,
    ensures
        spec_doc_of(ps).len() == ps.len(),
        spec_doc_of(ps)[i] == (ps[i].0, FieldModel::Null),
        forall|k: int| 0 <= k < ps.len() ==> spec_doc_of(ps)[k] == (ps[k].0, spec_field_of(ps[k].1)),
{
}

/// Law: a docs array of objects decodes without error whatever the fields
/// of its documents hold: only a non-object element can fail it.
pub proof fn lemma_fields_never_fail_docs(ds: Seq<JsonModel>)
    requires
        all_objects(ds),
    ensures
        spec_docs_of(ds).len() == ds.len(),
        forall|k: int| 0 <= k < ds.len() ==> spec_docs_of(ds)[k] == spec_doc_of_value(ds[k]),
{
}

/// Law: decoding is a pure function of the response text — equal texts
/// decode to equal results, for each of the three decoders.
pub proof fn lemma_decode_deterministic(a: Seq<char>, b: Seq<char>)
    requires
        a == b,
    ensures
        spec_query_decode(json_parse(a)) == spec_query_decode(json_parse(b)),
        spec_update_decode(json_parse(a)) == spec_update_decode(json_parse(b)),
        spec_error_decode(json_parse(a)) == spec_error_decode(json_parse(b)),
{
}

} // verus!
