use vstd::prelude::*;

use serde_json::Value;

verus! {

/// An untyped JSON value, held as plain data.
///
/// A number is split by shape: an integer in `i64` range, any other integer
/// in `u64` range, and otherwise the number's decimal text (`Float`), carried
/// verbatim; the library stores such a value but never computes with it.
#[derive(Debug, PartialEq)]
pub enum JsonValue {
    Null,
    Boolean(bool),
    I64(i64),
    U64(u64),
    Float(String),
    Text(String),
    Array(Vec<JsonValue>),
    Object(Vec<(String, JsonValue)>),
}

/// The mathematical value of a `JsonValue`: strings become character
/// sequences, vectors become sequences.
pub enum JsonModel {
    Null,
    Boolean(bool),
    I64(i64),
    U64(u64),
    Float(Seq<char>),
    Text(Seq<char>),
    Array(Seq<JsonModel>),
    Object(Seq<(Seq<char>, JsonModel)>),
}

pub open spec fn jmodel(v: JsonValue) -> JsonModel
    decreases v,
{
    match v {
        JsonValue::Null => JsonModel::Null,
        JsonValue::Boolean(b) => JsonModel::Boolean(b),
        JsonValue::I64(i) => JsonModel::I64(i),
        JsonValue::U64(u) => JsonModel::U64(u),
        JsonValue::Float(s) => JsonModel::Float(s@),
        JsonValue::Text(s) => JsonModel::Text(s@),
        JsonValue::Array(a) => JsonModel::Array(jmodel_seq(a@)),
        JsonValue::Object(o) => JsonModel::Object(jmodel_pairs(o@)),
    }
}

pub open spec fn jmodel_seq(s: Seq<JsonValue>) -> Seq<JsonModel>
    decreases s,
{
    if s.len() == 0 {
        Seq::empty()
    } else {
        seq![jmodel(s[0])] + jmodel_seq(s.drop_first())
    }
}

pub open spec fn jmodel_pairs(s: Seq<(String, JsonValue)>) -> Seq<(Seq<char>, JsonModel)>
    decreases s,
{
    if s.len() == 0 {
        Seq::empty()
    } else {
        seq![(s[0].0@, jmodel(s[0].1))] + jmodel_pairs(s.drop_first())
    }
}

pub proof fn lemma_jmodel_seq(s: Seq<JsonValue>)
    ensures
        jmodel_seq(s).len() == s.len(),
        forall|i: int| 0 <= i < s.len() ==> jmodel_seq(s)[i] == jmodel(s[i]),
    decreases s,
{
    if s.len() > 0 {
        lemma_jmodel_seq(s.drop_first());
        assert forall|i: int| 0 <= i < s.len() implies jmodel_seq(s)[i] == jmodel(s[i]) by {
            if i > 0 {
                assert(s.drop_first()[i - 1] == s[i]);
            }
        }
    }
}

pub proof fn lemma_jmodel_pairs(s: Seq<(String, JsonValue)>)
    ensures
        jmodel_pairs(s).len() == s.len(),
        forall|i: int| 0 <= i < s.len() ==> jmodel_pairs(s)[i] == (s[i].0@, jmodel(s[i].1)),
    decreases s,
{
    if s.len() > 0 {
        lemma_jmodel_pairs(s.drop_first());
        assert forall|i: int| 0 <= i < s.len() implies jmodel_pairs(s)[i] == (
        s[i].0@,
        jmodel(s[i].1),
        ) by {
            if i > 0 {
                assert(s.drop_first()[i - 1] == s[i]);
            }
        }
    }
}

/// The first pair with the given name, if any. The parser hands out objects
/// with unique names, so the first match is the only one.
pub open spec fn slookup(ps: Seq<(Seq<char>, JsonModel)>, k: Seq<char>) -> Option<JsonModel>
    decreases ps.len(),
{
    if ps.len() == 0 {
        None
    } else if ps[0].0 == k {
        Some(ps[0].1)
    } else {
        slookup(ps.drop_first(), k)
    }
}

/// A lookup through a value that may not be an object: `None` then.
pub open spec fn jlookup(j: JsonModel, k: Seq<char>) -> Option<JsonModel> {
    match j {
        JsonModel::Object(ps) => slookup(ps, k),
        _ => None,
    }
}

proof fn lemma_slookup_skip_one(ps: Seq<(Seq<char>, JsonModel)>, k: Seq<char>, i: int)
    requires
        0 <= i < ps.len(),
        ps[i].0 != k,
    ensures
        slookup(ps.skip(i), k) == slookup(ps.skip(i + 1), k),
{
    assert(ps.skip(i)[0] == ps[i]);
    assert(ps.skip(i).drop_first() =~= ps.skip(i + 1));
}

/// Finds the first pair with the given name among an object's pairs.
pub fn lookup<'a>(pairs: &'a Vec<(String, JsonValue)>, key: &str) -> (r: Option<&'a JsonValue>)
    ensures
        match r {
            Some(v) => slookup(jmodel_pairs(pairs@), key@) == Some(jmodel(*v)),
            None => slookup(jmodel_pairs(pairs@), key@) is None,
        },
{
    let ghost m = jmodel_pairs(pairs@);
    proof {
        lemma_jmodel_pairs(pairs@);
        assert(m.skip(0) =~= m);
    }
    let k = key.to_owned();
    let n = pairs.len();
    let mut i: usize = 0;
    while i < n
        invariant
            n == pairs.len(),
            0 <= i <= n,
            m == jmodel_pairs(pairs@),
            m.len() == n,
            forall|j: int| 0 <= j < m.len() ==> m[j] == (pairs@[j].0@, jmodel(pairs@[j].1)),
            k@ == key@,
            slookup(m, key@) == slookup(m.skip(i as int), key@),
        decreases n - i,
    {
        if pairs[i].0 == k {
            proof {
                assert(m.skip(i as int)[0] == m[i as int]);
            }
            return Some(&pairs[i].1);
        }
        proof {
            lemma_slookup_skip_one(m, key@, i as int);
        }
        i = i + 1;
    }
    proof {
        assert(m.skip(n as int) =~= Seq::<(Seq<char>, JsonModel)>::empty());
    }
    None
}

/// Looks a name up through a value that may not be an object: `None` then,
/// as for a missing name.
pub fn lookup_in<'a>(v: &'a JsonValue, key: &str) -> (r: Option<&'a JsonValue>)
    ensures
        match r {
            Some(w) => jlookup(jmodel(*v), key@) == Some(jmodel(*w)),
            None => jlookup(jmodel(*v), key@) is None,
        },
{
    match v {
        JsonValue::Object(ps) => lookup(ps, key),
        _ => None,
    }
}

/// The value as an unsigned 64-bit integer: a non-negative integer of either
/// integer shape, nothing else.
pub open spec fn spec_as_u64(j: JsonModel) -> Option<u64> {
    match j {
        JsonModel::I64(i) => if i >= 0 {
            Some(i as u64)
        } else {
            None
        },
        JsonModel::U64(u) => Some(u),
        _ => None,
    }
}

/// The value as a signed 64-bit integer: an integer that fits, nothing else.
pub open spec fn spec_as_i64(j: JsonModel) -> Option<i64> {
    match j {
        JsonModel::I64(i) => Some(i),
        JsonModel::U64(u) => if u <= i64::MAX as u64 {
            Some(u as i64)
        } else {
            None
        },
        _ => None,
    }
}

/// The value as an unsigned 32-bit integer: an integer in `u32` range.
pub open spec fn spec_as_u32(j: JsonModel) -> Option<u32> {
    match spec_as_u64(j) {
        Some(u) => if u <= u32::MAX as u64 {
            Some(u as u32)
        } else {
            None
        },
        None => None,
    }
}

pub fn as_u64_value(v: &JsonValue) -> (r: Option<u64>)
    ensures
        r == spec_as_u64(jmodel(*v)),
{
    match v {
        JsonValue::I64(i) => if *i >= 0 {
            Some(*i as u64)
        } else {
            None
        },
        JsonValue::U64(u) => Some(*u),
        _ => None,
    }
}

pub fn as_i64_value(v: &JsonValue) -> (r: Option<i64>)
    ensures
        r == spec_as_i64(jmodel(*v)),
{
    match v {
        JsonValue::I64(i) => Some(*i),
        JsonValue::U64(u) => if *u <= i64::MAX as u64 {
            Some(*u as i64)
        } else {
            None
        },
        _ => None,
    }
}

pub fn as_u32_value(v: &JsonValue) -> (r: Option<u32>)
    ensures
        r == spec_as_u32(jmodel(*v)),
{
    match as_u64_value(v) {
        Some(u) => if u <= u32::MAX as u64 {
            Some(u as u32)
        } else {
            None
        },
        None => None,
    }
}

#[verifier::external_type_specification]
#[verifier::external_body]
pub struct ExValue(serde_json::Value);

/// What `serde_json::from_str::<serde_json::Value>` yields on the given
/// text: the parsed tree, or the parser's error message. Parsing is a
/// function of the text alone.
pub uninterp spec fn json_parse(s: Seq<char>) -> Result<JsonModel, Seq<char>>;

/// What `serde_json::to_string` prints for the given tree; printing is a
/// function of the tree alone.
pub uninterp spec fn json_text_of(j: JsonModel) -> Seq<char>;

pub open spec fn parse_model(r: Result<JsonValue, String>) -> Result<JsonModel, Seq<char>> {
    match r {
        Ok(v) => Ok(jmodel(v)),
        Err(e) => Err(e@),
    }
}

/// Relies on `serde_json::from_str::<serde_json::Value>`: parses the text as
/// one JSON value; `Ok` carries the parsed tree, `Err` the parser's message.
#[verifier::external_body]
pub fn parse_json(s: &str) -> (r: Result<JsonValue, String>)
    ensures
        parse_model(r) == json_parse(s@),
{
    match serde_json::from_str::<Value>(s) {
        Ok(v) => Ok(value_to_tree(v)),
        Err(e) => Err(e.to_string()),
    }
}

/// Relies on `serde_json::Value`'s accessors to turn one parsed value into
/// the library's tree, variant for variant: an integer in `i64` range becomes
/// `I64`, any other integer `U64`, any other number its decimal text.
#[verifier::external_body]
fn value_to_tree(v: Value) -> JsonValue {
    match v {
        Value::Null => JsonValue::Null,
        Value::Bool(b) => JsonValue::Boolean(b),
        Value::Number(n) => match (n.as_i64(), n.as_u64()) {
            (Some(i), _) => JsonValue::I64(i),
            (None, Some(u)) => JsonValue::U64(u),
            (None, None) => JsonValue::Float(n.to_string()),
        },
        Value::String(s) => JsonValue::Text(s),
        Value::Array(a) => JsonValue::Array(a.into_iter().map(value_to_tree).collect()),
        Value::Object(o) => JsonValue::Object(
            o.into_iter().map(|(k, w)| (k, value_to_tree(w))).collect(),
        ),
    }
}

/// Relies on `serde_json::to_string`: prints the tree as JSON text.
#[verifier::external_body]
pub fn to_json_text(v: &JsonValue) -> (r: String)
    ensures
        r@ == json_text_of(jmodel(*v)),
{
    serde_json::to_string(&tree_to_value(v)).unwrap_or(String::new())
}

/// Relies on `serde_json::Value`'s constructors to turn the library's tree
/// back into a parser value, variant for variant; float text that is not a
/// JSON number becomes null.
#[verifier::external_body]
fn tree_to_value(v: &JsonValue) -> Value {
    match v {
        JsonValue::Null => Value::Null,
        JsonValue::Boolean(b) => Value::Bool(*b),
        JsonValue::I64(i) => Value::from(*i),
        JsonValue::U64(u) => Value::from(*u),
        JsonValue::Float(s) => match serde_json::from_str::<serde_json::Number>(s) {
            Ok(n) => Value::Number(n),
            Err(_) => Value::Null,
        },
        JsonValue::Text(s) => Value::String(s.clone()),
        JsonValue::Array(a) => Value::Array(a.iter().map(tree_to_value).collect()),
        JsonValue::Object(o) => Value::Object(
            o.iter().map(|p| (p.0.clone(), tree_to_value(&p.1))).collect(),
        ),
    }
}

} // verus!
