use vstd::prelude::*;

verus! {

/// One scalar value a document field may hold.
///
/// Exactly one variant is active; there is no implicit coercion between
/// variants. A JSON number that is not an integer is carried as its decimal
/// text exactly as the parser prints it (variant `F64`); the library stores
/// and forwards such a value but never computes with it.
#[derive(Debug, Clone, PartialEq)]
pub enum FieldValue {
    I64(i64),
    U64(u64),
    F64(String),
    Text(String),
    Boolean(bool),
    Null,
}

/// The mathematical value of a `FieldValue`: strings become character
/// sequences, everything else is already a plain value.
pub enum FieldModel {
    I64(i64),
    U64(u64),
    F64(Seq<char>),
    Text(Seq<char>),
    Boolean(bool),
    Null,
}

impl View for FieldValue {
    type V = FieldModel;

    open spec fn view(&self) -> FieldModel {
        match self {
            FieldValue::I64(i) => FieldModel::I64(*i),
            FieldValue::U64(u) => FieldModel::U64(*u),
            FieldValue::F64(s) => FieldModel::F64(s@),
            FieldValue::Text(s) => FieldModel::Text(s@),
            FieldValue::Boolean(b) => FieldModel::Boolean(*b),
            FieldValue::Null => FieldModel::Null,
        }
    }
}

/// One named value within a document.
#[derive(Debug, Clone, PartialEq)]
pub struct SolrField {
    pub name: String,
    pub value: FieldValue,
}

impl View for SolrField {
    type V = (Seq<char>, FieldModel);

    open spec fn view(&self) -> (Seq<char>, FieldModel) {
        (self.name@, self.value@)
    }
}

/// A schema-less record: an ordered sequence of (name, value) pairs.
///
/// Field names need not be unique; duplicates and insertion order are
/// preserved, since multi-valued fields are order-sensitive.
#[derive(Debug, Clone, PartialEq)]
pub struct SolrDocument {
    pub fields: Vec<SolrField>,
}

impl View for SolrDocument {
    type V = Seq<(Seq<char>, FieldModel)>;

    open spec fn view(&self) -> Seq<(Seq<char>, FieldModel)> {
        self.fields@.map_values(|f: SolrField| f@)
    }
}

impl SolrDocument {
    /// Constructs a document with no fields.
    pub fn new() -> (r: SolrDocument)
        ensures
            r@ == Seq::<(Seq<char>, FieldModel)>::empty(),
    {
        let r = SolrDocument { fields: Vec::new() };
        proof {
            assert(r@ =~= Seq::<(Seq<char>, FieldModel)>::empty());
        }
        r
    }

    /// Appends one (name, value) pair; never fails and validates nothing,
    /// since the server, not the client, enforces any schema.
    pub fn add_field(&mut self, name: &str, value: FieldValue)
        ensures
            final(self)@ == old(self)@.push((name@, value@)),
    {
        let ghost before = self@;
        let v = value;
        let ghost vm = v@;
        self.fields.push(SolrField { name: name.to_owned(), value: v });
        proof {
            assert(self@ =~= before.push((name@, vm)));
        }
    }
}

} // verus!
