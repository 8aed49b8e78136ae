//! The action envelope: the structured request that a command compiles to,
//! an action name with an ordered list of named fields.
use vstd::prelude::*;
use vstd::string::*;

verus! {

/// A field value inside a record of a list of records.
#[derive(Debug)]
pub enum Scalar {
    Bool(bool),
    Int(i64),
    Text(String),
}

/// A named entry of a record.
#[derive(Debug)]
pub struct Entry {
    pub key: String,
    pub value: Scalar,
}

/// The value of an envelope field.
#[derive(Debug)]
pub enum Value {
    Null,
    Bool(bool),
    Int(i128),
    /// A number, kept as the floating-point literal it was read from.
    Decimal(String),
    Text(String),
    TextList(Vec<String>),
    /// A JSON document, kept as its (well-formed) text.
    Json(String),
    Records(Vec<Vec<Entry>>),
}

/// A named envelope field.
#[derive(Debug)]
pub struct Field {
    pub key: String,
    pub value: Value,
}

/// One compiled request: a correlation id, an action name and the
/// action's fields, each key at most once.
#[derive(Debug)]
pub struct Envelope {
    pub id: String,
    pub action: String,
    pub fields: Vec<Field>,
}

pub enum ScalarModel {
    Bool(bool),
    Int(int),
    Text(Seq<char>),
}

pub enum ValueModel {
    Null,
    Bool(bool),
    Int(int),
    Decimal(Seq<char>),
    Text(Seq<char>),
    TextList(Seq<Seq<char>>),
    Json(Seq<char>),
    Records(Seq<Seq<(Seq<char>, ScalarModel)>>),
}

pub struct EnvelopeModel {
    pub id: Seq<char>,
    pub action: Seq<char>,
    pub fields: Seq<(Seq<char>, ValueModel)>,
}

impl View for Scalar {
    type V = ScalarModel;

    open spec fn view(&self) -> ScalarModel {
        match self {
            Scalar::Bool(b) => ScalarModel::Bool(*b),
            Scalar::Int(i) => ScalarModel::Int(*i as int),
            Scalar::Text(t) => ScalarModel::Text(t@),
        }
    }
}

pub open spec fn record_view(r: Seq<Entry>) -> Seq<(Seq<char>, ScalarModel)> {
    r.map_values(|e: Entry| (e.key@, e.value@))
}

impl View for Value {
    type V = ValueModel;

    open spec fn view(&self) -> ValueModel {
        match self {
            Value::Null => ValueModel::Null,
            Value::Bool(b) => ValueModel::Bool(*b),
            Value::Int(i) => ValueModel::Int(*i as int),
            Value::Decimal(t) => ValueModel::Decimal(t@),
            Value::Text(t) => ValueModel::Text(t@),
            Value::TextList(v) => ValueModel::TextList(v@.map_values(|s: String| s@)),
            Value::Json(t) => ValueModel::Json(t@),
            Value::Records(v) => ValueModel::Records(
                v@.map_values(|r: Vec<Entry>| record_view(r@)),
            ),
        }
    }
}

pub open spec fn fields_view(fs: Seq<Field>) -> Seq<(Seq<char>, ValueModel)> {
    fs.map_values(|f: Field| (f.key@, f.value@))
}

impl View for Envelope {
    type V = EnvelopeModel;

    open spec fn view(&self) -> EnvelopeModel {
        EnvelopeModel { id: self.id@, action: self.action@, fields: fields_view(self.fields@) }
    }
}

/// Index of the first field named `k`, or the length where there is none.
pub open spec fn key_index<V>(fs: Seq<(Seq<char>, V)>, k: Seq<char>) -> int
    decreases fs.len(),
{
    if fs.len() == 0 {
        0
    } else if fs[0].0 == k {
        0
    } else {
        1 + key_index(fs.drop_first(), k)
    }
}

/// `fs` with field `k` set to `v`: replaced in place where it exists,
/// appended otherwise.
pub open spec fn put<V>(fs: Seq<(Seq<char>, V)>, k: Seq<char>, v: V) -> Seq<(Seq<char>, V)> {
    let i = key_index(fs, k);
    if i < fs.len() {
        fs.update(i, (k, v))
    } else {
        fs.push((k, v))
    }
}

/// An envelope with no fields yet.
pub open spec fn bare(id: Seq<char>, action: Seq<char>) -> EnvelopeModel {
    EnvelopeModel { id, action, fields: Seq::empty() }
}

/// `e` with field `k` set to `v`.
pub open spec fn with(e: EnvelopeModel, k: Seq<char>, v: ValueModel) -> EnvelopeModel {
    EnvelopeModel { fields: put(e.fields, k, v), ..e }
}

pub open spec fn text(s: Seq<char>) -> ValueModel {
    ValueModel::Text(s)
}

proof fn lemma_key_index_at<V>(fs: Seq<(Seq<char>, V)>, k: Seq<char>, i: int)
    requires
        0 <= i <= fs.len(),
        forall|j: int| 0 <= j < i ==> fs[j].0 != k,
        i == fs.len() || fs[i].0 == k,
    ensures
        key_index(fs, k) == i,
    decreases fs.len(),
{
    if fs.len() > 0 && i > 0 {
        let t = fs.drop_first();
        assert forall|j: int| 0 <= j < i - 1 implies t[j].0 != k by {
            assert(t[j] == fs[j + 1]);
        }
        lemma_key_index_at(t, k, i - 1);
    }
}

impl Envelope {
    /// An envelope with the given id and action and no fields.
    pub fn new(id: &str, action: &str) -> (r: Envelope)
        ensures
            r@ == bare(id@, action@),
    {
        let r = Envelope { id: String::from_str(id), action: String::from_str(action), fields: Vec::new() };
        assert(fields_view(r.fields@) =~= Seq::empty());
        r
    }

    /// Sets field `key` to `value`, replacing an earlier value of that key.
    pub fn set(&mut self, key: &str, value: Value)
        ensures
            final(self)@ == with(old(self)@, key@, value@),
    {
        let ghost fs = fields_view(self.fields@);
        let n = self.fields.len();
        let mut i: usize = 0;
        while i < n
            invariant
                n == self.fields@.len(),
                fs == fields_view(self.fields@),
                self@ == old(self)@,
                i <= n,
                forall|j: int| 0 <= j < i ==> fs[j].0 != key@,
            decreases n - i,
        {
            if crate::text::str_eq(self.fields[i].key.as_str(), key) {
                proof {
                    lemma_key_index_at(fs, key@, i as int);
                }
                let ghost old_fields = self.fields@;
                let f = Field { key: String::from_str(key), value };
                self.fields.set(i, f);
                proof {
                    assert(fields_view(self.fields@) =~= fs.update(i as int, (key@, value@)));
                }
                return;
            }
            i += 1;
        }
        proof {
            lemma_key_index_at(fs, key@, n as int);
        }
        self.fields.push(Field { key: String::from_str(key), value });
        assert(fields_view(self.fields@) =~= fs.push((key@, value@)));
    }

    /// Whether a field named `key` is present.
    pub fn has_key(&self, key: &str) -> (r: bool)
        ensures
            r == (key_index(self@.fields, key@) < self@.fields.len()),
    {
        let ghost fs = fields_view(self.fields@);
        let n = self.fields.len();
        let mut i: usize = 0;
        while i < n
            invariant
                n == self.fields@.len(),
                fs == fields_view(self.fields@),
                i <= n,
                forall|j: int| 0 <= j < i ==> fs[j].0 != key@,
            decreases n - i,
        {
            if crate::text::str_eq(self.fields[i].key.as_str(), key) {
                proof {
                    lemma_key_index_at(fs, key@, i as int);
                }
                return true;
            }
            i += 1;
        }
        proof {
            lemma_key_index_at(fs, key@, n as int);
        }
        false
    }

    /// Sets field `key` to the text `value`.
    pub fn set_text(&mut self, key: &str, value: &str)
        ensures
            final(self)@ == with(old(self)@, key@, text(value@)),
    {
        self.set(key, Value::Text(String::from_str(value)));
    }
}

} // verus!
