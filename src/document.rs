//! Stored documents as plain values: ordered fields of named values, typed
//! access to a field, and the collection queries the store answers.

use crate::error::Error;
use crate::ids::RecordId;
use vstd::prelude::*;

verus! {

/// A value held in a document field.
#[derive(Clone, Debug, PartialEq, Eq)]
pub enum Value {
    Str(String),
    ObjectId(RecordId),
    Int32(i32),
    /// Milliseconds since the Unix epoch.
    DateTime(i64),
    /// A value of a kind that no entity of this library reads.
    Unsupported,
}

/// The mathematical form of a `Value`.
pub enum ValueView {
    Str(Seq<char>),
    ObjectId(Seq<u8>),
    Int32(i32),
    DateTime(i64),
    Unsupported,
}

impl View for Value {
    type V = ValueView;

    open spec fn view(&self) -> ValueView {
        match self {
            Value::Str(s) => ValueView::Str(s@),
            Value::ObjectId(id) => ValueView::ObjectId(id.bytes@),
            Value::Int32(n) => ValueView::Int32(*n),
            Value::DateTime(t) => ValueView::DateTime(*t),
            Value::Unsupported => ValueView::Unsupported,
        }
    }
}

/// A document: named fields in order.
#[derive(Clone, Debug, PartialEq, Eq)]
pub struct Document {
    pub fields: Vec<(String, Value)>,
}

/// The mathematical form of a document.
pub type DocView = Seq<(Seq<char>, ValueView)>;

pub open spec fn field_view(f: (String, Value)) -> (Seq<char>, ValueView) {
    (f.0@, f.1@)
}

impl View for Document {
    type V = DocView;

    open spec fn view(&self) -> DocView {
        self.fields@.map_values(|f: (String, Value)| field_view(f))
    }
}

/// The value of the first field named `key`.
pub open spec fn field_of(d: DocView, key: Seq<char>) -> Option<ValueView>
    decreases d.len(),
{
    if d.len() == 0 {
        None
    } else if d[0].0 == key {
        Some(d[0].1)
    } else {
        field_of(d.drop_first(), key)
    }
}

/// The text held in field `key`, if it holds text.
pub open spec fn str_field(d: DocView, key: Seq<char>) -> Option<Seq<char>> {
    match field_of(d, key) {
        Some(ValueView::Str(s)) => Some(s),
        _ => None,
    }
}

/// The identifier held in field `key`, if it holds one.
pub open spec fn id_field(d: DocView, key: Seq<char>) -> Option<Seq<u8>> {
    match field_of(d, key) {
        Some(ValueView::ObjectId(id)) => Some(id),
        _ => None,
    }
}

/// The 32-bit integer held in field `key`, if it holds one.
pub open spec fn i32_field(d: DocView, key: Seq<char>) -> Option<i32> {
    match field_of(d, key) {
        Some(ValueView::Int32(n)) => Some(n),
        _ => None,
    }
}

/// The timestamp held in field `key`, if it holds one.
pub open spec fn datetime_field(d: DocView, key: Seq<char>) -> Option<i64> {
    match field_of(d, key) {
        Some(ValueView::DateTime(t)) => Some(t),
        _ => None,
    }
}

/// Is `e` the data-access error that names field `key`.
pub open spec fn names_field(e: Error, key: Seq<char>) -> bool {
    e matches Error::MongoDataError(f) && f@ == key
}

proof fn lemma_field_of_suffix(d: DocView, i: int, key: Seq<char>)
    requires
        0 <= i < d.len(),
        d[i].0 != key,
    ensures
        field_of(d.subrange(i, d.len() as int), key) == field_of(
            d.subrange(i + 1, d.len() as int),
            key,
        ),
{
    assert(d.subrange(i, d.len() as int).drop_first() =~= d.subrange(i + 1, d.len() as int));
}

impl Document {
    /// The value of the first field named `key`.
    pub fn get(&self, key: &str) -> (r: Option<&Value>)
        ensures
            r matches Some(v) ==> field_of(self@, key@) == Some(v@),
            r is None ==> field_of(self@, key@) is None,
    {
        let k = String::from_str(key);
        let n = self.fields.len();
        let mut i: usize = 0;
        assert(self@.subrange(0, n as int) =~= self@);
        while i < n
            invariant
                n == self.fields@.len(),
                0 <= i <= n,
                k@ == key@,
                field_of(self@, key@) == field_of(self@.subrange(i as int, n as int), key@),
            decreases n - i,
        {
            let f = &self.fields[i];
            proof {
                assert(self@[i as int] == field_view(self.fields@[i as int]));
                assert(self@.subrange(i as int, n as int)[0] == self@[i as int]);
            }
            if f.0 == k {
                return Some(&f.1);
            }
            proof {
                lemma_field_of_suffix(self@, i as int, key@);
            }
            i = i + 1;
        }
        None
    }

    /// The text in field `key`; `MongoDataError(key)` when it is missing or
    /// holds something else.
    pub fn get_str(&self, key: &str) -> (r: Result<&String, Error>)
        ensures
            r matches Ok(s) ==> str_field(self@, key@) == Some(s@),
            r matches Err(e) ==> str_field(self@, key@) is None && names_field(e, key@),
    {
        match self.get(key) {
            Some(Value::Str(s)) => Ok(s),
            _ => Err(Error::MongoDataError(String::from_str(key))),
        }
    }

    /// The identifier in field `key`; `MongoDataError(key)` when it is missing
    /// or holds something else.
    pub fn get_object_id(&self, key: &str) -> (r: Result<RecordId, Error>)
        ensures
            r matches Ok(id) ==> id_field(self@, key@) == Some(id.bytes@),
            r matches Err(e) ==> id_field(self@, key@) is None && names_field(e, key@),
    {
        match self.get(key) {
            Some(Value::ObjectId(id)) => Ok(*id),
            _ => Err(Error::MongoDataError(String::from_str(key))),
        }
    }

    /// The 32-bit integer in field `key`; `MongoDataError(key)` when it is
    /// missing or holds something else.
    pub fn get_i32(&self, key: &str) -> (r: Result<i32, Error>)
        ensures
            r matches Ok(n) ==> i32_field(self@, key@) == Some(n),
            r matches Err(e) ==> i32_field(self@, key@) is None && names_field(e, key@),
    {
        match self.get(key) {
            Some(Value::Int32(n)) => Ok(*n),
            _ => Err(Error::MongoDataError(String::from_str(key))),
        }
    }

    /// The timestamp in field `key`; `MongoDataError(key)` when it is missing
    /// or holds something else.
    pub fn get_datetime(&self, key: &str) -> (r: Result<i64, Error>)
        ensures
            r matches Ok(t) ==> datetime_field(self@, key@) == Some(t),
            r matches Err(e) ==> datetime_field(self@, key@) is None && names_field(e, key@),
    {
        match self.get(key) {
            Some(Value::DateTime(t)) => Ok(*t),
            _ => Err(Error::MongoDataError(String::from_str(key))),
        }
    }
}

/// Does `d` hold every field of `filter` with the same value.
pub open spec fn matches_filter(d: DocView, filter: DocView) -> bool {
    forall|i: int| 0 <= i < filter.len() ==> field_of(d, #[trigger] filter[i].0) == Some(filter[i].1)
}

/// What the store answers to a single-document query: the first document of
/// the collection that matches `filter`.
pub open spec fn find_one(coll: Seq<DocView>, filter: DocView) -> Option<DocView>
    decreases coll.len(),
{
    if coll.len() == 0 {
        None
    } else if matches_filter(coll[0], filter) {
        Some(coll[0])
    } else {
        find_one(coll.drop_first(), filter)
    }
}

/// A document appended to a collection in which nothing matched `filter` is
/// what a query with `filter` finds, if it matches.
pub proof fn lemma_find_one_appended(coll: Seq<DocView>, d: DocView, filter: DocView)
    requires
        find_one(coll, filter) is None,
    ensures
        find_one(coll.push(d), filter) == if matches_filter(d, filter) {
            Some(d)
        } else {
            None::<DocView>
        },
    decreases coll.len(),
{
    if coll.len() == 0 {
        assert(coll.push(d).drop_first() =~= Seq::<DocView>::empty());
    } else {
        assert(coll.push(d).drop_first() =~= coll.drop_first().push(d));
        lemma_find_one_appended(coll.drop_first(), d, filter);
    }
}

proof fn lemma_field_ids_are_12_bytes(fields: Seq<(String, Value)>, key: Seq<char>)
    ensures
        id_field(fields.map_values(|f: (String, Value)| field_view(f)), key) matches Some(b) ==> b.len()
            == 12,
    decreases fields.len(),
{
    if fields.len() > 0 {
        let v = fields.map_values(|f: (String, Value)| field_view(f));
        assert(v.drop_first() =~= fields.drop_first().map_values(
            |f: (String, Value)| field_view(f),
        ));
        lemma_field_ids_are_12_bytes(fields.drop_first(), key);
    }
}

/// Every identifier held in a document is 12 bytes long.
pub proof fn lemma_document_ids_are_12_bytes(d: Document, key: Seq<char>)
    ensures
        id_field(d@, key) matches Some(b) ==> b.len() == 12,
{
    lemma_field_ids_are_12_bytes(d.fields@, key);
}

} // verus!
