//! The generic structured form of a payload: a tree of named fields, lists and
//! scalars, before any schema is applied to it.

use crate::number::Number;
use vstd::prelude::*;

verus! {

/// One named field of a record.
#[derive(Debug, PartialEq, Eq)]
pub struct Member {
    pub name: String,
    pub value: Value,
}

/// A payload in structured form.
#[derive(Debug, PartialEq, Eq)]
pub enum Value {
    Null,
    Bool(bool),
    Number(Number),
    Text(String),
    List(Vec<Value>),
    Record(Vec<Member>),
}

/// What a `Member` stands for.
pub struct Field {
    pub name: Seq<char>,
    pub value: Document,
}

/// What a `Value` stands for.
pub enum Document {
    Null,
    Bool(bool),
    Number(Number),
    Text(Seq<char>),
    List(Seq<Document>),
    Record(Seq<Field>),
}

/// The document that `value` stands for.
pub open spec fn document_of(value: Value) -> Document
    decreases value,
{
    match value {
        Value::Null => Document::Null,
        Value::Bool(b) => Document::Bool(b),
        Value::Number(n) => Document::Number(n),
        Value::Text(s) => Document::Text(s@),
        Value::List(items) => Document::List(
            Seq::new(
                items.len() as nat,
                |i: int|
                    if 0 <= i < items.len() {
                        document_of(items[i])
                    } else {
                        Document::Null
                    },
            ),
        ),
        Value::Record(members) => Document::Record(
            Seq::new(
                members.len() as nat,
                |i: int|
                    if 0 <= i < members.len() {
                        Field { name: members[i].name@, value: document_of(members[i].value) }
                    } else {
                        Field { name: Seq::empty(), value: Document::Null }
                    },
            ),
        ),
    }
}

impl View for Value {
    type V = Document;

    open spec fn view(&self) -> Document {
        document_of(*self)
    }
}

impl View for Member {
    type V = Field;

    open spec fn view(&self) -> Field {
        Field { name: self.name@, value: self.value@ }
    }
}

/// The documents of a sequence of values, in order.
pub open spec fn documents_of(items: Seq<Value>) -> Seq<Document> {
    items.map_values(|v: Value| v@)
}

/// The fields of a sequence of members, in order.
pub open spec fn fields_of(members: Seq<Member>) -> Seq<Field> {
    members.map_values(|m: Member| m@)
}

/// A list stands for the documents of its items.
pub proof fn lemma_list_document(items: Vec<Value>)
    ensures
        Value::List(items)@ == Document::List(documents_of(items@)),
{
    assert(Value::List(items)@->List_0 =~= documents_of(items@));
}

/// A record stands for the fields of its members.
pub proof fn lemma_record_document(members: Vec<Member>)
    ensures
        Value::Record(members)@ == Document::Record(fields_of(members@)),
{
    assert(Value::Record(members)@->Record_0 =~= fields_of(members@));
}

impl Value {
    /// The number that this value holds, if it holds one.
    pub fn as_number(&self) -> (n: Option<Number>)
        ensures
            n == (match self@ {
                Document::Number(x) => Some(x),
                _ => None,
            }),
    {
        match self {
            Value::Number(x) => Some(*x),
            _ => None,
        }
    }

    /// The items of this value, if it is a list.
    pub fn as_list(&self) -> (items: Option<&Vec<Value>>)
        ensures
            match items {
                Some(v) => self@ == Document::List(documents_of(v@)),
                None => !(self@ is List),
            },
    {
        match self {
            Value::List(v) => {
                proof {
                    lemma_list_document(*v);
                }
                Some(v)
            },
            _ => None,
        }
    }

    /// The members of this value, if it is a record.
    pub fn as_record(&self) -> (members: Option<&Vec<Member>>)
        ensures
            match members {
                Some(v) => self@ == Document::Record(fields_of(v@)),
                None => !(self@ is Record),
            },
    {
        match self {
            Value::Record(v) => {
                proof {
                    lemma_record_document(*v);
                }
                Some(v)
            },
            _ => None,
        }
    }
}

} // verus!
