//! Structured log records: a level, a message and an ordered list of named
//! values. The stages produce them; writing them out is the caller's part.

use vstd::prelude::*;

verus! {

/// The severity of a record.
#[derive(Debug, Clone, Copy, PartialEq, Eq, Structural)]
pub enum Level {
    Trace,
    Debug,
    Info,
    Warn,
    Error,
}

/// The value of one field of a record.
#[derive(Debug)]
pub enum Value {
    Text(String),
    Number(u64),
    /// The field is named but has no value.
    Missing,
}

/// What a `Value` holds.
pub enum ValueView {
    Text(Seq<char>),
    Number(u64),
    Missing,
}

impl View for Value {
    type V = ValueView;

    open spec fn view(&self) -> ValueView {
        match *self {
            Value::Text(s) => ValueView::Text(s@),
            Value::Number(n) => ValueView::Number(n),
            Value::Missing => ValueView::Missing,
        }
    }
}

impl Value {
    /// The text of `s`.
    pub fn text(s: &str) -> (r: Self)
        ensures
            r@ == ValueView::Text(s@),
    {
        Value::Text(s.to_owned())
    }

    /// The text in `s`, or `Missing`.
    pub fn optional_text(s: &Option<String>) -> (r: Self)
        ensures
            r@ == optional_text_view(*s),
    {
        match s {
            Some(text) => Value::Text(text.clone()),
            None => Value::Missing,
        }
    }

    /// The number in `n`, or `Missing`.
    pub fn optional_size(n: Option<usize>) -> (r: Self)
        ensures
            r@ == optional_size_view(n),
    {
        match n {
            Some(size) => Value::Number(size as u64),
            None => Value::Missing,
        }
    }
}

/// The view of the value that `Value::optional_text` makes.
pub open spec fn optional_text_view(s: Option<String>) -> ValueView {
    match s {
        Some(text) => ValueView::Text(text@),
        None => ValueView::Missing,
    }
}

/// The view of the value that `Value::optional_size` makes.
pub open spec fn optional_size_view(n: Option<usize>) -> ValueView {
    match n {
        Some(size) => ValueView::Number(size as u64),
        None => ValueView::Missing,
    }
}

/// One named value.
#[derive(Debug)]
pub struct Field {
    pub key: String,
    pub value: Value,
}

/// What a `Field` holds.
pub struct FieldView {
    pub key: Seq<char>,
    pub value: ValueView,
}

impl View for Field {
    type V = FieldView;

    open spec fn view(&self) -> FieldView {
        FieldView { key: self.key@, value: self.value@ }
    }
}

/// The views of a list of fields, in order.
pub open spec fn field_views(fields: Seq<Field>) -> Seq<FieldView> {
    fields.map_values(|f: Field| f@)
}

/// A field list made of one field.
pub open spec fn one(key: Seq<char>, value: ValueView) -> Seq<FieldView> {
    seq![FieldView { key, value }]
}

/// Appends the field `key: value`.
pub fn push_field(fields: &mut Vec<Field>, key: &str, value: Value)
    ensures
        field_views(final(fields)@) == field_views(old(fields)@) + one(key@, value@),
{
    fields.push(Field { key: key.to_owned(), value });
    assert(field_views(fields@) =~= field_views(old(fields)@) + one(key@, value@));
}

/// A log record.
#[derive(Debug)]
pub struct LogRecord {
    pub level: Level,
    pub message: String,
    pub fields: Vec<Field>,
}

/// What a `LogRecord` holds.
pub struct RecordView {
    pub level: Level,
    pub message: Seq<char>,
    pub fields: Seq<FieldView>,
}

impl View for LogRecord {
    type V = RecordView;

    open spec fn view(&self) -> RecordView {
        RecordView {
            level: self.level,
            message: self.message@,
            fields: field_views(self.fields@),
        }
    }
}

} // verus!
