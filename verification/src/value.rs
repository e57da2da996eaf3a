//! The closed set of primitive wire values used as query parameters and
//! condition leaves.

use vstd::prelude::*;

verus! {

/// A calendar date, stored as plain year, month and day numbers.
///
/// The engine never computes with dates; it only carries them between the
/// caller and the database driver, so no calendar arithmetic is defined here.
#[derive(Clone, Copy, PartialEq, Eq, Structural, Debug)]
pub struct NaiveDate {
    /// Calendar year.
    pub year: i32,
    /// Month of the year, starting at 1.
    pub month: u8,
    /// Day of the month, starting at 1.
    pub day: u8,
}

/// A time of day, stored as plain hour, minute and second numbers.
#[derive(Clone, Copy, PartialEq, Eq, Structural, Debug)]
pub struct NaiveTime {
    /// Hour of the day, from 0 to 23.
    pub hour: u8,
    /// Minute of the hour, from 0 to 59.
    pub minute: u8,
    /// Second of the minute, from 0 to 59.
    pub second: u8,
}

/// A combined date and time.
#[derive(Clone, Copy, PartialEq, Eq, Structural, Debug)]
pub struct NaiveDateTime {
    /// The date part.
    pub date: NaiveDate,
    /// The time part.
    pub time: NaiveTime,
}

impl View for NaiveDate {
    type V = NaiveDate;

    open spec fn view(&self) -> NaiveDate {
        *self
    }
}

impl View for NaiveTime {
    type V = NaiveTime;

    open spec fn view(&self) -> NaiveTime {
        *self
    }
}

impl View for NaiveDateTime {
    type V = NaiveDateTime;

    open spec fn view(&self) -> NaiveDateTime {
        *self
    }
}

/// The declared type of a null value.
///
/// A bare `NULL` carries no type of its own, but the engine still tracks
/// which column type it stands in for, so that decoding stays type-checked.
#[derive(Clone, Copy, PartialEq, Eq, Structural, Debug)]
pub enum NullType {
    /// Null in a boolean column.
    Bool,
    /// Null in a 16 bit integer column.
    I16,
    /// Null in a 32 bit integer column.
    I32,
    /// Null in a 64 bit integer column.
    I64,
    /// Null in a string column.
    String,
    /// Null in a binary column.
    Binary,
    /// Null in a date column.
    Date,
    /// Null in a time column.
    Time,
    /// Null in a datetime column.
    DateTime,
}

/// The database type of a column, as declared in model metadata and
/// exported in the intermediate model representation.
///
/// `Float` and `Double` are part of the declared vocabulary; the engine
/// carries no floating-point values itself, so no [`Value`] variant binds to
/// those columns.
#[derive(Clone, Copy, PartialEq, Eq, Structural, Debug)]
pub enum DbType {
    /// A boolean column.
    Boolean,
    /// A 16 bit integer column.
    Int16,
    /// A 32 bit integer column.
    Int32,
    /// A 64 bit integer column.
    Int64,
    /// A single precision floating point column.
    Float,
    /// A double precision floating point column.
    Double,
    /// A variable length string column.
    VarChar,
    /// A variable length binary column.
    VarBinary,
    /// A date column.
    Date,
    /// A datetime column.
    DateTime,
    /// A time column.
    Time,
    /// A column restricted to a closed set of strings.
    Choices,
}

/// A primitive value, used both as a query parameter and as a condition leaf.
///
/// The [`Value::Ident`] variant is never treated as user data: it is emitted
/// unescaped (only quoted) as a column or table reference and must never
/// originate from untrusted input.  Every other variant becomes a bound
/// placeholder when SQL is rendered.
#[derive(Debug)]
pub enum Value {
    /// A typed null.
    Null(NullType),
    /// A boolean.
    Bool(bool),
    /// A 16 bit integer.
    I16(i16),
    /// A 32 bit integer.
    I32(i32),
    /// A 64 bit integer.
    I64(i64),
    /// A string.
    String(String),
    /// A binary blob.
    Binary(Vec<u8>),
    /// An identifier, i.e. a column or table reference.
    Ident(String),
    /// A calendar date.
    Date(NaiveDate),
    /// A time of day.
    Time(NaiveTime),
    /// A combined date and time.
    DateTime(NaiveDateTime),
}

/// The mathematical shape of a [`Value`]: strings become character
/// sequences and binary blobs become byte sequences.
pub enum ValueView {
    /// A typed null.
    Null(NullType),
    /// A boolean.
    Bool(bool),
    /// A 16 bit integer.
    I16(i16),
    /// A 32 bit integer.
    I32(i32),
    /// A 64 bit integer.
    I64(i64),
    /// A string.
    String(Seq<char>),
    /// A binary blob.
    Binary(Seq<u8>),
    /// An identifier.
    Ident(Seq<char>),
    /// A calendar date.
    Date(NaiveDate),
    /// A time of day.
    Time(NaiveTime),
    /// A combined date and time.
    DateTime(NaiveDateTime),
}

impl View for Value {
    type V = ValueView;

    open spec fn view(&self) -> ValueView {
        match self {
            Value::Null(t) => ValueView::Null(*t),
            Value::Bool(b) => ValueView::Bool(*b),
            Value::I16(i) => ValueView::I16(*i),
            Value::I32(i) => ValueView::I32(*i),
            Value::I64(i) => ValueView::I64(*i),
            Value::String(s) => ValueView::String(s@),
            Value::Binary(b) => ValueView::Binary(b@),
            Value::Ident(s) => ValueView::Ident(s@),
            Value::Date(d) => ValueView::Date(*d),
            Value::Time(t) => ValueView::Time(*t),
            Value::DateTime(dt) => ValueView::DateTime(*dt),
        }
    }
}

impl Value {
    /// Whether this value is an identifier, i.e. a column or table reference
    /// rather than user data.
    pub open spec fn spec_is_ident(&self) -> bool {
        self is Ident
    }

    /// Executable twin of [`Value::spec_is_ident`].
    #[verifier::when_used_as_spec(spec_is_ident)]
    pub fn is_ident(&self) -> (r: bool)
        ensures
            r == self.spec_is_ident(),
    {
        match self {
            Value::Ident(_) => true,
            _ => false,
        }
    }

    /// Produce a value with the same content.
    pub fn duplicate(&self) -> (r: Value)
        ensures
            r@ == self@,
    {
        match self {
            Value::Null(t) => Value::Null(*t),
            Value::Bool(b) => Value::Bool(*b),
            Value::I16(i) => Value::I16(*i),
            Value::I32(i) => Value::I32(*i),
            Value::I64(i) => Value::I64(*i),
            Value::String(s) => Value::String(s.clone()),
            Value::Binary(b) => Value::Binary(copy_bytes(b)),
            Value::Ident(s) => Value::Ident(s.clone()),
            Value::Date(d) => Value::Date(*d),
            Value::Time(t) => Value::Time(*t),
            Value::DateTime(dt) => Value::DateTime(*dt),
        }
    }
}

/// Map a data-free enumeration onto a database choice column.
///
/// Implementors store a variant as its string tag; the engine treats the
/// closed set of tags as the column's choices.  Implemented by library
/// users for their own enumerations; nothing here implements it.
pub trait DbEnum: Sized {
    /// Convert a stored tag into its variant; `None` for an unrecognized
    /// tag, which signals database/application schema drift.
    fn from_tag(tag: &str) -> Option<Self>;

    /// The variant's stored tag.
    fn to_tag(&self) -> &'static str;

    /// All variants' tags, the column's choices.
    fn as_choices() -> Vec<String>;
}

/// The null tag that belongs to a column type, where one exists.
pub open spec fn null_type_of(d: DbType) -> Option<NullType> {
    match d {
        DbType::Boolean => Some(NullType::Bool),
        DbType::Int16 => Some(NullType::I16),
        DbType::Int32 => Some(NullType::I32),
        DbType::Int64 => Some(NullType::I64),
        DbType::Float => None,
        DbType::Double => None,
        DbType::VarChar => Some(NullType::String),
        DbType::VarBinary => Some(NullType::Binary),
        DbType::Date => Some(NullType::Date),
        DbType::DateTime => Some(NullType::DateTime),
        DbType::Time => Some(NullType::Time),
        DbType::Choices => Some(NullType::String),
    }
}

/// Whether a wire value may bind to a column of the given type.
///
/// An identifier is a column reference, not data; it is admitted here and
/// its validity is checked against the registry before rendering.
pub open spec fn value_fits(d: DbType, v: ValueView) -> bool {
    match v {
        ValueView::Null(t) => null_type_of(d) == Some(t),
        ValueView::Bool(_) => d is Boolean,
        ValueView::I16(_) => d is Int16,
        ValueView::I32(_) => d is Int32,
        ValueView::I64(_) => d is Int64,
        ValueView::String(_) => d is VarChar || d is Choices,
        ValueView::Binary(_) => d is VarBinary,
        ValueView::Ident(_) => true,
        ValueView::Date(_) => d is Date,
        ValueView::Time(_) => d is Time,
        ValueView::DateTime(_) => d is DateTime,
    }
}

/// The equality comparison family: any value that fits the column type may
/// be compared for equality.
pub open spec fn eq_comparable(d: DbType, v: ValueView) -> bool {
    value_fits(d, v)
}

/// Column types whose values form an order.
pub open spec fn ordered_type(d: DbType) -> bool {
    d is Int16 || d is Int32 || d is Int64 || d is VarChar || d is Date || d is Time
        || d is DateTime
}

/// The ordering comparison family.
pub open spec fn ord_comparable(d: DbType, v: ValueView) -> bool {
    value_fits(d, v) && ordered_type(d)
}

/// The pattern-match (`LIKE`) comparison family: string columns only.
pub open spec fn like_comparable(d: DbType, v: ValueView) -> bool {
    value_fits(d, v) && d is VarChar
}

/// The regular-expression comparison family: string columns only.
pub open spec fn regexp_comparable(d: DbType, v: ValueView) -> bool {
    value_fits(d, v) && d is VarChar
}

/// Executable check of [`value_fits`].
pub fn check_value_fits(d: DbType, v: &Value) -> (r: bool)
    ensures
        r == value_fits(d, v@),
{
    match v {
        Value::Null(t) => match null_type_of_exec(d) {
            Some(n) => n == *t,
            None => false,
        },
        Value::Bool(_) => matches!(d, DbType::Boolean),
        Value::I16(_) => matches!(d, DbType::Int16),
        Value::I32(_) => matches!(d, DbType::Int32),
        Value::I64(_) => matches!(d, DbType::Int64),
        Value::String(_) => matches!(d, DbType::VarChar | DbType::Choices),
        Value::Binary(_) => matches!(d, DbType::VarBinary),
        Value::Ident(_) => true,
        Value::Date(_) => matches!(d, DbType::Date),
        Value::Time(_) => matches!(d, DbType::Time),
        Value::DateTime(_) => matches!(d, DbType::DateTime),
    }
}

/// Executable twin of [`null_type_of`].
pub fn null_type_of_exec(d: DbType) -> (r: Option<NullType>)
    ensures
        r == null_type_of(d),
{
    match d {
        DbType::Boolean => Some(NullType::Bool),
        DbType::Int16 => Some(NullType::I16),
        DbType::Int32 => Some(NullType::I32),
        DbType::Int64 => Some(NullType::I64),
        DbType::Float => None,
        DbType::Double => None,
        DbType::VarChar => Some(NullType::String),
        DbType::VarBinary => Some(NullType::Binary),
        DbType::Date => Some(NullType::Date),
        DbType::DateTime => Some(NullType::DateTime),
        DbType::Time => Some(NullType::Time),
        DbType::Choices => Some(NullType::String),
    }
}

/// Executable check of [`eq_comparable`].
pub fn check_eq_comparable(d: DbType, v: &Value) -> (r: bool)
    ensures
        r == eq_comparable(d, v@),
{
    check_value_fits(d, v)
}

/// Executable check of [`ordered_type`].
pub fn check_ordered_type(d: DbType) -> (r: bool)
    ensures
        r == ordered_type(d),
{
    matches!(
        d,
        DbType::Int16 | DbType::Int32 | DbType::Int64 | DbType::VarChar | DbType::Date
            | DbType::Time | DbType::DateTime
    )
}

/// Executable check of [`ord_comparable`].
pub fn check_ord_comparable(d: DbType, v: &Value) -> (r: bool)
    ensures
        r == ord_comparable(d, v@),
{
    check_value_fits(d, v) && check_ordered_type(d)
}

/// Executable check of [`like_comparable`].
pub fn check_like_comparable(d: DbType, v: &Value) -> (r: bool)
    ensures
        r == like_comparable(d, v@),
{
    check_value_fits(d, v) && matches!(d, DbType::VarChar)
}

/// Executable check of [`regexp_comparable`].
pub fn check_regexp_comparable(d: DbType, v: &Value) -> (r: bool)
    ensures
        r == regexp_comparable(d, v@),
{
    check_value_fits(d, v) && matches!(d, DbType::VarChar)
}

/// Copy a byte vector.
pub fn copy_bytes(b: &Vec<u8>) -> (r: Vec<u8>)
    ensures
        r@ == b@,
{
    let mut r: Vec<u8> = Vec::new();
    let mut i: usize = 0;
    while i < b.len()
        invariant
            i <= b.len(),
            r@ == b@.subrange(0, i as int),
        decreases b.len() - i,
    {
        r.push(b[i]);
        i = i + 1;
        proof {
            assert(r@ =~= b@.subrange(0, i as int));
        }
    }
    proof {
        assert(r@ =~= b@);
    }
    r
}

} // verus!
