//! Strings restricted to a maximum stored length.
//!
//! Databases enforce a column's `max_length` on insertion; this type forces
//! the same check at construction time, so an over-long string is rejected
//! before it reaches the database.  Decoding a stored value that exceeds
//! the bound fails with a decode error — stored data is never truncated.

use vstd::prelude::*;

use crate::row::{ColRef, DecodeCause, DecodeError, Decoder, Row};
use crate::value::{NullType, Value};

verus! {

use vstd::utf8::encode_utf8;

/// The length measure: the string's UTF-8 byte count, which is what the
/// supported databases bound.
pub struct NumBytes;

/// The stored length of a string: its UTF-8 byte count (as the platform
/// reports it).
pub open spec fn byte_len(s: Seq<char>) -> usize {
    encode_utf8(s).len() as usize
}

/// A string whose stored length is at most `MAX_LEN` bytes.
#[derive(Debug)]
pub struct MaxStr<const MAX_LEN: usize> {
    string: String,
}

impl<const MAX_LEN: usize> View for MaxStr<MAX_LEN> {
    type V = Seq<char>;

    closed spec fn view(&self) -> Seq<char> {
        self.string@
    }
}

/// The [`MaxStr`] wrapping a given string, for use in specifications.
pub closed spec fn wrapped<const MAX_LEN: usize>(string: String) -> MaxStr<MAX_LEN> {
    MaxStr { string }
}

/// What [`wrapped`] holds: exactly the given string.
pub broadcast proof fn lemma_wrapped_view<const MAX_LEN: usize>(string: String)
    ensures
        (#[trigger] wrapped::<MAX_LEN>(string))@ == string@,
{
}

/// Error returned by [`MaxStr`]'s constructors when the input is too long.
#[derive(Debug)]
pub struct MaxLenError {
    /// The rejected string.
    pub string: String,
    /// The maximum length which was exceeded.
    pub max: usize,
    /// The string's stored length.
    pub got: usize,
}

impl<const MAX_LEN: usize> MaxStr<MAX_LEN> {
    /// A value of this type always respects its bound.
    pub open spec fn wf(&self) -> bool {
        byte_len(self@) <= MAX_LEN
    }

    /// Wraps a string, rejecting it if it is too long.
    pub fn new(string: String) -> (r: Result<MaxStr<MAX_LEN>, MaxLenError>)
        ensures
            r is Ok <==> byte_len(string@) <= MAX_LEN,
            r matches Ok(m) ==> m@ == string@ && m.wf(),
            r matches Err(e) ==> e.string == string && e.max == MAX_LEN && e.got == byte_len(
                string@,
            ),
    {
        Self::with_impl(string, NumBytes)
    }

    /// Wraps a string using an explicit length measure, rejecting it if it
    /// is too long.
    pub fn with_impl(string: String, len_impl: NumBytes) -> (r: Result<
        MaxStr<MAX_LEN>,
        MaxLenError,
    >)
        ensures
            r is Ok <==> byte_len(string@) <= MAX_LEN,
            r matches Ok(m) ==> m@ == string@ && m.wf(),
            r matches Err(e) ==> e.string == string && e.max == MAX_LEN && e.got == byte_len(
                string@,
            ),
    {
        let got = string.as_str().len();
        if got > MAX_LEN {
            Err(MaxLenError { string, max: MAX_LEN, got })
        } else {
            Ok(MaxStr { string })
        }
    }

    /// The stored length of the wrapped string, in bytes.
    pub fn len(&self) -> (r: usize)
        ensures
            r == byte_len(self@),
    {
        self.string.as_str().len()
    }

    /// Borrow the wrapped string.
    pub fn as_ref(&self) -> (r: &str)
        ensures
            r@ == self@,
    {
        self.string.as_str()
    }
}

/// Decoder for a [`MaxStr`] column: reads a string cell and enforces the
/// bound, rather than truncating.
pub struct MaxStrDecoder<const MAX_LEN: usize> {
    /// The column to read, by name.
    pub column: String,
    /// The column to read, by position.
    pub index: usize,
}

impl<const MAX_LEN: usize> Decoder for MaxStrDecoder<MAX_LEN> {
    type Result = MaxStr<MAX_LEN>;

    open spec fn wf(&self) -> bool {
        true
    }

    open spec fn col_string(&self) -> String {
        self.column
    }

    open spec fn col_index(&self) -> usize {
        self.index
    }

    open spec fn spec_decode(&self, cell: Option<Value>) -> Result<Seq<char>, DecodeCause> {
        match cell {
            None => Err(DecodeCause::NoSuchColumn),
            Some(v) => match v {
                Value::String(s) => if byte_len(s@) <= MAX_LEN {
                    Ok(s@)
                } else {
                    Err(
                        DecodeCause::TooLong {
                            max: MAX_LEN,
                            got: byte_len(s@),
                        },
                    )
                },
                _ => Err(DecodeCause::TypeMismatch),
            },
        }
    }

    fn by_name(&self, row: &Row) -> (r: Result<MaxStr<MAX_LEN>, DecodeError>) {
        match row.cell_by_name(self.column.as_str()) {
            None => Err(
                DecodeError {
                    col: ColRef::Name(self.column.clone()),
                    cause: DecodeCause::NoSuchColumn,
                },
            ),
            Some(v) => match decode_bounded::<MAX_LEN>(v) {
                Ok(m) => Ok(m),
                Err(c) => Err(DecodeError { col: ColRef::Name(self.column.clone()), cause: c }),
            },
        }
    }

    fn by_index(&self, row: &Row) -> (r: Result<MaxStr<MAX_LEN>, DecodeError>) {
        match row.cell_by_index(self.index) {
            None => Err(
                DecodeError { col: ColRef::Index(self.index), cause: DecodeCause::NoSuchColumn },
            ),
            Some(v) => match decode_bounded::<MAX_LEN>(v) {
                Ok(m) => Ok(m),
                Err(c) => Err(DecodeError { col: ColRef::Index(self.index), cause: c }),
            },
        }
    }
}

/// Read a bounded string out of a cell: the string's characters when the
/// cell holds a string within the bound, the exact failure otherwise.
fn decode_bounded<const MAX_LEN: usize>(v: &Value) -> (r: Result<MaxStr<MAX_LEN>, DecodeCause>)
    ensures
        match v {
            Value::String(s) => if byte_len(s@) <= MAX_LEN {
                r == Ok::<MaxStr<MAX_LEN>, DecodeCause>(wrapped::<MAX_LEN>(*s))
            } else {
                r == Err::<MaxStr<MAX_LEN>, DecodeCause>(
                    DecodeCause::TooLong { max: MAX_LEN, got: byte_len(s@) },
                )
            },
            _ => r == Err::<MaxStr<MAX_LEN>, DecodeCause>(DecodeCause::TypeMismatch),
        },
{
    match v {
        Value::String(s) => {
            let got = s.as_str().len();
            if got <= MAX_LEN {
                let m = MaxStr { string: s.clone() };
                proof {
                    assert(m == wrapped::<MAX_LEN>(*s));
                }
                Ok(m)
            } else {
                Err(DecodeCause::TooLong { max: MAX_LEN, got })
            }
        },
        _ => Err(DecodeCause::TypeMismatch),
    }
}

/// Decoder for a nullable [`MaxStr`] column.
pub struct OptionMaxStrDecoder<const MAX_LEN: usize> {
    /// The column to read, by name.
    pub column: String,
    /// The column to read, by position.
    pub index: usize,
}

impl<const MAX_LEN: usize> Decoder for OptionMaxStrDecoder<MAX_LEN> {
    type Result = Option<MaxStr<MAX_LEN>>;

    open spec fn wf(&self) -> bool {
        true
    }

    open spec fn col_string(&self) -> String {
        self.column
    }

    open spec fn col_index(&self) -> usize {
        self.index
    }

    open spec fn spec_decode(&self, cell: Option<Value>) -> Result<
        Option<MaxStr<MAX_LEN>>,
        DecodeCause,
    > {
        match cell {
            None => Err(DecodeCause::NoSuchColumn),
            Some(v) => match v {
                Value::Null(NullType::String) => Ok(None),
                Value::String(s) => if byte_len(s@) <= MAX_LEN {
                    Ok(Some(wrapped::<MAX_LEN>(s)))
                } else {
                    Err(
                        DecodeCause::TooLong {
                            max: MAX_LEN,
                            got: byte_len(s@),
                        },
                    )
                },
                _ => Err(DecodeCause::TypeMismatch),
            },
        }
    }

    fn by_name(&self, row: &Row) -> (r: Result<Option<MaxStr<MAX_LEN>>, DecodeError>) {
        match row.cell_by_name(self.column.as_str()) {
            None => Err(
                DecodeError {
                    col: ColRef::Name(self.column.clone()),
                    cause: DecodeCause::NoSuchColumn,
                },
            ),
            Some(v) => match v {
                Value::Null(NullType::String) => Ok(None),
                _ => match decode_bounded::<MAX_LEN>(v) {
                    Ok(m) => Ok(Some(m)),
                    Err(c) => Err(
                        DecodeError { col: ColRef::Name(self.column.clone()), cause: c },
                    ),
                },
            },
        }
    }

    fn by_index(&self, row: &Row) -> (r: Result<Option<MaxStr<MAX_LEN>>, DecodeError>) {
        match row.cell_by_index(self.index) {
            None => Err(
                DecodeError { col: ColRef::Index(self.index), cause: DecodeCause::NoSuchColumn },
            ),
            Some(v) => match v {
                Value::Null(NullType::String) => Ok(None),
                _ => match decode_bounded::<MAX_LEN>(v) {
                    Ok(m) => Ok(Some(m)),
                    Err(c) => Err(DecodeError { col: ColRef::Index(self.index), cause: c }),
                },
            },
        }
    }
}

/// The annotations a bounded string implies for its field: the bound
/// itself as the maximum length.
pub struct ImplicitMaxLength(pub usize);

impl ImplicitMaxLength {
    /// The implied annotation record.
    pub fn annotations(&self) -> (r: crate::annotations::Annotations)
        ensures
            r.max_length == Some(self.0),
            !r.nullable,
            !r.auto_create_time,
            !r.auto_update_time,
            !r.auto_increment,
            r.choices is None,
            r.default_value is None,
            !r.index,
            !r.primary_key,
            !r.unique,
            r.foreign_key is None,
    {
        let mut a = crate::annotations::Annotations::empty();
        a.max_length = Some(self.0);
        a
    }
}

/// The annotations a nullable bounded string implies for its field: the
/// maximum length together with nullability.
pub struct ImplicitMaxLengthAndNullable(pub usize);

impl ImplicitMaxLengthAndNullable {
    /// The implied annotation record.
    pub fn annotations(&self) -> (r: crate::annotations::Annotations)
        ensures
            r.max_length == Some(self.0),
            r.nullable,
            !r.auto_create_time,
            !r.auto_update_time,
            !r.auto_increment,
            r.choices is None,
            r.default_value is None,
            !r.index,
            !r.primary_key,
            !r.unique,
            r.foreign_key is None,
    {
        let mut a = crate::annotations::Annotations::empty();
        a.max_length = Some(self.0);
        a.nullable = true;
        a
    }
}

} // verus!
