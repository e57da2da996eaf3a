//! Result rows and the decoding protocol.
//!
//! A row is an ordered list of named cells.  A [`Decoder`] extracts a typed
//! value from a row either by column name or by positional index; both paths
//! yield the same value for the same cell (see
//! [`lemma_by_name_by_index_agree`]).  A stored value that disagrees with
//! the expected type is a [`DecodeError`], never a silent coercion.

use vstd::prelude::*;

use crate::value::{NaiveDate, NaiveDateTime, NaiveTime, Value, ValueView};

verus! {

/// The index of the first name equal to `x`.
pub open spec fn find_str(ss: Seq<Seq<char>>, x: Seq<char>) -> Option<int>
    decreases ss.len(),
{
    if ss.len() == 0 {
        None
    } else if ss[0] == x {
        Some(0)
    } else {
        match find_str(ss.drop_first(), x) {
            Some(i) => Some(i + 1),
            None => None,
        }
    }
}

/// A name lookup finds something exactly when the name occurs, and what it
/// finds is the first occurrence.
pub proof fn lemma_find_str_spec(ss: Seq<Seq<char>>, x: Seq<char>)
    ensures
        find_str(ss, x) is Some <==> (exists|i: int| 0 <= i < ss.len() && #[trigger] ss[i] == x),
        find_str(ss, x) matches Some(i) ==> 0 <= i < ss.len() && ss[i] == x && (forall|j: int|
            0 <= j < i ==> #[trigger] ss[j] != x),
    decreases ss.len(),
{
    if ss.len() > 0 {
        let rest = ss.drop_first();
        lemma_find_str_spec(rest, x);
        if ss[0] != x {
            assert forall|i: int| 0 <= i < ss.len() && #[trigger] ss[i] == x implies find_str(
                ss,
                x,
            ) is Some by {
                assert(rest[i - 1] == x);
            }
            match find_str(rest, x) {
                Some(i2) => {
                    assert(find_str(ss, x) == Some(i2 + 1));
                    assert(ss[i2 + 1] == rest[i2]);
                    assert forall|j: int| 0 <= j < i2 + 1 implies #[trigger] ss[j] != x by {
                        if j >= 1 {
                            assert(ss[j] == rest[j - 1]);
                        }
                    }
                },
                None => {},
            }
        }
    }
}

/// The views of a column-name list.
pub open spec fn col_views(s: Seq<String>) -> Seq<Seq<char>> {
    s.map_values(|x: String| x@)
}

/// A returned row: an ordered list of named cells.
pub struct Row {
    /// The column name of each cell, in selection order.
    pub columns: Vec<String>,
    /// The cell values, in the same order.
    pub values: Vec<Value>,
}

impl Row {
    /// A well-formed row names each of its cells.
    pub open spec fn wf(&self) -> bool {
        self.columns@.len() == self.values@.len()
    }

    /// The cell under the first column of the given name.
    pub open spec fn spec_cell_by_name(&self, name: Seq<char>) -> Option<Value> {
        match find_str(col_views(self.columns@), name) {
            Some(j) => Some(self.values@[j]),
            None => None,
        }
    }

    /// The cell at the given position.
    pub open spec fn spec_cell_by_index(&self, i: int) -> Option<Value> {
        if 0 <= i < self.values@.len() {
            Some(self.values@[i])
        } else {
            None
        }
    }

    /// The empty row.
    pub fn new() -> (r: Row)
        ensures
            r.wf(),
            r.columns@.len() == 0,
    {
        Row { columns: Vec::new(), values: Vec::new() }
    }

    /// Append a named cell.
    pub fn push(&mut self, column: String, value: Value)
        requires
            old(self).wf(),
        ensures
            final(self).wf(),
            final(self).columns@ == old(self).columns@.push(column),
            final(self).values@ == old(self).values@.push(value),
    {
        self.columns.push(column);
        self.values.push(value);
    }

    /// The number of cells.
    pub fn len(&self) -> (r: usize)
        ensures
            r == self.values@.len(),
    {
        self.values.len()
    }

    /// The cell at a position.
    pub fn cell_by_index(&self, i: usize) -> (r: Option<&Value>)
        ensures
            match r {
                Some(v) => self.spec_cell_by_index(i as int) == Some(*v),
                None => self.spec_cell_by_index(i as int) is None,
            },
    {
        if i < self.values.len() {
            Some(&self.values[i])
        } else {
            None
        }
    }

    /// The cell under the first column of the given name.
    pub fn cell_by_name(&self, name: &str) -> (r: Option<&Value>)
        requires
            self.wf(),
        ensures
            match r {
                Some(v) => self.spec_cell_by_name(name@) == Some(*v),
                None => self.spec_cell_by_name(name@) is None,
            },
    {
        let ghost cols = col_views(self.columns@);
        let mut j: usize = 0;
        while j < self.columns.len()
            invariant
                self.wf(),
                j <= cols.len(),
                cols == col_views(self.columns@),
                forall|k: int| 0 <= k < j ==> #[trigger] cols[k] != name@,
            decreases cols.len() - j,
        {
            if crate::text::str_eq(self.columns[j].as_str(), name) {
                proof {
                    assert(cols[j as int] == self.columns@[j as int]@);
                    lemma_find_str_spec(cols, name@);
                    match find_str(cols, name@) {
                        Some(k) => {
                            assert(!(k < j) && !(j < k));
                        },
                        None => {},
                    }
                }
                return Some(&self.values[j]);
            }
            j = j + 1;
        }
        proof {
            lemma_find_str_spec(cols, name@);
            match find_str(cols, name@) {
                Some(k) => {
                    assert(cols[k] == name@);
                },
                None => {},
            }
        }
        None
    }
}

/// Which column a decode error concerns: named or positional.
#[derive(Debug)]
pub enum ColRef {
    /// The column of this name.
    Name(String),
    /// The column at this position.
    Index(usize),
}

/// Why a cell could not be decoded.
#[derive(Clone, Copy, PartialEq, Eq, Structural, Debug)]
pub enum DecodeCause {
    /// The row has no column of the requested name or position.
    NoSuchColumn,
    /// The stored value's type disagrees with the expected type.
    TypeMismatch,
    /// A stored string exceeds the expected bounded length.
    TooLong {
        /// The bound that was exceeded.
        max: usize,
        /// The stored string's length.
        got: usize,
    },
    /// A choice column holds an unrecognized tag, signalling schema drift.
    UnknownChoice,
}

/// A stored value disagreed with the expected type.  The error names the
/// column and the cause; the enclosing decode aborts, no partial result is
/// produced.
#[derive(Debug)]
pub struct DecodeError {
    /// The column the error concerns.
    pub col: ColRef,
    /// Why the cell could not be decoded.
    pub cause: DecodeCause,
}

/// How an executable decode result must relate to its specification: equal
/// modulo views on success, and the specified cause at the given column on
/// failure.
pub open spec fn decode_result_matches<R: View>(
    r: Result<R, DecodeError>,
    s: Result<<R as View>::V, DecodeCause>,
    col: ColRef,
) -> bool {
    match r {
        Ok(x) => s matches Ok(v) && x@ == v,
        Err(e) => s matches Err(c) && e.cause == c && e.col == col,
    }
}

/// Something which decodes a typed value from a row, by column name or by
/// positional index.
pub trait Decoder {
    /// The value decoded from a row.
    type Result: View;

    /// The decoder's internal consistency.
    spec fn wf(&self) -> bool;

    /// The column name this decoder reads.
    spec fn col_string(&self) -> String;

    /// The position this decoder reads.
    spec fn col_index(&self) -> usize;

    /// How a cell decodes: the resulting value, or the cause of failure.
    /// `None` stands for a missing column.
    spec fn spec_decode(&self, cell: Option<Value>) -> Result<<Self::Result as View>::V, DecodeCause>;

    /// Decode a value from a row using the column name.
    fn by_name(&self, row: &Row) -> (r: Result<Self::Result, DecodeError>)
        requires
            row.wf(),
            self.wf(),
        ensures
            decode_result_matches(
                r,
                self.spec_decode(row.spec_cell_by_name(self.col_string()@)),
                ColRef::Name(self.col_string()),
            ),
    ;

    /// Decode a value from a row using the position.
    fn by_index(&self, row: &Row) -> (r: Result<Self::Result, DecodeError>)
        requires
            row.wf(),
            self.wf(),
        ensures
            decode_result_matches(
                r,
                self.spec_decode(row.spec_cell_by_index(self.col_index() as int)),
                ColRef::Index(self.col_index()),
            ),
    ;
}

/// Decoding by name and decoding by index agree: when a decoder's column
/// name and position pick out the same cell of a row, the two paths succeed
/// together and, on success, yield the same typed value.  This holds for
/// every decoder, over every supported value variant.
pub proof fn lemma_by_name_by_index_agree<D: Decoder>(
    d: &D,
    row: Row,
    r1: Result<D::Result, DecodeError>,
    r2: Result<D::Result, DecodeError>,
)
    requires
        row.spec_cell_by_name(d.col_string()@) == row.spec_cell_by_index(d.col_index() as int),
        decode_result_matches(
            r1,
            d.spec_decode(row.spec_cell_by_name(d.col_string()@)),
            ColRef::Name(d.col_string()),
        ),
        decode_result_matches(
            r2,
            d.spec_decode(row.spec_cell_by_index(d.col_index() as int)),
            ColRef::Index(d.col_index()),
        ),
    ensures
        r1 is Ok <==> r2 is Ok,
        r1 matches Ok(x) ==> r2 matches Ok(y) ==> x@ == y@,
        r1 matches Err(e1) ==> r2 matches Err(e2) ==> e1.cause == e2.cause,
{
    let s = d.spec_decode(row.spec_cell_by_name(d.col_string()@));
    assert(d.spec_decode(row.spec_cell_by_index(d.col_index() as int)) == s);
    match (r1, r2) {
        (Ok(x), Ok(y)) => {
            match s {
                Ok(v) => {
                    assert(x@ == v && y@ == v);
                },
                Err(_) => {
                    assert(false);
                },
            }
        },
        (Ok(_), Err(_)) => {
            assert(s is Ok && s is Err);
        },
        (Err(_), Ok(_)) => {
            assert(s is Ok && s is Err);
        },
        (Err(e1), Err(e2)) => {
            match s {
                Ok(_) => {
                    assert(false);
                },
                Err(c) => {
                    assert(e1.cause == c && e2.cause == c);
                },
            }
        },
    }
}

/// A plain value which can be read directly out of a cell.
pub trait DecodeValue: View + Sized {
    /// Which cell values decode to this type, and to what.
    spec fn spec_from_value(v: ValueView) -> Option<<Self as View>::V>;

    /// Read the value out of a cell.
    fn from_value(v: &Value) -> (r: Option<Self>)
        ensures
            r is Some <==> Self::spec_from_value(v@) is Some,
            r matches Some(x) ==> Self::spec_from_value(v@) == Some(x@),
    ;
}

impl DecodeValue for bool {
    open spec fn spec_from_value(v: ValueView) -> Option<bool> {
        match v {
            ValueView::Bool(b) => Some(b),
            _ => None,
        }
    }

    fn from_value(v: &Value) -> (r: Option<Self>) {
        match v {
            Value::Bool(b) => Some(*b),
            _ => None,
        }
    }
}

impl DecodeValue for i16 {
    open spec fn spec_from_value(v: ValueView) -> Option<i16> {
        match v {
            ValueView::I16(i) => Some(i),
            _ => None,
        }
    }

    fn from_value(v: &Value) -> (r: Option<Self>) {
        match v {
            Value::I16(i) => Some(*i),
            _ => None,
        }
    }
}

impl DecodeValue for i32 {
    open spec fn spec_from_value(v: ValueView) -> Option<i32> {
        match v {
            ValueView::I32(i) => Some(i),
            _ => None,
        }
    }

    fn from_value(v: &Value) -> (r: Option<Self>) {
        match v {
            Value::I32(i) => Some(*i),
            _ => None,
        }
    }
}

impl DecodeValue for i64 {
    open spec fn spec_from_value(v: ValueView) -> Option<i64> {
        match v {
            ValueView::I64(i) => Some(i),
            _ => None,
        }
    }

    fn from_value(v: &Value) -> (r: Option<Self>) {
        match v {
            Value::I64(i) => Some(*i),
            _ => None,
        }
    }
}

impl DecodeValue for String {
    open spec fn spec_from_value(v: ValueView) -> Option<Seq<char>> {
        match v {
            ValueView::String(s) => Some(s),
            _ => None,
        }
    }

    fn from_value(v: &Value) -> (r: Option<Self>) {
        match v {
            Value::String(s) => Some(s.clone()),
            _ => None,
        }
    }
}

impl DecodeValue for Vec<u8> {
    open spec fn spec_from_value(v: ValueView) -> Option<Seq<u8>> {
        match v {
            ValueView::Binary(b) => Some(b),
            _ => None,
        }
    }

    fn from_value(v: &Value) -> (r: Option<Self>) {
        match v {
            Value::Binary(b) => Some(crate::value::copy_bytes(b)),
            _ => None,
        }
    }
}

impl DecodeValue for NaiveDate {
    open spec fn spec_from_value(v: ValueView) -> Option<NaiveDate> {
        match v {
            ValueView::Date(d) => Some(d),
            _ => None,
        }
    }

    fn from_value(v: &Value) -> (r: Option<Self>) {
        match v {
            Value::Date(d) => Some(*d),
            _ => None,
        }
    }
}

impl DecodeValue for NaiveTime {
    open spec fn spec_from_value(v: ValueView) -> Option<NaiveTime> {
        match v {
            ValueView::Time(t) => Some(t),
            _ => None,
        }
    }

    fn from_value(v: &Value) -> (r: Option<Self>) {
        match v {
            Value::Time(t) => Some(*t),
            _ => None,
        }
    }
}

impl DecodeValue for NaiveDateTime {
    open spec fn spec_from_value(v: ValueView) -> Option<NaiveDateTime> {
        match v {
            ValueView::DateTime(dt) => Some(dt),
            _ => None,
        }
    }

    fn from_value(v: &Value) -> (r: Option<Self>) {
        match v {
            Value::DateTime(dt) => Some(*dt),
            _ => None,
        }
    }
}

/// A decoder which reads one cell as a plain typed value.
pub struct DirectDecoder<T> {
    /// The column to read, by name.
    pub column: String,
    /// The column to read, by position.
    pub index: usize,
    /// The type to decode into.
    pub result: core::marker::PhantomData<T>,
}

impl<T: DecodeValue> DirectDecoder<T> {
    /// A decoder for the cell named `column`, which sits at `index`.
    pub fn new(column: String, index: usize) -> (r: DirectDecoder<T>)
        ensures
            r.column == column,
            r.index == index,
    {
        DirectDecoder { column, index, result: core::marker::PhantomData }
    }
}

impl<T: DecodeValue> Decoder for DirectDecoder<T> {
    type Result = T;

    open spec fn wf(&self) -> bool {
        true
    }

    open spec fn col_string(&self) -> String {
        self.column
    }

    open spec fn col_index(&self) -> usize {
        self.index
    }

    open spec fn spec_decode(&self, cell: Option<Value>) -> Result<<T as View>::V, DecodeCause> {
        match cell {
            None => Err(DecodeCause::NoSuchColumn),
            Some(v) => match T::spec_from_value(v@) {
                Some(x) => Ok(x),
                None => Err(DecodeCause::TypeMismatch),
            },
        }
    }

    fn by_name(&self, row: &Row) -> (r: Result<T, DecodeError>) {
        match row.cell_by_name(self.column.as_str()) {
            None => Err(
                DecodeError { col: ColRef::Name(self.column.clone()), cause: DecodeCause::NoSuchColumn },
            ),
            Some(v) => match T::from_value(v) {
                Some(x) => Ok(x),
                None => Err(
                    DecodeError {
                        col: ColRef::Name(self.column.clone()),
                        cause: DecodeCause::TypeMismatch,
                    },
                ),
            },
        }
    }

    fn by_index(&self, row: &Row) -> (r: Result<T, DecodeError>) {
        match row.cell_by_index(self.index) {
            None => Err(
                DecodeError { col: ColRef::Index(self.index), cause: DecodeCause::NoSuchColumn },
            ),
            Some(v) => match T::from_value(v) {
                Some(x) => Ok(x),
                None => Err(
                    DecodeError { col: ColRef::Index(self.index), cause: DecodeCause::TypeMismatch },
                ),
            },
        }
    }
}

/// A decoder which hands back a fixed value without touching the row,
/// for fields that occupy no column of their own.
pub struct NoopDecoder<T> {
    /// The value to hand back.
    pub value: T,
}

impl<T: Copy + View> Decoder for NoopDecoder<T> {
    type Result = T;

    open spec fn wf(&self) -> bool {
        true
    }

    open spec fn col_string(&self) -> String {
        // A noop decoder reads no column; the name is never used.
        vstd::pervasive::arbitrary()
    }

    open spec fn col_index(&self) -> usize {
        0
    }

    open spec fn spec_decode(&self, cell: Option<Value>) -> Result<<T as View>::V, DecodeCause> {
        Ok(self.value@)
    }

    fn by_name(&self, row: &Row) -> (r: Result<T, DecodeError>) {
        Ok(self.value)
    }

    fn by_index(&self, row: &Row) -> (r: Result<T, DecodeError>) {
        Ok(self.value)
    }
}

/// Decoder for a choice column: reads a string cell and checks it against
/// the closed set of allowed tags.  An unrecognized tag signals
/// database/application schema drift and is a per-row error, never a
/// silent coercion.
pub struct ChoicesDecoder {
    /// The column to read, by name.
    pub column: String,
    /// The column to read, by position.
    pub index: usize,
    /// The allowed tags.
    pub choices: Vec<String>,
}

/// Whether a tag is among the allowed choices.
pub open spec fn choice_allowed(choices: Seq<String>, tag: Seq<char>) -> bool {
    exists|i: int| 0 <= i < choices.len() && #[trigger] choices[i]@ == tag
}

impl ChoicesDecoder {
    /// Check a tag against the allowed choices.
    fn allows(&self, tag: &str) -> (r: bool)
        ensures
            r == choice_allowed(self.choices@, tag@),
    {
        let mut i: usize = 0;
        while i < self.choices.len()
            invariant
                i <= self.choices@.len(),
                forall|k: int| 0 <= k < i ==> #[trigger] self.choices@[k]@ != tag@,
            decreases self.choices@.len() - i,
        {
            if crate::text::str_eq(self.choices[i].as_str(), tag) {
                return true;
            }
            i = i + 1;
        }
        false
    }
}

impl Decoder for ChoicesDecoder {
    type Result = String;

    open spec fn wf(&self) -> bool {
        true
    }

    open spec fn col_string(&self) -> String {
        self.column
    }

    open spec fn col_index(&self) -> usize {
        self.index
    }

    open spec fn spec_decode(&self, cell: Option<Value>) -> Result<Seq<char>, DecodeCause> {
        match cell {
            None => Err(DecodeCause::NoSuchColumn),
            Some(v) => match v@ {
                ValueView::String(s) => if choice_allowed(self.choices@, s) {
                    Ok(s)
                } else {
                    Err(DecodeCause::UnknownChoice)
                },
                _ => Err(DecodeCause::TypeMismatch),
            },
        }
    }

    fn by_name(&self, row: &Row) -> (r: Result<String, DecodeError>) {
        match row.cell_by_name(self.column.as_str()) {
            None => Err(
                DecodeError {
                    col: ColRef::Name(self.column.clone()),
                    cause: DecodeCause::NoSuchColumn,
                },
            ),
            Some(v) => match v {
                Value::String(s) => {
                    if self.allows(s.as_str()) {
                        Ok(s.clone())
                    } else {
                        Err(
                            DecodeError {
                                col: ColRef::Name(self.column.clone()),
                                cause: DecodeCause::UnknownChoice,
                            },
                        )
                    }
                },
                _ => Err(
                    DecodeError {
                        col: ColRef::Name(self.column.clone()),
                        cause: DecodeCause::TypeMismatch,
                    },
                ),
            },
        }
    }

    fn by_index(&self, row: &Row) -> (r: Result<String, DecodeError>) {
        match row.cell_by_index(self.index) {
            None => Err(
                DecodeError { col: ColRef::Index(self.index), cause: DecodeCause::NoSuchColumn },
            ),
            Some(v) => match v {
                Value::String(s) => {
                    if self.allows(s.as_str()) {
                        Ok(s.clone())
                    } else {
                        Err(
                            DecodeError {
                                col: ColRef::Index(self.index),
                                cause: DecodeCause::UnknownChoice,
                            },
                        )
                    }
                },
                _ => Err(
                    DecodeError { col: ColRef::Index(self.index), cause: DecodeCause::TypeMismatch },
                ),
            },
        }
    }
}

} // verus!
