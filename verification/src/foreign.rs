//! Foreign key field values and their decoders.
//!
//! A foreign key field stores the key of exactly one row of another model.
//! Decoding such a field reads the stored key; the referenced row itself is
//! fetched, if at all, by a later query.

use vstd::prelude::*;

use crate::row::{ColRef, DecodeCause, DecodeError, Decoder, DecodeValue, DirectDecoder, Row};
use crate::value::{NullType, Value};

verus! {

/// The value of a foreign key field: the referenced row's key.
pub enum ForeignModelByField<T> {
    /// The stored key of the referenced row.
    Key(T),
}

impl<T: View> View for ForeignModelByField<T> {
    type V = <T as View>::V;

    open spec fn view(&self) -> <T as View>::V {
        match self {
            ForeignModelByField::Key(k) => k.view(),
        }
    }
}

/// Decoder for a foreign key field: reads the stored key.
pub struct ForeignModelByFieldDecoder<T> {
    /// The key's own decoder.
    pub inner: DirectDecoder<T>,
}

impl<T: DecodeValue> Decoder for ForeignModelByFieldDecoder<T> {
    type Result = ForeignModelByField<T>;

    open spec fn wf(&self) -> bool {
        true
    }

    open spec fn col_string(&self) -> String {
        self.inner.column
    }

    open spec fn col_index(&self) -> usize {
        self.inner.index
    }

    open spec fn spec_decode(&self, cell: Option<Value>) -> Result<<T as View>::V, DecodeCause> {
        self.inner.spec_decode(cell)
    }

    fn by_name(&self, row: &Row) -> (r: Result<ForeignModelByField<T>, DecodeError>) {
        match self.inner.by_name(row) {
            Ok(k) => Ok(ForeignModelByField::Key(k)),
            Err(e) => Err(e),
        }
    }

    fn by_index(&self, row: &Row) -> (r: Result<ForeignModelByField<T>, DecodeError>) {
        match self.inner.by_index(row) {
            Ok(k) => Ok(ForeignModelByField::Key(k)),
            Err(e) => Err(e),
        }
    }
}

/// Decoder for a nullable foreign key field over the common 64 bit integer
/// key: a null cell is no reference, a stored key is one.
pub struct OptionForeignModelByFieldDecoder {
    /// The column to read, by name.
    pub column: String,
    /// The column to read, by position.
    pub index: usize,
}

impl Decoder for OptionForeignModelByFieldDecoder {
    type Result = Option<ForeignModelByField<i64>>;

    open spec fn wf(&self) -> bool {
        true
    }

    open spec fn col_string(&self) -> String {
        self.column
    }

    open spec fn col_index(&self) -> usize {
        self.index
    }

    open spec fn spec_decode(&self, cell: Option<Value>) -> Result<
        Option<ForeignModelByField<i64>>,
        DecodeCause,
    > {
        match cell {
            None => Err(DecodeCause::NoSuchColumn),
            Some(v) => match v@ {
                crate::value::ValueView::Null(NullType::I64) => Ok(None),
                crate::value::ValueView::I64(k) => Ok(Some(ForeignModelByField::Key(k))),
                _ => Err(DecodeCause::TypeMismatch),
            },
        }
    }

    fn by_name(&self, row: &Row) -> (r: Result<Option<ForeignModelByField<i64>>, DecodeError>) {
        match row.cell_by_name(self.column.as_str()) {
            None => Err(
                DecodeError {
                    col: ColRef::Name(self.column.clone()),
                    cause: DecodeCause::NoSuchColumn,
                },
            ),
            Some(v) => match v {
                Value::Null(NullType::I64) => Ok(None),
                Value::I64(k) => Ok(Some(ForeignModelByField::Key(*k))),
                _ => Err(
                    DecodeError {
                        col: ColRef::Name(self.column.clone()),
                        cause: DecodeCause::TypeMismatch,
                    },
                ),
            },
        }
    }

    fn by_index(&self, row: &Row) -> (r: Result<Option<ForeignModelByField<i64>>, DecodeError>) {
        match row.cell_by_index(self.index) {
            None => Err(
                DecodeError { col: ColRef::Index(self.index), cause: DecodeCause::NoSuchColumn },
            ),
            Some(v) => match v {
                Value::Null(NullType::I64) => Ok(None),
                Value::I64(k) => Ok(Some(ForeignModelByField::Key(*k))),
                _ => Err(
                    DecodeError { col: ColRef::Index(self.index), cause: DecodeCause::TypeMismatch },
                ),
            },
        }
    }
}

} // verus!
