//! The staged query builder.
//!
//! A query accumulates target columns, an optional condition and an
//! optional limit/offset, then renders to dialect SQL.  The stages are
//! tracked in the builder's type parameters, so setting a condition twice
//! or an offset before anything that accepts one is unrepresentable rather
//! than checked at run time.  The terminal steps decode the rows that the
//! external execution layer returned and enforce the cardinality contracts
//! of `one` and `optional`.

use core::ops::{Range, RangeInclusive};

use vstd::prelude::*;

use crate::condition::Condition;
use crate::row::{DecodeCause, Decoder, DecodeError, Row};
use crate::sql::{
    build_select, limoff_supported, select_sql, strs_views, vals_views, Dialect, LimOff,
    LimitClause, UnsupportedOperation,
};
use crate::value::Value;

verus! {

/// Relies on `core::ops::RangeInclusive::start`: it returns the range's
/// lower bound.
pub assume_specification<Idx>[ RangeInclusive::<Idx>::start ](r: &RangeInclusive<Idx>) -> (s: &Idx)
    ensures
        *s == r@.start,
;

/// Relies on `core::ops::RangeInclusive::end`: it returns the range's
/// upper bound.
pub assume_specification<Idx>[ RangeInclusive::<Idx>::end ](r: &RangeInclusive<Idx>) -> (s: &Idx)
    ensures
        *s == r@.end,
;

/// A finite row range, unifying the exclusive and the inclusive range form.
pub trait FiniteRange: Sized {
    /// Whether the range's bounds can be handled without overflow.
    spec fn wf(&self) -> bool;

    /// The lower bound, inclusive.
    spec fn spec_start(&self) -> u64;

    /// The upper bound, exclusive.
    spec fn spec_end(&self) -> int;

    /// The lower bound, inclusive.
    fn lower(&self) -> (r: u64)
        ensures
            r == self.spec_start(),
    ;

    /// The number of rows the range selects.
    fn length(&self) -> (r: u64)
        requires
            self.wf(),
            self.spec_start() <= self.spec_end(),
        ensures
            r == self.spec_end() - self.spec_start(),
    ;
}

impl FiniteRange for Range<u64> {
    open spec fn wf(&self) -> bool {
        true
    }

    open spec fn spec_start(&self) -> u64 {
        self.start
    }

    open spec fn spec_end(&self) -> int {
        self.end as int
    }

    fn lower(&self) -> (r: u64) {
        self.start
    }

    fn length(&self) -> (r: u64) {
        self.end - self.start
    }
}

impl FiniteRange for RangeInclusive<u64> {
    /// The upper bound must leave room for the exclusive form.
    open spec fn wf(&self) -> bool {
        self@.end < u64::MAX
    }

    open spec fn spec_start(&self) -> u64 {
        self@.start
    }

    open spec fn spec_end(&self) -> int {
        self@.end + 1
    }

    fn lower(&self) -> (r: u64) {
        *self.start()
    }

    fn length(&self) -> (r: u64) {
        *self.end() + 1 - *self.start()
    }
}

/// The row bound accumulated so far: nothing, a limit with optional offset,
/// or a bare offset.
pub trait LimOffMarker: Sized {
    /// The accumulated bound.
    spec fn spec_lim_off(&self) -> LimOff;

    /// Turn the accumulated bound into the rendering clause.
    fn lim_off(&self) -> (r: LimOff)
        ensures
            r == self.spec_lim_off(),
    ;
}

impl LimOffMarker for () {
    open spec fn spec_lim_off(&self) -> LimOff {
        LimOff::All
    }

    fn lim_off(&self) -> (r: LimOff) {
        LimOff::All
    }
}

impl LimOffMarker for u64 {
    open spec fn spec_lim_off(&self) -> LimOff {
        LimOff::Offset(*self)
    }

    fn lim_off(&self) -> (r: LimOff) {
        LimOff::Offset(*self)
    }
}

/// An accumulated offset: either none yet, or a number of rows to skip.
pub trait OffsetMarker: LimOffMarker {
    /// The accumulated offset.
    spec fn spec_offset(&self) -> Option<u64>;

    /// The accumulated offset, as a clause part.
    fn into_option(&self) -> (r: Option<u64>)
        ensures
            r == self.spec_offset(),
    ;
}

impl OffsetMarker for () {
    open spec fn spec_offset(&self) -> Option<u64> {
        None
    }

    fn into_option(&self) -> (r: Option<u64>) {
        None
    }
}

impl OffsetMarker for u64 {
    open spec fn spec_offset(&self) -> Option<u64> {
        Some(*self)
    }

    fn into_option(&self) -> (r: Option<u64>) {
        Some(*self)
    }
}

/// A query limit together with an optional offset.
#[derive(PartialEq, Eq, Structural, Debug)]
pub struct Limit<O> {
    /// Number of rows to query.
    pub limit: u64,
    /// Optional offset to begin the query at.
    pub offset: O,
}

impl<O: OffsetMarker> LimOffMarker for Limit<O> {
    open spec fn spec_lim_off(&self) -> LimOff {
        LimOff::Limit(LimitClause { limit: self.limit, offset: self.offset.spec_offset() })
    }

    fn lim_off(&self) -> (r: LimOff) {
        LimOff::Limit(LimitClause { limit: self.limit, offset: self.offset.into_option() })
    }
}

/// An accumulated limit: either none yet, or a [`Limit`].
pub trait LimitMarker: LimOffMarker {
    /// The accumulated limit clause.
    spec fn spec_limit(&self) -> Option<LimitClause>;

    /// The accumulated limit clause.
    fn into_option(self) -> (r: Option<LimitClause>)
        ensures
            r == self.spec_limit(),
    ;
}

impl LimitMarker for () {
    open spec fn spec_limit(&self) -> Option<LimitClause> {
        None
    }

    fn into_option(self) -> (r: Option<LimitClause>) {
        None
    }
}

impl<O: OffsetMarker> LimitMarker for Limit<O> {
    open spec fn spec_limit(&self) -> Option<LimitClause> {
        Some(LimitClause { limit: self.limit, offset: self.offset.spec_offset() })
    }

    fn into_option(self) -> (r: Option<LimitClause>) {
        Some(LimitClause { limit: self.limit, offset: self.offset.into_option() })
    }
}

/// A stage that still accepts an offset.
pub trait AcceptsOffset: LimOffMarker {
    /// The stage after the offset is added.
    type Output: LimOffMarker;

    /// The bound that adding `offset` produces.
    spec fn spec_add_offset(&self, offset: u64) -> LimOff;

    /// Add the offset.
    fn add_offset(self, offset: u64) -> (r: Self::Output)
        ensures
            r.spec_lim_off() == self.spec_add_offset(offset),
    ;
}

impl AcceptsOffset for () {
    type Output = u64;

    open spec fn spec_add_offset(&self, offset: u64) -> LimOff {
        LimOff::Offset(offset)
    }

    fn add_offset(self, offset: u64) -> (r: u64) {
        offset
    }
}

impl AcceptsOffset for Limit<()> {
    type Output = Limit<u64>;

    open spec fn spec_add_offset(&self, offset: u64) -> LimOff {
        LimOff::Limit(LimitClause { limit: self.limit, offset: Some(offset) })
    }

    fn add_offset(self, offset: u64) -> (r: Limit<u64>) {
        Limit { limit: self.limit, offset }
    }
}

/// The condition accumulated so far: none, or one [`Condition`].
pub trait ConditionMarker: Sized {
    /// The accumulated condition.
    spec fn spec_cond(&self) -> Option<Condition>;

    /// Borrow the accumulated condition.
    fn as_option(&self) -> (r: &Option<Condition>)
        ensures
            *r == self.spec_cond(),
    ;
}

impl ConditionMarker for () {
    open spec fn spec_cond(&self) -> Option<Condition> {
        None
    }

    fn as_option(&self) -> (r: &Option<Condition>) {
        &None
    }
}

impl ConditionMarker for Option<Condition> {
    open spec fn spec_cond(&self) -> Option<Condition> {
        *self
    }

    fn as_option(&self) -> (r: &Option<Condition>) {
        self
    }
}

/// A cardinality or decode failure of a terminal query step.
#[derive(Debug)]
pub enum QueryError {
    /// `one` found no row.
    NotFound,
    /// `one` or `optional` found more than one row.
    TooMany,
    /// A row failed to decode.
    Decode(DecodeError),
}

/// How one row decodes under a decoder, by column name.
pub open spec fn spec_decode_row<D: Decoder>(d: D, row: Row) -> Result<
    <D::Result as View>::V,
    DecodeCause,
> {
    d.spec_decode(row.spec_cell_by_name(d.col_string()@))
}

/// Builder for select queries.
///
/// The stages: a condition may be set once (`C` goes from `()` to
/// `Option<Condition>`), then a limit and offset or a range (`LO` walks the
/// [`LimOffMarker`] types), then a terminal step decodes returned rows.
pub struct QueryBuilder<D, C, LO> {
    /// The table to select from.
    pub table: String,
    /// The columns to select, in decoding order.
    pub columns: Vec<String>,
    /// The decoder for returned rows.
    pub decoder: D,
    /// The accumulated condition.
    pub condition: C,
    /// The columns to order the rows by, in precedence order.
    pub order: Vec<String>,
    /// The accumulated row bound.
    pub lim_off: LO,
}

impl<D: Decoder> QueryBuilder<D, (), ()> {
    /// Start building a query against `table`, selecting `columns` and
    /// decoding rows with `decoder`.
    pub fn new(table: String, columns: Vec<String>, decoder: D) -> (r: QueryBuilder<D, (), ()>)
        ensures
            r.table == table,
            r.columns == columns,
            r.decoder == decoder,
    {
        QueryBuilder { table, columns, decoder, condition: (), order: Vec::new(), lim_off: () }
    }
}

impl<D, C, LO> QueryBuilder<D, C, LO> {
    /// Order the rows by one more column, ascending; later calls order
    /// within earlier ones.
    pub fn order_asc(self, column: String) -> (r: QueryBuilder<D, C, LO>)
        ensures
            r.table == self.table,
            r.columns == self.columns,
            r.decoder == self.decoder,
            r.condition == self.condition,
            r.lim_off == self.lim_off,
            r.order@ == self.order@.push(column),
    {
        let QueryBuilder { table, columns, decoder, condition, order, lim_off } = self;
        let mut order = order;
        order.push(column);
        QueryBuilder { table, columns, decoder, condition, order, lim_off }
    }
}

impl<D, LO: LimOffMarker> QueryBuilder<D, (), LO> {
    /// Add a condition to the query.
    pub fn condition(self, condition: Condition) -> (r: QueryBuilder<D, Option<Condition>, LO>)
        ensures
            r.table == self.table,
            r.columns == self.columns,
            r.decoder == self.decoder,
            r.lim_off == self.lim_off,
            r.order == self.order,
            r.condition == Some(condition),
    {
        let QueryBuilder { table, columns, decoder, condition: _, order, lim_off } = self;
        QueryBuilder { table, columns, decoder, condition: Some(condition), order, lim_off }
    }
}

impl<D, C, O: OffsetMarker> QueryBuilder<D, C, O> {
    /// Add a limit to the query.
    pub fn limit(self, limit: u64) -> (r: QueryBuilder<D, C, Limit<O>>)
        ensures
            r.table == self.table,
            r.columns == self.columns,
            r.decoder == self.decoder,
            r.condition == self.condition,
            r.order == self.order,
            r.lim_off == (Limit { limit, offset: self.lim_off }),
    {
        let QueryBuilder { table, columns, decoder, condition, order, lim_off } = self;
        QueryBuilder {
            table,
            columns,
            decoder,
            condition,
            order,
            lim_off: Limit { limit, offset: lim_off },
        }
    }
}

impl<D, C, LO: AcceptsOffset> QueryBuilder<D, C, LO> {
    /// Add an offset to the query.
    pub fn offset(self, offset: u64) -> (r: QueryBuilder<D, C, LO::Output>)
        ensures
            r.table == self.table,
            r.columns == self.columns,
            r.decoder == self.decoder,
            r.condition == self.condition,
            r.order == self.order,
            r.lim_off.spec_lim_off() == self.lim_off.spec_add_offset(offset),
    {
        let QueryBuilder { table, columns, decoder, condition, order, lim_off } = self;
        let lim_off = lim_off.add_offset(offset);
        QueryBuilder { table, columns, decoder, condition, order, lim_off }
    }
}

impl<D, C> QueryBuilder<D, C, ()> {
    /// Bound the query to a row range: the range `a..b` (or, inclusively,
    /// `a..=b-1`) becomes `limit = b - a` at `offset = a`.
    pub fn range<R: FiniteRange>(self, range: R) -> (r: QueryBuilder<D, C, Limit<u64>>)
        requires
            range.wf(),
            range.spec_start() <= range.spec_end(),
        ensures
            r.table == self.table,
            r.columns == self.columns,
            r.decoder == self.decoder,
            r.condition == self.condition,
            r.order == self.order,
            r.lim_off == (Limit {
                limit: (range.spec_end() - range.spec_start()) as u64,
                offset: range.spec_start(),
            }),
    {
        let QueryBuilder { table, columns, decoder, condition, order, lim_off: _ } = self;
        let lim_off = Limit { limit: range.length(), offset: range.lower() };
        QueryBuilder { table, columns, decoder, condition, order, lim_off }
    }
}

impl<D: Decoder, C: ConditionMarker, LO: LimOffMarker> QueryBuilder<D, C, LO> {
    /// Render the accumulated query for a dialect: the parameterized SQL
    /// text and the bound values, in placeholder order.
    pub fn build(&self, dialect: Dialect) -> (r: Result<
        (String, Vec<Value>),
        UnsupportedOperation,
    >)
        requires
            self.columns@.len() > 0,
        ensures
            r is Ok <==> limoff_supported(dialect, self.lim_off.spec_lim_off()),
            r matches Ok(p) ==> p.0@ == select_sql(
                dialect,
                self.table@,
                strs_views(self.columns@),
                self.condition.spec_cond(),
                strs_views(self.order@),
                self.lim_off.spec_lim_off(),
            ) && vals_views(p.1@) == crate::sql::opt_cond_params(self.condition.spec_cond()),
            r matches Err(e) ==> e.dialect == dialect,
    {
        let lo = self.lim_off.lim_off();
        build_select(
            dialect,
            self.table.as_str(),
            &self.columns,
            self.condition.as_option(),
            &self.order,
            &lo,
        )
    }

    /// Decode all returned rows, in order.  The decode is all-or-nothing:
    /// the first row that fails aborts the whole step with its error.
    pub fn all(&self, rows: &Vec<Row>) -> (r: Result<Vec<D::Result>, QueryError>)
        requires
            self.decoder.wf(),
            forall|i: int| 0 <= i < rows@.len() ==> (#[trigger] rows@[i]).wf(),
        ensures
            r is Ok <==> (forall|i: int|
                0 <= i < rows@.len() ==> spec_decode_row(self.decoder, #[trigger] rows@[i]) is Ok),
            r matches Ok(out) ==> out@.len() == rows@.len() && (forall|i: int|
                0 <= i < rows@.len() ==> spec_decode_row(self.decoder, #[trigger] rows@[i]) == Ok::<
                    <D::Result as View>::V,
                    DecodeCause,
                >(out@[i]@)),
            r matches Err(qe) ==> qe matches QueryError::Decode(e) && (exists|i: int|
                0 <= i < rows@.len() && spec_decode_row(self.decoder, #[trigger] rows@[i]) == Err::<
                    <D::Result as View>::V,
                    DecodeCause,
                >(e.cause)),
    {
        let mut out: Vec<D::Result> = Vec::new();
        let mut i: usize = 0;
        while i < rows.len()
            invariant
                self.decoder.wf(),
                forall|k: int| 0 <= k < rows@.len() ==> (#[trigger] rows@[k]).wf(),
                i <= rows@.len(),
                out@.len() == i,
                forall|k: int|
                    0 <= k < i ==> spec_decode_row(self.decoder, #[trigger] rows@[k]) == Ok::<
                        <D::Result as View>::V,
                        DecodeCause,
                    >(out@[k]@),
            decreases rows@.len() - i,
        {
            match self.decoder.by_name(&rows[i]) {
                Ok(x) => out.push(x),
                Err(e) => {
                    proof {
                        assert(spec_decode_row(self.decoder, rows@[i as int]) == Err::<
                            <D::Result as View>::V,
                            DecodeCause,
                        >(e.cause));
                    }
                    return Err(QueryError::Decode(e));
                },
            }
            i = i + 1;
        }
        Ok(out)
    }

    /// Decode exactly one row: zero rows is `NotFound`, more than one is
    /// `TooMany`.  Fetch the rows with a limit of two (see
    /// [`QueryBuilder::limit`]): that is enough to distinguish the two
    /// failures deterministically without materializing every match.
    pub fn one(&self, rows: &Vec<Row>) -> (r: Result<D::Result, QueryError>)
        requires
            self.decoder.wf(),
            forall|i: int| 0 <= i < rows@.len() ==> (#[trigger] rows@[i]).wf(),
        ensures
            rows@.len() == 0 ==> (r matches Err(e) && e is NotFound),
            rows@.len() > 1 ==> (r matches Err(e) && e is TooMany),
            rows@.len() == 1 ==> match spec_decode_row(self.decoder, rows@[0]) {
                Ok(v) => r matches Ok(x) && x@ == v,
                Err(c) => r matches Err(e) && e matches QueryError::Decode(de) && de.cause == c,
            },
    {
        if rows.len() == 0 {
            Err(QueryError::NotFound)
        } else if rows.len() > 1 {
            Err(QueryError::TooMany)
        } else {
            match self.decoder.by_name(&rows[0]) {
                Ok(x) => Ok(x),
                Err(e) => Err(QueryError::Decode(e)),
            }
        }
    }

    /// Decode at most one row: more than one matching row is a `TooMany`
    /// error, never the first row silently returned.  As with
    /// [`QueryBuilder::one`], a limit of two suffices for the probe.
    pub fn optional(&self, rows: &Vec<Row>) -> (r: Result<Option<D::Result>, QueryError>)
        requires
            self.decoder.wf(),
            forall|i: int| 0 <= i < rows@.len() ==> (#[trigger] rows@[i]).wf(),
        ensures
            rows@.len() == 0 ==> (r matches Ok(o) && o is None),
            rows@.len() > 1 ==> (r matches Err(e) && e is TooMany),
            rows@.len() == 1 ==> match spec_decode_row(self.decoder, rows@[0]) {
                Ok(v) => r matches Ok(o) && o matches Some(x) && x@ == v,
                Err(c) => r matches Err(e) && e matches QueryError::Decode(de) && de.cause == c,
            },
    {
        if rows.len() == 0 {
            Ok(None)
        } else if rows.len() > 1 {
            Err(QueryError::TooMany)
        } else {
            match self.decoder.by_name(&rows[0]) {
                Ok(x) => Ok(Some(x)),
                Err(e) => Err(QueryError::Decode(e)),
            }
        }
    }

    /// Turn the returned rows into a lazy stream of decoded rows.
    pub fn stream(self, rows: Vec<Row>) -> (r: QueryStream<D>)
        ensures
            r.rows == rows,
            r.pos == 0,
            r.decoder == self.decoder,
    {
        QueryStream { rows, pos: 0, decoder: self.decoder }
    }
}

/// A lazy, single-pass, non-restartable sequence of decoded rows.  Each row
/// is decoded in full when it is asked for, or not at all.
pub struct QueryStream<D> {
    /// The rows still to decode, with the consumed prefix kept in place.
    pub rows: Vec<Row>,
    /// The position of the next row to decode.
    pub pos: usize,
    /// The row decoder.
    pub decoder: D,
}

impl<D: Decoder> QueryStream<D> {
    /// A stream is consumed from the front, one row at a time.
    pub open spec fn wf(&self) -> bool {
        &&& self.pos <= self.rows@.len()
        &&& self.decoder.wf()
        &&& forall|i: int| 0 <= i < self.rows@.len() ==> (#[trigger] self.rows@[i]).wf()
    }

    /// Decode the next row, advancing past it; `None` when the stream is
    /// exhausted.
    pub fn next(&mut self) -> (r: Option<Result<D::Result, DecodeError>>)
        requires
            old(self).wf(),
        ensures
            final(self).wf(),
            final(self).rows == old(self).rows,
            final(self).decoder == old(self).decoder,
            old(self).pos == old(self).rows@.len() ==> r is None && final(self).pos == old(
                self,
            ).pos,
            old(self).pos < old(self).rows@.len() ==> final(self).pos == old(self).pos + 1 && match r {
                Some(d) => crate::row::decode_result_matches(
                    d,
                    spec_decode_row(old(self).decoder, old(self).rows@[old(self).pos as int]),
                    crate::row::ColRef::Name(old(self).decoder.col_string()),
                ),
                None => false,
            },
    {
        if self.pos < self.rows.len() {
            let r = self.decoder.by_name(&self.rows[self.pos]);
            self.pos = self.pos + 1;
            Some(r)
        } else {
            None
        }
    }
}

} // verus!
