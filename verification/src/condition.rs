//! The dialect-independent condition tree and its builder helpers.
//!
//! A condition is plain data: a tree of conjunctions, disjunctions and
//! unary, binary and ternary comparisons over [`Value`] leaves.  Building a
//! condition performs no I/O; the builder helpers check that the right-hand
//! value's type is comparable to the field's declared type, so that an
//! ill-typed comparison is a definition-time error, never a query-time one.

use vstd::prelude::*;

use crate::value::{DbType, Value, ValueView};

verus! {

/// The unary condition operators.
#[derive(Clone, Copy, PartialEq, Eq, Structural, Debug)]
pub enum UnaryOp {
    /// `{} IS NULL`
    IsNull,
    /// `{} IS NOT NULL`
    IsNotNull,
    /// `EXISTS {}`
    Exists,
    /// `NOT EXISTS {}`
    NotExists,
    /// `NOT {}`
    Not,
}

/// The binary condition operators.
#[derive(Clone, Copy, PartialEq, Eq, Structural, Debug)]
pub enum BinaryOp {
    /// `{} = {}`
    Equals,
    /// `{} <> {}`
    NotEquals,
    /// `{} > {}`
    Greater,
    /// `{} >= {}`
    GreaterOrEquals,
    /// `{} < {}`
    Less,
    /// `{} <= {}`
    LessOrEquals,
    /// `{} LIKE {}`
    Like,
    /// `{} NOT LIKE {}`
    NotLike,
    /// `{} REGEXP {}`
    Regexp,
    /// `{} NOT REGEXP {}`
    NotRegexp,
    /// `{} IN {}`
    In,
    /// `{} NOT IN {}`
    NotIn,
}

/// The ternary condition operators.
#[derive(Clone, Copy, PartialEq, Eq, Structural, Debug)]
pub enum TernaryOp {
    /// `{} BETWEEN {} AND {}`
    Between,
    /// `{} NOT BETWEEN {} AND {}`
    NotBetween,
}

/// A condition tree.
///
/// An empty conjunction renders as an always-true predicate and an empty
/// disjunction as an always-false one.
#[derive(Debug)]
pub enum Condition {
    /// A value leaf: a bound parameter, or a column reference for
    /// [`Value::Ident`].
    Value(Value),
    /// `{} AND {} AND ...` over a list of subconditions.
    Conjunction(Vec<Condition>),
    /// `{} OR {} OR ...` over a list of subconditions.
    Disjunction(Vec<Condition>),
    /// A unary condition.
    Unary(UnaryOp, Box<Condition>),
    /// A binary condition.
    Binary(BinaryOp, Box<Condition>, Box<Condition>),
    /// A ternary condition.
    Ternary(TernaryOp, Box<Condition>, Box<Condition>, Box<Condition>),
}

/// The values bound by a condition, in depth-first, left-to-right order.
/// Identifier leaves are column references, not data, and bind nothing.
pub open spec fn cond_params(c: Condition) -> Seq<ValueView>
    decreases c,
{
    match c {
        Condition::Value(v) => if v is Ident {
            Seq::empty()
        } else {
            seq![v@]
        },
        Condition::Conjunction(cs) => conds_params(cs@),
        Condition::Disjunction(cs) => conds_params(cs@),
        Condition::Unary(_, x) => cond_params(*x),
        Condition::Binary(_, a, b) => cond_params(*a) + cond_params(*b),
        Condition::Ternary(_, a, b, c2) => cond_params(*a) + cond_params(*b) + cond_params(*c2),
    }
}

/// The values bound by a list of conditions, in order.
pub open spec fn conds_params(cs: Seq<Condition>) -> Seq<ValueView>
    decreases cs,
{
    if cs.len() == 0 {
        Seq::empty()
    } else {
        cond_params(cs[0]) + conds_params(cs.drop_first())
    }
}

/// Every identifier leaf of the tree is a well-formed identifier
/// (see [`crate::text::ident_ok`]).  The SQL renderers require this:
/// identifiers are the only text that reaches the output unescaped.
pub open spec fn cond_idents_ok(c: Condition) -> bool
    decreases c,
{
    match c {
        Condition::Value(v) => match v@ {
            ValueView::Ident(s) => crate::text::ident_ok(s),
            _ => true,
        },
        Condition::Conjunction(cs) => conds_idents_ok(cs@),
        Condition::Disjunction(cs) => conds_idents_ok(cs@),
        Condition::Unary(_, x) => cond_idents_ok(*x),
        Condition::Binary(_, a, b) => cond_idents_ok(*a) && cond_idents_ok(*b),
        Condition::Ternary(_, a, b, c2) => cond_idents_ok(*a) && cond_idents_ok(*b)
            && cond_idents_ok(*c2),
    }
}

/// [`cond_idents_ok`] over a list of conditions.
pub open spec fn conds_idents_ok(cs: Seq<Condition>) -> bool
    decreases cs,
{
    if cs.len() == 0 {
        true
    } else {
        cond_idents_ok(cs[0]) && conds_idents_ok(cs.drop_first())
    }
}

/// A value which can stand on the right-hand side of a comparison.
///
/// Implementations turn a plain value into the [`Value`] wire variant of the
/// matching column type.
pub trait IntoCondValue: Sized {
    /// The wire value that the conversion produces.
    spec fn spec_cond_value(&self) -> ValueView;

    /// Produce the [`Value`] without consuming the receiver.
    fn cond_value(&self) -> (v: Value)
        ensures
            v@ == self.spec_cond_value(),
    ;

    /// Convert into a [`Value`].
    fn into_value(self) -> (v: Value)
        ensures
            v@ == self.spec_cond_value(),
    {
        self.cond_value()
    }
}

impl IntoCondValue for bool {
    open spec fn spec_cond_value(&self) -> ValueView {
        ValueView::Bool(*self)
    }

    fn cond_value(&self) -> (v: Value) {
        Value::Bool(*self)
    }
}

impl IntoCondValue for i16 {
    open spec fn spec_cond_value(&self) -> ValueView {
        ValueView::I16(*self)
    }

    fn cond_value(&self) -> (v: Value) {
        Value::I16(*self)
    }
}

impl IntoCondValue for i32 {
    open spec fn spec_cond_value(&self) -> ValueView {
        ValueView::I32(*self)
    }

    fn cond_value(&self) -> (v: Value) {
        Value::I32(*self)
    }
}

impl IntoCondValue for i64 {
    open spec fn spec_cond_value(&self) -> ValueView {
        ValueView::I64(*self)
    }

    fn cond_value(&self) -> (v: Value) {
        Value::I64(*self)
    }
}

impl IntoCondValue for String {
    open spec fn spec_cond_value(&self) -> ValueView {
        ValueView::String(self@)
    }

    fn cond_value(&self) -> (v: Value) {
        Value::String(self.clone())
    }
}

impl<'a> IntoCondValue for &'a str {
    open spec fn spec_cond_value(&self) -> ValueView {
        ValueView::String(self@)
    }

    fn cond_value(&self) -> (v: Value) {
        Value::String((*self).to_owned())
    }
}

impl IntoCondValue for Vec<u8> {
    open spec fn spec_cond_value(&self) -> ValueView {
        ValueView::Binary(self@)
    }

    fn cond_value(&self) -> (v: Value) {
        Value::Binary(crate::value::copy_bytes(self))
    }
}

impl IntoCondValue for crate::value::NaiveDate {
    open spec fn spec_cond_value(&self) -> ValueView {
        ValueView::Date(*self)
    }

    fn cond_value(&self) -> (v: Value) {
        Value::Date(*self)
    }
}

impl IntoCondValue for crate::value::NaiveTime {
    open spec fn spec_cond_value(&self) -> ValueView {
        ValueView::Time(*self)
    }

    fn cond_value(&self) -> (v: Value) {
        Value::Time(*self)
    }
}

impl IntoCondValue for crate::value::NaiveDateTime {
    open spec fn spec_cond_value(&self) -> ValueView {
        ValueView::DateTime(*self)
    }

    fn cond_value(&self) -> (v: Value) {
        Value::DateTime(*self)
    }
}

impl IntoCondValue for Value {
    open spec fn spec_cond_value(&self) -> ValueView {
        self@
    }

    fn cond_value(&self) -> (v: Value) {
        self.duplicate()
    }

    fn into_value(self) -> (v: Value) {
        self
    }
}

/// A comparison whose right-hand value's type does not match the field's
/// declared type.  Surfaced when the condition is built, before any query
/// runs.
#[derive(Clone, Copy, PartialEq, Eq, Structural, Debug)]
pub struct Incomparable {
    /// The declared type of the field on the left-hand side.
    pub field_type: DbType,
}

/// A typed reference to a model's field, used to build conditions.
pub struct FieldRef {
    /// The column the field is stored in.
    pub column: String,
    /// The field's declared database type.
    pub db_type: DbType,
}

/// The condition `column op value`, as produced by the binary builder
/// helpers.
pub open spec fn is_binary_cond(
    c: Condition,
    op: BinaryOp,
    column: Seq<char>,
    value: ValueView,
) -> bool {
    &&& c matches Condition::Binary(o, a, b)
    &&& o == op
    &&& *a matches Condition::Value(x) && x@ == ValueView::Ident(column)
    &&& *b matches Condition::Value(y) && y@ == value
}

impl FieldRef {
    /// A reference to `column` of declared type `db_type`.
    pub fn new(column: String, db_type: DbType) -> (r: FieldRef)
        ensures
            r.column@ == column@,
            r.db_type == db_type,
    {
        FieldRef { column, db_type }
    }

    /// The bare column reference as a condition leaf.
    pub fn column_cond(&self) -> (r: Condition)
        ensures
            r matches Condition::Value(v) && v@ == ValueView::Ident(self.column@),
    {
        Condition::Value(Value::Ident(self.column.clone()))
    }

    /// Build `column op value` after checking that `value` may be compared
    /// with the field under the given comparison family.
    fn binary(&self, op: BinaryOp, value: Value, fits: bool) -> (r: Result<
        Condition,
        Incomparable,
    >)
        ensures
            r is Ok <==> fits,
            r matches Ok(c) ==> is_binary_cond(c, op, self.column@, value@),
            r matches Err(e) ==> e == (Incomparable { field_type: self.db_type }),
    {
        if fits {
            Ok(
                Condition::Binary(
                    op,
                    Box::new(self.column_cond()),
                    Box::new(Condition::Value(value)),
                ),
            )
        } else {
            Err(Incomparable { field_type: self.db_type })
        }
    }

    /// The condition `column = value`.  The value must belong to the
    /// equality family of the field's type.
    pub fn equals<V: IntoCondValue>(&self, value: V) -> (r: Result<Condition, Incomparable>)
        ensures
            r is Ok <==> crate::value::eq_comparable(self.db_type, value.spec_cond_value()),
            r matches Ok(c) ==> is_binary_cond(
                c,
                BinaryOp::Equals,
                self.column@,
                value.spec_cond_value(),
            ),
    {
        let v = value.into_value();
        let fits = crate::value::check_eq_comparable(self.db_type, &v);
        self.binary(BinaryOp::Equals, v, fits)
    }

    /// The condition `column <> value`, under the equality family.
    pub fn not_equals<V: IntoCondValue>(&self, value: V) -> (r: Result<Condition, Incomparable>)
        ensures
            r is Ok <==> crate::value::eq_comparable(self.db_type, value.spec_cond_value()),
            r matches Ok(c) ==> is_binary_cond(
                c,
                BinaryOp::NotEquals,
                self.column@,
                value.spec_cond_value(),
            ),
    {
        let v = value.into_value();
        let fits = crate::value::check_eq_comparable(self.db_type, &v);
        self.binary(BinaryOp::NotEquals, v, fits)
    }

    /// The condition `column > value`, under the ordering family.
    pub fn greater<V: IntoCondValue>(&self, value: V) -> (r: Result<Condition, Incomparable>)
        ensures
            r is Ok <==> crate::value::ord_comparable(self.db_type, value.spec_cond_value()),
            r matches Ok(c) ==> is_binary_cond(
                c,
                BinaryOp::Greater,
                self.column@,
                value.spec_cond_value(),
            ),
    {
        let v = value.into_value();
        let fits = crate::value::check_ord_comparable(self.db_type, &v);
        self.binary(BinaryOp::Greater, v, fits)
    }

    /// The condition `column >= value`, under the ordering family.
    pub fn greater_or_equals<V: IntoCondValue>(&self, value: V) -> (r: Result<
        Condition,
        Incomparable,
    >)
        ensures
            r is Ok <==> crate::value::ord_comparable(self.db_type, value.spec_cond_value()),
            r matches Ok(c) ==> is_binary_cond(
                c,
                BinaryOp::GreaterOrEquals,
                self.column@,
                value.spec_cond_value(),
            ),
    {
        let v = value.into_value();
        let fits = crate::value::check_ord_comparable(self.db_type, &v);
        self.binary(BinaryOp::GreaterOrEquals, v, fits)
    }

    /// The condition `column < value`, under the ordering family.
    pub fn less<V: IntoCondValue>(&self, value: V) -> (r: Result<Condition, Incomparable>)
        ensures
            r is Ok <==> crate::value::ord_comparable(self.db_type, value.spec_cond_value()),
            r matches Ok(c) ==> is_binary_cond(
                c,
                BinaryOp::Less,
                self.column@,
                value.spec_cond_value(),
            ),
    {
        let v = value.into_value();
        let fits = crate::value::check_ord_comparable(self.db_type, &v);
        self.binary(BinaryOp::Less, v, fits)
    }

    /// The condition `column <= value`, under the ordering family.
    pub fn less_or_equals<V: IntoCondValue>(&self, value: V) -> (r: Result<Condition, Incomparable>)
        ensures
            r is Ok <==> crate::value::ord_comparable(self.db_type, value.spec_cond_value()),
            r matches Ok(c) ==> is_binary_cond(
                c,
                BinaryOp::LessOrEquals,
                self.column@,
                value.spec_cond_value(),
            ),
    {
        let v = value.into_value();
        let fits = crate::value::check_ord_comparable(self.db_type, &v);
        self.binary(BinaryOp::LessOrEquals, v, fits)
    }

    /// The condition `column LIKE value`, under the pattern-match family.
    pub fn like<V: IntoCondValue>(&self, value: V) -> (r: Result<Condition, Incomparable>)
        ensures
            r is Ok <==> crate::value::like_comparable(self.db_type, value.spec_cond_value()),
            r matches Ok(c) ==> is_binary_cond(
                c,
                BinaryOp::Like,
                self.column@,
                value.spec_cond_value(),
            ),
    {
        let v = value.into_value();
        let fits = crate::value::check_like_comparable(self.db_type, &v);
        self.binary(BinaryOp::Like, v, fits)
    }

    /// The condition `column NOT LIKE value`, under the pattern-match family.
    pub fn not_like<V: IntoCondValue>(&self, value: V) -> (r: Result<Condition, Incomparable>)
        ensures
            r is Ok <==> crate::value::like_comparable(self.db_type, value.spec_cond_value()),
            r matches Ok(c) ==> is_binary_cond(
                c,
                BinaryOp::NotLike,
                self.column@,
                value.spec_cond_value(),
            ),
    {
        let v = value.into_value();
        let fits = crate::value::check_like_comparable(self.db_type, &v);
        self.binary(BinaryOp::NotLike, v, fits)
    }

    /// The condition `column REGEXP value`, under the regex family.
    pub fn regexp<V: IntoCondValue>(&self, value: V) -> (r: Result<Condition, Incomparable>)
        ensures
            r is Ok <==> crate::value::regexp_comparable(self.db_type, value.spec_cond_value()),
            r matches Ok(c) ==> is_binary_cond(
                c,
                BinaryOp::Regexp,
                self.column@,
                value.spec_cond_value(),
            ),
    {
        let v = value.into_value();
        let fits = crate::value::check_regexp_comparable(self.db_type, &v);
        self.binary(BinaryOp::Regexp, v, fits)
    }

    /// The condition `column NOT REGEXP value`, under the regex family.
    pub fn not_regexp<V: IntoCondValue>(&self, value: V) -> (r: Result<Condition, Incomparable>)
        ensures
            r is Ok <==> crate::value::regexp_comparable(self.db_type, value.spec_cond_value()),
            r matches Ok(c) ==> is_binary_cond(
                c,
                BinaryOp::NotRegexp,
                self.column@,
                value.spec_cond_value(),
            ),
    {
        let v = value.into_value();
        let fits = crate::value::check_regexp_comparable(self.db_type, &v);
        self.binary(BinaryOp::NotRegexp, v, fits)
    }

    /// The condition `column BETWEEN lower AND upper`, under the ordering
    /// family.
    pub fn between<V: IntoCondValue, W: IntoCondValue>(&self, lower: V, upper: W) -> (r: Result<
        Condition,
        Incomparable,
    >)
        ensures
            r is Ok <==> crate::value::ord_comparable(self.db_type, lower.spec_cond_value())
                && crate::value::ord_comparable(self.db_type, upper.spec_cond_value()),
            r matches Ok(c) ==> is_ternary_cond(
                c,
                TernaryOp::Between,
                self.column@,
                lower.spec_cond_value(),
                upper.spec_cond_value(),
            ),
    {
        let lo = lower.into_value();
        let hi = upper.into_value();
        if crate::value::check_ord_comparable(self.db_type, &lo) && crate::value::check_ord_comparable(
            self.db_type,
            &hi,
        ) {
            Ok(
                Condition::Ternary(
                    TernaryOp::Between,
                    Box::new(self.column_cond()),
                    Box::new(Condition::Value(lo)),
                    Box::new(Condition::Value(hi)),
                ),
            )
        } else {
            Err(Incomparable { field_type: self.db_type })
        }
    }

    /// The condition `column NOT BETWEEN lower AND upper`, under the
    /// ordering family.
    pub fn not_between<V: IntoCondValue, W: IntoCondValue>(&self, lower: V, upper: W) -> (r: Result<
        Condition,
        Incomparable,
    >)
        ensures
            r is Ok <==> crate::value::ord_comparable(self.db_type, lower.spec_cond_value())
                && crate::value::ord_comparable(self.db_type, upper.spec_cond_value()),
            r matches Ok(c) ==> is_ternary_cond(
                c,
                TernaryOp::NotBetween,
                self.column@,
                lower.spec_cond_value(),
                upper.spec_cond_value(),
            ),
    {
        let lo = lower.into_value();
        let hi = upper.into_value();
        if crate::value::check_ord_comparable(self.db_type, &lo) && crate::value::check_ord_comparable(
            self.db_type,
            &hi,
        ) {
            Ok(
                Condition::Ternary(
                    TernaryOp::NotBetween,
                    Box::new(self.column_cond()),
                    Box::new(Condition::Value(lo)),
                    Box::new(Condition::Value(hi)),
                ),
            )
        } else {
            Err(Incomparable { field_type: self.db_type })
        }
    }

    /// The condition `column IS NULL`.
    pub fn is_null(&self) -> (r: Condition)
        ensures
            is_unary_cond(r, UnaryOp::IsNull, self.column@),
    {
        Condition::Unary(UnaryOp::IsNull, Box::new(self.column_cond()))
    }

    /// The condition `column IS NOT NULL`.
    pub fn is_not_null(&self) -> (r: Condition)
        ensures
            is_unary_cond(r, UnaryOp::IsNotNull, self.column@),
    {
        Condition::Unary(UnaryOp::IsNotNull, Box::new(self.column_cond()))
    }

    /// `column` equal to any of the listed values: a disjunction with one
    /// equality comparison per value.  An empty list gives the empty
    /// disjunction, which renders as an always-false predicate.
    pub fn in_list<V: IntoCondValue>(&self, values: &Vec<V>) -> (r: Result<Condition, Incomparable>)
        ensures
            r is Ok <==> (forall|i: int|
                0 <= i < values@.len() ==> crate::value::eq_comparable(
                    self.db_type,
                    #[trigger] values@[i].spec_cond_value(),
                )),
            r matches Ok(c) ==> {
                &&& c matches Condition::Disjunction(cs)
                &&& cs@.len() == values@.len()
                &&& forall|i: int|
                    0 <= i < values@.len() ==> is_binary_cond(
                        #[trigger] cs@[i],
                        BinaryOp::Equals,
                        self.column@,
                        values@[i].spec_cond_value(),
                    )
            },
    {
        match self.eq_leaves(values, BinaryOp::Equals) {
            Ok(cs) => Ok(Condition::Disjunction(cs)),
            Err(e) => Err(e),
        }
    }

    /// `column` different from every listed value: a conjunction with one
    /// inequality comparison per value.  An empty list gives the empty
    /// conjunction, which renders as an always-true predicate.
    pub fn not_in<V: IntoCondValue>(&self, values: &Vec<V>) -> (r: Result<Condition, Incomparable>)
        ensures
            r is Ok <==> (forall|i: int|
                0 <= i < values@.len() ==> crate::value::eq_comparable(
                    self.db_type,
                    #[trigger] values@[i].spec_cond_value(),
                )),
            r matches Ok(c) ==> {
                &&& c matches Condition::Conjunction(cs)
                &&& cs@.len() == values@.len()
                &&& forall|i: int|
                    0 <= i < values@.len() ==> is_binary_cond(
                        #[trigger] cs@[i],
                        BinaryOp::NotEquals,
                        self.column@,
                        values@[i].spec_cond_value(),
                    )
            },
    {
        match self.eq_leaves(values, BinaryOp::NotEquals) {
            Ok(cs) => Ok(Condition::Conjunction(cs)),
            Err(e) => Err(e),
        }
    }

    /// One `column op value` comparison per listed value, all under the
    /// equality family.
    fn eq_leaves<V: IntoCondValue>(&self, values: &Vec<V>, op: BinaryOp) -> (r: Result<
        Vec<Condition>,
        Incomparable,
    >)
        ensures
            r is Ok <==> (forall|i: int|
                0 <= i < values@.len() ==> crate::value::eq_comparable(
                    self.db_type,
                    #[trigger] values@[i].spec_cond_value(),
                )),
            r matches Ok(cs) ==> {
                &&& cs@.len() == values@.len()
                &&& forall|i: int|
                    0 <= i < values@.len() ==> is_binary_cond(
                        #[trigger] cs@[i],
                        op,
                        self.column@,
                        values@[i].spec_cond_value(),
                    )
            },
    {
        let mut out: Vec<Condition> = Vec::new();
        let mut k: usize = 0;
        while k < values.len()
            invariant
                k <= values@.len(),
                out@.len() == k,
                forall|i: int|
                    0 <= i < k ==> is_binary_cond(
                        #[trigger] out@[i],
                        op,
                        self.column@,
                        values@[i].spec_cond_value(),
                    ),
                forall|i: int|
                    0 <= i < k ==> crate::value::eq_comparable(
                        self.db_type,
                        #[trigger] values@[i].spec_cond_value(),
                    ),
            decreases values@.len() - k,
        {
            let value = &values[k];
            let v = value.cond_value();
            if !crate::value::check_eq_comparable(self.db_type, &v) {
                return Err(Incomparable { field_type: self.db_type });
            }
            match self.binary(op, v, true) {
                Ok(c) => out.push(c),
                Err(e) => {
                    return Err(e);
                },
            }
            k = k + 1;
        }
        Ok(out)
    }
}

/// The condition `column op`, as produced by the unary builder helpers.
pub open spec fn is_unary_cond(c: Condition, op: UnaryOp, column: Seq<char>) -> bool {
    &&& c matches Condition::Unary(o, a)
    &&& o == op
    &&& *a matches Condition::Value(x) && x@ == ValueView::Ident(column)
}

/// The condition `column op lower upper`, as produced by the ternary
/// builder helpers.
pub open spec fn is_ternary_cond(
    c: Condition,
    op: TernaryOp,
    column: Seq<char>,
    lower: ValueView,
    upper: ValueView,
) -> bool {
    &&& c matches Condition::Ternary(o, a, b, d)
    &&& o == op
    &&& *a matches Condition::Value(x) && x@ == ValueView::Ident(column)
    &&& *b matches Condition::Value(y) && y@ == lower
    &&& *d matches Condition::Value(z) && z@ == upper
}

} // verus!
