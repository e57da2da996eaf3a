//! Dialect-specific SQL rendering.
//!
//! One renderer exists per supported dialect; they share the condition-tree
//! walk and differ in identifier quoting, placeholder syntax and the shape
//! of the `LIMIT`/`OFFSET` clause.  The renderer never inlines a value into
//! the SQL text: every non-identifier leaf becomes a placeholder and is
//! appended to the parameter list in tree-walk order, so placeholder order
//! in the text always matches parameter order.

use vstd::prelude::*;

use crate::condition::{
    cond_params, conds_params, BinaryOp, Condition, TernaryOp, UnaryOp,
};
use crate::text::{dec_str, push_u64};
use crate::value::{Value, ValueView};

verus! {

/// A supported SQL dialect.
#[derive(Clone, Copy, PartialEq, Eq, Structural, Debug)]
pub enum Dialect {
    /// SQLite: `"` quoting, `?` placeholders.
    SQLite,
    /// PostgreSQL: `"` quoting, `$n` placeholders.
    Postgres,
    /// MySQL: `` ` `` quoting, `?` placeholders.
    MySQL,
}

/// The character a dialect quotes identifiers with.
pub open spec fn quote_char(d: Dialect) -> char {
    match d {
        Dialect::MySQL => '`',
        _ => '"',
    }
}

/// The character a dialect's placeholders start with.
pub open spec fn placeholder_char(d: Dialect) -> char {
    match d {
        Dialect::Postgres => '$',
        _ => '?',
    }
}

/// An identifier as it appears in SQL text: quoted on both sides.
pub open spec fn quoted_ident(d: Dialect, s: Seq<char>) -> Seq<char> {
    seq![quote_char(d)] + s + seq![quote_char(d)]
}

/// The placeholder standing for the parameter after `k` already bound ones:
/// `?` for SQLite and MySQL, `$k+1` for PostgreSQL.
pub open spec fn placeholder(d: Dialect, k: int) -> Seq<char> {
    match d {
        Dialect::Postgres => seq!['$'] + dec_str(k + 1),
        _ => seq!['?'],
    }
}

/// The SQL token of a binary operator, with surrounding spaces.
pub open spec fn binop_token(op: BinaryOp) -> Seq<char> {
    match op {
        BinaryOp::Equals => " = "@,
        BinaryOp::NotEquals => " <> "@,
        BinaryOp::Greater => " > "@,
        BinaryOp::GreaterOrEquals => " >= "@,
        BinaryOp::Less => " < "@,
        BinaryOp::LessOrEquals => " <= "@,
        BinaryOp::Like => " LIKE "@,
        BinaryOp::NotLike => " NOT LIKE "@,
        BinaryOp::Regexp => " REGEXP "@,
        BinaryOp::NotRegexp => " NOT REGEXP "@,
        BinaryOp::In => " IN "@,
        BinaryOp::NotIn => " NOT IN "@,
    }
}

/// The SQL token between the first and second operand of a ternary operator.
pub open spec fn ternop_token(op: TernaryOp) -> Seq<char> {
    match op {
        TernaryOp::Between => " BETWEEN "@,
        TernaryOp::NotBetween => " NOT BETWEEN "@,
    }
}

/// The SQL text of a condition, with `k` parameters already bound before it.
///
/// An empty conjunction renders as the always-true predicate `(1 = 1)`; an
/// empty disjunction as the always-false predicate `(1 = 0)`.
pub open spec fn cond_sql(d: Dialect, c: Condition, k: int) -> Seq<char>
    decreases c, 0int,
{
    match c {
        Condition::Value(v) => match v@ {
            ValueView::Ident(s) => quoted_ident(d, s),
            _ => placeholder(d, k),
        },
        Condition::Conjunction(cs) => if cs@.len() == 0 {
            "(1 = 1)"@
        } else {
            seq!['('] + conds_sql(d, cs@, k, " AND "@) + seq![')']
        },
        Condition::Disjunction(cs) => if cs@.len() == 0 {
            "(1 = 0)"@
        } else {
            seq!['('] + conds_sql(d, cs@, k, " OR "@) + seq![')']
        },
        Condition::Unary(op, x) => match op {
            UnaryOp::IsNull => cond_sql(d, *x, k) + " IS NULL"@,
            UnaryOp::IsNotNull => cond_sql(d, *x, k) + " IS NOT NULL"@,
            UnaryOp::Exists => "EXISTS "@ + cond_sql(d, *x, k),
            UnaryOp::NotExists => "NOT EXISTS "@ + cond_sql(d, *x, k),
            UnaryOp::Not => "NOT "@ + cond_sql(d, *x, k),
        },
        Condition::Binary(op, a, b) => cond_sql(d, *a, k) + binop_token(op) + cond_sql(
            d,
            *b,
            k + cond_params(*a).len(),
        ),
        Condition::Ternary(op, a, b, c2) => cond_sql(d, *a, k) + ternop_token(op) + cond_sql(
            d,
            *b,
            k + cond_params(*a).len(),
        ) + " AND "@ + cond_sql(d, *c2, k + cond_params(*a).len() + cond_params(*b).len()),
    }
}

/// The SQL text of a non-empty condition list, joined by `sep`.
pub open spec fn conds_sql(d: Dialect, cs: Seq<Condition>, k: int, sep: Seq<char>) -> Seq<char>
    decreases cs, 1int,
{
    if cs.len() == 0 {
        Seq::empty()
    } else if cs.len() == 1 {
        cond_sql(d, cs[0], k)
    } else {
        cond_sql(d, cs[0], k) + sep + conds_sql(
            d,
            cs.drop_first(),
            k + cond_params(cs[0]).len(),
            sep,
        )
    }
}

/// The views of a parameter list.
pub open spec fn vals_views(s: Seq<Value>) -> Seq<ValueView> {
    s.map_values(|v: Value| v@)
}

/// The quote of the dialect, as a string slice.
fn quote_str(d: Dialect) -> (s: &'static str)
    ensures
        s@ =~= seq![quote_char(d)],
{
    proof {
        reveal_strlit("\"");
        reveal_strlit("`");
    }
    match d {
        Dialect::MySQL => "`",
        _ => "\"",
    }
}

/// Append a quoted identifier to `out`.
pub fn push_quoted_ident(d: Dialect, name: &str, out: &mut String)
    ensures
        final(out)@ == old(out)@ + quoted_ident(d, name@),
{
    let q = quote_str(d);
    out.append(q);
    out.append(name);
    out.append(q);
    proof {
        assert(old(out)@ + seq![quote_char(d)] + name@ + seq![quote_char(d)] =~= old(out)@
            + quoted_ident(d, name@));
    }
}

/// Append the next placeholder to `out`, given that `out` will stand right
/// after `k` already bound parameters.
fn push_placeholder(d: Dialect, k: usize, out: &mut String)
    requires
        k < usize::MAX,
    ensures
        final(out)@ == old(out)@ + placeholder(d, k as int),
{
    match d {
        Dialect::Postgres => {
            out.append("$");
            push_u64((k + 1) as u64, out);
            proof {
                reveal_strlit("$");
                assert("$"@ =~= seq!['$']);
                assert(old(out)@ + "$"@ + dec_str(k + 1 as int) =~= old(out)@ + placeholder(
                    d,
                    k as int,
                ));
            }
        },
        _ => {
            out.append("?");
            proof {
                reveal_strlit("?");
                assert("?"@ =~= seq!['?']);
                assert(old(out)@ + "?"@ =~= old(out)@ + placeholder(d, k as int));
            }
        },
    }
}

/// The binary operator's token as a string slice.
fn binop_str(op: BinaryOp) -> (s: &'static str)
    ensures
        s@ == binop_token(op),
{
    match op {
        BinaryOp::Equals => " = ",
        BinaryOp::NotEquals => " <> ",
        BinaryOp::Greater => " > ",
        BinaryOp::GreaterOrEquals => " >= ",
        BinaryOp::Less => " < ",
        BinaryOp::LessOrEquals => " <= ",
        BinaryOp::Like => " LIKE ",
        BinaryOp::NotLike => " NOT LIKE ",
        BinaryOp::Regexp => " REGEXP ",
        BinaryOp::NotRegexp => " NOT REGEXP ",
        BinaryOp::In => " IN ",
        BinaryOp::NotIn => " NOT IN ",
    }
}

/// Render a condition: append its SQL text to `out` and its bound values,
/// in depth-first order, to `params`.
#[verifier::rlimit(50)]
pub fn render_cond(d: Dialect, c: &Condition, out: &mut String, params: &mut Vec<Value>)
    ensures
        final(out)@ == old(out)@ + cond_sql(d, *c, old(params)@.len() as int),
        vals_views(final(params)@) == vals_views(old(params)@) + cond_params(*c),
    decreases *c, 0int,
{
    match c {
        Condition::Value(v) => {
            if v.is_ident() {
                match v {
                    Value::Ident(s) => push_quoted_ident(d, s.as_str(), out),
                    _ => {
                        proof {
                            assert(false);
                        }
                    },
                }
                proof {
                    assert(vals_views(params@) =~= vals_views(params@) + cond_params(*c));
                }
            } else {
                params.push(v.duplicate());
                let n = params.len();
                push_placeholder(d, n - 1, out);
                proof {
                    lemma_vals_views_push(old(params)@, params@.last());
                    assert(vals_views(params@) =~= vals_views(old(params)@) + cond_params(*c));
                }
            }
        },
        Condition::Conjunction(cs) => {
            render_group(d, cs, "(1 = 1)", " AND ", out, params);
            proof {
                assert(cond_sql(d, *c, old(params)@.len() as int) == group_sql(
                    d,
                    cs@,
                    old(params)@.len() as int,
                    "(1 = 1)"@,
                    " AND "@,
                ));
            }
        },
        Condition::Disjunction(cs) => {
            render_group(d, cs, "(1 = 0)", " OR ", out, params);
            proof {
                assert(cond_sql(d, *c, old(params)@.len() as int) == group_sql(
                    d,
                    cs@,
                    old(params)@.len() as int,
                    "(1 = 0)"@,
                    " OR "@,
                ));
            }
        },
        Condition::Unary(op, x) => {
            match op {
                UnaryOp::IsNull => {
                    render_cond(d, x, out, params);
                    out.append(" IS NULL");
                },
                UnaryOp::IsNotNull => {
                    render_cond(d, x, out, params);
                    out.append(" IS NOT NULL");
                },
                UnaryOp::Exists => {
                    out.append("EXISTS ");
                    render_cond(d, x, out, params);
                },
                UnaryOp::NotExists => {
                    out.append("NOT EXISTS ");
                    render_cond(d, x, out, params);
                },
                UnaryOp::Not => {
                    out.append("NOT ");
                    render_cond(d, x, out, params);
                },
            }
            proof {
                assert(final(out)@ =~= old(out)@ + cond_sql(
                    d,
                    *c,
                    old(params)@.len() as int,
                ));
            }
        },
        Condition::Binary(op, a, b) => {
            let ghost k = params@.len() as int;
            render_cond(d, a, out, params);
            out.append(binop_str(*op));
            render_cond(d, b, out, params);
            proof {
                assert(final(out)@ =~= old(out)@ + cond_sql(d, *c, k));
                assert(vals_views(final(params)@) =~= vals_views(old(params)@) + cond_params(
                    *c,
                ));
            }
        },
        Condition::Ternary(op, a, b, c2) => {
            let ghost k = params@.len() as int;
            render_cond(d, a, out, params);
            match op {
                TernaryOp::Between => out.append(" BETWEEN "),
                TernaryOp::NotBetween => out.append(" NOT BETWEEN "),
            }
            render_cond(d, b, out, params);
            out.append(" AND ");
            render_cond(d, c2, out, params);
            proof {
                assert(final(out)@ =~= old(out)@ + cond_sql(d, *c, k));
                assert(vals_views(final(params)@) =~= vals_views(old(params)@) + cond_params(
                    *c,
                ));
            }
        },
    }
}

/// The text of a conjunction or disjunction group: the `empty` predicate
/// when the list is empty, else the parenthesized, separated list.
pub open spec fn group_sql(
    d: Dialect,
    cs: Seq<Condition>,
    k: int,
    empty: Seq<char>,
    sep: Seq<char>,
) -> Seq<char> {
    if cs.len() == 0 {
        empty
    } else {
        seq!['('] + conds_sql(d, cs, k, sep) + seq![')']
    }
}

/// Render a conjunction or disjunction group.
fn render_group(
    d: Dialect,
    cs: &Vec<Condition>,
    empty: &'static str,
    sep: &'static str,
    out: &mut String,
    params: &mut Vec<Value>,
)
    ensures
        final(out)@ == old(out)@ + group_sql(
            d,
            cs@,
            old(params)@.len() as int,
            empty@,
            sep@,
        ),
        vals_views(final(params)@) == vals_views(old(params)@) + conds_params(cs@),
    decreases cs@, 2int,
{
    if cs.len() == 0 {
        out.append(empty);
        proof {
            assert(vals_views(params@) =~= vals_views(params@) + conds_params(cs@));
        }
    } else {
        out.append("(");
        proof {
            reveal_strlit("(");
            assert("("@ =~= seq!['(']);
            assert(cs@.skip(0) =~= cs@);
        }
        render_conds(d, cs, 0, sep, out, params);
        out.append(")");
        proof {
            reveal_strlit(")");
            assert(")"@ =~= seq![')']);
            assert(cs@.skip(0) =~= cs@);
            assert(final(out)@ =~= old(out)@ + group_sql(
                d,
                cs@,
                old(params)@.len() as int,
                empty@,
                sep@,
            ));
        }
    }
}

/// Render the conditions `cs[i..]`, joined by `sep`.
fn render_conds(
    d: Dialect,
    cs: &Vec<Condition>,
    i: usize,
    sep: &'static str,
    out: &mut String,
    params: &mut Vec<Value>,
)
    requires
        i < cs@.len(),
    ensures
        final(out)@ == old(out)@ + conds_sql(
            d,
            cs@.skip(i as int),
            old(params)@.len() as int,
            sep@,
        ),
        vals_views(final(params)@) == vals_views(old(params)@) + conds_params(cs@.skip(i as int)),
    decreases cs@.skip(i as int), 1int,
{
    proof {
        assert(cs@[i as int] == cs@.skip(i as int)[0]);
    }
    let c = &cs[i];
    render_cond(d, c, out, params);
    let n = cs.len();
    if i + 1 < n {
        out.append(sep);
        proof {
            assert(cs@.skip(i as int).drop_first() =~= cs@.skip(i + 1 as int));
        }
        render_conds(d, cs, i + 1, sep, out, params);
        proof {
            assert(final(out)@ =~= old(out)@ + conds_sql(
                d,
                cs@.skip(i as int),
                old(params)@.len() as int,
                sep@,
            ));
            assert(conds_params(cs@.skip(i as int)) =~= cond_params(cs@[i as int]) + conds_params(
                cs@.skip(i + 1 as int),
            ));
            assert(vals_views(final(params)@) =~= vals_views(old(params)@) + conds_params(
                cs@.skip(i as int),
            ));
        }
    } else {
        proof {
            let s = cs@.skip(i as int);
            assert(s.len() == 1);
            assert(conds_params(s) == cond_params(s[0]) + conds_params(s.drop_first()));
            assert(conds_params(s.drop_first()) =~= Seq::<ValueView>::empty());
            assert(cond_params(s[0]) + Seq::<ValueView>::empty() =~= cond_params(s[0]));
            assert(conds_params(s) =~= cond_params(cs@[i as int]));
        }
    }
}

/// Map-view of a pushed parameter list.
pub proof fn lemma_vals_views_push(s: Seq<Value>, v: Value)
    ensures
        vals_views(s.push(v)) =~= vals_views(s).push(v@),
{
}

/// How often a character occurs in a sequence.
pub open spec fn count_char(s: Seq<char>, c: char) -> nat
    decreases s.len(),
{
    if s.len() == 0 {
        0
    } else {
        count_char(s.drop_first(), c) + (if s[0] == c {
            1nat
        } else {
            0nat
        })
    }
}

/// Counting distributes over concatenation.
pub proof fn lemma_count_concat(a: Seq<char>, b: Seq<char>, c: char)
    ensures
        count_char(a + b, c) == count_char(a, c) + count_char(b, c),
    decreases a.len(),
{
    if a.len() == 0 {
        assert(a + b =~= b);
    } else {
        assert((a + b).drop_first() =~= a.drop_first() + b);
        assert((a + b)[0] == a[0]);
        lemma_count_concat(a.drop_first(), b, c);
    }
}

/// A sequence without the character counts zero.
pub proof fn lemma_count_zero(s: Seq<char>, c: char)
    requires
        forall|i: int| 0 <= i < s.len() ==> s[i] != c,
    ensures
        count_char(s, c) == 0,
    decreases s.len(),
{
    if s.len() > 0 {
        assert(forall|i: int| 0 <= i < s.drop_first().len() ==> s.drop_first()[i] == s[i + 1]);
        lemma_count_zero(s.drop_first(), c);
    }
}

/// A one-character sequence counts one occurrence of its character.
pub proof fn lemma_count_single(x: char, c: char)
    ensures
        count_char(seq![x], c) == (if x == c {
            1nat
        } else {
            0nat
        }),
{
    let s = seq![x];
    assert(s.len() == 1);
    assert(s[0] == x);
    assert(s.drop_first() =~= Seq::<char>::empty());
    assert(count_char(Seq::<char>::empty(), c) == 0);
    assert(count_char(s, c) == count_char(s.drop_first(), c) + (if s[0] == c {
        1nat
    } else {
        0nat
    }));
}

/// Whether a character can start a placeholder in some dialect.
pub open spec fn is_placeholder_char(c: char) -> bool {
    c == '?' || c == '$'
}

/// A well-formed identifier contains no placeholder characters.
pub proof fn lemma_ident_clean(s: Seq<char>, c: char)
    requires
        crate::text::ident_ok(s),
        is_placeholder_char(c),
    ensures
        count_char(s, c) == 0,
{
    assert forall|i: int| 0 <= i < s.len() implies s[i] != c by {
        assert(crate::text::ident_char_ok(s[i]));
    }
    lemma_count_zero(s, c);
}

/// A decimal rendering contains no placeholder characters.
pub proof fn lemma_dec_str_clean(n: int, c: char)
    requires
        n >= 0,
        is_placeholder_char(c),
    ensures
        count_char(dec_str(n), c) == 0,
{
    crate::text::lemma_dec_str_digits(n);
    assert forall|i: int| 0 <= i < dec_str(n).len() implies dec_str(n)[i] != c by {
        assert('0' <= dec_str(n)[i] <= '9');
    }
    lemma_count_zero(dec_str(n), c);
}

/// A quoted identifier contains no placeholder characters.
pub proof fn lemma_quoted_ident_clean(d: Dialect, s: Seq<char>, c: char)
    requires
        crate::text::ident_ok(s),
        is_placeholder_char(c),
    ensures
        count_char(quoted_ident(d, s), c) == 0,
{
    lemma_count_concat(seq![quote_char(d)] + s, seq![quote_char(d)], c);
    lemma_count_concat(seq![quote_char(d)], s, c);
    lemma_count_single(quote_char(d), c);
    lemma_ident_clean(s, c);
}

/// A placeholder contains its dialect's placeholder character exactly once.
pub proof fn lemma_placeholder_one(d: Dialect, k: int)
    requires
        k >= 0,
    ensures
        count_char(placeholder(d, k), placeholder_char(d)) == 1,
{
    match d {
        Dialect::Postgres => {
            lemma_count_concat(seq!['$'], dec_str(k + 1), '$');
            lemma_count_single('$', '$');
            lemma_dec_str_clean(k + 1, '$');
        },
        _ => {
            lemma_count_single('?', '?');
        },
    }
}

/// An operator or keyword token contains no placeholder characters.
pub proof fn lemma_token_clean(s: Seq<char>, c: char)
    requires
        forall|i: int| 0 <= i < s.len() ==> (#[trigger] s[i]) != '?' && s[i] != '$',
        is_placeholder_char(c),
    ensures
        count_char(s, c) == 0,
{
    lemma_count_zero(s, c);
}

/// The binary operator tokens contain no placeholder characters.
pub proof fn lemma_binop_clean(op: BinaryOp, c: char)
    requires
        is_placeholder_char(c),
    ensures
        count_char(binop_token(op), c) == 0,
{
    reveal_strlit(" = ");
    reveal_strlit(" <> ");
    reveal_strlit(" > ");
    reveal_strlit(" >= ");
    reveal_strlit(" < ");
    reveal_strlit(" <= ");
    reveal_strlit(" LIKE ");
    reveal_strlit(" NOT LIKE ");
    reveal_strlit(" REGEXP ");
    reveal_strlit(" NOT REGEXP ");
    reveal_strlit(" IN ");
    reveal_strlit(" NOT IN ");
    lemma_token_clean(binop_token(op), c);
}

/// The number of placeholders in a condition's SQL text equals the number
/// of non-identifier value leaves, i.e. the length of its parameter list.
pub proof fn lemma_placeholder_count(d: Dialect, c: Condition, k: int)
    requires
        crate::condition::cond_idents_ok(c),
        k >= 0,
    ensures
        count_char(cond_sql(d, c, k), placeholder_char(d)) == cond_params(c).len(),
    decreases c, 0int,
{
    let ph = placeholder_char(d);
    match c {
        Condition::Value(v) => {
            match v@ {
                ValueView::Ident(s) => {
                    lemma_quoted_ident_clean(d, s, ph);
                    assert(cond_sql(d, c, k) == quoted_ident(d, s));
                    assert(cond_params(c) =~= Seq::<ValueView>::empty());
                },
                _ => {
                    lemma_placeholder_one(d, k);
                    assert(cond_sql(d, c, k) == placeholder(d, k));
                    assert(cond_params(c) =~= seq![v@]);
                },
            }
            assert(count_char(cond_sql(d, c, k), ph) == cond_params(c).len());
        },
        Condition::Conjunction(cs) => {
            if cs@.len() == 0 {
                reveal_strlit("(1 = 1)");
                lemma_token_clean("(1 = 1)"@, ph);
                assert(cond_sql(d, c, k) == "(1 = 1)"@);
                assert(cond_params(c) == conds_params(cs@));
                assert(conds_params(cs@) =~= Seq::<ValueView>::empty());
            } else {
                reveal_strlit(" AND ");
                lemma_token_clean(" AND "@, ph);
                lemma_placeholder_count_list(d, cs@, k, " AND "@);
                let inner = conds_sql(d, cs@, k, " AND "@);
                lemma_count_concat(seq!['('] + inner, seq![')'], ph);
                lemma_count_concat(seq!['('], inner, ph);
                lemma_count_single('(', ph);
                lemma_count_single(')', ph);
                assert(cond_sql(d, c, k) == seq!['('] + inner + seq![')']);
                assert(count_char(seq!['('], ph) == 0);
                assert(count_char(seq![')'], ph) == 0);
                assert(count_char(cond_sql(d, c, k), ph) == count_char(inner, ph));
                assert(cond_params(c) == conds_params(cs@));
            }
            assert(count_char(cond_sql(d, c, k), ph) == cond_params(c).len());
        },
        Condition::Disjunction(cs) => {
            if cs@.len() == 0 {
                reveal_strlit("(1 = 0)");
                lemma_token_clean("(1 = 0)"@, ph);
                assert(cond_sql(d, c, k) == "(1 = 0)"@);
                assert(cond_params(c) == conds_params(cs@));
                assert(conds_params(cs@) =~= Seq::<ValueView>::empty());
            } else {
                reveal_strlit(" OR ");
                lemma_token_clean(" OR "@, ph);
                lemma_placeholder_count_list(d, cs@, k, " OR "@);
                let inner = conds_sql(d, cs@, k, " OR "@);
                lemma_count_concat(seq!['('] + inner, seq![')'], ph);
                lemma_count_concat(seq!['('], inner, ph);
                lemma_count_single('(', ph);
                lemma_count_single(')', ph);
                assert(cond_sql(d, c, k) == seq!['('] + inner + seq![')']);
                assert(count_char(seq!['('], ph) == 0);
                assert(count_char(seq![')'], ph) == 0);
                assert(count_char(cond_sql(d, c, k), ph) == count_char(inner, ph));
                assert(cond_params(c) == conds_params(cs@));
            }
            assert(count_char(cond_sql(d, c, k), ph) == cond_params(c).len());
        },
        Condition::Unary(op, x) => {
            reveal_strlit(" IS NULL");
            reveal_strlit(" IS NOT NULL");
            reveal_strlit("EXISTS ");
            reveal_strlit("NOT EXISTS ");
            reveal_strlit("NOT ");
            lemma_placeholder_count(d, *x, k);
            match op {
                UnaryOp::IsNull => {
                    lemma_token_clean(" IS NULL"@, ph);
                    lemma_count_concat(cond_sql(d, *x, k), " IS NULL"@, ph);
                },
                UnaryOp::IsNotNull => {
                    lemma_token_clean(" IS NOT NULL"@, ph);
                    lemma_count_concat(cond_sql(d, *x, k), " IS NOT NULL"@, ph);
                },
                UnaryOp::Exists => {
                    lemma_token_clean("EXISTS "@, ph);
                    lemma_count_concat("EXISTS "@, cond_sql(d, *x, k), ph);
                },
                UnaryOp::NotExists => {
                    lemma_token_clean("NOT EXISTS "@, ph);
                    lemma_count_concat("NOT EXISTS "@, cond_sql(d, *x, k), ph);
                },
                UnaryOp::Not => {
                    lemma_token_clean("NOT "@, ph);
                    lemma_count_concat("NOT "@, cond_sql(d, *x, k), ph);
                },
            }
            assert(count_char(cond_sql(d, c, k), ph) == cond_params(c).len());
        },
        Condition::Binary(op, a, b) => {
            let ka = k + cond_params(*a).len();
            lemma_placeholder_count(d, *a, k);
            lemma_placeholder_count(d, *b, ka);
            lemma_binop_clean(op, ph);
            lemma_count_concat(cond_sql(d, *a, k) + binop_token(op), cond_sql(d, *b, ka), ph);
            lemma_count_concat(cond_sql(d, *a, k), binop_token(op), ph);
            assert(count_char(cond_sql(d, c, k), ph) == cond_params(c).len());
        },
        Condition::Ternary(op, a, b, c2) => {
            let ka = k + cond_params(*a).len();
            let kb = ka + cond_params(*b).len();
            reveal_strlit(" BETWEEN ");
            reveal_strlit(" NOT BETWEEN ");
            reveal_strlit(" AND ");
            lemma_placeholder_count(d, *a, k);
            lemma_placeholder_count(d, *b, ka);
            lemma_placeholder_count(d, *c2, kb);
            lemma_token_clean(ternop_token(op), ph);
            lemma_token_clean(" AND "@, ph);
            let t1 = cond_sql(d, *a, k);
            let t2 = cond_sql(d, *b, ka);
            let t3 = cond_sql(d, *c2, kb);
            lemma_count_concat(t1 + ternop_token(op) + t2 + " AND "@, t3, ph);
            lemma_count_concat(t1 + ternop_token(op) + t2, " AND "@, ph);
            lemma_count_concat(t1 + ternop_token(op), t2, ph);
            lemma_count_concat(t1, ternop_token(op), ph);
            assert(count_char(cond_sql(d, c, k), ph) == cond_params(c).len());
        },
    }
}

/// [`lemma_placeholder_count`] over a separated condition list.
pub proof fn lemma_placeholder_count_list(d: Dialect, cs: Seq<Condition>, k: int, sep: Seq<char>)
    requires
        crate::condition::conds_idents_ok(cs),
        k >= 0,
        count_char(sep, placeholder_char(d)) == 0,
    ensures
        count_char(conds_sql(d, cs, k, sep), placeholder_char(d)) == conds_params(cs).len(),
    decreases cs, 1int,
{
    let ph = placeholder_char(d);
    if cs.len() == 0 {
    } else if cs.len() == 1 {
        lemma_placeholder_count(d, cs[0], k);
        assert(conds_params(cs) == cond_params(cs[0]) + conds_params(cs.drop_first()));
        assert(conds_params(cs.drop_first()) =~= Seq::<ValueView>::empty());
        assert(cond_params(cs[0]) + Seq::<ValueView>::empty() =~= cond_params(cs[0]));
    } else {
        let ka = k + cond_params(cs[0]).len();
        lemma_placeholder_count(d, cs[0], k);
        lemma_placeholder_count_list(d, cs.drop_first(), ka, sep);
        lemma_count_concat(cond_sql(d, cs[0], k) + sep, conds_sql(d, cs.drop_first(), ka, sep), ph);
        lemma_count_concat(cond_sql(d, cs[0], k), sep, ph);
    }
}

/// Rendering is a pure function of the condition tree: two renderings of
/// the same tree, from the same starting parameter count, produce identical
/// text and identical parameter lists.
pub proof fn lemma_render_idempotent(
    d: Dialect,
    c: Condition,
    k: int,
    text1: Seq<char>,
    params1: Seq<ValueView>,
    text2: Seq<char>,
    params2: Seq<ValueView>,
)
    requires
        text1 == cond_sql(d, c, k),
        params1 == cond_params(c),
        text2 == cond_sql(d, c, k),
        params2 == cond_params(c),
    ensures
        text1 == text2,
        params1 == params2,
{
}

/// A `LIMIT` together with an optional `OFFSET`.
#[derive(Clone, Copy, PartialEq, Eq, Structural, Debug)]
pub struct LimitClause {
    /// Number of rows to return at most.
    pub limit: u64,
    /// Number of rows to skip first.
    pub offset: Option<u64>,
}

/// The row-bounding clause of a query: none, a limit with optional offset,
/// or an offset without a limit.
#[derive(Clone, Copy, PartialEq, Eq, Structural, Debug)]
pub enum LimOff {
    /// No bound.
    All,
    /// A `LIMIT`, possibly with an `OFFSET`.
    Limit(LimitClause),
    /// An `OFFSET` without a `LIMIT`.
    Offset(u64),
}

/// A construct that the chosen dialect cannot express.  Surfaced to the
/// caller instead of silently rendering different SQL.
#[derive(Clone, Copy, PartialEq, Eq, Structural, Debug)]
pub struct UnsupportedOperation {
    /// The dialect that cannot express the construct.
    pub dialect: Dialect,
}

/// Whether the dialect can express the bound: an offset without a limit has
/// no MySQL form.
pub open spec fn limoff_supported(d: Dialect, lo: LimOff) -> bool {
    !(lo is Offset && d is MySQL)
}

/// The SQL text of the row-bounding clause, empty for no bound.
pub open spec fn limoff_sql(d: Dialect, lo: LimOff) -> Seq<char> {
    match lo {
        LimOff::All => Seq::empty(),
        LimOff::Limit(lc) => " LIMIT "@ + dec_str(lc.limit as int) + (match lc.offset {
            Some(o) => " OFFSET "@ + dec_str(o as int),
            None => Seq::empty(),
        }),
        LimOff::Offset(o) => match d {
            Dialect::SQLite => " LIMIT -1 OFFSET "@ + dec_str(o as int),
            Dialect::Postgres => " OFFSET "@ + dec_str(o as int),
            Dialect::MySQL => Seq::empty(),
        },
    }
}

/// Append the row-bounding clause, or report that the dialect cannot
/// express it.
pub fn push_limoff(d: Dialect, lo: &LimOff, out: &mut String) -> (r: Result<
    (),
    UnsupportedOperation,
>)
    ensures
        r is Ok <==> limoff_supported(d, *lo),
        r is Ok ==> final(out)@ == old(out)@ + limoff_sql(d, *lo),
        r matches Err(e) ==> e.dialect == d && final(out)@ == old(out)@,
{
    match lo {
        LimOff::All => {
            proof {
                assert(out@ =~= old(out)@ + limoff_sql(d, *lo));
            }
            Ok(())
        },
        LimOff::Limit(lc) => {
            out.append(" LIMIT ");
            push_u64(lc.limit, out);
            match lc.offset {
                Some(o) => {
                    out.append(" OFFSET ");
                    push_u64(o, out);
                },
                None => {},
            }
            proof {
                assert(final(out)@ =~= old(out)@ + limoff_sql(d, *lo));
            }
            Ok(())
        },
        LimOff::Offset(o) => {
            match d {
                Dialect::SQLite => {
                    out.append(" LIMIT -1 OFFSET ");
                    push_u64(*o, out);
                    proof {
                        assert(final(out)@ =~= old(out)@ + limoff_sql(d, *lo));
                    }
                    Ok(())
                },
                Dialect::Postgres => {
                    out.append(" OFFSET ");
                    push_u64(*o, out);
                    proof {
                        assert(final(out)@ =~= old(out)@ + limoff_sql(d, *lo));
                    }
                    Ok(())
                },
                Dialect::MySQL => Err(UnsupportedOperation { dialect: d }),
            }
        },
    }
}

/// The values bound by an optional condition.
pub open spec fn opt_cond_params(c: Option<Condition>) -> Seq<ValueView> {
    match c {
        Some(c) => cond_params(c),
        None => Seq::empty(),
    }
}

/// The views of a column-name list.
pub open spec fn strs_views(s: Seq<String>) -> Seq<Seq<char>> {
    s.map_values(|x: String| x@)
}

/// The comma-separated, quoted column list of a `SELECT`.
pub open spec fn cols_sql(d: Dialect, cols: Seq<Seq<char>>) -> Seq<char>
    decreases cols.len(),
{
    if cols.len() == 0 {
        Seq::empty()
    } else if cols.len() == 1 {
        quoted_ident(d, cols[0])
    } else {
        quoted_ident(d, cols[0]) + ", "@ + cols_sql(d, cols.drop_first())
    }
}

/// Append the quoted column names `cols[i..]`, comma separated.
fn push_cols(d: Dialect, cols: &Vec<String>, i: usize, out: &mut String)
    requires
        i < cols@.len(),
    ensures
        final(out)@ == old(out)@ + cols_sql(d, strs_views(cols@).skip(i as int)),
    decreases cols@.len() - i,
{
    push_quoted_ident(d, cols[i].as_str(), out);
    proof {
        assert(strs_views(cols@).skip(i as int)[0] == cols@[i as int]@);
    }
    let n = cols.len();
    if i + 1 < n {
        out.append(", ");
        push_cols(d, cols, i + 1, out);
        proof {
            assert(strs_views(cols@).skip(i as int).drop_first() =~= strs_views(cols@).skip(
                i + 1 as int,
            ));
            assert(final(out)@ =~= old(out)@ + cols_sql(d, strs_views(cols@).skip(i as int)));
        }
    } else {
        proof {
            assert(strs_views(cols@).skip(i as int).len() == 1);
        }
    }
}

/// The `ORDER BY` clause over the given columns, empty for none.
pub open spec fn order_sql(d: Dialect, order: Seq<Seq<char>>) -> Seq<char> {
    if order.len() == 0 {
        Seq::empty()
    } else {
        " ORDER BY "@ + cols_sql(d, order)
    }
}

/// The full text of a `SELECT` statement.
pub open spec fn select_sql(
    d: Dialect,
    table: Seq<char>,
    cols: Seq<Seq<char>>,
    c: Option<Condition>,
    order: Seq<Seq<char>>,
    lo: LimOff,
) -> Seq<char> {
    "SELECT "@ + cols_sql(d, cols) + " FROM "@ + quoted_ident(d, table) + (match c {
        Some(c) => " WHERE "@ + cond_sql(d, c, 0),
        None => Seq::empty(),
    }) + order_sql(d, order) + limoff_sql(d, lo) + ";"@
}

/// Render a `SELECT` statement: the parameterized SQL text together with
/// the bound values, in placeholder order.
pub fn build_select(
    d: Dialect,
    table: &str,
    columns: &Vec<String>,
    condition: &Option<Condition>,
    order: &Vec<String>,
    lim_off: &LimOff,
) -> (r: Result<(String, Vec<Value>), UnsupportedOperation>)
    requires
        columns@.len() > 0,
    ensures
        r is Ok <==> limoff_supported(d, *lim_off),
        r matches Ok(p) ==> p.0@ == select_sql(
            d,
            table@,
            strs_views(columns@),
            *condition,
            strs_views(order@),
            *lim_off,
        ) && vals_views(p.1@) == opt_cond_params(*condition),
        r matches Err(e) ==> e.dialect == d,
{
    let mut out = String::new();
    let mut params: Vec<Value> = Vec::new();
    out.append("SELECT ");
    proof {
        assert(strs_views(columns@).skip(0) =~= strs_views(columns@));
    }
    push_cols(d, columns, 0, &mut out);
    out.append(" FROM ");
    push_quoted_ident(d, table, &mut out);
    match condition {
        Some(c) => {
            out.append(" WHERE ");
            proof {
                assert(vals_views(params@) =~= Seq::<ValueView>::empty());
            }
            render_cond(d, c, &mut out, &mut params);
        },
        None => {},
    }
    if order.len() > 0 {
        out.append(" ORDER BY ");
        proof {
            assert(strs_views(order@).skip(0) =~= strs_views(order@));
        }
        push_cols(d, order, 0, &mut out);
    }
    match push_limoff(d, lim_off, &mut out) {
        Ok(_) => {},
        Err(e) => {
            return Err(e);
        },
    }
    out.append(";");
    proof {
        assert(out@ =~= select_sql(
            d,
            table@,
            strs_views(columns@),
            *condition,
            strs_views(order@),
            *lim_off,
        ));
        assert(vals_views(params@) =~= opt_cond_params(*condition));
    }
    Ok((out, params))
}

/// The full text of a `DELETE` statement.
pub open spec fn delete_sql(
    d: Dialect,
    table: Seq<char>,
    c: Option<Condition>,
    limit: Option<u64>,
) -> Seq<char> {
    "DELETE FROM "@ + quoted_ident(d, table) + (match c {
        Some(c) => " WHERE "@ + cond_sql(d, c, 0),
        None => Seq::empty(),
    }) + (match limit {
        Some(n) => " LIMIT "@ + dec_str(n as int),
        None => Seq::empty(),
    }) + ";"@
}

/// SQL representation of the `DELETE` operation.
///
/// The condition is an explicit option: deleting without a filter affects
/// every row and must be a visible caller choice, never a default.
pub struct SQLDelete {
    /// The dialect to render for.
    pub dialect: Dialect,
    /// The table to delete from.
    pub table: String,
    /// The filter, if any.
    pub where_cond: Option<Condition>,
    /// The maximum number of rows to delete, if any.
    pub limit: Option<u64>,
}

impl SQLDelete {
    /// Start a `DELETE` from `table`, unfiltered and unbounded.
    pub fn new(dialect: Dialect, table: String) -> (r: SQLDelete)
        ensures
            r.dialect == dialect,
            r.table@ == table@,
            r.where_cond is None,
            r.limit is None,
    {
        SQLDelete { dialect, table, where_cond: None, limit: None }
    }

    /// Sets the limit of the delete operation.
    pub fn limit(self, limit: u64) -> (r: SQLDelete)
        ensures
            r == (SQLDelete { limit: Some(limit), ..self }),
    {
        SQLDelete { limit: Some(limit), ..self }
    }

    /// Adds a condition to the delete operation.
    pub fn where_clause(self, condition: Condition) -> (r: SQLDelete)
        ensures
            r == (SQLDelete { where_cond: Some(condition), ..self }),
    {
        SQLDelete { where_cond: Some(condition), ..self }
    }

    /// Build the `DELETE` statement: the parameterized SQL text together
    /// with the bound values, in placeholder order.  PostgreSQL has no
    /// `DELETE ... LIMIT` form; that combination is reported as
    /// unsupported.
    pub fn build(self) -> (r: Result<(String, Vec<Value>), UnsupportedOperation>)
        ensures
            r is Ok <==> !(self.dialect is Postgres && self.limit is Some),
            r matches Ok(p) ==> p.0@ == delete_sql(
                self.dialect,
                self.table@,
                self.where_cond,
                self.limit,
            ) && vals_views(p.1@) == opt_cond_params(self.where_cond),
            r matches Err(e) ==> e.dialect == self.dialect,
    {
        let d = self.dialect;
        match (d, &self.limit) {
            (Dialect::Postgres, Some(_)) => {
                return Err(UnsupportedOperation { dialect: d });
            },
            _ => {},
        }
        let mut out = String::new();
        let mut params: Vec<Value> = Vec::new();
        out.append("DELETE FROM ");
        push_quoted_ident(d, self.table.as_str(), &mut out);
        match &self.where_cond {
            Some(c) => {
                out.append(" WHERE ");
                proof {
                    assert(vals_views(params@) =~= Seq::<ValueView>::empty());
                }
                render_cond(d, c, &mut out, &mut params);
            },
            None => {},
        }
        match &self.limit {
            Some(n) => {
                out.append(" LIMIT ");
                push_u64(*n, &mut out);
            },
            None => {},
        }
        out.append(";");
        proof {
            assert(out@ =~= delete_sql(d, self.table@, self.where_cond, self.limit));
            assert(vals_views(params@) =~= opt_cond_params(self.where_cond));
        }
        Ok((out, params))
    }
}

/// An empty disjunction — as built by `in_list` over no values — renders as
/// the always-false predicate and binds no parameters.
pub proof fn lemma_empty_disjunction_always_false(d: Dialect, cs: Vec<Condition>, k: int)
    requires
        cs@.len() == 0,
    ensures
        cond_sql(d, Condition::Disjunction(cs), k) == "(1 = 0)"@,
        cond_params(Condition::Disjunction(cs)) =~= Seq::<ValueView>::empty(),
{
    assert(cond_params(Condition::Disjunction(cs)) == conds_params(cs@));
    assert(conds_params(cs@) =~= Seq::<ValueView>::empty());
}

/// An empty conjunction — as built by `not_in` over no values — renders as
/// the always-true predicate and binds no parameters.
pub proof fn lemma_empty_conjunction_always_true(d: Dialect, cs: Vec<Condition>, k: int)
    requires
        cs@.len() == 0,
    ensures
        cond_sql(d, Condition::Conjunction(cs), k) == "(1 = 1)"@,
        cond_params(Condition::Conjunction(cs)) =~= Seq::<ValueView>::empty(),
{
    assert(cond_params(Condition::Conjunction(cs)) == conds_params(cs@));
    assert(conds_params(cs@) =~= Seq::<ValueView>::empty());
}

/// An aggregation function applied to a selected column.
#[derive(Clone, Copy, PartialEq, Eq, Structural, Debug)]
pub enum SelectAggregator {
    /// How often the column is not null.
    Count,
    /// The sum of the non-null values.
    Sum,
    /// The average of the non-null values.
    Avg,
    /// The largest of the values.
    Max,
    /// The smallest of the values.
    Min,
}

/// The SQL name of an aggregation function.
pub open spec fn aggregator_token(a: SelectAggregator) -> Seq<char> {
    match a {
        SelectAggregator::Count => "COUNT"@,
        SelectAggregator::Sum => "SUM"@,
        SelectAggregator::Avg => "AVG"@,
        SelectAggregator::Max => "MAX"@,
        SelectAggregator::Min => "MIN"@,
    }
}

/// A column to select and call an aggregation function on.
pub struct AggregatedColumn {
    /// The aggregation function.
    pub sql: SelectAggregator,
    /// The column to aggregate over.
    pub column: String,
    /// The name the aggregated value is selected under.
    pub alias: String,
}

/// The selection expression of an aggregated column.
pub open spec fn aggregated_sql(d: Dialect, a: SelectAggregator, column: Seq<char>, alias: Seq<char>) -> Seq<char> {
    aggregator_token(a) + "("@ + quoted_ident(d, column) + ") AS "@ + quoted_ident(d, alias)
}

impl AggregatedColumn {
    /// Render the selection expression, e.g. the count of a column under
    /// its alias.
    pub fn to_select_expr(&self, d: Dialect) -> (r: String)
        ensures
            r@ == aggregated_sql(d, self.sql, self.column@, self.alias@),
    {
        let mut out = String::new();
        match self.sql {
            SelectAggregator::Count => out.append("COUNT"),
            SelectAggregator::Sum => out.append("SUM"),
            SelectAggregator::Avg => out.append("AVG"),
            SelectAggregator::Max => out.append("MAX"),
            SelectAggregator::Min => out.append("MIN"),
        }
        out.append("(");
        push_quoted_ident(d, self.column.as_str(), &mut out);
        out.append(") AS ");
        push_quoted_ident(d, self.alias.as_str(), &mut out);
        proof {
            assert(out@ =~= aggregated_sql(d, self.sql, self.column@, self.alias@));
        }
        out
    }
}

impl crate::condition::FieldRef {
    /// Select how often this column is not null, under the alias `count`.
    pub fn count(&self) -> (r: AggregatedColumn)
        ensures
            r.sql == SelectAggregator::Count,
            r.column@ == self.column@,
            r.alias@ == "count"@,
    {
        AggregatedColumn {
            sql: SelectAggregator::Count,
            column: self.column.clone(),
            alias: "count".to_owned(),
        }
    }

    /// Select the sum of this column's non-null values, under the alias
    /// `sum`.
    pub fn sum(&self) -> (r: AggregatedColumn)
        ensures
            r.sql == SelectAggregator::Sum,
            r.column@ == self.column@,
            r.alias@ == "sum"@,
    {
        AggregatedColumn {
            sql: SelectAggregator::Sum,
            column: self.column.clone(),
            alias: "sum".to_owned(),
        }
    }

    /// Select the average of this column's non-null values, under the alias
    /// `avg`.
    pub fn avg(&self) -> (r: AggregatedColumn)
        ensures
            r.sql == SelectAggregator::Avg,
            r.column@ == self.column@,
            r.alias@ == "avg"@,
    {
        AggregatedColumn {
            sql: SelectAggregator::Avg,
            column: self.column.clone(),
            alias: "avg".to_owned(),
        }
    }

    /// Select the largest value of this column, under the alias `max`.
    pub fn max_value(&self) -> (r: AggregatedColumn)
        ensures
            r.sql == SelectAggregator::Max,
            r.column@ == self.column@,
            r.alias@ == "max"@,
    {
        AggregatedColumn {
            sql: SelectAggregator::Max,
            column: self.column.clone(),
            alias: "max".to_owned(),
        }
    }

    /// Select the smallest value of this column, under the alias `min`.
    pub fn min_value(&self) -> (r: AggregatedColumn)
        ensures
            r.sql == SelectAggregator::Min,
            r.column@ == self.column@,
            r.alias@ == "min"@,
    {
        AggregatedColumn {
            sql: SelectAggregator::Min,
            column: self.column.clone(),
            alias: "min".to_owned(),
        }
    }
}

/// Configuration handed to the external execution layer when it opens a
/// connection pool.
pub struct DatabaseConfiguration {
    /// The dialect the database speaks.
    pub dialect: Dialect,
    /// Minimal connections to initialize upfront.
    pub min_connections: u32,
    /// Maximum connections that are allowed to be created.
    pub max_connections: u32,
}

impl DatabaseConfiguration {
    /// Both bounds must be positive and the maximum must not lie below the
    /// minimum.
    pub open spec fn wf(&self) -> bool {
        0 < self.min_connections <= self.max_connections
    }

    /// Check the connection bounds.
    pub fn validate(&self) -> (r: bool)
        ensures
            r == self.wf(),
    {
        0 < self.min_connections && self.min_connections <= self.max_connections
    }
}

/// A quoted column list contains no placeholder characters.
pub proof fn lemma_cols_clean(d: Dialect, cols: Seq<Seq<char>>, c: char)
    requires
        forall|i: int| 0 <= i < cols.len() ==> crate::text::ident_ok(#[trigger] cols[i]),
        is_placeholder_char(c),
    ensures
        count_char(cols_sql(d, cols), c) == 0,
    decreases cols.len(),
{
    reveal_strlit(", ");
    if cols.len() == 0 {
    } else if cols.len() == 1 {
        lemma_quoted_ident_clean(d, cols[0], c);
    } else {
        lemma_quoted_ident_clean(d, cols[0], c);
        lemma_token_clean(", "@, c);
        assert forall|i: int| 0 <= i < cols.drop_first().len() implies crate::text::ident_ok(
            #[trigger] cols.drop_first()[i],
        ) by {
            assert(cols.drop_first()[i] == cols[i + 1]);
        }
        lemma_cols_clean(d, cols.drop_first(), c);
        lemma_count_concat(quoted_ident(d, cols[0]) + ", "@, cols_sql(d, cols.drop_first()), c);
        lemma_count_concat(quoted_ident(d, cols[0]), ", "@, c);
    }
}

/// A row-bounding clause contains no placeholder characters.
pub proof fn lemma_limoff_clean(d: Dialect, lo: LimOff, c: char)
    requires
        is_placeholder_char(c),
    ensures
        count_char(limoff_sql(d, lo), c) == 0,
{
    reveal_strlit(" LIMIT ");
    reveal_strlit(" OFFSET ");
    reveal_strlit(" LIMIT -1 OFFSET ");
    match lo {
        LimOff::All => {},
        LimOff::Limit(lc) => {
            lemma_token_clean(" LIMIT "@, c);
            lemma_dec_str_clean(lc.limit as int, c);
            lemma_count_concat(" LIMIT "@, dec_str(lc.limit as int), c);
            match lc.offset {
                Some(o) => {
                    lemma_token_clean(" OFFSET "@, c);
                    lemma_dec_str_clean(o as int, c);
                    lemma_count_concat(" OFFSET "@, dec_str(o as int), c);
                    lemma_count_concat(
                        " LIMIT "@ + dec_str(lc.limit as int),
                        " OFFSET "@ + dec_str(o as int),
                        c,
                    );
                },
                None => {
                    assert(" LIMIT "@ + dec_str(lc.limit as int) + Seq::<char>::empty() =~= " LIMIT "@
                        + dec_str(lc.limit as int));
                },
            }
        },
        LimOff::Offset(o) => {
            lemma_dec_str_clean(o as int, c);
            match d {
                Dialect::SQLite => {
                    lemma_token_clean(" LIMIT -1 OFFSET "@, c);
                    lemma_count_concat(" LIMIT -1 OFFSET "@, dec_str(o as int), c);
                },
                Dialect::Postgres => {
                    lemma_token_clean(" OFFSET "@, c);
                    lemma_count_concat(" OFFSET "@, dec_str(o as int), c);
                },
                Dialect::MySQL => {},
            }
        },
    }
}

/// The number of placeholders in a whole `SELECT` statement equals the
/// number of non-identifier value leaves of its condition — the length of
/// its parameter list.
pub proof fn lemma_select_placeholder_count(
    d: Dialect,
    table: Seq<char>,
    cols: Seq<Seq<char>>,
    c: Option<Condition>,
    order: Seq<Seq<char>>,
    lo: LimOff,
)
    requires
        crate::text::ident_ok(table),
        forall|i: int| 0 <= i < cols.len() ==> crate::text::ident_ok(#[trigger] cols[i]),
        forall|i: int| 0 <= i < order.len() ==> crate::text::ident_ok(#[trigger] order[i]),
        c matches Some(cc) ==> crate::condition::cond_idents_ok(cc),
    ensures
        count_char(select_sql(d, table, cols, c, order, lo), placeholder_char(d))
            == opt_cond_params(c).len(),
{
    let ph = placeholder_char(d);
    reveal_strlit("SELECT ");
    reveal_strlit(" FROM ");
    reveal_strlit(" WHERE ");
    reveal_strlit(";");
    lemma_token_clean("SELECT "@, ph);
    lemma_token_clean(" FROM "@, ph);
    lemma_token_clean(";"@, ph);
    lemma_cols_clean(d, cols, ph);
    lemma_quoted_ident_clean(d, table, ph);
    lemma_limoff_clean(d, lo, ph);
    let head = "SELECT "@ + cols_sql(d, cols) + " FROM "@ + quoted_ident(d, table);
    lemma_count_concat("SELECT "@ + cols_sql(d, cols) + " FROM "@, quoted_ident(d, table), ph);
    lemma_count_concat("SELECT "@ + cols_sql(d, cols), " FROM "@, ph);
    lemma_count_concat("SELECT "@, cols_sql(d, cols), ph);
    let wh = match c {
        Some(cc) => " WHERE "@ + cond_sql(d, cc, 0),
        None => Seq::<char>::empty(),
    };
    match c {
        Some(cc) => {
            lemma_token_clean(" WHERE "@, ph);
            lemma_placeholder_count(d, cc, 0);
            lemma_count_concat(" WHERE "@, cond_sql(d, cc, 0), ph);
        },
        None => {},
    }
    reveal_strlit(" ORDER BY ");
    lemma_token_clean(" ORDER BY "@, ph);
    lemma_cols_clean(d, order, ph);
    if order.len() > 0 {
        lemma_count_concat(" ORDER BY "@, cols_sql(d, order), ph);
    }
    lemma_count_concat(head, wh, ph);
    lemma_count_concat(head + wh, order_sql(d, order), ph);
    lemma_count_concat(head + wh + order_sql(d, order), limoff_sql(d, lo), ph);
    lemma_count_concat(head + wh + order_sql(d, order) + limoff_sql(d, lo), ";"@, ph);
}

/// The number of placeholders in a whole `DELETE` statement equals the
/// length of its parameter list.
pub proof fn lemma_delete_placeholder_count(
    d: Dialect,
    table: Seq<char>,
    c: Option<Condition>,
    limit: Option<u64>,
)
    requires
        crate::text::ident_ok(table),
        c matches Some(cc) ==> crate::condition::cond_idents_ok(cc),
    ensures
        count_char(delete_sql(d, table, c, limit), placeholder_char(d)) == opt_cond_params(
            c,
        ).len(),
{
    let ph = placeholder_char(d);
    reveal_strlit("DELETE FROM ");
    reveal_strlit(" WHERE ");
    reveal_strlit(" LIMIT ");
    reveal_strlit(";");
    lemma_token_clean("DELETE FROM "@, ph);
    lemma_token_clean(";"@, ph);
    lemma_quoted_ident_clean(d, table, ph);
    let head = "DELETE FROM "@ + quoted_ident(d, table);
    lemma_count_concat("DELETE FROM "@, quoted_ident(d, table), ph);
    let wh = match c {
        Some(cc) => " WHERE "@ + cond_sql(d, cc, 0),
        None => Seq::<char>::empty(),
    };
    match c {
        Some(cc) => {
            lemma_token_clean(" WHERE "@, ph);
            lemma_placeholder_count(d, cc, 0);
            lemma_count_concat(" WHERE "@, cond_sql(d, cc, 0), ph);
        },
        None => {},
    }
    let lim = match limit {
        Some(n) => " LIMIT "@ + dec_str(n as int),
        None => Seq::<char>::empty(),
    };
    match limit {
        Some(n) => {
            lemma_token_clean(" LIMIT "@, ph);
            lemma_dec_str_clean(n as int, ph);
            lemma_count_concat(" LIMIT "@, dec_str(n as int), ph);
        },
        None => {},
    }
    lemma_count_concat(head, wh, ph);
    lemma_count_concat(head + wh, lim, ph);
    lemma_count_concat(head + wh + lim, ";"@, ph);
}

/// The comma-separated placeholder list for `n` values, starting after `k`
/// already bound parameters.
pub open spec fn values_sql(d: Dialect, k: int, n: int) -> Seq<char>
    decreases n - k,
{
    if k >= n {
        Seq::empty()
    } else if k == n - 1 {
        placeholder(d, k)
    } else {
        placeholder(d, k) + ", "@ + values_sql(d, k + 1, n)
    }
}

/// Append the placeholders for the parameters `k` to `n - 1`.
fn push_values(d: Dialect, k: usize, n: usize, out: &mut String)
    requires
        k < n,
    ensures
        final(out)@ == old(out)@ + values_sql(d, k as int, n as int),
    decreases n - k,
{
    push_placeholder(d, k, out);
    if k + 1 < n {
        out.append(", ");
        push_values(d, k + 1, n, out);
        proof {
            assert(final(out)@ =~= old(out)@ + values_sql(d, k as int, n as int));
        }
    }
}

/// The full text of an `INSERT` statement for one row.
pub open spec fn insert_sql(d: Dialect, table: Seq<char>, cols: Seq<Seq<char>>, n: int) -> Seq<
    char,
> {
    "INSERT INTO "@ + quoted_ident(d, table) + " ("@ + cols_sql(d, cols) + ") VALUES ("@
        + values_sql(d, 0, n) + ");"@
}

/// Render an `INSERT` of one row: one placeholder per column, bound to the
/// given values in column order.
pub fn build_insert(d: Dialect, table: &str, columns: &Vec<String>, values: Vec<Value>) -> (r: (
    String,
    Vec<Value>,
))
    requires
        columns@.len() > 0,
        values@.len() == columns@.len(),
    ensures
        r.0@ == insert_sql(d, table@, strs_views(columns@), values@.len() as int),
        r.1 == values,
{
    let mut out = String::new();
    out.append("INSERT INTO ");
    push_quoted_ident(d, table, &mut out);
    out.append(" (");
    proof {
        assert(strs_views(columns@).skip(0) =~= strs_views(columns@));
    }
    push_cols(d, columns, 0, &mut out);
    out.append(") VALUES (");
    push_values(d, 0, values.len(), &mut out);
    out.append(");");
    proof {
        assert(out@ =~= insert_sql(d, table@, strs_views(columns@), values@.len() as int));
    }
    (out, values)
}

/// The comma-separated assignment list of an `UPDATE`: each column set to
/// its placeholder, numbered from `k`.
pub open spec fn assigns_sql(d: Dialect, cols: Seq<Seq<char>>, k: int) -> Seq<char>
    decreases cols.len(),
{
    if cols.len() == 0 {
        Seq::empty()
    } else if cols.len() == 1 {
        quoted_ident(d, cols[0]) + " = "@ + placeholder(d, k)
    } else {
        quoted_ident(d, cols[0]) + " = "@ + placeholder(d, k) + ", "@ + assigns_sql(
            d,
            cols.drop_first(),
            k + 1,
        )
    }
}

/// Append the assignments for the columns `cols[i..]`, with placeholders
/// numbered from `i`.
fn push_assigns(d: Dialect, cols: &Vec<String>, i: usize, out: &mut String)
    requires
        i < cols@.len(),
    ensures
        final(out)@ == old(out)@ + assigns_sql(d, strs_views(cols@).skip(i as int), i as int),
    decreases cols@.len() - i,
{
    let n = cols.len();
    push_quoted_ident(d, cols[i].as_str(), out);
    out.append(" = ");
    push_placeholder(d, i, out);
    proof {
        assert(strs_views(cols@).skip(i as int)[0] == cols@[i as int]@);
    }
    if i + 1 < n {
        out.append(", ");
        push_assigns(d, cols, i + 1, out);
        proof {
            assert(strs_views(cols@).skip(i as int).drop_first() =~= strs_views(cols@).skip(
                i + 1 as int,
            ));
            assert(final(out)@ =~= old(out)@ + assigns_sql(
                d,
                strs_views(cols@).skip(i as int),
                i as int,
            ));
        }
    } else {
        proof {
            assert(strs_views(cols@).skip(i as int).len() == 1);
        }
    }
}

/// The full text of an `UPDATE` statement.
pub open spec fn update_sql(
    d: Dialect,
    table: Seq<char>,
    cols: Seq<Seq<char>>,
    c: Option<Condition>,
) -> Seq<char> {
    "UPDATE "@ + quoted_ident(d, table) + " SET "@ + assigns_sql(d, cols, 0) + (match c {
        Some(c) => " WHERE "@ + cond_sql(d, c, cols.len() as int),
        None => Seq::empty(),
    }) + ";"@
}

/// Render an `UPDATE`: one assignment placeholder per column, bound to the
/// given values in column order, followed by the condition's parameters.
/// Updating without a condition affects every row and is therefore an
/// explicit caller choice, never a default.
pub fn build_update(
    d: Dialect,
    table: &str,
    columns: &Vec<String>,
    values: Vec<Value>,
    condition: &Option<Condition>,
) -> (r: (String, Vec<Value>))
    requires
        columns@.len() > 0,
        values@.len() == columns@.len(),
    ensures
        r.0@ == update_sql(d, table@, strs_views(columns@), *condition),
        vals_views(r.1@) == vals_views(values@) + opt_cond_params(*condition),
{
    let mut out = String::new();
    let mut params = values;
    out.append("UPDATE ");
    push_quoted_ident(d, table, &mut out);
    out.append(" SET ");
    proof {
        assert(strs_views(columns@).skip(0) =~= strs_views(columns@));
    }
    push_assigns(d, columns, 0, &mut out);
    match condition {
        Some(c) => {
            out.append(" WHERE ");
            render_cond(d, c, &mut out, &mut params);
        },
        None => {},
    }
    out.append(";");
    proof {
        assert(out@ =~= update_sql(d, table@, strs_views(columns@), *condition));
        assert(vals_views(params@) =~= vals_views(values@) + opt_cond_params(*condition));
    }
    (out, params)
}

} // verus!
