//! Small text helpers shared by the registry and the SQL renderers:
//! identifier validation, string comparison and decimal formatting.

use vstd::prelude::*;

verus! {

use vstd::utf8::is_ascii_chars;

/// Characters allowed in an identifier (a table or column name):
/// ASCII letters, digits and underscores.
///
/// Identifiers are the only text that reaches SQL output unescaped (only
/// quoted), so the registry admits nothing that could interfere with
/// quoting or with placeholder syntax.
pub open spec fn ident_char_ok(c: char) -> bool {
    ('a' <= c <= 'z') || ('A' <= c <= 'Z') || ('0' <= c <= '9') || c == '_'
}

/// A well-formed identifier: non-empty and made of [`ident_char_ok`] characters.
pub open spec fn ident_ok(s: Seq<char>) -> bool {
    &&& s.len() > 0
    &&& forall|i: int| 0 <= i < s.len() ==> ident_char_ok(#[trigger] s[i])
}

/// Whether a byte is an allowed identifier character, mirroring
/// [`ident_char_ok`] on the ASCII range.
pub open spec fn ident_byte_ok(b: u8) -> bool {
    (97 <= b <= 122) || (65 <= b <= 90) || (48 <= b <= 57) || b == 95
}

/// Check that a string is a well-formed identifier.
pub fn check_ident(s: &str) -> (r: bool)
    ensures
        r == ident_ok(s@),
{
    if !s.is_ascii() {
        // A non-ASCII string contains some character above '\u{7f}',
        // which ident_char_ok rejects.
        proof {
            if ident_ok(s@) {
                assert(is_ascii_chars(s@)) by {
                    assert forall|i: int| 0 <= i < s@.len() implies '\0' <= #[trigger] s@[i]
                        <= '\u{7f}' by {
                        assert(ident_char_ok(s@[i]));
                    }
                }
            }
        }
        return false;
    }
    let bytes = s.as_bytes();
    proof {
        vstd::string::is_ascii_spec_bytes(s);
    }
    assert(bytes@.len() == s@.len());
    if bytes.len() == 0 {
        return false;
    }
    let mut i: usize = 0;
    while i < bytes.len()
        invariant
            i <= bytes@.len(),
            bytes@.len() == s@.len(),
            bytes@ =~= Seq::new(s@.len(), |j: int| s@[j] as u8),
            is_ascii_chars(s@),
            forall|j: int| 0 <= j < i ==> ident_char_ok(#[trigger] s@[j]),
        decreases bytes@.len() - i,
    {
        let b = bytes[i];
        let ok = (b >= 97 && b <= 122) || (b >= 65 && b <= 90) || (b >= 48 && b <= 57) || b == 95;
        proof {
            let c = s@[i as int];
            assert('\0' <= c <= '\u{7f}');
            assert(b == c as u8);
            assert(ident_char_ok(c) == ident_byte_ok(b));
        }
        if !ok {
            return false;
        }
        i = i + 1;
    }
    true
}

/// Relies on `str`'s `PartialEq`: two string slices compare equal exactly
/// when they hold the same sequence of characters.
#[verifier::external_body]
pub fn str_eq(a: &str, b: &str) -> (r: bool)
    ensures
        r == (a@ == b@),
{
    a == b
}

/// The decimal digit character for a value below ten.
pub open spec fn digit_char(d: int) -> char {
    if d == 0 {
        '0'
    } else if d == 1 {
        '1'
    } else if d == 2 {
        '2'
    } else if d == 3 {
        '3'
    } else if d == 4 {
        '4'
    } else if d == 5 {
        '5'
    } else if d == 6 {
        '6'
    } else if d == 7 {
        '7'
    } else if d == 8 {
        '8'
    } else {
        '9'
    }
}

/// The decimal rendering of a natural number, most significant digit first.
pub open spec fn dec_str(n: int) -> Seq<char>
    decreases n,
{
    if n < 10 {
        seq![digit_char(n)]
    } else {
        dec_str(n / 10).push(digit_char(n % 10))
    }
}

/// Every character of a decimal rendering is a digit.
pub proof fn lemma_dec_str_digits(n: int)
    requires
        n >= 0,
    ensures
        forall|i: int| 0 <= i < dec_str(n).len() ==> '0' <= #[trigger] dec_str(n)[i] <= '9',
    decreases n,
{
    if n < 10 {
        assert('0' <= digit_char(n) <= '9');
    } else {
        lemma_dec_str_digits(n / 10);
        assert(dec_str(n) == dec_str(n / 10).push(digit_char(n % 10)));
        assert forall|i: int| 0 <= i < dec_str(n).len() implies '0' <= #[trigger] dec_str(n)[i]
            <= '9' by {
            if i < dec_str(n / 10).len() {
                assert(dec_str(n)[i] == dec_str(n / 10)[i]);
            } else {
                assert(dec_str(n)[i] == digit_char(n % 10));
                assert('0' <= digit_char(n % 10) <= '9');
            }
        }
    }
}

/// A one-character string slice for a decimal digit.
fn digit_str(d: u64) -> (s: &'static str)
    requires
        d < 10,
    ensures
        s@ =~= seq![digit_char(d as int)],
{
    proof {
        reveal_strlit("0");
        reveal_strlit("1");
        reveal_strlit("2");
        reveal_strlit("3");
        reveal_strlit("4");
        reveal_strlit("5");
        reveal_strlit("6");
        reveal_strlit("7");
        reveal_strlit("8");
        reveal_strlit("9");
    }
    if d == 0 {
        "0"
    } else if d == 1 {
        "1"
    } else if d == 2 {
        "2"
    } else if d == 3 {
        "3"
    } else if d == 4 {
        "4"
    } else if d == 5 {
        "5"
    } else if d == 6 {
        "6"
    } else if d == 7 {
        "7"
    } else if d == 8 {
        "8"
    } else {
        "9"
    }
}

/// Append the decimal rendering of `n` to `out`.
pub fn push_u64(n: u64, out: &mut String)
    ensures
        final(out)@ == old(out)@ + dec_str(n as int),
    decreases n,
{
    if n < 10 {
        out.append(digit_str(n));
    } else {
        push_u64(n / 10, out);
        out.append(digit_str(n % 10));
        proof {
            assert(old(out)@ + dec_str((n / 10) as int) + seq![digit_char((n % 10) as int)]
                =~= old(out)@ + dec_str(n as int));
        }
    }
}

} // verus!
