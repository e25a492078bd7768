//! Text utilities: SQL single-quote escaping, ASCII lowercasing, and
//! decimal rendering and parsing of `i32` values.

use vstd::prelude::*;

verus! {

/// Relies on `String::push`: appends exactly one character at the end.
#[verifier::external_body]
pub fn push_char(s: &mut String, c: char)
    ensures
        final(s)@ == old(s)@.push(c),
{
    s.push(c)
}

/// A string with every single-quote character doubled, ready for
/// embedding between single quotes in a SQL statement.
pub open spec fn escaped(s: Seq<char>) -> Seq<char>
    decreases s.len(),
{
    if s.len() == 0 {
        Seq::empty()
    } else if s[0] == '\'' {
        seq!['\'', '\''] + escaped(s.skip(1))
    } else {
        seq![s[0]] + escaped(s.skip(1))
    }
}

/// Escapes single-quotes for safe embedding in SQL string literals.
pub fn escape_sql_string(s: &str) -> (r: String)
    ensures
        r@ == escaped(s@),
{
    let len = s.unicode_len();
    let mut r = String::new();
    let mut i: usize = 0;
    proof {
        assert(s@.skip(0) =~= s@);
        assert(r@ + escaped(s@) =~= escaped(s@));
    }
    while i < len
        invariant
            len == s@.len(),
            i <= len,
            r@ + escaped(s@.skip(i as int)) == escaped(s@),
        decreases len - i,
    {
        let c = s.get_char(i);
        proof {
            assert(s@.skip(i as int)[0] == c);
            assert(s@.skip(i as int).skip(1) =~= s@.skip(i + 1));
        }
        push_char(&mut r, c);
        if c == '\'' {
            push_char(&mut r, '\'');
        }
        i = i + 1;
        proof {
            assert(r@ + escaped(s@.skip(i as int)) =~= escaped(s@));
        }
    }
    proof {
        assert(s@.skip(len as int) =~= Seq::<char>::empty());
        assert(r@ =~= escaped(s@));
    }
    r
}

/// Whether every single quote of a text stands as one of an adjacent
/// pair: read left to right, quotes only come in twos.
pub open spec fn quotes_doubled(t: Seq<char>) -> bool
    decreases t.len(),
{
    if t.len() == 0 {
        true
    } else if t[0] == '\'' {
        t.len() >= 2 && t[1] == '\'' && quotes_doubled(t.skip(2))
    } else {
        quotes_doubled(t.skip(1))
    }
}

/// Statement-builder escaping law: the escaped form of any text has
/// every single quote doubled, so embedding it between single quotes
/// cannot end the enclosing statement literal early.
pub proof fn lemma_escaped_quotes_doubled(s: Seq<char>)
    ensures
        quotes_doubled(escaped(s)),
    decreases s.len(),
{
    if s.len() > 0 {
        lemma_escaped_quotes_doubled(s.skip(1));
        if s[0] == '\'' {
            assert((seq!['\'', '\''] + escaped(s.skip(1))).skip(2) =~= escaped(s.skip(1)));
        } else {
            assert((seq![s[0]] + escaped(s.skip(1))).skip(1) =~= escaped(s.skip(1)));
        }
    }
}

/// An ASCII uppercase letter mapped to its lowercase form; anything
/// else unchanged.
pub open spec fn lower(c: char) -> char {
    if 'A' <= c && c <= 'Z' {
        ((c as u32) + 32) as char
    } else {
        c
    }
}

/// A string with its ASCII uppercase letters lowercased.
pub open spec fn lower_seq(s: Seq<char>) -> Seq<char> {
    Seq::new(s.len(), |i: int| lower(s[i]))
}

fn lower_char(c: char) -> (r: char)
    ensures
        r == lower(c),
{
    if 'A' <= c && c <= 'Z' {
        proof {
            assert(c as u8 == c as u32);
        }
        ((c as u8) + 32) as char
    } else {
        c
    }
}

/// Lowercases the ASCII uppercase letters of a string, as the standard
/// ASCII lowercasing does.
pub fn to_ascii_lower(s: &str) -> (r: String)
    ensures
        r@ == lower_seq(s@),
{
    let len = s.unicode_len();
    let mut r = String::new();
    let mut i: usize = 0;
    while i < len
        invariant
            len == s@.len(),
            i <= len,
            r@ =~= lower_seq(s@).take(i as int),
        decreases len - i,
    {
        let c = s.get_char(i);
        push_char(&mut r, lower_char(c));
        i = i + 1;
    }
    proof {
        assert(lower_seq(s@).take(len as int) =~= lower_seq(s@));
    }
    r
}

/// The character for one decimal digit value.
pub open spec fn digit_char(d: int) -> char {
    if d == 0 {
        '0'
    } else if d == 1 {
        '1'
    } else if d == 2 {
        '2'
    } else if d == 3 {
        '3'
    } else if d == 4 {
        '4'
    } else if d == 5 {
        '5'
    } else if d == 6 {
        '6'
    } else if d == 7 {
        '7'
    } else if d == 8 {
        '8'
    } else {
        '9'
    }
}

/// The decimal digits of a non-negative number, most significant first.
pub open spec fn dec_digits(n: nat) -> Seq<char>
    decreases n,
{
    if n < 10 {
        seq![digit_char(n as int)]
    } else {
        dec_digits(n / 10) + seq![digit_char((n % 10) as int)]
    }
}

/// The decimal rendering of an integer, with a leading `-` when negative.
pub open spec fn dec_int(n: int) -> Seq<char> {
    if n < 0 {
        seq!['-'] + dec_digits((-n) as nat)
    } else {
        dec_digits(n as nat)
    }
}

fn digit_to_char(d: u32) -> (c: char)
    requires
        d < 10,
    ensures
        c == digit_char(d as int),
{
    if d == 0 {
        '0'
    } else if d == 1 {
        '1'
    } else if d == 2 {
        '2'
    } else if d == 3 {
        '3'
    } else if d == 4 {
        '4'
    } else if d == 5 {
        '5'
    } else if d == 6 {
        '6'
    } else if d == 7 {
        '7'
    } else if d == 8 {
        '8'
    } else {
        '9'
    }
}

fn push_dec_digits(s: &mut String, n: u32)
    ensures
        final(s)@ == old(s)@ + dec_digits(n as nat),
    decreases n,
{
    if n < 10 {
        push_char(s, digit_to_char(n));
        proof {
            assert(old(s)@.push(digit_char(n as int)) =~= old(s)@ + dec_digits(n as nat));
        }
    } else {
        push_dec_digits(s, n / 10);
        let ghost mid = s@;
        push_char(s, digit_to_char(n % 10));
        proof {
            assert(mid.push(digit_char((n as nat % 10) as int)) =~= old(s)@ + dec_digits(
                n as nat,
            ));
        }
    }
}

/// Renders an `i32` in decimal, as the standard formatter does.
pub fn i32_to_string(n: i32) -> (r: String)
    ensures
        r@ == dec_int(n as int),
{
    let mut s = String::new();
    if n < 0 {
        push_char(&mut s, '-');
        let m: i64 = -(n as i64);
        let ghost before = s@;
        push_dec_digits(&mut s, m as u32);
        proof {
            assert(m as u32 as nat == (-(n as int)) as nat);
            assert(Seq::<char>::empty().push('-') =~= seq!['-']);
            assert(s@ =~= dec_int(n as int));
        }
    } else {
        push_dec_digits(&mut s, n as u32);
        proof {
            assert(Seq::<char>::empty() + dec_digits(n as nat) =~= dec_digits(n as nat));
        }
    }
    s
}

/// Whether a character is an ASCII decimal digit.
pub open spec fn is_dec_digit(c: char) -> bool {
    '0' <= c && c <= '9'
}

/// The value of an ASCII decimal digit character.
pub open spec fn digit_val(c: char) -> int {
    c as u32 - 48
}

/// Whether every character of the sequence is a decimal digit.
pub open spec fn all_digits(s: Seq<char>) -> bool {
    forall|i: int| 0 <= i < s.len() ==> is_dec_digit(#[trigger] s[i])
}

/// The numeric value of a sequence of decimal digits.
pub open spec fn digits_val(s: Seq<char>) -> int
    decreases s.len(),
{
    if s.len() == 0 {
        0
    } else {
        digits_val(s.drop_last()) * 10 + digit_val(s.last())
    }
}

/// The digits of an integer literal, after any single leading sign.
pub open spec fn int_literal_body(s: Seq<char>) -> Seq<char> {
    if s.len() > 0 && (s[0] == '+' || s[0] == '-') {
        s.skip(1)
    } else {
        s
    }
}

/// Whether a string is a decimal integer literal: an optional single
/// leading `+` or `-` sign followed by one or more decimal digits.
pub open spec fn is_int_literal(s: Seq<char>) -> bool {
    int_literal_body(s).len() > 0 && all_digits(int_literal_body(s))
}

/// The signed value of a decimal integer literal.
pub open spec fn int_literal_val(s: Seq<char>) -> int {
    if s.len() > 0 && s[0] == '-' {
        -digits_val(int_literal_body(s))
    } else {
        digits_val(int_literal_body(s))
    }
}

/// What parsing a string as an `i32` yields: the value of a well-formed
/// decimal literal when it fits in the type, and nothing otherwise.
pub open spec fn spec_parse_i32(s: Seq<char>) -> Option<i32> {
    if is_int_literal(s) && i32::MIN <= int_literal_val(s) <= i32::MAX {
        Some(int_literal_val(s) as i32)
    } else {
        None
    }
}

proof fn lemma_digits_val_nonneg(s: Seq<char>)
    requires
        all_digits(s),
    ensures
        digits_val(s) >= 0,
    decreases s.len(),
{
    if s.len() > 0 {
        assert(all_digits(s.drop_last()));
        lemma_digits_val_nonneg(s.drop_last());
    }
}

/// Extending a digit string never shrinks its value.
proof fn lemma_digits_val_prefix(s: Seq<char>, i: int)
    requires
        all_digits(s),
        0 <= i <= s.len(),
    ensures
        digits_val(s) >= digits_val(s.take(i)),
    decreases s.len() - i,
{
    if i < s.len() {
        lemma_digits_val_prefix(s, i + 1);
        assert(s.take(i + 1).drop_last() =~= s.take(i));
        assert(s.take(i + 1).last() == s[i]);
        assert(all_digits(s.take(i)));
        lemma_digits_val_nonneg(s.take(i));
    } else {
        assert(s.take(i) =~= s);
    }
}

/// Parses an `i32` from its decimal rendering, exactly as the standard
/// library's string-to-integer conversion does.
pub fn parse_i32(s: &str) -> (r: Option<i32>)
    ensures
        r == spec_parse_i32(s@),
{
    let len = s.unicode_len();
    if len == 0 {
        return None;
    }
    let c0 = s.get_char(0);
    let start: usize = if c0 == '-' || c0 == '+' {
        1
    } else {
        0
    };
    let neg = c0 == '-';
    proof {
        assert(int_literal_body(s@) =~= s@.skip(start as int));
    }
    if start == len {
        return None;
    }
    let mut i: usize = start;
    // The accumulator carries the negated magnitude so that the most
    // negative value does not overflow before the final sign step.
    let mut acc: i32 = 0;
    proof {
        assert(s@.skip(start as int).take(0) =~= Seq::<char>::empty());
    }
    while i < len
        invariant
            len == s@.len(),
            start <= i <= len,
            start <= 1,
            int_literal_body(s@) == s@.skip(start as int),
            all_digits(s@.skip(start as int).take(i - start)),
            acc <= 0,
            acc == -digits_val(s@.skip(start as int).take(i - start)),
        decreases len - i,
    {
        let c = s.get_char(i);
        if !(c >= '0' && c <= '9') {
            proof {
                assert(int_literal_body(s@)[i - start] == c);
            }
            return None;
        }
        let d: u32 = (c as u32) - 48;
        let ghost prefix = s@.skip(start as int).take(i - start);
        proof {
            assert(s@.skip(start as int).take(i - start + 1).drop_last() =~= prefix);
            assert(s@.skip(start as int).take(i - start + 1).last() == c);
        }
        let next = match acc.checked_mul(10) {
            Some(a) => a.checked_sub(d as i32),
            None => None,
        };
        match next {
            Some(a) => {
                acc = a;
            },
            None => {
                proof {
                    let body = int_literal_body(s@);
                    let upto = s@.skip(start as int).take(i - start + 1);
                    assert(all_digits(upto));
                    if all_digits(body) {
                        lemma_digits_val_prefix(body, i - start + 1);
                        assert(body.take(i - start + 1) =~= upto);
                        assert(digits_val(body) > 0x8000_0000);
                        if s@[0] == '-' {
                            assert(int_literal_val(s@) < i32::MIN);
                        } else {
                            assert(int_literal_val(s@) > i32::MAX);
                        }
                    }
                }
                return None;
            },
        }
        i = i + 1;
    }
    proof {
        let body = int_literal_body(s@);
        assert(body.take(len - start) =~= body);
    }
    if neg {
        Some(acc)
    } else {
        if acc == i32::MIN {
            proof {
                assert(int_literal_val(s@) > i32::MAX);
            }
            None
        } else {
            Some(-acc)
        }
    }
}

} // verus!
