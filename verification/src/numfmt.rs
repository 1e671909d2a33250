//! Decimal rendering and parsing of the integers that ride in object
//! annotations: the `expire-by` stamp is written as a base-ten string and the
//! reaper reads it back.

use vstd::prelude::*;

verus! {

/// The character for a single decimal digit value.
pub open spec fn dec_digit_char(d: nat) -> char {
    if d == 0 {
        '0'
    } else if d == 1 {
        '1'
    } else if d == 2 {
        '2'
    } else if d == 3 {
        '3'
    } else if d == 4 {
        '4'
    } else if d == 5 {
        '5'
    } else if d == 6 {
        '6'
    } else if d == 7 {
        '7'
    } else if d == 8 {
        '8'
    } else {
        '9'
    }
}

/// The base-ten rendering of a natural number, most significant digit first,
/// with no leading zeros (except for zero itself).
pub open spec fn dec_seq_of(n: nat) -> Seq<char>
    decreases n,
{
    if n < 10 {
        seq![dec_digit_char(n)]
    } else {
        dec_seq_of(n / 10).push(dec_digit_char(n % 10))
    }
}

/// The base-ten rendering of a signed integer: a minus sign for negative
/// values, then the digits of the magnitude.
pub open spec fn dec_seq_of_int(n: int) -> Seq<char> {
    if n < 0 {
        seq!['-'] + dec_seq_of((-n) as nat)
    } else {
        dec_seq_of(n as nat)
    }
}

pub open spec fn is_dec_digit(c: char) -> bool {
    '0' <= c && c <= '9'
}

pub open spec fn all_dec_digits(s: Seq<char>) -> bool {
    forall|i: int| 0 <= i < s.len() ==> is_dec_digit(#[trigger] s[i])
}

/// The numeric value of one decimal digit character.
pub open spec fn dec_digit_val(c: char) -> nat
    recommends
        is_dec_digit(c),
{
    (c as nat - '0' as nat) as nat
}

/// The value of a digit string, read most significant digit first.
pub open spec fn dec_val(s: Seq<char>) -> nat
    decreases s.len(),
{
    if s.len() == 0 {
        0
    } else {
        dec_val(s.drop_last()) * 10 + dec_digit_val(s.last())
    }
}

/// What a decimal string denotes as an `i64`: an optional sign, then at
/// least one digit, and a value within the `i64` range; anything else
/// denotes nothing.
pub open spec fn spec_parse_i64(s: Seq<char>) -> Option<i64> {
    if s.len() > 0 && s[0] == '-' {
        let digits = s.subrange(1, s.len() as int);
        if digits.len() > 0 && all_dec_digits(digits) && -(dec_val(digits) as int) >= i64::MIN {
            Some((-(dec_val(digits) as int)) as i64)
        } else {
            None
        }
    } else {
        let digits = if s.len() > 0 && s[0] == '+' {
            s.subrange(1, s.len() as int)
        } else {
            s
        };
        if digits.len() > 0 && all_dec_digits(digits) && dec_val(digits) <= i64::MAX {
            Some(dec_val(digits) as i64)
        } else {
            None
        }
    }
}

/// Relies on std's `String::push`: appends one character at the end.
#[verifier::external_body]
pub(crate) fn push_char(s: &mut String, c: char)
    ensures
        final(s)@ == old(s)@.push(c),
{
    s.push(c);
}

fn dec_digit_exec(d: u64) -> (c: char)
    requires
        d < 10,
    ensures
        c == dec_digit_char(d as nat),
{
    match d {
        0 => '0',
        1 => '1',
        2 => '2',
        3 => '3',
        4 => '4',
        5 => '5',
        6 => '6',
        7 => '7',
        8 => '8',
        _ => '9',
    }
}

/// Renders an unsigned integer in base ten.
pub fn u64_to_string(n: u64) -> (r: String)
    ensures
        r@ == dec_seq_of(n as nat),
    decreases n,
{
    if n < 10 {
        let mut s = String::new();
        push_char(&mut s, dec_digit_exec(n));
        proof {
            assert(s@ =~= dec_seq_of(n as nat));
        }
        s
    } else {
        let mut s = u64_to_string(n / 10);
        push_char(&mut s, dec_digit_exec(n % 10));
        proof {
            assert(s@ =~= dec_seq_of(n as nat));
        }
        s
    }
}

fn dec_digit_val_exec(c: char) -> (d: u64)
    requires
        is_dec_digit(c),
    ensures
        d == dec_digit_val(c),
        d < 10,
{
    (c as u32 - 48) as u64
}

fn is_dec_digit_exec(c: char) -> (b: bool)
    ensures
        b == is_dec_digit(c),
{
    let v: u32 = c as u32;
    48 <= v && v <= 57
}

/// Growing a digit string multiplies its value by ten and adds the new digit.
proof fn lemma_dec_val_push(s: Seq<char>, c: char)
    ensures
        dec_val(s.push(c)) == dec_val(s) * 10 + dec_digit_val(c),
{
    assert(s.push(c).drop_last() =~= s);
    assert(s.push(c).last() == c);
}

/// Reads the digits of `s` from position `from` on; `None` when a non-digit
/// appears, when there are no digits, or when the value tops the magnitude
/// bound `0x8000_0000_0000_0000`.
fn parse_magnitude(s: &str, from: usize) -> (r: Option<u64>)
    requires
        from <= s@.len(),
        s@.len() <= usize::MAX,
    ensures
        ({
            let digits = s@.subrange(from as int, s@.len() as int);
            match r {
                Some(m) => digits.len() > 0 && all_dec_digits(digits) && m == dec_val(digits)
                    && m <= 0x8000_0000_0000_0000u64,
                None => digits.len() == 0 || !all_dec_digits(digits) || dec_val(digits)
                    > 0x8000_0000_0000_0000u64,
            }
        }),
{
    let len: usize = s.unicode_len();
    if from >= len {
        return None;
    }
    let mut i: usize = from;
    let mut acc: u64 = 0;
    let mut over: bool = false;
    while i < len
        invariant
            from <= i <= len,
            len == s@.len() <= usize::MAX,
            all_dec_digits(s@.subrange(from as int, i as int)),
            !over ==> acc == dec_val(s@.subrange(from as int, i as int)) && acc
                <= 0x8000_0000_0000_0000u64,
            over ==> dec_val(s@.subrange(from as int, i as int)) > 0x8000_0000_0000_0000u64,
        decreases len - i,
    {
        let c = s.get_char(i);
        if !is_dec_digit_exec(c) {
            proof {
                assert(!is_dec_digit(s@.subrange(from as int, s@.len() as int)[i - from]));
            }
            return None;
        }
        let d: u64 = dec_digit_val_exec(c);
        proof {
            assert(s@.subrange(from as int, i + 1) =~= s@.subrange(from as int, i as int).push(
                s@[i as int],
            ));
            lemma_dec_val_push(s@.subrange(from as int, i as int), s@[i as int]);
        }
        if over {
            // a longer digit string only grows the value
        } else {
            let wide: u128 = acc as u128 * 10 + d as u128;
            if wide > 0x8000_0000_0000_0000u128 {
                over = true;
            } else {
                acc = wide as u64;
            }
        }
        i += 1;
    }
    proof {
        assert(s@.subrange(from as int, len as int) =~= s@.subrange(from as int, s@.len() as int));
    }
    if over {
        None
    } else {
        Some(acc)
    }
}

/// Parses a base-ten `i64`: an optional sign, then at least one digit.
/// Returns exactly what the string denotes, and `None` on any other shape or
/// on a value outside the `i64` range.
pub fn parse_i64(s: &str) -> (r: Option<i64>)
    ensures
        r == spec_parse_i64(s@),
{
    let len: usize = s.unicode_len();
    if len == 0 {
        return None;
    }
    let first = s.get_char(0);
    if first == '-' {
        match parse_magnitude(s, 1) {
            Some(m) => Some((-(m as i128)) as i64),
            None => None,
        }
    } else {
        let from: usize = if first == '+' {
            1
        } else {
            0
        };
        proof {
            if first != '+' {
                assert(s@.subrange(0, s@.len() as int) =~= s@);
            }
        }
        match parse_magnitude(s, from) {
            Some(m) => {
                if m <= i64::MAX as u64 {
                    Some(m as i64)
                } else {
                    None
                }
            },
            None => None,
        }
    }
}

/// Renders a signed integer in base ten, with a leading minus sign when
/// negative.
pub fn i64_to_string(n: i64) -> (r: String)
    ensures
        r@ == dec_seq_of_int(n as int),
{
    if n >= 0 {
        let r = u64_to_string(n as u64);
        r
    } else {
        let magnitude: u64 = ((-(n as i128)) as u64);
        let mut s = String::new();
        push_char(&mut s, '-');
        let digits = u64_to_string(magnitude);
        let r = s.concat(digits.as_str());
        proof {
            assert(r@ =~= dec_seq_of_int(n as int));
        }
        r
    }
}

/// The rendering of a natural number is a nonempty digit string denoting the
/// number itself.
proof fn lemma_dec_seq_of(n: nat)
    ensures
        dec_seq_of(n).len() > 0,
        all_dec_digits(dec_seq_of(n)),
        dec_val(dec_seq_of(n)) == n,
        is_dec_digit(dec_seq_of(n)[0]),
    decreases n,
{
    if n < 10 {
        assert(dec_seq_of(n) =~= seq![dec_digit_char(n)]);
        assert(dec_val(seq![dec_digit_char(n)].drop_last()) == 0);
    } else {
        lemma_dec_seq_of(n / 10);
        lemma_dec_val_push(dec_seq_of(n / 10), dec_digit_char(n % 10));
        assert(forall|i: int|
            0 <= i < dec_seq_of(n).len() ==> is_dec_digit(#[trigger] dec_seq_of(n)[i]));
    }
}

/// Rendering an integer in base ten and reading the string back yields the
/// integer itself: the `expire-by` stamp always parses as the value stamped.
pub proof fn lemma_dec_round_trip(n: i64)
    ensures
        spec_parse_i64(dec_seq_of_int(n as int)) == Some(n),
{
    if n >= 0 {
        lemma_dec_seq_of(n as nat);
    } else {
        let m = (-(n as int)) as nat;
        lemma_dec_seq_of(m);
        let s = dec_seq_of_int(n as int);
        assert(s[0] == '-');
        assert(s.subrange(1, s.len() as int) =~= dec_seq_of(m));
    }
}

} // verus!
