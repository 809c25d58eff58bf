//! Decimal integers in text: reading them as `str::parse` does for `i32` and
//! `u32`, and writing them as `Display` does.

use vstd::prelude::*;
use crate::text::chars_of;

verus! {

pub open spec fn is_digit(c: char) -> bool {
    '0' <= c && c <= '9'
}

pub open spec fn digit_value(c: char) -> int {
    (c as int) - ('0' as int)
}

pub open spec fn all_digits(s: Seq<char>) -> bool {
    forall|i: int| 0 <= i < s.len() ==> is_digit(#[trigger] s[i])
}

/// The number that a string of decimal digits denotes.
pub open spec fn digits_value(s: Seq<char>) -> int
    decreases s.len(),
{
    if s.len() == 0 {
        0
    } else {
        10 * digits_value(s.drop_last()) + digit_value(s.last())
    }
}

/// One or more decimal digits and their value.
pub open spec fn unsigned_decimal(s: Seq<char>) -> Option<int> {
    if s.len() > 0 && all_digits(s) {
        Some(digits_value(s))
    } else {
        None
    }
}

/// The value of an integer literal in the form `str::parse` accepts for the
/// integer types: an optional `+` (or, when `signed`, `-`) and then one or
/// more decimal digits, nothing else.
pub open spec fn decimal_literal(s: Seq<char>, signed: bool) -> Option<int> {
    if s.len() > 0 && s[0] == '+' {
        unsigned_decimal(s.drop_first())
    } else if signed && s.len() > 0 && s[0] == '-' {
        match unsigned_decimal(s.drop_first()) {
            Some(v) => Some(-v),
            None => None,
        }
    } else {
        unsigned_decimal(s)
    }
}

/// `str::parse::<i32>` succeeds exactly on literals whose value fits.
#[verifier::opaque]
pub open spec fn parse_i32_spec(s: Seq<char>) -> Option<i32> {
    match decimal_literal(s, true) {
        Some(v) => if i32::MIN <= v <= i32::MAX {
            Some(v as i32)
        } else {
            None
        },
        None => None,
    }
}

/// `str::parse::<u32>` succeeds exactly on literals whose value fits.
#[verifier::opaque]
pub open spec fn parse_u32_spec(s: Seq<char>) -> Option<u32> {
    match decimal_literal(s, false) {
        Some(v) => if 0 <= v <= u32::MAX {
            Some(v as u32)
        } else {
            None
        },
        None => None,
    }
}

pub open spec fn digit_char(d: nat) -> char {
    ((d + 48) as u32) as char
}

/// Decimal digits of a natural number, most significant first, no leading zeros.
pub open spec fn decimal_text(n: nat) -> Seq<char>
    decreases n,
{
    if n < 10 {
        seq![digit_char(n)]
    } else {
        decimal_text(n / 10).push(digit_char(n % 10))
    }
}

/// How `Display` writes an integer: a `-` for negatives, then the digits.
pub open spec fn int_text(v: int) -> Seq<char> {
    if v < 0 {
        seq!['-'] + decimal_text((-v) as nat)
    } else {
        decimal_text(v as nat)
    }
}

pub proof fn lemma_digits_value_nonneg(s: Seq<char>)
    requires
        all_digits(s),
    ensures
        digits_value(s) >= 0,
    decreases s.len(),
{
    if s.len() > 0 {
        assert(is_digit(s[s.len() - 1]));
        lemma_digits_value_nonneg(s.drop_last());
    }
}

proof fn lemma_digits_value_push(s: Seq<char>, c: char)
    ensures
        digits_value(s.push(c)) == 10 * digits_value(s) + digit_value(c),
{
    assert(s.push(c).drop_last() =~= s);
}

/// The digits that `decimal_text` writes are digits and read back as the number.
pub proof fn lemma_decimal_text(n: nat)
    ensures
        decimal_text(n).len() > 0,
        all_digits(decimal_text(n)),
        digits_value(decimal_text(n)) == n,
    decreases n,
{
    assert(digit_value(digit_char(n % 10)) == n % 10);
    if n >= 10 {
        lemma_decimal_text(n / 10);
        lemma_digits_value_push(decimal_text(n / 10), digit_char(n % 10));
        assert(n == 10 * (n / 10) + n % 10);
        assert forall|i: int| 0 <= i < decimal_text(n).len() implies is_digit(
            #[trigger] decimal_text(n)[i],
        ) by {
            if i < decimal_text(n / 10).len() {
                assert(decimal_text(n)[i] == decimal_text(n / 10)[i]);
            }
        }
    } else {
        lemma_digits_value_push(Seq::<char>::empty(), digit_char(n));
        assert(Seq::<char>::empty().push(digit_char(n)) =~= decimal_text(n));
    }
}

/// Reading back what `int_text` writes gives the number again.
pub proof fn lemma_int_text_reads_back(v: int, signed: bool)
    requires
        signed || v >= 0,
    ensures
        decimal_literal(int_text(v), signed) == Some(v),
        int_text(v).len() > 0,
        forall|i: int|
            0 <= i < int_text(v).len() ==> is_digit(#[trigger] int_text(v)[i]) || int_text(v)[i]
                == '-',
{
    if v < 0 {
        let d = decimal_text((-v) as nat);
        lemma_decimal_text((-v) as nat);
        assert(int_text(v).drop_first() =~= d);
        assert(int_text(v)[0] == '-');
        assert forall|i: int| 0 <= i < int_text(v).len() implies is_digit(
            #[trigger] int_text(v)[i],
        ) || int_text(v)[i] == '-' by {
            if i > 0 {
                assert(int_text(v)[i] == d[i - 1]);
            }
        }
    } else {
        lemma_decimal_text(v as nat);
        assert(is_digit(int_text(v)[0]));
    }
}

/// Appends the decimal digits of `n`.
fn push_decimal(out: &mut String, n: u64)
    ensures
        final(out)@ == old(out)@ + decimal_text(n as nat),
    decreases n,
{
    if n >= 10 {
        push_decimal(out, n / 10);
    }
    let d: u64 = n % 10;
    let c: char = if d == 0 {
        '0'
    } else if d == 1 {
        '1'
    } else if d == 2 {
        '2'
    } else if d == 3 {
        '3'
    } else if d == 4 {
        '4'
    } else if d == 5 {
        '5'
    } else if d == 6 {
        '6'
    } else if d == 7 {
        '7'
    } else if d == 8 {
        '8'
    } else {
        '9'
    };
    assert(c == digit_char((n % 10) as nat));
    crate::text::push_char(out, c);
    assert(out@ =~= old(out)@ + decimal_text(n as nat));
}

/// `i32` written as `Display` writes it.
pub fn i32_text(x: i32) -> (r: String)
    ensures
        r@ == int_text(x as int),
{
    let mut r = String::new();
    if x < 0 {
        crate::text::push_char(&mut r, '-');
        let m: i64 = -(x as i64);
        push_decimal(&mut r, m as u64);
        assert(r@ =~= int_text(x as int));
    } else {
        push_decimal(&mut r, x as u64);
        assert(r@ =~= int_text(x as int));
    }
    r
}

/// `u32` written as `Display` writes it.
pub fn u32_text(x: u32) -> (r: String)
    ensures
        r@ == int_text(x as int),
{
    let mut r = String::new();
    push_decimal(&mut r, x as u64);
    assert(r@ =~= int_text(x as int));
    r
}

/// Value of the digits in `v[lo..hi]`, or `None` when a character there is
/// no digit or the range is empty; values above 2^32 are all reported as
/// 2^32 + 1.
fn read_digits(v: &Vec<char>, lo: usize, hi: usize) -> (r: Option<u64>)
    requires
        lo <= hi <= v.len(),
    ensures
        match unsigned_decimal(v@.subrange(lo as int, hi as int)) {
            None => r is None,
            Some(n) => r matches Some(m) && (n <= 0x1_0000_0000 ==> m == n) && (n > 0x1_0000_0000
                ==> m == 0x1_0000_0001),
        },
{
    if lo == hi {
        return None;
    }
    let mut acc: u64 = 0;
    let mut i = lo;
    while i < hi
        invariant
            lo <= i <= hi <= v.len(),
            all_digits(v@.subrange(lo as int, i as int)),
            digits_value(v@.subrange(lo as int, i as int)) <= 0x1_0000_0000 ==> acc
                == digits_value(v@.subrange(lo as int, i as int)),
            digits_value(v@.subrange(lo as int, i as int)) > 0x1_0000_0000 ==> acc
                == 0x1_0000_0001,
        decreases hi - i,
    {
        let c = v[i];
        if !('0' <= c && c <= '9') {
            assert(!is_digit(v@.subrange(lo as int, hi as int)[i - lo]));
            return None;
        }
        let ghost prev = v@.subrange(lo as int, i as int);
        proof {
            assert(v@.subrange(lo as int, i + 1) =~= prev.push(c));
            lemma_digits_value_push(prev, c);
            lemma_digits_value_nonneg(prev);
        }
        let d: u64 = (c as u64) - ('0' as u64);
        if acc <= 0x1_0000_0000 {
            let t = acc * 10 + d;
            acc = if t > 0x1_0000_0000 {
                0x1_0000_0001
            } else {
                t
            };
        }
        i = i + 1;
    }
    Some(acc)
}

/// `str::parse::<i32>`, with the error turned into `None`.
pub fn parse_i32(s: &str) -> (r: Option<i32>)
    ensures
        r == parse_i32_spec(s@),
{
    reveal(parse_i32_spec);
    let v = chars_of(s);
    let n = v.len();
    if n > 0 && v[0] == '+' {
        assert(v@.subrange(1, n as int) =~= v@.drop_first());
        match read_digits(&v, 1, n) {
            Some(m) => if m <= 0x7fff_ffff {
                Some(m as i32)
            } else {
                None
            },
            None => None,
        }
    } else if n > 0 && v[0] == '-' {
        assert(v@.subrange(1, n as int) =~= v@.drop_first());
        match read_digits(&v, 1, n) {
            Some(m) => if m <= 0x8000_0000 {
                let w: i64 = -(m as i64);
                Some(w as i32)
            } else {
                None
            },
            None => None,
        }
    } else {
        assert(v@.subrange(0, n as int) =~= v@);
        match read_digits(&v, 0, n) {
            Some(m) => if m <= 0x7fff_ffff {
                Some(m as i32)
            } else {
                None
            },
            None => None,
        }
    }
}

/// `str::parse::<u32>`, with the error turned into `None`.
pub fn parse_u32(s: &str) -> (r: Option<u32>)
    ensures
        r == parse_u32_spec(s@),
{
    reveal(parse_u32_spec);
    let v = chars_of(s);
    let n = v.len();
    if n > 0 && v[0] == '+' {
        assert(v@.subrange(1, n as int) =~= v@.drop_first());
        match read_digits(&v, 1, n) {
            Some(m) => if m <= 0xffff_ffff {
                Some(m as u32)
            } else {
                None
            },
            None => None,
        }
    } else {
        assert(v@.subrange(0, n as int) =~= v@);
        match read_digits(&v, 0, n) {
            Some(m) => if m <= 0xffff_ffff {
                Some(m as u32)
            } else {
                None
            },
            None => None,
        }
    }
}

} // verus!
