//! Decimal integers as the command line writes them.
//!
//! The grammar is that of the standard library's integer `FromStr`: an optional
//! sign (`+`, and `-` for signed types only) followed by at least one decimal
//! digit. The digits are read left to right; the first character that is not a
//! digit, or the first digit that takes the value out of the type's range,
//! decides the error.
use vstd::prelude::*;

verus! {

/// Why a word is not an integer of the asked type.
#[derive(Debug, Clone, Copy, PartialEq, Eq, Structural)]
pub enum IntErrorKind {
    /// The word is empty.
    Empty,
    /// A character that is not a decimal digit (a lone sign counts as one).
    InvalidDigit,
    /// The value is above the type's maximum.
    PosOverflow,
    /// The value is below the type's minimum.
    NegOverflow,
}

pub open spec fn is_digit(c: char) -> bool {
    '0' <= c && c <= '9'
}

pub open spec fn digit_value(c: char) -> int {
    c as int - '0' as int
}

/// Reads `digits` left to right into a magnitude that is added (or, when
/// `negative`, subtracted) digit by digit, and stays within `lo..=hi`.
pub open spec fn scan_digits(digits: Seq<char>, negative: bool, lo: int, hi: int) -> Result<
    int,
    IntErrorKind,
>
    decreases digits.len(),
{
    if digits.len() == 0 {
        Ok(0)
    } else {
        match scan_digits(digits.drop_last(), negative, lo, hi) {
            Err(e) => Err(e),
            Ok(acc) => {
                let c = digits.last();
                if !is_digit(c) {
                    Err(IntErrorKind::InvalidDigit)
                } else if negative {
                    if acc * 10 - digit_value(c) < lo {
                        Err(IntErrorKind::NegOverflow)
                    } else {
                        Ok(acc * 10 - digit_value(c))
                    }
                } else {
                    if acc * 10 + digit_value(c) > hi {
                        Err(IntErrorKind::PosOverflow)
                    } else {
                        Ok(acc * 10 + digit_value(c))
                    }
                }
            },
        }
    }
}

/// The integer that `s` denotes in the range `lo..=hi`; a leading `-` is a
/// sign only where the range holds negative numbers.
pub open spec fn parse_integer(s: Seq<char>, lo: int, hi: int) -> Result<int, IntErrorKind> {
    if s.len() == 0 {
        Err(IntErrorKind::Empty)
    } else if s.len() == 1 && (s[0] == '+' || s[0] == '-') {
        Err(IntErrorKind::InvalidDigit)
    } else if s[0] == '+' {
        scan_digits(s.drop_first(), false, lo, hi)
    } else if s[0] == '-' && lo < 0 {
        scan_digits(s.drop_first(), true, lo, hi)
    } else {
        scan_digits(s, false, lo, hi)
    }
}

pub open spec fn spec_parse_i64(s: Seq<char>) -> Result<i64, IntErrorKind> {
    match parse_integer(s, i64::MIN as int, i64::MAX as int) {
        Ok(v) => Ok(v as i64),
        Err(e) => Err(e),
    }
}

pub open spec fn spec_parse_u16(s: Seq<char>) -> Result<u16, IntErrorKind> {
    match parse_integer(s, 0, u16::MAX as int) {
        Ok(v) => Ok(v as u16),
        Err(e) => Err(e),
    }
}

pub open spec fn spec_parse_usize(s: Seq<char>) -> Result<usize, IntErrorKind> {
    match parse_integer(s, 0, usize::MAX as int) {
        Ok(v) => Ok(v as usize),
        Err(e) => Err(e),
    }
}

proof fn lemma_scan_in_range(digits: Seq<char>, negative: bool, lo: int, hi: int)
    requires
        lo <= 0 <= hi,
    ensures
        scan_digits(digits, negative, lo, hi) matches Ok(v) ==> lo <= v <= hi && (negative ==> v
            <= 0) && (!negative ==> 0 <= v),
    decreases digits.len(),
{
    if digits.len() > 0 {
        lemma_scan_in_range(digits.drop_last(), negative, lo, hi);
    }
}

proof fn lemma_parse_in_range(s: Seq<char>, lo: int, hi: int)
    requires
        lo <= 0 <= hi,
    ensures
        parse_integer(s, lo, hi) matches Ok(v) ==> lo <= v <= hi,
{
    if s.len() > 0 {
        lemma_scan_in_range(s.drop_first(), false, lo, hi);
        lemma_scan_in_range(s.drop_first(), true, lo, hi);
        lemma_scan_in_range(s, false, lo, hi);
    }
}

/// Once the scan of a prefix has failed, the scan of the whole fails the same way.
proof fn lemma_scan_error_sticks(s: Seq<char>, k: int, negative: bool, lo: int, hi: int)
    requires
        0 <= k <= s.len(),
        scan_digits(s.subrange(0, k), negative, lo, hi) is Err,
    ensures
        scan_digits(s, negative, lo, hi) == scan_digits(s.subrange(0, k), negative, lo, hi),
    decreases s.len() - k,
{
    if k < s.len() {
        let longer = s.subrange(0, k + 1);
        assert(longer.drop_last() =~= s.subrange(0, k));
        lemma_scan_error_sticks(s, k + 1, negative, lo, hi);
    } else {
        assert(s.subrange(0, k) =~= s);
    }
}

/// The decimal digit for `d` (`0 <= d < 10`).
pub open spec fn digit_char(d: nat) -> char {
    (d + '0' as nat) as char
}

/// The canonical decimal writing of `n`: its digits, most significant first,
/// without leading zeros.
pub open spec fn decimal(n: nat) -> Seq<char>
    decreases n,
{
    if n < 10 {
        seq![digit_char(n)]
    } else {
        decimal(n / 10).push(digit_char(n % 10))
    }
}

proof fn lemma_scan_decimal(n: nat, negative: bool, lo: int, hi: int)
    requires
        lo <= 0 <= hi,
        negative ==> lo <= -n,
        !negative ==> n <= hi,
    ensures
        scan_digits(decimal(n), negative, lo, hi) == Ok::<int, IntErrorKind>(
            if negative {
                -n
            } else {
                n as int
            },
        ),
    decreases n,
{
    let d = decimal(n);
    if n < 10 {
        assert(d.drop_last() =~= Seq::<char>::empty());
        assert(digit_value(digit_char(n)) == n);
        assert(is_digit(digit_char(n)));
        assert(d.last() == digit_char(n));
        assert(scan_digits(d.drop_last(), negative, lo, hi) == Ok::<int, IntErrorKind>(0));
        assert(d.len() == 1);
    } else {
        let q = n / 10;
        let r = n % 10;
        assert(q * 10 + r == n);
        lemma_scan_decimal(q, negative, lo, hi);
        assert(d.drop_last() =~= decimal(q));
        assert(digit_value(digit_char(r)) == r);
        assert(is_digit(digit_char(r)));
        assert(d.last() == digit_char(r));
        assert(d.len() > 0);
        if negative {
            assert(-q * 10 - r == -n);
            assert(scan_digits(d.drop_last(), negative, lo, hi) == Ok::<int, IntErrorKind>(-q));
        } else {
            assert(q * 10 + r == n);
            assert(scan_digits(d.drop_last(), negative, lo, hi) == Ok::<int, IntErrorKind>(q as int));
        }
    }
}

/// Every number in range reads back from its canonical decimal writing, with
/// a `+` in front, and, where the range holds it, its negative from the
/// writing with a `-` in front.
pub proof fn lemma_decimal_reads_back(n: nat, lo: int, hi: int)
    requires
        lo <= 0 <= hi,
    ensures
        n <= hi ==> parse_integer(decimal(n), lo, hi) == Ok::<int, IntErrorKind>(n as int),
        n <= hi ==> parse_integer(seq!['+'] + decimal(n), lo, hi) == Ok::<int, IntErrorKind>(n as int),
        lo < 0 && lo <= -n ==> parse_integer(seq!['-'] + decimal(n), lo, hi) == Ok::<int, IntErrorKind>(-n),
{
    let d = decimal(n);
    assert(d.len() >= 1 && '0' <= d[0] <= '9') by {
        lemma_decimal_digits(n);
    }
    assert((seq!['+'] + d).drop_first() =~= d);
    assert((seq!['-'] + d).drop_first() =~= d);
    if n <= hi {
        lemma_scan_decimal(n, false, lo, hi);
    }
    if lo < 0 && lo <= -n {
        lemma_scan_decimal(n, true, lo, hi);
    }
}

proof fn lemma_decimal_digits(n: nat)
    ensures
        decimal(n).len() >= 1,
        forall|i: int| 0 <= i < decimal(n).len() ==> is_digit(#[trigger] decimal(n)[i]),
    decreases n,
{
    if n >= 10 {
        lemma_decimal_digits(n / 10);
        let d = decimal(n);
        assert forall|i: int| 0 <= i < d.len() implies is_digit(#[trigger] d[i]) by {
            if i < d.len() - 1 {
                assert(d[i] == decimal(n / 10)[i]);
            }
        }
    }
}

/// The decimal writing of `n`, with a `-` in front where it is negative.
pub open spec fn signed_decimal(n: int) -> Seq<char> {
    if n < 0 {
        seq!['-'] + decimal((-n) as nat)
    } else {
        decimal(n as nat)
    }
}

/// Every `i64` reads back from its decimal writing.
pub proof fn lemma_rendered_i64_reads_back(n: i64)
    ensures
        spec_parse_i64(signed_decimal(n as int)) == Ok::<i64, IntErrorKind>(n),
{
    if n < 0 {
        lemma_decimal_reads_back((-n) as nat, i64::MIN as int, i64::MAX as int);
    } else {
        lemma_decimal_reads_back(n as nat, i64::MIN as int, i64::MAX as int);
    }
}

fn digit_text(d: u64) -> (s: &'static str)
    requires
        d < 10,
    ensures
        s@ == seq![digit_char(d as nat)],
{
    match d {
        0 => {
            proof {
                reveal_strlit("0");
            }
            "0"
        },
        1 => {
            proof {
                reveal_strlit("1");
            }
            "1"
        },
        2 => {
            proof {
                reveal_strlit("2");
            }
            "2"
        },
        3 => {
            proof {
                reveal_strlit("3");
            }
            "3"
        },
        4 => {
            proof {
                reveal_strlit("4");
            }
            "4"
        },
        5 => {
            proof {
                reveal_strlit("5");
            }
            "5"
        },
        6 => {
            proof {
                reveal_strlit("6");
            }
            "6"
        },
        7 => {
            proof {
                reveal_strlit("7");
            }
            "7"
        },
        8 => {
            proof {
                reveal_strlit("8");
            }
            "8"
        },
        _ => {
            proof {
                reveal_strlit("9");
            }
            "9"
        },
    }
}

fn append_decimal(out: &mut String, m: u64)
    ensures
        final(out)@ == old(out)@ + decimal(m as nat),
    decreases m,
{
    if m >= 10 {
        append_decimal(out, m / 10);
    }
    let ghost before = out@;
    out.append(digit_text(m % 10));
    proof {
        if m >= 10 {
            assert(decimal(m as nat) == decimal((m / 10) as nat).push(digit_char((m % 10) as nat)));
            assert(out@ =~= old(out)@ + decimal(m as nat));
        } else {
            assert(decimal(m as nat) == seq![digit_char(m as nat)]);
            assert(out@ =~= old(out)@ + decimal(m as nat));
        }
    }
}

/// The decimal writing of `n`, as `i64`'s `Display` writes it.
pub fn render_i64(n: i64) -> (s: String)
    ensures
        s@ == signed_decimal(n as int),
{
    let mut s = String::new();
    if n < 0 {
        proof {
            reveal_strlit("-");
        }
        s.append("-");
        let magnitude = (0i128 - n as i128) as u64;
        append_decimal(&mut s, magnitude);
        assert(s@ =~= seq!['-'] + decimal((-n) as nat));
    } else {
        append_decimal(&mut s, n as u64);
        assert(s@ =~= decimal(n as nat));
    }
    s
}

/// Scans `s@[start..]` as in `scan_digits`.
fn scan_from(s: &str, start: usize, n: usize, negative: bool, lo: i128, hi: i128) -> (r: Result<
    i128,
    IntErrorKind,
>)
    requires
        n == s@.len(),
        start <= n,
        -0x1_0000_0000_0000_0000_0000 <= lo <= 0 <= hi <= 0x1_0000_0000_0000_0000_0000,
    ensures
        r == (match scan_digits(s@.subrange(start as int, n as int), negative, lo as int, hi as int) {
            Ok(v) => Ok(v as i128),
            Err(e) => Err(e),
        }),
{
    let mut acc: i128 = 0;
    let mut i: usize = start;
    assert(s@.subrange(start as int, start as int) =~= Seq::<char>::empty());
    while i < n
        invariant
            n == s@.len(),
            start <= i <= n,
            -0x1_0000_0000_0000_0000_0000 <= lo <= 0 <= hi <= 0x1_0000_0000_0000_0000_0000,
            lo <= acc <= hi,
            negative ==> acc <= 0,
            !negative ==> acc >= 0,
            scan_digits(s@.subrange(start as int, i as int), negative, lo as int, hi as int) == Ok::<
                int,
                IntErrorKind,
            >(acc as int),
        decreases n - i,
    {
        let c = s.get_char(i);
        let ghost prefix = s@.subrange(start as int, i as int);
        let ghost next = s@.subrange(start as int, i + 1);
        assert(next.drop_last() =~= prefix);
        assert(next.last() == c);
        proof {
            assert(s@.subrange(start as int, n as int).subrange(0, i + 1 - start) =~= next);
        }
        if !('0' <= c && c <= '9') {
            proof {
                lemma_scan_error_sticks(s@.subrange(start as int, n as int), i + 1 - start, negative, lo as int, hi as int);
            }
            return Err(IntErrorKind::InvalidDigit);
        }
        let d = (c as u32 - '0' as u32) as i128;
        assert(d == digit_value(c));
        if negative {
            let v = acc * 10 - d;
            if v < lo {
                assert(scan_digits(next, negative, lo as int, hi as int) == Err::<int, IntErrorKind>(
                    IntErrorKind::NegOverflow,
                ));
                proof {
                    lemma_scan_error_sticks(s@.subrange(start as int, n as int), i + 1 - start, negative, lo as int, hi as int);
                }
                return Err(IntErrorKind::NegOverflow);
            }
            acc = v;
        } else {
            let v = acc * 10 + d;
            if v > hi {
                assert(scan_digits(next, negative, lo as int, hi as int) == Err::<int, IntErrorKind>(
                    IntErrorKind::PosOverflow,
                ));
                proof {
                    lemma_scan_error_sticks(s@.subrange(start as int, n as int), i + 1 - start, negative, lo as int, hi as int);
                }
                return Err(IntErrorKind::PosOverflow);
            }
            acc = v;
        }
        i = i + 1;
    }
    Ok(acc)
}

/// Reads `s` as an integer in `lo..=hi`.
fn parse_in_range(s: &str, lo: i128, hi: i128) -> (r: Result<i128, IntErrorKind>)
    requires
        -0x1_0000_0000_0000_0000_0000 <= lo <= 0 <= hi <= 0x1_0000_0000_0000_0000_0000,
    ensures
        r == (match parse_integer(s@, lo as int, hi as int) {
            Ok(v) => Ok(v as i128),
            Err(e) => Err(e),
        }),
        r matches Ok(v) ==> lo <= v <= hi,
        parse_integer(s@, lo as int, hi as int) matches Ok(v) ==> lo <= v <= hi,
{
    proof {
        lemma_parse_in_range(s@, lo as int, hi as int);
    }
    let n = s.unicode_len();
    if n == 0 {
        return Err(IntErrorKind::Empty);
    }
    let first = s.get_char(0);
    if n == 1 && (first == '+' || first == '-') {
        return Err(IntErrorKind::InvalidDigit);
    }
    let r = if first == '+' {
        assert(s@.subrange(1, n as int) =~= s@.drop_first());
        proof {
            lemma_scan_in_range(s@.drop_first(), false, lo as int, hi as int);
        }
        scan_from(s, 1, n, false, lo, hi)
    } else if first == '-' && lo < 0 {
        assert(s@.subrange(1, n as int) =~= s@.drop_first());
        proof {
            lemma_scan_in_range(s@.drop_first(), true, lo as int, hi as int);
        }
        scan_from(s, 1, n, true, lo, hi)
    } else {
        assert(s@.subrange(0, n as int) =~= s@);
        proof {
            lemma_scan_in_range(s@, false, lo as int, hi as int);
        }
        scan_from(s, 0, n, false, lo, hi)
    };
    r
}

/// `s` read as an `i64`, as `str::parse::<i64>` reads it.
pub fn parse_i64(s: &str) -> (r: Result<i64, IntErrorKind>)
    ensures
        r == spec_parse_i64(s@),
{
    match parse_in_range(s, i64::MIN as i128, i64::MAX as i128) {
        Ok(v) => Ok(v as i64),
        Err(e) => Err(e),
    }
}

/// `s` read as a `u16`, as `str::parse::<u16>` reads it.
pub fn parse_u16(s: &str) -> (r: Result<u16, IntErrorKind>)
    ensures
        r == spec_parse_u16(s@),
{
    match parse_in_range(s, 0, u16::MAX as i128) {
        Ok(v) => Ok(v as u16),
        Err(e) => Err(e),
    }
}

/// `s` read as a `usize`, as `str::parse::<usize>` reads it.
pub fn parse_usize(s: &str) -> (r: Result<usize, IntErrorKind>)
    ensures
        r == spec_parse_usize(s@),
{
    match parse_in_range(s, 0, usize::MAX as i128) {
        Ok(v) => Ok(v as usize),
        Err(e) => Err(e),
    }
}

} // verus!
