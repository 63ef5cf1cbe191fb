//! Comparing and searching strings.

use vstd::prelude::*;
use vstd::string::{StringExecFns, StringSliceAdditionalSpecFns};

verus! {

/// Whether `pat` occurs in `s` as a run of consecutive characters.
pub open spec fn is_substring(pat: Seq<char>, s: Seq<char>) -> bool {
    exists|i: int| 0 <= i && i + pat.len() <= s.len() && #[trigger] s.subrange(i, i + pat.len()) == pat
}

/// Whether two string slices hold the same characters.
pub(crate) fn str_eq(a: &str, b: &str) -> (same: bool)
    ensures
        same == (a@ == b@),
{
    let left = a.to_owned();
    let right = b.to_owned();
    left == right
}

/// `str::contains` with a string slice as the pattern: true exactly when
/// the pattern's characters occur in `s` as one consecutive run (the empty
/// pattern occurs in every string).
#[verifier::external_body]
pub(crate) fn str_contains(s: &str, pat: &str) -> (found: bool)
    ensures
        found == is_substring(pat@, s@),
{
    s.contains(pat)
}

/// Why a string is not a number.
#[derive(Copy, Clone, Debug, PartialEq, Eq, Structural)]
pub enum IntErrorKind {
    /// The string is empty.
    Empty,
    /// The string holds something else than digits after an optional `+`,
    /// or no digit at all.
    InvalidDigit,
    /// The number does not fit.
    PosOverflow,
}

/// The byte is an ASCII digit.
pub open spec fn is_digit(byte: u8) -> bool {
    0x30 <= byte <= 0x39
}

/// Every byte is an ASCII digit.
pub open spec fn all_digits(bytes: Seq<u8>) -> bool {
    forall|i: int| 0 <= i < bytes.len() ==> is_digit(#[trigger] bytes[i])
}

/// The number that a run of ASCII digits denotes in base ten.
pub open spec fn digits_value(digits: Seq<u8>) -> nat
    decreases digits.len(),
{
    if digits.len() == 0 {
        0
    } else {
        digits_value(digits.drop_last()) * 10 + (digits.last() - 0x30) as nat
    }
}

/// The bytes without one leading `+`.
pub open spec fn unsigned_part(bytes: Seq<u8>) -> Seq<u8> {
    if bytes.len() > 0 && bytes[0] == 0x2b {
        bytes.subrange(1, bytes.len() as int)
    } else {
        bytes
    }
}

/// What reading the first `k` bytes from the left as digits gives: the
/// number read so far, or the first fault. A byte that is no digit is a
/// fault, and so is a digit with which the number no longer fits.
pub open spec fn read_digits(digits: Seq<u8>, k: int) -> Result<nat, IntErrorKind>
    decreases k,
{
    if k <= 0 {
        Ok(0)
    } else {
        match read_digits(digits, k - 1) {
            Err(kind) => Err(kind),
            Ok(value) => if !is_digit(digits[k - 1]) {
                Err(IntErrorKind::InvalidDigit)
            } else if value * 10 + (digits[k - 1] - 0x30) > usize::MAX {
                Err(IntErrorKind::PosOverflow)
            } else {
                Ok((value * 10 + (digits[k - 1] - 0x30)) as nat)
            },
        }
    }
}

/// The number that the bytes denote: an optional `+` and then digits
/// only, at least one of them, no greater than `usize::MAX` in all. Where
/// they denote none, the error is the first fault from the left.
pub open spec fn decimal_usize(bytes: Seq<u8>) -> Result<usize, IntErrorKind> {
    let digits = unsigned_part(bytes);
    if bytes.len() == 0 {
        Err(IntErrorKind::Empty)
    } else if digits.len() == 0 {
        Err(IntErrorKind::InvalidDigit)
    } else {
        match read_digits(digits, digits.len() as int) {
            Ok(value) => Ok(value as usize),
            Err(kind) => Err(kind),
        }
    }
}

/// A fault stays: once reading has met a fault, reading on gives the
/// same fault.
pub proof fn lemma_fault_stays(digits: Seq<u8>, k: int, m: int)
    requires
        0 <= k <= m,
        read_digits(digits, k) is Err,
    ensures
        read_digits(digits, m) == read_digits(digits, k),
    decreases m - k,
{
    if k < m {
        lemma_fault_stays(digits, k, m - 1);
    }
}

/// What was read without fault is the number that the digits denote:
/// every byte read is a digit, and the number fits.
pub proof fn lemma_read_is_value(digits: Seq<u8>, k: int)
    requires
        0 <= k <= digits.len(),
        read_digits(digits, k) is Ok,
    ensures
        all_digits(digits.take(k)),
        read_digits(digits, k) == Ok::<nat, IntErrorKind>(digits_value(digits.take(k))),
        digits_value(digits.take(k)) <= usize::MAX,
    decreases k,
{
    if k > 0 {
        lemma_read_is_value(digits, k - 1);
        assert(digits.take(k).drop_last() =~= digits.take(k - 1));
        assert forall|i: int| 0 <= i < k implies is_digit(#[trigger] digits.take(k)[i]) by {
            if i < k - 1 {
                assert(digits.take(k - 1)[i] == digits.take(k)[i]);
            }
        }
    }
}

/// The bytes denote a number exactly when they are an optional `+` and
/// then digits only, at least one of them, whose number fits; the number
/// they denote is then the number of the digits.
pub proof fn lemma_decimal_usize(bytes: Seq<u8>)
    ensures
        match decimal_usize(bytes) {
            Ok(n) => unsigned_part(bytes).len() > 0 && all_digits(unsigned_part(bytes)) && n
                == digits_value(unsigned_part(bytes)),
            Err(_) => unsigned_part(bytes).len() == 0 || !all_digits(unsigned_part(bytes))
                || digits_value(unsigned_part(bytes)) > usize::MAX,
        },
{
    let digits = unsigned_part(bytes);
    if digits.len() > 0 {
        if read_digits(digits, digits.len() as int) is Ok {
            lemma_read_is_value(digits, digits.len() as int);
            assert(digits.take(digits.len() as int) =~= digits);
        } else if all_digits(digits) {
            lemma_overflow_is_the_fault(digits, digits.len() as int);
            assert(digits.take(digits.len() as int) =~= digits);
        }
    }
}

/// Reading digits only meets no fault but that the number does not fit,
/// and then the number of the digits read does not fit.
pub proof fn lemma_overflow_is_the_fault(digits: Seq<u8>, k: int)
    requires
        0 <= k <= digits.len(),
        all_digits(digits),
        read_digits(digits, k) is Err,
    ensures
        digits_value(digits.take(k)) > usize::MAX,
    decreases k,
{
    if k > 0 {
        assert(digits.take(k).drop_last() =~= digits.take(k - 1));
        if read_digits(digits, k - 1) is Err {
            lemma_overflow_is_the_fault(digits, k - 1);
        } else {
            lemma_read_is_value(digits, k - 1);
        }
    }
}

/// Read a number in base ten: an optional `+`, then digits only. The
/// bytes are read from the left, and the first fault is the error.
pub fn parse_usize(s: &str) -> (parsed: Result<usize, IntErrorKind>)
    ensures
        parsed == decimal_usize(s.spec_bytes()),
{
    let bytes = s.as_bytes();
    if bytes.len() == 0 {
        return Err(IntErrorKind::Empty);
    }
    let start: usize = if bytes[0] == 0x2b {
        1
    } else {
        0
    };
    let ghost digits = unsigned_part(bytes@);
    if start == bytes.len() {
        return Err(IntErrorKind::InvalidDigit);
    }
    let mut value: usize = 0;
    let mut i: usize = start;
    while i < bytes.len()
        invariant
            start <= i <= bytes.len(),
            start < bytes.len(),
            bytes@ == s.spec_bytes(),
            digits == unsigned_part(bytes@),
            digits == bytes@.subrange(start as int, bytes@.len() as int),
            read_digits(digits, i - start) == Ok::<nat, IntErrorKind>(value as nat),
        decreases bytes.len() - i,
    {
        proof {
            assert(digits[i - start] == bytes@[i as int]);
        }
        if bytes[i] < 0x30 || bytes[i] > 0x39 {
            proof {
                assert(read_digits(digits, i - start + 1) == Err::<nat, IntErrorKind>(
                    IntErrorKind::InvalidDigit,
                ));
                lemma_fault_stays(digits, i - start + 1, digits.len() as int);
            }
            return Err(IntErrorKind::InvalidDigit);
        }
        let digit = (bytes[i] - 0x30) as usize;
        if value > (usize::MAX - digit) / 10 {
            proof {
                assert(read_digits(digits, i - start + 1) == Err::<nat, IntErrorKind>(
                    IntErrorKind::PosOverflow,
                ));
                lemma_fault_stays(digits, i - start + 1, digits.len() as int);
            }
            return Err(IntErrorKind::PosOverflow);
        }
        value = value * 10 + digit;
        i += 1;
    }
    Ok(value)
}

/// The character that stands for a digit.
pub open spec fn digit_char(digit: nat) -> char {
    if digit == 0 {
        '0'
    } else if digit == 1 {
        '1'
    } else if digit == 2 {
        '2'
    } else if digit == 3 {
        '3'
    } else if digit == 4 {
        '4'
    } else if digit == 5 {
        '5'
    } else if digit == 6 {
        '6'
    } else if digit == 7 {
        '7'
    } else if digit == 8 {
        '8'
    } else {
        '9'
    }
}

/// A number written in base ten, without leading zeros.
pub open spec fn decimal(n: nat) -> Seq<char>
    decreases n,
{
    if n < 10 {
        seq![digit_char(n)]
    } else {
        decimal(n / 10).push(digit_char(n % 10))
    }
}

/// The string that stands for a digit.
fn digit_str(digit: u64) -> (s: &'static str)
    requires
        digit < 10,
    ensures
        s@ == seq![digit_char(digit as nat)],
{
    proof {
        reveal_strlit("0");
        reveal_strlit("1");
        reveal_strlit("2");
        reveal_strlit("3");
        reveal_strlit("4");
        reveal_strlit("5");
        reveal_strlit("6");
        reveal_strlit("7");
        reveal_strlit("8");
        reveal_strlit("9");
    }
    let s = if digit == 0 {
        "0"
    } else if digit == 1 {
        "1"
    } else if digit == 2 {
        "2"
    } else if digit == 3 {
        "3"
    } else if digit == 4 {
        "4"
    } else if digit == 5 {
        "5"
    } else if digit == 6 {
        "6"
    } else if digit == 7 {
        "7"
    } else if digit == 8 {
        "8"
    } else {
        "9"
    };
    s
}

/// Write a number in base ten.
pub fn format_u64(n: u64) -> (s: String)
    ensures
        s@ == decimal(n as nat),
    decreases n,
{
    if n < 10 {
        digit_str(n).to_owned()
    } else {
        let mut s = format_u64(n / 10);
        s.append(digit_str(n % 10));
        s
    }
}

/// `s` followed by `n` written in base ten.
pub fn push_u64(s: String, n: u64) -> (out: String)
    ensures
        out@ == s@ + decimal(n as nat),
{
    let digits = format_u64(n);
    s.concat(digits.as_str())
}

/// A string is found in itself, and a string that is found in another is
/// no longer than it.
pub proof fn lemma_substring_basics(pat: Seq<char>, s: Seq<char>)
    ensures
        is_substring(s, s),
        is_substring(Seq::<char>::empty(), s),
        is_substring(pat, s) ==> pat.len() <= s.len(),
{
    assert(s.subrange(0int, 0int + s.len()) == s);
    assert(s.subrange(0int, 0int + Seq::<char>::empty().len()) == Seq::<char>::empty());
}

} // verus!
