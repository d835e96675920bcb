//! Parsing of numeric form fields.
//!
//! A numeric field holds an optional sign followed by decimal digits. The
//! parser accepts exactly what `i32` can represent and reports, for every
//! other input, which way it is malformed, so that the engine can surface a
//! precise notice to the user.
use vstd::prelude::*;

verus! {

/// Why a numeric field failed to parse.
#[derive(Clone, Copy, PartialEq, Eq, Structural, Debug)]
pub enum ParseIntError {
    /// The field was empty.
    Empty,
    /// A character other than an optional leading sign and decimal digits
    /// occurred, or a sign stood alone.
    InvalidDigit,
    /// The value exceeds the largest representable value.
    PosOverflow,
    /// The value is below the smallest representable value.
    NegOverflow,
}

/// Whether `c` is a decimal digit.
pub open spec fn is_dec_digit(c: char) -> bool {
    '0' <= c && c <= '9'
}

/// The numeric value of a digit character.
pub open spec fn digit_val(c: char) -> int {
    c as int - '0' as int
}

/// Whether every character of `s` is a decimal digit.
pub open spec fn all_digits(s: Seq<char>) -> bool {
    forall|i: int| 0 <= i < s.len() ==> is_dec_digit(s[i])
}

/// The value of a digit string read in base ten, most significant first.
pub open spec fn digits_val(s: Seq<char>) -> int
    decreases s.len(),
{
    if s.len() == 0 {
        0
    } else {
        digits_val(s.drop_last()) * 10 + digit_val(s.last())
    }
}

/// What parsing a whole field yields: an empty field is `Empty`; a lone sign,
/// or any character besides a leading sign and digits, is `InvalidDigit`; a
/// well-formed numeral out of `i32` range overflows in the direction of its
/// sign; everything else is the numeral's value.
pub open spec fn spec_parse_i32(s: Seq<char>) -> Result<i32, ParseIntError> {
    if s.len() == 0 {
        Err(ParseIntError::Empty)
    } else {
        let neg = s[0] == '-';
        let digits = if s[0] == '-' || s[0] == '+' {
            s.drop_first()
        } else {
            s
        };
        if digits.len() == 0 {
            Err(ParseIntError::InvalidDigit)
        } else if !all_digits(digits) {
            Err(ParseIntError::InvalidDigit)
        } else {
            let n = if neg {
                -digits_val(digits)
            } else {
                digits_val(digits)
            };
            if n > i32::MAX {
                Err(ParseIntError::PosOverflow)
            } else if n < i32::MIN {
                Err(ParseIntError::NegOverflow)
            } else {
                Ok(n as i32)
            }
        }
    }
}

/// A digit string never has a negative value.
pub proof fn lemma_digits_val_nonneg(s: Seq<char>)
    requires
        all_digits(s),
    ensures
        digits_val(s) >= 0,
    decreases s.len(),
{
    if s.len() > 0 {
        assert(all_digits(s.drop_last()));
        lemma_digits_val_nonneg(s.drop_last());
    }
}

impl ParseIntError {
    /// The user-facing description of this failure.
    pub open spec fn spec_message(self) -> Seq<char> {
        match self {
            ParseIntError::Empty => "cannot parse integer from empty string"@,
            ParseIntError::InvalidDigit => "invalid digit found in string"@,
            ParseIntError::PosOverflow => "number too large to fit in target type"@,
            ParseIntError::NegOverflow => "number too small to fit in target type"@,
        }
    }

    /// The user-facing description of this failure.
    pub fn message(&self) -> (r: &'static str)
        ensures
            r@ == self.spec_message(),
    {
        match self {
            ParseIntError::Empty => "cannot parse integer from empty string",
            ParseIntError::InvalidDigit => "invalid digit found in string",
            ParseIntError::PosOverflow => "number too large to fit in target type",
            ParseIntError::NegOverflow => "number too small to fit in target type",
        }
    }
}

/// Reads a decimal `i32` from a field, with exactly the outcome that
/// `spec_parse_i32` assigns to the field's characters.
pub fn parse_i32(s: &str) -> (r: Result<i32, ParseIntError>)
    ensures
        r == spec_parse_i32(s@),
{
    let n = s.unicode_len();
    if n == 0 {
        return Err(ParseIntError::Empty);
    }
    let c0 = s.get_char(0);
    let neg = c0 == '-';
    let start: usize = if c0 == '-' || c0 == '+' {
        1
    } else {
        0
    };
    let ghost digits: Seq<char> = s@.subrange(start as int, n as int);
    proof {
        if start == 1 {
            assert(digits =~= s@.drop_first());
        } else {
            assert(digits =~= s@);
        }
    }
    if n == start {
        return Err(ParseIntError::InvalidDigit);
    }
    let mut i: usize = start;
    let mut acc: u64 = 0;
    let mut big = false;
    while i < n
        invariant
            start <= i <= n,
            n == s@.len(),
            start < n,
            neg == (s@[0] == '-'),
            (start == 1) <==> (s@[0] == '-' || s@[0] == '+'),
            start == 1 ==> digits == s@.drop_first(),
            start == 0 ==> digits == s@,
            digits == s@.subrange(start as int, n as int),
            forall|j: int| start <= j < i ==> is_dec_digit(s@[j]),
            !big ==> acc == digits_val(s@.subrange(start as int, i as int)) && acc <= u32::MAX,
            big ==> digits_val(s@.subrange(start as int, i as int)) > u32::MAX,
        decreases n - i,
    {
        let ghost prefix = s@.subrange(start as int, i as int);
        let c = s.get_char(i);
        let cu = c as u32;
        if !(cu >= 48 && cu <= 57) {
            proof {
                assert(!is_dec_digit(digits[i - start]));
            }
            return Err(ParseIntError::InvalidDigit);
        }
        let d: u64 = (cu - 48) as u64;
        proof {
            assert(s@.subrange(start as int, i + 1) =~= prefix.push(s@[i as int]));
            assert(s@.subrange(start as int, i + 1).drop_last() =~= prefix);
            assert(digits_val(s@.subrange(start as int, i + 1)) == digits_val(prefix) * 10
                + digit_val(s@[i as int]));
            if big {
                assert(all_digits(prefix)) by {
                    assert(forall|j: int|
                        0 <= j < prefix.len() ==> prefix[j] == s@[start + j] && is_dec_digit(
                            s@[start + j],
                        ));
                }
            }
        }
        if !big {
            acc = acc * 10 + d;
            if acc > 0xFFFF_FFFF {
                big = true;
            }
        }
        i = i + 1;
    }
    proof {
        assert(s@.subrange(start as int, i as int) == digits);
        assert(all_digits(digits));
        if big {
            lemma_digits_val_nonneg(digits);
        }
    }
    if big {
        if neg {
            Err(ParseIntError::NegOverflow)
        } else {
            Err(ParseIntError::PosOverflow)
        }
    } else if neg {
        if acc > 2147483648 {
            Err(ParseIntError::NegOverflow)
        } else {
            let v: i64 = -(acc as i64);
            Ok(v as i32)
        }
    } else {
        if acc > 2147483647 {
            Err(ParseIntError::PosOverflow)
        } else {
            Ok(acc as i32)
        }
    }
}


} // verus!
