//! Parsing and validation of the raw grade text field.
//!
//! A submission is accepted exactly when the text is a well-formed 32-bit
//! signed integer whose value lies in the grade domain `1..=5`. Text that is
//! not such an integer (empty, a bare sign, a stray character, or a value
//! outside the 32-bit range) is `NotANumber`; an integer outside the domain
//! is `OutOfRange`.

use vstd::prelude::*;

verus! {

/// Why a raw text submission was rejected.
#[derive(Clone, Copy, Debug, PartialEq, Eq, Structural)]
pub enum ValidationError {
    /// The text is not a well-formed machine integer.
    NotANumber,
    /// The text is an integer, but outside the grade domain `1..=5`.
    OutOfRange,
}

/// The code point is a decimal digit.
pub open spec fn is_digit_char(c: char) -> bool {
    48 <= c as int && c as int <= 57
}

/// Numeric value of a digit character.
pub open spec fn digit_val(c: char) -> int {
    c as int - 48
}

/// Value of a sequence of digit characters, most significant first.
pub open spec fn digits_value(s: Seq<char>) -> int
    decreases s.len(),
{
    if s.len() == 0 {
        0
    } else {
        digits_value(s.drop_last()) * 10 + digit_val(s.last())
    }
}

/// Every character of the sequence is a decimal digit.
pub open spec fn all_digits(s: Seq<char>) -> bool {
    forall|i: int| 0 <= i < s.len() ==> is_digit_char(#[trigger] s[i])
}

/// The text begins with an explicit sign.
pub open spec fn has_sign(s: Seq<char>) -> bool {
    s.len() > 0 && (s[0] == '+' || s[0] == '-')
}

/// The digit part of the text, any sign stripped.
pub open spec fn digits_part(s: Seq<char>) -> Seq<char> {
    if has_sign(s) {
        s.skip(1)
    } else {
        s
    }
}

/// The text denotes a negative number.
pub open spec fn is_negative(s: Seq<char>) -> bool {
    s.len() > 0 && s[0] == '-'
}

/// The text has the shape of an integer: an optional sign, then one digit or more.
pub open spec fn int_shape(s: Seq<char>) -> bool {
    digits_part(s).len() > 0 && all_digits(digits_part(s))
}

/// The integer the text denotes (meaningful only under `int_shape`).
pub open spec fn int_value(s: Seq<char>) -> int {
    if is_negative(s) {
        -digits_value(digits_part(s))
    } else {
        digits_value(digits_part(s))
    }
}

/// The text parses as a 32-bit signed integer: integer shape, value in range.
pub open spec fn parses_as_i32(s: Seq<char>) -> bool {
    &&& int_shape(s)
    &&& -0x8000_0000 <= int_value(s)
    &&& int_value(s) <= 0x7FFF_FFFF
}

/// What `validate` returns on a given text.
pub open spec fn spec_validate(s: Seq<char>) -> Result<u8, ValidationError> {
    if !parses_as_i32(s) {
        Err(ValidationError::NotANumber)
    } else if int_value(s) < 1 || int_value(s) > 5 {
        Err(ValidationError::OutOfRange)
    } else {
        Ok(int_value(s) as u8)
    }
}

/// Parse a raw text field into a grade, enforcing the domain `1..=5`.
pub fn validate(raw: &str) -> (r: Result<u8, ValidationError>)
    ensures
        r == spec_validate(raw@),
{
    let n: usize = raw.unicode_len();
    let mut start: usize = 0;
    let mut neg = false;
    if n > 0 {
        let c0 = raw.get_char(0);
        if c0 == '-' {
            neg = true;
            start = 1;
        } else if c0 == '+' {
            start = 1;
        }
    }
    proof {
        assert(neg == is_negative(raw@));
        if start == 0 {
            assert(digits_part(raw@) =~= raw@.skip(0));
        }
    }
    let ghost digs = digits_part(raw@);
    if start >= n {
        // Empty text, or a bare sign: no digits at all.
        assert(digs.len() == 0);
        return Err(ValidationError::NotANumber);
    }
    let mut i: usize = start;
    let mut acc: u64 = 0;
    let mut too_big = false;
    while i < n
        invariant
            start <= i <= n,
            n == raw@.len(),
            start < n,
            digs == digits_part(raw@),
            digs == raw@.skip(start as int),
            neg == is_negative(raw@),
            all_digits(digs.take(i - start)),
            !too_big ==> acc == digits_value(digs.take(i - start)) && acc <= 0x8000_0000u64 * 10
                + 9,
            too_big ==> digits_value(digs.take(i - start)) > 0x8000_0000,
        decreases n - i,
    {
        let c = raw.get_char(i);
        let u: u32 = c as u32;
        if u < 48 || u > 57 {
            proof {
                assert(digs[i - start] == raw@[i as int]);
                assert(!is_digit_char(digs[i - start]));
            }
            return Err(ValidationError::NotANumber);
        }
        let d: u64 = (u - 48) as u64;
        proof {
            assert(digs[i - start] == raw@[i as int]);
            assert(digs.take(i - start + 1).drop_last() =~= digs.take(i - start));
            assert(digs.take(i - start + 1).last() == digs[i - start]);
        }
        if too_big {
            // The magnitude already exceeds the 32-bit range; further digits
            // only grow it.
        } else if acc > 0x8000_0000 {
            too_big = true;
        } else {
            acc = acc * 10 + d;
        }
        i = i + 1;
    }
    proof {
        assert(digs.take(n - start) =~= digs);
        assert(int_shape(raw@));
    }
    if too_big {
        // Magnitude above 0x8000_0000: outside the 32-bit range whatever the sign.
        return Err(ValidationError::NotANumber);
    }
    if neg {
        if acc > 0x8000_0000 {
            return Err(ValidationError::NotANumber);
        }
        // A non-positive value parses (down to -0x8000_0000) but is below grade 1.
        return Err(ValidationError::OutOfRange);
    }
    if acc > 0x7FFF_FFFF {
        return Err(ValidationError::NotANumber);
    }
    if acc < 1 || acc > 5 {
        return Err(ValidationError::OutOfRange);
    }
    Ok(acc as u8)
}

} // verus!
