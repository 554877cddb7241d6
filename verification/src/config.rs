//! Port configuration: turning externally supplied text into TCP port numbers.
//!
//! A port value is text holding an optional leading `'+'` and then at least
//! one decimal digit, denoting a number no greater than 65535. A missing value
//! falls back to the listener's default port. A value that cannot be read this
//! way is a configuration error, which the service treats as fatal at startup.

use vstd::prelude::*;

verus! {

use vstd::string::StrSliceExecFns;

/// Why a port value was rejected.
#[derive(Clone, Copy, PartialEq, Eq, Structural, Debug)]
pub enum PortError {
    /// The text is not an optional `'+'` followed by one or more digits.
    Malformed,
    /// The digits denote a number greater than 65535.
    TooLarge,
}

/// Default port of the first listener.
pub const FIRST_PORT_DEFAULT: u16 = 8080;

/// Default port of the second listener.
pub const SECOND_PORT_DEFAULT: u16 = 8888;

/// Is `c` a decimal digit?
pub open spec fn is_digit(c: char) -> bool {
    48 <= c as u32 <= 57
}

/// The value of the decimal digit `c`.
pub open spec fn digit_value(c: char) -> int {
    c as u32 - 48
}

/// Is every character of `s` a decimal digit?
pub open spec fn all_digits(s: Seq<char>) -> bool {
    forall|k: int| 0 <= k < s.len() ==> is_digit(#[trigger] s[k])
}

/// The number the digit string `s` denotes, read left to right.
pub open spec fn decimal_value(s: Seq<char>) -> int
    decreases s.len(),
{
    if s.len() == 0 {
        0
    } else {
        decimal_value(s.drop_last()) * 10 + digit_value(s.last())
    }
}

/// The digit part of a port value: everything after an optional leading `'+'`.
pub open spec fn digits_of(s: Seq<char>) -> Seq<char> {
    if s.len() > 0 && s[0] == '+' {
        s.subrange(1, s.len() as int)
    } else {
        s
    }
}

/// Is the text shaped like a port value at all (sign handled, digits present)?
pub open spec fn port_chars_valid(s: Seq<char>) -> bool {
    digits_of(s).len() > 0 && all_digits(digits_of(s))
}

/// Do the digits denote a number a 16-bit port can hold?
pub open spec fn port_in_range(s: Seq<char>) -> bool {
    decimal_value(digits_of(s)) <= 65535
}

/// What reading a port value yields: the denoted number when the text is a
/// port value, the defect found otherwise.
pub open spec fn spec_parse_port(s: Seq<char>) -> Result<u16, PortError> {
    if !port_chars_valid(s) {
        Err(PortError::Malformed)
    } else if !port_in_range(s) {
        Err(PortError::TooLarge)
    } else {
        Ok(decimal_value(digits_of(s)) as u16)
    }
}

/// The view of an optional borrowed string.
pub open spec fn opt_view(value: Option<&str>) -> Option<Seq<char>> {
    match value {
        Some(s) => Some(s@),
        None => None,
    }
}

/// What resolving a port value yields: the default when no value was supplied,
/// what reading the text yields otherwise.
pub open spec fn spec_resolve_port(value: Option<Seq<char>>, default: u16) -> Result<
    u16,
    PortError,
> {
    match value {
        None => Ok(default),
        Some(s) => spec_parse_port(s),
    }
}

/// A digit string denotes a non-negative number.
pub proof fn lemma_decimal_value_nonneg(s: Seq<char>)
    requires
        all_digits(s),
    ensures
        decimal_value(s) >= 0,
    decreases s.len(),
{
    if s.len() > 0 {
        assert(all_digits(s.drop_last()));
        lemma_decimal_value_nonneg(s.drop_last());
    }
}

/// Reading one more digit never shrinks the denoted number: the value of a
/// prefix is a lower bound on the value of any longer prefix.
pub proof fn lemma_decimal_value_prefix(s: Seq<char>, i: int, j: int)
    requires
        all_digits(s),
        0 <= i <= j <= s.len(),
    ensures
        decimal_value(s.subrange(0, i)) <= decimal_value(s.subrange(0, j)),
    decreases j - i,
{
    if i < j {
        lemma_decimal_value_prefix(s, i, j - 1);
        let shorter = s.subrange(0, j - 1);
        let longer = s.subrange(0, j);
        assert(longer.drop_last() =~= shorter);
        assert(all_digits(shorter));
        lemma_decimal_value_nonneg(shorter);
    }
}

/// Read a port value. Succeeds exactly on text of the shape an optional `'+'`
/// then one or more digits, denoting a number at most 65535; says which of the
/// two defects was found otherwise.
pub fn parse_port(s: &str) -> (r: Result<u16, PortError>)
    ensures
        r == spec_parse_port(s@),
{
    let n: usize = s.unicode_len();
    let start: usize = if n > 0 && s.get_char(0) == '+' {
        1
    } else {
        0
    };
    let ghost digits = digits_of(s@);
    proof {
        assert(digits =~= s@.subrange(start as int, n as int));
    }
    if n == start {
        return Err(PortError::Malformed);
    }
    let mut idx: usize = start;
    while idx < n
        invariant
            start <= idx <= n,
            n == s@.len(),
            digits == digits_of(s@),
            digits == s@.subrange(start as int, n as int),
            forall|k: int| start <= k < idx ==> is_digit(#[trigger] s@[k]),
        decreases n - idx,
    {
        let c = s.get_char(idx);
        let code = c as u32;
        if code < 48 || code > 57 {
            proof {
                assert(digits[idx - start] == s@[idx as int]);
                assert(!is_digit(digits[idx - start]));
                assert(!all_digits(digits));
                assert(!port_chars_valid(s@));
            }
            return Err(PortError::Malformed);
        }
        idx += 1;
    }
    proof {
        assert(forall|k: int| 0 <= k < digits.len() ==> digits[k] == s@[k + start]);
        assert(all_digits(digits));
    }
    let mut acc: u32 = 0;
    idx = start;
    while idx < n
        invariant
            start <= idx <= n,
            start < n,
            n == s@.len(),
            digits == digits_of(s@),
            digits == s@.subrange(start as int, n as int),
            all_digits(digits),
            acc <= 65535,
            acc == decimal_value(digits.subrange(0, idx - start)),
        decreases n - idx,
    {
        let c = s.get_char(idx);
        let code = c as u32;
        proof {
            assert(digits[idx - start] == s@[idx as int]);
            assert(is_digit(s@[idx as int]));
        }
        let d: u32 = code - 48;
        let next: u32 = acc * 10 + d;
        proof {
            let done = digits.subrange(0, idx - start);
            let more = digits.subrange(0, idx + 1 - start);
            assert(more.drop_last() =~= done);
            assert(more.last() == s@[idx as int]);
            assert(decimal_value(more) == decimal_value(done) * 10 + digit_value(s@[idx as int]));
            assert(decimal_value(more) == next);
        }
        if next > 65535 {
            proof {
                let more = digits.subrange(0, idx + 1 - start);
                lemma_decimal_value_prefix(digits, idx + 1 - start, digits.len() as int);
                assert(digits.subrange(0, digits.len() as int) =~= digits);
                assert(decimal_value(digits) >= decimal_value(more));
                assert(!port_in_range(s@));
                assert(port_chars_valid(s@));
            }
            return Err(PortError::TooLarge);
        }
        acc = next;
        idx += 1;
    }
    proof {
        assert(digits.subrange(0, n - start) =~= digits);
    }
    Ok(acc as u16)
}

/// Resolve one listener's port: the default when the environment supplied no
/// value, else whatever reading the supplied text yields.
pub fn resolve_port(value: Option<&str>, default: u16) -> (r: Result<u16, PortError>)
    ensures
        r == spec_resolve_port(opt_view(value), default),
{
    match value {
        None => Ok(default),
        Some(s) => parse_port(s),
    }
}

} // verus!
