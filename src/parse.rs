use vstd::prelude::*;
use vstd::std_specs::iter::IteratorSpec;

verus! {

/// Why a text is not an unsigned 32-bit decimal integer.
#[derive(Debug, Clone, Copy, PartialEq, Eq, Structural)]
pub enum ParseFailure {
    /// The text is empty.
    Empty,
    /// The text holds a character other than `0` to `9`.
    InvalidDigit,
    /// The digits name a number above `u32::MAX`.
    PosOverflow,
}

pub open spec fn is_digit(c: char) -> bool {
    '0' <= c && c <= '9'
}

pub open spec fn digit_value(c: char) -> int {
    c as int - '0' as int
}

pub open spec fn all_digits(s: Seq<char>) -> bool {
    forall|i: int| 0 <= i < s.len() ==> is_digit(#[trigger] s[i])
}

/// The number that a string of decimal digits names, most significant first.
pub open spec fn decimal_value(s: Seq<char>) -> int
    decreases s.len(),
{
    if s.len() == 0 {
        0
    } else {
        decimal_value(s.drop_last()) * 10 + digit_value(s.last())
    }
}

/// What reading `s` as an unsigned 32-bit decimal integer gives: digits only,
/// with no sign, prefix or surrounding space.
pub open spec fn parse_u32_spec(s: Seq<char>) -> Result<u32, ParseFailure> {
    if s.len() == 0 {
        Err(ParseFailure::Empty)
    } else if !all_digits(s) {
        Err(ParseFailure::InvalidDigit)
    } else if decimal_value(s) > u32::MAX {
        Err(ParseFailure::PosOverflow)
    } else {
        Ok(decimal_value(s) as u32)
    }
}

proof fn lemma_decimal_value_nonneg(s: Seq<char>)
    requires
        all_digits(s),
    ensures
        decimal_value(s) >= 0,
    decreases s.len(),
{
    if s.len() > 0 {
        assert(all_digits(s.drop_last()));
        lemma_decimal_value_nonneg(s.drop_last());
    }
}

proof fn lemma_decimal_value_push(s: Seq<char>, n: int)
    requires
        0 <= n < s.len(),
    ensures
        decimal_value(s.take(n + 1)) == decimal_value(s.take(n)) * 10 + digit_value(s[n]),
{
    assert(s.take(n + 1).drop_last() =~= s.take(n));
}

/// Reads `s` as an unsigned 32-bit decimal integer.
pub fn parse_u32(s: &str) -> (r: Result<u32, ParseFailure>)
    ensures
        r == parse_u32_spec(s@),
{
    broadcast use vstd::string::axiom_spec_iter, vstd::string::next_postcondition;

    let ghost text = s@;
    let mut chars = s.chars();
    let mut acc: u32 = 0;
    let mut overflow = false;
    let ghost mut n: int = 0;
    let mut any = false;
    loop
        invariant
            text == s@,
            0 <= n <= text.len(),
            any == (n > 0),
            chars.remaining() == text.skip(n),
            all_digits(text.take(n)),
            !overflow ==> acc as int == decimal_value(text.take(n)),
            overflow ==> decimal_value(text.take(n)) > u32::MAX,
        ensures
            n == text.len(),
            all_digits(text),
            !overflow ==> acc as int == decimal_value(text),
            overflow ==> decimal_value(text) > u32::MAX,
        decreases text.len() - n,
    {
        let c = chars.next();
        match c {
            None => {
                assert(text.take(n) =~= text);
                break;
            },
            Some(ch) => {
                proof {
                    lemma_decimal_value_push(text, n);
                }
                if ch < '0' || ch > '9' {
                    assert(!is_digit(text[n]));
                    return Err(ParseFailure::InvalidDigit);
                }
                let d: u32 = (ch as u32) - ('0' as u32);
                proof {
                    assert forall|i: int| 0 <= i < n + 1 implies is_digit(
                        #[trigger] text.take(n + 1)[i],
                    ) by {
                        if i < n {
                            assert(text.take(n + 1)[i] == text.take(n)[i]);
                        }
                    }
                    lemma_decimal_value_nonneg(text.take(n));
                }
                if !overflow {
                    if acc > 429496729 || (acc == 429496729 && d > 5) {
                        overflow = true;
                    } else {
                        acc = acc * 10 + d;
                    }
                } else {
                    assert(decimal_value(text.take(n + 1)) > u32::MAX) by (nonlinear_arith)
                        requires
                            decimal_value(text.take(n)) > u32::MAX,
                            decimal_value(text.take(n + 1)) == decimal_value(text.take(n))
                                * 10 + d,
                    ;
                }
                any = true;
                proof {
                    n = n + 1;
                }
            },
        }
    }
    if !any {
        Err(ParseFailure::Empty)
    } else if overflow {
        Err(ParseFailure::PosOverflow)
    } else {
        Ok(acc)
    }
}

} // verus!
