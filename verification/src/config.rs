//! Static configuration of the dispatcher process.

use vstd::prelude::*;
use vstd::string::StringSliceAdditionalSpecFns;

verus! {

/// Number of unacknowledged deliveries the broker may hold outstanding for
/// this consumer when no override is configured; it is also the cap on
/// concurrently running processing tasks.
pub const DEFAULT_PREFETCH: u16 = 10;

/// Immutable snapshot of the process configuration: broker URL and the log
/// sink's endpoint and credential. Loaded once at startup, never mutated.
#[derive(Debug, Clone)]
pub struct Config {
    pub rabbitmq_url: String,
    pub supabase_url: String,
    pub supabase_service_token: String,
}

/// An ASCII decimal digit, as a byte.
pub open spec fn is_digit_byte(b: u8) -> bool {
    48 <= b <= 57
}

/// Every byte of the sequence is an ASCII decimal digit.
pub open spec fn all_digit_bytes(s: Seq<u8>) -> bool {
    forall|i: int| 0 <= i < s.len() ==> is_digit_byte(#[trigger] s[i])
}

/// The number that a sequence of ASCII digits denotes in decimal.
pub open spec fn decimal_value(s: Seq<u8>) -> int
    decreases s.len(),
{
    if s.len() == 0 {
        0
    } else {
        decimal_value(s.drop_last()) * 10 + (s.last() - 48)
    }
}

/// What parsing a decimal `u16` from text yields: after an optional leading
/// plus sign there must be at least one digit, nothing but digits, and a
/// value that fits; anything else is rejected.
pub open spec fn spec_parse_u16(s: Seq<u8>) -> Option<u16> {
    let digits = if s.len() > 0 && s[0] == 43 {
        s.drop_first()
    } else {
        s
    };
    if digits.len() > 0 && all_digit_bytes(digits) && decimal_value(digits) <= 65535 {
        Some(decimal_value(digits) as u16)
    } else {
        None
    }
}

/// The decimal value of a sequence of digits is never negative.
proof fn lemma_decimal_value_nonneg(s: Seq<u8>)
    requires
        all_digit_bytes(s),
    ensures
        decimal_value(s) >= 0,
    decreases s.len(),
{
    if s.len() > 0 {
        assert(all_digit_bytes(s.drop_last())) by {
            assert(forall|i: int| 0 <= i < s.len() - 1 ==> s.drop_last()[i] == s[i]);
        }
        lemma_decimal_value_nonneg(s.drop_last());
    }
}

/// Reading more digits never shrinks the value: every prefix of a digit
/// sequence denotes at most what the whole sequence denotes.
proof fn lemma_decimal_prefix_le(s: Seq<u8>, k: int)
    requires
        all_digit_bytes(s),
        0 <= k <= s.len(),
    ensures
        decimal_value(s.take(k)) <= decimal_value(s),
    decreases s.len() - k,
{
    if k == s.len() {
        assert(s.take(k) =~= s);
    } else {
        assert(s.take(k + 1).drop_last() =~= s.take(k));
        assert(all_digit_bytes(s.take(k))) by {
            assert(forall|i: int| 0 <= i < k ==> s.take(k)[i] == s[i]);
        }
        lemma_decimal_value_nonneg(s.take(k));
        assert(decimal_value(s.take(k + 1)) == decimal_value(s.take(k)) * 10 + (s[k] - 48));
        lemma_decimal_prefix_le(s, k + 1);
    }
}

/// Parses a decimal `u16` from text: an optional leading plus sign, then
/// digits only, rejecting empty input, stray characters and values over
/// `u16::MAX`.
pub fn parse_u16(s: &str) -> (r: Option<u16>)
    ensures
        r == spec_parse_u16(s.spec_bytes()),
{
    let bytes = s.as_bytes();
    let start: usize = if bytes.len() > 0 && bytes[0] == 43 {
        1
    } else {
        0
    };
    let ghost digits = bytes@.subrange(start as int, bytes@.len() as int);
    proof {
        if bytes@.len() > 0 && bytes@[0] == 43 {
            assert(digits =~= bytes@.drop_first());
        } else {
            assert(digits =~= bytes@);
        }
    }
    if bytes.len() == start {
        return None;
    }
    let mut value: u32 = 0;
    let mut i: usize = start;
    while i < bytes.len()
        invariant
            bytes@ == s.spec_bytes(),
            start < bytes@.len(),
            start <= i <= bytes@.len(),
            start == 1 <==> bytes@.len() > 0 && bytes@[0] == 43,
            digits == bytes@.subrange(start as int, bytes@.len() as int),
            digits == (if bytes@.len() > 0 && bytes@[0] == 43 {
                bytes@.drop_first()
            } else {
                bytes@
            }),
            digits.len() == bytes@.len() - start,
            all_digit_bytes(digits.take(i - start)),
            value == decimal_value(digits.take(i - start)),
            value <= 65535,
        decreases bytes@.len() - i,
    {
        let b = bytes[i];
        proof {
            assert(digits[i - start] == bytes@[i as int]);
        }
        if b < 48 || b > 57 {
            proof {
                assert(!is_digit_byte(digits[i - start]));
                assert(!all_digit_bytes(digits));
            }
            return None;
        }
        let d = (b - 48) as u32;
        let next = value * 10 + d;
        proof {
            assert(digits.take(i + 1 - start).drop_last() =~= digits.take(i - start));
            assert(digits.take(i + 1 - start).last() == digits[i - start]);
            assert(decimal_value(digits.take(i + 1 - start)) == value * 10 + d);
            assert forall|j: int| 0 <= j < i + 1 - start implies is_digit_byte(
                #[trigger] digits.take(i + 1 - start)[j],
            ) by {
                assert(digits.take(i + 1 - start)[j] == digits.take(i - start + 1)[j]);
            }
        }
        if next > 65535 {
            proof {
                if all_digit_bytes(digits) {
                    lemma_decimal_prefix_le(digits, i + 1 - start);
                    assert(decimal_value(digits) >= next);
                }
            }
            return None;
        }
        value = next;
        i += 1;
    }
    proof {
        assert(digits.take(i - start) =~= digits);
    }
    Some(value as u16)
}

/// The prefetch limit actually applied: the configured override when one was
/// given, and `DEFAULT_PREFETCH` otherwise.
pub fn effective_prefetch(configured: Option<u16>) -> (n: u16)
    ensures
        n == match configured {
            Some(v) => v,
            None => DEFAULT_PREFETCH,
        },
{
    match configured {
        Some(v) => v,
        None => DEFAULT_PREFETCH,
    }
}

} // verus!
