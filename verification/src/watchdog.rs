//! The keep-alive schedule: the supervisor's timeout, given in microseconds
//! as decimal text, is parsed and halved into the notification interval in
//! milliseconds.  Reading the environment and sending the notifications are
//! a caller's business.

use vstd::prelude::*;

verus! {

/// Every byte is a decimal digit.
pub open spec fn all_digits(s: Seq<u8>) -> bool {
    forall|i: int| 0 <= i < s.len() ==> 48 <= #[trigger] s[i] <= 57
}

/// The number the decimal digits denote.
pub open spec fn dec_value(s: Seq<u8>) -> nat
    decreases s.len(),
{
    if s.len() == 0 {
        0
    } else {
        dec_value(s.drop_last()) * 10 + (s.last() - 48) as nat
    }
}

/// A longer digit string never denotes a smaller number.
proof fn lemma_dec_value_monotone(s: Seq<u8>, i: int, j: int)
    requires
        0 <= i <= j <= s.len(),
        all_digits(s),
    ensures
        dec_value(s.take(i)) <= dec_value(s.take(j)),
    decreases j - i,
{
    if i < j {
        lemma_dec_value_monotone(s, i, j - 1);
        assert(s.take(j).drop_last() =~= s.take(j - 1));
        assert(s.take(j).last() == s[j - 1]);
    }
}

/// Parses unsigned decimal text: the value, when the text is non-empty, all
/// digits, and the value fits; nothing otherwise.
pub fn parse_decimal_u64(s: &[u8]) -> (r: Option<u64>)
    ensures
        r == (if s@.len() > 0 && all_digits(s@) && dec_value(s@) <= u64::MAX {
            Some(dec_value(s@) as u64)
        } else {
            None::<u64>
        }),
{
    let n: usize = s.len();
    if n == 0 {
        return None;
    }
    let mut value: u64 = 0;
    let mut i: usize = 0;
    while i < n
        invariant
            i <= n,
            n == s@.len(),
            all_digits(s@.take(i as int)),
            value == dec_value(s@.take(i as int)),
        decreases n - i,
    {
        let b = s[i];
        if b < 48 || b > 57 {
            proof {
                assert(!all_digits(s@));
            }
            return None;
        }
        let d: u64 = (b - 48) as u64;
        let shifted = match value.checked_mul(10) {
            Some(v) => v,
            None => {
                proof {
                    overflow_witness(s@, i as int);
                }
                return None;
            },
        };
        let next = match shifted.checked_add(d) {
            Some(v) => v,
            None => {
                proof {
                    overflow_witness(s@, i as int);
                }
                return None;
            },
        };
        proof {
            assert(s@.take(i + 1).drop_last() =~= s@.take(i as int));
            assert(s@.take(i + 1).last() == s@[i as int]);
        }
        value = next;
        i = i + 1;
    }
    proof {
        assert(s@.take(n as int) =~= s@);
    }
    Some(value)
}

/// When the digits read so far already overflow, the whole string overflows.
proof fn overflow_witness(s: Seq<u8>, i: int)
    requires
        0 <= i < s.len(),
        all_digits(s.take(i)),
        48 <= s[i] <= 57,
        dec_value(s.take(i)) * 10 + (s[i] - 48) > u64::MAX,
    ensures
        !(all_digits(s) && dec_value(s) <= u64::MAX),
{
    if all_digits(s) {
        assert(s.take(i + 1).drop_last() =~= s.take(i));
        assert(s.take(i + 1).last() == s[i]);
        assert(dec_value(s.take(i + 1)) > u64::MAX);
        lemma_dec_value_monotone(s, i + 1, s.len() as int);
        assert(s.take(s.len() as int) =~= s);
    }
}

/// The keep-alive interval, in milliseconds, for a supervisor timeout given
/// in microseconds: half the timeout.
pub fn watchdog_interval_ms(usec: u64) -> (r: u64)
    ensures
        r == usec / 1000 / 2,
{
    usec / 1000 / 2
}

/// The whole schedule decision: the notification interval for the
/// timeout-in-microseconds text the environment supplied, or nothing when
/// the text does not denote a number that fits.
pub fn watchdog_interval_from(value: &[u8]) -> (r: Option<u64>)
    ensures
        r == (if value@.len() > 0 && all_digits(value@) && dec_value(value@) <= u64::MAX {
            Some((dec_value(value@) as u64) / 1000 / 2)
        } else {
            None::<u64>
        }),
{
    match parse_decimal_u64(value) {
        Some(usec) => Some(watchdog_interval_ms(usec)),
        None => None,
    }
}

} // verus!
