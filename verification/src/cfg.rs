//! Validation of the configuration surface the processes consume: the
//! ticks-per-second value, bounded to a sane positive range, and turned
//! into the broadcast period.

use vstd::prelude::*;
use crate::SECOND;
use vstd::string::StringSliceAdditionalSpecFns;

verus! {

/// The largest ticks-per-second value the server accepts.
pub const TPS_MAX: u64 = 1024;

/// Why a ticks-per-second argument was rejected.
#[derive(Clone, Copy, Debug, Eq, PartialEq, Structural)]
pub enum TpsError {
    /// The argument is not a plain decimal number.
    NotANumber,
    /// The number is zero or above the accepted maximum.
    OutOfRange,
}

/// Whether a byte is an ASCII decimal digit.
pub open spec fn spec_is_digit(b: u8) -> bool {
    0x30 <= b <= 0x39
}

/// Whether every byte is an ASCII decimal digit.
pub open spec fn spec_all_digits(s: Seq<u8>) -> bool {
    forall|i: int| 0 <= i < s.len() ==> spec_is_digit(#[trigger] s[i])
}

/// The numeric value of a string of decimal digits.
pub open spec fn spec_digits_value(s: Seq<u8>) -> int
    decreases s.len(),
{
    if s.len() == 0 {
        0
    } else {
        spec_digits_value(s.drop_last()) * 10 + (s.last() as int - 0x30)
    }
}

/// Parse a ticks-per-second argument and return the duration of a single
/// tick, in nanoseconds. The argument is accepted exactly when it is a
/// non-empty string of decimal digits whose value lies between one and
/// the accepted maximum.
pub fn parse_tps(s: &str) -> (r: Result<u64, TpsError>)
    ensures
        match r {
            Ok(n) => s.spec_bytes().len() > 0 && spec_all_digits(s.spec_bytes()) && 1
                <= spec_digits_value(s.spec_bytes()) <= TPS_MAX && n == SECOND as int
                / spec_digits_value(s.spec_bytes()),
            Err(e) => match e {
                TpsError::NotANumber => !(s.spec_bytes().len() > 0 && spec_all_digits(
                    s.spec_bytes(),
                )),
                TpsError::OutOfRange => s.spec_bytes().len() > 0 && spec_all_digits(
                    s.spec_bytes(),
                ) && (spec_digits_value(s.spec_bytes()) == 0 || spec_digits_value(s.spec_bytes())
                    > TPS_MAX),
            },
        },
{
    let b = s.as_bytes();
    let n = b.len();
    if n == 0 {
        return Err(TpsError::NotANumber);
    }
    let mut i: usize = 0;
    let mut val: u64 = 0;
    while i < n
        invariant
            n == b@.len(),
            b@ == s.spec_bytes(),
            i <= n,
            spec_all_digits(b@.subrange(0, i as int)),
            val <= TPS_MAX + 1,
            spec_digits_value(b@.subrange(0, i as int)) <= TPS_MAX ==> val == spec_digits_value(
                b@.subrange(0, i as int),
            ),
            spec_digits_value(b@.subrange(0, i as int)) > TPS_MAX ==> val == TPS_MAX + 1,
        decreases n - i,
    {
        let c = *vstd::slice::slice_index_get(b, i);
        if c < 0x30 || c > 0x39 {
            return Err(TpsError::NotANumber);
        }
        let d = (c - 0x30) as u64;
        proof {
            assert(b@.subrange(0, i as int + 1).drop_last() =~= b@.subrange(0, i as int));
            assert(b@.subrange(0, i as int + 1).last() == b@[i as int]);
        }
        if val > TPS_MAX {
            val = TPS_MAX + 1;
        } else {
            let next = val * 10 + d;
            if next > TPS_MAX {
                val = TPS_MAX + 1;
            } else {
                val = next;
            }
        }
        i = i + 1;
    }
    proof {
        assert(b@.subrange(0, n as int) =~= b@);
    }
    if val == 0 {
        Err(TpsError::OutOfRange)
    } else if val > TPS_MAX {
        Err(TpsError::OutOfRange)
    } else {
        Ok(SECOND / val)
    }
}

} // verus!
