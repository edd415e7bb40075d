//! The type coercion layer: dynamically tagged numbers and their
//! conversion to the fixed widths the widget constructors take.
//!
//! Narrowing truncates deliberately — callers accept lossy conversion —
//! and a value whose tag is not numeric is reported as a recoverable
//! coercion error rather than ending the process.

use vstd::arithmetic::div_mod::{lemma_fundamental_div_mod, lemma_mod_multiples_vanish, lemma_small_mod};
use vstd::prelude::*;

use crate::value::{describe, describe_spec, DynValue};

verus! {

/// A dynamically tagged number: the numeric kinds the scripting
/// runtime can hand across the bridge.
#[derive(Clone, Copy, Debug, PartialEq, Eq)]
pub enum Num {
    U8(u8),
    U16(u16),
    U32(u32),
    U64(u64),
    I32(i32),
    I64(i64),
}

impl Num {
    /// The mathematical value under the tag.
    pub open spec fn as_int(self) -> int {
        match self {
            Num::U8(x) => x as int,
            Num::U16(x) => x as int,
            Num::U32(x) => x as int,
            Num::U64(x) => x as int,
            Num::I32(x) => x as int,
            Num::I64(x) => x as int,
        }
    }

    /// Splits the value into a sign and a magnitude that fits in 64 bits.
    fn split(self) -> (p: (bool, u64))
        ensures
            self.as_int() == if p.0 {
                -(p.1 as int)
            } else {
                p.1 as int
            },
    {
        match self {
            Num::U8(x) => (false, x as u64),
            Num::U16(x) => (false, x as u64),
            Num::U32(x) => (false, x as u64),
            Num::U64(x) => (false, x),
            Num::I32(x) => {
                if x >= 0 {
                    (false, x as u64)
                } else {
                    (true, ((-(x + 1)) as u64) + 1)
                }
            },
            Num::I64(x) => {
                if x >= 0 {
                    (false, x as u64)
                } else {
                    (true, ((-(x + 1)) as u64) + 1)
                }
            },
        }
    }

    /// The value reduced modulo `m`, as mathematics has it: the result
    /// lies in `[0, m)` whatever the sign of the value.
    fn reduce_mod(self, m: u64) -> (r: u64)
        requires
            0 < m,
        ensures
            r as int == self.as_int() % (m as int),
    {
        let (neg, mag) = self.split();
        let rm: u64 = mag % m;
        if !neg {
            rm
        } else {
            proof {
                lemma_neg_mod(mag as int, m as int);
            }
            if rm == 0 {
                0
            } else {
                m - rm
            }
        }
    }
}

/// The remainder of a negated non-negative value: `(-a) % m` is zero
/// when `m` divides `a`, and `m - a % m` otherwise.
proof fn lemma_neg_mod(a: int, m: int)
    requires
        0 <= a,
        0 < m,
    ensures
        (-a) % m == if a % m == 0 {
            0int
        } else {
            m - (a % m)
        },
{
    let q = a / m;
    let r = a % m;
    lemma_fundamental_div_mod(a, m);
    if r == 0 {
        assert(m * (-q) == -(m * q)) by (nonlinear_arith);
        assert(-a == m * (-q) + 0);
        lemma_mod_multiples_vanish(-q, 0, m);
        lemma_small_mod(0nat, m as nat);
    } else {
        assert(m * (-q - 1) == -(m * q) - m) by (nonlinear_arith);
        assert(-a == m * (-q - 1) + (m - r));
        lemma_mod_multiples_vanish(-q - 1, m - r, m);
        lemma_small_mod((m - r) as nat, m as nat);
    }
}

/// Why a coercion was refused: the value's tag was not a recognized
/// numeric tag.  Carries the offending value's description so the
/// failure can be surfaced as a visible evaluation error.
#[derive(Debug, PartialEq)]
pub struct CoerceError {
    pub found: String,
}

/// Coerces a dynamically tagged value to 8 unsigned bits.  Every
/// recognized numeric tag converts, truncating to the low byte;
/// any other tag is refused with a description of the value.
pub fn to_u8(v: &DynValue) -> (r: Result<u8, CoerceError>)
    ensures
        match r {
            Ok(b) => v matches DynValue::Num(n) && b as int == n.as_int() % 256,
            Err(e) => !(v matches DynValue::Num(_)) && e.found@ == describe_spec(*v),
        },
{
    match v {
        DynValue::Num(n) => Ok(n.reduce_mod(256) as u8),
        _ => Err(CoerceError { found: describe(v) }),
    }
}

/// Coerces a dynamically tagged value to 16 unsigned bits, truncating
/// to the low two bytes; a non-numeric tag is refused.
pub fn to_u16(v: &DynValue) -> (r: Result<u16, CoerceError>)
    ensures
        match r {
            Ok(b) => v matches DynValue::Num(n) && b as int == n.as_int() % 65536,
            Err(e) => !(v matches DynValue::Num(_)) && e.found@ == describe_spec(*v),
        },
{
    match v {
        DynValue::Num(n) => Ok(n.reduce_mod(65536) as u16),
        _ => Err(CoerceError { found: describe(v) }),
    }
}

} // verus!
