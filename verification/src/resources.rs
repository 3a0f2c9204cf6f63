//! Resource limits given on the command line: memory in megabytes and CPU
//! time limits, as C's unsigned `rlim_t` sees them.
use vstd::prelude::*;
use crate::diag::{Diagnostic, ErrorCode, diag};

verus! {

/// Bytes in a megabyte.
pub const MEGA: u64 = 1048576;

/// Four fifths of a non-negative amount, rounded down.
pub open spec fn four_fifths(x: int) -> int {
    x / 10 * 8 + (x % 10) * 8 / 10
}

/// The memory limit in bytes for a limit given in megabytes (as C computes
/// it: the value taken as unsigned and multiplied modulo 2^64).
pub open spec fn limit_bytes(mb: i64) -> u64 {
    (mb as u64).wrapping_mul(MEGA)
}

/// The message for a time limit pair in the wrong order.
pub open spec fn limit_order_error(hard_changed: bool) -> Seq<char> {
    if hard_changed {
        "Hard time limit has to be larger than softtime limit"@
    } else {
        "Soft time limit has to be smaller than hardtime limit"@
    }
}

/// Whether a hard limit lies above a soft one, both taken as C's unsigned
/// `rlim_t`.
pub open spec fn limits_ordered(hard: i64, soft: i64) -> bool {
    (hard as u64) > (soft as u64)
}

/// A hard time limit must lie strictly above the soft one: equal limits are
/// refused, and of two different limits at most one order is accepted.
pub proof fn lemma_limit_order_strict(a: i64, b: i64)
    ensures
        !limits_ordered(a, a),
        limits_ordered(a, b) ==> !limits_ordered(b, a),
{
}

/// Whether two time limits are in order; a usage error where not.
pub fn check_hard_soft_limits(hard: i64, soft: i64, hard_changed: bool) -> (r: Result<(), Diagnostic>)
    ensures
        limits_ordered(hard, soft) ==> r is Ok,
        !limits_ordered(hard, soft) ==> (r matches Err(d) && d.code == ErrorCode::Usage && d.message@
            == limit_order_error(hard_changed)),
{
    if (hard as u64) > (soft as u64) {
        Ok(())
    } else if hard_changed {
        Err(diag(ErrorCode::Usage, "Hard time limit has to be larger than softtime limit"))
    } else {
        Err(diag(ErrorCode::Usage, "Soft time limit has to be smaller than hardtime limit"))
    }
}

/// Four fifths of a non-negative amount, rounded down.
pub fn auto_memory_mb(x: i64) -> (r: i64)
    requires
        x >= 0,
    ensures
        r == four_fifths(x as int),
{
    x / 10 * 8 + (x % 10) * 8 / 10
}

} // verus!
