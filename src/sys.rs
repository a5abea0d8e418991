use vstd::arithmetic::power2::{
    lemma2_to64, lemma2_to64_rest, lemma_pow2_strictly_increases, lemma_pow2_unfold, pow2,
};
use vstd::prelude::*;

verus! {

/// Why a system query or command failed.
#[derive(Clone, Copy, Debug, PartialEq, Eq, Structural)]
pub enum SysError {
    /// The call reported failure; the reason is in the thread's last OS error.
    CallFailed,
    /// The call succeeded but returned a value that does not fit the result type.
    OutOfRange,
}

/// Nanoseconds per second.
pub const NANOS_PER_SEC: u64 = 1_000_000_000;

/// The value of a `timespec` in nanoseconds, when it is well formed and fits in a `u64`.
pub open spec fn timespec_ns(tv_sec: i64, tv_nsec: i64) -> Option<u64> {
    let total = tv_sec * NANOS_PER_SEC + tv_nsec;
    if 0 <= tv_sec && 0 <= tv_nsec < NANOS_PER_SEC && total <= u64::MAX {
        Some(total as u64)
    } else {
        None
    }
}

/// Nanoseconds since boot from the outcome of a monotonic clock read: the
/// call's return code `rc` (zero on success) and the `timespec` it filled in.
pub fn boot_ns_from_timespec(rc: i32, tv_sec: i64, tv_nsec: i64) -> (r: Result<u64, SysError>)
    ensures
        rc != 0 ==> r == Err::<u64, SysError>(SysError::CallFailed),
        rc == 0 ==> r == match timespec_ns(tv_sec, tv_nsec) {
            Some(ns) => Ok::<u64, SysError>(ns),
            None => Err(SysError::OutOfRange),
        },
{
    if rc != 0 {
        return Err(SysError::CallFailed);
    }
    if tv_sec < 0 || tv_nsec < 0 || tv_nsec >= NANOS_PER_SEC as i64 {
        return Err(SysError::OutOfRange);
    }
    let nsec = tv_nsec as u64;
    if tv_sec as u64 > (u64::MAX - nsec) / NANOS_PER_SEC {
        return Err(SysError::OutOfRange);
    }
    proof {
        let q: int = tv_sec as int;
        let m: int = u64::MAX - nsec;
        assert(q * 1_000_000_000 <= m) by (nonlinear_arith)
            requires
                q <= m / 1_000_000_000,
        ;
    }
    Ok(tv_sec as u64 * NANOS_PER_SEC + nsec)
}

/// A system configuration value as reported by `sysconf`, where `-1` means failure.
pub fn sysconf_result(v: i64) -> (r: Result<i64, SysError>)
    ensures
        v == -1 ==> r == Err::<i64, SysError>(SysError::CallFailed),
        v != -1 ==> r == Ok::<i64, SysError>(v),
{
    if v == -1 {
        Err(SysError::CallFailed)
    } else {
        Ok(v)
    }
}

/// The outcome of sending a signal, from the call's return code (`-1` on failure).
pub fn kill_result(rc: i32) -> (r: Result<(), SysError>)
    ensures
        r == if rc == -1 {
            Err::<(), SysError>(SysError::CallFailed)
        } else {
            Ok(())
        },
{
    if rc == -1 {
        Err(SysError::CallFailed)
    } else {
        Ok(())
    }
}

/// A process resource limit: the enforced `soft` cap and the `hard` ceiling.
#[derive(Clone, Copy, Debug, PartialEq, Eq, Structural)]
pub struct ResourceLimit {
    pub soft: u64,
    pub hard: u64,
}

/// The limit read by `getrlimit`, from the call's return code (zero on
/// success) and the `rlim_cur` / `rlim_max` pair it filled in.
pub fn getrlimit_result(rc: i32, rlim_cur: u64, rlim_max: u64) -> (r: Result<
    ResourceLimit,
    SysError,
>)
    ensures
        r == if rc == 0 {
            Ok::<ResourceLimit, SysError>(ResourceLimit { soft: rlim_cur, hard: rlim_max })
        } else {
            Err(SysError::CallFailed)
        },
{
    if rc != 0 {
        Err(SysError::CallFailed)
    } else {
        Ok(ResourceLimit { soft: rlim_cur, hard: rlim_max })
    }
}

/// The outcome of `setrlimit`, from the call's return code (zero on success).
pub fn setrlimit_result(rc: i32) -> (r: Result<(), SysError>)
    ensures
        r == if rc == 0 {
            Ok::<(), SysError>(())
        } else {
            Err(SysError::CallFailed)
        },
{
    if rc != 0 {
        Err(SysError::CallFailed)
    } else {
        Ok(())
    }
}

/// True when `n` is a power of two.
pub open spec fn is_power_of_two(n: int) -> bool {
    exists|k: nat| pow2(k) == n
}

/// Number of address bits below the page boundary for a page of `page_size` bytes:
/// the smallest `n` with `2^n >= page_size`, found by doubling from `n = 0`.
pub fn page_shift(page_size: i64) -> (r: u64)
    ensures
        pow2(r as nat) >= page_size,
        r == 0 || pow2((r - 1) as nat) < page_size,
        r <= 63,
        is_power_of_two(page_size as int) ==> pow2(r as nat) == page_size,
{
    let target: u64 = if page_size < 0 {
        0
    } else {
        page_size as u64
    };
    let mut shift: u64 = 0;
    let mut size: u64 = 1;
    proof {
        lemma2_to64();
        lemma2_to64_rest();
    }
    while size < target
        invariant
            size == pow2(shift as nat),
            size >= 1,
            shift <= 63,
            target <= i64::MAX,
            shift == 0 || pow2((shift - 1) as nat) < target,
            pow2(63) == 0x8000000000000000,
        decreases 64 - shift,
    {
        if shift >= 63 {
            proof {
                if shift > 63 {
                    lemma_pow2_strictly_increases(63, shift as nat);
                }
            }
            assert(false);
        }
        proof {
            lemma_pow2_unfold((shift + 1) as nat);
        }
        size = size * 2;
        shift = shift + 1;
    }
    proof {
        if is_power_of_two(page_size as int) {
            let k = choose|k: nat| pow2(k) == page_size;
            if k > shift {
                lemma_pow2_strictly_increases(shift as nat, k);
            }
            if k < shift {
                lemma_pow2_strictly_increases(k, (shift - 1) as nat);
            }
        }
    }
    shift
}

} // verus!
