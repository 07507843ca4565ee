//! Time limits and the deadline representation of the readiness wait.

use vstd::prelude::*;

verus! {

/// Nanoseconds in one microsecond.
pub const NANOS_PER_MICRO: u32 = 1_000;

/// Microseconds in one second.
pub const MICROS_PER_SEC: u64 = 1_000_000;

/// Nanoseconds in one second.
pub const NANOS_PER_SEC: u32 = 1_000_000_000;

/// The largest fractional part of a deadline, in microseconds.
pub const MAX_USEC: i64 = 999_999;

/// How long a connection attempt may wait: `secs` whole seconds and
/// `subsec_nanos` nanoseconds on top of them. Zero is a legal limit and asks
/// for a readiness check that does not wait at all.
#[derive(Clone, Copy, Debug, PartialEq, Eq, Structural)]
pub struct Timeout {
    pub secs: u64,
    pub subsec_nanos: u32,
}

/// A deadline in the form the readiness wait takes it: whole seconds and the
/// microseconds on top of them.
#[derive(Clone, Copy, Debug, PartialEq, Eq, Structural)]
pub struct TimeVal {
    pub tv_sec: i64,
    pub tv_usec: i64,
}

impl TimeVal {
    /// The deadline does not lie in the past and its fractional part is less
    /// than one second.
    pub open spec fn is_normal(self) -> bool {
        0 <= self.tv_sec && 0 <= self.tv_usec < MICROS_PER_SEC
    }

    /// The length of the wait in microseconds.
    pub open spec fn micros(self) -> int {
        self.tv_sec * MICROS_PER_SEC + self.tv_usec
    }
}

impl Timeout {
    /// The limit in nanoseconds.
    pub open spec fn nanos(self) -> nat {
        (self.secs * NANOS_PER_SEC + self.subsec_nanos) as nat
    }

    /// The limit in whole microseconds, rounded down.
    pub open spec fn micros(self) -> nat {
        self.nanos() / (NANOS_PER_MICRO as nat)
    }

    /// The limit as a deadline: its whole microseconds split into seconds and
    /// the rest, or the longest deadline there is where the seconds would not
    /// fit.
    pub open spec fn spec_deadline(&self) -> TimeVal {
        let micros = self.micros();
        if micros / (MICROS_PER_SEC as nat) <= i64::MAX {
            TimeVal {
                tv_sec: (micros / (MICROS_PER_SEC as nat)) as i64,
                tv_usec: (micros % (MICROS_PER_SEC as nat)) as i64,
            }
        } else {
            TimeVal { tv_sec: i64::MAX, tv_usec: MAX_USEC }
        }
    }

    /// A limit of `secs` seconds and `subsec_nanos` nanoseconds.
    pub fn new(secs: u64, subsec_nanos: u32) -> (timeout: Timeout)
        ensures
            timeout == (Timeout { secs, subsec_nanos }),
    {
        Timeout { secs, subsec_nanos }
    }

    /// The deadline handed to the readiness wait.
    #[verifier::when_used_as_spec(spec_deadline)]
    pub fn deadline(&self) -> (deadline: TimeVal)
        ensures
            deadline == self.spec_deadline(),
    {
        let carry: u64 = (self.subsec_nanos / NANOS_PER_SEC) as u64;
        let rest: u32 = self.subsec_nanos % NANOS_PER_SEC;
        let usec: i64 = (rest / NANOS_PER_MICRO) as i64;
        proof {
            lemma_split_micros(self.secs as nat, self.subsec_nanos as nat);
        }
        if self.secs <= (i64::MAX as u64) - carry {
            TimeVal { tv_sec: (self.secs + carry) as i64, tv_usec: usec }
        } else {
            TimeVal { tv_sec: i64::MAX, tv_usec: MAX_USEC }
        }
    }
}

/// A deadline never outlasts its timeout. It falls short of it by less than
/// a microsecond, unless the timeout is longer than any deadline can be, and
/// the deadline of the zero timeout is zero.
pub proof fn lemma_deadline_within_timeout(timeout: Timeout)
    ensures
        timeout.spec_deadline().is_normal(),
        timeout.spec_deadline().micros() <= timeout.micros(),
        timeout.micros() / 1_000_000 <= i64::MAX ==> timeout.spec_deadline().micros()
            == timeout.micros(),
        timeout.nanos() == 0 ==> timeout.spec_deadline() == (TimeVal { tv_sec: 0, tv_usec: 0 }),
{
    let micros = timeout.micros();
    assert(micros == (micros / 1_000_000) * 1_000_000 + micros % 1_000_000);
}

/// Splitting `secs` seconds and `nanos` nanoseconds into whole seconds and
/// microseconds: the nanoseconds carry their whole seconds over, and what is
/// left of them gives the microseconds.
proof fn lemma_split_micros(secs: nat, nanos: nat)
    ensures
        ((secs * 1_000_000_000 + nanos) / 1_000) / 1_000_000 == secs + nanos / 1_000_000_000,
        ((secs * 1_000_000_000 + nanos) / 1_000) % 1_000_000 == (nanos % 1_000_000_000) / 1_000,
{
    let total = secs * 1_000_000_000 + nanos;
    let whole = secs + nanos / 1_000_000_000;
    let rest = nanos % 1_000_000_000;
    assert(total == whole * 1_000_000_000 + rest) by (nonlinear_arith)
        requires
            total == secs * 1_000_000_000 + nanos,
            whole == secs + nanos / 1_000_000_000,
            rest == nanos % 1_000_000_000,
    ;
    let usec = rest / 1_000;
    assert(total / 1_000 == whole * 1_000_000 + usec) by (nonlinear_arith)
        requires
            total == whole * 1_000_000_000 + rest,
            usec == rest / 1_000,
            0 <= rest,
    ;
    assert(0 <= usec < 1_000_000);
    assert((whole * 1_000_000 + usec) / 1_000_000 == whole && (whole * 1_000_000 + usec)
        % 1_000_000 == usec) by (nonlinear_arith)
        requires
            0 <= usec < 1_000_000,
            0 <= whole,
    ;
}

} // verus!
