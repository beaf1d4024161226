//! CPU/GPU timing of one blur invocation.
//!
//! The CPU side is sampled from the process CPU clock.  The GPU side comes
//! from an elapsed-time query object owned by the host: after issuing the
//! query end, the host repeatedly reports the query's availability word to
//! [`GpuTimer::poll`], and may read back and record the 64-bit nanosecond
//! result only once a poll has accepted a non-zero availability report.

use vstd::prelude::*;

verus! {

/// Where the timer stands in the measurement protocol.
#[derive(Clone, Copy, PartialEq, Eq, Structural, Debug)]
pub enum TimerPhase {
    /// Not measuring; the stored times are the last completed measurement.
    Idle,
    /// Between `start` and `stop_cpu`.
    Running,
    /// CPU time recorded; the GPU query result is not yet known available.
    WaitingGpu,
    /// The GPU reported its query result available; it may be recorded.
    GpuReady,
}

/// Relies on cpu_time::ProcessTime::try_now (and its as_duration getter):
/// the CPU time this process has used since it started, in nanoseconds,
/// or None when the process CPU clock is unavailable.
#[verifier::external_body]
fn cpu_now_nanos() -> Option<u128> {
    match cpu_time::ProcessTime::try_now() {
        Ok(t) => Some(t.as_duration().as_nanos()),
        Err(_) => None,
    }
}

/// Nanoseconds rounded to the nearest microsecond, ties rounding up.
pub open spec fn spec_round_to_micros(ns: int) -> int {
    ns / 1000 + if ns % 1000 >= 500 {
        1int
    } else {
        0int
    }
}

/// Wall-clock CPU time and GPU elapsed time of one blur invocation.
pub struct GpuTimer {
    phase: TimerPhase,
    start_ns: u128,
    time_cpu_ns: u128,
    time_gpu_ns: u64,
}

impl GpuTimer {
    pub closed spec fn spec_phase(&self) -> TimerPhase {
        self.phase
    }

    pub closed spec fn spec_cpu_ns(&self) -> u128 {
        self.time_cpu_ns
    }

    pub closed spec fn spec_gpu_ns(&self) -> u64 {
        self.time_gpu_ns
    }

    pub fn new() -> (r: Self)
        ensures
            r.spec_phase() == TimerPhase::Idle,
            r.spec_cpu_ns() == 0,
            r.spec_gpu_ns() == 0,
    {
        Self { phase: TimerPhase::Idle, start_ns: 0, time_cpu_ns: 0, time_gpu_ns: 0 }
    }

    /// Where the timer stands in the measurement protocol.
    pub fn phase(&self) -> (r: TimerPhase)
        ensures
            r == self.spec_phase(),
    {
        self.phase
    }

    /// Sample the CPU clock at the start of a measurement.  Returns false,
    /// leaving the timer unchanged, when the process CPU clock is
    /// unavailable; measuring cannot proceed then.
    pub fn start(&mut self) -> (ok: bool)
        requires
            old(self).spec_phase() == TimerPhase::Idle,
        ensures
            ok ==> final(self).spec_phase() == TimerPhase::Running,
            ok ==> final(self).spec_cpu_ns() == old(self).spec_cpu_ns(),
            ok ==> final(self).spec_gpu_ns() == old(self).spec_gpu_ns(),
            !ok ==> *final(self) == *old(self),
    {
        match cpu_now_nanos() {
            Some(now) => {
                self.start_ns = now;
                self.phase = TimerPhase::Running;
                true
            },
            None => false,
        }
    }

    /// Sample the CPU clock again and record the elapsed CPU time of the
    /// measurement.  Returns false, leaving the timer unchanged, when the
    /// clock is unavailable.
    pub fn stop_cpu(&mut self) -> (ok: bool)
        requires
            old(self).spec_phase() == TimerPhase::Running,
        ensures
            ok ==> final(self).spec_phase() == TimerPhase::WaitingGpu,
            ok ==> final(self).spec_gpu_ns() == old(self).spec_gpu_ns(),
            !ok ==> *final(self) == *old(self),
    {
        match cpu_now_nanos() {
            Some(now) => {
                self.time_cpu_ns = if now >= self.start_ns {
                    now - self.start_ns
                } else {
                    0
                };
                self.phase = TimerPhase::WaitingGpu;
                true
            },
            None => false,
        }
    }

    /// Decide on one availability report of the GPU query object: keep
    /// waiting while the report is zero, accept the result otherwise.  The
    /// timer leaves the waiting state exactly on a non-zero report, so a
    /// query result can never be recorded before the GPU says it is
    /// available.
    pub fn poll(&mut self, avail: i32) -> (ready: bool)
        requires
            old(self).spec_phase() == TimerPhase::WaitingGpu,
        ensures
            ready <==> avail != 0,
            ready ==> final(self).spec_phase() == TimerPhase::GpuReady,
            ready ==> final(self).spec_cpu_ns() == old(self).spec_cpu_ns(),
            ready ==> final(self).spec_gpu_ns() == old(self).spec_gpu_ns(),
            !ready ==> *final(self) == *old(self),
    {
        if avail != 0 {
            self.phase = TimerPhase::GpuReady;
            true
        } else {
            false
        }
    }

    /// Record the GPU query's nanosecond result and finish the measurement.
    pub fn record_gpu(&mut self, gpu_ns: u64)
        requires
            old(self).spec_phase() == TimerPhase::GpuReady,
        ensures
            final(self).spec_phase() == TimerPhase::Idle,
            final(self).spec_gpu_ns() == gpu_ns,
            final(self).spec_cpu_ns() == old(self).spec_cpu_ns(),
    {
        self.time_gpu_ns = gpu_ns;
        self.phase = TimerPhase::Idle;
    }

    /// The last CPU measurement, rounded to the nearest microsecond.
    pub fn cpu_micros(&self) -> (r: u128)
        ensures
            r == spec_round_to_micros(self.spec_cpu_ns() as int),
    {
        let ns = self.time_cpu_ns;
        if ns % 1000 >= 500 {
            ns / 1000 + 1
        } else {
            ns / 1000
        }
    }

    /// The last GPU measurement, rounded to the nearest microsecond.
    pub fn gpu_micros(&self) -> (r: u64)
        ensures
            r == spec_round_to_micros(self.spec_gpu_ns() as int),
    {
        let ns = self.time_gpu_ns;
        if ns % 1000 >= 500 {
            ns / 1000 + 1
        } else {
            ns / 1000
        }
    }
}

} // verus!
