//! Environment stability before a run: power source, battery saver, and a
//! wait for the CPU to become idle. The probes are the caller's; the
//! decisions are here.
use vstd::prelude::*;
use crate::codes::{ErrorCode, code_text};

verus! {

/// Consecutive idle one-second samples the CPU gate needs.
pub const ENV_CPU_SAMPLES: u32 = 5;
/// Longest wait of the CPU gate, in seconds (one sample per second).
pub const ENV_CPU_MAX_WAIT_SECS: u64 = 60;
/// Milliseconds between two CPU samples.
pub const CPU_SAMPLE_INTERVAL_MS: u64 = 1000;

/// Whether `SYSTEM_POWER_STATUS.BatteryFlag` indicates a battery: bit 7 means
/// "no system battery", except that 255 means "unknown", which keeps the AC
/// gate (treated as present).
pub fn battery_flag_indicates_present(flag: u8) -> (r: bool)
    ensures
        r == (flag == 255 || flag < 128),
{
    let r = flag == u8::MAX || flag & 0x80 == 0;
    assert((flag & 0x80 == 0) == (flag < 128)) by (bit_vector);
    r
}

/// The power gate: with a battery the machine must be on AC power, and
/// battery saver must be off; otherwise `BENCHMARK_ENV_UNSTABLE`.
pub fn environment_gate(battery_present: bool, on_ac_power: bool, battery_saver_on: bool) -> (r: Result<(), ErrorCode>)
    ensures
        r is Ok <==> (!(battery_present && !on_ac_power) && !battery_saver_on),
        r is Err ==> r == Err::<(), ErrorCode>(ErrorCode::BenchmarkEnvUnstable),
{
    if battery_present && !on_ac_power {
        return Err(ErrorCode::BenchmarkEnvUnstable);
    }
    if battery_saver_on {
        return Err(ErrorCode::BenchmarkEnvUnstable);
    }
    Ok(())
}

/// The production probe's CPU bookkeeping: the last `(idle, kernel, user)`
/// system times, in 100 ns ticks.
#[derive(Clone, Copy, Debug)]
pub struct RealEnvironmentProbe {
    pub last_cpu: Option<(u64, u64, u64)>,
}

impl RealEnvironmentProbe {
    /// A probe with no baseline yet.
    pub fn new() -> (p: Self)
        ensures
            p.last_cpu is None,
    {
        RealEnvironmentProbe { last_cpu: None }
    }

    /// Records the system times `now` and returns `(idle, total)` ticks since
    /// the last sample (total = kernel + user, each difference saturating at
    /// 0, their sum at `u64::MAX`); `None` for the first sample or when no
    /// time passed. The usage is then `1 - idle / total`.
    pub fn record_cpu_times(&mut self, now: (u64, u64, u64)) -> (r: Option<(u64, u64)>)
        ensures
            final(self).last_cpu == Some(now),
            match old(self).last_cpu {
                None => r is None,
                Some(prev) => {
                    let idle = if now.0 >= prev.0 { now.0 - prev.0 } else { 0int };
                    let k = if now.1 >= prev.1 { now.1 - prev.1 } else { 0int };
                    let u = if now.2 >= prev.2 { now.2 - prev.2 } else { 0int };
                    let total = if k + u > u64::MAX { u64::MAX as int } else { k + u };
                    if total == 0 { r is None } else { r == Some((idle as u64, total as u64)) }
                },
            },
    {
        let prev = self.last_cpu;
        self.last_cpu = Some(now);
        match prev {
            None => None,
            Some((pi, pk, pu)) => {
                let idle = now.0.saturating_sub(pi);
                let total = now.1.saturating_sub(pk).saturating_add(now.2.saturating_sub(pu));
                if total == 0 {
                    None
                } else {
                    Some((idle, total))
                }
            },
        }
    }
}

/// What the CPU-idle wait asks for next.
#[derive(Debug)]
pub enum IdleStep {
    /// Sleep one interval, take a sample and report whether it was idle.
    Sample,
    /// Stop with this result: `Ok`, `Err("cancelled")` or the unstable code.
    Done(Result<(), String>),
}

/// The CPU-idle wait: five consecutive idle samples within sixty.
#[derive(Clone, Copy, Debug)]
pub struct CpuIdleWait {
    pub consecutive: u32,
    pub waited_secs: u64,
}

impl CpuIdleWait {
    /// A wait that has taken only its baseline sample.
    pub fn new() -> (w: Self)
        ensures
            w.consecutive == 0,
            w.waited_secs == 0,
    {
        CpuIdleWait { consecutive: 0, waited_secs: 0 }
    }

    /// Before a round: a cancelled wait stops with `cancelled`; a wait that
    /// has used its sixty seconds stops with `BENCHMARK_ENV_UNSTABLE`;
    /// otherwise a sample is due.
    pub fn begin_round(&self, cancelled: bool) -> (s: IdleStep)
        ensures
            self.waited_secs >= ENV_CPU_MAX_WAIT_SECS ==> (s matches IdleStep::Done(Err(e))
                && e@ == code_text(ErrorCode::BenchmarkEnvUnstable)),
            self.waited_secs < ENV_CPU_MAX_WAIT_SECS && cancelled ==> (s matches IdleStep::Done(Err(e))
                && e@ == "cancelled"@),
            self.waited_secs < ENV_CPU_MAX_WAIT_SECS && !cancelled ==> s == IdleStep::Sample,
    {
        if self.waited_secs >= ENV_CPU_MAX_WAIT_SECS {
            return IdleStep::Done(Err(ErrorCode::BenchmarkEnvUnstable.as_str().to_owned()));
        }
        if cancelled {
            return IdleStep::Done(Err("cancelled".to_owned()));
        }
        IdleStep::Sample
    }

    /// Records one sample: idle extends the run (five in a row succeed), busy
    /// resets it.
    pub fn record(&mut self, idle: bool) -> (s: Option<IdleStep>)
        requires
            old(self).waited_secs < ENV_CPU_MAX_WAIT_SECS,
            old(self).consecutive < ENV_CPU_SAMPLES,
        ensures
            final(self).waited_secs == old(self).waited_secs + 1,
            final(self).consecutive == (if idle { old(self).consecutive + 1 } else { 0 }),
            s == (if idle && old(self).consecutive + 1 >= ENV_CPU_SAMPLES {
                Some(IdleStep::Done(Ok(())))
            } else {
                None::<IdleStep>
            }),
            final(self).consecutive < ENV_CPU_SAMPLES || s is Some,
    {
        self.waited_secs = self.waited_secs + 1;
        if idle {
            self.consecutive = self.consecutive + 1;
            if self.consecutive >= ENV_CPU_SAMPLES {
                return Some(IdleStep::Done(Ok(())));
            }
        } else {
            self.consecutive = 0;
        }
        None
    }
}

} // verus!
