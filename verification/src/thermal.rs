//! Thermal monitoring and management for Jetson devices.
//!
//! A [`ThermalPolicy`] says at what temperature work pauses and at what
//! temperature it resumes. A [`ThermalCircuitBreaker`] gates a unit of work on
//! the readings of a [`TegraMonitor`]: it checks the GPU temperature once,
//! before the work starts, and where that is over the threshold it holds the
//! work back until a reading at or under the cooldown temperature arrives.
//!
//! The breaker never sleeps and never runs the work itself. It decides, one
//! reading at a time, what the caller that drives it does next: see
//! [`GuardStep`].

use vstd::prelude::*;
use crate::device::JetsonDevice;
use crate::error::Error;
use crate::units::{Celsius, Percent, Watts};

verus! {

/// Thermal statistics from tegrastats.
#[derive(Debug, Clone, Copy)]
pub struct TegraStats {
    /// GPU temperature
    pub gpu_temp: Celsius,
    /// CPU temperature
    pub cpu_temp: Celsius,
    /// SOC temperature
    pub soc_temp: Celsius,
    /// Total memory in MB
    pub total_memory_mb: u64,
    /// Used memory in MB
    pub used_memory_mb: u64,
    /// Available memory in MB
    pub available_memory_mb: u64,
    /// GPU utilization percentage
    pub gpu_utilization: Percent,
    /// CPU utilization percentage
    pub cpu_utilization: Percent,
    /// Power consumption
    pub power_watts: Watts,
}

impl TegraStats {
    /// The reading in which every quantity is zero.
    pub open spec fn spec_zero() -> TegraStats {
        TegraStats {
            gpu_temp: Celsius { millis: 0 },
            cpu_temp: Celsius { millis: 0 },
            soc_temp: Celsius { millis: 0 },
            total_memory_mb: 0,
            used_memory_mb: 0,
            available_memory_mb: 0,
            gpu_utilization: Percent { millis: 0 },
            cpu_utilization: Percent { millis: 0 },
            power_watts: Watts { millis: 0 },
        }
    }
}

impl Default for TegraStats {
    fn default() -> (stats: Self)
        ensures
            stats == TegraStats::spec_zero(),
    {
        TegraStats {
            gpu_temp: Celsius { millis: 0 },
            cpu_temp: Celsius { millis: 0 },
            soc_temp: Celsius { millis: 0 },
            total_memory_mb: 0,
            used_memory_mb: 0,
            available_memory_mb: 0,
            gpu_utilization: Percent { millis: 0 },
            cpu_utilization: Percent { millis: 0 },
            power_watts: Watts { millis: 0 },
        }
    }
}

/// Thermal zone types.
#[derive(Debug, Clone, Copy, PartialEq, Eq, Structural)]
pub enum ThermalZone {
    /// GPU thermal zone
    Gpu,
    /// CPU thermal zone
    Cpu,
    /// SOC junction
    Soc,
    /// Board thermal zone
    Board,
}

/// Thermal policy configuration.
#[derive(Debug, Clone, Copy)]
pub struct ThermalPolicy {
    /// Temperature threshold to pause work
    pub threshold_c: Celsius,
    /// Temperature to resume work after cooldown
    pub cooldown_c: Celsius,
    /// Check interval in milliseconds
    pub check_interval_ms: u64,
}

impl ThermalPolicy {
    /// The conservative policy, as a specification.
    pub open spec fn spec_conservative() -> ThermalPolicy {
        ThermalPolicy {
            threshold_c: Celsius { millis: 65_000 },
            cooldown_c: Celsius { millis: 55_000 },
            check_interval_ms: 500,
        }
    }

    /// The aggressive policy, as a specification.
    pub open spec fn spec_aggressive() -> ThermalPolicy {
        ThermalPolicy {
            threshold_c: Celsius { millis: 75_000 },
            cooldown_c: Celsius { millis: 65_000 },
            check_interval_ms: 1000,
        }
    }

    /// The resume point is not above the pause point.
    pub open spec fn wf(&self) -> bool {
        !self.cooldown_c.spec_above(self.threshold_c)
    }

    /// Whether `temp` calls for a pause: it is strictly above the threshold.
    pub open spec fn spec_is_exceeded(&self, temp: Celsius) -> bool {
        temp.spec_above(self.threshold_c)
    }

    /// Whether `temp` allows work to resume: it is at or below the cooldown
    /// temperature.
    pub open spec fn spec_has_cooled(&self, temp: Celsius) -> bool {
        !temp.spec_above(self.cooldown_c)
    }

    /// Conservative policy - pause at 65°C, resume at 55°C
    #[must_use]
    pub fn conservative() -> (policy: Self)
        ensures
            policy == Self::spec_conservative(),
            policy.wf(),
    {
        ThermalPolicy {
            threshold_c: Celsius { millis: 65_000 },
            cooldown_c: Celsius { millis: 55_000 },
            check_interval_ms: 500,
        }
    }

    /// Aggressive policy - pause at 75°C, resume at 65°C
    #[must_use]
    pub fn aggressive() -> (policy: Self)
        ensures
            policy == Self::spec_aggressive(),
            policy.wf(),
    {
        ThermalPolicy {
            threshold_c: Celsius { millis: 75_000 },
            cooldown_c: Celsius { millis: 65_000 },
            check_interval_ms: 1000,
        }
    }

    /// Custom policy
    #[must_use]
    pub fn custom(threshold_c: Celsius, cooldown_c: Celsius, check_interval_ms: u64) -> (policy:
        Self)
        ensures
            policy == (ThermalPolicy { threshold_c, cooldown_c, check_interval_ms }),
    {
        ThermalPolicy { threshold_c, cooldown_c, check_interval_ms }
    }

    /// Whether the resume point is not above the pause point.
    #[must_use]
    pub fn is_valid(&self) -> (valid: bool)
        ensures
            valid == self.wf(),
    {
        !self.cooldown_c.above(self.threshold_c)
    }

    /// Whether `temp` calls for a pause.
    #[must_use]
    pub fn is_exceeded(&self, temp: Celsius) -> (exceeded: bool)
        ensures
            exceeded == self.spec_is_exceeded(temp),
    {
        temp.above(self.threshold_c)
    }

    /// Whether `temp` allows work to resume.
    #[must_use]
    pub fn has_cooled(&self, temp: Celsius) -> (cooled: bool)
        ensures
            cooled == self.spec_has_cooled(temp),
    {
        !temp.above(self.cooldown_c)
    }

    /// What a guard in `phase` does on a GPU reading of `gpu_temp`, as a
    /// specification.
    ///
    /// A guard that has not checked yet lets the work run if the reading is
    /// not over the threshold, and otherwise opens and asks for another
    /// reading at once. An open guard lets the work run once a reading is at
    /// or under the cooldown temperature, and until then asks to sleep for
    /// the check interval. A closed guard lets the work run whatever the
    /// reading.
    pub open spec fn spec_guard_step(&self, phase: GuardPhase, gpu_temp: Celsius) -> GuardStep {
        match phase {
            GuardPhase::Unchecked => if self.spec_is_exceeded(gpu_temp) {
                GuardStep { phase: GuardPhase::Open, action: GuardAction::Resample }
            } else {
                GuardStep { phase: GuardPhase::Closed, action: GuardAction::Run }
            },
            GuardPhase::Open => if self.spec_has_cooled(gpu_temp) {
                GuardStep { phase: GuardPhase::Closed, action: GuardAction::Run }
            } else {
                GuardStep {
                    phase: GuardPhase::Open,
                    action: GuardAction::Sleep { millis: self.check_interval_ms },
                }
            },
            GuardPhase::Closed => GuardStep { phase: GuardPhase::Closed, action: GuardAction::Run },
        }
    }

    /// The phase of a guard that started in `phase` and has since seen the
    /// GPU readings in `temps`, in that order.
    pub open spec fn spec_phase_after(&self, phase: GuardPhase, temps: Seq<Celsius>) -> GuardPhase
        decreases temps.len(),
    {
        if temps.len() == 0 {
            phase
        } else {
            self.spec_guard_step(
                self.spec_phase_after(phase, temps.drop_last()),
                temps.last(),
            ).phase
        }
    }

    /// Decide what a guard in `phase` does on a GPU reading of `gpu_temp`.
    #[must_use]
    pub fn guard_step(&self, phase: GuardPhase, gpu_temp: Celsius) -> (step: GuardStep)
        ensures
            step == self.spec_guard_step(phase, gpu_temp),
    {
        match phase {
            GuardPhase::Unchecked => {
                if self.is_exceeded(gpu_temp) {
                    GuardStep { phase: GuardPhase::Open, action: GuardAction::Resample }
                } else {
                    GuardStep { phase: GuardPhase::Closed, action: GuardAction::Run }
                }
            },
            GuardPhase::Open => {
                if self.has_cooled(gpu_temp) {
                    GuardStep { phase: GuardPhase::Closed, action: GuardAction::Run }
                } else {
                    GuardStep {
                        phase: GuardPhase::Open,
                        action: GuardAction::Sleep { millis: self.check_interval_ms },
                    }
                }
            },
            GuardPhase::Closed => GuardStep { phase: GuardPhase::Closed, action: GuardAction::Run },
        }
    }
}

impl Default for ThermalPolicy {
    fn default() -> (policy: Self)
        ensures
            policy == ThermalPolicy::spec_conservative(),
    {
        ThermalPolicy::conservative()
    }
}

/// Where a guarded unit of work stands.
#[derive(Debug, Clone, Copy, PartialEq, Eq, Structural)]
pub enum GuardPhase {
    /// No reading has been looked at yet.
    Unchecked,
    /// A reading was over the threshold: the work waits for cooldown.
    Open,
    /// The work may run.
    Closed,
}

/// What the caller that drives a guard does next.
#[derive(Debug, Clone, Copy, PartialEq, Eq, Structural)]
pub enum GuardAction {
    /// Run the work.
    Run,
    /// Take another reading at once.
    Resample,
    /// Sleep, then take another reading.
    Sleep {
        /// How long to sleep, in milliseconds.
        millis: u64,
    },
}

/// One decision of a guard: the phase it is in now, and what to do next.
#[derive(Debug, Clone, Copy, PartialEq, Eq, Structural)]
pub struct GuardStep {
    /// The phase after the reading.
    pub phase: GuardPhase,
    /// What the caller does next.
    pub action: GuardAction,
}

/// While the reading is not over the threshold, a guard lets the work run at
/// once: on its first reading, without a second reading and without a sleep.
pub proof fn law_guard_runs_at_once(policy: ThermalPolicy, gpu_temp: Celsius)
    requires
        !policy.spec_is_exceeded(gpu_temp),
    ensures
        policy.spec_guard_step(GuardPhase::Unchecked, gpu_temp) == (GuardStep {
            phase: GuardPhase::Closed,
            action: GuardAction::Run,
        }),
{
}

/// Where the first reading is over the threshold, a guard lets the work run
/// only on a reading at or under the cooldown temperature.
///
/// `temps` are the readings in the order in which the guard sees them, and
/// `k` is the first one after the opening reading that has cooled. Up to that
/// reading the guard stays open and asks for a sleep of the check interval
/// after every reading but the opening one; on that reading it closes and
/// lets the work run.
pub proof fn law_guard_waits_for_cooldown(policy: ThermalPolicy, temps: Seq<Celsius>, k: int)
    requires
        1 <= k < temps.len(),
        policy.spec_is_exceeded(temps[0]),
        policy.spec_has_cooled(temps[k]),
        forall|j: int| 1 <= j < k ==> !policy.spec_has_cooled(#[trigger] temps[j]),
    ensures
        forall|n: int|
            1 <= n <= k ==> #[trigger] policy.spec_phase_after(
                GuardPhase::Unchecked,
                temps.take(n),
            ) == GuardPhase::Open,
        forall|j: int|
            1 <= j < k ==> policy.spec_guard_step(GuardPhase::Open, #[trigger] temps[j]).action
                == (GuardAction::Sleep { millis: policy.check_interval_ms }),
        policy.spec_guard_step(
            policy.spec_phase_after(GuardPhase::Unchecked, temps.take(k)),
            temps[k],
        ) == (GuardStep { phase: GuardPhase::Closed, action: GuardAction::Run }),
        policy.spec_phase_after(GuardPhase::Unchecked, temps.take(k + 1)) == GuardPhase::Closed,
{
    assert forall|n: int| 1 <= n <= k implies #[trigger] policy.spec_phase_after(
        GuardPhase::Unchecked,
        temps.take(n),
    ) == GuardPhase::Open by {
        lemma_open_until_cooled(policy, temps, n);
    }
    assert(temps.take(k + 1).drop_last() =~= temps.take(k));
}

/// A guard whose first reading is over the threshold is open after `n`
/// readings if none of the later ones has cooled.
proof fn lemma_open_until_cooled(policy: ThermalPolicy, temps: Seq<Celsius>, n: int)
    requires
        1 <= n <= temps.len(),
        policy.spec_is_exceeded(temps[0]),
        forall|j: int| 1 <= j < n ==> !policy.spec_has_cooled(#[trigger] temps[j]),
    ensures
        policy.spec_phase_after(GuardPhase::Unchecked, temps.take(n)) == GuardPhase::Open,
    decreases n,
{
    let seen = temps.take(n);
    assert(seen.drop_last() =~= temps.take(n - 1));
    if n == 1 {
        assert(policy.spec_phase_after(GuardPhase::Unchecked, temps.take(0))
            == GuardPhase::Unchecked);
    } else {
        lemma_open_until_cooled(policy, temps, n - 1);
        assert(seen.last() == temps[n - 1]);
    }
}

/// Once a guard is closed it stays closed and lets the work run: no reading
/// taken while the work runs holds it back.
pub proof fn law_closed_guard_stays_closed(policy: ThermalPolicy, temps: Seq<Celsius>)
    ensures
        policy.spec_phase_after(GuardPhase::Closed, temps) == GuardPhase::Closed,
    decreases temps.len(),
{
    if temps.len() > 0 {
        law_closed_guard_stays_closed(policy, temps.drop_last());
    }
}

/// Under a policy whose resume point is not above its pause point, a reading
/// that has cooled is not over the threshold.
pub proof fn law_cooled_is_not_exceeded(policy: ThermalPolicy, gpu_temp: Celsius)
    requires
        policy.wf(),
        policy.spec_has_cooled(gpu_temp),
    ensures
        !policy.spec_is_exceeded(gpu_temp),
{
}

/// Monitor for tegrastats data.
#[derive(Debug)]
pub struct TegraMonitor {
    policy: ThermalPolicy,
    last_stats: Option<TegraStats>,
}

impl TegraMonitor {
    /// The policy of the monitor, as a specification.
    pub closed spec fn spec_policy(&self) -> ThermalPolicy {
        self.policy
    }

    /// The last reading the monitor has seen, as a specification.
    pub closed spec fn spec_last_stats(&self) -> Option<TegraStats> {
        self.last_stats
    }

    /// The reading that [`TegraMonitor::sample`] hands out.
    pub open spec fn spec_reading() -> TegraStats {
        TegraStats {
            gpu_temp: Celsius { millis: 45_000 },
            cpu_temp: Celsius { millis: 42_000 },
            soc_temp: Celsius { millis: 44_000 },
            total_memory_mb: 8192,
            used_memory_mb: 2048,
            available_memory_mb: 6144,
            gpu_utilization: Percent { millis: 0 },
            cpu_utilization: Percent { millis: 10_000 },
            power_watts: Watts { millis: 5_000 },
        }
    }

    /// Create a new monitor with default policy.
    #[must_use]
    pub fn new() -> (monitor: Self)
        ensures
            monitor.spec_policy() == ThermalPolicy::spec_conservative(),
            monitor.spec_last_stats() is None,
    {
        TegraMonitor { policy: ThermalPolicy::conservative(), last_stats: None }
    }

    /// Create a monitor connected to a device.
    pub fn connect(device: &JetsonDevice) -> (outcome: Result<Self, Error>)
        ensures
            outcome matches Ok(monitor) && {
                &&& monitor.spec_policy() == ThermalPolicy::spec_conservative()
                &&& monitor.spec_last_stats() is None
            },
    {
        Ok(Self::new())
    }

    /// Set thermal policy.
    #[must_use]
    pub fn with_policy(self, policy: ThermalPolicy) -> (monitor: Self)
        ensures
            monitor.spec_policy() == policy,
            monitor.spec_last_stats() == self.spec_last_stats(),
    {
        TegraMonitor { policy, last_stats: self.last_stats }
    }

    /// Get the thermal policy.
    #[must_use]
    #[verifier::when_used_as_spec(spec_policy)]
    pub fn policy(&self) -> (policy: ThermalPolicy)
        ensures
            policy == self.spec_policy(),
    {
        self.policy
    }

    /// Get the last reading the monitor has seen, if any.
    #[must_use]
    #[verifier::when_used_as_spec(spec_last_stats)]
    pub fn last_stats(&self) -> (stats: Option<TegraStats>)
        ensures
            stats == self.spec_last_stats(),
    {
        self.last_stats
    }

    /// Sample current stats.
    ///
    /// No sensor is attached to a monitor: the reading is always
    /// [`TegraMonitor::spec_reading`]. It is kept as the last reading.
    pub fn sample(&mut self) -> (outcome: Result<TegraStats, Error>)
        ensures
            outcome matches Ok(stats) && stats == Self::spec_reading(),
            final(self).spec_last_stats() == Some(Self::spec_reading()),
            final(self).spec_policy() == old(self).spec_policy(),
    {
        let stats = TegraStats {
            gpu_temp: Celsius { millis: 45_000 },
            cpu_temp: Celsius { millis: 42_000 },
            soc_temp: Celsius { millis: 44_000 },
            total_memory_mb: 8192,
            used_memory_mb: 2048,
            available_memory_mb: 6144,
            gpu_utilization: Percent { millis: 0 },
            cpu_utilization: Percent { millis: 10_000 },
            power_watts: Watts { millis: 5_000 },
        };
        self.last_stats = Some(stats);
        Ok(stats)
    }

    /// Get GPU temperature.
    pub fn gpu_temp(&mut self) -> (outcome: Result<Celsius, Error>)
        ensures
            outcome matches Ok(temp) && temp == Self::spec_reading().gpu_temp,
            final(self).spec_last_stats() == Some(Self::spec_reading()),
            final(self).spec_policy() == old(self).spec_policy(),
    {
        match self.sample() {
            Ok(stats) => Ok(stats.gpu_temp),
            Err(e) => Err(e),
        }
    }

    /// Check if thermal threshold is exceeded.
    pub fn is_throttled(&mut self) -> (outcome: Result<bool, Error>)
        ensures
            outcome matches Ok(throttled) && throttled == old(self).spec_policy().spec_is_exceeded(
                Self::spec_reading().gpu_temp,
            ),
            final(self).spec_last_stats() == Some(Self::spec_reading()),
            final(self).spec_policy() == old(self).spec_policy(),
    {
        match self.gpu_temp() {
            Ok(temp) => Ok(self.policy.is_exceeded(temp)),
            Err(e) => Err(e),
        }
    }

    /// Take in the outcome of one sampling and decide what a guard in
    /// `phase` does next.
    ///
    /// A reading is kept as the last reading and judged by its GPU
    /// temperature under the monitor's policy. A sampling failure is handed
    /// back as it came, and the monitor is left as it was.
    pub fn observe(&mut self, phase: GuardPhase, sampled: Result<TegraStats, Error>) -> (outcome:
        Result<GuardStep, Error>)
        ensures
            final(self).spec_policy() == old(self).spec_policy(),
            match sampled {
                Ok(stats) => {
                    &&& outcome matches Ok(step) && step == old(self).spec_policy().spec_guard_step(
                        phase,
                        stats.gpu_temp,
                    )
                    &&& final(self).spec_last_stats() == Some(stats)
                },
                Err(e) => {
                    &&& outcome matches Err(handed_back) && handed_back == e
                    &&& final(self).spec_last_stats() == old(self).spec_last_stats()
                },
            },
    {
        match sampled {
            Ok(stats) => {
                self.last_stats = Some(stats);
                Ok(self.policy.guard_step(phase, stats.gpu_temp))
            },
            Err(e) => Err(e),
        }
    }

    /// One round of waiting for cooldown: take one sample and say whether
    /// the wait is over.
    ///
    /// The step is that of a guard in [`GuardPhase::Open`]: on a reading at
    /// or under the cooldown temperature the wait is over and the action is
    /// [`GuardAction::Run`]; otherwise the action is to sleep for the check
    /// interval and to call this again. Nothing here bounds the number of
    /// rounds: a caller that needs a deadline sets its own.
    pub fn wait_for_cooldown(&mut self) -> (outcome: Result<GuardStep, Error>)
        ensures
            outcome matches Ok(step) && step == old(self).spec_policy().spec_guard_step(
                GuardPhase::Open,
                Self::spec_reading().gpu_temp,
            ),
            final(self).spec_last_stats() == Some(Self::spec_reading()),
            final(self).spec_policy() == old(self).spec_policy(),
    {
        let sampled = self.sample();
        self.observe(GuardPhase::Open, sampled)
    }
}

impl Default for TegraMonitor {
    fn default() -> (monitor: Self)
        ensures
            monitor.spec_policy() == ThermalPolicy::spec_conservative(),
            monitor.spec_last_stats() is None,
    {
        TegraMonitor::new()
    }
}

/// Thermal circuit breaker.
///
/// Holds work back while the temperature is over the threshold.
#[derive(Debug)]
pub struct ThermalCircuitBreaker {
    monitor: TegraMonitor,
}

impl ThermalCircuitBreaker {
    /// The monitor behind the breaker, as a specification.
    pub closed spec fn spec_monitor(&self) -> TegraMonitor {
        self.monitor
    }

    /// Create a new circuit breaker.
    #[must_use]
    pub fn new(monitor: TegraMonitor) -> (breaker: Self)
        ensures
            breaker.spec_monitor() == monitor,
    {
        ThermalCircuitBreaker { monitor }
    }

    /// Get the monitor behind the breaker.
    #[must_use]
    pub fn monitor(&self) -> (monitor: &TegraMonitor)
        ensures
            *monitor == self.spec_monitor(),
    {
        &self.monitor
    }

    /// Check if circuit is open (too hot): takes one fresh sample and says
    /// whether its GPU temperature is over the threshold.
    pub fn is_open(&mut self) -> (outcome: Result<bool, Error>)
        ensures
            outcome matches Ok(open) && open == old(
                self,
            ).spec_monitor().spec_policy().spec_is_exceeded(TegraMonitor::spec_reading().gpu_temp),
            final(self).spec_monitor().spec_last_stats() == Some(TegraMonitor::spec_reading()),
            final(self).spec_monitor().spec_policy() == old(self).spec_monitor().spec_policy(),
    {
        self.monitor.is_throttled()
    }

    /// Take in the outcome of one sampling and decide what a guard in
    /// `phase` does next; see [`TegraMonitor::observe`].
    pub fn observe(&mut self, phase: GuardPhase, sampled: Result<TegraStats, Error>) -> (outcome:
        Result<GuardStep, Error>)
        ensures
            final(self).spec_monitor().spec_policy() == old(self).spec_monitor().spec_policy(),
            match sampled {
                Ok(stats) => {
                    &&& outcome matches Ok(step) && step == old(
                        self,
                    ).spec_monitor().spec_policy().spec_guard_step(phase, stats.gpu_temp)
                    &&& final(self).spec_monitor().spec_last_stats() == Some(stats)
                },
                Err(e) => {
                    &&& outcome matches Err(handed_back) && handed_back == e
                    &&& final(self).spec_monitor().spec_last_stats() == old(
                        self,
                    ).spec_monitor().spec_last_stats()
                },
            },
    {
        self.monitor.observe(phase, sampled)
    }

    /// One decision of a guard over a unit of work: take one sample from the
    /// breaker's monitor and say what a guard in `phase` does next.
    ///
    /// A caller that guards a unit of work starts in
    /// [`GuardPhase::Unchecked`], calls this with the phase of the step
    /// before, does what each step's action says, and runs the work on
    /// [`GuardAction::Run`]. The temperature is checked against the threshold
    /// once, at the start; work that runs is not looked at again.
    pub fn guard(&mut self, phase: GuardPhase) -> (outcome: Result<GuardStep, Error>)
        ensures
            outcome matches Ok(step) && step == old(
                self,
            ).spec_monitor().spec_policy().spec_guard_step(
                phase,
                TegraMonitor::spec_reading().gpu_temp,
            ),
            final(self).spec_monitor().spec_last_stats() == Some(TegraMonitor::spec_reading()),
            final(self).spec_monitor().spec_policy() == old(self).spec_monitor().spec_policy(),
    {
        let sampled = self.monitor.sample();
        self.monitor.observe(phase, sampled)
    }
}

} // verus!
