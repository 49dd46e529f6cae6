//! The clock controller: what to do to the local clock with each new
//! system offset.

use crate::config::{StepThreshold, SystemConfig};
use crate::packet::NtpLeapIndicator;
use crate::time_types::{
    NtpDuration, NtpInstant, NtpTimestamp, PollInterval, MAX_POLL, MIN_POLL, SPIKE_INTERVAL,
    STEP_THRESHOLD,
};
use vstd::prelude::*;

verus! {

/// Preferred ratio between the measured offset and the measurement jitter.
pub const POLL_FACTOR: i64 = 4;

/// How far the poll counter must move before the poll interval changes.
pub const POLL_ADJUST: i32 = 30;

/// A clock rate as the ratio of two spans: `offset` seconds gained in
/// every `interval` seconds.
#[derive(Debug, Copy, Clone, PartialEq, Eq, Structural)]
pub struct Frequency {
    pub offset: NtpDuration,
    pub interval: NtpDuration,
}

/// A clock that the controller can steer. One system can have several
/// clocks, each steered and read in its own way.
pub trait NtpClock {
    type Error;

    fn now(&self) -> Result<NtpTimestamp, Self::Error>;

    fn set_freq(&self, freq: Frequency) -> Result<(), Self::Error>;

    fn step_clock(&self, offset: NtpDuration) -> Result<(), Self::Error>;

    fn update_clock(
        &self,
        offset: NtpDuration,
        est_error: NtpDuration,
        max_error: NtpDuration,
        poll_interval: PollInterval,
        leap_status: NtpLeapIndicator,
    ) -> Result<(), Self::Error>;
}

#[derive(Debug, Copy, Clone, PartialEq, Eq, Structural)]
pub enum ClockState {
    StartupBlank,
    StartupFreq,
    MeasureFreq,
    Spike,
    Sync,
}

#[derive(Debug, Copy, Clone, PartialEq, Eq, Structural)]
pub enum ClockUpdateResult {
    Ignore,
    Step,
    Slew,
    Panic,
}

/// What the controller remembers between two updates.
#[derive(Debug, Copy, Clone, PartialEq, Eq, Structural)]
pub struct ControllerState {
    pub state: ClockState,
    pub last_update_time: NtpInstant,
    pub preferred_poll_interval: PollInterval,
    pub poll_interval_counter: i32,
    pub offset: NtpDuration,
}

/// The two limits on the size of a correction.
#[derive(Debug, Copy, Clone, PartialEq, Eq, Structural)]
pub struct PanicThresholds {
    pub running: StepThreshold,
    pub startup: StepThreshold,
}

/// One request to the clock.
#[derive(Debug, Copy, Clone, PartialEq, Eq, Structural)]
pub enum ClockAction {
    /// Leave the clock alone.
    Nothing,
    /// Jump by `offset`.
    Step { offset: NtpDuration },
    /// Correct gradually.
    Slew {
        offset: NtpDuration,
        est_error: NtpDuration,
        max_error: NtpDuration,
        poll_interval: PollInterval,
        leap_status: NtpLeapIndicator,
    },
}

/// The outcome of one update before anything is done: the verdict, what
/// the clock is asked to do, and what the controller remembers once the
/// clock has done it.
#[derive(Debug, Copy, Clone, PartialEq, Eq, Structural)]
pub struct ClockPlan {
    pub result: ClockUpdateResult,
    /// A rate that the clock is set to before `action`.
    pub set_freq: Option<Frequency>,
    pub action: ClockAction,
    pub next: ControllerState,
}

/// A new system offset with what is known about its quality.
#[derive(Debug, Copy, Clone, PartialEq, Eq, Structural)]
pub struct ClockInput {
    pub offset: NtpDuration,
    pub jitter: NtpDuration,
    pub root_delay: NtpDuration,
    pub root_dispersion: NtpDuration,
    pub leap_status: NtpLeapIndicator,
    pub last_peer_update: NtpInstant,
}

impl ControllerState {
    /// The counter is within its band and the poll interval within the
    /// protocol's limits.
    pub open spec fn wf(self) -> bool {
        &&& -POLL_ADJUST <= self.poll_interval_counter <= POLL_ADJUST
        &&& MIN_POLL <= self.preferred_poll_interval.log <= MAX_POLL
    }

    pub open spec fn spec_initial(now: NtpInstant) -> ControllerState {
        ControllerState {
            state: ClockState::StartupBlank,
            last_update_time: now,
            preferred_poll_interval: PollInterval { log: MIN_POLL },
            poll_interval_counter: 0,
            offset: NtpDuration { duration: 0 },
        }
    }

    pub fn check(&self) -> (r: bool)
        ensures
            r == self.wf(),
    {
        -POLL_ADJUST <= self.poll_interval_counter && self.poll_interval_counter <= POLL_ADJUST
            && MIN_POLL <= self.preferred_poll_interval.log && self.preferred_poll_interval.log
            <= MAX_POLL
    }

    pub open spec fn in_startup(self) -> bool {
        self.state == ClockState::StartupBlank || self.state == ClockState::StartupFreq
    }

    /// Whether `offset` is beyond what may be corrected in this state.
    pub open spec fn offset_too_large(self, limits: PanicThresholds, offset: NtpDuration) -> bool {
        if self.in_startup() {
            limits.startup.spec_exceeded_by(offset)
        } else {
            limits.running.spec_exceeded_by(offset)
        }
    }

    /// The plan of a step by `offset`.
    pub open spec fn step_plan(
        self,
        offset: NtpDuration,
        at: NtpInstant,
        set_freq: Option<Frequency>,
    ) -> ClockPlan {
        ClockPlan {
            result: ClockUpdateResult::Step,
            set_freq,
            action: ClockAction::Step { offset },
            next: ControllerState {
                state: if self.state == ClockState::StartupBlank {
                    ClockState::MeasureFreq
                } else {
                    ClockState::Sync
                },
                last_update_time: at,
                preferred_poll_interval: PollInterval { log: MIN_POLL },
                poll_interval_counter: 0,
                offset: NtpDuration { duration: 0 },
            },
        }
    }

    /// The plan that changes nothing but, perhaps, the state's name.
    pub open spec fn ignore_plan(self, state: ClockState) -> ClockPlan {
        ClockPlan {
            result: ClockUpdateResult::Ignore,
            set_freq: None,
            action: ClockAction::Nothing,
            next: ControllerState { state, ..self },
        }
    }

    /// The counter after one more sample: up by the poll interval's log
    /// where the offset is small against the jitter, down by it otherwise.
    pub open spec fn moved_counter(self, offset: NtpDuration, jitter: NtpDuration) -> int {
        if offset.duration < jitter.spec_times(POLL_FACTOR).duration {
            self.poll_interval_counter + self.preferred_poll_interval.log
        } else {
            self.poll_interval_counter - self.preferred_poll_interval.log
        }
    }

    /// The plan of a gradual correction by `input.offset`.
    pub open spec fn slew_plan(self, input: ClockInput, set_freq: Option<Frequency>) -> ClockPlan {
        let moved = self.moved_counter(input.offset, input.jitter);
        ClockPlan {
            result: ClockUpdateResult::Slew,
            set_freq,
            action: ClockAction::Slew {
                offset: input.offset,
                est_error: input.jitter,
                max_error: input.root_delay.spec_halved().spec_plus(input.root_dispersion),
                poll_interval: self.preferred_poll_interval,
                leap_status: input.leap_status,
            },
            next: ControllerState {
                state: ClockState::Sync,
                last_update_time: input.last_peer_update,
                preferred_poll_interval: if moved > POLL_ADJUST {
                    self.preferred_poll_interval.spec_inc()
                } else if moved < -POLL_ADJUST {
                    self.preferred_poll_interval.spec_dec()
                } else {
                    self.preferred_poll_interval
                },
                poll_interval_counter: if moved > POLL_ADJUST || moved < -POLL_ADJUST {
                    0
                } else {
                    moved as i32
                },
                offset: input.offset,
            },
        }
    }

    /// What an update decides in this state.
    pub open spec fn spec_plan(self, limits: PanicThresholds, input: ClockInput) -> ClockPlan {
        let offset = input.offset;
        let at = input.last_peer_update;
        let elapsed = at.spec_abs_diff(self.last_update_time);
        let waited = elapsed.duration >= SPIKE_INTERVAL;
        let freq = Some(Frequency { offset, interval: elapsed });
        if self.offset_too_large(limits, offset) {
            ClockPlan {
                result: ClockUpdateResult::Panic,
                set_freq: None,
                action: ClockAction::Nothing,
                next: self,
            }
        } else if offset.spec_abs().duration > STEP_THRESHOLD {
            match self.state {
                ClockState::Sync => self.ignore_plan(ClockState::Spike),
                ClockState::MeasureFreq => if waited {
                    self.step_plan(offset, at, freq)
                } else {
                    self.ignore_plan(self.state)
                },
                ClockState::Spike => if waited {
                    self.step_plan(offset, at, None)
                } else {
                    self.ignore_plan(self.state)
                },
                ClockState::StartupBlank | ClockState::StartupFreq => self.step_plan(
                    offset,
                    at,
                    None,
                ),
            }
        } else {
            match self.state {
                ClockState::StartupBlank => self.step_plan(offset, at, None),
                ClockState::MeasureFreq => if waited {
                    self.slew_plan(input, freq)
                } else {
                    self.ignore_plan(self.state)
                },
                ClockState::StartupFreq | ClockState::Sync | ClockState::Spike => self.slew_plan(
                    input,
                    None,
                ),
            }
        }
    }

    fn plan_step(&self, offset: NtpDuration, at: NtpInstant, set_freq: Option<Frequency>) -> (r:
        ClockPlan)
        ensures
            r == self.step_plan(offset, at, set_freq),
    {
        ClockPlan {
            result: ClockUpdateResult::Step,
            set_freq,
            action: ClockAction::Step { offset },
            next: ControllerState {
                state: match self.state {
                    ClockState::StartupBlank => ClockState::MeasureFreq,
                    _ => ClockState::Sync,
                },
                last_update_time: at,
                preferred_poll_interval: PollInterval::shortest(),
                poll_interval_counter: 0,
                offset: NtpDuration::zero(),
            },
        }
    }

    fn plan_ignore(&self, state: ClockState) -> (r: ClockPlan)
        ensures
            r == self.ignore_plan(state),
    {
        ClockPlan {
            result: ClockUpdateResult::Ignore,
            set_freq: None,
            action: ClockAction::Nothing,
            next: ControllerState {
                state,
                last_update_time: self.last_update_time,
                preferred_poll_interval: self.preferred_poll_interval,
                poll_interval_counter: self.poll_interval_counter,
                offset: self.offset,
            },
        }
    }

    fn plan_slew(&self, input: &ClockInput, set_freq: Option<Frequency>) -> (r: ClockPlan)
        requires
            self.wf(),
        ensures
            r == self.slew_plan(*input, set_freq),
    {
        let max_error = input.root_delay.halved().plus(input.root_dispersion);
        let log: i32 = self.preferred_poll_interval.as_log() as i32;
        let moved: i32 = if input.offset.duration < input.jitter.times(POLL_FACTOR).duration {
            self.poll_interval_counter + log
        } else {
            self.poll_interval_counter - log
        };
        let mut counter = moved;
        let mut poll = self.preferred_poll_interval;
        if moved > POLL_ADJUST {
            counter = 0;
            poll = poll.inc();
        } else if moved < -POLL_ADJUST {
            counter = 0;
            poll = poll.dec();
        }
        ClockPlan {
            result: ClockUpdateResult::Slew,
            set_freq,
            action: ClockAction::Slew {
                offset: input.offset,
                est_error: input.jitter,
                max_error,
                poll_interval: self.preferred_poll_interval,
                leap_status: input.leap_status,
            },
            next: ControllerState {
                state: ClockState::Sync,
                last_update_time: input.last_peer_update,
                preferred_poll_interval: poll,
                poll_interval_counter: counter,
                offset: input.offset,
            },
        }
    }

    /// Decides what one update does, without touching any clock.
    pub fn plan(&self, limits: &PanicThresholds, input: &ClockInput) -> (r: ClockPlan)
        requires
            self.wf(),
        ensures
            r == self.spec_plan(*limits, *input),
            r.next.wf(),
    {
        let offset = input.offset;
        let at = input.last_peer_update;
        let startup = match self.state {
            ClockState::StartupBlank => true,
            ClockState::StartupFreq => true,
            _ => false,
        };
        let too_large = if startup {
            limits.startup.exceeded_by(offset)
        } else {
            limits.running.exceeded_by(offset)
        };
        if too_large {
            return ClockPlan {
                result: ClockUpdateResult::Panic,
                set_freq: None,
                action: ClockAction::Nothing,
                next: *self,
            };
        }
        let elapsed = at.abs_diff(self.last_update_time);
        let waited = elapsed.duration >= SPIKE_INTERVAL;
        let freq = Some(Frequency { offset, interval: elapsed });
        if offset.abs().duration > STEP_THRESHOLD {
            match self.state {
                ClockState::Sync => self.plan_ignore(ClockState::Spike),
                ClockState::MeasureFreq => {
                    if waited {
                        self.plan_step(offset, at, freq)
                    } else {
                        self.plan_ignore(self.state)
                    }
                },
                ClockState::Spike => {
                    if waited {
                        self.plan_step(offset, at, None)
                    } else {
                        self.plan_ignore(self.state)
                    }
                },
                ClockState::StartupBlank => self.plan_step(offset, at, None),
                ClockState::StartupFreq => self.plan_step(offset, at, None),
            }
        } else {
            match self.state {
                ClockState::StartupBlank => self.plan_step(offset, at, None),
                ClockState::MeasureFreq => {
                    if waited {
                        self.plan_slew(input, freq)
                    } else {
                        self.plan_ignore(self.state)
                    }
                },
                ClockState::StartupFreq => self.plan_slew(input, None),
                ClockState::Sync => self.plan_slew(input, None),
                ClockState::Spike => self.plan_slew(input, None),
            }
        }
    }
}

impl ClockPlan {
    /// Whether carrying out the plan asks anything of the clock.
    pub open spec fn touches_clock(self) -> bool {
        self.set_freq is Some || self.action != ClockAction::Nothing
    }
}

/// Decides which adjustments to make to the clock, from the offsets that
/// filtering and combining produce.
pub struct ClockController<C: NtpClock> {
    clock: C,
    inner: ControllerState,
    limits: PanicThresholds,
}

impl<C: NtpClock> ClockController<C> {
    #[verifier::type_invariant]
    spec fn inv(self) -> bool {
        self.inner.wf()
    }

    /// What the controller remembers.
    pub closed spec fn view(&self) -> ControllerState {
        self.inner
    }

    /// The limits on corrections that the controller applies.
    pub closed spec fn limits(&self) -> PanicThresholds {
        self.limits
    }

    pub open spec fn spec_default_limits() -> PanicThresholds {
        PanicThresholds {
            running: SystemConfig::spec_default().panic_threshold,
            startup: SystemConfig::spec_default().startup_panic_threshold,
        }
    }

    /// A controller for `clock` that has seen no measurement. The clock's
    /// rate is first set to zero; `now` counts as the time of the last
    /// update. Fails where the clock refuses the rate.
    pub fn new(clock: C, now: NtpInstant) -> (r: Result<ClockController<C>, C::Error>)
        ensures
            r matches Ok(c) ==> {
                &&& c@ == ControllerState::spec_initial(now)
                &&& c.limits() == Self::spec_default_limits()
                &&& c.spec_clock() == clock
            },
    {
        let zero = Frequency { offset: NtpDuration::zero(), interval: NtpDuration::one() };
        let outcome = clock.set_freq(zero);
        Self::started(clock, now, outcome)
    }

    /// Closes the making of a controller once `clock` has answered the
    /// request to run at its own rate: with `Ok` there is a controller
    /// for `clock` that has seen no measurement, with `now` as the time of
    /// its last update and the standard limits; with an error there is
    /// none, and the error is handed on.
    pub fn started(clock: C, now: NtpInstant, outcome: Result<(), C::Error>) -> (r: Result<
        ClockController<C>,
        C::Error,
    >)
        ensures
            match outcome {
                Ok(_) => {
                    &&& r is Ok
                    &&& r->Ok_0@ == ControllerState::spec_initial(now)
                    &&& r->Ok_0.limits() == Self::spec_default_limits()
                    &&& r->Ok_0.spec_clock() == clock
                },
                Err(e) => r == Err::<ClockController<C>, C::Error>(e),
            },
    {
        match outcome {
            Ok(()) => {
                let config = SystemConfig::default();
                Ok(
                    ClockController {
                        clock,
                        inner: ControllerState {
                            state: ClockState::StartupBlank,
                            last_update_time: now,
                            preferred_poll_interval: PollInterval::shortest(),
                            poll_interval_counter: 0,
                            offset: NtpDuration::zero(),
                        },
                        limits: PanicThresholds {
                            running: config.panic_threshold,
                            startup: config.startup_panic_threshold,
                        },
                    },
                )
            },
            Err(e) => Err(e),
        }
    }

    /// A controller for `clock` that remembers `state`; `None` where the
    /// state is not well formed. The clock is not touched.
    pub fn from_state(clock: C, state: ControllerState) -> (r: Option<ClockController<C>>)
        ensures
            state.wf() ==> r is Some,
            !state.wf() ==> r is None,
            r matches Some(c) ==> c@ == state && c.limits() == Self::spec_default_limits()
                && c.spec_clock() == clock,
    {
        if state.check() {
            let config = SystemConfig::default();
            Some(
                ClockController {
                    clock,
                    inner: state,
                    limits: PanicThresholds {
                        running: config.panic_threshold,
                        startup: config.startup_panic_threshold,
                    },
                },
            )
        } else {
            None
        }
    }

    /// Takes the limits on corrections from `config`.
    pub fn update_config(&mut self, config: SystemConfig)
        ensures
            final(self)@ == old(self)@,
            final(self).spec_clock() == old(self).spec_clock(),
            final(self).limits() == (PanicThresholds {
                running: config.panic_threshold,
                startup: config.startup_panic_threshold,
            }),
    {
        proof {
            use_type_invariant(&*self);
        }
        self.limits =
        PanicThresholds {
            running: config.panic_threshold,
            startup: config.startup_panic_threshold,
        };
    }

    /// What the controller remembers.
    pub fn state(&self) -> (r: ControllerState)
        ensures
            r == self@,
            r.wf(),
    {
        proof {
            use_type_invariant(self);
        }
        self.inner
    }

    /// The clock that the controller steers.
    pub closed spec fn spec_clock(&self) -> C {
        self.clock
    }

    /// The clock that the controller steers.
    pub fn clock(&self) -> (r: &C)
        ensures
            *r == self.spec_clock(),
    {
        &self.clock
    }

    pub fn preferred_poll_interval(&self) -> (r: PollInterval)
        ensures
            r == self@.preferred_poll_interval,
            MIN_POLL <= r.log <= MAX_POLL,
    {
        proof {
            use_type_invariant(self);
        }
        self.inner.preferred_poll_interval
    }

    /// Decides what an update with `input` would do.
    pub fn plan(&self, input: &ClockInput) -> (r: ClockPlan)
        ensures
            r == self@.spec_plan(self.limits(), *input),
            r.next.wf(),
    {
        proof {
            use_type_invariant(self);
        }
        self.inner.plan(&self.limits, input)
    }

    /// Closes an update once the clock has answered: with `Ok` the
    /// controller takes the plan's next state and reports its verdict;
    /// with an error it stays as it was and hands the error on.
    pub fn commit(&mut self, plan: ClockPlan, outcome: Result<(), C::Error>) -> (r: Result<
        ClockUpdateResult,
        C::Error,
    >)
        requires
            plan.next.wf(),
        ensures
            final(self).limits() == old(self).limits(),
            final(self).spec_clock() == old(self).spec_clock(),
            match outcome {
                Ok(_) => r == Ok::<ClockUpdateResult, C::Error>(plan.result) && final(self)@
                    == plan.next,
                Err(e) => r == Err::<ClockUpdateResult, C::Error>(e) && final(self)@ == old(
                    self,
                )@,
            },
    {
        proof {
            use_type_invariant(&*self);
        }
        match outcome {
            Ok(()) => {
                self.inner = plan.next;
                Ok(plan.result)
            },
            Err(e) => Err(e),
        }
    }

    /// Asks the clock for what `plan` holds: first the rate, then the step
    /// or the gradual correction. The first refusal ends it.
    fn perform(&self, plan: &ClockPlan) -> (r: Result<(), C::Error>)
        ensures
            !plan.touches_clock() ==> r is Ok,
    {
        match plan.set_freq {
            Some(freq) => {
                match self.clock.set_freq(freq) {
                    Ok(()) => {},
                    Err(e) => {
                        return Err(e);
                    },
                }
            },
            None => {},
        }
        match plan.action {
            ClockAction::Nothing => Ok(()),
            ClockAction::Step { offset } => self.clock.step_clock(offset),
            ClockAction::Slew { offset, est_error, max_error, poll_interval, leap_status } => {
                self.clock.update_clock(offset, est_error, max_error, poll_interval, leap_status)
            },
        }
    }

    /// Takes a new system offset: decides, asks the clock for what was
    /// decided, and remembers the outcome. Where the clock refuses, the
    /// controller stays as it was and the clock's error is returned.
    pub fn update(
        &mut self,
        offset: NtpDuration,
        jitter: NtpDuration,
        root_delay: NtpDuration,
        root_dispersion: NtpDuration,
        leap_status: NtpLeapIndicator,
        last_peer_update: NtpInstant,
    ) -> (r: Result<ClockUpdateResult, C::Error>)
        ensures
            final(self).limits() == old(self).limits(),
            final(self).spec_clock() == old(self).spec_clock(),
            ({
                let plan = old(self)@.spec_plan(
                    old(self).limits(),
                    ClockInput {
                        offset,
                        jitter,
                        root_delay,
                        root_dispersion,
                        leap_status,
                        last_peer_update,
                    },
                );
                &&& !plan.touches_clock() ==> r is Ok
                &&& r matches Ok(verdict) ==> verdict == plan.result && final(self)@ == plan.next
                &&& r is Err ==> final(self)@ == old(self)@
            }),
    {
        let input = ClockInput {
            offset,
            jitter,
            root_delay,
            root_dispersion,
            leap_status,
            last_peer_update,
        };
        let plan = self.plan(&input);
        let outcome = self.perform(&plan);
        self.commit(plan, outcome)
    }
}

/// In the `Sync` state one update moves the preferred poll interval by at
/// most one step, and moves it only where the counter, with the new sample
/// counted, has left the band of `POLL_ADJUST` on either side.
pub proof fn lemma_poll_interval_steady(
    state: ControllerState,
    limits: PanicThresholds,
    input: ClockInput,
)
    requires
        state.wf(),
        state.state == ClockState::Sync,
    ensures
        ({
            let next = state.spec_plan(limits, input).next;
            let moved = state.moved_counter(input.offset, input.jitter);
            &&& next.wf()
            &&& -1 <= next.preferred_poll_interval.log - state.preferred_poll_interval.log <= 1
            &&& next.preferred_poll_interval != state.preferred_poll_interval ==> {
                &&& state.spec_plan(limits, input).result == ClockUpdateResult::Slew
                &&& (moved > POLL_ADJUST || moved < -POLL_ADJUST)
                &&& next.poll_interval_counter == 0
            }
        }),
{
}

/// No update in the `Sync` state steps the clock: a large offset is first
/// held back as a spike.
pub proof fn lemma_sync_never_steps(
    state: ControllerState,
    limits: PanicThresholds,
    input: ClockInput,
)
    requires
        state.state == ClockState::Sync,
    ensures
        state.spec_plan(limits, input).result != ClockUpdateResult::Step,
{
}

/// During startup with no startup limit nothing is refused: the first
/// offset, however large, steps the clock.
pub proof fn lemma_blank_startup_steps(
    state: ControllerState,
    limits: PanicThresholds,
    input: ClockInput,
)
    requires
        state.state == ClockState::StartupBlank,
        limits.startup == (StepThreshold { forward: None, backward: None }),
    ensures
        state.spec_plan(limits, input).result == ClockUpdateResult::Step,
        state.spec_plan(limits, input).next.state == ClockState::MeasureFreq,
        state.spec_plan(limits, input).action == (ClockAction::Step { offset: input.offset }),
{
}

} // verus!
