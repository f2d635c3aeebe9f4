//! The reference transforms: ramp-limited smoothing ([`Smooth`]) and
//! threshold/hysteresis filtering ([`Step`]).

use vstd::prelude::*;

use crate::Effect;
use crate::abs_diff;

verus! {

/// Ramp-limited smoothing: the output climbs toward the most recent target
/// by at most `speed` per call and never exceeds that target. A target below
/// the current output clamps the output down immediately (a hard clamp, not
/// a ramp-down).
#[derive(Clone, Copy)]
pub struct Smooth {
    current: u16,
    target: u16,
    speed: u16,
}

impl Smooth {
    /// The output value carried over from the previous call.
    pub closed spec fn spec_current(self) -> u16 {
        self.current
    }

    /// The most recently requested target.
    pub closed spec fn spec_target(self) -> u16 {
        self.target
    }

    /// The fixed per-call increment.
    pub closed spec fn spec_speed(self) -> u16 {
        self.speed
    }

    /// A fresh ramp at rest: output and target start at zero.
    pub fn new(speed: u16) -> (s: Smooth)
        ensures
            s.spec_current() == 0,
            s.spec_target() == 0,
            s.spec_speed() == speed,
    {
        Smooth { current: 0, target: 0, speed }
    }
}

/// The output of one ramp step: advance by `speed`, saturating at the top of
/// the 16-bit domain, then clamp to the new target.
pub open spec fn smooth_step(current: u16, speed: u16, target: u16) -> u16 {
    let advanced: u16 = if current + speed > u16::MAX {
        u16::MAX
    } else {
        (current + speed) as u16
    };
    if advanced > target {
        target
    } else {
        advanced
    }
}

impl Effect for Smooth {
    closed spec fn next(self, input: u16) -> Smooth {
        Smooth {
            current: smooth_step(self.current, self.speed, input),
            target: input,
            speed: self.speed,
        }
    }

    closed spec fn out(self, input: u16) -> u16 {
        smooth_step(self.current, self.speed, input)
    }

    fn update(&mut self, input: u16) -> (output: u16) {
        self.target = input;
        self.current = self.current.saturating_add(self.speed);
        if self.current > self.target {
            self.current = self.target;
        }
        self.current
    }
}

/// Threshold/hysteresis filtering (a dead-zone/noise gate): an input is
/// accepted, and becomes the new baseline, exactly when its absolute
/// difference from the last accepted value reaches `sensitivity`; smaller
/// fluctuations return the prior accepted value unchanged.
#[derive(Clone, Copy)]
pub struct Step {
    last: u16,
    sensitivity: u16,
}

impl Step {
    /// The last accepted value, the baseline the threshold is measured from.
    pub closed spec fn spec_last(self) -> u16 {
        self.last
    }

    /// The fixed sensitivity threshold.
    pub closed spec fn spec_sensitivity(self) -> u16 {
        self.sensitivity
    }

    /// A fresh filter with baseline zero.
    pub fn new(sensitivity: u16) -> (s: Step)
        ensures
            s.spec_last() == 0,
            s.spec_sensitivity() == sensitivity,
    {
        Step { last: 0, sensitivity }
    }
}

impl Effect for Step {
    closed spec fn next(self, input: u16) -> Step {
        if abs_diff(input, self.last) >= self.sensitivity {
            Step { last: input, sensitivity: self.sensitivity }
        } else {
            self
        }
    }

    closed spec fn out(self, input: u16) -> u16 {
        if abs_diff(input, self.last) >= self.sensitivity {
            input
        } else {
            self.last
        }
    }

    fn update(&mut self, input: u16) -> (output: u16) {
        let diff: u16 = if input >= self.last {
            input - self.last
        } else {
            self.last - input
        };
        if diff >= self.sensitivity {
            self.last = input;
            input
        } else {
            self.last
        }
    }
}

/// Ramp law: one smoothing step never exceeds the requested target, never
/// advances by more than `speed`, and never decreases unless the target
/// falls below the current output.
pub proof fn lemma_smooth_bounds(s: Smooth, input: u16)
    ensures
        s.out(input) == smooth_step(s.spec_current(), s.spec_speed(), input),
        s.out(input) <= input,
        s.out(input) <= s.spec_current() + s.spec_speed(),
        s.spec_current() <= input ==> s.spec_current() <= s.out(input),
        s.next(input).spec_current() == s.out(input),
        s.next(input).spec_target() == input,
        s.next(input).spec_speed() == s.spec_speed(),
{
}

/// Threshold law: a step filter moves its baseline, and lets the input
/// through, exactly when the input differs from the last accepted value by
/// at least the sensitivity; a sub-threshold input leaves the state
/// unchanged and returns the prior accepted value.
pub proof fn lemma_step_threshold(s: Step, input: u16)
    ensures
        abs_diff(input, s.spec_last()) >= s.spec_sensitivity() ==> s.out(input) == input
            && s.next(input).spec_last() == input,
        abs_diff(input, s.spec_last()) < s.spec_sensitivity() ==> s.out(input) == s.spec_last()
            && s.next(input) == s,
        s.next(input).spec_sensitivity() == s.spec_sensitivity(),
{
}

/// The filter state after feeding a whole run of inputs, in order.
pub open spec fn run_step_filter(s: Step, inputs: Seq<u16>) -> Step
    decreases inputs.len(),
{
    if inputs.len() == 0 {
        s
    } else {
        run_step_filter(s, inputs.drop_last()).next(inputs.last())
    }
}

/// Idempotence under sub-threshold perturbation: a run of inputs, each
/// within the sensitivity of the baseline, leaves the filter exactly as it
/// was — every reading of it still returns the original baseline.
pub proof fn lemma_step_sub_threshold_run(s: Step, inputs: Seq<u16>)
    requires
        forall|i: int|
            0 <= i < inputs.len() ==> abs_diff(inputs[i], s.spec_last()) < s.spec_sensitivity(),
    ensures
        run_step_filter(s, inputs) == s,
    decreases inputs.len(),
{
    if inputs.len() > 0 {
        assert(forall|i: int|
            0 <= i < inputs.len() - 1 ==> abs_diff(inputs.drop_last()[i], s.spec_last())
                < s.spec_sensitivity());
        lemma_step_sub_threshold_run(s, inputs.drop_last());
    }
}

} // verus!
