//! Filtering and rescaling of raw 16-bit sensor readings (joystick, pedal,
//! potentiometer axes) without heap allocation in the sampling path.
//!
//! An [`Axis`] owns a working value and an optional built-in dead-zone
//! filter; each sampling cycle it ingests a raw reading, folds a
//! caller-supplied ordered chain of [`DynEffect`] transforms over it, and
//! exposes the result rescaled into an arbitrary output range.

use vstd::prelude::*;

pub mod effects;

use crate::effects::Smooth;
use crate::effects::Step;

verus! {

/// Largest transform state, in bytes, that a [`DynEffect`] is sized for.
pub const MAX_EFFECT_SIZE: usize = 16;

/// The capability every transform implements: consume the current 16-bit
/// value and produce an updated one, retaining private state across calls.
///
/// `next` and `out` are the mathematical model of one update step: an
/// implementation's `update` must step its state to `next` and return `out`.
pub trait Effect: Sized {
    /// The state this transform holds after one update on `input`.
    spec fn next(self, input: u16) -> Self;

    /// The value this transform returns for one update on `input`.
    spec fn out(self, input: u16) -> u16;

    /// Feed one sample through the transform.
    fn update(&mut self, input: u16) -> (output: u16)
        ensures
            *final(self) == old(self).next(input),
            output == old(self).out(input),
    ;
}

/// Absolute difference of two 16-bit values, as a mathematical integer.
pub open spec fn abs_diff(a: u16, b: u16) -> int {
    if a >= b {
        a - b
    } else {
        b - a
    }
}

/// `a - b` with the result held at zero when `b` exceeds `a`.
pub open spec fn sat_sub_u16(a: u16, b: u16) -> u16 {
    if a >= b {
        (a - b) as u16
    } else {
        0
    }
}

/// `v` clamped into `[lo, hi]`.
pub open spec fn clamp_u16(v: u16, lo: u16, hi: u16) -> u16 {
    if v < lo {
        lo
    } else if v > hi {
        hi
    } else {
        v
    }
}

/// One transform of a chain, behind a uniform handle.
///
/// Any two handles are interchangeable in a homogeneous sequence whatever
/// they wrap, so one ordered `Vec<DynEffect>` can host differently-behaved
/// stateful transforms. The handle is a closed tagged union over the
/// transform kinds this crate provides, each of which fits in
/// [`MAX_EFFECT_SIZE`] bytes; wrapping copies the transform's state in
/// place, with no heap allocation.
#[derive(Clone, Copy)]
pub struct DynEffect {
    kind: EffectKind,
}

#[derive(Clone, Copy)]
enum EffectKind {
    Smooth(Smooth),
    Step(Step),
}

impl DynEffect {
    /// The handle wrapping a given ramp-limited smoother.
    pub closed spec fn of_smooth(s: Smooth) -> DynEffect {
        DynEffect { kind: EffectKind::Smooth(s) }
    }

    /// The handle wrapping a given threshold filter.
    pub closed spec fn of_step(s: Step) -> DynEffect {
        DynEffect { kind: EffectKind::Step(s) }
    }

    /// The handle's state after one update on `input`: the wrapped
    /// transform steps, whatever its kind.
    pub closed spec fn next(self, input: u16) -> DynEffect {
        match self.kind {
            EffectKind::Smooth(s) => DynEffect { kind: EffectKind::Smooth(s.next(input)) },
            EffectKind::Step(s) => DynEffect { kind: EffectKind::Step(s.next(input)) },
        }
    }

    /// The value the wrapped transform returns for one update on `input`.
    pub closed spec fn out(self, input: u16) -> u16 {
        match self.kind {
            EffectKind::Smooth(s) => s.out(input),
            EffectKind::Step(s) => s.out(input),
        }
    }

    /// Feed one sample through the wrapped transform, mutating its state in
    /// place.
    pub fn update(&mut self, input: u16) -> (output: u16)
        ensures
            *final(self) == old(self).next(input),
            output == old(self).out(input),
    {
        match &mut self.kind {
            EffectKind::Smooth(s) => s.update(input),
            EffectKind::Step(s) => s.update(input),
        }
    }
}

impl From<Smooth> for DynEffect {
    fn from(s: Smooth) -> (d: DynEffect) {
        DynEffect { kind: EffectKind::Smooth(s) }
    }
}

impl vstd::std_specs::convert::FromSpecImpl<Smooth> for DynEffect {
    open spec fn obeys_from_spec() -> bool {
        true
    }

    open spec fn from_spec(s: Smooth) -> DynEffect {
        DynEffect::of_smooth(s)
    }
}

impl From<Step> for DynEffect {
    fn from(s: Step) -> (d: DynEffect) {
        DynEffect { kind: EffectKind::Step(s) }
    }
}

impl vstd::std_specs::convert::FromSpecImpl<Step> for DynEffect {
    open spec fn obeys_from_spec() -> bool {
        true
    }

    open spec fn from_spec(s: Step) -> DynEffect {
        DynEffect::of_step(s)
    }
}

/// A handle wrapping a smoother behaves exactly as the smoother itself.
pub proof fn lemma_wrapped_smooth(s: Smooth, input: u16)
    ensures
        DynEffect::of_smooth(s).out(input) == s.out(input),
        DynEffect::of_smooth(s).next(input) == DynEffect::of_smooth(s.next(input)),
{
}

/// A handle wrapping a threshold filter behaves exactly as the filter
/// itself.
pub proof fn lemma_wrapped_step(s: Step, input: u16)
    ensures
        DynEffect::of_step(s).out(input) == s.out(input),
        DynEffect::of_step(s).next(input) == DynEffect::of_step(s.next(input)),
{
}

/// The states and the value produced by folding a chain of transforms, in
/// sequence order, over an incoming value: `.0` holds every transform's
/// state after its step, `.1` the last transform's output (or the incoming
/// value for an empty chain).
pub open spec fn run_chain(chain: Seq<DynEffect>, input: u16) -> (Seq<DynEffect>, u16)
    decreases chain.len(),
{
    if chain.len() == 0 {
        (chain, input)
    } else {
        let prev = run_chain(chain.drop_last(), input);
        (prev.0.push(chain.last().next(prev.1)), chain.last().out(prev.1))
    }
}

/// A chain run touches every transform exactly once: the sequence of
/// post-run states is as long as the chain.
pub proof fn lemma_run_chain_len(chain: Seq<DynEffect>, input: u16)
    ensures
        run_chain(chain, input).0.len() == chain.len(),
    decreases chain.len(),
{
    if chain.len() > 0 {
        lemma_run_chain_len(chain.drop_last(), input);
    }
}

/// Unfolding a chain run at the back: a transform appended to the chain
/// consumes the shorter chain's output, and the states ahead of it are
/// untouched.
pub proof fn lemma_run_chain_push(chain: Seq<DynEffect>, e: DynEffect, input: u16)
    ensures
        run_chain(chain.push(e), input).1 == e.out(run_chain(chain, input).1),
        run_chain(chain.push(e), input).0 == run_chain(chain, input).0.push(
            e.next(run_chain(chain, input).1),
        ),
{
    assert(chain.push(e).drop_last() =~= chain);
    assert(chain.push(e).last() == e);
}

/// One rescalable input axis: a fixed range `[min, max]` with an
/// orientation, a built-in dead-zone filter (`step_filter_factor == 0`
/// disables it), and the working value of the current sampling cycle.
pub struct Axis {
    /// Low end of the configured range.
    pub min: u16,
    /// High end of the configured range; read-out expects `min <= max`.
    pub max: u16,
    /// Whether read-out reflects the value about the configured range.
    pub reversed: bool,
    /// Threshold of the built-in dead-zone; zero disables it.
    pub step_filter_factor: u16,
    /// The last reading accepted by the built-in dead-zone.
    pub old_value: u16,
    /// The working value of the current sampling cycle.
    pub value: u16,
}

impl Axis {
    /// What the built-in dead-zone passes on for a raw reading: the reading
    /// itself when the filter is disabled or the difference from the last
    /// accepted reading reaches the threshold, the last accepted reading
    /// otherwise.
    pub open spec fn filtered_value(self, input: u16) -> u16 {
        if self.step_filter_factor == 0 {
            input
        } else if abs_diff(input, self.old_value) >= self.step_filter_factor {
            input
        } else {
            self.old_value
        }
    }

    /// The dead-zone's baseline after ingesting a raw reading: it moves to
    /// the reading exactly when the reading is accepted.
    pub open spec fn filtered_baseline(self, input: u16) -> u16 {
        if self.step_filter_factor != 0 && abs_diff(input, self.old_value)
            >= self.step_filter_factor {
            input
        } else {
            self.old_value
        }
    }

    /// The whole axis state after ingesting `value` through the built-in
    /// dead-zone and a chain of transforms.
    pub open spec fn after_update(self, value: u16, chain: Seq<DynEffect>) -> Axis {
        Axis {
            old_value: self.filtered_baseline(value),
            value: run_chain(chain, self.filtered_value(value)).1,
            ..self
        }
    }

    /// The working value after reflection (for a reversed axis) and
    /// clamping into `[min, max]`.
    pub open spec fn normalized(self) -> u16 {
        let reflected = if self.reversed {
            sat_sub_u16(self.max, sat_sub_u16(self.value, self.min))
        } else {
            self.value
        };
        clamp_u16(reflected, self.min, self.max)
    }

    /// The read-out: the normalized working value rescaled from
    /// `[min, max]` into `[range_min, range_max]`.
    pub open spec fn output_spec(self, range_min: u16, range_max: u16) -> u16 {
        rescale(self.normalized(), self.min, self.max, range_min, range_max)
    }

    /// A fresh axis over `[min, max]`: dead-zone disabled, working value and
    /// dead-zone baseline at the low end.
    pub fn new(min: u16, max: u16, reversed: bool) -> (a: Axis)
        ensures
            a.min == min,
            a.max == max,
            a.reversed == reversed,
            a.step_filter_factor == 0,
            a.old_value == min,
            a.value == min,
    {
        Axis { min, max, reversed, step_filter_factor: 0, old_value: min, value: min }
    }

    /// The built-in dead-zone: pass `value` through when the filter is
    /// disabled or the difference from the last accepted reading reaches
    /// the threshold, otherwise repeat the last accepted reading.
    fn step_filter(&mut self, value: u16) -> (out: u16)
        ensures
            out == old(self).filtered_value(value),
            final(self).old_value == old(self).filtered_baseline(value),
            final(self).value == old(self).value,
            final(self).min == old(self).min,
            final(self).max == old(self).max,
            final(self).reversed == old(self).reversed,
            final(self).step_filter_factor == old(self).step_filter_factor,
    {
        if self.step_filter_factor == 0 {
            return value;
        }

        let diff: u16 = if value >= self.old_value {
            value - self.old_value
        } else {
            self.old_value - value
        };
        if diff >= self.step_filter_factor {
            self.old_value = value;
            value
        } else {
            self.old_value
        }
    }

    /// Ingest one raw reading: apply the built-in dead-zone, then fold each
    /// transform of `chain` over the value in sequence order, mutating the
    /// transforms' states in place, and store the result as the working
    /// value.
    pub fn update(&mut self, value: u16, chain: &mut Vec<DynEffect>)
        ensures
            *final(self) == old(self).after_update(value, old(chain)@),
            final(chain)@ == run_chain(old(chain)@, old(self).filtered_value(value)).0,
            final(self).min == old(self).min,
            final(self).max == old(self).max,
            final(self).reversed == old(self).reversed,
            final(self).step_filter_factor == old(self).step_filter_factor,
            final(self).old_value == old(self).filtered_baseline(value),
            final(self).value == run_chain(old(chain)@, old(self).filtered_value(value)).1,
    {
        let mut cur: u16 = self.step_filter(value);
        let ghost orig: Seq<DynEffect> = chain@;
        let ghost v0: u16 = cur;
        let mut i: usize = 0;
        while i < chain.len()
            invariant
                i <= chain.len(),
                chain@.len() == orig.len(),
                forall|j: int| i <= j < orig.len() ==> chain@[j] == orig[j],
                run_chain(orig.take(i as int), v0) == (chain@.take(i as int), cur),
            decreases chain.len() - i,
        {
            let ghost pre = chain@;
            let ghost cur_in = cur;
            cur = chain[i].update(cur);
            i = i + 1;
            proof {
                assert(orig.take(i as int).drop_last() =~= orig.take(i - 1));
                assert(orig.take(i as int).last() == orig[i - 1]);
                assert(chain@.take(i as int) =~= pre.take(i - 1).push(
                    orig[i - 1].next(cur_in),
                ));
            }
        }
        proof {
            assert(orig.take(chain@.len() as int) =~= orig);
            assert(chain@.take(chain@.len() as int) =~= chain@);
        }
        self.value = cur;
    }

    /// The working value reflected (for a reversed axis) and clamped into
    /// `[min, max]`.
    fn output_ranged(&self) -> (v: u16)
        ensures
            v == self.normalized(),
    {
        let mut normalized: u16 = self.value;
        if self.reversed {
            normalized = self.max.saturating_sub(self.value.saturating_sub(self.min));
        }
        if normalized < self.min {
            self.min
        } else if normalized > self.max {
            self.max
        } else {
            normalized
        }
    }

    /// The read-out: the working value, clamped into `[min, max]` (after
    /// reflection when the axis is reversed), linearly rescaled into
    /// `[range_min, range_max]` with the real-valued result floored. A pure
    /// projection: it mutates nothing and may be read any number of times
    /// per cycle.
    pub fn output(&self, range_min: u16, range_max: u16) -> (out: u16)
        requires
            self.min <= self.max,
            range_min <= range_max,
        ensures
            out == self.output_spec(range_min, range_max),
            range_min <= out <= range_max,
    {
        let v = self.output_ranged();
        if self.max == self.min {
            return range_min;
        }
        let span: u64 = (self.max - self.min) as u64;
        let delta: u64 = (v - self.min) as u64;
        let width: u64 = (range_max - range_min) as u64;
        proof {
            lemma_rescale_bounds(v, self.min, self.max, range_min, range_max);
        }
        let num: u64 = delta * width;
        let out64: u64 = range_min as u64 + num / span;
        out64 as u16
    }
}

/// Linear rescaling of `v` from `[min, max]` into `[range_min, range_max]`:
/// the floor of `range_min + (v - min) * (range_max - range_min) /
/// (max - min)` in real arithmetic. A degenerate range (`min == max`) reads
/// out at the low end of the requested range.
pub open spec fn rescale(v: u16, min: u16, max: u16, range_min: u16, range_max: u16) -> u16 {
    if min == max {
        range_min
    } else {
        (range_min + (v - min) * (range_max - range_min) / (max - min)) as u16
    }
}

/// The rescaled value lands inside the requested range, and the product
/// feeding it stays inside 64 bits.
proof fn lemma_rescale_bounds(v: u16, min: u16, max: u16, range_min: u16, range_max: u16)
    requires
        min <= v <= max,
        min < max,
        range_min <= range_max,
    ensures
        (v - min) * (range_max - range_min) <= 0xFFFF * 0xFFFF,
        0 <= (v - min) * (range_max - range_min),
        (v - min) * (range_max - range_min) / (max - min) <= range_max - range_min,
        rescale(v, min, max, range_min, range_max)
            == range_min + (v - min) * (range_max - range_min) / (max - min),
{
    let delta = v - min;
    let width = (range_max - range_min) as int;
    let span = (max - min) as int;
    assert(delta * width <= 0xFFFF * 0xFFFF && 0 <= delta * width && delta * width <= span
        * width) by (nonlinear_arith)
        requires
            0 <= delta <= 0xFFFF,
            0 <= width <= 0xFFFF,
            delta <= span <= 0xFFFF,
    ;
    vstd::arithmetic::div_mod::lemma_div_is_ordered(delta * width, span * width, span);
    vstd::arithmetic::div_mod::lemma_div_by_multiple(width, span);
    assert(span * width == width * span) by (nonlinear_arith);
    vstd::arithmetic::div_mod::lemma_div_pos_is_pos(delta * width, span);
}

/// Identity chain law: with the built-in dead-zone disabled and an empty
/// transform chain, a non-reversed axis reads out the raw value clamped
/// into `[min, max]` and rescaled — ingestion changes nothing else.
pub proof fn lemma_identity_chain(a: Axis, raw: u16, range_min: u16, range_max: u16)
    requires
        a.step_filter_factor == 0,
        !a.reversed,
    ensures
        a.after_update(raw, Seq::<DynEffect>::empty()).output_spec(range_min, range_max)
            == rescale(clamp_u16(raw, a.min, a.max), a.min, a.max, range_min, range_max),
{
}

/// Reflection law: a reversed axis whose working value is `v` in
/// `[min, max]` reads out exactly what the non-reversed axis with the same
/// range reads out for the reflected working value `max - (v - min)`.
pub proof fn lemma_reversed_reflection(rev: Axis, fwd: Axis, range_min: u16, range_max: u16)
    requires
        rev.min == fwd.min,
        rev.max == fwd.max,
        rev.min <= rev.max,
        rev.reversed,
        !fwd.reversed,
        rev.min <= rev.value <= rev.max,
        fwd.value == rev.max - (rev.value - rev.min),
    ensures
        rev.output_spec(range_min, range_max) == fwd.output_spec(range_min, range_max),
{
}

} // verus!
