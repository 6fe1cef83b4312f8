//! Per-bar temporal smoothing of bar heights.
//!
//! The smoother keeps one height per rendered bar and, once per analysis
//! tick, moves each height toward its new target by a configurable fraction:
//! `state <- state + (target - state) * factor`. Heights and targets are
//! fixed-point values in thousandths of a height unit, and the factor is a
//! fixed-point fraction in thousandths of one, so a factor of `0` freezes the
//! bars and a factor of `FACTOR_SCALE` snaps them to their targets.
//!
//! The smoothing is driven by tick count, not wall-clock time: the same
//! factor smooths faster when the external scheduler ticks faster.

use vstd::prelude::*;

verus! {

/// The fixed-point value that stands for a factor of one: factors are given
/// in thousandths.
pub const FACTOR_SCALE: u64 = 1000;

/// One smoothing step: the state moved toward the target by
/// `factor / FACTOR_SCALE` of the distance, with the moved distance rounded
/// toward zero.
pub open spec fn smooth_step(state: int, target: int, factor: int) -> int {
    if target >= state {
        state + (target - state) * factor / (FACTOR_SCALE as int)
    } else {
        state - (state - target) * factor / (FACTOR_SCALE as int)
    }
}

/// Moves `current` toward `target` by `factor` thousandths of the distance.
pub fn interpolate(current: u64, target: u64, factor: u64) -> (r: u64)
    requires
        factor <= FACTOR_SCALE,
    ensures
        r == smooth_step(current as int, target as int, factor as int),
{
    if target >= current {
        let distance = target - current;
        proof {
            lemma_scaled_distance_bounds(distance as int, factor as int);
        }
        let delta = ((distance as u128) * (factor as u128) / (FACTOR_SCALE as u128)) as u64;
        current + delta
    } else {
        let distance = current - target;
        proof {
            lemma_scaled_distance_bounds(distance as int, factor as int);
        }
        let delta = ((distance as u128) * (factor as u128) / (FACTOR_SCALE as u128)) as u64;
        current - delta
    }
}

/// The fraction of a non-negative distance moved in one step never exceeds
/// the distance itself and never falls below zero.
proof fn lemma_scaled_distance_bounds(distance: int, factor: int)
    requires
        0 <= distance,
        0 <= factor <= FACTOR_SCALE,
    ensures
        0 <= distance * factor / (FACTOR_SCALE as int) <= distance,
{
    vstd::arithmetic::mul::lemma_mul_nonnegative(distance, factor);
    vstd::arithmetic::div_mod::lemma_div_is_ordered(0, distance * factor, FACTOR_SCALE as int);
    vstd::arithmetic::mul::lemma_mul_inequality(factor, FACTOR_SCALE as int, distance);
    vstd::arithmetic::mul::lemma_mul_is_commutative(factor, distance);
    vstd::arithmetic::mul::lemma_mul_is_commutative(FACTOR_SCALE as int, distance);
    vstd::arithmetic::div_mod::lemma_div_is_ordered(
        distance * factor,
        distance * (FACTOR_SCALE as int),
        FACTOR_SCALE as int,
    );
    vstd::arithmetic::div_mod::lemma_div_multiples_vanish(distance, FACTOR_SCALE as int);
}

/// Law: a zero interpolation factor freezes the state. Whatever target
/// arrives, the step leaves the state exactly where it was.
pub proof fn lemma_factor_zero_freezes(state: int, target: int)
    ensures
        smooth_step(state, target, 0) == state,
{
}

/// Law: a full interpolation factor snaps the state to the target in a single
/// step.
pub proof fn lemma_factor_one_snaps(state: int, target: int)
    ensures
        smooth_step(state, target, FACTOR_SCALE as int) == target,
{
    if target >= state {
        vstd::arithmetic::div_mod::lemma_div_multiples_vanish(target - state, FACTOR_SCALE as int);
    } else {
        vstd::arithmetic::div_mod::lemma_div_multiples_vanish(state - target, FACTOR_SCALE as int);
    }
}

/// Law: a smoothing step never leaves the closed interval between the old
/// state and the target.
pub proof fn lemma_step_stays_in_range(state: int, target: int, factor: int)
    requires
        0 <= factor <= FACTOR_SCALE,
    ensures
        smooth_step(state, target, factor) >= (if state <= target {
            state
        } else {
            target
        }),
        smooth_step(state, target, factor) <= (if state <= target {
            target
        } else {
            state
        }),
{
    if target >= state {
        lemma_scaled_distance_bounds(target - state, factor);
    } else {
        lemma_scaled_distance_bounds(state - target, factor);
    }
}

/// Law: smoothing a non-negative state toward a non-negative target yields a
/// non-negative height, so bars never render below the baseline.
pub proof fn lemma_step_nonnegative(state: int, target: int, factor: int)
    requires
        0 <= state,
        0 <= target,
        0 <= factor <= FACTOR_SCALE,
    ensures
        smooth_step(state, target, factor) >= 0,
{
    lemma_step_stays_in_range(state, target, factor);
}

/// Law: a tick with factor zero is the identity on the whole bar state. Its
/// heights after the tick are its heights before, whatever targets arrived —
/// so a smoother configured with a zero factor never changes after creation.
pub proof fn lemma_tick_with_factor_zero_is_identity(states: Seq<u64>, targets: Seq<u64>)
    ensures
        forall|i: int|
            0 <= i < states.len() ==> #[trigger] smooth_step(
                states[i] as int,
                targets[i] as int,
                0,
            ) == states[i],
{
    assert forall|i: int| 0 <= i < states.len() implies #[trigger] smooth_step(
        states[i] as int,
        targets[i] as int,
        0,
    ) == states[i] by {
        lemma_factor_zero_freezes(states[i] as int, targets[i] as int);
    }
}

/// Law: a tick with a full factor sets the whole bar state to the targets,
/// whatever heights it held before.
pub proof fn lemma_tick_with_full_factor_snaps(states: Seq<u64>, targets: Seq<u64>)
    ensures
        forall|i: int|
            0 <= i < states.len() ==> #[trigger] smooth_step(
                states[i] as int,
                targets[i] as int,
                FACTOR_SCALE as int,
            ) == targets[i],
{
    assert forall|i: int| 0 <= i < states.len() implies #[trigger] smooth_step(
        states[i] as int,
        targets[i] as int,
        FACTOR_SCALE as int,
    ) == targets[i] by {
        lemma_factor_one_snaps(states[i] as int, targets[i] as int);
    }
}

/// Law: a silent frame keeps a bar at the baseline. A bar at height zero
/// whose target is zero stays at exactly zero, whatever the factor — so an
/// all-zero window, whose transform magnitudes and target heights are all
/// zero, leaves every bar of a freshly created smoother at zero.
pub proof fn lemma_silence_stays_at_baseline(factor: int)
    requires
        0 <= factor <= FACTOR_SCALE,
    ensures
        smooth_step(0, 0, factor) == 0,
{
    lemma_step_stays_in_range(0, 0, factor);
}

/// One smoothed height per rendered bar of one channel. Created with every
/// bar at height zero; each tick moves every bar toward its target by the
/// configured factor.
pub struct TemporalSmoother {
    states: Vec<u64>,
    factor: u64,
}

impl TemporalSmoother {
    /// The current bar heights, in thousandths of a height unit.
    pub closed spec fn states(&self) -> Seq<u64> {
        self.states@
    }

    /// The per-tick interpolation factor, in thousandths of one.
    pub closed spec fn factor(&self) -> u64 {
        self.factor
    }

    #[verifier::type_invariant]
    spec fn type_inv(self) -> bool {
        self.factor <= FACTOR_SCALE
    }

    /// Creates a smoother for `num_bars` bars, all starting at height zero.
    pub fn new(num_bars: usize, factor: u64) -> (r: TemporalSmoother)
        requires
            factor <= FACTOR_SCALE,
        ensures
            r.factor() == factor,
            r.states().len() == num_bars,
            forall|i: int| 0 <= i < num_bars ==> r.states()[i] == 0u64,
    {
        let mut states: Vec<u64> = Vec::new();
        let mut i: usize = 0;
        while i < num_bars
            invariant
                i <= num_bars,
                states.len() == i,
                forall|j: int| 0 <= j < i ==> states@[j] == 0u64,
            decreases num_bars - i,
        {
            states.push(0);
            i = i + 1;
        }
        TemporalSmoother { states, factor }
    }

    /// Number of bars this smoother tracks.
    pub fn bar_count(&self) -> (n: usize)
        ensures
            n == self.states().len(),
    {
        self.states.len()
    }

    /// The current bar heights, ready for rendering.
    pub fn heights(&self) -> (h: &Vec<u64>)
        ensures
            h@ == self.states(),
    {
        &self.states
    }

    /// One analysis tick: moves every bar height toward its target by the
    /// configured factor.
    pub fn tick(&mut self, targets: &Vec<u64>)
        requires
            targets.len() == old(self).states().len(),
        ensures
            final(self).factor() == old(self).factor(),
            final(self).states().len() == old(self).states().len(),
            forall|i: int|
                0 <= i < targets.len() ==> final(self).states()[i] == smooth_step(
                    old(self).states()[i] as int,
                    targets@[i] as int,
                    old(self).factor() as int,
                ),
    {
        proof {
            use_type_invariant(&*self);
        }
        let ghost init_states = self.states@;
        let ghost init_factor = self.factor;
        let n = self.states.len();
        let mut i: usize = 0;
        while i < n
            invariant
                i <= n,
                n == targets.len(),
                init_states.len() == n,
                self.factor == init_factor,
                self.factor <= FACTOR_SCALE,
                self.states.len() == n,
                forall|j: int|
                    0 <= j < i ==> self.states@[j] == smooth_step(
                        init_states[j] as int,
                        targets@[j] as int,
                        init_factor as int,
                    ),
                forall|j: int| i <= j < n ==> self.states@[j] == init_states[j],
            decreases n - i,
        {
            let updated = interpolate(self.states[i], targets[i], self.factor);
            self.states[i] = updated;
            i = i + 1;
        }
    }
}

} // verus!
