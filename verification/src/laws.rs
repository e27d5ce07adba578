//! Laws of the decision core: properties that hold of the state machine, the
//! blink computation and the arbitration for all inputs, stated and proved
//! over the same spec functions the executable contracts use.

use vstd::prelude::*;
use vstd::arithmetic::div_mod::lemma_mod_multiples_vanish;
use vstd::arithmetic::div_mod::lemma_small_mod;

use crate::logic::State;
use crate::logic::SystemState;
use crate::logic::blink_is_on;
use crate::logic::left_turn_lights;
use crate::logic::lights_full_beam;
use crate::logic::right_turn_lights;
use crate::logic::spec_power_output;
use crate::logic::spec_update_state;
use crate::logic::wrapping_elapsed;
use crate::time::TimeStamp;

verus! {

/// The activation state a signal reaches after one state-machine step per
/// element of `nows`, every step with an "on" input sampled at that element's
/// tick.
pub open spec fn run_on_samples(init: State, nows: Seq<TimeStamp>) -> State
    decreases nows.len(),
{
    if nows.len() == 0 {
        init
    } else {
        run_on_samples(spec_update_state(init, true, nows[0]), nows.subrange(1, nows.len() as int))
    }
}

/// An already active signal keeps its activation edge through any run of
/// "on" inputs.
pub proof fn lemma_active_edge_kept(since: TimeStamp, nows: Seq<TimeStamp>)
    ensures
        run_on_samples(State::Active(since), nows) == State::Active(since),
    decreases nows.len(),
{
    if nows.len() > 0 {
        lemma_active_edge_kept(since, nows.subrange(1, nows.len() as int));
    }
}

/// Activation-edge stability: over any run of "on" inputs with no
/// intervening "off", a signal that starts inactive ends up active with the
/// timestamp of the first "on" sample, however many samples follow.
pub proof fn lemma_activation_edge_stability(nows: Seq<TimeStamp>)
    requires
        nows.len() > 0,
    ensures
        run_on_samples(State::Inactive, nows) == State::Active(nows[0]),
{
    lemma_active_edge_kept(nows[0], nows.subrange(1, nows.len() as int));
}

/// Immediate-off: a single "off" input yields `Inactive` from any previous
/// state, and an inactive signal never blinks on any later cycle.
pub proof fn lemma_immediate_off(
    prev: State,
    now: TimeStamp,
    cur_time: TimeStamp,
    on_time: u32,
    off_time: u32,
)
    ensures
        spec_update_state(prev, false, now) == State::Inactive,
        !blink_is_on(spec_update_state(prev, false, now), cur_time, on_time, off_time),
{
}

/// Sampling the wrapping counter `x` ticks after `t0` always measures an
/// elapsed time of `x`, whether or not the counter wrapped in between.
pub proof fn lemma_wrapping_elapsed_add(t0: u32, x: nat)
    requires
        x < 0x1_0000_0000,
    ensures
        wrapping_elapsed(t0, (((t0 + x) % 0x1_0000_0000) as u32)) == x,
{
    let m: int = 0x1_0000_0000;
    let s: int = t0 + x;
    if s < m {
        lemma_small_mod(s as nat, m as nat);
    } else {
        lemma_mod_multiples_vanish(1, s - m, m);
        assert(m * 1 + (s - m) == s);
        lemma_small_mod((s - m) as nat, m as nat);
    }
}

/// Blink correctness: with equal on and off durations `t`, a signal
/// activated at `t0` is lit at `t0 + k * 2 * t + d` exactly when `d < t`,
/// for every whole period count `k` and offset `d` within the period, as
/// long as the elapsed time stays within one period of the tick counter.
pub proof fn lemma_blink_correctness(t0: u32, t: u32, k: nat, d: nat)
    requires
        0 < t,
        t + t <= u32::MAX,
        d < 2 * t,
        k * (2 * t) + d < 0x1_0000_0000,
    ensures
        blink_is_on(
            State::Active(TimeStamp(t0)),
            TimeStamp((((t0 + k * (2 * t) + d) % 0x1_0000_0000) as u32)),
            t,
            t,
        ) == (d < t),
{
    let x: nat = (k * (2 * t) + d) as nat;
    lemma_wrapping_elapsed_add(t0, x);
    lemma_mod_multiples_vanish(k as int, d as int, 2 * t);
    assert((2 * t) * (k as int) + d == x);
    lemma_small_mod(d, (2 * t) as nat);
}

/// Wraparound safety: a signal activated one tick before the counter's
/// maximum and sampled two ticks later, after the counter has wrapped to
/// zero, shows the same blink phase as one activated at zero and sampled at
/// two, where no wraparound occurred.
pub proof fn lemma_wraparound_safety(on_time: u32, off_time: u32)
    ensures
        blink_is_on(State::Active(TimeStamp(0xFFFF_FFFEu32)), TimeStamp(0u32), on_time, off_time)
            == blink_is_on(State::Active(TimeStamp(0u32)), TimeStamp(2u32), on_time, off_time),
{
    assert(wrapping_elapsed(0xFFFF_FFFEu32, 0u32) == 2);
    assert(wrapping_elapsed(0u32, 2u32) == 2);
}

/// Hazard precedence: with the hazard and the left turn both active, all
/// four turn channels follow the hazard's own blink phase, and the left
/// turn's activation state has no observable effect on any of them.
pub proof fn lemma_hazard_precedence(
    system: SystemState,
    other_left: State,
    now: TimeStamp,
    half_period: u32,
)
    requires
        system.hazard is Active,
        system.turn_left is Active,
    ensures
        left_turn_lights(system, now, half_period) == blink_is_on(
            system.hazard,
            now,
            half_period,
            half_period,
        ),
        right_turn_lights(system, now, half_period) == blink_is_on(
            system.hazard,
            now,
            half_period,
            half_period,
        ),
        left_turn_lights((SystemState { turn_left: other_left, ..system }), now, half_period)
            == left_turn_lights(system, now, half_period),
        right_turn_lights((SystemState { turn_left: other_left, ..system }), now, half_period)
            == right_turn_lights(system, now, half_period),
{
}

/// Ignition-off full-beam suppression: with the ignition off, the full-beam
/// intent of an assembled cycle is false, whatever the light and full-beam
/// switches say.
pub proof fn lemma_ignition_off_full_beam(
    system: SystemState,
    input: crate::logic::Input,
    now: TimeStamp,
    one_sec_in_ticks: u32,
)
    requires
        !input.ignition,
        input.light_on,
        input.full_beam,
    ensures
        !spec_power_output(system, input, now, one_sec_in_ticks).head_light_fullbeam,
        !lights_full_beam(input, false),
{
}

} // verus!
