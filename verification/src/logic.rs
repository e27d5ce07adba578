//! The per-signal activation state machine, the blink computation, the
//! turn-signal arbitration, the light-mode logic, and the mapping from
//! logical lighting intents to physical channel indices.

use vstd::prelude::*;

use crate::time::TimeStamp;

verus! {

/// Activation state of one monitored signal (left turn, right turn, hazard).
/// `Active(since)` records the tick of the activation edge: the instant the
/// signal went from not-commanded to commanded. The edge, not the polling
/// cycle, anchors the blink phase.
#[derive(Clone, Copy, Debug, PartialEq, Eq, Structural)]
pub enum State {
    Active(TimeStamp),
    Inactive,
}

/// The state carried from one control cycle to the next: the activation
/// state of each of the three monitored signals. It is threaded by value
/// through `tick`; nothing else retains it.
#[derive(Clone, Copy, Debug, PartialEq, Eq, Structural)]
pub struct SystemState {
    pub turn_left: State,
    pub turn_right: State,
    pub hazard: State,
}

/// One cycle's snapshot of the eleven driver-control switches.
#[derive(Clone, Copy, Debug, PartialEq, Eq, Structural)]
pub struct Input {
    /// true when the ignition is enabled
    pub ignition: bool,
    /// true when the front brake is used
    pub brake_front: bool,
    /// true when the rear brake is used
    pub brake_rear: bool,
    /// true when the left turn signal is activated
    pub turn_left: bool,
    /// true when the right turn signal is activated
    pub turn_right: bool,
    /// true when the hazard light is turned on
    pub hazard_light: bool,
    /// true when the lights are turned on
    pub light_on: bool,
    /// true when the full beam is turned on
    pub full_beam: bool,
    /// true when the horn button is pressed
    pub horn: bool,
    /// true when the kill switch is on KILL
    pub kill_switch: bool,
    /// true when the side stand is out
    pub side_stand: bool,
}

/// The twelve logical lighting/accessory intents computed each cycle. Each
/// field says whether the corresponding function should be energized; the
/// power output sink routes each intent to its physical channel.
#[derive(Clone, Copy, Debug, PartialEq, Eq, Structural)]
pub struct PowerOutput {
    pub turn_left_front: bool,
    pub turn_left_rear: bool,
    pub turn_right_front: bool,
    pub turn_right_rear: bool,
    pub head_light_parking: bool,
    pub head_light_lowbeam: bool,
    pub head_light_fullbeam: bool,
    pub rear_light: bool,
    pub brake_light: bool,
    pub horn: bool,
    pub unused0: bool,
    pub unused1: bool,
}

/// What one step of the per-signal state machine yields: an "on" input keeps
/// an existing activation edge or stamps a fresh one; an "off" input forces
/// `Inactive` unconditionally.
pub open spec fn spec_update_state(prev: State, input_flag: bool, now: TimeStamp) -> State {
    if input_flag {
        match prev {
            State::Active(since) => State::Active(since),
            State::Inactive => State::Active(now),
        }
    } else {
        State::Inactive
    }
}

/// Advances the activation state of one signal by one cycle.
pub fn update_state(prev_state: State, input_flag: bool, now: TimeStamp) -> (r: State)
    ensures
        r == spec_update_state(prev_state, input_flag, now),
{
    if input_flag {
        match prev_state {
            State::Active(_since) => prev_state,
            State::Inactive => State::Active(now),
        }
    } else {
        State::Inactive
    }
}

/// What the per-signal state machine yields for all three signals at once.
pub open spec fn spec_update_system_state(system: SystemState, input: Input, now: TimeStamp) -> SystemState {
    SystemState {
        turn_left: spec_update_state(system.turn_left, input.turn_left, now),
        turn_right: spec_update_state(system.turn_right, input.turn_right, now),
        hazard: spec_update_state(system.hazard, input.hazard_light, now),
    }
}

/// Advances the activation state of all three monitored signals by one
/// cycle. The signals are independent: each tracks its own activation edge.
pub fn update_system_state(system: SystemState, input: &Input, now: TimeStamp) -> (r: SystemState)
    ensures
        r == spec_update_system_state(system, *input, now),
{
    SystemState {
        turn_left: update_state(system.turn_left, input.turn_left, now),
        turn_right: update_state(system.turn_right, input.turn_right, now),
        hazard: update_state(system.hazard, input.hazard_light, now),
    }
}

/// The number of ticks from `since` to `now` on the wrapping counter: plain
/// subtraction where `now` has not wrapped past `since`, and otherwise the
/// distance across the single permitted wraparound.
pub open spec fn wrapping_elapsed(since: u32, now: u32) -> u32 {
    if now >= since {
        (now - since) as u32
    } else {
        (now - since + 0x1_0000_0000) as u32
    }
}

/// Computes the elapsed ticks from `since` to `now`, correct across one
/// wraparound of the counter.
pub fn elapsed_ticks(since: u32, now: u32) -> (r: u32)
    ensures
        r == wrapping_elapsed(since, now),
{
    if now >= since {
        now - since
    } else {
        (u32::MAX - since) + 1 + now
    }
}

/// The blink square wave: an inactive signal is dark; an active one is lit
/// for `on_time` ticks starting at its activation edge, dark for the
/// following `off_time` ticks, and so on with period `on_time + off_time`.
pub open spec fn blink_is_on(state: State, cur_time: TimeStamp, on_time: u32, off_time: u32) -> bool
    recommends
        0 < on_time + off_time,
{
    match state {
        State::Active(since) => wrapping_elapsed(since.0, cur_time.0) as int % (on_time + off_time) < on_time,
        State::Inactive => false,
    }
}

/// Computes the blink phase of one signal at `cur_time`: true while the
/// signal should be lit. The result is anchored at the activation edge, so a
/// freshly activated signal is lit immediately.
pub fn calculate_turn_signal(state: &State, cur_time: TimeStamp, on_time: u32, off_time: u32) -> (r: bool)
    requires
        0 < on_time + off_time <= u32::MAX,
    ensures
        r == blink_is_on(*state, cur_time, on_time, off_time),
{
    match state {
        State::Active(start_time) => {
            let time_passed: u32 = elapsed_ticks(start_time.0, cur_time.0);
            let passed_cycles_mod: u32 = time_passed % (on_time + off_time);
            passed_cycles_mod < on_time
        },
        State::Inactive => false,
    }
}

/// What the turn-signal arbitration yields for the two left channels. The
/// hazard, when active, overrides everything with its own blink phase; else
/// an active left turn blinks with its own phase; else the channels are off.
pub open spec fn left_turn_lights(system: SystemState, now: TimeStamp, half_period: u32) -> bool {
    if system.hazard is Active {
        blink_is_on(system.hazard, now, half_period, half_period)
    } else if system.turn_left is Active {
        blink_is_on(system.turn_left, now, half_period, half_period)
    } else {
        false
    }
}

/// What the turn-signal arbitration yields for the two right channels. The
/// hazard, when active, overrides everything with its own blink phase; an
/// active left turn forces the right channels off (left strictly takes
/// precedence); else an active right turn blinks with its own phase.
pub open spec fn right_turn_lights(system: SystemState, now: TimeStamp, half_period: u32) -> bool {
    if system.hazard is Active {
        blink_is_on(system.hazard, now, half_period, half_period)
    } else if system.turn_left is Active {
        false
    } else if system.turn_right is Active {
        blink_is_on(system.turn_right, now, half_period, half_period)
    } else {
        false
    }
}

/// Resolves the four turn-signal channels from the activation states, in
/// strict priority order: hazard, then left turn, then right turn, then all
/// off. Each blinking channel is lit for `one_sec_in_ticks` and dark for
/// `one_sec_in_ticks`, anchored at the owning signal's activation edge. The
/// turn-signal fields of `input` play no role here: the state machine has
/// already folded them into `system_state`, and under an active hazard they
/// are ignored entirely.
pub fn switch_turn_signals(
    system_state: &SystemState,
    input: &Input,
    now: TimeStamp,
    one_sec_in_ticks: u32,
    power_out: &mut PowerOutput,
)
    requires
        0 < one_sec_in_ticks,
        one_sec_in_ticks + one_sec_in_ticks <= u32::MAX,
    ensures
        final(power_out).turn_left_front == left_turn_lights(*system_state, now, one_sec_in_ticks),
        final(power_out).turn_left_rear == left_turn_lights(*system_state, now, one_sec_in_ticks),
        final(power_out).turn_right_front == right_turn_lights(*system_state, now, one_sec_in_ticks),
        final(power_out).turn_right_rear == right_turn_lights(*system_state, now, one_sec_in_ticks),
        final(power_out).head_light_parking == old(power_out).head_light_parking,
        final(power_out).head_light_lowbeam == old(power_out).head_light_lowbeam,
        final(power_out).head_light_fullbeam == old(power_out).head_light_fullbeam,
        final(power_out).rear_light == old(power_out).rear_light,
        final(power_out).brake_light == old(power_out).brake_light,
        final(power_out).horn == old(power_out).horn,
        final(power_out).unused0 == old(power_out).unused0,
        final(power_out).unused1 == old(power_out).unused1,
{
    let hazard_on = match system_state.hazard {
        State::Active(_start_time) => (
            true,
            calculate_turn_signal(&system_state.hazard, now, one_sec_in_ticks, one_sec_in_ticks),
        ),
        State::Inactive => (false, false),
    };

    let turn_left_on = match system_state.turn_left {
        State::Active(_start_time) => (
            true,
            calculate_turn_signal(&system_state.turn_left, now, one_sec_in_ticks, one_sec_in_ticks),
        ),
        State::Inactive => (false, false),
    };

    let turn_right_on = match system_state.turn_right {
        State::Active(_start_time) => (
            true,
            calculate_turn_signal(&system_state.turn_right, now, one_sec_in_ticks, one_sec_in_ticks),
        ),
        State::Inactive => (false, false),
    };

    if hazard_on.0 {
        power_out.turn_right_front = hazard_on.1;
        power_out.turn_right_rear = hazard_on.1;
        power_out.turn_left_front = hazard_on.1;
        power_out.turn_left_rear = hazard_on.1;
    } else {
        if turn_left_on.0 {
            power_out.turn_left_front = turn_left_on.1;
            power_out.turn_left_rear = turn_left_on.1;
            power_out.turn_right_front = false;
            power_out.turn_right_rear = false;
        } else if turn_right_on.0 {
            power_out.turn_right_front = turn_right_on.1;
            power_out.turn_right_rear = turn_right_on.1;
            power_out.turn_left_front = false;
            power_out.turn_left_rear = false;
        } else {
            power_out.turn_right_front = false;
            power_out.turn_right_rear = false;
            power_out.turn_left_front = false;
            power_out.turn_left_rear = false;
        }
    }
}

/// The low beam is lit exactly when the ignition is on and the lights are
/// switched on.
pub open spec fn lights_low_beam(input: Input) -> bool {
    input.ignition && input.light_on
}

/// The rear light follows the light switch in both ignition regimes.
pub open spec fn lights_rear(input: Input) -> bool {
    input.light_on
}

/// The parking light follows the light switch with the ignition off; with
/// the ignition on this logic leaves it at its prior value `prev`.
pub open spec fn lights_parking(input: Input, prev: bool) -> bool {
    if input.ignition {
        prev
    } else {
        input.light_on
    }
}

/// The full beam mirrors its switch when the ignition is on and the lights
/// are on; with the lights off it is left at its prior value `prev`; with
/// the ignition off it is forced off whatever the switch says.
pub open spec fn lights_full_beam(input: Input, prev: bool) -> bool {
    if !input.ignition {
        false
    } else if input.light_on {
        input.full_beam
    } else {
        prev
    }
}

/// Resolves the head and rear lights from the driver input. With the
/// ignition on, the light switch drives the low beam and the rear light and
/// the full beam mirrors its own switch; with the ignition off, the light
/// switch drives the parking light and the rear light and the full beam is
/// unavailable.
pub fn switch_light_signals(input: &Input, power_out: &mut PowerOutput)
    ensures
        final(power_out).head_light_lowbeam == lights_low_beam(*input),
        final(power_out).rear_light == lights_rear(*input),
        final(power_out).head_light_parking == lights_parking(*input, old(power_out).head_light_parking),
        final(power_out).head_light_fullbeam == lights_full_beam(*input, old(power_out).head_light_fullbeam),
        !input.ignition ==> !final(power_out).head_light_fullbeam,
        final(power_out).turn_left_front == old(power_out).turn_left_front,
        final(power_out).turn_left_rear == old(power_out).turn_left_rear,
        final(power_out).turn_right_front == old(power_out).turn_right_front,
        final(power_out).turn_right_rear == old(power_out).turn_right_rear,
        final(power_out).brake_light == old(power_out).brake_light,
        final(power_out).horn == old(power_out).horn,
        final(power_out).unused0 == old(power_out).unused0,
        final(power_out).unused1 == old(power_out).unused1,
{
    if input.ignition {
        match input.light_on {
            true => {
                power_out.head_light_lowbeam = true;
                power_out.rear_light = true;
                power_out.head_light_fullbeam = input.full_beam;
            },
            false => {
                power_out.head_light_lowbeam = false;
                power_out.rear_light = false;
            },
        }
    } else {
        match input.light_on {
            true => {
                power_out.head_light_lowbeam = false;
                power_out.head_light_parking = true;
                power_out.rear_light = true;
            },
            false => {
                power_out.head_light_lowbeam = false;
                power_out.head_light_parking = false;
                power_out.rear_light = false;
            },
        }
        power_out.head_light_fullbeam = false;
    }
}

/// The complete intent set one cycle yields: brakes and horn pass through
/// from the input, the four turn channels come from the arbitration, the
/// four lights come from the light-mode logic over an all-off base, and the
/// two reserved channels stay off.
pub open spec fn spec_power_output(
    system: SystemState,
    input: Input,
    now: TimeStamp,
    one_sec_in_ticks: u32,
) -> PowerOutput {
    PowerOutput {
        turn_left_front: left_turn_lights(system, now, one_sec_in_ticks),
        turn_left_rear: left_turn_lights(system, now, one_sec_in_ticks),
        turn_right_front: right_turn_lights(system, now, one_sec_in_ticks),
        turn_right_rear: right_turn_lights(system, now, one_sec_in_ticks),
        head_light_parking: lights_parking(input, false),
        head_light_lowbeam: lights_low_beam(input),
        head_light_fullbeam: lights_full_beam(input, false),
        rear_light: lights_rear(input),
        brake_light: input.brake_front || input.brake_rear,
        horn: input.horn,
        unused0: false,
        unused1: false,
    }
}

/// Assembles the twelve intents for one cycle from the updated activation
/// states and the input snapshot: a total function, never a partial intent
/// set. The brake light is lit when either brake is used; the horn intent
/// follows its button directly.
pub fn switch_power_output(
    system: &SystemState,
    input: &Input,
    now: TimeStamp,
    one_sec_in_ticks: u32,
) -> (r: PowerOutput)
    requires
        0 < one_sec_in_ticks,
        one_sec_in_ticks + one_sec_in_ticks <= u32::MAX,
    ensures
        r == spec_power_output(*system, *input, now, one_sec_in_ticks),
{
    let mut power_output = PowerOutput {
        turn_left_front: false,
        turn_left_rear: false,
        turn_right_front: false,
        turn_right_rear: false,
        head_light_parking: false,
        head_light_lowbeam: false,
        head_light_fullbeam: false,
        rear_light: false,
        brake_light: input.brake_front || input.brake_rear,
        horn: input.horn,
        unused0: false,
        unused1: false,
    };

    switch_turn_signals(system, input, now, one_sec_in_ticks, &mut power_output);
    switch_light_signals(input, &mut power_output);

    power_output
}

/// Runs one control cycle: advances the three activation states from the
/// input snapshot, then computes the twelve intents from the new states.
/// This is the single entry point the polling loop calls each iteration; the
/// returned state is the only value carried to the next cycle.
pub fn tick(
    input: &Input,
    system_state: SystemState,
    now: TimeStamp,
    one_sec_in_ticks: u32,
) -> (r: (SystemState, PowerOutput))
    requires
        0 < one_sec_in_ticks,
        one_sec_in_ticks + one_sec_in_ticks <= u32::MAX,
    ensures
        r.0 == spec_update_system_state(system_state, *input, now),
        r.1 == spec_power_output(r.0, *input, now, one_sec_in_ticks),
{
    let new_system_state = update_system_state(system_state, input, now);
    let power_out = switch_power_output(&new_system_state, input, now, one_sec_in_ticks);
    (new_system_state, power_out)
}

/// The static routing from logical intents to the twelve physical power
/// channels, as one reviewable table: the level each channel should be
/// driven to this cycle. Every intent is routed to exactly one channel and
/// every channel carries exactly one intent.
pub fn channel_levels(power_out: &PowerOutput) -> (levels: [bool; 12])
    ensures
        levels@ == seq![
            power_out.turn_left_front,
            power_out.head_light_fullbeam,
            power_out.head_light_parking,
            power_out.head_light_lowbeam,
            power_out.turn_left_rear,
            power_out.turn_right_front,
            power_out.turn_right_rear,
            power_out.rear_light,
            power_out.brake_light,
            power_out.horn,
            power_out.unused0,
            power_out.unused1,
        ],
{
    let levels: [bool; 12] = [
        power_out.turn_left_front,
        power_out.head_light_fullbeam,
        power_out.head_light_parking,
        power_out.head_light_lowbeam,
        power_out.turn_left_rear,
        power_out.turn_right_front,
        power_out.turn_right_rear,
        power_out.rear_light,
        power_out.brake_light,
        power_out.horn,
        power_out.unused0,
        power_out.unused1,
    ];
    levels
}

} // verus!
