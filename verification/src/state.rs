//! The vehicle and its transition: one call of [`update`] advances the
//! simulation by one tick.

use vstd::prelude::*;
use crate::arith::{clamp, saturate_i32, saturating_sum};

verus! {

/// Where the goal window begins in every session.
pub const GOAL_START: i32 = 9000;

/// Where the goal window ends in every session.
pub const GOAL_END: i32 = 10000;

/// The starting position of the base variant of the game.
pub const BASE_START: i32 = 0;

/// The starting position of the extended variant of the game.
pub const EXTENDED_START: i32 = 500;

/// The vehicle at one tick. A value is never changed in place: each tick
/// replaces it by the one that [`update`] returns.
#[derive(Clone, Copy, Debug, PartialEq, Eq, Structural)]
pub struct State {
    /// The throttle that was applied last.
    pub acceleration: i32,
    /// The velocity, never negative after a tick.
    pub speed: i32,
    /// The position along the axis.
    pub position: i32,
    /// The lower bound of the goal window.
    pub position_goal_start: i32,
    /// The upper bound of the goal window.
    pub position_goal_end: i32,
    /// Whether the vehicle stood still inside the goal window one tick ago.
    pub won: bool,
    /// Whether the vehicle was beyond the goal window one tick ago.
    pub lost: bool,
}

/// A vehicle state over the mathematical integers.
pub struct StateView {
    pub acceleration: int,
    pub speed: int,
    pub position: int,
    pub position_goal_start: int,
    pub position_goal_end: int,
    pub won: bool,
    pub lost: bool,
}

impl View for State {
    type V = StateView;

    open spec fn view(&self) -> StateView {
        StateView {
            acceleration: self.acceleration as int,
            speed: self.speed as int,
            position: self.position as int,
            position_goal_start: self.position_goal_start as int,
            position_goal_end: self.position_goal_end as int,
            won: self.won,
            lost: self.lost,
        }
    }
}

/// The speed one tick after the speed and the acceleration added up to `sum`:
/// the sum itself, but never below zero and never above what an `i32` holds.
pub open spec fn speed_after(sum: int) -> int {
    clamp(sum, 0, i32::MAX as int)
}

/// The position one tick after the position and the speed added up to `sum`:
/// the sum itself, limited to what an `i32` holds.
pub open spec fn position_after(sum: int) -> int {
    saturate_i32(sum)
}

/// Whether a vehicle at `s` is beyond the goal window.
pub open spec fn overshot(s: StateView) -> bool {
    s.position > s.position_goal_end
}

/// Whether a vehicle at `s` stands still strictly inside the goal window.
pub open spec fn parked_in_goal(s: StateView) -> bool {
    s.speed == 0 && s.position_goal_start < s.position < s.position_goal_end
}

/// The state one tick after `s` when the player sets `throttle`. Speed and
/// position move by what `s` held, so a throttle reaches the speed one tick
/// later and the position two ticks later; the flags judge `s`, not the
/// state returned.
pub open spec fn step(s: StateView, throttle: int) -> StateView {
    StateView {
        acceleration: throttle,
        speed: speed_after(s.speed + s.acceleration),
        position: position_after(s.position + s.speed),
        position_goal_start: s.position_goal_start,
        position_goal_end: s.position_goal_end,
        won: parked_in_goal(s),
        lost: overshot(s),
    }
}

impl State {
    /// What holds of every state that a constructor or a tick returns: the
    /// speed is not negative, and the game is not won and lost at once.
    pub open spec fn well_formed(&self) -> bool {
        self.speed >= 0 && !(self.won && self.lost)
    }

    /// The state at the start of a session of the extended variant: at rest
    /// at `EXTENDED_START`, with the goal window from `GOAL_START` to
    /// `GOAL_END`.
    pub fn new() -> (s: State)
        ensures
            s@ == (StateView {
                acceleration: 0,
                speed: 0,
                position: EXTENDED_START as int,
                position_goal_start: GOAL_START as int,
                position_goal_end: GOAL_END as int,
                won: false,
                lost: false,
            }),
            s.well_formed(),
    {
        State::starting_at(EXTENDED_START)
    }

    /// The state at the start of a session that begins at `position`: at
    /// rest, with the goal window from `GOAL_START` to `GOAL_END`.
    pub fn starting_at(position: i32) -> (s: State)
        ensures
            s@ == (StateView {
                acceleration: 0,
                speed: 0,
                position: position as int,
                position_goal_start: GOAL_START as int,
                position_goal_end: GOAL_END as int,
                won: false,
                lost: false,
            }),
            s.well_formed(),
    {
        State {
            acceleration: 0,
            speed: 0,
            position,
            position_goal_start: GOAL_START,
            position_goal_end: GOAL_END,
            won: false,
            lost: false,
        }
    }
}

impl Default for State {
    /// The state with every number zero and both flags unset.
    fn default() -> (s: State)
        ensures
            s@ == (StateView {
                acceleration: 0,
                speed: 0,
                position: 0,
                position_goal_start: 0,
                position_goal_end: 0,
                won: false,
                lost: false,
            }),
            s.well_formed(),
    {
        State {
            acceleration: 0,
            speed: 0,
            position: 0,
            position_goal_start: 0,
            position_goal_end: 0,
            won: false,
            lost: false,
        }
    }
}

/// Advances the simulation by one tick: the state that follows
/// `current_state` when the player sets `throttle`. Every input is accepted.
/// A sum that an `i32` cannot hold saturates.
pub fn update(current_state: State, throttle: i32) -> (next: State)
    ensures
        next@ == step(current_state@, throttle as int),
        next.acceleration == throttle,
        next.speed == speed_after(current_state.speed + current_state.acceleration),
        next.speed >= 0,
        next.position == position_after(current_state.position + current_state.speed),
        next.position_goal_start == current_state.position_goal_start,
        next.position_goal_end == current_state.position_goal_end,
        next.lost <==> current_state.position > current_state.position_goal_end,
        next.won <==> current_state.speed == 0 && current_state.position_goal_start
            < current_state.position < current_state.position_goal_end,
        next.well_formed(),
{
    let sped = saturating_sum(current_state.speed, current_state.acceleration);
    State {
        acceleration: throttle,
        speed: if sped < 0 { 0 } else { sped },
        position: saturating_sum(current_state.position, current_state.speed),
        position_goal_start: current_state.position_goal_start,
        position_goal_end: current_state.position_goal_end,
        won: current_state.speed == 0 && current_state.position
            > current_state.position_goal_start && current_state.position
            < current_state.position_goal_end,
        lost: current_state.position > current_state.position_goal_end,
    }
}

/// The speed after a tick is decided by the sum of the speed and the
/// acceleration before it, and by nothing else: two states with the same sum
/// reach the same speed, whatever else they hold and whatever throttle each
/// is given.
pub proof fn lemma_speed_depends_on_sum_alone(a: State, b: State, throttle_a: i32, throttle_b: i32)
    requires
        a.speed + a.acceleration == b.speed + b.acceleration,
    ensures
        step(a@, throttle_a as int).speed == step(b@, throttle_b as int).speed,
{
}

/// The position after a tick is decided by the sum of the position and the
/// speed before it, and by nothing else: two states with the same sum reach
/// the same position, whatever else they hold and whatever throttle each is
/// given.
pub proof fn lemma_position_depends_on_sum_alone(
    a: State,
    b: State,
    throttle_a: i32,
    throttle_b: i32,
)
    requires
        a.position + a.speed == b.position + b.speed,
    ensures
        step(a@, throttle_a as int).position == step(b@, throttle_b as int).position,
{
}

/// Where no sum leaves the range of `i32`, a tick adds without saturating:
/// the speed grows by the acceleration, stopping at zero, and the position
/// grows by the speed.
pub proof fn lemma_step_without_overflow(s: State, throttle: i32)
    requires
        s.speed + s.acceleration <= i32::MAX,
        i32::MIN <= s.position + s.speed <= i32::MAX,
    ensures
        step(s@, throttle as int).speed == (if s.speed + s.acceleration < 0 {
            0
        } else {
            s.speed + s.acceleration
        }),
        step(s@, throttle as int).position == s.position + s.speed,
{
}

/// A throttle reaches the speed one tick late: after two ticks the speed has
/// grown by the throttle of the first tick, and the throttle of the second
/// has not touched it yet.
pub proof fn lemma_throttle_reaches_speed_one_tick_late(s: State, first: i32, second: i32)
    ensures
        step(step(s@, first as int), second as int).speed == speed_after(
            step(s@, first as int).speed + first,
        ),
        step(step(s@, first as int), second as int).acceleration == second,
{
}

/// The flags do not latch: a tick computes them from the numbers of the
/// state before it and ignores the flags that this state carried, so a flag
/// that was set is cleared again as soon as its condition no longer holds.
pub proof fn lemma_flags_do_not_latch(a: State, b: State, throttle: i32)
    requires
        a.acceleration == b.acceleration,
        a.speed == b.speed,
        a.position == b.position,
        a.position_goal_start == b.position_goal_start,
        a.position_goal_end == b.position_goal_end,
    ensures
        step(a@, throttle as int) == step(b@, throttle as int),
{
}

} // verus!
