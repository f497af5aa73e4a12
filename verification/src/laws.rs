//! The guarantees the state machine gives, each proved for every sensor
//! snapshot, not just sampled ones.

use vstd::prelude::*;

use crate::behavior::{AvoidingAdvance, AvoidingBack, AvoidingTurn, Found, Searching, Start};
use crate::behavior::{State, next_state, spec_output};
use crate::world::{DeviceView, FORWARD_SPEED, World, spec_is_target_color};

verus! {

/// From `Start`, the first snapshot always leads to `Searching`,
/// regardless of its field values.
pub proof fn lemma_start_to_searching(w: World)
    ensures
        next_state(State::Start(Start {}), w) == State::Searching(Searching { world: w }),
{
}

/// While `Searching`, a snapshot that shows the target color wins: the
/// machine moves to the terminal `Found` state.
pub proof fn lemma_searching_finds_target(s: Searching, w: World)
    requires
        spec_is_target_color(w.color),
    ensures
        next_state(State::Searching(s), w) == State::Found(Found {}),
{
}

/// While `Searching`, an obstacle — proximity under the threshold of 25,
/// or a pressed touch sensor — starts the avoidance reflex at its first
/// reversing tick, provided the target color is not in sight.
pub proof fn lemma_searching_detects_obstacle(s: Searching, w: World)
    requires
        !spec_is_target_color(w.color),
        w.distance < 25 || w.touched,
    ensures
        next_state(State::Searching(s), w) == State::AvoidingBack(
            AvoidingBack { tick: 0, world: w },
        ),
{
}

/// While `Searching`, with no target color, distance at 25 or more, and
/// an unpressed touch sensor, the machine keeps searching.
pub proof fn lemma_searching_continues(s: Searching, w: World)
    requires
        !spec_is_target_color(w.color),
        w.distance >= 25,
        !w.touched,
    ensures
        next_state(State::Searching(s), w) == State::Searching(Searching { world: w }),
{
}

/// While the reversing counter is under its budget, each tick increments
/// it by exactly one and the machine stays in `AvoidingBack`.
pub proof fn lemma_avoiding_back_counts(b: AvoidingBack, w: World)
    requires
        b.tick < 9,
    ensures
        next_state(State::AvoidingBack(b), w) == State::AvoidingBack(
            AvoidingBack { tick: (b.tick + 1) as u32, world: w },
        ),
{
}

/// Once the reversing counter has reached its budget, the machine moves
/// to the single-tick pivot state, with its counter reset to zero.
pub proof fn lemma_avoiding_back_to_turn(b: AvoidingBack, w: World)
    requires
        b.tick >= 9,
    ensures
        next_state(State::AvoidingBack(b), w) == State::AvoidingTurn(
            AvoidingTurn { tick: 0, world: w },
        ),
{
}

/// `AvoidingTurn` lasts exactly one tick — every snapshot moves it to
/// `AvoidingAdvance{0}` — and its command always displaces the turn
/// motor by +10 with both wheels stopped.
pub proof fn lemma_avoiding_turn_one_tick(t: AvoidingTurn, w: World)
    ensures
        next_state(State::AvoidingTurn(t), w) == State::AvoidingAdvance(
            AvoidingAdvance { tick: 0, world: w },
        ),
        spec_output(State::AvoidingTurn(t)) == Some(
            (DeviceView { left: 0, right: 0, turn: 10, sound: None }),
        ),
{
}

/// While the advancing counter is under its budget, each tick increments
/// it by exactly one and the machine stays in `AvoidingAdvance`.
pub proof fn lemma_avoiding_advance_counts(a: AvoidingAdvance, w: World)
    requires
        a.tick < 9,
    ensures
        next_state(State::AvoidingAdvance(a), w) == State::AvoidingAdvance(
            AvoidingAdvance { tick: (a.tick + 1) as u32, world: w },
        ),
{
}

/// Once the advancing counter has reached its budget, the machine
/// returns to `Searching`, resetting the avoidance cycle.
pub proof fn lemma_avoiding_advance_to_searching(a: AvoidingAdvance, w: World)
    requires
        a.tick >= 9,
    ensures
        next_state(State::AvoidingAdvance(a), w) == State::Searching(Searching { world: w }),
{
}

/// The advancing command: on the straightening tick (counter at 9) both
/// wheels stop and the turn motor is displaced by -10, undoing the
/// pivot; on every other tick the machine drives at half forward speed
/// with no turn change.
pub proof fn lemma_avoiding_advance_output(a: AvoidingAdvance)
    ensures
        a.tick == 9 ==> spec_output(State::AvoidingAdvance(a)) == Some(
            (DeviceView { left: 0, right: 0, turn: -10, sound: None }),
        ),
        a.tick != 9 ==> spec_output(State::AvoidingAdvance(a)) == Some(
            (DeviceView {
                left: FORWARD_SPEED as int / 2,
                right: FORWARD_SPEED as int / 2,
                turn: 0,
                sound: None,
            }),
        ),
{
}

/// `Found` is terminal: no snapshot moves the machine out of it, and its
/// command stops both wheels, leaves the turn motor alone, and carries
/// the sound cue.
pub proof fn lemma_found_terminal(f: Found, w: World)
    ensures
        next_state(State::Found(f), w) == State::Found(Found {}),
        spec_output(State::Found(f)) == Some(
            (DeviceView { left: 0, right: 0, turn: 0, sound: Some("bark.wav"@) }),
        ),
{
}

} // verus!
