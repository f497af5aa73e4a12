//! The behavior state machine.
//!
//! ```text
//! Start -> Searching
//!   -> Found
//!   -> AvoidingBack -> AvoidingTurn -> AvoidingAdvance -> Searching
//! ```
//!
//! Each tick the control loop feeds the latest [`World`] to
//! [`State::on_world`] and then asks the state just entered for its
//! [`Device`] command via [`State::process`]. `Found` is terminal.

use vstd::prelude::*;
use vstd::string::StringExecFns;

use crate::world::{BACKWARD_SPEED, Device, DeviceView, FORWARD_SPEED, World};
use crate::world::{is_yellow, spec_is_target_color};

verus! {

/// Initial state; consults no sensor values.
#[derive(Clone, Copy, Debug, PartialEq)]
pub struct Start {}

/// Driving forward while re-evaluating the environment every tick.
#[derive(Clone, Copy, Debug, PartialEq)]
pub struct Searching {
    /// The snapshot that was current when this state was entered.
    pub world: World,
}

/// Terminal state: the target surface was seen.
#[derive(Clone, Copy, Debug, PartialEq)]
pub struct Found {}

/// First phase of the avoidance reflex: reversing, counting ticks.
#[derive(Clone, Copy, Debug, PartialEq)]
pub struct AvoidingBack {
    /// Ticks spent reversing so far.
    pub tick: u32,
    /// The snapshot that was current when this state was entered.
    pub world: World,
}

/// Second phase: a single tick that pivots the turn motor.
#[derive(Clone, Copy, Debug, PartialEq)]
pub struct AvoidingTurn {
    /// Ticks spent in this state; always leaves after one.
    pub tick: u32,
    /// The snapshot that was current when this state was entered.
    pub world: World,
}

/// Third phase: advancing with the wheels turned, counting ticks.
#[derive(Clone, Copy, Debug, PartialEq)]
pub struct AvoidingAdvance {
    /// Ticks spent advancing so far.
    pub tick: u32,
    /// The snapshot that was current when this state was entered.
    pub world: World,
}

/// The machine's state: exactly one variant is active at a time.
#[derive(Clone, Copy, Debug, PartialEq)]
pub enum State {
    Start(Start),
    Searching(Searching),
    Found(Found),
    AvoidingBack(AvoidingBack),
    AvoidingTurn(AvoidingTurn),
    AvoidingAdvance(AvoidingAdvance),
}

/// The transition table as one total function: what any state becomes
/// on the next sensor snapshot. `Found` is terminal and never leaves.
pub open spec fn next_state(s: State, w: World) -> State {
    match s {
        State::Start(_) => State::Searching(Searching { world: w }),
        State::Searching(_) => if spec_is_target_color(w.color) {
            State::Found(Found {})
        } else if w.distance < 25 || w.touched {
            State::AvoidingBack(AvoidingBack { tick: 0, world: w })
        } else {
            State::Searching(Searching { world: w })
        },
        State::Found(_) => State::Found(Found {}),
        State::AvoidingBack(b) => if b.tick < 9 {
            State::AvoidingBack(AvoidingBack { tick: (b.tick + 1) as u32, world: w })
        } else {
            State::AvoidingTurn(AvoidingTurn { tick: 0, world: w })
        },
        State::AvoidingTurn(_) => State::AvoidingAdvance(AvoidingAdvance { tick: 0, world: w }),
        State::AvoidingAdvance(a) => if a.tick < 9 {
            State::AvoidingAdvance(AvoidingAdvance { tick: (a.tick + 1) as u32, world: w })
        } else {
            State::Searching(Searching { world: w })
        },
    }
}

/// The command each state issues, as a mathematical value; `None` only
/// for `Start`, which never reaches the actuator.
pub open spec fn spec_output(s: State) -> Option<DeviceView> {
    match s {
        State::Start(_) => None,
        State::Searching(_) => Some(
            DeviceView {
                left: FORWARD_SPEED as int,
                right: FORWARD_SPEED as int,
                turn: 0,
                sound: None,
            },
        ),
        State::Found(_) => Some(
            DeviceView { left: 0, right: 0, turn: 0, sound: Some("bark.wav"@) },
        ),
        State::AvoidingBack(_) => Some(
            DeviceView {
                left: BACKWARD_SPEED as int,
                right: BACKWARD_SPEED as int,
                turn: 0,
                sound: None,
            },
        ),
        State::AvoidingTurn(_) => Some(
            DeviceView { left: 0, right: 0, turn: 10, sound: None },
        ),
        State::AvoidingAdvance(a) => if a.tick == 9 {
            Some(DeviceView { left: 0, right: 0, turn: -10, sound: None })
        } else {
            Some(
                DeviceView {
                    left: FORWARD_SPEED as int / 2,
                    right: FORWARD_SPEED as int / 2,
                    turn: 0,
                    sound: None,
                },
            )
        },
    }
}

/// Start just moves straight to Searching, whatever the snapshot holds.
impl Start {
    pub fn on_world(self, world: World) -> (s: Searching)
        ensures
            State::Searching(s) == next_state(State::Start(self), world),
    {
        Searching { world: world }
    }
}

/// Searching drives forward. Seeing the target color wins; an obstacle
/// by distance or touch starts the avoidance reflex.
impl Searching {
    pub fn on_world(self, world: World) -> (s: State)
        ensures
            s == next_state(State::Searching(self), world),
    {
        if is_yellow(world.color) {
            return State::Found(Found {});
        }

        if world.distance < 25 || world.touched {
            return State::AvoidingBack(AvoidingBack { tick: 0, world: world });
        }

        State::Searching(Searching { world: world })
    }

    pub fn process(&self) -> (d: Device)
        ensures
            Some(d@) == spec_output(State::Searching(*self)),
    {
        Device { left: FORWARD_SPEED, right: FORWARD_SPEED, turn: 0, sound: None }
    }
}

/// Reversing: stay while the tick counter is under the phase budget.
impl AvoidingBack {
    pub fn on_world(self, world: World) -> (s: State)
        ensures
            s == next_state(State::AvoidingBack(self), world),
    {
        if self.tick < 9 {
            State::AvoidingBack(AvoidingBack { tick: self.tick + 1, world: world })
        } else {
            State::AvoidingTurn(AvoidingTurn { tick: 0, world: world })
        }
    }

    pub fn process(&self) -> (d: Device)
        ensures
            Some(d@) == spec_output(State::AvoidingBack(*self)),
    {
        Device { left: BACKWARD_SPEED, right: BACKWARD_SPEED, turn: 0, sound: None }
    }
}

/// Pivoting: one tick that displaces the turn motor, then advance.
impl AvoidingTurn {
    pub fn on_world(self, world: World) -> (s: State)
        ensures
            s == next_state(State::AvoidingTurn(self), world),
    {
        State::AvoidingAdvance(AvoidingAdvance { tick: 0, world: world })
    }

    pub fn process(&self) -> (d: Device)
        ensures
            Some(d@) == spec_output(State::AvoidingTurn(*self)),
    {
        Device { left: 0, right: 0, turn: 10, sound: None }
    }
}

/// Advancing with the wheels turned, then straightening them on the
/// phase's last tick.
impl AvoidingAdvance {
    fn last_tick(&self) -> (r: bool)
        ensures
            r == (self.tick == 9),
    {
        self.tick == 9
    }

    pub fn on_world(self, world: World) -> (s: State)
        ensures
            s == next_state(State::AvoidingAdvance(self), world),
    {
        if self.tick < 9 {
            State::AvoidingAdvance(AvoidingAdvance { tick: self.tick + 1, world: world })
        } else {
            State::Searching(Searching { world: world })
        }
    }

    pub fn process(&self) -> (d: Device)
        ensures
            Some(d@) == spec_output(State::AvoidingAdvance(*self)),
    {
        if self.last_tick() {
            Device { left: 0, right: 0, turn: -10, sound: None }
        } else {
            Device { left: FORWARD_SPEED / 2, right: FORWARD_SPEED / 2, turn: 0, sound: None }
        }
    }
}

/// Found only announces itself with the sound cue; the wheels stop.
impl Found {
    pub fn process(&self) -> (d: Device)
        ensures
            Some(d@) == spec_output(State::Found(*self)),
    {
        Device { left: 0, right: 0, turn: 0, sound: Some(String::from_str("bark.wav")) }
    }
}

impl State {
    /// One tick of the transition function: replaces the state with what
    /// [`next_state`] prescribes for the given snapshot.
    pub fn on_world(self, world: World) -> (s: State)
        ensures
            s == next_state(self, world),
    {
        match self {
            State::Start(st) => State::Searching(st.on_world(world)),
            State::Searching(st) => st.on_world(world),
            State::Found(_) => State::Found(Found {}),
            State::AvoidingBack(st) => st.on_world(world),
            State::AvoidingTurn(st) => st.on_world(world),
            State::AvoidingAdvance(st) => st.on_world(world),
        }
    }

    /// The command the active state issues this tick; `None` only in
    /// `Start`, which is left before anything is actuated.
    pub fn process(&self) -> (d: Option<Device>)
        ensures
            d is Some <==> spec_output(*self) is Some,
            d matches Some(dev) ==> spec_output(*self) == Some(dev@),
    {
        match self {
            State::Start(_) => None,
            State::Searching(st) => Some(st.process()),
            State::Found(st) => Some(st.process()),
            State::AvoidingBack(st) => Some(st.process()),
            State::AvoidingTurn(st) => Some(st.process()),
            State::AvoidingAdvance(st) => Some(st.process()),
        }
    }
}

} // verus!
