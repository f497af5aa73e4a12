//! Sensor snapshots, motor commands, and the target-color classifier.

use vstd::prelude::*;

verus! {

/// Largest raw value the color sensor reports on each channel.
pub const MAX_COL: i32 = 1020;

/// Forward duty cycle; the drive motors treat negative speeds as forward.
pub const FORWARD_SPEED: i32 = -50;

/// Reverse duty cycle.
pub const BACKWARD_SPEED: i32 = 50;

/// The world as we know it: one immutable snapshot of every sensor,
/// taken at the start of a tick.
#[derive(Clone, Copy, Debug, PartialEq)]
pub struct World {
    /// Ticks since the program started.
    pub tick: u32,
    /// Current color as raw (red, green, blue).
    pub color: (i32, i32, i32),
    /// Current proximity reading from the infrared sensor.
    pub distance: i32,
    /// Whether the touch sensor is pressed.
    pub touched: bool,
    /// Current absolute position of the turn motor.
    pub turn: i32,
}

/// The command computed for one tick: duty cycles for the two drive
/// motors, a relative displacement for the turn motor, and an optional
/// sound cue.
#[derive(Clone, Debug, PartialEq)]
pub struct Device {
    /// Left drive motor duty cycle.
    pub left: i32,
    /// Right drive motor duty cycle.
    pub right: i32,
    /// Relative displacement to add to the turn motor's position.
    pub turn: i32,
    /// Sound cue to play, if any.
    pub sound: Option<String>,
}

/// Mathematical image of a [`Device`]: plain integers and the sound cue
/// as a character sequence.
pub struct DeviceView {
    pub left: int,
    pub right: int,
    pub turn: int,
    pub sound: Option<Seq<char>>,
}

impl View for Device {
    type V = DeviceView;

    open spec fn view(&self) -> DeviceView {
        DeviceView {
            left: self.left as int,
            right: self.right as int,
            turn: self.turn as int,
            sound: match self.sound {
                Option::Some(s) => Option::Some(s@),
                Option::None => Option::None,
            },
        }
    }
}

/// The fixed yellow threshold: red below half of [`MAX_COL`], green and
/// blue above it.
pub open spec fn spec_is_target_color(c: (i32, i32, i32)) -> bool {
    c.0 < MAX_COL / 2 && c.1 > MAX_COL / 2 && c.2 > MAX_COL / 2
}

/// Classifies a raw RGB triple against the fixed yellow threshold.
pub fn is_yellow(c: (i32, i32, i32)) -> (r: bool)
    ensures
        r == spec_is_target_color(c),
{
    let (r, g, b) = c;
    r < MAX_COL / 2 && g > MAX_COL / 2 && b > MAX_COL / 2
}

} // verus!
