use seekbot::behavior::{AvoidingAdvance, AvoidingBack, AvoidingTurn, Found, Searching, Start};
use seekbot::behavior::State;
use seekbot::world::{Device, World, is_yellow};

fn world(color: (i32, i32, i32), distance: i32, touched: bool) -> World {
    World { tick: 0, color, distance, touched, turn: 0 }
}

fn clear_world(distance: i32, touched: bool) -> World {
    // A gray surface: no channel crosses the yellow threshold.
    world((600, 600, 600), distance, touched)
}

#[test]
fn target_color_boundary_red() {
    assert!(is_yellow((509, 511, 511)));
    assert!(!is_yellow((510, 511, 511)));
}

#[test]
fn target_color_boundary_green() {
    assert!(!is_yellow((509, 510, 511)));
    assert!(is_yellow((509, 511, 511)));
}

#[test]
fn target_color_boundary_blue() {
    assert!(!is_yellow((509, 511, 510)));
}

#[test]
fn target_color_saturated_yellow_reading() {
    assert!(is_yellow((0, 1020, 1020)));
}

#[test]
fn target_color_rejects_dark_and_bright() {
    assert!(!is_yellow((0, 0, 0)));
    assert!(!is_yellow((1020, 1020, 1020)));
}

#[test]
fn start_goes_to_searching_on_any_world() {
    let w1 = world((0, 0, 0), -5, true);
    let w2 = world((0, 1020, 1020), 100, false);
    assert_eq!(Start {}.on_world(w1), Searching { world: w1 });
    assert_eq!(
        State::Start(Start {}).on_world(w2),
        State::Searching(Searching { world: w2 })
    );
}

#[test]
fn start_issues_no_command() {
    assert_eq!(State::Start(Start {}).process(), None);
}

#[test]
fn searching_drives_forward() {
    let s = Searching { world: clear_world(100, false) };
    let expected = Device { left: -50, right: -50, turn: 0, sound: None };
    assert_eq!(s.process(), expected);
    assert_eq!(State::Searching(s).process(), Some(expected));
}

#[test]
fn searching_close_obstacle_starts_avoidance() {
    let s = Searching { world: clear_world(100, false) };
    let w = clear_world(24, false);
    assert_eq!(
        s.on_world(w),
        State::AvoidingBack(AvoidingBack { tick: 0, world: w })
    );
}

#[test]
fn searching_touch_starts_avoidance() {
    let s = Searching { world: clear_world(100, false) };
    let w = clear_world(100, true);
    assert_eq!(
        s.on_world(w),
        State::AvoidingBack(AvoidingBack { tick: 0, world: w })
    );
}

#[test]
fn searching_keeps_searching_at_threshold_distance() {
    let s = Searching { world: clear_world(100, false) };
    let w = clear_world(25, false);
    assert_eq!(s.on_world(w), State::Searching(Searching { world: w }));
}

#[test]
fn searching_finds_target_color() {
    let s = Searching { world: clear_world(100, false) };
    let w = world((0, 1020, 1020), 100, false);
    assert_eq!(s.on_world(w), State::Found(Found {}));
}

#[test]
fn avoiding_back_counts_ticks() {
    let w = clear_world(10, false);
    let b = AvoidingBack { tick: 0, world: w };
    assert_eq!(
        b.on_world(w),
        State::AvoidingBack(AvoidingBack { tick: 1, world: w })
    );
}

#[test]
fn avoiding_back_moves_on_after_its_budget() {
    let w = clear_world(10, false);
    assert_eq!(
        AvoidingBack { tick: 8, world: w }.on_world(w),
        State::AvoidingBack(AvoidingBack { tick: 9, world: w })
    );
    assert_eq!(
        AvoidingBack { tick: 9, world: w }.on_world(w),
        State::AvoidingTurn(AvoidingTurn { tick: 0, world: w })
    );
}

#[test]
fn avoiding_back_reverses() {
    let b = AvoidingBack { tick: 3, world: clear_world(10, false) };
    assert_eq!(
        b.process(),
        Device { left: 50, right: 50, turn: 0, sound: None }
    );
}

#[test]
fn avoiding_turn_lasts_one_tick() {
    let w = clear_world(10, false);
    let t = AvoidingTurn { tick: 0, world: w };
    assert_eq!(
        t.on_world(w),
        State::AvoidingAdvance(AvoidingAdvance { tick: 0, world: w })
    );
}

#[test]
fn avoiding_turn_pivots_the_turn_motor() {
    let t = AvoidingTurn { tick: 0, world: clear_world(10, false) };
    assert_eq!(
        t.process(),
        Device { left: 0, right: 0, turn: 10, sound: None }
    );
}

#[test]
fn avoiding_advance_half_speed_before_last_tick() {
    let a = AvoidingAdvance { tick: 8, world: clear_world(10, false) };
    assert_eq!(
        a.process(),
        Device { left: -25, right: -25, turn: 0, sound: None }
    );
}

#[test]
fn avoiding_advance_straightens_on_last_tick() {
    let a = AvoidingAdvance { tick: 9, world: clear_world(10, false) };
    assert_eq!(
        a.process(),
        Device { left: 0, right: 0, turn: -10, sound: None }
    );
}

#[test]
fn avoiding_advance_counts_ticks() {
    let w = clear_world(10, false);
    assert_eq!(
        AvoidingAdvance { tick: 8, world: w }.on_world(w),
        State::AvoidingAdvance(AvoidingAdvance { tick: 9, world: w })
    );
}

#[test]
fn avoiding_advance_returns_to_searching_after_its_budget() {
    let w = clear_world(10, false);
    assert_eq!(
        AvoidingAdvance { tick: 9, world: w }.on_world(w),
        State::Searching(Searching { world: w })
    );
}

#[test]
fn found_stops_and_plays_the_cue() {
    assert_eq!(
        Found {}.process(),
        Device { left: 0, right: 0, turn: 0, sound: Some("bark.wav".to_string()) }
    );
}

#[test]
fn found_never_leaves() {
    let w = world((0, 1020, 1020), 5, true);
    assert_eq!(
        State::Found(Found {}).on_world(w),
        State::Found(Found {})
    );
}

#[test]
fn scenario_target_sighting_ends_the_search() {
    let w = world((0, 1020, 1020), 100, false);
    let state = State::Searching(Searching { world: clear_world(100, false) });
    let state = state.on_world(w);
    assert_eq!(state, State::Found(Found {}));
    assert_eq!(
        state.process(),
        Some(Device { left: 0, right: 0, turn: 0, sound: Some("bark.wav".to_string()) })
    );
}

#[test]
fn scenario_avoidance_cycle_runs_back_turn_advance_then_searches_again() {
    let w = clear_world(10, false);
    let mut state = State::Searching(Searching { world: clear_world(100, false) });

    // Reversing phase: exactly ten ticks, counters 0 through 9.
    for expected_tick in 0..=9u32 {
        state = state.on_world(w);
        assert_eq!(
            state,
            State::AvoidingBack(AvoidingBack { tick: expected_tick, world: w })
        );
        assert_eq!(
            state.process(),
            Some(Device { left: 50, right: 50, turn: 0, sound: None })
        );
    }

    // Pivot phase: a single tick.
    state = state.on_world(w);
    assert_eq!(state, State::AvoidingTurn(AvoidingTurn { tick: 0, world: w }));
    assert_eq!(
        state.process(),
        Some(Device { left: 0, right: 0, turn: 10, sound: None })
    );

    // Advancing phase: exactly ten ticks, counters 0 through 9; half
    // speed until the last one, which straightens the wheels.
    for expected_tick in 0..=9u32 {
        state = state.on_world(w);
        assert_eq!(
            state,
            State::AvoidingAdvance(AvoidingAdvance { tick: expected_tick, world: w })
        );
        let expected = if expected_tick == 9 {
            Device { left: 0, right: 0, turn: -10, sound: None }
        } else {
            Device { left: -25, right: -25, turn: 0, sound: None }
        };
        assert_eq!(state.process(), Some(expected));
    }

    // The cycle resets: the machine searches again.
    state = state.on_world(w);
    assert_eq!(state, State::Searching(Searching { world: w }));
}
