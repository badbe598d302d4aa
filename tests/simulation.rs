use orbital_sim::components::{direction_spreadsheet_row, Direction, Scale, ScaleCommand};
use orbital_sim::frame::{background_rgb, closed_outline, next_tint};
use orbital_sim::input::{read_frame_input, FrameInput, InputEvent, Key};
use orbital_sim::keyboard::{apply_scale_command, Keyboard};
use orbital_sim::rails::{advance_rails, RailPhase, FULL_TURN};

fn phase(angle: i64, rotation_speed: i64) -> RailPhase {
    RailPhase { angle, rotation_speed }
}

#[test]
fn scale_three_up_one_down_is_two_up() {
    let mut kb = Keyboard;
    let mut scales = vec![Scale(0), Scale(-7)];
    for c in [ScaleCommand::Increase, ScaleCommand::Increase, ScaleCommand::Increase, ScaleCommand::Reduce] {
        kb.run(&Some(c), &mut scales);
    }
    assert_eq!(scales, vec![Scale(2), Scale(-5)]);
}

#[test]
fn scale_no_command_leaves_levels() {
    let mut kb = Keyboard;
    let mut scales = vec![Scale(3), Scale(-1)];
    kb.run(&None, &mut scales);
    assert_eq!(scales, vec![Scale(3), Scale(-1)]);
}

#[test]
fn scale_is_unbounded_in_both_directions() {
    let mut level = 0;
    for _ in 0..40 {
        level = apply_scale_command(level, Some(ScaleCommand::Reduce));
    }
    assert_eq!(level, -40);
    for _ in 0..100 {
        level = apply_scale_command(level, Some(ScaleCommand::Increase));
    }
    assert_eq!(level, 60);
    assert_eq!(apply_scale_command(i32::MAX - 1, Some(ScaleCommand::Increase)), i32::MAX);
    assert_eq!(apply_scale_command(i32::MIN + 1, Some(ScaleCommand::Reduce)), i32::MIN);
    assert_eq!(apply_scale_command(9, None), 9);
}

#[test]
fn rail_advances_by_its_speed() {
    let mut p = phase(0, 2000);
    p.advance();
    assert_eq!(p, phase(2000, 2000));
    let mut q = phase(500_000, -1000);
    q.advance();
    assert_eq!(q, phase(499_000, -1000));
}

#[test]
fn rail_past_full_turn_restarts_at_zero() {
    let mut p = phase(999_000, 2000);
    p.advance();
    assert_eq!(p.angle, 0);
}

#[test]
fn rail_below_zero_restarts_at_full_turn() {
    let mut p = phase(500, -1000);
    p.advance();
    assert_eq!(p.angle, FULL_TURN);
    assert_eq!(p.rotation_speed, -1000);
}

#[test]
fn rail_landing_on_full_turn_stays_there() {
    let mut p = phase(998_000, 2000);
    p.advance();
    assert_eq!(p.angle, FULL_TURN);
}

#[test]
fn rail_overshoot_is_clamped_not_folded() {
    let mut p = phase(900_000, 300_000);
    p.advance();
    assert_eq!(p.angle, 0);
    let mut q = phase(100_000, -300_000);
    q.advance();
    assert_eq!(q.angle, FULL_TURN);
}

#[test]
fn rail_angle_stays_within_one_turn() {
    let starts = [-3_000_000, -1, 0, 1, 250_000, 999_999, 1_000_000, 1_000_001, 7_000_000];
    let speeds = [-1_000_000, -10_000, -1, 0, 1, 2000, 10_000, 1_000_000];
    for a in starts {
        for s in speeds {
            let mut p = phase(a, s);
            p.advance();
            assert!(0 <= p.angle && p.angle <= FULL_TURN);
            let sum = a + s;
            if sum >= 0 && sum != FULL_TURN {
                assert!(p.angle < FULL_TURN);
            }
        }
    }
}

#[test]
fn stacked_rails_move_independently() {
    let outer = phase(0, 2000);
    let inner = phase(0, 10_000);
    let mut stack = vec![outer, inner];
    let mut alone_outer = outer;
    let mut alone_inner = inner;
    for _ in 0..750 {
        advance_rails(&mut stack);
        alone_outer.advance();
        alone_inner.advance();
    }
    assert_eq!(stack, vec![alone_outer, alone_inner]);
    // a path that lands on a full turn stays there one tick before restarting at zero
    assert_eq!(alone_outer.angle, 498_000);
    assert_eq!(alone_inner.angle, 430_000);
    let turns = |p: &RailPhase| (p.angle as f64 / FULL_TURN as f64) * std::f64::consts::TAU;
    let x: f64 = stack.iter().zip([1000.0, 50.0]).map(|(p, r)| r * turns(p).cos()).sum();
    let x_alone = 1000.0 * turns(&alone_outer).cos() + 50.0 * turns(&alone_inner).cos();
    assert_eq!(x, x_alone);
}

#[test]
fn empty_stack_is_left_alone() {
    let mut stack: Vec<RailPhase> = Vec::new();
    advance_rails(&mut stack);
    assert!(stack.is_empty());
}

#[test]
fn frame_input_picks_last_command() {
    let events = vec![
        InputEvent::KeyDown(Key::Up),
        InputEvent::Other,
        InputEvent::KeyDown(Key::Down),
    ];
    assert_eq!(read_frame_input(&events), FrameInput::Continue(Some(ScaleCommand::Reduce)));
    assert_eq!(read_frame_input(&vec![]), FrameInput::Continue(None));
}

#[test]
fn frame_input_release_withdraws_command() {
    let released = vec![
        InputEvent::KeyDown(Key::Up),
        InputEvent::KeyUp { key: Key::Up, repeat: false },
    ];
    assert_eq!(read_frame_input(&released), FrameInput::Continue(None));
    let repeated = vec![
        InputEvent::KeyDown(Key::Down),
        InputEvent::KeyUp { key: Key::Down, repeat: true },
        InputEvent::KeyUp { key: Key::Other, repeat: false },
    ];
    assert_eq!(read_frame_input(&repeated), FrameInput::Continue(Some(ScaleCommand::Reduce)));
}

#[test]
fn frame_input_quits_on_escape_or_close() {
    let escape = vec![InputEvent::KeyDown(Key::Up), InputEvent::KeyDown(Key::Escape), InputEvent::KeyDown(Key::Down)];
    assert_eq!(read_frame_input(&escape), FrameInput::Quit);
    assert_eq!(read_frame_input(&vec![InputEvent::Quit]), FrameInput::Quit);
    let escape_up = vec![InputEvent::KeyUp { key: Key::Escape, repeat: false }];
    assert_eq!(read_frame_input(&escape_up), FrameInput::Continue(None));
}

#[test]
fn tint_cycles_below_255() {
    assert_eq!(next_tint(0), 1);
    assert_eq!(next_tint(100), 101);
    assert_eq!(next_tint(254), 0);
    assert_eq!(background_rgb(0), (0, 64, 255));
    assert_eq!(background_rgb(200), (200, 64, 55));
}

#[test]
fn outline_repeats_first_corner() {
    let square = vec![(-10, -10), (-10, 10), (10, 10), (10, -10)];
    assert_eq!(closed_outline(&square), vec![(-10, -10), (-10, 10), (10, 10), (10, -10), (-10, -10)]);
    assert_eq!(closed_outline(&vec![7u8]), vec![7u8, 7u8]);
}

#[test]
fn sprite_rows_by_direction() {
    assert_eq!(direction_spreadsheet_row(Direction::Up), 3);
    assert_eq!(direction_spreadsheet_row(Direction::Down), 0);
    assert_eq!(direction_spreadsheet_row(Direction::Left), 1);
    assert_eq!(direction_spreadsheet_row(Direction::Right), 2);
}
