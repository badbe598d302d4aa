use vstd::prelude::*;

use crate::components::ScaleCommand;

verus! {

/// The keys the simulation listens to.
#[derive(Debug, Clone, Copy, PartialEq, Eq, Structural)]
pub enum Key {
    Escape,
    Up,
    Down,
    Other,
}

/// One window event, reduced to what the simulation reads of it.
#[derive(Debug, Clone, Copy, PartialEq, Eq, Structural)]
pub enum InputEvent {
    Quit,
    KeyDown(Key),
    KeyUp { key: Key, repeat: bool },
    Other,
}

/// What the events of one frame ask for: to stop, or to run the next tick
/// with a scale command or none.
#[derive(Debug, Clone, Copy, PartialEq, Eq, Structural)]
pub enum FrameInput {
    Quit,
    Continue(Option<ScaleCommand>),
}

/// Whether `e` ends the simulation.
pub open spec fn is_quit(e: InputEvent) -> bool {
    match e {
        InputEvent::Quit => true,
        InputEvent::KeyDown(Key::Escape) => true,
        _ => false,
    }
}

/// The scale command in force after `e`, `command` being the one before it.
pub open spec fn command_after_event(command: Option<ScaleCommand>, e: InputEvent) -> Option<ScaleCommand> {
    match e {
        InputEvent::KeyDown(Key::Up) => Some(ScaleCommand::Increase),
        InputEvent::KeyDown(Key::Down) => Some(ScaleCommand::Reduce),
        InputEvent::KeyUp { key: Key::Up, repeat: false } => None,
        InputEvent::KeyUp { key: Key::Down, repeat: false } => None,
        _ => command,
    }
}

/// What the events `events` of one frame ask for, `command` being the scale
/// command in force before the first of them.
pub open spec fn frame_input_from(command: Option<ScaleCommand>, events: Seq<InputEvent>) -> FrameInput
    decreases events.len(),
{
    if events.len() == 0 {
        FrameInput::Continue(command)
    } else if is_quit(events[0]) {
        FrameInput::Quit
    } else {
        frame_input_from(command_after_event(command, events[0]), events.drop_first())
    }
}

/// What one frame's events ask for; each frame starts with no scale command.
pub open spec fn frame_input_of(events: Seq<InputEvent>) -> FrameInput {
    frame_input_from(None, events)
}

/// Reads one frame's events in order: a quit request or the escape key stops
/// at once; the up and down keys pick a scale command, and releasing either
/// (other than by key repeat) withdraws it.
pub fn read_frame_input(events: &Vec<InputEvent>) -> (r: FrameInput)
    ensures
        r == frame_input_of(events@),
{
    let mut command: Option<ScaleCommand> = None;
    let n = events.len();
    let mut i: usize = 0;
    assert(events@.subrange(0, n as int) =~= events@);
    while i < n
        invariant
            n == events@.len(),
            0 <= i <= n,
            frame_input_of(events@) == frame_input_from(command, events@.subrange(i as int, n as int)),
        decreases n - i,
    {
        let e = events[i];
        proof {
            let rest = events@.subrange(i as int, n as int);
            assert(rest[0] == e);
            assert(rest.drop_first() =~= events@.subrange(i + 1, n as int));
        }
        match e {
            InputEvent::Quit => {
                return FrameInput::Quit;
            },
            InputEvent::KeyDown(Key::Escape) => {
                return FrameInput::Quit;
            },
            InputEvent::KeyDown(Key::Up) => {
                command = Some(ScaleCommand::Increase);
            },
            InputEvent::KeyDown(Key::Down) => {
                command = Some(ScaleCommand::Reduce);
            },
            InputEvent::KeyUp { key: Key::Up, repeat: false } => {
                command = None;
            },
            InputEvent::KeyUp { key: Key::Down, repeat: false } => {
                command = None;
            },
            _ => {},
        }
        i = i + 1;
    }
    assert(events@.subrange(n as int, n as int) =~= Seq::<InputEvent>::empty());
    FrameInput::Continue(command)
}

} // verus!
