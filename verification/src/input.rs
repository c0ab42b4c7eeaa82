use vstd::prelude::*;

verus! {

/// A discrete input event, once the windowing layer has told the
/// relevant keys apart. `Other` stands for every unrecognized event.
#[derive(Clone, Copy, Debug, PartialEq, Eq, Structural)]
pub enum Input {
    Quit,
    Escape,
    KeyQ,
    Left,
    Right,
    KeyP,
    KeyN,
    KeyL,
    Semicolon,
    KeyK,
    Other,
}

/// What the viewer does with one input event.
#[derive(Clone, Copy, Debug, PartialEq, Eq, Structural)]
pub enum Command {
    /// Leave the event loop.
    Quit,
    /// Step the cursor backward by the given magnitude, then redraw.
    StepBackward(usize),
    /// Step the cursor forward by the given magnitude, then redraw.
    StepForward(usize),
    /// Relocate the current image into the keep directory, drop it
    /// from the set, then redraw.
    Keep,
    /// Do nothing: no state change and no redraw.
    Ignore,
}

/// The key map: quit on a quit signal, Escape or Q; Left and Right
/// step by one, P and N by ten, L and semicolon by a hundred; K keeps
/// the current image; everything else is ignored.
pub open spec fn command_spec(input: Input) -> Command {
    match input {
        Input::Quit => Command::Quit,
        Input::Escape => Command::Quit,
        Input::KeyQ => Command::Quit,
        Input::Left => Command::StepBackward(1),
        Input::Right => Command::StepForward(1),
        Input::KeyP => Command::StepBackward(10),
        Input::KeyN => Command::StepForward(10),
        Input::KeyL => Command::StepBackward(100),
        Input::Semicolon => Command::StepForward(100),
        Input::KeyK => Command::Keep,
        Input::Other => Command::Ignore,
    }
}

/// Translate one input event into the command the key map assigns it.
pub fn command_for(input: Input) -> (c: Command)
    ensures
        c == command_spec(input),
{
    match input {
        Input::Quit => Command::Quit,
        Input::Escape => Command::Quit,
        Input::KeyQ => Command::Quit,
        Input::Left => Command::StepBackward(1),
        Input::Right => Command::StepForward(1),
        Input::KeyP => Command::StepBackward(10),
        Input::KeyN => Command::StepForward(10),
        Input::KeyL => Command::StepBackward(100),
        Input::Semicolon => Command::StepForward(100),
        Input::KeyK => Command::Keep,
        Input::Other => Command::Ignore,
    }
}

} // verus!
