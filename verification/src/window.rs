//! What the frame loop does with each event of the window.
//!
//! The program owns the window and pumps its events; for each event it
//! asks here what to do. The camera moves by a fixed step along one of its
//! axes, in one of two directions: the step itself is the program's.

use vstd::prelude::*;

verus! {

/// The keys the frame loop knows.
#[derive(Clone, Copy, Debug, PartialEq, Eq, Structural)]
pub enum Key {
    Escape,
    W,
    A,
    S,
    D,
    Other,
}

/// Whether a key went down or came up.
#[derive(Clone, Copy, Debug, PartialEq, Eq, Structural)]
pub enum KeyState {
    Pressed,
    Released,
}

/// An event of the window, as far as the frame loop cares.
#[derive(Clone, Copy, Debug, PartialEq, Eq, Structural)]
pub enum WindowEvent {
    /// The event loop has started.
    Started,
    /// The user asked to close the window.
    CloseRequested,
    /// The window has a new size.
    Resized,
    /// A key went down or came up.
    Key(Key, KeyState),
    /// All pending events have been handled.
    EventsCleared,
    /// Anything else.
    Other,
}

/// What the frame loop does.
#[derive(Clone, Copy, Debug, PartialEq, Eq, Structural)]
pub enum LoopAction {
    /// Keep polling for events without waiting.
    Poll,
    /// Leave the loop.
    Exit,
    /// Rebuild the presentation chain for the window's new size.
    Resize,
    /// Move the camera one step along an axis, forward or backward.
    MoveCamera { axis: u8, forward: bool },
    /// Draw the frame of this number.
    Draw { framenumber: i64 },
    /// Nothing.
    Ignore,
}

/// The state of the frame loop: the number of the next frame.
#[derive(Clone, Copy, Debug, PartialEq, Eq, Structural)]
pub struct FrameLoop {
    pub framenumber: i64,
}

/// The number of the frame after this one. After the last number that
/// fits, counting starts again at zero.
pub open spec fn following_frame(framenumber: i64) -> i64 {
    if framenumber == i64::MAX {
        0
    } else {
        (framenumber + 1) as i64
    }
}

/// What an event asks for.
pub open spec fn action_for(event: WindowEvent, framenumber: i64) -> LoopAction {
    match event {
        WindowEvent::Started => LoopAction::Poll,
        WindowEvent::CloseRequested => LoopAction::Exit,
        WindowEvent::Resized => LoopAction::Resize,
        WindowEvent::Key(Key::Escape, KeyState::Released) => LoopAction::Exit,
        WindowEvent::Key(Key::W, KeyState::Pressed) => LoopAction::MoveCamera {
            axis: 2,
            forward: true,
        },
        WindowEvent::Key(Key::A, KeyState::Pressed) => LoopAction::MoveCamera {
            axis: 1,
            forward: false,
        },
        WindowEvent::Key(Key::S, KeyState::Pressed) => LoopAction::MoveCamera {
            axis: 2,
            forward: false,
        },
        WindowEvent::Key(Key::D, KeyState::Pressed) => LoopAction::MoveCamera {
            axis: 1,
            forward: true,
        },
        WindowEvent::EventsCleared => LoopAction::Draw { framenumber },
        _ => LoopAction::Ignore,
    }
}

/// A frame loop that has drawn nothing yet.
pub fn start() -> (frame_loop: FrameLoop)
    ensures
        frame_loop.framenumber == 0,
{
    FrameLoop { framenumber: 0 }
}

impl FrameLoop {
    /// Says what to do with an event. A frame is drawn whenever all
    /// pending events have been handled, and only then the count of frames
    /// goes up.
    pub fn handle(&mut self, event: WindowEvent) -> (action: LoopAction)
        ensures
            action == action_for(event, old(self).framenumber),
            final(self).framenumber == (if event == WindowEvent::EventsCleared {
                following_frame(old(self).framenumber)
            } else {
                old(self).framenumber
            }),
    {
        match event {
            WindowEvent::Started => LoopAction::Poll,
            WindowEvent::CloseRequested => LoopAction::Exit,
            WindowEvent::Resized => LoopAction::Resize,
            WindowEvent::Key(Key::Escape, KeyState::Released) => LoopAction::Exit,
            WindowEvent::Key(Key::W, KeyState::Pressed) => LoopAction::MoveCamera {
                axis: 2,
                forward: true,
            },
            WindowEvent::Key(Key::A, KeyState::Pressed) => LoopAction::MoveCamera {
                axis: 1,
                forward: false,
            },
            WindowEvent::Key(Key::S, KeyState::Pressed) => LoopAction::MoveCamera {
                axis: 2,
                forward: false,
            },
            WindowEvent::Key(Key::D, KeyState::Pressed) => LoopAction::MoveCamera {
                axis: 1,
                forward: true,
            },
            WindowEvent::EventsCleared => {
                let framenumber = self.framenumber;
                self.framenumber = if framenumber == i64::MAX {
                    0
                } else {
                    framenumber + 1
                };
                LoopAction::Draw { framenumber }
            },
            _ => LoopAction::Ignore,
        }
    }
}

} // verus!
