use renderupt::window::{start, FrameLoop, Key, KeyState, LoopAction, WindowEvent};

#[test]
fn loop_starts_at_frame_zero() {
    assert_eq!(start(), FrameLoop { framenumber: 0 });
}

#[test]
fn a_frame_is_drawn_when_events_are_cleared() {
    let mut frame_loop = start();
    assert_eq!(frame_loop.handle(WindowEvent::Started), LoopAction::Poll);
    assert_eq!(frame_loop.handle(WindowEvent::EventsCleared), LoopAction::Draw { framenumber: 0 });
    assert_eq!(frame_loop.handle(WindowEvent::Other), LoopAction::Ignore);
    assert_eq!(frame_loop.handle(WindowEvent::EventsCleared), LoopAction::Draw { framenumber: 1 });
    assert_eq!(frame_loop.handle(WindowEvent::EventsCleared), LoopAction::Draw { framenumber: 2 });
    assert_eq!(frame_loop.framenumber, 3);
}

#[test]
fn closing_and_escape_leave_the_loop() {
    let mut frame_loop = start();
    assert_eq!(frame_loop.handle(WindowEvent::CloseRequested), LoopAction::Exit);
    assert_eq!(
        frame_loop.handle(WindowEvent::Key(Key::Escape, KeyState::Released)),
        LoopAction::Exit
    );
    assert_eq!(
        frame_loop.handle(WindowEvent::Key(Key::Escape, KeyState::Pressed)),
        LoopAction::Ignore
    );
    assert_eq!(frame_loop.framenumber, 0);
}

#[test]
fn a_new_size_asks_for_a_rebuild() {
    let mut frame_loop = start();
    frame_loop.handle(WindowEvent::EventsCleared);
    assert_eq!(frame_loop.handle(WindowEvent::Resized), LoopAction::Resize);
    assert_eq!(frame_loop.framenumber, 1);
}

#[test]
fn keys_move_the_camera() {
    let mut frame_loop = start();
    assert_eq!(
        frame_loop.handle(WindowEvent::Key(Key::W, KeyState::Pressed)),
        LoopAction::MoveCamera { axis: 2, forward: true }
    );
    assert_eq!(
        frame_loop.handle(WindowEvent::Key(Key::S, KeyState::Pressed)),
        LoopAction::MoveCamera { axis: 2, forward: false }
    );
    assert_eq!(
        frame_loop.handle(WindowEvent::Key(Key::A, KeyState::Pressed)),
        LoopAction::MoveCamera { axis: 1, forward: false }
    );
    assert_eq!(
        frame_loop.handle(WindowEvent::Key(Key::D, KeyState::Pressed)),
        LoopAction::MoveCamera { axis: 1, forward: true }
    );
    assert_eq!(
        frame_loop.handle(WindowEvent::Key(Key::W, KeyState::Released)),
        LoopAction::Ignore
    );
    assert_eq!(
        frame_loop.handle(WindowEvent::Key(Key::Other, KeyState::Pressed)),
        LoopAction::Ignore
    );
    assert_eq!(frame_loop.framenumber, 0);
}

#[test]
fn frame_count_starts_over_after_the_last_number() {
    let mut frame_loop = FrameLoop { framenumber: i64::MAX };
    assert_eq!(
        frame_loop.handle(WindowEvent::EventsCleared),
        LoopAction::Draw { framenumber: i64::MAX }
    );
    assert_eq!(frame_loop.framenumber, 0);
}
