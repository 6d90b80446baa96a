use mush::application::handle_event;
use mush::application::EventLoopState;
use mush::application::LoopAction;
use mush::application::PlatformEvent;
use mush::application::ResizeEvent;
use mush::application::WindowEvent;
use mush::graphics::wgpu::select_surface_format;

fn own(event: WindowEvent) -> PlatformEvent {
    PlatformEvent::Window { own_window: true, event }
}

fn foreign(event: WindowEvent) -> PlatformEvent {
    PlatformEvent::Window { own_window: false, event }
}

#[test]
fn each_event_has_its_action() {
    assert_eq!(handle_event(PlatformEvent::AboutToWait), LoopAction::FinishFrame);
    assert_eq!(handle_event(own(WindowEvent::RedrawRequested)), LoopAction::RunFrame);
    assert_eq!(handle_event(own(WindowEvent::CloseRequested)), LoopAction::Exit);
    assert_eq!(handle_event(own(WindowEvent::KeyboardInput { escape: true })), LoopAction::Exit);
    assert_eq!(
        handle_event(own(WindowEvent::KeyboardInput { escape: false })),
        LoopAction::Ignore
    );
    assert_eq!(
        handle_event(own(WindowEvent::Resized { width: 800, height: 450 })),
        LoopAction::Resize(ResizeEvent { width: 800, height: 450 })
    );
    assert_eq!(handle_event(own(WindowEvent::Other)), LoopAction::Ignore);
    assert_eq!(handle_event(PlatformEvent::Other), LoopAction::Ignore);
}

#[test]
fn events_of_other_windows_are_ignored() {
    assert_eq!(handle_event(foreign(WindowEvent::RedrawRequested)), LoopAction::Ignore);
    assert_eq!(handle_event(foreign(WindowEvent::CloseRequested)), LoopAction::Ignore);
    assert_eq!(
        handle_event(foreign(WindowEvent::KeyboardInput { escape: true })),
        LoopAction::Ignore
    );
    assert_eq!(
        handle_event(foreign(WindowEvent::Resized { width: 1, height: 1 })),
        LoopAction::Ignore
    );
}

#[test]
fn a_zero_sized_resize_is_passed_on_as_it_came() {
    assert_eq!(
        handle_event(own(WindowEvent::Resized { width: 0, height: 0 })),
        LoopAction::Resize(ResizeEvent { width: 0, height: 0 })
    );
}

#[test]
fn nothing_runs_after_the_exit() {
    let mut state = EventLoopState::new();
    assert!(!state.exiting);
    assert_eq!(state.on_event(own(WindowEvent::RedrawRequested)), LoopAction::RunFrame);
    assert_eq!(state.on_event(PlatformEvent::AboutToWait), LoopAction::FinishFrame);
    assert!(!state.exiting);
    assert_eq!(state.on_event(own(WindowEvent::CloseRequested)), LoopAction::Exit);
    assert!(state.exiting);
    assert_eq!(state.on_event(own(WindowEvent::RedrawRequested)), LoopAction::Ignore);
    assert_eq!(state.on_event(PlatformEvent::AboutToWait), LoopAction::Ignore);
    assert_eq!(
        state.on_event(own(WindowEvent::Resized { width: 3, height: 2 })),
        LoopAction::Ignore
    );
    assert_eq!(state.on_event(own(WindowEvent::CloseRequested)), LoopAction::Ignore);
    assert!(state.exiting);
}

#[test]
fn the_escape_key_stops_the_loop() {
    let mut state = EventLoopState::new();
    assert_eq!(
        state.on_event(own(WindowEvent::KeyboardInput { escape: false })),
        LoopAction::Ignore
    );
    assert!(!state.exiting);
    assert_eq!(state.on_event(own(WindowEvent::KeyboardInput { escape: true })), LoopAction::Exit);
    assert!(state.exiting);
}

#[test]
fn the_first_srgb_format_is_selected() {
    assert_eq!(select_surface_format(&vec![false, true, true]), Some(1));
    assert_eq!(select_surface_format(&vec![true]), Some(0));
    assert_eq!(select_surface_format(&vec![false, false]), None);
    assert_eq!(select_surface_format(&vec![]), None);
}
