//! What the loop does with each event of the platform.

use vstd::prelude::*;

verus! {

/// New dimensions of the surface, as the platform reported them.
#[derive(Clone, Copy, PartialEq, Eq, Structural, Debug)]
pub struct ResizeEvent {
    pub width: u32,
    pub height: u32,
}

/// An event of a window, reduced to what the loop reads of it.
#[derive(Clone, Copy, PartialEq, Eq, Structural, Debug)]
pub enum WindowEvent {
    /// The window asks to be drawn again.
    RedrawRequested,
    /// The user asked to close the window.
    CloseRequested,
    /// A key changed state; `escape` tells whether it is the escape key.
    KeyboardInput { escape: bool },
    /// The window has new dimensions.
    Resized { width: u32, height: u32 },
    /// Any other event of a window.
    Other,
}

/// An event of the platform's event source.
#[derive(Clone, Copy, PartialEq, Eq, Structural, Debug)]
pub enum PlatformEvent {
    /// Every pending event is handled; the source is about to wait.
    AboutToWait,
    /// An event of a window; `own_window` tells whether it is the
    /// application's window.
    Window { own_window: bool, event: WindowEvent },
    /// Any other event.
    Other,
}

/// What the loop is to do next.
#[derive(Clone, Copy, PartialEq, Eq, Structural, Debug)]
pub enum LoopAction {
    /// Cap the frame rate (`after_frame`), then request a redraw.
    FinishFrame,
    /// Run the ticks that are due, then one render pass.
    RunFrame,
    /// Stop the loop.
    Exit,
    /// Queue the new dimensions for the next frame.
    Resize(ResizeEvent),
    /// Nothing.
    Ignore,
}

/// The action that answers `event`. Events of other windows are ignored.
pub open spec fn action_for(event: PlatformEvent) -> LoopAction {
    match event {
        PlatformEvent::AboutToWait => LoopAction::FinishFrame,
        PlatformEvent::Window { own_window: true, event: WindowEvent::RedrawRequested } =>
            LoopAction::RunFrame,
        PlatformEvent::Window { own_window: true, event: WindowEvent::CloseRequested } =>
            LoopAction::Exit,
        PlatformEvent::Window {
            own_window: true,
            event: WindowEvent::KeyboardInput { escape: true },
        } => LoopAction::Exit,
        PlatformEvent::Window { own_window: true, event: WindowEvent::Resized { width, height } } =>
            LoopAction::Resize(ResizeEvent { width, height }),
        _ => LoopAction::Ignore,
    }
}

/// The action that answers `event`.
pub fn handle_event(event: PlatformEvent) -> (action: LoopAction)
    ensures
        action == action_for(event),
{
    match event {
        PlatformEvent::AboutToWait => LoopAction::FinishFrame,
        PlatformEvent::Window { own_window, event } => {
            if !own_window {
                LoopAction::Ignore
            } else {
                match event {
                    WindowEvent::RedrawRequested => LoopAction::RunFrame,
                    WindowEvent::CloseRequested => LoopAction::Exit,
                    WindowEvent::KeyboardInput { escape } => {
                        if escape {
                            LoopAction::Exit
                        } else {
                            LoopAction::Ignore
                        }
                    },
                    WindowEvent::Resized { width, height } => LoopAction::Resize(
                        ResizeEvent { width, height },
                    ),
                    WindowEvent::Other => LoopAction::Ignore,
                }
            }
        },
        PlatformEvent::Other => LoopAction::Ignore,
    }
}

/// Whether the loop still runs frames. Once an event asked for the exit,
/// nothing runs any more: no tick, no frame, no resize.
#[derive(Clone, Copy, PartialEq, Eq, Structural, Debug)]
pub struct EventLoopState {
    pub exiting: bool,
}

impl EventLoopState {
    /// The state of a loop that has just started.
    pub fn new() -> (state: Self)
        ensures
            !state.exiting,
    {
        EventLoopState { exiting: false }
    }

    /// The action that answers `event` in this state, and the state after it.
    pub open spec fn step(self, event: PlatformEvent) -> (EventLoopState, LoopAction) {
        if self.exiting {
            (self, LoopAction::Ignore)
        } else {
            let action = action_for(event);
            (EventLoopState { exiting: action == LoopAction::Exit }, action)
        }
    }

    /// Takes one event: returns the action for it and moves to the next state.
    pub fn on_event(&mut self, event: PlatformEvent) -> (action: LoopAction)
        ensures
            (*final(self), action) == old(self).step(event),
    {
        if self.exiting {
            return LoopAction::Ignore;
        }
        let action = handle_event(event);
        if let LoopAction::Exit = action {
            self.exiting = true;
        }
        action
    }
}

/// Once the loop is exiting it stays so, and every later event is ignored.
pub proof fn lemma_exit_is_final(state: EventLoopState, event: PlatformEvent)
    requires
        state.exiting,
    ensures
        state.step(event) == (state, LoopAction::Ignore),
{
}

} // verus!
