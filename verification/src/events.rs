//! What the application loop does with each window-system event: the
//! decision is made here, the work is done by the loop that owns the window.
use vstd::prelude::*;
use crate::input::{ElementState, KeyboardInput};

verus! {

/// The virtual key code of the Escape key.
pub const KEY_ESCAPE: u32 = 36;

/// The virtual key code of the A key.
pub const KEY_A: u32 = 10;

/// An event of the window, as far as the loop looks at it.
#[derive(Clone, Copy, Debug)]
pub enum WindowEventKind {
    CloseRequested,
    KeyboardInput(KeyboardInput),
    Other,
}

/// An event of the event loop, as far as the loop looks at it.
#[derive(Clone, Copy, Debug)]
pub enum LoopEvent {
    Window(WindowEventKind),
    MainEventsCleared,
    RedrawRequested,
    LoopDestroyed,
    Other,
}

/// What the loop does in answer to one event. The loop polls before every
/// event; `Exit` then asks it to stop.
#[derive(Clone, Copy, Debug)]
pub enum LoopAction {
    /// Stop the loop.
    Exit,
    /// Hand the keyboard event on to the keyboard state.
    UpdateInput(KeyboardInput),
    /// Hand the key and its state to the keyboard handler.
    ProcessKeyboardInput(Option<u32>, ElementState),
    /// Run one frame of the run schedule.
    RunSchedule,
    /// Advance the clock and draw a frame.
    TickAndDraw,
    /// Run the shutdown work.
    Shutdown,
    /// Nothing to do.
    Nothing,
}

/// The key event is Escape going down.
pub open spec fn is_escape_press(input: KeyboardInput) -> bool {
    input.virtual_keycode == Some(KEY_ESCAPE) && input.state == ElementState::Pressed
}

fn escape_pressed(input: KeyboardInput) -> (b: bool)
    ensures
        b == is_escape_press(input),
{
    match (input.virtual_keycode, input.state) {
        (Some(k), ElementState::Pressed) => k == KEY_ESCAPE,
        _ => false,
    }
}

/// The action of the application that runs schedules: closing the window
/// or pressing Escape stops it, other key events go to the keyboard state,
/// a cleared event queue runs a frame and the end of the loop runs the
/// shutdown work.
pub open spec fn app_action_spec(event: LoopEvent) -> LoopAction {
    match event {
        LoopEvent::Window(WindowEventKind::CloseRequested) => LoopAction::Exit,
        LoopEvent::Window(WindowEventKind::KeyboardInput(input)) => if is_escape_press(input) {
            LoopAction::Exit
        } else {
            LoopAction::UpdateInput(input)
        },
        LoopEvent::MainEventsCleared => LoopAction::RunSchedule,
        LoopEvent::LoopDestroyed => LoopAction::Shutdown,
        _ => LoopAction::Nothing,
    }
}

/// The action of the application that draws directly: as
/// [`app_action_spec`], but other key events go to the keyboard handler and
/// a cleared event queue advances the clock and draws.
pub open spec fn application_action_spec(event: LoopEvent) -> LoopAction {
    match event {
        LoopEvent::Window(WindowEventKind::CloseRequested) => LoopAction::Exit,
        LoopEvent::Window(WindowEventKind::KeyboardInput(input)) => if is_escape_press(input) {
            LoopAction::Exit
        } else {
            LoopAction::ProcessKeyboardInput(input.virtual_keycode, input.state)
        },
        LoopEvent::MainEventsCleared => LoopAction::TickAndDraw,
        LoopEvent::LoopDestroyed => LoopAction::Shutdown,
        _ => LoopAction::Nothing,
    }
}

/// The action of the schedule-running application for one event.
pub fn app_action(event: LoopEvent) -> (a: LoopAction)
    ensures
        a == app_action_spec(event),
{
    match event {
        LoopEvent::Window(WindowEventKind::CloseRequested) => LoopAction::Exit,
        LoopEvent::Window(WindowEventKind::KeyboardInput(input)) => {
            if escape_pressed(input) {
                LoopAction::Exit
            } else {
                LoopAction::UpdateInput(input)
            }
        },
        LoopEvent::MainEventsCleared => LoopAction::RunSchedule,
        LoopEvent::LoopDestroyed => LoopAction::Shutdown,
        _ => LoopAction::Nothing,
    }
}

/// The action of the drawing application for one event.
pub fn application_action(event: LoopEvent) -> (a: LoopAction)
    ensures
        a == application_action_spec(event),
{
    match event {
        LoopEvent::Window(WindowEventKind::CloseRequested) => LoopAction::Exit,
        LoopEvent::Window(WindowEventKind::KeyboardInput(input)) => {
            if escape_pressed(input) {
                LoopAction::Exit
            } else {
                LoopAction::ProcessKeyboardInput(input.virtual_keycode, input.state)
            }
        },
        LoopEvent::MainEventsCleared => LoopAction::TickAndDraw,
        LoopEvent::LoopDestroyed => LoopAction::Shutdown,
        _ => LoopAction::Nothing,
    }
}

/// What the keyboard handler reports for a key event: pressing A is
/// reported, everything else is not.
pub fn process_keyboard_input(virtual_keycode: Option<u32>, state: ElementState) -> (message:
    Option<&'static str>)
    ensures
        (virtual_keycode == Some(KEY_A) && state == ElementState::Pressed) ==> message.is_some()
            && message.unwrap()@ == "Pressing A"@,
        !(virtual_keycode == Some(KEY_A) && state == ElementState::Pressed) ==> message.is_none(),
{
    match (virtual_keycode, state) {
        (Some(k), ElementState::Pressed) => {
            if k == KEY_A {
                let m = "Pressing A";
                proof {
                    reveal_strlit("Pressing A");
                }
                Some(m)
            } else {
                None
            }
        },
        _ => None,
    }
}

/// Only a close request or an Escape press stops either application.
pub proof fn law_only_close_or_escape_exits(event: LoopEvent)
    ensures
        (app_action_spec(event) is Exit) == (application_action_spec(event) is Exit),
        (app_action_spec(event) is Exit) <==> (event == LoopEvent::Window(
            WindowEventKind::CloseRequested,
        ) || exists|input: KeyboardInput|
            event == LoopEvent::Window(WindowEventKind::KeyboardInput(input)) && is_escape_press(
                input,
            )),
{
    if let LoopEvent::Window(WindowEventKind::KeyboardInput(input)) = event {
        if is_escape_press(input) {
            assert(event == LoopEvent::Window(WindowEventKind::KeyboardInput(input)));
        }
    }
}

} // verus!
