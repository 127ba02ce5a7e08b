//! How the controller reacts to the events of its event loop.
//!
//! The controller keeps one bit of state, whether the heat bed power is on.
//! A press of the IO0 button toggles it and drives the power output pin to
//! the new level; the button and the display timer both ask for the status
//! display to be redrawn; every other event is ignored.

use vstd::prelude::*;
use crate::events::HeatbedControllerEvent;

verus! {

/// The state kept between events.
#[derive(Clone, Copy, Debug, PartialEq, Eq, Structural)]
pub struct ControllerState {
    /// Whether the heat bed power output is on.
    pub power_on: bool,
}

/// What the board must do after an event.
#[derive(Clone, Copy, Debug, PartialEq, Eq, Structural)]
pub struct ControllerAction {
    /// The level to drive the power output pin to, where it changes.
    pub set_power_output: Option<bool>,
    /// Whether the status display must be redrawn.
    pub update_display: bool,
}

/// The state after `event` in state `state`.
pub open spec fn next_state(state: ControllerState, event: HeatbedControllerEvent) -> ControllerState {
    match event {
        HeatbedControllerEvent::IO0 => ControllerState { power_on: !state.power_on },
        _ => state,
    }
}

/// The action that `event` asks for in state `state`.
pub open spec fn action_of(state: ControllerState, event: HeatbedControllerEvent) -> ControllerAction {
    match event {
        HeatbedControllerEvent::IO0 => ControllerAction {
            set_power_output: Some(!state.power_on),
            update_display: true,
        },
        HeatbedControllerEvent::DisplayTimer => ControllerAction {
            set_power_output: None,
            update_display: true,
        },
        _ => ControllerAction { set_power_output: None, update_display: false },
    }
}

/// The state after handling `events` in order, starting in `state`.
pub open spec fn run(state: ControllerState, events: Seq<HeatbedControllerEvent>) -> ControllerState
    decreases events.len(),
{
    if events.len() == 0 {
        state
    } else {
        next_state(run(state, events.drop_last()), events.last())
    }
}

/// The number of button presses among `events`.
pub open spec fn presses(events: Seq<HeatbedControllerEvent>) -> nat
    decreases events.len(),
{
    if events.len() == 0 {
        0
    } else {
        presses(events.drop_last()) + if events.last() == HeatbedControllerEvent::IO0 {
            1nat
        } else {
            0nat
        }
    }
}

/// The text that the display shows for the power state.
pub open spec fn power_text_of(power_on: bool) -> Seq<char> {
    if power_on {
        "Power: On"@
    } else {
        "Power: Off"@
    }
}

impl ControllerState {
    /// The state at start-up: power off.
    pub fn new() -> (state: ControllerState)
        ensures
            !state.power_on,
    {
        ControllerState { power_on: false }
    }

    /// Handles one event: updates the state and says what the board must do.
    pub fn handle_event(&mut self, event: HeatbedControllerEvent) -> (action: ControllerAction)
        ensures
            *final(self) == next_state(*old(self), event),
            action == action_of(*old(self), event),
            final(self).power_on == (old(self).power_on != (event
                == HeatbedControllerEvent::IO0)),
            action.set_power_output == (if event == HeatbedControllerEvent::IO0 {
                Some(final(self).power_on)
            } else {
                None
            }),
            action.update_display <==> (event == HeatbedControllerEvent::IO0 || event
                == HeatbedControllerEvent::DisplayTimer),
    {
        match event {
            HeatbedControllerEvent::IO0 => {
                self.power_on = !self.power_on;
                ControllerAction { set_power_output: Some(self.power_on), update_display: true }
            },
            HeatbedControllerEvent::DisplayTimer => {
                ControllerAction { set_power_output: None, update_display: true }
            },
            _ => ControllerAction { set_power_output: None, update_display: false },
        }
    }

    /// The status line for the power state.
    pub fn power_text(&self) -> (text: &'static str)
        ensures
            text@ == power_text_of(self.power_on),
            self.power_on ==> text@ == "Power: On"@,
            !self.power_on ==> text@ == "Power: Off"@,
    {
        if self.power_on {
            "Power: On"
        } else {
            "Power: Off"
        }
    }
}

/// Two presses of the button in a row give back the state before them.
pub proof fn lemma_press_twice_restores(state: ControllerState)
    ensures
        next_state(next_state(state, HeatbedControllerEvent::IO0), HeatbedControllerEvent::IO0)
            == state,
{
}

/// Only a press of the button changes the state.
pub proof fn lemma_only_press_changes_state(state: ControllerState, event: HeatbedControllerEvent)
    ensures
        event != HeatbedControllerEvent::IO0 ==> next_state(state, event) == state,
        event == HeatbedControllerEvent::IO0 ==> next_state(state, event) != state,
{
}

/// Whenever the power output is driven, it is driven to the new power state.
pub proof fn lemma_output_follows_state(state: ControllerState, event: HeatbedControllerEvent)
    ensures
        action_of(state, event).set_power_output matches Some(level) ==> level == next_state(
            state,
            event,
        ).power_on,
        action_of(state, event).set_power_output is Some <==> next_state(state, event) != state,
{
}

/// The display is redrawn exactly after a press of the button and after the
/// display timer.
pub proof fn lemma_display_refresh_events(state: ControllerState, event: HeatbedControllerEvent)
    ensures
        action_of(state, event).update_display <==> (event == HeatbedControllerEvent::IO0 || event
            == HeatbedControllerEvent::DisplayTimer),
{
}

/// Starting with the power off, the power is on after a sequence of events
/// exactly when the button was pressed an odd number of times.
pub proof fn lemma_power_is_parity_of_presses(events: Seq<HeatbedControllerEvent>)
    ensures
        run(ControllerState { power_on: false }, events).power_on <==> presses(events) % 2 == 1,
    decreases events.len(),
{
    if events.len() > 0 {
        lemma_power_is_parity_of_presses(events.drop_last());
    }
}

} // verus!
