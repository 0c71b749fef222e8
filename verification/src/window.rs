//! The applet's state machine.
//!
//! The applet tracks two things: whether its popup surface is open, and
//! whether the keyboard process was last seen running. User-facing messages
//! advance that state one step at a time; each step also names the single
//! process-control or popup effect the host must perform. The host owns the
//! event loop: it hands each message to [`Window::update`] together with a
//! fresh popup identifier and the current result of the liveness query,
//! performs the returned [`Effect`], and feeds the effect's completion
//! message (if any) back in.

use vstd::prelude::*;

verus! {

/// An opaque identifier for an open popup surface, issued by the host.
#[derive(Clone, Copy, PartialEq, Eq, Structural, Debug)]
pub struct PopupId {
    pub id: u64,
}

/// The user-facing messages the applet reacts to.
#[derive(Clone, Copy, PartialEq, Eq, Structural, Debug)]
pub enum Message {
    /// Open the popup if it is closed, close it if it is open.
    TogglePopup,
    /// The host reports that a popup surface was closed.
    PopupClosed(PopupId),
    /// Kill the keyboard if it runs, start it otherwise.
    ToggleKeyboard,
    /// Show the keyboard, starting it first if it does not run.
    ShowKeyboard,
    /// Hide the keyboard if it runs.
    HideKeyboard,
    /// A completed action reports the keyboard's commanded state.
    KeyboardStateChanged(bool),
}

/// The single action a step of the state machine asks the host to perform.
#[derive(Clone, Copy, PartialEq, Eq, Structural, Debug)]
pub enum Effect {
    /// Nothing to do.
    Nothing,
    /// Open a popup surface under the given identifier.
    OpenPopup(PopupId),
    /// Destroy the popup surface with the given identifier.
    ClosePopup(PopupId),
    /// Spawn the keyboard binary with its fixed layout argument.
    SpawnKeyboard,
    /// Terminate every process matching the keyboard binary's name.
    KillKeyboard,
    /// Send the show signal to the keyboard process by name.
    SignalShow,
    /// Send the hide signal to the keyboard process by name.
    SignalHide,
}

/// The applet's state: the open popup, if any, and the last observed or
/// last commanded liveness of the keyboard process. The liveness flag may be
/// stale until the next query.
pub struct Window {
    pub popup: Option<PopupId>,
    pub keyboard_running: bool,
}

impl Window {
    /// The state after one step on `message`. `fresh` is the identifier the
    /// host issued in case a popup opens; `observed` is the liveness query's
    /// result at the moment the popup toggles.
    pub open spec fn next(self, message: Message, fresh: PopupId, observed: bool) -> Window {
        match message {
            Message::TogglePopup => match self.popup {
                Some(_) => Window { popup: None, keyboard_running: observed },
                None => Window { popup: Some(fresh), keyboard_running: observed },
            },
            Message::PopupClosed(id) => if self.popup == Some(id) {
                Window { popup: None, keyboard_running: self.keyboard_running }
            } else {
                self
            },
            Message::ToggleKeyboard => Window {
                popup: self.popup,
                keyboard_running: !self.keyboard_running,
            },
            Message::ShowKeyboard => Window { popup: self.popup, keyboard_running: true },
            Message::HideKeyboard => self,
            Message::KeyboardStateChanged(running) => Window {
                popup: self.popup,
                keyboard_running: running,
            },
        }
    }

    /// The effect one step on `message` asks of the host.
    pub open spec fn step_effect(self, message: Message, fresh: PopupId) -> Effect {
        match message {
            Message::TogglePopup => match self.popup {
                Some(open) => Effect::ClosePopup(open),
                None => Effect::OpenPopup(fresh),
            },
            Message::PopupClosed(_) => Effect::Nothing,
            Message::ToggleKeyboard => if self.keyboard_running {
                Effect::KillKeyboard
            } else {
                Effect::SpawnKeyboard
            },
            Message::ShowKeyboard => if self.keyboard_running {
                Effect::SignalShow
            } else {
                Effect::SpawnKeyboard
            },
            Message::HideKeyboard => if self.keyboard_running {
                Effect::SignalHide
            } else {
                Effect::Nothing
            },
            Message::KeyboardStateChanged(_) => Effect::Nothing,
        }
    }

    /// The initial state: no popup, liveness as first observed.
    pub fn init(observed: bool) -> (w: Window)
        ensures
            w.popup is None,
            w.keyboard_running == observed,
    {
        Window { popup: None, keyboard_running: observed }
    }

    /// Advance the state machine one step and name the effect the host must
    /// perform. `fresh` is used only if a popup opens; `observed` only if the
    /// popup toggles.
    pub fn update(&mut self, message: Message, fresh: PopupId, observed: bool) -> (e: Effect)
        ensures
            *final(self) == (*old(self)).next(message, fresh, observed),
            e == (*old(self)).step_effect(message, fresh),
    {
        match message {
            Message::TogglePopup => {
                self.keyboard_running = observed;
                match self.popup {
                    Some(open) => {
                        self.popup = None;
                        Effect::ClosePopup(open)
                    },
                    None => {
                        self.popup = Some(fresh);
                        Effect::OpenPopup(fresh)
                    },
                }
            },
            Message::PopupClosed(id) => {
                if self.popup == Some(id) {
                    self.popup = None;
                }
                Effect::Nothing
            },
            Message::ToggleKeyboard => {
                if self.keyboard_running {
                    self.keyboard_running = false;
                    Effect::KillKeyboard
                } else {
                    self.keyboard_running = true;
                    Effect::SpawnKeyboard
                }
            },
            Message::ShowKeyboard => {
                if self.keyboard_running {
                    Effect::SignalShow
                } else {
                    self.keyboard_running = true;
                    Effect::SpawnKeyboard
                }
            },
            Message::HideKeyboard => {
                if self.keyboard_running {
                    Effect::SignalHide
                } else {
                    Effect::Nothing
                }
            },
            Message::KeyboardStateChanged(running) => {
                self.keyboard_running = running;
                Effect::Nothing
            },
        }
    }

    /// The message a popup close notification from the host turns into.
    pub fn on_close_requested(&self, id: PopupId) -> (m: Option<Message>)
        ensures
            m == Some(Message::PopupClosed(id)),
    {
        Some(Message::PopupClosed(id))
    }

    /// The panel icon's name. The same symbol stands for both states.
    pub fn icon_name(&self) -> (r: &'static str)
        ensures
            r@ == "input-keyboard-symbolic"@,
    {
        "input-keyboard-symbolic"
    }

    /// The status line of the popup.
    pub fn status_text(&self) -> (r: &'static str)
        ensures
            self.keyboard_running ==> r@ == "Virtual keyboard is running"@,
            !self.keyboard_running ==> r@ == "Virtual keyboard is not running"@,
    {
        if self.keyboard_running {
            "Virtual keyboard is running"
        } else {
            "Virtual keyboard is not running"
        }
    }

    /// The label of the popup's toggle button.
    pub fn toggle_button_text(&self) -> (r: &'static str)
        ensures
            self.keyboard_running ==> r@ == "Turn Off Keyboard"@,
            !self.keyboard_running ==> r@ == "Turn On Keyboard"@,
    {
        if self.keyboard_running {
            "Turn Off Keyboard"
        } else {
            "Turn On Keyboard"
        }
    }

    /// Whether the popup offers the show and hide rows: only while the
    /// keyboard is believed to be running.
    pub fn shows_process_controls(&self) -> (r: bool)
        ensures
            r == self.keyboard_running,
    {
        self.keyboard_running
    }
}

/// The completion message of an effect, mirroring what the host feeds back
/// once the action finishes: process actions report the commanded liveness,
/// popup actions report nothing.
pub open spec fn spec_completion_message(e: Effect) -> Option<Message> {
    match e {
        Effect::Nothing => None,
        Effect::OpenPopup(_) => None,
        Effect::ClosePopup(_) => None,
        Effect::SpawnKeyboard => Some(Message::KeyboardStateChanged(true)),
        Effect::KillKeyboard => Some(Message::KeyboardStateChanged(false)),
        Effect::SignalShow => Some(Message::KeyboardStateChanged(true)),
        Effect::SignalHide => Some(Message::KeyboardStateChanged(true)),
    }
}

/// The message the host feeds back once an effect's action has finished,
/// whether or not the action itself succeeded.
pub fn completion_message(e: Effect) -> (m: Option<Message>)
    ensures
        m == spec_completion_message(e),
{
    match e {
        Effect::SpawnKeyboard => Some(Message::KeyboardStateChanged(true)),
        Effect::KillKeyboard => Some(Message::KeyboardStateChanged(false)),
        Effect::SignalShow => Some(Message::KeyboardStateChanged(true)),
        Effect::SignalHide => Some(Message::KeyboardStateChanged(true)),
        Effect::Nothing => None,
        Effect::OpenPopup(_) => None,
        Effect::ClosePopup(_) => None,
    }
}

} // verus!
