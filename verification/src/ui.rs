//! The settings window's view model.
//!
//! The window runs in a process of its own. It receives `UiCommand`s from
//! the backend, shows two buttons (the start-up entry and the update) and
//! sends a request line back when the update button is pressed. This
//! module holds what the window shows and how it reacts.
use vstd::prelude::*;

verus! {

/// A command from the backend to the window.
#[derive(Clone, Debug)]
pub enum UiCommand {
    ShowWindow,
    UpdateFailed { reason: String },
    UpdateAvailable { version: String },
    Quit,
}

/// The line the window sends to the backend to start the update.
pub const EXECUTE_UPDATE_REQUEST: &'static str = "ExecuteUpdate";

/// What the window does after a command.
#[derive(Clone, Copy, Debug, PartialEq, Eq, Structural)]
pub enum UiEffect {
    /// Bring the window to the front.
    ActivateWindow,
    /// Draw the window again.
    Refresh,
    /// Quit the window's process.
    Quit,
}

/// The window's state.
pub struct UiState {
    /// Whether the start-up entry is enabled.
    pub is_autolaunch: bool,
    /// Whether a change of the start-up entry is under way.
    pub autolaunch_loading: bool,
    /// The version of the update on offer, if any.
    pub update_version: Option<String>,
    /// Whether the update is being installed.
    pub update_loading: bool,
}

/// The text and the state of a button.
pub struct ButtonView {
    pub label: String,
    pub disabled: bool,
}

/// The label of the start-up button.
pub open spec fn autolaunch_label_spec(s: &UiState) -> Seq<char> {
    if s.autolaunch_loading {
        "Updating..."@
    } else if s.is_autolaunch {
        "Disable"@
    } else {
        "Enable"@
    }
}

/// The label of the update button, and whether it is disabled.
pub open spec fn update_button_spec(s: &UiState) -> (Seq<char>, bool) {
    if s.update_loading {
        ("Updating..."@, true)
    } else {
        match s.update_version {
            Some(v) => ("Update (v"@ + v@ + ")"@, false),
            None => ("No update available"@, true),
        }
    }
}

/// Whether a press of the update button starts the update.
pub open spec fn can_begin_update(s: &UiState) -> bool {
    !s.update_loading && s.update_version is Some
}

/// A press of the start-up button: the state after it, and the wanted
/// setting where a change starts.
pub open spec fn begin_toggle_spec(s: UiState) -> (UiState, Option<bool>) {
    if s.autolaunch_loading {
        (s, None)
    } else {
        (UiState { autolaunch_loading: true, ..s }, Some(!s.is_autolaunch))
    }
}

/// The state at the end of a change of the start-up entry to `target`.
pub open spec fn finish_toggle_spec(s: UiState, target: bool, success: bool) -> UiState {
    UiState {
        autolaunch_loading: false,
        is_autolaunch: if success {
            target
        } else {
            s.is_autolaunch
        },
        ..s
    }
}

/// A press of the update button: the state after it, and whether the
/// request is sent.
pub open spec fn begin_update_spec(s: UiState) -> (UiState, bool) {
    if can_begin_update(&s) {
        (UiState { update_loading: true, ..s }, true)
    } else {
        (s, false)
    }
}

/// The state after a command, and the window's effect.
pub open spec fn apply_spec(s: UiState, cmd: UiCommand) -> (UiState, UiEffect) {
    match cmd {
        UiCommand::ShowWindow => (s, UiEffect::ActivateWindow),
        UiCommand::UpdateAvailable { version } => (
            UiState { update_version: Some(version), ..s },
            UiEffect::Refresh,
        ),
        UiCommand::UpdateFailed { .. } => (UiState { update_loading: false, ..s }, UiEffect::Refresh),
        UiCommand::Quit => (s, UiEffect::Quit),
    }
}

/// The caption that shows the running version.
pub fn version_caption(current: &str) -> (res: String)
    ensures
        res@ == "Version: v"@ + current@,
{
    let mut text = "Version: v".to_owned();
    text.append(current);
    text
}

impl UiState {
    /// The state of a new window.
    pub fn new(is_autolaunch: bool) -> (res: UiState)
        ensures
            res.is_autolaunch == is_autolaunch,
            !res.autolaunch_loading,
            res.update_version is None,
            !res.update_loading,
    {
        UiState {
            is_autolaunch,
            autolaunch_loading: false,
            update_version: None,
            update_loading: false,
        }
    }

    /// The start-up button: its label, and whether it is disabled (while a
    /// change is under way).
    pub fn autolaunch_button(&self) -> (res: ButtonView)
        ensures
            res.label@ == autolaunch_label_spec(self),
            res.disabled == self.autolaunch_loading,
    {
        let label = if self.autolaunch_loading {
            "Updating...".to_owned()
        } else if self.is_autolaunch {
            "Disable".to_owned()
        } else {
            "Enable".to_owned()
        };
        ButtonView { label, disabled: self.autolaunch_loading }
    }

    /// A press of the start-up button. While a change is under way it is
    /// ignored (`None`); else the change starts and the wanted setting,
    /// the opposite of the present one, is returned.
    pub fn begin_autolaunch_toggle(&mut self) -> (res: Option<bool>)
        ensures
            (*final(self), res) == begin_toggle_spec(*old(self)),
    {
        if self.autolaunch_loading {
            return None;
        }
        self.autolaunch_loading = true;
        Some(!self.is_autolaunch)
    }

    /// The end of a change of the start-up entry to `target`: the setting
    /// shown becomes `target` where the change succeeded.
    pub fn finish_autolaunch_toggle(&mut self, target: bool, success: bool)
        ensures
            *final(self) == finish_toggle_spec(*old(self), target, success),
    {
        self.autolaunch_loading = false;
        if success {
            self.is_autolaunch = target;
        }
    }

    /// The update button: its label, and whether it is disabled.
    pub fn update_button(&self) -> (res: ButtonView)
        ensures
            (res.label@, res.disabled) == update_button_spec(self),
    {
        if self.update_loading {
            ButtonView { label: "Updating...".to_owned(), disabled: true }
        } else {
            match &self.update_version {
                Some(version) => {
                    let mut label = "Update (v".to_owned();
                    label.append(version.as_str());
                    label.append(")");
                    ButtonView { label, disabled: false }
                },
                None => ButtonView { label: "No update available".to_owned(), disabled: true },
            }
        }
    }

    /// A press of the update button. It starts the update, and returns
    /// `true` so that the request is sent to the backend, only where an
    /// update is on offer and none is being installed.
    pub fn begin_update(&mut self) -> (res: bool)
        ensures
            (*final(self), res) == begin_update_spec(*old(self)),
    {
        if self.update_loading || self.update_version.is_none() {
            return false;
        }
        self.update_loading = true;
        true
    }

    /// Applies a command from the backend.
    pub fn apply_command(&mut self, cmd: UiCommand) -> (res: UiEffect)
        ensures
            (*final(self), res) == apply_spec(*old(self), cmd),
    {
        match cmd {
            UiCommand::ShowWindow => UiEffect::ActivateWindow,
            UiCommand::UpdateAvailable { version } => {
                self.update_version = Some(version);
                UiEffect::Refresh
            },
            UiCommand::UpdateFailed { .. } => {
                self.update_loading = false;
                UiEffect::Refresh
            },
            UiCommand::Quit => UiEffect::Quit,
        }
    }
}

/// The update button is disabled exactly when pressing it does nothing.
pub proof fn lemma_update_button_matches_action(s: UiState)
    ensures
        update_button_spec(&s).1 <==> !can_begin_update(&s),
{
}

/// Pressing the update button twice sends one request: once the update is
/// under way, further presses are refused and the button shows it.
pub proof fn lemma_update_starts_once(s: UiState)
    ensures
        ({
            let s1 = begin_update_spec(s).0;
            let s2 = begin_update_spec(s1);
            &&& !s2.1
            &&& s2.0 == s1
            &&& begin_update_spec(s).1 ==> update_button_spec(&s1) == ("Updating..."@, true)
        }),
{
}

/// A change of the start-up entry shows the opposite setting where it
/// succeeds and the old one where it fails, and clears the busy state;
/// while one is under way, presses are ignored.
pub proof fn lemma_toggle_round_trip(s: UiState, success: bool)
    ensures
        ({
            let (s1, target) = begin_toggle_spec(s);
            &&& s.autolaunch_loading ==> target is None && s1 == s
            &&& !s.autolaunch_loading ==> target == Some(!s.is_autolaunch)
            &&& !s.autolaunch_loading ==> autolaunch_label_spec(&s1) == "Updating..."@
            &&& !s.autolaunch_loading ==> {
                let s2 = finish_toggle_spec(s1, !s.is_autolaunch, success);
                &&& !s2.autolaunch_loading
                &&& s2.is_autolaunch == (success != s.is_autolaunch)
            }
        }),
{
}

/// A failed update offers the same update again.
pub proof fn lemma_failed_update_can_retry(s: UiState, reason: String)
    requires
        s.update_version is Some,
    ensures
        can_begin_update(&apply_spec(s, UiCommand::UpdateFailed { reason }).0),
{
}

/// An announced update can be started unless one is being installed.
pub proof fn lemma_announced_update_is_offered(s: UiState, version: String)
    requires
        !s.update_loading,
    ensures
        ({
            let s1 = apply_spec(s, UiCommand::UpdateAvailable { version }).0;
            &&& can_begin_update(&s1)
            &&& update_button_spec(&s1).0 == "Update (v"@ + version@ + ")"@
        }),
{
}

} // verus!
