//! Checking for and installing updates published as GitHub releases.
//!
//! The release list is fetched, and the update downloaded and installed,
//! by the caller; this module decides what is an update and what follows
//! each outcome.
use vstd::prelude::*;

use crate::backend::AppCommand;
use crate::ui::UiCommand;
use crate::version::{
    select_update, semver_parse, texts, update_choice, update_result_view, VersionError,
};

verus! {

/// Seconds between the start of the backend and the first check.
pub const FIRST_CHECK_DELAY_SECS: u64 = 20;

/// Seconds between two checks: two hours.
pub const CHECK_INTERVAL_SECS: u64 = 7200;

/// The executable's name where the running one's cannot be read.
pub const DEFAULT_BIN_NAME: &'static str = "orion-rpc.exe";

/// Why an update check failed.
#[derive(Debug)]
pub enum UpdateCheckError {
    /// The release list could not be fetched; the text describes why.
    Fetch(String),
    /// A version could not be parsed.
    Version(VersionError),
}

/// The view of a check's result: `None` for a failed check (with whether
/// the fetch failed), else the update on offer, if any.
pub open spec fn check_view(res: Result<Option<String>, UpdateCheckError>) -> Option<
    Option<Seq<char>>,
> {
    match res {
        Ok(Some(s)) => Some(Some(s@)),
        Ok(None) => Some(None),
        Err(_) => None,
    }
}

/// Checks for an update: `fetched` is the fetched list of released
/// versions, newest first, or the error of the fetch.
pub fn check_for_updates(fetched: Result<Vec<String>, String>, current: &str) -> (res: Result<
    Option<String>,
    UpdateCheckError,
>)
    ensures
        fetched matches Err(e) ==> res matches Err(UpdateCheckError::Fetch(f)) && f@ == e@,
        fetched matches Ok(releases) ==> check_view(res) == update_choice(texts(releases@), current@),
        fetched is Ok && res is Err ==> res matches Err(UpdateCheckError::Version(_)),
        fetched matches Ok(releases) ==> (res matches Err(
            UpdateCheckError::Version(VersionError::Running(_)),
        ) <==> releases@.len() > 0 && semver_parse(current@) is None),
        fetched matches Ok(releases) ==> (res matches Err(
            UpdateCheckError::Version(VersionError::Release(_)),
        ) <==> releases@.len() > 0 && semver_parse(current@) is Some && semver_parse(
            releases@[0]@,
        ) is None),
{
    match fetched {
        Err(e) => Err(UpdateCheckError::Fetch(e)),
        Ok(releases) => {
            let selected = select_update(&releases, current);
            assert(update_result_view(selected) == update_choice(texts(releases@), current@));
            match selected {
                Ok(found) => Ok(found),
                Err(e) => Err(UpdateCheckError::Version(e)),
            }
        },
    }
}

/// Whether a check found an update.
pub open spec fn found_update(checked: &Result<Option<String>, UpdateCheckError>) -> bool {
    checked matches Ok(Some(_))
}

/// One check of the update worker, on whether it has announced an update
/// and whether the check found one: whether it has announced one after,
/// and whether it sends an announcement now. Once it has announced, it
/// sends nothing more.
pub open spec fn poll_step(announced: bool, found: bool) -> (bool, bool) {
    if announced {
        (true, false)
    } else if found {
        (true, true)
    } else {
        (false, false)
    }
}

/// Whether the worker has announced an update after the checks whose
/// findings are `finds`, starting from `announced`.
pub open spec fn announced_after(announced: bool, finds: Seq<bool>) -> bool
    decreases finds.len(),
{
    if finds.len() == 0 {
        announced
    } else {
        poll_step(announced_after(announced, finds.drop_last()), finds.last()).0
    }
}

/// How many announcements the worker sends over the checks whose findings
/// are `finds`, starting from `announced`.
pub open spec fn announcements_sent(announced: bool, finds: Seq<bool>) -> nat
    decreases finds.len(),
{
    if finds.len() == 0 {
        0
    } else {
        let before = finds.drop_last();
        announcements_sent(announced, before) + if poll_step(
            announced_after(announced, before),
            finds.last(),
        ).1 {
            1nat
        } else {
            0nat
        }
    }
}

/// The update worker: it checks until it has announced an update, then
/// stops.
#[derive(Clone, Copy, Debug, PartialEq, Eq, Structural)]
pub struct UpdatePoller {
    /// Whether an update has been announced.
    pub announced: bool,
}

impl UpdatePoller {
    /// The worker before its first check.
    pub fn new() -> (res: UpdatePoller)
        ensures
            !res.announced,
    {
        UpdatePoller { announced: false }
    }

    /// Whether the worker checks again: only until it has announced an
    /// update.
    pub fn wants_check(&self) -> (res: bool)
        ensures
            res == !self.announced,
    {
        !self.announced
    }

    /// After a check: an update found is announced to the window, once;
    /// no update, or a failed check, sends nothing.
    pub fn after_check(&mut self, checked: Result<Option<String>, UpdateCheckError>) -> (res:
        Option<AppCommand>)
        ensures
            (final(self).announced, res is Some) == poll_step(
                old(self).announced,
                found_update(&checked),
            ),
            res matches Some(cmd) ==> (checked matches Ok(Some(v)) && cmd matches AppCommand::UiCommand(
                UiCommand::UpdateAvailable { version },
            ) && version@ == v@),
    {
        if self.announced {
            return None;
        }
        match checked {
            Ok(Some(version)) => {
                self.announced = true;
                Some(AppCommand::UiCommand(UiCommand::UpdateAvailable { version }))
            },
            _ => None,
        }
    }
}

/// Over its whole life the update worker sends at most one announcement,
/// and after sending it wants no further check.
pub proof fn lemma_at_most_one_announcement(finds: Seq<bool>)
    ensures
        announcements_sent(false, finds) <= 1,
        announcements_sent(false, finds) == 1 <==> announced_after(false, finds),
    decreases finds.len(),
{
    if finds.len() > 0 {
        lemma_at_most_one_announcement(finds.drop_last());
    }
}

/// What follows an installation attempt.
pub struct InstallFollowUp {
    /// Start the new executable.
    pub relaunch: bool,
    /// The command for the backend.
    pub notify: AppCommand,
    /// Allow another installation.
    pub release_lock: bool,
}

/// The reason shown where the installer ran but replaced nothing.
pub open spec fn no_update_reason() -> Seq<char> {
    "No update was applied."@
}

/// After an installation attempt: `status` is whether the installer
/// replaced the executable, or the error's text (also that of finding the
/// running executable). A replaced executable is started and the
/// application quits; otherwise the window is told why the update failed
/// and another installation is allowed.
pub fn install_follow_up(status: Result<bool, String>) -> (res: InstallFollowUp)
    ensures
        status == Ok::<bool, String>(true) ==> res.relaunch && res.notify is Quit
            && !res.release_lock,
        status == Ok::<bool, String>(false) ==> !res.relaunch && res.release_lock
            && (res.notify matches AppCommand::UiCommand(UiCommand::UpdateFailed { reason })
            && reason@ == no_update_reason()),
        status matches Err(e) ==> !res.relaunch && res.release_lock && (res.notify matches AppCommand::UiCommand(
            UiCommand::UpdateFailed { reason },
        ) && reason@ == e@),
{
    match status {
        Ok(true) => InstallFollowUp { relaunch: true, notify: AppCommand::Quit, release_lock: false },
        Ok(false) => InstallFollowUp {
            relaunch: false,
            notify: AppCommand::UiCommand(
                UiCommand::UpdateFailed { reason: "No update was applied.".to_owned() },
            ),
            release_lock: true,
        },
        Err(e) => InstallFollowUp {
            relaunch: false,
            notify: AppCommand::UiCommand(UiCommand::UpdateFailed { reason: e }),
            release_lock: true,
        },
    }
}

/// The executable's file name for the installer, or `orion-rpc.exe` where
/// it cannot be read as text.
pub fn bin_name_or_default(name: Option<String>) -> (res: String)
    ensures
        name matches Some(n) ==> res@ == n@,
        name is None ==> res@ == DEFAULT_BIN_NAME@,
{
    match name {
        Some(n) => n,
        None => DEFAULT_BIN_NAME.to_owned(),
    }
}

} // verus!
