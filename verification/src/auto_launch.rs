//! The start-up entry, which opens the application in the background when
//! the user logs in. The entry is kept by the `auto-launch` crate, in the
//! registry or in the user's autostart directory.
use vstd::prelude::*;

use crate::config::APP_NAME;

verus! {

#[verifier::external_type_specification]
#[verifier::external_body]
pub struct ExAutoLaunch(auto_launch::AutoLaunch);

/// What the process learned of its own executable's path.
pub enum CurrentExe {
    /// The path, as text.
    Path(String),
    /// The path is not valid Unicode.
    NotUnicode,
    /// The path could not be found; the text describes the error.
    Unavailable(String),
}

/// The entry's settings: the application's name, the executable and the
/// arguments it is started with.
pub struct LaunchSettings {
    pub app_name: String,
    pub app_path: String,
    pub args: Vec<String>,
}

/// The argument the entry starts the application with.
pub const AUTOSTART_FLAG: &'static str = "--autostart";

/// The error for an executable path that cannot be used, if it cannot.
pub open spec fn exe_error(exe: &CurrentExe) -> Option<Seq<char>> {
    match exe {
        CurrentExe::Path(_) => None,
        CurrentExe::NotUnicode => Some("Invalid executable path characters"@),
        CurrentExe::Unavailable(e) => Some("Failed to get current exe path: "@ + e@),
    }
}

/// Whether `p` begins `s`.
pub open spec fn starts_with(s: Seq<char>, p: Seq<char>) -> bool {
    p.len() <= s.len() && s.subrange(0, p.len() as int) == p
}

/// How an error of the `auto-launch` helper's construction begins.
pub open spec fn build_error_prefix() -> Seq<char> {
    "Failed to build auto-launch helper: "@
}

/// How an error of enabling (`true`) or disabling the entry begins.
pub open spec fn toggle_error_prefix(enable: bool) -> Seq<char> {
    if enable {
        "Failed to enable startup: "@
    } else {
        "Failed to disable startup: "@
    }
}

/// The entry's settings for the executable: the application's name, the
/// executable's path and the `--autostart` flag; or the error for a path
/// that cannot be used.
pub fn launch_settings(exe: &CurrentExe) -> (res: Result<LaunchSettings, String>)
    ensures
        exe_error(exe) matches Some(m) ==> res matches Err(e) && e@ == m,
        exe matches CurrentExe::Path(p) ==> res matches Ok(s) && s.app_name@ == APP_NAME@
            && s.app_path@ == p@ && s.args@.len() == 1 && s.args@[0]@ == AUTOSTART_FLAG@,
{
    match exe {
        CurrentExe::Path(p) => {
            let mut args: Vec<String> = Vec::new();
            args.push(AUTOSTART_FLAG.to_owned());
            Ok(LaunchSettings { app_name: APP_NAME.to_owned(), app_path: p.clone(), args })
        },
        CurrentExe::NotUnicode => Err("Invalid executable path characters".to_owned()),
        CurrentExe::Unavailable(e) => {
            let mut text = "Failed to get current exe path: ".to_owned();
            text.append(e.as_str());
            Err(text)
        },
    }
}

/// The texts of the settings: name, path and arguments.
pub open spec fn settings_view(s: &LaunchSettings) -> (Seq<char>, Seq<char>, Seq<Seq<char>>) {
    (s.app_name@, s.app_path@, s.args@.map_values(|a: String| a@))
}

/// The settings of the entry for the executable at `path`: the
/// application's name, the path and the `--autostart` flag.
pub open spec fn expected_settings(path: Seq<char>) -> (Seq<char>, Seq<char>, Seq<Seq<char>>) {
    (APP_NAME@, path, seq![AUTOSTART_FLAG@])
}

/// A built `auto-launch` helper, with the settings it was built from.
pub struct StartupEntry {
    settings: LaunchSettings,
    auto: auto_launch::AutoLaunch,
}

impl View for StartupEntry {
    type V = (Seq<char>, Seq<char>, Seq<Seq<char>>);

    /// The settings the helper was built from.
    closed spec fn view(&self) -> (Seq<char>, Seq<char>, Seq<Seq<char>>) {
        settings_view(&self.settings)
    }
}

/// Which change of the entry was asked for or made.
#[derive(Clone, Copy, Debug, PartialEq, Eq, Structural)]
pub enum EntryChange {
    Enable,
    Disable,
}

/// A change of the entry that was made: which one, and the outcome of the
/// helper's call (the error as its text).
pub struct EntryCall {
    pub change: EntryChange,
    pub outcome: Result<(), String>,
}

/// Builds the helper with `auto_launch::AutoLaunchBuilder` from the
/// settings (name, path and arguments, nothing else) and keeps the settings
/// beside it; the helper keeps them too (`get_app_name`, `get_app_path`,
/// `get_args`). Claimed: a built entry holds the given settings. Whether
/// the build succeeds is not claimed: it depends on the target system (it
/// fails on one that the crate does not support).
#[verifier::external_body]
fn build_auto_launch(settings: LaunchSettings) -> (res: Result<StartupEntry, String>)
    ensures
        res matches Ok(e) ==> e@ == settings_view(&settings),
{
    let built = auto_launch::AutoLaunchBuilder::new().set_app_name(&settings.app_name).set_app_path(
        &settings.app_path,
    ).set_args(&settings.args).build();
    built.map(|auto| StartupEntry { settings, auto }).map_err(|e| e.to_string())
}

/// Calls `AutoLaunch::is_enabled` on the entry's helper, which reads the
/// registry or the autostart directory; the error is given as its text.
/// Nothing is claimed of the result, which depends on what is stored there.
#[verifier::external_body]
fn query_enabled(entry: &StartupEntry) -> (res: Result<bool, String>) {
    entry.auto.is_enabled().map_err(|e| e.to_string())
}

/// Calls `AutoLaunch::enable` on the entry's helper, which writes the
/// entry, and records that this change was made; the error is given as its
/// text. Claimed: the record names the enabling. Nothing is claimed of
/// the outcome, which depends on the system.
#[verifier::external_body]
fn enable_entry(entry: &StartupEntry) -> (res: EntryCall)
    ensures
        res.change == EntryChange::Enable,
{
    EntryCall { change: EntryChange::Enable, outcome: entry.auto.enable().map_err(|e| e.to_string()) }
}

/// Calls `AutoLaunch::disable` on the entry's helper, which removes the
/// entry, and records that this change was made; the error is given as its
/// text. Claimed: the record names the disabling. Nothing is claimed of
/// the outcome, which depends on the system.
#[verifier::external_body]
fn disable_entry(entry: &StartupEntry) -> (res: EntryCall)
    ensures
        res.change == EntryChange::Disable,
{
    EntryCall {
        change: EntryChange::Disable,
        outcome: entry.auto.disable().map_err(|e| e.to_string()),
    }
}

/// The text `prefix` followed by `detail`.
fn prefixed(prefix: &str, detail: &str) -> (res: String)
    ensures
        res@ == prefix@ + detail@,
{
    let mut text = prefix.to_owned();
    text.append(detail);
    text
}

/// The error of building the helper, from the builder's error text.
pub fn build_error(detail: &str) -> (res: String)
    ensures
        res@ == build_error_prefix() + detail@,
{
    prefixed("Failed to build auto-launch helper: ", detail)
}

/// The helper for this executable, or the error: that of the path, or
/// that of the construction prefixed with "Failed to build auto-launch
/// helper: ". A built helper is built from the entry's settings for the
/// executable: the application's name, the path and `--autostart`.
fn get_auto_launch(exe: &CurrentExe) -> (res: Result<StartupEntry, String>)
    ensures
        exe_error(exe) matches Some(m) ==> res matches Err(e) && e@ == m,
        exe matches CurrentExe::Path(p) ==> (res matches Ok(entry) ==> entry@ == expected_settings(
            p@,
        )),
        exe is Path ==> (res matches Err(e) ==> starts_with(e@, build_error_prefix())),
{
    let settings = match launch_settings(exe) {
        Ok(s) => s,
        Err(e) => return Err(e),
    };
    proof {
        if let CurrentExe::Path(p) = exe {
            assert(settings_view(&settings) =~= expected_settings(p@));
        }
    }
    match build_auto_launch(settings) {
        Ok(entry) => Ok(entry),
        Err(detail) => {
            let text = build_error(detail.as_str());
            assert(text@.subrange(0, build_error_prefix().len() as int) =~= build_error_prefix());
            Err(text)
        },
    }
}

/// Whether the entry counts as enabled: `query` is the result of asking
/// the helper, or `None` where no helper could be built. Only a query that
/// answers `true` counts; a missing helper or a failed query count as not
/// enabled.
pub fn startup_enabled_from(query: &Option<Result<bool, String>>) -> (res: bool)
    ensures
        res == (*query == Some(Ok::<bool, String>(true))),
{
    match query {
        Some(Ok(b)) => *b,
        _ => false,
    }
}

/// The change asked for by `enable`.
pub fn requested_change(enable: bool) -> (res: EntryChange)
    ensures
        res == (if enable {
            EntryChange::Enable
        } else {
            EntryChange::Disable
        }),
{
    if enable {
        EntryChange::Enable
    } else {
        EntryChange::Disable
    }
}

/// Makes the change asked for by `enable` on the entry: enabling where
/// `enable`, disabling otherwise; the record names the change made.
pub fn apply_change(entry: &StartupEntry, enable: bool) -> (res: EntryCall)
    ensures
        res.change == (if enable {
            EntryChange::Enable
        } else {
            EntryChange::Disable
        }),
{
    match requested_change(enable) {
        EntryChange::Enable => enable_entry(entry),
        EntryChange::Disable => disable_entry(entry),
    }
}

/// The error of enabling (`enable`) or disabling the entry, from the
/// helper's error text.
pub fn toggle_error(enable: bool, detail: &str) -> (res: String)
    ensures
        res@ == toggle_error_prefix(enable) + detail@,
{
    if enable {
        prefixed("Failed to enable startup: ", detail)
    } else {
        prefixed("Failed to disable startup: ", detail)
    }
}

/// The result of a change of the entry from the record of the call made:
/// success as it is, an error with its text prefixed by that of the change
/// made.
pub fn change_outcome(call: EntryCall) -> (res: Result<(), String>)
    ensures
        call.outcome is Ok ==> res is Ok,
        call.outcome matches Err(d) ==> res matches Err(e) && e@ == toggle_error_prefix(
            call.change == EntryChange::Enable,
        ) + d@,
{
    match call.outcome {
        Ok(()) => Ok(()),
        Err(detail) => Err(toggle_error(call.change == EntryChange::Enable, detail.as_str())),
    }
}

/// Checks if auto-launch is enabled and valid. False where the executable
/// path cannot be used, the helper cannot be built or the query fails.
pub fn is_startup_enabled(exe: &CurrentExe) -> (res: bool)
    ensures
        !(exe is Path) ==> !res,
{
    let query = match get_auto_launch(exe) {
        Ok(entry) => Some(query_enabled(&entry)),
        Err(_) => None,
    };
    startup_enabled_from(&query)
}

/// Enable or disable auto-launch. The error is that of the executable
/// path, or that of building the helper, or that of the change prefixed
/// with "Failed to enable startup: " or "Failed to disable startup: ".
/// The prefix names the change that was made, so an error of the change
/// shows that the change asked for is the one made.
pub fn set_startup(exe: &CurrentExe, enable: bool) -> (res: Result<(), String>)
    ensures
        exe_error(exe) matches Some(m) ==> res matches Err(e) && e@ == m,
        exe is Path ==> (res matches Err(e) ==> starts_with(e@, build_error_prefix())
            || starts_with(e@, toggle_error_prefix(enable))),
{
    let entry = match get_auto_launch(exe) {
        Ok(en) => en,
        Err(e) => return Err(e),
    };
    let call = apply_change(&entry, enable);
    let res = change_outcome(call);
    proof {
        if res is Err {
            let e = res->Err_0;
            assert(e@.subrange(0, toggle_error_prefix(enable).len() as int) =~= toggle_error_prefix(
                enable,
            ));
        }
    }
    res
}

/// Whether a query of the entry calls for removing it: where it does not
/// show the entry enabled (an error counts as not enabled).
pub fn entry_needs_removal(query: &Result<bool, String>) -> (res: bool)
    ensures
        res == (*query != Ok::<bool, String>(true)),
{
    match query {
        Ok(b) => !*b,
        Err(_) => true,
    }
}

/// Removes the entry where the query does not show it enabled: the record
/// of the removal, or `None` where nothing was done. The entry is never
/// enabled here.
pub fn remove_if_stale(entry: &StartupEntry, query: &Result<bool, String>) -> (res: Option<
    EntryCall,
>)
    ensures
        res is Some <==> *query != Ok::<bool, String>(true),
        res matches Some(call) ==> call.change == EntryChange::Disable,
{
    if entry_needs_removal(query) {
        Some(disable_entry(entry))
    } else {
        None
    }
}

/// Call on app startup: where the entry is not reported enabled (it is
/// missing, or it points to another path), it is removed. Nothing is done
/// where the helper cannot be built; a failure to remove is ignored.
pub fn handle_startup_registry(exe: &CurrentExe) {
    if let Ok(entry) = get_auto_launch(exe) {
        let query = query_enabled(&entry);
        let _ = remove_if_stale(&entry, &query);
    }
}

} // verus!
