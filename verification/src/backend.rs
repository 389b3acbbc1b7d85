//! The backend process: its command line, its errors, the commands that
//! its parts exchange, and the launching of the window process.
use vstd::prelude::*;

use crate::instance::{
    describe_io_error, instance_error_prefix, instance_io_error, io_error_text, InstanceError, Role,
};
use crate::rpc::{rpc_error_text, RpcCommand, RpcError, RpcState};
use crate::ui::{UiCommand, EXECUTE_UPDATE_REQUEST};

verus! {

/// An error of the tray icon.
#[derive(Debug)]
pub struct TrayError {
    pub message: String,
}

/// Errors that end the backend.
#[derive(Debug)]
pub enum AppError {
    Rpc(RpcError),
    Tray(TrayError),
    Instance(InstanceError),
    Io(std::io::Error),
}

/// Whether `text` describes the error: what failed, then the error's own
/// text (the `Display` text of an I/O error).
pub open spec fn app_error_text(err: &AppError, text: Seq<char>) -> bool {
    match err {
        AppError::Rpc(e) => text == "rpc error: "@ + rpc_error_text(e),
        AppError::Tray(e) => text == "tray error: "@ + e.message@,
        AppError::Instance(e) => exists|d: Seq<char>|
            #[trigger] io_error_text(instance_io_error(e), d) && text == "instance error: "@
                + instance_error_prefix(e) + d,
        AppError::Io(e) => exists|d: Seq<char>|
            #[trigger] io_error_text(e, d) && text == "io error: "@ + d,
    }
}

impl AppError {
    /// The text that describes the error.
    pub fn message(&self) -> (res: String)
        ensures
            app_error_text(self, res@),
    {
        match self {
            AppError::Rpc(e) => {
                let mut text = "rpc error: ".to_owned();
                text.append(e.message().as_str());
                text
            },
            AppError::Tray(e) => {
                let mut text = "tray error: ".to_owned();
                text.append(e.message.as_str());
                text
            },
            AppError::Instance(e) => {
                let inner = e.message();
                let mut text = "instance error: ".to_owned();
                text.append(inner.as_str());
                proof {
                    let d = choose|d: Seq<char>|
                        #[trigger] io_error_text(instance_io_error(e), d) && inner@
                            == instance_error_prefix(e) + d;
                    assert(text@ =~= "instance error: "@ + instance_error_prefix(e) + d);
                }
                text
            },
            AppError::Io(e) => describe_io_error("io error: ", e),
        }
    }
}

impl From<RpcError> for AppError {
    fn from(e: RpcError) -> (res: Self) {
        AppError::Rpc(e)
    }
}

impl vstd::std_specs::convert::FromSpecImpl<RpcError> for AppError {
    open spec fn obeys_from_spec() -> bool {
        true
    }

    open spec fn from_spec(e: RpcError) -> Self {
        AppError::Rpc(e)
    }
}

impl From<TrayError> for AppError {
    fn from(e: TrayError) -> (res: Self) {
        AppError::Tray(e)
    }
}

impl vstd::std_specs::convert::FromSpecImpl<TrayError> for AppError {
    open spec fn obeys_from_spec() -> bool {
        true
    }

    open spec fn from_spec(e: TrayError) -> Self {
        AppError::Tray(e)
    }
}

impl From<InstanceError> for AppError {
    fn from(e: InstanceError) -> (res: Self) {
        AppError::Instance(e)
    }
}

impl vstd::std_specs::convert::FromSpecImpl<InstanceError> for AppError {
    open spec fn obeys_from_spec() -> bool {
        true
    }

    open spec fn from_spec(e: InstanceError) -> Self {
        AppError::Instance(e)
    }
}

impl From<std::io::Error> for AppError {
    fn from(e: std::io::Error) -> (res: Self) {
        AppError::Io(e)
    }
}

impl vstd::std_specs::convert::FromSpecImpl<std::io::Error> for AppError {
    open spec fn obeys_from_spec() -> bool {
        true
    }

    open spec fn from_spec(e: std::io::Error) -> Self {
        AppError::Io(e)
    }
}

/// What the backend does once it knows its part.
#[derive(Clone, Copy, Debug, PartialEq, Eq, Structural)]
pub enum BackendPlan {
    /// Another instance runs (and was asked to show its window): end.
    Exit,
    /// Run, and show the window at once unless started at login.
    Run { show_window: bool },
}

/// The backend's plan for its part `role`: a second instance ends; the
/// first runs and shows its window unless it was started at login.
pub fn plan_backend(role: Role, is_autostart: bool) -> (res: BackendPlan)
    ensures
        role == Role::Secondary ==> res == BackendPlan::Exit,
        role == Role::Primary ==> res == (BackendPlan::Run { show_window: !is_autostart }),
{
    match role {
        Role::Secondary => BackendPlan::Exit,
        Role::Primary => BackendPlan::Run { show_window: !is_autostart },
    }
}

/// A command for the backend's command loop.
#[derive(Debug)]
pub enum AppCommand {
    UiCommand(UiCommand),
    RpcCommand(RpcCommand),
    RpcStateChanged(RpcState),
    ExecuteUpdate,
    /// Shutdown everything.
    Quit,
}

/// What the command loop does for a command, in order.
#[derive(Debug)]
pub enum CommandAction {
    /// Send the command to the window, if one is connected.
    SendToUi(UiCommand),
    /// Send the command to the presence worker.
    SendToRpc(RpcCommand),
    /// Show the presence's state in the tray.
    SendToTray(RpcState),
    /// Start installing the update.
    InstallUpdate,
    /// End the process.
    ExitProcess,
}

/// The actions for a command: each command is forwarded to the part it is
/// for; `Quit` shuts the presence worker down, closes the window and ends
/// the process.
pub open spec fn route_spec(cmd: AppCommand) -> Seq<CommandAction> {
    match cmd {
        AppCommand::UiCommand(c) => seq![CommandAction::SendToUi(c)],
        AppCommand::RpcCommand(c) => seq![CommandAction::SendToRpc(c)],
        AppCommand::RpcStateChanged(s) => seq![CommandAction::SendToTray(s)],
        AppCommand::ExecuteUpdate => seq![CommandAction::InstallUpdate],
        AppCommand::Quit => seq![
            CommandAction::SendToRpc(RpcCommand::Shutdown),
            CommandAction::SendToUi(UiCommand::Quit),
            CommandAction::ExitProcess,
        ],
    }
}

/// The actions the command loop performs for `cmd`.
pub fn route_command(cmd: AppCommand) -> (res: Vec<CommandAction>)
    ensures
        res@ == route_spec(cmd),
{
    let mut actions: Vec<CommandAction> = Vec::new();
    match cmd {
        AppCommand::UiCommand(c) => actions.push(CommandAction::SendToUi(c)),
        AppCommand::RpcCommand(c) => actions.push(CommandAction::SendToRpc(c)),
        AppCommand::RpcStateChanged(s) => actions.push(CommandAction::SendToTray(s)),
        AppCommand::ExecuteUpdate => actions.push(CommandAction::InstallUpdate),
        AppCommand::Quit => {
            actions.push(CommandAction::SendToRpc(RpcCommand::Shutdown));
            actions.push(CommandAction::SendToUi(UiCommand::Quit));
            actions.push(CommandAction::ExitProcess);
        },
    }
    proof {
        assert(actions@ =~= route_spec(cmd));
    }
    actions
}

/// Quitting asks the presence worker to shut down and the window to quit
/// before the process ends, and only quitting ends it.
pub proof fn lemma_only_quit_exits(cmd: AppCommand)
    ensures
        route_spec(cmd).last() is ExitProcess <==> cmd is Quit,
        cmd is Quit ==> route_spec(cmd)[0] == CommandAction::SendToRpc(RpcCommand::Shutdown),
        cmd is Quit ==> route_spec(cmd)[1] matches CommandAction::SendToUi(UiCommand::Quit),
        forall|i: int|
            0 <= i < route_spec(cmd).len() - 1 ==> !(route_spec(cmd)[i] is ExitProcess),
{
}

/// Every command but `Quit` is forwarded unchanged, once, to the part it is
/// for: a presence state to the tray, a presence command to the worker, a
/// window command to the window, an update request to the installer.
pub proof fn lemma_commands_forwarded_unchanged(cmd: AppCommand)
    ensures
        !(cmd is Quit) ==> route_spec(cmd).len() == 1,
        cmd matches AppCommand::RpcStateChanged(s) ==> route_spec(cmd)[0]
            == CommandAction::SendToTray(s),
        cmd matches AppCommand::RpcCommand(c) ==> route_spec(cmd)[0] == CommandAction::SendToRpc(
            c,
        ),
        cmd matches AppCommand::UiCommand(c) ==> route_spec(cmd)[0] == CommandAction::SendToUi(c),
        cmd is ExecuteUpdate ==> route_spec(cmd)[0] is InstallUpdate,
{
}

/// The command a line from the window asks for: only the update request is
/// understood.
pub fn command_from_ui_line(line: &str) -> (res: Option<AppCommand>)
    ensures
        res is Some <==> line@ == EXECUTE_UPDATE_REQUEST@,
        res matches Some(c) ==> c is ExecuteUpdate,
{
    if line.to_owned() == EXECUTE_UPDATE_REQUEST.to_owned() {
        Some(AppCommand::ExecuteUpdate)
    } else {
        None
    }
}

/// The flag that starts the window process; the pipe's name follows it.
pub const UI_FLAG: &'static str = "--ui";

/// The flag that shows the window as soon as it starts.
pub const SHOW_FLAG: &'static str = "--show";

/// The flag of a start at login.
pub const AUTOSTART_FLAG: &'static str = "--autostart";

/// How the process was started.
pub enum LaunchMode {
    /// As the window, connecting to the pipe `ipc_name`.
    Window { ipc_name: String, show_on_start: bool },
    /// As the backend.
    Backend { is_autostart: bool },
}

/// The texts of the arguments.
pub open spec fn arg_texts(args: Seq<String>) -> Seq<Seq<char>> {
    args.map_values(|s: String| s@)
}

/// Whether `p` is the first position of `x` in `s`.
pub open spec fn is_first_index(s: Seq<Seq<char>>, x: Seq<char>, p: int) -> bool {
    &&& 0 <= p < s.len()
    &&& s[p] == x
    &&& forall|j: int| 0 <= j < p ==> s[j] != x
}

/// Whether the first `--ui` flag is followed by an argument, the pipe's
/// name (or there is no `--ui` flag).
pub open spec fn names_pipe(args: Seq<Seq<char>>) -> bool {
    forall|p: int| is_first_index(args, UI_FLAG@, p) ==> p + 1 < args.len()
}

/// The first position of `flag` among the arguments.
fn find_flag(args: &Vec<String>, flag: &str) -> (res: Option<usize>)
    ensures
        res matches Some(p) ==> p < args.len() && is_first_index(arg_texts(args@), flag@, p as int),
        res is None ==> !arg_texts(args@).contains(flag@),
{
    let wanted = flag.to_owned();
    let mut i: usize = 0;
    while i < args.len()
        invariant
            i <= args.len(),
            wanted@ == flag@,
            forall|j: int| 0 <= j < i ==> arg_texts(args@)[j] != flag@,
        decreases args.len() - i,
    {
        if args[i] == wanted {
            return Some(i);
        }
        i = i + 1;
    }
    proof {
        if arg_texts(args@).contains(flag@) {
            let k = choose|k: int| 0 <= k < arg_texts(args@).len() && arg_texts(args@)[k] == flag@;
            assert(arg_texts(args@)[k] != flag@);
        }
    }
    None
}

/// Whether `flag` is among the arguments.
fn has_flag(args: &Vec<String>, flag: &str) -> (res: bool)
    ensures
        res == arg_texts(args@).contains(flag@),
{
    match find_flag(args, flag) {
        Some(p) => {
            assert(arg_texts(args@)[p as int] == flag@);
            true
        },
        None => false,
    }
}

/// Whether the command line names the pipe after its first `--ui` flag, as
/// `parse_launch_mode` needs.
pub fn has_pipe_name(args: &Vec<String>) -> (res: bool)
    ensures
        res == names_pipe(arg_texts(args@)),
{
    match find_flag(args, UI_FLAG) {
        Some(p) => {
            if p + 1 < args.len() {
                true
            } else {
                false
            }
        },
        None => true,
    }
}

/// How the process was started: as the window where the arguments hold
/// `--ui`, with the argument after the first `--ui` as the pipe's name and
/// `--show` anywhere to show the window; else as the backend, started at
/// login where `--autostart` is given.
pub fn parse_launch_mode(args: &Vec<String>) -> (res: LaunchMode)
    requires
        names_pipe(arg_texts(args@)),
    ensures
        res matches LaunchMode::Window { ipc_name, show_on_start } ==> (exists|p: int|
            #![trigger is_first_index(arg_texts(args@), UI_FLAG@, p)]
            is_first_index(arg_texts(args@), UI_FLAG@, p) && ipc_name@ == arg_texts(args@)[p
                + 1]) && show_on_start == arg_texts(args@).contains(SHOW_FLAG@),
        res matches LaunchMode::Backend { is_autostart } ==> !arg_texts(args@).contains(UI_FLAG@)
            && is_autostart == arg_texts(args@).contains(AUTOSTART_FLAG@),
{
    match find_flag(args, UI_FLAG) {
        Some(p) => {
            assert(is_first_index(arg_texts(args@), UI_FLAG@, p as int));
            let ipc_name = args[p + 1].clone();
            let show_on_start = has_flag(args, SHOW_FLAG);
            LaunchMode::Window { ipc_name, show_on_start }
        },
        None => LaunchMode::Backend { is_autostart: has_flag(args, AUTOSTART_FLAG) },
    }
}

/// The character of a decimal digit.
pub open spec fn digit_char(d: int) -> char {
    if d == 0 {
        '0'
    } else if d == 1 {
        '1'
    } else if d == 2 {
        '2'
    } else if d == 3 {
        '3'
    } else if d == 4 {
        '4'
    } else if d == 5 {
        '5'
    } else if d == 6 {
        '6'
    } else if d == 7 {
        '7'
    } else if d == 8 {
        '8'
    } else {
        '9'
    }
}

/// The decimal notation of `n`, without leading zeros.
pub open spec fn decimal(n: nat) -> Seq<char>
    decreases n,
{
    if n < 10 {
        seq![digit_char(n as int)]
    } else {
        decimal(n / 10).push(digit_char((n % 10) as int))
    }
}

/// The text of one decimal digit.
fn digit_text(d: u32) -> (res: &'static str)
    requires
        d < 10,
    ensures
        res@ == seq![digit_char(d as int)],
{
    if d == 0 {
        proof {
            reveal_strlit("0");
        }
        "0"
    } else if d == 1 {
        proof {
            reveal_strlit("1");
        }
        "1"
    } else if d == 2 {
        proof {
            reveal_strlit("2");
        }
        "2"
    } else if d == 3 {
        proof {
            reveal_strlit("3");
        }
        "3"
    } else if d == 4 {
        proof {
            reveal_strlit("4");
        }
        "4"
    } else if d == 5 {
        proof {
            reveal_strlit("5");
        }
        "5"
    } else if d == 6 {
        proof {
            reveal_strlit("6");
        }
        "6"
    } else if d == 7 {
        proof {
            reveal_strlit("7");
        }
        "7"
    } else if d == 8 {
        proof {
            reveal_strlit("8");
        }
        "8"
    } else {
        proof {
            reveal_strlit("9");
        }
        "9"
    }
}

/// The decimal notation of `n`.
pub fn decimal_string(n: u32) -> (res: String)
    ensures
        res@ == decimal(n as nat),
    decreases n,
{
    if n < 10 {
        digit_text(n).to_owned()
    } else {
        let mut text = decimal_string(n / 10);
        text.append(digit_text(n % 10));
        text
    }
}

/// The name of the pipe between the backend with process id `pid` and its
/// window.
pub fn ui_pipe_name(pid: u32) -> (res: String)
    ensures
        res@ == "@orion_rpc_"@ + decimal(pid as nat),
{
    let mut name = "@orion_rpc_".to_owned();
    let digits = decimal_string(pid);
    name.append(digits.as_str());
    name
}

/// Launches the window process again each time it closes: `--show` is
/// given to the first launch only, and only where asked for.
pub struct UiLauncher {
    pub pipe_name: String,
    pub show_on_start: bool,
}

/// The arguments of a launch of the window process.
pub open spec fn launch_args_spec(pipe_name: Seq<char>, show: bool) -> Seq<Seq<char>> {
    if show {
        seq![UI_FLAG@, pipe_name, SHOW_FLAG@]
    } else {
        seq![UI_FLAG@, pipe_name]
    }
}

impl UiLauncher {
    pub fn new(pipe_name: String, show_on_start: bool) -> (res: UiLauncher)
        ensures
            res.pipe_name@ == pipe_name@,
            res.show_on_start == show_on_start,
    {
        UiLauncher { pipe_name, show_on_start }
    }

    /// The arguments of the next launch of the window process.
    pub fn next_launch_args(&mut self) -> (res: Vec<String>)
        ensures
            arg_texts(res@) == launch_args_spec(old(self).pipe_name@, old(self).show_on_start),
            final(self).pipe_name == old(self).pipe_name,
            !final(self).show_on_start,
    {
        let mut args: Vec<String> = Vec::new();
        args.push(UI_FLAG.to_owned());
        args.push(self.pipe_name.clone());
        if self.show_on_start {
            self.show_on_start = false;
            args.push(SHOW_FLAG.to_owned());
        }
        proof {
            assert(arg_texts(args@) =~= launch_args_spec(old(self).pipe_name@, old(self).show_on_start));
        }
        args
    }
}

} // verus!
