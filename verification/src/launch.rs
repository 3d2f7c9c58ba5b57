//! What one invocation of the program does, from its command line.
use vstd::prelude::*;

use crate::ipc::{IpcCommand, IpcMessage};

verus! {

/// The commands of the command line.
#[derive(Clone, Debug)]
pub enum CliCommand {
    Toggle,
    Show,
    Hide,
    Config,
    ConfigPath,
    Reload,
    Import(String),
    Export(String),
    Sync,
    Status,
    Service,
}

/// How a newly started popup presents itself.
#[derive(Clone, Copy, Debug, PartialEq, Eq, Structural)]
pub enum PopupCommand {
    Show,
    Toggle,
}

/// Whether the command opens the popup: none (toggle), `toggle` or `show`.
pub open spec fn opens_popup_spec(command: Option<CliCommand>) -> bool {
    match command {
        None => true,
        Some(CliCommand::Toggle) | Some(CliCommand::Show) => true,
        _ => false,
    }
}

/// Whether the command opens the popup.
pub fn opens_popup(command: &Option<CliCommand>) -> (r: bool)
    ensures
        r == opens_popup_spec(*command),
{
    match command {
        None => true,
        Some(CliCommand::Toggle) | Some(CliCommand::Show) => true,
        _ => false,
    }
}

/// Whether the popup's position must be read from the pointer: it opens
/// and the command line gives no complete click position.
pub fn needs_pointer(opens: bool, x: Option<i32>, y: Option<i32>) -> (r: bool)
    ensures
        r == (opens && !(x is Some && y is Some)),
{
    opens && !(x.is_some() && y.is_some())
}

/// Where a popup that opens is pinned: the click position given on the
/// command line, else the pointer's; nowhere for other commands.
pub fn click_position(opens: bool, x: Option<i32>, y: Option<i32>, pointer: Option<(i32, i32)>) -> (r:
    Option<(i32, i32)>)
    ensures
        !opens ==> r is None,
        opens ==> r == (match (x, y) {
            (Some(a), Some(b)) => Some((a, b)),
            _ => pointer,
        }),
{
    if !opens {
        return None;
    }
    match (x, y) {
        (Some(a), Some(b)) => Some((a, b)),
        _ => pointer,
    }
}

/// What an invocation does.
#[derive(Clone, Debug)]
pub enum LaunchPlan {
    /// Send the message to the running popup; when none answers, start
    /// one that presents itself as `start` at `position`.
    Popup { message: IpcMessage, start: PopupCommand },
    /// Send the message to the running popup; when none answers, report
    /// that there is nothing to act on.
    Notify { message: IpcMessage, nothing_running: String },
    OpenConfig,
    PrintConfigPath,
    Import(String),
    Export(String),
    Sync,
    Status,
    Service,
}

/// What an invocation with `command` does, with the popup pinned at
/// `position`.
pub fn launch_plan(command: Option<CliCommand>, position: Option<(i32, i32)>) -> (r: LaunchPlan)
    ensures
        match command {
            None | Some(CliCommand::Toggle) => r == LaunchPlan::Popup {
                message: IpcMessage { command: IpcCommand::Toggle, position },
                start: PopupCommand::Toggle,
            },
            Some(CliCommand::Show) => r == LaunchPlan::Popup {
                message: IpcMessage { command: IpcCommand::Show, position },
                start: PopupCommand::Show,
            },
            Some(CliCommand::Hide) => r matches LaunchPlan::Notify { message, nothing_running }
                && message == IpcMessage { command: IpcCommand::Hide, position: None }
                && nothing_running@ == "argvus-calendar: no running instance to hide"@,
            Some(CliCommand::Reload) => r matches LaunchPlan::Notify { message, nothing_running }
                && message == IpcMessage { command: IpcCommand::ReloadTheme, position: None }
                && nothing_running@ == "argvus-calendar: no running instance to reload"@,
            Some(CliCommand::Config) => r is OpenConfig,
            Some(CliCommand::ConfigPath) => r is PrintConfigPath,
            Some(CliCommand::Import(f)) => r matches LaunchPlan::Import(g) && g == f,
            Some(CliCommand::Export(f)) => r matches LaunchPlan::Export(g) && g == f,
            Some(CliCommand::Sync) => r is Sync,
            Some(CliCommand::Status) => r is Status,
            Some(CliCommand::Service) => r is Service,
        },
{
    match command {
        None | Some(CliCommand::Toggle) => LaunchPlan::Popup {
            message: IpcMessage { command: IpcCommand::Toggle, position },
            start: PopupCommand::Toggle,
        },
        Some(CliCommand::Show) => LaunchPlan::Popup {
            message: IpcMessage { command: IpcCommand::Show, position },
            start: PopupCommand::Show,
        },
        Some(CliCommand::Hide) => LaunchPlan::Notify {
            message: IpcMessage { command: IpcCommand::Hide, position: None },
            nothing_running: crate::calendar::event::string_of_str(
                "argvus-calendar: no running instance to hide",
            ),
        },
        Some(CliCommand::Reload) => LaunchPlan::Notify {
            message: IpcMessage { command: IpcCommand::ReloadTheme, position: None },
            nothing_running: crate::calendar::event::string_of_str(
                "argvus-calendar: no running instance to reload",
            ),
        },
        Some(CliCommand::Config) => LaunchPlan::OpenConfig,
        Some(CliCommand::ConfigPath) => LaunchPlan::PrintConfigPath,
        Some(CliCommand::Import(f)) => LaunchPlan::Import(f),
        Some(CliCommand::Export(f)) => LaunchPlan::Export(f),
        Some(CliCommand::Sync) => LaunchPlan::Sync,
        Some(CliCommand::Status) => LaunchPlan::Status,
        Some(CliCommand::Service) => LaunchPlan::Service,
    }
}

} // verus!
