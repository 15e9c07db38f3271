//! Messages between helper invocations and the session daemon.

use crate::actions::{FileManagerAction, GitAction, PaneInfo, TerminalAction};
use vstd::prelude::*;

verus! {

/// Requests that can be sent to the daemon.
#[derive(Debug, Clone, Copy, PartialEq, Eq, Structural)]
pub enum Request {
    FileManagerOpen { source_pane_id: Option<u64> },
    FileManagerToggleDock { source_pane_id: Option<u64> },
    FileManagerRun { source_pane_id: Option<u64> },
    TerminalToggle,
    TerminalZoom,
    GitOpen,
    GetPaneList,
    GetContext,
    Ping,
    Shutdown,
}

/// Responses from the daemon.
#[derive(Debug, Clone)]
pub enum Response {
    /// The action was carried out.
    Success,
    PaneList(Vec<PaneInfo>),
    Context { cwd: String, project_root: String, git_root: Option<String> },
    Error { message: String },
    Pong,
}

/// What the daemon does for a request.
#[derive(Debug, Clone, Copy, PartialEq, Eq, Structural)]
pub enum Handling {
    /// A file-manager action, with the pane the request came from.
    FileManager(FileManagerAction, Option<u64>),
    Terminal(TerminalAction),
    Git(GitAction),
    /// Answer with the pane list.
    PaneList,
    /// Answer with the working context.
    Context,
    /// Answer `Pong`.
    Pong,
    /// Answer `Success` and stop.
    Shutdown,
}

pub open spec fn handling_spec(r: Request) -> Handling {
    match r {
        Request::FileManagerOpen { source_pane_id } => Handling::FileManager(
            FileManagerAction::Open,
            source_pane_id,
        ),
        Request::FileManagerToggleDock { source_pane_id } => Handling::FileManager(
            FileManagerAction::ToggleDock,
            source_pane_id,
        ),
        Request::FileManagerRun { source_pane_id } => Handling::FileManager(
            FileManagerAction::Run,
            source_pane_id,
        ),
        Request::TerminalToggle => Handling::Terminal(TerminalAction::Toggle),
        Request::TerminalZoom => Handling::Terminal(TerminalAction::Zoom),
        Request::GitOpen => Handling::Git(GitAction::Open),
        Request::GetPaneList => Handling::PaneList,
        Request::GetContext => Handling::Context,
        Request::Ping => Handling::Pong,
        Request::Shutdown => Handling::Shutdown,
    }
}

/// How the daemon handles a request.
pub fn handling(request: Request) -> (res: Handling)
    ensures
        res == handling_spec(request),
{
    match request {
        Request::FileManagerOpen { source_pane_id } => Handling::FileManager(
            FileManagerAction::Open,
            source_pane_id,
        ),
        Request::FileManagerToggleDock { source_pane_id } => Handling::FileManager(
            FileManagerAction::ToggleDock,
            source_pane_id,
        ),
        Request::FileManagerRun { source_pane_id } => Handling::FileManager(
            FileManagerAction::Run,
            source_pane_id,
        ),
        Request::TerminalToggle => Handling::Terminal(TerminalAction::Toggle),
        Request::TerminalZoom => Handling::Terminal(TerminalAction::Zoom),
        Request::GitOpen => Handling::Git(GitAction::Open),
        Request::GetPaneList => Handling::PaneList,
        Request::GetContext => Handling::Context,
        Request::Ping => Handling::Pong,
        Request::Shutdown => Handling::Shutdown,
    }
}

/// The answer to an action: `Success`, or `Error` with the failure's message.
pub fn action_response(outcome: Result<(), String>) -> (res: Response)
    ensures
        match outcome {
            Ok(_) => res is Success,
            Err(m) => res matches Response::Error { message } && message@ == m@,
        },
{
    match outcome {
        Ok(_) => Response::Success,
        Err(m) => Response::Error { message: m },
    }
}

/// Whether a reply shows a live daemon: only `Pong` does.
pub fn is_pong(response: &Response) -> (res: bool)
    ensures
        res == (response is Pong),
{
    match response {
        Response::Pong => true,
        _ => false,
    }
}

} // verus!
