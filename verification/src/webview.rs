//! Having the WebView2 runtime at hand, without which the window cannot be drawn.
//!
//! There is no window yet to ask in, so a missing runtime is installed in silence. Where
//! that fails, the window says so itself when it cannot be opened.

use crate::command::{Command, RegistryRoot};
use vstd::prelude::*;

verus! {

/// The file name under which the installer of the runtime is downloaded.
pub const WEBVIEW_INSTALLER: &'static str = "MicrosoftEdgeWebview2Setup.exe";

#[derive(Clone, Copy, Debug, PartialEq, Eq, Structural)]
pub enum WebviewState {
    Start,
    LookingInMachine,
    LookingInUser,
    Downloading,
    Installing,
    Finished,
}

#[derive(Clone, Copy, Debug, PartialEq, Eq, Structural)]
pub enum WebviewAction {
    Run(Command),
    Finish,
}

/// The next command after one that succeeded or not; the first one comes whatever is
/// said. The runtime is looked for under both registry roots; where neither knows it,
/// its installer is downloaded and, once there, run. How the installer ends makes no
/// difference.
pub open spec fn webview_turn(state: WebviewState, success: bool) -> (WebviewState, WebviewAction) {
    match state {
        WebviewState::Start => (
            WebviewState::LookingInMachine,
            WebviewAction::Run(Command::QueryWebview(RegistryRoot::Machine)),
        ),
        WebviewState::LookingInMachine if !success => (
            WebviewState::LookingInUser,
            WebviewAction::Run(Command::QueryWebview(RegistryRoot::User)),
        ),
        WebviewState::LookingInUser if !success => (
            WebviewState::Downloading,
            WebviewAction::Run(Command::DownloadWebview),
        ),
        WebviewState::Downloading if success => (
            WebviewState::Installing,
            WebviewAction::Run(Command::InstallWebview),
        ),
        _ => (WebviewState::Finished, WebviewAction::Finish),
    }
}

/// Makes sure that the runtime is there. `success` says how the command that was asked
/// for last ended.
pub fn ensure_webview2(state: WebviewState, success: bool) -> (r: (WebviewState, WebviewAction))
    ensures
        r == webview_turn(state, success),
{
    match state {
        WebviewState::Start => (
            WebviewState::LookingInMachine,
            WebviewAction::Run(Command::QueryWebview(RegistryRoot::Machine)),
        ),
        WebviewState::LookingInMachine => if success {
            (WebviewState::Finished, WebviewAction::Finish)
        } else {
            (
                WebviewState::LookingInUser,
                WebviewAction::Run(Command::QueryWebview(RegistryRoot::User)),
            )
        },
        WebviewState::LookingInUser => if success {
            (WebviewState::Finished, WebviewAction::Finish)
        } else {
            (WebviewState::Downloading, WebviewAction::Run(Command::DownloadWebview))
        },
        WebviewState::Downloading => if success {
            (WebviewState::Installing, WebviewAction::Run(Command::InstallWebview))
        } else {
            (WebviewState::Finished, WebviewAction::Finish)
        },
        WebviewState::Installing => (WebviewState::Finished, WebviewAction::Finish),
        WebviewState::Finished => (WebviewState::Finished, WebviewAction::Finish),
    }
}

/// Nothing is downloaded where one of the two roots knows the runtime, and nothing is
/// installed that was not downloaded: the exchange is over after four commands at most.
pub proof fn law_webview_is_installed_only_where_missing(
    in_machine: bool,
    in_user: bool,
    downloaded: bool,
    installed: bool,
)
    ensures
        ({
            let t0 = webview_turn(WebviewState::Start, false);
            let t1 = webview_turn(t0.0, in_machine);
            let t2 = webview_turn(t1.0, in_user);
            let t3 = webview_turn(t2.0, downloaded);
            let t4 = webview_turn(t3.0, installed);
            let t5 = webview_turn(t4.0, installed);
            &&& t1.1 == WebviewAction::Finish <==> in_machine
            &&& t2.1 == WebviewAction::Finish <==> in_machine || in_user
            &&& t2.1 == WebviewAction::Run(Command::DownloadWebview) <==> !in_machine && !in_user
            &&& t3.1 == WebviewAction::Run(Command::InstallWebview) <==> !in_machine && !in_user
                && downloaded
            &&& t4.1 == WebviewAction::Finish
            &&& t5.1 == WebviewAction::Finish
        }),
{
}

/// The commands of every exchange about the runtime, in order, by how each of them ended.
pub proof fn law_how_the_webview_is_made_ready(
    anything: bool,
    in_machine: bool,
    in_user: bool,
    downloaded: bool,
    installed: bool,
)
    ensures
        ({
            let t0 = webview_turn(WebviewState::Start, anything);
            let t1 = webview_turn(t0.0, in_machine);
            let t2 = webview_turn(t1.0, in_user);
            let t3 = webview_turn(t2.0, downloaded);
            let t4 = webview_turn(t3.0, installed);
            &&& t0.1 == WebviewAction::Run(Command::QueryWebview(RegistryRoot::Machine))
            &&& in_machine ==> t1 == (WebviewState::Finished, WebviewAction::Finish)
            &&& !in_machine ==> {
                &&& t1.1 == WebviewAction::Run(Command::QueryWebview(RegistryRoot::User))
                &&& in_user ==> t2 == (WebviewState::Finished, WebviewAction::Finish)
                &&& !in_user ==> {
                    &&& t2.1 == WebviewAction::Run(Command::DownloadWebview)
                    &&& !downloaded ==> t3 == (WebviewState::Finished, WebviewAction::Finish)
                    &&& downloaded ==> {
                        &&& t3.1 == WebviewAction::Run(Command::InstallWebview)
                        &&& t4 == (WebviewState::Finished, WebviewAction::Finish)
                    }
                }
            }
            &&& webview_turn(WebviewState::Finished, anything) == (
                WebviewState::Finished,
                WebviewAction::Finish,
            )
        }),
{
}

} // verus!
