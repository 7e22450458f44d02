//! Having WinGet at hand, which brings the Apple drivers.
//!
//! WinGet comes with an up-to-date Windows, but minimal images lack it.

use crate::command::Command;
use crate::failure::{explained, explain_error, Failure, FailureView};
use crate::notice::{notices, silence, status, NoticeView};
use crate::text::texts;
use crate::turn::{succeeded, text_result, Turn, TurnView};
use vstd::prelude::*;

verus! {

/// The name of the directory that WinGet is downloaded to.
pub const WINGET_WORK_DIR: &'static str = "kosp-winget-deps";

pub const INSTALLING_WINGET: &'static str = "Installation de WinGet et de ses dependances...";

pub const POWERSHELL_MISSING: &'static str = "PowerShell n'a pas pu etre lance";

pub const POWERSHELL_MISSING_STEPS: [&'static str; 2] = [
    "Installe « Apple Devices » depuis le Microsoft Store.",
    "Redemarre le PC, puis relance l'application.",
];

pub const WINGET_FAILED: &'static str = "WinGet n'a pas pu etre installe sur ce PC";

pub const WINGET_FAILED_STEPS: [&'static str; 2] = [
    "Installe « Apple Devices » depuis le Microsoft Store : ca suffit a faire fonctionner l'app.",
    "Redemarre le PC apres l'installation, puis relance l'application.",
];

#[derive(Clone, Copy, Debug, PartialEq, Eq, Structural)]
pub enum WingetState {
    Start,
    Looking,
    Installing,
    Finished,
}

#[derive(Debug)]
pub enum WingetEvent {
    Begin,
    /// A command ran, with the success of its exit code, or could not be started.
    Ran(Result<bool, String>),
}

pub enum WingetEventView {
    Begin,
    Ran(Result<bool, Seq<char>>),
}

impl View for WingetEvent {
    type V = WingetEventView;

    open spec fn view(&self) -> WingetEventView {
        match self {
            WingetEvent::Begin => WingetEventView::Begin,
            WingetEvent::Ran(r) => WingetEventView::Ran(text_result(*r)),
        }
    }
}

#[derive(Debug)]
pub enum WingetAction {
    Run(Command),
    Finish(Result<(), Failure>),
    /// The event answers nothing that was asked: nothing to do.
    Ignore,
}

pub enum WingetActionView {
    Run(Command),
    Finish(Result<(), FailureView>),
    Ignore,
}

impl View for WingetAction {
    type V = WingetActionView;

    open spec fn view(&self) -> WingetActionView {
        match self {
            WingetAction::Run(c) => WingetActionView::Run(*c),
            WingetAction::Finish(r) => WingetActionView::Finish(crate::failure::outcome(*r)),
            WingetAction::Ignore => WingetActionView::Ignore,
        }
    }
}

pub type WingetTurnView = TurnView<WingetState, WingetActionView>;

impl View for Turn<WingetState, WingetAction> {
    type V = WingetTurnView;

    open spec fn view(&self) -> WingetTurnView {
        TurnView { state: self.state, notices: notices(self.notices@), action: self.action@ }
    }
}

/// The end of the exchange.
pub open spec fn winget_end(r: Result<(), FailureView>) -> WingetTurnView {
    TurnView {
        state: WingetState::Finished,
        notices: Seq::empty(),
        action: WingetActionView::Finish(r),
    }
}

/// WinGet is looked for; only where it does not answer is it installed.
pub open spec fn winget_turn(state: WingetState, event: WingetEventView) -> WingetTurnView {
    match (state, event) {
        (WingetState::Start, WingetEventView::Begin) => TurnView {
            state: WingetState::Looking,
            notices: Seq::empty(),
            action: WingetActionView::Run(Command::WingetVersion),
        },
        (WingetState::Looking, WingetEventView::Ran(r)) => if succeeded(r) {
            winget_end(Ok(()))
        } else {
            TurnView {
                state: WingetState::Installing,
                notices: seq![NoticeView::Status(INSTALLING_WINGET@)],
                action: WingetActionView::Run(Command::InstallWinget),
            }
        },
        (WingetState::Installing, WingetEventView::Ran(r)) => match r {
            Ok(true) => winget_end(Ok(())),
            Ok(false) => winget_end(
                Err(FailureView::plain(WINGET_FAILED@, texts(WINGET_FAILED_STEPS@))),
            ),
            Err(e) => winget_end(
                Err(explained(e, POWERSHELL_MISSING@, texts(POWERSHELL_MISSING_STEPS@))),
            ),
        },
        _ => TurnView { state, notices: Seq::empty(), action: WingetActionView::Ignore },
    }
}

fn end(r: Result<(), Failure>) -> (t: Turn<WingetState, WingetAction>)
    ensures
        t@ == winget_end(crate::failure::outcome(r)),
{
    Turn { state: WingetState::Finished, notices: silence(), action: WingetAction::Finish(r) }
}

/// Makes sure that WinGet is there.
pub fn ensure_winget(state: WingetState, event: WingetEvent) -> (t: Turn<WingetState, WingetAction>)
    ensures
        t@ == winget_turn(state, event@),
{
    match (state, event) {
        (WingetState::Start, WingetEvent::Begin) => Turn {
            state: WingetState::Looking,
            notices: silence(),
            action: WingetAction::Run(Command::WingetVersion),
        },
        (WingetState::Looking, WingetEvent::Ran(r)) => match r {
            Ok(true) => end(Ok(())),
            _ => Turn {
                state: WingetState::Installing,
                notices: status(INSTALLING_WINGET),
                action: WingetAction::Run(Command::InstallWinget),
            },
        },
        (WingetState::Installing, WingetEvent::Ran(r)) => match r {
            Ok(true) => end(Ok(())),
            Ok(false) => end(Err(Failure::new(WINGET_FAILED, &WINGET_FAILED_STEPS))),
            Err(e) => end(
                Err(explain_error(e.as_str(), POWERSHELL_MISSING, &POWERSHELL_MISSING_STEPS)),
            ),
        },
        (state, _) => Turn { state, notices: silence(), action: WingetAction::Ignore },
    }
}

/// The exchange ends well only after a command that succeeded, and installs nothing
/// where WinGet answers.
pub proof fn law_winget_answers_or_is_installed(state: WingetState, event: WingetEventView)
    ensures
        winget_turn(state, event).action matches WingetActionView::Finish(Ok(_)) ==> event
            == WingetEventView::Ran(Ok(true)),
        winget_turn(state, event).action == WingetActionView::Run(Command::InstallWinget)
            ==> event != WingetEventView::Ran(Ok(true)),
{
}

/// Every exchange about WinGet: it is looked for first; where it answers, nothing else is
/// done; where it does not, it is installed, once, and how that ends is how the exchange ends.
pub proof fn law_how_winget_is_made_ready(
    answer: Result<bool, Seq<char>>,
    installed: Result<bool, Seq<char>>,
)
    ensures
        ({
            let t0 = winget_turn(WingetState::Start, WingetEventView::Begin);
            let t1 = winget_turn(t0.state, WingetEventView::Ran(answer));
            let t2 = winget_turn(t1.state, WingetEventView::Ran(installed));
            &&& t0.action == WingetActionView::Run(Command::WingetVersion)
            &&& t0.notices.len() == 0
            &&& answer matches Ok(true) ==> (t1.action matches WingetActionView::Finish(Ok(_)))
                && t1.state is Finished && t1.notices.len() == 0
            &&& !(answer matches Ok(true)) ==> {
                &&& t1.action == WingetActionView::Run(Command::InstallWinget)
                &&& t1.notices == seq![
                    NoticeView::Status("Installation de WinGet et de ses dependances..."@),
                ]
                &&& t2.state is Finished
                &&& t2.notices.len() == 0
                &&& match installed {
                    Ok(true) => t2.action matches WingetActionView::Finish(Ok(_)),
                    Ok(false) => t2.action == WingetActionView::Finish(
                        Err(
                            FailureView::plain(
                                "WinGet n'a pas pu etre installe sur ce PC"@,
                                texts(WINGET_FAILED_STEPS@),
                            ),
                        ),
                    ),
                    Err(e) => t2.action == WingetActionView::Finish(
                        Err(
                            explained(
                                e,
                                "PowerShell n'a pas pu etre lance"@,
                                texts(POWERSHELL_MISSING_STEPS@),
                            ),
                        ),
                    ),
                }
            }
        }),
{
}

/// An event that was not waited for changes nothing, says nothing and asks for nothing.
pub proof fn law_only_awaited_winget_events_count(state: WingetState, event: WingetEventView)
    requires
        match state {
            WingetState::Start => !(event is Begin),
            WingetState::Finished => true,
            _ => event is Begin,
        },
    ensures
        winget_turn(state, event).state == state,
        winget_turn(state, event).notices.len() == 0,
        winget_turn(state, event).action is Ignore,
{
}

/// Events, actions and turns are seen with all that they hold.
pub proof fn law_winget_is_seen_whole(
    ran: Result<bool, String>,
    command: Command,
    r: Result<(), Failure>,
    t: Turn<WingetState, WingetAction>,
)
    ensures
        WingetEvent::Begin@ is Begin,
        WingetEvent::Ran(ran)@ == WingetEventView::Ran(text_result(ran)),
        WingetAction::Run(command)@ == WingetActionView::Run(command),
        WingetAction::Finish(r)@ == WingetActionView::Finish(crate::failure::outcome(r)),
        WingetAction::Ignore@ is Ignore,
        t@.state == t.state,
        t@.notices == notices(t.notices@),
        t@.action == t.action@,
{
}

} // verus!
