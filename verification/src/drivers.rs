//! Reaching the Apple service of Windows, by which programs talk to an iPhone.
//!
//! Drivers that are missing have to be installed; drivers whose service is merely
//! stopped only have to be started, and offering somebody a download of 150 MB for that
//! would lead astray. The two cases are told apart before anything is proposed.

use crate::command::Command;
use crate::failure::{explain_error, explained, outcome, Failure, FailureView};
use crate::notice::{notices, silence, status, NoticeView};
use crate::text::texts;
use crate::turn::{
    asked, last_state, lemma_asked_push, succeeded, text_result, turns, Turn, TurnView,
};
use vstd::prelude::*;

verus! {

pub const CHECKING_COMPONENTS: &'static str = "Verification des composants Apple...";

pub const STARTING_SERVICE: &'static str = "Demarrage du service Apple...";

pub const INSTALLING_DRIVERS: &'static str =
    "Installation d'Apple Mobile Device Support (autorise l'invite Windows si elle apparait)...";

pub const CHECKING_DRIVERS: &'static str = "Verification des pilotes Apple...";

/// The question put to the user before the drivers are installed, and what it is about.
pub const PREREQUISITES_MESSAGE: &'static str =
    "Les pilotes Apple (Apple Mobile Device Service) ne sont pas installes sur ce PC.";

pub const PREREQUISITES_DETAIL: &'static str =
    "Sans eux, Windows ne peut pas parler a l'iPhone. Installer « Apple Mobile Device Support » via WinGet (~150 Mo, telecharge depuis apple.com) ?";

pub const SERVICE_STOPPED: &'static str = "Le service Apple est installe mais arrete";

pub const SERVICE_STOPPED_STEPS: [&'static str; 3] = [
    "Ouvre « Services » depuis le menu Demarrer.",
    "Trouve « Apple Mobile Device Service », clic droit > Demarrer.",
    "Si le demarrage echoue, redemarre le PC et relance l'application.",
];

pub const DRIVERS_CANCELLED: &'static str = "Installation des pilotes annulee";

pub const DRIVERS_REFUSED: &'static str = "Les pilotes Apple sont indispensables";

pub const DRIVERS_REFUSED_STEPS: [&'static str; 3] = [
    "Sans les pilotes Apple, Windows ne detecte pas l'iPhone.",
    "Relance l'installation et accepte l'installation des pilotes,",
    "ou installe « Apple Devices » depuis le Microsoft Store puis relance.",
];

pub const WINGET_MISSING: &'static str = "WinGet n'a pas pu etre lance";

pub const WINGET_MISSING_STEPS: [&'static str; 2] = [
    "Installe « Apple Devices » depuis le Microsoft Store.",
    "Redemarre ensuite le PC et relance l'application.",
];

pub const DRIVERS_FAILED: &'static str = "L'installation des pilotes Apple a echoue";

pub const DRIVERS_FAILED_STEPS: [&'static str; 3] = [
    "Une invite Windows a peut-etre ete refusee : relance et accepte-la.",
    "Sinon, installe « Apple Devices » depuis le Microsoft Store.",
    "Redemarre le PC apres l'installation, puis relance l'application.",
];

pub const DRIVERS_SILENT: &'static str = "Les pilotes Apple ne repondent toujours pas";

pub const DRIVERS_SILENT_STEPS: [&'static str; 2] = [
    "Redemarre le PC : les pilotes ne sont actifs qu'apres un redemarrage.",
    "Relance ensuite l'application.",
];

#[derive(Clone, Copy, Debug, PartialEq, Eq, Structural)]
pub enum DriverState {
    Start,
    /// The service was called for the first time.
    Calling,
    /// It did not answer; is it installed?
    Querying,
    Starting,
    /// It was started and is called again.
    CallingAgain,
    /// The user is asked whether to install it.
    Asking,
    /// WinGet is being made ready.
    Preparing,
    Installing,
    /// It was installed and is called again.
    Verifying,
    Finished,
}

#[derive(Debug)]
pub enum DriverEvent {
    Begin,
    /// The Apple service was called.
    Called(Result<(), String>),
    /// A command ran, with the success of its exit code, or could not be started.
    Ran(Result<bool, String>),
    /// The user answered the question, or closed it without an answer.
    Answered(Option<bool>),
    /// WinGet is there, or could not be made ready.
    WingetReady(Result<(), Failure>),
}

pub enum DriverEventView {
    Begin,
    Called(Result<(), Seq<char>>),
    Ran(Result<bool, Seq<char>>),
    Answered(Option<bool>),
    WingetReady(Result<(), FailureView>),
}

impl View for DriverEvent {
    type V = DriverEventView;

    open spec fn view(&self) -> DriverEventView {
        match self {
            DriverEvent::Begin => DriverEventView::Begin,
            DriverEvent::Called(r) => DriverEventView::Called(text_result(*r)),
            DriverEvent::Ran(r) => DriverEventView::Ran(text_result(*r)),
            DriverEvent::Answered(a) => DriverEventView::Answered(*a),
            DriverEvent::WingetReady(r) => DriverEventView::WingetReady(outcome(*r)),
        }
    }
}

#[derive(Debug)]
pub enum DriverAction {
    /// Call the Apple service.
    Call,
    Run(Command),
    /// Ask the user whether to install the drivers.
    Ask,
    /// Make WinGet ready.
    EnsureWinget,
    Finish(Result<(), Failure>),
    /// The event answers nothing that was asked: nothing to do.
    Ignore,
}

pub enum DriverActionView {
    Call,
    Run(Command),
    Ask,
    EnsureWinget,
    Finish(Result<(), FailureView>),
    Ignore,
}

impl View for DriverAction {
    type V = DriverActionView;

    open spec fn view(&self) -> DriverActionView {
        match self {
            DriverAction::Call => DriverActionView::Call,
            DriverAction::Run(c) => DriverActionView::Run(*c),
            DriverAction::Ask => DriverActionView::Ask,
            DriverAction::EnsureWinget => DriverActionView::EnsureWinget,
            DriverAction::Finish(r) => DriverActionView::Finish(outcome(*r)),
            DriverAction::Ignore => DriverActionView::Ignore,
        }
    }
}

pub type DriverTurnView = TurnView<DriverState, DriverActionView>;

impl View for Turn<DriverState, DriverAction> {
    type V = DriverTurnView;

    open spec fn view(&self) -> DriverTurnView {
        TurnView { state: self.state, notices: notices(self.notices@), action: self.action@ }
    }
}

/// Go to `state`, without a word, and do `action`.
pub open spec fn driver_go(state: DriverState, action: DriverActionView) -> DriverTurnView {
    TurnView { state, notices: Seq::empty(), action }
}

/// Go to `state`, say `text`, and do `action`.
pub open spec fn driver_say(
    state: DriverState,
    text: Seq<char>,
    action: DriverActionView,
) -> DriverTurnView {
    TurnView { state, notices: seq![NoticeView::Status(text)], action }
}

/// The end of the exchange.
pub open spec fn driver_end(r: Result<(), FailureView>) -> DriverTurnView {
    driver_go(DriverState::Finished, DriverActionView::Finish(r))
}

/// The answers of the exchange.
pub open spec fn driver_turn(state: DriverState, event: DriverEventView) -> DriverTurnView {
    match (state, event) {
        (DriverState::Start, DriverEventView::Begin) => driver_say(
            DriverState::Calling,
            CHECKING_COMPONENTS@,
            DriverActionView::Call,
        ),
        (DriverState::Calling, DriverEventView::Called(r)) => if r is Ok {
            driver_end(Ok(()))
        } else {
            driver_go(DriverState::Querying, DriverActionView::Run(Command::QueryService))
        },
        (DriverState::Querying, DriverEventView::Ran(r)) => if succeeded(r) {
            driver_say(
                DriverState::Starting,
                STARTING_SERVICE@,
                DriverActionView::Run(Command::StartService),
            )
        } else {
            driver_go(DriverState::Asking, DriverActionView::Ask)
        },
        (DriverState::Starting, DriverEventView::Ran(r)) => if succeeded(r) {
            driver_go(DriverState::CallingAgain, DriverActionView::Call)
        } else {
            driver_end(Err(FailureView::plain(SERVICE_STOPPED@, texts(SERVICE_STOPPED_STEPS@))))
        },
        (DriverState::CallingAgain, DriverEventView::Called(r)) => if r is Ok {
            driver_end(Ok(()))
        } else {
            driver_end(Err(FailureView::plain(SERVICE_STOPPED@, texts(SERVICE_STOPPED_STEPS@))))
        },
        (DriverState::Asking, DriverEventView::Answered(a)) => match a {
            None => driver_end(Err(FailureView::abandoned(DRIVERS_CANCELLED@))),
            Some(false) => driver_end(
                Err(FailureView::plain(DRIVERS_REFUSED@, texts(DRIVERS_REFUSED_STEPS@))),
            ),
            Some(true) => driver_go(DriverState::Preparing, DriverActionView::EnsureWinget),
        },
        (DriverState::Preparing, DriverEventView::WingetReady(r)) => match r {
            Ok(_) => driver_say(
                DriverState::Installing,
                INSTALLING_DRIVERS@,
                DriverActionView::Run(Command::InstallDrivers),
            ),
            Err(f) => driver_end(Err(f)),
        },
        (DriverState::Installing, DriverEventView::Ran(r)) => match r {
            Ok(true) => driver_say(
                DriverState::Verifying,
                CHECKING_DRIVERS@,
                DriverActionView::Call,
            ),
            Ok(false) => driver_end(
                Err(FailureView::plain(DRIVERS_FAILED@, texts(DRIVERS_FAILED_STEPS@))),
            ),
            Err(e) => driver_end(
                Err(explained(e, WINGET_MISSING@, texts(WINGET_MISSING_STEPS@))),
            ),
        },
        (DriverState::Verifying, DriverEventView::Called(r)) => match r {
            Ok(_) => driver_end(Ok(())),
            Err(e) => driver_end(Err(explained(e, DRIVERS_SILENT@, texts(DRIVERS_SILENT_STEPS@)))),
        },
        _ => driver_go(state, DriverActionView::Ignore),
    }
}

fn go(state: DriverState, action: DriverAction) -> (t: Turn<DriverState, DriverAction>)
    ensures
        t@ == driver_go(state, action@),
{
    Turn { state, notices: silence(), action }
}

fn say(state: DriverState, text: &str, action: DriverAction) -> (t: Turn<DriverState, DriverAction>)
    ensures
        t@ == driver_say(state, text@, action@),
{
    Turn { state, notices: status(text), action }
}

fn end(r: Result<(), Failure>) -> (t: Turn<DriverState, DriverAction>)
    ensures
        t@ == driver_end(outcome(r)),
{
    go(DriverState::Finished, DriverAction::Finish(r))
}

/// Makes sure that the Apple service answers: starts it where it is stopped, installs
/// it where it is missing and the user agrees.
pub fn ensure_apple_drivers(state: DriverState, event: DriverEvent) -> (t: Turn<
    DriverState,
    DriverAction,
>)
    ensures
        t@ == driver_turn(state, event@),
{
    match (state, event) {
        (DriverState::Start, DriverEvent::Begin) => say(
            DriverState::Calling,
            CHECKING_COMPONENTS,
            DriverAction::Call,
        ),
        (DriverState::Calling, DriverEvent::Called(r)) => match r {
            Ok(_) => end(Ok(())),
            Err(_) => go(DriverState::Querying, DriverAction::Run(Command::QueryService)),
        },
        (DriverState::Querying, DriverEvent::Ran(r)) => match r {
            Ok(true) => say(
                DriverState::Starting,
                STARTING_SERVICE,
                DriverAction::Run(Command::StartService),
            ),
            _ => go(DriverState::Asking, DriverAction::Ask),
        },
        (DriverState::Starting, DriverEvent::Ran(r)) => match r {
            Ok(true) => go(DriverState::CallingAgain, DriverAction::Call),
            _ => end(Err(Failure::new(SERVICE_STOPPED, &SERVICE_STOPPED_STEPS))),
        },
        (DriverState::CallingAgain, DriverEvent::Called(r)) => match r {
            Ok(_) => end(Ok(())),
            Err(_) => end(Err(Failure::new(SERVICE_STOPPED, &SERVICE_STOPPED_STEPS))),
        },
        (DriverState::Asking, DriverEvent::Answered(a)) => match a {
            None => end(Err(Failure::cancelled(DRIVERS_CANCELLED))),
            Some(false) => end(Err(Failure::new(DRIVERS_REFUSED, &DRIVERS_REFUSED_STEPS))),
            Some(true) => go(DriverState::Preparing, DriverAction::EnsureWinget),
        },
        (DriverState::Preparing, DriverEvent::WingetReady(r)) => match r {
            Ok(_) => say(
                DriverState::Installing,
                INSTALLING_DRIVERS,
                DriverAction::Run(Command::InstallDrivers),
            ),
            Err(f) => end(Err(f)),
        },
        (DriverState::Installing, DriverEvent::Ran(r)) => match r {
            Ok(true) => say(DriverState::Verifying, CHECKING_DRIVERS, DriverAction::Call),
            Ok(false) => end(Err(Failure::new(DRIVERS_FAILED, &DRIVERS_FAILED_STEPS))),
            Err(e) => end(Err(explain_error(e.as_str(), WINGET_MISSING, &WINGET_MISSING_STEPS))),
        },
        (DriverState::Verifying, DriverEvent::Called(r)) => match r {
            Ok(_) => end(Ok(())),
            Err(e) => end(Err(explain_error(e.as_str(), DRIVERS_SILENT, &DRIVERS_SILENT_STEPS))),
        },
        (state, _) => go(state, DriverAction::Ignore),
    }
}

/// The turns of the exchange on some events.
pub open spec fn driver_turns(events: Seq<DriverEventView>) -> Seq<DriverTurnView> {
    turns(|s: DriverState, e: DriverEventView| driver_turn(s, e), DriverState::Start, events)
}

/// The exchange ends well only when the service has just answered.
pub proof fn law_success_means_an_answer(state: DriverState, event: DriverEventView)
    requires
        driver_turn(state, event).action matches DriverActionView::Finish(Ok(_)),
    ensures
        event matches DriverEventView::Called(Ok(_)),
{
}

/// The drivers are installed only for a user who agreed to it, and never on a PC where
/// the service was found and started.
pub proof fn law_drivers_are_installed_by_consent(events: Seq<DriverEventView>)
    requires
        asked(driver_turns(events), DriverActionView::Run(Command::InstallDrivers)),
    ensures
        events.contains(DriverEventView::Answered(Some(true))),
        !asked(driver_turns(events), DriverActionView::Run(Command::StartService)),
{
    lemma_consent(events);
}

/// The service was found installed.
spec fn on_start_branch(s: DriverState) -> bool {
    s is Starting || s is CallingAgain
}

/// The user agreed to the installation.
spec fn on_install_branch(s: DriverState) -> bool {
    s is Preparing || s is Installing || s is Verifying
}

proof fn lemma_consent(events: Seq<DriverEventView>)
    ensures
        ({
            let list = driver_turns(events);
            let s = last_state(DriverState::Start, list);
            let installed = asked(list, DriverActionView::Run(Command::InstallDrivers));
            let started = asked(list, DriverActionView::Run(Command::StartService));
            let agreed = events.contains(DriverEventView::Answered(Some(true)));
            &&& installed ==> agreed && !started
            &&& on_install_branch(s) ==> agreed && !started
            &&& s is Asking ==> !started && !installed
            &&& on_start_branch(s) ==> !installed
            &&& (s is Start || s is Calling || s is Querying) ==> !installed && !started
        }),
    decreases events.len(),
{
    let list = driver_turns(events);
    if events.len() > 0 {
        let front = events.drop_last();
        let before = driver_turns(front);
        lemma_consent(front);
        let turn = driver_turn(last_state(DriverState::Start, before), events.last());
        assert(list == before.push(turn));
        lemma_asked_push(before, turn, DriverActionView::Run(Command::InstallDrivers));
        lemma_asked_push(before, turn, DriverActionView::Run(Command::StartService));
        let yes = DriverEventView::Answered(Some(true));
        if front.contains(yes) {
            let k = choose|k: int| 0 <= k < front.len() && front[k] == yes;
            assert(events[k] == yes);
        }
        assert(events[events.len() - 1] == events.last());
    }
}

/// The turn ends the exchange with a failure, and says nothing else.
pub open spec fn ends_drivers(t: DriverTurnView, f: FailureView) -> bool {
    &&& t.state is Finished
    &&& t.notices.len() == 0
    &&& t.action == DriverActionView::Finish(Err(f))
}

/// The turn ends the exchange well, and says nothing else.
pub open spec fn drivers_are_ready(t: DriverTurnView) -> bool {
    &&& t.state is Finished
    &&& t.notices.len() == 0
    &&& t.action matches DriverActionView::Finish(Ok(_))
}

/// The service is called first, and where it answers nothing else is done. Where it does not,
/// Windows is asked whether it is installed; where that is so, it is started and called again,
/// and unless it then answers, the user is told that it is stopped.
pub proof fn law_a_stopped_service_is_started(
    called: Result<(), Seq<char>>,
    started: Result<bool, Seq<char>>,
    again: Result<(), Seq<char>>,
)
    ensures
        ({
            let t0 = driver_turn(DriverState::Start, DriverEventView::Begin);
            let t1 = driver_turn(t0.state, DriverEventView::Called(called));
            let t2 = driver_turn(t1.state, DriverEventView::Ran(Ok(true)));
            let t3 = driver_turn(t2.state, DriverEventView::Ran(started));
            let t4 = driver_turn(t3.state, DriverEventView::Called(again));
            let stopped = FailureView::plain(
                "Le service Apple est installe mais arrete"@,
                texts(SERVICE_STOPPED_STEPS@),
            );
            &&& t0.action is Call
            &&& t0.notices == seq![NoticeView::Status("Verification des composants Apple..."@)]
            &&& called is Ok ==> drivers_are_ready(t1)
            &&& called is Err ==> {
                &&& t1.action == DriverActionView::Run(Command::QueryService)
                &&& t1.notices.len() == 0
                &&& t2.action == DriverActionView::Run(Command::StartService)
                &&& t2.notices == seq![NoticeView::Status("Demarrage du service Apple..."@)]
                &&& !(started matches Ok(true)) ==> ends_drivers(t3, stopped)
                &&& started matches Ok(true) ==> {
                    &&& t3.action is Call && t3.notices.len() == 0
                    &&& again is Ok ==> drivers_are_ready(t4)
                    &&& again is Err ==> ends_drivers(t4, stopped)
                }
            }
        }),
{
}

/// Where the service is not installed, the user is asked. Who agrees gets WinGet made ready,
/// then the drivers installed, and then the service called once more; who refuses, or closes
/// the question, is told so. Each step that fails ends the exchange in its own words.
pub proof fn law_missing_drivers_are_offered(
    found: Result<bool, Seq<char>>,
    winget: Result<(), FailureView>,
    installed: Result<bool, Seq<char>>,
    again: Result<(), Seq<char>>,
)
    requires
        !(found matches Ok(true)),
    ensures
        ({
            let t1 = driver_turn(DriverState::Querying, DriverEventView::Ran(found));
            let t2 = driver_turn(t1.state, DriverEventView::Answered(Some(true)));
            let t3 = driver_turn(t2.state, DriverEventView::WingetReady(winget));
            let t4 = driver_turn(t3.state, DriverEventView::Ran(installed));
            let t5 = driver_turn(t4.state, DriverEventView::Called(again));
            &&& t1.action is Ask && t1.notices.len() == 0
            &&& ends_drivers(
                driver_turn(t1.state, DriverEventView::Answered(None)),
                FailureView::abandoned("Installation des pilotes annulee"@),
            )
            &&& ends_drivers(
                driver_turn(t1.state, DriverEventView::Answered(Some(false))),
                FailureView::plain(
                    "Les pilotes Apple sont indispensables"@,
                    texts(DRIVERS_REFUSED_STEPS@),
                ),
            )
            &&& t2.action is EnsureWinget && t2.notices.len() == 0
            &&& winget matches Err(f) ==> ends_drivers(t3, f)
            &&& winget is Ok ==> {
                &&& t3.action == DriverActionView::Run(Command::InstallDrivers)
                &&& t3.notices == seq![
                    NoticeView::Status(
                        "Installation d'Apple Mobile Device Support (autorise l'invite Windows si elle apparait)..."@,
                    ),
                ]
                &&& installed matches Err(e) ==> ends_drivers(
                    t4,
                    explained(e, "WinGet n'a pas pu etre lance"@, texts(WINGET_MISSING_STEPS@)),
                )
                &&& installed matches Ok(false) ==> ends_drivers(
                    t4,
                    FailureView::plain(
                        "L'installation des pilotes Apple a echoue"@,
                        texts(DRIVERS_FAILED_STEPS@),
                    ),
                )
                &&& installed matches Ok(true) ==> {
                    &&& t4.action is Call
                    &&& t4.notices == seq![NoticeView::Status("Verification des pilotes Apple..."@)]
                    &&& again is Ok ==> drivers_are_ready(t5)
                    &&& again matches Err(e) ==> ends_drivers(
                        t5,
                        explained(
                            e,
                            "Les pilotes Apple ne repondent toujours pas"@,
                            texts(DRIVERS_SILENT_STEPS@),
                        ),
                    )
                }
            }
        }),
{
}

/// The state in which the service did not answer the first call is the one in which Windows is
/// asked whether it is installed.
pub proof fn law_a_silent_service_is_looked_for(e: Seq<char>)
    ensures
        driver_turn(
            driver_turn(DriverState::Start, DriverEventView::Begin).state,
            DriverEventView::Called(Err(e)),
        ).state == DriverState::Querying,
{
}

/// The event answers what was asked for in the state.
pub open spec fn is_driver_answer(state: DriverState, event: DriverEventView) -> bool {
    match state {
        DriverState::Start => event is Begin,
        DriverState::Calling | DriverState::CallingAgain => event is Called,
        DriverState::Verifying => event is Called,
        DriverState::Querying | DriverState::Starting | DriverState::Installing => event is Ran,
        DriverState::Asking => event is Answered,
        DriverState::Preparing => event is WingetReady,
        DriverState::Finished => false,
    }
}

/// An event that was not waited for changes nothing, says nothing and asks for nothing.
pub proof fn law_only_awaited_driver_events_count(state: DriverState, event: DriverEventView)
    ensures
        !is_driver_answer(state, event) ==> {
            &&& driver_turn(state, event).state == state
            &&& driver_turn(state, event).notices.len() == 0
            &&& driver_turn(state, event).action is Ignore
        },
        is_driver_answer(state, event) ==> !(driver_turn(state, event).action is Ignore),
{
}

/// Events, actions and turns are seen with all that they hold.
pub proof fn law_drivers_are_seen_whole(
    called: Result<(), String>,
    ran: Result<bool, String>,
    answer: Option<bool>,
    r: Result<(), Failure>,
    command: Command,
    t: Turn<DriverState, DriverAction>,
)
    ensures
        DriverEvent::Begin@ is Begin,
        DriverEvent::Called(called)@ == DriverEventView::Called(text_result(called)),
        DriverEvent::Ran(ran)@ == DriverEventView::Ran(text_result(ran)),
        DriverEvent::Answered(answer)@ == DriverEventView::Answered(answer),
        DriverEvent::WingetReady(r)@ == DriverEventView::WingetReady(outcome(r)),
        DriverAction::Call@ is Call,
        DriverAction::Run(command)@ == DriverActionView::Run(command),
        DriverAction::Ask@ is Ask,
        DriverAction::EnsureWinget@ is EnsureWinget,
        DriverAction::Finish(r)@ == DriverActionView::Finish(outcome(r)),
        DriverAction::Ignore@ is Ignore,
        t@.state == t.state,
        t@.notices == notices(t.notices@),
        t@.action == t.action@,
{
}

} // verus!
