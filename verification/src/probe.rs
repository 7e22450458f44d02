//! Making sure that the iPhone can really be used: it trusts this PC, is unlocked and
//! answers. Its name and version of iOS are read on the way.
//!
//! Without this check the same trouble would only come up after the download and the
//! connection to Apple, as an error of a library that nobody understands.

use crate::failure::{explain_error, explained, Failure, FailureView};
use crate::notice::{notices, silence, status, NoticeView};
use crate::text::{decimal_up_to, opt_string, parse_u64, texts};
use crate::turn::{last_state, text_result, turns, Turn, TurnView};
use vstd::prelude::*;
use vstd::string::StrSliceExecFns;

verus! {

/// How long the whole exchange may take, in seconds. A phone that was just plugged in,
/// or is stuck at its question about this PC, never answers.
pub const DEVICE_TIMEOUT: u64 = 25;

pub const CHECKING_DEVICE: &'static str = "Verification de l'iPhone...";

pub const UNKNOWN_VERSION: &'static str = "inconnue";

pub const UNKNOWN_NAME: &'static str = "iPhone";

pub const NO_ANSWER: &'static str = "L'iPhone ne repond pas";

pub const NO_ANSWER_STEPS: [&'static str; 3] = [
    "Deverrouille l'iPhone et laisse l'ecran allume.",
    "Regarde s'il affiche « Se fier a cet ordinateur ? » et touche « Se fier ».",
    "Debranche, rebranche, puis relance l'installation.",
];

pub const NO_DIALOGUE: &'static str = "Impossible de dialoguer avec l'iPhone";

pub const NO_DIALOGUE_STEPS: [&'static str; 3] = [
    "Debranche puis rebranche l'iPhone.",
    "Utilise un cable de donnees, branche directement sur le PC.",
    "Deverrouille l'iPhone, puis relance.",
];

pub const NOT_TRUSTED: &'static str = "L'iPhone n'autorise pas encore ce PC";

pub const NOT_TRUSTED_STEPS: [&'static str; 4] = [
    "Deverrouille l'iPhone et laisse-le branche en USB.",
    "Debranche puis rebranche le cable : la question « Se fier a cet ordinateur ? » doit apparaitre.",
    "Touche « Se fier » et saisis le code de l'iPhone.",
    "Relance ensuite l'installation.",
];

pub const SESSION_REFUSED: &'static str = "L'iPhone refuse la session";

pub const SESSION_REFUSED_STEPS: [&'static str; 3] = [
    "Deverrouille l'iPhone : une session ne peut pas s'ouvrir sur un ecran verrouille.",
    "Debranche, rebranche, touche « Se fier » si la question apparait.",
    "Relance ensuite l'installation.",
];

pub const NO_IDENTIFIER: &'static str = "L'iPhone n'a pas renvoye son identifiant";

pub const NO_IDENTIFIER_STEPS: [&'static str; 1] = [
    "Debranche puis rebranche l'iPhone, deverrouille-le, et relance.",
];

/// What is known of the phone.
#[derive(Debug)]
pub struct DeviceDetails {
    pub name: String,
    pub udid: String,
    pub ios_version: String,
    pub ios_major: u32,
}

pub struct DeviceDetailsView {
    pub name: Seq<char>,
    pub udid: Seq<char>,
    pub ios_version: Seq<char>,
    pub ios_major: nat,
}

impl View for DeviceDetails {
    type V = DeviceDetailsView;

    open spec fn view(&self) -> DeviceDetailsView {
        DeviceDetailsView {
            name: self.name@,
            udid: self.udid@,
            ios_version: self.ios_version@,
            ios_major: self.ios_major as nat,
        }
    }
}

pub open spec fn details_outcome(r: Result<DeviceDetails, Failure>) -> Result<
    DeviceDetailsView,
    FailureView,
> {
    match r {
        Ok(d) => Ok(d@),
        Err(f) => Err(f@),
    }
}

/// The place of the first dot from `from` on, or the length of the text.
pub open spec fn dot_place(s: Seq<char>, from: int) -> int
    decreases s.len() - from,
{
    if from < 0 || from >= s.len() {
        s.len() as int
    } else if s[from] == '.' {
        from
    } else {
        dot_place(s, from + 1)
    }
}

/// The number before the first dot of a version; 0 where there is no such number, or
/// none that fits.
pub open spec fn major_of(version: Seq<char>) -> nat {
    match decimal_up_to(version.take(dot_place(version, 0)), u32::MAX as nat) {
        Some(n) => n,
        None => 0,
    }
}

/// The major version in a version of iOS.
pub fn ios_major(version: &str) -> (r: u32)
    ensures
        r == major_of(version@),
{
    let n: usize = version.unicode_len();
    let mut i: usize = 0;
    while i < n && version.get_char(i) != '.'
        invariant
            n == version@.len(),
            i <= n,
            dot_place(version@, 0) == dot_place(version@, i as int),
        decreases n - i,
    {
        i = i + 1;
    }
    let head: &str = version.substring_char(0, i);
    assert(head@ =~= version@.take(dot_place(version@, 0)));
    match parse_u64(head) {
        Some(major) => if major <= u32::MAX as u64 {
            major as u32
        } else {
            0
        },
        None => 0,
    }
}

/// A value that the phone is asked for.
#[derive(Clone, Copy, Debug, PartialEq, Eq, Structural)]
pub enum DeviceValue {
    ProductVersion,
    DeviceName,
    UniqueDeviceId,
}

impl DeviceValue {
    pub open spec fn name(self) -> Seq<char> {
        match self {
            DeviceValue::ProductVersion => "ProductVersion"@,
            DeviceValue::DeviceName => "DeviceName"@,
            DeviceValue::UniqueDeviceId => "UniqueDeviceID"@,
        }
    }

    /// The key by which the phone knows the value.
    pub fn key(self) -> (r: &'static str)
        ensures
            r@ == self.name(),
    {
        match self {
            DeviceValue::ProductVersion => "ProductVersion",
            DeviceValue::DeviceName => "DeviceName",
            DeviceValue::UniqueDeviceId => "UniqueDeviceID",
        }
    }
}

#[derive(Debug)]
pub enum ProbeState {
    Start,
    Connecting,
    /// The version can be read without a session, so also from a phone that does not
    /// trust this PC yet.
    ReadingVersion,
    Pairing { version: String },
    Opening { version: String },
    ReadingName { version: String },
    ReadingIdentifier { version: String, name: String },
    Finished,
}

pub enum ProbeStateView {
    Start,
    Connecting,
    ReadingVersion,
    Pairing { version: Seq<char> },
    Opening { version: Seq<char> },
    ReadingName { version: Seq<char> },
    ReadingIdentifier { version: Seq<char>, name: Seq<char> },
    Finished,
}

impl View for ProbeState {
    type V = ProbeStateView;

    open spec fn view(&self) -> ProbeStateView {
        match self {
            ProbeState::Start => ProbeStateView::Start,
            ProbeState::Connecting => ProbeStateView::Connecting,
            ProbeState::ReadingVersion => ProbeStateView::ReadingVersion,
            ProbeState::Pairing { version } => ProbeStateView::Pairing { version: version@ },
            ProbeState::Opening { version } => ProbeStateView::Opening { version: version@ },
            ProbeState::ReadingName { version } => ProbeStateView::ReadingName {
                version: version@,
            },
            ProbeState::ReadingIdentifier { version, name } => ProbeStateView::ReadingIdentifier {
                version: version@,
                name: name@,
            },
            ProbeState::Finished => ProbeStateView::Finished,
        }
    }
}

#[derive(Debug)]
pub enum ProbeEvent {
    Begin,
    Connected(Result<(), String>),
    /// The value that was asked for, where the phone gave one that is a text.
    Value(Option<String>),
    /// The pairing record of this PC was read.
    Paired(Result<(), String>),
    Opened(Result<(), String>),
    /// The time for the whole exchange is up.
    TimedOut,
}

pub enum ProbeEventView {
    Begin,
    Connected(Result<(), Seq<char>>),
    Value(Option<Seq<char>>),
    Paired(Result<(), Seq<char>>),
    Opened(Result<(), Seq<char>>),
    TimedOut,
}

impl View for ProbeEvent {
    type V = ProbeEventView;

    open spec fn view(&self) -> ProbeEventView {
        match self {
            ProbeEvent::Begin => ProbeEventView::Begin,
            ProbeEvent::Connected(r) => ProbeEventView::Connected(text_result(*r)),
            ProbeEvent::Value(v) => ProbeEventView::Value(opt_string(*v)),
            ProbeEvent::Paired(r) => ProbeEventView::Paired(text_result(*r)),
            ProbeEvent::Opened(r) => ProbeEventView::Opened(text_result(*r)),
            ProbeEvent::TimedOut => ProbeEventView::TimedOut,
        }
    }
}

#[derive(Debug)]
pub enum ProbeAction {
    Connect,
    Get(DeviceValue),
    /// Read the pairing record of this PC.
    Pair,
    /// Open a session with it.
    Open,
    Finish(Result<DeviceDetails, Failure>),
    /// The event answers nothing that was asked: nothing to do.
    Ignore,
}

pub enum ProbeActionView {
    Connect,
    Get(DeviceValue),
    Pair,
    Open,
    Finish(Result<DeviceDetailsView, FailureView>),
    Ignore,
}

impl View for ProbeAction {
    type V = ProbeActionView;

    open spec fn view(&self) -> ProbeActionView {
        match self {
            ProbeAction::Connect => ProbeActionView::Connect,
            ProbeAction::Get(v) => ProbeActionView::Get(*v),
            ProbeAction::Pair => ProbeActionView::Pair,
            ProbeAction::Open => ProbeActionView::Open,
            ProbeAction::Finish(r) => ProbeActionView::Finish(details_outcome(*r)),
            ProbeAction::Ignore => ProbeActionView::Ignore,
        }
    }
}

pub type ProbeTurnView = TurnView<ProbeStateView, ProbeActionView>;

impl View for Turn<ProbeState, ProbeAction> {
    type V = ProbeTurnView;

    open spec fn view(&self) -> ProbeTurnView {
        TurnView { state: self.state@, notices: notices(self.notices@), action: self.action@ }
    }
}

pub open spec fn probe_go(state: ProbeStateView, action: ProbeActionView) -> ProbeTurnView {
    TurnView { state, notices: Seq::empty(), action }
}

pub open spec fn probe_end(r: Result<DeviceDetailsView, FailureView>) -> ProbeTurnView {
    probe_go(ProbeStateView::Finished, ProbeActionView::Finish(r))
}

pub open spec fn or_text(value: Option<Seq<char>>, default: Seq<char>) -> Seq<char> {
    match value {
        Some(v) => v,
        None => default,
    }
}

/// The answers of the exchange.
pub open spec fn probe_turn(state: ProbeStateView, event: ProbeEventView) -> ProbeTurnView {
    match (state, event) {
        (ProbeStateView::Start, ProbeEventView::Begin) => TurnView {
            state: ProbeStateView::Connecting,
            notices: seq![NoticeView::Status(CHECKING_DEVICE@)],
            action: ProbeActionView::Connect,
        },
        (ProbeStateView::Start, _) => probe_go(state, ProbeActionView::Ignore),
        (ProbeStateView::Finished, _) => probe_go(state, ProbeActionView::Ignore),
        (_, ProbeEventView::TimedOut) => probe_end(
            Err(FailureView::plain(NO_ANSWER@, texts(NO_ANSWER_STEPS@))),
        ),
        (ProbeStateView::Connecting, ProbeEventView::Connected(r)) => match r {
            Ok(_) => probe_go(
                ProbeStateView::ReadingVersion,
                ProbeActionView::Get(DeviceValue::ProductVersion),
            ),
            Err(e) => probe_end(Err(explained(e, NO_DIALOGUE@, texts(NO_DIALOGUE_STEPS@)))),
        },
        (ProbeStateView::ReadingVersion, ProbeEventView::Value(v)) => probe_go(
            ProbeStateView::Pairing { version: or_text(v, UNKNOWN_VERSION@) },
            ProbeActionView::Pair,
        ),
        (ProbeStateView::Pairing { version }, ProbeEventView::Paired(r)) => match r {
            Ok(_) => probe_go(ProbeStateView::Opening { version }, ProbeActionView::Open),
            Err(e) => probe_end(Err(explained(e, NOT_TRUSTED@, texts(NOT_TRUSTED_STEPS@)))),
        },
        (ProbeStateView::Opening { version }, ProbeEventView::Opened(r)) => match r {
            Ok(_) => probe_go(
                ProbeStateView::ReadingName { version },
                ProbeActionView::Get(DeviceValue::DeviceName),
            ),
            Err(e) => probe_end(Err(explained(e, SESSION_REFUSED@, texts(SESSION_REFUSED_STEPS@)))),
        },
        (ProbeStateView::ReadingName { version }, ProbeEventView::Value(v)) => probe_go(
            ProbeStateView::ReadingIdentifier { version, name: or_text(v, UNKNOWN_NAME@) },
            ProbeActionView::Get(DeviceValue::UniqueDeviceId),
        ),
        (ProbeStateView::ReadingIdentifier { version, name }, ProbeEventView::Value(v)) => match v {
            Some(udid) => probe_end(
                Ok(
                    DeviceDetailsView {
                        name,
                        udid,
                        ios_version: version,
                        ios_major: major_of(version),
                    },
                ),
            ),
            None => probe_end(Err(FailureView::plain(NO_IDENTIFIER@, texts(NO_IDENTIFIER_STEPS@)))),
        },
        _ => probe_go(state, ProbeActionView::Ignore),
    }
}

fn go(state: ProbeState, action: ProbeAction) -> (t: Turn<ProbeState, ProbeAction>)
    ensures
        t@ == probe_go(state@, action@),
{
    Turn { state, notices: silence(), action }
}

fn end(r: Result<DeviceDetails, Failure>) -> (t: Turn<ProbeState, ProbeAction>)
    ensures
        t@ == probe_end(details_outcome(r)),
{
    go(ProbeState::Finished, ProbeAction::Finish(r))
}

fn or_string(value: Option<String>, default: &str) -> (r: String)
    ensures
        r@ == or_text(opt_string(value), default@),
{
    match value {
        Some(v) => v,
        None => default.to_string(),
    }
}

/// Checks that the phone can be used, and learns what is needed of it.
pub fn probe_device(state: ProbeState, event: ProbeEvent) -> (t: Turn<ProbeState, ProbeAction>)
    ensures
        t@ == probe_turn(state@, event@),
{
    match (state, event) {
        (ProbeState::Start, ProbeEvent::Begin) => Turn {
            state: ProbeState::Connecting,
            notices: status(CHECKING_DEVICE),
            action: ProbeAction::Connect,
        },
        (ProbeState::Start, _) => go(ProbeState::Start, ProbeAction::Ignore),
        (ProbeState::Finished, _) => go(ProbeState::Finished, ProbeAction::Ignore),
        (_, ProbeEvent::TimedOut) => end(Err(Failure::new(NO_ANSWER, &NO_ANSWER_STEPS))),
        (ProbeState::Connecting, ProbeEvent::Connected(r)) => match r {
            Ok(_) => go(
                ProbeState::ReadingVersion,
                ProbeAction::Get(DeviceValue::ProductVersion),
            ),
            Err(e) => end(Err(explain_error(e.as_str(), NO_DIALOGUE, &NO_DIALOGUE_STEPS))),
        },
        (ProbeState::ReadingVersion, ProbeEvent::Value(v)) => go(
            ProbeState::Pairing { version: or_string(v, UNKNOWN_VERSION) },
            ProbeAction::Pair,
        ),
        (ProbeState::Pairing { version }, ProbeEvent::Paired(r)) => match r {
            Ok(_) => go(ProbeState::Opening { version }, ProbeAction::Open),
            Err(e) => end(Err(explain_error(e.as_str(), NOT_TRUSTED, &NOT_TRUSTED_STEPS))),
        },
        (ProbeState::Opening { version }, ProbeEvent::Opened(r)) => match r {
            Ok(_) => go(
                ProbeState::ReadingName { version },
                ProbeAction::Get(DeviceValue::DeviceName),
            ),
            Err(e) => end(Err(explain_error(e.as_str(), SESSION_REFUSED, &SESSION_REFUSED_STEPS))),
        },
        (ProbeState::ReadingName { version }, ProbeEvent::Value(v)) => go(
            ProbeState::ReadingIdentifier { version, name: or_string(v, UNKNOWN_NAME) },
            ProbeAction::Get(DeviceValue::UniqueDeviceId),
        ),
        (ProbeState::ReadingIdentifier { version, name }, ProbeEvent::Value(v)) => match v {
            Some(udid) => {
                let major: u32 = ios_major(version.as_str());
                end(Ok(DeviceDetails { name, udid, ios_version: version, ios_major: major }))
            },
            None => end(Err(Failure::new(NO_IDENTIFIER, &NO_IDENTIFIER_STEPS))),
        },
        (state, _) => go(state, ProbeAction::Ignore),
    }
}

/// The turns of the exchange on some events.
pub open spec fn probe_turns(events: Seq<ProbeEventView>) -> Seq<ProbeTurnView> {
    turns(|s: ProbeStateView, e: ProbeEventView| probe_turn(s, e), ProbeStateView::Start, events)
}

/// The phone was reached.
pub open spec fn phone_reached(events: Seq<ProbeEventView>) -> bool {
    exists|h: int|
        0 <= h < events.len() && (#[trigger] events[h] matches ProbeEventView::Connected(Ok(_)))
}

/// The phone was reached, and then its pairing record was read.
pub open spec fn pairing_read(events: Seq<ProbeEventView>) -> bool {
    exists|h: int, i: int|
        0 <= h < i < events.len() && (#[trigger] events[h] matches ProbeEventView::Connected(Ok(_)))
            && (#[trigger] events[i] matches ProbeEventView::Paired(Ok(_)))
}

/// The phone was reached, then its pairing record was read, and then a session was opened
/// with it.
pub open spec fn session_opened(events: Seq<ProbeEventView>) -> bool {
    exists|h: int, i: int, j: int|
        0 <= h < i < j < events.len() && (#[trigger] events[h] matches ProbeEventView::Connected(
            Ok(_),
        )) && (#[trigger] events[i] matches ProbeEventView::Paired(Ok(_))) && (
        #[trigger] events[j] matches ProbeEventView::Opened(Ok(_)))
}

/// The time that runs out ends the exchange wherever it stands, and an exchange that is
/// over asks for nothing more.
pub proof fn law_time_up_ends_the_exchange(state: ProbeStateView, event: ProbeEventView)
    ensures
        state !is Start && state !is Finished ==> probe_turn(state, ProbeEventView::TimedOut)
            == probe_end(Err(FailureView::plain(NO_ANSWER@, texts(NO_ANSWER_STEPS@)))),
        probe_turn(ProbeStateView::Finished, event) == probe_go(
            ProbeStateView::Finished,
            ProbeActionView::Ignore,
        ),
{
}

/// A phone counts as usable only after it was reached and opened a session, and only with an
/// identifier.
pub proof fn law_usable_means_a_session(events: Seq<ProbeEventView>)
    requires
        events.len() > 0,
        probe_turns(events).last().action matches ProbeActionView::Finish(Ok(_)),
    ensures
        session_opened(events),
        events.last() matches ProbeEventView::Value(Some(_)),
{
    let front = events.drop_last();
    lemma_session(front);
    lemma_session_grows(front, events.last());
    assert(front.push(events.last()) =~= events);
}

/// What happened has happened, whatever comes next; and what comes next may be the step
/// after it.
proof fn lemma_session_grows(events: Seq<ProbeEventView>, next: ProbeEventView)
    ensures
        phone_reached(events) || (next matches ProbeEventView::Connected(Ok(_))) ==> phone_reached(
            events.push(next),
        ),
        pairing_read(events) || (phone_reached(events) && (next matches ProbeEventView::Paired(
            Ok(_),
        ))) ==> pairing_read(events.push(next)),
        session_opened(events) || (pairing_read(events) && (next matches ProbeEventView::Opened(
            Ok(_),
        ))) ==> session_opened(events.push(next)),
{
    let all = events.push(next);
    assert(all[events.len() as int] == next);
    if phone_reached(events) {
        let h = choose|h: int|
            0 <= h < events.len() && (#[trigger] events[h] matches ProbeEventView::Connected(Ok(_)));
        assert(all[h] == events[h]);
    }
    if pairing_read(events) {
        let (h, i) = choose|h: int, i: int|
            0 <= h < i < events.len() && (#[trigger] events[h] matches ProbeEventView::Connected(
                Ok(_),
            )) && (#[trigger] events[i] matches ProbeEventView::Paired(Ok(_)));
        assert(all[h] == events[h] && all[i] == events[i]);
    }
    if session_opened(events) {
        let (h, i, j) = choose|h: int, i: int, j: int|
            0 <= h < i < j < events.len() && (
            #[trigger] events[h] matches ProbeEventView::Connected(Ok(_))) && (
            #[trigger] events[i] matches ProbeEventView::Paired(Ok(_))) && (
            #[trigger] events[j] matches ProbeEventView::Opened(Ok(_)));
        assert(all[h] == events[h] && all[i] == events[i] && all[j] == events[j]);
    }
}

proof fn lemma_session(events: Seq<ProbeEventView>)
    ensures
        ({
            let s = last_state(ProbeStateView::Start, probe_turns(events));
            &&& (s is ReadingVersion || s is Pairing) ==> phone_reached(events)
            &&& s is Opening ==> pairing_read(events)
            &&& (s is ReadingName || s is ReadingIdentifier) ==> session_opened(events)
        }),
    decreases events.len(),
{
    if events.len() > 0 {
        let front = events.drop_last();
        lemma_session(front);
        lemma_session_grows(front, events.last());
        assert(front.push(events.last()) =~= events);
        let before = last_state(ProbeStateView::Start, probe_turns(front));
        let turn = probe_turn(before, events.last());
        assert(probe_turns(events) == probe_turns(front).push(turn));
        assert(last_state(ProbeStateView::Start, probe_turns(events)) == turn.state);
    }
}

/// The turn ends the exchange with a failure, and says nothing else.
pub open spec fn ends_probe(t: ProbeTurnView, f: FailureView) -> bool {
    &&& t.state is Finished
    &&& t.notices.len() == 0
    &&& t.action == ProbeActionView::Finish(Err(f))
}

/// From the first event to the last, for every version, name and identifier: what the exchange
/// with a usable phone asks for, in order, and that the phone is described by what it answered
/// itself, or by a stand-in where it did not say.
pub proof fn law_a_usable_phone_is_described_by_its_answers(
    version: Option<Seq<char>>,
    name: Option<Seq<char>>,
    udid: Seq<char>,
)
    ensures
        ({
            let t0 = probe_turn(ProbeStateView::Start, ProbeEventView::Begin);
            let t1 = probe_turn(t0.state, ProbeEventView::Connected(Ok(())));
            let t2 = probe_turn(t1.state, ProbeEventView::Value(version));
            let t3 = probe_turn(t2.state, ProbeEventView::Paired(Ok(())));
            let t4 = probe_turn(t3.state, ProbeEventView::Opened(Ok(())));
            let t5 = probe_turn(t4.state, ProbeEventView::Value(name));
            let t6 = probe_turn(t5.state, ProbeEventView::Value(Some(udid)));
            &&& t0.action is Connect
            &&& t0.notices == seq![NoticeView::Status("Verification de l'iPhone..."@)]
            &&& t1.action == ProbeActionView::Get(DeviceValue::ProductVersion)
            &&& t2.action is Pair
            &&& t3.action is Open
            &&& t4.action == ProbeActionView::Get(DeviceValue::DeviceName)
            &&& t5.action == ProbeActionView::Get(DeviceValue::UniqueDeviceId)
            &&& t6.state is Finished
            &&& t1.notices.len() == 0 && t2.notices.len() == 0 && t3.notices.len() == 0
            &&& t4.notices.len() == 0 && t5.notices.len() == 0 && t6.notices.len() == 0
            &&& t6.action matches ProbeActionView::Finish(Ok(d)) && {
                &&& d.udid == udid
                &&& name matches Some(n) ==> d.name == n
                &&& name is None ==> d.name == "iPhone"@
                &&& version matches Some(v) ==> d.ios_version == v
                &&& version is None ==> d.ios_version == "inconnue"@
                &&& d.ios_major == major_of(d.ios_version)
            }
        }),
{
}

/// Each step that fails ends the exchange in its own words, whatever the phone has said
/// before; a phone that does not give its identifier cannot be used.
pub proof fn law_each_step_of_the_probe_has_its_words(
    version: Seq<char>,
    name: Seq<char>,
    e: Seq<char>,
)
    ensures
        ends_probe(
            probe_turn(ProbeStateView::Connecting, ProbeEventView::Connected(Err(e))),
            explained(e, "Impossible de dialoguer avec l'iPhone"@, texts(NO_DIALOGUE_STEPS@)),
        ),
        ends_probe(
            probe_turn(ProbeStateView::Pairing { version }, ProbeEventView::Paired(Err(e))),
            explained(e, "L'iPhone n'autorise pas encore ce PC"@, texts(NOT_TRUSTED_STEPS@)),
        ),
        ends_probe(
            probe_turn(ProbeStateView::Opening { version }, ProbeEventView::Opened(Err(e))),
            explained(e, "L'iPhone refuse la session"@, texts(SESSION_REFUSED_STEPS@)),
        ),
        ends_probe(
            probe_turn(
                ProbeStateView::ReadingIdentifier { version, name },
                ProbeEventView::Value(None),
            ),
            FailureView::plain(
                "L'iPhone n'a pas renvoye son identifiant"@,
                texts(NO_IDENTIFIER_STEPS@),
            ),
        ),
{
}

/// The event answers what was asked for in the state. The time may run out in any state in
/// which something was asked for.
pub open spec fn is_probe_answer(state: ProbeStateView, event: ProbeEventView) -> bool {
    match state {
        ProbeStateView::Start => event is Begin,
        ProbeStateView::Connecting => event is Connected || event is TimedOut,
        ProbeStateView::ReadingVersion => event is Value || event is TimedOut,
        ProbeStateView::Pairing { .. } => event is Paired || event is TimedOut,
        ProbeStateView::Opening { .. } => event is Opened || event is TimedOut,
        ProbeStateView::ReadingName { .. } => event is Value || event is TimedOut,
        ProbeStateView::ReadingIdentifier { .. } => event is Value || event is TimedOut,
        ProbeStateView::Finished => false,
    }
}

/// An event that was not waited for changes nothing, says nothing and asks for nothing; the
/// time that is up ends the exchange with the words for a phone that does not answer.
pub proof fn law_only_awaited_probe_events_count(state: ProbeStateView, event: ProbeEventView)
    ensures
        !is_probe_answer(state, event) ==> {
            &&& probe_turn(state, event).state == state
            &&& probe_turn(state, event).notices.len() == 0
            &&& probe_turn(state, event).action is Ignore
        },
        is_probe_answer(state, event) ==> !(probe_turn(state, event).action is Ignore),
        is_probe_answer(state, event) && event is TimedOut ==> ends_probe(
            probe_turn(state, event),
            FailureView::plain("L'iPhone ne repond pas"@, texts(NO_ANSWER_STEPS@)),
        ),
{
}

/// The major version is the number before the first dot, or the whole text where there is no
/// dot, as far as that is a number that fits; and 0 otherwise.
pub proof fn law_the_major_version_stands_before_the_dot(head: Seq<char>, rest: Seq<char>)
    requires
        !head.contains('.'),
    ensures
        major_of(head) == major_of(head + seq!['.'] + rest),
        decimal_up_to(head, u32::MAX as nat) matches Some(n) ==> major_of(head) == n,
        decimal_up_to(head, u32::MAX as nat) is None ==> major_of(head) == 0,
{
    let whole = head + seq!['.'] + rest;
    lemma_dot_place(head, head, 0);
    lemma_dot_place(head, whole, 0);
    assert(head.take(head.len() as int) =~= head);
    assert(whole.take(head.len() as int) =~= head);
}

proof fn lemma_dot_place(head: Seq<char>, whole: Seq<char>, from: int)
    requires
        0 <= from <= head.len() <= whole.len(),
        forall|i: int| 0 <= i < head.len() ==> #[trigger] whole[i] == head[i],
        !head.contains('.'),
        whole.len() > head.len() ==> whole[head.len() as int] == '.',
    ensures
        dot_place(whole, from) == head.len(),
    decreases head.len() - from,
{
    if from < head.len() {
        assert(head.contains(head[from]));
        assert(whole[from] == head[from]);
        lemma_dot_place(head, whole, from + 1);
    }
}

/// Phones, events, actions and turns are seen with all that they hold.
pub proof fn law_probe_is_seen_whole(
    d: DeviceDetails,
    f: Failure,
    done: Result<(), String>,
    value: Option<String>,
    asked: DeviceValue,
    r: Result<DeviceDetails, Failure>,
    t: Turn<ProbeState, ProbeAction>,
)
    ensures
        d@.name == d.name@,
        d@.udid == d.udid@,
        d@.ios_version == d.ios_version@,
        d@.ios_major == d.ios_major,
        details_outcome(Ok(d)) == Ok::<DeviceDetailsView, FailureView>(d@),
        details_outcome(Err(f)) == Err::<DeviceDetailsView, FailureView>(f@),
        ProbeEvent::Begin@ is Begin,
        ProbeEvent::Connected(done)@ == ProbeEventView::Connected(text_result(done)),
        ProbeEvent::Value(value)@ == ProbeEventView::Value(opt_string(value)),
        ProbeEvent::Paired(done)@ == ProbeEventView::Paired(text_result(done)),
        ProbeEvent::Opened(done)@ == ProbeEventView::Opened(text_result(done)),
        ProbeEvent::TimedOut@ is TimedOut,
        ProbeAction::Connect@ is Connect,
        ProbeAction::Get(asked)@ == ProbeActionView::Get(asked),
        ProbeAction::Pair@ is Pair,
        ProbeAction::Open@ is Open,
        ProbeAction::Finish(r)@ == ProbeActionView::Finish(details_outcome(r)),
        ProbeAction::Ignore@ is Ignore,
        t@.state == t.state@,
        t@.notices == notices(t.notices@),
        t@.action == t.action@,
        DeviceValue::ProductVersion.name() == "ProductVersion"@,
        DeviceValue::DeviceName.name() == "DeviceName"@,
        DeviceValue::UniqueDeviceId.name() == "UniqueDeviceID"@,
{
}

} // verus!
