//! Downloading the app, with its progress.
//!
//! The file comes in pieces: on a slow line, 30 MB without a sign of life would pass for
//! a crash. A server that breaks off in the middle leaves a file cut short, and a Wi-Fi
//! portal answers with a web page: both are caught here rather than when the app is
//! signed.

use crate::failure::{explain_error, explained, Failure, FailureView};
use crate::notice::{notices, silence, tells_shares, Notice, NoticeView, Progress};
use crate::source::{AltStoreVersion, VersionView};
use crate::text::{decimal_digits, join, texts, u64_to_string};
use crate::turn::{last_state, text_result, turns, Turn, TurnView};
use vstd::prelude::*;
use vstd::string::StringExecFns;

verus! {

/// The file name under which the app is downloaded.
pub const IPA_FILE: &'static str = "TwitNinf-latest.ipa";

/// How long to wait for a connection, in seconds. Beyond that there is no network.
pub const CONNECT_TIMEOUT: u64 = 20;

/// How long to wait for the next piece, in seconds. This is no limit on the whole
/// download, which may take minutes on a slow line.
pub const READ_TIMEOUT: u64 = 90;

/// No app is smaller than this, in bytes.
pub const SMALLEST_APP: u64 = 4096;

pub const DOWNLOADING_HEAD: &'static str = "Telechargement de la version ";

pub const DOWNLOADING_BUILD: &'static str = " (build ";

pub const DOWNLOADING_TAIL: &'static str = ")...";

pub const RECEIVING_DASH: &'static str = " — ";

pub const RECEIVING_SLASH: &'static str = " / ";

pub const RECEIVING_TAIL: &'static str = " Mo";

pub const NOT_STARTED: &'static str = "Le telechargement de l'app n'a pas demarre";

pub const NOT_STARTED_STEPS: [&'static str; 3] = [
    "Verifie que le PC est connecte a Internet.",
    "Desactive VPN et pare-feu d'entreprise le temps du telechargement.",
    "Relance ensuite.",
];

pub const NOT_FOUND: &'static str = "Le fichier de l'app est introuvable sur le serveur";

pub const NOT_FOUND_STEPS: [&'static str; 1] = [
    "La version publiee n'est pas telechargeable. Previens le developpeur.",
];

pub const NO_FILE: &'static str = "Impossible d'ecrire le fichier temporaire";

pub const NO_WRITE: &'static str = "Ecriture du telechargement impossible";

pub const NO_WRITE_STEPS: [&'static str; 2] = [
    "Libere de l'espace sur le disque systeme (au moins 1 Go).",
    "Verifie qu'un antivirus ne bloque pas le dossier temporaire.",
];

pub const INTERRUPTED: &'static str = "Le telechargement a ete interrompu";

pub const INTERRUPTED_STEPS: [&'static str; 2] = [
    "La connexion s'est coupee en cours de route.",
    "Verifie le reseau (Wi-Fi instable, VPN), puis relance.",
];

pub const INCOMPLETE: &'static str = "Le telechargement est incomplet";

pub const INCOMPLETE_STEPS: [&'static str; 2] = [
    "Le fichier recu est plus court que prevu : la connexion a lache.",
    "Verifie le reseau, puis relance l'installation.",
];

pub const INCOMPLETE_RECEIVED: &'static str = " octets recus sur ";

pub const INCOMPLETE_EXPECTED: &'static str = " attendus";

pub const NOT_AN_APP: &'static str = "Le fichier telecharge n'est pas une app valide";

pub const NOT_AN_APP_STEPS: [&'static str; 2] = [
    "Le serveur a renvoye autre chose qu'un IPA (page d'erreur, portail Wi-Fi...).",
    "Deconnecte-toi de tout portail captif, puis relance.",
];

/// The text shown when the download begins.
pub open spec fn downloading(version: VersionView) -> Seq<char> {
    DOWNLOADING_HEAD@ + version.version + DOWNLOADING_BUILD@ + version.build_version
        + DOWNLOADING_TAIL@
}

fn downloading_text(version: &AltStoreVersion) -> (r: String)
    ensures
        r@ == downloading(version@),
{
    let mut r: String = join(DOWNLOADING_HEAD, version.version.as_str(), DOWNLOADING_BUILD);
    r.append(version.build_version.as_str());
    r.append(DOWNLOADING_TAIL);
    r
}

/// The text shown while the download goes on.
pub open spec fn receiving(version: Seq<char>, received: Seq<char>, total: Seq<char>) -> Seq<char> {
    DOWNLOADING_HEAD@ + version + RECEIVING_DASH@ + received + RECEIVING_SLASH@ + total
        + RECEIVING_TAIL@
}

/// The version and both sizes stand in the text as they are.
pub proof fn law_the_progress_text_holds_both_sizes(
    version: Seq<char>,
    received: Seq<char>,
    total: Seq<char>,
)
    ensures
        receiving(version, received, total) == "Telechargement de la version "@ + version + " — "@
            + received + " / "@ + total + " Mo"@,
{
}

/// The text shown while the download goes on: the version, and the megabytes received
/// and expected, as they are written out.
pub fn receiving_text(version: &str, received: &str, total: &str) -> (r: String)
    ensures
        r@ == DOWNLOADING_HEAD@ + version@ + RECEIVING_DASH@ + received@ + RECEIVING_SLASH@ + total@
            + RECEIVING_TAIL@,
        r@ == receiving(version@, received@, total@),
{
    let mut r: String = join(DOWNLOADING_HEAD, version, RECEIVING_DASH);
    r.append(received);
    r.append(RECEIVING_SLASH);
    r.append(total);
    r.append(RECEIVING_TAIL);
    r
}

/// The detail of a download that is too short or too long.
pub open spec fn incomplete_detail(received: nat, total: nat) -> Seq<char> {
    decimal_digits(received) + INCOMPLETE_RECEIVED@ + decimal_digits(total) + INCOMPLETE_EXPECTED@
}

fn incomplete_text(received: u64, total: u64) -> (r: String)
    ensures
        r@ == incomplete_detail(received as nat, total as nat),
{
    let mut r: String = u64_to_string(received);
    r.append(INCOMPLETE_RECEIVED);
    r.append(u64_to_string(total).as_str());
    r.append(INCOMPLETE_EXPECTED);
    r
}

/// An app is a ZIP archive, whose first two bytes are "PK". `first` holds the first two
/// bytes of the file, where it could be read and has as many.
pub open spec fn is_zip(first: Option<(u8, u8)>) -> bool {
    first == Some((80u8, 75u8))
}

pub fn starts_with_zip_magic(first: Option<(u8, u8)>) -> (r: bool)
    ensures
        r == is_zip(first),
{
    match first {
        Some((a, b)) => a == 80 && b == 75,
        None => false,
    }
}

/// The length that the server announced, where it announced one: 0 is none.
pub open spec fn announced(total: Option<u64>) -> Option<u64> {
    match total {
        Some(n) => if n > 0 {
            Some(n)
        } else {
            None
        },
        None => None,
    }
}

/// How far a download has come.
#[derive(Clone, Copy, Debug, PartialEq, Eq, Structural)]
pub struct Received {
    /// The length that the server announced.
    pub total: Option<u64>,
    /// The bytes written so far.
    pub bytes: u64,
    /// The percentage shown last, if one was.
    pub shown: Option<u64>,
}

impl Received {
    /// Another piece can be counted without running over what a `u64` holds, the
    /// percentage included.
    pub open spec fn fits(self, len: u64) -> bool {
        &&& self.bytes + len <= u64::MAX
        &&& announced(self.total) is Some ==> (self.bytes + len) * 100 <= u64::MAX
    }

    /// The percentage received, of a length that was announced.
    pub open spec fn percent(self, total: u64) -> u64 {
        (self.bytes * 100 / total as int) as u64
    }

    /// A piece was written.
    pub open spec fn counted(self, len: u64) -> Received {
        let more = Received { bytes: (self.bytes + len) as u64, ..self };
        match announced(self.total) {
            Some(total) => Received { shown: Some(more.percent(total)), ..more },
            None => more,
        }
    }

    /// How much of a length that was announced has come: no more than all of it, even where
    /// the server sends more than it announced.
    pub open spec fn share(self, total: u64) -> Progress {
        Progress::Ratio {
            done: if self.bytes < total {
                self.bytes
            } else {
                total
            },
            total,
        }
    }

    /// What is shown once a piece was written: the progress and the bytes that have come,
    /// each time the percentage has changed.
    pub open spec fn news(self, len: u64) -> Seq<NoticeView> {
        let more = self.counted(len);
        match announced(self.total) {
            Some(total) => if more.shown != self.shown {
                seq![
                    NoticeView::Progress(more.share(total)),
                    NoticeView::Received { done: more.bytes, total },
                ]
            } else {
                Seq::empty()
            },
            None => Seq::empty(),
        }
    }

    /// The file has the length that was announced, if one was.
    pub open spec fn is_whole(self) -> bool {
        match announced(self.total) {
            Some(total) => self.bytes == total,
            None => true,
        }
    }

    /// Whether another piece can be counted.
    pub fn has_room(&self, len: u64) -> (r: bool)
        ensures
            r == self.fits(len),
    {
        if len > u64::MAX - self.bytes {
            return false;
        }
        match self.total {
            Some(total) => total == 0 || self.bytes + len <= u64::MAX / 100,
            None => true,
        }
    }

    fn count(self, len: u64) -> (r: (Received, Vec<Notice>))
        requires
            self.fits(len),
        ensures
            r.0 == self.counted(len),
            notices(r.1@) == self.news(len),
    {
        let bytes: u64 = self.bytes + len;
        match self.total {
            Some(total) if total > 0 => {
                let percent: u64 = bytes * 100 / total;
                let changed: bool = match self.shown {
                    Some(p) => p != percent,
                    None => true,
                };
                let mut list: Vec<Notice> = Vec::new();
                if changed {
                    let done: u64 = if bytes < total {
                        bytes
                    } else {
                        total
                    };
                    list.push(Notice::Progress(Progress::Ratio { done, total }));
                    list.push(Notice::Received { done: bytes, total });
                }
                assert(notices(list@) =~= self.news(len));
                (Received { total: self.total, bytes, shown: Some(percent) }, list)
            },
            _ => (Received { total: self.total, bytes, shown: self.shown }, silence()),
        }
    }
}

#[derive(Clone, Copy, Debug, PartialEq, Eq, Structural)]
pub enum DownloadState {
    Start,
    /// The server was asked for the file.
    Asking,
    /// A file is made to write to.
    Opening(Received),
    Reading(Received),
    /// A piece of some length is being written.
    Writing(Received, u64),
    /// The first bytes of the file are looked at.
    Checking(Received),
    Finished,
}

#[derive(Debug)]
pub enum DownloadEvent {
    Begin(AltStoreVersion),
    /// The server was reached, and announced a length or none.
    Answered(Result<Option<u64>, RequestError>),
    Opened(Result<(), String>),
    /// The next piece came, of some length; or the end.
    Piece(Result<Option<u64>, String>),
    Written(Result<(), String>),
    /// The first two bytes of the file, where they could be read.
    Head(Option<(u8, u8)>),
}

/// Why a server gave no usable answer.
#[derive(Debug)]
pub enum RequestError {
    /// It was not reached.
    Unreachable(String),
    /// It refused.
    Refused(String),
}

pub enum RequestErrorView {
    Unreachable(Seq<char>),
    Refused(Seq<char>),
}

impl View for RequestError {
    type V = RequestErrorView;

    open spec fn view(&self) -> RequestErrorView {
        match self {
            RequestError::Unreachable(e) => RequestErrorView::Unreachable(e@),
            RequestError::Refused(e) => RequestErrorView::Refused(e@),
        }
    }
}

pub enum DownloadEventView {
    Begin(VersionView),
    Answered(Result<Option<u64>, RequestErrorView>),
    Opened(Result<(), Seq<char>>),
    Piece(Result<Option<u64>, Seq<char>>),
    Written(Result<(), Seq<char>>),
    Head(Option<(u8, u8)>),
}

impl View for DownloadEvent {
    type V = DownloadEventView;

    open spec fn view(&self) -> DownloadEventView {
        match self {
            DownloadEvent::Begin(v) => DownloadEventView::Begin(v@),
            DownloadEvent::Answered(r) => DownloadEventView::Answered(
                match r {
                    Ok(total) => Ok(*total),
                    Err(e) => Err(e@),
                },
            ),
            DownloadEvent::Opened(r) => DownloadEventView::Opened(text_result(*r)),
            DownloadEvent::Piece(r) => DownloadEventView::Piece(text_result(*r)),
            DownloadEvent::Written(r) => DownloadEventView::Written(text_result(*r)),
            DownloadEvent::Head(h) => DownloadEventView::Head(*h),
        }
    }
}

#[derive(Debug)]
pub enum DownloadAction {
    /// Ask a server for a file.
    Get { url: String },
    /// Make a file to write to.
    Open,
    /// Wait for the next piece.
    Read,
    /// Write the piece that came.
    Write,
    /// Close the file and read its first bytes.
    ReadHead,
    Finish(Result<(), Failure>),
    /// The event answers nothing that was asked: nothing to do.
    Ignore,
}

pub enum DownloadActionView {
    Get { url: Seq<char> },
    Open,
    Read,
    Write,
    ReadHead,
    Finish(Result<(), FailureView>),
    Ignore,
}

impl View for DownloadAction {
    type V = DownloadActionView;

    open spec fn view(&self) -> DownloadActionView {
        match self {
            DownloadAction::Get { url } => DownloadActionView::Get { url: url@ },
            DownloadAction::Open => DownloadActionView::Open,
            DownloadAction::Read => DownloadActionView::Read,
            DownloadAction::Write => DownloadActionView::Write,
            DownloadAction::ReadHead => DownloadActionView::ReadHead,
            DownloadAction::Finish(r) => DownloadActionView::Finish(crate::failure::outcome(*r)),
            DownloadAction::Ignore => DownloadActionView::Ignore,
        }
    }
}

pub type DownloadTurnView = TurnView<DownloadState, DownloadActionView>;

impl View for Turn<DownloadState, DownloadAction> {
    type V = DownloadTurnView;

    open spec fn view(&self) -> DownloadTurnView {
        TurnView { state: self.state, notices: notices(self.notices@), action: self.action@ }
    }
}

pub open spec fn download_go(state: DownloadState, action: DownloadActionView) -> DownloadTurnView {
    TurnView { state, notices: Seq::empty(), action }
}

pub open spec fn download_end(r: Result<(), FailureView>) -> DownloadTurnView {
    download_go(DownloadState::Finished, DownloadActionView::Finish(r))
}

/// The failure of a request for the file.
pub open spec fn request_failure(e: RequestErrorView) -> FailureView {
    match e {
        RequestErrorView::Unreachable(text) => explained(
            text,
            NOT_STARTED@,
            texts(NOT_STARTED_STEPS@),
        ),
        RequestErrorView::Refused(text) => explained(text, NOT_FOUND@, texts(NOT_FOUND_STEPS@)),
    }
}

/// The last piece has come.
pub open spec fn received_all(got: Received) -> DownloadTurnView {
    if !got.is_whole() {
        download_end(
            Err(
                FailureView::plain(INCOMPLETE@, texts(INCOMPLETE_STEPS@)).detailed(
                    incomplete_detail(got.bytes as nat, announced(got.total)->0 as nat),
                ),
            ),
        )
    } else if got.bytes < SMALLEST_APP {
        download_end(Err(FailureView::plain(NOT_AN_APP@, texts(NOT_AN_APP_STEPS@))))
    } else {
        download_go(DownloadState::Checking(got), DownloadActionView::ReadHead)
    }
}

/// The answers of the exchange.
pub open spec fn download_turn(state: DownloadState, event: DownloadEventView) -> DownloadTurnView {
    match (state, event) {
        (DownloadState::Start, DownloadEventView::Begin(version)) => TurnView {
            state: DownloadState::Asking,
            notices: seq![
                NoticeView::Status(downloading(version)),
                NoticeView::Progress(Progress::empty()),
            ],
            action: DownloadActionView::Get { url: version.download_url },
        },
        (DownloadState::Asking, DownloadEventView::Answered(r)) => match r {
            Ok(total) => download_go(
                DownloadState::Opening(Received { total, bytes: 0, shown: None }),
                DownloadActionView::Open,
            ),
            Err(e) => download_end(Err(request_failure(e))),
        },
        (DownloadState::Opening(got), DownloadEventView::Opened(r)) => match r {
            Ok(_) => download_go(DownloadState::Reading(got), DownloadActionView::Read),
            Err(e) => download_end(Err(explained(e, NO_FILE@, texts(NO_WRITE_STEPS@)))),
        },
        (DownloadState::Reading(got), DownloadEventView::Piece(r)) => match r {
            Ok(Some(len)) => download_go(
                DownloadState::Writing(got, len),
                DownloadActionView::Write,
            ),
            Ok(None) => received_all(got),
            Err(e) => download_end(Err(explained(e, INTERRUPTED@, texts(INTERRUPTED_STEPS@)))),
        },
        (DownloadState::Writing(got, len), DownloadEventView::Written(r)) => match r {
            Ok(_) => TurnView {
                state: DownloadState::Reading(got.counted(len)),
                notices: got.news(len),
                action: DownloadActionView::Read,
            },
            Err(e) => download_end(Err(explained(e, NO_WRITE@, texts(NO_WRITE_STEPS@)))),
        },
        (DownloadState::Checking(_), DownloadEventView::Head(first)) => if is_zip(first) {
            download_end(Ok(()))
        } else {
            download_end(Err(FailureView::plain(NOT_AN_APP@, texts(NOT_AN_APP_STEPS@))))
        },
        _ => download_go(state, DownloadActionView::Ignore),
    }
}

fn go(state: DownloadState, action: DownloadAction) -> (t: Turn<DownloadState, DownloadAction>)
    ensures
        t@ == download_go(state, action@),
{
    Turn { state, notices: silence(), action }
}

fn end(r: Result<(), Failure>) -> (t: Turn<DownloadState, DownloadAction>)
    ensures
        t@ == download_end(crate::failure::outcome(r)),
{
    go(DownloadState::Finished, DownloadAction::Finish(r))
}

fn finish_reading(got: Received) -> (t: Turn<DownloadState, DownloadAction>)
    ensures
        t@ == received_all(got),
{
    if let Some(total) = got.total {
        if total > 0 && got.bytes != total {
            return end(
                Err(
                    Failure::new(INCOMPLETE, &INCOMPLETE_STEPS).with_detail(
                        incomplete_text(got.bytes, total).as_str(),
                    ),
                ),
            );
        }
    }
    if got.bytes < SMALLEST_APP {
        end(Err(Failure::new(NOT_AN_APP, &NOT_AN_APP_STEPS)))
    } else {
        go(DownloadState::Checking(got), DownloadAction::ReadHead)
    }
}

/// The piece being written can be counted.
pub open spec fn countable(state: DownloadState) -> bool {
    state matches DownloadState::Writing(got, len) ==> got.fits(len)
}

/// Downloads the app.
pub fn download_ipa(state: DownloadState, event: DownloadEvent) -> (t: Turn<
    DownloadState,
    DownloadAction,
>)
    requires
        event@ matches DownloadEventView::Written(Ok(_)) ==> countable(state),
    ensures
        t@ == download_turn(state, event@),
{
    match (state, event) {
        (DownloadState::Start, DownloadEvent::Begin(version)) => {
            let mut list: Vec<Notice> = Vec::new();
            list.push(Notice::Status(downloading_text(&version)));
            list.push(Notice::Progress(Progress::Ratio { done: 0, total: 1 }));
            assert(notices(list@) =~= seq![
                NoticeView::Status(downloading(version@)),
                NoticeView::Progress(Progress::empty()),
            ]);
            Turn {
                state: DownloadState::Asking,
                notices: list,
                action: DownloadAction::Get { url: version.download_url },
            }
        },
        (DownloadState::Asking, DownloadEvent::Answered(r)) => match r {
            Ok(total) => go(
                DownloadState::Opening(Received { total, bytes: 0, shown: None }),
                DownloadAction::Open,
            ),
            Err(RequestError::Unreachable(e)) => end(
                Err(explain_error(e.as_str(), NOT_STARTED, &NOT_STARTED_STEPS)),
            ),
            Err(RequestError::Refused(e)) => end(
                Err(explain_error(e.as_str(), NOT_FOUND, &NOT_FOUND_STEPS)),
            ),
        },
        (DownloadState::Opening(got), DownloadEvent::Opened(r)) => match r {
            Ok(_) => go(DownloadState::Reading(got), DownloadAction::Read),
            Err(e) => end(Err(explain_error(e.as_str(), NO_FILE, &NO_WRITE_STEPS))),
        },
        (DownloadState::Reading(got), DownloadEvent::Piece(r)) => match r {
            Ok(Some(len)) => go(DownloadState::Writing(got, len), DownloadAction::Write),
            Ok(None) => finish_reading(got),
            Err(e) => end(Err(explain_error(e.as_str(), INTERRUPTED, &INTERRUPTED_STEPS))),
        },
        (DownloadState::Writing(got, len), DownloadEvent::Written(r)) => match r {
            Ok(_) => {
                let (more, list) = got.count(len);
                Turn {
                    state: DownloadState::Reading(more),
                    notices: list,
                    action: DownloadAction::Read,
                }
            },
            Err(e) => end(Err(explain_error(e.as_str(), NO_WRITE, &NO_WRITE_STEPS))),
        },
        (DownloadState::Checking(_), DownloadEvent::Head(first)) => if starts_with_zip_magic(
            first,
        ) {
            end(Ok(()))
        } else {
            end(Err(Failure::new(NOT_AN_APP, &NOT_AN_APP_STEPS)))
        },
        (state, _) => go(state, DownloadAction::Ignore),
    }
}

impl Received {
    /// The percentage shown last is the one received.
    pub open spec fn is_current(self) -> bool {
        self.shown matches Some(p) ==> (announced(self.total) matches Some(total) && p
            == self.percent(total))
    }
}

/// The percentage never goes back, and is shown each time that it has risen and no other
/// time; it reaches a hundred when the announced length has come, and not before.
pub proof fn law_percentage_rises(got: Received, len: u64)
    requires
        got.is_current(),
        got.fits(len),
    ensures
        got.counted(len).is_current(),
        got.counted(len).bytes == got.bytes + len,
        announced(got.total) matches Some(total) ==> {
            let percent = got.counted(len).percent(total);
            &&& got.counted(len).shown == Some(percent)
            &&& got.shown matches Some(p) ==> p <= percent
            &&& got.news(len).len() > 0 <==> (got.shown matches Some(p) ==> p < percent)
            &&& percent >= 100 <==> got.bytes + len >= total
        },
        announced(got.total) is None ==> got.news(len).len() == 0,
{
    if let Some(total) = announced(got.total) {
        let a = got.bytes as int;
        let b = got.bytes + len;
        let t = total as int;
        assert(a * 100 / t <= b * 100 / t) by (nonlinear_arith)
            requires
                0 <= a <= b,
                t > 0,
        ;
        assert(0 <= b * 100 / t <= b * 100) by (nonlinear_arith)
            requires
                0 <= b,
                t > 0,
        ;
        assert(b * 100 / t >= 100 <==> b >= t) by (nonlinear_arith)
            requires
                0 <= b,
                t > 0,
        ;
        assert(0 <= a * 100 / t) by (nonlinear_arith)
            requires
                0 <= a,
                t > 0,
        ;
    }
}

/// The turns of the exchange on some events.
pub open spec fn download_turns(events: Seq<DownloadEventView>) -> Seq<DownloadTurnView> {
    turns(
        |s: DownloadState, e: DownloadEventView| download_turn(s, e),
        DownloadState::Start,
        events,
    )
}

/// The bytes that were written in an exchange.
pub open spec fn written(events: Seq<DownloadEventView>) -> nat
    decreases events.len(),
{
    if events.len() == 0 {
        0
    } else {
        let front = events.drop_last();
        written(front) + match (
            last_state(DownloadState::Start, download_turns(front)),
            events.last(),
        ) {
            (DownloadState::Writing(_, len), DownloadEventView::Written(Ok(_))) => len as nat,
            _ => 0,
        }
    }
}

/// A download ends well only where the server was reached, exactly the length that it
/// announced was written, if it announced one, and what was written is large enough for
/// an app and begins like one.
pub proof fn law_finished_download_is_whole(events: Seq<DownloadEventView>)
    requires
        events.len() > 0,
        download_turns(events).last().action matches DownloadActionView::Finish(Ok(_)),
        written(events) <= u64::MAX,
    ensures
        exists|total: Option<u64>|
            {
                &&& #[trigger] events.contains(DownloadEventView::Answered(Ok(total)))
                &&& announced(total) matches Some(n) ==> written(events) == n
            },
        written(events) >= SMALLEST_APP,
        events.last() matches DownloadEventView::Head(first) && is_zip(first),
{
    let front = events.drop_last();
    lemma_received(front);
    let s = last_state(DownloadState::Start, download_turns(front));
    assert(download_turns(events).last() == download_turn(s, events.last()));
    let total = s->Checking_0.total;
    let answer = DownloadEventView::Answered(Ok::<_, RequestErrorView>(total));
    let k = choose|k: int| 0 <= k < front.len() && front[k] == answer;
    assert(events[k] == answer);
    assert(events.contains(DownloadEventView::Answered(Ok(total))));
    assert(written(events) == written(front));
}

/// What a state knows of the download.
pub open spec fn received(state: DownloadState) -> Option<Received> {
    match state {
        DownloadState::Opening(got) => Some(got),
        DownloadState::Reading(got) => Some(got),
        DownloadState::Writing(got, _) => Some(got),
        DownloadState::Checking(got) => Some(got),
        _ => None,
    }
}

proof fn lemma_received(events: Seq<DownloadEventView>)
    requires
        written(events) <= u64::MAX,
    ensures
        ({
            let s = last_state(DownloadState::Start, download_turns(events));
            &&& received(s) matches Some(got) ==> {
                &&& got.bytes == written(events)
                &&& events.contains(DownloadEventView::Answered(Ok(got.total)))
            }
            &&& (s is Start || s is Asking) ==> written(events) == 0
            &&& s matches DownloadState::Checking(got) ==> got.is_whole() && got.bytes
                >= SMALLEST_APP
        }),
    decreases events.len(),
{
    if events.len() > 0 {
        let front = events.drop_last();
        lemma_received(front);
        let s = last_state(DownloadState::Start, download_turns(front));
        let turn = download_turn(s, events.last());
        assert(download_turns(events) == download_turns(front).push(turn));
        assert(last_state(DownloadState::Start, download_turns(events)) == turn.state);
        if let Some(got) = received(s) {
            let answer = DownloadEventView::Answered(Ok::<_, RequestErrorView>(got.total));
            let k = choose|k: int| 0 <= k < front.len() && front[k] == answer;
            assert(events[k] == answer);
        }
        assert(events[events.len() - 1] == events.last());
    }
}

/// Whatever comes, the progress of a download is between nothing and all of it.
pub proof fn law_download_progress_is_a_share(state: DownloadState, event: DownloadEventView)
    ensures
        tells_shares(download_turn(state, event).notices),
{
}

/// The turn ends the download, and says nothing else.
pub open spec fn ends_download(t: DownloadTurnView, r: Result<(), FailureView>) -> bool {
    &&& t.state is Finished
    &&& t.notices.len() == 0
    &&& t.action == DownloadActionView::Finish(r)
}

/// The sum of the lengths of some pieces.
pub open spec fn sum_of(lens: Seq<u64>) -> nat
    decreases lens.len(),
{
    if lens.len() == 0 {
        0
    } else {
        sum_of(lens.drop_last()) + lens.last() as nat
    }
}

/// Pieces of these lengths come, and each is written.
pub open spec fn pieces_come(lens: Seq<u64>) -> Seq<DownloadEventView>
    decreases lens.len(),
{
    if lens.len() == 0 {
        Seq::empty()
    } else {
        pieces_come(lens.drop_last()).push(
            DownloadEventView::Piece(Ok(Some(lens.last()))),
        ).push(DownloadEventView::Written(Ok(())))
    }
}

/// The server answers, a file is made, and pieces of these lengths come and are written.
pub open spec fn file_comes(version: VersionView, total: Option<u64>, lens: Seq<u64>) -> Seq<
    DownloadEventView,
> {
    seq![
        DownloadEventView::Begin(version),
        DownloadEventView::Answered(Ok(total)),
        DownloadEventView::Opened(Ok(())),
    ] + pieces_come(lens)
}

/// A good download ends well, however long the file is and in whatever pieces it comes: where
/// the bytes that came are as many as were announced, if a length was, and enough for an app,
/// and begin like one.
pub proof fn law_a_good_download_ends_well(
    version: VersionView,
    total: Option<u64>,
    lens: Seq<u64>,
)
    requires
        4096 <= sum_of(lens) <= u64::MAX,
        total matches Some(n) ==> n > 0 ==> sum_of(lens) == n,
    ensures
        ({
            let events = file_comes(version, total, lens).push(
                DownloadEventView::Piece(Ok(None)),
            ).push(DownloadEventView::Head(Some((0x50, 0x4b))));
            ends_download(download_turns(events).last(), Ok(()))
        }),
{
    let came = file_comes(version, total, lens);
    let ended = came.push(DownloadEventView::Piece(Ok(None)));
    let events = ended.push(DownloadEventView::Head(Some((0x50, 0x4b))));
    lemma_file_comes(version, total, lens);
    lemma_next_turn(came, DownloadEventView::Piece(Ok(None)));
    lemma_next_turn(ended, DownloadEventView::Head(Some((0x50, 0x4b))));
}

/// A file of another length than was announced is refused, and so is one that is too small.
pub proof fn law_a_bad_download_is_refused(
    version: VersionView,
    total: Option<u64>,
    lens: Seq<u64>,
)
    requires
        sum_of(lens) <= u64::MAX,
    ensures
        ({
            let events = file_comes(version, total, lens).push(
                DownloadEventView::Piece(Ok(None)),
            );
            let t = download_turns(events).last();
            let announced_other = total matches Some(n) && n > 0 && n != sum_of(lens);
            &&& announced_other ==> ends_download(
                t,
                Err(
                    FailureView::plain(
                        "Le telechargement est incomplet"@,
                        texts(INCOMPLETE_STEPS@),
                    ).detailed(
                        decimal_digits(sum_of(lens)) + " octets recus sur "@ + decimal_digits(
                            total->0 as nat,
                        ) + " attendus"@,
                    ),
                ),
            )
            &&& !announced_other && sum_of(lens) < 4096 ==> ends_download(
                t,
                Err(
                    FailureView::plain(
                        "Le fichier telecharge n'est pas une app valide"@,
                        texts(NOT_AN_APP_STEPS@),
                    ),
                ),
            )
            &&& !announced_other && sum_of(lens) >= 4096 ==> t.action is ReadHead
                && t.notices.len() == 0
        }),
{
    lemma_file_comes(version, total, lens);
    lemma_next_turn(file_comes(version, total, lens), DownloadEventView::Piece(Ok(None)));
}

/// A file that does not begin with the letters of an archive, or cannot be read, is refused.
pub proof fn law_only_archives_are_apps(got: Received, first: Option<(u8, u8)>)
    ensures
        ({
            let t = download_turn(DownloadState::Checking(got), DownloadEventView::Head(first));
            let good = first matches Some(b) && b.0 == 0x50 && b.1 == 0x4b;
            &&& good ==> ends_download(t, Ok(()))
            &&& !good ==> ends_download(
                t,
                Err(
                    FailureView::plain(
                        "Le fichier telecharge n'est pas une app valide"@,
                        texts(NOT_AN_APP_STEPS@),
                    ),
                ),
            )
        }),
{
}

proof fn lemma_next_turn(events: Seq<DownloadEventView>, next: DownloadEventView)
    ensures
        download_turns(events.push(next)) == download_turns(events).push(
            download_turn(last_state(DownloadState::Start, download_turns(events)), next),
        ),
{
    assert(events.push(next).drop_last() =~= events);
}

proof fn lemma_file_comes(version: VersionView, total: Option<u64>, lens: Seq<u64>)
    requires
        sum_of(lens) <= u64::MAX,
    ensures
        last_state(
            DownloadState::Start,
            download_turns(file_comes(version, total, lens)),
        ) matches DownloadState::Reading(got) && got.total == total && got.bytes == sum_of(lens),
    decreases lens.len(),
{
    let events = file_comes(version, total, lens);
    if lens.len() == 0 {
        let e1 = Seq::<DownloadEventView>::empty().push(DownloadEventView::Begin(version));
        let e2 = e1.push(DownloadEventView::Answered(Ok(total)));
        let e3 = e2.push(DownloadEventView::Opened(Ok(())));
        lemma_next_turn(Seq::empty(), DownloadEventView::Begin(version));
        lemma_next_turn(e1, DownloadEventView::Answered(Ok(total)));
        lemma_next_turn(e2, DownloadEventView::Opened(Ok(())));
        assert(events =~= e3);
    } else {
        let front = lens.drop_last();
        let len = lens.last();
        lemma_file_comes(version, total, front);
        let before = file_comes(version, total, front);
        let piece = before.push(DownloadEventView::Piece(Ok(Some(len))));
        lemma_next_turn(before, DownloadEventView::Piece(Ok(Some(len))));
        lemma_next_turn(piece, DownloadEventView::Written(Ok(())));
        assert(events =~= piece.push(DownloadEventView::Written(Ok(()))));
    }
}

/// How a download begins: the version is named, the very address of the list is asked for, a
/// file is made, and then the first piece is waited for, with nothing received yet.
pub proof fn law_how_a_download_begins(version: VersionView, total: Option<u64>)
    ensures
        ({
            let t0 = download_turn(DownloadState::Start, DownloadEventView::Begin(version));
            let t1 = download_turn(t0.state, DownloadEventView::Answered(Ok(total)));
            let t2 = download_turn(t1.state, DownloadEventView::Opened(Ok(())));
            &&& t0.action == (DownloadActionView::Get { url: version.download_url })
            &&& t0.notices == seq![
                NoticeView::Status(
                    "Telechargement de la version "@ + version.version + " (build "@
                        + version.build_version + ")..."@,
                ),
                NoticeView::Progress(Progress::Ratio { done: 0, total: 1 }),
            ]
            &&& t1.action is Open && t1.notices.len() == 0
            &&& t2.action is Read && t2.notices.len() == 0
            &&& t2.state == DownloadState::Reading(Received { total, bytes: 0, shown: None })
        }),
{
}

/// Each piece is written and counted whole. Where a length was announced, the share and the
/// bytes that have come are told each time the whole percentage is another than the one told
/// last, and at no other time; where none was, nothing is told.
pub proof fn law_pieces_are_written_and_counted(got: Received, len: u64)
    requires
        got.fits(len),
    ensures
        ({
            let t1 = download_turn(
                DownloadState::Reading(got),
                DownloadEventView::Piece(Ok(Some(len))),
            );
            let t2 = download_turn(t1.state, DownloadEventView::Written(Ok(())));
            let bytes = (got.bytes + len) as u64;
            &&& t1.action is Write && t1.notices.len() == 0
            &&& t2.action is Read
            &&& t2.state matches DownloadState::Reading(more) && more.total == got.total
                && more.bytes == got.bytes + len && {
                &&& (got.total matches Some(n) && n > 0) ==> {
                    let total = got.total->0;
                    let percent = (got.bytes + len) * 100 / (total as int);
                    &&& more.shown matches Some(p) && p == percent
                    &&& got.shown == more.shown ==> t2.notices.len() == 0
                    &&& got.shown != more.shown ==> t2.notices == seq![
                        NoticeView::Progress(
                            Progress::Ratio {
                                done: if bytes < total {
                                    bytes
                                } else {
                                    total
                                },
                                total,
                            },
                        ),
                        NoticeView::Received { done: bytes, total },
                    ]
                }
                &&& !(got.total matches Some(total) && total > 0) ==> more.shown == got.shown
                    && t2.notices.len() == 0
            }
        }),
{
    if let Some(total) = got.total {
        if total > 0 {
            let b = got.bytes + len;
            let t = total as int;
            assert(0 <= b * 100 / t <= b * 100) by (nonlinear_arith)
                requires
                    0 <= b,
                    t > 0,
            ;
        }
    }
}

/// A piece can be counted wherever the bytes and, where a length was announced, a hundred times
/// the bytes fit.
pub proof fn law_room_for_a_piece(got: Received, len: u64)
    ensures
        got.fits(len) <==> {
            &&& got.bytes + len <= u64::MAX
            &&& (got.total matches Some(total) && total > 0) ==> (got.bytes + len) * 100 <= u64::MAX
        },
{
}

/// Each step that fails ends the download in its own words, however far it has come.
pub proof fn law_each_step_of_the_download_has_its_words(got: Received, len: u64, e: Seq<char>)
    ensures
        ends_download(
            download_turn(
                DownloadState::Asking,
                DownloadEventView::Answered(Err(RequestErrorView::Unreachable(e))),
            ),
            Err(
                explained(
                    e,
                    "Le telechargement de l'app n'a pas demarre"@,
                    texts(NOT_STARTED_STEPS@),
                ),
            ),
        ),
        ends_download(
            download_turn(
                DownloadState::Asking,
                DownloadEventView::Answered(Err(RequestErrorView::Refused(e))),
            ),
            Err(
                explained(
                    e,
                    "Le fichier de l'app est introuvable sur le serveur"@,
                    texts(NOT_FOUND_STEPS@),
                ),
            ),
        ),
        ends_download(
            download_turn(DownloadState::Opening(got), DownloadEventView::Opened(Err(e))),
            Err(
                explained(
                    e,
                    "Impossible d'ecrire le fichier temporaire"@,
                    texts(NO_WRITE_STEPS@),
                ),
            ),
        ),
        ends_download(
            download_turn(DownloadState::Reading(got), DownloadEventView::Piece(Err(e))),
            Err(
                explained(e, "Le telechargement a ete interrompu"@, texts(INTERRUPTED_STEPS@)),
            ),
        ),
        ends_download(
            download_turn(DownloadState::Writing(got, len), DownloadEventView::Written(Err(e))),
            Err(
                explained(e, "Ecriture du telechargement impossible"@, texts(NO_WRITE_STEPS@)),
            ),
        ),
{
}

/// The event answers what was asked for in the state.
pub open spec fn is_download_answer(state: DownloadState, event: DownloadEventView) -> bool {
    match state {
        DownloadState::Start => event is Begin,
        DownloadState::Asking => event is Answered,
        DownloadState::Opening(_) => event is Opened,
        DownloadState::Reading(_) => event is Piece,
        DownloadState::Writing(_, _) => event is Written,
        DownloadState::Checking(_) => event is Head,
        DownloadState::Finished => false,
    }
}

/// An event that was not waited for changes nothing, says nothing and asks for nothing.
pub proof fn law_only_awaited_download_events_count(
    state: DownloadState,
    event: DownloadEventView,
)
    ensures
        !is_download_answer(state, event) ==> {
            &&& download_turn(state, event).state == state
            &&& download_turn(state, event).notices.len() == 0
            &&& download_turn(state, event).action is Ignore
        },
        is_download_answer(state, event) ==> !(download_turn(state, event).action is Ignore),
{
}

/// Events, actions and turns are seen with all that they hold.
pub proof fn law_download_is_seen_whole(
    v: AltStoreVersion,
    total: Option<u64>,
    e: String,
    done: Result<(), String>,
    piece: Result<Option<u64>, String>,
    first: Option<(u8, u8)>,
    r: Result<(), Failure>,
    t: Turn<DownloadState, DownloadAction>,
)
    ensures
        DownloadEvent::Begin(v)@ == DownloadEventView::Begin(v@),
        DownloadEvent::Answered(Ok(total))@ == DownloadEventView::Answered(Ok(total)),
        DownloadEvent::Answered(Err(RequestError::Unreachable(e)))@ == DownloadEventView::Answered(
            Err(RequestErrorView::Unreachable(e@)),
        ),
        DownloadEvent::Answered(Err(RequestError::Refused(e)))@ == DownloadEventView::Answered(
            Err(RequestErrorView::Refused(e@)),
        ),
        DownloadEvent::Opened(done)@ == DownloadEventView::Opened(text_result(done)),
        DownloadEvent::Piece(piece)@ == DownloadEventView::Piece(text_result(piece)),
        DownloadEvent::Written(done)@ == DownloadEventView::Written(text_result(done)),
        DownloadEvent::Head(first)@ == DownloadEventView::Head(first),
        (DownloadAction::Get { url: e })@ == (DownloadActionView::Get { url: e@ }),
        DownloadAction::Open@ is Open,
        DownloadAction::Read@ is Read,
        DownloadAction::Write@ is Write,
        DownloadAction::ReadHead@ is ReadHead,
        DownloadAction::Finish(r)@ == DownloadActionView::Finish(crate::failure::outcome(r)),
        DownloadAction::Ignore@ is Ignore,
        t@.state == t.state,
        t@.notices == notices(t.notices@),
        t@.action == t.action@,
{
}

/// Only a piece that is being written can be too much to count.
pub proof fn law_what_can_be_counted(state: DownloadState, got: Received, len: u64)
    ensures
        countable(DownloadState::Writing(got, len)) <==> got.fits(len),
        !(state is Writing) ==> countable(state),
{
}

} // verus!
