//! The installation from end to end.
//!
//! The order counts: whatever can be checked without the network and without waiting
//! comes first. Nobody should download 30 MB to learn that no iPhone is plugged in, which
//! is the most common case of all.

use crate::download::RequestError;
use crate::failure::{explain_error, explained, outcome, Failure, FailureView};
use crate::login::pair_outcome;
use crate::notice::{
    notices, silence, tells_shares, Notice, NoticeView, Progress, Stage,
};
use crate::probe::{details_outcome, DeviceDetails, DeviceDetailsView};
use crate::source::{
    law_only_empty_lists_are_refused, pick_version, version_to_install, AltStoreSource,
    AltStoreVersion, VersionView,
};
use crate::text::{join, strings, texts};
use crate::turn::{last_state, text_result, turns, Turn, TurnView};
use vstd::prelude::*;
use vstd::string::StringExecFns;

verus! {

/// How the application names itself to servers.
pub const USER_AGENT: &'static str = "KospInjection/1.0";

/// The name of this PC in the certificates of the account.
pub const MACHINE_NAME: &'static str = "twitninf-updater";

/// The first version of iOS with a developer mode to switch on.
pub const DEVELOPER_MODE_SINCE: u32 = 16;

pub const SEARCHING_DEVICE: &'static str = "Recherche de l'iPhone...";

pub const DETECTED: &'static str = " detecte (iOS ";

pub const DETECTED_TAIL: &'static str = ")";

pub const SEARCHING_VERSION: &'static str = "Recherche de la derniere version...";

pub const OPENING_SESSION: &'static str = "Ouverture de la session developpeur Apple...";

pub const REGISTERING: &'static str = "Enregistrement de l'iPhone sur le compte Apple...";

pub const SIGNING: &'static str = "Signature de l'app...";

pub const TRANSFERRING: &'static str = "Transfert vers l'iPhone...";

pub const NO_HTTP: &'static str = "Impossible d'initialiser la connexion reseau";

pub const NO_HTTP_STEPS: [&'static str; 1] = [
    "Redemarre l'application. Si ca persiste, redemarre le PC.",
];

pub const SOURCE_UNREACHABLE: &'static str = "Impossible de joindre le serveur de mise a jour";

pub const SOURCE_UNREACHABLE_STEPS: [&'static str; 3] = [
    "Verifie que le PC est connecte a Internet.",
    "Desactive VPN et pare-feu d'entreprise le temps de l'installation.",
    "Relance ensuite.",
];

pub const SOURCE_REFUSED: &'static str = "Le serveur de mise a jour a refuse la demande";

pub const SOURCE_REFUSED_STEPS: [&'static str; 1] = [
    "Reessaie dans quelques minutes. Si ca persiste, previens le developpeur.",
];

pub const SOURCE_UNREADABLE: &'static str = "La liste des versions est illisible";

pub const SOURCE_UNREADABLE_STEPS: [&'static str; 1] = [
    "Le fichier de versions publie est invalide. Previens le developpeur.",
];

pub const NO_SESSION: &'static str = "Impossible d'ouvrir la session developpeur Apple";

pub const NO_SESSION_STEPS: [&'static str; 2] = [
    "Connecte-toi une fois sur developer.apple.com avec ce compte et accepte les conditions.",
    "Relance ensuite l'installation.",
];

pub const TEAMS_UNREADABLE: &'static str = "Impossible de lire les equipes du compte Apple";

pub const TEAMS_UNREADABLE_STEPS: [&'static str; 2] = [
    "Verifie ta connexion Internet.",
    "Connecte-toi une fois sur developer.apple.com avec ce compte et accepte les conditions.",
];

pub const WITHOUT_TEAM: &'static str = "Ce compte Apple n'a pas d'equipe de developpement";

pub const NOT_REGISTERED: &'static str = "Impossible d'enregistrer l'iPhone sur le compte Apple";

pub const NOT_REGISTERED_STEPS: [&'static str; 2] = [
    "Un compte Apple gratuit est limite a 100 appareils enregistres par an.",
    "Verifie la connexion Internet, puis relance.",
];

pub const NOT_SIGNED: &'static str = "La signature de l'app a echoue";

pub const NOT_SIGNED_STEPS: [&'static str; 2] = [
    "Verifie ta connexion Internet (la signature dialogue avec Apple).",
    "Si le probleme persiste, essaie avec un autre compte Apple gratuit.",
];

pub const NOT_INSTALLED: &'static str = "L'installation sur l'iPhone a echoue";

pub const NOT_INSTALLED_STEPS: [&'static str; 3] = [
    "Garde l'iPhone deverrouille, branche en USB, ecran allume.",
    "Verifie qu'il reste au moins 500 Mo de libre sur l'iPhone.",
    "Supprime l'ancienne version de TwitNinf sur l'iPhone, puis relance.",
];

pub const DONE_HEAD: &'static str = "TwitNinf ";

pub const DONE_MIDDLE: &'static str = " installe sur ";

pub const NEXT_SETTINGS: &'static str =
    "Sur l'iPhone : Reglages > General > VPN et gestion de l'appareil.";

pub const NEXT_PROFILE_HEAD: &'static str = "Ouvre le profil au nom de ";

pub const NEXT_PROFILE_TAIL: &'static str = ", puis touche « Faire confiance ».";

pub const NEXT_OPEN: &'static str = "TwitNinf peut alors etre ouvert depuis l'ecran d'accueil.";

pub const NEXT_DEVELOPER_MODE: &'static str =
    "Si l'app refuse de s'ouvrir : Reglages > Confidentialite et securite > Mode developpeur, active-le et redemarre l'iPhone.";

pub const NEXT_WEEK: &'static str =
    "Avec un compte Apple gratuit, l'app doit etre reinstallee tous les 7 jours.";

/// What is left to do on the phone.
pub open spec fn steps_left(apple_id: Seq<char>, ios_major: nat) -> Seq<Seq<char>> {
    let first = seq![
        NEXT_SETTINGS@,
        NEXT_PROFILE_HEAD@ + apple_id + NEXT_PROFILE_TAIL@,
        NEXT_OPEN@,
    ];
    if ios_major >= DEVELOPER_MODE_SINCE {
        first.push(NEXT_DEVELOPER_MODE@).push(NEXT_WEEK@)
    } else {
        first.push(NEXT_WEEK@)
    }
}

/// The steps to show once the app is installed.
pub fn next_steps(apple_id: &str, ios_major: u32) -> (r: Vec<String>)
    ensures
        strings(r@) == steps_left(apple_id@, ios_major as nat),
{
    let mut r: Vec<String> = Vec::new();
    r.push(NEXT_SETTINGS.to_string());
    r.push(join(NEXT_PROFILE_HEAD, apple_id, NEXT_PROFILE_TAIL));
    r.push(NEXT_OPEN.to_string());
    if ios_major >= DEVELOPER_MODE_SINCE {
        r.push(NEXT_DEVELOPER_MODE.to_string());
    }
    r.push(NEXT_WEEK.to_string());
    assert(strings(r@) =~= steps_left(apple_id@, ios_major as nat));
    r
}

/// Why the published list of versions could not be had.
#[derive(Debug)]
pub enum ListError {
    Request(RequestError),
    /// What the server sent is no such list.
    Unreadable(String),
}

pub open spec fn list_failure(e: ListError) -> FailureView {
    match e {
        ListError::Request(RequestError::Unreachable(text)) => explained(
            text@,
            SOURCE_UNREACHABLE@,
            texts(SOURCE_UNREACHABLE_STEPS@),
        ),
        ListError::Request(RequestError::Refused(text)) => explained(
            text@,
            SOURCE_REFUSED@,
            texts(SOURCE_REFUSED_STEPS@),
        ),
        ListError::Unreadable(text) => explained(
            text@,
            SOURCE_UNREADABLE@,
            texts(SOURCE_UNREADABLE_STEPS@),
        ),
    }
}

fn explain_list_error(e: ListError) -> (f: Failure)
    ensures
        f@ == list_failure(e),
{
    match e {
        ListError::Request(RequestError::Unreachable(text)) => explain_error(
            text.as_str(),
            SOURCE_UNREACHABLE,
            &SOURCE_UNREACHABLE_STEPS,
        ),
        ListError::Request(RequestError::Refused(text)) => explain_error(
            text.as_str(),
            SOURCE_REFUSED,
            &SOURCE_REFUSED_STEPS,
        ),
        ListError::Unreadable(text) => explain_error(
            text.as_str(),
            SOURCE_UNREADABLE,
            &SOURCE_UNREADABLE_STEPS,
        ),
    }
}

/// What is being installed, where, and for whom.
#[derive(Debug)]
pub struct Job {
    pub device: DeviceDetails,
    pub version: String,
    pub apple_id: String,
}

pub struct JobView {
    pub device: DeviceDetailsView,
    pub version: Seq<char>,
    pub apple_id: Seq<char>,
}

impl View for Job {
    type V = JobView;

    open spec fn view(&self) -> JobView {
        JobView { device: self.device@, version: self.version@, apple_id: self.apple_id@ }
    }
}

#[derive(Debug)]
pub enum UpdateState {
    Start,
    /// The connection to the network is set up.
    Connecting,
    /// The Apple service is made ready.
    Drivers,
    Finding,
    Probing,
    /// The published list of versions is fetched.
    Listing { device: DeviceDetails },
    Downloading { device: DeviceDetails, version: String },
    LoggingIn { device: DeviceDetails, version: String },
    /// A developer session is opened with an account that was let in.
    OpeningSession { job: Job, password: String },
    /// The account is remembered.
    Saving { job: Job },
    ListingTeams { job: Job },
    /// The phone is registered with the account.
    Registering { job: Job },
    Signing { job: Job },
    Installing { job: Job },
    /// The signed app is removed from the PC, whatever became of the installation.
    Cleaning { job: Job, installed: Result<(), String> },
    Finished,
}

pub enum UpdateStateView {
    Start,
    Connecting,
    Drivers,
    Finding,
    Probing,
    Listing { device: DeviceDetailsView },
    Downloading { device: DeviceDetailsView, version: Seq<char> },
    LoggingIn { device: DeviceDetailsView, version: Seq<char> },
    OpeningSession { job: JobView, password: Seq<char> },
    Saving { job: JobView },
    ListingTeams { job: JobView },
    Registering { job: JobView },
    Signing { job: JobView },
    Installing { job: JobView },
    Cleaning { job: JobView, installed: Result<(), Seq<char>> },
    Finished,
}

impl View for UpdateState {
    type V = UpdateStateView;

    open spec fn view(&self) -> UpdateStateView {
        match self {
            UpdateState::Start => UpdateStateView::Start,
            UpdateState::Connecting => UpdateStateView::Connecting,
            UpdateState::Drivers => UpdateStateView::Drivers,
            UpdateState::Finding => UpdateStateView::Finding,
            UpdateState::Probing => UpdateStateView::Probing,
            UpdateState::Listing { device } => UpdateStateView::Listing { device: device@ },
            UpdateState::Downloading { device, version } => UpdateStateView::Downloading {
                device: device@,
                version: version@,
            },
            UpdateState::LoggingIn { device, version } => UpdateStateView::LoggingIn {
                device: device@,
                version: version@,
            },
            UpdateState::OpeningSession { job, password } => UpdateStateView::OpeningSession {
                job: job@,
                password: password@,
            },
            UpdateState::Saving { job } => UpdateStateView::Saving { job: job@ },
            UpdateState::ListingTeams { job } => UpdateStateView::ListingTeams { job: job@ },
            UpdateState::Registering { job } => UpdateStateView::Registering { job: job@ },
            UpdateState::Signing { job } => UpdateStateView::Signing { job: job@ },
            UpdateState::Installing { job } => UpdateStateView::Installing { job: job@ },
            UpdateState::Cleaning { job, installed } => UpdateStateView::Cleaning {
                job: job@,
                installed: text_result(*installed),
            },
            UpdateState::Finished => UpdateStateView::Finished,
        }
    }
}

#[derive(Debug)]
pub enum UpdateEvent {
    Begin,
    /// The connection to the network was set up.
    HttpReady(Result<(), String>),
    /// The exchange about the Apple service is over.
    DriversReady(Result<(), Failure>),
    /// The exchange about which phone to use is over.
    DeviceFound(Result<(), Failure>),
    /// The exchange about the state of the phone is over.
    DeviceProbed(Result<DeviceDetails, Failure>),
    /// The published list of versions was fetched.
    Listed(Result<AltStoreSource, ListError>),
    /// The download is over.
    Downloaded(Result<(), Failure>),
    /// The exchange about the account is over: its name and password.
    LoggedIn(Result<(String, String), Failure>),
    SessionOpened(Result<(), String>),
    /// The account was remembered, or could not be, which makes no difference.
    Saved,
    /// The teams of the account were counted.
    TeamsListed(Result<usize, String>),
    Registered(Result<(), String>),
    Signed(Result<(), String>),
    Installed(Result<(), String>),
    /// The signed app was removed, or could not be, which makes no difference.
    Removed,
}

pub enum UpdateEventView {
    Begin,
    HttpReady(Result<(), Seq<char>>),
    DriversReady(Result<(), FailureView>),
    DeviceFound(Result<(), FailureView>),
    DeviceProbed(Result<DeviceDetailsView, FailureView>),
    Listed(Result<Seq<Seq<VersionView>>, FailureView>),
    Downloaded(Result<(), FailureView>),
    LoggedIn(Result<(Seq<char>, Seq<char>), FailureView>),
    SessionOpened(Result<(), Seq<char>>),
    Saved,
    TeamsListed(Result<usize, Seq<char>>),
    Registered(Result<(), Seq<char>>),
    Signed(Result<(), Seq<char>>),
    Installed(Result<(), Seq<char>>),
    Removed,
}

impl View for UpdateEvent {
    type V = UpdateEventView;

    open spec fn view(&self) -> UpdateEventView {
        match self {
            UpdateEvent::Begin => UpdateEventView::Begin,
            UpdateEvent::HttpReady(r) => UpdateEventView::HttpReady(text_result(*r)),
            UpdateEvent::DriversReady(r) => UpdateEventView::DriversReady(outcome(*r)),
            UpdateEvent::DeviceFound(r) => UpdateEventView::DeviceFound(outcome(*r)),
            UpdateEvent::DeviceProbed(r) => UpdateEventView::DeviceProbed(details_outcome(*r)),
            UpdateEvent::Listed(r) => UpdateEventView::Listed(
                match r {
                    Ok(source) => Ok(source@),
                    Err(e) => Err(list_failure(*e)),
                },
            ),
            UpdateEvent::Downloaded(r) => UpdateEventView::Downloaded(outcome(*r)),
            UpdateEvent::LoggedIn(r) => UpdateEventView::LoggedIn(pair_outcome(*r)),
            UpdateEvent::SessionOpened(r) => UpdateEventView::SessionOpened(text_result(*r)),
            UpdateEvent::Saved => UpdateEventView::Saved,
            UpdateEvent::TeamsListed(r) => UpdateEventView::TeamsListed(text_result(*r)),
            UpdateEvent::Registered(r) => UpdateEventView::Registered(text_result(*r)),
            UpdateEvent::Signed(r) => UpdateEventView::Signed(text_result(*r)),
            UpdateEvent::Installed(r) => UpdateEventView::Installed(text_result(*r)),
            UpdateEvent::Removed => UpdateEventView::Removed,
        }
    }
}

#[derive(Debug)]
pub enum UpdateAction {
    /// Set up the connection to the network.
    BuildHttp,
    EnsureDrivers,
    FindDevice,
    ProbeDevice,
    /// Fetch the published list of versions.
    FetchSource,
    Download(AltStoreVersion),
    LogIn,
    OpenSession,
    SaveAccount { apple_id: String, password: String },
    ListTeams,
    /// Register the phone with the first team.
    Register { name: String, udid: String },
    /// Sign the app for the first team.
    Sign { apple_id: String },
    Install,
    /// Remove the signed app from the PC.
    RemoveSigned,
    Finish(Result<(), Failure>),
    /// The event answers nothing that was asked: nothing to do.
    Ignore,
}

pub enum UpdateActionView {
    BuildHttp,
    EnsureDrivers,
    FindDevice,
    ProbeDevice,
    FetchSource,
    Download(VersionView),
    LogIn,
    OpenSession,
    SaveAccount { apple_id: Seq<char>, password: Seq<char> },
    ListTeams,
    Register { name: Seq<char>, udid: Seq<char> },
    Sign { apple_id: Seq<char> },
    Install,
    RemoveSigned,
    Finish(Result<(), FailureView>),
    Ignore,
}

impl View for UpdateAction {
    type V = UpdateActionView;

    open spec fn view(&self) -> UpdateActionView {
        match self {
            UpdateAction::BuildHttp => UpdateActionView::BuildHttp,
            UpdateAction::EnsureDrivers => UpdateActionView::EnsureDrivers,
            UpdateAction::FindDevice => UpdateActionView::FindDevice,
            UpdateAction::ProbeDevice => UpdateActionView::ProbeDevice,
            UpdateAction::FetchSource => UpdateActionView::FetchSource,
            UpdateAction::Download(v) => UpdateActionView::Download(v@),
            UpdateAction::LogIn => UpdateActionView::LogIn,
            UpdateAction::OpenSession => UpdateActionView::OpenSession,
            UpdateAction::SaveAccount { apple_id, password } => UpdateActionView::SaveAccount {
                apple_id: apple_id@,
                password: password@,
            },
            UpdateAction::ListTeams => UpdateActionView::ListTeams,
            UpdateAction::Register { name, udid } => UpdateActionView::Register {
                name: name@,
                udid: udid@,
            },
            UpdateAction::Sign { apple_id } => UpdateActionView::Sign { apple_id: apple_id@ },
            UpdateAction::Install => UpdateActionView::Install,
            UpdateAction::RemoveSigned => UpdateActionView::RemoveSigned,
            UpdateAction::Finish(r) => UpdateActionView::Finish(outcome(*r)),
            UpdateAction::Ignore => UpdateActionView::Ignore,
        }
    }
}

pub type UpdateTurnView = TurnView<UpdateStateView, UpdateActionView>;

impl View for Turn<UpdateState, UpdateAction> {
    type V = UpdateTurnView;

    open spec fn view(&self) -> UpdateTurnView {
        TurnView { state: self.state@, notices: notices(self.notices@), action: self.action@ }
    }
}

pub open spec fn update_go(
    state: UpdateStateView,
    told: Seq<NoticeView>,
    action: UpdateActionView,
) -> UpdateTurnView {
    TurnView { state, notices: told, action }
}

/// The end of the installation, for a reason that was told.
pub open spec fn update_fail(f: FailureView) -> UpdateTurnView {
    update_go(UpdateStateView::Finished, Seq::empty(), UpdateActionView::Finish(Err(f)))
}

/// The end of the installation, for a technical reason.
pub open spec fn update_fail_text<const N: usize>(
    e: Seq<char>,
    title: &str,
    steps: [&str; N],
) -> UpdateTurnView {
    update_fail(explained(e, title@, texts(steps@)))
}

/// What is told when an installation has ended well.
pub open spec fn done(job: JobView) -> Seq<NoticeView> {
    seq![
        NoticeView::Progress(Progress::full()),
        NoticeView::Done {
            title: DONE_HEAD@ + job.version + DONE_MIDDLE@ + job.device.name,
            steps: steps_left(job.apple_id, job.device.ios_major),
        },
    ]
}

/// The version list was fetched.
pub open spec fn listed(
    device: DeviceDetailsView,
    source: Seq<Seq<VersionView>>,
) -> UpdateTurnView {
    match version_to_install(source) {
        Ok(version) => update_go(
            UpdateStateView::Downloading { device, version: version.version },
            seq![NoticeView::Stage(Stage::Download)],
            UpdateActionView::Download(version),
        ),
        Err(f) => update_fail(f),
    }
}

/// The answers of the installation.
pub open spec fn update_turn(state: UpdateStateView, event: UpdateEventView) -> UpdateTurnView {
    match (state, event) {
        (UpdateStateView::Start, UpdateEventView::Begin) => update_go(
            UpdateStateView::Connecting,
            Seq::empty(),
            UpdateActionView::BuildHttp,
        ),
        (UpdateStateView::Connecting, UpdateEventView::HttpReady(r)) => match r {
            Ok(_) => update_go(
                UpdateStateView::Drivers,
                seq![
                    NoticeView::Progress(Progress::Unknown),
                    NoticeView::Stage(Stage::Drivers),
                ],
                UpdateActionView::EnsureDrivers,
            ),
            Err(e) => update_fail_text(e, NO_HTTP, NO_HTTP_STEPS),
        },
        (UpdateStateView::Drivers, UpdateEventView::DriversReady(r)) => match r {
            Ok(_) => update_go(
                UpdateStateView::Finding,
                seq![NoticeView::Stage(Stage::Device), NoticeView::Status(SEARCHING_DEVICE@)],
                UpdateActionView::FindDevice,
            ),
            Err(f) => update_fail(f),
        },
        (UpdateStateView::Finding, UpdateEventView::DeviceFound(r)) => match r {
            Ok(_) => update_go(
                UpdateStateView::Probing,
                Seq::empty(),
                UpdateActionView::ProbeDevice,
            ),
            Err(f) => update_fail(f),
        },
        (UpdateStateView::Probing, UpdateEventView::DeviceProbed(r)) => match r {
            Ok(device) => update_go(
                UpdateStateView::Listing { device },
                seq![
                    NoticeView::Status(
                        device.name + DETECTED@ + device.ios_version + DETECTED_TAIL@,
                    ),
                    NoticeView::Device { name: device.name, ios: device.ios_version },
                    NoticeView::Stage(Stage::Version),
                    NoticeView::Status(SEARCHING_VERSION@),
                ],
                UpdateActionView::FetchSource,
            ),
            Err(f) => update_fail(f),
        },
        (UpdateStateView::Listing { device }, UpdateEventView::Listed(r)) => match r {
            Ok(source) => listed(device, source),
            Err(f) => update_fail(f),
        },
        (UpdateStateView::Downloading { device, version }, UpdateEventView::Downloaded(r)) => {
            match r {
                Ok(_) => update_go(
                    UpdateStateView::LoggingIn { device, version },
                    seq![NoticeView::Stage(Stage::Account)],
                    UpdateActionView::LogIn,
                ),
                Err(f) => update_fail(f),
            }
        },
        (UpdateStateView::LoggingIn { device, version }, UpdateEventView::LoggedIn(r)) => match r {
            Ok((apple_id, password)) => update_go(
                UpdateStateView::OpeningSession {
                    job: JobView { device, version, apple_id },
                    password,
                },
                seq![
                    NoticeView::Status(OPENING_SESSION@),
                    NoticeView::Progress(Progress::Unknown),
                ],
                UpdateActionView::OpenSession,
            ),
            Err(f) => update_fail(f),
        },
        (UpdateStateView::OpeningSession { job, password }, UpdateEventView::SessionOpened(r)) => {
            match r {
                Ok(_) => update_go(
                    UpdateStateView::Saving { job },
                    Seq::empty(),
                    UpdateActionView::SaveAccount { apple_id: job.apple_id, password },
                ),
                Err(e) => update_fail_text(e, NO_SESSION, NO_SESSION_STEPS),
            }
        },
        (UpdateStateView::Saving { job }, UpdateEventView::Saved) => update_go(
            UpdateStateView::ListingTeams { job },
            Seq::empty(),
            UpdateActionView::ListTeams,
        ),
        (UpdateStateView::ListingTeams { job }, UpdateEventView::TeamsListed(r)) => match r {
            Ok(n) => if n == 0 {
                update_fail(FailureView::plain(WITHOUT_TEAM@, texts(NO_SESSION_STEPS@)))
            } else {
                update_go(
                    UpdateStateView::Registering { job },
                    seq![NoticeView::Status(REGISTERING@)],
                    UpdateActionView::Register { name: job.device.name, udid: job.device.udid },
                )
            },
            Err(e) => update_fail_text(e, TEAMS_UNREADABLE, TEAMS_UNREADABLE_STEPS),
        },
        (UpdateStateView::Registering { job }, UpdateEventView::Registered(r)) => match r {
            Ok(_) => update_go(
                UpdateStateView::Signing { job },
                seq![
                    NoticeView::Stage(Stage::Sign),
                    NoticeView::Status(SIGNING@),
                    NoticeView::Progress(Progress::empty()),
                ],
                UpdateActionView::Sign { apple_id: job.apple_id },
            ),
            Err(e) => update_fail_text(e, NOT_REGISTERED, NOT_REGISTERED_STEPS),
        },
        (UpdateStateView::Signing { job }, UpdateEventView::Signed(r)) => match r {
            Ok(_) => update_go(
                UpdateStateView::Installing { job },
                seq![
                    NoticeView::Stage(Stage::Install),
                    NoticeView::Status(TRANSFERRING@),
                    NoticeView::Progress(Progress::empty()),
                ],
                UpdateActionView::Install,
            ),
            Err(e) => update_fail_text(e, NOT_SIGNED, NOT_SIGNED_STEPS),
        },
        (UpdateStateView::Installing { job }, UpdateEventView::Installed(installed)) => update_go(
            UpdateStateView::Cleaning { job, installed },
            Seq::empty(),
            UpdateActionView::RemoveSigned,
        ),
        (UpdateStateView::Cleaning { job, installed }, UpdateEventView::Removed) => {
            match installed {
                Ok(_) => update_go(
                    UpdateStateView::Finished,
                    done(job),
                    UpdateActionView::Finish(Ok(())),
                ),
                Err(e) => update_fail_text(e, NOT_INSTALLED, NOT_INSTALLED_STEPS),
            }
        },
        _ => update_go(state, Seq::empty(), UpdateActionView::Ignore),
    }
}

fn go(state: UpdateState, notices: Vec<Notice>, action: UpdateAction) -> (t: Turn<
    UpdateState,
    UpdateAction,
>)
    ensures
        t@ == update_go(state@, crate::notice::notices(notices@), action@),
{
    Turn { state, notices, action }
}

fn fail(f: Failure) -> (t: Turn<UpdateState, UpdateAction>)
    ensures
        t@ == update_fail(f@),
{
    go(UpdateState::Finished, silence(), UpdateAction::Finish(Err(f)))
}

fn tell(text: &str) -> (n: Notice)
    ensures
        n@ == NoticeView::Status(text@),
{
    Notice::Status(text.to_string())
}

fn found_device(device: DeviceDetails) -> (t: Turn<UpdateState, UpdateAction>)
    ensures
        t@ == update_turn(UpdateStateView::Probing, UpdateEventView::DeviceProbed(Ok(device@))),
{
    let mut text: String = join(device.name.as_str(), DETECTED, device.ios_version.as_str());
    text.append(DETECTED_TAIL);
    let mut list: Vec<Notice> = Vec::new();
    list.push(Notice::Status(text));
    list.push(Notice::Device { name: device.name.clone(), ios: device.ios_version.clone() });
    list.push(Notice::Stage(Stage::Version));
    list.push(tell(SEARCHING_VERSION));
    assert(notices(list@) =~= update_turn(
        UpdateStateView::Probing,
        UpdateEventView::DeviceProbed(Ok(device@)),
    ).notices);
    go(UpdateState::Listing { device }, list, UpdateAction::FetchSource)
}

fn list_versions(device: DeviceDetails, source: AltStoreSource) -> (t: Turn<
    UpdateState,
    UpdateAction,
>)
    ensures
        t@ == listed(device@, source@),
{
    match pick_version(&source) {
        Ok(version) => {
            let mut list: Vec<Notice> = Vec::new();
            list.push(Notice::Stage(Stage::Download));
            assert(notices(list@) =~= seq![NoticeView::Stage(Stage::Download)]);
            go(
                UpdateState::Downloading { device, version: version.version.clone() },
                list,
                UpdateAction::Download(version),
            )
        },
        Err(f) => fail(f),
    }
}

fn finish(job: Job) -> (t: Turn<UpdateState, UpdateAction>)
    ensures
        t@ == update_go(
            UpdateStateView::Finished,
            done(job@),
            UpdateActionView::Finish(Ok(())),
        ),
{
    let mut title: String = join(DONE_HEAD, job.version.as_str(), DONE_MIDDLE);
    title.append(job.device.name.as_str());
    let steps: Vec<String> = next_steps(job.apple_id.as_str(), job.device.ios_major);
    let mut list: Vec<Notice> = Vec::new();
    list.push(Notice::Progress(Progress::Ratio { done: 1, total: 1 }));
    list.push(Notice::Done { title, steps });
    assert(notices(list@) =~= done(job@));
    go(UpdateState::Finished, list, UpdateAction::Finish(Ok(())))
}

/// Installs the app.
pub fn run_update(state: UpdateState, event: UpdateEvent) -> (t: Turn<UpdateState, UpdateAction>)
    ensures
        t@ == update_turn(state@, event@),
{
    let ghost expected = update_turn(state@, event@);
    match (state, event) {
        (UpdateState::Start, UpdateEvent::Begin) => go(
            UpdateState::Connecting,
            silence(),
            UpdateAction::BuildHttp,
        ),
        (UpdateState::Connecting, UpdateEvent::HttpReady(r)) => match r {
            Ok(_) => {
                let mut list: Vec<Notice> = Vec::new();
                list.push(Notice::Progress(Progress::Unknown));
                list.push(Notice::Stage(Stage::Drivers));
                assert(notices(list@) =~= expected.notices);
                go(UpdateState::Drivers, list, UpdateAction::EnsureDrivers)
            },
            Err(e) => fail(explain_error(e.as_str(), NO_HTTP, &NO_HTTP_STEPS)),
        },
        (UpdateState::Drivers, UpdateEvent::DriversReady(r)) => match r {
            Ok(_) => {
                let mut list: Vec<Notice> = Vec::new();
                list.push(Notice::Stage(Stage::Device));
                list.push(tell(SEARCHING_DEVICE));
                assert(notices(list@) =~= expected.notices);
                go(UpdateState::Finding, list, UpdateAction::FindDevice)
            },
            Err(f) => fail(f),
        },
        (UpdateState::Finding, UpdateEvent::DeviceFound(r)) => match r {
            Ok(_) => go(UpdateState::Probing, silence(), UpdateAction::ProbeDevice),
            Err(f) => fail(f),
        },
        (UpdateState::Probing, UpdateEvent::DeviceProbed(r)) => match r {
            Ok(device) => found_device(device),
            Err(f) => fail(f),
        },
        (UpdateState::Listing { device }, UpdateEvent::Listed(r)) => match r {
            Ok(source) => list_versions(device, source),
            Err(e) => fail(explain_list_error(e)),
        },
        (UpdateState::Downloading { device, version }, UpdateEvent::Downloaded(r)) => match r {
            Ok(_) => {
                let mut list: Vec<Notice> = Vec::new();
                list.push(Notice::Stage(Stage::Account));
                assert(notices(list@) =~= expected.notices);
                go(UpdateState::LoggingIn { device, version }, list, UpdateAction::LogIn)
            },
            Err(f) => fail(f),
        },
        (UpdateState::LoggingIn { device, version }, UpdateEvent::LoggedIn(r)) => match r {
            Ok((apple_id, password)) => {
                let mut list: Vec<Notice> = Vec::new();
                list.push(tell(OPENING_SESSION));
                list.push(Notice::Progress(Progress::Unknown));
                assert(notices(list@) =~= expected.notices);
                go(
                    UpdateState::OpeningSession { job: Job { device, version, apple_id }, password },
                    list,
                    UpdateAction::OpenSession,
                )
            },
            Err(f) => fail(f),
        },
        (UpdateState::OpeningSession { job, password }, UpdateEvent::SessionOpened(r)) => match r {
            Ok(_) => {
                let apple_id: String = job.apple_id.clone();
                go(
                    UpdateState::Saving { job },
                    silence(),
                    UpdateAction::SaveAccount { apple_id, password },
                )
            },
            Err(e) => fail(explain_error(e.as_str(), NO_SESSION, &NO_SESSION_STEPS)),
        },
        (UpdateState::Saving { job }, UpdateEvent::Saved) => go(
            UpdateState::ListingTeams { job },
            silence(),
            UpdateAction::ListTeams,
        ),
        (UpdateState::ListingTeams { job }, UpdateEvent::TeamsListed(r)) => match r {
            Ok(n) => if n == 0 {
                fail(Failure::new(WITHOUT_TEAM, &NO_SESSION_STEPS))
            } else {
                let mut list: Vec<Notice> = Vec::new();
                list.push(tell(REGISTERING));
                assert(notices(list@) =~= expected.notices);
                let name: String = job.device.name.clone();
                let udid: String = job.device.udid.clone();
                go(UpdateState::Registering { job }, list, UpdateAction::Register { name, udid })
            },
            Err(e) => fail(explain_error(e.as_str(), TEAMS_UNREADABLE, &TEAMS_UNREADABLE_STEPS)),
        },
        (UpdateState::Registering { job }, UpdateEvent::Registered(r)) => match r {
            Ok(_) => {
                let mut list: Vec<Notice> = Vec::new();
                list.push(Notice::Stage(Stage::Sign));
                list.push(tell(SIGNING));
                list.push(Notice::Progress(Progress::Ratio { done: 0, total: 1 }));
                assert(notices(list@) =~= expected.notices);
                let apple_id: String = job.apple_id.clone();
                go(UpdateState::Signing { job }, list, UpdateAction::Sign { apple_id })
            },
            Err(e) => fail(explain_error(e.as_str(), NOT_REGISTERED, &NOT_REGISTERED_STEPS)),
        },
        (UpdateState::Signing { job }, UpdateEvent::Signed(r)) => match r {
            Ok(_) => {
                let mut list: Vec<Notice> = Vec::new();
                list.push(Notice::Stage(Stage::Install));
                list.push(tell(TRANSFERRING));
                list.push(Notice::Progress(Progress::Ratio { done: 0, total: 1 }));
                assert(notices(list@) =~= expected.notices);
                go(UpdateState::Installing { job }, list, UpdateAction::Install)
            },
            Err(e) => fail(explain_error(e.as_str(), NOT_SIGNED, &NOT_SIGNED_STEPS)),
        },
        (UpdateState::Installing { job }, UpdateEvent::Installed(installed)) => go(
            UpdateState::Cleaning { job, installed },
            silence(),
            UpdateAction::RemoveSigned,
        ),
        (UpdateState::Cleaning { job, installed }, UpdateEvent::Removed) => match installed {
            Ok(_) => finish(job),
            Err(e) => fail(explain_error(e.as_str(), NOT_INSTALLED, &NOT_INSTALLED_STEPS)),
        },
        (state, _) => go(state, silence(), UpdateAction::Ignore),
    }
}

/// The turns of an installation.
pub open spec fn update_turns(events: Seq<UpdateEventView>) -> Seq<UpdateTurnView> {
    turns(|s: UpdateStateView, e: UpdateEventView| update_turn(s, e), UpdateStateView::Start, events)
}

/// The stages that a list of notices announces, in order.
pub open spec fn stages(told: Seq<NoticeView>) -> Seq<Stage>
    decreases told.len(),
{
    if told.len() == 0 {
        Seq::empty()
    } else {
        let before = stages(told.drop_last());
        match told.last() {
            NoticeView::Stage(s) => before.push(s),
            _ => before,
        }
    }
}

/// The stages that an installation announces, in order.
pub open spec fn announced(list: Seq<UpdateTurnView>) -> Seq<Stage>
    decreases list.len(),
{
    if list.len() == 0 {
        Seq::empty()
    } else {
        announced(list.drop_last()) + stages(list.last().notices)
    }
}

/// The stages in the order in which the window shows them.
pub open spec fn all_stages() -> Seq<Stage> {
    seq![
        Stage::Drivers,
        Stage::Device,
        Stage::Version,
        Stage::Download,
        Stage::Account,
        Stage::Sign,
        Stage::Install,
    ]
}

/// The number of the stage under way while an installation is in a state, counted from 1; 0
/// while the connection to the network is set up. Once the installation has ended, no stage
/// is under way.
pub open spec fn stage_under_way(state: UpdateStateView) -> int {
    match state {
        UpdateStateView::Start | UpdateStateView::Connecting => 0,
        UpdateStateView::Drivers => 1,
        UpdateStateView::Finding | UpdateStateView::Probing => 2,
        UpdateStateView::Listing { .. } => 3,
        UpdateStateView::Downloading { .. } => 4,
        UpdateStateView::LoggingIn { .. } | UpdateStateView::OpeningSession { .. } => 5,
        UpdateStateView::Saving { .. } | UpdateStateView::ListingTeams { .. } => 5,
        UpdateStateView::Registering { .. } => 5,
        UpdateStateView::Signing { .. } => 6,
        UpdateStateView::Installing { .. } | UpdateStateView::Cleaning { .. } => 7,
        UpdateStateView::Finished => 0,
    }
}

/// A turn announces the next stage, or none.
proof fn lemma_turn_announces(state: UpdateStateView, event: UpdateEventView)
    ensures
        ({
            let t = update_turn(state, event);
            let told = stages(t.notices);
            if t.state is Finished || stage_under_way(t.state) == stage_under_way(state) {
                told == Seq::<Stage>::empty()
            } else {
                &&& stage_under_way(t.state) == stage_under_way(state) + 1
                &&& told == seq![all_stages()[stage_under_way(state)]]
            }
        }),
{
    reveal_with_fuel(stages, 5);
    let t = update_turn(state, event);
    let n = t.notices;
    assert(n.len() <= 4);
    if n.len() >= 1 {
        assert(n.drop_last().len() == n.len() - 1);
    }
    if n.len() >= 2 {
        assert(n.drop_last().last() == n[n.len() - 2]);
    }
    if n.len() >= 3 {
        assert(n.drop_last().drop_last().last() == n[n.len() - 3]);
    }
    if n.len() >= 4 {
        assert(n.drop_last().drop_last().drop_last().last() == n[n.len() - 4]);
    }
    if !(t.state is Finished || stage_under_way(t.state) == stage_under_way(state)) {
        assert(stages(n) =~= seq![all_stages()[stage_under_way(state)]]);
    }
}

/// Some turn ends the installation well.
pub open spec fn ended_well(list: Seq<UpdateTurnView>) -> bool {
    exists|i: int|
        0 <= i < list.len() && ((#[trigger] list[i]).action matches UpdateActionView::Finish(Ok(_)))
}

/// The installation fails at the turn `i`.
pub open spec fn failed_at(list: Seq<UpdateTurnView>, i: int) -> bool {
    0 <= i < list.len() && (list[i].action matches UpdateActionView::Finish(Err(_)))
}

/// The state that the turn `i` was taken in.
pub open spec fn state_before(list: Seq<UpdateTurnView>, i: int) -> UpdateStateView {
    last_state(UpdateStateView::Start, list.take(i))
}

/// The stages are announced in the order of the window, each at most once and none left
/// out: whenever one looks, what was announced is a beginning of the whole list. It is the
/// whole list where the installation ended well. Where it failed, it ends with the stage that
/// was under way, whatever comes after, and is empty where the connection to the network
/// could not be set up.
pub proof fn law_stages_come_in_order(events: Seq<UpdateEventView>)
    ensures
        announced(update_turns(events)).is_prefix_of(all_stages()),
        ended_well(update_turns(events)) ==> announced(update_turns(events)) == all_stages(),
        forall|i: int| #[trigger]
            failed_at(update_turns(events), i) ==> announced(update_turns(events))
                == all_stages().take(stage_under_way(state_before(update_turns(events), i))),
{
    lemma_announced(events);
}

proof fn lemma_announced(events: Seq<UpdateEventView>)
    ensures
        ({
            let list = update_turns(events);
            let state = last_state(UpdateStateView::Start, list);
            &&& announced(list).len() <= 7
            &&& announced(list) == all_stages().take(announced(list).len() as int)
            &&& !(state is Finished) ==> announced(list).len() == stage_under_way(state)
            &&& ended_well(list) ==> state is Finished && announced(list).len() == 7
            &&& forall|i: int| #[trigger]
                failed_at(list, i) ==> state is Finished && announced(list) == all_stages().take(
                    stage_under_way(state_before(list, i)),
                )
        }),
    decreases events.len(),
{
    let list = update_turns(events);
    if events.len() == 0 {
        assert(announced(list) =~= all_stages().take(0));
    } else {
        lemma_announced(events.drop_last());
        let before = update_turns(events.drop_last());
        let state = last_state(UpdateStateView::Start, before);
        let t = update_turn(state, events.last());
        lemma_turn_announces(state, events.last());
        assert(list == before.push(t));
        assert(list.drop_last() =~= before);
        assert(announced(list) =~= all_stages().take(announced(list).len() as int));
        if ended_well(list) {
            let i = choose|i: int|
                0 <= i < list.len() && ((#[trigger] list[i]).action matches UpdateActionView::Finish(
                    Ok(_),
                ));
            if i < before.len() {
                assert(before[i] == list[i]);
                assert(ended_well(before));
            }
        }
        assert forall|i: int| #[trigger] failed_at(list, i) implies last_state(
            UpdateStateView::Start,
            list,
        ) is Finished && announced(list) == all_stages().take(
            stage_under_way(state_before(list, i)),
        ) by {
            if i < before.len() {
                assert(failed_at(before, i));
                assert(list.take(i) =~= before.take(i));
            } else {
                assert(list.take(i) =~= before);
            }
            assert(announced(list) =~= announced(before));
        }
    }
}

/// What an installation has learnt by the time it is in a state.
spec fn learnt(state: UpdateStateView, events: Seq<UpdateEventView>) -> bool {
    &&& state.device() matches Some(device) ==> events.contains(
        UpdateEventView::DeviceProbed(Ok(device)),
    )
    &&& state matches UpdateStateView::OpeningSession { job, password } ==> events.contains(
        UpdateEventView::LoggedIn(Ok((job.apple_id, password))),
    )
    &&& state.job() matches Some(job) ==> exists|password: Seq<char>| #[trigger] events.contains(
        UpdateEventView::LoggedIn(Ok((job.apple_id, password))),
    )
}

impl UpdateStateView {
    /// What the installation is working on, once the account is known.
    pub open spec fn job(self) -> Option<JobView> {
        match self {
            UpdateStateView::OpeningSession { job, .. } => Some(job),
            UpdateStateView::Saving { job } => Some(job),
            UpdateStateView::ListingTeams { job } => Some(job),
            UpdateStateView::Registering { job } => Some(job),
            UpdateStateView::Signing { job } => Some(job),
            UpdateStateView::Installing { job } => Some(job),
            UpdateStateView::Cleaning { job, .. } => Some(job),
            _ => None,
        }
    }

    /// The phone that the installation is for, once it is known.
    pub open spec fn device(self) -> Option<DeviceDetailsView> {
        match self {
            UpdateStateView::Listing { device } => Some(device),
            UpdateStateView::Downloading { device, .. } => Some(device),
            UpdateStateView::LoggingIn { device, .. } => Some(device),
            _ => match self.job() {
                Some(job) => Some(job.device),
                None => None,
            },
        }
    }
}

proof fn lemma_learnt(events: Seq<UpdateEventView>)
    ensures
        learnt(last_state(UpdateStateView::Start, update_turns(events)), events),
    decreases events.len(),
{
    if events.len() > 0 {
        let past = events.drop_last();
        lemma_learnt(past);
        let before = update_turns(past);
        let state = last_state(UpdateStateView::Start, before);
        let t = update_turn(state, events.last());
        assert(update_turns(events) == before.push(t));
        assert(events[events.len() - 1] == events.last());
        assert forall|e: UpdateEventView| #[trigger] past.contains(e) implies events.contains(e) by {
            let i = choose|i: int| 0 <= i < past.len() && past[i] == e;
            assert(events[i] == e);
        }
        if let Some(job) = state.job() {
            let password = choose|password: Seq<char>| #[trigger] past.contains(
                UpdateEventView::LoggedIn(Ok((job.apple_id, password))),
            );
            assert(events.contains(UpdateEventView::LoggedIn(Ok((job.apple_id, password)))));
        }
        if let UpdateStateView::OpeningSession { job, password } = t.state {
            assert(events.contains(UpdateEventView::LoggedIn(Ok((job.apple_id, password)))));
        }
    }
}

/// A phone was settled on, and was then found usable.
pub open spec fn phone_is_ready(events: Seq<UpdateEventView>) -> bool {
    exists|i: int, j: int|
        0 <= i < j < events.len() && (#[trigger] events[i] matches UpdateEventView::DeviceFound(
            Ok(_),
        )) && (#[trigger] events[j] matches UpdateEventView::DeviceProbed(Ok(_)))
}

/// The action asks the network for something, or does something with the account or the
/// phone that follows from it.
pub open spec fn goes_online(action: UpdateActionView) -> bool {
    ||| action is FetchSource
    ||| action is Download
    ||| action is LogIn
    ||| action is OpenSession
    ||| action is SaveAccount
    ||| action is ListTeams
    ||| action is Register
    ||| action is Sign
    ||| action is Install
}

/// The network is left alone, and nobody is asked for an account, before a phone was
/// settled on and then found usable.
pub proof fn law_phone_comes_first(events: Seq<UpdateEventView>, next: UpdateEventView)
    ensures
        goes_online(
            update_turn(last_state(UpdateStateView::Start, update_turns(events)), next).action,
        ) ==> phone_is_ready(events.push(next)),
{
    lemma_phone_ready(events);
    let state = last_state(UpdateStateView::Start, update_turns(events));
    lemma_phone_ready_grows(events, next);
    if goes_online(update_turn(state, next).action) && state is Probing {
        lemma_probed_now(events, next);
    }
}

/// Some phone was settled on.
spec fn phone_is_found(events: Seq<UpdateEventView>) -> bool {
    exists|i: int|
        0 <= i < events.len() && (#[trigger] events[i] matches UpdateEventView::DeviceFound(Ok(_)))
}

proof fn lemma_phone_ready_grows(events: Seq<UpdateEventView>, next: UpdateEventView)
    ensures
        phone_is_found(events) ==> phone_is_found(events.push(next)),
        phone_is_ready(events) ==> phone_is_ready(events.push(next)),
{
    let all = events.push(next);
    if phone_is_found(events) {
        let i = choose|i: int|
            0 <= i < events.len() && (#[trigger] events[i] matches UpdateEventView::DeviceFound(
                Ok(_),
            ));
        assert(all[i] == events[i]);
    }
    if phone_is_ready(events) {
        let (i, j) = choose|i: int, j: int|
            0 <= i < j < events.len() && (#[trigger] events[i] matches UpdateEventView::DeviceFound(
                Ok(_),
            )) && (#[trigger] events[j] matches UpdateEventView::DeviceProbed(Ok(_)));
        assert(all[i] == events[i] && all[j] == events[j]);
    }
}

proof fn lemma_probed_now(events: Seq<UpdateEventView>, next: UpdateEventView)
    requires
        phone_is_found(events),
        next matches UpdateEventView::DeviceProbed(Ok(_)),
    ensures
        phone_is_ready(events.push(next)),
{
    let all = events.push(next);
    let i = choose|i: int|
        0 <= i < events.len() && (#[trigger] events[i] matches UpdateEventView::DeviceFound(Ok(_)));
    assert(all[i] == events[i]);
    assert(all[events.len() as int] == next);
}

proof fn lemma_phone_ready(events: Seq<UpdateEventView>)
    ensures
        ({
            let state = last_state(UpdateStateView::Start, update_turns(events));
            &&& state is Probing ==> phone_is_found(events)
            &&& state.device() is Some ==> phone_is_ready(events)
        }),
    decreases events.len(),
{
    if events.len() > 0 {
        let past = events.drop_last();
        let next = events.last();
        lemma_phone_ready(past);
        let state = last_state(UpdateStateView::Start, update_turns(past));
        let t = update_turn(state, next);
        assert(update_turns(events) == update_turns(past).push(t));
        assert(past.push(next) =~= events);
        lemma_phone_ready_grows(past, next);
        assert(events[events.len() - 1] == next);
        if state is Probing && t.state.device() is Some {
            lemma_probed_now(past, next);
        }
    }
}

/// A password is remembered only when the developer session has opened, and it is the one
/// that the sign-in let in: what does not work is not remembered.
pub proof fn law_only_working_passwords_are_remembered(
    events: Seq<UpdateEventView>,
    next: UpdateEventView,
)
    ensures
        ({
            let state = last_state(UpdateStateView::Start, update_turns(events));
            update_turn(state, next).action matches UpdateActionView::SaveAccount {
                apple_id,
                password,
            } ==> {
                &&& next matches UpdateEventView::SessionOpened(Ok(_))
                &&& events.contains(UpdateEventView::LoggedIn(Ok((apple_id, password))))
            }
        }),
{
    lemma_learnt(events);
}

/// How many turns remember an account.
pub open spec fn saves(list: Seq<UpdateTurnView>) -> nat
    decreases list.len(),
{
    if list.len() == 0 {
        0
    } else {
        saves(list.drop_last()) + if list.last().action is SaveAccount {
            1nat
        } else {
            0
        }
    }
}

/// Whatever happens, an installation remembers an account once at most.
pub proof fn law_an_account_is_remembered_once(events: Seq<UpdateEventView>)
    ensures
        saves(update_turns(events)) <= 1,
{
    lemma_saves(events);
}

/// The account is yet to be remembered.
spec fn is_before_saving(state: UpdateStateView) -> bool {
    match state {
        UpdateStateView::Start | UpdateStateView::Connecting | UpdateStateView::Drivers => true,
        UpdateStateView::Finding | UpdateStateView::Probing => true,
        UpdateStateView::Listing { .. } | UpdateStateView::Downloading { .. } => true,
        UpdateStateView::LoggingIn { .. } | UpdateStateView::OpeningSession { .. } => true,
        _ => false,
    }
}

proof fn lemma_saves(events: Seq<UpdateEventView>)
    ensures
        saves(update_turns(events)) <= 1,
        is_before_saving(last_state(UpdateStateView::Start, update_turns(events))) ==> saves(
            update_turns(events),
        ) == 0,
    decreases events.len(),
{
    if events.len() > 0 {
        let past = events.drop_last();
        lemma_saves(past);
        let before = update_turns(past);
        let t = update_turn(last_state(UpdateStateView::Start, before), events.last());
        let list = update_turns(events);
        assert(list == before.push(t));
        assert(list.drop_last() =~= before);
    }
}

/// The phone that is registered is the one that was found usable, and the app is signed
/// for the account that was let in.
pub proof fn law_the_app_is_signed_for_the_account(
    events: Seq<UpdateEventView>,
    next: UpdateEventView,
)
    ensures
        ({
            let state = last_state(UpdateStateView::Start, update_turns(events));
            let action = update_turn(state, next).action;
            &&& action matches UpdateActionView::Register { name, udid } ==> exists|
                device: DeviceDetailsView,
            |
                #[trigger] events.contains(UpdateEventView::DeviceProbed(Ok(device))) && device.name
                    == name && device.udid == udid
            &&& action matches UpdateActionView::Sign { apple_id } ==> exists|password: Seq<char>|
                #[trigger] events.contains(UpdateEventView::LoggedIn(Ok((apple_id, password))))
        }),
{
    lemma_learnt(events);
    let state = last_state(UpdateStateView::Start, update_turns(events));
    let action = update_turn(state, next).action;
    if let UpdateActionView::Register { name, udid } = action {
        let device = state.device()->Some_0;
        assert(events.contains(UpdateEventView::DeviceProbed(Ok(device))));
        assert(device.name == name && device.udid == udid);
    }
    if let UpdateActionView::Sign { apple_id } = action {
        let job = state.job()->Some_0;
        let password = choose|password: Seq<char>| #[trigger] events.contains(
            UpdateEventView::LoggedIn(Ok((job.apple_id, password))),
        );
        assert(events.contains(UpdateEventView::LoggedIn(Ok((apple_id, password)))));
    }
}

/// However the installation on the phone went, the signed app is removed from the PC
/// first, and only then is the outcome told.
pub proof fn law_the_signed_app_is_always_removed(job: JobView, installed: Result<(), Seq<char>>)
    ensures
        ({
            let t = update_turn(
                UpdateStateView::Installing { job },
                UpdateEventView::Installed(installed),
            );
            let end = update_turn(t.state, UpdateEventView::Removed);
            &&& t.action is RemoveSigned
            &&& t.notices.len() == 0
            &&& end.state is Finished
            &&& end.action is Finish
            &&& (end.action->Finish_0 is Ok <==> installed is Ok)
        }),
        forall|event: UpdateEventView|
            #![trigger update_turn(UpdateStateView::Installing { job }, event)]
            !(update_turn(UpdateStateView::Installing { job }, event).action is Finish),
{
}

/// Once an installation has ended, nothing makes it go on.
pub proof fn law_the_end_is_the_end(event: UpdateEventView)
    ensures
        update_turn(UpdateStateView::Finished, event) == update_go(
            UpdateStateView::Finished,
            Seq::empty(),
            UpdateActionView::Ignore,
        ),
{
}

/// Whatever comes, the progress that the installation tells is between nothing and all of
/// it, or unknown.
pub proof fn law_update_progress_is_a_share(state: UpdateStateView, event: UpdateEventView)
    ensures
        tells_shares(update_turn(state, event).notices),
{
}

/// The turn ends the installation with a failure, and says nothing else.
pub open spec fn ends_with(t: UpdateTurnView, f: FailureView) -> bool {
    &&& t.state is Finished
    &&& t.notices.len() == 0
    &&& t.action == UpdateActionView::Finish(Err(f))
}

/// The event says that what was asked for has come off. A list without an app, a version or a
/// team is no such news.
pub open spec fn is_good_news(event: UpdateEventView) -> bool {
    match event {
        UpdateEventView::Begin | UpdateEventView::Saved | UpdateEventView::Removed => true,
        UpdateEventView::HttpReady(r) => r is Ok,
        UpdateEventView::DriversReady(r) => r is Ok,
        UpdateEventView::DeviceFound(r) => r is Ok,
        UpdateEventView::DeviceProbed(r) => r is Ok,
        UpdateEventView::Listed(r) => r matches Ok(source) && source.len() > 0 && source[0].len()
            > 0,
        UpdateEventView::Downloaded(r) => r is Ok,
        UpdateEventView::LoggedIn(r) => r is Ok,
        UpdateEventView::SessionOpened(r) => r is Ok,
        UpdateEventView::TeamsListed(r) => r matches Ok(n) && n > 0,
        UpdateEventView::Registered(r) => r is Ok,
        UpdateEventView::Signed(r) => r is Ok,
        UpdateEventView::Installed(r) => r is Ok,
    }
}

/// The event answers what was asked for in the state.
pub open spec fn is_awaited(state: UpdateStateView, event: UpdateEventView) -> bool {
    match state {
        UpdateStateView::Start => event is Begin,
        UpdateStateView::Connecting => event is HttpReady,
        UpdateStateView::Drivers => event is DriversReady,
        UpdateStateView::Finding => event is DeviceFound,
        UpdateStateView::Probing => event is DeviceProbed,
        UpdateStateView::Listing { .. } => event is Listed,
        UpdateStateView::Downloading { .. } => event is Downloaded,
        UpdateStateView::LoggingIn { .. } => event is LoggedIn,
        UpdateStateView::OpeningSession { .. } => event is SessionOpened,
        UpdateStateView::Saving { .. } => event is Saved,
        UpdateStateView::ListingTeams { .. } => event is TeamsListed,
        UpdateStateView::Registering { .. } => event is Registered,
        UpdateStateView::Signing { .. } => event is Signed,
        UpdateStateView::Installing { .. } => event is Installed,
        UpdateStateView::Cleaning { .. } => event is Removed,
        UpdateStateView::Finished => false,
    }
}

/// Good news never ends an installation badly: it fails only on bad news, or once the signed
/// app is removed after the phone refused it.
pub proof fn law_good_news_never_fails(state: UpdateStateView, event: UpdateEventView)
    requires
        is_good_news(event),
        !(state matches UpdateStateView::Cleaning { installed: Err(_), .. }),
    ensures
        !(update_turn(state, event).action matches UpdateActionView::Finish(Err(_))),
{
    if let UpdateEventView::Listed(Ok(source)) = event {
        law_only_empty_lists_are_refused(source);
    }
}

/// Bad news that was waited for always ends an installation, at once, and so does the removal
/// of the signed app.
pub proof fn law_bad_news_always_ends(state: UpdateStateView, event: UpdateEventView)
    requires
        is_awaited(state, event),
        !is_good_news(event) || state is Cleaning,
        !(state is Installing),
    ensures
        update_turn(state, event).state is Finished,
        update_turn(state, event).action is Finish,
        !is_good_news(event) ==> (update_turn(state, event).action matches UpdateActionView::Finish(
            Err(_),
        )),
{
    if let UpdateEventView::Listed(Ok(source)) = event {
        law_only_empty_lists_are_refused(source);
    }
}

/// An event that was not waited for changes nothing, says nothing and asks for nothing; one
/// that was waited for is never passed over.
pub proof fn law_only_awaited_events_count(state: UpdateStateView, event: UpdateEventView)
    ensures
        !is_awaited(state, event) ==> {
            &&& update_turn(state, event).state == state
            &&& update_turn(state, event).notices.len() == 0
            &&& update_turn(state, event).action is Ignore
        },
        is_awaited(state, event) ==> {
            &&& update_turn(state, event).state != state
            &&& !(update_turn(state, event).action is Ignore)
        },
{
    if let UpdateEventView::Listed(Ok(source)) = event {
        law_only_empty_lists_are_refused(source);
    }
}

/// The phone is registered, under its own name and identifier, exactly where the account has
/// a team, however many it has.
pub proof fn law_any_team_will_do(job: JobView, teams: usize)
    ensures
        ({
            let t = update_turn(
                UpdateStateView::ListingTeams { job },
                UpdateEventView::TeamsListed(Ok(teams)),
            );
            &&& teams > 0 <==> t.action == (UpdateActionView::Register {
                name: job.device.name,
                udid: job.device.udid,
            })
            &&& teams > 0 ==> t.state == (UpdateStateView::Registering { job }) && t.notices
                == seq![
                NoticeView::Status("Enregistrement de l'iPhone sur le compte Apple..."@),
            ]
            &&& teams == 0 ==> ends_with(
                t,
                FailureView::plain(
                    "Ce compte Apple n'a pas d'equipe de developpement"@,
                    texts(NO_SESSION_STEPS@),
                ),
            )
        }),
{
}

/// From the first event to the last, for every phone, list of versions, account and number of
/// teams: what an installation in which everything comes off asks for, tells, and ends with.
/// The version downloaded is the one that the list gives, the credentials that were let in
/// are the ones remembered, the phone that was checked is the one registered, and the words
/// at the end name the version, the phone and the account.
pub proof fn law_an_installation_comes_off(
    device: DeviceDetailsView,
    source: Seq<Seq<VersionView>>,
    apple_id: Seq<char>,
    password: Seq<char>,
    teams: usize,
)
    requires
        source.len() > 0,
        source[0].len() > 0,
        teams > 0,
    ensures
        ({
            let t0 = update_turn(UpdateStateView::Start, UpdateEventView::Begin);
            let t1 = update_turn(t0.state, UpdateEventView::HttpReady(Ok(())));
            let t2 = update_turn(t1.state, UpdateEventView::DriversReady(Ok(())));
            let t3 = update_turn(t2.state, UpdateEventView::DeviceFound(Ok(())));
            let t4 = update_turn(t3.state, UpdateEventView::DeviceProbed(Ok(device)));
            let t5 = update_turn(t4.state, UpdateEventView::Listed(Ok(source)));
            let version = version_to_install(source)->Ok_0;
            let t6 = update_turn(t5.state, UpdateEventView::Downloaded(Ok(())));
            let t7 = update_turn(t6.state, UpdateEventView::LoggedIn(Ok((apple_id, password))));
            let t8 = update_turn(t7.state, UpdateEventView::SessionOpened(Ok(())));
            let t9 = update_turn(t8.state, UpdateEventView::Saved);
            let t10 = update_turn(t9.state, UpdateEventView::TeamsListed(Ok(teams)));
            let t11 = update_turn(t10.state, UpdateEventView::Registered(Ok(())));
            let t12 = update_turn(t11.state, UpdateEventView::Signed(Ok(())));
            let t13 = update_turn(t12.state, UpdateEventView::Installed(Ok(())));
            let t14 = update_turn(t13.state, UpdateEventView::Removed);
            &&& t0.action is BuildHttp && t0.notices.len() == 0
            &&& t1.action is EnsureDrivers && t1.notices == seq![
                NoticeView::Progress(Progress::Unknown),
                NoticeView::Stage(Stage::Drivers),
            ]
            &&& t2.action is FindDevice && t2.notices == seq![
                NoticeView::Stage(Stage::Device),
                NoticeView::Status("Recherche de l'iPhone..."@),
            ]
            &&& t3.action is ProbeDevice && t3.notices.len() == 0
            &&& t4.action is FetchSource && t4.notices == seq![
                NoticeView::Status(device.name + " detecte (iOS "@ + device.ios_version + ")"@),
                NoticeView::Device { name: device.name, ios: device.ios_version },
                NoticeView::Stage(Stage::Version),
                NoticeView::Status("Recherche de la derniere version..."@),
            ]
            &&& version_to_install(source) is Ok
            &&& t5.action == UpdateActionView::Download(version) && t5.notices == seq![
                NoticeView::Stage(Stage::Download),
            ]
            &&& t6.action is LogIn && t6.notices == seq![NoticeView::Stage(Stage::Account)]
            &&& t7.action is OpenSession && t7.notices == seq![
                NoticeView::Status("Ouverture de la session developpeur Apple..."@),
                NoticeView::Progress(Progress::Unknown),
            ]
            &&& t8.action == (UpdateActionView::SaveAccount { apple_id, password })
                && t8.notices.len() == 0
            &&& t9.action is ListTeams && t9.notices.len() == 0
            &&& t10.action == (UpdateActionView::Register { name: device.name, udid: device.udid })
            &&& t10.notices == seq![
                NoticeView::Status("Enregistrement de l'iPhone sur le compte Apple..."@),
            ]
            &&& t11.action == (UpdateActionView::Sign { apple_id })
            &&& t11.notices == seq![
                NoticeView::Stage(Stage::Sign),
                NoticeView::Status("Signature de l'app..."@),
                NoticeView::Progress(Progress::Ratio { done: 0, total: 1 }),
            ]
            &&& t12.action is Install && t12.notices == seq![
                NoticeView::Stage(Stage::Install),
                NoticeView::Status("Transfert vers l'iPhone..."@),
                NoticeView::Progress(Progress::Ratio { done: 0, total: 1 }),
            ]
            &&& t13.action is RemoveSigned && t13.notices.len() == 0
            &&& t14.action matches UpdateActionView::Finish(Ok(_))
            &&& t14.state is Finished
            &&& t14.notices == seq![
                NoticeView::Progress(Progress::Ratio { done: 1, total: 1 }),
                NoticeView::Done {
                    title: "TwitNinf "@ + version.version + " installe sur "@ + device.name,
                    steps: steps_left(apple_id, device.ios_major),
                },
            ]
        }),
{
    law_only_empty_lists_are_refused(source);
}

/// What is left to do names the account, and speaks of the developer mode to those whose
/// phone has one.
pub proof fn law_the_steps_left(apple_id: Seq<char>, ios_major: nat)
    ensures
        ({
            let steps = steps_left(apple_id, ios_major);
            &&& steps.len() == (if ios_major >= 16 { 5int } else { 4 })
            &&& steps[0] == "Sur l'iPhone : Reglages > General > VPN et gestion de l'appareil."@
            &&& steps[1] == "Ouvre le profil au nom de "@ + apple_id
                + ", puis touche « Faire confiance »."@
            &&& steps[2] == "TwitNinf peut alors etre ouvert depuis l'ecran d'accueil."@
            &&& ios_major >= 16 ==> steps[3] == NEXT_DEVELOPER_MODE@
            &&& steps.last()
                == "Avec un compte Apple gratuit, l'app doit etre reinstallee tous les 7 jours."@
        }),
{
}

/// A failure that one of the exchanges ended with is the failure of the installation, as it
/// is.
pub proof fn law_failures_are_passed_on(
    device: DeviceDetailsView,
    version: Seq<char>,
    f: FailureView,
)
    ensures
        ends_with(
            update_turn(UpdateStateView::Drivers, UpdateEventView::DriversReady(Err(f))),
            f,
        ),
        ends_with(update_turn(UpdateStateView::Finding, UpdateEventView::DeviceFound(Err(f))), f),
        ends_with(update_turn(UpdateStateView::Probing, UpdateEventView::DeviceProbed(Err(f))), f),
        ends_with(
            update_turn(UpdateStateView::Listing { device }, UpdateEventView::Listed(Err(f))),
            f,
        ),
        ends_with(
            update_turn(
                UpdateStateView::Downloading { device, version },
                UpdateEventView::Downloaded(Err(f)),
            ),
            f,
        ),
        ends_with(
            update_turn(
                UpdateStateView::LoggingIn { device, version },
                UpdateEventView::LoggedIn(Err(f)),
            ),
            f,
        ),
{
}

/// A technical error ends the installation in the words of its step, or of the trouble that
/// it gives away.
pub proof fn law_errors_are_explained_by_their_step(
    job: JobView,
    password: Seq<char>,
    e: Seq<char>,
)
    ensures
        ends_with(
            update_turn(UpdateStateView::Connecting, UpdateEventView::HttpReady(Err(e))),
            explained(
                e,
                "Impossible d'initialiser la connexion reseau"@,
                texts(NO_HTTP_STEPS@),
            ),
        ),
        ends_with(
            update_turn(
                UpdateStateView::OpeningSession { job, password },
                UpdateEventView::SessionOpened(Err(e)),
            ),
            explained(
                e,
                "Impossible d'ouvrir la session developpeur Apple"@,
                texts(NO_SESSION_STEPS@),
            ),
        ),
        ends_with(
            update_turn(
                UpdateStateView::ListingTeams { job },
                UpdateEventView::TeamsListed(Err(e)),
            ),
            explained(
                e,
                "Impossible de lire les equipes du compte Apple"@,
                texts(TEAMS_UNREADABLE_STEPS@),
            ),
        ),
        ends_with(
            update_turn(UpdateStateView::Registering { job }, UpdateEventView::Registered(Err(e))),
            explained(
                e,
                "Impossible d'enregistrer l'iPhone sur le compte Apple"@,
                texts(NOT_REGISTERED_STEPS@),
            ),
        ),
        ends_with(
            update_turn(UpdateStateView::Signing { job }, UpdateEventView::Signed(Err(e))),
            explained(e, "La signature de l'app a echoue"@, texts(NOT_SIGNED_STEPS@)),
        ),
        ends_with(
            update_turn(
                update_turn(
                    UpdateStateView::Installing { job },
                    UpdateEventView::Installed(Err(e)),
                ).state,
                UpdateEventView::Removed,
            ),
            explained(e, "L'installation sur l'iPhone a echoue"@, texts(NOT_INSTALLED_STEPS@)),
        ),
{
}

/// A list of versions with nothing to install ends the installation with the reason.
pub proof fn law_empty_lists_end_the_installation(
    device: DeviceDetailsView,
    source: Seq<Seq<VersionView>>,
)
    requires
        source.len() == 0 || source[0].len() == 0,
    ensures
        ends_with(
            update_turn(UpdateStateView::Listing { device }, UpdateEventView::Listed(Ok(source))),
            version_to_install(source)->Err_0,
        ),
{
    law_only_empty_lists_are_refused(source);
}

/// The three ways in which the list of versions cannot be had, each in words of its own.
pub proof fn law_why_there_is_no_list(e: String)
    ensures
        list_failure(ListError::Request(RequestError::Unreachable(e))) == explained(
            e@,
            "Impossible de joindre le serveur de mise a jour"@,
            texts(SOURCE_UNREACHABLE_STEPS@),
        ),
        list_failure(ListError::Request(RequestError::Refused(e))) == explained(
            e@,
            "Le serveur de mise a jour a refuse la demande"@,
            texts(SOURCE_REFUSED_STEPS@),
        ),
        list_failure(ListError::Unreadable(e)) == explained(
            e@,
            "La liste des versions est illisible"@,
            texts(SOURCE_UNREADABLE_STEPS@),
        ),
{
}

/// Events are seen with all that they hold.
pub proof fn law_update_events_are_seen_whole(
    done: Result<(), String>,
    ended: Result<(), Failure>,
    probed: Result<DeviceDetails, Failure>,
    source: AltStoreSource,
    e: ListError,
    apple_id: String,
    password: String,
    f: Failure,
    teams: Result<usize, String>,
)
    ensures
        UpdateEvent::Begin@ is Begin,
        UpdateEvent::HttpReady(done)@ == UpdateEventView::HttpReady(text_result(done)),
        UpdateEvent::DriversReady(ended)@ == UpdateEventView::DriversReady(outcome(ended)),
        UpdateEvent::DeviceFound(ended)@ == UpdateEventView::DeviceFound(outcome(ended)),
        UpdateEvent::DeviceProbed(probed)@ == UpdateEventView::DeviceProbed(
            details_outcome(probed),
        ),
        UpdateEvent::Listed(Ok(source))@ == UpdateEventView::Listed(Ok(source@)),
        UpdateEvent::Listed(Err(e))@ == UpdateEventView::Listed(Err(list_failure(e))),
        UpdateEvent::Downloaded(ended)@ == UpdateEventView::Downloaded(outcome(ended)),
        UpdateEvent::LoggedIn(Ok((apple_id, password)))@ == UpdateEventView::LoggedIn(
            Ok((apple_id@, password@)),
        ),
        UpdateEvent::LoggedIn(Err(f))@ == UpdateEventView::LoggedIn(Err(f@)),
        UpdateEvent::SessionOpened(done)@ == UpdateEventView::SessionOpened(text_result(done)),
        UpdateEvent::Saved@ is Saved,
        UpdateEvent::TeamsListed(teams)@ == UpdateEventView::TeamsListed(text_result(teams)),
        UpdateEvent::Registered(done)@ == UpdateEventView::Registered(text_result(done)),
        UpdateEvent::Signed(done)@ == UpdateEventView::Signed(text_result(done)),
        UpdateEvent::Installed(done)@ == UpdateEventView::Installed(text_result(done)),
        UpdateEvent::Removed@ is Removed,
{
}

/// Actions and turns are seen with all that they hold.
pub proof fn law_update_actions_are_seen_whole(
    action: UpdateAction,
    t: Turn<UpdateState, UpdateAction>,
)
    ensures
        match action {
            UpdateAction::BuildHttp => action@ is BuildHttp,
            UpdateAction::EnsureDrivers => action@ is EnsureDrivers,
            UpdateAction::FindDevice => action@ is FindDevice,
            UpdateAction::ProbeDevice => action@ is ProbeDevice,
            UpdateAction::FetchSource => action@ is FetchSource,
            UpdateAction::Download(v) => action@ == UpdateActionView::Download(v@),
            UpdateAction::LogIn => action@ is LogIn,
            UpdateAction::OpenSession => action@ is OpenSession,
            UpdateAction::SaveAccount { apple_id, password } => action@ == (
            UpdateActionView::SaveAccount { apple_id: apple_id@, password: password@ }),
            UpdateAction::ListTeams => action@ is ListTeams,
            UpdateAction::Register { name, udid } => action@ == (UpdateActionView::Register {
                name: name@,
                udid: udid@,
            }),
            UpdateAction::Sign { apple_id } => action@ == (UpdateActionView::Sign {
                apple_id: apple_id@,
            }),
            UpdateAction::Install => action@ is Install,
            UpdateAction::RemoveSigned => action@ is RemoveSigned,
            UpdateAction::Finish(r) => action@ == UpdateActionView::Finish(outcome(r)),
            UpdateAction::Ignore => action@ is Ignore,
        },
        t@.state == t.state@,
        t@.notices == notices(t.notices@),
        t@.action == t.action@,
{
}

} // verus!
