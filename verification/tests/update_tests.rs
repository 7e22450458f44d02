use twitninf_updater::download::RequestError;
use twitninf_updater::failure::Failure;
use twitninf_updater::notice::{Notice, Progress, Stage};
use twitninf_updater::probe::DeviceDetails;
use twitninf_updater::source::{AltStoreApp, AltStoreSource, AltStoreVersion};
use twitninf_updater::turn::Turn;
use twitninf_updater::update::{
    next_steps, run_update, Job, ListError, UpdateAction, UpdateEvent, UpdateState, MACHINE_NAME,
    USER_AGENT,
};

fn phone() -> DeviceDetails {
    DeviceDetails {
        name: "Mon iPhone".to_string(),
        udid: "UDID".to_string(),
        ios_version: "17.1".to_string(),
        ios_major: 17,
    }
}

fn job() -> Job {
    Job { device: phone(), version: "2.0".to_string(), apple_id: "a@x".to_string() }
}

fn source() -> AltStoreSource {
    let version = |v: &str, b: &str| AltStoreVersion {
        version: v.to_string(),
        build_version: b.to_string(),
        download_url: format!("https://x/{v}"),
    };
    AltStoreSource {
        apps: vec![AltStoreApp { versions: vec![version("2.0", "20"), version("1.0", "3")] }],
    }
}

fn failure(t: Turn<UpdateState, UpdateAction>) -> Failure {
    assert!(t.notices.is_empty());
    assert!(matches!(t.state, UpdateState::Finished));
    match t.action {
        UpdateAction::Finish(Err(f)) => f,
        _ => panic!("no failure"),
    }
}

/// The notices of a turn, each in one line.
fn told(t: &Turn<UpdateState, UpdateAction>) -> Vec<String> {
    t.notices
        .iter()
        .map(|n| match n {
            Notice::Stage(s) => format!("stage {}", s.id()),
            Notice::Status(s) => format!("status {s}"),
            Notice::Progress(Progress::Unknown) => "progress".to_string(),
            Notice::Progress(Progress::Ratio { done, total }) => format!("progress {done}/{total}"),
            Notice::Received { done, total } => format!("received {done}/{total}"),
            Notice::Device { name, ios } => format!("device {name} {ios}"),
            Notice::Done { title, steps } => format!("done {title} {}", steps.len()),
        })
        .collect()
}

fn lines(list: &[&str]) -> Vec<String> {
    list.iter().map(|s| s.to_string()).collect()
}

#[test]
fn an_installation_goes_through_its_stages() {
    let mut stages: Vec<Stage> = Vec::new();
    let mut note = |t: &Turn<UpdateState, UpdateAction>| {
        for n in &t.notices {
            if let Notice::Stage(s) = n {
                stages.push(*s);
            }
        }
    };
    let t = run_update(UpdateState::Start, UpdateEvent::Begin);
    assert!(matches!(t.action, UpdateAction::BuildHttp));
    assert!(t.notices.is_empty());
    let t = run_update(t.state, UpdateEvent::HttpReady(Ok(())));
    note(&t);
    assert_eq!(told(&t), lines(&["progress", "stage drivers"]));
    assert!(matches!(t.action, UpdateAction::EnsureDrivers));
    let t = run_update(t.state, UpdateEvent::DriversReady(Ok(())));
    note(&t);
    assert_eq!(told(&t), lines(&["stage device", "status Recherche de l'iPhone..."]));
    assert!(matches!(t.action, UpdateAction::FindDevice));
    let t = run_update(t.state, UpdateEvent::DeviceFound(Ok(())));
    note(&t);
    assert!(t.notices.is_empty());
    assert!(matches!(t.action, UpdateAction::ProbeDevice));
    let t = run_update(t.state, UpdateEvent::DeviceProbed(Ok(phone())));
    note(&t);
    assert_eq!(
        told(&t),
        lines(&[
            "status Mon iPhone detecte (iOS 17.1)",
            "device Mon iPhone 17.1",
            "stage version",
            "status Recherche de la derniere version...",
        ])
    );
    assert!(matches!(t.action, UpdateAction::FetchSource));
    let t = run_update(t.state, UpdateEvent::Listed(Ok(source())));
    note(&t);
    assert_eq!(told(&t), lines(&["stage download"]));
    assert!(matches!(&t.action, UpdateAction::Download(v) if v.download_url == "https://x/2.0"));
    let t = run_update(t.state, UpdateEvent::Downloaded(Ok(())));
    note(&t);
    assert_eq!(told(&t), lines(&["stage account"]));
    assert!(matches!(t.action, UpdateAction::LogIn));
    let t = run_update(
        t.state,
        UpdateEvent::LoggedIn(Ok(("a@x".to_string(), "pw".to_string()))),
    );
    note(&t);
    assert_eq!(
        told(&t),
        lines(&["status Ouverture de la session developpeur Apple...", "progress"])
    );
    assert!(matches!(t.action, UpdateAction::OpenSession));
    let t = run_update(t.state, UpdateEvent::SessionOpened(Ok(())));
    note(&t);
    assert!(t.notices.is_empty());
    assert!(matches!(
        &t.action,
        UpdateAction::SaveAccount { apple_id, password } if apple_id == "a@x" && password == "pw"
    ));
    let t = run_update(t.state, UpdateEvent::Saved);
    note(&t);
    assert!(matches!(t.action, UpdateAction::ListTeams));
    let t = run_update(t.state, UpdateEvent::TeamsListed(Ok(2)));
    note(&t);
    assert_eq!(told(&t), lines(&["status Enregistrement de l'iPhone sur le compte Apple..."]));
    assert!(matches!(
        &t.action,
        UpdateAction::Register { name, udid } if name == "Mon iPhone" && udid == "UDID"
    ));
    let t = run_update(t.state, UpdateEvent::Registered(Ok(())));
    note(&t);
    assert_eq!(told(&t), lines(&["stage sign", "status Signature de l'app...", "progress 0/1"]));
    assert!(matches!(&t.action, UpdateAction::Sign { apple_id } if apple_id == "a@x"));
    let t = run_update(t.state, UpdateEvent::Signed(Ok(())));
    note(&t);
    assert_eq!(
        told(&t),
        lines(&["stage install", "status Transfert vers l'iPhone...", "progress 0/1"])
    );
    assert!(matches!(t.action, UpdateAction::Install));
    let t = run_update(t.state, UpdateEvent::Installed(Ok(())));
    note(&t);
    assert!(t.notices.is_empty());
    assert!(matches!(t.action, UpdateAction::RemoveSigned));
    let t = run_update(t.state, UpdateEvent::Removed);
    note(&t);
    assert_eq!(
        told(&t),
        lines(&["progress 1/1", "done TwitNinf 2.0 installe sur Mon iPhone 5"])
    );
    assert!(matches!(t.action, UpdateAction::Finish(Ok(()))));
    assert!(matches!(t.state, UpdateState::Finished));
    assert_eq!(
        stages,
        vec![
            Stage::Drivers,
            Stage::Device,
            Stage::Version,
            Stage::Download,
            Stage::Account,
            Stage::Sign,
            Stage::Install,
        ]
    );
}

#[test]
fn the_steps_left_depend_on_the_version_of_ios() {
    let old = next_steps("a@x", 15);
    assert_eq!(
        old,
        lines(&[
            "Sur l'iPhone : Reglages > General > VPN et gestion de l'appareil.",
            "Ouvre le profil au nom de a@x, puis touche « Faire confiance ».",
            "TwitNinf peut alors etre ouvert depuis l'ecran d'accueil.",
            "Avec un compte Apple gratuit, l'app doit etre reinstallee tous les 7 jours.",
        ])
    );
    let new = next_steps("a@x", 16);
    assert_eq!(new.len(), 5);
    assert_eq!(new[..3], old[..3]);
    assert_eq!(
        new[3],
        "Si l'app refuse de s'ouvrir : Reglages > Confidentialite et securite > Mode developpeur, active-le et redemarre l'iPhone."
    );
    assert_eq!(new[4], old[3]);
    assert_eq!(next_steps("a@x", 0).len(), 4);
    assert_eq!((USER_AGENT, MACHINE_NAME), ("KospInjection/1.0", "twitninf-updater"));
}

#[test]
fn failures_of_the_exchanges_are_passed_on() {
    let panne = || Failure::new("Panne", &["un"]).with_detail("d");
    let device = phone;
    let v = || "2.0".to_string();
    for (state, event) in vec![
        (UpdateState::Drivers, UpdateEvent::DriversReady(Err(panne()))),
        (UpdateState::Finding, UpdateEvent::DeviceFound(Err(panne()))),
        (UpdateState::Probing, UpdateEvent::DeviceProbed(Err(panne()))),
        (
            UpdateState::Downloading { device: device(), version: v() },
            UpdateEvent::Downloaded(Err(panne())),
        ),
        (
            UpdateState::LoggingIn { device: device(), version: v() },
            UpdateEvent::LoggedIn(Err(panne())),
        ),
    ] {
        let f = failure(run_update(state, event));
        assert_eq!(f.title, "Panne");
        assert_eq!(f.detail, Some("d".to_string()));
    }
}

#[test]
fn technical_errors_are_explained() {
    let odd = || "odd".to_string();
    let cases: Vec<(UpdateState, UpdateEvent, &str, usize)> = vec![
        (
            UpdateState::Connecting,
            UpdateEvent::HttpReady(Err(odd())),
            "Impossible d'initialiser la connexion reseau",
            1,
        ),
        (
            UpdateState::Listing { device: phone() },
            UpdateEvent::Listed(Err(ListError::Request(RequestError::Unreachable(odd())))),
            "Impossible de joindre le serveur de mise a jour",
            3,
        ),
        (
            UpdateState::Listing { device: phone() },
            UpdateEvent::Listed(Err(ListError::Request(RequestError::Refused(odd())))),
            "Le serveur de mise a jour a refuse la demande",
            1,
        ),
        (
            UpdateState::Listing { device: phone() },
            UpdateEvent::Listed(Err(ListError::Unreadable(odd()))),
            "La liste des versions est illisible",
            1,
        ),
        (
            UpdateState::OpeningSession { job: job(), password: "pw".to_string() },
            UpdateEvent::SessionOpened(Err(odd())),
            "Impossible d'ouvrir la session developpeur Apple",
            2,
        ),
        (
            UpdateState::ListingTeams { job: job() },
            UpdateEvent::TeamsListed(Err(odd())),
            "Impossible de lire les equipes du compte Apple",
            2,
        ),
        (
            UpdateState::Registering { job: job() },
            UpdateEvent::Registered(Err(odd())),
            "Impossible d'enregistrer l'iPhone sur le compte Apple",
            2,
        ),
        (
            UpdateState::Signing { job: job() },
            UpdateEvent::Signed(Err(odd())),
            "La signature de l'app a echoue",
            2,
        ),
        (
            UpdateState::Cleaning { job: job(), installed: Err(odd()) },
            UpdateEvent::Removed,
            "L'installation sur l'iPhone a echoue",
            3,
        ),
    ];
    for (state, event, title, steps) in cases {
        let f = failure(run_update(state, event));
        assert_eq!(f.title, title);
        assert_eq!(f.steps.len(), steps);
        assert_eq!(f.detail, Some(odd()));
    }
}

#[test]
fn known_troubles_are_named_during_the_installation() {
    let f = failure(run_update(
        UpdateState::Signing { job: job() },
        UpdateEvent::Signed(Err("Maximum number of certificates reached".to_string())),
    ));
    assert_eq!(f.title, "Trop de certificats sur ce compte Apple");
    let f = failure(run_update(
        UpdateState::Cleaning {
            job: job(),
            installed: Err("ApplicationVerificationFailed".to_string()),
        },
        UpdateEvent::Removed,
    ));
    assert_eq!(f.title, "L'iPhone a refuse la signature de l'app");
}

#[test]
fn an_account_without_a_team_is_a_failure() {
    let f = failure(run_update(
        UpdateState::ListingTeams { job: job() },
        UpdateEvent::TeamsListed(Ok(0)),
    ));
    assert_eq!(f.title, "Ce compte Apple n'a pas d'equipe de developpement");
    assert_eq!(f.steps.len(), 2);
    assert_eq!(f.detail, None);
}

#[test]
fn an_empty_list_of_versions_is_a_failure() {
    let f = failure(run_update(
        UpdateState::Listing { device: phone() },
        UpdateEvent::Listed(Ok(AltStoreSource { apps: vec![] })),
    ));
    assert_eq!(f.title, "Aucune app publiee");
}

#[test]
fn the_signed_app_is_removed_after_a_failure_too() {
    let t = run_update(
        UpdateState::Installing { job: job() },
        UpdateEvent::Installed(Err("odd".to_string())),
    );
    assert!(matches!(t.action, UpdateAction::RemoveSigned));
    let f = failure(run_update(t.state, UpdateEvent::Removed));
    assert_eq!(f.title, "L'installation sur l'iPhone a echoue");
}

#[test]
fn a_refused_session_remembers_nothing() {
    let t = run_update(
        UpdateState::OpeningSession { job: job(), password: "pw".to_string() },
        UpdateEvent::SessionOpened(Err("odd".to_string())),
    );
    assert!(!matches!(t.action, UpdateAction::SaveAccount { .. }));
    let t = run_update(t.state, UpdateEvent::SessionOpened(Ok(())));
    assert!(matches!(t.action, UpdateAction::Ignore));
}

#[test]
fn events_out_of_turn_install_nothing() {
    let t = run_update(UpdateState::Finding, UpdateEvent::Signed(Ok(())));
    assert!(matches!(t.action, UpdateAction::Ignore));
    assert!(t.notices.is_empty());
    assert!(matches!(t.state, UpdateState::Finding));
    let t = run_update(UpdateState::Finished, UpdateEvent::Begin);
    assert!(matches!(t.action, UpdateAction::Ignore));
    assert!(matches!(t.state, UpdateState::Finished));
}

/// The stages announced by an installation up to a failure, by the events that lead to it.
fn stages_until_failure(events: Vec<UpdateEvent>) -> Vec<Stage> {
    let mut stages = Vec::new();
    let mut state = UpdateState::Start;
    let mut failed = false;
    for event in events {
        let t = run_update(state, event);
        for n in &t.notices {
            if let Notice::Stage(s) = n {
                stages.push(*s);
            }
        }
        failed = matches!(t.action, UpdateAction::Finish(Err(_)));
        state = t.state;
    }
    assert!(failed);
    stages
}

#[test]
fn a_failure_ends_in_its_stage() {
    let odd = || "odd".to_string();
    assert_eq!(
        stages_until_failure(vec![UpdateEvent::Begin, UpdateEvent::HttpReady(Err(odd()))]),
        vec![]
    );
    assert_eq!(
        stages_until_failure(vec![
            UpdateEvent::Begin,
            UpdateEvent::HttpReady(Ok(())),
            UpdateEvent::DriversReady(Ok(())),
            UpdateEvent::DeviceFound(Ok(())),
            UpdateEvent::DeviceProbed(Ok(phone())),
            UpdateEvent::Listed(Err(ListError::Unreadable(odd()))),
        ]),
        vec![Stage::Drivers, Stage::Device, Stage::Version]
    );
}

#[test]
fn nothing_goes_online_before_the_phone_is_ready() {
    let t = run_update(UpdateState::Finding, UpdateEvent::DeviceProbed(Ok(phone())));
    assert!(matches!(t.action, UpdateAction::Ignore));
    let t = run_update(UpdateState::Probing, UpdateEvent::DeviceFound(Ok(())));
    assert!(matches!(t.action, UpdateAction::Ignore));
    let t = run_update(t.state, UpdateEvent::DeviceProbed(Ok(phone())));
    assert!(matches!(t.action, UpdateAction::FetchSource));
}

#[test]
fn an_account_is_remembered_once() {
    let t = run_update(
        UpdateState::OpeningSession { job: job(), password: "pw".to_string() },
        UpdateEvent::SessionOpened(Ok(())),
    );
    assert!(matches!(t.action, UpdateAction::SaveAccount { .. }));
    let t = run_update(t.state, UpdateEvent::SessionOpened(Ok(())));
    assert!(matches!(t.action, UpdateAction::Ignore));
    let t = run_update(t.state, UpdateEvent::Saved);
    assert!(matches!(t.action, UpdateAction::ListTeams));
    let t = run_update(t.state, UpdateEvent::SessionOpened(Ok(())));
    assert!(matches!(t.action, UpdateAction::Ignore));
}
