use twitninf_updater::download::{
    download_ipa, receiving_text, starts_with_zip_magic, DownloadAction, DownloadEvent,
    DownloadState, Received, RequestError, CONNECT_TIMEOUT, IPA_FILE, READ_TIMEOUT,
};
use twitninf_updater::failure::Failure;
use twitninf_updater::notice::{Notice, Progress};
use twitninf_updater::source::{
    pick_version, AltStoreApp, AltStoreSource, AltStoreVersion, SOURCE_URL,
};
use twitninf_updater::turn::Turn;

fn version(version: &str, build: &str) -> AltStoreVersion {
    AltStoreVersion {
        version: version.to_string(),
        build_version: build.to_string(),
        download_url: format!("https://x/{version}.ipa"),
    }
}

fn source(builds: &[&str]) -> AltStoreSource {
    let versions = builds
        .iter()
        .enumerate()
        .map(|(i, b)| version(&format!("v{i}"), b))
        .collect();
    AltStoreSource { apps: vec![AltStoreApp { versions }] }
}

fn picked(builds: &[&str]) -> String {
    pick_version(&source(builds)).expect("a version").version
}

#[test]
fn the_greatest_build_is_picked() {
    assert_eq!(picked(&["3", "20", "10"]), "v1");
    assert_eq!(picked(&["9", "10"]), "v1");
    assert_eq!(picked(&["7"]), "v0");
    let v = pick_version(&source(&["1", "5", "2"])).expect("a version");
    assert_eq!(v.build_version, "5");
    assert_eq!(v.download_url, "https://x/v1.ipa");
}

#[test]
fn among_equal_builds_the_last_is_picked() {
    assert_eq!(picked(&["5", "5", "1"]), "v1");
    assert_eq!(picked(&["a", "b", ""]), "v2");
}

#[test]
fn a_build_that_is_no_number_counts_as_zero() {
    assert_eq!(picked(&["1", "2.0", "x"]), "v0");
    assert_eq!(picked(&["1", "+2"]), "v1");
    assert_eq!(picked(&["1", "-2"]), "v0");
    assert_eq!(picked(&["1", " 2"]), "v0");
    assert_eq!(picked(&["1", "+"]), "v0");
    assert_eq!(picked(&["1", "0002"]), "v1");
    assert_eq!(picked(&["18446744073709551614", "18446744073709551615"]), "v1");
    assert_eq!(picked(&["1", "18446744073709551616"]), "v0");
    assert_eq!(picked(&["1", "٣"]), "v0");
}

#[test]
fn only_the_first_app_counts() {
    let mut s = source(&["1"]);
    s.apps.push(AltStoreApp { versions: vec![version("other", "99")] });
    assert_eq!(pick_version(&s).expect("a version").version, "v0");
}

#[test]
fn an_empty_source_is_a_failure() {
    let f = pick_version(&AltStoreSource { apps: vec![] }).expect_err("nothing");
    assert_eq!(f.title, "Aucune app publiee");
    let f = pick_version(&source(&[])).expect_err("nothing");
    assert_eq!(f.title, "Aucune version publiee");
    assert!(SOURCE_URL.ends_with("/raw/apps.json"));
}

fn asked() -> Turn<DownloadState, DownloadAction> {
    download_ipa(DownloadState::Start, DownloadEvent::Begin(version("1.2", "34")))
}

fn reading(total: Option<u64>) -> DownloadState {
    let t = download_ipa(asked().state, DownloadEvent::Answered(Ok(total)));
    assert!(matches!(t.action, DownloadAction::Open));
    let t = download_ipa(t.state, DownloadEvent::Opened(Ok(())));
    assert!(matches!(t.action, DownloadAction::Read));
    t.state
}

fn piece(state: DownloadState, len: u64) -> Turn<DownloadState, DownloadAction> {
    let t = download_ipa(state, DownloadEvent::Piece(Ok(Some(len))));
    assert!(matches!(t.action, DownloadAction::Write));
    download_ipa(t.state, DownloadEvent::Written(Ok(())))
}

fn end(state: DownloadState) -> Turn<DownloadState, DownloadAction> {
    download_ipa(state, DownloadEvent::Piece(Ok(None)))
}

fn failure(t: Turn<DownloadState, DownloadAction>) -> Failure {
    match t.action {
        DownloadAction::Finish(Err(f)) => f,
        _ => panic!("no failure"),
    }
}

#[test]
fn a_download_begins_with_its_version() {
    let t = asked();
    assert!(matches!(
        &t.notices[0],
        Notice::Status(s) if s == "Telechargement de la version 1.2 (build 34)..."
    ));
    assert!(matches!(t.notices[1], Notice::Progress(Progress::Ratio { done: 0, total: 1 })));
    assert_eq!(t.notices.len(), 2);
    assert!(matches!(&t.action, DownloadAction::Get { url } if url == "https://x/1.2.ipa"));
    assert_eq!(IPA_FILE, "TwitNinf-latest.ipa");
    assert_eq!((CONNECT_TIMEOUT, READ_TIMEOUT), (20, 90));
}

#[test]
fn a_whole_download_ends_well() {
    let t = piece(reading(Some(10000)), 4000);
    assert!(matches!(t.notices[0], Notice::Progress(Progress::Ratio { done: 4000, total: 10000 })));
    assert!(matches!(t.notices[1], Notice::Received { done: 4000, total: 10000 }));
    let t = piece(t.state, 50);
    assert!(t.notices.is_empty());
    let t = piece(t.state, 50);
    assert!(matches!(t.notices[1], Notice::Received { done: 4100, total: 10000 }));
    let t = piece(t.state, 5900);
    assert!(matches!(t.notices[1], Notice::Received { done: 10000, total: 10000 }));
    let t = end(t.state);
    assert!(matches!(t.action, DownloadAction::ReadHead));
    let t = download_ipa(t.state, DownloadEvent::Head(Some((b'P', b'K'))));
    assert!(matches!(t.action, DownloadAction::Finish(Ok(()))));
}

#[test]
fn the_first_percentage_is_shown_even_when_it_is_zero() {
    let t = piece(reading(Some(1_000_000)), 1);
    assert!(matches!(t.notices[1], Notice::Received { done: 1, total: 1_000_000 }));
    assert!(piece(t.state, 1).notices.is_empty());
}

#[test]
fn progress_is_never_more_than_whole() {
    let t = piece(reading(Some(100)), 105);
    assert!(matches!(t.notices[0], Notice::Progress(Progress::Ratio { done: 100, total: 100 })));
    assert!(matches!(t.notices[1], Notice::Received { done: 105, total: 100 }));
    let t = piece(t.state, 95);
    assert!(matches!(t.notices[0], Notice::Progress(Progress::Ratio { done: 100, total: 100 })));
    assert!(matches!(t.notices[1], Notice::Received { done: 200, total: 100 }));
}

#[test]
fn without_a_length_no_progress_is_shown() {
    for total in [None, Some(0)] {
        let t = piece(reading(total), 5000);
        assert!(t.notices.is_empty());
        let t = end(t.state);
        assert!(matches!(t.action, DownloadAction::ReadHead));
    }
}

#[test]
fn a_download_of_another_length_is_incomplete() {
    let f = failure(end(piece(reading(Some(10000)), 9999).state));
    assert_eq!(f.title, "Le telechargement est incomplet");
    assert_eq!(f.detail, Some("9999 octets recus sur 10000 attendus".to_string()));
    let f = failure(end(piece(reading(Some(5)), 4096).state));
    assert_eq!(f.detail, Some("4096 octets recus sur 5 attendus".to_string()));
    let f = failure(end(reading(Some(18446744073709551615))));
    assert_eq!(f.detail, Some("0 octets recus sur 18446744073709551615 attendus".to_string()));
}

#[test]
fn what_is_no_app_is_refused() {
    let title = "Le fichier telecharge n'est pas une app valide";
    let f = failure(end(piece(reading(None), 4095).state));
    assert_eq!(f.title, title);
    assert_eq!(f.steps.len(), 2);
    assert_eq!(f.detail, None);
    let t = end(piece(reading(Some(4096)), 4096).state);
    assert!(matches!(t.action, DownloadAction::ReadHead));
    let f = failure(download_ipa(t.state, DownloadEvent::Head(Some((b'<', b'h')))));
    assert_eq!(f.title, title);
    let t = end(piece(reading(None), 4096).state);
    let f = failure(download_ipa(t.state, DownloadEvent::Head(None)));
    assert_eq!(f.title, title);
}

#[test]
fn an_archive_begins_with_two_letters() {
    assert!(starts_with_zip_magic(Some((0x50, 0x4b))));
    assert!(!starts_with_zip_magic(Some((0x4b, 0x50))));
    assert!(!starts_with_zip_magic(Some((0x50, 0x50))));
    assert!(!starts_with_zip_magic(None));
}

#[test]
fn each_step_of_the_download_can_fail() {
    let odd = || "odd".to_string();
    let f = failure(download_ipa(
        DownloadState::Asking,
        DownloadEvent::Answered(Err(RequestError::Unreachable(odd()))),
    ));
    assert_eq!(f.title, "Le telechargement de l'app n'a pas demarre");
    let f = failure(download_ipa(
        DownloadState::Asking,
        DownloadEvent::Answered(Err(RequestError::Refused(odd()))),
    ));
    assert_eq!(f.title, "Le fichier de l'app est introuvable sur le serveur");
    let got = Received { total: None, bytes: 0, shown: None };
    let f = failure(download_ipa(DownloadState::Opening(got), DownloadEvent::Opened(Err(odd()))));
    assert_eq!(f.title, "Impossible d'ecrire le fichier temporaire");
    let f = failure(download_ipa(DownloadState::Reading(got), DownloadEvent::Piece(Err(odd()))));
    assert_eq!(f.title, "Le telechargement a ete interrompu");
    let f = failure(download_ipa(
        DownloadState::Writing(got, 5),
        DownloadEvent::Written(Err(odd())),
    ));
    assert_eq!(f.title, "Ecriture du telechargement impossible");
    assert_eq!(f.detail, Some("odd".to_string()));
}

#[test]
fn the_counter_knows_its_room() {
    let got = Received { total: Some(1), bytes: u64::MAX / 100, shown: None };
    assert!(got.has_room(0));
    assert!(!got.has_room(1));
    let got = Received { total: None, bytes: u64::MAX - 1, shown: None };
    assert!(got.has_room(1));
    assert!(!got.has_room(2));
    let got = Received { total: Some(0), bytes: u64::MAX - 1, shown: None };
    assert!(got.has_room(1));
    assert!(!got.has_room(2));
}

#[test]
fn the_progress_text_has_both_sizes() {
    assert_eq!(
        receiving_text("1.2", "3.4", "30.0"),
        "Telechargement de la version 1.2 — 3.4 / 30.0 Mo"
    );
}

#[test]
fn events_out_of_turn_download_nothing() {
    let t = download_ipa(DownloadState::Asking, DownloadEvent::Head(None));
    assert!(matches!(t.action, DownloadAction::Ignore));
    assert_eq!(t.state, DownloadState::Asking);
}
