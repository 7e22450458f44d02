use twitninf_updater::device::{
    find_device, AttachedDevice, FindAction, FindEvent, FindState,
};
use twitninf_updater::notice::Notice;
use twitninf_updater::probe::{
    ios_major, probe_device, DeviceValue, ProbeAction, ProbeEvent, ProbeState, DEVICE_TIMEOUT,
};
use twitninf_updater::turn::Turn;

fn device(udid: &str, usb: bool) -> AttachedDevice {
    AttachedDevice { udid: udid.to_string(), usb }
}

fn listed(seen: Vec<AttachedDevice>) -> Turn<FindState, FindAction> {
    let t = find_device(FindState::Start, FindEvent::Begin);
    assert!(matches!(t.action, FindAction::Call));
    let t = find_device(t.state, FindEvent::Called(Ok(())));
    assert!(matches!(t.action, FindAction::List));
    find_device(t.state, FindEvent::Listed(Ok(seen)))
}

fn failure_title(action: FindAction) -> String {
    match action {
        FindAction::Finish(Err(f)) => f.title,
        _ => panic!("no failure"),
    }
}

#[test]
fn a_silent_service_is_a_failure() {
    let t = find_device(FindState::Calling, FindEvent::Called(Err("odd".to_string())));
    match t.action {
        FindAction::Finish(Err(f)) => {
            assert_eq!(f.title, "Le service Apple ne repond plus");
            assert_eq!(f.steps.len(), 2);
            assert_eq!(f.detail, Some("odd".to_string()));
        }
        _ => panic!("no failure"),
    }
    let t = find_device(FindState::Listing, FindEvent::Listed(Err("odd".to_string())));
    assert_eq!(failure_title(t.action), "Impossible de lister les appareils Apple");
}

#[test]
fn no_device_is_a_failure() {
    match listed(vec![]).action {
        FindAction::Finish(Err(f)) => {
            assert_eq!(f.title, "Aucun iPhone n'est branche en USB");
            assert_eq!(f.steps.len(), 6);
        }
        _ => panic!("no failure"),
    }
}

#[test]
fn a_device_on_wifi_only_is_a_failure() {
    let t = listed(vec![device("00008101-1", false)]);
    assert_eq!(failure_title(t.action), "L'iPhone est vu en Wi-Fi, pas en USB");
}

#[test]
fn the_only_usb_device_is_taken() {
    let t = listed(vec![device("wifi", false), device("usb", true)]);
    assert!(matches!(t.action, FindAction::Finish(Ok(1))));
    assert!(matches!(t.state, FindState::Finished));
}

#[test]
fn a_phone_seen_twice_is_used_by_usb() {
    let t = listed(vec![device("same", false), device("same", true)]);
    assert!(matches!(t.action, FindAction::Finish(Ok(1))));
    let t = listed(vec![device("same", true), device("same", false)]);
    assert!(matches!(t.action, FindAction::Finish(Ok(0))));
}

#[test]
fn a_picked_phone_is_used_by_usb() {
    let seen = || vec![device("b", false), device("a", true), device("b", true)];
    let t = listed(seen());
    let t = find_device(t.state, FindEvent::Chosen(Some("b".to_string())));
    assert!(matches!(t.action, FindAction::Finish(Ok(2))));
    let state = FindState::Choosing { seen: vec![device("a", true), device("w", false)] };
    let t = find_device(state, FindEvent::Chosen(Some("w".to_string())));
    assert_eq!(failure_title(t.action), "L'iPhone choisi n'est plus branche");
}

#[test]
fn several_usb_devices_are_offered() {
    let t = listed(vec![
        device("00008101-000A1234ABCD001E", true),
        device("wifi", false),
        device("court", true),
    ]);
    match &t.action {
        FindAction::Ask(options) => {
            assert_eq!(options.len(), 2);
            assert_eq!(options[0].name, "Appareil ...ABCD001E");
            assert_eq!(options[0].udid, "00008101-000A1234ABCD001E");
            assert!(options[0].usb);
            assert_eq!(options[1].name, "Appareil ...court");
            assert_eq!(options[1].udid, "court");
        }
        _ => panic!("no question"),
    }
    let t = find_device(t.state, FindEvent::Chosen(Some("court".to_string())));
    assert!(matches!(t.action, FindAction::Finish(Ok(2))));
}

#[test]
fn a_choice_that_was_not_seen_is_a_failure() {
    let t = listed(vec![device("a", true), device("b", true)]);
    let t = find_device(t.state, FindEvent::Chosen(Some("c".to_string())));
    assert_eq!(failure_title(t.action), "L'iPhone choisi n'est plus branche");
}

#[test]
fn a_closed_choice_of_device_is_a_cancellation() {
    let t = listed(vec![device("a", true), device("b", true)]);
    let t = find_device(t.state, FindEvent::Chosen(None));
    assert!(matches!(
        t.action,
        FindAction::Finish(Err(f)) if f.cancelled && f.title == "Choix de l'appareil annule"
    ));
}

#[test]
fn labels_are_cut_between_characters() {
    assert!(device("", true).can_be_labelled());
    assert!(device("0123456789", true).can_be_labelled());
    assert!(device("é1234567", true).can_be_labelled() == false);
    assert!(device("é12345678", true).can_be_labelled());
    assert!(device("é123456", true).can_be_labelled());
}

#[test]
fn events_out_of_turn_find_no_device() {
    let t = find_device(FindState::Start, FindEvent::Chosen(None));
    assert!(matches!(t.action, FindAction::Ignore));
    assert!(matches!(t.state, FindState::Start));
}

#[test]
fn the_major_version_is_the_number_before_the_dot() {
    assert_eq!(ios_major("17.4.1"), 17);
    assert_eq!(ios_major("9"), 9);
    assert_eq!(ios_major("+16.0"), 16);
    assert_eq!(ios_major("016.0"), 16);
    assert_eq!(ios_major("inconnue"), 0);
    assert_eq!(ios_major(""), 0);
    assert_eq!(ios_major(".5"), 0);
    assert_eq!(ios_major("-1.5"), 0);
    assert_eq!(ios_major(" 16.1"), 0);
    assert_eq!(ios_major("+.1"), 0);
    assert_eq!(ios_major("4294967295.1"), 4294967295);
    assert_eq!(ios_major("4294967296.1"), 0);
    assert_eq!(ios_major("99999999999999999999.1"), 0);
}

fn connected() -> Turn<ProbeState, ProbeAction> {
    let t = probe_device(ProbeState::Start, ProbeEvent::Begin);
    assert!(matches!(t.action, ProbeAction::Connect));
    assert!(matches!(&t.notices[0], Notice::Status(s) if s == "Verification de l'iPhone..."));
    probe_device(t.state, ProbeEvent::Connected(Ok(())))
}

fn probe_failure(t: Turn<ProbeState, ProbeAction>) -> (String, usize) {
    match t.action {
        ProbeAction::Finish(Err(f)) => (f.title, f.steps.len()),
        _ => panic!("no failure"),
    }
}

#[test]
fn a_usable_phone_is_described() {
    let t = connected();
    assert!(matches!(t.action, ProbeAction::Get(DeviceValue::ProductVersion)));
    let t = probe_device(t.state, ProbeEvent::Value(Some("16.7".to_string())));
    assert!(matches!(t.action, ProbeAction::Pair));
    let t = probe_device(t.state, ProbeEvent::Paired(Ok(())));
    assert!(matches!(t.action, ProbeAction::Open));
    let t = probe_device(t.state, ProbeEvent::Opened(Ok(())));
    assert!(matches!(t.action, ProbeAction::Get(DeviceValue::DeviceName)));
    let t = probe_device(t.state, ProbeEvent::Value(Some("Mon iPhone".to_string())));
    assert!(matches!(t.action, ProbeAction::Get(DeviceValue::UniqueDeviceId)));
    let t = probe_device(t.state, ProbeEvent::Value(Some("UDID".to_string())));
    match t.action {
        ProbeAction::Finish(Ok(d)) => {
            assert_eq!(d.name, "Mon iPhone");
            assert_eq!(d.udid, "UDID");
            assert_eq!(d.ios_version, "16.7");
            assert_eq!(d.ios_major, 16);
        }
        _ => panic!("not usable"),
    }
}

#[test]
fn missing_values_have_stand_ins() {
    let t = probe_device(connected().state, ProbeEvent::Value(None));
    let t = probe_device(t.state, ProbeEvent::Paired(Ok(())));
    let t = probe_device(t.state, ProbeEvent::Opened(Ok(())));
    let t = probe_device(t.state, ProbeEvent::Value(None));
    let t = probe_device(t.state, ProbeEvent::Value(Some("U".to_string())));
    match t.action {
        ProbeAction::Finish(Ok(d)) => {
            assert_eq!(d.name, "iPhone");
            assert_eq!(d.ios_version, "inconnue");
            assert_eq!(d.ios_major, 0);
        }
        _ => panic!("not usable"),
    }
}

#[test]
fn each_step_of_the_probe_can_fail() {
    let odd = || Err("odd".to_string());
    let v = || "16".to_string();
    let t = probe_device(ProbeState::Connecting, ProbeEvent::Connected(odd()));
    assert_eq!(probe_failure(t), ("Impossible de dialoguer avec l'iPhone".to_string(), 3));
    let t = probe_device(ProbeState::Pairing { version: v() }, ProbeEvent::Paired(odd()));
    assert_eq!(probe_failure(t), ("L'iPhone n'autorise pas encore ce PC".to_string(), 4));
    let t = probe_device(ProbeState::Opening { version: v() }, ProbeEvent::Opened(odd()));
    assert_eq!(probe_failure(t), ("L'iPhone refuse la session".to_string(), 3));
    let t = probe_device(
        ProbeState::ReadingIdentifier { version: v(), name: v() },
        ProbeEvent::Value(None),
    );
    assert_eq!(probe_failure(t), ("L'iPhone n'a pas renvoye son identifiant".to_string(), 1));
}

#[test]
fn time_up_ends_the_probe_anywhere() {
    assert_eq!(DEVICE_TIMEOUT, 25);
    let v = || "16".to_string();
    for state in vec![
        ProbeState::Connecting,
        ProbeState::ReadingVersion,
        ProbeState::Pairing { version: v() },
        ProbeState::Opening { version: v() },
        ProbeState::ReadingName { version: v() },
        ProbeState::ReadingIdentifier { version: v(), name: v() },
    ] {
        let t = probe_device(state, ProbeEvent::TimedOut);
        assert_eq!(probe_failure(t), ("L'iPhone ne repond pas".to_string(), 3));
    }
    let t = probe_device(ProbeState::Finished, ProbeEvent::TimedOut);
    assert!(matches!(t.action, ProbeAction::Ignore));
    let t = probe_device(ProbeState::Start, ProbeEvent::TimedOut);
    assert!(matches!(t.action, ProbeAction::Ignore));
}

#[test]
fn values_have_their_keys() {
    assert_eq!(DeviceValue::ProductVersion.key(), "ProductVersion");
    assert_eq!(DeviceValue::DeviceName.key(), "DeviceName");
    assert_eq!(DeviceValue::UniqueDeviceId.key(), "UniqueDeviceID");
}

#[test]
fn a_phone_that_was_not_reached_is_not_asked() {
    let t = probe_device(ProbeState::Connecting, ProbeEvent::Paired(Ok(())));
    assert!(matches!(t.action, ProbeAction::Ignore));
    let t = probe_device(t.state, ProbeEvent::Value(Some("16".to_string())));
    assert!(matches!(t.action, ProbeAction::Ignore));
    assert!(matches!(t.state, ProbeState::Connecting));
}
