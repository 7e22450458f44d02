use std::sync::{Arc, Mutex};
use twitninf_updater::certificates::{cert_choice, cert_options, Certificate};
use twitninf_updater::failure::Failure;
use twitninf_updater::meter::Meter;
use twitninf_updater::notice::{Notice, Progress, Stage};
use twitninf_updater::pending::{lock, update_outcome, PendingInputs};
use twitninf_updater::trouble::Trouble;
use twitninf_updater::two_factor::{
    explain_refusal, submit_2fa, wait_2fa, TrustedNumber, TwoFactorAnswer, TwoFactorRequest, CODE_CANCELLED,
};

fn request(last_error: Option<&str>) -> TwoFactorRequest {
    TwoFactorRequest {
        last_error: last_error.map(|e| e.to_string()),
        unknown: true,
        sms: false,
        numbers: vec![
            TrustedNumber {
                id: 7,
                number_with_dial_code: String::new(),
                last_two_digits: "42".to_string(),
            },
            TrustedNumber {
                id: 9,
                number_with_dial_code: "+33 ••••• 13".to_string(),
                last_two_digits: "13".to_string(),
            },
        ],
    }
}

#[test]
fn numbers_are_labelled() {
    let p = wait_2fa(&request(None));
    assert!(p.unknown);
    assert!(!p.sms);
    assert_eq!(p.error, None);
    assert_eq!(p.numbers.len(), 2);
    assert_eq!((p.numbers[0].id, p.numbers[0].label.as_str()), (7, "Numero se terminant par 42"));
    assert_eq!((p.numbers[1].id, p.numbers[1].label.as_str()), (9, "+33 ••••• 13"));
}

#[test]
fn a_refused_code_is_explained() {
    let p = wait_2fa(&request(Some("-21669 - Incorrect verification code.")));
    assert_eq!(p.error, Some("Code de verification incorrect".to_string()));
    let p = wait_2fa(&request(Some("whatever")));
    assert_eq!(p.error, Some("Le code precedent n'a pas ete accepte.".to_string()));
    assert_eq!(explain_refusal(None), "Le code precedent n'a pas ete accepte.");
    assert_eq!(explain_refusal(Some(Trouble::SessionExpired)), "La session Apple a expire");
    assert_eq!(CODE_CANCELLED, "saisie du code de verification annulee");
}

fn answer(action: &str, code: Option<&str>, id: Option<u32>) -> TwoFactorAnswer {
    submit_2fa(action.to_string(), code.map(|c| c.to_string()), id)
}

#[test]
fn answers_to_the_second_factor_are_read() {
    assert!(matches!(answer("resend", Some("1"), Some(2)), TwoFactorAnswer::ResendCode));
    assert!(matches!(answer("devices", Some("1"), Some(2)), TwoFactorAnswer::SendToDevices));
    assert!(matches!(answer("sms", Some("1"), Some(2)), TwoFactorAnswer::SendSms(2)));
    assert!(matches!(answer("sms", Some("1"), None), TwoFactorAnswer::SendToDevices));
    assert!(matches!(
        answer("code", Some("123456"), None),
        TwoFactorAnswer::SubmitCode(c) if c == "123456"
    ));
    assert!(matches!(answer("code", None, Some(2)), TwoFactorAnswer::SubmitCode(c) if c.is_empty()));
    assert!(matches!(
        answer("Resend", Some("9"), None),
        TwoFactorAnswer::SubmitCode(c) if c == "9"
    ));
}

#[test]
fn certificates_have_stand_ins() {
    let some = |s: &str| Some(s.to_string());
    let options = cert_options(&vec![
        Certificate { name: some("n"), machine_name: some("m"), serial_number: some("s") },
        Certificate { name: None, machine_name: None, serial_number: None },
    ]);
    assert_eq!(options.len(), 2);
    assert_eq!(
        (options[0].name.as_str(), options[0].machine.as_str(), options[0].serial.as_str()),
        ("n", "m", "s")
    );
    assert_eq!(
        (options[1].name.as_str(), options[1].machine.as_str(), options[1].serial.as_str()),
        ("<sans nom>", "<machine inconnue>", "")
    );
}

#[test]
fn no_certificate_picked_is_no_choice() {
    assert_eq!(cert_choice(None), None);
    assert_eq!(cert_choice(Some(vec![])), None);
    assert_eq!(cert_choice(Some(vec!["s".to_string()])), Some(vec!["s".to_string()]));
}

#[test]
fn a_percentage_is_told_once() {
    let mut m = Meter::new();
    assert!(m.moved(0));
    assert!(!m.moved(0));
    assert!(m.moved(1));
    assert!(m.moved(0));
}

#[test]
fn a_transfer_is_told_by_percent() {
    let mut m = Meter::new();
    let n = m.transfer(69);
    assert_eq!(n.len(), 1);
    assert!(matches!(n[0], Notice::Progress(Progress::Ratio { done: 69, total: 100 })));
    assert!(m.transfer(69).is_empty());
    let n = m.transfer(70);
    assert_eq!(n.len(), 2);
    assert!(matches!(n[0], Notice::Progress(Progress::Ratio { done: 70, total: 100 })));
    assert!(matches!(&n[1], Notice::Status(s) if s == "Installation sur l'iPhone..."));
    let n = m.transfer(u64::MAX);
    assert!(matches!(n[0], Notice::Progress(Progress::Ratio { done: 100, total: 100 })));
    assert!(m.transfer(100).is_empty());
}

#[test]
fn a_transfer_is_never_more_than_whole() {
    for percent in [0, 50, 99, 100, 101, u64::MAX] {
        for n in Meter::new().transfer(percent) {
            if let Notice::Progress(Progress::Ratio { done, total }) = n {
                assert!(0 < total && done <= total);
            }
        }
    }
}

#[test]
fn stages_have_their_identifiers() {
    let ids: Vec<&str> = [
        Stage::Drivers,
        Stage::Device,
        Stage::Version,
        Stage::Download,
        Stage::Account,
        Stage::Sign,
        Stage::Install,
    ]
    .iter()
    .map(|s| s.id())
    .collect();
    assert_eq!(
        ids,
        vec!["drivers", "device", "version", "download", "account", "sign", "install"]
    );
}

type Inputs = PendingInputs<u8, u8, u8, u8, u8, u8, u8>;

#[test]
fn one_installation_runs_at_a_time() {
    let mut p = Inputs::new();
    assert!(p.start_update(1).is_ok());
    let f = p.start_update(2).expect_err("running");
    assert_eq!(f.title, "Une installation est deja en cours");
    assert_eq!(f.steps.len(), 1);
    assert!(!f.cancelled);
    assert_eq!(p.submit_cancel().cancel_tx, Some(1));
    assert!(p.running);
    p.finish_update();
    assert!(p.start_update(3).is_ok());
    assert_eq!(p.submit_cancel().cancel_tx, Some(3));
}

#[test]
fn a_cancellation_hands_every_channel_back() {
    let mut p = Inputs::new();
    assert!(p.start_update(0).is_ok());
    p.ask_device(2);
    p.ask_certs(6);
    let was = p.submit_cancel();
    assert!(was.running);
    assert_eq!((was.cancel_tx, was.device_tx, was.certs_tx), (Some(0), Some(2), Some(6)));
    assert_eq!((was.confirm_tx, was.account_tx), (None, None));
    assert_eq!((was.credentials_tx, was.twofa_tx), (None, None));
    assert!(p.running);
    assert_eq!(p.submit_device(), None);
    assert_eq!(p.submit_cert_choice(), None);
}

#[test]
fn an_answer_is_taken_once() {
    let mut p = Inputs::new();
    p.ask_confirm(1);
    p.ask_device(2);
    p.ask_account(3);
    p.ask_credentials(4);
    p.ask_2fa(5);
    p.ask_certs(6);
    assert_eq!(p.submit_confirm(), Some(1));
    assert_eq!(p.submit_confirm(), None);
    assert_eq!(p.submit_device(), Some(2));
    assert_eq!(p.submit_device(), None);
    assert_eq!(p.submit_account_choice(), Some(3));
    assert_eq!(p.submit_account_choice(), None);
    assert_eq!(p.submit_credentials(), Some(4));
    assert_eq!(p.submit_credentials(), None);
    assert_eq!(p.submit_2fa(), Some(5));
    assert_eq!(p.submit_2fa(), None);
    assert_eq!(p.submit_cert_choice(), Some(6));
    assert_eq!(p.submit_cert_choice(), None);
    p.ask_device(7);
    p.ask_device(8);
    assert_eq!(p.submit_device(), Some(8));
}

#[test]
fn late_answers_find_no_question() {
    for cancel in [true, false] {
        let mut p = Inputs::new();
        assert!(p.start_update(0).is_ok());
        p.ask_confirm(1);
        p.ask_device(2);
        p.ask_account(3);
        p.ask_credentials(4);
        p.ask_2fa(5);
        p.ask_certs(6);
        if cancel {
            assert_eq!(p.submit_cancel().cancel_tx, Some(0));
        } else {
            p.finish_update();
        }
        assert_eq!(p.submit_confirm(), None);
        assert_eq!(p.submit_device(), None);
        assert_eq!(p.submit_account_choice(), None);
        assert_eq!(p.submit_credentials(), None);
        assert_eq!(p.submit_2fa(), None);
        assert_eq!(p.submit_cert_choice(), None);
        assert_eq!(p.submit_cancel().cancel_tx, None);
        assert_eq!(p.running, cancel);
    }
}

#[test]
fn a_cancelled_installation_is_no_failure() {
    assert!(update_outcome(Some(Ok(()))).is_ok());
    let f = update_outcome(Some(Err(Failure::new("Panne", &[])))).expect_err("failure");
    assert_eq!(f.title, "Panne");
    let f = update_outcome(None).expect_err("cancelled");
    assert_eq!(f.title, "Installation annulee");
    assert!(f.cancelled);
}

#[test]
fn a_lock_gives_access_even_when_poisoned() {
    let m = Arc::new(Mutex::new(5));
    *lock(&m) += 1;
    assert_eq!(*lock(&m), 6);
    let held = m.clone();
    let runtime = tokio::runtime::Builder::new_current_thread().build().expect("runtime");
    let task = runtime.spawn_blocking(move || {
        let _guard = lock(&held);
        panic!("while the lock is held");
    });
    assert!(runtime.block_on(task).is_err());
    assert!(m.is_poisoned());
    assert_eq!(*lock(&m), 6);
}
