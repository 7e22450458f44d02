use twitninf_updater::accounts::{save_account, KeyringChange};
use twitninf_updater::failure::Failure;
use twitninf_updater::login::{
    choose_saved_account, login_flow, try_login, AccountChoice, LoginAction, LoginError,
    LoginEvent, LoginState, MAX_LOGIN_ATTEMPTS,
};
use twitninf_updater::notice::{Notice, Progress};

fn refused() -> Failure {
    try_login(Err(LoginError::Refused("-20101".to_string()))).expect_err("refused")
}

fn start() -> LoginState {
    let t = login_flow(LoginState::Start, LoginEvent::Begin);
    assert!(matches!(t.action, LoginAction::ReadAccounts));
    assert!(t.notices.is_empty());
    t.state
}

#[test]
fn a_refusal_is_retried() {
    let f = refused();
    assert_eq!(f.title, "Identifiant ou mot de passe Apple incorrect");
    assert!(f.retry_credentials);
    let f = try_login(Err(LoginError::Refused("strange".to_string()))).expect_err("refused");
    assert_eq!(f.title, "Connexion au compte Apple impossible");
    assert_eq!(f.steps.len(), 3);
    assert_eq!(f.detail, Some("strange".to_string()));
    assert!(f.retry_credentials);
    let f = try_login(Err(LoginError::Refused("account is locked".to_string())))
        .expect_err("refused");
    assert_eq!(f.title, "Le compte Apple est bloque");
    assert!(f.retry_credentials);
    assert!(try_login(Ok(())).is_ok());
}

#[test]
fn a_service_that_is_down_is_not_retried() {
    let f = try_login(Err(LoginError::Anisette("strange".to_string()))).expect_err("down");
    assert_eq!(f.title, "Le service d'authentification Apple est injoignable");
    assert_eq!(f.steps.len(), 2);
    assert!(!f.retry_credentials);
}

#[test]
fn accounts_are_chosen_by_their_number() {
    assert!(matches!(choose_saved_account(vec![]), AccountChoice::New));
    assert!(matches!(
        choose_saved_account(vec!["a".to_string()]),
        AccountChoice::Known(a) if a == "a"
    ));
    assert!(matches!(
        choose_saved_account(vec!["a".to_string(), "b".to_string()]),
        AccountChoice::Ask(l) if l == vec!["a".to_string(), "b".to_string()]
    ));
}

#[test]
fn without_accounts_credentials_are_asked_for() {
    let t = login_flow(start(), LoginEvent::Accounts(Ok(None)));
    assert!(matches!(t.action, LoginAction::AskCredentials { prefill: None, note: None }));
    let t = login_flow(
        t.state,
        LoginEvent::Credentials(Some(("a@x".to_string(), "pw".to_string()))),
    );
    assert!(matches!(
        &t.action,
        LoginAction::Connect { apple_id, password } if apple_id == "a@x" && password == "pw"
    ));
    assert_eq!(t.notices.len(), 2);
    assert!(matches!(&t.notices[0], Notice::Status(s) if s == "Connexion au compte Apple..."));
    assert!(matches!(t.notices[1], Notice::Progress(Progress::Unknown)));
    let t = login_flow(t.state, LoginEvent::Connected(Ok(())));
    assert!(matches!(
        t.action,
        LoginAction::Finish(Ok((a, p))) if a == "a@x" && p == "pw"
    ));
}

#[test]
fn a_single_remembered_account_is_used_unasked() {
    let changes = save_account(Ok(None), "a@x", "pw");
    let mut values = Vec::new();
    for change in changes {
        match change {
            KeyringChange::Store { value, .. } => values.push(value),
            KeyringChange::Delete { .. } => unreachable!(),
        }
    }
    let t = login_flow(start(), LoginEvent::Accounts(Ok(Some(values[0].clone()))));
    assert!(matches!(&t.action, LoginAction::ReadPassword { apple_id } if apple_id == "a@x"));
    let t = login_flow(t.state, LoginEvent::Password(Ok(Some(values[1].clone()))));
    assert!(matches!(
        &t.action,
        LoginAction::Connect { apple_id, password } if apple_id == "a@x" && password == "pw"
    ));
}

#[test]
fn a_lost_password_is_asked_for() {
    let t = login_flow(start(), LoginEvent::Accounts(Ok(Some("[\"a@x\"]".to_string()))));
    let t = login_flow(t.state, LoginEvent::Password(Err("gone".to_string())));
    assert!(matches!(
        &t.action,
        LoginAction::AskCredentials { prefill: Some(p), note: Some(n) }
            if p == "a@x" && n == "Le mot de passe enregistre pour ce compte est introuvable."
    ));
}

#[test]
fn several_accounts_are_offered() {
    let t = login_flow(start(), LoginEvent::Accounts(Ok(Some("[\"a\",\"b\"]".to_string()))));
    assert!(matches!(
        &t.action,
        LoginAction::AskAccount(l) if *l == vec!["a".to_string(), "b".to_string()]
    ));
    let t = login_flow(t.state, LoginEvent::Chosen(Some(Some("b".to_string()))));
    assert!(matches!(&t.action, LoginAction::ReadPassword { apple_id } if apple_id == "b"));
}

#[test]
fn another_account_can_be_added() {
    let t = login_flow(start(), LoginEvent::Accounts(Ok(Some("[\"a\",\"b\"]".to_string()))));
    let t = login_flow(t.state, LoginEvent::Chosen(Some(None)));
    assert!(matches!(t.action, LoginAction::AskCredentials { prefill: None, note: None }));
}

#[test]
fn closed_questions_cancel_the_login() {
    let t = login_flow(LoginState::Choosing, LoginEvent::Chosen(None));
    assert!(matches!(
        t.action,
        LoginAction::Finish(Err(f)) if f.cancelled && f.title == "Choix du compte annule"
    ));
    let t = login_flow(LoginState::Asking { attempt: 2 }, LoginEvent::Credentials(None));
    assert!(matches!(
        t.action,
        LoginAction::Finish(Err(f)) if f.cancelled && f.title == "Saisie des identifiants annulee"
    ));
}

#[test]
fn three_refusals_end_the_login() {
    assert_eq!(MAX_LOGIN_ATTEMPTS, 3);
    let mut t = login_flow(start(), LoginEvent::Accounts(Ok(Some("[\"a@x\"]".to_string()))));
    t = login_flow(t.state, LoginEvent::Password(Ok(Some("stale".to_string()))));
    for i in 0..2 {
        assert!(matches!(t.action, LoginAction::Connect { .. }));
        t = login_flow(t.state, LoginEvent::Connected(Err(refused())));
        assert!(matches!(
            &t.action,
            LoginAction::AskCredentials { prefill: Some(p), note: Some(n) }
                if p == "a@x" && n == "Identifiant ou mot de passe Apple incorrect"
        ));
        t = login_flow(
            t.state,
            LoginEvent::Credentials(Some(("a@x".to_string(), format!("try {i}")))),
        );
    }
    assert!(matches!(
        &t.action,
        LoginAction::Connect { password, .. } if password == "try 1"
    ));
    t = login_flow(t.state, LoginEvent::Connected(Err(refused())));
    assert!(matches!(
        t.action,
        LoginAction::Finish(Err(f))
            if f.title == "Trop de tentatives de connexion" && f.steps.len() == 2
    ));
    assert!(matches!(t.state, LoginState::Finished));
}

#[test]
fn other_failures_end_the_login_at_once() {
    let state = LoginState::Connecting {
        apple_id: "a".to_string(),
        password: "p".to_string(),
        attempt: 1,
    };
    let t = login_flow(state, LoginEvent::Connected(Err(Failure::new("Panne", &["x"]))));
    assert!(matches!(t.action, LoginAction::Finish(Err(f)) if f.title == "Panne"));
}

#[test]
fn events_out_of_turn_change_no_login() {
    let t = login_flow(LoginState::Listing, LoginEvent::Connected(Ok(())));
    assert!(matches!(t.action, LoginAction::Ignore));
    assert!(matches!(t.state, LoginState::Listing));
    let t = login_flow(LoginState::Finished, LoginEvent::Begin);
    assert!(matches!(t.action, LoginAction::Ignore));
    assert!(matches!(t.state, LoginState::Finished));
}
