//! Connecting to the Apple account, and asking again where a password is refused.
//!
//! Where one account is remembered, its password is used without a question. It may have
//! changed since, or have been mistyped the first time: a refusal therefore asks for the
//! credentials again, with the account filled in and the reason given.

use crate::accounts::{
    accounts_in, entry_read, forgets, get_saved_password, law_forgotten_account_is_gone,
    law_remembered_account_is_listed, list_accounts, lookup, password_entry, password_in,
    remembers, with_account, without_account, Store, ACCOUNT_LIST,
};
use crate::failure::{explain_error, explained, outcome, Failure, FailureView};
use crate::notice::{notices, silence, tells_shares, Notice, NoticeView, Progress};
use crate::text::{opt_string, strings, texts};
use crate::turn::{last_state, turns, Turn, TurnView};
use vstd::prelude::*;

verus! {

/// How many refused passwords are borne before the flow stops by itself: Apple locks an
/// account after a handful of them.
pub const MAX_LOGIN_ATTEMPTS: usize = 3;

pub const CONNECTING: &'static str = "Connexion au compte Apple...";

pub const PASSWORD_LOST: &'static str =
    "Le mot de passe enregistre pour ce compte est introuvable.";

pub const TOO_MANY_ATTEMPTS: &'static str = "Trop de tentatives de connexion";

pub const TOO_MANY_ATTEMPTS_STEPS: [&'static str; 2] = [
    "Apple bloque temporairement un compte apres plusieurs mots de passe errones.",
    "Verifie le mot de passe sur account.apple.com, puis relance l'application.",
];

pub const ACCOUNT_CANCELLED: &'static str = "Choix du compte annule";

pub const CREDENTIALS_CANCELLED: &'static str = "Saisie des identifiants annulee";

pub const ANISETTE_UNREACHABLE: &'static str =
    "Le service d'authentification Apple est injoignable";

pub const ANISETTE_UNREACHABLE_STEPS: [&'static str; 2] = [
    "C'est un service externe, parfois indisponible quelques minutes.",
    "Verifie ta connexion Internet, puis reessaie.",
];

pub const LOGIN_FAILED: &'static str = "Connexion au compte Apple impossible";

pub const LOGIN_FAILED_STEPS: [&'static str; 3] = [
    "Verifie l'adresse du compte Apple et le mot de passe.",
    "Assure-toi que la double authentification est active sur ce compte.",
    "Verifie ta connexion Internet, puis reessaie.",
];

/// Why one attempt to connect came to nothing.
#[derive(Debug)]
pub enum LoginError {
    /// The service that vouches for this PC could not be set up.
    Anisette(String),
    /// Apple did not let the account in.
    Refused(String),
}

/// The failure of an attempt that got as far as Apple: nearly always a reason to ask for
/// the credentials again.
pub open spec fn refusal(detail: Seq<char>) -> FailureView {
    let f = explained(detail, LOGIN_FAILED@, texts(LOGIN_FAILED_STEPS@));
    if f.cancelled {
        f
    } else {
        f.retrying()
    }
}

pub open spec fn attempt_outcome(r: Result<(), LoginError>) -> Result<(), FailureView> {
    match r {
        Ok(t) => Ok(t),
        Err(LoginError::Anisette(e)) => Err(
            explained(e@, ANISETTE_UNREACHABLE@, texts(ANISETTE_UNREACHABLE_STEPS@)),
        ),
        Err(LoginError::Refused(e)) => Err(refusal(e@)),
    }
}

/// What one attempt to connect comes to.
pub fn try_login(attempt: Result<(), LoginError>) -> (r: Result<(), Failure>)
    ensures
        outcome(r) == attempt_outcome(attempt),
{
    match attempt {
        Ok(t) => Ok(t),
        Err(LoginError::Anisette(e)) => Err(
            explain_error(e.as_str(), ANISETTE_UNREACHABLE, &ANISETTE_UNREACHABLE_STEPS),
        ),
        Err(LoginError::Refused(e)) => {
            let f: Failure = explain_error(e.as_str(), LOGIN_FAILED, &LOGIN_FAILED_STEPS);
            if f.cancelled {
                Err(f)
            } else {
                Err(f.retryable())
            }
        },
    }
}

/// Every refusal by Apple is a reason to ask for the credentials again.
pub proof fn law_refusals_are_retried(detail: Seq<char>)
    ensures
        refusal(detail).retry_credentials,
        !refusal(detail).cancelled,
{
    crate::failure::law_raw_text_stays_in_the_detail(
        detail,
        LOGIN_FAILED@,
        texts(LOGIN_FAILED_STEPS@),
    );
}

/// Which account to connect with.
#[derive(Debug)]
pub enum AccountChoice {
    /// None is remembered: the credentials have to be typed in.
    New,
    /// The only one that is remembered.
    Known(String),
    /// The user has to pick one of several, or another one.
    Ask(Vec<String>),
}

pub enum AccountChoiceView {
    New,
    Known(Seq<char>),
    Ask(Seq<Seq<char>>),
}

impl View for AccountChoice {
    type V = AccountChoiceView;

    open spec fn view(&self) -> AccountChoiceView {
        match self {
            AccountChoice::New => AccountChoiceView::New,
            AccountChoice::Known(a) => AccountChoiceView::Known(a@),
            AccountChoice::Ask(list) => AccountChoiceView::Ask(strings(list@)),
        }
    }
}

pub open spec fn account_choice(accounts: Seq<Seq<char>>) -> AccountChoiceView {
    if accounts.len() == 0 {
        AccountChoiceView::New
    } else if accounts.len() == 1 {
        AccountChoiceView::Known(accounts[0])
    } else {
        AccountChoiceView::Ask(accounts)
    }
}

/// Settles on an account, as far as the remembered ones allow it.
pub fn choose_saved_account(accounts: Vec<String>) -> (r: AccountChoice)
    ensures
        r@ == account_choice(strings(accounts@)),
{
    if accounts.len() == 0 {
        AccountChoice::New
    } else if accounts.len() == 1 {
        assert(strings(accounts@)[0] == accounts@[0]@);
        AccountChoice::Known(accounts[0].clone())
    } else {
        AccountChoice::Ask(accounts)
    }
}

#[derive(Debug)]
pub enum LoginState {
    Start,
    /// The list of remembered accounts is read.
    Listing,
    /// The user picks one of several accounts.
    Choosing,
    /// The remembered password of an account is read.
    Recalling { apple_id: String },
    /// The user types in credentials, for the attempt of this number.
    Asking { attempt: usize },
    /// Apple is asked, for the attempt of this number.
    Connecting { apple_id: String, password: String, attempt: usize },
    Finished,
}

pub enum LoginStateView {
    Start,
    Listing,
    Choosing,
    Recalling { apple_id: Seq<char> },
    Asking { attempt: usize },
    Connecting { apple_id: Seq<char>, password: Seq<char>, attempt: usize },
    Finished,
}

impl View for LoginState {
    type V = LoginStateView;

    open spec fn view(&self) -> LoginStateView {
        match self {
            LoginState::Start => LoginStateView::Start,
            LoginState::Listing => LoginStateView::Listing,
            LoginState::Choosing => LoginStateView::Choosing,
            LoginState::Recalling { apple_id } => LoginStateView::Recalling {
                apple_id: apple_id@,
            },
            LoginState::Asking { attempt } => LoginStateView::Asking { attempt: *attempt },
            LoginState::Connecting { apple_id, password, attempt } => LoginStateView::Connecting {
                apple_id: apple_id@,
                password: password@,
                attempt: *attempt,
            },
            LoginState::Finished => LoginStateView::Finished,
        }
    }
}

#[derive(Debug)]
pub enum LoginEvent {
    Begin,
    /// The entry with the list of accounts was read.
    Accounts(Result<Option<String>, String>),
    /// The user picked an account, or another one than those (no name), or closed the
    /// question without an answer.
    Chosen(Option<Option<String>>),
    /// The entry with a password was read.
    Password(Result<Option<String>, String>),
    /// The user typed in an account and a password, or closed the question without an
    /// answer.
    Credentials(Option<(String, String)>),
    Connected(Result<(), Failure>),
}

pub enum LoginEventView {
    Begin,
    Accounts(Option<Seq<char>>),
    Chosen(Option<Option<Seq<char>>>),
    Password(Option<Seq<char>>),
    Credentials(Option<(Seq<char>, Seq<char>)>),
    Connected(Result<(), FailureView>),
}

pub open spec fn opt_pair(p: Option<(String, String)>) -> Option<(Seq<char>, Seq<char>)> {
    match p {
        Some((a, b)) => Some((a@, b@)),
        None => None,
    }
}

impl View for LoginEvent {
    type V = LoginEventView;

    open spec fn view(&self) -> LoginEventView {
        match self {
            LoginEvent::Begin => LoginEventView::Begin,
            LoginEvent::Accounts(r) => LoginEventView::Accounts(entry_read(*r)),
            LoginEvent::Chosen(c) => LoginEventView::Chosen(
                match c {
                    Some(id) => Some(opt_string(*id)),
                    None => None,
                },
            ),
            LoginEvent::Password(r) => LoginEventView::Password(entry_read(*r)),
            LoginEvent::Credentials(p) => LoginEventView::Credentials(opt_pair(*p)),
            LoginEvent::Connected(r) => LoginEventView::Connected(outcome(*r)),
        }
    }
}

#[derive(Debug)]
pub enum LoginAction {
    /// Read the entry with the list of accounts.
    ReadAccounts,
    /// Ask the user to pick one of several accounts, or another one.
    AskAccount(Vec<String>),
    /// Read the entry with the password of an account.
    ReadPassword { apple_id: String },
    /// Ask the user for credentials, with an account filled in and a reason given, where
    /// there are any.
    AskCredentials { prefill: Option<String>, note: Option<String> },
    Connect { apple_id: String, password: String },
    /// The account that was let in, and its password.
    Finish(Result<(String, String), Failure>),
    /// The event answers nothing that was asked: nothing to do.
    Ignore,
}

pub enum LoginActionView {
    ReadAccounts,
    AskAccount(Seq<Seq<char>>),
    ReadPassword { apple_id: Seq<char> },
    AskCredentials { prefill: Option<Seq<char>>, note: Option<Seq<char>> },
    Connect { apple_id: Seq<char>, password: Seq<char> },
    Finish(Result<(Seq<char>, Seq<char>), FailureView>),
    Ignore,
}

pub open spec fn pair_outcome(r: Result<(String, String), Failure>) -> Result<
    (Seq<char>, Seq<char>),
    FailureView,
> {
    match r {
        Ok((a, b)) => Ok((a@, b@)),
        Err(f) => Err(f@),
    }
}

impl View for LoginAction {
    type V = LoginActionView;

    open spec fn view(&self) -> LoginActionView {
        match self {
            LoginAction::ReadAccounts => LoginActionView::ReadAccounts,
            LoginAction::AskAccount(list) => LoginActionView::AskAccount(strings(list@)),
            LoginAction::ReadPassword { apple_id } => LoginActionView::ReadPassword {
                apple_id: apple_id@,
            },
            LoginAction::AskCredentials { prefill, note } => LoginActionView::AskCredentials {
                prefill: opt_string(*prefill),
                note: opt_string(*note),
            },
            LoginAction::Connect { apple_id, password } => LoginActionView::Connect {
                apple_id: apple_id@,
                password: password@,
            },
            LoginAction::Finish(r) => LoginActionView::Finish(pair_outcome(*r)),
            LoginAction::Ignore => LoginActionView::Ignore,
        }
    }
}

pub type LoginTurnView = TurnView<LoginStateView, LoginActionView>;

impl View for Turn<LoginState, LoginAction> {
    type V = LoginTurnView;

    open spec fn view(&self) -> LoginTurnView {
        TurnView { state: self.state@, notices: notices(self.notices@), action: self.action@ }
    }
}

pub open spec fn login_go(state: LoginStateView, action: LoginActionView) -> LoginTurnView {
    TurnView { state, notices: Seq::empty(), action }
}

pub open spec fn login_end(r: Result<(Seq<char>, Seq<char>), FailureView>) -> LoginTurnView {
    login_go(LoginStateView::Finished, LoginActionView::Finish(r))
}

/// The credentials are asked for.
pub open spec fn asking(
    attempt: usize,
    prefill: Option<Seq<char>>,
    note: Option<Seq<char>>,
) -> LoginTurnView {
    login_go(LoginStateView::Asking { attempt }, LoginActionView::AskCredentials { prefill, note })
}

/// The first attempt: with the remembered password of an account, where one was settled
/// on.
pub open spec fn first_attempt(choice: Option<Seq<char>>) -> LoginTurnView {
    match choice {
        Some(apple_id) => login_go(
            LoginStateView::Recalling { apple_id },
            LoginActionView::ReadPassword { apple_id },
        ),
        None => asking(1, None, None),
    }
}

/// Apple is asked.
pub open spec fn connecting(
    apple_id: Seq<char>,
    password: Seq<char>,
    attempt: usize,
) -> LoginTurnView {
    TurnView {
        state: LoginStateView::Connecting { apple_id, password, attempt },
        notices: seq![
            NoticeView::Status(CONNECTING@),
            NoticeView::Progress(Progress::Unknown),
        ],
        action: LoginActionView::Connect { apple_id, password },
    }
}

/// The answers of the exchange.
pub open spec fn login_turn(state: LoginStateView, event: LoginEventView) -> LoginTurnView {
    match (state, event) {
        (LoginStateView::Start, LoginEventView::Begin) => login_go(
            LoginStateView::Listing,
            LoginActionView::ReadAccounts,
        ),
        (LoginStateView::Listing, LoginEventView::Accounts(entry)) => match account_choice(
            accounts_in(entry),
        ) {
            AccountChoiceView::New => first_attempt(None),
            AccountChoiceView::Known(apple_id) => first_attempt(Some(apple_id)),
            AccountChoiceView::Ask(list) => login_go(
                LoginStateView::Choosing,
                LoginActionView::AskAccount(list),
            ),
        },
        (LoginStateView::Choosing, LoginEventView::Chosen(c)) => match c {
            Some(choice) => first_attempt(choice),
            None => login_end(Err(FailureView::abandoned(ACCOUNT_CANCELLED@))),
        },
        (LoginStateView::Recalling { apple_id }, LoginEventView::Password(entry)) => {
            match password_in(entry) {
                Some(password) => connecting(apple_id, password, 1),
                None => asking(1, Some(apple_id), Some(PASSWORD_LOST@)),
            }
        },
        (LoginStateView::Asking { attempt }, LoginEventView::Credentials(c)) => match c {
            Some((apple_id, password)) => connecting(apple_id, password, attempt),
            None => login_end(Err(FailureView::abandoned(CREDENTIALS_CANCELLED@))),
        },
        (
            LoginStateView::Connecting { apple_id, password, attempt },
            LoginEventView::Connected(r),
        ) => match r {
            Ok(_) => login_end(Ok((apple_id, password))),
            Err(f) => if !f.retry_credentials {
                login_end(Err(f))
            } else if attempt >= MAX_LOGIN_ATTEMPTS {
                login_end(
                    Err(FailureView::plain(TOO_MANY_ATTEMPTS@, texts(TOO_MANY_ATTEMPTS_STEPS@))),
                )
            } else {
                asking((attempt + 1) as usize, Some(apple_id), Some(f.title))
            },
        },
        _ => login_go(state, LoginActionView::Ignore),
    }
}

fn go(state: LoginState, action: LoginAction) -> (t: Turn<LoginState, LoginAction>)
    ensures
        t@ == login_go(state@, action@),
{
    Turn { state, notices: silence(), action }
}

fn end(r: Result<(String, String), Failure>) -> (t: Turn<LoginState, LoginAction>)
    ensures
        t@ == login_end(pair_outcome(r)),
{
    go(LoginState::Finished, LoginAction::Finish(r))
}

/// Asks for credentials.
fn ask_credentials(attempt: usize, prefill: Option<String>, note: Option<String>) -> (t: Turn<
    LoginState,
    LoginAction,
>)
    ensures
        t@ == asking(attempt, opt_string(prefill), opt_string(note)),
{
    go(LoginState::Asking { attempt }, LoginAction::AskCredentials { prefill, note })
}

fn begin_attempts(choice: Option<String>) -> (t: Turn<LoginState, LoginAction>)
    ensures
        t@ == first_attempt(opt_string(choice)),
{
    match choice {
        Some(apple_id) => go(
            LoginState::Recalling { apple_id: apple_id.clone() },
            LoginAction::ReadPassword { apple_id },
        ),
        None => ask_credentials(1, None, None),
    }
}

fn connect(apple_id: String, password: String, attempt: usize) -> (t: Turn<LoginState, LoginAction>)
    ensures
        t@ == connecting(apple_id@, password@, attempt),
{
    let mut list: Vec<Notice> = Vec::new();
    list.push(Notice::Status(CONNECTING.to_string()));
    list.push(Notice::Progress(Progress::Unknown));
    assert(notices(list@) =~= seq![
        NoticeView::Status(CONNECTING@),
        NoticeView::Progress(Progress::Unknown),
    ]);
    Turn {
        state: LoginState::Connecting {
            apple_id: apple_id.clone(),
            password: password.clone(),
            attempt,
        },
        notices: list,
        action: LoginAction::Connect { apple_id, password },
    }
}

/// Connects to the Apple account.
pub fn login_flow(state: LoginState, event: LoginEvent) -> (t: Turn<LoginState, LoginAction>)
    ensures
        t@ == login_turn(state@, event@),
{
    match (state, event) {
        (LoginState::Start, LoginEvent::Begin) => go(
            LoginState::Listing,
            LoginAction::ReadAccounts,
        ),
        (LoginState::Listing, LoginEvent::Accounts(read)) => match choose_saved_account(
            list_accounts(read),
        ) {
            AccountChoice::New => begin_attempts(None),
            AccountChoice::Known(apple_id) => begin_attempts(Some(apple_id)),
            AccountChoice::Ask(list) => go(LoginState::Choosing, LoginAction::AskAccount(list)),
        },
        (LoginState::Choosing, LoginEvent::Chosen(c)) => match c {
            Some(choice) => begin_attempts(choice),
            None => end(Err(Failure::cancelled(ACCOUNT_CANCELLED))),
        },
        (LoginState::Recalling { apple_id }, LoginEvent::Password(read)) => {
            match get_saved_password(read) {
                Some(password) => connect(apple_id, password, 1),
                None => ask_credentials(1, Some(apple_id), Some(PASSWORD_LOST.to_string())),
            }
        },
        (LoginState::Asking { attempt }, LoginEvent::Credentials(c)) => match c {
            Some((apple_id, password)) => connect(apple_id, password, attempt),
            None => end(Err(Failure::cancelled(CREDENTIALS_CANCELLED))),
        },
        (LoginState::Connecting { apple_id, password, attempt }, LoginEvent::Connected(r)) => {
            match r {
                Ok(_) => end(Ok((apple_id, password))),
                Err(f) => if !f.retry_credentials {
                    end(Err(f))
                } else if attempt >= MAX_LOGIN_ATTEMPTS {
                    end(Err(Failure::new(TOO_MANY_ATTEMPTS, &TOO_MANY_ATTEMPTS_STEPS)))
                } else {
                    ask_credentials(attempt + 1, Some(apple_id), Some(f.title))
                },
            }
        },
        (state, _) => go(state, LoginAction::Ignore),
    }
}

/// The turns of the exchange on some events.
pub open spec fn login_turns(events: Seq<LoginEventView>) -> Seq<LoginTurnView> {
    turns(|s: LoginStateView, e: LoginEventView| login_turn(s, e), LoginStateView::Start, events)
}

/// How many turns ask Apple.
pub open spec fn connections(list: Seq<LoginTurnView>) -> nat
    decreases list.len(),
{
    if list.len() == 0 {
        0
    } else {
        connections(list.drop_last()) + if list.last().action is Connect {
            1nat
        } else {
            0
        }
    }
}

/// How many turns read a remembered password.
pub open spec fn recalls(list: Seq<LoginTurnView>) -> nat
    decreases list.len(),
{
    if list.len() == 0 {
        0
    } else {
        recalls(list.drop_last()) + if list.last().action is ReadPassword {
            1nat
        } else {
            0
        }
    }
}

/// Whatever happens, Apple is asked no more than a few times, and a remembered password
/// is tried once at most.
pub proof fn law_attempts_are_bounded(events: Seq<LoginEventView>)
    ensures
        connections(login_turns(events)) <= MAX_LOGIN_ATTEMPTS,
        recalls(login_turns(events)) <= 1,
{
    lemma_attempts(events);
}

proof fn lemma_attempts(events: Seq<LoginEventView>)
    ensures
        ({
            let list = login_turns(events);
            let s = last_state(LoginStateView::Start, list);
            let n = connections(list);
            &&& n <= MAX_LOGIN_ATTEMPTS
            &&& recalls(list) <= 1
            &&& (s is Start || s is Listing || s is Choosing) ==> n == 0 && recalls(list) == 0
            &&& s is Recalling ==> n == 0
            &&& s matches LoginStateView::Asking { attempt } ==> n == attempt - 1 && attempt
                <= MAX_LOGIN_ATTEMPTS
            &&& s matches LoginStateView::Connecting { attempt, .. } ==> n == attempt && attempt
                <= MAX_LOGIN_ATTEMPTS
        }),
    decreases events.len(),
{
    if events.len() > 0 {
        let front = events.drop_last();
        lemma_attempts(front);
        let before = login_turns(front);
        let turn = login_turn(last_state(LoginStateView::Start, before), events.last());
        let list = login_turns(events);
        assert(list == before.push(turn));
        assert(list.drop_last() =~= before);
        assert(list.last() == turn);
    }
}

/// Credentials that were refused are asked for again, with the account filled in and the
/// reason given, until the attempts are used up.
pub proof fn law_refused_credentials_are_asked_again(
    apple_id: Seq<char>,
    password: Seq<char>,
    attempt: usize,
    f: FailureView,
)
    requires
        f.retry_credentials,
    ensures
        ({
            let turn = login_turn(
                LoginStateView::Connecting { apple_id, password, attempt },
                LoginEventView::Connected(Err(f)),
            );
            if attempt < MAX_LOGIN_ATTEMPTS {
                turn.action == LoginActionView::AskCredentials {
                    prefill: Some(apple_id),
                    note: Some(f.title),
                }
            } else {
                turn.action == LoginActionView::Finish(
                    Err(FailureView::plain(TOO_MANY_ATTEMPTS@, texts(TOO_MANY_ATTEMPTS_STEPS@))),
                )
            }
        }),
{
}

/// The flow ends well only with the very credentials that Apple has just let in.
pub proof fn law_success_returns_what_was_let_in(
    state: LoginStateView,
    event: LoginEventView,
    apple_id: Seq<char>,
    password: Seq<char>,
)
    requires
        login_turn(state, event).action == LoginActionView::Finish(Ok((apple_id, password))),
    ensures
        event matches LoginEventView::Connected(Ok(_)),
        state matches LoginStateView::Connecting { apple_id: a, password: p, .. } && a == apple_id
            && p == password,
{
}

/// Where one account is remembered, it is used without a question: remembering it and then
/// connecting tries the very password that was remembered, before anybody is asked.
pub proof fn law_remembered_account_is_used_unasked(
    before: Store,
    after: Store,
    accounts: Seq<Seq<char>>,
    apple_id: Seq<char>,
    password: Seq<char>,
)
    requires
        remembers(before, after, accounts, apple_id, password),
        with_account(accounts, apple_id).len() == 1,
        password.len() > 0,
    ensures
        ({
            let listed = login_turn(
                LoginStateView::Listing,
                LoginEventView::Accounts(lookup(after, ACCOUNT_LIST@)),
            );
            let recalled = login_turn(
                listed.state,
                LoginEventView::Password(lookup(after, password_entry(apple_id))),
            );
            &&& listed.action == LoginActionView::ReadPassword { apple_id }
            &&& recalled.action == LoginActionView::Connect { apple_id, password }
        }),
{
    law_remembered_account_is_listed(accounts, apple_id);
    let list = with_account(accounts, apple_id);
    let k = choose|k: int| 0 <= k < list.len() && list[k] == apple_id;
    assert(list[0] == apple_id);
}

/// A forgotten account is neither used nor offered any more.
pub proof fn law_forgotten_account_is_not_offered(
    before: Store,
    after: Store,
    accounts: Seq<Seq<char>>,
    apple_id: Seq<char>,
)
    requires
        forgets(before, after, accounts, apple_id),
    ensures
        match login_turn(
            LoginStateView::Listing,
            LoginEventView::Accounts(lookup(after, ACCOUNT_LIST@)),
        ).action {
            LoginActionView::ReadPassword { apple_id: used } => used != apple_id,
            LoginActionView::AskAccount(list) => !list.contains(apple_id),
            action => action == LoginActionView::AskCredentials { prefill: None, note: None },
        },
{
    law_forgotten_account_is_gone(accounts, apple_id);
    let list = without_account(accounts, apple_id);
    if list.len() == 1 {
        assert(list.contains(list[0]));
    }
}

/// Whatever comes, the progress that the sign-in tells is a share of a whole, or unknown.
pub proof fn law_login_progress_is_a_share(state: LoginStateView, event: LoginEventView)
    ensures
        tells_shares(login_turn(state, event).notices),
{
}

/// The credentials are asked for, for the attempt of this number, with what is filled in and
/// the reason given.
pub open spec fn asks_credentials(
    t: LoginTurnView,
    attempt: int,
    prefill: Option<Seq<char>>,
    note: Option<Seq<char>>,
) -> bool {
    &&& t.state matches LoginStateView::Asking { attempt: n } && n == attempt
    &&& t.notices.len() == 0
    &&& t.action == (LoginActionView::AskCredentials { prefill, note })
}

/// Apple is asked with these credentials, for the attempt of this number.
pub open spec fn asks_apple(
    t: LoginTurnView,
    apple_id: Seq<char>,
    password: Seq<char>,
    attempt: usize,
) -> bool {
    &&& t.state == (LoginStateView::Connecting { apple_id, password, attempt })
    &&& t.notices == seq![
        NoticeView::Status("Connexion au compte Apple..."@),
        NoticeView::Progress(Progress::Unknown),
    ]
    &&& t.action == (LoginActionView::Connect { apple_id, password })
}

/// The turn ends the sign-in, and says nothing else.
pub open spec fn ends_login(
    t: LoginTurnView,
    r: Result<(Seq<char>, Seq<char>), FailureView>,
) -> bool {
    &&& t.state is Finished
    &&& t.notices.len() == 0
    &&& t.action == LoginActionView::Finish(r)
}

/// Apple is asked with what the user typed, to the letter, whichever attempt it is; a
/// question closed without an answer is a cancellation.
pub proof fn law_typed_credentials_are_used(
    attempt: usize,
    apple_id: Seq<char>,
    password: Seq<char>,
)
    ensures
        asks_apple(
            login_turn(
                LoginStateView::Asking { attempt },
                LoginEventView::Credentials(Some((apple_id, password))),
            ),
            apple_id,
            password,
            attempt,
        ),
        ends_login(
            login_turn(LoginStateView::Asking { attempt }, LoginEventView::Credentials(None)),
            Err(FailureView::abandoned("Saisie des identifiants annulee"@)),
        ),
{
}

/// A remembered password is used to the letter, in the first attempt; where it is missing or
/// empty, it is asked for, with the account filled in.
pub proof fn law_remembered_passwords_are_used(apple_id: Seq<char>, password: Seq<char>)
    ensures
        password.len() > 0 ==> asks_apple(
            login_turn(
                LoginStateView::Recalling { apple_id },
                LoginEventView::Password(Some(password)),
            ),
            apple_id,
            password,
            1,
        ),
        password.len() == 0 ==> asks_credentials(
            login_turn(
                LoginStateView::Recalling { apple_id },
                LoginEventView::Password(Some(password)),
            ),
            1,
            Some(apple_id),
            Some("Le mot de passe enregistre pour ce compte est introuvable."@),
        ),
        asks_credentials(
            login_turn(LoginStateView::Recalling { apple_id }, LoginEventView::Password(None)),
            1,
            Some(apple_id),
            Some("Le mot de passe enregistre pour ce compte est introuvable."@),
        ),
{
}

/// Without a remembered account the credentials are asked for; one that is alone is used; of
/// several, the user picks, and all of them are offered.
pub proof fn law_accounts_settle_the_start(entry: Option<Seq<char>>)
    ensures
        ({
            let begun = login_turn(LoginStateView::Start, LoginEventView::Begin);
            let accounts = accounts_in(entry);
            let t = login_turn(begun.state, LoginEventView::Accounts(entry));
            &&& begun.action is ReadAccounts && begun.notices.len() == 0
            &&& accounts.len() == 0 ==> asks_credentials(t, 1, None, None)
            &&& accounts.len() == 1 ==> t.action == (LoginActionView::ReadPassword {
                apple_id: accounts[0],
            }) && t.state == (LoginStateView::Recalling { apple_id: accounts[0] })
            &&& accounts.len() > 1 ==> t.action == LoginActionView::AskAccount(accounts)
                && t.state is Choosing
            &&& t.notices.len() == 0
        }),
{
}

/// The account that the user picks is the one whose password is read; another one than those
/// is asked for; a choice closed without an answer is a cancellation.
pub proof fn law_the_picked_account_is_used(apple_id: Seq<char>)
    ensures
        ({
            let t = login_turn(
                LoginStateView::Choosing,
                LoginEventView::Chosen(Some(Some(apple_id))),
            );
            &&& t.action == (LoginActionView::ReadPassword { apple_id })
            &&& t.state == (LoginStateView::Recalling { apple_id })
            &&& t.notices.len() == 0
        }),
        asks_credentials(
            login_turn(LoginStateView::Choosing, LoginEventView::Chosen(Some(None))),
            1,
            None,
            None,
        ),
        ends_login(
            login_turn(LoginStateView::Choosing, LoginEventView::Chosen(None)),
            Err(FailureView::abandoned("Choix du compte annule"@)),
        ),
{
}

/// What Apple's answer leads to: credentials that were let in are the result, whichever
/// attempt it was; a failure that new credentials may mend leads to the next of three
/// attempts, and every other one ends the sign-in as it is.
pub proof fn law_what_an_answer_leads_to(
    apple_id: Seq<char>,
    password: Seq<char>,
    attempt: usize,
    f: FailureView,
)
    ensures
        ({
            let state = LoginStateView::Connecting { apple_id, password, attempt };
            let refused = login_turn(state, LoginEventView::Connected(Err(f)));
            &&& ends_login(
                login_turn(state, LoginEventView::Connected(Ok(()))),
                Ok((apple_id, password)),
            )
            &&& !f.retry_credentials ==> ends_login(refused, Err(f))
            &&& f.retry_credentials && attempt < 3 ==> asks_credentials(
                refused,
                attempt + 1,
                Some(apple_id),
                Some(f.title),
            )
            &&& f.retry_credentials && attempt >= 3 ==> ends_login(
                refused,
                Err(
                    FailureView::plain(
                        "Trop de tentatives de connexion"@,
                        texts(TOO_MANY_ATTEMPTS_STEPS@),
                    ),
                ),
            )
        }),
{
}

/// The event answers what was asked for in the state.
pub open spec fn is_login_answer(state: LoginStateView, event: LoginEventView) -> bool {
    match state {
        LoginStateView::Start => event is Begin,
        LoginStateView::Listing => event is Accounts,
        LoginStateView::Choosing => event is Chosen,
        LoginStateView::Recalling { .. } => event is Password,
        LoginStateView::Asking { .. } => event is Credentials,
        LoginStateView::Connecting { .. } => event is Connected,
        LoginStateView::Finished => false,
    }
}

/// An event that was not waited for changes nothing, says nothing and asks for nothing.
pub proof fn law_only_awaited_login_events_count(state: LoginStateView, event: LoginEventView)
    ensures
        !is_login_answer(state, event) ==> {
            &&& login_turn(state, event).state == state
            &&& login_turn(state, event).notices.len() == 0
            &&& login_turn(state, event).action is Ignore
        },
        is_login_answer(state, event) ==> !(login_turn(state, event).action is Ignore),
{
}

/// Over a whole exchange, Apple is never asked with anything but what the user has just
/// typed, or the password just read from the store for an account that stands alone in the
/// remembered list or that the user picked.
pub proof fn law_every_attempt_uses_what_was_given(
    events: Seq<LoginEventView>,
    next: LoginEventView,
)
    ensures
        login_turn(last_state(LoginStateView::Start, login_turns(events)), next).action matches
            LoginActionView::Connect { apple_id, password } ==> {
            ||| next == LoginEventView::Credentials(Some((apple_id, password)))
            ||| {
                &&& next == LoginEventView::Password(Some(password))
                &&& was_settled_on(events, apple_id)
            }
        },
{
    lemma_settled_on(events);
}

/// The account stands alone in the remembered list, or the user picked it.
pub open spec fn was_settled_on(events: Seq<LoginEventView>, apple_id: Seq<char>) -> bool {
    exists|i: int|
        0 <= i < events.len() && {
            ||| (#[trigger] events[i]) == LoginEventView::Chosen(Some(Some(apple_id)))
            ||| (events[i] matches LoginEventView::Accounts(entry) && accounts_in(entry) == seq![
                apple_id,
            ])
        }
}

proof fn lemma_settled_on(events: Seq<LoginEventView>)
    ensures
        last_state(LoginStateView::Start, login_turns(events)) matches LoginStateView::Recalling {
            apple_id,
        } ==> was_settled_on(events, apple_id),
    decreases events.len(),
{
    if events.len() > 0 {
        let front = events.drop_last();
        lemma_settled_on(front);
        let before = login_turns(front);
        let state = last_state(LoginStateView::Start, before);
        let next = events.last();
        let turn = login_turn(state, next);
        assert(login_turns(events) == before.push(turn));
        if let LoginStateView::Recalling { apple_id } = turn.state {
            if state is Recalling {
                let i = choose|i: int|
                    0 <= i < front.len() && {
                        ||| (#[trigger] front[i]) == LoginEventView::Chosen(Some(Some(apple_id)))
                        ||| (front[i] matches LoginEventView::Accounts(entry) && accounts_in(entry)
                            == seq![apple_id])
                    };
                assert(events[i] == front[i]);
            } else {
                let n = events.len() - 1;
                assert(events[n] == next);
                if let LoginEventView::Accounts(entry) = next {
                    assert(accounts_in(entry) =~= seq![apple_id]);
                }
            }
        }
    }
}

/// What one attempt comes to, by how far it got: nothing to mend where it came off, the words
/// for a service that cannot be reached, and a reason to ask again where Apple refused.
pub proof fn law_what_an_attempt_comes_to(e: String)
    ensures
        attempt_outcome(Ok(())) is Ok,
        attempt_outcome(Err(LoginError::Anisette(e))) == Err::<(), FailureView>(
            explained(
                e@,
                "Le service d'authentification Apple est injoignable"@,
                texts(ANISETTE_UNREACHABLE_STEPS@),
            ),
        ),
        attempt_outcome(Err(LoginError::Refused(e))) == Err::<(), FailureView>(
            FailureView {
                retry_credentials: true,
                ..explained(
                    e@,
                    "Connexion au compte Apple impossible"@,
                    texts(LOGIN_FAILED_STEPS@),
                )
            },
        ),
{
    crate::failure::law_known_words_come_before_the_callers(
        crate::trouble::trouble_of(e@),
        e@,
        LOGIN_FAILED@,
        texts(LOGIN_FAILED_STEPS@),
    );
}

/// The remembered accounts are used by their number.
pub proof fn law_the_number_of_accounts_decides(accounts: Seq<Seq<char>>)
    ensures
        accounts.len() == 0 ==> account_choice(accounts) is New,
        accounts.len() == 1 ==> account_choice(accounts) == AccountChoiceView::Known(accounts[0]),
        accounts.len() > 1 ==> account_choice(accounts) == AccountChoiceView::Ask(accounts),
{
}

/// Events, actions and turns are seen with all that they hold.
pub proof fn law_login_is_seen_whole(
    read: Result<Option<String>, String>,
    apple_id: String,
    password: String,
    r: Result<(), Failure>,
    f: Failure,
    list: Vec<String>,
    note: Option<String>,
    t: Turn<LoginState, LoginAction>,
)
    ensures
        LoginEvent::Begin@ is Begin,
        LoginEvent::Accounts(read)@ == LoginEventView::Accounts(entry_read(read)),
        LoginEvent::Chosen(Some(Some(apple_id)))@ == LoginEventView::Chosen(Some(Some(apple_id@))),
        LoginEvent::Chosen(Some(None))@ == LoginEventView::Chosen(Some(None)),
        LoginEvent::Chosen(None)@ == LoginEventView::Chosen(None),
        LoginEvent::Password(read)@ == LoginEventView::Password(entry_read(read)),
        LoginEvent::Credentials(Some((apple_id, password)))@ == LoginEventView::Credentials(
            Some((apple_id@, password@)),
        ),
        LoginEvent::Credentials(None)@ == LoginEventView::Credentials(None),
        LoginEvent::Connected(r)@ == LoginEventView::Connected(outcome(r)),
        LoginAction::ReadAccounts@ is ReadAccounts,
        LoginAction::AskAccount(list)@ == LoginActionView::AskAccount(strings(list@)),
        (LoginAction::ReadPassword { apple_id })@ == (LoginActionView::ReadPassword {
            apple_id: apple_id@,
        }),
        (LoginAction::AskCredentials { prefill: note, note })@ == (LoginActionView::AskCredentials {
            prefill: opt_string(note),
            note: opt_string(note),
        }),
        (LoginAction::Connect { apple_id, password })@ == (LoginActionView::Connect {
            apple_id: apple_id@,
            password: password@,
        }),
        LoginAction::Finish(Ok((apple_id, password)))@ == LoginActionView::Finish(
            Ok((apple_id@, password@)),
        ),
        LoginAction::Finish(Err(f))@ == LoginActionView::Finish(Err(f@)),
        LoginAction::Ignore@ is Ignore,
        AccountChoice::New@ is New,
        AccountChoice::Known(apple_id)@ == AccountChoiceView::Known(apple_id@),
        AccountChoice::Ask(list)@ == AccountChoiceView::Ask(strings(list@)),
        t@.state == t.state@,
        t@.notices == notices(t.notices@),
        t@.action == t.action@,
{
}

} // verus!
