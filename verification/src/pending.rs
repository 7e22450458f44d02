//! The questions that wait for an answer from the window.
//!
//! One installation runs at a time, so each kind of question has one slot. A slot holds
//! the sending end of a channel: taking it out and sending through it answers the
//! question, dropping it closes the question without an answer.

use crate::failure::{outcome, Failure, FailureView};
use crate::text::texts;
use std::sync::{LockResult, Mutex, MutexGuard, PoisonError};
use vstd::prelude::*;

verus! {

pub const ALREADY_RUNNING: &'static str = "Une installation est deja en cours";

pub const ALREADY_RUNNING_STEPS: [&'static str; 1] = [
    "Attends la fin de l'installation en cours, ou annule-la avant d'en relancer une.",
];

pub const UPDATE_CANCELLED: &'static str = "Installation annulee";

/// A mutual exclusion lock of the standard library.
#[verifier::external_type_specification]
#[verifier::external_body]
#[verifier::reject_recursive_types(T)]
pub struct ExMutex<T: ?Sized>(Mutex<T>);

/// The access to what a lock protects.
#[verifier::external_type_specification]
#[verifier::external_body]
#[verifier::reject_recursive_types(T)]
pub struct ExMutexGuard<'a, T: ?Sized + 'a>(MutexGuard<'a, T>);

/// The error of a lock that was held by a thread that panicked.
#[verifier::external_type_specification]
#[verifier::external_body]
#[verifier::reject_recursive_types(T)]
pub struct ExPoisonError<T>(PoisonError<T>);

/// `Mutex::lock`: waits for the lock. Nothing is said of what it protects, which others
/// change meanwhile, nor of whether it is poisoned. A thread that holds the lock already
/// must not ask for it again.
pub assume_specification<T: ?Sized>[ Mutex::<T>::lock ](m: &Mutex<T>) -> (r: LockResult<
    MutexGuard<'_, T>,
>)
;

/// `PoisonError::into_inner`: the guard that the error carries. There is no other way to
/// look into the error, so nothing is said of the guard.
pub assume_specification<T>[ PoisonError::<T>::into_inner ](e: PoisonError<T>) -> (r: T)
;

/// The guard of an attempt to lock, of a poisoned lock too.
pub open spec fn guard_of<G>(attempt: LockResult<G>, guard: G) -> bool {
    match attempt {
        Ok(g) => guard == g,
        Err(e) => call_ensures(PoisonError::<G>::into_inner, (e,), guard),
    }
}

/// Locks, whatever became of a thread that held the lock before: the slots are usable as
/// they are, and an unrelated panic must not freeze the application for good.
pub fn lock<T>(m: &Mutex<T>) -> (g: MutexGuard<'_, T>)
    ensures
        exists|attempt: LockResult<MutexGuard<'_, T>>| #[trigger]
            call_ensures(Mutex::<T>::lock, (m,), attempt) && guard_of(attempt, g),
{
    match m.lock() {
        Ok(g) => g,
        Err(e) => e.into_inner(),
    }
}

/// The channels that wait for the window, one slot for each kind of question, and whether
/// an installation runs. The type parameters are the sending ends.
#[derive(Debug)]
pub struct PendingInputs<Cancel, Confirm, Device, Account, Credentials, TwoFactor, Certs> {
    pub running: bool,
    pub cancel_tx: Option<Cancel>,
    pub confirm_tx: Option<Confirm>,
    pub device_tx: Option<Device>,
    pub account_tx: Option<Account>,
    pub credentials_tx: Option<Credentials>,
    pub twofa_tx: Option<TwoFactor>,
    pub certs_tx: Option<Certs>,
}

impl<Cancel, Confirm, Device, Account, Credentials, TwoFactor, Certs> PendingInputs<
    Cancel,
    Confirm,
    Device,
    Account,
    Credentials,
    TwoFactor,
    Certs,
> {
    /// No installation runs, and nothing waits for an answer.
    pub open spec fn idle() -> Self {
        PendingInputs {
            running: false,
            cancel_tx: None,
            confirm_tx: None,
            device_tx: None,
            account_tx: None,
            credentials_tx: None,
            twofa_tx: None,
            certs_tx: None,
        }
    }

    /// The same, with every question closed.
    pub open spec fn closed(self) -> Self {
        PendingInputs { running: self.running, ..Self::idle() }
    }

    pub fn new() -> (p: Self)
        ensures
            p == Self::idle(),
    {
        PendingInputs {
            running: false,
            cancel_tx: None,
            confirm_tx: None,
            device_tx: None,
            account_tx: None,
            credentials_tx: None,
            twofa_tx: None,
            certs_tx: None,
        }
    }

    /// What an attempt to begin an installation is answered.
    pub open spec fn start_answer(self) -> Result<(), FailureView> {
        if self.running {
            Err(FailureView::plain(ALREADY_RUNNING@, texts(ALREADY_RUNNING_STEPS@)))
        } else {
            Ok(())
        }
    }

    /// The same after an attempt to begin an installation.
    pub open spec fn started(self, cancel_tx: Cancel) -> Self {
        if self.running {
            self
        } else {
            PendingInputs { running: true, cancel_tx: Some(cancel_tx), ..self }
        }
    }

    /// An installation begins, unless one runs already. `cancel_tx` is the way to stop it.
    pub fn start_update(&mut self, cancel_tx: Cancel) -> (r: Result<(), Failure>)
        ensures
            outcome(r) == (if old(self).running {
                Err(FailureView::plain(ALREADY_RUNNING@, texts(ALREADY_RUNNING_STEPS@)))
            } else {
                Ok::<(), FailureView>(())
            }),
            *final(self) == (if old(self).running {
                *old(self)
            } else {
                PendingInputs { running: true, cancel_tx: Some(cancel_tx), ..*old(self) }
            }),
            outcome(r) == old(self).start_answer(),
            *final(self) == old(self).started(cancel_tx),
    {
        if self.running {
            return Err(Failure::new(ALREADY_RUNNING, &ALREADY_RUNNING_STEPS));
        }
        self.running = true;
        self.cancel_tx = Some(cancel_tx);
        Ok(())
    }

    /// The installation is over, well or badly. Every question is closed, so that a late
    /// answer of the window is not taken for an answer in the next installation.
    pub fn finish_update(&mut self)
        ensures
            *final(self) == Self::idle(),
    {
        self.close();
        self.running = false;
    }

    fn close(&mut self)
        ensures
            *final(self) == old(self).closed(),
    {
        self.cancel_tx = None;
        self.confirm_tx = None;
        self.device_tx = None;
        self.account_tx = None;
        self.credentials_tx = None;
        self.twofa_tx = None;
        self.certs_tx = None;
    }

    /// Cancels the installation: nothing waits any more, and every channel comes back as it
    /// was. The one that stops the installation is to be used first, if there is one; dropping
    /// the others then closes their questions without an answer.
    pub fn submit_cancel(&mut self) -> (r: Self)
        ensures
            r == *old(self),
            *final(self) == old(self).closed(),
    {
        PendingInputs {
            running: self.running,
            cancel_tx: self.cancel_tx.take(),
            confirm_tx: self.confirm_tx.take(),
            device_tx: self.device_tx.take(),
            account_tx: self.account_tx.take(),
            credentials_tx: self.credentials_tx.take(),
            twofa_tx: self.twofa_tx.take(),
            certs_tx: self.certs_tx.take(),
        }
    }

    /// The answer about installing the drivers is waited for from now on. Where it was waited for
    /// already, the older wait is closed.
    pub fn ask_confirm(&mut self, tx: Confirm)
        ensures
            *final(self) == (PendingInputs { confirm_tx: Some(tx), ..*old(self) }),
    {
        self.confirm_tx = Some(tx);
    }

    /// The channel for the answer about installing the drivers, where that is waited for:
    /// once it is taken out, the wait is over.
    pub fn submit_confirm(&mut self) -> (r: Option<Confirm>)
        ensures
            r == old(self).confirm_tx,
            *final(self) == (PendingInputs { confirm_tx: None, ..*old(self) }),
    {
        self.confirm_tx.take()
    }

    /// The choice of a phone is waited for from now on. Where it was waited for
    /// already, the older wait is closed.
    pub fn ask_device(&mut self, tx: Device)
        ensures
            *final(self) == (PendingInputs { device_tx: Some(tx), ..*old(self) }),
    {
        self.device_tx = Some(tx);
    }

    /// The channel for the choice of a phone, where that is waited for: once it is
    /// taken out, the wait is over.
    pub fn submit_device(&mut self) -> (r: Option<Device>)
        ensures
            r == old(self).device_tx,
            *final(self) == (PendingInputs { device_tx: None, ..*old(self) }),
    {
        self.device_tx.take()
    }

    /// The choice of an account is waited for from now on. Where it was waited for
    /// already, the older wait is closed.
    pub fn ask_account(&mut self, tx: Account)
        ensures
            *final(self) == (PendingInputs { account_tx: Some(tx), ..*old(self) }),
    {
        self.account_tx = Some(tx);
    }

    /// The channel for the choice of an account, where that is waited for: once it is
    /// taken out, the wait is over.
    pub fn submit_account_choice(&mut self) -> (r: Option<Account>)
        ensures
            r == old(self).account_tx,
            *final(self) == (PendingInputs { account_tx: None, ..*old(self) }),
    {
        self.account_tx.take()
    }

    /// The answer with account and password is waited for from now on. Where it was waited for
    /// already, the older wait is closed.
    pub fn ask_credentials(&mut self, tx: Credentials)
        ensures
            *final(self) == (PendingInputs { credentials_tx: Some(tx), ..*old(self) }),
    {
        self.credentials_tx = Some(tx);
    }

    /// The channel for the account and password, where that is waited for: once it is
    /// taken out, the wait is over.
    pub fn submit_credentials(&mut self) -> (r: Option<Credentials>)
        ensures
            r == old(self).credentials_tx,
            *final(self) == (PendingInputs { credentials_tx: None, ..*old(self) }),
    {
        self.credentials_tx.take()
    }

    /// The second factor is waited for from now on. Where it was waited for
    /// already, the older wait is closed.
    pub fn ask_2fa(&mut self, tx: TwoFactor)
        ensures
            *final(self) == (PendingInputs { twofa_tx: Some(tx), ..*old(self) }),
    {
        self.twofa_tx = Some(tx);
    }

    /// The channel for the second factor, where that is waited for: once it is
    /// taken out, the wait is over.
    pub fn submit_2fa(&mut self) -> (r: Option<TwoFactor>)
        ensures
            r == old(self).twofa_tx,
            *final(self) == (PendingInputs { twofa_tx: None, ..*old(self) }),
    {
        self.twofa_tx.take()
    }

    /// The choice of certificates is waited for from now on. Where it was waited for
    /// already, the older wait is closed.
    pub fn ask_certs(&mut self, tx: Certs)
        ensures
            *final(self) == (PendingInputs { certs_tx: Some(tx), ..*old(self) }),
    {
        self.certs_tx = Some(tx);
    }

    /// The channel for the choice of certificates, where that is waited for: once it is
    /// taken out, the wait is over.
    pub fn submit_cert_choice(&mut self) -> (r: Option<Certs>)
        ensures
            r == old(self).certs_tx,
            *final(self) == (PendingInputs { certs_tx: None, ..*old(self) }),
    {
        self.certs_tx.take()
    }
}

/// Once an installation is over, or was cancelled, no question waits: whatever the window
/// answers late finds no channel.
pub proof fn law_nothing_waits_after_the_end<
    Cancel,
    Confirm,
    Device,
    Account,
    Credentials,
    TwoFactor,
    Certs,
>(p: PendingInputs<Cancel, Confirm, Device, Account, Credentials, TwoFactor, Certs>)
    requires
        p == p.closed(),
    ensures
        p.cancel_tx is None,
        p.confirm_tx is None,
        p.device_tx is None,
        p.account_tx is None,
        p.credentials_tx is None,
        p.twofa_tx is None,
        p.certs_tx is None,
{
}

/// Closing every question leaves the word whether an installation runs, and nothing else; at
/// the start and at the end, none runs.
pub proof fn law_closing_keeps_the_run<
    Cancel,
    Confirm,
    Device,
    Account,
    Credentials,
    TwoFactor,
    Certs,
>(p: PendingInputs<Cancel, Confirm, Device, Account, Credentials, TwoFactor, Certs>)
    ensures
        ({
            let closed = p.closed();
            &&& closed.running == p.running
            &&& closed.cancel_tx is None && closed.confirm_tx is None && closed.device_tx is None
            &&& closed.account_tx is None && closed.credentials_tx is None
            &&& closed.twofa_tx is None && closed.certs_tx is None
        }),
        ({
            let idle = PendingInputs::<
                Cancel,
                Confirm,
                Device,
                Account,
                Credentials,
                TwoFactor,
                Certs,
            >::idle();
            !idle.running && idle == idle.closed()
        }),
{
}

/// One installation runs at a time: it begins where none runs, and an attempt while one does
/// is refused and changes nothing, its way to be stopped least of all. Once it is over,
/// another one can begin.
pub proof fn law_one_installation_at_a_time<
    Cancel,
    Confirm,
    Device,
    Account,
    Credentials,
    TwoFactor,
    Certs,
>(
    p: PendingInputs<Cancel, Confirm, Device, Account, Credentials, TwoFactor, Certs>,
    first: Cancel,
    second: Cancel,
)
    ensures
        !p.running ==> {
            let begun = p.started(first);
            &&& p.start_answer() is Ok
            &&& begun.running
            &&& begun.cancel_tx == Some(first)
            &&& begun.confirm_tx == p.confirm_tx && begun.device_tx == p.device_tx
            &&& begun.account_tx == p.account_tx && begun.credentials_tx == p.credentials_tx
            &&& begun.twofa_tx == p.twofa_tx && begun.certs_tx == p.certs_tx
        },
        p.running ==> {
            &&& p.start_answer() == Err::<(), FailureView>(
                FailureView::plain(
                    "Une installation est deja en cours"@,
                    texts(ALREADY_RUNNING_STEPS@),
                ),
            )
            &&& p.started(second) == p
        },
        p.started(first).started(second) == p.started(first),
        p.started(first).start_answer() is Err,
        PendingInputs::<
    Cancel,
    Confirm,
    Device,
    Account,
    Credentials,
    TwoFactor,
    Certs,
>::idle().start_answer() is Ok,
{
}

/// What an installation that was raced against its cancellation is answered.
pub open spec fn race_answer(ended: Option<Result<(), FailureView>>) -> Result<(), FailureView> {
    match ended {
        Some(end) => end,
        None => Err(FailureView::abandoned(UPDATE_CANCELLED@)),
    }
}

/// An installation that came to its end is answered by it, a cancelled one as a cancellation.
pub proof fn law_an_end_comes_before_a_cancellation(end: Result<(), FailureView>)
    ensures
        race_answer(Some(end)) == end,
        race_answer(None) == Err::<(), FailureView>(FailureView::abandoned("Installation annulee"@)),
{
}

/// What an installation that was raced against its cancellation comes to: its own end,
/// or a cancellation where it did not come to one.
pub fn update_outcome(ended: Option<Result<(), Failure>>) -> (r: Result<(), Failure>)
    ensures
        match ended {
            Some(end) => r == end,
            None => outcome(r) == Err::<(), FailureView>(
                FailureView::abandoned(UPDATE_CANCELLED@),
            ),
        },
        outcome(r) == race_answer(
            match ended {
                Some(end) => Some(outcome(end)),
                None => None,
            },
        ),
{
    match ended {
        Some(end) => end,
        None => Err(Failure::cancelled(UPDATE_CANCELLED)),
    }
}

} // verus!
