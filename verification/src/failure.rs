//! What the window shows when something goes wrong.
//!
//! No raw error of a library reaches the screen as it is: every failure has a title
//! in plain French and the steps to take, and keeps the technical text folded below
//! for a bug report.

use crate::text::{is_blank, law_trimmed, opt_string, strings, texts, to_strings, trim, trimmed};
use crate::trouble::{recognise, trouble_of, Trouble};
use vstd::prelude::*;

verus! {

/// A readable title, the concrete steps to take, and the technical detail for the bug
/// report.
#[derive(Clone, Debug)]
pub struct Failure {
    pub title: String,
    pub steps: Vec<String>,
    pub detail: Option<String>,
    /// The user cancelled: shown in neutral colours, with no offer to send a report.
    pub cancelled: bool,
    /// This failure is a reason to ask for the account and password again rather than
    /// to give up.
    pub retry_credentials: bool,
}

#[verifier::ext_equal]
pub struct FailureView {
    pub title: Seq<char>,
    pub steps: Seq<Seq<char>>,
    pub detail: Option<Seq<char>>,
    pub cancelled: bool,
    pub retry_credentials: bool,
}

impl View for Failure {
    type V = FailureView;

    open spec fn view(&self) -> FailureView {
        FailureView {
            title: self.title@,
            steps: strings(self.steps@),
            detail: opt_string(self.detail),
            cancelled: self.cancelled,
            retry_credentials: self.retry_credentials,
        }
    }
}

impl FailureView {
    /// A failure with a title and steps, and nothing else to it.
    pub open spec fn plain(title: Seq<char>, steps: Seq<Seq<char>>) -> FailureView {
        FailureView { title, steps, detail: None, cancelled: false, retry_credentials: false }
    }

    /// What is left when the user gives up.
    pub open spec fn abandoned(title: Seq<char>) -> FailureView {
        FailureView {
            title,
            steps: Seq::empty(),
            detail: None,
            cancelled: true,
            retry_credentials: false,
        }
    }

    pub open spec fn retrying(self) -> FailureView {
        FailureView { retry_credentials: true, ..self }
    }

    /// The failure with a technical text folded below it, unless that text is blank.
    pub open spec fn detailed(self, detail: Seq<char>) -> FailureView {
        if is_blank(detail) {
            self
        } else {
            FailureView { detail: Some(trimmed(detail)), ..self }
        }
    }
}

/// The failure shown for a known trouble, or else what the caller has to say, with the
/// technical text as the detail.
pub open spec fn explained_as(
    trouble: Option<Trouble>,
    detail: Seq<char>,
    title: Seq<char>,
    steps: Seq<Seq<char>>,
) -> FailureView {
    match trouble {
        Some(t) => t.failure().detailed(detail),
        None => FailureView::plain(title, steps).detailed(detail),
    }
}

/// The failure shown for a technical error text, by the trouble that it gives away.
pub open spec fn explained(
    detail: Seq<char>,
    title: Seq<char>,
    steps: Seq<Seq<char>>,
) -> FailureView {
    explained_as(trouble_of(detail), detail, title, steps)
}

/// The views of the two sides of a result.
pub open spec fn outcome<T>(r: Result<T, Failure>) -> Result<T, FailureView> {
    match r {
        Ok(t) => Ok(t),
        Err(f) => Err(f@),
    }
}

impl Failure {
    pub fn new(title: &str, steps: &[&str]) -> (f: Self)
        ensures
            f@ == FailureView::plain(title@, texts(steps@)),
    {
        Failure {
            title: title.to_string(),
            steps: to_strings(steps),
            detail: None,
            cancelled: false,
            retry_credentials: false,
        }
    }

    pub fn cancelled(title: &str) -> (f: Self)
        ensures
            f@ == FailureView::abandoned(title@),
    {
        let f = Failure {
            title: title.to_string(),
            steps: Vec::new(),
            detail: None,
            cancelled: true,
            retry_credentials: false,
        };
        assert(f@ =~= FailureView::abandoned(title@));
        f
    }

    pub fn retryable(self) -> (f: Self)
        ensures
            f@ == self@.retrying(),
    {
        Failure { retry_credentials: true, ..self }
    }

    pub fn with_detail(self, detail: &str) -> (f: Self)
        ensures
            f@ == self@.detailed(detail@),
    {
        proof {
            law_trimmed(detail@);
        }
        let kept: &str = trim(detail);
        if !kept.is_empty() {
            Failure { detail: Some(kept.to_string()), ..self }
        } else {
            self
        }
    }

    /// The one line by which a failure is named in a log.
    pub fn display(&self) -> (r: String)
        ensures
            r@ == self@.title,
    {
        self.title.clone()
    }
}

/// The failure for a technical error text in which a known trouble was recognised, or none.
pub fn explain_as(trouble: Option<Trouble>, detail: &str, title: &str, steps: &[&str]) -> (f:
    Failure)
    ensures
        f@ == explained_as(trouble, detail@, title@, texts(steps@)),
{
    match trouble {
        Some(t) => t.explanation().with_detail(detail),
        None => Failure::new(title, steps).with_detail(detail),
    }
}

/// The failure for a technical error text that comes with a title and steps of the
/// caller's own.
pub fn explain_error(detail: &str, title: &str, steps: &[&str]) -> (f: Failure)
    ensures
        f@ == explained(detail@, title@, texts(steps@)),
{
    explain_as(recognise(detail), detail, title, steps)
}

/// What a result with an error text comes to.
pub open spec fn explained_result<T>(
    r: Result<T, String>,
    title: Seq<char>,
    steps: Seq<Seq<char>>,
) -> Result<T, FailureView> {
    match r {
        Ok(t) => Ok(t),
        Err(e) => Err(explained(e@, title, steps)),
    }
}

/// What a value that may be missing comes to.
pub open spec fn demanded<T>(
    value: Option<T>,
    title: Seq<char>,
    steps: Seq<Seq<char>>,
) -> Result<T, FailureView> {
    match value {
        Some(t) => Ok(t),
        None => Err(FailureView::plain(title, steps)),
    }
}

/// What there is comes through as it is; an error is explained, and what is missing is a
/// failure in the caller's words.
pub proof fn law_what_there_is_comes_through<T>(
    t: T,
    e: String,
    title: Seq<char>,
    steps: Seq<Seq<char>>,
)
    ensures
        explained_result(Ok::<T, String>(t), title, steps) == Ok::<T, FailureView>(t),
        explained_result(Err::<T, String>(e), title, steps) == Err::<T, FailureView>(
            explained(e@, title, steps),
        ),
        demanded(Some(t), title, steps) == Ok::<T, FailureView>(t),
        demanded(None::<T>, title, steps) == Err::<T, FailureView>(
            FailureView::plain(title, steps),
        ),
{
}

/// Turns an error text into a [`Failure`].
pub trait Explain<T>: Sized {
    fn explain(self, title: &str, steps: &[&str]) -> Result<T, Failure>;
}

impl<T> Explain<T> for Result<T, String> {
    fn explain(self, title: &str, steps: &[&str]) -> (r: Result<T, Failure>)
        ensures
            outcome(r) == (match self {
                Ok(t) => Ok::<T, FailureView>(t),
                Err(e) => Err(explained(e@, title@, texts(steps@))),
            }),
            outcome(r) == explained_result(self, title@, texts(steps@)),
    {
        match self {
            Ok(t) => Ok(t),
            Err(e) => Err(explain_error(e.as_str(), title, steps)),
        }
    }
}

/// Turns a missing value into a [`Failure`].
pub trait ExplainOption<T>: Sized {
    fn or_fail(self, title: &str, steps: &[&str]) -> Result<T, Failure>;
}

impl<T> ExplainOption<T> for Option<T> {
    fn or_fail(self, title: &str, steps: &[&str]) -> (r: Result<T, Failure>)
        ensures
            outcome(r) == (match self {
                Some(t) => Ok::<T, FailureView>(t),
                None => Err(FailureView::plain(title@, texts(steps@))),
            }),
            outcome(r) == demanded(self, title@, texts(steps@)),
    {
        match self {
            Some(t) => Ok(t),
            None => Err(Failure::new(title, steps)),
        }
    }
}

/// A raw error text shows up in the detail of its failure and nowhere else: the title
/// and the steps are those of a known trouble or those of the caller, and the failure
/// is never taken for a cancellation.
pub proof fn law_raw_text_stays_in_the_detail(
    detail: Seq<char>,
    title: Seq<char>,
    steps: Seq<Seq<char>>,
)
    ensures
        ({
            let f = explained(detail, title, steps);
            &&& match trouble_of(detail) {
                Some(t) => f.title == t.failure().title && f.steps == t.failure().steps,
                None => f.title == title && f.steps == steps,
            }
            &&& f.detail == (if is_blank(detail) { None } else { Some(trimmed(detail)) })
            &&& !f.cancelled
        }),
{
}

/// What the kinds of failures show: the title and the steps that they are made with, the
/// technical text without the white space around it, where it is more than that, and who has
/// to act.
pub proof fn law_failures_show_what_they_are_made_of(
    title: Seq<char>,
    steps: Seq<Seq<char>>,
    detail: Seq<char>,
    f: FailureView,
)
    ensures
        ({
            let plain = FailureView::plain(title, steps);
            &&& plain.title == title
            &&& plain.steps == steps
            &&& plain.detail is None
            &&& !plain.cancelled
            &&& !plain.retry_credentials
        }),
        ({
            let given_up = FailureView::abandoned(title);
            &&& given_up.title == title
            &&& given_up.steps.len() == 0
            &&& given_up.detail is None
            &&& given_up.cancelled
            &&& !given_up.retry_credentials
        }),
        ({
            let again = f.retrying();
            &&& again.retry_credentials
            &&& again.title == f.title && again.steps == f.steps
            &&& again.detail == f.detail && again.cancelled == f.cancelled
        }),
        ({
            let told = f.detailed(detail);
            &&& told.title == f.title && told.steps == f.steps
            &&& told.cancelled == f.cancelled && told.retry_credentials == f.retry_credentials
            &&& told.detail == (if is_blank(detail) { f.detail } else { Some(trimmed(detail)) })
        }),
{
}

/// The failure for a technical text has the words of the trouble that was recognised in it,
/// and the caller's where none was; it asks for the credentials again for wrong credentials
/// alone.
pub proof fn law_known_words_come_before_the_callers(
    trouble: Option<Trouble>,
    detail: Seq<char>,
    title: Seq<char>,
    steps: Seq<Seq<char>>,
)
    ensures
        ({
            let f = explained_as(trouble, detail, title, steps);
            &&& trouble matches Some(t) ==> f.title == t.failure().title && f.steps
                == t.failure().steps
            &&& trouble is None ==> f.title == title && f.steps == steps
            &&& f.detail == (if is_blank(detail) { None } else { Some(trimmed(detail)) })
            &&& !f.cancelled
            &&& f.retry_credentials <==> trouble == Some(Trouble::WrongCredentials)
        }),
        explained(detail, title, steps) == explained_as(trouble_of(detail), detail, title, steps),
{
    if let Some(t) = trouble {
        crate::trouble::law_known_failures_are_complete(t);
    }
}

/// A failure and a result are seen with all that they hold.
pub proof fn law_failures_are_seen_whole<T>(f: Failure, t: T)
    ensures
        f@.title == f.title@,
        f@.steps == strings(f.steps@),
        f@.detail == opt_string(f.detail),
        f@.cancelled == f.cancelled,
        f@.retry_credentials == f.retry_credentials,
        outcome(Ok::<T, Failure>(t)) == Ok::<T, FailureView>(t),
        outcome(Err::<T, Failure>(f)) == Err::<T, FailureView>(f@),
{
}

} // verus!
