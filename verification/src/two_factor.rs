//! The second factor of the Apple account: what is asked of the user, and what the
//! answer means.
//!
//! Apple does not always say by which channel a code comes. A code sent in that state
//! makes the connection fail: a channel has to be chosen first. The user is therefore
//! given what it takes to show either the field for the code or the choice of a channel.

use crate::text::{join, opt_string};
use crate::trouble::{recognise, trouble_of, Trouble};
use vstd::prelude::*;

verus! {

pub const NUMBER_HEAD: &'static str = "Numero se terminant par ";

pub const CODE_REFUSED: &'static str = "Le code precedent n'a pas ete accepte.";

/// The error of a question that was closed without an answer.
pub const CODE_CANCELLED: &'static str = "saisie du code de verification annulee";

/// A phone number that Apple knows.
#[derive(Debug)]
pub struct TrustedNumber {
    pub id: u32,
    /// The number as far as Apple shows it; may be empty.
    pub number_with_dial_code: String,
    pub last_two_digits: String,
}

/// What Apple says when it wants a second factor.
#[derive(Debug)]
pub struct TwoFactorRequest {
    /// Why the last code was refused, if one was.
    pub last_error: Option<String>,
    /// Apple did not say which channel to use.
    pub unknown: bool,
    pub sms: bool,
    pub numbers: Vec<TrustedNumber>,
}

/// A phone number to choose.
#[derive(Debug)]
pub struct NumberOption {
    pub id: u32,
    pub label: String,
}

/// What the user is shown.
#[derive(Debug)]
pub struct TwoFactorPrompt {
    pub unknown: bool,
    pub sms: bool,
    pub numbers: Vec<NumberOption>,
    pub error: Option<String>,
}

pub open spec fn number_label(number: TrustedNumber) -> Seq<char> {
    if number.number_with_dial_code@.len() == 0 {
        NUMBER_HEAD@ + number.last_two_digits@
    } else {
        number.number_with_dial_code@
    }
}

pub open spec fn number_choices(list: Seq<TrustedNumber>) -> Seq<(u32, Seq<char>)> {
    list.map_values(|n: TrustedNumber| (n.id, number_label(n)))
}

pub open spec fn number_options(list: Seq<NumberOption>) -> Seq<(u32, Seq<char>)> {
    list.map_values(|n: NumberOption| (n.id, n.label@))
}

/// A sentence for a refusal by Apple: that of the trouble recognised in its text, or else
/// a general one. The raw text is not shown.
pub open spec fn refusal_sentence(trouble: Option<Trouble>) -> Seq<char> {
    match trouble {
        Some(t) => t.failure().title,
        None => CODE_REFUSED@,
    }
}

pub open spec fn refusal_text(error: Seq<char>) -> Seq<char> {
    refusal_sentence(trouble_of(error))
}

/// The sentence for a refusal by Apple in whose text a trouble was recognised, or none.
pub fn explain_refusal(trouble: Option<Trouble>) -> (r: String)
    ensures
        r@ == refusal_sentence(trouble),
{
    match trouble {
        Some(t) => t.explanation().title,
        None => CODE_REFUSED.to_string(),
    }
}

/// The sentence shown about the last code, if one was refused.
pub open spec fn prompt_error(last_error: Option<Seq<char>>) -> Option<Seq<char>> {
    match last_error {
        Some(e) => Some(refusal_text(e)),
        None => None,
    }
}

/// A refused code is always spoken of, and no other.
pub proof fn law_refused_codes_are_spoken_of(error: Seq<char>)
    ensures
        prompt_error(Some(error)) == Some(refusal_text(error)),
        prompt_error(None) is None,
        trouble_of(error) matches Some(t) ==> refusal_text(error) == t.failure().title,
        trouble_of(error) is None ==> refusal_text(error)
            == "Le code precedent n'a pas ete accepte."@,
{
}

fn label(number: &TrustedNumber) -> (r: String)
    ensures
        r@ == number_label(*number),
{
    if number.number_with_dial_code.as_str().is_empty() {
        let r: String = join(NUMBER_HEAD, number.last_two_digits.as_str(), "");
        proof {
            reveal_strlit("");
            assert(r@ =~= number_label(*number));
        }
        r
    } else {
        number.number_with_dial_code.clone()
    }
}

/// What the user is shown when Apple wants a second factor.
pub fn wait_2fa(request: &TwoFactorRequest) -> (r: TwoFactorPrompt)
    ensures
        r.unknown == request.unknown,
        r.sms == request.sms,
        number_options(r.numbers@) == number_choices(request.numbers@),
        opt_string(r.error) == (match request.last_error {
            Some(e) => Some(refusal_text(e@)),
            None => None,
        }),
        opt_string(r.error) == prompt_error(opt_string(request.last_error)),
{
    let mut numbers: Vec<NumberOption> = Vec::new();
    for i in 0..request.numbers.len()
        invariant
            numbers@.len() == i,
            forall|j: int|
                0 <= j < i ==> (#[trigger] numbers@[j]).id == request.numbers@[j].id
                    && numbers@[j].label@ == number_label(request.numbers@[j]),
    {
        let number: &TrustedNumber = &request.numbers[i];
        numbers.push(NumberOption { id: number.id, label: label(number) });
    }
    assert(number_options(numbers@) =~= number_choices(request.numbers@));
    let error: Option<String> = match &request.last_error {
        Some(e) => Some(explain_refusal(recognise(e.as_str()))),
        None => None,
    };
    TwoFactorPrompt { unknown: request.unknown, sms: request.sms, numbers, error }
}

/// The raw text by which Apple refuses a code is never shown: what is shown is the title of
/// a known trouble, or one general sentence.
pub proof fn law_raw_refusal_is_not_shown(error: Seq<char>)
    ensures
        match trouble_of(error) {
            Some(t) => refusal_text(error) == t.failure().title,
            None => refusal_text(error) == CODE_REFUSED@,
        },
{
}

/// What the user wants to be done.
#[derive(Debug)]
pub enum TwoFactorAnswer {
    SubmitCode(String),
    /// Send a code by SMS to the number with this identifier.
    SendSms(u32),
    /// Send a code to the trusted devices.
    SendToDevices,
    ResendCode,
}

pub enum TwoFactorAnswerView {
    SubmitCode(Seq<char>),
    SendSms(u32),
    SendToDevices,
    ResendCode,
}

impl View for TwoFactorAnswer {
    type V = TwoFactorAnswerView;

    open spec fn view(&self) -> TwoFactorAnswerView {
        match self {
            TwoFactorAnswer::SubmitCode(c) => TwoFactorAnswerView::SubmitCode(c@),
            TwoFactorAnswer::SendSms(id) => TwoFactorAnswerView::SendSms(*id),
            TwoFactorAnswer::SendToDevices => TwoFactorAnswerView::SendToDevices,
            TwoFactorAnswer::ResendCode => TwoFactorAnswerView::ResendCode,
        }
    }
}

/// The meaning of an answer from the window: `resend`, `devices` and `sms` ask for a new
/// code, an SMS without a number goes to the trusted devices instead, and everything else
/// submits the code, empty where there is none.
pub open spec fn answer_of(
    action: Seq<char>,
    code: Option<Seq<char>>,
    number_id: Option<u32>,
) -> TwoFactorAnswerView {
    if action == "resend"@ {
        TwoFactorAnswerView::ResendCode
    } else if action == "devices"@ {
        TwoFactorAnswerView::SendToDevices
    } else if action == "sms"@ {
        match number_id {
            Some(id) => TwoFactorAnswerView::SendSms(id),
            None => TwoFactorAnswerView::SendToDevices,
        }
    } else {
        TwoFactorAnswerView::SubmitCode(
            match code {
                Some(c) => c,
                None => Seq::empty(),
            },
        )
    }
}

/// Reads the answer of the window.
pub fn submit_2fa(action: String, code: Option<String>, number_id: Option<u32>) -> (r:
    TwoFactorAnswer)
    ensures
        r@ == answer_of(action@, opt_string(code), number_id),
{
    if action == "resend".to_string() {
        TwoFactorAnswer::ResendCode
    } else if action == "devices".to_string() {
        TwoFactorAnswer::SendToDevices
    } else if action == "sms".to_string() {
        match number_id {
            Some(id) => TwoFactorAnswer::SendSms(id),
            None => TwoFactorAnswer::SendToDevices,
        }
    } else {
        match code {
            Some(c) => TwoFactorAnswer::SubmitCode(c),
            None => TwoFactorAnswer::SubmitCode(String::new()),
        }
    }
}

/// What the words of the window ask for. A code goes to Apple as it was typed, and an SMS to
/// the number that was picked.
pub proof fn law_what_the_window_asks_for(
    action: Seq<char>,
    code: Option<Seq<char>>,
    number_id: Option<u32>,
)
    ensures
        answer_of("resend"@, code, number_id) == TwoFactorAnswerView::ResendCode,
        answer_of("devices"@, code, number_id) == TwoFactorAnswerView::SendToDevices,
        number_id matches Some(id) ==> answer_of("sms"@, code, number_id)
            == TwoFactorAnswerView::SendSms(id),
        number_id is None ==> answer_of("sms"@, code, number_id)
            == TwoFactorAnswerView::SendToDevices,
        action != "resend"@ && action != "devices"@ && action != "sms"@ ==> {
            &&& code matches Some(c) ==> answer_of(action, code, number_id)
                == TwoFactorAnswerView::SubmitCode(c)
            &&& code is None ==> answer_of(action, code, number_id)
                == TwoFactorAnswerView::SubmitCode(Seq::empty())
        },
{
    reveal_strlit("resend");
    reveal_strlit("devices");
    reveal_strlit("sms");
    assert("resend"@.len() == 6);
    assert("devices"@.len() == 7);
    assert("sms"@.len() == 3);
}

/// Each number that Apple knows is offered, in order and under its own identifier, by the
/// number itself where Apple shows it, and else by its last digits.
pub proof fn law_every_number_is_offered(list: Seq<TrustedNumber>, i: int)
    requires
        0 <= i < list.len(),
    ensures
        number_choices(list).len() == list.len(),
        number_choices(list)[i].0 == list[i].id,
        list[i].number_with_dial_code@.len() > 0 ==> number_choices(list)[i].1
            == list[i].number_with_dial_code@,
        list[i].number_with_dial_code@.len() == 0 ==> number_choices(list)[i].1
            == "Numero se terminant par "@ + list[i].last_two_digits@,
{
}

/// Offers and answers are seen with all that they hold.
pub proof fn law_offers_and_answers_are_seen_whole(
    list: Seq<NumberOption>,
    code: String,
    id: u32,
)
    ensures
        number_options(list).len() == list.len(),
        forall|i: int|
            0 <= i < list.len() ==> #[trigger] number_options(list)[i] == (
                list[i].id,
                list[i].label@,
            ),
        TwoFactorAnswer::SubmitCode(code)@ == TwoFactorAnswerView::SubmitCode(code@),
        TwoFactorAnswer::SendSms(id)@ == TwoFactorAnswerView::SendSms(id),
        TwoFactorAnswer::SendToDevices@ == TwoFactorAnswerView::SendToDevices,
        TwoFactorAnswer::ResendCode@ == TwoFactorAnswerView::ResendCode,
{
}

} // verus!
