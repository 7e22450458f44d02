//! Choosing which certificates to revoke when the account has no room for another.

use crate::text::opt_string;
use vstd::prelude::*;

verus! {

pub const NO_NAME: &'static str = "<sans nom>";

pub const NO_MACHINE: &'static str = "<machine inconnue>";

/// A certificate of the account, as far as Apple describes it.
#[derive(Debug)]
pub struct Certificate {
    pub name: Option<String>,
    pub machine_name: Option<String>,
    pub serial_number: Option<String>,
}

/// A certificate that the user can pick.
#[derive(Debug)]
pub struct CertOption {
    pub name: String,
    pub machine: String,
    pub serial: String,
}

pub struct CertOptionView {
    pub name: Seq<char>,
    pub machine: Seq<char>,
    pub serial: Seq<char>,
}

impl View for CertOption {
    type V = CertOptionView;

    open spec fn view(&self) -> CertOptionView {
        CertOptionView { name: self.name@, machine: self.machine@, serial: self.serial@ }
    }
}

/// How a certificate is offered: with a stand-in for what Apple does not say.
pub open spec fn cert_offer(cert: Certificate) -> CertOptionView {
    CertOptionView {
        name: match opt_string(cert.name) {
            Some(n) => n,
            None => NO_NAME@,
        },
        machine: match opt_string(cert.machine_name) {
            Some(m) => m,
            None => NO_MACHINE@,
        },
        serial: match opt_string(cert.serial_number) {
            Some(s) => s,
            None => Seq::empty(),
        },
    }
}

pub open spec fn cert_offers(list: Seq<Certificate>) -> Seq<CertOptionView> {
    list.map_values(|c: Certificate| cert_offer(c))
}

pub open spec fn cert_views(list: Seq<CertOption>) -> Seq<CertOptionView> {
    list.map_values(|c: CertOption| c@)
}

fn or_default(value: &Option<String>, default: &str) -> (r: String)
    ensures
        r@ == (match opt_string(*value) {
            Some(v) => v,
            None => default@,
        }),
{
    match value {
        Some(v) => v.clone(),
        None => default.to_string(),
    }
}

/// The certificates as they are offered to the user.
pub fn cert_options(certs: &Vec<Certificate>) -> (r: Vec<CertOption>)
    ensures
        cert_views(r@) == cert_offers(certs@),
{
    let mut r: Vec<CertOption> = Vec::new();
    for i in 0..certs.len()
        invariant
            r@.len() == i,
            forall|j: int| 0 <= j < i ==> (#[trigger] r@[j])@ == cert_offer(certs@[j]),
    {
        proof {
            reveal_strlit("");
            assert(""@ =~= Seq::empty());
        }
        r.push(
            CertOption {
                name: or_default(&certs[i].name, NO_NAME),
                machine: or_default(&certs[i].machine_name, NO_MACHINE),
                serial: or_default(&certs[i].serial_number, ""),
            },
        );
    }
    assert(cert_views(r@) =~= cert_offers(certs@));
    r
}

/// What the user picked, if anything.
pub open spec fn picked(answer: Option<Vec<String>>) -> Option<Vec<String>> {
    match answer {
        Some(serials) => if serials@.len() > 0 {
            Some(serials)
        } else {
            None
        },
        None => None,
    }
}

/// Whatever the user picks is taken as it is, and picking nothing is no choice.
pub proof fn law_picked_certificates_are_taken_as_they_are(serials: Vec<String>)
    ensures
        serials@.len() > 0 ==> picked(Some(serials)) == Some(serials),
        serials@.len() == 0 ==> picked(Some(serials)) is None,
        picked(None) is None,
{
}

/// What the user picked, from the answer of the window: a question closed without an
/// answer, or answered with nothing, picks none.
pub fn cert_choice(answer: Option<Vec<String>>) -> (r: Option<Vec<String>>)
    ensures
        r == (match answer {
            Some(serials) if serials@.len() > 0 => Some(serials),
            _ => None,
        }),
        r == picked(answer),
{
    match answer {
        Some(serials) => if serials.len() > 0 {
            Some(serials)
        } else {
            None
        },
        None => None,
    }
}

/// Each certificate is offered, in order, with what Apple says of it, and with a stand-in for
/// what it does not say.
pub proof fn law_every_certificate_is_offered(list: Seq<Certificate>, i: int)
    requires
        0 <= i < list.len(),
    ensures
        cert_offers(list).len() == list.len(),
        ({
            let offer = cert_offers(list)[i];
            let cert = list[i];
            &&& offer.name == (match cert.name {
                Some(n) => n@,
                None => "<sans nom>"@,
            })
            &&& offer.machine == (match cert.machine_name {
                Some(m) => m@,
                None => "<machine inconnue>"@,
            })
            &&& offer.serial == (match cert.serial_number {
                Some(s) => s@,
                None => Seq::empty(),
            })
        }),
{
}

/// Offers are seen with all that they hold.
pub proof fn law_cert_offers_are_seen_whole(list: Seq<CertOption>, i: int)
    requires
        0 <= i < list.len(),
    ensures
        cert_views(list).len() == list.len(),
        cert_views(list)[i].name == list[i].name@,
        cert_views(list)[i].machine == list[i].machine@,
        cert_views(list)[i].serial == list[i].serial@,
{
}

} // verus!
