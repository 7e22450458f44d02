//! The troubles that the installation is known to run into, and how each is recognised
//! from the technical text of an error.

use crate::failure::{Failure, FailureView};
use crate::text::{contains, is_fragment, keeps_ascii, lowercase, texts, to_lowercase};
use vstd::prelude::*;
use vstd::utf8::is_ascii_chars;

verus! {

/// A known trouble.
#[derive(Clone, Copy, Debug, PartialEq, Eq, Structural)]
pub enum Trouble {
    /// Developer mode is off on the phone.
    DeveloperModeOff,
    /// The screen of the phone is locked.
    DeviceLocked,
    /// The phone waits for its owner to trust this PC.
    PairingPending,
    /// The owner refused to trust this PC.
    PairingDenied,
    /// The phone does not know this PC yet.
    NotPaired,
    /// A free account keeps three apps at most.
    FreeAppLimit,
    /// The phone is full.
    NoSpace,
    /// The phone refused the signature of the app.
    SignatureRefused,
    /// The link to the phone broke.
    LinkCut,
    /// The verification code is wrong.
    WrongCode,
    /// The account or its password is wrong.
    WrongCredentials,
    /// Apple blocked the account.
    AccountBlocked,
    /// The account wants a password made for one application.
    AppPasswordNeeded,
    /// The session with Apple is over.
    SessionExpired,
    /// The service that vouches for this PC is down.
    AnisetteDown,
    /// The account has no development team.
    NoTeam,
    /// The account has no room for another certificate.
    TooManyCertificates,
    /// The account has no room for another app identifier.
    AppIdLimit,
    /// There is no usable connection to the Internet.
    NoInternet,
}

/// Every known trouble, from the most precise to the most general: the state of the
/// phone, the cable, the Apple account, the network.
pub const TROUBLES: [Trouble; 19] = [
    Trouble::DeveloperModeOff,
    Trouble::DeviceLocked,
    Trouble::PairingPending,
    Trouble::PairingDenied,
    Trouble::NotPaired,
    Trouble::FreeAppLimit,
    Trouble::NoSpace,
    Trouble::SignatureRefused,
    Trouble::LinkCut,
    Trouble::WrongCode,
    Trouble::WrongCredentials,
    Trouble::AccountBlocked,
    Trouble::AppPasswordNeeded,
    Trouble::SessionExpired,
    Trouble::AnisetteDown,
    Trouble::NoTeam,
    Trouble::TooManyCertificates,
    Trouble::AppIdLimit,
    Trouble::NoInternet,
];

pub const DEVELOPER_MODE_OFF_FRAGMENTS: [&'static str; 2] = [
    "developer mode is not enabled",
    "developermodenotenabled",
];

pub const DEVELOPER_MODE_OFF: &'static str = "Le mode developpeur n'est pas active sur l'iPhone";

pub const DEVELOPER_MODE_OFF_STEPS: [&'static str; 4] = [
    "Sur l'iPhone : Reglages > Confidentialite et securite > Mode developpeur.",
    "Active l'interrupteur, puis accepte le redemarrage de l'iPhone.",
    "Apres le redemarrage, deverrouille l'iPhone et relance l'installation.",
    "Si l'entree « Mode developpeur » n'apparait pas, laisse l'iPhone branche 30 s et rouvre les Reglages.",
];

pub const DEVICE_LOCKED_FRAGMENTS: [&'static str; 4] = [
    "passwordprotected",
    "devicelocked",
    "device locked",
    "device is locked",
];

pub const DEVICE_LOCKED: &'static str = "L'iPhone est verrouille";

pub const DEVICE_LOCKED_STEPS: [&'static str; 3] = [
    "Deverrouille l'ecran de l'iPhone avec le code ou Face ID.",
    "Laisse l'ecran allume pendant toute l'installation.",
    "Relance l'installation.",
];

pub const PAIRING_PENDING_FRAGMENTS: [&'static str; 1] = [
    "pairingdialogresponsepending",
];

pub const PAIRING_PENDING: &'static str = "L'iPhone attend ta reponse";

pub const PAIRING_PENDING_STEPS: [&'static str; 3] = [
    "Regarde l'ecran de l'iPhone : la question « Se fier a cet ordinateur ? » est affichee.",
    "Touche « Se fier », puis saisis le code de l'iPhone.",
    "Relance l'installation.",
];

pub const PAIRING_DENIED_FRAGMENTS: [&'static str; 1] = [
    "userdeniedpairing",
];

pub const PAIRING_DENIED: &'static str = "L'autorisation a ete refusee sur l'iPhone";

pub const PAIRING_DENIED_STEPS: [&'static str; 3] = [
    "Debranche puis rebranche le cable USB.",
    "Quand l'iPhone demande « Se fier a cet ordinateur ? », touche « Se fier ».",
    "Saisis le code de l'iPhone si on te le demande, puis relance.",
];

pub const NOT_PAIRED_FRAGMENTS: [&'static str; 3] = [
    "invalidhostid",
    "device does not have pairing file",
    "missing pairrecorddata",
];

pub const NOT_PAIRED: &'static str = "L'iPhone n'autorise pas encore ce PC";

pub const NOT_PAIRED_STEPS: [&'static str; 4] = [
    "Deverrouille l'iPhone et laisse-le branche en USB.",
    "Debranche puis rebranche le cable : la question « Se fier a cet ordinateur ? » doit apparaitre.",
    "Touche « Se fier » et saisis le code de l'iPhone.",
    "Si la question n'apparait plus : Reglages > General > Transferer ou reinitialiser > Reinitialiser > Reinitialiser les reglages reseau et localisation, puis rebranche.",
];

pub const FREE_APP_LIMIT_FRAGMENTS: [&'static str; 2] = [
    "free development profiles",
    "maxfreeapplimit",
];

pub const FREE_APP_LIMIT: &'static str = "Limite de 3 apps atteinte pour ce compte Apple gratuit";

pub const FREE_APP_LIMIT_STEPS: [&'static str; 3] = [
    "Un compte Apple gratuit ne peut garder que 3 apps installees a la fois.",
    "Sur l'iPhone, supprime une app installee avec ce meme compte.",
    "Relance l'installation.",
];

pub const NO_SPACE_FRAGMENTS: [&'static str; 4] = [
    "no space",
    "out of space",
    "insufficient space",
    "not enough space",
];

pub const NO_SPACE: &'static str = "Espace insuffisant sur l'iPhone";

pub const NO_SPACE_STEPS: [&'static str; 2] = [
    "Libere au moins 500 Mo sur l'iPhone (Reglages > General > Stockage iPhone).",
    "Relance l'installation.",
];

pub const SIGNATURE_REFUSED_FRAGMENTS: [&'static str; 1] = [
    "applicationverificationfailed",
];

pub const SIGNATURE_REFUSED: &'static str = "L'iPhone a refuse la signature de l'app";

pub const SIGNATURE_REFUSED_STEPS: [&'static str; 3] = [
    "Sur l'iPhone, supprime l'ancienne version de TwitNinf si elle est encore installee.",
    "Reglages > General > VPN et gestion de l'appareil : supprime le profil de developpeur existant.",
    "Relance l'installation.",
];

pub const LINK_CUT_FRAGMENTS: [&'static str; 6] = [
    "os error 10054",
    "os error 10053",
    "connection reset",
    "connection aborted",
    "broken pipe",
    "device refused connection",
];

pub const LINK_CUT: &'static str = "La liaison avec l'iPhone a ete coupee";

pub const LINK_CUT_STEPS: [&'static str; 3] = [
    "Ne debranche pas l'iPhone pendant l'installation.",
    "Utilise un cable de donnees (certains cables ne font que charger) et un port USB directement sur le PC, sans hub.",
    "Deverrouille l'iPhone, garde l'ecran allume, puis relance.",
];

pub const WRONG_CODE_FRAGMENTS: [&'static str; 2] = [
    "-21669",
    "incorrect verification code",
];

pub const WRONG_CODE: &'static str = "Code de verification incorrect";

pub const WRONG_CODE_STEPS: [&'static str; 2] = [
    "Verifie les 6 chiffres recus sur ton iPhone ou par SMS.",
    "Demande un nouveau code si l'ancien a plus de quelques minutes.",
];

pub const WRONG_CREDENTIALS_FRAGMENTS: [&'static str; 3] = [
    "-20101",
    "your apple id or password",
    "incorrect apple id or password",
];

pub const WRONG_CREDENTIALS: &'static str = "Identifiant ou mot de passe Apple incorrect";

pub const WRONG_CREDENTIALS_STEPS: [&'static str; 2] = [
    "Verifie l'adresse du compte Apple et le mot de passe.",
    "Attention a la disposition du clavier et aux majuscules.",
];

pub const ACCOUNT_BLOCKED_FRAGMENTS: [&'static str; 3] = [
    "-36607",
    "account has been disabled",
    "account is locked",
];

pub const ACCOUNT_BLOCKED: &'static str = "Le compte Apple est bloque";

pub const ACCOUNT_BLOCKED_STEPS: [&'static str; 2] = [
    "Va sur iforgot.apple.com pour debloquer le compte.",
    "Reessaie ensuite depuis l'app.",
];

pub const APP_PASSWORD_NEEDED_FRAGMENTS: [&'static str; 1] = [
    "app-specific password",
];

pub const APP_PASSWORD_NEEDED: &'static str = "Ce compte exige un mot de passe pour application";

pub const APP_PASSWORD_NEEDED_STEPS: [&'static str; 2] = [
    "Cree un mot de passe pour application sur account.apple.com > Connexion et securite.",
    "Utilise ce mot de passe a la place du mot de passe habituel.",
];

pub const SESSION_EXPIRED_FRAGMENTS: [&'static str; 3] = [
    "-22421",
    "session has expired",
    "session expired",
];

pub const SESSION_EXPIRED: &'static str = "La session Apple a expire";

pub const SESSION_EXPIRED_STEPS: [&'static str; 1] = [
    "Relance simplement l'installation : une nouvelle session sera ouverte.",
];

pub const ANISETTE_DOWN_FRAGMENTS: [&'static str; 2] = [
    "anisette",
    "not provisioned",
];

pub const ANISETTE_DOWN: &'static str = "Le service d'authentification Apple ne repond pas";

pub const ANISETTE_DOWN_STEPS: [&'static str; 2] = [
    "C'est un service externe, momentanement indisponible.",
    "Verifie ta connexion Internet, puis reessaie dans quelques minutes.",
];

pub const NO_TEAM_FRAGMENTS: [&'static str; 2] = [
    "no developer teams",
    "no teams",
];

pub const NO_TEAM: &'static str = "Ce compte Apple n'a pas d'equipe de developpement";

pub const NO_TEAM_STEPS: [&'static str; 2] = [
    "Connecte-toi une fois sur developer.apple.com avec ce compte et accepte les conditions.",
    "Relance ensuite l'installation.",
];

pub const TOO_MANY_CERTIFICATES_FRAGMENTS: [&'static str; 2] = [
    "maximum number of certificates",
    "too many certificates",
];

pub const TOO_MANY_CERTIFICATES: &'static str = "Trop de certificats sur ce compte Apple";

pub const TOO_MANY_CERTIFICATES_STEPS: [&'static str; 2] = [
    "Relance l'installation : l'app proposera d'en revoquer un.",
    "Revoquer un certificat casse les apps signees avec, sur les autres PC.",
];

pub const APP_ID_LIMIT_FRAGMENTS: [&'static str; 3] = [
    "app id limit",
    "maximum app id",
    "maximum number of app ids",
];

pub const APP_ID_LIMIT: &'static str = "Limite d'identifiants d'app atteinte chez Apple";

pub const APP_ID_LIMIT_STEPS: [&'static str; 2] = [
    "Apple limite un compte gratuit a 10 identifiants d'app par periode de 7 jours.",
    "Il faut attendre que la periode glissante se libere, ou utiliser un autre compte Apple.",
];

pub const NO_INTERNET_FRAGMENTS: [&'static str; 6] = [
    "dns error",
    "failed to lookup",
    "error sending request",
    "connect error",
    "timed out",
    "operation timeout",
];

pub const NO_INTERNET: &'static str = "Pas de connexion Internet utilisable";

pub const NO_INTERNET_STEPS: [&'static str; 3] = [
    "Verifie que le PC est bien connecte a Internet.",
    "Si tu es derriere un VPN ou un pare-feu d'entreprise, desactive-le le temps de l'installation.",
    "Relance ensuite.",
];

/// One of the fragments stands in the text.
pub open spec fn any_fragment(fragments: Seq<Seq<char>>, text: Seq<char>) -> bool {
    exists|i: int| 0 <= i < fragments.len() && is_fragment(#[trigger] fragments[i], text)
}

impl Trouble {
    /// The pieces of text that give the trouble away.
    pub open spec fn fragments(self) -> Seq<Seq<char>> {
        match self {
            Trouble::DeveloperModeOff => texts(DEVELOPER_MODE_OFF_FRAGMENTS@),
            Trouble::DeviceLocked => texts(DEVICE_LOCKED_FRAGMENTS@),
            Trouble::PairingPending => texts(PAIRING_PENDING_FRAGMENTS@),
            Trouble::PairingDenied => texts(PAIRING_DENIED_FRAGMENTS@),
            Trouble::NotPaired => texts(NOT_PAIRED_FRAGMENTS@),
            Trouble::FreeAppLimit => texts(FREE_APP_LIMIT_FRAGMENTS@),
            Trouble::NoSpace => texts(NO_SPACE_FRAGMENTS@),
            Trouble::SignatureRefused => texts(SIGNATURE_REFUSED_FRAGMENTS@),
            Trouble::LinkCut => texts(LINK_CUT_FRAGMENTS@),
            Trouble::WrongCode => texts(WRONG_CODE_FRAGMENTS@),
            Trouble::WrongCredentials => texts(WRONG_CREDENTIALS_FRAGMENTS@),
            Trouble::AccountBlocked => texts(ACCOUNT_BLOCKED_FRAGMENTS@),
            Trouble::AppPasswordNeeded => texts(APP_PASSWORD_NEEDED_FRAGMENTS@),
            Trouble::SessionExpired => texts(SESSION_EXPIRED_FRAGMENTS@),
            Trouble::AnisetteDown => texts(ANISETTE_DOWN_FRAGMENTS@),
            Trouble::NoTeam => texts(NO_TEAM_FRAGMENTS@),
            Trouble::TooManyCertificates => texts(TOO_MANY_CERTIFICATES_FRAGMENTS@),
            Trouble::AppIdLimit => texts(APP_ID_LIMIT_FRAGMENTS@),
            Trouble::NoInternet => texts(NO_INTERNET_FRAGMENTS@),
        }
    }

    /// A lower case text gives the trouble away.
    pub open spec fn shows_in(self, text: Seq<char>) -> bool {
        any_fragment(self.fragments(), text)
    }

    /// What is shown for the trouble.
    pub open spec fn failure(self) -> FailureView {
        match self {
            Trouble::DeveloperModeOff => FailureView::plain(
                DEVELOPER_MODE_OFF@,
                texts(DEVELOPER_MODE_OFF_STEPS@),
            ),
            Trouble::DeviceLocked => FailureView::plain(
                DEVICE_LOCKED@,
                texts(DEVICE_LOCKED_STEPS@),
            ),
            Trouble::PairingPending => FailureView::plain(
                PAIRING_PENDING@,
                texts(PAIRING_PENDING_STEPS@),
            ),
            Trouble::PairingDenied => FailureView::plain(
                PAIRING_DENIED@,
                texts(PAIRING_DENIED_STEPS@),
            ),
            Trouble::NotPaired => FailureView::plain(NOT_PAIRED@, texts(NOT_PAIRED_STEPS@)),
            Trouble::FreeAppLimit => FailureView::plain(
                FREE_APP_LIMIT@,
                texts(FREE_APP_LIMIT_STEPS@),
            ),
            Trouble::NoSpace => FailureView::plain(NO_SPACE@, texts(NO_SPACE_STEPS@)),
            Trouble::SignatureRefused => FailureView::plain(
                SIGNATURE_REFUSED@,
                texts(SIGNATURE_REFUSED_STEPS@),
            ),
            Trouble::LinkCut => FailureView::plain(LINK_CUT@, texts(LINK_CUT_STEPS@)),
            Trouble::WrongCode => FailureView::plain(WRONG_CODE@, texts(WRONG_CODE_STEPS@)),
            Trouble::WrongCredentials => FailureView::plain(
                WRONG_CREDENTIALS@,
                texts(WRONG_CREDENTIALS_STEPS@),
            ).retrying(),
            Trouble::AccountBlocked => FailureView::plain(
                ACCOUNT_BLOCKED@,
                texts(ACCOUNT_BLOCKED_STEPS@),
            ),
            Trouble::AppPasswordNeeded => FailureView::plain(
                APP_PASSWORD_NEEDED@,
                texts(APP_PASSWORD_NEEDED_STEPS@),
            ),
            Trouble::SessionExpired => FailureView::plain(
                SESSION_EXPIRED@,
                texts(SESSION_EXPIRED_STEPS@),
            ),
            Trouble::AnisetteDown => FailureView::plain(
                ANISETTE_DOWN@,
                texts(ANISETTE_DOWN_STEPS@),
            ),
            Trouble::NoTeam => FailureView::plain(NO_TEAM@, texts(NO_TEAM_STEPS@)),
            Trouble::TooManyCertificates => FailureView::plain(
                TOO_MANY_CERTIFICATES@,
                texts(TOO_MANY_CERTIFICATES_STEPS@),
            ),
            Trouble::AppIdLimit => FailureView::plain(APP_ID_LIMIT@, texts(APP_ID_LIMIT_STEPS@)),
            Trouble::NoInternet => FailureView::plain(NO_INTERNET@, texts(NO_INTERNET_STEPS@)),
        }
    }

    fn detect(self, detail: &str) -> (r: bool)
        ensures
            r == self.shows_in(detail@),
    {
        match self {
            Trouble::DeveloperModeOff => any_in(detail, &DEVELOPER_MODE_OFF_FRAGMENTS),
            Trouble::DeviceLocked => any_in(detail, &DEVICE_LOCKED_FRAGMENTS),
            Trouble::PairingPending => any_in(detail, &PAIRING_PENDING_FRAGMENTS),
            Trouble::PairingDenied => any_in(detail, &PAIRING_DENIED_FRAGMENTS),
            Trouble::NotPaired => any_in(detail, &NOT_PAIRED_FRAGMENTS),
            Trouble::FreeAppLimit => any_in(detail, &FREE_APP_LIMIT_FRAGMENTS),
            Trouble::NoSpace => any_in(detail, &NO_SPACE_FRAGMENTS),
            Trouble::SignatureRefused => any_in(detail, &SIGNATURE_REFUSED_FRAGMENTS),
            Trouble::LinkCut => any_in(detail, &LINK_CUT_FRAGMENTS),
            Trouble::WrongCode => any_in(detail, &WRONG_CODE_FRAGMENTS),
            Trouble::WrongCredentials => any_in(detail, &WRONG_CREDENTIALS_FRAGMENTS),
            Trouble::AccountBlocked => any_in(detail, &ACCOUNT_BLOCKED_FRAGMENTS),
            Trouble::AppPasswordNeeded => any_in(detail, &APP_PASSWORD_NEEDED_FRAGMENTS),
            Trouble::SessionExpired => any_in(detail, &SESSION_EXPIRED_FRAGMENTS),
            Trouble::AnisetteDown => any_in(detail, &ANISETTE_DOWN_FRAGMENTS),
            Trouble::NoTeam => any_in(detail, &NO_TEAM_FRAGMENTS),
            Trouble::TooManyCertificates => any_in(detail, &TOO_MANY_CERTIFICATES_FRAGMENTS),
            Trouble::AppIdLimit => any_in(detail, &APP_ID_LIMIT_FRAGMENTS),
            Trouble::NoInternet => any_in(detail, &NO_INTERNET_FRAGMENTS),
        }
    }

    /// The failure to show for the trouble.
    pub fn explanation(self) -> (f: Failure)
        ensures
            f@ == self.failure(),
    {
        match self {
            Trouble::DeveloperModeOff => Failure::new(
                DEVELOPER_MODE_OFF,
                &DEVELOPER_MODE_OFF_STEPS,
            ),
            Trouble::DeviceLocked => Failure::new(DEVICE_LOCKED, &DEVICE_LOCKED_STEPS),
            Trouble::PairingPending => Failure::new(PAIRING_PENDING, &PAIRING_PENDING_STEPS),
            Trouble::PairingDenied => Failure::new(PAIRING_DENIED, &PAIRING_DENIED_STEPS),
            Trouble::NotPaired => Failure::new(NOT_PAIRED, &NOT_PAIRED_STEPS),
            Trouble::FreeAppLimit => Failure::new(FREE_APP_LIMIT, &FREE_APP_LIMIT_STEPS),
            Trouble::NoSpace => Failure::new(NO_SPACE, &NO_SPACE_STEPS),
            Trouble::SignatureRefused => Failure::new(SIGNATURE_REFUSED, &SIGNATURE_REFUSED_STEPS),
            Trouble::LinkCut => Failure::new(LINK_CUT, &LINK_CUT_STEPS),
            Trouble::WrongCode => Failure::new(WRONG_CODE, &WRONG_CODE_STEPS),
            Trouble::WrongCredentials => Failure::new(
                WRONG_CREDENTIALS,
                &WRONG_CREDENTIALS_STEPS,
            ).retryable(),
            Trouble::AccountBlocked => Failure::new(ACCOUNT_BLOCKED, &ACCOUNT_BLOCKED_STEPS),
            Trouble::AppPasswordNeeded => Failure::new(
                APP_PASSWORD_NEEDED,
                &APP_PASSWORD_NEEDED_STEPS,
            ),
            Trouble::SessionExpired => Failure::new(SESSION_EXPIRED, &SESSION_EXPIRED_STEPS),
            Trouble::AnisetteDown => Failure::new(ANISETTE_DOWN, &ANISETTE_DOWN_STEPS),
            Trouble::NoTeam => Failure::new(NO_TEAM, &NO_TEAM_STEPS),
            Trouble::TooManyCertificates => Failure::new(
                TOO_MANY_CERTIFICATES,
                &TOO_MANY_CERTIFICATES_STEPS,
            ),
            Trouble::AppIdLimit => Failure::new(APP_ID_LIMIT, &APP_ID_LIMIT_STEPS),
            Trouble::NoInternet => Failure::new(NO_INTERNET, &NO_INTERNET_STEPS),
        }
    }
}

/// The first trouble of the list, from `from` on, that a lower case text gives away.
pub open spec fn first_trouble(text: Seq<char>, from: int) -> Option<Trouble>
    decreases TROUBLES@.len() - from,
{
    if from < 0 || from >= TROUBLES@.len() {
        None
    } else if TROUBLES@[from].shows_in(text) {
        Some(TROUBLES@[from])
    } else {
        first_trouble(text, from + 1)
    }
}

/// The trouble that a technical text gives away, whatever its case.
pub open spec fn trouble_of(detail: Seq<char>) -> Option<Trouble> {
    first_trouble(lowercase(detail), 0)
}

/// What is shown for a technical text that gives a known trouble away.
pub open spec fn known_failure(detail: Seq<char>) -> Option<FailureView> {
    match trouble_of(detail) {
        Some(t) => Some(t.failure()),
        None => None,
    }
}

fn any_in(text: &str, fragments: &[&str]) -> (r: bool)
    ensures
        r == any_fragment(texts(fragments@), text@),
{
    for i in 0..fragments.len()
        invariant
            forall|j: int| 0 <= j < i ==> !is_fragment(#[trigger] texts(fragments@)[j], text@),
    {
        if contains(text, fragments[i]) {
            assert(is_fragment(texts(fragments@)[i as int], text@));
            return true;
        }
        assert(texts(fragments@)[i as int] == fragments@[i as int]@);
    }
    false
}

/// The first known trouble that a lower case text gives away.
pub fn find_trouble(lower: &str) -> (r: Option<Trouble>)
    ensures
        r == first_trouble(lower@, 0),
{
    let troubles: [Trouble; 19] = TROUBLES;
    for i in 0..19usize
        invariant
            troubles == TROUBLES,
            first_trouble(lower@, 0) == first_trouble(lower@, i as int),
    {
        if troubles[i].detect(lower) {
            return Some(troubles[i]);
        }
    }
    None
}

/// A technical text is taken for the trouble `t`, or for a more precise one that it gives
/// away as well.
pub open spec fn is_heard(t: Trouble, whole: Seq<char>) -> bool {
    exists|k: int, i: int|
        {
            &&& 0 <= k <= i < TROUBLES@.len()
            &&& #[trigger] TROUBLES@[i] == t
            &&& trouble_of(whole) == Some(#[trigger] TROUBLES@[k])
            &&& TROUBLES@[k].shows_in(lowercase(whole))
        }
}

/// The text around a part of a technical text never hides the trouble that the part gives
/// away, and never makes the answer more general.
pub open spec fn hears_its_parts(whole: Seq<char>) -> bool {
    forall|i: int, j: int|
        0 <= i <= j <= whole.len() ==> (trouble_of(#[trigger] whole.subrange(i, j)) matches Some(t)
            ==> is_heard(t, whole))
}

/// Recognises the common troubles in a technical text. The libraries below stack their
/// messages, so the pieces that give a trouble away are looked for anywhere in it.
pub fn recognise(detail: &str) -> (r: Option<Trouble>)
    ensures
        r == trouble_of(detail@),
        hears_its_parts(detail@),
{
    let lower: String = to_lowercase(detail);
    assert forall|i: int, j: int| 0 <= i <= j <= detail@.len() implies (trouble_of(
        #[trigger] detail@.subrange(i, j),
    ) matches Some(t) ==> is_heard(t, detail@)) by {
        if let Some(t) = trouble_of(detail@.subrange(i, j)) {
            lemma_heard(detail@.subrange(i, j), detail@);
        }
    }
    find_trouble(lower.as_str())
}

/// The failure to show for a technical text that gives a known trouble away.
pub fn classify(detail: &str) -> (r: Option<Failure>)
    ensures
        match r {
            Some(f) => known_failure(detail@) == Some(f@),
            None => known_failure(detail@) is None,
        },
        hears_its_parts(detail@),
{
    match recognise(detail) {
        Some(t) => Some(t.explanation()),
        None => None,
    }
}

/// The trouble found in a text is the first of the list that shows in it, and none is
/// found only where none shows.
pub proof fn law_most_precise_first(text: Seq<char>)
    ensures
        match first_trouble(text, 0) {
            Some(t) => exists|i: int|
                {
                    &&& 0 <= i < TROUBLES@.len()
                    &&& #[trigger] TROUBLES@[i] == t
                    &&& t.shows_in(text)
                    &&& forall|j: int| 0 <= j < i ==> !(#[trigger] TROUBLES@[j]).shows_in(text)
                },
            None => forall|j: int|
                0 <= j < TROUBLES@.len() ==> !(#[trigger] TROUBLES@[j]).shows_in(text),
        },
{
    lemma_first_trouble(text, 0);
}

proof fn lemma_first_trouble(text: Seq<char>, from: int)
    requires
        0 <= from <= TROUBLES@.len(),
    ensures
        match first_trouble(text, from) {
            Some(t) => exists|i: int|
                {
                    &&& from <= i < TROUBLES@.len()
                    &&& #[trigger] TROUBLES@[i] == t
                    &&& t.shows_in(text)
                    &&& forall|j: int| from <= j < i ==> !(#[trigger] TROUBLES@[j]).shows_in(text)
                },
            None => forall|j: int|
                from <= j < TROUBLES@.len() ==> !(#[trigger] TROUBLES@[j]).shows_in(text),
        },
    decreases TROUBLES@.len() - from,
{
    if from < TROUBLES@.len() && !TROUBLES@[from].shows_in(text) {
        lemma_first_trouble(text, from + 1);
    }
}

/// A trouble that shows in a text still shows in every text built around it, so the
/// longer text is recognised too, as that trouble or as a more precise one.
pub proof fn law_recognised_anywhere(text: Seq<char>, whole: Seq<char>, i: int)
    requires
        is_fragment(text, whole),
        0 <= i < TROUBLES@.len(),
        first_trouble(text, 0) == Some(TROUBLES@[i]),
    ensures
        exists|k: int|
            0 <= k <= i && first_trouble(whole, 0) == Some(#[trigger] TROUBLES@[k]),
{
    let t = TROUBLES@[i];
    law_most_precise_first(text);
    assert(t.shows_in(text));
    let n = choose|n: int|
        0 <= n < t.fragments().len() && is_fragment(#[trigger] t.fragments()[n], text);
    lemma_fragment_of_fragment(t.fragments()[n], text, whole);
    assert(t.shows_in(whole));
    law_most_precise_first(whole);
    let found = first_trouble(whole, 0);
    assert(found is Some);
    let k = choose|k: int|
        {
            &&& 0 <= k < TROUBLES@.len()
            &&& #[trigger] TROUBLES@[k] == found->0
            &&& forall|j: int| 0 <= j < k ==> !(#[trigger] TROUBLES@[j]).shows_in(whole)
        };
    assert(k <= i);
}

proof fn lemma_fragment_of_fragment(a: Seq<char>, b: Seq<char>, c: Seq<char>)
    requires
        is_fragment(a, b),
        is_fragment(b, c),
    ensures
        is_fragment(a, c),
{
    let i = choose|i: int|
        0 <= i <= b.len() - a.len() && #[trigger] b.subrange(i, i + a.len()) == a;
    let j = choose|j: int|
        0 <= j <= c.len() - b.len() && #[trigger] c.subrange(j, j + b.len()) == b;
    let k = i + j;
    let found = c.subrange(k, k + a.len());
    assert forall|n: int| 0 <= n < a.len() implies #[trigger] found[n] == a[n] by {
        assert(c.subrange(j, j + b.len())[i + n] == c[k + n]);
        assert(b.subrange(i, i + a.len())[n] == b[i + n]);
    }
    assert(found =~= a);
}

proof fn lemma_heard(part: Seq<char>, whole: Seq<char>)
    requires
        keeps_ascii(lowercase(part), lowercase(whole)),
        trouble_of(part) is Some,
    ensures
        is_heard(trouble_of(part)->0, whole),
{
    let t = trouble_of(part)->0;
    law_most_precise_first(lowercase(part));
    let i = choose|i: int| 0 <= i < TROUBLES@.len() && #[trigger] TROUBLES@[i] == t;
    let n = choose|n: int|
        0 <= n < t.fragments().len() && is_fragment(#[trigger] t.fragments()[n], lowercase(part));
    lemma_fragments_are_ascii(t);
    assert(is_fragment(t.fragments()[n], lowercase(whole)));
    assert(TROUBLES@[i].shows_in(lowercase(whole)));
    law_most_precise_first(lowercase(whole));
    let found = trouble_of(whole);
    assert(found is Some);
    let k = choose|k: int|
        {
            &&& 0 <= k < TROUBLES@.len()
            &&& #[trigger] TROUBLES@[k] == found->0
            &&& forall|j: int|
                0 <= j < k ==> !(#[trigger] TROUBLES@[j]).shows_in(lowercase(whole))
        };
    assert(k <= i);
}

/// A technical text whose lower case holds that of another is taken for the same trouble as
/// the other, or for a more precise one.
pub proof fn law_raw_text_is_recognised_anywhere(part: Seq<char>, whole: Seq<char>)
    requires
        is_fragment(lowercase(part), lowercase(whole)),
        trouble_of(part) is Some,
    ensures
        is_heard(trouble_of(part)->0, whole),
{
    assert forall|piece: Seq<char>|
        is_ascii_chars(piece) && #[trigger] is_fragment(piece, lowercase(part)) implies is_fragment(
        piece,
        lowercase(whole),
    ) by {
        lemma_fragment_of_fragment(piece, lowercase(part), lowercase(whole));
    }
    lemma_heard(part, whole);
}

/// Where nothing more precise shows in a technical text, the trouble that a part of it gives
/// away is the one that it is taken for.
pub proof fn law_heard_alone_is_heard_exactly(t: Trouble, whole: Seq<char>)
    requires
        is_heard(t, whole),
        forall|k: int, i: int|
            0 <= k < i < TROUBLES@.len() && #[trigger] TROUBLES@[i] == t
                ==> !(#[trigger] TROUBLES@[k]).shows_in(lowercase(whole)),
    ensures
        trouble_of(whole) == Some(t),
{
}

/// The pieces of text that give troubles away are ASCII.
proof fn lemma_fragments_are_ascii(t: Trouble)
    ensures
        forall|n: int|
            0 <= n < t.fragments().len() ==> is_ascii_chars(#[trigger] t.fragments()[n]),
{
    match t {
        Trouble::DeveloperModeOff => {
            reveal_strlit("developer mode is not enabled");
            reveal_strlit("developermodenotenabled");
        },
        Trouble::DeviceLocked => {
            reveal_strlit("passwordprotected");
            reveal_strlit("devicelocked");
            reveal_strlit("device locked");
            reveal_strlit("device is locked");
        },
        Trouble::PairingPending => {
            reveal_strlit("pairingdialogresponsepending");
        },
        Trouble::PairingDenied => {
            reveal_strlit("userdeniedpairing");
        },
        Trouble::NotPaired => {
            reveal_strlit("invalidhostid");
            reveal_strlit("device does not have pairing file");
            reveal_strlit("missing pairrecorddata");
        },
        Trouble::FreeAppLimit => {
            reveal_strlit("free development profiles");
            reveal_strlit("maxfreeapplimit");
        },
        Trouble::NoSpace => {
            reveal_strlit("no space");
            reveal_strlit("out of space");
            reveal_strlit("insufficient space");
            reveal_strlit("not enough space");
        },
        Trouble::SignatureRefused => {
            reveal_strlit("applicationverificationfailed");
        },
        Trouble::LinkCut => {
            reveal_strlit("os error 10054");
            reveal_strlit("os error 10053");
            reveal_strlit("connection reset");
            reveal_strlit("connection aborted");
            reveal_strlit("broken pipe");
            reveal_strlit("device refused connection");
        },
        Trouble::WrongCode => {
            reveal_strlit("-21669");
            reveal_strlit("incorrect verification code");
        },
        Trouble::WrongCredentials => {
            reveal_strlit("-20101");
            reveal_strlit("your apple id or password");
            reveal_strlit("incorrect apple id or password");
        },
        Trouble::AccountBlocked => {
            reveal_strlit("-36607");
            reveal_strlit("account has been disabled");
            reveal_strlit("account is locked");
        },
        Trouble::AppPasswordNeeded => {
            reveal_strlit("app-specific password");
        },
        Trouble::SessionExpired => {
            reveal_strlit("-22421");
            reveal_strlit("session has expired");
            reveal_strlit("session expired");
        },
        Trouble::AnisetteDown => {
            reveal_strlit("anisette");
            reveal_strlit("not provisioned");
        },
        Trouble::NoTeam => {
            reveal_strlit("no developer teams");
            reveal_strlit("no teams");
        },
        Trouble::TooManyCertificates => {
            reveal_strlit("maximum number of certificates");
            reveal_strlit("too many certificates");
        },
        Trouble::AppIdLimit => {
            reveal_strlit("app id limit");
            reveal_strlit("maximum app id");
            reveal_strlit("maximum number of app ids");
        },
        Trouble::NoInternet => {
            reveal_strlit("dns error");
            reveal_strlit("failed to lookup");
            reveal_strlit("error sending request");
            reveal_strlit("connect error");
            reveal_strlit("timed out");
            reveal_strlit("operation timeout");
        },
    }
}

/// Upper and lower case make no difference: two texts with one lower case form are
/// recognised alike.
pub proof fn law_case_is_ignored(a: Seq<char>, b: Seq<char>)
    requires
        lowercase(a) == lowercase(b),
    ensures
        known_failure(a) == known_failure(b),
{
}

/// What is shown for a known trouble has a title and at least one step, none of them empty,
/// carries no technical text yet and is no cancellation; only wrong credentials are asked for
/// again.
pub proof fn law_known_failures_are_complete(t: Trouble)
    ensures
        t.failure().title.len() > 0,
        t.failure().steps.len() > 0,
        forall|n: int|
            0 <= n < t.failure().steps.len() ==> (#[trigger] t.failure().steps[n]).len() > 0,
        t.failure().detail is None,
        !t.failure().cancelled,
        t.failure().retry_credentials <==> t == Trouble::WrongCredentials,
{
    lemma_steps_are_not_empty(t);
    reveal_strlit("Le mode developpeur n'est pas active sur l'iPhone");
    reveal_strlit("L'iPhone est verrouille");
    reveal_strlit("L'iPhone attend ta reponse");
    reveal_strlit("L'autorisation a ete refusee sur l'iPhone");
    reveal_strlit("L'iPhone n'autorise pas encore ce PC");
    reveal_strlit("Limite de 3 apps atteinte pour ce compte Apple gratuit");
    reveal_strlit("Espace insuffisant sur l'iPhone");
    reveal_strlit("L'iPhone a refuse la signature de l'app");
    reveal_strlit("La liaison avec l'iPhone a ete coupee");
    reveal_strlit("Code de verification incorrect");
    reveal_strlit("Identifiant ou mot de passe Apple incorrect");
    reveal_strlit("Le compte Apple est bloque");
    reveal_strlit("Ce compte exige un mot de passe pour application");
    reveal_strlit("La session Apple a expire");
    reveal_strlit("Le service d'authentification Apple ne repond pas");
    reveal_strlit("Ce compte Apple n'a pas d'equipe de developpement");
    reveal_strlit("Trop de certificats sur ce compte Apple");
    reveal_strlit("Limite d'identifiants d'app atteinte chez Apple");
    reveal_strlit("Pas de connexion Internet utilisable");
}

proof fn lemma_steps_are_not_empty(t: Trouble)
    ensures
        forall|n: int|
            0 <= n < t.failure().steps.len() ==> (#[trigger] t.failure().steps[n]).len() > 0,
{
    match t {
        Trouble::DeveloperModeOff => {
            reveal_strlit("Sur l'iPhone : Reglages > Confidentialite et securite > Mode developpeur.");
            reveal_strlit("Active l'interrupteur, puis accepte le redemarrage de l'iPhone.");
            reveal_strlit("Apres le redemarrage, deverrouille l'iPhone et relance l'installation.");
            reveal_strlit("Si l'entree « Mode developpeur » n'apparait pas, laisse l'iPhone branche 30 s et rouvre les Reglages.");
        },
        Trouble::DeviceLocked => {
            reveal_strlit("Deverrouille l'ecran de l'iPhone avec le code ou Face ID.");
            reveal_strlit("Laisse l'ecran allume pendant toute l'installation.");
            reveal_strlit("Relance l'installation.");
        },
        Trouble::PairingPending => {
            reveal_strlit("Regarde l'ecran de l'iPhone : la question « Se fier a cet ordinateur ? » est affichee.");
            reveal_strlit("Touche « Se fier », puis saisis le code de l'iPhone.");
            reveal_strlit("Relance l'installation.");
        },
        Trouble::PairingDenied => {
            reveal_strlit("Debranche puis rebranche le cable USB.");
            reveal_strlit("Quand l'iPhone demande « Se fier a cet ordinateur ? », touche « Se fier ».");
            reveal_strlit("Saisis le code de l'iPhone si on te le demande, puis relance.");
        },
        Trouble::NotPaired => {
            reveal_strlit("Deverrouille l'iPhone et laisse-le branche en USB.");
            reveal_strlit("Debranche puis rebranche le cable : la question « Se fier a cet ordinateur ? » doit apparaitre.");
            reveal_strlit("Touche « Se fier » et saisis le code de l'iPhone.");
            reveal_strlit("Si la question n'apparait plus : Reglages > General > Transferer ou reinitialiser > Reinitialiser > Reinitialiser les reglages reseau et localisation, puis rebranche.");
        },
        Trouble::FreeAppLimit => {
            reveal_strlit("Un compte Apple gratuit ne peut garder que 3 apps installees a la fois.");
            reveal_strlit("Sur l'iPhone, supprime une app installee avec ce meme compte.");
            reveal_strlit("Relance l'installation.");
        },
        Trouble::NoSpace => {
            reveal_strlit("Libere au moins 500 Mo sur l'iPhone (Reglages > General > Stockage iPhone).");
            reveal_strlit("Relance l'installation.");
        },
        Trouble::SignatureRefused => {
            reveal_strlit("Sur l'iPhone, supprime l'ancienne version de TwitNinf si elle est encore installee.");
            reveal_strlit("Reglages > General > VPN et gestion de l'appareil : supprime le profil de developpeur existant.");
            reveal_strlit("Relance l'installation.");
        },
        Trouble::LinkCut => {
            reveal_strlit("Ne debranche pas l'iPhone pendant l'installation.");
            reveal_strlit("Utilise un cable de donnees (certains cables ne font que charger) et un port USB directement sur le PC, sans hub.");
            reveal_strlit("Deverrouille l'iPhone, garde l'ecran allume, puis relance.");
        },
        Trouble::WrongCode => {
            reveal_strlit("Verifie les 6 chiffres recus sur ton iPhone ou par SMS.");
            reveal_strlit("Demande un nouveau code si l'ancien a plus de quelques minutes.");
        },
        Trouble::WrongCredentials => {
            reveal_strlit("Verifie l'adresse du compte Apple et le mot de passe.");
            reveal_strlit("Attention a la disposition du clavier et aux majuscules.");
        },
        Trouble::AccountBlocked => {
            reveal_strlit("Va sur iforgot.apple.com pour debloquer le compte.");
            reveal_strlit("Reessaie ensuite depuis l'app.");
        },
        Trouble::AppPasswordNeeded => {
            reveal_strlit("Cree un mot de passe pour application sur account.apple.com > Connexion et securite.");
            reveal_strlit("Utilise ce mot de passe a la place du mot de passe habituel.");
        },
        Trouble::SessionExpired => {
            reveal_strlit("Relance simplement l'installation : une nouvelle session sera ouverte.");
        },
        Trouble::AnisetteDown => {
            reveal_strlit("C'est un service externe, momentanement indisponible.");
            reveal_strlit("Verifie ta connexion Internet, puis reessaie dans quelques minutes.");
        },
        Trouble::NoTeam => {
            reveal_strlit("Connecte-toi une fois sur developer.apple.com avec ce compte et accepte les conditions.");
            reveal_strlit("Relance ensuite l'installation.");
        },
        Trouble::TooManyCertificates => {
            reveal_strlit("Relance l'installation : l'app proposera d'en revoquer un.");
            reveal_strlit("Revoquer un certificat casse les apps signees avec, sur les autres PC.");
        },
        Trouble::AppIdLimit => {
            reveal_strlit("Apple limite un compte gratuit a 10 identifiants d'app par periode de 7 jours.");
            reveal_strlit("Il faut attendre que la periode glissante se libere, ou utiliser un autre compte Apple.");
        },
        Trouble::NoInternet => {
            reveal_strlit("Verifie que le PC est bien connecte a Internet.");
            reveal_strlit("Si tu es derriere un VPN ou un pare-feu d'entreprise, desactive-le le temps de l'installation.");
            reveal_strlit("Relance ensuite.");
        },
    }
}

/// A technical text is taken for the trouble `t` exactly where one of the pieces of text that
/// give `t` away stands somewhere in its lower case form, and none of those that give a
/// trouble before `t` in the list away does.
pub proof fn law_taken_for_the_first_that_shows(detail: Seq<char>, n: int)
    requires
        0 <= n < TROUBLES@.len(),
    ensures
        trouble_of(detail) == Some(TROUBLES@[n]) <==> {
            &&& exists|i: int|
                0 <= i < TROUBLES@[n].fragments().len() && is_fragment(
                    #[trigger] TROUBLES@[n].fragments()[i],
                    lowercase(detail),
                )
            &&& forall|k: int, i: int|
                0 <= k < n && 0 <= i < TROUBLES@[k].fragments().len() ==> !is_fragment(
                    #[trigger] TROUBLES@[k].fragments()[i],
                    lowercase(detail),
                )
        },
        known_failure(detail) == (match trouble_of(detail) {
            Some(t) => Some(t.failure()),
            None => None,
        }),
{
    let text = lowercase(detail);
    law_most_precise_first(text);
    let found = trouble_of(detail);
    if found is Some {
        let i = choose|i: int|
            {
                &&& 0 <= i < TROUBLES@.len()
                &&& #[trigger] TROUBLES@[i] == found->0
                &&& found->0.shows_in(text)
                &&& forall|j: int| 0 <= j < i ==> !(#[trigger] TROUBLES@[j]).shows_in(text)
            };
        law_list_of_troubles();
        if i == n {
            assert(TROUBLES@[n].shows_in(text));
            assert forall|k: int, m: int|
                0 <= k < n && 0 <= m < TROUBLES@[k].fragments().len() implies !is_fragment(
                #[trigger] TROUBLES@[k].fragments()[m],
                text,
            ) by {
                assert(!TROUBLES@[k].shows_in(text));
            }
        } else if i < n {
            assert(TROUBLES@[i].shows_in(text));
        } else {
            assert(!TROUBLES@[n].shows_in(text));
        }
    } else {
        assert(!TROUBLES@[n].shows_in(text));
    }
}

/// The list names every trouble once, from the most precise to the most general.
pub proof fn law_list_of_troubles()
    ensures
        TROUBLES@ == seq![
            Trouble::DeveloperModeOff,
            Trouble::DeviceLocked,
            Trouble::PairingPending,
            Trouble::PairingDenied,
            Trouble::NotPaired,
            Trouble::FreeAppLimit,
            Trouble::NoSpace,
            Trouble::SignatureRefused,
            Trouble::LinkCut,
            Trouble::WrongCode,
            Trouble::WrongCredentials,
            Trouble::AccountBlocked,
            Trouble::AppPasswordNeeded,
            Trouble::SessionExpired,
            Trouble::AnisetteDown,
            Trouble::NoTeam,
            Trouble::TooManyCertificates,
            Trouble::AppIdLimit,
            Trouble::NoInternet,
        ],
        TROUBLES@.no_duplicates(),
        forall|t: Trouble| #[trigger] TROUBLES@.contains(t),
{
    assert forall|t: Trouble| #[trigger] TROUBLES@.contains(t) by {
        let i: int = match t {
            Trouble::DeveloperModeOff => 0,
            Trouble::DeviceLocked => 1,
            Trouble::PairingPending => 2,
            Trouble::PairingDenied => 3,
            Trouble::NotPaired => 4,
            Trouble::FreeAppLimit => 5,
            Trouble::NoSpace => 6,
            Trouble::SignatureRefused => 7,
            Trouble::LinkCut => 8,
            Trouble::WrongCode => 9,
            Trouble::WrongCredentials => 10,
            Trouble::AccountBlocked => 11,
            Trouble::AppPasswordNeeded => 12,
            Trouble::SessionExpired => 13,
            Trouble::AnisetteDown => 14,
            Trouble::NoTeam => 15,
            Trouble::TooManyCertificates => 16,
            Trouble::AppIdLimit => 17,
            Trouble::NoInternet => 18,
        };
        assert(TROUBLES@[i] == t);
    }
}

/// The pieces of text that give each trouble away, and no others.
pub proof fn law_what_gives_troubles_away(t: Trouble)
    ensures
        match t {
            Trouble::DeveloperModeOff => t.fragments() == seq![
                "developer mode is not enabled"@,
                "developermodenotenabled"@,
            ],
            Trouble::DeviceLocked => t.fragments() == seq![
                "passwordprotected"@,
                "devicelocked"@,
                "device locked"@,
                "device is locked"@,
            ],
            Trouble::PairingPending => t.fragments() == seq![
                "pairingdialogresponsepending"@,
            ],
            Trouble::PairingDenied => t.fragments() == seq![
                "userdeniedpairing"@,
            ],
            Trouble::NotPaired => t.fragments() == seq![
                "invalidhostid"@,
                "device does not have pairing file"@,
                "missing pairrecorddata"@,
            ],
            Trouble::FreeAppLimit => t.fragments() == seq![
                "free development profiles"@,
                "maxfreeapplimit"@,
            ],
            Trouble::NoSpace => t.fragments() == seq![
                "no space"@,
                "out of space"@,
                "insufficient space"@,
                "not enough space"@,
            ],
            Trouble::SignatureRefused => t.fragments() == seq![
                "applicationverificationfailed"@,
            ],
            Trouble::LinkCut => t.fragments() == seq![
                "os error 10054"@,
                "os error 10053"@,
                "connection reset"@,
                "connection aborted"@,
                "broken pipe"@,
                "device refused connection"@,
            ],
            Trouble::WrongCode => t.fragments() == seq![
                "-21669"@,
                "incorrect verification code"@,
            ],
            Trouble::WrongCredentials => t.fragments() == seq![
                "-20101"@,
                "your apple id or password"@,
                "incorrect apple id or password"@,
            ],
            Trouble::AccountBlocked => t.fragments() == seq![
                "-36607"@,
                "account has been disabled"@,
                "account is locked"@,
            ],
            Trouble::AppPasswordNeeded => t.fragments() == seq![
                "app-specific password"@,
            ],
            Trouble::SessionExpired => t.fragments() == seq![
                "-22421"@,
                "session has expired"@,
                "session expired"@,
            ],
            Trouble::AnisetteDown => t.fragments() == seq![
                "anisette"@,
                "not provisioned"@,
            ],
            Trouble::NoTeam => t.fragments() == seq![
                "no developer teams"@,
                "no teams"@,
            ],
            Trouble::TooManyCertificates => t.fragments() == seq![
                "maximum number of certificates"@,
                "too many certificates"@,
            ],
            Trouble::AppIdLimit => t.fragments() == seq![
                "app id limit"@,
                "maximum app id"@,
                "maximum number of app ids"@,
            ],
            Trouble::NoInternet => t.fragments() == seq![
                "dns error"@,
                "failed to lookup"@,
                "error sending request"@,
                "connect error"@,
                "timed out"@,
                "operation timeout"@,
            ],
        },
{
    match t {
        Trouble::DeveloperModeOff => {
            assert(t.fragments() =~= seq!["developer mode is not enabled"@, "developermodenotenabled"@]);
        },
        Trouble::DeviceLocked => {
            assert(t.fragments() =~= seq!["passwordprotected"@, "devicelocked"@, "device locked"@, "device is locked"@]);
        },
        Trouble::PairingPending => {
            assert(t.fragments() =~= seq!["pairingdialogresponsepending"@]);
        },
        Trouble::PairingDenied => {
            assert(t.fragments() =~= seq!["userdeniedpairing"@]);
        },
        Trouble::NotPaired => {
            assert(t.fragments() =~= seq!["invalidhostid"@, "device does not have pairing file"@, "missing pairrecorddata"@]);
        },
        Trouble::FreeAppLimit => {
            assert(t.fragments() =~= seq!["free development profiles"@, "maxfreeapplimit"@]);
        },
        Trouble::NoSpace => {
            assert(t.fragments() =~= seq!["no space"@, "out of space"@, "insufficient space"@, "not enough space"@]);
        },
        Trouble::SignatureRefused => {
            assert(t.fragments() =~= seq!["applicationverificationfailed"@]);
        },
        Trouble::LinkCut => {
            assert(t.fragments() =~= seq!["os error 10054"@, "os error 10053"@, "connection reset"@, "connection aborted"@, "broken pipe"@, "device refused connection"@]);
        },
        Trouble::WrongCode => {
            assert(t.fragments() =~= seq!["-21669"@, "incorrect verification code"@]);
        },
        Trouble::WrongCredentials => {
            assert(t.fragments() =~= seq!["-20101"@, "your apple id or password"@, "incorrect apple id or password"@]);
        },
        Trouble::AccountBlocked => {
            assert(t.fragments() =~= seq!["-36607"@, "account has been disabled"@, "account is locked"@]);
        },
        Trouble::AppPasswordNeeded => {
            assert(t.fragments() =~= seq!["app-specific password"@]);
        },
        Trouble::SessionExpired => {
            assert(t.fragments() =~= seq!["-22421"@, "session has expired"@, "session expired"@]);
        },
        Trouble::AnisetteDown => {
            assert(t.fragments() =~= seq!["anisette"@, "not provisioned"@]);
        },
        Trouble::NoTeam => {
            assert(t.fragments() =~= seq!["no developer teams"@, "no teams"@]);
        },
        Trouble::TooManyCertificates => {
            assert(t.fragments() =~= seq!["maximum number of certificates"@, "too many certificates"@]);
        },
        Trouble::AppIdLimit => {
            assert(t.fragments() =~= seq!["app id limit"@, "maximum app id"@, "maximum number of app ids"@]);
        },
        Trouble::NoInternet => {
            assert(t.fragments() =~= seq!["dns error"@, "failed to lookup"@, "error sending request"@, "connect error"@, "timed out"@, "operation timeout"@]);
        },
    }
}

/// Each trouble is shown in words of its own.
pub proof fn law_each_trouble_has_its_words(t: Trouble)
    ensures
        match t {
            Trouble::DeveloperModeOff => {
                &&& t.failure().title == "Le mode developpeur n'est pas active sur l'iPhone"@
                &&& t.failure().steps == texts(DEVELOPER_MODE_OFF_STEPS@)
            },
            Trouble::DeviceLocked => {
                &&& t.failure().title == "L'iPhone est verrouille"@
                &&& t.failure().steps == texts(DEVICE_LOCKED_STEPS@)
            },
            Trouble::PairingPending => {
                &&& t.failure().title == "L'iPhone attend ta reponse"@
                &&& t.failure().steps == texts(PAIRING_PENDING_STEPS@)
            },
            Trouble::PairingDenied => {
                &&& t.failure().title == "L'autorisation a ete refusee sur l'iPhone"@
                &&& t.failure().steps == texts(PAIRING_DENIED_STEPS@)
            },
            Trouble::NotPaired => {
                &&& t.failure().title == "L'iPhone n'autorise pas encore ce PC"@
                &&& t.failure().steps == texts(NOT_PAIRED_STEPS@)
            },
            Trouble::FreeAppLimit => {
                &&& t.failure().title == "Limite de 3 apps atteinte pour ce compte Apple gratuit"@
                &&& t.failure().steps == texts(FREE_APP_LIMIT_STEPS@)
            },
            Trouble::NoSpace => {
                &&& t.failure().title == "Espace insuffisant sur l'iPhone"@
                &&& t.failure().steps == texts(NO_SPACE_STEPS@)
            },
            Trouble::SignatureRefused => {
                &&& t.failure().title == "L'iPhone a refuse la signature de l'app"@
                &&& t.failure().steps == texts(SIGNATURE_REFUSED_STEPS@)
            },
            Trouble::LinkCut => {
                &&& t.failure().title == "La liaison avec l'iPhone a ete coupee"@
                &&& t.failure().steps == texts(LINK_CUT_STEPS@)
            },
            Trouble::WrongCode => {
                &&& t.failure().title == "Code de verification incorrect"@
                &&& t.failure().steps == texts(WRONG_CODE_STEPS@)
            },
            Trouble::WrongCredentials => {
                &&& t.failure().title == "Identifiant ou mot de passe Apple incorrect"@
                &&& t.failure().steps == texts(WRONG_CREDENTIALS_STEPS@)
            },
            Trouble::AccountBlocked => {
                &&& t.failure().title == "Le compte Apple est bloque"@
                &&& t.failure().steps == texts(ACCOUNT_BLOCKED_STEPS@)
            },
            Trouble::AppPasswordNeeded => {
                &&& t.failure().title == "Ce compte exige un mot de passe pour application"@
                &&& t.failure().steps == texts(APP_PASSWORD_NEEDED_STEPS@)
            },
            Trouble::SessionExpired => {
                &&& t.failure().title == "La session Apple a expire"@
                &&& t.failure().steps == texts(SESSION_EXPIRED_STEPS@)
            },
            Trouble::AnisetteDown => {
                &&& t.failure().title == "Le service d'authentification Apple ne repond pas"@
                &&& t.failure().steps == texts(ANISETTE_DOWN_STEPS@)
            },
            Trouble::NoTeam => {
                &&& t.failure().title == "Ce compte Apple n'a pas d'equipe de developpement"@
                &&& t.failure().steps == texts(NO_TEAM_STEPS@)
            },
            Trouble::TooManyCertificates => {
                &&& t.failure().title == "Trop de certificats sur ce compte Apple"@
                &&& t.failure().steps == texts(TOO_MANY_CERTIFICATES_STEPS@)
            },
            Trouble::AppIdLimit => {
                &&& t.failure().title == "Limite d'identifiants d'app atteinte chez Apple"@
                &&& t.failure().steps == texts(APP_ID_LIMIT_STEPS@)
            },
            Trouble::NoInternet => {
                &&& t.failure().title == "Pas de connexion Internet utilisable"@
                &&& t.failure().steps == texts(NO_INTERNET_STEPS@)
            },
        },
{
}

} // verus!
