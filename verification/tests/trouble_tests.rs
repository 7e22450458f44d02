use twitninf_updater::failure::{explain_as, explain_error, Explain, ExplainOption, Failure};
use twitninf_updater::trouble::{classify, find_trouble, recognise, Trouble, TROUBLES};

const FRAGMENTS: [(&str, Trouble, &str); 51] = [
    ("developer mode is not enabled", Trouble::DeveloperModeOff, "Le mode developpeur n'est pas active sur l'iPhone"),
    ("developermodenotenabled", Trouble::DeveloperModeOff, "Le mode developpeur n'est pas active sur l'iPhone"),
    ("passwordprotected", Trouble::DeviceLocked, "L'iPhone est verrouille"),
    ("devicelocked", Trouble::DeviceLocked, "L'iPhone est verrouille"),
    ("device locked", Trouble::DeviceLocked, "L'iPhone est verrouille"),
    ("device is locked", Trouble::DeviceLocked, "L'iPhone est verrouille"),
    ("pairingdialogresponsepending", Trouble::PairingPending, "L'iPhone attend ta reponse"),
    ("userdeniedpairing", Trouble::PairingDenied, "L'autorisation a ete refusee sur l'iPhone"),
    ("invalidhostid", Trouble::NotPaired, "L'iPhone n'autorise pas encore ce PC"),
    ("device does not have pairing file", Trouble::NotPaired, "L'iPhone n'autorise pas encore ce PC"),
    ("missing pairrecorddata", Trouble::NotPaired, "L'iPhone n'autorise pas encore ce PC"),
    ("free development profiles", Trouble::FreeAppLimit, "Limite de 3 apps atteinte pour ce compte Apple gratuit"),
    ("maxfreeapplimit", Trouble::FreeAppLimit, "Limite de 3 apps atteinte pour ce compte Apple gratuit"),
    ("no space", Trouble::NoSpace, "Espace insuffisant sur l'iPhone"),
    ("out of space", Trouble::NoSpace, "Espace insuffisant sur l'iPhone"),
    ("insufficient space", Trouble::NoSpace, "Espace insuffisant sur l'iPhone"),
    ("not enough space", Trouble::NoSpace, "Espace insuffisant sur l'iPhone"),
    ("applicationverificationfailed", Trouble::SignatureRefused, "L'iPhone a refuse la signature de l'app"),
    ("os error 10054", Trouble::LinkCut, "La liaison avec l'iPhone a ete coupee"),
    ("os error 10053", Trouble::LinkCut, "La liaison avec l'iPhone a ete coupee"),
    ("connection reset", Trouble::LinkCut, "La liaison avec l'iPhone a ete coupee"),
    ("connection aborted", Trouble::LinkCut, "La liaison avec l'iPhone a ete coupee"),
    ("broken pipe", Trouble::LinkCut, "La liaison avec l'iPhone a ete coupee"),
    ("device refused connection", Trouble::LinkCut, "La liaison avec l'iPhone a ete coupee"),
    ("-21669", Trouble::WrongCode, "Code de verification incorrect"),
    ("incorrect verification code", Trouble::WrongCode, "Code de verification incorrect"),
    ("-20101", Trouble::WrongCredentials, "Identifiant ou mot de passe Apple incorrect"),
    ("your apple id or password", Trouble::WrongCredentials, "Identifiant ou mot de passe Apple incorrect"),
    ("incorrect apple id or password", Trouble::WrongCredentials, "Identifiant ou mot de passe Apple incorrect"),
    ("-36607", Trouble::AccountBlocked, "Le compte Apple est bloque"),
    ("account has been disabled", Trouble::AccountBlocked, "Le compte Apple est bloque"),
    ("account is locked", Trouble::AccountBlocked, "Le compte Apple est bloque"),
    ("app-specific password", Trouble::AppPasswordNeeded, "Ce compte exige un mot de passe pour application"),
    ("-22421", Trouble::SessionExpired, "La session Apple a expire"),
    ("session has expired", Trouble::SessionExpired, "La session Apple a expire"),
    ("session expired", Trouble::SessionExpired, "La session Apple a expire"),
    ("anisette", Trouble::AnisetteDown, "Le service d'authentification Apple ne repond pas"),
    ("not provisioned", Trouble::AnisetteDown, "Le service d'authentification Apple ne repond pas"),
    ("no developer teams", Trouble::NoTeam, "Ce compte Apple n'a pas d'equipe de developpement"),
    ("no teams", Trouble::NoTeam, "Ce compte Apple n'a pas d'equipe de developpement"),
    ("maximum number of certificates", Trouble::TooManyCertificates, "Trop de certificats sur ce compte Apple"),
    ("too many certificates", Trouble::TooManyCertificates, "Trop de certificats sur ce compte Apple"),
    ("app id limit", Trouble::AppIdLimit, "Limite d'identifiants d'app atteinte chez Apple"),
    ("maximum app id", Trouble::AppIdLimit, "Limite d'identifiants d'app atteinte chez Apple"),
    ("maximum number of app ids", Trouble::AppIdLimit, "Limite d'identifiants d'app atteinte chez Apple"),
    ("dns error", Trouble::NoInternet, "Pas de connexion Internet utilisable"),
    ("failed to lookup", Trouble::NoInternet, "Pas de connexion Internet utilisable"),
    ("error sending request", Trouble::NoInternet, "Pas de connexion Internet utilisable"),
    ("connect error", Trouble::NoInternet, "Pas de connexion Internet utilisable"),
    ("timed out", Trouble::NoInternet, "Pas de connexion Internet utilisable"),
    ("operation timeout", Trouble::NoInternet, "Pas de connexion Internet utilisable"),
];

#[test]
fn each_fragment_gives_its_own_trouble_away() {
    for (fragment, trouble, title) in FRAGMENTS {
        assert_eq!(find_trouble(fragment), Some(trouble), "{}", fragment);
        let f = classify(fragment).expect("known");
        assert_eq!(f.title, title);
        assert!(!f.steps.is_empty());
        assert!(f.steps.iter().all(|s| !s.is_empty()));
        assert_eq!(f.detail, None);
        assert!(!f.cancelled);
        assert_eq!(f.retry_credentials, trouble == Trouble::WrongCredentials);
    }
}

#[test]
fn upper_case_makes_no_difference() {
    for (fragment, _, title) in FRAGMENTS {
        assert_eq!(classify(&fragment.to_uppercase()).expect("known").title, title);
    }
    assert_eq!(classify("Error: DeveloperModeNotEnabled").expect("known").title, FRAGMENTS[0].2);
}

#[test]
fn fragments_are_found_anywhere() {
    for (fragment, _, title) in FRAGMENTS {
        let whole = format!("outer failure:\n  caused by <{fragment}> at line 3");
        assert_eq!(classify(&whole).expect("known").title, title);
    }
}

#[test]
fn the_most_precise_trouble_wins() {
    for (i, first) in TROUBLES.iter().enumerate() {
        for second in TROUBLES.iter().skip(i + 1) {
            let a = FRAGMENTS.iter().find(|f| f.1 == *first).expect("listed").0;
            let b = FRAGMENTS.iter().find(|f| f.1 == *second).expect("listed").0;
            assert_eq!(find_trouble(&format!("{b} | {a}")), Some(*first));
        }
    }
}

#[test]
fn an_unknown_text_is_no_trouble() {
    assert!(classify("").is_none());
    assert!(classify("some other error").is_none());
    assert!(classify("device lock").is_none());
    assert_eq!(find_trouble("TIMED OUT"), None);
}

#[test]
fn explanation_gives_title_and_steps() {
    let f = Trouble::SessionExpired.explanation();
    assert_eq!(f.title, "La session Apple a expire");
    assert_eq!(
        f.steps,
        vec!["Relance simplement l'installation : une nouvelle session sera ouverte.".to_string()]
    );
    assert!(Trouble::WrongCredentials.explanation().retry_credentials);
}

#[test]
fn raw_text_stays_in_the_detail() {
    let f = explain_error("  boom -20101 boom \n", "Titre", &["Etape"]);
    assert_eq!(f.title, "Identifiant ou mot de passe Apple incorrect");
    assert_eq!(f.detail, Some("boom -20101 boom".to_string()));
    assert!(f.retry_credentials);
    assert!(!f.cancelled);

    let f = explain_error("boom", "Titre", &["Etape", "Autre"]);
    assert_eq!(f.title, "Titre");
    assert_eq!(f.steps, vec!["Etape".to_string(), "Autre".to_string()]);
    assert_eq!(f.detail, Some("boom".to_string()));
    assert!(!f.retry_credentials);
}

#[test]
fn a_blank_detail_is_left_out() {
    let f = explain_error(" \t\n ", "Titre", &[]);
    assert_eq!(f.title, "Titre");
    assert_eq!(f.detail, None);
    let f = Failure::new("Titre", &[]).with_detail("avant").with_detail("   ");
    assert_eq!(f.detail, Some("avant".to_string()));
    let f = Failure::new("Titre", &[]).with_detail("avant").with_detail(" apres ");
    assert_eq!(f.detail, Some("apres".to_string()));
}

#[test]
fn details_are_trimmed_of_white_space() {
    for c in ('\0'..=char::MAX).filter(|c| !c.is_alphanumeric()) {
        let f = Failure::new("t", &[]).with_detail(&format!("{c}x{c}"));
        let white = ('\u{9}'..='\u{d}').contains(&c)
            || c == '\u{20}'
            || c == '\u{85}'
            || c == '\u{a0}'
            || c == '\u{1680}'
            || ('\u{2000}'..='\u{200a}').contains(&c)
            || c == '\u{2028}'
            || c == '\u{2029}'
            || c == '\u{202f}'
            || c == '\u{205f}'
            || c == '\u{3000}';
        let expected = if white { "x".to_string() } else { format!("{c}x{c}") };
        assert_eq!(f.detail, Some(expected));
    }
}

#[test]
fn failures_are_built_as_named() {
    let f = Failure::new("Titre", &["un", "deux"]);
    assert_eq!((f.cancelled, f.retry_credentials), (false, false));
    assert_eq!(f.display(), "Titre");
    let f = Failure::cancelled("Annule");
    assert_eq!(f.title, "Annule");
    assert!(f.steps.is_empty());
    assert_eq!((f.cancelled, f.retry_credentials), (true, false));
    let f = Failure::new("Titre", &["un"]).with_detail("d").retryable();
    assert!(f.retry_credentials);
    assert_eq!(f.detail, Some("d".to_string()));
    assert_eq!(f.steps, vec!["un".to_string()]);
}

#[test]
fn results_and_options_are_explained() {
    let ok: Result<u8, String> = Ok(3);
    assert_eq!(ok.explain("Titre", &["un"]).ok(), Some(3));
    let bad: Result<u8, String> = Err("broken pipe".to_string());
    let f = bad.explain("Titre", &["un"]).expect_err("failure");
    assert_eq!(f.title, "La liaison avec l'iPhone a ete coupee");
    assert_eq!(f.detail, Some("broken pipe".to_string()));
    assert_eq!(Some(4u8).or_fail("Titre", &["un"]).ok(), Some(4));
    let f = None::<u8>.or_fail("Titre", &["un"]).expect_err("failure");
    assert_eq!(f.title, "Titre");
    assert_eq!(f.steps, vec!["un".to_string()]);
    assert_eq!(f.detail, None);
}

#[test]
fn a_recognised_trouble_comes_before_the_callers_words() {
    assert_eq!(recognise("Broken Pipe"), Some(Trouble::LinkCut));
    assert_eq!(recognise("fine"), None);
    let f = explain_as(Some(Trouble::NoSpace), " x ", "Titre", &["un"]);
    assert_eq!(f.title, "Espace insuffisant sur l'iPhone");
    assert_eq!(f.steps.len(), 2);
    assert_eq!(f.detail, Some("x".to_string()));
    let f = explain_as(None, "broken pipe", "Titre", &["un"]);
    assert_eq!(f.title, "Titre");
    assert_eq!(f.detail, Some("broken pipe".to_string()));
}

#[test]
fn the_text_around_hides_no_trouble() {
    let cased = ('\0'..=char::MAX).filter(|c| c.to_lowercase().ne([*c]) || "σςı".contains(*c));
    for c in cased {
        for (fragment, _, title) in FRAGMENTS.iter().step_by(7) {
            for whole in [
                format!("{c}{fragment}{c}"),
                format!("{c}Σ {}Σ", fragment.to_uppercase()),
                format!("Σ{}Σ{c}", fragment.to_uppercase()),
            ] {
                assert_eq!(classify(&whole).expect("known").title, *title, "{whole}");
            }
        }
    }
}

#[test]
fn a_trouble_in_unusual_letters_is_not_hidden_either() {
    let kelvin = "BRO\u{212a}EN PIPE";
    assert_eq!(recognise(kelvin), Some(Trouble::LinkCut));
    assert_eq!(recognise(&format!("ΣΑΣ{kelvin}Σ")), Some(Trouble::LinkCut));
    let precise = format!("{kelvin} no space");
    assert_eq!(recognise(&precise), Some(Trouble::NoSpace));
    let general = format!("{kelvin} timed out");
    assert_eq!(recognise(&general), Some(Trouble::LinkCut));
}
