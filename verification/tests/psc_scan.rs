//! The persons-with-significant-control classifier: per-line decisions over
//! real JSON lines, the controlled vocabularies, and the batch run.

use rmc_survey::psc::classify_psc;
use rmc_survey::psc::process_psc_line;
use rmc_survey::psc::process_psc_lines;
use rmc_survey::psc::PscAction;
use rmc_survey::psc::PscFatal;
use rmc_survey::psc::PscOutcome;
use rmc_survey::psc::PscRecord;
use rmc_survey::psc::PSC;

fn line(number: &str, kind: &str) -> String {
    format!(
        "{{\"company_number\":\"{}\",\"data\":{{\"kind\":\"{}\"}}}}",
        number, kind
    )
}

fn statement_line(number: &str, statement: &str) -> String {
    format!(
        "{{\"company_number\":\"{}\",\"data\":{{\"kind\":\"persons-with-significant-control-statement\",\"statement\":\"{}\"}}}}",
        number, statement
    )
}

#[test]
fn individual_psc_emits_company_number() {
    let l = line("SC123456", "individual-person-with-significant-control");
    match process_psc_line(&l) {
        PscAction::Emit(number, payload) => {
            assert_eq!(number, "SC123456");
            assert_eq!(payload, PSC::Individual);
        }
        other => panic!("expected emission, got {:?}", other),
    }
}

#[test]
fn unrecognised_prefix_is_fatal() {
    let l = line("ZZ123456", "individual-person-with-significant-control");
    assert!(matches!(
        process_psc_line(&l),
        PscAction::Fatal(PscFatal::UnrecognisedPrefix)
    ));
}

#[test]
fn numeric_prefix_proceeds() {
    let l = line("01234567", "individual-person-with-significant-control");
    assert!(matches!(process_psc_line(&l), PscAction::Emit(_, PSC::Individual)));
}

#[test]
fn excluded_prefixes_skip() {
    for p in ["SO", "OC", "SL", "NC", "SE", "SG", "OE"] {
        let l = line(&format!("{}123456", p), "individual-person-with-significant-control");
        assert!(matches!(process_psc_line(&l), PscAction::Skip), "{}", p);
    }
}

#[test]
fn known_non_ew_prefixes_proceed() {
    for p in ["NI", "SC", "R0", "ZC", "SZ"] {
        let l = line(&format!("{}123456", p), "individual-person-with-significant-control");
        assert!(matches!(process_psc_line(&l), PscAction::Emit(_, PSC::Individual)), "{}", p);
    }
}

#[test]
fn plus_signed_numeric_prefix_parses_as_a_number_and_proceeds() {
    let l = line("+1234567", "individual-person-with-significant-control");
    assert!(matches!(process_psc_line(&l), PscAction::Emit(_, PSC::Individual)));
}

#[test]
fn digit_then_letter_prefix_is_fatal() {
    let l = line("0A123456", "individual-person-with-significant-control");
    assert!(matches!(
        process_psc_line(&l),
        PscAction::Fatal(PscFatal::UnrecognisedPrefix)
    ));
}

#[test]
fn totals_marker_skips_before_number_check() {
    let l = "{\"data\":{\"kind\":\"totals#persons-of-significant-control-snapshot\"}}";
    assert!(matches!(process_psc_line(l), PscAction::Skip));
}

#[test]
fn missing_company_number_is_a_warning_skip() {
    let l = "{\"data\":{\"kind\":\"individual-person-with-significant-control\"}}";
    assert!(matches!(process_psc_line(l), PscAction::MissingNumber));
}

#[test]
fn short_company_number_is_fatal() {
    let l = line("S", "individual-person-with-significant-control");
    assert!(matches!(process_psc_line(&l), PscAction::Fatal(PscFatal::ShortNumber)));
}

#[test]
fn ceased_on_key_skips() {
    let l = "{\"company_number\":\"SC123456\",\"data\":{\"kind\":\"individual-person-with-significant-control\",\"ceased_on\":\"2020-01-01\"}}";
    assert!(matches!(process_psc_line(l), PscAction::Skip));
}

#[test]
fn ceased_key_skips() {
    let l = "{\"company_number\":\"SC123456\",\"data\":{\"kind\":\"individual-person-with-significant-control\",\"ceased\":true}}";
    assert!(matches!(process_psc_line(l), PscAction::Skip));
}

#[test]
fn super_secure_kind_emits_unidentified() {
    let l = line("01234567", "super-secure-person-with-significant-control");
    assert!(matches!(process_psc_line(&l), PscAction::Emit(_, PSC::Unidentified)));
}

#[test]
fn both_corporate_kinds_emit_corporate() {
    for k in [
        "legal-person-person-with-significant-control",
        "corporate-entity-person-with-significant-control",
    ] {
        let l = line("01234567", k);
        assert!(matches!(process_psc_line(&l), PscAction::Emit(_, PSC::Corporate)), "{}", k);
    }
}

#[test]
fn exemptions_kind_skips() {
    let l = line("01234567", "exemptions");
    assert!(matches!(process_psc_line(&l), PscAction::Skip));
}

#[test]
fn unrecognised_kind_is_fatal() {
    let l = line("01234567", "some-novel-kind");
    assert!(matches!(process_psc_line(&l), PscAction::Fatal(PscFatal::UnrecognisedKind)));
}

#[test]
fn no_controller_statement_skips() {
    let l = statement_line("01234567", "no-individual-or-entity-with-signficant-control");
    assert!(matches!(process_psc_line(&l), PscAction::Skip));
}

#[test]
fn unidentified_controller_statements_emit() {
    for s in [
        "psc-details-not-confirmed",
        "psc-exists-but-not-identified",
        "psc-contacted-but-no-response",
        "restrictions-notice-issued-to-psc",
        "psc-has-failed-to-confirm-changed-details",
    ] {
        let l = statement_line("01234567", s);
        assert!(matches!(process_psc_line(&l), PscAction::Emit(_, PSC::Unidentified)), "{}", s);
    }
}

#[test]
fn steps_not_yet_completed_statement_skips() {
    let l = statement_line("01234567", "steps-to-find-psc-not-yet-completed");
    assert!(matches!(process_psc_line(&l), PscAction::Skip));
}

#[test]
fn unrecognised_statement_is_fatal() {
    let l = statement_line("01234567", "some-novel-statement");
    assert!(matches!(
        process_psc_line(&l),
        PscAction::Fatal(PscFatal::UnrecognisedStatement)
    ));
}

#[test]
fn statement_kind_without_statement_is_fatal() {
    let l = line("01234567", "persons-with-significant-control-statement");
    assert!(matches!(
        process_psc_line(&l),
        PscAction::Fatal(PscFatal::MissingStatement)
    ));
}

#[test]
fn unparseable_line_is_fatal() {
    assert!(matches!(process_psc_line("not json"), PscAction::Fatal(PscFatal::BadLine)));
    assert!(matches!(process_psc_line("{}"), PscAction::Fatal(PscFatal::BadLine)));
}

#[test]
fn classify_psc_over_plain_fields() {
    let rec = PscRecord {
        kind: "individual-person-with-significant-control".to_string(),
        company_number: Some("SC123456".to_string()),
        ceased_on: false,
        ceased: false,
        statement: None,
    };
    assert_eq!(classify_psc(&rec), PscOutcome::Emit(PSC::Individual));

    let ceased = PscRecord { ceased: true, ..rec };
    assert_eq!(classify_psc(&ceased), PscOutcome::Skip);
}

#[test]
fn batch_run_emits_in_order_and_stops_at_fatal() {
    let lines = vec![
        line("SC123456", "individual-person-with-significant-control"),
        line("SO999999", "individual-person-with-significant-control"),
        line("01234567", "corporate-entity-person-with-significant-control"),
        line("ZZ123456", "individual-person-with-significant-control"),
        line("NI777777", "individual-person-with-significant-control"),
    ];
    let (outputs, fault) = process_psc_lines(&lines);
    assert_eq!(outputs, vec!["SC123456".to_string(), "01234567".to_string()]);
    assert_eq!(fault, Some(PscFatal::UnrecognisedPrefix));
}

#[test]
fn batch_run_without_fatal_reports_none() {
    let lines = vec![
        line("SC123456", "individual-person-with-significant-control"),
        line("01234567", "exemptions"),
    ];
    let (outputs, fault) = process_psc_lines(&lines);
    assert_eq!(outputs, vec!["SC123456".to_string()]);
    assert_eq!(fault, None);
}

#[test]
fn batch_run_is_deterministic_on_rerun() {
    let lines = vec![
        line("SC123456", "individual-person-with-significant-control"),
        line("01234567", "corporate-entity-person-with-significant-control"),
        line("SO999999", "individual-person-with-significant-control"),
    ];
    let first = process_psc_lines(&lines);
    let second = process_psc_lines(&lines);
    assert_eq!(first, second);
}
