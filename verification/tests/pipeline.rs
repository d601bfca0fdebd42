//! The composed per-record decision and the batch filter, end to end, plus
//! the wordlist loader.

use rmc_survey::legal_entity::LegalEntity;
use rmc_survey::legal_entity::LegalEntityRecord;
use rmc_survey::rmc::find_rmcs;
use rmc_survey::rmc::get_rmc;
use rmc_survey::rmc::RmcDecision;
use rmc_survey::util::string_column_to_vec;

fn record(name: &str, number: &str, company_type: &str, sic1: &str) -> LegalEntityRecord {
    LegalEntityRecord {
        name: name.to_string(),
        number: number.to_string(),
        company_type: company_type.to_string(),
        sic_code1: sic1.to_string(),
        sic_code2: String::new(),
        sic_code3: String::new(),
        sic_code4: String::new(),
    }
}

fn strings(items: &[&str]) -> Vec<String> {
    items.iter().map(|s| s.to_string()).collect()
}

#[test]
fn accepts_private_limited_rmc() {
    let r = record(
        "RIVERSIDE HOUSE MANAGEMENT COMPANY LIMITED",
        "01234567",
        "Private Limited Company",
        "68320 - Management of real estate",
    );
    match get_rmc(&r, &strings(&[]), &strings(&[])) {
        RmcDecision::Accepted(rmc) => {
            assert_eq!(
                rmc.to_vec(),
                vec![
                    "01234567".to_string(),
                    "private limited company".to_string(),
                    "RIVERSIDE HOUSE MANAGEMENT COMPANY LIMITED".to_string()
                ]
            );
        }
        other => panic!("expected acceptance, got {:?}", other),
    }
}

#[test]
fn rejects_public_limited_company_before_name_checks() {
    let r = record(
        "RIVERSIDE HOUSE MANAGEMENT COMPANY LIMITED",
        "01234567",
        "Public Limited Company",
        "68320 - Management of real estate",
    );
    assert!(matches!(get_rmc(&r, &strings(&[]), &strings(&[])), RmcDecision::Rejected));
}

#[test]
fn unrecognised_type_is_distinct_from_rejection() {
    let r = record(
        "RIVERSIDE HOUSE MANAGEMENT COMPANY LIMITED",
        "01234567",
        "Banana Republic",
        "68320 - Management of real estate",
    );
    assert!(matches!(get_rmc(&r, &strings(&[]), &strings(&[])), RmcDecision::Unrecognised));
}

#[test]
fn excluded_substring_vetoes_an_otherwise_accepted_record() {
    let r = record(
        "RIVERSIDE HOUSE MANAGEMENT COMPANY LIMITED",
        "01234567",
        "Private Limited Company",
        "68320 - Management of real estate",
    );
    let d = get_rmc(&r, &strings(&["RIVERSIDE"]), &strings(&[]));
    assert!(matches!(d, RmcDecision::Rejected));
}

#[test]
fn irrelevant_sic_rejects() {
    let r = record(
        "RIVERSIDE HOUSE MANAGEMENT COMPANY LIMITED",
        "01234567",
        "Private Limited Company",
        "12345 - Something else",
    );
    assert!(matches!(get_rmc(&r, &strings(&[]), &strings(&[])), RmcDecision::Rejected));
}

#[test]
fn included_wordlist_entry_accepts_without_heuristic() {
    let r = record(
        "ACME RTM COMPANY LIMITED",
        "07654321",
        "Private Limited Company",
        "98000 - Residents property management",
    );
    let d = get_rmc(&r, &strings(&[]), &strings(&["RTM"]));
    assert!(matches!(d, RmcDecision::Accepted(_)));
}

#[test]
fn batch_filter_keeps_input_order() {
    let records = vec![
        record(
            "ALPHA HOUSE MANAGEMENT LIMITED",
            "00000001",
            "Private Limited Company",
            "68320 - Management of real estate",
        ),
        record("ACME LTD", "00000002", "Private Limited Company", "68320 - Management"),
        record(
            "BETA HOUSE MANAGEMENT LIMITED",
            "00000003",
            "PRI/LTD BY GUAR/NSC (Private, limited by guarantee, no share capital)",
            "98000 - Residents property management",
        ),
    ];
    let rows = find_rmcs(&records, &strings(&[]), &strings(&[]));
    assert_eq!(
        rows,
        vec![
            vec![
                "00000001".to_string(),
                "private limited company".to_string(),
                "ALPHA HOUSE MANAGEMENT LIMITED".to_string()
            ],
            vec![
                "00000003".to_string(),
                "private company limited by guarantee".to_string(),
                "BETA HOUSE MANAGEMENT LIMITED".to_string()
            ],
        ]
    );
}

#[test]
fn batch_filter_is_deterministic_on_rerun() {
    let records = vec![
        record(
            "ALPHA HOUSE MANAGEMENT LIMITED",
            "00000001",
            "Private Limited Company",
            "68320 - Management of real estate",
        ),
        record("ACME LTD", "00000002", "Private Limited Company", "68320 - Management"),
    ];
    let excluded = strings(&["FACTORS"]);
    let included = strings(&["RTM"]);
    let first = find_rmcs(&records, &excluded, &included);
    let second = find_rmcs(&records, &excluded, &included);
    assert_eq!(first, second);
}

#[test]
fn legal_entity_new_builds_working_representation() {
    let r = record(
        "RIVERSIDE HOUSE MANAGEMENT COMPANY LIMITED",
        "01234567",
        "Private Limited Company",
        "68320 - Management of real estate",
    );
    let e = LegalEntity::new(r).expect("recognised type");
    assert_eq!(e.name, "RIVERSIDE HOUSE MANAGEMENT COMPANY LIMITED");
    assert_eq!(e.number, "01234567");
    assert_eq!(e.sic_codes, vec!["68320".to_string()]);
    assert_eq!(
        e.to_vec(),
        vec![
            "01234567".to_string(),
            "private limited company".to_string(),
            "RIVERSIDE HOUSE MANAGEMENT COMPANY LIMITED".to_string()
        ]
    );
}

#[test]
fn legal_entity_new_surfaces_unrecognised_type() {
    let r = record("ACME", "01234567", "No Such Legal Form", "");
    assert!(LegalEntity::new(r).is_none());
}

#[test]
fn wordlist_loader_takes_first_column() {
    let loaded = string_column_to_vec("FACTORS\nESTATES\n").expect("plain wordlist");
    assert_eq!(loaded, vec!["FACTORS".to_string(), "ESTATES".to_string()]);
}

#[test]
fn wordlist_loader_ignores_later_columns() {
    let loaded = string_column_to_vec("A,B\nC,D\n").expect("two-column text");
    assert_eq!(loaded, vec!["A".to_string(), "C".to_string()]);
}

#[test]
fn wordlist_loader_handles_quoted_fields() {
    let loaded = string_column_to_vec("\"HOUSE, THE\",x\nPLAIN,y\n").expect("quoted field");
    assert_eq!(loaded, vec!["HOUSE, THE".to_string(), "PLAIN".to_string()]);
}

#[test]
fn wordlist_loader_refuses_ragged_records() {
    assert!(string_column_to_vec("A,B\nC\n").is_none());
}
