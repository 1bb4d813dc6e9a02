use folio_bank::amount::Amount;
use folio_bank::qif::{
    detect_account_type, generate_qif_idempotency_key, parse_qif, parse_qif_amount,
    parse_qif_date, parse_qif_transactions, try_parse_qif,
};

fn value(a: &Amount) -> f64 {
    a.to_display_string().parse::<f64>().unwrap()
}

#[test]
fn test_parse_simple_qif() {
    let qif = r#"!Type:Bank
D25/03/2026
T-142.50
N1005
PGrocery Store
MGrocery run
LFood
^
D26/03/2026
T5000.00
PEMPLOYER PAY
LSalary
^
D27/03/2026
T-50.00
NATM Withdrawal
^
"#;

    let result = parse_qif(qif.as_bytes()).unwrap();
    assert_eq!(result.account_type, "Bank");
    assert_eq!(result.transactions.len(), 3);
    assert_eq!(value(&result.transactions[0].amount), -142.50);
    assert_eq!(result.transactions[0].payee, Some("Grocery Store".to_string()));
    assert_eq!(value(&result.transactions[1].amount), 5000.00);
    assert_eq!(value(&result.transactions[2].amount), -50.00);
}

#[test]
fn test_parse_qif_date() {
    assert_eq!(parse_qif_date("25/03/2026").unwrap(), "2026-03-25");
    assert_eq!(parse_qif_date("25/03/26").unwrap(), "2026-03-25");
    assert_eq!(parse_qif_date("25-Mar-2026").unwrap(), "2026-03-25");
    assert_eq!(parse_qif_date("2026-03-25").unwrap(), "2026-03-25");
}

#[test]
fn test_parse_qif_amount() {
    assert_eq!(value(&parse_qif_amount("1234.56").unwrap()), 1234.56);
    assert_eq!(value(&parse_qif_amount("-1234.56").unwrap()), -1234.56);
    assert_eq!(value(&parse_qif_amount("(1234.56)").unwrap()), -1234.56);
    assert_eq!(value(&parse_qif_amount("1,234.56").unwrap()), 1234.56);
}

#[test]
fn test_detect_account_type() {
    let bank = ["!Type:Bank"];
    let cash = ["!Type:Cash"];
    let invst = ["!Type:Invst"];
    let ccard = ["!Type:Ccard"];

    assert_eq!(detect_account_type(&bank), "Bank");
    assert_eq!(detect_account_type(&cash), "Cash");
    assert_eq!(detect_account_type(&invst), "Investment");
    assert_eq!(detect_account_type(&ccard), "Credit Card");
}

#[test]
fn simple_qif_fields() {
    let qif = "!Type:Bank\nD25/03/2026\nT-142.50\nN1005\nPGrocery Store\nMGrocery run\nLFood\nCx\n^\n";
    let result = parse_qif(qif.as_bytes()).unwrap();
    let t = &result.transactions[0];
    assert_eq!(t.date, "2026-03-25");
    assert_eq!(t.reference, Some("1005".to_string()));
    assert_eq!(t.memo, Some("Grocery run".to_string()));
    assert_eq!(t.category, Some("Food".to_string()));
    assert!(t.cleared);
    assert!(result.errors.is_empty());
}

#[test]
fn other_account_types_and_default() {
    assert_eq!(detect_account_type(&["x", "!Type: Oth L "]), "oth l");
    assert_eq!(detect_account_type(&["D1/1/26"]), "Bank");
    assert_eq!(detect_account_type(&["!Type:!Type:CCard"]), "Credit Card");
}

#[test]
fn empty_file_is_refused() {
    let e = parse_qif(b"").unwrap_err();
    assert_eq!(e.message(), "QIF file is empty");
}

#[test]
fn qif_without_transactions_is_reported() {
    let result = parse_qif(b"!Type:Cash\nT12\n").unwrap();
    assert_eq!(result.account_type, "Cash");
    assert!(result.transactions.is_empty());
    assert_eq!(result.errors, vec!["No transactions found in QIF file".to_string()]);
}

#[test]
fn unreadable_date_and_missing_amount() {
    let result = parse_qif(b"Dsometime\nPShop\n").unwrap();
    assert_eq!(result.transactions.len(), 1);
    assert_eq!(result.transactions[0].date, "1900-01-01");
    assert_eq!(value(&result.transactions[0].amount), 0.0);
    assert_eq!(result.transactions[0].payee, Some("Shop".to_string()));
    assert!(!result.transactions[0].cleared);
}

#[test]
fn one_transaction_per_date_line() {
    let lines = ["D1/2/2026", "T1", "D2/2/2026", "^", "^", "T5", "D3/2/2026"];
    let mut errors: Vec<String> = Vec::new();
    let txs = parse_qif_transactions(&lines, &mut errors);
    assert_eq!(txs.len(), 3);
    assert_eq!(txs[0].date, "2026-02-01");
    assert_eq!(value(&txs[0].amount), 1.0);
    assert_eq!(value(&txs[1].amount), 0.0);
    assert_eq!(txs[2].date, "2026-02-03");
    assert!(errors.is_empty());
}

#[test]
fn qif_dates_in_other_forms() {
    assert_eq!(parse_qif_date(" 5/3/2026 ").unwrap(), "2026-03-05");
    assert_eq!(parse_qif_date("5-dec-25").unwrap(), "2025-12-05");
    assert_eq!(parse_qif_date("5/3/202").unwrap(), "202-03-05");
    assert_eq!(parse_qif_date("5-Foo-2026").unwrap(), "2026-01-05");
    assert_eq!(parse_qif_date("25.03.2026"), None);
}

#[test]
fn amounts_in_other_forms() {
    assert!(parse_qif_amount("  ").is_none());
    assert!(parse_qif_amount("abc").is_none());
    assert_eq!(value(&parse_qif_amount(" (12) ").unwrap()), -12.0);
}

#[test]
fn lines_with_a_wide_code_are_not_read() {
    assert!(try_parse_qif("D1/1/2026\n\u{e9}x\n".as_bytes()).is_none());
    let r = try_parse_qif(b"D1/1/2026\n").unwrap().unwrap();
    assert_eq!(r.transactions.len(), 1);
}

#[test]
fn qif_key_uses_payee_or_nothing() {
    let a = Amount::from_text("-50").unwrap();
    let k1 = generate_qif_idempotency_key("Bank", "2026-03-27", &a, Some("ATM"));
    let k2 = generate_qif_idempotency_key("Bank", "2026-03-27", &a, None);
    assert_eq!(k1.len(), 64);
    assert_ne!(k1, k2);
}
