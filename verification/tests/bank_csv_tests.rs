use folio_bank::amount::Amount;
use folio_bank::bank_csv::{
    detect_bank_type, detect_csv_delimiter, generate_bank_idempotency_key, parse_amount_value,
    parse_australian_bank_csv, parse_balance, parse_date, AustralianBank,
};

fn value(a: &Amount) -> f64 {
    a.to_display_string().parse::<f64>().unwrap()
}

fn amount(s: &str) -> Amount {
    Amount::from_text(s).unwrap()
}

#[test]
fn test_detect_cba_csv() {
    let headers = vec![
        "Date".to_string(),
        "Description".to_string(),
        "Debit".to_string(),
        "Credit".to_string(),
        "Balance".to_string(),
    ];
    assert_eq!(detect_bank_type(&headers), AustralianBank::CommBank);
}

#[test]
fn test_detect_westpac_csv() {
    let headers = vec![
        "Transaction date".to_string(),
        "Account number".to_string(),
        "Account name".to_string(),
        "Currency code".to_string(),
        "Closing balance".to_string(),
        "Transaction amount".to_string(),
        "Transaction code".to_string(),
        "Narrative".to_string(),
    ];
    assert_eq!(detect_bank_type(&headers), AustralianBank::Westpac);
}

#[test]
fn test_parse_date_yyyymmdd() {
    assert_eq!(parse_date("20260325").unwrap(), "2026-03-25");
}

#[test]
fn test_parse_date_ddmmyyyy() {
    assert_eq!(parse_date("25/03/2026").unwrap(), "2026-03-25");
}

#[test]
fn test_parse_date_ddmmmyyyy() {
    assert_eq!(parse_date("25-Mar-2026").unwrap(), "2026-03-25");
}

#[test]
fn test_parse_amount_positive() {
    assert_eq!(value(&parse_amount_value("1,234.56").unwrap()), 1234.56);
    assert_eq!(value(&parse_amount_value("$1,234.56").unwrap()), 1234.56);
}

#[test]
fn test_parse_amount_negative() {
    assert_eq!(value(&parse_amount_value("-1,234.56").unwrap()), -1234.56);
    assert_eq!(value(&parse_amount_value("(1,234.56)").unwrap()), -1234.56);
}

#[test]
fn test_idempotency_key() {
    let key1 = generate_bank_idempotency_key("CBA", "123456", "2026-03-25", &amount("1234.56"), "Test");
    let key2 = generate_bank_idempotency_key("CBA", "123456", "2026-03-25", &amount("1234.56"), "Test");
    assert_eq!(key1, key2);
    assert_eq!(key1.len(), 64);
}

#[test]
fn test_parse_cba_csv() {
    let csv = b"Date,Description,Debit,Credit,Balance\n25/03/2026,Salary,0.00,5000.00,10000.00\n26/03/2026,Woolworths,150.50,0.00,9849.50";

    let result = parse_australian_bank_csv(csv).unwrap();
    assert_eq!(result.bank_type, "CBA");
    assert_eq!(result.transactions.len(), 2);
    assert_eq!(value(&result.transactions[0].amount), 5000.00);
    assert_eq!(value(&result.transactions[1].amount), -150.50);
}

#[test]
fn test_parse_westpac_csv() {
    let csv = b"Transaction date,Account number,Account name,Currency code,Closing balance,Transaction amount,Transaction code,Narrative\n20260325,032000123456,Savings,AUD,5432.10,+150.00,050,Grocery Store\n20260326,032000123456,Savings,AUD,5282.10,-150.00,050,Grocery Store";

    let result = parse_australian_bank_csv(csv).unwrap();
    assert_eq!(result.bank_type, "WBC");
    assert_eq!(result.transactions.len(), 2);
}

#[test]
fn westpac_rows_carry_account_and_balance() {
    let csv = b"Transaction date,Account number,Account name,Currency code,Closing balance,Transaction amount,Transaction code,Narrative\n20260325,032000123456,Savings,AUD,5432.10,+150.00,050,Grocery Store\n20260326,032000123456,Savings,AUD,5282.10,-150.00,050,Grocery Store";
    let result = parse_australian_bank_csv(csv).unwrap();
    assert_eq!(result.account_number, Some("032000123456".to_string()));
    assert_eq!(result.account_name, Some("Savings".to_string()));
    assert_eq!(result.currency, "AUD");
    assert_eq!(result.transaction_count, 2);
    let first = &result.transactions[0];
    assert_eq!(first.date, "2026-03-25");
    assert_eq!(first.description, "Grocery Store");
    assert_eq!(value(&first.amount), 150.0);
    assert_eq!(value(first.balance.as_ref().unwrap()), 5432.10);
    assert_eq!(first.bank_code, Some("WBC".to_string()));
    assert_eq!(value(&result.transactions[1].amount), -150.0);
}

#[test]
fn rows_with_bad_dates_are_reported() {
    let csv = b"Date,Description,Debit,Credit,Balance\nyesterday,Salary,0.00,5000.00,10000.00\n,Empty,1.00,0.00,1.00\n26/03/2026,Woolworths,150.50,0.00,9849.50";
    let result = parse_australian_bank_csv(csv).unwrap();
    assert_eq!(result.transactions.len(), 1);
    assert_eq!(result.errors, vec!["Row 1: Unable to parse date: yesterday".to_string()]);
}

#[test]
fn csv_without_headers_is_refused() {
    assert!(parse_australian_bank_csv(b"").is_err());
}

#[test]
fn invalid_utf8_is_read_lossily_and_reported() {
    let mut csv: Vec<u8> = b"Date,Description,Debit,Credit,Balance\n25/03/2026,Caf".to_vec();
    csv.push(0xff);
    csv.extend_from_slice(b",0.00,5.00,10.00");
    let result = parse_australian_bank_csv(&csv).unwrap();
    assert_eq!(result.transactions.len(), 1);
    assert_eq!(result.transactions[0].description, "Caf\u{fffd}");
    assert_eq!(result.errors.len(), 1);
    assert!(result.errors[0].starts_with("Invalid UTF-8: "));
}

#[test]
fn byte_order_mark_is_dropped() {
    let mut csv: Vec<u8> = vec![0xEF, 0xBB, 0xBF];
    csv.extend_from_slice(b"Date,Description,Debit,Credit,Balance\n25/03/2026,Salary,0.00,5000.00,10000.00");
    let result = parse_australian_bank_csv(&csv).unwrap();
    assert_eq!(result.bank_type, "CBA");
    assert!(result.errors.is_empty());
}

#[test]
fn semicolon_delimiter_is_detected() {
    assert_eq!(detect_csv_delimiter("a;b;c;d\n1;2;3;4\n"), ';');
    assert_eq!(detect_csv_delimiter("a,b\n1,2\n"), ',');
}

#[test]
fn trailing_minus_and_dash_balance() {
    assert_eq!(value(&parse_amount_value("12.50-").unwrap()), -12.5);
    assert!(parse_amount_value("").is_none());
    assert!(parse_balance("-").is_none());
    assert!(parse_balance("N/A").is_none());
    assert_eq!(value(&parse_balance("1,000").unwrap()), 1000.0);
}

#[test]
fn csv_dates_in_other_forms() {
    assert_eq!(parse_date(" 5/3/2026 ").unwrap(), "2026-03-05");
    assert_eq!(parse_date("2026-03-25").unwrap(), "2026-03-25");
    assert_eq!(parse_date("1-xyz-2026").unwrap(), "2026-01-01");
    let e = parse_date("25.03.2026").unwrap_err();
    assert_eq!(e.message(), "Unable to parse date: 25.03.2026");
}

#[test]
fn bank_codes_and_names() {
    assert_eq!(AustralianBank::Nab.code(), "NAB");
    assert_eq!(AustralianBank::StGeorge.name(), "St. George");
    assert_eq!(AustralianBank::Unknown.code(), "UNK");
}

#[test]
fn bank_key_differs_with_description_but_not_its_padding() {
    let a = generate_bank_idempotency_key("CBA", "1", "2026-03-25", &amount("1"), " Test ");
    let b = generate_bank_idempotency_key("CBA", "1", "2026-03-25", &amount("1.00"), "Test");
    let c = generate_bank_idempotency_key("CBA", "1", "2026-03-25", &amount("1"), "Other");
    assert_eq!(a, b);
    assert_ne!(a, c);
}
