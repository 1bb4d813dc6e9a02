use folio_bank::amount::Amount;
use folio_bank::bank_mapper::{
    classify_transaction, generate_bank_activity_key, map_bank_transactions, map_single_transaction,
    BankMapperConfig, BankTransactionInput,
};

fn amount(s: &str) -> Amount {
    Amount::from_text(s).unwrap()
}

fn value(a: &Amount) -> f64 {
    a.to_display_string().parse::<f64>().unwrap()
}

fn input(date: &str, description: &str, amt: &str, category: Option<&str>) -> BankTransactionInput {
    BankTransactionInput {
        date: date.to_string(),
        description: description.to_string(),
        amount: amount(amt),
        reference: None,
        category: category.map(|c| c.to_string()),
    }
}

#[test]
fn test_classify_salary_deposit() {
    let tx = input("2026-03-25", "EMPLOYER PAYROLL ABC PTY LTD", "5000.00", None);
    let config = BankMapperConfig::new("test-account".to_string(), "AUD".to_string(), "BANK_CSV");
    let result = map_single_transaction(&tx, &config);

    assert_eq!(result.activity.activity_type, "DEPOSIT");
    assert_eq!(result.activity.subtype, Some("SALARY".to_string()));
}

#[test]
fn test_classify_shopping_withdrawal() {
    let tx = input("2026-03-25", "WOOLWORTHS 1234 MELBOURNE VIC", "-150.50", None);
    let config = BankMapperConfig::new("test-account".to_string(), "AUD".to_string(), "BANK_CSV");
    let result = map_single_transaction(&tx, &config);

    assert_eq!(result.activity.activity_type, "WITHDRAWAL");
    assert_eq!(result.activity.subtype, Some("PURCHASE".to_string()));
}

#[test]
fn test_classify_interest_credit() {
    let tx = input("2026-03-31", "INTEREST PAYMENT", "125.50", None);
    let config = BankMapperConfig::new("test-account".to_string(), "AUD".to_string(), "BANK_OFX");
    let result = map_single_transaction(&tx, &config);

    assert_eq!(result.activity.activity_type, "INTEREST");
}

#[test]
fn test_classify_fee_debit() {
    let tx = input("2026-03-01", "MONTHLY ACCOUNT FEE", "-10.00", None);
    let config = BankMapperConfig::new("test-account".to_string(), "AUD".to_string(), "BANK_QIF");
    let result = map_single_transaction(&tx, &config);

    assert_eq!(result.activity.activity_type, "FEE");
}

#[test]
fn test_qif_category_mapping() {
    let tx = input("2026-03-25", "Various items", "6500.00", Some("Salary"));
    let config = BankMapperConfig::new("test-account".to_string(), "AUD".to_string(), "BANK_QIF");
    let result = map_single_transaction(&tx, &config);

    assert_eq!(result.activity.activity_type, "DEPOSIT");
    assert_eq!(result.activity.subtype, Some("SALARY".to_string()));
}

#[test]
fn test_idempotency_key_consistency() {
    let tx = input("2026-03-25", "Test Transaction", "-100.00", None);
    let config = BankMapperConfig::new("account-1".to_string(), "AUD".to_string(), "BANK_CSV");
    let result1 = map_single_transaction(&tx, &config);

    let tx2 = input("2026-03-25", "Test Transaction", "-100.00", None);
    let result2 = map_single_transaction(&tx2, &config);

    assert_eq!(result1.activity.idempotency_key, result2.activity.idempotency_key);
}

#[test]
fn test_bulk_mapping() {
    let transactions = vec![
        input("2026-03-25", "EMPLOYER PAY", "5000.00", None),
        input("2026-03-26", "WOOLWORTHS", "-150.00", None),
    ];
    let config = BankMapperConfig::new("test-account".to_string(), "AUD".to_string(), "BANK_CSV");
    let results = map_bank_transactions(transactions, &config);

    assert_eq!(results.len(), 2);
    assert_eq!(results[0].activity.activity_type, "DEPOSIT");
    assert_eq!(results[1].activity.activity_type, "WITHDRAWAL");
}

#[test]
fn mapped_activity_fields() {
    let mut tx = input("2026-03-25", "Cafe latte", "-4.5", None);
    tx.reference = Some("REF1".to_string());
    let config = BankMapperConfig::new("acc".to_string(), "AUD".to_string(), "BANK_CSV");
    let m = map_single_transaction(&tx, &config);
    let a = &m.activity;
    assert_eq!(a.account_id, "acc");
    assert_eq!(a.activity_date, "2026-03-25");
    assert_eq!(a.currency, "AUD");
    assert_eq!(value(a.amount.as_ref().unwrap()), -4.5);
    assert_eq!(a.notes, Some("Cafe latte".to_string()));
    assert_eq!(a.source_system, Some("BANK_CSV".to_string()));
    assert_eq!(a.source_record_id, Some("REF1".to_string()));
    assert_eq!(a.activity_type, "WITHDRAWAL");
    assert_eq!(a.subtype, Some("DINING".to_string()));
    let key = generate_bank_activity_key("BANK_CSV", "acc", "2026-03-25", &amount("-4.5"), "Cafe latte");
    assert_eq!(a.idempotency_key, Some(key));
    assert_eq!(m.classification_reason, "Description contains: Dining");
}

#[test]
fn default_classifications_name_the_amount() {
    let (t, s, r) = classify_transaction(&input("2026-03-25", "misc", "12.346", None));
    assert_eq!(t, "DEPOSIT");
    assert_eq!(s, None);
    assert_eq!(r, "Amount positive: $12.35");
    let (t, s, r) = classify_transaction(&input("2026-03-25", "misc", "-7", None));
    assert_eq!(t, "WITHDRAWAL");
    assert_eq!(s, None);
    assert_eq!(r, "Amount negative: $7.00");
}

#[test]
fn category_transfer_depends_on_sign() {
    let (t, _, _) = classify_transaction(&input("2026-03-25", "x", "10", Some("Transfer")));
    assert_eq!(t, "TRANSFER_IN");
    let (t, _, _) = classify_transaction(&input("2026-03-25", "x", "-10", Some("transfer")));
    assert_eq!(t, "TRANSFER_OUT");
}

#[test]
fn non_finite_amount_is_recorded_as_zero() {
    let tx = input("2026-03-25", "odd", "NaN", None);
    let config = BankMapperConfig::new("acc".to_string(), "AUD".to_string(), "BANK_CSV");
    let m = map_single_transaction(&tx, &config);
    assert_eq!(value(m.activity.amount.as_ref().unwrap()), 0.0);
}
