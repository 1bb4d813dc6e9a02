use folio_bank::amount::Amount;
use folio_bank::automation::get_automation_script;
use folio_bank::bank_connect::{
    make_idempotency_key, BankConnectSettings, BankKey, NewBankDownloadRun, ScrapedAccount,
    ScrapedTransaction,
};
use folio_bank::connect::{
    bank_window_label, find_account_by_provider_id, is_login_navigation, map_account_type,
    new_bank_account, plan_bank_download, plan_bank_window, provider_account_id,
    resolve_bank_account, AccountRef, AccountResolution,
};

fn sample_tx() -> ScrapedTransaction {
    ScrapedTransaction {
        date: "2024-01-15".into(),
        description: "WOOLWORTHS 0123".into(),
        amount: Amount::from_text("-42.50").unwrap(),
        balance: Some(Amount::from_text("1234.56").unwrap()),
        reference: None,
        transaction_type: Some("DEBIT".into()),
    }
}

fn sample_scraped_account() -> ScrapedAccount {
    ScrapedAccount {
        bank_key: "ING".into(),
        account_name: "Orange Everyday".into(),
        account_number: "12345678".into(),
        bsb: Some("923-100".into()),
        currency: "AUD".into(),
        account_type: "TRANSACTION".into(),
        current_balance: Some(Amount::from_text("1234.56").unwrap()),
    }
}

#[test]
fn idempotency_key_is_deterministic() {
    let tx = sample_tx();
    let k1 = make_idempotency_key("ING", "12345678", &tx);
    let k2 = make_idempotency_key("ING", "12345678", &tx);
    assert_eq!(k1, k2);
    assert_eq!(k1.len(), 64);
}

#[test]
fn idempotency_key_differs_by_bank() {
    let tx = sample_tx();
    let k_ing = make_idempotency_key("ING", "12345678", &tx);
    let k_cba = make_idempotency_key("CBA", "12345678", &tx);
    assert_ne!(k_ing, k_cba);
}

#[test]
fn idempotency_key_differs_by_amount() {
    let mut tx1 = sample_tx();
    let mut tx2 = sample_tx();
    tx1.amount = Amount::from_text("-42.50").unwrap();
    tx2.amount = Amount::from_text("-42.51").unwrap();
    let k1 = make_idempotency_key("ING", "12345678", &tx1);
    let k2 = make_idempotency_key("ING", "12345678", &tx2);
    assert_ne!(k1, k2);
}

#[test]
fn idempotency_key_ignores_padding_and_sub_cent_digits() {
    let mut tx1 = sample_tx();
    let mut tx2 = sample_tx();
    tx1.description = "  WOOLWORTHS 0123 ".into();
    tx2.amount = Amount::from_text("-42.499").unwrap();
    assert_eq!(
        make_idempotency_key("ING", "12345678", &tx1),
        make_idempotency_key("ING", "12345678", &tx2)
    );
}

#[test]
fn provider_id_format() {
    let scraped = sample_scraped_account();
    assert_eq!(provider_account_id(&scraped), "ING:12345678");
}

#[test]
fn provider_id_strips_spaces() {
    let mut scraped = sample_scraped_account();
    scraped.account_number = "1234 5678".into();
    assert_eq!(provider_account_id(&scraped), "ING:12345678");
}

#[test]
fn map_account_type_defaults_to_checking() {
    assert_eq!(map_account_type("TRANSACTION"), "CHECKING");
    assert_eq!(map_account_type("SAVINGS"), "SAVINGS");
    assert_eq!(map_account_type("INVESTMENT"), "TRADING");
    assert_eq!(map_account_type("unknown"), "CHECKING");
}

#[test]
fn map_account_type_reads_any_case() {
    assert_eq!(map_account_type("savings"), "SAVINGS");
    assert_eq!(map_account_type("Investment"), "TRADING");
}

#[test]
fn bank_keys_round_trip() {
    for k in [BankKey::Ing, BankKey::Cba, BankKey::Anz, BankKey::Bom, BankKey::Beyond, BankKey::Ibkr] {
        assert_eq!(BankKey::parse_key(k.as_str()), Ok(k));
        assert_eq!(k.to_string(), k.as_str());
    }
    assert_eq!("beyond".parse::<BankKey>(), Ok(BankKey::Beyond));
    assert_eq!(BankKey::parse_key("nab"), Err("Unknown connector key: nab".to_string()));
}

#[test]
fn bank_key_details() {
    assert_eq!(BankKey::Cba.display_name(), "CommBank");
    assert_eq!(BankKey::Ibkr.connector_type(), "broker");
    assert_eq!(BankKey::Anz.connector_type(), "bank");
    assert_eq!(BankKey::Ing.login_url(), "https://www.ing.com.au/securebanking/");
    assert_eq!(BankKey::Bom.post_login_pattern(), "ibanking.bankofmelbourne.com.au/ibank");
}

#[test]
fn default_settings() {
    let s = BankConnectSettings::default();
    assert_eq!(s.download_folder, "~/BankStatements");
    assert_eq!(s.years_back, 7);
    assert_eq!(s.enabled_banks, vec!["ING", "CBA", "ANZ", "BOM", "BEYOND", "IBKR"]);
    assert!(!s.overwrite_existing);
    assert_eq!(s.download_timeout_secs, 30);
    assert_eq!(s.session_timeout_secs, 120);
    assert_eq!(s.retry_attempts, 3);
    assert!(s.auto_close_login_window);
    assert_eq!(s.log_level, "info");
}

#[test]
fn new_account_for_scraped_account() {
    let mut scraped = sample_scraped_account();
    scraped.account_number = "1234 5678".into();
    scraped.account_type = "savings".into();
    let a = new_bank_account(&scraped, "id-1".to_string());
    assert_eq!(a.id, "id-1");
    assert_eq!(a.name, "ING - Orange Everyday");
    assert_eq!(a.account_type, "SAVINGS");
    assert_eq!(a.currency, "AUD");
    assert_eq!(a.account_number, "12345678");
    assert_eq!(a.provider, "BANK_CONNECT");
    assert_eq!(a.provider_account_id, "ING:12345678");
    assert!(a.is_active && !a.is_default && !a.is_archived);
}

#[test]
fn existing_account_is_reused() {
    let scraped = sample_scraped_account();
    let accounts = vec![
        AccountRef { id: "a".into(), provider_account_id: None },
        AccountRef { id: "b".into(), provider_account_id: Some("ING:12345678".into()) },
        AccountRef { id: "c".into(), provider_account_id: Some("ING:12345678".into()) },
    ];
    assert_eq!(find_account_by_provider_id(&accounts, "ING:12345678"), Some("b".to_string()));
    match resolve_bank_account(&scraped, &accounts, "new".into()) {
        AccountResolution::Existing(id) => assert_eq!(id, "b"),
        AccountResolution::Create(_) => panic!("expected the existing account"),
    }
    match resolve_bank_account(&scraped, &accounts[..1], "new".into()) {
        AccountResolution::Create(a) => assert_eq!(a.id, "new"),
        AccountResolution::Existing(_) => panic!("expected a new account"),
    }
}

#[test]
fn window_plan() {
    let p = plan_bank_window("cba").unwrap();
    assert_eq!(p.label, "bank-cba");
    assert_eq!(p.login_url, "https://www.netbank.com.au/");
    assert_eq!(p.post_login_pattern, "netbank.com.au/netbank");
    assert_eq!(p.title, "CommBank - Bank Connect");
    assert_eq!(plan_bank_window("XYZ").unwrap_err(), "Unknown connector key: XYZ");
    assert_eq!(bank_window_label("BEYOND"), "bank-beyond");
    assert!(is_login_navigation("https://www.netbank.com.au/netbank/home", "netbank.com.au/netbank"));
    assert!(!is_login_navigation("https://www.netbank.com.au/", "netbank.com.au/netbank"));
}

#[test]
fn download_plan_and_script() {
    let d = plan_bank_download("BOM", 3, "run-9", "2026-01-01T00:00:00Z".to_string()).unwrap();
    assert_eq!(d.window_label, "bank-bom");
    assert!(d.script.contains("const YEARS_BACK = 3;"));
    assert!(d.script.contains("const RUN_ID = 'run-9';"));
    assert!(!d.script.contains("__YEARS_BACK__"));
    assert_eq!(d.progress.bank_key, "BOM");
    assert_eq!(d.progress.level, "info");
    assert_eq!(d.progress.message, "Starting download automation...");
    assert_eq!(d.progress.timestamp, "2026-01-01T00:00:00Z");
    assert_eq!(
        plan_bank_download("bom", 3, "r", String::new()).unwrap_err(),
        "No automation script for bank: bom"
    );
    let s = get_automation_script("ING", 7, "x").unwrap();
    assert!(s.contains("const yearsBack = 7;"));
    assert!(get_automation_script("NAB", 7, "x").is_none());
}

#[test]
fn new_run_is_running() {
    let r = NewBankDownloadRun::running("r1".into(), "ING".into(), "t0".into());
    assert_eq!(r.status, "running");
    assert_eq!(r.account_name, None);
    assert_eq!(r.id, "r1");
}
