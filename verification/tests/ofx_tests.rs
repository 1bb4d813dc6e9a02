use folio_bank::amount::Amount;
use folio_bank::ofx::{
    extract_account_info, extract_date_range, extract_tag, extract_transactions,
    generate_fitid_fallback, generate_ofx_idempotency_key, normalize_ofx_date, parse_ofx,
    parse_ofx_amount,
};

fn value(a: &Amount) -> f64 {
    a.to_display_string().parse::<f64>().unwrap()
}

const SIMPLE_OFX: &str = r#"<?xml version="1.0"?>
<OFX>
  <BANKMSGSRSV1>
    <STMTTRNRS>
      <STMTRS>
        <BANKACCTFROM>
          <BANKID>012-000</BANKID>
          <ACCTID>123456789</ACCTID>
          <ACCTTYPE>CHECKING</ACCTTYPE>
        </BANKACCTFROM>
        <BANKTRANLIST>
          <DTSTART>20260301000000</DTSTART>
          <DTEND>20260326000000</DTEND>
          <STMTTRN>
            <TRNTYPE>DEBIT</TRNTYPE>
            <DTPOSTED>20260315</DTPOSTED>
            <TRNAMT>-142.50</TRNAMT>
            <FITID>12345</FITID>
            <NAME>Grocery Store</NAME>
            <MEMO>Weekly shopping</MEMO>
          </STMTTRN>
          <STMTTRN>
            <TRNTYPE>CREDIT</TRNTYPE>
            <DTPOSTED>20260320</DTPOSTED>
            <TRNAMT>5000.00</TRNAMT>
            <FITID>12346</FITID>
            <NAME>EMPLOYER PAY</NAME>
          </STMTTRN>
        </BANKTRANLIST>
        <LEDGERBAL>
          <BALAMT>5432.10</BALAMT>
          <DTASOF>20260326000000</DTASOF>
        </LEDGERBAL>
      </STMTRS>
    </STMTTRNRS>
  </BANKMSGSRSV1>
</OFX>"#;

#[test]
fn test_parse_simple_ofx() {
    let result = parse_ofx(SIMPLE_OFX.as_bytes()).unwrap();
    assert_eq!(result.account_id, "123456789");
    assert_eq!(result.bank_id, Some("012-000".to_string()));
    assert_eq!(result.transactions.len(), 2);
    assert_eq!(value(&result.transactions[0].amount), -142.50);
    assert_eq!(value(&result.transactions[1].amount), 5000.00);
}

#[test]
fn test_normalize_ofx_date() {
    assert_eq!(normalize_ofx_date("20260315"), "2026-03-15");
    assert_eq!(normalize_ofx_date("20260315120000"), "2026-03-15");
}

#[test]
fn test_parse_ofx_amount() {
    assert_eq!(value(&parse_ofx_amount("1234.56")), 1234.56);
    assert_eq!(value(&parse_ofx_amount("-1234.56")), -1234.56);
    assert_eq!(value(&parse_ofx_amount("1,234.56")), 1234.56);
}

#[test]
fn test_extract_tag() {
    let content = "<NAME>Test Payee</NAME><MEMO>Test memo</MEMO>";
    assert_eq!(extract_tag(content, "NAME"), Some("Test Payee".to_string()));
    assert_eq!(extract_tag(content, "MEMO"), Some("Test memo".to_string()));
    assert_eq!(extract_tag(content, "MISSING"), None);
}

#[test]
fn simple_ofx_details() {
    let result = parse_ofx(SIMPLE_OFX.as_bytes()).unwrap();
    assert_eq!(result.account_type, "CHECKING");
    assert_eq!(result.currency, "AUD");
    assert_eq!(result.start_date, "2026-03-01");
    assert_eq!(result.end_date, "2026-03-26");
    assert!(result.errors.is_empty());
    let t = &result.transactions[0];
    assert_eq!(t.trn_type, "DEBIT");
    assert_eq!(t.date_posted, "2026-03-15");
    assert_eq!(t.fitid, "12345");
    assert_eq!(t.name, "Grocery Store");
    assert_eq!(t.memo, Some("Weekly shopping".to_string()));
    assert_eq!(t.account_id, "123456789");
    assert_eq!(t.bank_id, Some("012-000".to_string()));
    assert_eq!(result.transactions[1].memo, None);
}

#[test]
fn missing_header_is_refused() {
    let e = parse_ofx(b"<STMTTRN><TRNAMT>1</TRNAMT></STMTTRN>").unwrap_err();
    assert_eq!(e.message(), "Invalid OFX file: missing OFX header");
}

#[test]
fn sgml_statement() {
    let sgml = "OFXHEADER:100\nDATA:OFXSGML\n<OFX>\n<ACCTID>998877\n<CURDEF>NZD\n<stmttrn>\n<TRNTYPE>CREDIT\n<DTPOSTED>20260102120000[+10:EST]\n<TRNAMT>1,000.25\n<NAME>Pay  and more\n</stmttrn>\n";
    let result = parse_ofx(sgml.as_bytes()).unwrap();
    assert_eq!(result.account_id, "998877");
    assert_eq!(result.bank_id, None);
    assert_eq!(result.currency, "NZD");
    assert_eq!(result.account_type, "CHECKING");
    assert_eq!(result.transactions.len(), 1);
    let t = &result.transactions[0];
    assert_eq!(t.trn_type, "CREDIT");
    assert_eq!(t.date_posted, "2026-01-02");
    assert_eq!(value(&t.amount), 1000.25);
    assert_eq!(t.name, "Pay  and more");
    assert_eq!(t.fitid, generate_fitid_fallback("2026-01-02_1000.25"));
    assert_eq!(t.fitid.len(), 32);
}

#[test]
fn ofx_without_transactions_is_reported() {
    let result = parse_ofx(b"<OFX><ACCTID>1</ACCTID></OFX>").unwrap();
    assert!(result.transactions.is_empty());
    assert_eq!(result.errors, vec!["No transactions found in OFX file".to_string()]);
}

#[test]
fn transactions_default_fields() {
    let mut errors: Vec<String> = Vec::new();
    let txs = extract_transactions("<STMTTRN ></STMTTRN >", "A1", Some("B1"), &mut errors);
    assert_eq!(txs.len(), 1);
    assert_eq!(txs[0].trn_type, "OTHER");
    assert_eq!(txs[0].date_posted, "1900-01-01");
    assert_eq!(value(&txs[0].amount), 0.0);
    assert_eq!(txs[0].name, "");
    assert_eq!(txs[0].fitid, generate_fitid_fallback("1900-01-01_0"));
    assert_eq!(txs[0].account_id, "A1");
    assert_eq!(txs[0].bank_id, Some("B1".to_string()));
    assert!(errors.is_empty());
}

#[test]
fn only_the_transaction_list_is_searched() {
    let text = "<STMTTRN><TRNAMT>9</TRNAMT></STMTTRN><BANKTRANLIST><STMTTRN><TRNAMT>2</TRNAMT></STMTTRN></BANKTRANLIST>";
    let mut errors: Vec<String> = Vec::new();
    let txs = extract_transactions(text, "A", None, &mut errors);
    assert_eq!(txs.len(), 1);
    assert_eq!(value(&txs[0].amount), 2.0);
}

#[test]
fn account_info_and_period_defaults() {
    let mut errors: Vec<String> = Vec::new();
    let (id, bank, kind, cur) = extract_account_info("<OFX></OFX>", &mut errors);
    assert_eq!(id, "UNKNOWN");
    assert_eq!(bank, None);
    assert_eq!(kind, "CHECKING");
    assert_eq!(cur, "AUD");
    assert!(errors.is_empty());
    let (start, end) = extract_date_range("<DTSTART>2026</DTSTART>");
    assert_eq!(start, "2026");
    assert_eq!(end, "");
}

#[test]
fn xml_value_is_trimmed_even_when_empty() {
    assert_eq!(extract_tag("<NAME>   </NAME>", "NAME"), Some("".to_string()));
    assert_eq!(extract_tag("<NAME></NAME>", "NAME"), Some("</NAME>".to_string()));
    assert_eq!(extract_tag("<MEMO>a  b", "MEMO"), Some("a".to_string()));
    assert_eq!(extract_tag("<NAME> a <b></NAME><NAME>c</NAME>", "NAME"), Some("c".to_string()));
}

#[test]
fn normalize_is_idempotent_on_examples() {
    for s in ["20260315120000", "2026-03-15", "abc", "1234567"] {
        let once = normalize_ofx_date(s);
        assert_eq!(normalize_ofx_date(&once), once);
    }
}

#[test]
fn ofx_key_is_a_fingerprint() {
    let a = Amount::from_text("-142.5").unwrap();
    let k1 = generate_ofx_idempotency_key("123", "F1", "2026-03-15", &a);
    let k2 = generate_ofx_idempotency_key("123", "F2", "2026-03-15", &a);
    assert_eq!(k1.len(), 64);
    assert_ne!(k1, k2);
}
