//! Models of Bank Connect, which signs in to a bank's web site in a window
//! of the app, runs an automation script there and imports what it scrapes:
//! the connectors, the download runs, the settings, the scraped accounts and
//! transactions, and the idempotency key of a scraped transaction.

use vstd::prelude::*;
use crate::amount::{Amount, AmountV, fixed2_spec};
use crate::bank_csv::str_views;
use crate::hashing::{sha256_hex, sha256_hex_spec};
use crate::text::{
    ascii_lower, ascii_upper, ascii_upper_char, chars_of, eq_str, is_ascii_char, is_ascii_seq, owned, push_all,
    push_str, string_of, to_uppercase, trim, trim_chars, upper_text, lemma_middle_injective,
};

verus! {

/// A connector: one of the banks or brokers that Bank Connect knows.
#[derive(Debug, Clone, Copy, PartialEq, Eq, Structural, Hash)]
pub enum BankKey {
    Ing,
    Cba,
    Anz,
    Bom,
    Beyond,
    Ibkr,
}

/// Every connector, in the order of the settings' default list.
pub open spec fn all_keys() -> Seq<BankKey> {
    seq![BankKey::Ing, BankKey::Cba, BankKey::Anz, BankKey::Bom, BankKey::Beyond, BankKey::Ibkr]
}

impl BankKey {
    pub open spec fn as_str_spec(self) -> Seq<char> {
        match self {
            BankKey::Ing => "ING"@,
            BankKey::Cba => "CBA"@,
            BankKey::Anz => "ANZ"@,
            BankKey::Bom => "BOM"@,
            BankKey::Beyond => "BEYOND"@,
            BankKey::Ibkr => "IBKR"@,
        }
    }

    pub open spec fn login_url_spec(self) -> Seq<char> {
        match self {
            BankKey::Ing => "https://www.ing.com.au/securebanking/"@,
            BankKey::Cba => "https://www.netbank.com.au/"@,
            BankKey::Anz => "https://www.anz.com.au/IBAU/Bank/"@,
            BankKey::Bom => "https://ibanking.bankofmelbourne.com.au/ibank/loginPage.action"@,
            BankKey::Beyond => "https://online.beyondbank.com.au/web/banking"@,
            BankKey::Ibkr => "https://www.ibkr.com.au/sso/Login?RL=1&locale=en_AU"@,
        }
    }

    pub open spec fn post_login_pattern_spec(self) -> Seq<char> {
        match self {
            BankKey::Ing => "securebanking"@,
            BankKey::Cba => "netbank.com.au/netbank"@,
            BankKey::Anz => "anz.com.au/IBAU/Bank"@,
            BankKey::Bom => "ibanking.bankofmelbourne.com.au/ibank"@,
            BankKey::Beyond => "online.beyondbank.com.au/web/banking#/"@,
            BankKey::Ibkr => "portal.ibkr.com"@,
        }
    }

    pub open spec fn display_name_spec(self) -> Seq<char> {
        match self {
            BankKey::Ing => "ING"@,
            BankKey::Cba => "CommBank"@,
            BankKey::Anz => "ANZ"@,
            BankKey::Bom => "Bank of Melbourne"@,
            BankKey::Beyond => "Beyond Bank"@,
            BankKey::Ibkr => "Interactive Brokers"@,
        }
    }

    pub open spec fn connector_type_spec(self) -> Seq<char> {
        match self {
            BankKey::Ibkr => "broker"@,
            _ => "bank"@,
        }
    }

    /// The key's name: `ING`, `CBA`, `ANZ`, `BOM`, `BEYOND` or `IBKR`.
    pub fn as_str(&self) -> (r: &'static str)
        ensures
            r@ == self.as_str_spec(),
    {
        match self {
            BankKey::Ing => "ING",
            BankKey::Cba => "CBA",
            BankKey::Anz => "ANZ",
            BankKey::Bom => "BOM",
            BankKey::Beyond => "BEYOND",
            BankKey::Ibkr => "IBKR",
        }
    }

    /// The page where the user signs in.
    pub fn login_url(&self) -> (r: &'static str)
        ensures
            r@ == self.login_url_spec(),
    {
        match self {
            BankKey::Ing => "https://www.ing.com.au/securebanking/",
            BankKey::Cba => "https://www.netbank.com.au/",
            BankKey::Anz => "https://www.anz.com.au/IBAU/Bank/",
            BankKey::Bom => "https://ibanking.bankofmelbourne.com.au/ibank/loginPage.action",
            BankKey::Beyond => "https://online.beyondbank.com.au/web/banking",
            BankKey::Ibkr => "https://www.ibkr.com.au/sso/Login?RL=1&locale=en_AU",
        }
    }

    /// A text that the address of a page reached after signing in holds.
    pub fn post_login_pattern(&self) -> (r: &'static str)
        ensures
            r@ == self.post_login_pattern_spec(),
    {
        match self {
            BankKey::Ing => "securebanking",
            BankKey::Cba => "netbank.com.au/netbank",
            BankKey::Anz => "anz.com.au/IBAU/Bank",
            BankKey::Bom => "ibanking.bankofmelbourne.com.au/ibank",
            BankKey::Beyond => "online.beyondbank.com.au/web/banking#/",
            BankKey::Ibkr => "portal.ibkr.com",
        }
    }

    /// The name shown to the user.
    pub fn display_name(&self) -> (r: &'static str)
        ensures
            r@ == self.display_name_spec(),
    {
        match self {
            BankKey::Ing => "ING",
            BankKey::Cba => "CommBank",
            BankKey::Anz => "ANZ",
            BankKey::Bom => "Bank of Melbourne",
            BankKey::Beyond => "Beyond Bank",
            BankKey::Ibkr => "Interactive Brokers",
        }
    }

    /// `broker` for Interactive Brokers, `bank` for the others.
    pub fn connector_type(&self) -> (r: &'static str)
        ensures
            r@ == self.connector_type_spec(),
    {
        match self {
            BankKey::Ibkr => "broker",
            _ => "bank",
        }
    }

    /// The key as text: its name.
    pub fn to_string(&self) -> (r: String)
        ensures
            r@ == self.as_str_spec(),
    {
        owned(self.as_str())
    }

    /// Reads a key by its name, in any case (see `parse_key_spec`).
    pub fn parse_key(s: &str) -> (r: Result<BankKey, String>)
        ensures
            match r {
                Ok(k) => parse_key_spec(s@) == Ok::<BankKey, Seq<char>>(k),
                Err(e) => parse_key_spec(s@) == Err::<BankKey, Seq<char>>(e@),
            },
    {
        let c = chars_of(s);
        let u = to_uppercase(c.as_slice());
        assert(u@ == upper_text(s@));
        let us = u.as_slice();
        if eq_str(us, "ING") {
            Ok(BankKey::Ing)
        } else if eq_str(us, "CBA") {
            Ok(BankKey::Cba)
        } else if eq_str(us, "ANZ") {
            Ok(BankKey::Anz)
        } else if eq_str(us, "BOM") {
            Ok(BankKey::Bom)
        } else if eq_str(us, "BEYOND") {
            Ok(BankKey::Beyond)
        } else if eq_str(us, "IBKR") {
            Ok(BankKey::Ibkr)
        } else {
            let mut m = chars_of("Unknown connector key: ");
            push_str(&mut m, s);
            Err(string_of(m.as_slice()))
        }
    }
}

/// The key named by `s` once upper-cased; an error that names `s`
/// otherwise.
pub open spec fn parse_key_spec(s: Seq<char>) -> Result<BankKey, Seq<char>> {
    let u = upper_text(s);
    if u == "ING"@ {
        Ok(BankKey::Ing)
    } else if u == "CBA"@ {
        Ok(BankKey::Cba)
    } else if u == "ANZ"@ {
        Ok(BankKey::Anz)
    } else if u == "BOM"@ {
        Ok(BankKey::Bom)
    } else if u == "BEYOND"@ {
        Ok(BankKey::Beyond)
    } else if u == "IBKR"@ {
        Ok(BankKey::Ibkr)
    } else {
        Err("Unknown connector key: "@ + s)
    }
}

impl std::str::FromStr for BankKey {
    type Err = String;

    /// Reads a key by its name, in any case (see `parse_key_spec`).
    fn from_str(s: &str) -> (r: Result<BankKey, String>)
        ensures
            match r {
                Ok(k) => parse_key_spec(s@) == Ok::<BankKey, Seq<char>>(k),
                Err(e) => parse_key_spec(s@) == Err::<BankKey, Seq<char>>(e@),
            },
    {
        BankKey::parse_key(s)
    }
}

proof fn lemma_upper_fixed(s: Seq<char>)
    requires
        forall|k: int| 0 <= k < s.len() ==> 65 <= #[trigger] (s[k] as u32) <= 90,
    ensures
        upper_text(s) == s,
{
    assert(is_ascii_seq(s)) by {
        assert forall|k: int| 0 <= k < s.len() implies is_ascii_char(#[trigger] s[k]) by {
            assert(65 <= (s[k] as u32) <= 90);
        }
    }
    assert forall|k: int| 0 <= k < s.len() implies #[trigger] ascii_upper(s)[k] == s[k] by {
        assert(65 <= (s[k] as u32) <= 90);
        assert(ascii_upper_char(s[k]) == s[k]);
    }
    assert(ascii_upper(s) =~= s);
}

/// Reading a key's name gives the key back.
pub proof fn law_bank_key_round_trip(k: BankKey)
    ensures
        parse_key_spec(k.as_str_spec()) == Ok::<BankKey, Seq<char>>(k),
{
    reveal_strlit("ING");
    reveal_strlit("CBA");
    reveal_strlit("ANZ");
    reveal_strlit("BOM");
    reveal_strlit("BEYOND");
    reveal_strlit("IBKR");
    let s = k.as_str_spec();
    assert forall|i: int| 0 <= i < s.len() implies 65 <= #[trigger] (s[i] as u32) <= 90 by {
        assert(s =~= "ING"@ || s =~= "CBA"@ || s =~= "ANZ"@ || s =~= "BOM"@ || s =~= "BEYOND"@
            || s =~= "IBKR"@);
    }
    lemma_upper_fixed(s);
    assert("CBA"@[0] != "ING"@[0]);
    assert("ANZ"@[0] != "ING"@[0] && "ANZ"@[0] != "CBA"@[0]);
    assert("BOM"@[0] != "ING"@[0] && "BOM"@[0] != "CBA"@[0] && "BOM"@[0] != "ANZ"@[0]);
    assert("BEYOND"@.len() != "ING"@.len());
    assert("IBKR"@.len() != "ING"@.len() && "IBKR"@.len() != "BEYOND"@.len());
}

/// A key's name is read in lower case too.
pub proof fn law_bank_key_read_in_lower_case(k: BankKey)
    ensures
        parse_key_spec(ascii_lower(k.as_str_spec())) == Ok::<BankKey, Seq<char>>(k),
{
    reveal_strlit("ING");
    reveal_strlit("CBA");
    reveal_strlit("ANZ");
    reveal_strlit("BOM");
    reveal_strlit("BEYOND");
    reveal_strlit("IBKR");
    let s = k.as_str_spec();
    let l = ascii_lower(s);
    assert forall|i: int| 0 <= i < s.len() implies 65 <= #[trigger] (s[i] as u32) <= 90 by {
        assert(s =~= "ING"@ || s =~= "CBA"@ || s =~= "ANZ"@ || s =~= "BOM"@ || s =~= "BEYOND"@
            || s =~= "IBKR"@);
    }
    assert(is_ascii_seq(l)) by {
        assert forall|i: int| 0 <= i < l.len() implies is_ascii_char(#[trigger] l[i]) by {
            assert(65 <= (s[i] as u32) <= 90);
            assert((l[i] as u32) == (s[i] as u32) + 32);
        }
    }
    assert forall|i: int| 0 <= i < l.len() implies #[trigger] ascii_upper(l)[i] == s[i] by {
        assert(65 <= (s[i] as u32) <= 90);
        assert((l[i] as u32) == (s[i] as u32) + 32);
    }
    assert(upper_text(l) =~= s);
    law_bank_key_round_trip(k);
    lemma_upper_fixed(s);
}

/// A download run as it is recorded.
#[derive(Debug, Clone)]
pub struct BankDownloadRun {
    pub id: String,
    pub bank_key: String,
    pub account_name: Option<String>,
    pub status: String,
    pub files_downloaded: i32,
    pub files_skipped: i32,
    pub error_message: Option<String>,
    pub started_at: String,
    pub completed_at: Option<String>,
}

/// A download run to record.
#[derive(Debug, Clone)]
pub struct NewBankDownloadRun {
    pub id: String,
    pub bank_key: String,
    pub account_name: Option<String>,
    pub status: String,
    pub started_at: String,
}

impl NewBankDownloadRun {
    /// A run of `bank_key` that starts now: no account yet, status
    /// `running`.
    pub fn running(id: String, bank_key: String, started_at: String) -> (r: NewBankDownloadRun)
        ensures
            r.id == id,
            r.bank_key == bank_key,
            r.account_name is None,
            r.status@ == "running"@,
            r.started_at == started_at,
    {
        NewBankDownloadRun { id, bank_key, account_name: None, status: owned("running"), started_at }
    }
}

/// The settings of Bank Connect.
#[derive(Debug, Clone)]
pub struct BankConnectSettings {
    pub download_folder: String,
    pub years_back: u32,
    pub enabled_banks: Vec<String>,
    pub overwrite_existing: bool,
    pub download_timeout_secs: u32,
    pub session_timeout_secs: u32,
    pub retry_attempts: u32,
    pub auto_close_login_window: bool,
    pub log_level: String,
}

impl Default for BankConnectSettings {
    /// Statements go to `~/BankStatements`, seven years back, from every
    /// connector; files are not overwritten; a download waits 30 s and a
    /// session 120 s; three retries; the login window closes by itself;
    /// log level `info`.
    fn default() -> (r: BankConnectSettings)
        ensures
            r.download_folder@ == "~/BankStatements"@,
            r.years_back == 7,
            str_views(r.enabled_banks@) == all_keys().map_values(|k: BankKey| k.as_str_spec()),
            !r.overwrite_existing,
            r.download_timeout_secs == 30,
            r.session_timeout_secs == 120,
            r.retry_attempts == 3,
            r.auto_close_login_window,
            r.log_level@ == "info"@,
    {
        let mut enabled_banks: Vec<String> = Vec::new();
        enabled_banks.push(owned("ING"));
        enabled_banks.push(owned("CBA"));
        enabled_banks.push(owned("ANZ"));
        enabled_banks.push(owned("BOM"));
        enabled_banks.push(owned("BEYOND"));
        enabled_banks.push(owned("IBKR"));
        assert(str_views(enabled_banks@) =~= all_keys().map_values(|k: BankKey| k.as_str_spec()));
        BankConnectSettings {
            download_folder: owned("~/BankStatements"),
            years_back: 7,
            enabled_banks,
            overwrite_existing: false,
            download_timeout_secs: 30,
            session_timeout_secs: 120,
            retry_attempts: 3,
            auto_close_login_window: true,
            log_level: owned("info"),
        }
    }
}

/// A transaction scraped from a bank's pages.
#[derive(Debug)]
pub struct ScrapedTransaction {
    /// `YYYY-MM-DD`.
    pub date: String,
    pub description: String,
    /// Negative for a debit, positive for a credit.
    pub amount: Amount,
    pub balance: Option<Amount>,
    /// The bank's own identifier of the transaction, if it shows one.
    pub reference: Option<String>,
    /// `DEBIT`, `CREDIT` or `TRANSFER`.
    pub transaction_type: Option<String>,
}

/// An account scraped from a bank's pages.
#[derive(Debug)]
pub struct ScrapedAccount {
    pub bank_key: String,
    pub account_name: String,
    /// As displayed, possibly with spaces.
    pub account_number: String,
    pub bsb: Option<String>,
    pub currency: String,
    /// `TRANSACTION`, `SAVINGS` or `INVESTMENT`.
    pub account_type: String,
    pub current_balance: Option<Amount>,
}

/// The transactions of one account, sent by the automation script.
#[derive(Debug)]
pub struct ScrapedTransactionBatch {
    pub bank_key: String,
    pub run_id: String,
    pub account: ScrapedAccount,
    pub transactions: Vec<ScrapedTransaction>,
}

/// A step of the automation, for the live log.
#[derive(Debug, Clone)]
pub struct AgentStepEvent {
    pub bank_key: String,
    /// `navigate`, `scrape`, `import`, `done` or `error`.
    pub step: String,
    pub message: String,
    pub detail: Option<String>,
    /// ISO 8601.
    pub timestamp: String,
}

/// `BANK_CONNECT|{bank}|{account}|{date}|{amount:.2}|{description.trim()}`.
pub open spec fn connect_key_text(
    bank_key: Seq<char>,
    account_number: Seq<char>,
    date: Seq<char>,
    amount: AmountV,
    description: Seq<char>,
) -> Seq<char> {
    "BANK_CONNECT|"@ + bank_key + "|"@ + account_number + "|"@ + date + "|"@ + fixed2_spec(amount)
        + "|"@ + trim(description)
}

/// The idempotency key of a scraped transaction: the SHA-256 fingerprint,
/// in lower-case hex, of its key text (see `connect_key_text`).
pub fn make_idempotency_key(bank_key: &str, account_number: &str, tx: &ScrapedTransaction) -> (r:
    String)
    ensures
        r@ == sha256_hex_spec(
            connect_key_text(bank_key@, account_number@, tx.date@, tx.amount@, tx.description@),
        ),
        r@.len() == 64,
{
    let mut t = chars_of("BANK_CONNECT|");
    push_str(&mut t, bank_key);
    push_str(&mut t, "|");
    push_str(&mut t, account_number);
    push_str(&mut t, "|");
    push_str(&mut t, tx.date.as_str());
    push_str(&mut t, "|");
    let f = tx.amount.fixed2_chars();
    push_all(&mut t, f.as_slice());
    push_str(&mut t, "|");
    let dc = chars_of(tx.description.as_str());
    let dt = trim_chars(dc.as_slice());
    push_all(&mut t, dt.as_slice());
    let h = sha256_hex(t.as_slice());
    string_of(h.as_slice())
}

/// The key text of a scraped transaction is the same for transactions
/// whose dates agree, whose amounts agree to the cent and whose
/// descriptions agree but for surrounding white space.
pub proof fn law_connect_key_text_stable(
    bank_key: Seq<char>,
    account_number: Seq<char>,
    date: Seq<char>,
    a1: AmountV,
    a2: AmountV,
    d1: Seq<char>,
    d2: Seq<char>,
)
    requires
        fixed2_spec(a1) == fixed2_spec(a2),
        trim(d1) == trim(d2),
    ensures
        connect_key_text(bank_key, account_number, date, a1, d1) == connect_key_text(
            bank_key,
            account_number,
            date,
            a2,
            d2,
        ),
{
}

/// Two different connector names give different key texts.
pub proof fn law_connect_key_text_differs_by_bank(
    b1: Seq<char>,
    b2: Seq<char>,
    account_number: Seq<char>,
    date: Seq<char>,
    amount: AmountV,
    description: Seq<char>,
)
    requires
        b1 != b2,
    ensures
        connect_key_text(b1, account_number, date, amount, description) != connect_key_text(
            b2,
            account_number,
            date,
            amount,
            description,
        ),
{
    let p = "BANK_CONNECT|"@;
    let t1 = connect_key_text(b1, account_number, date, amount, description);
    let t2 = connect_key_text(b2, account_number, date, amount, description);
    let r = "|"@ + account_number + "|"@ + date + "|"@ + fixed2_spec(amount) + "|"@ + trim(
        description,
    );
    assert(t1 =~= p + b1 + r);
    assert(t2 =~= p + b2 + r);
    if t1 == t2 {
        assert(b1.len() == b2.len());
        assert(b1 =~= t1.subrange(p.len() as int, p.len() + b1.len() as int));
        assert(b2 =~= t2.subrange(p.len() as int, p.len() + b2.len() as int));
    }
}

/// Two amounts that differ to the cent give different key texts.
pub proof fn law_connect_key_text_differs_by_amount(
    bank_key: Seq<char>,
    account_number: Seq<char>,
    date: Seq<char>,
    a1: AmountV,
    a2: AmountV,
    description: Seq<char>,
)
    requires
        fixed2_spec(a1) != fixed2_spec(a2),
    ensures
        connect_key_text(bank_key, account_number, date, a1, description) != connect_key_text(
            bank_key,
            account_number,
            date,
            a2,
            description,
        ),
{
    let p = "BANK_CONNECT|"@ + bank_key + "|"@ + account_number + "|"@ + date + "|"@;
    let q = "|"@ + trim(description);
    let f1 = fixed2_spec(a1);
    let f2 = fixed2_spec(a2);
    let t1 = connect_key_text(bank_key, account_number, date, a1, description);
    let t2 = connect_key_text(bank_key, account_number, date, a2, description);
    assert(t1 =~= p + f1 + q);
    assert(t2 =~= p + f2 + q);
    if t1 == t2 {
        assert(f1.len() == f2.len());
        assert(f1 =~= t1.subrange(p.len() as int, p.len() + f1.len() as int));
        assert(f2 =~= t2.subrange(p.len() as int, p.len() + f2.len() as int));
    }
}

/// The key text of a scraped transaction tells apart transactions that
/// differ in one of its fields: the connector, the account, the date, the
/// amount to the cent or the trimmed description.
pub proof fn law_connect_key_text_separates_fields(
    bank_key: Seq<char>,
    account_number: Seq<char>,
    date: Seq<char>,
    amount: AmountV,
    description: Seq<char>,
    bank_key_2: Seq<char>,
    account_number_2: Seq<char>,
    date_2: Seq<char>,
    amount_2: AmountV,
    description_2: Seq<char>,
)
    ensures
        bank_key != bank_key_2 ==> connect_key_text(bank_key, account_number, date, amount, description) != connect_key_text(bank_key_2, account_number, date, amount, description),
        account_number != account_number_2 ==> connect_key_text(bank_key, account_number, date, amount, description) != connect_key_text(bank_key, account_number_2, date, amount, description),
        date != date_2 ==> connect_key_text(bank_key, account_number, date, amount, description) != connect_key_text(bank_key, account_number, date_2, amount, description),
        fixed2_spec(amount) != fixed2_spec(amount_2) ==> connect_key_text(bank_key, account_number, date, amount, description) != connect_key_text(bank_key, account_number, date, amount_2, description),
        trim(description) != trim(description_2) ==> connect_key_text(bank_key, account_number, date, amount, description) != connect_key_text(bank_key, account_number, date, amount, description_2),
{
    let bar = "|"@;
    assert(connect_key_text(bank_key, account_number, date, amount, description) =~= "BANK_CONNECT|"@ + bank_key + (bar + account_number + bar + date + bar + fixed2_spec(amount) + bar + trim(description) + Seq::<char>::empty()));
    assert(connect_key_text(bank_key_2, account_number, date, amount, description) =~= "BANK_CONNECT|"@ + bank_key_2 + (bar + account_number + bar + date + bar + fixed2_spec(amount) + bar + trim(description) + Seq::<char>::empty()));
    lemma_middle_injective("BANK_CONNECT|"@, bank_key, bank_key_2, (bar + account_number + bar + date + bar + fixed2_spec(amount) + bar + trim(description) + Seq::<char>::empty()));
    assert(connect_key_text(bank_key, account_number, date, amount, description) =~= "BANK_CONNECT|"@ + bank_key + bar + account_number + (bar + date + bar + fixed2_spec(amount) + bar + trim(description) + Seq::<char>::empty()));
    assert(connect_key_text(bank_key, account_number_2, date, amount, description) =~= "BANK_CONNECT|"@ + bank_key + bar + account_number_2 + (bar + date + bar + fixed2_spec(amount) + bar + trim(description) + Seq::<char>::empty()));
    lemma_middle_injective("BANK_CONNECT|"@ + bank_key + bar, account_number, account_number_2, (bar + date + bar + fixed2_spec(amount) + bar + trim(description) + Seq::<char>::empty()));
    assert(connect_key_text(bank_key, account_number, date, amount, description) =~= "BANK_CONNECT|"@ + bank_key + bar + account_number + bar + date + (bar + fixed2_spec(amount) + bar + trim(description) + Seq::<char>::empty()));
    assert(connect_key_text(bank_key, account_number, date_2, amount, description) =~= "BANK_CONNECT|"@ + bank_key + bar + account_number + bar + date_2 + (bar + fixed2_spec(amount) + bar + trim(description) + Seq::<char>::empty()));
    lemma_middle_injective("BANK_CONNECT|"@ + bank_key + bar + account_number + bar, date, date_2, (bar + fixed2_spec(amount) + bar + trim(description) + Seq::<char>::empty()));
    assert(connect_key_text(bank_key, account_number, date, amount, description) =~= "BANK_CONNECT|"@ + bank_key + bar + account_number + bar + date + bar + fixed2_spec(amount) + (bar + trim(description) + Seq::<char>::empty()));
    assert(connect_key_text(bank_key, account_number, date, amount_2, description) =~= "BANK_CONNECT|"@ + bank_key + bar + account_number + bar + date + bar + fixed2_spec(amount_2) + (bar + trim(description) + Seq::<char>::empty()));
    lemma_middle_injective("BANK_CONNECT|"@ + bank_key + bar + account_number + bar + date + bar, fixed2_spec(amount), fixed2_spec(amount_2), (bar + trim(description) + Seq::<char>::empty()));
    assert(connect_key_text(bank_key, account_number, date, amount, description) =~= "BANK_CONNECT|"@ + bank_key + bar + account_number + bar + date + bar + fixed2_spec(amount) + bar + trim(description) + (Seq::<char>::empty()));
    assert(connect_key_text(bank_key, account_number, date, amount, description_2) =~= "BANK_CONNECT|"@ + bank_key + bar + account_number + bar + date + bar + fixed2_spec(amount) + bar + trim(description_2) + (Seq::<char>::empty()));
    lemma_middle_injective("BANK_CONNECT|"@ + bank_key + bar + account_number + bar + date + bar + fixed2_spec(amount) + bar, trim(description), trim(description_2), (Seq::<char>::empty()));
}

} // verus!
