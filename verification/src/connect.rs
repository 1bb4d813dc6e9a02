//! The decisions of the Bank Connect commands: how a scraped account is
//! found among the portfolio's accounts or created, how a bank's window is
//! named and when its navigation means that the user has signed in, and
//! what starting a download runs and reports.

use vstd::prelude::*;
use crate::automation::{automation_script_spec, get_automation_script};
use crate::bank_connect::{BankKey, ScrapedAccount, parse_key_spec};
use crate::text::{
    chars_of, contains, contains_str, eq_str, lowercase, opt_str, owned,
    push_all, push_str, replace_all, replace_exec, string_of, to_lowercase, to_uppercase,
    upper_text,
};

verus! {

/// A progress message of a download, for the app's log.
#[derive(Debug, Clone)]
pub struct BankProgressPayload {
    pub bank_key: String,
    pub level: String,
    pub message: String,
    pub timestamp: String,
}

/// The portfolio account type of a scraped account type: `SAVINGS` for
/// savings, `TRADING` for investment, `CHECKING` for anything else, the
/// scraped type read in any case.
pub open spec fn map_account_type_spec(raw: Seq<char>) -> Seq<char> {
    let u = upper_text(raw);
    if u == "SAVINGS"@ {
        "SAVINGS"@
    } else if u == "INVESTMENT"@ {
        "TRADING"@
    } else {
        "CHECKING"@
    }
}

/// The portfolio account type of a scraped account type (see
/// `map_account_type_spec`).
pub fn map_account_type(raw: &str) -> (r: String)
    ensures
        r@ == map_account_type_spec(raw@),
{
    let c = chars_of(raw);
    let u = to_uppercase(c.as_slice());
    if eq_str(u.as_slice(), "SAVINGS") {
        owned("SAVINGS")
    } else if eq_str(u.as_slice(), "INVESTMENT") {
        owned("TRADING")
    } else {
        owned("CHECKING")
    }
}

/// `s` without its spaces.
pub open spec fn strip_spaces(s: Seq<char>) -> Seq<char> {
    replace_all(s, seq![' '], seq![])
}

/// The identifier that ties a portfolio account to a bank account:
/// `{bank}:{account number without spaces}`.
pub open spec fn provider_id_spec(bank_key: Seq<char>, account_number: Seq<char>) -> Seq<char> {
    bank_key + ":"@ + strip_spaces(account_number)
}

fn strip_spaces_exec(s: &str) -> (r: Vec<char>)
    ensures
        r@ == strip_spaces(s@),
{
    let c = chars_of(s);
    let space = vec![' '];
    let nothing: Vec<char> = Vec::new();
    assert(space@ =~= seq![' ']);
    assert(nothing@ =~= Seq::<char>::empty());
    replace_exec(c.as_slice(), space.as_slice(), nothing.as_slice())
}

/// The provider account identifier of a scraped account (see
/// `provider_id_spec`).
pub fn provider_account_id(scraped: &ScrapedAccount) -> (r: String)
    ensures
        r@ == provider_id_spec(scraped.bank_key@, scraped.account_number@),
{
    let mut t = chars_of(scraped.bank_key.as_str());
    push_str(&mut t, ":");
    let n = strip_spaces_exec(scraped.account_number.as_str());
    push_all(&mut t, n.as_slice());
    string_of(t.as_slice())
}

/// A portfolio account to create for a scraped bank account.
#[derive(Debug, Clone)]
pub struct NewBankAccount {
    pub id: String,
    pub name: String,
    pub account_type: String,
    pub currency: String,
    pub is_default: bool,
    pub is_active: bool,
    pub account_number: String,
    pub provider: String,
    pub provider_account_id: String,
    pub is_archived: bool,
}

/// The account to create for a scraped account, with the identifier `id`:
/// named `{bank} - {name}`, of the mapped type, in the scraped currency,
/// active and not the default, with the account number without spaces,
/// provided by `BANK_CONNECT` under its provider account identifier.
pub fn new_bank_account(scraped: &ScrapedAccount, id: String) -> (r: NewBankAccount)
    ensures
        r.id == id,
        r.name@ == scraped.bank_key@ + " - "@ + scraped.account_name@,
        r.account_type@ == map_account_type_spec(scraped.account_type@),
        r.currency@ == scraped.currency@,
        !r.is_default,
        r.is_active,
        r.account_number@ == strip_spaces(scraped.account_number@),
        r.provider@ == "BANK_CONNECT"@,
        r.provider_account_id@ == provider_id_spec(scraped.bank_key@, scraped.account_number@),
        !r.is_archived,
{
    let mut name = chars_of(scraped.bank_key.as_str());
    push_str(&mut name, " - ");
    push_str(&mut name, scraped.account_name.as_str());
    let number = strip_spaces_exec(scraped.account_number.as_str());
    NewBankAccount {
        id,
        name: string_of(name.as_slice()),
        account_type: map_account_type(scraped.account_type.as_str()),
        currency: scraped.currency.clone(),
        is_default: false,
        is_active: true,
        account_number: string_of(number.as_slice()),
        provider: owned("BANK_CONNECT"),
        provider_account_id: provider_account_id(scraped),
        is_archived: false,
    }
}

/// An account of the portfolio, as far as finding a bank's account goes.
#[derive(Debug, Clone)]
pub struct AccountRef {
    pub id: String,
    pub provider_account_id: Option<String>,
}

/// The identifier of the first account whose provider account identifier
/// is `provider_id`.
pub open spec fn find_by_provider_spec(accounts: Seq<AccountRef>, provider_id: Seq<char>) -> Option<
    Seq<char>,
>
    decreases accounts.len(),
{
    if accounts.len() == 0 {
        None
    } else if opt_str(accounts[0].provider_account_id) == Some(provider_id) {
        Some(accounts[0].id@)
    } else {
        find_by_provider_spec(accounts.drop_first(), provider_id)
    }
}

/// The first account of `accounts` tied to `provider_id` (see
/// `find_by_provider_spec`).
pub fn find_account_by_provider_id(accounts: &[AccountRef], provider_id: &str) -> (r: Option<
    String,
>)
    ensures
        opt_str(r) == find_by_provider_spec(accounts@, provider_id@),
{
    let p = chars_of(provider_id);
    let mut i: usize = 0;
    assert(accounts@.subrange(0, accounts@.len() as int) =~= accounts@);
    while i < accounts.len()
        invariant
            i <= accounts@.len(),
            p@ == provider_id@,
            find_by_provider_spec(accounts@, provider_id@) == find_by_provider_spec(
                accounts@.subrange(i as int, accounts@.len() as int),
                provider_id@,
            ),
        decreases accounts@.len() - i,
    {
        let ghost rest = accounts@.subrange(i as int, accounts@.len() as int);
        assert(rest[0] == accounts@[i as int]);
        assert(rest.drop_first() =~= accounts@.subrange(i + 1, accounts@.len() as int));
        match &accounts[i].provider_account_id {
            Some(pid) => {
                let pc = chars_of(pid.as_str());
                if crate::text::eq_chars(pc.as_slice(), p.as_slice()) {
                    return Some(accounts[i].id.clone());
                }
            },
            None => {},
        }
        i = i + 1;
    }
    None
}

/// Once an account tied to `provider_id` is added to accounts that held
/// none, it is the one found for `provider_id`: importing the same bank
/// account again reuses it.
pub proof fn law_created_account_is_found(
    accounts: Seq<AccountRef>,
    created: AccountRef,
    provider_id: Seq<char>,
)
    requires
        find_by_provider_spec(accounts, provider_id) is None,
        opt_str(created.provider_account_id) == Some(provider_id),
    ensures
        find_by_provider_spec(accounts.push(created), provider_id) == Some(created.id@),
    decreases accounts.len(),
{
    if accounts.len() > 0 {
        assert(accounts.push(created).drop_first() =~= accounts.drop_first().push(created));
        law_created_account_is_found(accounts.drop_first(), created, provider_id);
    } else {
        assert(accounts.push(created)[0] == created);
    }
}

/// Wherever an account tied to `provider_id` stands in the listing, it is
/// the one found when no account before it is tied to the same identifier
/// (in particular when it is the only one so tied).
pub proof fn law_tied_account_is_found(accounts: Seq<AccountRef>, j: int, provider_id: Seq<char>)
    requires
        0 <= j < accounts.len(),
        opt_str(accounts[j].provider_account_id) == Some(provider_id),
        forall|i: int|
            0 <= i < j ==> opt_str(#[trigger] accounts[i].provider_account_id) != Some(
                provider_id,
            ),
    ensures
        find_by_provider_spec(accounts, provider_id) == Some(accounts[j].id@),
    decreases j,
{
    if j > 0 {
        let rest = accounts.drop_first();
        assert(opt_str(accounts[0].provider_account_id) != Some(provider_id));
        assert forall|i: int| 0 <= i < j - 1 implies opt_str(
            #[trigger] rest[i].provider_account_id,
        ) != Some(provider_id) by {
            assert(rest[i] == accounts[i + 1]);
        }
        assert(rest[j - 1] == accounts[j]);
        law_tied_account_is_found(rest, j - 1, provider_id);
    }
}

/// A bank account is imported once: when a later resolution is for a
/// scraped account with the same bank key and the same account number but
/// for spaces, and the listing holds the account tied to the first one's
/// provider account identifier (with no account before it tied to the
/// same identifier), that account is found, and none is created.
pub proof fn law_bank_account_reused(
    bank_key_1: Seq<char>,
    number_1: Seq<char>,
    bank_key_2: Seq<char>,
    number_2: Seq<char>,
    accounts: Seq<AccountRef>,
    j: int,
)
    requires
        bank_key_2 == bank_key_1,
        strip_spaces(number_2) == strip_spaces(number_1),
        0 <= j < accounts.len(),
        opt_str(accounts[j].provider_account_id) == Some(provider_id_spec(bank_key_1, number_1)),
        forall|i: int|
            0 <= i < j ==> opt_str(#[trigger] accounts[i].provider_account_id) != Some(
                provider_id_spec(bank_key_1, number_1),
            ),
    ensures
        provider_id_spec(bank_key_2, number_2) == provider_id_spec(bank_key_1, number_1),
        find_by_provider_spec(accounts, provider_id_spec(bank_key_2, number_2)) == Some(
            accounts[j].id@,
        ),
{
    law_tied_account_is_found(accounts, j, provider_id_spec(bank_key_1, number_1));
}

/// What to do for a scraped account: use the account already tied to it,
/// or create one.
#[derive(Debug)]
pub enum AccountResolution {
    Existing(String),
    Create(NewBankAccount),
}

/// The account of a scraped account: the first of `accounts` tied to its
/// provider account identifier, else a new one with the identifier
/// `new_id` (see `new_bank_account`).
pub fn resolve_bank_account(scraped: &ScrapedAccount, accounts: &[AccountRef], new_id: String) -> (r:
    AccountResolution)
    ensures
        match find_by_provider_spec(
            accounts@,
            provider_id_spec(scraped.bank_key@, scraped.account_number@),
        ) {
            Some(id) => r matches AccountResolution::Existing(e) && e@ == id,
            None => r matches AccountResolution::Create(a) && a.id == new_id
                && a.provider_account_id@ == provider_id_spec(
                scraped.bank_key@,
                scraped.account_number@,
            ) && a.name@ == scraped.bank_key@ + " - "@ + scraped.account_name@ && a.account_type@
                == map_account_type_spec(scraped.account_type@) && a.currency@ == scraped.currency@
                && a.account_number@ == strip_spaces(scraped.account_number@) && a.provider@
                == "BANK_CONNECT"@ && a.is_active && !a.is_default && !a.is_archived,
        },
{
    let pid = provider_account_id(scraped);
    match find_account_by_provider_id(accounts, pid.as_str()) {
        Some(id) => AccountResolution::Existing(id),
        None => AccountResolution::Create(new_bank_account(scraped, new_id)),
    }
}

/// The label of a bank's window: `bank-` and the lower-cased key.
pub open spec fn window_label_spec(bank_key: Seq<char>) -> Seq<char> {
    "bank-"@ + lowercase(bank_key)
}

/// The label of a bank's window (see `window_label_spec`).
pub fn bank_window_label(bank_key: &str) -> (r: String)
    ensures
        r@ == window_label_spec(bank_key@),
{
    let c = chars_of(bank_key);
    let l = to_lowercase(c.as_slice());
    let mut t = chars_of("bank-");
    push_all(&mut t, l.as_slice());
    string_of(t.as_slice())
}

/// What opening a bank's window needs: its label, the page to open, the
/// text that marks a signed-in page, and the window's title.
#[derive(Debug, Clone)]
pub struct BankWindowPlan {
    pub label: String,
    pub login_url: String,
    pub post_login_pattern: String,
    pub title: String,
}

/// The window of a connector named `bank_key` in any case; the error of
/// reading the name when it is no connector's.
pub fn plan_bank_window(bank_key: &str) -> (r: Result<BankWindowPlan, String>)
    ensures
        match parse_key_spec(bank_key@) {
            Ok(k) => r matches Ok(p) && p.label@ == window_label_spec(bank_key@) && p.login_url@
                == k.login_url_spec() && p.post_login_pattern@ == k.post_login_pattern_spec()
                && p.title@ == k.display_name_spec() + " - Bank Connect"@,
            Err(e) => r matches Err(m) && m@ == e,
        },
{
    let key = match BankKey::parse_key(bank_key) {
        Ok(k) => k,
        Err(e) => return Err(e),
    };
    let mut title = chars_of(key.display_name());
    push_str(&mut title, " - Bank Connect");
    Ok(
        BankWindowPlan {
            label: bank_window_label(bank_key),
            login_url: owned(key.login_url()),
            post_login_pattern: owned(key.post_login_pattern()),
            title: string_of(title.as_slice()),
        },
    )
}

/// Whether the window has reached a signed-in page: the address holds the
/// connector's post-login text.
pub fn is_login_navigation(url: &str, post_login_pattern: &str) -> (r: bool)
    ensures
        r == contains(url@, post_login_pattern@),
{
    let u = chars_of(url);
    contains_str(u.as_slice(), post_login_pattern)
}

/// What starting a download does once its run is recorded: the script to
/// run, the window to run it in, and the first progress message.
#[derive(Debug, Clone)]
pub struct DownloadStart {
    pub script: String,
    pub window_label: String,
    pub progress: BankProgressPayload,
}

/// The start of a download from the connector named exactly `bank_key`,
/// going `years_back` years back under the run `run_id`: its script, its
/// window, and an `info` message `Starting download automation...` at
/// `timestamp`. An error that names the key when it has no script.
pub fn plan_bank_download(bank_key: &str, years_back: u32, run_id: &str, timestamp: String) -> (r:
    Result<DownloadStart, String>)
    ensures
        match automation_script_spec(bank_key@, years_back, run_id@) {
            Some(script) => r matches Ok(d) && d.script@ == script && d.window_label@
                == window_label_spec(bank_key@) && d.progress.bank_key@ == bank_key@
                && d.progress.level@ == "info"@ && d.progress.message@
                == "Starting download automation..."@ && d.progress.timestamp == timestamp,
            None => r matches Err(m) && m@ == "No automation script for bank: "@ + bank_key@,
        },
{
    let script = match get_automation_script(bank_key, years_back, run_id) {
        Some(s) => s,
        None => {
            let mut m = chars_of("No automation script for bank: ");
            push_str(&mut m, bank_key);
            return Err(string_of(m.as_slice()));
        },
    };
    Ok(
        DownloadStart {
            script,
            window_label: bank_window_label(bank_key),
            progress: BankProgressPayload {
                bank_key: owned(bank_key),
                level: owned("info"),
                message: owned("Starting download automation..."),
                timestamp,
            },
        },
    )
}

} // verus!
