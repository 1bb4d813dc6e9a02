//! Mapping of bank transactions from the statement parsers to portfolio
//! activities: each transaction is classified by its category (when the
//! statement gives one), its sign and keywords of its description, and is
//! given an idempotency key.

use vstd::prelude::*;
use crate::amount::{Amount, AmountV, fixed2_spec};
use crate::hashing::{sha256_hex, sha256_hex_spec};
use crate::text::{
    chars_of, clone_opt_string, contains, contains_str, opt_str, owned, push_all, push_str, string_of,
    to_uppercase, trim, trim_chars, uppercase, lemma_middle_injective,
};

verus! {

/// Where mapped activities go and which source produced them.
pub struct BankMapperConfig {
    pub account_id: String,
    pub currency: String,
    pub source_system: String,
}

impl BankMapperConfig {
    pub fn new(account_id: String, currency: String, source: &str) -> (r: Self)
        ensures
            r.account_id == account_id,
            r.currency == currency,
            r.source_system@ == source@,
    {
        BankMapperConfig { account_id, currency, source_system: owned(source) }
    }
}

/// A transaction handed to the mapper by one of the statement parsers.
pub struct BankTransactionInput {
    pub date: String,
    pub description: String,
    pub amount: Amount,
    pub reference: Option<String>,
    pub category: Option<String>,
}

/// The status an imported activity is given.
#[derive(Debug, Clone, Copy, PartialEq, Eq)]
pub enum ActivityStatus {
    Posted,
}

/// A new activity, as the mapper fills it.
pub struct NewActivity {
    pub id: Option<String>,
    pub account_id: String,
    pub symbol: Option<String>,
    pub activity_type: String,
    pub subtype: Option<String>,
    pub activity_date: String,
    pub quantity: Option<Amount>,
    pub unit_price: Option<Amount>,
    pub currency: String,
    pub fee: Option<Amount>,
    pub amount: Option<Amount>,
    pub status: Option<ActivityStatus>,
    pub notes: Option<String>,
    pub fx_rate: Option<Amount>,
    pub metadata: Option<String>,
    pub needs_review: Option<bool>,
    pub source_system: Option<String>,
    pub source_record_id: Option<String>,
    pub source_group_id: Option<String>,
    pub idempotency_key: Option<String>,
}

/// An activity together with the reason for its classification.
pub struct MappedActivity {
    pub activity: NewActivity,
    pub classification_reason: String,
}

/// Activity type, subtype and reason.
pub type Classification = (Seq<char>, Option<Seq<char>>, Seq<char>);

/// The classification by a statement category `c` (upper-cased), if the
/// category decides it.
pub open spec fn classify_by_category(c: Seq<char>, amount: AmountV) -> Option<Classification> {
    if (contains(c, "SALARY"@) || contains(c, "WAGES"@) || contains(c, "PAYROLL"@)) {
        Some(("DEPOSIT"@, Some("SALARY"@), "QIF category: Salary"@))
    } else if (contains(c, "INTEREST"@)) {
        Some(("INTEREST"@, None, "QIF category: Interest"@))
    } else if (contains(c, "DIVIDEND"@) || contains(c, "DIV"@)) {
        Some(("DIVIDEND"@, None, "QIF category: Dividend"@))
    } else if (contains(c, "TRANSFER"@)) && amount.is_positive() {
        Some(("TRANSFER_IN"@, None, "QIF category: Transfer In"@))
    } else if (contains(c, "TRANSFER"@)) && amount.is_negative() {
        Some(("TRANSFER_OUT"@, None, "QIF category: Transfer Out"@))
    } else if (contains(c, "FEE"@) || contains(c, "CHARGE"@)) {
        Some(("FEE"@, None, "QIF category: Fee"@))
    } else if (contains(c, "FOOD"@) || contains(c, "GROCERY"@) || contains(c, "SHOP"@)) {
        Some(("WITHDRAWAL"@, Some("PURCHASE"@), "QIF category: Shopping"@))
    } else if (contains(c, "UTIL"@) || contains(c, "BILL"@)) {
        Some(("WITHDRAWAL"@, Some("PAYMENT"@), "QIF category: Bill Payment"@))
    } else {
        None
    }
}

/// The classification of a credit by its upper-cased description `d`.
pub open spec fn classify_credit(d: Seq<char>, amount: AmountV) -> Classification {
    if (contains(d, "PAYROLL"@) || contains(d, "SALARY"@) || contains(d, "WAGES"@) || contains(d, "EMPLOYER"@) || contains(d, "PAYG"@)) {
        ("DEPOSIT"@, Some("SALARY"@), "Description contains: Payroll/Salary"@)
    } else if (contains(d, "INTEREST"@)) {
        ("INTEREST"@, None, "Description contains: Interest"@)
    } else if (contains(d, "DIVIDEND"@) || contains(d, "DIV"@)) {
        ("DIVIDEND"@, None, "Description contains: Dividend"@)
    } else if (contains(d, "REFUND"@) || contains(d, "REBATE"@) || contains(d, "CASHBACK"@)) {
        ("CREDIT"@, Some("REFUND"@), "Description contains: Refund"@)
    } else if (contains(d, "TRANSFER IN"@) || contains(d, "FROM "@) || contains(d, "TRANSFER FROM"@)) {
        ("TRANSFER_IN"@, None, "Description contains: Transfer In"@)
    } else {
        ("DEPOSIT"@, None, "Amount positive: $"@ + fixed2_spec(amount))
    }
}

/// The classification of a debit (any amount that is not above zero) by its
/// upper-cased description `d`.
pub open spec fn classify_debit(d: Seq<char>, amount: AmountV) -> Classification {
    if (contains(d, "BPAY"@) || contains(d, "BILL"@) || contains(d, "PAYMENT"@)) {
        ("WITHDRAWAL"@, Some("PAYMENT"@), "Description contains: Payment"@)
    } else if (contains(d, "ATM"@) || contains(d, "CASH WITHDRAWAL"@) || contains(d, "CASH OUT"@)) {
        ("WITHDRAWAL"@, Some("ATM"@), "Description contains: ATM"@)
    } else if (contains(d, "TRANSFER OUT"@) || contains(d, "TO "@) || contains(d, "TRANSFER TO"@)) && !contains(d, "FROM"@) {
        ("TRANSFER_OUT"@, None, "Description contains: Transfer Out"@)
    } else if (contains(d, "FEE"@) || contains(d, "CHARGE"@) || contains(d, "MAINTENANCE"@) || contains(d, "SERVICE CHARGE"@)) {
        ("FEE"@, None, "Description contains: Fee"@)
    } else if (contains(d, "GROCERY"@) || contains(d, "WOOLWORTHS"@) || contains(d, "COLES"@) || contains(d, "SHOPPING"@) || contains(d, "STORE"@) || contains(d, "PURCHASE"@)) {
        ("WITHDRAWAL"@, Some("PURCHASE"@), "Description contains: Shopping"@)
    } else if (contains(d, "PETROL"@) || contains(d, "FUEL"@) || contains(d, "SHELL"@) || contains(d, "BP "@) || contains(d, "CALTEX"@) || contains(d, "MOBIL"@)) {
        ("WITHDRAWAL"@, Some("FUEL"@), "Description contains: Fuel"@)
    } else if (contains(d, "RESTAURANT"@) || contains(d, "CAFE"@) || contains(d, "COFFEE"@) || contains(d, "UBER EATS"@) || contains(d, "MENU LOG"@) || contains(d, "DOORDASH"@)) {
        ("WITHDRAWAL"@, Some("DINING"@), "Description contains: Dining"@)
    } else if (contains(d, "SUBSCRIPTION"@) || contains(d, "NETFLIX"@) || contains(d, "SPOTIFY"@) || contains(d, "STREAMING"@) || contains(d, "MEMBERSHIP"@)) {
        ("WITHDRAWAL"@, Some("SUBSCRIPTION"@), "Description contains: Subscription"@)
    } else if (contains(d, "INSURANCE"@) || contains(d, "HEALTH"@)) {
        ("WITHDRAWAL"@, Some("INSURANCE"@), "Description contains: Insurance"@)
    } else if (contains(d, "RENT"@)) {
        ("WITHDRAWAL"@, Some("RENT"@), "Description contains: Rent"@)
    } else {
        ("WITHDRAWAL"@, None, "Amount negative: $"@ + fixed2_spec(amount.abs()))
    }
}

/// How a transaction is classified: by its category first, then by its sign
/// and description.
pub open spec fn classify_spec(
    description: Seq<char>,
    category: Option<Seq<char>>,
    amount: AmountV,
) -> Classification {
    let by_category = match category {
        Some(c) => classify_by_category(uppercase(c), amount),
        None => None,
    };
    match by_category {
        Some(r) => r,
        None => if amount.is_positive() {
            classify_credit(uppercase(description), amount)
        } else {
            classify_debit(uppercase(description), amount)
        },
    }
}

pub open spec fn class_view(r: (String, Option<String>, String)) -> Classification {
    (r.0@, opt_str(r.1), r.2@)
}

fn classify_by_category_exec(c: &[char], amount: &Amount) -> (r: Option<(String, Option<String>, String)>)
    ensures
        match r {
            Some(x) => classify_by_category(c@, amount@) == Some(class_view(x)),
            None => classify_by_category(c@, amount@) is None,
        },
{
    if (contains_str(c, "SALARY") || contains_str(c, "WAGES") || contains_str(c, "PAYROLL")) {
        Some((owned("DEPOSIT"), Some(owned("SALARY")), owned("QIF category: Salary")))
    } else if (contains_str(c, "INTEREST")) {
        Some((owned("INTEREST"), None, owned("QIF category: Interest")))
    } else if (contains_str(c, "DIVIDEND") || contains_str(c, "DIV")) {
        Some((owned("DIVIDEND"), None, owned("QIF category: Dividend")))
    } else if (contains_str(c, "TRANSFER")) && amount.is_positive() {
        Some((owned("TRANSFER_IN"), None, owned("QIF category: Transfer In")))
    } else if (contains_str(c, "TRANSFER")) && amount.is_negative() {
        Some((owned("TRANSFER_OUT"), None, owned("QIF category: Transfer Out")))
    } else if (contains_str(c, "FEE") || contains_str(c, "CHARGE")) {
        Some((owned("FEE"), None, owned("QIF category: Fee")))
    } else if (contains_str(c, "FOOD") || contains_str(c, "GROCERY") || contains_str(c, "SHOP")) {
        Some((owned("WITHDRAWAL"), Some(owned("PURCHASE")), owned("QIF category: Shopping")))
    } else if (contains_str(c, "UTIL") || contains_str(c, "BILL")) {
        Some((owned("WITHDRAWAL"), Some(owned("PAYMENT")), owned("QIF category: Bill Payment")))
    } else {
        None
    }
}

fn classify_credit_exec(d: &[char], amount: &Amount) -> (r: (String, Option<String>, String))
    ensures
        class_view(r) == classify_credit(d@, amount@),
{
    if (contains_str(d, "PAYROLL") || contains_str(d, "SALARY") || contains_str(d, "WAGES") || contains_str(d, "EMPLOYER") || contains_str(d, "PAYG")) {
        (owned("DEPOSIT"), Some(owned("SALARY")), owned("Description contains: Payroll/Salary"))
    } else if (contains_str(d, "INTEREST")) {
        (owned("INTEREST"), None, owned("Description contains: Interest"))
    } else if (contains_str(d, "DIVIDEND") || contains_str(d, "DIV")) {
        (owned("DIVIDEND"), None, owned("Description contains: Dividend"))
    } else if (contains_str(d, "REFUND") || contains_str(d, "REBATE") || contains_str(d, "CASHBACK")) {
        (owned("CREDIT"), Some(owned("REFUND")), owned("Description contains: Refund"))
    } else if (contains_str(d, "TRANSFER IN") || contains_str(d, "FROM ") || contains_str(d, "TRANSFER FROM")) {
        (owned("TRANSFER_IN"), None, owned("Description contains: Transfer In"))
    } else {
        {
            let mut m = chars_of("Amount positive: $");
            let f = amount.fixed2_chars();
            push_all(&mut m, f.as_slice());
            (owned("DEPOSIT"), None, string_of(m.as_slice()))
        }
    }
}

fn classify_debit_exec(d: &[char], amount: &Amount) -> (r: (String, Option<String>, String))
    ensures
        class_view(r) == classify_debit(d@, amount@),
{
    if (contains_str(d, "BPAY") || contains_str(d, "BILL") || contains_str(d, "PAYMENT")) {
        (owned("WITHDRAWAL"), Some(owned("PAYMENT")), owned("Description contains: Payment"))
    } else if (contains_str(d, "ATM") || contains_str(d, "CASH WITHDRAWAL") || contains_str(d, "CASH OUT")) {
        (owned("WITHDRAWAL"), Some(owned("ATM")), owned("Description contains: ATM"))
    } else if (contains_str(d, "TRANSFER OUT") || contains_str(d, "TO ") || contains_str(d, "TRANSFER TO")) && !contains_str(d, "FROM") {
        (owned("TRANSFER_OUT"), None, owned("Description contains: Transfer Out"))
    } else if (contains_str(d, "FEE") || contains_str(d, "CHARGE") || contains_str(d, "MAINTENANCE") || contains_str(d, "SERVICE CHARGE")) {
        (owned("FEE"), None, owned("Description contains: Fee"))
    } else if (contains_str(d, "GROCERY") || contains_str(d, "WOOLWORTHS") || contains_str(d, "COLES") || contains_str(d, "SHOPPING") || contains_str(d, "STORE") || contains_str(d, "PURCHASE")) {
        (owned("WITHDRAWAL"), Some(owned("PURCHASE")), owned("Description contains: Shopping"))
    } else if (contains_str(d, "PETROL") || contains_str(d, "FUEL") || contains_str(d, "SHELL") || contains_str(d, "BP ") || contains_str(d, "CALTEX") || contains_str(d, "MOBIL")) {
        (owned("WITHDRAWAL"), Some(owned("FUEL")), owned("Description contains: Fuel"))
    } else if (contains_str(d, "RESTAURANT") || contains_str(d, "CAFE") || contains_str(d, "COFFEE") || contains_str(d, "UBER EATS") || contains_str(d, "MENU LOG") || contains_str(d, "DOORDASH")) {
        (owned("WITHDRAWAL"), Some(owned("DINING")), owned("Description contains: Dining"))
    } else if (contains_str(d, "SUBSCRIPTION") || contains_str(d, "NETFLIX") || contains_str(d, "SPOTIFY") || contains_str(d, "STREAMING") || contains_str(d, "MEMBERSHIP")) {
        (owned("WITHDRAWAL"), Some(owned("SUBSCRIPTION")), owned("Description contains: Subscription"))
    } else if (contains_str(d, "INSURANCE") || contains_str(d, "HEALTH")) {
        (owned("WITHDRAWAL"), Some(owned("INSURANCE")), owned("Description contains: Insurance"))
    } else if (contains_str(d, "RENT")) {
        (owned("WITHDRAWAL"), Some(owned("RENT")), owned("Description contains: Rent"))
    } else {
        {
            let mut m = chars_of("Amount negative: $");
            let f = amount.abs().fixed2_chars();
            push_all(&mut m, f.as_slice());
            (owned("WITHDRAWAL"), None, string_of(m.as_slice()))
        }
    }
}

/// Classifies a transaction: activity type, subtype and reason.
pub fn classify_transaction(tx: &BankTransactionInput) -> (r: (String, Option<String>, String))
    ensures
        class_view(r) == classify_spec(tx.description@, opt_str(tx.category), tx.amount@),
{
    let by_category = match &tx.category {
        Some(cat) => {
            let cc = chars_of(cat.as_str());
            let cu = to_uppercase(cc.as_slice());
            classify_by_category_exec(cu.as_slice(), &tx.amount)
        },
        None => None,
    };
    match by_category {
        Some(r) => r,
        None => {
            let dc = chars_of(tx.description.as_str());
            let du = to_uppercase(dc.as_slice());
            if tx.amount.is_positive() {
                classify_credit_exec(du.as_slice(), &tx.amount)
            } else {
                classify_debit_exec(du.as_slice(), &tx.amount)
            }
        },
    }
}

/// The text fingerprinted for a mapped bank activity:
/// `BANK|{source}|{account}|{date}|{amount:.2}|{description.trim()}`.
pub open spec fn bank_key_text(
    source_system: Seq<char>,
    account_id: Seq<char>,
    date: Seq<char>,
    amount: AmountV,
    description: Seq<char>,
) -> Seq<char> {
    "BANK|"@ + source_system + "|"@ + account_id + "|"@ + date + "|"@ + fixed2_spec(amount) + "|"@
        + trim(description)
}

/// Builds `BANK|{source}|{account}|{date}|{amount:.2}|{description.trim()}`.
pub fn bank_key_text_exec(
    source_system: &str,
    account_id: &str,
    date: &str,
    amount: &Amount,
    description: &str,
) -> (r: Vec<char>)
    ensures
        r@ == bank_key_text(source_system@, account_id@, date@, amount@, description@),
{
    let mut t = chars_of("BANK|");
    push_str(&mut t, source_system);
    push_str(&mut t, "|");
    push_str(&mut t, account_id);
    push_str(&mut t, "|");
    push_str(&mut t, date);
    push_str(&mut t, "|");
    let f = amount.fixed2_chars();
    push_all(&mut t, f.as_slice());
    push_str(&mut t, "|");
    let dc = chars_of(description);
    let dt = trim_chars(dc.as_slice());
    push_all(&mut t, dt.as_slice());
    t
}

/// The idempotency key of a mapped bank activity: the SHA-256 fingerprint
/// of its key text.
pub fn generate_bank_activity_key(
    source_system: &str,
    account_id: &str,
    date: &str,
    amount: &Amount,
    description: &str,
) -> (r: String)
    ensures
        r@ == sha256_hex_spec(bank_key_text(source_system@, account_id@, date@, amount@, description@)),
        r@.len() == 64,
{
    let t = bank_key_text_exec(source_system, account_id, date, amount, description);
    let h = sha256_hex(t.as_slice());
    string_of(h.as_slice())
}

/// The key text of a bank transaction is the same for transactions whose
/// amounts agree to the cent and whose descriptions agree but for
/// surrounding white space.
pub proof fn law_bank_key_text_stable(
    source_system: Seq<char>,
    account_id: Seq<char>,
    date: Seq<char>,
    a1: AmountV,
    a2: AmountV,
    d1: Seq<char>,
    d2: Seq<char>,
)
    requires
        fixed2_spec(a1) == fixed2_spec(a2),
        trim(d1) == trim(d2),
    ensures
        bank_key_text(source_system, account_id, date, a1, d1) == bank_key_text(
            source_system,
            account_id,
            date,
            a2,
            d2,
        ),
{
}

/// The amount recorded on the activity: the transaction's amount, or zero
/// for an infinite or not-a-number amount.
pub open spec fn activity_amount(a: AmountV) -> AmountV {
    if a is Finite {
        a
    } else {
        crate::amount::zero_v()
    }
}

pub open spec fn opt_amount(o: Option<Amount>) -> Option<AmountV> {
    match o {
        Some(a) => Some(a@),
        None => None,
    }
}

/// What `map_single_transaction` makes of `tx` under `config`.
pub open spec fn mapped_as(m: MappedActivity, tx: BankTransactionInput, config: BankMapperConfig) -> bool {
    let c = classify_spec(tx.description@, opt_str(tx.category), tx.amount@);
    let a = m.activity;
    &&& a.id is None
    &&& a.account_id@ == config.account_id@
    &&& a.symbol is None
    &&& a.activity_type@ == c.0
    &&& opt_str(a.subtype) == c.1
    &&& a.activity_date@ == tx.date@
    &&& a.quantity is None
    &&& a.unit_price is None
    &&& a.currency@ == config.currency@
    &&& a.fee is None
    &&& opt_amount(a.amount) == Some(activity_amount(tx.amount@))
    &&& a.status == Some(ActivityStatus::Posted)
    &&& opt_str(a.notes) == Some(tx.description@)
    &&& a.fx_rate is None
    &&& a.metadata is None
    &&& a.needs_review is None
    &&& opt_str(a.source_system) == Some(config.source_system@)
    &&& opt_str(a.source_record_id) == opt_str(tx.reference)
    &&& a.source_group_id is None
    &&& opt_str(a.idempotency_key) == Some(
        sha256_hex_spec(
            bank_key_text(
                config.source_system@,
                config.account_id@,
                tx.date@,
                tx.amount@,
                tx.description@,
            ),
        ),
    )
    &&& m.classification_reason@ == c.2
}

/// Maps one transaction to an activity.
pub fn map_single_transaction(tx: &BankTransactionInput, config: &BankMapperConfig) -> (r:
    MappedActivity)
    ensures
        mapped_as(r, *tx, *config),
{
    let (activity_type, subtype, reason) = classify_transaction(tx);
    let amount = if tx.amount.is_finite() {
        tx.amount.duplicate()
    } else {
        Amount::zero()
    };
    let idempotency_key = generate_bank_activity_key(
        config.source_system.as_str(),
        config.account_id.as_str(),
        tx.date.as_str(),
        &tx.amount,
        tx.description.as_str(),
    );
    let activity = NewActivity {
        id: None,
        account_id: config.account_id.clone(),
        symbol: None,
        activity_type,
        subtype,
        activity_date: tx.date.clone(),
        quantity: None,
        unit_price: None,
        currency: config.currency.clone(),
        fee: None,
        amount: Some(amount),
        status: Some(ActivityStatus::Posted),
        notes: Some(tx.description.clone()),
        fx_rate: None,
        metadata: None,
        needs_review: None,
        source_system: Some(config.source_system.clone()),
        source_record_id: clone_opt_string(&tx.reference),
        source_group_id: None,
        idempotency_key: Some(idempotency_key),
    };
    MappedActivity { activity, classification_reason: reason }
}

/// Maps each transaction, in order.
pub fn map_bank_transactions(transactions: Vec<BankTransactionInput>, config: &BankMapperConfig) -> (r:
    Vec<MappedActivity>)
    ensures
        r@.len() == transactions@.len(),
        forall|i: int| 0 <= i < r@.len() ==> mapped_as(#[trigger] r@[i], transactions@[i], *config),
{
    let mut out: Vec<MappedActivity> = Vec::new();
    let mut i: usize = 0;
    while i < transactions.len()
        invariant
            i <= transactions@.len(),
            out@.len() == i,
            forall|k: int| 0 <= k < i ==> mapped_as(#[trigger] out@[k], transactions@[k], *config),
        decreases transactions@.len() - i,
    {
        let m = map_single_transaction(&transactions[i], config);
        out.push(m);
        i = i + 1;
    }
    out
}

/// A credit without a deciding category whose upper-cased description
/// names a dividend, and none of the words of pay or interest, is a
/// dividend.
pub proof fn law_credit_dividend(description: Seq<char>, amount: AmountV)
    requires
        amount.is_positive(),
        contains(uppercase(description), "DIVIDEND"@),
        !contains(uppercase(description), "PAYROLL"@),
        !contains(uppercase(description), "SALARY"@),
        !contains(uppercase(description), "WAGES"@),
        !contains(uppercase(description), "EMPLOYER"@),
        !contains(uppercase(description), "PAYG"@),
        !contains(uppercase(description), "INTEREST"@),
    ensures
        classify_spec(description, None, amount) == (
            "DIVIDEND"@,
            None::<Seq<char>>,
            "Description contains: Dividend"@,
        ),
{
}

/// A transaction is classified as interest only when its category or its
/// description (upper-cased) mentions interest.
pub proof fn law_interest_only_when_mentioned(
    description: Seq<char>,
    category: Option<Seq<char>>,
    amount: AmountV,
)
    ensures
        classify_spec(description, category, amount).0 == "INTEREST"@ ==> contains(
            uppercase(description),
            "INTEREST"@,
        ) || (category matches Some(c) && contains(uppercase(c), "INTEREST"@)),
{
    reveal_strlit("DEPOSIT");
    reveal_strlit("INTEREST");
    reveal_strlit("DIVIDEND");
    reveal_strlit("CREDIT");
    reveal_strlit("TRANSFER_IN");
    reveal_strlit("TRANSFER_OUT");
    reveal_strlit("WITHDRAWAL");
    reveal_strlit("FEE");
    assert("DIVIDEND"@[0] != "INTEREST"@[0]);
}

/// A transaction is classified as a dividend only when its category or its
/// description (upper-cased) mentions `DIV`.
pub proof fn law_dividend_only_when_mentioned(
    description: Seq<char>,
    category: Option<Seq<char>>,
    amount: AmountV,
)
    ensures
        classify_spec(description, category, amount).0 == "DIVIDEND"@ ==> contains(
            uppercase(description),
            "DIV"@,
        ) || contains(uppercase(description), "DIVIDEND"@) || (category matches Some(c) && (
        contains(uppercase(c), "DIV"@) || contains(uppercase(c), "DIVIDEND"@))),
{
    reveal_strlit("DEPOSIT");
    reveal_strlit("INTEREST");
    reveal_strlit("DIVIDEND");
    reveal_strlit("CREDIT");
    reveal_strlit("TRANSFER_IN");
    reveal_strlit("TRANSFER_OUT");
    reveal_strlit("WITHDRAWAL");
    reveal_strlit("FEE");
    assert("DIVIDEND"@[0] != "INTEREST"@[0]);
}


/// The key text of a bank transaction tells apart transactions that differ
/// in one of its fields: the source, the account, the date, the amount to
/// the cent or the trimmed description.
pub proof fn law_bank_key_text_separates_fields(
    source_system: Seq<char>,
    account_id: Seq<char>,
    date: Seq<char>,
    amount: AmountV,
    description: Seq<char>,
    source_system_2: Seq<char>,
    account_id_2: Seq<char>,
    date_2: Seq<char>,
    amount_2: AmountV,
    description_2: Seq<char>,
)
    ensures
        source_system != source_system_2 ==> bank_key_text(
            source_system,
            account_id,
            date,
            amount,
            description,
        ) != bank_key_text(source_system_2, account_id, date, amount, description),
        account_id != account_id_2 ==> bank_key_text(
            source_system,
            account_id,
            date,
            amount,
            description,
        ) != bank_key_text(source_system, account_id_2, date, amount, description),
        date != date_2 ==> bank_key_text(source_system, account_id, date, amount, description)
            != bank_key_text(source_system, account_id, date_2, amount, description),
        fixed2_spec(amount) != fixed2_spec(amount_2) ==> bank_key_text(
            source_system,
            account_id,
            date,
            amount,
            description,
        ) != bank_key_text(source_system, account_id, date, amount_2, description),
        trim(description) != trim(description_2) ==> bank_key_text(
            source_system,
            account_id,
            date,
            amount,
            description,
        ) != bank_key_text(source_system, account_id, date, amount, description_2),
{
    let bar = "|"@;
    let f = fixed2_spec(amount);
    let t = trim(description);
    let tail_s = bar + account_id + bar + date + bar + f + bar + t;
    assert(bank_key_text(source_system, account_id, date, amount, description) =~= "BANK|"@
        + source_system + tail_s);
    assert(bank_key_text(source_system_2, account_id, date, amount, description) =~= "BANK|"@
        + source_system_2 + tail_s);
    lemma_middle_injective("BANK|"@, source_system, source_system_2, tail_s);
    let head_a = "BANK|"@ + source_system + bar;
    let tail_a = bar + date + bar + f + bar + t;
    assert(bank_key_text(source_system, account_id, date, amount, description) =~= head_a
        + account_id + tail_a);
    assert(bank_key_text(source_system, account_id_2, date, amount, description) =~= head_a
        + account_id_2 + tail_a);
    lemma_middle_injective(head_a, account_id, account_id_2, tail_a);
    let head_d = head_a + account_id + bar;
    let tail_d = bar + f + bar + t;
    assert(bank_key_text(source_system, account_id, date, amount, description) =~= head_d + date
        + tail_d);
    assert(bank_key_text(source_system, account_id, date_2, amount, description) =~= head_d
        + date_2 + tail_d);
    lemma_middle_injective(head_d, date, date_2, tail_d);
    let head_f = head_d + date + bar;
    let tail_f = bar + t;
    let f2 = fixed2_spec(amount_2);
    assert(bank_key_text(source_system, account_id, date, amount, description) =~= head_f + f
        + tail_f);
    assert(bank_key_text(source_system, account_id, date, amount_2, description) =~= head_f + f2
        + tail_f);
    lemma_middle_injective(head_f, f, f2, tail_f);
    let head_t = head_f + f + bar;
    let t2 = trim(description_2);
    assert(bank_key_text(source_system, account_id, date, amount, description) =~= head_t + t
        + Seq::<char>::empty());
    assert(bank_key_text(source_system, account_id, date, amount, description_2) =~= head_t + t2
        + Seq::<char>::empty());
    lemma_middle_injective(head_t, t, t2, Seq::<char>::empty());
}


/// Without a deciding category, a credit is a deposit, interest, a
/// dividend, a refund or a transfer in, and anything else (a debit or
/// zero) is a withdrawal, a transfer out or a fee.
pub proof fn law_sign_decides_kind(description: Seq<char>, amount: AmountV)
    ensures
        amount.is_positive() ==> {
            let t = classify_spec(description, None, amount).0;
            t == "DEPOSIT"@ || t == "INTEREST"@ || t == "DIVIDEND"@ || t == "CREDIT"@ || t
                == "TRANSFER_IN"@
        },
        !amount.is_positive() ==> {
            let t = classify_spec(description, None, amount).0;
            t == "WITHDRAWAL"@ || t == "TRANSFER_OUT"@ || t == "FEE"@
        },
{
}

/// A credit without a deciding category whose upper-cased description
/// names pay (`PAYROLL`, `SALARY`, `WAGES`, `EMPLOYER` or `PAYG`) is a
/// salary deposit.
pub proof fn law_credit_salary(description: Seq<char>, amount: AmountV)
    requires
        amount.is_positive(),
        contains(uppercase(description), "PAYROLL"@) || contains(uppercase(description), "SALARY"@)
            || contains(uppercase(description), "WAGES"@) || contains(
            uppercase(description),
            "EMPLOYER"@,
        ) || contains(uppercase(description), "PAYG"@),
    ensures
        classify_spec(description, None, amount) == (
            "DEPOSIT"@,
            Some("SALARY"@),
            "Description contains: Payroll/Salary"@,
        ),
{
}

/// A credit without a deciding category whose upper-cased description
/// mentions interest, and no pay, is interest.
pub proof fn law_credit_interest(description: Seq<char>, amount: AmountV)
    requires
        amount.is_positive(),
        contains(uppercase(description), "INTEREST"@),
        !contains(uppercase(description), "PAYROLL"@),
        !contains(uppercase(description), "SALARY"@),
        !contains(uppercase(description), "WAGES"@),
        !contains(uppercase(description), "EMPLOYER"@),
        !contains(uppercase(description), "PAYG"@),
    ensures
        classify_spec(description, None, amount) == (
            "INTEREST"@,
            None::<Seq<char>>,
            "Description contains: Interest"@,
        ),
{
}

/// A category that names salary, wages or payroll makes any transaction a
/// salary deposit.
pub proof fn law_category_salary(description: Seq<char>, category: Seq<char>, amount: AmountV)
    requires
        contains(uppercase(category), "SALARY"@) || contains(uppercase(category), "WAGES"@)
            || contains(uppercase(category), "PAYROLL"@),
    ensures
        classify_spec(description, Some(category), amount) == (
            "DEPOSIT"@,
            Some("SALARY"@),
            "QIF category: Salary"@,
        ),
{
}

/// A debit without a deciding category whose upper-cased description
/// names a shop (`GROCERY`, `WOOLWORTHS`, `COLES`, `SHOPPING`, `STORE` or
/// `PURCHASE`), and none of the words of payments, cash, transfers or fees,
/// is a purchase.
pub proof fn law_debit_purchase(description: Seq<char>, amount: AmountV)
    requires
        !amount.is_positive(),
        contains(uppercase(description), "WOOLWORTHS"@) || contains(uppercase(description), "COLES"@)
            || contains(uppercase(description), "GROCERY"@) || contains(
            uppercase(description),
            "SHOPPING"@,
        ) || contains(uppercase(description), "STORE"@) || contains(
            uppercase(description),
            "PURCHASE"@,
        ),
        !contains(uppercase(description), "BPAY"@),
        !contains(uppercase(description), "BILL"@),
        !contains(uppercase(description), "PAYMENT"@),
        !contains(uppercase(description), "ATM"@),
        !contains(uppercase(description), "CASH WITHDRAWAL"@),
        !contains(uppercase(description), "CASH OUT"@),
        !contains(uppercase(description), "TRANSFER OUT"@),
        !contains(uppercase(description), "TO "@),
        !contains(uppercase(description), "TRANSFER TO"@),
        !contains(uppercase(description), "FEE"@),
        !contains(uppercase(description), "CHARGE"@),
        !contains(uppercase(description), "MAINTENANCE"@),
        !contains(uppercase(description), "SERVICE CHARGE"@),
    ensures
        classify_spec(description, None, amount) == (
            "WITHDRAWAL"@,
            Some("PURCHASE"@),
            "Description contains: Shopping"@,
        ),
{
}

/// A debit without a deciding category whose upper-cased description
/// names a fee (`FEE`, `CHARGE`, `MAINTENANCE`), and none of the words of
/// payments, cash or transfers, is a fee.
pub proof fn law_debit_fee(description: Seq<char>, amount: AmountV)
    requires
        !amount.is_positive(),
        contains(uppercase(description), "FEE"@) || contains(uppercase(description), "CHARGE"@)
            || contains(uppercase(description), "MAINTENANCE"@),
        !contains(uppercase(description), "BPAY"@),
        !contains(uppercase(description), "BILL"@),
        !contains(uppercase(description), "PAYMENT"@),
        !contains(uppercase(description), "ATM"@),
        !contains(uppercase(description), "CASH WITHDRAWAL"@),
        !contains(uppercase(description), "CASH OUT"@),
        !contains(uppercase(description), "TRANSFER OUT"@),
        !contains(uppercase(description), "TO "@),
        !contains(uppercase(description), "TRANSFER TO"@),
    ensures
        classify_spec(description, None, amount) == (
            "FEE"@,
            None::<Seq<char>>,
            "Description contains: Fee"@,
        ),
{
}

/// A credit without a deciding category whose upper-cased description holds
/// none of the words looked for in credits is a plain deposit, and the
/// reason gives its amount to the cent.
pub proof fn law_unrecognised_credit(description: Seq<char>, amount: AmountV)
    requires
        amount.is_positive(),
        !contains(uppercase(description), "PAYROLL"@),
        !contains(uppercase(description), "SALARY"@),
        !contains(uppercase(description), "WAGES"@),
        !contains(uppercase(description), "EMPLOYER"@),
        !contains(uppercase(description), "PAYG"@),
        !contains(uppercase(description), "INTEREST"@),
        !contains(uppercase(description), "DIVIDEND"@),
        !contains(uppercase(description), "DIV"@),
        !contains(uppercase(description), "REFUND"@),
        !contains(uppercase(description), "REBATE"@),
        !contains(uppercase(description), "CASHBACK"@),
        !contains(uppercase(description), "TRANSFER IN"@),
        !contains(uppercase(description), "FROM "@),
        !contains(uppercase(description), "TRANSFER FROM"@),
    ensures
        classify_spec(description, None, amount) == (
            "DEPOSIT"@,
            None::<Seq<char>>,
            "Amount positive: $"@ + fixed2_spec(amount),
        ),
{
}

/// A debit (or zero) without a deciding category whose upper-cased
/// description holds none of the words looked for in debits is a plain
/// withdrawal, and the reason gives its magnitude to the cent.
pub proof fn law_unrecognised_debit(description: Seq<char>, amount: AmountV)
    requires
        !amount.is_positive(),
        !contains(uppercase(description), "BPAY"@),
        !contains(uppercase(description), "BILL"@),
        !contains(uppercase(description), "PAYMENT"@),
        !contains(uppercase(description), "ATM"@),
        !contains(uppercase(description), "CASH WITHDRAWAL"@),
        !contains(uppercase(description), "CASH OUT"@),
        !contains(uppercase(description), "TRANSFER OUT"@),
        !contains(uppercase(description), "TO "@),
        !contains(uppercase(description), "TRANSFER TO"@),
        !contains(uppercase(description), "FEE"@),
        !contains(uppercase(description), "CHARGE"@),
        !contains(uppercase(description), "MAINTENANCE"@),
        !contains(uppercase(description), "SERVICE CHARGE"@),
        !contains(uppercase(description), "GROCERY"@),
        !contains(uppercase(description), "WOOLWORTHS"@),
        !contains(uppercase(description), "COLES"@),
        !contains(uppercase(description), "SHOPPING"@),
        !contains(uppercase(description), "STORE"@),
        !contains(uppercase(description), "PURCHASE"@),
        !contains(uppercase(description), "PETROL"@),
        !contains(uppercase(description), "FUEL"@),
        !contains(uppercase(description), "SHELL"@),
        !contains(uppercase(description), "BP "@),
        !contains(uppercase(description), "CALTEX"@),
        !contains(uppercase(description), "MOBIL"@),
        !contains(uppercase(description), "RESTAURANT"@),
        !contains(uppercase(description), "CAFE"@),
        !contains(uppercase(description), "COFFEE"@),
        !contains(uppercase(description), "UBER EATS"@),
        !contains(uppercase(description), "MENU LOG"@),
        !contains(uppercase(description), "DOORDASH"@),
        !contains(uppercase(description), "SUBSCRIPTION"@),
        !contains(uppercase(description), "NETFLIX"@),
        !contains(uppercase(description), "SPOTIFY"@),
        !contains(uppercase(description), "STREAMING"@),
        !contains(uppercase(description), "MEMBERSHIP"@),
        !contains(uppercase(description), "INSURANCE"@),
        !contains(uppercase(description), "HEALTH"@),
        !contains(uppercase(description), "RENT"@),
    ensures
        classify_spec(description, None, amount) == (
            "WITHDRAWAL"@,
            None::<Seq<char>>,
            "Amount negative: $"@ + fixed2_spec(amount.abs()),
        ),
{
}

} // verus!
