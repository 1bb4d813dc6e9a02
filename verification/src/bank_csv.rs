//! Australian bank CSV exports: detection of the bank from the header row,
//! the column layout of each bank, and the reading of dates and amounts.
//!
//! Supported: Commonwealth Bank (CBA), Westpac, St. George, ANZ and NAB.

use vstd::prelude::*;
use vstd::utf8::{decode_utf8, encode_utf8, valid_utf8};
use crate::dates::{
    all_regex_digits, all_regex_word, class_flags, month_name_to_num, month_name_to_num_spec,
    range_digits, range_word, split3, split3_exec, usize_or_one,
};
use crate::amount::{Amount, AmountV, parse_float, parse_float_spec, zero_v};
use crate::errors::ImportError;
use crate::bank_mapper::{bank_key_text, bank_key_text_exec};
use crate::hashing::{sha256_hex, sha256_hex_spec};
use crate::text::{
    all_ascii_digits, all_ascii_digits_exec, chars_of, contains, contains_str, copy_range, decimal,
    decimal_exec, ends_with, ends_with_exec, eq_str, join, join_exec, starts_with, starts_with_exec, lowercase, pad_zero, pad_zero_exec, parse_usize_exec, push_all,
    push_str, string_of, to_lowercase, trim, trim_chars, views, opt_str, owned,
    lines, lines_exec, count_char, count_char_exec, utf8_decode, utf8_decode_lossy, utf8_error_text,
    utf8_lossy,
};

verus! {

/// The banks whose CSV exports are recognised.
#[derive(Debug, Clone, Copy, PartialEq, Eq, Structural)]
pub enum AustralianBank {
    /// Commonwealth Bank.
    CommBank,
    /// Westpac Banking Corporation.
    Westpac,
    /// St. George Bank (now part of Westpac).
    StGeorge,
    /// Australia and New Zealand Banking Group.
    Anz,
    /// National Australia Bank.
    Nab,
    /// Unable to detect bank.
    Unknown,
}

impl AustralianBank {
    pub open spec fn code_spec(self) -> Seq<char> {
        match self {
            AustralianBank::CommBank => "CBA"@,
            AustralianBank::Westpac => "WBC"@,
            AustralianBank::StGeorge => "STG"@,
            AustralianBank::Anz => "ANZ"@,
            AustralianBank::Nab => "NAB"@,
            AustralianBank::Unknown => "UNK"@,
        }
    }

    pub open spec fn name_spec(self) -> Seq<char> {
        match self {
            AustralianBank::CommBank => "Commonwealth Bank"@,
            AustralianBank::Westpac => "Westpac"@,
            AustralianBank::StGeorge => "St. George"@,
            AustralianBank::Anz => "ANZ"@,
            AustralianBank::Nab => "NAB"@,
            AustralianBank::Unknown => "Unknown"@,
        }
    }

    /// The short code of the bank.
    pub fn code(&self) -> (r: &'static str)
        ensures
            r@ == self.code_spec(),
    {
        match self {
            AustralianBank::CommBank => "CBA",
            AustralianBank::Westpac => "WBC",
            AustralianBank::StGeorge => "STG",
            AustralianBank::Anz => "ANZ",
            AustralianBank::Nab => "NAB",
            AustralianBank::Unknown => "UNK",
        }
    }

    /// The name of the bank.
    pub fn name(&self) -> (r: &'static str)
        ensures
            r@ == self.name_spec(),
    {
        match self {
            AustralianBank::CommBank => "Commonwealth Bank",
            AustralianBank::Westpac => "Westpac",
            AustralianBank::StGeorge => "St. George",
            AustralianBank::Anz => "ANZ",
            AustralianBank::Nab => "NAB",
            AustralianBank::Unknown => "Unknown",
        }
    }
}

/// The character sequences of a sequence of strings.
pub open spec fn str_views(s: Seq<String>) -> Seq<Seq<char>> {
    s.map_values(|x: String| x@)
}

/// Each header lower-cased.
pub open spec fn lower_all(h: Seq<Seq<char>>) -> Seq<Seq<char>> {
    h.map_values(|x: Seq<char>| lowercase(x))
}

/// Some element of `hs` contains `p`.
pub open spec fn any_contains(hs: Seq<Seq<char>>, p: Seq<char>) -> bool {
    exists|i: int| 0 <= i < hs.len() && contains(#[trigger] hs[i], p)
}

/// The bank whose export has these headers.
pub open spec fn detect_bank_spec(headers: Seq<Seq<char>>) -> AustralianBank {
    let hl = lower_all(headers);
    let hs = join(hl, ","@);
    if contains(hs, "transaction date"@) && (contains(hs, "closing balance"@) || contains(
        hs,
        "transaction amount"@,
    )) {
        AustralianBank::Westpac
    } else if any_contains(hl, "debit"@) && any_contains(hl, "credit"@) && any_contains(
        hl,
        "balance"@,
    ) && !contains(hs, "closing balance"@) {
        AustralianBank::CommBank
    } else if contains(hs, "transaction date"@) && any_contains(hl, "credit"@) && any_contains(
        hl,
        "debit"@,
    ) {
        AustralianBank::StGeorge
    } else if (any_contains(hl, "bsb"@) || contains(hs, "anz"@)) && (contains(
        hs,
        "transaction date"@,
    ) || contains(hs, "transaction"@)) {
        AustralianBank::Anz
    } else if contains(hs, "nab"@) && contains(hs, "transaction"@) {
        AustralianBank::Nab
    } else if any_contains(hl, "debit"@) && any_contains(hl, "credit"@) {
        AustralianBank::CommBank
    } else if contains(hs, "transaction date"@) && contains(hs, "closing balance"@) {
        AustralianBank::Westpac
    } else if contains(hs, "debit amount"@) || contains(hs, "credit amount"@) {
        AustralianBank::Anz
    } else {
        AustralianBank::Unknown
    }
}

fn any_contains_exec(hl: &Vec<Vec<char>>, p: &str) -> (r: bool)
    ensures
        r == any_contains(views(hl@), p@),
{
    let mut i: usize = 0;
    while i < hl.len()
        invariant
            i <= hl@.len(),
            forall|k: int| 0 <= k < i ==> !contains(#[trigger] views(hl@)[k], p@),
        decreases hl@.len() - i,
    {
        if contains_str(hl[i].as_slice(), p) {
            assert(contains(views(hl@)[i as int], p@));
            return true;
        }
        i = i + 1;
    }
    false
}

/// Detects the bank from the CSV header row.
pub fn detect_bank_type(headers: &[String]) -> (r: AustralianBank)
    ensures
        r == detect_bank_spec(str_views(headers@)),
{
    let mut hl: Vec<Vec<char>> = Vec::new();
    let mut i: usize = 0;
    while i < headers.len()
        invariant
            i <= headers@.len(),
            views(hl@) == lower_all(str_views(headers@)).subrange(0, i as int),
        decreases headers@.len() - i,
    {
        let hc = chars_of(headers[i].as_str());
        let lc = to_lowercase(hc.as_slice());
        assert(lc@ == lower_all(str_views(headers@))[i as int]);
        let ghost before = views(hl@);
        hl.push(lc);
        assert(views(hl@) =~= before.push(lc@));
        assert(views(hl@) =~= lower_all(str_views(headers@)).subrange(0, i + 1));
        i = i + 1;
    }
    assert(lower_all(str_views(headers@)).subrange(0, headers@.len() as int) =~= lower_all(
        str_views(headers@),
    ));
    let comma = chars_of(",");
    let hs = join_exec(&hl, comma.as_slice());
    let hs = hs.as_slice();
    if contains_str(hs, "transaction date") && (contains_str(hs, "closing balance") || contains_str(
        hs,
        "transaction amount",
    )) {
        AustralianBank::Westpac
    } else if any_contains_exec(&hl, "debit") && any_contains_exec(&hl, "credit")
        && any_contains_exec(&hl, "balance") && !contains_str(hs, "closing balance") {
        AustralianBank::CommBank
    } else if contains_str(hs, "transaction date") && any_contains_exec(&hl, "credit")
        && any_contains_exec(&hl, "debit") {
        AustralianBank::StGeorge
    } else if (any_contains_exec(&hl, "bsb") || contains_str(hs, "anz")) && (contains_str(
        hs,
        "transaction date",
    ) || contains_str(hs, "transaction")) {
        AustralianBank::Anz
    } else if contains_str(hs, "nab") && contains_str(hs, "transaction") {
        AustralianBank::Nab
    } else if any_contains_exec(&hl, "debit") && any_contains_exec(&hl, "credit") {
        AustralianBank::CommBank
    } else if contains_str(hs, "transaction date") && contains_str(hs, "closing balance") {
        AustralianBank::Westpac
    } else if contains_str(hs, "debit amount") || contains_str(hs, "credit amount") {
        AustralianBank::Anz
    } else {
        AustralianBank::Unknown
    }
}


/// Which column holds each field of a transaction (an index into the row).
#[derive(Debug, Clone, Copy, PartialEq, Eq, Structural)]
pub struct ColumnMap {
    pub date: Option<usize>,
    pub description: Option<usize>,
    pub amount: Option<usize>,
    pub debit: Option<usize>,
    pub credit: Option<usize>,
    pub balance: Option<usize>,
    pub code: Option<usize>,
    pub reference: Option<usize>,
    pub account_number: Option<usize>,
    pub account_name: Option<usize>,
    pub bsb: Option<usize>,
}

impl ColumnMap {
    pub open spec fn empty_spec() -> ColumnMap {
        ColumnMap {
            date: None,
            description: None,
            amount: None,
            debit: None,
            credit: None,
            balance: None,
            code: None,
            reference: None,
            account_number: None,
            account_name: None,
            bsb: None,
        }
    }

    pub fn empty() -> (r: ColumnMap)
        ensures
            r == ColumnMap::empty_spec(),
    {
        ColumnMap {
            date: None,
            description: None,
            amount: None,
            debit: None,
            credit: None,
            balance: None,
            code: None,
            reference: None,
            account_number: None,
            account_name: None,
            bsb: None,
        }
    }
}

/// What header `h` (lower-cased and trimmed), at column `idx`, adds to the
/// map `m`, by the layout of `bank`.
pub open spec fn column_step(m: ColumnMap, h: Seq<char>, idx: usize, bank: AustralianBank) -> ColumnMap {
    match bank {
        AustralianBank::Westpac => {
            if (contains(h, "transaction date"@)) {
                ColumnMap { date: Some(idx), ..m }
            } else if (contains(h, "transaction amount"@)) {
                ColumnMap { amount: Some(idx), ..m }
            } else if (contains(h, "closing balance"@)) {
                ColumnMap { balance: Some(idx), ..m }
            } else if (contains(h, "narrative"@) || contains(h, "description"@)) {
                ColumnMap { description: Some(idx), ..m }
            } else if (contains(h, "transaction code"@)) {
                ColumnMap { code: Some(idx), ..m }
            } else if (contains(h, "serial"@)) {
                ColumnMap { reference: Some(idx), ..m }
            } else if (contains(h, "account number"@)) {
                ColumnMap { account_number: Some(idx), ..m }
            } else if (contains(h, "account name"@)) {
                ColumnMap { account_name: Some(idx), ..m }
            } else {
                m
            }
        },
        AustralianBank::CommBank => {
            if (contains(h, "date"@)) && !contains(h, "effective"@) {
                ColumnMap { date: Some(idx), ..m }
            } else if (contains(h, "description"@) || contains(h, "narrative"@)) {
                ColumnMap { description: Some(idx), ..m }
            } else if (contains(h, "debit"@)) {
                ColumnMap { debit: Some(idx), ..m }
            } else if (contains(h, "credit"@)) {
                ColumnMap { credit: Some(idx), ..m }
            } else if (contains(h, "balance"@)) {
                ColumnMap { balance: Some(idx), ..m }
            } else {
                m
            }
        },
        AustralianBank::Anz => {
            if (contains(h, "transaction date"@) || contains(h, "date"@)) {
                ColumnMap { date: Some(idx), ..m }
            } else if (contains(h, "description"@) || contains(h, "narrative"@)) {
                ColumnMap { description: Some(idx), ..m }
            } else if (contains(h, "debit"@)) {
                ColumnMap { debit: Some(idx), ..m }
            } else if (contains(h, "credit"@)) {
                ColumnMap { credit: Some(idx), ..m }
            } else if (contains(h, "balance"@)) {
                ColumnMap { balance: Some(idx), ..m }
            } else if (contains(h, "bsb"@)) {
                ColumnMap { bsb: Some(idx), ..m }
            } else {
                m
            }
        },
        _ => {
            if (contains(h, "date"@)) {
                ColumnMap { date: if m.date is Some { m.date } else { Some(idx) }, ..m }
            } else if (contains(h, "description"@) || contains(h, "narrative"@) || contains(h, "particular"@)) {
                ColumnMap { description: if m.description is Some { m.description } else { Some(idx) }, ..m }
            } else if (contains(h, "amount"@) || contains(h, "debit"@) || contains(h, "credit"@)) {
                if contains(h, "debit"@) { ColumnMap { debit: Some(idx), ..m } } else if contains(h, "credit"@) { ColumnMap { credit: Some(idx), ..m } } else { ColumnMap { amount: Some(idx), ..m } }
            } else if (contains(h, "balance"@)) {
                ColumnMap { balance: Some(idx), ..m }
            } else {
                m
            }
        },
    }
}

/// The column map of a header row, built column by column from the left.
pub open spec fn build_column_map_spec(headers: Seq<Seq<char>>, bank: AustralianBank) -> ColumnMap
    decreases headers.len(),
{
    if headers.len() == 0 {
        ColumnMap::empty_spec()
    } else {
        column_step(
            build_column_map_spec(headers.drop_last(), bank),
            trim(lowercase(headers.last())),
            (headers.len() - 1) as usize,
            bank,
        )
    }
}

/// In a CommBank export the balance column is the last column whose header
/// (lower-cased and trimmed) mentions a balance, when that header mentions
/// no date, description, narrative, debit or credit.
pub proof fn law_commbank_balance_column(headers: Seq<Seq<char>>, j: int)
    requires
        0 <= j < headers.len(),
        headers.len() <= usize::MAX,
        contains(trim(lowercase(headers[j])), "balance"@),
        !contains(trim(lowercase(headers[j])), "date"@),
        !contains(trim(lowercase(headers[j])), "description"@),
        !contains(trim(lowercase(headers[j])), "narrative"@),
        !contains(trim(lowercase(headers[j])), "debit"@),
        !contains(trim(lowercase(headers[j])), "credit"@),
        forall|k: int|
            j < k < headers.len() ==> !contains(trim(lowercase(#[trigger] headers[k])), "balance"@),
    ensures
        build_column_map_spec(headers, AustralianBank::CommBank).balance == Some(j as usize),
    decreases headers.len(),
{
    if j < headers.len() - 1 {
        let rest = headers.drop_last();
        assert forall|k: int| j < k < rest.len() implies !contains(
            trim(lowercase(#[trigger] rest[k])),
            "balance"@,
        ) by {
            assert(rest[k] == headers[k]);
        }
        assert(rest[j] == headers[j]);
        law_commbank_balance_column(rest, j);
        assert(!contains(trim(lowercase(headers.last())), "balance"@));
    }
}

/// In a CommBank export whose headers (lower-cased and trimmed) never
/// mention a balance, no column is the balance column.
pub proof fn law_commbank_no_balance_column(headers: Seq<Seq<char>>)
    requires
        forall|k: int|
            0 <= k < headers.len() ==> !contains(trim(lowercase(#[trigger] headers[k])), "balance"@),
    ensures
        build_column_map_spec(headers, AustralianBank::CommBank).balance is None,
    decreases headers.len(),
{
    if headers.len() > 0 {
        let rest = headers.drop_last();
        assert forall|k: int| 0 <= k < rest.len() implies !contains(
            trim(lowercase(#[trigger] rest[k])),
            "balance"@,
        ) by {
            assert(rest[k] == headers[k]);
        }
        law_commbank_no_balance_column(rest);
        assert(!contains(trim(lowercase(headers[headers.len() - 1])), "balance"@));
    }
}

/// The header of column `k` as the column map reads it.
pub open spec fn header_key(headers: Seq<Seq<char>>, k: int) -> Seq<char> {
    trim(lowercase(headers[k]))
}

/// A field of the column map is the last column whose header sets it, when
/// every header that sets it sets it to its own column and a header that
/// cannot set it leaves it alone.
proof fn lemma_last_setting_column(
    headers: Seq<Seq<char>>,
    bank: AustralianBank,
    j: int,
    sets: spec_fn(Seq<char>) -> bool,
    may_set: spec_fn(Seq<char>) -> bool,
    field: spec_fn(ColumnMap) -> Option<usize>,
)
    requires
        0 <= j < headers.len() <= usize::MAX,
        forall|m: ColumnMap, h: Seq<char>, idx: usize|
            sets(h) ==> field(#[trigger] column_step(m, h, idx, bank)) == Some(idx),
        forall|m: ColumnMap, h: Seq<char>, idx: usize|
            !may_set(h) ==> field(#[trigger] column_step(m, h, idx, bank)) == field(m),
        sets(header_key(headers, j)),
        forall|k: int| j < k < headers.len() ==> !may_set(#[trigger] header_key(headers, k)),
    ensures
        field(build_column_map_spec(headers, bank)) == Some(j as usize),
    decreases headers.len(),
{
    let n = headers.len();
    let rest = headers.drop_last();
    let last = trim(lowercase(headers.last()));
    assert(header_key(headers, n - 1) == last);
    if j < n - 1 {
        assert forall|k: int| j < k < rest.len() implies !may_set(
            #[trigger] header_key(rest, k),
        ) by {
            assert(rest[k] == headers[k]);
            assert(header_key(rest, k) == header_key(headers, k));
        }
        assert(header_key(rest, j) == header_key(headers, j));
        lemma_last_setting_column(rest, bank, j, sets, may_set, field);
        assert(!may_set(last));
        assert(field(column_step(build_column_map_spec(rest, bank), last, (n - 1) as usize, bank))
            == field(build_column_map_spec(rest, bank)));
    } else {
        assert(sets(last));
    }
}

/// The columns of a CommBank export: the date is the last column whose
/// header (lower-cased and trimmed) mentions a date and not `effective`;
/// the description the last that mentions a description or narrative and
/// no date; the debit the last that mentions a debit and neither; the
/// credit the last that mentions a credit and none of these; the balance
/// the last that mentions a balance and none of these.
pub proof fn law_commbank_columns(headers: Seq<Seq<char>>, j: int)
    requires
        0 <= j < headers.len() <= usize::MAX,
    ensures
        ({
            let h = header_key(headers, j);
            contains(h, "date"@) && !contains(h, "effective"@)
        }) && (forall|k: int|
            j < k < headers.len() ==> !contains(#[trigger] header_key(headers, k), "date"@))
            ==> build_column_map_spec(headers, AustralianBank::CommBank).date == Some(j as usize),
        ({
            let h = header_key(headers, j);
            (contains(h, "description"@) || contains(h, "narrative"@)) && !contains(h, "date"@)
        }) && (forall|k: int|
            j < k < headers.len() ==> !contains(#[trigger] header_key(headers, k), "description"@)
                && !contains(header_key(headers, k), "narrative"@))
            ==> build_column_map_spec(headers, AustralianBank::CommBank).description == Some(
            j as usize,
        ),
        ({
            let h = header_key(headers, j);
            contains(h, "debit"@) && !contains(h, "date"@) && !contains(h, "description"@)
                && !contains(h, "narrative"@)
        }) && (forall|k: int|
            j < k < headers.len() ==> !contains(#[trigger] header_key(headers, k), "debit"@))
            ==> build_column_map_spec(headers, AustralianBank::CommBank).debit == Some(j as usize),
        ({
            let h = header_key(headers, j);
            contains(h, "credit"@) && !contains(h, "date"@) && !contains(h, "description"@)
                && !contains(h, "narrative"@) && !contains(h, "debit"@)
        }) && (forall|k: int|
            j < k < headers.len() ==> !contains(#[trigger] header_key(headers, k), "credit"@))
            ==> build_column_map_spec(headers, AustralianBank::CommBank).credit == Some(j as usize),
        ({
            let h = header_key(headers, j);
            contains(h, "balance"@) && !contains(h, "date"@) && !contains(h, "description"@)
                && !contains(h, "narrative"@) && !contains(h, "debit"@) && !contains(h, "credit"@)
        }) && (forall|k: int|
            j < k < headers.len() ==> !contains(#[trigger] header_key(headers, k), "balance"@))
            ==> build_column_map_spec(headers, AustralianBank::CommBank).balance == Some(j as usize),
{
    let b = AustralianBank::CommBank;
    let h = header_key(headers, j);
    if contains(h, "date"@) && !contains(h, "effective"@) && (forall|k: int|
        j < k < headers.len() ==> !contains(#[trigger] header_key(headers, k), "date"@)) {
        lemma_last_setting_column(
            headers,
            b,
            j,
            |x: Seq<char>| contains(x, "date"@) && !contains(x, "effective"@),
            |x: Seq<char>| contains(x, "date"@),
            |m: ColumnMap| m.date,
        );
    }
    if (contains(h, "description"@) || contains(h, "narrative"@)) && !contains(h, "date"@) && (
    forall|k: int|
        j < k < headers.len() ==> !contains(#[trigger] header_key(headers, k), "description"@)
            && !contains(header_key(headers, k), "narrative"@)) {
        lemma_last_setting_column(
            headers,
            b,
            j,
            |x: Seq<char>|
                (contains(x, "description"@) || contains(x, "narrative"@)) && !contains(x, "date"@),
            |x: Seq<char>| contains(x, "description"@) || contains(x, "narrative"@),
            |m: ColumnMap| m.description,
        );
    }
    if contains(h, "debit"@) && !contains(h, "date"@) && !contains(h, "description"@) && !contains(
        h,
        "narrative"@,
    ) && (forall|k: int|
        j < k < headers.len() ==> !contains(#[trigger] header_key(headers, k), "debit"@)) {
        lemma_last_setting_column(
            headers,
            b,
            j,
            |x: Seq<char>|
                contains(x, "debit"@) && !contains(x, "date"@) && !contains(x, "description"@)
                    && !contains(x, "narrative"@),
            |x: Seq<char>| contains(x, "debit"@),
            |m: ColumnMap| m.debit,
        );
    }
    if contains(h, "credit"@) && !contains(h, "date"@) && !contains(h, "description"@)
        && !contains(h, "narrative"@) && !contains(h, "debit"@) && (forall|k: int|
        j < k < headers.len() ==> !contains(#[trigger] header_key(headers, k), "credit"@)) {
        lemma_last_setting_column(
            headers,
            b,
            j,
            |x: Seq<char>|
                contains(x, "credit"@) && !contains(x, "date"@) && !contains(x, "description"@)
                    && !contains(x, "narrative"@) && !contains(x, "debit"@),
            |x: Seq<char>| contains(x, "credit"@),
            |m: ColumnMap| m.credit,
        );
    }
    if contains(h, "balance"@) && !contains(h, "date"@) && !contains(h, "description"@)
        && !contains(h, "narrative"@) && !contains(h, "debit"@) && !contains(h, "credit"@) && (
    forall|k: int|
        j < k < headers.len() ==> !contains(#[trigger] header_key(headers, k), "balance"@)) {
        lemma_last_setting_column(
            headers,
            b,
            j,
            |x: Seq<char>|
                contains(x, "balance"@) && !contains(x, "date"@) && !contains(x, "description"@)
                    && !contains(x, "narrative"@) && !contains(x, "debit"@) && !contains(
                    x,
                    "credit"@,
                ),
            |x: Seq<char>| contains(x, "balance"@),
            |m: ColumnMap| m.balance,
        );
    }
}

/// The columns of a Westpac export: each field is the last column whose
/// header (lower-cased and trimmed) names it (`transaction date`,
/// `transaction amount`, `closing balance`, `narrative` or `description`,
/// `account number`, `account name`), when that header names none of the
/// fields looked for before it.
pub proof fn law_westpac_columns(headers: Seq<Seq<char>>, j: int)
    requires
        0 <= j < headers.len() <= usize::MAX,
    ensures
        ({ let h = header_key(headers, j); contains(h, "transaction date"@) }) && (forall|k: int| j < k < headers.len() ==> !contains(#[trigger] header_key(headers, k), "transaction date"@)) ==> build_column_map_spec(headers, AustralianBank::Westpac).date == Some(j as usize),
        ({ let h = header_key(headers, j); contains(h, "transaction amount"@) && !contains(h, "transaction date"@) }) && (forall|k: int| j < k < headers.len() ==> !contains(#[trigger] header_key(headers, k), "transaction amount"@)) ==> build_column_map_spec(headers, AustralianBank::Westpac).amount == Some(j as usize),
        ({ let h = header_key(headers, j); contains(h, "closing balance"@) && !contains(h, "transaction date"@) && !contains(h, "transaction amount"@) }) && (forall|k: int| j < k < headers.len() ==> !contains(#[trigger] header_key(headers, k), "closing balance"@)) ==> build_column_map_spec(headers, AustralianBank::Westpac).balance == Some(j as usize),
        ({ let h = header_key(headers, j); (contains(h, "narrative"@) || contains(h, "description"@)) && !contains(h, "transaction date"@) && !contains(h, "transaction amount"@) && !contains(h, "closing balance"@) }) && (forall|k: int| j < k < headers.len() ==> !contains(#[trigger] header_key(headers, k), "narrative"@) && !contains(header_key(headers, k), "description"@)) ==> build_column_map_spec(headers, AustralianBank::Westpac).description == Some(j as usize),
        ({ let h = header_key(headers, j); contains(h, "account number"@) && !contains(h, "transaction date"@) && !contains(h, "transaction amount"@) && !contains(h, "closing balance"@) && !contains(h, "narrative"@) && !contains(h, "description"@) && !contains(h, "transaction code"@) && !contains(h, "serial"@) }) && (forall|k: int| j < k < headers.len() ==> !contains(#[trigger] header_key(headers, k), "account number"@)) ==> build_column_map_spec(headers, AustralianBank::Westpac).account_number == Some(j as usize),
        ({ let h = header_key(headers, j); contains(h, "account name"@) && !contains(h, "transaction date"@) && !contains(h, "transaction amount"@) && !contains(h, "closing balance"@) && !contains(h, "narrative"@) && !contains(h, "description"@) && !contains(h, "transaction code"@) && !contains(h, "serial"@) && !contains(h, "account number"@) }) && (forall|k: int| j < k < headers.len() ==> !contains(#[trigger] header_key(headers, k), "account name"@)) ==> build_column_map_spec(headers, AustralianBank::Westpac).account_name == Some(j as usize),
{
    let b = AustralianBank::Westpac;
    let h = header_key(headers, j);
    if contains(h, "transaction date"@) && (forall|k: int| j < k < headers.len() ==> !contains(#[trigger] header_key(headers, k), "transaction date"@)) {
        lemma_last_setting_column(
            headers,
            b,
            j,
            |x: Seq<char>| contains(x, "transaction date"@),
            |x: Seq<char>| contains(x, "transaction date"@),
            |m: ColumnMap| m.date,
        );
    }
    if contains(h, "transaction amount"@) && !contains(h, "transaction date"@) && (forall|k: int| j < k < headers.len() ==> !contains(#[trigger] header_key(headers, k), "transaction amount"@)) {
        lemma_last_setting_column(
            headers,
            b,
            j,
            |x: Seq<char>| contains(x, "transaction amount"@) && !contains(x, "transaction date"@),
            |x: Seq<char>| contains(x, "transaction amount"@),
            |m: ColumnMap| m.amount,
        );
    }
    if contains(h, "closing balance"@) && !contains(h, "transaction date"@) && !contains(h, "transaction amount"@) && (forall|k: int| j < k < headers.len() ==> !contains(#[trigger] header_key(headers, k), "closing balance"@)) {
        lemma_last_setting_column(
            headers,
            b,
            j,
            |x: Seq<char>| contains(x, "closing balance"@) && !contains(x, "transaction date"@) && !contains(x, "transaction amount"@),
            |x: Seq<char>| contains(x, "closing balance"@),
            |m: ColumnMap| m.balance,
        );
    }
    if (contains(h, "narrative"@) || contains(h, "description"@)) && !contains(h, "transaction date"@) && !contains(h, "transaction amount"@) && !contains(h, "closing balance"@) && (forall|k: int| j < k < headers.len() ==> !contains(#[trigger] header_key(headers, k), "narrative"@) && !contains(header_key(headers, k), "description"@)) {
        lemma_last_setting_column(
            headers,
            b,
            j,
            |x: Seq<char>| (contains(x, "narrative"@) || contains(x, "description"@)) && !contains(x, "transaction date"@) && !contains(x, "transaction amount"@) && !contains(x, "closing balance"@),
            |x: Seq<char>| contains(x, "narrative"@) || contains(x, "description"@),
            |m: ColumnMap| m.description,
        );
    }
    if contains(h, "account number"@) && !contains(h, "transaction date"@) && !contains(h, "transaction amount"@) && !contains(h, "closing balance"@) && !contains(h, "narrative"@) && !contains(h, "description"@) && !contains(h, "transaction code"@) && !contains(h, "serial"@) && (forall|k: int| j < k < headers.len() ==> !contains(#[trigger] header_key(headers, k), "account number"@)) {
        lemma_last_setting_column(
            headers,
            b,
            j,
            |x: Seq<char>| contains(x, "account number"@) && !contains(x, "transaction date"@) && !contains(x, "transaction amount"@) && !contains(x, "closing balance"@) && !contains(x, "narrative"@) && !contains(x, "description"@) && !contains(x, "transaction code"@) && !contains(x, "serial"@),
            |x: Seq<char>| contains(x, "account number"@),
            |m: ColumnMap| m.account_number,
        );
    }
    if contains(h, "account name"@) && !contains(h, "transaction date"@) && !contains(h, "transaction amount"@) && !contains(h, "closing balance"@) && !contains(h, "narrative"@) && !contains(h, "description"@) && !contains(h, "transaction code"@) && !contains(h, "serial"@) && !contains(h, "account number"@) && (forall|k: int| j < k < headers.len() ==> !contains(#[trigger] header_key(headers, k), "account name"@)) {
        lemma_last_setting_column(
            headers,
            b,
            j,
            |x: Seq<char>| contains(x, "account name"@) && !contains(x, "transaction date"@) && !contains(x, "transaction amount"@) && !contains(x, "closing balance"@) && !contains(x, "narrative"@) && !contains(x, "description"@) && !contains(x, "transaction code"@) && !contains(x, "serial"@) && !contains(x, "account number"@),
            |x: Seq<char>| contains(x, "account name"@),
            |m: ColumnMap| m.account_name,
        );
    }
}

/// The columns of an ANZ export: each field is the last column whose header
/// (lower-cased and trimmed) names it (`date`, `description` or
/// `narrative`, `debit`, `credit`, `balance`, `bsb`), when that header
/// names none of the fields looked for before it.
pub proof fn law_anz_columns(headers: Seq<Seq<char>>, j: int)
    requires
        0 <= j < headers.len() <= usize::MAX,
    ensures
        ({ let h = header_key(headers, j); contains(h, "date"@) }) && (forall|k: int| j < k < headers.len() ==> !contains(#[trigger] header_key(headers, k), "transaction date"@) && !contains(header_key(headers, k), "date"@)) ==> build_column_map_spec(headers, AustralianBank::Anz).date == Some(j as usize),
        ({ let h = header_key(headers, j); (contains(h, "description"@) || contains(h, "narrative"@)) && !contains(h, "transaction date"@) && !contains(h, "date"@) }) && (forall|k: int| j < k < headers.len() ==> !contains(#[trigger] header_key(headers, k), "description"@) && !contains(header_key(headers, k), "narrative"@)) ==> build_column_map_spec(headers, AustralianBank::Anz).description == Some(j as usize),
        ({ let h = header_key(headers, j); contains(h, "debit"@) && !contains(h, "transaction date"@) && !contains(h, "date"@) && !contains(h, "description"@) && !contains(h, "narrative"@) }) && (forall|k: int| j < k < headers.len() ==> !contains(#[trigger] header_key(headers, k), "debit"@)) ==> build_column_map_spec(headers, AustralianBank::Anz).debit == Some(j as usize),
        ({ let h = header_key(headers, j); contains(h, "credit"@) && !contains(h, "transaction date"@) && !contains(h, "date"@) && !contains(h, "description"@) && !contains(h, "narrative"@) && !contains(h, "debit"@) }) && (forall|k: int| j < k < headers.len() ==> !contains(#[trigger] header_key(headers, k), "credit"@)) ==> build_column_map_spec(headers, AustralianBank::Anz).credit == Some(j as usize),
        ({ let h = header_key(headers, j); contains(h, "balance"@) && !contains(h, "transaction date"@) && !contains(h, "date"@) && !contains(h, "description"@) && !contains(h, "narrative"@) && !contains(h, "debit"@) && !contains(h, "credit"@) }) && (forall|k: int| j < k < headers.len() ==> !contains(#[trigger] header_key(headers, k), "balance"@)) ==> build_column_map_spec(headers, AustralianBank::Anz).balance == Some(j as usize),
        ({ let h = header_key(headers, j); contains(h, "bsb"@) && !contains(h, "transaction date"@) && !contains(h, "date"@) && !contains(h, "description"@) && !contains(h, "narrative"@) && !contains(h, "debit"@) && !contains(h, "credit"@) && !contains(h, "balance"@) }) && (forall|k: int| j < k < headers.len() ==> !contains(#[trigger] header_key(headers, k), "bsb"@)) ==> build_column_map_spec(headers, AustralianBank::Anz).bsb == Some(j as usize),
{
    let b = AustralianBank::Anz;
    let h = header_key(headers, j);
    if contains(h, "date"@) && (forall|k: int| j < k < headers.len() ==> !contains(#[trigger] header_key(headers, k), "transaction date"@) && !contains(header_key(headers, k), "date"@)) {
        lemma_last_setting_column(
            headers,
            b,
            j,
            |x: Seq<char>| contains(x, "date"@),
            |x: Seq<char>| contains(x, "transaction date"@) || contains(x, "date"@),
            |m: ColumnMap| m.date,
        );
    }
    if (contains(h, "description"@) || contains(h, "narrative"@)) && !contains(h, "transaction date"@) && !contains(h, "date"@) && (forall|k: int| j < k < headers.len() ==> !contains(#[trigger] header_key(headers, k), "description"@) && !contains(header_key(headers, k), "narrative"@)) {
        lemma_last_setting_column(
            headers,
            b,
            j,
            |x: Seq<char>| (contains(x, "description"@) || contains(x, "narrative"@)) && !contains(x, "transaction date"@) && !contains(x, "date"@),
            |x: Seq<char>| contains(x, "description"@) || contains(x, "narrative"@),
            |m: ColumnMap| m.description,
        );
    }
    if contains(h, "debit"@) && !contains(h, "transaction date"@) && !contains(h, "date"@) && !contains(h, "description"@) && !contains(h, "narrative"@) && (forall|k: int| j < k < headers.len() ==> !contains(#[trigger] header_key(headers, k), "debit"@)) {
        lemma_last_setting_column(
            headers,
            b,
            j,
            |x: Seq<char>| contains(x, "debit"@) && !contains(x, "transaction date"@) && !contains(x, "date"@) && !contains(x, "description"@) && !contains(x, "narrative"@),
            |x: Seq<char>| contains(x, "debit"@),
            |m: ColumnMap| m.debit,
        );
    }
    if contains(h, "credit"@) && !contains(h, "transaction date"@) && !contains(h, "date"@) && !contains(h, "description"@) && !contains(h, "narrative"@) && !contains(h, "debit"@) && (forall|k: int| j < k < headers.len() ==> !contains(#[trigger] header_key(headers, k), "credit"@)) {
        lemma_last_setting_column(
            headers,
            b,
            j,
            |x: Seq<char>| contains(x, "credit"@) && !contains(x, "transaction date"@) && !contains(x, "date"@) && !contains(x, "description"@) && !contains(x, "narrative"@) && !contains(x, "debit"@),
            |x: Seq<char>| contains(x, "credit"@),
            |m: ColumnMap| m.credit,
        );
    }
    if contains(h, "balance"@) && !contains(h, "transaction date"@) && !contains(h, "date"@) && !contains(h, "description"@) && !contains(h, "narrative"@) && !contains(h, "debit"@) && !contains(h, "credit"@) && (forall|k: int| j < k < headers.len() ==> !contains(#[trigger] header_key(headers, k), "balance"@)) {
        lemma_last_setting_column(
            headers,
            b,
            j,
            |x: Seq<char>| contains(x, "balance"@) && !contains(x, "transaction date"@) && !contains(x, "date"@) && !contains(x, "description"@) && !contains(x, "narrative"@) && !contains(x, "debit"@) && !contains(x, "credit"@),
            |x: Seq<char>| contains(x, "balance"@),
            |m: ColumnMap| m.balance,
        );
    }
    if contains(h, "bsb"@) && !contains(h, "transaction date"@) && !contains(h, "date"@) && !contains(h, "description"@) && !contains(h, "narrative"@) && !contains(h, "debit"@) && !contains(h, "credit"@) && !contains(h, "balance"@) && (forall|k: int| j < k < headers.len() ==> !contains(#[trigger] header_key(headers, k), "bsb"@)) {
        lemma_last_setting_column(
            headers,
            b,
            j,
            |x: Seq<char>| contains(x, "bsb"@) && !contains(x, "transaction date"@) && !contains(x, "date"@) && !contains(x, "description"@) && !contains(x, "narrative"@) && !contains(x, "debit"@) && !contains(x, "credit"@) && !contains(x, "balance"@),
            |x: Seq<char>| contains(x, "bsb"@),
            |m: ColumnMap| m.bsb,
        );
    }
}

fn column_step_exec(m: ColumnMap, h: &[char], idx: usize, bank: AustralianBank) -> (r: ColumnMap)
    ensures
        r == column_step(m, h@, idx, bank),
{
    match bank {
        AustralianBank::Westpac => {
            if (contains_str(h, "transaction date")) {
                ColumnMap { date: Some(idx), ..m }
            } else if (contains_str(h, "transaction amount")) {
                ColumnMap { amount: Some(idx), ..m }
            } else if (contains_str(h, "closing balance")) {
                ColumnMap { balance: Some(idx), ..m }
            } else if (contains_str(h, "narrative") || contains_str(h, "description")) {
                ColumnMap { description: Some(idx), ..m }
            } else if (contains_str(h, "transaction code")) {
                ColumnMap { code: Some(idx), ..m }
            } else if (contains_str(h, "serial")) {
                ColumnMap { reference: Some(idx), ..m }
            } else if (contains_str(h, "account number")) {
                ColumnMap { account_number: Some(idx), ..m }
            } else if (contains_str(h, "account name")) {
                ColumnMap { account_name: Some(idx), ..m }
            } else {
                m
            }
        },
        AustralianBank::CommBank => {
            if (contains_str(h, "date")) && !contains_str(h, "effective") {
                ColumnMap { date: Some(idx), ..m }
            } else if (contains_str(h, "description") || contains_str(h, "narrative")) {
                ColumnMap { description: Some(idx), ..m }
            } else if (contains_str(h, "debit")) {
                ColumnMap { debit: Some(idx), ..m }
            } else if (contains_str(h, "credit")) {
                ColumnMap { credit: Some(idx), ..m }
            } else if (contains_str(h, "balance")) {
                ColumnMap { balance: Some(idx), ..m }
            } else {
                m
            }
        },
        AustralianBank::Anz => {
            if (contains_str(h, "transaction date") || contains_str(h, "date")) {
                ColumnMap { date: Some(idx), ..m }
            } else if (contains_str(h, "description") || contains_str(h, "narrative")) {
                ColumnMap { description: Some(idx), ..m }
            } else if (contains_str(h, "debit")) {
                ColumnMap { debit: Some(idx), ..m }
            } else if (contains_str(h, "credit")) {
                ColumnMap { credit: Some(idx), ..m }
            } else if (contains_str(h, "balance")) {
                ColumnMap { balance: Some(idx), ..m }
            } else if (contains_str(h, "bsb")) {
                ColumnMap { bsb: Some(idx), ..m }
            } else {
                m
            }
        },
        _ => {
            if (contains_str(h, "date")) {
                ColumnMap { date: if m.date.is_some() { m.date } else { Some(idx) }, ..m }
            } else if (contains_str(h, "description") || contains_str(h, "narrative") || contains_str(h, "particular")) {
                ColumnMap { description: if m.description.is_some() { m.description } else { Some(idx) }, ..m }
            } else if (contains_str(h, "amount") || contains_str(h, "debit") || contains_str(h, "credit")) {
                if contains_str(h, "debit") { ColumnMap { debit: Some(idx), ..m } } else if contains_str(h, "credit") { ColumnMap { credit: Some(idx), ..m } } else { ColumnMap { amount: Some(idx), ..m } }
            } else if (contains_str(h, "balance")) {
                ColumnMap { balance: Some(idx), ..m }
            } else {
                m
            }
        },
    }
}

/// The column index of each field for the given header row and bank.
pub fn build_column_map(headers: &[String], bank: AustralianBank) -> (r: ColumnMap)
    ensures
        r == build_column_map_spec(str_views(headers@), bank),
{
    let mut m = ColumnMap::empty();
    let mut i: usize = 0;
    assert(str_views(headers@).subrange(0, 0) =~= Seq::<Seq<char>>::empty());
    while i < headers.len()
        invariant
            i <= headers@.len(),
            m == build_column_map_spec(str_views(headers@).subrange(0, i as int), bank),
        decreases headers@.len() - i,
    {
        let hc = chars_of(headers[i].as_str());
        let lc = to_lowercase(hc.as_slice());
        let h = trim_chars(lc.as_slice());
        assert(str_views(headers@).subrange(0, i + 1).drop_last() =~= str_views(headers@).subrange(
            0,
            i as int,
        ));
        assert(str_views(headers@).subrange(0, i + 1).last() == headers@[i as int]@);
        m = column_step_exec(m, h.as_slice(), i, bank);
        i = i + 1;
    }
    assert(str_views(headers@).subrange(0, headers@.len() as int) =~= str_views(headers@));
    m
}


/// The `D/M/YYYY` form: day, month and year.
pub open spec fn date_dmy_slash(s: Seq<char>) -> Option<(Seq<char>, Seq<char>, Seq<char>)> {
    match split3(s, '/') {
        Some((d, m, y)) => if 1 <= d.len() <= 2 && 1 <= m.len() <= 2 && y.len() == 4
            && all_regex_digits(d) && all_regex_digits(m) && all_regex_digits(y) {
            Some((d, m, y))
        } else {
            None
        },
        None => None,
    }
}

/// The `D-Mmm-YYYY` form: day, month name and year.
pub open spec fn date_dmy_dash(s: Seq<char>) -> Option<(Seq<char>, Seq<char>, Seq<char>)> {
    match split3(s, '-') {
        Some((d, m, y)) => if 1 <= d.len() <= 2 && m.len() == 3 && y.len() == 4 && all_regex_digits(
            d,
        ) && all_regex_word(m) && all_regex_digits(y) {
            Some((d, m, y))
        } else {
            None
        },
        None => None,
    }
}

/// The `YYYY-MM-DD` form.
pub open spec fn date_iso(s: Seq<char>) -> bool {
    match split3(s, '-') {
        Some((y, m, d)) => y.len() == 4 && m.len() == 2 && d.len() == 2 && all_regex_digits(y)
            && all_regex_digits(m) && all_regex_digits(d),
        None => false,
    }
}

/// A number written with at least two digits.
pub open spec fn two_digits(n: nat) -> Seq<char> {
    pad_zero(decimal(n), 2)
}

/// The date of a CSV cell in `YYYY-MM-DD` form, from `YYYYMMDD`,
/// `D/M/YYYY`, `D-Mmm-YYYY` or `YYYY-MM-DD` (after trimming); the error
/// text otherwise.
pub open spec fn parse_date_spec(s0: Seq<char>) -> Result<Seq<char>, Seq<char>> {
    let s = trim(s0);
    if encode_utf8(s).len() == 8 && all_ascii_digits(s) {
        Ok(s.subrange(0, 4) + "-"@ + s.subrange(4, 6) + "-"@ + s.subrange(6, 8))
    } else if let Some((d, m, y)) = date_dmy_slash(s) {
        Ok(y + "-"@ + two_digits(usize_or_one(m)) + "-"@ + two_digits(usize_or_one(d)))
    } else if let Some((d, m, y)) = date_dmy_dash(s) {
        Ok(y + "-"@ + two_digits(month_name_to_num_spec(m)) + "-"@ + two_digits(usize_or_one(d)))
    } else if date_iso(s) {
        Ok(s)
    } else {
        Err("Unable to parse date: "@ + s)
    }
}

pub fn usize_or_one_exec(t: &[char]) -> (r: u64)
    requires
        t@.len() <= 4,
    ensures
        r == usize_or_one(t@),
{
    match parse_usize_exec(t) {
        Some(v) => v,
        None => 1,
    }
}

pub fn two_digits_exec(n: u64) -> (r: Vec<char>)
    ensures
        r@ == two_digits(n as nat),
{
    let d = decimal_exec(n);
    pad_zero_exec(d.as_slice(), 2)
}

/// `y + "-" + m + "-" + d`.
pub fn dashed(y: &[char], m: &[char], d: &[char]) -> (r: Vec<char>)
    ensures
        r@ == y@ + "-"@ + m@ + "-"@ + d@,
{
    let mut r: Vec<char> = Vec::new();
    push_all(&mut r, y);
    push_str(&mut r, "-");
    push_all(&mut r, m);
    push_str(&mut r, "-");
    push_all(&mut r, d);
    r
}

/// Reads a date cell (see `parse_date_spec`).
pub fn parse_date(s0: &str) -> (r: Result<String, ImportError>)
    ensures
        match r {
            Ok(d) => parse_date_spec(s0@) == Ok::<Seq<char>, Seq<char>>(d@),
            Err(e) => parse_date_spec(s0@) == Err::<Seq<char>, Seq<char>>(e.message_spec()),
        },
{
    let c0 = chars_of(s0);
    let sv = trim_chars(c0.as_slice());
    let s = sv.as_slice();
    let n = s.len();
    let st = string_of(s);
    if st.as_str().len() == 8 && all_ascii_digits_exec(s, 0, n) {
        proof {
            assert(s@.subrange(0, n as int) =~= s@);
            assert(crate::text::is_ascii_seq(s@)) by {
                assert forall|i: int| 0 <= i < s@.len() implies crate::text::is_ascii_char(
                    #[trigger] s@[i],
                ) by {
                    assert(crate::text::is_ascii_digit(s@[i]));
                }
            }
            crate::text::lemma_ascii_utf8_len(s@);
        }
        let y = copy_range(s, 0, 4);
        let m = copy_range(s, 4, 6);
        let d = copy_range(s, 6, 8);
        let out = dashed(y.as_slice(), m.as_slice(), d.as_slice());
        return Ok(string_of(out.as_slice()));
    }
    proof {
        assert(s@.subrange(0, n as int) =~= s@);
    }
    let (df, wf) = class_flags(s);
    if let Some((i, k)) = split3_exec(s, '/') {
        if 1 <= i && i <= 2 && 1 <= k - i - 1 && k - i - 1 <= 2 && n - k - 1 == 4 && range_digits(
            s,
            &df,
            0,
            i,
        ) && range_digits(s, &df, i + 1, k) && range_digits(s, &df, k + 1, n) {
            let d = copy_range(s, 0, i);
            let m = copy_range(s, i + 1, k);
            let y = copy_range(s, k + 1, n);
            let mm = two_digits_exec(usize_or_one_exec(m.as_slice()));
            let dd = two_digits_exec(usize_or_one_exec(d.as_slice()));
            let out = dashed(y.as_slice(), mm.as_slice(), dd.as_slice());
            return Ok(string_of(out.as_slice()));
        }
    }
    if let Some((i, k)) = split3_exec(s, '-') {
        if 1 <= i && i <= 2 && k - i - 1 == 3 && n - k - 1 == 4 && range_digits(s, &df, 0, i)
            && range_word(s, &wf, i + 1, k) && range_digits(s, &df, k + 1, n) {
            let d = copy_range(s, 0, i);
            let m = copy_range(s, i + 1, k);
            let y = copy_range(s, k + 1, n);
            let ms = string_of(m.as_slice());
            let mm = two_digits_exec(month_name_to_num(ms.as_str()) as u64);
            let dd = two_digits_exec(usize_or_one_exec(d.as_slice()));
            let out = dashed(y.as_slice(), mm.as_slice(), dd.as_slice());
            return Ok(string_of(out.as_slice()));
        }
        if i == 4 && k - i - 1 == 2 && n - k - 1 == 2 && range_digits(s, &df, 0, i) && range_digits(
            s,
            &df,
            i + 1,
            k,
        ) && range_digits(s, &df, k + 1, n) {
            return Ok(string_of(s));
        }
    }
    let mut msg = chars_of("Unable to parse date: ");
    push_all(&mut msg, s);
    Err(ImportError::InvalidInput(string_of(msg.as_slice())))
}


/// Characters dropped from an amount cell: currency symbols, thousands
/// separators and spaces.
pub open spec fn is_amount_noise(c: char) -> bool {
    c == '$' || c == '€' || c == '£' || c == ',' || c == ' '
}

/// `s` without its currency symbols, commas and spaces.
pub open spec fn strip_amount_noise(s: Seq<char>) -> Seq<char>
    decreases s.len(),
{
    if s.len() == 0 {
        s
    } else if is_amount_noise(s.last()) {
        strip_amount_noise(s.drop_last())
    } else {
        strip_amount_noise(s.drop_last()).push(s.last())
    }
}

pub open spec fn neg_abs_opt(o: Option<AmountV>) -> Option<AmountV> {
    match o {
        Some(v) => Some(v.neg_abs()),
        None => None,
    }
}

/// The amount of a cell: trimmed, without currency symbols, commas and
/// spaces, negative when in parentheses or with a trailing minus, in the
/// syntax of a float; nothing for an empty cell.
pub open spec fn parse_amount_value_spec(s: Seq<char>) -> Option<AmountV> {
    if s.len() == 0 {
        None
    } else {
        let c = strip_amount_noise(trim(s));
        if starts_with(c, "("@) && ends_with(c, ")"@) {
            neg_abs_opt(parse_float_spec(c.subrange(1, c.len() - 1)))
        } else if ends_with(c, "-"@) {
            neg_abs_opt(parse_float_spec(c.subrange(0, c.len() - 1)))
        } else {
            parse_float_spec(c)
        }
    }
}

pub open spec fn amount_opt(o: Option<Amount>) -> Option<AmountV> {
    match o {
        Some(a) => Some(a@),
        None => None,
    }
}

fn strip_amount_noise_exec(s: &[char]) -> (r: Vec<char>)
    ensures
        r@ == strip_amount_noise(s@),
{
    let mut r: Vec<char> = Vec::new();
    let mut i: usize = 0;
    assert(s@.subrange(0, 0) =~= Seq::<char>::empty());
    while i < s.len()
        invariant
            i <= s@.len(),
            r@ == strip_amount_noise(s@.subrange(0, i as int)),
        decreases s@.len() - i,
    {
        let c = s[i];
        assert(s@.subrange(0, i + 1).drop_last() =~= s@.subrange(0, i as int));
        if !(c == '$' || c == '€' || c == '£' || c == ',' || c == ' ') {
            r.push(c);
        }
        i = i + 1;
    }
    assert(s@.subrange(0, s@.len() as int) =~= s@);
    r
}

pub(crate) fn neg_abs_amount(o: Option<Amount>) -> (r: Option<Amount>)
    ensures
        amount_opt(r) == neg_abs_opt(amount_opt(o)),
{
    match o {
        Some(a) => Some(a.neg_abs()),
        None => None,
    }
}

/// Reads the amount of a cell (see `parse_amount_value_spec`).
pub fn parse_amount_value(s0: &str) -> (r: Option<Amount>)
    ensures
        amount_opt(r) == parse_amount_value_spec(s0@),
{
    let sc = chars_of(s0);
    let s = sc.as_slice();
    if s.len() == 0 {
        return None;
    }
    let t = trim_chars(s);
    let c = strip_amount_noise_exec(t.as_slice());
    let cs = c.as_slice();
    let open = chars_of("(");
    let close = chars_of(")");
    let minus = chars_of("-");
    if starts_with_exec(cs, open.as_slice()) && ends_with_exec(cs, close.as_slice()) {
        proof {
            reveal_strlit("(");
            reveal_strlit(")");
            if c@.len() == 1 {
                assert(c@.subrange(0, 1) =~= seq!['(']);
                assert(c@.subrange(0, 1) =~= seq![')']);
                assert(c@.subrange(0, 1)[0] == '(');
                assert(c@.subrange(0, 1)[0] == ')');
            }
        }
        let inner = copy_range(cs, 1, cs.len() - 1);
        neg_abs_amount(parse_float(inner.as_slice()))
    } else if ends_with_exec(cs, minus.as_slice()) {
        proof {
            reveal_strlit("-");
        }
        let inner = copy_range(cs, 0, cs.len() - 1);
        neg_abs_amount(parse_float(inner.as_slice()))
    } else {
        parse_float(cs)
    }
}

/// The balance of a cell: nothing for an empty cell, `-` or `n/a` (in any
/// case), else the amount of the cell.
pub open spec fn parse_balance_spec(s: Seq<char>) -> Option<AmountV> {
    if s.len() == 0 || s == "-"@ || lowercase(s) == "n/a"@ {
        None
    } else {
        parse_amount_value_spec(s)
    }
}

pub fn parse_balance(s0: &str) -> (r: Option<Amount>)
    ensures
        amount_opt(r) == parse_balance_spec(s0@),
{
    let sc = chars_of(s0);
    let s = sc.as_slice();
    if s.len() == 0 || eq_str(s, "-") {
        return None;
    }
    let l = to_lowercase(s);
    if eq_str(l.as_slice(), "n/a") {
        return None;
    }
    parse_amount_value(s0)
}

/// The cell of `row` at column `idx`, if the column is mapped and the row
/// is long enough.
pub open spec fn cell(row: Seq<Seq<char>>, idx: Option<usize>) -> Option<Seq<char>> {
    match idx {
        Some(i) => if i < row.len() {
            Some(row[i as int])
        } else {
            None
        },
        None => None,
    }
}

pub fn cell_exec(row: &[String], idx: Option<usize>) -> (r: Option<Vec<char>>)
    ensures
        match r {
            Some(v) => cell(str_views(row@), idx) == Some(v@),
            None => cell(str_views(row@), idx) is None,
        },
{
    match idx {
        Some(i) => if i < row.len() {
            Some(chars_of(row[i].as_str()))
        } else {
            None
        },
        None => None,
    }
}

/// The amount of a row. CBA and ANZ rows have debit and credit columns: a
/// non-zero debit is taken as negative, else a credit as positive, else
/// zero. Other rows have one amount column, which must hold an amount.
pub open spec fn parse_amount_spec(row: Seq<Seq<char>>, m: ColumnMap, bank: AustralianBank) -> Result<
    AmountV,
    Seq<char>,
> {
    match bank {
        AustralianBank::CommBank | AustralianBank::Anz => {
            let debit = match cell(row, m.debit) {
                Some(c) => parse_amount_value_spec(trim(c)),
                None => None,
            };
            let credit = match cell(row, m.credit) {
                Some(c) => parse_amount_value_spec(trim(c)),
                None => None,
            };
            if debit is Some && !debit->0.is_zero() {
                Ok(debit->0.neg_abs())
            } else if credit is Some {
                Ok(credit->0.abs())
            } else {
                Ok(zero_v())
            }
        },
        _ => match cell(row, m.amount) {
            Some(a) => match parse_amount_value_spec(trim(a)) {
                Some(v) => Ok(v),
                None => Err("Invalid amount: "@ + a),
            },
            None => Err("No amount column found"@),
        },
    }
}

/// In the two-column layout (CommBank, ANZ) an amount is always read: a
/// non-zero debit gives an amount of the debit's magnitude that is not
/// above zero; else a credit gives an amount of the credit's magnitude that
/// is not below zero; else the amount is zero.
pub proof fn law_two_column_amount(row: Seq<Seq<char>>, m: ColumnMap, bank: AustralianBank)
    requires
        bank == AustralianBank::CommBank || bank == AustralianBank::Anz,
    ensures
        parse_amount_spec(row, m, bank) is Ok,
        ({
            let a = parse_amount_spec(row, m, bank)->Ok_0;
            match cell(row, m.debit) {
                Some(dc) => match parse_amount_value_spec(trim(dc)) {
                    Some(d) => !d.is_zero() ==> !a.is_positive() && a.abs() == d.abs(),
                    None => true,
                },
                None => true,
            }
        }),
        ({
            let a = parse_amount_spec(row, m, bank)->Ok_0;
            let debit_counts = match cell(row, m.debit) {
                Some(dc) => match parse_amount_value_spec(trim(dc)) {
                    Some(d) => !d.is_zero(),
                    None => false,
                },
                None => false,
            };
            !debit_counts ==> match cell(row, m.credit) {
                Some(cc) => match parse_amount_value_spec(trim(cc)) {
                    Some(c) => !a.is_negative() && a.abs() == c.abs(),
                    None => a == zero_v(),
                },
                None => a == zero_v(),
            }
        }),
{
}

/// In the one-column layout (Westpac, St. George, NAB and unknown banks)
/// the amount is the value of the amount cell, read as written; a cell that
/// cannot be read, or a missing amount column, is an error.
pub proof fn law_one_column_amount(row: Seq<Seq<char>>, m: ColumnMap, bank: AustralianBank)
    requires
        bank != AustralianBank::CommBank,
        bank != AustralianBank::Anz,
    ensures
        match cell(row, m.amount) {
            Some(c) => match parse_amount_value_spec(trim(c)) {
                Some(v) => parse_amount_spec(row, m, bank) == Ok::<AmountV, Seq<char>>(v),
                None => parse_amount_spec(row, m, bank) is Err,
            },
            None => parse_amount_spec(row, m, bank) is Err,
        },
{
}

fn cell_amount(row: &[String], idx: Option<usize>) -> (r: Option<Amount>)
    ensures
        amount_opt(r) == (match cell(str_views(row@), idx) {
            Some(c) => parse_amount_value_spec(trim(c)),
            None => None,
        }),
{
    match cell_exec(row, idx) {
        Some(c) => {
            let t = trim_chars(c.as_slice());
            let ts = string_of(t.as_slice());
            parse_amount_value(ts.as_str())
        },
        None => None,
    }
}

pub fn parse_amount(row: &[String], m: &ColumnMap, bank: AustralianBank) -> (r: Result<
    Amount,
    ImportError,
>)
    ensures
        match r {
            Ok(a) => parse_amount_spec(str_views(row@), *m, bank) == Ok::<AmountV, Seq<char>>(a@),
            Err(e) => parse_amount_spec(str_views(row@), *m, bank) == Err::<AmountV, Seq<char>>(
                e.message_spec(),
            ),
        },
{
    match bank {
        AustralianBank::CommBank | AustralianBank::Anz => {
            let debit = cell_amount(row, m.debit);
            let credit = cell_amount(row, m.credit);
            if let Some(d) = &debit {
                if !d.is_zero() {
                    return Ok(d.neg_abs());
                }
            }
            if let Some(c) = &credit {
                return Ok(c.abs());
            }
            Ok(Amount::zero())
        },
        _ => {
            match cell_exec(row, m.amount) {
                Some(a) => {
                    let t = trim_chars(a.as_slice());
                    let ts = string_of(t.as_slice());
                    match parse_amount_value(ts.as_str()) {
                        Some(v) => Ok(v),
                        None => {
                            let mut msg = chars_of("Invalid amount: ");
                            push_all(&mut msg, a.as_slice());
                            Err(ImportError::InvalidInput(string_of(msg.as_slice())))
                        },
                    }
                },
                None => Err(ImportError::InvalidInput(string_of(chars_of("No amount column found").as_slice()))),
            }
        },
    }
}


/// A transaction read from a bank CSV export.
#[derive(Debug)]
pub struct BankTransaction {
    /// Normalized date in YYYY-MM-DD format.
    pub date: String,
    /// Transaction description/payee.
    pub description: String,
    /// Amount (positive = credit, negative = debit).
    pub amount: Amount,
    /// Running balance if available.
    pub balance: Option<Amount>,
    /// Bank reference number if available.
    pub reference: Option<String>,
    /// Raw transaction type if detected.
    pub transaction_type: Option<String>,
    /// Bank identifier (CBA, WBC, STG, ANZ, NAB).
    pub bank_code: Option<String>,
}

pub struct BankTransactionV {
    pub date: Seq<char>,
    pub description: Seq<char>,
    pub amount: AmountV,
    pub balance: Option<AmountV>,
    pub reference: Option<Seq<char>>,
    pub transaction_type: Option<Seq<char>>,
    pub bank_code: Option<Seq<char>>,
}

impl View for BankTransaction {
    type V = BankTransactionV;

    open spec fn view(&self) -> BankTransactionV {
        BankTransactionV {
            date: self.date@,
            description: self.description@,
            amount: self.amount@,
            balance: amount_opt(self.balance),
            reference: opt_str(self.reference),
            transaction_type: opt_str(self.transaction_type),
            bank_code: opt_str(self.bank_code),
        }
    }
}

/// The trimmed cell, or the empty text when there is no cell.
pub open spec fn trimmed_cell_or_empty(row: Seq<Seq<char>>, idx: Option<usize>) -> Seq<char> {
    match cell(row, idx) {
        Some(c) => trim(c),
        None => seq![],
    }
}

/// The transaction of a row: nothing when its date cell is empty, an error
/// when its date or amount cannot be read.
pub open spec fn parse_transaction_row_spec(row: Seq<Seq<char>>, m: ColumnMap, bank: AustralianBank) -> Result<
    Option<BankTransactionV>,
    Seq<char>,
> {
    let date_str = trimmed_cell_or_empty(row, m.date);
    if date_str.len() == 0 {
        Ok(None)
    } else {
        match parse_date_spec(date_str) {
            Err(e) => Err(e),
            Ok(date) => match parse_amount_spec(row, m, bank) {
                Err(e) => Err(e),
                Ok(amount) => {
                    let reference = trimmed_cell_or_empty(row, m.reference);
                    Ok(
                        Some(
                            BankTransactionV {
                                date,
                                description: trimmed_cell_or_empty(row, m.description),
                                amount,
                                balance: match cell(row, m.balance) {
                                    Some(c) => parse_balance_spec(trim(c)),
                                    None => None,
                                },
                                reference: if reference.len() > 0 {
                                    Some(reference)
                                } else {
                                    None
                                },
                                transaction_type: None,
                                bank_code: Some(bank.code_spec()),
                            },
                        ),
                    )
                },
            },
        }
    }
}

fn trimmed_cell_exec(row: &[String], idx: Option<usize>) -> (r: Vec<char>)
    ensures
        r@ == trimmed_cell_or_empty(str_views(row@), idx),
{
    match cell_exec(row, idx) {
        Some(c) => trim_chars(c.as_slice()),
        None => Vec::new(),
    }
}

pub open spec fn row_result_view(r: Result<Option<BankTransaction>, ImportError>) -> Result<
    Option<BankTransactionV>,
    Seq<char>,
> {
    match r {
        Ok(Some(t)) => Ok(Some(t@)),
        Ok(None) => Ok(None),
        Err(e) => Err(e.message_spec()),
    }
}

/// Reads one row (see `parse_transaction_row_spec`).
pub fn parse_transaction_row(row: &[String], m: &ColumnMap, bank: AustralianBank) -> (r: Result<
    Option<BankTransaction>,
    ImportError,
>)
    ensures
        row_result_view(r) == parse_transaction_row_spec(str_views(row@), *m, bank),
{
    let date_str = trimmed_cell_exec(row, m.date);
    if date_str.len() == 0 {
        return Ok(None);
    }
    let date_text = string_of(date_str.as_slice());
    let date = match parse_date(date_text.as_str()) {
        Ok(d) => d,
        Err(e) => return Err(e),
    };
    let description = trimmed_cell_exec(row, m.description);
    let amount = match parse_amount(row, m, bank) {
        Ok(a) => a,
        Err(e) => return Err(e),
    };
    let balance = match cell_exec(row, m.balance) {
        Some(c) => {
            let t = trim_chars(c.as_slice());
            let ts = string_of(t.as_slice());
            parse_balance(ts.as_str())
        },
        None => None,
    };
    let reference = trimmed_cell_exec(row, m.reference);
    let reference = if reference.len() > 0 {
        Some(string_of(reference.as_slice()))
    } else {
        None
    };
    Ok(
        Some(
            BankTransaction {
                date,
                description: string_of(description.as_slice()),
                amount,
                balance,
                reference,
                transaction_type: None,
                bank_code: Some(owned(bank.code())),
            },
        ),
    )
}


/// The bytes without a leading UTF-8 byte-order mark.
pub open spec fn strip_bom(b: Seq<u8>) -> Seq<u8> {
    if b.len() >= 3 && b[0] == 0xEF && b[1] == 0xBB && b[2] == 0xBF {
        b.subrange(3, b.len() as int)
    } else {
        b
    }
}

/// The text of a CSV file: its bytes after any byte-order mark, decoded as
/// UTF-8, or decoded with replacement characters when they are not UTF-8.
pub open spec fn decoded_text(b: Seq<u8>) -> Seq<char> {
    let c = strip_bom(b);
    if valid_utf8(c) {
        decode_utf8(c)
    } else {
        utf8_lossy(c)
    }
}

/// The error recorded while decoding, if the bytes are not UTF-8.
pub open spec fn decode_errors(b: Seq<u8>) -> Seq<Seq<char>> {
    let c = strip_bom(b);
    if valid_utf8(c) {
        seq![]
    } else {
        seq!["Invalid UTF-8: "@ + utf8_error_text(c) + ". Using lossy conversion."@]
    }
}

/// Decodes the bytes of a CSV file, recording an error when they are not
/// UTF-8.
pub fn decode_content(content: &[u8], errors: &mut Vec<String>) -> (r: String)
    ensures
        r@ == decoded_text(content@),
        str_views(final(errors)@) == str_views(old(errors)@) + decode_errors(content@),
{
    let n = content.len();
    let body: &[u8] = if n >= 3 && content[0] == 0xEF && content[1] == 0xBB && content[2] == 0xBF {
        &content[3..n]
    } else {
        content
    };
    assert(body@ == strip_bom(content@));
    match utf8_decode(body) {
        Ok(s) => {
            assert(str_views(errors@) =~= str_views(old(errors)@) + decode_errors(content@));
            s
        },
        Err(e) => {
            let mut msg = chars_of("Invalid UTF-8: ");
            push_all(&mut msg, chars_of(e.as_str()).as_slice());
            push_str(&mut msg, ". Using lossy conversion.");
            let ghost before = str_views(errors@);
            errors.push(string_of(msg.as_slice()));
            assert(str_views(errors@) =~= before.push(msg@));
            utf8_decode_lossy(body)
        },
    }
}

/// The first five lines of a text.
pub open spec fn first_lines(text: Seq<char>) -> Seq<Seq<char>> {
    let ls = lines(text);
    if ls.len() > 5 {
        ls.subrange(0, 5)
    } else {
        ls
    }
}

/// How many of the lines are non-empty and hold `d` more than twice.
pub open spec fn delimiter_score(ls: Seq<Seq<char>>, d: char) -> nat
    decreases ls.len(),
{
    if ls.len() == 0 {
        0
    } else {
        delimiter_score(ls.drop_last(), d) + if ls.last().len() > 0 && count_char(ls.last(), d) > 2 {
            1nat
        } else {
            0nat
        }
    }
}

/// The delimiter with the highest score over the first five lines among
/// comma, semicolon and tab, in that order of preference on a tie; comma
/// when none scores.
pub open spec fn detect_delimiter_spec(text: Seq<char>) -> char {
    let ls = first_lines(text);
    let a = delimiter_score(ls, ',');
    let b = delimiter_score(ls, ';');
    let c = delimiter_score(ls, '\t');
    let (d2, s2) = if b > a {
        (';', b)
    } else {
        (',', a)
    };
    if c > s2 {
        '\t'
    } else {
        d2
    }
}

fn delimiter_score_exec(ls: &Vec<Vec<char>>, d: char) -> (r: usize)
    requires
        ls@.len() <= 5,
    ensures
        r == delimiter_score(views(ls@), d),
{
    let mut n: usize = 0;
    let mut i: usize = 0;
    assert(views(ls@).subrange(0, 0) =~= Seq::<Seq<char>>::empty());
    while i < ls.len()
        invariant
            i <= ls@.len() <= 5,
            n <= i,
            n == delimiter_score(views(ls@).subrange(0, i as int), d),
        decreases ls@.len() - i,
    {
        assert(views(ls@).subrange(0, i + 1).drop_last() =~= views(ls@).subrange(0, i as int));
        let line = ls[i].as_slice();
        if line.len() > 0 && count_char_exec(line, d) > 2 {
            n = n + 1;
        }
        i = i + 1;
    }
    assert(views(ls@).subrange(0, ls@.len() as int) =~= views(ls@));
    n
}

/// Picks the CSV delimiter (see `detect_delimiter_spec`).
pub fn detect_csv_delimiter(content: &str) -> (r: char)
    ensures
        r == detect_delimiter_spec(content@),
{
    let cc = chars_of(content);
    let mut ls = lines_exec(cc.as_slice());
    if ls.len() > 5 {
        ls.truncate(5);
        assert(views(ls@) =~= lines(content@).subrange(0, 5));
    }
    let a = delimiter_score_exec(&ls, ',');
    let b = delimiter_score_exec(&ls, ';');
    let c = delimiter_score_exec(&ls, '\t');
    let (d2, s2) = if b > a {
        (';', b)
    } else {
        (',', a)
    };
    if c > s2 {
        '\t'
    } else {
        d2
    }
}


/// The headers `csv` reads from `text` with this delimiter (with headers,
/// flexible record lengths and line feed as terminator), or its error text.
pub uninterp spec fn csv_headers(text: Seq<char>, delimiter: u8) -> Result<Seq<Seq<char>>, Seq<char>>;

/// The records after the header row that `csv` reads from `text` with this
/// delimiter (same settings), each its fields or its error text.
pub uninterp spec fn csv_records(text: Seq<char>, delimiter: u8) -> Seq<Result<Seq<Seq<char>>, Seq<char>>>;

pub open spec fn headers_view(r: Result<Vec<String>, String>) -> Result<Seq<Seq<char>>, Seq<char>> {
    match r {
        Ok(h) => Ok(str_views(h@)),
        Err(e) => Err(e@),
    }
}

pub open spec fn record_view(r: Result<Vec<String>, String>) -> Result<Seq<Seq<char>>, Seq<char>> {
    headers_view(r)
}

pub open spec fn records_view(v: Seq<Result<Vec<String>, String>>) -> Seq<Result<Seq<Seq<char>>, Seq<char>>> {
    v.map_values(|r: Result<Vec<String>, String>| record_view(r))
}

/// Calls `csv::Reader::headers` on a reader over `text` built with this
/// delimiter, headers on, flexible record lengths and `\n` as the
/// terminator. The result (the header fields, or the error's text) is named
/// `csv_headers`.
#[verifier::external_body]
fn read_csv_headers(text: &str, delimiter: u8) -> (r: Result<Vec<String>, String>)
    ensures
        headers_view(r) == csv_headers(text@, delimiter),
{
    let mut reader = csv::ReaderBuilder::new().delimiter(delimiter).has_headers(true).flexible(
        true,
    ).terminator(csv::Terminator::Any(b'\n')).from_reader(text.as_bytes());
    match reader.headers() {
        Ok(h) => Ok(h.iter().map(|f| f.to_string()).collect()),
        Err(e) => Err(e.to_string()),
    }
}

/// Calls `csv::Reader::records` on a reader built as for `read_csv_headers`.
/// The records after the header row (each its fields, or the error's text)
/// are named `csv_records`.
#[verifier::external_body]
fn read_csv_records(text: &str, delimiter: u8) -> (r: Vec<Result<Vec<String>, String>>)
    ensures
        records_view(r@) == csv_records(text@, delimiter),
{
    let mut reader = csv::ReaderBuilder::new().delimiter(delimiter).has_headers(true).flexible(
        true,
    ).terminator(csv::Terminator::Any(b'\n')).from_reader(text.as_bytes());
    reader.records().map(
        |r| r.map(|rec| rec.iter().map(|f| f.to_string()).collect()).map_err(|e| e.to_string()),
    ).collect()
}

/// The result of reading an Australian bank CSV export.
#[derive(Debug)]
pub struct ParsedBankCsvResult {
    /// Detected bank type.
    pub bank_type: String,
    /// Account number if detected.
    pub account_number: Option<String>,
    /// Account name if detected.
    pub account_name: Option<String>,
    /// Currency code (AUD).
    pub currency: String,
    /// Parsed transactions.
    pub transactions: Vec<BankTransaction>,
    /// Any errors encountered.
    pub errors: Vec<String>,
    /// Total transactions count.
    pub transaction_count: usize,
}

pub struct ParsedBankCsvV {
    pub bank_type: Seq<char>,
    pub account_number: Option<Seq<char>>,
    pub account_name: Option<Seq<char>>,
    pub currency: Seq<char>,
    pub transactions: Seq<BankTransactionV>,
    pub errors: Seq<Seq<char>>,
    pub transaction_count: nat,
}

pub open spec fn txs_view(v: Seq<BankTransaction>) -> Seq<BankTransactionV> {
    v.map_values(|t: BankTransaction| t@)
}

impl View for ParsedBankCsvResult {
    type V = ParsedBankCsvV;

    open spec fn view(&self) -> ParsedBankCsvV {
        ParsedBankCsvV {
            bank_type: self.bank_type@,
            account_number: opt_str(self.account_number),
            account_name: opt_str(self.account_name),
            currency: self.currency@,
            transactions: txs_view(self.transactions@),
            errors: str_views(self.errors@),
            transaction_count: self.transaction_count as nat,
        }
    }
}

/// The error recorded for a row that could not be read into a transaction.
pub open spec fn row_error(idx: nat, e: Seq<char>) -> Seq<char> {
    "Row "@ + decimal(idx + 1) + ": "@ + e
}

/// The error recorded for a record that `csv` could not read.
pub open spec fn read_error(idx: nat, e: Seq<char>) -> Seq<char> {
    "Failed to parse row "@ + decimal(idx + 1) + ": "@ + e
}

/// The transactions and errors of the records, in order.
pub open spec fn rows_spec(
    records: Seq<Result<Seq<Seq<char>>, Seq<char>>>,
    m: ColumnMap,
    bank: AustralianBank,
) -> (Seq<BankTransactionV>, Seq<Seq<char>>)
    decreases records.len(),
{
    if records.len() == 0 {
        (seq![], seq![])
    } else {
        let (txs, errs) = rows_spec(records.drop_last(), m, bank);
        let idx = (records.len() - 1) as nat;
        match records.last() {
            Ok(row) => match parse_transaction_row_spec(row, m, bank) {
                Ok(Some(tx)) => (txs.push(tx), errs),
                Ok(None) => (txs, errs),
                Err(e) => (txs, errs.push(row_error(idx, e))),
            },
            Err(e) => (txs, errs.push(read_error(idx, e))),
        }
    }
}

/// The trimmed cell at `idx` of the first record, when it was read.
pub open spec fn first_record_cell(records: Seq<Result<Seq<Seq<char>>, Seq<char>>>, idx: Option<
    usize,
>) -> Option<Seq<char>> {
    if records.len() > 0 {
        match records[0] {
            Ok(row) => match cell(row, idx) {
                Some(c) => Some(trim(c)),
                None => None,
            },
            Err(_) => None,
        }
    } else {
        None
    }
}

/// The result for a decoded file, given the errors of its decoding, what
/// `csv` read as headers and what it read as records.
pub open spec fn bank_csv_spec(
    decode_errs: Seq<Seq<char>>,
    headers: Result<Seq<Seq<char>>, Seq<char>>,
    records: Seq<Result<Seq<Seq<char>>, Seq<char>>>,
) -> Result<ParsedBankCsvV, Seq<char>> {
    match headers {
        Err(e) => Err(e),
        Ok(h) => if h.len() == 0 {
            Err("CSV file has no headers"@)
        } else {
            let bank = detect_bank_spec(h);
            let m = build_column_map_spec(h, bank);
            let (txs, errs) = rows_spec(records, m, bank);
            Ok(
                ParsedBankCsvV {
                    bank_type: bank.code_spec(),
                    account_number: first_record_cell(records, m.account_number),
                    account_name: first_record_cell(records, m.account_name),
                    currency: "AUD"@,
                    transactions: txs,
                    errors: decode_errs + errs,
                    transaction_count: txs.len(),
                },
            )
        },
    }
}

pub open spec fn csv_result_view(r: Result<ParsedBankCsvResult, ImportError>) -> Result<
    ParsedBankCsvV,
    Seq<char>,
> {
    match r {
        Ok(p) => Ok(p@),
        Err(e) => Err(e.message_spec()),
    }
}

fn first_record_cell_exec(records: &Vec<Result<Vec<String>, String>>, idx: Option<usize>) -> (r:
    Option<String>)
    ensures
        opt_str(r) == first_record_cell(records_view(records@), idx),
{
    if records.len() > 0 {
        match &records[0] {
            Ok(row) => match cell_exec(row.as_slice(), idx) {
                Some(c) => {
                    let t = trim_chars(c.as_slice());
                    Some(string_of(t.as_slice()))
                },
                None => None,
            },
            Err(_) => None,
        }
    } else {
        None
    }
}

/// Builds the result from what `csv` read (see `bank_csv_spec`).
pub fn parse_bank_csv_table(
    decode_errs: Vec<String>,
    headers: Result<Vec<String>, String>,
    records: Vec<Result<Vec<String>, String>>,
) -> (r: Result<ParsedBankCsvResult, ImportError>)
    ensures
        csv_result_view(r) == bank_csv_spec(
            str_views(decode_errs@),
            headers_view(headers),
            records_view(records@),
        ),
{
    let h = match headers {
        Ok(h) => h,
        Err(e) => return Err(ImportError::InvalidInput(e)),
    };
    if h.len() == 0 {
        return Err(ImportError::InvalidInput(owned("CSV file has no headers")));
    }
    let bank = detect_bank_type(h.as_slice());
    let m = build_column_map(h.as_slice(), bank);
    let account_number = first_record_cell_exec(&records, m.account_number);
    let account_name = first_record_cell_exec(&records, m.account_name);
    let mut transactions: Vec<BankTransaction> = Vec::new();
    let mut errors = decode_errs;
    let ghost e0 = str_views(errors@);
    let mut i: usize = 0;
    assert(records_view(records@).subrange(0, 0) =~= Seq::<Result<Seq<Seq<char>>, Seq<char>>>::empty());
    while i < records.len()
        invariant
            i <= records@.len(),
            m == build_column_map_spec(str_views(h@), bank),
            (txs_view(transactions@), str_views(errors@)) == (
                rows_spec(records_view(records@).subrange(0, i as int), m, bank).0,
                e0 + rows_spec(records_view(records@).subrange(0, i as int), m, bank).1,
            ),
        decreases records@.len() - i,
    {
        let ghost sub = records_view(records@).subrange(0, i + 1);
        assert(sub.drop_last() =~= records_view(records@).subrange(0, i as int));
        assert(sub.last() == record_view(records@[i as int]));
        let ghost t0 = txs_view(transactions@);
        let ghost er0 = str_views(errors@);
        let num = decimal_exec(i as u64 + 1);
        match &records[i] {
            Ok(row) => {
                match parse_transaction_row(row.as_slice(), &m, bank) {
                    Ok(Some(tx)) => {
                        transactions.push(tx);
                        assert(txs_view(transactions@) =~= t0.push(tx@));
                    },
                    Ok(None) => {},
                    Err(e) => {
                        let mut msg = chars_of("Row ");
                        push_all(&mut msg, num.as_slice());
                        push_str(&mut msg, ": ");
                        push_all(&mut msg, chars_of(e.message().as_str()).as_slice());
                        errors.push(string_of(msg.as_slice()));
                        assert(str_views(errors@) =~= er0.push(msg@));
                    },
                }
            },
            Err(e) => {
                let mut msg = chars_of("Failed to parse row ");
                push_all(&mut msg, num.as_slice());
                push_str(&mut msg, ": ");
                push_all(&mut msg, chars_of(e.as_str()).as_slice());
                errors.push(string_of(msg.as_slice()));
                assert(str_views(errors@) =~= er0.push(msg@));
            },
        }
        i = i + 1;
    }
    assert(records_view(records@).subrange(0, records@.len() as int) =~= records_view(records@));
    let transaction_count = transactions.len();
    Ok(
        ParsedBankCsvResult {
            bank_type: owned(bank.code()),
            account_number,
            account_name,
            currency: owned("AUD"),
            transactions,
            errors,
            transaction_count,
        },
    )
}

/// The byte of a detected delimiter.
pub open spec fn delimiter_byte(c: char) -> u8 {
    if c == ',' {
        44
    } else if c == ';' {
        59
    } else {
        9
    }
}

/// What reading an Australian bank CSV export gives for these bytes.
pub open spec fn parse_australian_bank_csv_spec(content: Seq<u8>) -> Result<ParsedBankCsvV, Seq<char>> {
    let text = decoded_text(content);
    let d = delimiter_byte(detect_delimiter_spec(text));
    bank_csv_spec(decode_errors(content), csv_headers(text, d), csv_records(text, d))
}

/// Reads an Australian bank CSV export: decodes it, picks the delimiter,
/// reads the header row and records with `csv`, detects the bank and reads
/// each row into a transaction.
pub fn parse_australian_bank_csv(content: &[u8]) -> (r: Result<ParsedBankCsvResult, ImportError>)
    ensures
        csv_result_view(r) == parse_australian_bank_csv_spec(content@),
{
    let mut errors: Vec<String> = Vec::new();
    let text = decode_content(content, &mut errors);
    assert(str_views(errors@) =~= decode_errors(content@));
    let delimiter = detect_csv_delimiter(text.as_str());
    let d: u8 = if delimiter == ',' {
        44
    } else if delimiter == ';' {
        59
    } else {
        9
    };
    let headers = read_csv_headers(text.as_str(), d);
    let records = read_csv_records(text.as_str(), d);
    parse_bank_csv_table(errors, headers, records)
}

/// The idempotency key of a bank transaction: the SHA-256 fingerprint, in
/// lower-case hex, of
/// `BANK|{source}|{account}|{date}|{amount:.2}|{description.trim()}`.
pub fn generate_bank_idempotency_key(
    source_system: &str,
    account_id: &str,
    date: &str,
    amount: &Amount,
    description: &str,
) -> (r: String)
    ensures
        r@ == sha256_hex_spec(bank_key_text(source_system@, account_id@, date@, amount@, description@)),
        r@.len() == 64,
{
    let t = bank_key_text_exec(source_system, account_id, date, amount, description);
    let h = sha256_hex(t.as_slice());
    string_of(h.as_slice())
}

} // verus!
