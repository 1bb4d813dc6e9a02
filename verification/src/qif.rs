//! Reading of QIF (Quicken Interchange Format) statements: the account type
//! named in the `!Type:` header and the transactions, each opened by a `D`
//! (date) line and closed by `^`, by the next `D` line or by the end of the
//! file.

use vstd::prelude::*;
use vstd::utf8::encode_utf8;
use crate::amount::{Amount, AmountV, fixed2_spec, parse_float, parse_float_spec, zero_v};
use crate::bank_csv::{
    amount_opt, dashed, date_iso, neg_abs_amount, neg_abs_opt, str_views, two_digits,
    two_digits_exec,
};
use crate::dates::{
    all_regex_digits, all_regex_word, class_flags, month_name_to_num, month_name_to_num_spec,
    range_digits, range_word, split3, split3_exec,
};
use crate::errors::ImportError;
use crate::hashing::{sha256_hex, sha256_hex_spec};
use crate::text::{
    chars_of, copy_range, ends_with, ends_with_exec, eq_str, lines, lines_exec, lowercase, opt_str,
    owned, parse_usize, parse_usize_exec, push_all, push_str, replace_all, replace_exec,
    starts_with, starts_with_exec, string_of, to_lowercase, trim, trim_chars, utf8_decode_lossy,
    utf8_lossy, views, is_ascii_char, lemma_middle_injective, lower_text, ascii_lower, ascii_lower_char, is_ascii_seq, lemma_utf8_len_bounds,
};

verus! {

/// A transaction of a QIF statement.
#[derive(Debug)]
pub struct QifTransaction {
    pub date: String,
    pub amount: Amount,
    pub payee: Option<String>,
    pub memo: Option<String>,
    pub reference: Option<String>,
    pub category: Option<String>,
    pub cleared: bool,
}

pub struct QifTransactionV {
    pub date: Seq<char>,
    pub amount: AmountV,
    pub payee: Option<Seq<char>>,
    pub memo: Option<Seq<char>>,
    pub reference: Option<Seq<char>>,
    pub category: Option<Seq<char>>,
    pub cleared: bool,
}

impl View for QifTransaction {
    type V = QifTransactionV;

    open spec fn view(&self) -> QifTransactionV {
        QifTransactionV {
            date: self.date@,
            amount: self.amount@,
            payee: opt_str(self.payee),
            memo: opt_str(self.memo),
            reference: opt_str(self.reference),
            category: opt_str(self.category),
            cleared: self.cleared,
        }
    }
}

/// The result of reading a QIF statement.
#[derive(Debug)]
pub struct QifParseResult {
    pub account_type: String,
    pub transactions: Vec<QifTransaction>,
    pub errors: Vec<String>,
}

pub struct QifParseV {
    pub account_type: Seq<char>,
    pub transactions: Seq<QifTransactionV>,
    pub errors: Seq<Seq<char>>,
}

pub open spec fn qif_txs_view(v: Seq<QifTransaction>) -> Seq<QifTransactionV> {
    v.map_values(|t: QifTransaction| t@)
}

impl View for QifParseResult {
    type V = QifParseV;

    open spec fn view(&self) -> QifParseV {
        QifParseV {
            account_type: self.account_type@,
            transactions: qif_txs_view(self.transactions@),
            errors: str_views(self.errors@),
        }
    }
}

/// The character sequences of string slices.
pub open spec fn slice_views(v: Seq<&str>) -> Seq<Seq<char>> {
    v.map_values(|s: &str| s@)
}

/// The tag that opens the account type header.
pub open spec fn type_tag() -> Seq<char> {
    seq!['!', 'T', 'y', 'p', 'e', ':']
}

/// `s` with every leading repetition of `!Type:` removed.
pub open spec fn strip_type_tags(s: Seq<char>) -> Seq<char>
    decreases s.len(),
{
    if starts_with(s, type_tag()) && s.len() >= 6 {
        strip_type_tags(s.subrange(6, s.len() as int))
    } else {
        s
    }
}

/// The account type named by a lower-cased header value.
pub open spec fn account_type_name(t: Seq<char>) -> Seq<char> {
    if t == "bank"@ {
        "Bank"@
    } else if t == "cash"@ {
        "Cash"@
    } else if t == "invst"@ {
        "Investment"@
    } else if t == "ccard"@ {
        "Credit Card"@
    } else {
        t
    }
}

/// The account type of the first line that starts with `!Type:`; `Bank`
/// when there is none.
pub open spec fn detect_account_type_spec(ls: Seq<Seq<char>>) -> Seq<char>
    decreases ls.len(),
{
    if ls.len() == 0 {
        "Bank"@
    } else if starts_with(ls[0], type_tag()) {
        account_type_name(lowercase(trim(strip_type_tags(ls[0]))))
    } else {
        detect_account_type_spec(ls.drop_first())
    }
}

fn strip_type_tags_exec(s: &[char]) -> (r: Vec<char>)
    ensures
        r@ == strip_type_tags(s@),
{
    let tag = chars_of("!Type:");
    proof {
        reveal_strlit("!Type:");
        assert(tag@ =~= type_tag());
    }
    let mut t = copy_range(s, 0, s.len());
    assert(t@ =~= s@);
    while starts_with_exec(t.as_slice(), tag.as_slice())
        invariant
            tag@ == type_tag(),
            strip_type_tags(t@) == strip_type_tags(s@),
        decreases t@.len(),
    {
        assert(t@.len() >= 6);
        t = copy_range(t.as_slice(), 6, t.len());
    }
    t
}

fn account_type_name_exec(t: &[char]) -> (r: String)
    ensures
        r@ == account_type_name(t@),
{
    if eq_str(t, "bank") {
        owned("Bank")
    } else if eq_str(t, "cash") {
        owned("Cash")
    } else if eq_str(t, "invst") {
        owned("Investment")
    } else if eq_str(t, "ccard") {
        owned("Credit Card")
    } else {
        string_of(t)
    }
}

/// The account type of a QIF statement, from its first `!Type:` line:
/// `Bank`, `Cash`, `Investment` or `Credit Card` for the usual values, else
/// the lower-cased value; `Bank` when no line names a type.
pub fn detect_account_type(lines: &[&str]) -> (r: String)
    ensures
        r@ == detect_account_type_spec(slice_views(lines@)),
{
    let tag = chars_of("!Type:");
    proof {
        reveal_strlit("!Type:");
        assert(tag@ =~= type_tag());
    }
    let ghost all = slice_views(lines@);
    let mut i: usize = 0;
    assert(all.subrange(0, all.len() as int) =~= all);
    while i < lines.len()
        invariant
            i <= lines@.len(),
            all == slice_views(lines@),
            tag@ == type_tag(),
            detect_account_type_spec(all) == detect_account_type_spec(
                all.subrange(i as int, all.len() as int),
            ),
        decreases lines@.len() - i,
    {
        let lc = chars_of(lines[i]);
        let ghost rest = all.subrange(i as int, all.len() as int);
        assert(rest[0] == lc@);
        if starts_with_exec(lc.as_slice(), tag.as_slice()) {
            let v = strip_type_tags_exec(lc.as_slice());
            let t = trim_chars(v.as_slice());
            let l = to_lowercase(t.as_slice());
            return account_type_name_exec(l.as_slice());
        }
        assert(rest.drop_first() =~= all.subrange(i + 1, all.len() as int));
        i = i + 1;
    }
    owned("Bank")
}

/// The amount of a QIF `T` or `U` line: trimmed and without commas;
/// nothing when empty; negative when in parentheses or with a leading
/// minus; in the syntax of a float.
pub open spec fn parse_qif_amount_spec(s: Seq<char>) -> Option<AmountV> {
    let t = replace_all(trim(s), seq![','], seq![]);
    if t.len() == 0 {
        None
    } else if starts_with(t, seq!['(']) && ends_with(t, seq![')']) {
        neg_abs_opt(parse_float_spec(t.subrange(1, t.len() - 1)))
    } else if starts_with(t, seq!['-']) {
        neg_abs_opt(parse_float_spec(t))
    } else {
        parse_float_spec(t)
    }
}

/// Reads the amount of a QIF `T` or `U` line (see `parse_qif_amount_spec`).
pub fn parse_qif_amount(s: &str) -> (r: Option<Amount>)
    ensures
        amount_opt(r) == parse_qif_amount_spec(s@),
{
    let sc = chars_of(s);
    let st = trim_chars(sc.as_slice());
    let comma = vec![','];
    let nothing: Vec<char> = Vec::new();
    let t = replace_exec(st.as_slice(), comma.as_slice(), nothing.as_slice());
    assert(comma@ =~= seq![',']);
    assert(nothing@ =~= Seq::<char>::empty());
    let ts = t.as_slice();
    if ts.len() == 0 {
        return None;
    }
    let open = vec!['('];
    let close = vec![')'];
    let minus = vec!['-'];
    assert(open@ =~= seq!['(']);
    assert(close@ =~= seq![')']);
    assert(minus@ =~= seq!['-']);
    if starts_with_exec(ts, open.as_slice()) && ends_with_exec(ts, close.as_slice()) {
        proof {
            if t@.len() == 1 {
                assert(t@.subrange(0, 1)[0] == '(');
                assert(t@.subrange(0, 1)[0] == ')');
            }
        }
        let inner = copy_range(ts, 1, ts.len() - 1);
        neg_abs_amount(parse_float(inner.as_slice()))
    } else if starts_with_exec(ts, minus.as_slice()) {
        neg_abs_amount(parse_float(ts))
    } else {
        parse_float(ts)
    }
}

/// The `D/M/YY` form (one or two digits of day and month, two to four of
/// year): day, month and year.
pub open spec fn qif_date_slash(s: Seq<char>) -> Option<(Seq<char>, Seq<char>, Seq<char>)> {
    match split3(s, '/') {
        Some((d, m, y)) => if 1 <= d.len() <= 2 && 1 <= m.len() <= 2 && 2 <= y.len() <= 4
            && all_regex_digits(d) && all_regex_digits(m) && all_regex_digits(y) {
            Some((d, m, y))
        } else {
            None
        },
        None => None,
    }
}

/// The `D-Mmm-YY` form: day, three-letter month and year.
pub open spec fn qif_date_dash(s: Seq<char>) -> Option<(Seq<char>, Seq<char>, Seq<char>)> {
    match split3(s, '-') {
        Some((d, m, y)) => if 1 <= d.len() <= 2 && m.len() == 3 && 2 <= y.len() <= 4
            && all_regex_digits(d) && all_regex_word(m) && all_regex_digits(y) {
            Some((d, m, y))
        } else {
            None
        },
        None => None,
    }
}

/// A year written with two bytes is taken to be in the 2000s.
pub open spec fn qif_year(y: Seq<char>) -> Seq<char> {
    if encode_utf8(y).len() == 2 {
        "20"@ + y
    } else {
        y
    }
}

/// The date of a QIF `D` line in `YYYY-MM-DD` form, from `D/M/YY[YY]`,
/// `D-Mmm-YY[YY]` or `YYYY-MM-DD` (after trimming). Nothing when none of
/// these forms matches, or when the day or month is not made of ASCII
/// digits.
pub open spec fn parse_qif_date_spec(s0: Seq<char>) -> Option<Seq<char>> {
    let s = trim(s0);
    if let Some((d, m, y)) = qif_date_slash(s) {
        match (parse_usize(m), parse_usize(d)) {
            (Some(mv), Some(dv)) => Some(qif_year(y) + "-"@ + two_digits(mv) + "-"@ + two_digits(dv)),
            _ => None,
        }
    } else if let Some((d, m, y)) = qif_date_dash(s) {
        match parse_usize(d) {
            Some(dv) => Some(
                qif_year(y) + "-"@ + two_digits(month_name_to_num_spec(m)) + "-"@ + two_digits(dv),
            ),
            None => None,
        }
    } else if date_iso(s) {
        Some(s)
    } else {
        None
    }
}

fn qif_year_exec(y: &[char]) -> (r: Vec<char>)
    requires
        y@.len() <= 4,
    ensures
        r@ == qif_year(y@),
{
    let ys = string_of(y);
    proof {
        lemma_utf8_len_bounds(y@);
    }
    if ys.as_str().len() == 2 {
        assert(encode_utf8(y@).len() == 2);
        let mut r = chars_of("20");
        push_all(&mut r, y);
        assert(r@ == "20"@ + y@);
        r
    } else {
        assert(encode_utf8(y@).len() != 2);
        let r = copy_range(y, 0, y.len());
        assert(r@ =~= y@);
        r
    }
}

/// Reads the date of a QIF `D` line (see `parse_qif_date_spec`).
pub fn parse_qif_date(s0: &str) -> (r: Option<String>)
    ensures
        opt_str(r) == parse_qif_date_spec(s0@),
{
    let sc = chars_of(s0);
    let sv = trim_chars(sc.as_slice());
    let s = sv.as_slice();
    let n = s.len();
    let (df, wf) = class_flags(s);
    if let Some((i, k)) = split3_exec(s, '/') {
        if 1 <= i && i <= 2 && 1 <= k - i - 1 && k - i - 1 <= 2 && 2 <= n - k - 1 && n - k - 1 <= 4
            && range_digits(s, &df, 0, i) && range_digits(s, &df, i + 1, k) && range_digits(
            s,
            &df,
            k + 1,
            n,
        ) {
            let d = copy_range(s, 0, i);
            let m = copy_range(s, i + 1, k);
            let y = copy_range(s, k + 1, n);
            let mv = match parse_usize_exec(m.as_slice()) {
                Some(v) => v,
                None => return None,
            };
            let dv = match parse_usize_exec(d.as_slice()) {
                Some(v) => v,
                None => return None,
            };
            let yy = qif_year_exec(y.as_slice());
            let mm = two_digits_exec(mv);
            let dd = two_digits_exec(dv);
            let out = dashed(yy.as_slice(), mm.as_slice(), dd.as_slice());
            return Some(string_of(out.as_slice()));
        }
    }
    if let Some((i, k)) = split3_exec(s, '-') {
        if 1 <= i && i <= 2 && k - i - 1 == 3 && 2 <= n - k - 1 && n - k - 1 <= 4 && range_digits(
            s,
            &df,
            0,
            i,
        ) && range_word(s, &wf, i + 1, k) && range_digits(s, &df, k + 1, n) {
            let d = copy_range(s, 0, i);
            let m = copy_range(s, i + 1, k);
            let y = copy_range(s, k + 1, n);
            let dv = match parse_usize_exec(d.as_slice()) {
                Some(v) => v,
                None => return None,
            };
            let yy = qif_year_exec(y.as_slice());
            let ms = string_of(m.as_slice());
            let mm = two_digits_exec(month_name_to_num(ms.as_str()) as u64);
            let dd = two_digits_exec(dv);
            let out = dashed(yy.as_slice(), mm.as_slice(), dd.as_slice());
            return Some(string_of(out.as_slice()));
        }
        if i == 4 && k - i - 1 == 2 && n - k - 1 == 2 && range_digits(s, &df, 0, i) && range_digits(
            s,
            &df,
            i + 1,
            k,
        ) && range_digits(s, &df, k + 1, n) {
            return Some(string_of(s));
        }
    }
    None
}

/// A transaction being read: the fields seen since its `D` line.
pub struct QifBuilderV {
    pub date: Option<Seq<char>>,
    pub amount: Option<AmountV>,
    pub payee: Option<Seq<char>>,
    pub memo: Option<Seq<char>>,
    pub reference: Option<Seq<char>>,
    pub category: Option<Seq<char>>,
    pub cleared: bool,
}

/// What has been read so far: the finished transactions and the one being
/// read, if any.
pub struct QifState {
    pub txs: Seq<QifTransactionV>,
    pub cur: Option<QifBuilderV>,
}

/// The transaction of a builder that has a date; a missing amount is zero.
pub open spec fn qif_build(b: QifBuilderV) -> Option<QifTransactionV> {
    match b.date {
        Some(d) => Some(
            QifTransactionV {
                date: d,
                amount: match b.amount {
                    Some(a) => a,
                    None => zero_v(),
                },
                payee: b.payee,
                memo: b.memo,
                reference: b.reference,
                category: b.category,
                cleared: b.cleared,
            },
        ),
        None => None,
    }
}

/// The finished transactions, with the one being read added when it can be
/// built.
pub open spec fn qif_flush(txs: Seq<QifTransactionV>, cur: Option<QifBuilderV>) -> Seq<
    QifTransactionV,
> {
    match cur {
        Some(b) => match qif_build(b) {
            Some(t) => txs.push(t),
            None => txs,
        },
        None => txs,
    }
}

/// A transaction opened by a `D` line with this date.
pub open spec fn qif_new_builder(date: Seq<char>) -> QifBuilderV {
    QifBuilderV {
        date: Some(date),
        amount: None,
        payee: None,
        memo: None,
        reference: None,
        category: None,
        cleared: false,
    }
}

/// The transaction being read after a line with this code and value.
pub open spec fn qif_set_field(b: QifBuilderV, code: char, value: Seq<char>) -> QifBuilderV {
    if code == 'T' || code == 'U' {
        QifBuilderV { amount: parse_qif_amount_spec(value), ..b }
    } else if code == 'N' {
        QifBuilderV { reference: Some(value), ..b }
    } else if code == 'P' {
        QifBuilderV { payee: Some(value), ..b }
    } else if code == 'M' {
        QifBuilderV { memo: Some(value), ..b }
    } else if code == 'L' {
        QifBuilderV { category: Some(value), ..b }
    } else if code == 'C' {
        QifBuilderV { cleared: lower_text(value) == "*"@ || lower_text(value) == "x"@, ..b }
    } else {
        b
    }
}

/// The date a `D` line gives its transaction: its date, or `1900-01-01`
/// when it cannot be read.
pub open spec fn qif_date_or_default(value: Seq<char>) -> Seq<char> {
    match parse_qif_date_spec(value) {
        Some(d) => d,
        None => "1900-01-01"@,
    }
}

/// The effect of one line. Empty lines and headers (`!`) change nothing;
/// otherwise the first character is the field code and the trimmed rest its
/// value. `D` ends the transaction being read and opens another, `^` ends
/// it, and the other codes fill a field of the transaction being read.
pub open spec fn qif_step(st: QifState, raw: Seq<char>) -> QifState {
    let line = trim(raw);
    if line.len() == 0 || line[0] == '!' {
        st
    } else {
        let code = line[0];
        let value = trim(line.subrange(1, line.len() as int));
        if code == 'D' {
            QifState {
                txs: qif_flush(st.txs, st.cur),
                cur: Some(qif_new_builder(qif_date_or_default(value))),
            }
        } else if code == '^' {
            QifState { txs: qif_flush(st.txs, st.cur), cur: None }
        } else {
            match st.cur {
                Some(b) => QifState { txs: st.txs, cur: Some(qif_set_field(b, code, value)) },
                None => st,
            }
        }
    }
}

/// The state after the lines, read in order.
pub open spec fn qif_fold(ls: Seq<Seq<char>>) -> QifState
    decreases ls.len(),
{
    if ls.len() == 0 {
        QifState { txs: seq![], cur: None }
    } else {
        qif_step(qif_fold(ls.drop_last()), ls.last())
    }
}

/// The transactions of the lines, the last one included.
pub open spec fn qif_transactions_spec(ls: Seq<Seq<char>>) -> Seq<QifTransactionV> {
    let st = qif_fold(ls);
    qif_flush(st.txs, st.cur)
}

/// A line that can be read: once trimmed it is empty, a header, or opens
/// with a one-byte (ASCII) field code.
pub open spec fn qif_line_ok(raw: Seq<char>) -> bool {
    let line = trim(raw);
    line.len() == 0 || line[0] == '!' || is_ascii_char(line[0])
}

pub open spec fn qif_lines_ok(ls: Seq<Seq<char>>) -> bool {
    forall|i: int| 0 <= i < ls.len() ==> qif_line_ok(#[trigger] ls[i])
}

/// The errors recorded for these transactions.
pub open spec fn qif_errors(txs: Seq<QifTransactionV>) -> Seq<Seq<char>> {
    if txs.len() == 0 {
        seq!["No transactions found in QIF file"@]
    } else {
        seq![]
    }
}

struct QifTransactionBuilder {
    date: Option<String>,
    amount: Option<Amount>,
    payee: Option<String>,
    memo: Option<String>,
    reference: Option<String>,
    category: Option<String>,
    cleared: bool,
}

impl View for QifTransactionBuilder {
    type V = QifBuilderV;

    closed spec fn view(&self) -> QifBuilderV {
        QifBuilderV {
            date: opt_str(self.date),
            amount: amount_opt(self.amount),
            payee: opt_str(self.payee),
            memo: opt_str(self.memo),
            reference: opt_str(self.reference),
            category: opt_str(self.category),
            cleared: self.cleared,
        }
    }
}

spec fn builder_opt_view(o: Option<QifTransactionBuilder>) -> Option<QifBuilderV> {
    match o {
        Some(b) => Some(b@),
        None => None,
    }
}

spec fn tx_opt_view(o: Option<QifTransaction>) -> Option<QifTransactionV> {
    match o {
        Some(t) => Some(t@),
        None => None,
    }
}

impl QifTransactionBuilder {
    fn build(self) -> (r: Option<QifTransaction>)
        ensures
            tx_opt_view(r) == qif_build(self@),
    {
        let date = match self.date {
            Some(d) => d,
            None => return None,
        };
        let amount = match self.amount {
            Some(a) => a,
            None => Amount::zero(),
        };
        Some(
            QifTransaction {
                date,
                amount,
                payee: self.payee,
                memo: self.memo,
                reference: self.reference,
                category: self.category,
                cleared: self.cleared,
            },
        )
    }

    fn set_field(self, code: char, value: &[char]) -> (r: QifTransactionBuilder)
        ensures
            r@ == qif_set_field(self@, code, value@),
    {
        let mut b = self;
        if code == 'T' || code == 'U' {
            let v = string_of(value);
            b.amount = parse_qif_amount(v.as_str());
        } else if code == 'N' {
            b.reference = Some(string_of(value));
        } else if code == 'P' {
            b.payee = Some(string_of(value));
        } else if code == 'M' {
            b.memo = Some(string_of(value));
        } else if code == 'L' {
            b.category = Some(string_of(value));
        } else if code == 'C' {
            let l = to_lowercase(value);
            assert(l@ == lower_text(value@));
            b.cleared = eq_str(l.as_slice(), "*") || eq_str(l.as_slice(), "x");
        }
        b
    }
}

fn qif_flush_exec(txs: &mut Vec<QifTransaction>, cur: Option<QifTransactionBuilder>)
    ensures
        qif_txs_view(final(txs)@) == qif_flush(qif_txs_view(old(txs)@), builder_opt_view(cur)),
{
    if let Some(b) = cur {
        if let Some(t) = b.build() {
            let ghost before = qif_txs_view(txs@);
            txs.push(t);
            assert(qif_txs_view(txs@) =~= before.push(t@));
        }
    }
}

fn new_builder(value: &[char]) -> (r: QifTransactionBuilder)
    ensures
        r@ == qif_new_builder(qif_date_or_default(value@)),
{
    let v = string_of(value);
    let date = match parse_qif_date(v.as_str()) {
        Some(d) => d,
        None => owned("1900-01-01"),
    };
    QifTransactionBuilder {
        date: Some(date),
        amount: None,
        payee: None,
        memo: None,
        reference: None,
        category: None,
        cleared: false,
    }
}

/// Reads the transactions of the lines of a QIF statement (see
/// `qif_transactions_spec`), and records an error when there are none.
pub fn parse_qif_transactions(lines: &[&str], errors: &mut Vec<String>) -> (r: Vec<
    QifTransaction,
>)
    requires
        qif_lines_ok(slice_views(lines@)),
    ensures
        qif_txs_view(r@) == qif_transactions_spec(slice_views(lines@)),
        str_views(final(errors)@) == str_views(old(errors)@) + qif_errors(qif_txs_view(r@)),
{
    let ghost all = slice_views(lines@);
    let mut transactions: Vec<QifTransaction> = Vec::new();
    let mut current: Option<QifTransactionBuilder> = None;
    let mut i: usize = 0;
    assert(all.subrange(0, 0) =~= Seq::<Seq<char>>::empty());
    assert(qif_txs_view(transactions@) =~= Seq::<QifTransactionV>::empty());
    while i < lines.len()
        invariant
            i <= lines@.len(),
            all == slice_views(lines@),
            qif_fold(all.subrange(0, i as int)) == (QifState {
                txs: qif_txs_view(transactions@),
                cur: builder_opt_view(current),
            }),
        decreases lines@.len() - i,
    {
        let ghost sub = all.subrange(0, i + 1);
        assert(sub.drop_last() =~= all.subrange(0, i as int));
        let lc = chars_of(lines[i]);
        assert(sub.last() == lc@);
        let line = trim_chars(lc.as_slice());
        if line.len() == 0 || line[0] == '!' {
        } else {
            let code = line[0];
            let rest = copy_range(line.as_slice(), 1, line.len());
            let value = trim_chars(rest.as_slice());
            if code == 'D' {
                qif_flush_exec(&mut transactions, current);
                current = Some(new_builder(value.as_slice()));
            } else if code == '^' {
                qif_flush_exec(&mut transactions, current);
                current = None;
            } else {
                current = match current {
                    Some(b) => Some(b.set_field(code, value.as_slice())),
                    None => None,
                };
            }
        }
        i = i + 1;
    }
    assert(all.subrange(0, lines@.len() as int) =~= all);
    qif_flush_exec(&mut transactions, current);
    if transactions.len() == 0 {
        let ghost before = str_views(errors@);
        errors.push(owned("No transactions found in QIF file"));
        assert(str_views(errors@) =~= before + seq!["No transactions found in QIF file"@]);
    } else {
        assert(str_views(errors@) =~= str_views(errors@) + Seq::<Seq<char>>::empty());
    }
    transactions
}

/// What reading a QIF statement gives for these bytes: an error when the
/// file has no line; else the account type, the transactions and the
/// errors recorded.
pub open spec fn parse_qif_spec(content: Seq<u8>) -> Result<QifParseV, Seq<char>> {
    let ls = lines(utf8_lossy(content));
    if ls.len() == 0 {
        Err("QIF file is empty"@)
    } else {
        let txs = qif_transactions_spec(ls);
        Ok(
            QifParseV {
                account_type: detect_account_type_spec(ls),
                transactions: txs,
                errors: qif_errors(txs),
            },
        )
    }
}

pub open spec fn qif_result_view(r: Result<QifParseResult, ImportError>) -> Result<
    QifParseV,
    Seq<char>,
> {
    match r {
        Ok(p) => Ok(p@),
        Err(e) => Err(e.message_spec()),
    }
}

/// The lines of the text the bytes decode to, with undecodable bytes
/// replaced (see `parse_qif_spec`).
fn decoded_lines(content: &[u8]) -> (r: Vec<String>)
    ensures
        str_views(r@) == lines(utf8_lossy(content@)),
{
    let text = utf8_decode_lossy(content);
    let tc = chars_of(text.as_str());
    let ls = lines_exec(tc.as_slice());
    let mut out: Vec<String> = Vec::new();
    let mut i: usize = 0;
    while i < ls.len()
        invariant
            i <= ls@.len(),
            str_views(out@) =~= views(ls@).subrange(0, i as int),
        decreases ls@.len() - i,
    {
        let ghost before = str_views(out@);
        let t = string_of(ls[i].as_slice());
        out.push(t);
        assert(str_views(out@) =~= before.push(ls@[i as int]@));
        i = i + 1;
    }
    assert(views(ls@).subrange(0, ls@.len() as int) =~= views(ls@));
    out
}

fn borrow_all(v: &Vec<String>) -> (r: Vec<&str>)
    ensures
        slice_views(r@) == str_views(v@),
{
    let mut out: Vec<&str> = Vec::new();
    let mut i: usize = 0;
    while i < v.len()
        invariant
            i <= v@.len(),
            slice_views(out@) =~= str_views(v@).subrange(0, i as int),
        decreases v@.len() - i,
    {
        let ghost before = slice_views(out@);
        out.push(v[i].as_str());
        assert(slice_views(out@) =~= before.push(v@[i as int]@));
        i = i + 1;
    }
    assert(str_views(v@).subrange(0, v@.len() as int) =~= str_views(v@));
    out
}

/// Reads a QIF statement (see `parse_qif_spec`). Every line, once trimmed,
/// must be empty, a header, or open with a one-byte field code.
pub fn parse_qif(content: &[u8]) -> (r: Result<QifParseResult, ImportError>)
    requires
        qif_lines_ok(lines(utf8_lossy(content@))),
    ensures
        qif_result_view(r) == parse_qif_spec(content@),
{
    let owned_lines = decoded_lines(content);
    if owned_lines.len() == 0 {
        return Err(ImportError::InvalidInput(owned("QIF file is empty")));
    }
    let ls = borrow_all(&owned_lines);
    let account_type = detect_account_type(ls.as_slice());
    let mut errors: Vec<String> = Vec::new();
    let transactions = parse_qif_transactions(ls.as_slice(), &mut errors);
    assert(str_views(errors@) =~= qif_errors(qif_txs_view(transactions@)));
    Ok(QifParseResult { account_type, transactions, errors })
}

fn qif_line_ok_exec(raw: &[char]) -> (r: bool)
    ensures
        r == qif_line_ok(raw@),
{
    let line = trim_chars(raw);
    line.len() == 0 || line[0] == '!' || (line[0] as u32) < 128
}

/// Reads a QIF statement when every line can be read (see `parse_qif`);
/// nothing when a line, once trimmed, opens with a character that is
/// neither `!` nor ASCII.
pub fn try_parse_qif(content: &[u8]) -> (r: Option<Result<QifParseResult, ImportError>>)
    ensures
        match r {
            Some(x) => qif_lines_ok(lines(utf8_lossy(content@))) && qif_result_view(x)
                == parse_qif_spec(content@),
            None => !qif_lines_ok(lines(utf8_lossy(content@))),
        },
{
    let ls = decoded_lines(content);
    let ghost all = str_views(ls@);
    let mut i: usize = 0;
    while i < ls.len()
        invariant
            i <= ls@.len(),
            all == str_views(ls@),
            all == lines(utf8_lossy(content@)),
            forall|k: int| 0 <= k < i ==> qif_line_ok(#[trigger] all[k]),
        decreases ls@.len() - i,
    {
        let lc = chars_of(ls[i].as_str());
        assert(lc@ == all[i as int]);
        if !qif_line_ok_exec(lc.as_slice()) {
            assert(!qif_line_ok(all[i as int]));
            return None;
        }
        i = i + 1;
    }
    Some(parse_qif(content))
}

/// `QIF|{account type}|{date}|{amount:.2}|{payee or nothing}`.
pub open spec fn qif_key_text(
    account_type: Seq<char>,
    date: Seq<char>,
    amount: AmountV,
    payee: Seq<char>,
) -> Seq<char> {
    "QIF|"@ + account_type + "|"@ + date + "|"@ + fixed2_spec(amount) + "|"@ + payee
}

pub open spec fn payee_or_empty(payee: Option<&str>) -> Seq<char> {
    match payee {
        Some(p) => p@,
        None => seq![],
    }
}

/// The idempotency key of a QIF transaction: the SHA-256 fingerprint, in
/// lower-case hex, of its key text (see `qif_key_text`).
pub fn generate_qif_idempotency_key(
    account_type: &str,
    date: &str,
    amount: &Amount,
    payee: Option<&str>,
) -> (r: String)
    ensures
        r@ == sha256_hex_spec(qif_key_text(account_type@, date@, amount@, payee_or_empty(payee))),
        r@.len() == 64,
{
    let mut t = chars_of("QIF|");
    push_str(&mut t, account_type);
    push_str(&mut t, "|");
    push_str(&mut t, date);
    push_str(&mut t, "|");
    let f = amount.fixed2_chars();
    push_all(&mut t, f.as_slice());
    push_str(&mut t, "|");
    match payee {
        Some(p) => push_str(&mut t, p),
        None => {},
    }
    assert(t@ =~= qif_key_text(account_type@, date@, amount@, payee_or_empty(payee)));
    let h = sha256_hex(t.as_slice());
    string_of(h.as_slice())
}

/// A line that opens a transaction: once trimmed, it starts with `D`.
pub open spec fn is_date_line(raw: Seq<char>) -> bool {
    let line = trim(raw);
    line.len() > 0 && line[0] == 'D'
}

/// The number of lines that open a transaction.
pub open spec fn count_date_lines(ls: Seq<Seq<char>>) -> nat
    decreases ls.len(),
{
    if ls.len() == 0 {
        0
    } else {
        count_date_lines(ls.drop_last()) + if is_date_line(ls.last()) {
            1nat
        } else {
            0nat
        }
    }
}

proof fn lemma_qif_fold_count(ls: Seq<Seq<char>>)
    ensures
        qif_fold(ls).txs.len() + (if qif_fold(ls).cur is Some {
            1nat
        } else {
            0nat
        }) == count_date_lines(ls),
        qif_fold(ls).cur matches Some(b) ==> b.date is Some,
    decreases ls.len(),
{
    if ls.len() > 0 {
        lemma_qif_fold_count(ls.drop_last());
    }
}

/// Each transaction of a QIF statement is opened by a `D` line: there are
/// as many transactions as lines that start with `D`.
pub proof fn law_qif_one_transaction_per_date_line(ls: Seq<Seq<char>>)
    ensures
        qif_transactions_spec(ls).len() == count_date_lines(ls),
{
    lemma_qif_fold_count(ls);
}


/// A `C` line with the mark `*`, `x` or `X` marks the transaction being
/// read as cleared, and any other ASCII value as not cleared; the other
/// fields stay as they were.
pub proof fn law_qif_cleared_mark(b: QifBuilderV, value: Seq<char>)
    requires
        is_ascii_seq(value),
    ensures
        qif_set_field(b, 'C', value).cleared == (value == "*"@ || value == "x"@ || value == "X"@),
        qif_set_field(b, 'C', value).date == b.date,
        qif_set_field(b, 'C', value).amount == b.amount,
        qif_set_field(b, 'C', value).payee == b.payee,
        qif_set_field(b, 'C', value).memo == b.memo,
        qif_set_field(b, 'C', value).reference == b.reference,
        qif_set_field(b, 'C', value).category == b.category,
{
    reveal_strlit("*");
    reveal_strlit("x");
    reveal_strlit("X");
    let l = ascii_lower(value);
    assert(l.len() == value.len());
    if value.len() == 1 {
        assert(l[0] == ascii_lower_char(value[0]));
        let v = value[0] as u32;
        if 65 <= v <= 90 {
            assert(l[0] as u32 == v + 32);
        } else {
            assert(l[0] == value[0]);
        }
        if value[0] == 'x' || value[0] == 'X' {
            assert(l =~= "x"@);
        }
        if value[0] == '*' {
            assert(l =~= "*"@);
        }
        if l =~= "x"@ {
            assert(l[0] == 'x');
            assert((l[0] as u32) == 120);
            if 65 <= v <= 90 {
                assert(v == 88);
                vstd::utf8::char_u32_cast(value[0], 88);
                vstd::utf8::char_u32_cast('X', 88);
                assert(value[0] == 'X');
            } else {
                assert(value[0] == 'x');
            }
            assert(value =~= "x"@ || value =~= "X"@);
        }
        if l =~= "*"@ {
            assert(value =~= "*"@);
        }
    } else {
        assert(l.len() != 1);
    }
}

/// A `P`, `M`, `N` or `L` line sets the payee, memo, reference or category
/// of the transaction being read to its value, and nothing else; `T` and
/// `U` lines set only the amount, both alike.
pub proof fn law_qif_text_fields(b: QifBuilderV, value: Seq<char>)
    ensures
        qif_set_field(b, 'P', value) == (QifBuilderV { payee: Some(value), ..b }),
        qif_set_field(b, 'M', value) == (QifBuilderV { memo: Some(value), ..b }),
        qif_set_field(b, 'N', value) == (QifBuilderV { reference: Some(value), ..b }),
        qif_set_field(b, 'L', value) == (QifBuilderV { category: Some(value), ..b }),
        qif_set_field(b, 'T', value) == qif_set_field(b, 'U', value),
        qif_set_field(b, 'T', value) == (QifBuilderV {
            amount: qif_set_field(b, 'T', value).amount,
            ..b
        }),
{
}

/// The key text of a QIF transaction tells apart transactions that differ
/// in one of its fields: the account type, the date, the amount to the cent
/// or the payee.
pub proof fn law_qif_key_text_separates_fields(
    account_type: Seq<char>,
    date: Seq<char>,
    amount: AmountV,
    payee: Seq<char>,
    account_type_2: Seq<char>,
    date_2: Seq<char>,
    amount_2: AmountV,
    payee_2: Seq<char>,
)
    ensures
        account_type != account_type_2 ==> qif_key_text(account_type, date, amount, payee) != qif_key_text(account_type_2, date, amount, payee),
        date != date_2 ==> qif_key_text(account_type, date, amount, payee) != qif_key_text(account_type, date_2, amount, payee),
        fixed2_spec(amount) != fixed2_spec(amount_2) ==> qif_key_text(account_type, date, amount, payee) != qif_key_text(account_type, date, amount_2, payee),
        payee != payee_2 ==> qif_key_text(account_type, date, amount, payee) != qif_key_text(account_type, date, amount, payee_2),
{
    let bar = "|"@;
    assert(qif_key_text(account_type, date, amount, payee) =~= "QIF|"@ + account_type + (bar + date + bar + fixed2_spec(amount) + bar + payee + Seq::<char>::empty()));
    assert(qif_key_text(account_type_2, date, amount, payee) =~= "QIF|"@ + account_type_2 + (bar + date + bar + fixed2_spec(amount) + bar + payee + Seq::<char>::empty()));
    lemma_middle_injective("QIF|"@, account_type, account_type_2, (bar + date + bar + fixed2_spec(amount) + bar + payee + Seq::<char>::empty()));
    assert(qif_key_text(account_type, date, amount, payee) =~= "QIF|"@ + account_type + bar + date + (bar + fixed2_spec(amount) + bar + payee + Seq::<char>::empty()));
    assert(qif_key_text(account_type, date_2, amount, payee) =~= "QIF|"@ + account_type + bar + date_2 + (bar + fixed2_spec(amount) + bar + payee + Seq::<char>::empty()));
    lemma_middle_injective("QIF|"@ + account_type + bar, date, date_2, (bar + fixed2_spec(amount) + bar + payee + Seq::<char>::empty()));
    assert(qif_key_text(account_type, date, amount, payee) =~= "QIF|"@ + account_type + bar + date + bar + fixed2_spec(amount) + (bar + payee + Seq::<char>::empty()));
    assert(qif_key_text(account_type, date, amount_2, payee) =~= "QIF|"@ + account_type + bar + date + bar + fixed2_spec(amount_2) + (bar + payee + Seq::<char>::empty()));
    lemma_middle_injective("QIF|"@ + account_type + bar + date + bar, fixed2_spec(amount), fixed2_spec(amount_2), (bar + payee + Seq::<char>::empty()));
    assert(qif_key_text(account_type, date, amount, payee) =~= "QIF|"@ + account_type + bar + date + bar + fixed2_spec(amount) + bar + payee + (Seq::<char>::empty()));
    assert(qif_key_text(account_type, date, amount, payee_2) =~= "QIF|"@ + account_type + bar + date + bar + fixed2_spec(amount) + bar + payee_2 + (Seq::<char>::empty()));
    lemma_middle_injective("QIF|"@ + account_type + bar + date + bar + fixed2_spec(amount) + bar, payee, payee_2, (Seq::<char>::empty()));
}

} // verus!
