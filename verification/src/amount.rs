//! Monetary amounts as the exact decimal values written in statements.
//!
//! Statement files write amounts as decimal text. An [`Amount`] holds the
//! value such a text denotes: its sign, its significant digits and where the
//! decimal point falls, or one of the special values that Rust's float
//! syntax admits (`inf`, `infinity`, `nan`). The text syntax accepted by
//! [`parse_float`] is that of `f64::from_str`. A magnitude that a float
//! rounds to infinity (from `2^1024 - 2^970` on) is infinite, and one that
//! it rounds to zero (up to `2^-1075`) is zero.
//!
//! The value is kept exactly; it is not rounded to the nearest float. The
//! renderings [`display_spec`] and [`fixed2_spec`] are those of the exact
//! decimal value. They agree with `Display` and `{:.2}` of a float only
//! where the value is one that a float holds: `1.015` is rendered `1.015`
//! and, to two places, `1.02`, where the float nearest to it (just below)
//! gives `1.01`.

use vstd::prelude::*;
use crate::text::{
    all_ascii_digits, all_ascii_digits_exec, ascii_lower, ascii_lower_exec, chars_of, copy_range, digits_value,
    digit_char, eq_str, find, find_char_exec, lemma_find_from_bounds, string_of,
};

verus! {

/// The bound at which exponents written in a number are saturated.
pub const EXP_BOUND: i64 = 1_000_000_000;

/// The representation of an amount: a decimal value
/// `0.d1 d2 ... dn * 10^point` with its sign, or an infinity, or
/// not-a-number.
#[derive(Debug)]
pub enum AmountRepr {
    Finite { negative: bool, digits: Vec<u8>, point: i64 },
    Infinite { negative: bool },
    NotANumber,
}

/// An amount in its normal form (see [`AmountV::wf`]).
#[derive(Debug)]
pub struct Amount {
    repr: AmountRepr,
}

/// The mathematical content of an [`Amount`].
pub enum AmountV {
    Finite { negative: bool, digits: Seq<u8>, point: int },
    Infinite { negative: bool },
    NotANumber,
}

impl View for Amount {
    type V = AmountV;

    closed spec fn view(&self) -> AmountV {
        match self.repr {
            AmountRepr::Finite { negative, digits, point } => AmountV::Finite {
                negative: negative,
                digits: digits@,
                point: point as int,
            },
            AmountRepr::Infinite { negative } => AmountV::Infinite { negative: negative },
            AmountRepr::NotANumber => AmountV::NotANumber,
        }
    }
}

pub open spec fn all_decimal_digits(d: Seq<u8>) -> bool {
    forall|i: int| 0 <= i < d.len() ==> #[trigger] d[i] < 10
}

impl AmountV {
    /// The normal form: digits are decimal digits without leading or
    /// trailing zeros, zero has point 0, and the magnitude is in the range
    /// that a float can hold.
    pub open spec fn wf(self) -> bool {
        match self {
            AmountV::Finite { negative, digits, point } => {
                &&& all_decimal_digits(digits)
                &&& digits.len() > 0 ==> digits[0] != 0 && digits.last() != 0
                &&& digits.len() > 0 ==> -323 <= point <= 309
                &&& digits.len() == 0 ==> point == 0
            },
            _ => true,
        }
    }

    pub open spec fn is_zero(self) -> bool {
        self matches AmountV::Finite { digits, .. } && digits.len() == 0
    }

    /// The value is greater than zero.
    pub open spec fn is_positive(self) -> bool {
        match self {
            AmountV::Finite { negative, digits, .. } => !negative && digits.len() > 0,
            AmountV::Infinite { negative } => !negative,
            AmountV::NotANumber => false,
        }
    }

    /// The value is less than zero.
    pub open spec fn is_negative(self) -> bool {
        match self {
            AmountV::Finite { negative, digits, .. } => negative && digits.len() > 0,
            AmountV::Infinite { negative } => negative,
            AmountV::NotANumber => false,
        }
    }

    /// The same value with the given sign (not-a-number has none).
    pub open spec fn with_sign(self, negative: bool) -> AmountV {
        match self {
            AmountV::Finite { digits, point, .. } => AmountV::Finite { negative, digits, point },
            AmountV::Infinite { .. } => AmountV::Infinite { negative },
            AmountV::NotANumber => AmountV::NotANumber,
        }
    }

    /// `abs`.
    pub open spec fn abs(self) -> AmountV {
        self.with_sign(false)
    }

    /// `-abs`.
    pub open spec fn neg_abs(self) -> AmountV {
        self.with_sign(true)
    }
}

impl Amount {
    #[verifier::type_invariant]
    pub closed spec fn inv(self) -> bool {
        self@.wf()
    }
}

/// Positive zero.
pub open spec fn zero_v() -> AmountV {
    AmountV::Finite { negative: false, digits: seq![], point: 0 }
}

impl Amount {
    pub fn zero() -> (r: Amount)
        ensures
            r@ == zero_v(),
    {
        Amount { repr: AmountRepr::Finite { negative: false, digits: Vec::new(), point: 0 } }
    }

    pub fn is_zero(&self) -> (r: bool)
        ensures
            r == self@.is_zero(),
    {
        proof {
            use_type_invariant(self);
        }
        match &self.repr {
            AmountRepr::Finite { digits, .. } => digits.len() == 0,
            _ => false,
        }
    }

    pub fn is_positive(&self) -> (r: bool)
        ensures
            r == self@.is_positive(),
    {
        proof {
            use_type_invariant(self);
        }
        match &self.repr {
            AmountRepr::Finite { negative, digits, .. } => !*negative && digits.len() > 0,
            AmountRepr::Infinite { negative } => !*negative,
            AmountRepr::NotANumber => false,
        }
    }

    pub fn is_negative(&self) -> (r: bool)
        ensures
            r == self@.is_negative(),
    {
        proof {
            use_type_invariant(self);
        }
        match &self.repr {
            AmountRepr::Finite { negative, digits, .. } => *negative && digits.len() > 0,
            AmountRepr::Infinite { negative } => *negative,
            AmountRepr::NotANumber => false,
        }
    }

    pub fn with_sign(&self, negative: bool) -> (r: Amount)
        ensures
            r@ == self@.with_sign(negative),
    {
        proof {
            use_type_invariant(self);
        }
        match &self.repr {
            AmountRepr::Finite { digits, point, .. } => Amount {
                repr: AmountRepr::Finite { negative, digits: digits.clone(), point: *point },
            },
            AmountRepr::Infinite { .. } => Amount { repr: AmountRepr::Infinite { negative } },
            AmountRepr::NotANumber => Amount { repr: AmountRepr::NotANumber },
        }
    }

    /// A copy of this amount.
    pub fn duplicate(&self) -> (r: Amount)
        ensures
            r@ == self@,
    {
        proof {
            use_type_invariant(self);
        }
        match &self.repr {
            AmountRepr::Finite { negative, .. } => self.with_sign(*negative),
            AmountRepr::Infinite { negative } => Amount {
                repr: AmountRepr::Infinite { negative: *negative },
            },
            AmountRepr::NotANumber => Amount { repr: AmountRepr::NotANumber },
        }
    }

    pub fn is_finite(&self) -> (r: bool)
        ensures
            r == (self@ is Finite),
    {
        proof {
            use_type_invariant(self);
        }
        match &self.repr {
            AmountRepr::Finite { .. } => true,
            _ => false,
        }
    }

    pub fn abs(&self) -> (r: Amount)
        ensures
            r@ == self@.abs(),
    {
        self.with_sign(false)
    }

    pub fn neg_abs(&self) -> (r: Amount)
        ensures
            r@ == self@.neg_abs(),
    {
        self.with_sign(true)
    }
}


/// The first index at or after `i` of an exponent marker `e` or `E`.
pub open spec fn find_exp_marker(s: Seq<char>, i: int) -> Option<int>
    decreases s.len() - i,
{
    if i < 0 || i >= s.len() {
        None
    } else if s[i] == 'e' || s[i] == 'E' {
        Some(i)
    } else {
        find_exp_marker(s, i + 1)
    }
}

/// One for a leading `+` or `-`, else zero.
pub open spec fn sign_len(s: Seq<char>) -> int {
    if s.len() > 0 && (s[0] == '+' || s[0] == '-') {
        1
    } else {
        0
    }
}

/// ASCII digit characters as digit values.
pub open spec fn digit_values(s: Seq<char>) -> Seq<u8> {
    s.map_values(|c: char| ((c as u32) - 48) as u8)
}

/// The mantissa `Digit+ | Digit+ '.' Digit* | Digit* '.' Digit+`: its digits
/// and how many of them stand before the point.
pub open spec fn parse_mantissa(m: Seq<char>) -> Option<(Seq<u8>, int)> {
    match find(m, seq!['.']) {
        Some(j) => {
            let a = m.subrange(0, j);
            let b = m.subrange(j + 1, m.len() as int);
            if all_ascii_digits(a) && all_ascii_digits(b) && a.len() + b.len() > 0 {
                Some((digit_values(a + b), a.len() as int))
            } else {
                None
            }
        },
        None => if m.len() > 0 && all_ascii_digits(m) {
            Some((digit_values(m), m.len() as int))
        } else {
            None
        },
    }
}

/// The exponent `Sign? Digit+`, saturated at `EXP_BOUND`.
pub open spec fn parse_exponent(t: Seq<char>) -> Option<int> {
    let u = t.subrange(sign_len(t), t.len() as int);
    if u.len() > 0 && all_ascii_digits(u) {
        let v = if digits_value(u) > EXP_BOUND {
            EXP_BOUND as int
        } else {
            digits_value(u) as int
        };
        Some(if t[0] == '-' { -v } else { v })
    } else {
        None
    }
}

/// A number `Mantissa ('e' Exponent)?` (the marker in either case): its
/// digits and the position of the point after the exponent is applied.
pub open spec fn parse_number(body: Seq<char>) -> Option<(Seq<u8>, int)> {
    let (m, e) = match find_exp_marker(body, 0) {
        Some(i) => (body.subrange(0, i), parse_exponent(body.subrange(i + 1, body.len() as int))),
        None => (body, Some(0int)),
    };
    match (parse_mantissa(m), e) {
        (Some((d, before)), Some(x)) => Some((d, before + x)),
        _ => None,
    }
}

/// How many zeros `d` starts with.
pub open spec fn leading_zeros(d: Seq<u8>) -> nat
    decreases d.len(),
{
    if d.len() > 0 && d[0] == 0 {
        1 + leading_zeros(d.drop_first())
    } else {
        0
    }
}

/// `d` without its trailing zeros.
pub open spec fn strip_trailing_zeros(d: Seq<u8>) -> Seq<u8>
    decreases d.len(),
{
    if d.len() > 0 && d.last() == 0 {
        strip_trailing_zeros(d.drop_last())
    } else {
        d
    }
}

/// The significant digits of `2^1024 - 2^970`, the least magnitude that
/// `f64::from_str` rounds to infinity: `0.d * 10^309`.
pub const F64_OVERFLOW_DIGITS: &'static str = "1797693134862315807937289714053034150799341327100378269361737789804449\
    6829276475094664901797758720709633028641669288791094655554785194040263\
    0657488671505820681908902000708383676273854845817711531764475730270069\
    8555713669596228429148198608349364752927190741684443655107043427115596\
    99508093042880177904174497792";

/// The significant digits of `2^-1075`, the greatest magnitude that
/// `f64::from_str` rounds to zero: `0.d * 10^-323`.
pub const F64_UNDERFLOW_DIGITS: &'static str = "2470328229206232720882843964341106861825299013071623822127928412503377\
    5363510437593264991818081799618989828234772285886546332835517796989819\
    9387398005390939063150356595155702263922908583924491051844359318028499\
    3653615250031937045767824921936562366986365848075700158576926990370631\
    1928279558551332927834338409351978015531246597263579574622766465272827\
    2200563740064854999770965994704540208281662262378573934507363390079677\
    6193057750674017632467360096895134053553745851666113422376667860416215\
    9680461914467291840300530057530849048765391711386591646239524912623653\
    8818796362393732804238910186723484976682350898633885879256283027559956\
    5752445550725518931369083625477918694866799496832404970582102851318545\
    1396213837722826145437693412532098591327667236328125";

/// The `i`-th digit of `s`, zero past its end.
pub open spec fn digit_or_zero(s: Seq<int>, i: int) -> int {
    if 0 <= i < s.len() {
        s[i]
    } else {
        0
    }
}

/// `0.a <= 0.b` for decimal fractions given by their digits, compared digit
/// by digit from index `i` on.
pub open spec fn frac_le_from(a: Seq<int>, b: Seq<int>, i: int) -> bool
    decreases (if a.len() > b.len() {
        a.len()
    } else {
        b.len()
    }) - i,
{
    if i < 0 || (i >= a.len() && i >= b.len()) {
        true
    } else if digit_or_zero(a, i) < digit_or_zero(b, i) {
        true
    } else if digit_or_zero(a, i) > digit_or_zero(b, i) {
        false
    } else {
        frac_le_from(a, b, i + 1)
    }
}

/// `0.a <= 0.b` for decimal fractions given by their digits.
pub open spec fn frac_le(a: Seq<int>, b: Seq<int>) -> bool {
    frac_le_from(a, b, 0)
}

/// Digit values as integers.
pub open spec fn digit_ints(d: Seq<u8>) -> Seq<int> {
    d.map_values(|x: u8| x as int)
}

/// The values of ASCII digit characters.
pub open spec fn text_digit_ints(s: Seq<char>) -> Seq<int> {
    s.map_values(|c: char| (c as u32) - 48)
}

/// The normal form of `0.d * 10^point` with the given sign: infinite from
/// the magnitude at which a float overflows, zero up to the magnitude at
/// which it underflows.
pub open spec fn normalize(negative: bool, d: Seq<u8>, point: int) -> AmountV {
    let k = leading_zeros(d);
    let sig = strip_trailing_zeros(d.subrange(k as int, d.len() as int));
    let p = point - k;
    if sig.len() == 0 {
        AmountV::Finite { negative, digits: seq![], point: 0 }
    } else if p > 309 || (p == 309 && frac_le(
        text_digit_ints(F64_OVERFLOW_DIGITS@),
        digit_ints(sig),
    )) {
        AmountV::Infinite { negative }
    } else if p < -323 || (p == -323 && frac_le(
        digit_ints(sig),
        text_digit_ints(F64_UNDERFLOW_DIGITS@),
    )) {
        AmountV::Finite { negative, digits: seq![], point: 0 }
    } else {
        AmountV::Finite { negative, digits: sig, point: p }
    }
}

/// `f64::from_str` read exactly: `Sign? ('inf' | 'infinity' | 'nan' |
/// Number)`, the words in any case, with no surrounding white space.
pub open spec fn parse_float_spec(s: Seq<char>) -> Option<AmountV> {
    let negative = s.len() > 0 && s[0] == '-';
    let body = s.subrange(sign_len(s), s.len() as int);
    let low = ascii_lower(body);
    if low == seq!['i', 'n', 'f'] || low == seq!['i', 'n', 'f', 'i', 'n', 'i', 't', 'y'] {
        Some(AmountV::Infinite { negative })
    } else if low == seq!['n', 'a', 'n'] {
        Some(AmountV::NotANumber)
    } else {
        match parse_number(body) {
            Some((d, point)) => Some(normalize(negative, d, point)),
            None => None,
        }
    }
}

pub open spec fn opt_view(r: Option<Amount>) -> Option<AmountV> {
    match r {
        Some(a) => Some(a@),
        None => None,
    }
}


fn find_exp_marker_exec(s: &[char]) -> (r: Option<usize>)
    ensures
        match r {
            Some(i) => find_exp_marker(s@, 0) == Some(i as int),
            None => find_exp_marker(s@, 0) is None,
        },
{
    let mut i: usize = 0;
    while i < s.len()
        invariant
            i <= s@.len(),
            find_exp_marker(s@, 0) == find_exp_marker(s@, i as int),
        decreases s@.len() - i,
    {
        if s[i] == 'e' || s[i] == 'E' {
            return Some(i);
        }
        i = i + 1;
    }
    None
}

fn digit_values_exec(s: &[char], from: usize, to: usize, out: &mut Vec<u8>)
    requires
        from <= to <= s@.len(),
        all_ascii_digits(s@.subrange(from as int, to as int)),
    ensures
        final(out)@ == old(out)@ + digit_values(s@.subrange(from as int, to as int)),
{
    let ghost o = out@;
    let mut i: usize = from;
    while i < to
        invariant
            from <= i <= to <= s@.len(),
            all_ascii_digits(s@.subrange(from as int, to as int)),
            out@ == o + digit_values(s@.subrange(from as int, i as int)),
        decreases to - i,
    {
        assert(s@.subrange(from as int, to as int)[i - from] == s@[i as int]);
        assert(super::text::is_ascii_digit(s@[i as int]));
        let u = s[i] as u32;
        let d: u8 = (u - 48) as u8;
        out.push(d);
        assert(out@ =~= o + digit_values(s@.subrange(from as int, i + 1)));
        i = i + 1;
    }
}

/// `parse_mantissa`: the digits and how many stand before the point.
fn parse_mantissa_exec(m: &[char]) -> (r: Option<(Vec<u8>, usize)>)
    ensures
        match r {
            Some((d, before)) => parse_mantissa(m@) == Some((d@, before as int)),
            None => parse_mantissa(m@) is None,
        },
{
    match find_char_exec(m, '.') {
        Some(j) => {
            proof {
                lemma_find_from_bounds(m@, seq!['.'], 0);
            }
            let n = m.len();
            assert(j < n);
            let ok = all_ascii_digits_exec(m, 0, j) && all_ascii_digits_exec(m, j + 1, m.len()) && (
            j > 0 || j + 1 < m.len());
            if ok {
                let mut d: Vec<u8> = Vec::new();
                digit_values_exec(m, 0, j, &mut d);
                digit_values_exec(m, j + 1, m.len(), &mut d);
                assert(d@ =~= digit_values(
                    m@.subrange(0, j as int) + m@.subrange(j + 1, m@.len() as int),
                ));
                Some((d, j))
            } else {
                None
            }
        },
        None => {
            if m.len() > 0 && all_ascii_digits_exec(m, 0, m.len()) {
                let mut d: Vec<u8> = Vec::new();
                digit_values_exec(m, 0, m.len(), &mut d);
                assert(m@.subrange(0, m@.len() as int) =~= m@);
                assert(d@ =~= digit_values(m@));
                Some((d, m.len()))
            } else {
                assert(m@.subrange(0, m@.len() as int) =~= m@);
                None
            }
        },
    }
}

proof fn lemma_digits_value_step(u: Seq<char>, i: int)
    requires
        0 <= i < u.len(),
    ensures
        digits_value(u.subrange(0, i + 1)) == digits_value(u.subrange(0, i)) * 10 + ((u[i] as u32)
            - 48) as nat,
{
    assert(u.subrange(0, i + 1).drop_last() =~= u.subrange(0, i));
}

/// `parse_exponent` on `t[from..]`.
fn parse_exponent_exec(t: &[char], from: usize) -> (r: Option<i64>)
    requires
        from <= t@.len(),
    ensures
        match r {
            Some(x) => parse_exponent(t@.subrange(from as int, t@.len() as int)) == Some(
                x as int,
            ),
            None => parse_exponent(t@.subrange(from as int, t@.len() as int)) is None,
        },
{
    let ghost tt = t@.subrange(from as int, t@.len() as int);
    let has_sign = from < t.len() && (t[from] == '+' || t[from] == '-');
    let start: usize = if has_sign {
        from + 1
    } else {
        from
    };
    let ghost u = tt.subrange(super::amount::sign_len(tt), tt.len() as int);
    assert(u =~= t@.subrange(start as int, t@.len() as int));
    if start >= t.len() || !all_ascii_digits_exec(t, start, t.len()) {
        return None;
    }
    let mut v: i64 = 0;
    let mut i: usize = start;
    assert(u.subrange(0, 0) =~= Seq::<char>::empty());
    while i < t.len()
        invariant
            start <= i <= t@.len(),
            u == t@.subrange(start as int, t@.len() as int),
            all_ascii_digits(u),
            0 <= v <= EXP_BOUND,
            v == (if digits_value(u.subrange(0, i - start)) > EXP_BOUND {
                EXP_BOUND as int
            } else {
                digits_value(u.subrange(0, i - start)) as int
            }),
        decreases t@.len() - i,
    {
        proof {
            lemma_digits_value_step(u, i - start);
            assert(u[i - start] == t@[i as int]);
            assert(super::text::is_ascii_digit(u[i - start]));
        }
        let d = (t[i] as u32 - 48) as i64;
        let w = v * 10 + d;
        v = if w > EXP_BOUND {
            EXP_BOUND
        } else {
            w
        };
        i = i + 1;
    }
    assert(u.subrange(0, u.len() as int) =~= u);
    if t[from] == '-' {
        Some(-v)
    } else {
        Some(v)
    }
}

/// `parse_number`: the digits and the point position (as a wide integer).
fn parse_number_exec(body: &[char]) -> (r: Option<(Vec<u8>, i128)>)
    requires
        body@.len() < 0x1_0000_0000_0000_0000,
    ensures
        match r {
            Some((d, p)) => parse_number(body@) == Some((d@, p as int)),
            None => parse_number(body@) is None,
        },
{
    match find_exp_marker_exec(body) {
        Some(i) => {
            proof {
                lemma_find_exp_marker_bounds(body@, 0);
            }
            let n = body.len();
            assert(i < n);
            let m = copy_range(body, 0, i);
            let e = parse_exponent_exec(body, i + 1);
            let pm = parse_mantissa_exec(m.as_slice());
            match (pm, e) {
                (Some((d, before)), Some(x)) => {
                    Some((d, before as i128 + x as i128))
                },
                _ => None,
            }
        },
        None => {
            let pm = parse_mantissa_exec(body);
            match pm {
                Some((d, before)) => Some((d, before as i128)),
                None => None,
            }
        },
    }
}

proof fn lemma_find_exp_marker_bounds(s: Seq<char>, i: int)
    ensures
        find_exp_marker(s, i) matches Some(j) ==> i <= j < s.len(),
    decreases s.len() - i,
{
    if 0 <= i < s.len() && !(s[i] == 'e' || s[i] == 'E') {
        lemma_find_exp_marker_bounds(s, i + 1);
    }
}


/// The elements `s[i..j]` as a vector.
pub fn subvec<T: Copy>(s: &[T], i: usize, j: usize) -> (r: Vec<T>)
    requires
        i <= j <= s@.len(),
    ensures
        r@ == s@.subrange(i as int, j as int),
{
    let mut r: Vec<T> = Vec::new();
    let mut k: usize = i;
    while k < j
        invariant
            i <= k <= j <= s@.len(),
            r@ == s@.subrange(i as int, k as int),
        decreases j - k,
    {
        r.push(s[k]);
        assert(r@ =~= s@.subrange(i as int, k + 1));
        k = k + 1;
    }
    r
}

/// Compares the fraction of the digit characters `t` with that of the
/// digits `d`: `0.t <= 0.d` when `text_first`, else `0.d <= 0.t`.
fn frac_le_exec(t: &[char], d: &[u8], text_first: bool) -> (r: bool)
    requires
        all_decimal_digits(d@),
    ensures
        r == (if text_first {
            frac_le(text_digit_ints(t@), digit_ints(d@))
        } else {
            frac_le(digit_ints(d@), text_digit_ints(t@))
        }),
{
    let ghost tv = text_digit_ints(t@);
    let ghost dv = digit_ints(d@);
    let n: usize = if t.len() > d.len() {
        t.len()
    } else {
        d.len()
    };
    let mut i: usize = 0;
    while i < n
        invariant
            i <= n,
            n == (if t@.len() > d@.len() {
                t@.len()
            } else {
                d@.len()
            }),
            all_decimal_digits(d@),
            tv == text_digit_ints(t@),
            dv == digit_ints(d@),
            frac_le(tv, dv) == frac_le_from(tv, dv, i as int),
            frac_le(dv, tv) == frac_le_from(dv, tv, i as int),
        decreases n - i,
    {
        let x: u32 = if i < t.len() {
            t[i] as u32
        } else {
            48
        };
        let y: u32 = if i < d.len() {
            assert(d@[i as int] < 10);
            d[i] as u32 + 48
        } else {
            48
        };
        assert(digit_or_zero(tv, i as int) == x - 48);
        assert(digit_or_zero(dv, i as int) == y - 48);
        if x < y {
            return text_first;
        }
        if x > y {
            return !text_first;
        }
        i = i + 1;
    }
    true
}

/// `normalize` of digits that are all decimal digits.
fn normalize_exec(negative: bool, d: Vec<u8>, point: i128) -> (r: Amount)
    requires
        all_decimal_digits(d@),
        -0x1_0000_0000_0000_0000_0000 < point < 0x1_0000_0000_0000_0000_0000,
    ensures
        r@ == normalize(negative, d@, point as int),
{
    let n = d.len();
    let mut k: usize = 0;
    assert(d@.subrange(0, n as int) =~= d@);
    while k < n && d[k] == 0
        invariant
            k <= n,
            n == d@.len(),
            leading_zeros(d@) == k + leading_zeros(d@.subrange(k as int, n as int)),
        decreases n - k,
    {
        assert(d@.subrange(k as int, n as int).drop_first() =~= d@.subrange(k + 1, n as int));
        k = k + 1;
    }
    assert(leading_zeros(d@.subrange(k as int, n as int)) == 0);
    let mut e: usize = n;
    while e > k && d[e - 1] == 0
        invariant
            k <= e <= n,
            n == d@.len(),
            strip_trailing_zeros(d@.subrange(k as int, n as int)) == strip_trailing_zeros(
                d@.subrange(k as int, e as int),
            ),
        decreases e,
    {
        assert(d@.subrange(k as int, e as int).drop_last() =~= d@.subrange(k as int, e - 1));
        e = e - 1;
    }
    let ghost sig = d@.subrange(k as int, e as int);
    assert(strip_trailing_zeros(sig) == sig);
    if e == k {
        return Amount { repr: AmountRepr::Finite { negative, digits: Vec::new(), point: 0 } };
    }
    let p: i128 = point - k as i128;
    let digits = subvec(d.as_slice(), k, e);
    if p > 309 {
        return Amount { repr: AmountRepr::Infinite { negative } };
    }
    if p == 309 {
        let t = chars_of(F64_OVERFLOW_DIGITS);
        if frac_le_exec(t.as_slice(), digits.as_slice(), true) {
            return Amount { repr: AmountRepr::Infinite { negative } };
        }
    }
    if p < -323 {
        return Amount { repr: AmountRepr::Finite { negative, digits: Vec::new(), point: 0 } };
    }
    if p == -323 {
        let t = chars_of(F64_UNDERFLOW_DIGITS);
        if frac_le_exec(t.as_slice(), digits.as_slice(), false) {
            return Amount { repr: AmountRepr::Finite { negative, digits: Vec::new(), point: 0 } };
        }
    }
    assert(digits@[0] == d@[k as int]);
    assert(digits@.last() == d@[e - 1]);
    Amount { repr: AmountRepr::Finite { negative, digits, point: p as i64 } }
}

/// Reads an amount written in the syntax of `f64::from_str`.
pub fn parse_float(s: &[char]) -> (r: Option<Amount>)
    ensures
        opt_view(r) == parse_float_spec(s@),
{
    let negative = s.len() > 0 && s[0] == '-';
    let st: usize = if s.len() > 0 && (s[0] == '+' || s[0] == '-') {
        1
    } else {
        0
    };
    let body = copy_range(s, st, s.len());
    let low = ascii_lower_exec(body.as_slice());
    proof {
        reveal_strlit("inf");
        reveal_strlit("infinity");
        reveal_strlit("nan");
        assert("inf"@ =~= seq!['i', 'n', 'f']);
        assert("infinity"@ =~= seq!['i', 'n', 'f', 'i', 'n', 'i', 't', 'y']);
        assert("nan"@ =~= seq!['n', 'a', 'n']);
    }
    if eq_str(low.as_slice(), "inf") || eq_str(low.as_slice(), "infinity") {
        return Some(Amount { repr: AmountRepr::Infinite { negative } });
    }
    if eq_str(low.as_slice(), "nan") {
        return Some(Amount { repr: AmountRepr::NotANumber });
    }
    let bl = body.len();
    match parse_number_exec(body.as_slice()) {
        Some((d, p)) => {
            proof {
                lemma_parse_number_facts(body@);
            }
            Some(normalize_exec(negative, d, p))
        },
        None => None,
    }
}

proof fn lemma_parse_number_facts(body: Seq<char>)
    requires
        body.len() < 0x1_0000_0000_0000_0000,
    ensures
        parse_number(body) matches Some((d, p)) ==> all_decimal_digits(d) && -0x1_0000_0000_0000_0000_0000
            < p < 0x1_0000_0000_0000_0000_0000,
{
    let (m, e) = match find_exp_marker(body, 0) {
        Some(i) => (body.subrange(0, i), parse_exponent(body.subrange(i + 1, body.len() as int))),
        None => (body, Some(0int)),
    };
    lemma_find_exp_marker_bounds(body, 0);
    lemma_find_from_bounds(m, seq!['.'], 0);
    if let Some((d, before)) = parse_mantissa(m) {
        match find(m, seq!['.']) {
            Some(j) => {
                let a = m.subrange(0, j);
                let b = m.subrange(j + 1, m.len() as int);
                assert forall|i: int| 0 <= i < d.len() implies #[trigger] d[i] < 10 by {
                    assert(super::text::is_ascii_digit((a + b)[i]));
                }
            },
            None => {
                assert forall|i: int| 0 <= i < d.len() implies #[trigger] d[i] < 10 by {
                    assert(super::text::is_ascii_digit(m[i]));
                }
            },
        }
    }
}


/// Decimal digit values as characters.
pub open spec fn digit_chars(d: Seq<u8>) -> Seq<char> {
    d.map_values(|x: u8| digit_char(x as nat))
}

pub open spec fn zeros(n: nat) -> Seq<u8> {
    Seq::new(n, |i: int| 0u8)
}

/// The digits of `0.d * 10^point` before the decimal point.
pub open spec fn int_digits(d: Seq<u8>, point: int) -> Seq<u8> {
    if point <= 0 {
        seq![]
    } else if point >= d.len() {
        d + zeros((point - d.len()) as nat)
    } else {
        d.subrange(0, point)
    }
}

/// The digits of `0.d * 10^point` after the decimal point.
pub open spec fn frac_digits(d: Seq<u8>, point: int) -> Seq<u8> {
    if point <= 0 {
        zeros((-point) as nat) + d
    } else if point >= d.len() {
        seq![]
    } else {
        d.subrange(point, d.len() as int)
    }
}

pub open spec fn sign_text(negative: bool) -> Seq<char> {
    if negative {
        seq!['-']
    } else {
        seq![]
    }
}

/// The value written in full as a decimal, with no exponent and no
/// trailing zeros; `inf`, `-inf` and `NaN` for the special values. For a
/// value that a float holds and that has few enough digits to be the
/// shortest text reading back as that float, this is what `Display` writes
/// for the float.
pub open spec fn display_spec(a: AmountV) -> Seq<char> {
    match a {
        AmountV::NotANumber => seq!['N', 'a', 'N'],
        AmountV::Infinite { negative } => sign_text(negative) + seq!['i', 'n', 'f'],
        AmountV::Finite { negative, digits, point } => {
            let ip = int_digits(digits, point);
            let fp = frac_digits(digits, point);
            sign_text(negative) + (if ip.len() == 0 {
                seq!['0']
            } else {
                digit_chars(ip)
            }) + (if fp.len() == 0 {
                seq![]
            } else {
                seq!['.'] + digit_chars(fp)
            })
        },
    }
}

/// The first two fraction digits, padded with zeros.
pub open spec fn first_two(f: Seq<u8>) -> Seq<u8> {
    if f.len() >= 2 {
        f.subrange(0, 2)
    } else {
        f + zeros((2 - f.len()) as nat)
    }
}

/// The fraction digits after the first two.
pub open spec fn after_two(f: Seq<u8>) -> Seq<u8> {
    if f.len() > 2 {
        f.subrange(2, f.len() as int)
    } else {
        seq![]
    }
}

/// Rounding the kept digits `x` (ending in the hundredths) given the digits
/// `rest` that follow them (without trailing zeros): up when the rest is
/// more than half, and on exactly half when the last kept digit is odd.
pub open spec fn rounds_up(x: Seq<u8>, rest: Seq<u8>) -> bool {
    rest.len() > 0 && (rest[0] > 5 || (rest[0] == 5 && (rest.len() > 1 || x.last() % 2 == 1)))
}

/// Adding one to a decimal digit sequence.
pub open spec fn incr(s: Seq<u8>) -> Seq<u8>
    decreases s.len(),
{
    if s.len() == 0 {
        seq![1u8]
    } else if s.last() == 9 {
        incr(s.drop_last()).push(0u8)
    } else {
        s.drop_last().push((s.last() + 1) as u8)
    }
}

/// The digits of the value rounded to hundredths, the last two of them
/// after the point.
pub open spec fn rounded_hundredths(digits: Seq<u8>, point: int) -> Seq<u8> {
    let f = frac_digits(digits, point);
    let x = int_digits(digits, point) + first_two(f);
    if rounds_up(x, after_two(f)) {
        incr(x)
    } else {
        x
    }
}

/// The value rounded half to even at the hundredths and written with two
/// decimals (`inf`, `-inf` and `NaN` for the special values). This is what
/// `format!("{:.2}", x)` writes for a float `x` that holds this value
/// exactly.
pub open spec fn fixed2_spec(a: AmountV) -> Seq<char> {
    match a {
        AmountV::NotANumber => seq!['N', 'a', 'N'],
        AmountV::Infinite { negative } => sign_text(negative) + seq!['i', 'n', 'f'],
        AmountV::Finite { negative, digits, point } => {
            let y = rounded_hundredths(digits, point);
            let ip = y.subrange(0, y.len() - 2);
            sign_text(negative) + (if ip.len() == 0 {
                seq!['0']
            } else {
                digit_chars(ip)
            }) + seq!['.'] + digit_chars(y.subrange(y.len() - 2, y.len() as int))
        },
    }
}

proof fn lemma_incr(s: Seq<u8>)
    requires
        all_decimal_digits(s),
    ensures
        incr(s).len() >= s.len(),
        all_decimal_digits(incr(s)),
    decreases s.len(),
{
    if s.len() > 0 {
        lemma_incr(s.drop_last());
    }
}

fn push_digit_chars(out: &mut Vec<char>, d: &[u8])
    requires
        all_decimal_digits(d@),
    ensures
        final(out)@ == old(out)@ + digit_chars(d@),
{
    let ghost o = out@;
    let mut i: usize = 0;
    while i < d.len()
        invariant
            i <= d@.len(),
            all_decimal_digits(d@),
            out@ == o + digit_chars(d@.subrange(0, i as int)),
        decreases d@.len() - i,
    {
        let x = d[i];
        let c = ((48 + x) as u8) as char;
        assert(c == digit_char(x as nat));
        out.push(c);
        assert(out@ =~= o + digit_chars(d@.subrange(0, i + 1)));
        i = i + 1;
    }
    assert(d@.subrange(0, d@.len() as int) =~= d@);
}

fn push_zeros(out: &mut Vec<u8>, n: usize)
    ensures
        final(out)@ == old(out)@ + zeros(n as nat),
{
    let ghost o = out@;
    let mut i: usize = 0;
    while i < n
        invariant
            i <= n,
            out@ == o + zeros(i as nat),
        decreases n - i,
    {
        out.push(0);
        assert(out@ =~= o + zeros((i + 1) as nat));
        i = i + 1;
    }
}

fn push_u8s(out: &mut Vec<u8>, d: &[u8], from: usize, to: usize)
    requires
        from <= to <= d@.len(),
    ensures
        final(out)@ == old(out)@ + d@.subrange(from as int, to as int),
{
    let ghost o = out@;
    let mut i: usize = from;
    while i < to
        invariant
            from <= i <= to <= d@.len(),
            out@ == o + d@.subrange(from as int, i as int),
        decreases to - i,
    {
        out.push(d[i]);
        assert(out@ =~= o + d@.subrange(from as int, i + 1));
        i = i + 1;
    }
}

/// The digits before and after the point of a well-formed finite amount.
fn split_point(d: &Vec<u8>, point: i64) -> (r: (Vec<u8>, Vec<u8>))
    requires
        d@.len() > 0 ==> -323 <= point <= 309,
        d@.len() == 0 ==> point == 0,
        all_decimal_digits(d@),
    ensures
        r.0@ == int_digits(d@, point as int),
        r.1@ == frac_digits(d@, point as int),
        all_decimal_digits(r.0@),
        all_decimal_digits(r.1@),
{
    let n = d.len();
    let mut ip: Vec<u8> = Vec::new();
    let mut fp: Vec<u8> = Vec::new();
    if point <= 0 {
        push_zeros(&mut fp, (-point) as usize);
        push_u8s(&mut fp, d.as_slice(), 0, n);
        assert(d@.subrange(0, n as int) =~= d@);
    } else if point as usize >= n {
        push_u8s(&mut ip, d.as_slice(), 0, n);
        push_zeros(&mut ip, point as usize - n);
        assert(d@.subrange(0, n as int) =~= d@);
    } else {
        push_u8s(&mut ip, d.as_slice(), 0, point as usize);
        push_u8s(&mut fp, d.as_slice(), point as usize, n);
    }
    (ip, fp)
}

fn incr_exec(x: &Vec<u8>) -> (r: Vec<u8>)
    requires
        all_decimal_digits(x@),
    ensures
        r@ == incr(x@),
        all_decimal_digits(r@),
{
    let n = x.len();
    let mut v: Vec<u8> = Vec::new();
    push_u8s(&mut v, x.as_slice(), 0, n);
    assert(x@.subrange(0, n as int) =~= x@);
    let mut i: usize = n;
    while i > 0 && v[i - 1] == 9
        invariant
            i <= n,
            n == x@.len(),
            all_decimal_digits(x@),
            v@ == x@.subrange(0, i as int) + zeros((n - i) as nat),
            incr(x@) == incr(x@.subrange(0, i as int)) + zeros((n - i) as nat),
        decreases i,
    {
        assert(v@[i - 1] == x@[i - 1]);
        assert(x@.subrange(0, i as int).drop_last() =~= x@.subrange(0, i - 1));
        assert(incr(x@.subrange(0, i as int)) == incr(x@.subrange(0, i - 1)).push(0u8));
        assert(incr(x@.subrange(0, i - 1)).push(0u8) + zeros((n - i) as nat) =~= incr(
            x@.subrange(0, i - 1),
        ) + zeros((n - i + 1) as nat));
        v.set(i - 1, 0);
        assert(v@ =~= x@.subrange(0, i - 1) + zeros((n - i + 1) as nat));
        i = i - 1;
    }
    if i == 0 {
        let mut r: Vec<u8> = Vec::new();
        r.push(1);
        push_u8s(&mut r, v.as_slice(), 0, n);
        assert(v@.subrange(0, n as int) =~= v@);
        assert(r@ =~= incr(x@));
        r
    } else {
        let last = v[i - 1];
        assert(last == x@[i - 1]);
        assert(last < 9);
        v.set(i - 1, last + 1);
        assert(x@.subrange(0, i as int).drop_last() =~= x@.subrange(0, i - 1));
        assert(v@ =~= x@.subrange(0, i as int).drop_last().push((last + 1) as u8) + zeros(
            (n - i) as nat,
        ));
        v
    }
}

fn rounded_hundredths_exec(digits: &Vec<u8>, point: i64) -> (y: Vec<u8>)
    requires
        digits@.len() > 0 ==> -323 <= point <= 309,
        digits@.len() == 0 ==> point == 0,
        all_decimal_digits(digits@),
    ensures
        y@ == rounded_hundredths(digits@, point as int),
        y@.len() >= 2,
        all_decimal_digits(y@),
{
    let (ip, fp) = split_point(digits, point);
    let ghost f = fp@;
    let mut x: Vec<u8> = Vec::new();
    push_u8s(&mut x, ip.as_slice(), 0, ip.len());
    assert(ip@.subrange(0, ip@.len() as int) =~= ip@);
    if fp.len() >= 2 {
        push_u8s(&mut x, fp.as_slice(), 0, 2);
    } else {
        push_u8s(&mut x, fp.as_slice(), 0, fp.len());
        push_zeros(&mut x, 2 - fp.len());
        assert(fp@.subrange(0, fp@.len() as int) =~= fp@);
        assert(x@ =~= ip@ + (fp@ + zeros((2 - fp@.len()) as nat)));
    }
    assert(x@ =~= int_digits(digits@, point as int) + first_two(f));
    assert(all_decimal_digits(x@));
    let up = fp.len() > 2 && (fp[2] > 5 || (fp[2] == 5 && (fp.len() > 3 || x[x.len() - 1] % 2
        == 1)));
    assert(up == rounds_up(x@, after_two(f)));
    if up {
        proof {
            lemma_incr(x@);
        }
        incr_exec(&x)
    } else {
        x
    }
}

impl Amount {
    /// The value written in full (see `display_spec`).
    pub fn display_chars(&self) -> (r: Vec<char>)
        ensures
            r@ == display_spec(self@),
    {
        let mut out: Vec<char> = Vec::new();
        proof {
            use_type_invariant(self);
        }
        match &self.repr {
            AmountRepr::NotANumber => {
                out.push('N');
                out.push('a');
                out.push('N');
                assert(out@ =~= seq!['N', 'a', 'N']);
            },
            AmountRepr::Infinite { negative } => {
                if *negative {
                    out.push('-');
                }
                out.push('i');
                out.push('n');
                out.push('f');
                assert(out@ =~= sign_text(*negative) + seq!['i', 'n', 'f']);
            },
            AmountRepr::Finite { negative, digits, point } => {
                let (ip, fp) = split_point(digits, *point);
                if *negative {
                    out.push('-');
                }
                assert(out@ =~= sign_text(*negative));
                let ghost o1 = out@;
                if ip.len() == 0 {
                    out.push('0');
                    assert(out@ =~= o1 + seq!['0']);
                } else {
                    push_digit_chars(&mut out, ip.as_slice());
                }
                let ghost o2 = out@;
                if fp.len() > 0 {
                    out.push('.');
                    push_digit_chars(&mut out, fp.as_slice());
                    assert(out@ =~= o2 + (seq!['.'] + digit_chars(fp@)));
                } else {
                    assert(out@ =~= o2 + Seq::<char>::empty());
                }
            },
        }
        out
    }

    /// The value rounded to two decimals (see `fixed2_spec`).
    pub fn fixed2_chars(&self) -> (r: Vec<char>)
        ensures
            r@ == fixed2_spec(self@),
    {
        let mut out: Vec<char> = Vec::new();
        proof {
            use_type_invariant(self);
        }
        match &self.repr {
            AmountRepr::NotANumber => {
                out.push('N');
                out.push('a');
                out.push('N');
                assert(out@ =~= seq!['N', 'a', 'N']);
            },
            AmountRepr::Infinite { negative } => {
                if *negative {
                    out.push('-');
                }
                out.push('i');
                out.push('n');
                out.push('f');
                assert(out@ =~= sign_text(*negative) + seq!['i', 'n', 'f']);
            },
            AmountRepr::Finite { negative, digits, point } => {
                let y = rounded_hundredths_exec(digits, *point);
                let m = y.len();
                if *negative {
                    out.push('-');
                }
                assert(out@ =~= sign_text(*negative));
                let ghost o1 = out@;
                if m - 2 == 0 {
                    out.push('0');
                    assert(out@ =~= o1 + seq!['0']);
                } else {
                    let ipart = subvec(y.as_slice(), 0, m - 2);
                    push_digit_chars(&mut out, ipart.as_slice());
                }
                let ghost o2 = out@;
                out.push('.');
                let fpart = subvec(y.as_slice(), m - 2, m);
                push_digit_chars(&mut out, fpart.as_slice());
                assert(out@ =~= o2 + seq!['.'] + digit_chars(y@.subrange(m - 2, m as int)));
            },
        }
        out
    }

    /// The amount a text denotes in the syntax of `f64::from_str` (see
    /// `parse_float_spec`).
    pub fn from_text(s: &str) -> (r: Option<Amount>)
        ensures
            opt_view(r) == parse_float_spec(s@),
    {
        let c = crate::text::chars_of(s);
        parse_float(c.as_slice())
    }

    /// The value written in full (see `display_spec`).
    pub fn to_display_string(&self) -> (r: String)
        ensures
            r@ == display_spec(self@),
    {
        let v = self.display_chars();
        string_of(v.as_slice())
    }

    /// The value rounded to two decimals (see `fixed2_spec`).
    pub fn to_fixed2_string(&self) -> (r: String)
        ensures
            r@ == fixed2_spec(self@),
    {
        let v = self.fixed2_chars();
        string_of(v.as_slice())
    }
}

} // verus!
