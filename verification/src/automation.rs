//! The automation scripts that Bank Connect runs in a bank's window, one per
//! connector, with the number of years to go back and the run's identifier
//! filled in.

pub mod anz;
pub mod beyond;
pub mod bom;
pub mod cba;
pub mod ibkr;
pub mod ing;

use vstd::prelude::*;
use crate::automation::anz::{ANZ_SCRIPT_BODY, ANZ_SCRIPT_HEAD, lemma_anz_script_head};
use crate::automation::beyond::{BEYOND_SCRIPT_BODY, BEYOND_SCRIPT_HEAD, lemma_beyond_script_head};
use crate::automation::bom::{BOM_SCRIPT_BODY, BOM_SCRIPT_HEAD, lemma_bom_script_head};
use crate::automation::cba::{CBA_SCRIPT_BODY, CBA_SCRIPT_HEAD, lemma_cba_script_head};
use crate::automation::ibkr::{IBKR_SCRIPT_BODY, IBKR_SCRIPT_HEAD, lemma_ibkr_script_head};
use crate::automation::ing::{ING_SCRIPT_BODY, ING_SCRIPT_HEAD, lemma_ing_script_head};
use crate::bank_connect::BankKey;
use crate::text::{contains, lemma_occurs_gives_contains, chars_of, decimal, decimal_exec, eq_str, opt_str, replace_all, replace_exec, string_of, push_str};

verus! {

/// The script of the connector named exactly `bank_key`.
pub open spec fn script_template(bank_key: Seq<char>) -> Option<Seq<char>> {
    if bank_key == "ING"@ {
        Some(ING_SCRIPT_HEAD@ + ING_SCRIPT_BODY@)
    } else if bank_key == "CBA"@ {
        Some(CBA_SCRIPT_HEAD@ + CBA_SCRIPT_BODY@)
    } else if bank_key == "ANZ"@ {
        Some(ANZ_SCRIPT_HEAD@ + ANZ_SCRIPT_BODY@)
    } else if bank_key == "BOM"@ {
        Some(BOM_SCRIPT_HEAD@ + BOM_SCRIPT_BODY@)
    } else if bank_key == "BEYOND"@ {
        Some(BEYOND_SCRIPT_HEAD@ + BEYOND_SCRIPT_BODY@)
    } else if bank_key == "IBKR"@ {
        Some(IBKR_SCRIPT_HEAD@ + IBKR_SCRIPT_BODY@)
    } else {
        None
    }
}

/// A script with every `__YEARS_BACK__` replaced by the number of years
/// and then every `__RUN_ID__` by the run's identifier.
pub open spec fn fill_script(template: Seq<char>, years_back: u32, run_id: Seq<char>) -> Seq<char> {
    replace_all(
        replace_all(template, "__YEARS_BACK__"@, decimal(years_back as nat)),
        "__RUN_ID__"@,
        run_id,
    )
}

pub open spec fn automation_script_spec(bank_key: Seq<char>, years_back: u32, run_id: Seq<char>) -> Option<
    Seq<char>,
> {
    match script_template(bank_key) {
        Some(t) => Some(fill_script(t, years_back, run_id)),
        None => None,
    }
}

/// The automation script of a connector, ready to run (see
/// `automation_script_spec`); nothing for a name that is not a
/// connector's.
pub fn get_automation_script(bank_key: &str, years_back: u32, run_id: &str) -> (r: Option<String>)
    ensures
        opt_str(r) == automation_script_spec(bank_key@, years_back, run_id@),
{
    let k = chars_of(bank_key);
    let ks = k.as_slice();
    let (head, body): (&str, &str) = if eq_str(ks, "ING") {
        (ING_SCRIPT_HEAD, ING_SCRIPT_BODY)
    } else if eq_str(ks, "CBA") {
        (CBA_SCRIPT_HEAD, CBA_SCRIPT_BODY)
    } else if eq_str(ks, "ANZ") {
        (ANZ_SCRIPT_HEAD, ANZ_SCRIPT_BODY)
    } else if eq_str(ks, "BOM") {
        (BOM_SCRIPT_HEAD, BOM_SCRIPT_BODY)
    } else if eq_str(ks, "BEYOND") {
        (BEYOND_SCRIPT_HEAD, BEYOND_SCRIPT_BODY)
    } else if eq_str(ks, "IBKR") {
        (IBKR_SCRIPT_HEAD, IBKR_SCRIPT_BODY)
    } else {
        return None;
    };
    let mut t = chars_of(head);
    push_str(&mut t, body);
    let yp = chars_of("__YEARS_BACK__");
    let rp = chars_of("__RUN_ID__");
    proof {
        reveal_strlit("__YEARS_BACK__");
        reveal_strlit("__RUN_ID__");
    }
    let years = decimal_exec(years_back as u64);
    let step = replace_exec(t.as_slice(), yp.as_slice(), years.as_slice());
    let rid = chars_of(run_id);
    let done = replace_exec(step.as_slice(), rp.as_slice(), rid.as_slice());
    Some(string_of(done.as_slice()))
}


/// There is a script for every connector, and the script run for a
/// connector declares that connector's name: it holds `'{name}';`.
pub proof fn law_script_names_its_connector(k: BankKey)
    ensures
        script_template(k.as_str_spec()) matches Some(t) && contains(
            t,
            seq!['\''] + k.as_str_spec() + seq!['\'', ';'],
        ),
{
    reveal_strlit("ING");
    reveal_strlit("CBA");
    reveal_strlit("ANZ");
    reveal_strlit("BOM");
    reveal_strlit("BEYOND");
    reveal_strlit("IBKR");
    assert("CBA"@[0] != "ING"@[0]);
    assert("ANZ"@[0] != "ING"@[0] && "ANZ"@[0] != "CBA"@[0]);
    assert("BOM"@[0] != "ING"@[0] && "BOM"@[0] != "CBA"@[0] && "BOM"@[0] != "ANZ"@[0]);
    assert("BEYOND"@.len() != "ING"@.len());
    assert("IBKR"@.len() != "ING"@.len() && "IBKR"@.len() != "BEYOND"@.len());
    let name = k.as_str_spec();
    let pat = seq!['\''] + name + seq!['\'', ';'];
    match k {
        BankKey::Ing => {
            lemma_ing_script_head();
            let t = ING_SCRIPT_HEAD@ + ING_SCRIPT_BODY@;
            assert(t.subrange(86, 86 + pat.len() as int) =~= ING_SCRIPT_HEAD@.subrange(86, 86 + pat.len() as int));
            assert(t.subrange(86, 86 + pat.len() as int) =~= pat);
            lemma_occurs_gives_contains(t, pat, 86);
        },
        BankKey::Cba => {
            lemma_cba_script_head();
            let t = CBA_SCRIPT_HEAD@ + CBA_SCRIPT_BODY@;
            assert(t.subrange(86, 86 + pat.len() as int) =~= CBA_SCRIPT_HEAD@.subrange(86, 86 + pat.len() as int));
            assert(t.subrange(86, 86 + pat.len() as int) =~= pat);
            lemma_occurs_gives_contains(t, pat, 86);
        },
        BankKey::Anz => {
            lemma_anz_script_head();
            let t = ANZ_SCRIPT_HEAD@ + ANZ_SCRIPT_BODY@;
            assert(t.subrange(86, 86 + pat.len() as int) =~= ANZ_SCRIPT_HEAD@.subrange(86, 86 + pat.len() as int));
            assert(t.subrange(86, 86 + pat.len() as int) =~= pat);
            lemma_occurs_gives_contains(t, pat, 86);
        },
        BankKey::Bom => {
            lemma_bom_script_head();
            let t = BOM_SCRIPT_HEAD@ + BOM_SCRIPT_BODY@;
            assert(t.subrange(55, 55 + pat.len() as int) =~= BOM_SCRIPT_HEAD@.subrange(55, 55 + pat.len() as int));
            assert(t.subrange(55, 55 + pat.len() as int) =~= pat);
            lemma_occurs_gives_contains(t, pat, 55);
        },
        BankKey::Beyond => {
            lemma_beyond_script_head();
            let t = BEYOND_SCRIPT_HEAD@ + BEYOND_SCRIPT_BODY@;
            assert(t.subrange(89, 89 + pat.len() as int) =~= BEYOND_SCRIPT_HEAD@.subrange(89, 89 + pat.len() as int));
            assert(t.subrange(89, 89 + pat.len() as int) =~= pat);
            lemma_occurs_gives_contains(t, pat, 89);
        },
        BankKey::Ibkr => {
            lemma_ibkr_script_head();
            let t = IBKR_SCRIPT_HEAD@ + IBKR_SCRIPT_BODY@;
            assert(t.subrange(56, 56 + pat.len() as int) =~= IBKR_SCRIPT_HEAD@.subrange(56, 56 + pat.len() as int));
            assert(t.subrange(56, 56 + pat.len() as int) =~= pat);
            lemma_occurs_gives_contains(t, pat, 56);
        },
    }
}

} // verus!
