//! Template rendering.
//!
//! A template holds `{0}`, `{1}`, ... placeholders.  Rendering replaces each
//! placeholder with the parameter of that index; a placeholder whose index
//! names no parameter is left as literal text, deliberately, since a template
//! may reference positions differently than the pattern it is paired with.

use crate::dec::{all_digit_chars, dec_val_chars, is_digit_char, parse_index_chars};
use vstd::prelude::*;

verus! {

/// The end of the digit run starting at `i`.
pub open spec fn digits_end(t: Seq<char>, i: int) -> int
    decreases t.len() - i,
{
    if 0 <= i < t.len() && is_digit_char(t[i]) {
        digits_end(t, i + 1)
    } else {
        i
    }
}

/// Whether a placeholder `{k}` stands at `i`: an opening brace, a digit run
/// written canonically (no leading zero unless it is exactly `0`), and a
/// closing brace.
pub open spec fn placeholder_at(t: Seq<char>, i: int) -> bool {
    let e = digits_end(t, i + 1);
    &&& 0 <= i < t.len()
    &&& t[i] == '{'
    &&& e > i + 1
    &&& e < t.len()
    &&& t[e] == '}'
    &&& (t[i + 1] != '0' || e == i + 2)
}

/// The index a placeholder at `i` names.
pub open spec fn placeholder_val(t: Seq<char>, i: int) -> nat {
    dec_val_chars(t.subrange(i + 1, digits_end(t, i + 1)))
}

/// Rendering from `i` on: a placeholder whose index names a parameter becomes
/// that parameter; any other character is kept as it stands.
pub open spec fn subst_from(t: Seq<char>, i: int, ps: Seq<Seq<char>>) -> Seq<char>
    decreases t.len() - i,
{
    if i < 0 || i >= t.len() {
        Seq::empty()
    } else if placeholder_at(t, i) && placeholder_val(t, i) < ps.len() {
        ps[placeholder_val(t, i) as int] + subst_from(t, digits_end(t, i + 1) + 1, ps)
    } else {
        seq![t[i]] + subst_from(t, i + 1, ps)
    }
}

/// Rendering a whole template against a parameter list.
pub open spec fn spec_subst(t: Seq<char>, ps: Seq<Seq<char>>) -> Seq<char> {
    subst_from(t, 0, ps)
}

/// The parameter list a slice of string slices stands for.
pub open spec fn strs_view(ps: Seq<&str>) -> Seq<Seq<char>> {
    ps.map_values(|s: &str| s@)
}

proof fn lemma_digits_end_facts(t: Seq<char>, i: int)
    requires
        0 <= i <= t.len(),
    ensures
        i <= digits_end(t, i) <= t.len(),
        forall|j: int| i <= j < digits_end(t, i) ==> is_digit_char(#[trigger] t[j]),
    decreases t.len() - i,
{
    if i < t.len() && is_digit_char(t[i]) {
        lemma_digits_end_facts(t, i + 1);
    }
}

proof fn lemma_digits_end_step(t: Seq<char>, i: int, k: int)
    requires
        0 <= i <= k <= t.len(),
        forall|j: int| i <= j < k ==> is_digit_char(#[trigger] t[j]),
    ensures
        digits_end(t, i) == digits_end(t, k),
    decreases k - i,
{
    if i < k {
        lemma_digits_end_step(t, i + 1, k);
    }
}

fn digits_end_at(t: &str, from: usize) -> (r: usize)
    requires
        from <= t@.len(),
    ensures
        r as int == digits_end(t@, from as int),
        from <= r <= t@.len(),
{
    let n = t.unicode_len();
    let mut i: usize = from;
    while i < n
        invariant
            from <= i <= n,
            n == t@.len(),
            forall|j: int| from <= j < i ==> is_digit_char(#[trigger] t@[j]),
        decreases n - i,
    {
        let c = t.get_char(i);
        let cv = c as u32;
        if !(48 <= cv && cv <= 57) {
            proof {
                lemma_digits_end_step(t@, from as int, i as int);
            }
            return i;
        }
        i = i + 1;
    }
    proof {
        lemma_digits_end_step(t@, from as int, i as int);
    }
    n
}

/// If a placeholder naming one of `n_params` parameters stands at `i`, its
/// index and the position just past its closing brace.
fn placeholder_here(t: &str, i: usize, n_params: usize) -> (r: Option<(usize, usize)>)
    requires
        i < t@.len(),
    ensures
        match r {
            Some(p) => placeholder_at(t@, i as int) && placeholder_val(t@, i as int) == p.0 && p.0
                < n_params && p.1 == digits_end(t@, i as int + 1) + 1 && i < p.1 <= t@.len(),
            None => !(placeholder_at(t@, i as int) && placeholder_val(t@, i as int) < n_params),
        },
{
    let n = t.unicode_len();
    let c = t.get_char(i);
    if c != '{' {
        return None;
    }
    let j = digits_end_at(t, i + 1);
    if !(j > i + 1 && j < n) {
        return None;
    }
    if t.get_char(j) != '}' {
        return None;
    }
    let first = t.get_char(i + 1);
    if first == '0' && j > i + 2 {
        return None;
    }
    proof {
        lemma_digits_end_facts(t@, i as int + 1);
        assert(all_digit_chars(t@.subrange(i as int + 1, j as int)));
        assert(placeholder_at(t@, i as int));
    }
    match parse_index_chars(t, i + 1, j) {
        Some(v) => {
            if v < n_params {
                Some((v, j + 1))
            } else {
                None
            }
        },
        None => {
            // the index is too large for the machine, so it names no parameter
            None
        },
    }
}

/// Render `template`, replacing each `{i}` with `params[i]`; an index with no
/// matching parameter is left as literal text.
pub fn substitute_params(template: &str, params: &[&str]) -> (r: String)
    ensures
        r@ == spec_subst(template@, strs_view(params@)),
{
    let ghost psv = strs_view(params@);
    proof {
        assert(psv.len() == params@.len());
    }
    let n = template.unicode_len();
    let mut out = String::new();
    let mut i: usize = 0;
    while i < n
        invariant
            i <= n,
            n == template@.len(),
            psv == strs_view(params@),
            psv.len() == params@.len(),
            out@ + subst_from(template@, i as int, psv) == spec_subst(template@, psv),
        decreases n - i,
    {
        let ghost pre = out@;
        match placeholder_here(template, i, params.len()) {
            Some((v, next)) => {
                let p: &str = params[v];
                out.append(p);
                proof {
                    assert(psv[v as int] == p@);
                    assert(subst_from(template@, i as int, psv) == psv[v as int] + subst_from(
                        template@,
                        next as int,
                        psv,
                    ));
                    assert(out@ + subst_from(template@, next as int, psv) =~= pre + subst_from(
                        template@,
                        i as int,
                        psv,
                    ));
                }
                i = next;
            },
            None => {
                let ch = template.substring_char(i, i + 1);
                out.append(ch);
                proof {
                    assert(ch@ =~= seq![template@[i as int]]);
                    assert(subst_from(template@, i as int, psv) == seq![template@[i as int]]
                        + subst_from(template@, i as int + 1, psv));
                    assert(out@ + subst_from(template@, i as int + 1, psv) =~= pre + subst_from(
                        template@,
                        i as int,
                        psv,
                    ));
                }
                i = i + 1;
            },
        }
    }
    proof {
        assert(subst_from(template@, n as int, psv) == Seq::<char>::empty());
        assert(out@ + Seq::<char>::empty() =~= out@);
    }
    out
}

} // verus!
