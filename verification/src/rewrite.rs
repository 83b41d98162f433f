//! The message rewriter.
//!
//! Given a diagnostic's free text and, optionally, its numeric identifier,
//! the rewriter resolves an identifier (the supplied one first, else the
//! first `TS`-prefixed token embedded in the text), looks it up in the
//! catalog, extracts the varying parts of the text against the entry's
//! pattern, renders the entry's template with them, and combines original
//! and rendering per the translation mode.  Whenever no identifier resolves
//! or the catalog does not know it, the text passes through unchanged.

use crate::catalog::{lookup_entry, Catalog};
use crate::dec::{parse_u32_chars, spec_parse_u32};
use crate::matching::{
    matcher_captures, matcher_new, opt_groups_view, re_captures, re_compiles,
};
use crate::pattern::{compiled_src, pattern_to_regex_src};
use crate::subst::{spec_subst, strs_view, substitute_params};
use crate::TranslationMode;
use vstd::prelude::*;

verus! {

/// What extracting against a pattern yields: the capture groups of the
/// pattern's compiled regex, or nothing when the text does not conform (or
/// the pattern does not compile).
pub open spec fn spec_extraction(pattern: Seq<char>, message: Seq<char>) -> Option<
    Seq<Seq<char>>,
> {
    if re_compiles(compiled_src(pattern)) {
        re_captures(compiled_src(pattern), message)
    } else {
        None
    }
}

/// Extract the varying parts of `message` against `pattern`.
pub fn extract_params(pattern: &str, message: &str) -> (r: Option<Vec<String>>)
    ensures
        opt_groups_view(r) == spec_extraction(pattern@, message@),
{
    let src = pattern_to_regex_src(pattern);
    match matcher_new(src.as_str()) {
        None => None,
        Some(m) => matcher_captures(&m, message),
    }
}

/// The identifier token's shape: a `ts` prefix, case-insensitive, at a word
/// boundary, immediately followed by digits.
pub open spec fn code_pattern() -> Seq<char> {
    "(?i)\\bts(\\d+)\\b"@
}

/// The identifier embedded in a message, if any: the digits of the first
/// token of the documented shape, read as a `u32`.
pub open spec fn spec_extract_code(m: Seq<char>) -> Option<u32> {
    if re_compiles(code_pattern()) {
        match re_captures(code_pattern(), m) {
            None => None,
            Some(gs) => if gs.len() >= 1 {
                spec_parse_u32(gs[0])
            } else {
                None
            },
        }
    } else {
        None
    }
}

/// Scan `message` for an embedded identifier token.
pub fn extract_error_code(message: &str) -> (r: Option<u32>)
    ensures
        r == spec_extract_code(message@),
{
    let m = match matcher_new("(?i)\\bts(\\d+)\\b") {
        None => {
            return None;
        },
        Some(m) => m,
    };
    match matcher_captures(&m, message) {
        None => None,
        Some(groups) => {
            if groups.len() >= 1 {
                proof {
                    let gs = opt_groups_view(Some(groups))->Some_0;
                    assert(gs[0] == groups@[0]@);
                }
                parse_u32_chars(groups[0].as_str())
            } else {
                None
            }
        },
    }
}

// ---------------------------------------------------------------------------
// Putting a rewritten message together.
// ---------------------------------------------------------------------------

/// The identifier a rewrite works with: the caller's, truncated to the
/// catalog's width, or else the one embedded in the text.
pub open spec fn resolved_code(m: Seq<char>, code: Option<i64>) -> Option<u32> {
    match code {
        Some(c) => Some(c as u32),
        None => spec_extract_code(m),
    }
}

/// The rendered translation for one entry: the template rendered with the
/// extracted parameters, or, when the text does not conform to the pattern,
/// the template as it stands.
pub open spec fn rendered_translation(pat: Seq<char>, tmpl: Seq<char>, m: Seq<char>) -> Seq<
    char,
> {
    match spec_extraction(pat, m) {
        Some(ps) => spec_subst(tmpl, ps),
        None => tmpl,
    }
}

/// The separator between original text and translation in Append mode.
pub open spec fn append_separator() -> Seq<char> {
    "  \u{25cf} "@
}

/// The marker in front of a translation in Replace mode.
pub open spec fn replace_marker() -> Seq<char> {
    "\u{25cf} "@
}

/// Original and translation combined per mode.
pub open spec fn combined(mode: TranslationMode, m: Seq<char>, tr: Seq<char>) -> Seq<char> {
    match mode {
        TranslationMode::Append => m + append_separator() + tr,
        TranslationMode::Replace => replace_marker() + tr,
    }
}

/// What rewriting yields, for every input: the text unchanged when no
/// identifier resolves or none is known, else the combination of the text
/// with the entry's rendered translation.
pub open spec fn spec_translate(
    es: Seq<(u32, Seq<char>, Seq<char>)>,
    m: Seq<char>,
    code: Option<i64>,
    mode: TranslationMode,
) -> Seq<char> {
    match resolved_code(m, code) {
        None => m,
        Some(ec) => match lookup_entry(es, ec) {
            None => m,
            Some(e) => combined(mode, m, rendered_translation(e.0, e.1, m)),
        },
    }
}

/// Rewrite one diagnostic text.
pub fn translate_message(
    catalog: &Catalog,
    original: &str,
    code: Option<i64>,
    mode: TranslationMode,
) -> (r: String)
    ensures
        r@ == spec_translate(catalog.entries_view(), original@, code, mode),
{
    let resolved: Option<u32> = match code {
        Some(c) => Some(#[verifier::truncate] (c as u32)),
        None => extract_error_code(original),
    };
    let ec: u32 = match resolved {
        None => {
            return original.to_owned();
        },
        Some(ec) => ec,
    };
    let info = match catalog.lookup(ec) {
        None => {
            return original.to_owned();
        },
        Some(info) => info,
    };
    let translation: String = match extract_params(info.pattern.as_str(), original) {
        Some(params) => {
            let mut refs: Vec<&str> = Vec::new();
            let mut k: usize = 0;
            while k < params.len()
                invariant
                    k <= params@.len(),
                    refs@.len() == k,
                    forall|j: int| 0 <= j < k ==> #[trigger] refs@[j]@ == params@[j]@,
                decreases params@.len() - k,
            {
                refs.push(params[k].as_str());
                k = k + 1;
            }
            proof {
                assert(strs_view(refs@) =~= params@.map_values(|s: String| s@));
            }
            substitute_params(info.message.as_str(), refs.as_slice())
        },
        None => info.message.clone(),
    };
    let mut out = String::new();
    match mode {
        TranslationMode::Append => {
            out.append(original);
            out.append("  \u{25cf} ");
            out.append(translation.as_str());
        },
        TranslationMode::Replace => {
            out.append("\u{25cf} ");
            out.append(translation.as_str());
        },
    }
    proof {
        assert(out@ =~= spec_translate(catalog.entries_view(), original@, code, mode));
    }
    out
}

// ---------------------------------------------------------------------------
// Laws.
// ---------------------------------------------------------------------------

/// Whether `needle` occurs in `hay` as a contiguous run.
pub open spec fn seq_contains(hay: Seq<char>, needle: Seq<char>) -> bool {
    exists|k: int|
        0 <= k <= hay.len() - needle.len() && #[trigger] hay.subrange(k, k + needle.len())
            == needle
}

/// Law: a diagnostic whose identifier the catalog does not register passes
/// through with its text unchanged, as does one for which no identifier
/// resolves at all.
pub proof fn lemma_unknown_code_unchanged(
    es: Seq<(u32, Seq<char>, Seq<char>)>,
    m: Seq<char>,
    code: Option<i64>,
    mode: TranslationMode,
)
    requires
        match resolved_code(m, code) {
            Some(ec) => lookup_entry(es, ec) is None,
            None => true,
        },
    ensures
        spec_translate(es, m, code, mode) == m,
{
}

/// Law: for a known identifier, Append mode keeps the original text whole at
/// the front of its output, so the output contains it as a substring.
pub proof fn lemma_append_contains_original(
    es: Seq<(u32, Seq<char>, Seq<char>)>,
    m: Seq<char>,
    code: Option<i64>,
)
    requires
        resolved_code(m, code) is Some,
        lookup_entry(es, resolved_code(m, code)->Some_0) is Some,
    ensures
        spec_translate(es, m, code, TranslationMode::Append).take(m.len() as int) == m,
        seq_contains(spec_translate(es, m, code, TranslationMode::Append), m),
{
    let out = spec_translate(es, m, code, TranslationMode::Append);
    assert(out.take(m.len() as int) =~= m);
    assert(out.subrange(0, 0 + m.len() as int) =~= m);
    assert(0 <= 0 <= out.len() - m.len());
}

/// Law: for a known identifier, Replace mode discards the original text: its
/// output is exactly the marker glyph followed by the rendered translation,
/// however the original read.
pub proof fn lemma_replace_is_marked(
    es: Seq<(u32, Seq<char>, Seq<char>)>,
    m: Seq<char>,
    code: Option<i64>,
)
    requires
        resolved_code(m, code) is Some,
        lookup_entry(es, resolved_code(m, code)->Some_0) is Some,
    ensures
        ({
            let e = lookup_entry(es, resolved_code(m, code)->Some_0)->Some_0;
            spec_translate(es, m, code, TranslationMode::Replace) == replace_marker()
                + rendered_translation(e.0, e.1, m)
        }),
{
}

/// Law: for a known identifier, Replace mode's output does not contain the
/// original text — except when the marked rendering itself happens to carry
/// the original text, which the premise leaves out.
pub proof fn lemma_replace_discards_original(
    es: Seq<(u32, Seq<char>, Seq<char>)>,
    m: Seq<char>,
    code: Option<i64>,
)
    requires
        resolved_code(m, code) is Some,
        lookup_entry(es, resolved_code(m, code)->Some_0) is Some,
        ({
            let e = lookup_entry(es, resolved_code(m, code)->Some_0)->Some_0;
            !seq_contains(replace_marker() + rendered_translation(e.0, e.1, m), m)
        }),
    ensures
        !seq_contains(spec_translate(es, m, code, TranslationMode::Replace), m),
{
    lemma_replace_is_marked(es, m, code);
}

} // verus!
