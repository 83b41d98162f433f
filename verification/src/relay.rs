//! The inbound relay step.
//!
//! Each frame coming back from the server is inspected: if its payload is a
//! diagnostics-publishing notification, every diagnostic's message text is
//! rewritten and the payload re-serialized; any other payload — including
//! one that does not parse as JSON at all — is forwarded byte for byte.
//!
//! Reading and re-writing the JSON form is the work of `serde_json`.  What
//! it reads and writes is a function of the payload bytes (and the new
//! messages) alone, so those projections are given names — `peeked_method`,
//! `peeked_diagnostics`, `respliced` — and the trusted items below tie the
//! crate's calls to them.  Nothing else in this crate calls into
//! `serde_json`.

use crate::catalog::Catalog;
use crate::rewrite::{spec_translate, translate_message};
use crate::TranslationMode;
use vstd::prelude::*;

verus! {

/// One diagnostic's fields, as far as the rewriter reads them: the numeric
/// code if it is an integer, and the message if it is a string.
pub struct Diagnostic {
    pub code: Option<i64>,
    pub message: Option<String>,
}

pub open spec fn diag_view(d: Diagnostic) -> (Option<i64>, Option<Seq<char>>) {
    (
        d.code,
        match d.message {
            Some(s) => Some(s@),
            None => None,
        },
    )
}

pub open spec fn diags_view(ds: Seq<Diagnostic>) -> Seq<(Option<i64>, Option<Seq<char>>)> {
    ds.map_values(|d: Diagnostic| diag_view(d))
}

pub open spec fn opt_diags_view(r: Option<Vec<Diagnostic>>) -> Option<
    Seq<(Option<i64>, Option<Seq<char>>)>,
> {
    match r {
        Some(v) => Some(diags_view(v@)),
        None => None,
    }
}

pub open spec fn opt_string_view(r: Option<String>) -> Option<Seq<char>> {
    match r {
        Some(s) => Some(s@),
        None => None,
    }
}

pub open spec fn opt_msgs_view(s: Seq<Option<String>>) -> Seq<Option<Seq<char>>> {
    s.map_values(|m: Option<String>| opt_string_view(m))
}

/// The top-level `method` string of the payload's JSON form, if the payload
/// parses to an object carrying one.
pub uninterp spec fn peeked_method(payload: Seq<u8>) -> Option<Seq<char>>;

/// The (code, message) projections of the payload's `params.diagnostics`
/// list, if the payload parses and carries one.
pub uninterp spec fn peeked_diagnostics(payload: Seq<u8>) -> Option<
    Seq<(Option<i64>, Option<Seq<char>>)>,
>;

/// The payload re-serialized with each diagnostic's message replaced by the
/// corresponding new one, where a new one is given.
pub uninterp spec fn respliced(payload: Seq<u8>, msgs: Seq<Option<Seq<char>>>) -> Seq<u8>;

/// Relies on `serde_json::from_slice`, `Value::get` and `Value::as_str`:
/// what the payload parses to, and the `method` field of it, depend on the
/// payload bytes alone.
#[verifier::external_body]
fn peek_method(payload: &[u8]) -> (r: Option<String>)
    ensures
        opt_string_view(r) == peeked_method(payload@),
{
    let v: serde_json::Value = match serde_json::from_slice(payload) {
        Ok(v) => v,
        Err(_) => return None,
    };
    v.get("method").and_then(serde_json::Value::as_str).map(|s| s.to_string())
}

/// Relies on `serde_json::from_slice`, `Value::get`, `Value::as_array`,
/// `Value::as_i64` and `Value::as_str`: the `params.diagnostics` list of the
/// payload's JSON form, and each member's `code` and `message` fields,
/// depend on the payload bytes alone.
#[verifier::external_body]
fn peek_diagnostics(payload: &[u8]) -> (r: Option<Vec<Diagnostic>>)
    ensures
        opt_diags_view(r) == peeked_diagnostics(payload@),
{
    let v: serde_json::Value = match serde_json::from_slice(payload) {
        Ok(v) => v,
        Err(_) => return None,
    };
    let arr = v.get("params")?.get("diagnostics")?.as_array()?;
    Some(arr.iter().map(|d| Diagnostic {
        code: d.get("code").and_then(serde_json::Value::as_i64),
        message: d.get("message").and_then(serde_json::Value::as_str).map(|s| s.to_string()),
    }).collect())
}

/// Relies on `serde_json::from_slice`, `Value::get_mut`,
/// `Value::as_array_mut` and `serde_json::to_vec`: re-serializing the
/// payload with diagnostic `i`'s string `message` replaced by `msgs[i]`
/// where one is given depends on the payload bytes and the new messages
/// alone.
#[verifier::external_body]
fn splice_messages(payload: &[u8], msgs: &Vec<Option<String>>) -> (r: Vec<u8>)
    ensures
        r@ == respliced(payload@, opt_msgs_view(msgs@)),
{
    let mut v: serde_json::Value = match serde_json::from_slice(payload) {
        Ok(v) => v,
        Err(_) => return payload.to_vec(),
    };
    let arr = v.get_mut("params").and_then(|p| p.get_mut("diagnostics"));
    if let Some(arr) = arr.and_then(serde_json::Value::as_array_mut) {
        for (d, m) in arr.iter_mut().zip(msgs.iter()) {
            if let (Some(slot), Some(new_msg)) = (d.get_mut("message"), m) {
                *slot = serde_json::Value::String(new_msg.clone());
            }
        }
    }
    serde_json::to_vec(&v).unwrap_or_else(|_| payload.to_vec())
}

/// The method name that marks a diagnostics-publishing notification.
pub open spec fn publish_method() -> Seq<char> {
    "textDocument/publishDiagnostics"@
}

/// The new message list for one notification's diagnostics: each diagnostic
/// with a string message gets its rewritten text, the others are left alone.
pub open spec fn rewritten_messages(
    es: Seq<(u32, Seq<char>, Seq<char>)>,
    ds: Seq<(Option<i64>, Option<Seq<char>>)>,
    mode: TranslationMode,
) -> Seq<Option<Seq<char>>> {
    ds.map_values(
        |d: (Option<i64>, Option<Seq<char>>)|
            match d.1 {
                Some(msg) => Some(spec_translate(es, msg, d.0, mode)),
                None => None,
            },
    )
}

/// What forwarding one payload yields: the bytes unchanged, unless the
/// payload is a diagnostics notification carrying a diagnostics list, in
/// which case each diagnostic's message is rewritten in place.
pub open spec fn spec_transform(
    es: Seq<(u32, Seq<char>, Seq<char>)>,
    p: Seq<u8>,
    mode: TranslationMode,
) -> Seq<u8> {
    if peeked_method(p) != Some(publish_method()) {
        p
    } else {
        match peeked_diagnostics(p) {
            None => p,
            Some(ds) => respliced(p, rewritten_messages(es, ds, mode)),
        }
    }
}

/// Forward one payload, rewriting diagnostics in place.
pub fn transform_if_diagnostics(catalog: &Catalog, payload: &[u8], mode: TranslationMode) -> (r:
    Vec<u8>)
    ensures
        r@ == spec_transform(catalog.entries_view(), payload@, mode),
{
    let ghost es = catalog.entries_view();
    let is_publish = match peek_method(payload) {
        Some(m) => {
            let target = String::from_str("textDocument/publishDiagnostics");
            m == target
        },
        None => false,
    };
    if !is_publish {
        return vstd::slice::slice_to_vec(payload);
    }
    let diags = match peek_diagnostics(payload) {
        None => {
            return vstd::slice::slice_to_vec(payload);
        },
        Some(ds) => ds,
    };
    let ghost dv = diags_view(diags@);
    let mut msgs: Vec<Option<String>> = Vec::new();
    let mut i: usize = 0;
    while i < diags.len()
        invariant
            i <= diags@.len(),
            es == catalog.entries_view(),
            dv == diags_view(diags@),
            opt_msgs_view(msgs@) == rewritten_messages(es, dv, mode).take(i as int),
        decreases diags@.len() - i,
    {
        let ghost pre = msgs@;
        let d = &diags[i];
        let entry: Option<String> = match &d.message {
            Some(msg) => Some(translate_message(catalog, msg.as_str(), d.code, mode)),
            None => None,
        };
        msgs.push(entry);
        proof {
            assert(dv[i as int] == diag_view(diags@[i as int]));
            assert(opt_msgs_view(msgs@) =~= opt_msgs_view(pre).push(opt_string_view(entry)));
            assert(opt_msgs_view(msgs@) =~= rewritten_messages(es, dv, mode).take(i as int + 1));
        }
        i = i + 1;
    }
    proof {
        assert(rewritten_messages(es, dv, mode).take(i as int) =~= rewritten_messages(
            es,
            dv,
            mode,
        ));
    }
    splice_messages(payload, &msgs)
}

/// Law: pass-through is the identity.  A payload that does not parse as
/// structured data, is not the diagnostics notification, or carries no
/// diagnostics list is forwarded byte for byte.
pub proof fn lemma_passthrough_unchanged(
    es: Seq<(u32, Seq<char>, Seq<char>)>,
    p: Seq<u8>,
    mode: TranslationMode,
)
    requires
        peeked_method(p) != Some(publish_method()) || peeked_diagnostics(p) is None,
    ensures
        spec_transform(es, p, mode) == p,
{
}

} // verus!
