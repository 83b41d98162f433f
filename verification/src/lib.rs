//! A verified rewriting layer for a length-prefixed JSON message protocol.
//!
//! The crate frames discrete JSON payloads on a byte stream, and rewrites the
//! human-readable text of known diagnostic messages in flight: a numeric
//! identifier selects a catalog entry, positional parameters are extracted
//! from the original text, and a friendlier template is rendered with them.

use vstd::prelude::*;

pub mod codec;
pub mod catalog;
pub mod dec;
pub mod matching;
pub mod pattern;
pub mod relay;
pub mod rewrite;
pub mod subst;

verus! {

/// Whether a rewritten message supplements or supplants the original text.
#[derive(Clone, Copy, PartialEq, Eq, Structural)]
pub enum TranslationMode {
    Append,
    Replace,
}

} // verus!
