//! The pattern compiler.
//!
//! A catalog pattern is human-written text with `{0}`, `{1}`, ... standing
//! for the parts of a message that vary.  Compiling it yields regex text:
//! each literal stretch escaped for literal matching, each brace region
//! replaced by a capture region that takes one or more characters,
//! non-greedily, and the whole anchored at both ends so partial overlaps are
//! rejected.

use crate::matching::{regex_escape, regex_escaped};
use vstd::prelude::*;

verus! {

/// The first `'{'` at or after `i`.
pub open spec fn find_brace(p: Seq<char>, i: int) -> Option<int>
    decreases p.len() - i,
{
    if i < 0 || i >= p.len() {
        None
    } else if p[i] == '{' {
        Some(i)
    } else {
        find_brace(p, i + 1)
    }
}

/// The first `'}'` at or after `i`, or the end of the pattern.
pub open spec fn find_close(p: Seq<char>, i: int) -> int
    decreases p.len() - i,
{
    if i < 0 || i >= p.len() {
        p.len() as int
    } else if p[i] == '}' {
        i
    } else {
        find_close(p, i + 1)
    }
}

/// The capture region standing in for one placeholder.
pub open spec fn capture_group() -> Seq<char> {
    "(.+?)"@
}

/// The regex text for the pattern from `from` on: literal stretches escaped,
/// each brace region replaced by one capture region.
pub open spec fn compiled_mid(p: Seq<char>, from: int) -> Seq<char>
    decreases p.len() - from + 1,
    via compiled_mid_decreases
{
    match find_brace(p, from) {
        None => if from < p.len() {
            regex_escaped(p.subrange(from, p.len() as int))
        } else {
            Seq::empty()
        },
        Some(b) => regex_escaped(p.subrange(from, b)) + capture_group() + compiled_mid(
            p,
            find_close(p, b) + 1,
        ),
    }
}

#[via_fn]
proof fn compiled_mid_decreases(p: Seq<char>, from: int) {
    match find_brace(p, from) {
        Some(b) => {
            lemma_find_brace_bounds(p, from);
            lemma_find_close_bounds(p, b);
        },
        None => {},
    }
}

/// The full regex text for a pattern, anchored at both ends.
pub open spec fn compiled_src(p: Seq<char>) -> Seq<char> {
    "^"@ + compiled_mid(p, 0) + "$"@
}

proof fn lemma_find_brace_bounds(p: Seq<char>, i: int)
    ensures
        match find_brace(p, i) {
            Some(b) => 0 <= i <= b < p.len() && p[b] == '{',
            None => true,
        },
    decreases p.len() - i,
{
    if 0 <= i < p.len() && p[i] != '{' {
        lemma_find_brace_bounds(p, i + 1);
    }
}

proof fn lemma_find_close_bounds(p: Seq<char>, i: int)
    ensures
        find_close(p, i) <= p.len(),
        0 <= i <= p.len() ==> i <= find_close(p, i),
    decreases p.len() - i,
{
    if 0 <= i < p.len() && p[i] != '}' {
        lemma_find_close_bounds(p, i + 1);
    }
}

proof fn lemma_find_brace_step(p: Seq<char>, i: int, k: int)
    requires
        0 <= i <= k <= p.len(),
        forall|j: int| i <= j < k ==> p[j] != '{',
    ensures
        find_brace(p, i) == find_brace(p, k),
    decreases k - i,
{
    if i < k {
        lemma_find_brace_step(p, i + 1, k);
    }
}

proof fn lemma_find_close_step(p: Seq<char>, i: int, k: int)
    requires
        0 <= i <= k <= p.len(),
        forall|j: int| i <= j < k ==> p[j] != '}',
    ensures
        find_close(p, i) == find_close(p, k),
    decreases k - i,
{
    if i < k {
        lemma_find_close_step(p, i + 1, k);
    }
}

fn find_brace_at(p: &str, from: usize) -> (r: Option<usize>)
    requires
        from <= p@.len(),
    ensures
        match r {
            Some(k) => find_brace(p@, from as int) == Some(k as int) && from <= k < p@.len(),
            None => find_brace(p@, from as int) is None,
        },
{
    let n = p.unicode_len();
    let mut i: usize = from;
    while i < n
        invariant
            from <= i <= n,
            n == p@.len(),
            forall|j: int| from <= j < i ==> p@[j] != '{',
        decreases n - i,
    {
        if p.get_char(i) == '{' {
            proof {
                lemma_find_brace_step(p@, from as int, i as int);
            }
            return Some(i);
        }
        i = i + 1;
    }
    proof {
        lemma_find_brace_step(p@, from as int, i as int);
    }
    None
}

fn find_close_at(p: &str, from: usize) -> (r: usize)
    requires
        from <= p@.len(),
    ensures
        r as int == find_close(p@, from as int),
        from <= r <= p@.len(),
{
    let n = p.unicode_len();
    let mut i: usize = from;
    while i < n
        invariant
            from <= i <= n,
            n == p@.len(),
            forall|j: int| from <= j < i ==> p@[j] != '}',
        decreases n - i,
    {
        if p.get_char(i) == '}' {
            proof {
                lemma_find_close_step(p@, from as int, i as int);
            }
            return i;
        }
        i = i + 1;
    }
    proof {
        lemma_find_close_step(p@, from as int, i as int);
    }
    n
}

/// Compile a pattern into regex text.
pub fn pattern_to_regex_src(pattern: &str) -> (r: String)
    ensures
        r@ == compiled_src(pattern@),
{
    let n = pattern.unicode_len();
    let mut out = String::new();
    out.append("^");
    let mut from: usize = 0;
    loop
        invariant_except_break
            from <= n + 1,
            n == pattern@.len(),
            out@ + compiled_mid(pattern@, from as int) == "^"@ + compiled_mid(pattern@, 0),
        ensures
            out@ == "^"@ + compiled_mid(pattern@, 0),
        decreases n + 1 - from,
    {
        if from > n {
            proof {
                assert(compiled_mid(pattern@, from as int) == Seq::<char>::empty());
                assert(out@ + Seq::<char>::empty() =~= out@);
            }
            break ;
        }
        match find_brace_at(pattern, from) {
            None => {
                if from < n {
                    let seg = pattern.substring_char(from, n);
                    let esc = regex_escape(seg);
                    proof {
                        assert(compiled_mid(pattern@, from as int) == esc@);
                    }
                    out.append(esc.as_str());
                } else {
                    proof {
                        assert(compiled_mid(pattern@, from as int) == Seq::<char>::empty());
                        assert(out@ + Seq::<char>::empty() =~= out@);
                    }
                }
                break ;
            },
            Some(b) => {
                let ghost pre = out@;
                let seg = pattern.substring_char(from, b);
                let esc = regex_escape(seg);
                out.append(esc.as_str());
                out.append("(.+?)");
                let c = find_close_at(pattern, b);
                proof {
                    assert(compiled_mid(pattern@, from as int) == esc@ + capture_group()
                        + compiled_mid(pattern@, c + 1));
                    assert(out@ =~= pre + esc@ + capture_group());
                    assert(out@ + compiled_mid(pattern@, c + 1) =~= pre + compiled_mid(
                        pattern@,
                        from as int,
                    ));
                }
                if c >= n {
                    proof {
                        assert(c == n);
                        assert(compiled_mid(pattern@, c + 1) == Seq::<char>::empty());
                        assert(out@ + Seq::<char>::empty() =~= out@);
                    }
                    break ;
                }
                from = c + 1;
            },
        }
    }
    out.append("$");
    proof {
        assert(out@ =~= compiled_src(pattern@));
    }
    out
}

} // verus!
