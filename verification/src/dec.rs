//! Decimal digit strings.
//!
//! The wire framing announces a payload length in decimal, and message
//! templates name their placeholders by decimal index.  This module defines
//! what a number looks like written in base ten, and proves executable
//! formatting and parsing against that definition.

use vstd::prelude::*;

verus! {

// ---------------------------------------------------------------------------
// Digits as ASCII bytes.
// ---------------------------------------------------------------------------

pub open spec fn is_digit_byte(b: u8) -> bool {
    48 <= b <= 57
}

pub open spec fn digit_val_byte(b: u8) -> nat {
    if is_digit_byte(b) {
        (b - 48) as nat
    } else {
        0
    }
}

pub open spec fn digit_byte(d: nat) -> u8
    recommends
        d < 10,
{
    (d + 48) as u8
}

/// The decimal digits of `n`, most significant first, as ASCII bytes.
pub open spec fn dec_bytes(n: nat) -> Seq<u8>
    decreases n,
{
    if n < 10 {
        seq![digit_byte(n)]
    } else {
        dec_bytes(n / 10).push(digit_byte(n % 10))
    }
}

pub open spec fn all_digit_bytes(s: Seq<u8>) -> bool {
    forall|i: int| 0 <= i < s.len() ==> is_digit_byte(#[trigger] s[i])
}

/// The numeric value of a digit string, most significant first.
pub open spec fn dec_val_bytes(s: Seq<u8>) -> nat
    decreases s.len(),
{
    if s.len() == 0 {
        0
    } else {
        dec_val_bytes(s.drop_last()) * 10 + digit_val_byte(s.last())
    }
}

/// Formatting is sound: the digits of `n` are digits, there is at least one,
/// the first is not `'0'` unless `n` is zero, and they read back as `n`.
pub proof fn lemma_dec_bytes_wf(n: nat)
    ensures
        dec_bytes(n).len() >= 1,
        all_digit_bytes(dec_bytes(n)),
        dec_val_bytes(dec_bytes(n)) == n,
        n > 0 ==> dec_bytes(n)[0] != 48,
    decreases n,
{
    vstd::arithmetic::div_mod::lemma_fundamental_div_mod(n as int, 10);
    vstd::arithmetic::div_mod::lemma_mod_bound(n as int, 10);
    if n < 10 {
        let s = dec_bytes(n);
        assert(s =~= seq![digit_byte(n)]);
        assert(s.drop_last() =~= Seq::<u8>::empty());
        assert(s.last() == digit_byte(n));
        assert(digit_val_byte(digit_byte(n)) == n);
        assert(dec_val_bytes(Seq::<u8>::empty()) == 0);
        assert(dec_val_bytes(s) == dec_val_bytes(s.drop_last()) * 10 + digit_val_byte(s.last()));
    } else {
        lemma_dec_bytes_wf(n / 10);
        let s = dec_bytes(n);
        assert(s == dec_bytes(n / 10).push(digit_byte(n % 10)));
        assert(s.drop_last() =~= dec_bytes(n / 10));
        assert(s.last() == digit_byte(n % 10));
        assert(digit_val_byte(digit_byte(n % 10)) == n % 10);
        assert(dec_val_bytes(s) == dec_val_bytes(s.drop_last()) * 10 + digit_val_byte(s.last()));
        assert(dec_val_bytes(s) == (n / 10) * 10 + n % 10);
        assert(s[0] == dec_bytes(n / 10)[0]);
    }
}

/// The value of a digit string only grows as more digits follow.
pub proof fn lemma_dec_val_bytes_prefix(s: Seq<u8>, k: int)
    requires
        0 <= k <= s.len(),
    ensures
        dec_val_bytes(s.take(k)) <= dec_val_bytes(s),
    decreases s.len() - k,
{
    if k == s.len() {
        assert(s.take(k) =~= s);
    } else {
        lemma_dec_val_bytes_prefix(s, k + 1);
        assert(s.take(k + 1).drop_last() =~= s.take(k));
        assert(dec_val_bytes(s.take(k + 1)) == dec_val_bytes(s.take(k)) * 10 + digit_val_byte(
            s.take(k + 1).last(),
        ));
    }
}

/// Format `n` as its decimal digits.
pub fn format_dec(n: usize) -> (r: Vec<u8>)
    ensures
        r@ == dec_bytes(n as nat),
{
    let mut rev: Vec<u8> = Vec::new();
    let mut m: usize = n;
    loop
        invariant_except_break
            rev@.len() == 0 ==> m == n,
            rev@.len() > 0 ==> m > 0 && dec_bytes(n as nat) == dec_bytes(m as nat)
                + rev@.reverse(),
        ensures
            rev@.len() > 0,
            dec_bytes(n as nat) == rev@.reverse(),
        decreases m,
    {
        proof {
            vstd::arithmetic::div_mod::lemma_fundamental_div_mod(m as int, 10);
            vstd::arithmetic::div_mod::lemma_mod_bound(m as int, 10);
        }
        let ghost old_rev = rev@;
        let ghost old_m = m;
        let d: u8 = 48 + (m % 10) as u8;
        rev.push(d);
        m = m / 10;
        proof {
            assert(d == digit_byte((old_m as nat) % 10));
            if old_m < 10 {
                assert((old_m as nat) % 10 == old_m as nat);
                assert(dec_bytes(old_m as nat) =~= seq![d]);
            } else {
                assert(dec_bytes(old_m as nat) == dec_bytes((old_m as nat) / 10).push(d));
            }
            assert(rev@.reverse() =~= seq![d] + old_rev.reverse());
            if old_rev.len() == 0 {
                if m > 0 {
                    assert(dec_bytes(n as nat) =~= dec_bytes(m as nat) + rev@.reverse());
                } else {
                    assert(dec_bytes(n as nat) =~= rev@.reverse());
                }
            } else {
                if m > 0 {
                    assert(dec_bytes(old_m as nat) =~= dec_bytes(m as nat) + seq![d]);
                    assert(dec_bytes(m as nat) + rev@.reverse() =~= (dec_bytes(m as nat)
                        + seq![d]) + old_rev.reverse());
                    assert(dec_bytes(n as nat) =~= dec_bytes(m as nat) + rev@.reverse());
                } else {
                    assert(dec_bytes(old_m as nat) =~= seq![d]);
                    assert(dec_bytes(n as nat) =~= rev@.reverse());
                }
            }
        }
        if m == 0 {
            break ;
        }
    }
    let mut out: Vec<u8> = Vec::new();
    let mut i: usize = rev.len();
    while i > 0
        invariant
            i <= rev@.len(),
            out@ == rev@.subrange(i as int, rev@.len() as int).reverse(),
        decreases i,
    {
        i = i - 1;
        out.push(rev[i]);
        proof {
            assert(out@ =~= rev@.subrange(i as int, rev@.len() as int).reverse());
        }
    }
    proof {
        assert(rev@.subrange(0, rev@.len() as int) =~= rev@);
    }
    out
}

/// Parse the digit substring `s[from..to]` as a `usize`.
///
/// `None` means the substring is empty, holds a non-digit, or names a value
/// above `usize::MAX`.
pub fn parse_digits_bytes(s: &[u8], from: usize, to: usize) -> (r: Option<usize>)
    requires
        from <= to <= s@.len(),
    ensures
        ({
            let d = s@.subrange(from as int, to as int);
            match r {
                Some(v) => d.len() >= 1 && all_digit_bytes(d) && v == dec_val_bytes(d),
                None => !(d.len() >= 1 && all_digit_bytes(d) && dec_val_bytes(d) <= usize::MAX),
            }
        }),
{
    let ghost whole = s@.subrange(from as int, to as int);
    if from == to {
        return None;
    }
    let mut acc: usize = 0;
    let mut i: usize = from;
    while i < to
        invariant
            from <= i <= to <= s@.len(),
            whole == s@.subrange(from as int, to as int),
            all_digit_bytes(s@.subrange(from as int, i as int)),
            acc == dec_val_bytes(s@.subrange(from as int, i as int)),
        decreases to - i,
    {
        let b = s[i];
        if !(48 <= b && b <= 57) {
            proof {
                assert(whole[i - from] == b);
            }
            return None;
        }
        let d = (b - 48) as usize;
        let ghost prev = s@.subrange(from as int, i as int);
        let ghost cur = s@.subrange(from as int, i as int + 1);
        proof {
            assert(cur.drop_last() =~= prev);
            assert(cur.last() == b);
            assert(dec_val_bytes(cur) == acc * 10 + d);
        }
        let step = match acc.checked_mul(10) {
            Some(x) => x.checked_add(d),
            None => None,
        };
        match step {
            Some(v) => {
                acc = v;
            },
            None => {
                proof {
                    assert(dec_val_bytes(cur) > usize::MAX);
                    if all_digit_bytes(whole) && dec_val_bytes(whole) <= usize::MAX {
                        lemma_dec_val_bytes_prefix(whole, i as int + 1 - from);
                        assert(whole.take(i as int + 1 - from) =~= cur);
                    }
                }
                return None;
            },
        }
        i = i + 1;
    }
    proof {
        assert(s@.subrange(from as int, i as int) =~= whole);
    }
    Some(acc)
}

// ---------------------------------------------------------------------------
// Digits as characters.
// ---------------------------------------------------------------------------

pub open spec fn is_digit_char(c: char) -> bool {
    48 <= c as int <= 57
}

pub open spec fn digit_val_char(c: char) -> nat {
    if is_digit_char(c) {
        (c as int - 48) as nat
    } else {
        0
    }
}

pub open spec fn all_digit_chars(s: Seq<char>) -> bool {
    forall|i: int| 0 <= i < s.len() ==> is_digit_char(#[trigger] s[i])
}

pub open spec fn dec_val_chars(s: Seq<char>) -> nat
    decreases s.len(),
{
    if s.len() == 0 {
        0
    } else {
        dec_val_chars(s.drop_last()) * 10 + digit_val_char(s.last())
    }
}

pub proof fn lemma_dec_val_chars_prefix(s: Seq<char>, k: int)
    requires
        0 <= k <= s.len(),
    ensures
        dec_val_chars(s.take(k)) <= dec_val_chars(s),
    decreases s.len() - k,
{
    if k == s.len() {
        assert(s.take(k) =~= s);
    } else {
        lemma_dec_val_chars_prefix(s, k + 1);
        assert(s.take(k + 1).drop_last() =~= s.take(k));
        assert(dec_val_chars(s.take(k + 1)) == dec_val_chars(s.take(k)) * 10 + digit_val_char(
            s.take(k + 1).last(),
        ));
    }
}

/// What parsing a whole character string as a `u32` yields.
pub open spec fn spec_parse_u32(s: Seq<char>) -> Option<u32> {
    if s.len() >= 1 && all_digit_chars(s) && dec_val_chars(s) <= u32::MAX {
        Some(dec_val_chars(s) as u32)
    } else {
        None
    }
}

/// Parse a whole character string as a `u32`.
pub fn parse_u32_chars(s: &str) -> (r: Option<u32>)
    ensures
        r == spec_parse_u32(s@),
{
    let n = s.unicode_len();
    if n == 0 {
        return None;
    }
    let mut acc: u32 = 0;
    let mut i: usize = 0;
    while i < n
        invariant
            0 <= i <= n,
            n == s@.len(),
            all_digit_chars(s@.take(i as int)),
            acc == dec_val_chars(s@.take(i as int)),
        decreases n - i,
    {
        let c = s.get_char(i);
        let cv = c as u32;
        if !(48 <= cv && cv <= 57) {
            return None;
        }
        let d = cv - 48;
        let ghost cur = s@.take(i as int + 1);
        proof {
            assert(cur.drop_last() =~= s@.take(i as int));
            assert(cur.last() == c);
            assert(dec_val_chars(cur) == acc * 10 + d);
        }
        let step = match acc.checked_mul(10) {
            Some(x) => x.checked_add(d),
            None => None,
        };
        match step {
            Some(v) => {
                acc = v;
            },
            None => {
                proof {
                    if all_digit_chars(s@) && dec_val_chars(s@) <= u32::MAX {
                        lemma_dec_val_chars_prefix(s@, i as int + 1);
                        assert(s@.take(i as int + 1) =~= cur);
                    }
                }
                return None;
            },
        }
        i = i + 1;
    }
    proof {
        assert(s@.take(n as int) =~= s@);
    }
    Some(acc)
}

/// Parse the digit substring `s[from..to]` as a `usize` index.
///
/// The caller has already checked that the range holds digits only; `None`
/// means the value does not fit in a `usize`.
pub fn parse_index_chars(s: &str, from: usize, to: usize) -> (r: Option<usize>)
    requires
        from < to <= s@.len(),
        all_digit_chars(s@.subrange(from as int, to as int)),
    ensures
        ({
            let d = s@.subrange(from as int, to as int);
            match r {
                Some(v) => v == dec_val_chars(d),
                None => dec_val_chars(d) > usize::MAX,
            }
        }),
{
    let ghost whole = s@.subrange(from as int, to as int);
    let mut acc: usize = 0;
    let mut i: usize = from;
    while i < to
        invariant
            from <= i <= to <= s@.len(),
            whole == s@.subrange(from as int, to as int),
            all_digit_chars(whole),
            acc == dec_val_chars(s@.subrange(from as int, i as int)),
        decreases to - i,
    {
        let c = s.get_char(i);
        proof {
            assert(whole[i - from] == c);
        }
        let cv = c as u32;
        let d = (cv - 48) as usize;
        let ghost prev = s@.subrange(from as int, i as int);
        let ghost cur = s@.subrange(from as int, i as int + 1);
        proof {
            assert(cur.drop_last() =~= prev);
            assert(cur.last() == c);
            assert(dec_val_chars(cur) == acc * 10 + d);
        }
        let step = match acc.checked_mul(10) {
            Some(x) => x.checked_add(d),
            None => None,
        };
        match step {
            Some(v) => {
                acc = v;
            },
            None => {
                proof {
                    lemma_dec_val_chars_prefix(whole, i as int + 1 - from);
                    assert(whole.take(i as int + 1 - from) =~= cur);
                }
                return None;
            },
        }
        i = i + 1;
    }
    proof {
        assert(s@.subrange(from as int, i as int) =~= whole);
    }
    Some(acc)
}

} // verus!
