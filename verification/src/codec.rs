//! Reversible byte-to-character widening used to keep binary secrets in the
//! vault, which stores strings.  Each byte becomes the character with the
//! same code point; the reverse keeps the low eight bits of each character.
//! This is a compatibility boundary: existing vault entries were written in
//! exactly this form.

use vstd::prelude::*;
use vstd::string::StrSliceExecFns;

verus! {

/// Each byte widened to the character with the same code point.
pub open spec fn widened_chars(bytes: Seq<u8>) -> Seq<char> {
    Seq::new(bytes.len(), |i: int| bytes[i] as char)
}

/// Each character narrowed to its low byte.
pub open spec fn narrowed_bytes(chars: Seq<char>) -> Seq<u8> {
    Seq::new(chars.len(), |i: int| chars[i] as u8)
}

/// Widens a secret's bytes into the string stored in the vault.
pub fn to_string(v: &[u8]) -> (r: String)
    ensures
        r@ == widened_chars(v@),
{
    let mut out = String::new();
    let mut i: usize = 0;
    while i < v.len()
        invariant
            i <= v@.len(),
            out@ == widened_chars(v@).take(i as int),
        decreases v@.len() - i,
    {
        push_char(&mut out, v[i] as char);
        i = i + 1;
        proof {
            assert(out@ =~= widened_chars(v@).take(i as int));
        }
    }
    proof {
        assert(out@ =~= widened_chars(v@));
    }
    out
}

/// Narrows a vault string back to the secret's bytes; the reverse of
/// [`to_string`] on every string it produces.
pub fn to_bytes(s: &str) -> (r: Vec<u8>)
    ensures
        r@ == narrowed_bytes(s@),
{
    let n = s.unicode_len();
    let mut out: Vec<u8> = Vec::new();
    let mut i: usize = 0;
    while i < n
        invariant
            n == s@.len(),
            i <= n,
            out@ == narrowed_bytes(s@).take(i as int),
        decreases n - i,
    {
        let c = s.get_char(i);
        out.push(#[verifier::truncate] (c as u8));
        i = i + 1;
        proof {
            assert(out@ =~= narrowed_bytes(s@).take(i as int));
        }
    }
    proof {
        assert(out@ =~= narrowed_bytes(s@));
    }
    out
}

/// Narrowing undoes widening: a secret survives the trip into the vault's
/// string form and back, whatever its bytes.
pub proof fn lemma_codec_round_trip(bytes: Seq<u8>)
    ensures
        narrowed_bytes(widened_chars(bytes)) == bytes,
{
    assert(narrowed_bytes(widened_chars(bytes)) =~= bytes);
}

/// Relies on String::push: appends exactly the given character.
#[verifier::external_body]
fn push_char(s: &mut String, c: char)
    ensures
        final(s)@ == old(s)@.push(c),
{
    s.push(c);
}

} // verus!
