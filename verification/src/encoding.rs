//! The fixed set of encoding names a tokenizer can be bound to, and their resolution.
use vstd::prelude::*;

verus! {

/// The byte-pair-encoding vocabularies this library can count with.
#[derive(Clone, Copy, Debug, PartialEq, Eq, Structural)]
pub enum EncodingId {
    Cl100kBase,
    P50kBase,
    P50kEdit,
    R50kBase,
}

/// Whether `s` is one of the recognized encoding names
/// (`gpt2` is an alias for `r50k_base`).
pub open spec fn recognized_name(s: Seq<char>) -> bool {
    ||| s == "cl100k_base"@
    ||| s == "p50k_base"@
    ||| s == "p50k_edit"@
    ||| s == "r50k_base"@
    ||| s == "gpt2"@
}

/// The encoding a name selects, if any.
pub open spec fn encoding_of_name(s: Seq<char>) -> Option<EncodingId> {
    if s == "cl100k_base"@ {
        Some(EncodingId::Cl100kBase)
    } else if s == "p50k_base"@ {
        Some(EncodingId::P50kBase)
    } else if s == "p50k_edit"@ {
        Some(EncodingId::P50kEdit)
    } else if s == "r50k_base"@ || s == "gpt2"@ {
        Some(EncodingId::R50kBase)
    } else {
        None
    }
}

/// Law: name resolution succeeds on exactly the recognized names;
/// every other string selects no encoding.
pub proof fn lemma_resolution_exactly_recognized(s: Seq<char>)
    ensures
        recognized_name(s) <==> encoding_of_name(s) is Some,
{
}

/// Character-for-character string comparison.
fn str_eq(a: &str, b: &str) -> (r: bool)
    ensures
        r == (a@ == b@),
{
    let alen = a.unicode_len();
    let blen = b.unicode_len();
    if alen != blen {
        return false;
    }
    let mut i: usize = 0;
    while i < alen
        invariant
            i <= alen,
            alen as nat == a@.len(),
            alen as nat == b@.len(),
            forall|j: int| 0 <= j < i ==> a@[j] == b@[j],
        decreases alen - i,
    {
        if a.get_char(i) != b.get_char(i) {
            return false;
        }
        i += 1;
    }
    proof {
        assert(a@ =~= b@);
    }
    true
}

/// Resolve an encoding name to the encoding it selects, or `None` when it is
/// not one of the recognized names.
pub fn parse_encoding_name(s: &str) -> (r: Option<EncodingId>)
    ensures
        r == encoding_of_name(s@),
{
    if str_eq(s, "cl100k_base") {
        Some(EncodingId::Cl100kBase)
    } else if str_eq(s, "p50k_base") {
        Some(EncodingId::P50kBase)
    } else if str_eq(s, "p50k_edit") {
        Some(EncodingId::P50kEdit)
    } else if str_eq(s, "r50k_base") {
        Some(EncodingId::R50kBase)
    } else if str_eq(s, "gpt2") {
        Some(EncodingId::R50kBase)
    } else {
        None
    }
}

} // verus!
