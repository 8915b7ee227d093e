//! A tokenizer bound to one encoding, and the token counting it provides.
//!
//! The byte-pair-encoding machinery itself comes from the `tiktoken_rs` crate;
//! this module states what the library relies on of it and proves everything
//! around those statements.
use crate::encoding::EncodingId;
use vstd::prelude::*;

verus! {

#[verifier::external_type_specification]
#[verifier::external_body]
pub struct ExCoreBPE(tiktoken_rs::CoreBPE);

/// How many tokens the vocabulary of `enc` splits `text` into, special tokens
/// included. The byte-pair encoding of a text is a function of the vocabulary,
/// the merge rules and the text alone, so this is well defined; no further
/// statement is made of its value.
pub uninterp spec fn token_count(enc: EncodingId, text: Seq<char>) -> nat;

/// Whether the tokenizer engine fails on `text` under the vocabulary of
/// `enc` instead of producing a count. The engine's failure — exceeding the
/// regex backtrack limit — is as deterministic as its value: the limit is
/// fixed and the patterns are fixed per vocabulary, so this too is a function
/// of the encoding and the text alone. It never holds of the empty text,
/// which nothing matches.
pub uninterp spec fn engine_fails(enc: EncodingId, text: Seq<char>) -> bool;

/// Relies on tiktoken_rs::cl100k_base: builds the tokenizer for the
/// cl100k_base vocabulary from the data embedded in that crate; on that
/// fixed, well-formed data it always succeeds.
#[verifier::external_body]
fn load_cl100k_base() -> (r: Result<tiktoken_rs::CoreBPE, String>)
    ensures
        r is Ok,
{
    tiktoken_rs::cl100k_base().map_err(|e| format!("{}", e))
}

/// Relies on tiktoken_rs::p50k_base: builds the tokenizer for the
/// p50k_base vocabulary from the data embedded in that crate; on that
/// fixed, well-formed data it always succeeds.
#[verifier::external_body]
fn load_p50k_base() -> (r: Result<tiktoken_rs::CoreBPE, String>)
    ensures
        r is Ok,
{
    tiktoken_rs::p50k_base().map_err(|e| format!("{}", e))
}

/// Relies on tiktoken_rs::p50k_edit: builds the tokenizer for the
/// p50k_edit vocabulary from the data embedded in that crate; on that
/// fixed, well-formed data it always succeeds.
#[verifier::external_body]
fn load_p50k_edit() -> (r: Result<tiktoken_rs::CoreBPE, String>)
    ensures
        r is Ok,
{
    tiktoken_rs::p50k_edit().map_err(|e| format!("{}", e))
}

/// Relies on tiktoken_rs::r50k_base: builds the tokenizer for the
/// r50k_base vocabulary from the data embedded in that crate; on that
/// fixed, well-formed data it always succeeds.
#[verifier::external_body]
fn load_r50k_base() -> (r: Result<tiktoken_rs::CoreBPE, String>)
    ensures
        r is Ok,
{
    tiktoken_rs::r50k_base().map_err(|e| format!("{}", e))
}

/// A tokenizer bound to one encoding for the life of the process.
pub struct Tokenizer {
    bpe: tiktoken_rs::CoreBPE,
    enc: EncodingId,
}

impl View for Tokenizer {
    type V = EncodingId;

    closed spec fn view(&self) -> EncodingId {
        self.enc
    }
}

/// Relies on tiktoken_rs::CoreBPE::encode, with every special token of the
/// vocabulary allowed, as tiktoken_rs::CoreBPE::encode_with_special_tokens
/// calls it: the token ids it returns depend on the vocabulary the tokenizer
/// was built with and on the text alone, so their number is `token_count` of
/// the two; whether it reports a regex engine failure instead — returned
/// here as `None` — is equally a function of the two, `engine_fails`; and on
/// empty text it matches nothing, cannot fail, and returns no tokens. The
/// constructor of `Tokenizer` is the one place that pairs a `CoreBPE` with
/// the `EncodingId` whose loader built it.
#[verifier::external_body]
fn encode_count(t: &Tokenizer, text: &str) -> (r: Option<usize>)
    ensures
        r is Some <==> !engine_fails(t@, text@),
        r matches Some(c) ==> c as nat == token_count(t@, text@),
        text@.len() == 0 ==> r == Some(0usize),
{
    let allowed = t.bpe.special_tokens();
    match t.bpe.encode(text, &allowed) {
        Ok((ids, _)) => Some(ids.len()),
        Err(_) => None,
    }
}

impl Tokenizer {
    /// Build the tokenizer bound to `enc`. The vocabulary data is embedded
    /// and well formed, so construction always succeeds; the error arm only
    /// keeps the reporting path of a failed initialization in the signature.
    pub fn new(enc: EncodingId) -> (r: Result<Tokenizer, String>)
        ensures
            r is Ok,
            r matches Ok(t) ==> t@ == enc,
    {
        let loaded = match enc {
            EncodingId::Cl100kBase => load_cl100k_base(),
            EncodingId::P50kBase => load_p50k_base(),
            EncodingId::P50kEdit => load_p50k_edit(),
            EncodingId::R50kBase => load_r50k_base(),
        };
        match loaded {
            Ok(bpe) => Ok(Tokenizer { bpe, enc }),
            Err(e) => Err(e),
        }
    }

    /// Count the tokens of `text`, special tokens included. The count comes
    /// back exactly when the engine does not fail on `text`, and an empty
    /// text always counts zero tokens.
    pub fn count(&self, text: &str) -> (r: Option<usize>)
        ensures
            r is Some <==> !engine_fails(self@, text@),
            r matches Some(c) ==> c as nat == token_count(self@, text@),
            text@.len() == 0 ==> r == Some(0usize),
    {
        encode_count(self, text)
    }
}

/// Law: counting is pure. Both the count and whether a count comes back at
/// all are functions of the encoding and the text alone, so any two outcomes
/// that `count`'s contract allows for the same encoding and text are
/// identical — in particular, two calls on the same input, or calls through
/// two tokenizers bound to the same encoding, agree in full.
pub proof fn lemma_count_deterministic(
    enc: EncodingId,
    text: Seq<char>,
    r1: Option<usize>,
    r2: Option<usize>,
)
    requires
        r1 is Some <==> !engine_fails(enc, text),
        r1 matches Some(c) ==> c as nat == token_count(enc, text),
        r2 is Some <==> !engine_fails(enc, text),
        r2 matches Some(c) ==> c as nat == token_count(enc, text),
    ensures
        r1 == r2,
{
}

} // verus!
