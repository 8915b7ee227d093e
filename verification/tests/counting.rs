use token_counter::EncodingId;
use token_counter::Tokenizer;
use token_counter::stdin_count_line;

fn tokenizer(id: EncodingId) -> Tokenizer {
    Tokenizer::new(id).expect("the vocabulary data is embedded and loads")
}

#[test]
fn count_matches_the_reference_tokenizer() {
    let tok = tokenizer(EncodingId::Cl100kBase);
    let reference = tiktoken_rs::cl100k_base().unwrap();
    for text in [
        "hello world",
        "foo",
        "foo bar",
        "A longer line,\nwith a newline and some punctuation!",
        "non-ascii: \u{00e9}\u{00e8}\u{1F600}",
    ] {
        let expected = reference.encode_with_special_tokens(text).len();
        assert_eq!(tok.count(text), Some(expected));
    }
}

#[test]
fn special_tokens_in_the_text_are_counted() {
    let tok = tokenizer(EncodingId::Cl100kBase);
    assert_eq!(tok.count("<|endoftext|>"), Some(1));
}

#[test]
fn counting_is_deterministic() {
    let tok = tokenizer(EncodingId::P50kBase);
    let first = tok.count("hello world");
    let second = tok.count("hello world");
    assert!(first.is_some());
    assert_eq!(first, second);
}

#[test]
fn stdin_line_for_hello_world() {
    let tok = tokenizer(EncodingId::Cl100kBase);
    let line = stdin_count_line(&tok, "hello world").unwrap();
    assert_eq!(line, "2");
}

#[test]
fn gpt2_counts_exactly_as_r50k_base() {
    let gpt2 = tokenizer(token_counter::parse_encoding_name("gpt2").unwrap());
    let r50k = tokenizer(token_counter::parse_encoding_name("r50k_base").unwrap());
    for text in ["", "hello world", "foo bar", "<|endoftext|>", "\u{00e9}\u{1F600}"] {
        assert_eq!(gpt2.count(text), r50k.count(text));
    }
}

#[test]
fn same_name_tokenizers_behave_identically() {
    let first = tokenizer(EncodingId::Cl100kBase);
    let second = tokenizer(EncodingId::Cl100kBase);
    for text in ["", "hello world", "some longer text, with punctuation."] {
        assert_eq!(first.count(text), second.count(text));
    }
}

#[test]
fn empty_text_counts_zero_under_every_encoding() {
    for id in [
        EncodingId::Cl100kBase,
        EncodingId::P50kBase,
        EncodingId::P50kEdit,
        EncodingId::R50kBase,
    ] {
        let tok = tokenizer(id);
        assert_eq!(tok.count(""), Some(0));
        assert_eq!(stdin_count_line(&tok, "").unwrap(), "0");
    }
}
