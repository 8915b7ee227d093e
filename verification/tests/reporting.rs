use token_counter::CountedSource;
use token_counter::EncodingId;
use token_counter::SourceOutcome;
use token_counter::Tokenizer;
use token_counter::build_report;
use token_counter::count_sources;
use token_counter::format::decimal_string;
use token_counter::format::padded_decimal_string;

fn tokenizer(id: EncodingId) -> Tokenizer {
    Tokenizer::new(id).expect("the vocabulary data is embedded and loads")
}

fn ok_source(label: &str, text: &str) -> SourceOutcome {
    SourceOutcome { label: label.to_string(), read: Ok(text.to_string()) }
}

fn failed_source(label: &str, reason: &str) -> SourceOutcome {
    SourceOutcome { label: label.to_string(), read: Err(reason.to_string()) }
}

#[test]
fn decimal_rendering_exact_values() {
    assert_eq!(decimal_string(0), "0");
    assert_eq!(decimal_string(7), "7");
    assert_eq!(decimal_string(105), "105");
    assert_eq!(decimal_string(u128::MAX), "340282366920938463463374607431768211455");
}

#[test]
fn padding_matches_the_eight_wide_field() {
    assert_eq!(padded_decimal_string(0, 8), "       0");
    assert_eq!(padded_decimal_string(42, 8), format!("{:8}", 42));
    assert_eq!(padded_decimal_string(12345678, 8), "12345678");
    assert_eq!(padded_decimal_string(123456789, 8), "123456789");
}

#[test]
fn two_files_give_two_lines_and_a_total() {
    let tok = tokenizer(EncodingId::Cl100kBase);
    let reference = tiktoken_rs::cl100k_base().unwrap();
    let n = reference.encode_with_special_tokens("foo").len();
    let m = reference.encode_with_special_tokens("foo bar").len();

    let sources = vec![ok_source("a.txt", "foo"), ok_source("b.txt", "foo bar")];
    let report = build_report(&count_sources(&tok, &sources));

    assert_eq!(report.ok_files, 2);
    assert_eq!(report.total, (n + m) as u128);
    assert_eq!(report.errors.len(), 0);
    assert_eq!(report.lines.len(), 3);
    assert_eq!(report.lines[0], format!("{:8} {}", n, "a.txt"));
    assert_eq!(report.lines[1], format!("{:8} {}", m, "b.txt"));
    assert_eq!(report.lines[2], format!("{:8} total", n + m));
    assert!(report.lines[0].chars().count() >= 9);
}

#[test]
fn a_failed_file_is_skipped_and_one_success_prints_no_total() {
    let tok = tokenizer(EncodingId::Cl100kBase);
    let reference = tiktoken_rs::cl100k_base().unwrap();
    let n = reference.encode_with_special_tokens("foo").len();

    let sources = vec![
        ok_source("a.txt", "foo"),
        failed_source("missing.txt", "No such file or directory (os error 2)"),
    ];
    let report = build_report(&count_sources(&tok, &sources));

    assert_eq!(report.ok_files, 1);
    assert_eq!(report.total, n as u128);
    assert_eq!(report.lines.len(), 1);
    assert_eq!(report.lines[0], format!("{:8} {}", n, "a.txt"));
    assert_eq!(report.errors.len(), 1);
    assert_eq!(
        report.errors[0],
        "Error reading file missing.txt: No such file or directory (os error 2)"
    );
}

#[test]
fn zero_successes_print_no_lines_and_no_total() {
    let tok = tokenizer(EncodingId::Cl100kBase);
    let sources = vec![
        failed_source("one.txt", "Permission denied (os error 13)"),
        failed_source("two.txt", "No such file or directory (os error 2)"),
    ];
    let report = build_report(&count_sources(&tok, &sources));

    assert_eq!(report.ok_files, 0);
    assert_eq!(report.total, 0);
    assert_eq!(report.lines.len(), 0);
    assert_eq!(report.errors.len(), 2);
}

#[test]
fn the_total_is_the_sum_of_the_counts_not_a_recount() {
    let tok = tokenizer(EncodingId::Cl100kBase);
    let reference = tiktoken_rs::cl100k_base().unwrap();
    let n = reference.encode_with_special_tokens("hel").len();
    let m = reference.encode_with_special_tokens("lo").len();
    let concatenated = reference.encode_with_special_tokens("hello").len();

    let sources = vec![ok_source("a.txt", "hel"), ok_source("b.txt", "lo")];
    let report = build_report(&count_sources(&tok, &sources));

    assert_eq!(report.total, (n + m) as u128);
    assert_ne!(report.total, concatenated as u128);
    assert_eq!(report.lines[2], format!("{:8} total", n + m));
}

#[test]
fn counting_keeps_labels_reasons_and_order() {
    let tok = tokenizer(EncodingId::R50kBase);
    let sources = vec![
        failed_source("first.txt", "Is a directory (os error 21)"),
        ok_source("second.txt", ""),
    ];
    let counted: Vec<CountedSource> = count_sources(&tok, &sources);

    assert_eq!(counted.len(), 2);
    assert_eq!(counted[0].label, "first.txt");
    assert_eq!(counted[0].outcome, Err("Is a directory (os error 21)".to_string()));
    assert_eq!(counted[1].label, "second.txt");
    assert_eq!(counted[1].outcome, Ok(0));
}
