//! Multi-source aggregation: counting every input source and building the
//! per-source report lines, the error lines and the trailing total.
use crate::encoding::EncodingId;
use crate::format::dec_digits;
use crate::format::decimal_string;
use crate::format::padded_decimal;
use crate::format::padded_decimal_string;
use crate::tokenizer::Tokenizer;
use crate::tokenizer::engine_fails;
use crate::tokenizer::token_count;
use vstd::prelude::*;

verus! {

/// Every count in the report is left-padded to at least this many characters.
pub const COUNT_FIELD_WIDTH: usize = 8;

/// One input source as handed to the library: its label (the path exactly as
/// given, kept for the report) and what reading it produced — its full text,
/// or the reason it could not be read.
pub struct SourceOutcome {
    pub label: String,
    pub read: Result<String, String>,
}

/// One source after counting: its label, and either its token count or the
/// reason no count was produced.
pub struct CountedSource {
    pub label: String,
    pub outcome: Result<usize, String>,
}

/// How a counted source relates to the source it came from: the label is
/// kept; a source that could not be read keeps its reason and is never
/// counted; a source that was read is counted exactly when the tokenizer
/// engine does not fail on its contents (it never fails on empty contents),
/// and marked failed exactly when it does.
pub open spec fn counted_matches(enc: EncodingId, src: SourceOutcome, out: CountedSource) -> bool {
    &&& out.label@ == src.label@
    &&& match (src.read, out.outcome) {
        (Ok(c), Ok(n)) => n as nat == token_count(enc, c@) && !engine_fails(enc, c@),
        (Ok(c), Err(_)) => engine_fails(enc, c@),
        (Err(m), Err(kept)) => kept@ == m@,
        (Err(m), Ok(_)) => false,
    }
}

/// How many sources were counted successfully.
pub open spec fn ok_count_of(s: Seq<CountedSource>) -> nat
    decreases s.len(),
{
    if s.len() == 0 {
        0
    } else {
        ok_count_of(s.drop_last()) + (if s.last().outcome is Ok {
            1nat
        } else {
            0nat
        })
    }
}

/// The sum of the counts of the successfully counted sources — the counts
/// themselves, never a recount of anything concatenated.
pub open spec fn total_of(s: Seq<CountedSource>) -> nat
    decreases s.len(),
{
    if s.len() == 0 {
        0
    } else {
        total_of(s.drop_last()) + (match s.last().outcome {
            Ok(n) => n as nat,
            Err(_) => 0nat,
        })
    }
}

/// The report line of one counted source: its count, padded, one space, its label.
pub open spec fn report_line(count: nat, label: Seq<char>) -> Seq<char> {
    padded_decimal(count, COUNT_FIELD_WIDTH as nat) + " "@ + label
}

/// The trailing aggregate line: the total, padded, one space, the word `total`.
pub open spec fn total_line(total: nat) -> Seq<char> {
    padded_decimal(total, COUNT_FIELD_WIDTH as nat) + " "@ + "total"@
}

/// The diagnostic line of one failed source.
pub open spec fn error_line(label: Seq<char>, reason: Seq<char>) -> Seq<char> {
    "Error reading file "@ + label + ": "@ + reason
}

/// The report lines of the counted sources, in source order, failures skipped.
pub open spec fn report_lines_of(s: Seq<CountedSource>) -> Seq<Seq<char>>
    decreases s.len(),
{
    if s.len() == 0 {
        Seq::empty()
    } else {
        report_lines_of(s.drop_last()) + (match s.last().outcome {
            Ok(n) => seq![report_line(n as nat, s.last().label@)],
            Err(_) => Seq::empty(),
        })
    }
}

/// The diagnostic lines of the failed sources, in source order, successes skipped.
pub open spec fn error_lines_of(s: Seq<CountedSource>) -> Seq<Seq<char>>
    decreases s.len(),
{
    if s.len() == 0 {
        Seq::empty()
    } else {
        error_lines_of(s.drop_last()) + (match s.last().outcome {
            Ok(_) => Seq::empty(),
            Err(m) => seq![error_line(s.last().label@, m@)],
        })
    }
}

/// Law: the aggregates are additive over splitting a batch in two — the
/// total is the plain sum of what each part contributes, and the lines of
/// the parts stand one part after the other.
pub proof fn lemma_aggregates_additive(a: Seq<CountedSource>, b: Seq<CountedSource>)
    ensures
        ok_count_of(a + b) == ok_count_of(a) + ok_count_of(b),
        total_of(a + b) == total_of(a) + total_of(b),
        report_lines_of(a + b) == report_lines_of(a) + report_lines_of(b),
        error_lines_of(a + b) == error_lines_of(a) + error_lines_of(b),
    decreases b.len(),
{
    if b.len() == 0 {
        assert(a + b =~= a);
        assert(report_lines_of(a) + report_lines_of(b) =~= report_lines_of(a));
        assert(error_lines_of(a) + error_lines_of(b) =~= error_lines_of(a));
    } else {
        lemma_aggregates_additive(a, b.drop_last());
        assert((a + b).drop_last() =~= a + b.drop_last());
        assert(report_lines_of(a + b) =~= report_lines_of(a) + report_lines_of(b));
        assert(error_lines_of(a + b) =~= error_lines_of(a) + error_lines_of(b));
    }
}

/// Law: exactly one report line per successfully counted source, and one
/// diagnostic line per failed one.
pub proof fn lemma_one_line_per_source(s: Seq<CountedSource>)
    ensures
        report_lines_of(s).len() == ok_count_of(s),
        report_lines_of(s).len() + error_lines_of(s).len() == s.len(),
    decreases s.len(),
{
    if s.len() > 0 {
        lemma_one_line_per_source(s.drop_last());
    }
}

/// How many of the sources were read successfully.
pub open spec fn ok_read_count(enc: EncodingId, srcs: Seq<SourceOutcome>) -> nat
    decreases srcs.len(),
{
    if srcs.len() == 0 {
        0
    } else {
        ok_read_count(enc, srcs.drop_last()) + (if srcs.last().read is Ok {
            1nat
        } else {
            0nat
        })
    }
}

/// The sum of the token counts of the sources that were read successfully,
/// each text counted independently.
pub open spec fn sum_token_counts(enc: EncodingId, srcs: Seq<SourceOutcome>) -> nat
    decreases srcs.len(),
{
    if srcs.len() == 0 {
        0
    } else {
        sum_token_counts(enc, srcs.drop_last()) + (match srcs.last().read {
            Ok(c) => token_count(enc, c@),
            Err(_) => 0nat,
        })
    }
}

/// Law: when the engine fails on none of the read texts, counting a batch
/// loses nothing — every source that was read is counted, and the aggregate
/// is the literal sum of the per-source token counts, each text counted
/// independently, never a recount of anything concatenated.
pub proof fn lemma_counted_batch_total(
    enc: EncodingId,
    srcs: Seq<SourceOutcome>,
    counted: Seq<CountedSource>,
)
    requires
        counted.len() == srcs.len(),
        forall|i: int| 0 <= i < srcs.len() ==> counted_matches(enc, srcs[i], #[trigger] counted[i]),
        forall|i: int|
            0 <= i < srcs.len() ==> ((#[trigger] srcs[i].read) matches Ok(c) ==> !engine_fails(
                enc,
                c@,
            )),
    ensures
        ok_count_of(counted) == ok_read_count(enc, srcs),
        total_of(counted) == sum_token_counts(enc, srcs),
    decreases srcs.len(),
{
    if srcs.len() > 0 {
        assert(counted.drop_last() =~= counted.subrange(0, counted.len() - 1));
        lemma_counted_batch_total(enc, srcs.drop_last(), counted.drop_last());
        assert(counted_matches(enc, srcs[srcs.len() - 1], counted[counted.len() - 1]));
    }
}

/// Count every source that was read, in order. A source that could not be
/// read keeps its reason; one the tokenizer engine fails on (never an empty
/// one) is marked with the failure instead of a count.
pub fn count_sources(tok: &Tokenizer, sources: &Vec<SourceOutcome>) -> (r: Vec<CountedSource>)
    ensures
        r@.len() == sources@.len(),
        forall|i: int|
            0 <= i < sources@.len() ==> counted_matches(tok@, sources@[i], #[trigger] r@[i]),
{
    let mut out: Vec<CountedSource> = Vec::new();
    let mut idx: usize = 0;
    while idx < sources.len()
        invariant
            idx <= sources@.len(),
            out@.len() == idx,
            forall|i: int| 0 <= i < idx ==> counted_matches(tok@, sources@[i], #[trigger] out@[i]),
        decreases sources@.len() - idx,
    {
        let s = &sources[idx];
        let outcome: Result<usize, String> = match &s.read {
            Ok(content) => match tok.count(content.as_str()) {
                Some(n) => Ok(n),
                None => Err(String::from_str("the tokenizer could not encode the contents")),
            },
            Err(reason) => Err(reason.clone()),
        };
        out.push(CountedSource { label: s.label.clone(), outcome });
        idx += 1;
    }
    out
}

/// The finished report of one batch.
pub struct BatchReport {
    /// The output lines, in source order; the total line, if owed, last.
    pub lines: Vec<String>,
    /// The diagnostic lines, in source order.
    pub errors: Vec<String>,
    /// How many sources were counted successfully.
    pub ok_files: usize,
    /// The sum of the counts of the successfully counted sources.
    pub total: u128,
}

/// Build the report of a batch of counted sources: one padded line per
/// count, one diagnostic per failure, and — only when more than one source
/// was counted — a trailing line with the sum of the counts.
pub fn build_report(counted: &Vec<CountedSource>) -> (r: BatchReport)
    ensures
        r.ok_files as nat == ok_count_of(counted@),
        r.total as nat == total_of(counted@),
        r.errors.deep_view() == error_lines_of(counted@),
        r.lines.deep_view() == report_lines_of(counted@) + (if ok_count_of(counted@) > 1 {
            seq![total_line(total_of(counted@))]
        } else {
            Seq::<Seq<char>>::empty()
        }),
{
    let mut lines: Vec<String> = Vec::new();
    let mut errors: Vec<String> = Vec::new();
    let mut ok_files: usize = 0;
    let mut total: u128 = 0;
    let mut idx: usize = 0;
    while idx < counted.len()
        invariant
            idx <= counted@.len(),
            ok_files <= idx,
            ok_files as nat == ok_count_of(counted@.take(idx as int)),
            total as nat == total_of(counted@.take(idx as int)),
            total as int <= (idx as int) * (usize::MAX as int),
            lines.deep_view() == report_lines_of(counted@.take(idx as int)),
            errors.deep_view() == error_lines_of(counted@.take(idx as int)),
        decreases counted@.len() - idx,
    {
        let c = &counted[idx];
        let ghost prefix = counted@.take(idx as int);
        match &c.outcome {
            Ok(n) => {
                let mut line = padded_decimal_string(*n as u128, COUNT_FIELD_WIDTH);
                line.append(" ");
                line.append(c.label.as_str());
                proof {
                    assert(line@ =~= report_line(*n as nat, c.label@));
                }
                lines.push(line);
                proof {
                    assert(total as int + (*n as int) <= u128::MAX && total as int + (*n as int)
                        <= ((idx as int) + 1) * (usize::MAX as int)) by (nonlinear_arith)
                        requires
                            total as int <= (idx as int) * (usize::MAX as int),
                            (*n as int) <= usize::MAX as int,
                            (idx as int) + 1 <= usize::MAX as int,
                            usize::MAX as int <= u64::MAX as int,
                    ;
                }
                total = total + (*n as u128);
                ok_files = ok_files + 1;
            },
            Err(reason) => {
                let mut eline = String::from_str("Error reading file ");
                eline.append(c.label.as_str());
                eline.append(": ");
                eline.append(reason.as_str());
                proof {
                    assert(eline@ =~= error_line(c.label@, reason@));
                }
                errors.push(eline);
            },
        }
        proof {
            assert(counted@.take(idx as int + 1).drop_last() =~= prefix);
            assert(counted@.take(idx as int + 1).last() == counted@[idx as int]);
            assert(lines.deep_view() =~= report_lines_of(counted@.take(idx as int + 1)));
            assert(errors.deep_view() =~= error_lines_of(counted@.take(idx as int + 1)));
        }
        idx += 1;
    }
    proof {
        assert(counted@.take(counted@.len() as int) =~= counted@);
    }
    if ok_files > 1 {
        let mut tline = padded_decimal_string(total, COUNT_FIELD_WIDTH);
        tline.append(" ");
        tline.append("total");
        proof {
            assert(tline@ =~= total_line(total_of(counted@)));
        }
        lines.push(tline);
        proof {
            assert(lines.deep_view() =~= report_lines_of(counted@) + seq![
                total_line(total_of(counted@)),
            ]);
        }
    } else {
        proof {
            assert(lines.deep_view() =~= report_lines_of(counted@) + Seq::<Seq<char>>::empty());
        }
    }
    BatchReport { lines, errors, ok_files, total }
}

/// The single line of the no-file mode: the count of the one text, in plain
/// decimal, no label and no padding. The line comes back exactly when the
/// tokenizer engine does not fail on the text; an empty text always reports
/// zero.
pub fn stdin_count_line(tok: &Tokenizer, content: &str) -> (r: Option<String>)
    ensures
        r is Some <==> !engine_fails(tok@, content@),
        r matches Some(line) ==> line@ == dec_digits(token_count(tok@, content@)),
        content@.len() == 0 ==> (r matches Some(line) && line@ == dec_digits(0)),
{
    match tok.count(content) {
        Some(n) => Some(decimal_string(n as u128)),
        None => None,
    }
}

} // verus!
