pub mod encoding;
pub mod format;
pub mod report;
pub mod tokenizer;

pub use encoding::EncodingId;
pub use encoding::parse_encoding_name;
pub use report::BatchReport;
pub use report::CountedSource;
pub use report::SourceOutcome;
pub use report::build_report;
pub use report::count_sources;
pub use report::stdin_count_line;
pub use tokenizer::Tokenizer;
