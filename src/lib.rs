//! Rule-driven classification and decoration of kernel log lines.
//!
//! A [`RuleSet`](rules::RuleSet) holds one keyword rule per severity
//! category. Lines are classified by the first rule, in severity order,
//! that has a keyword occurring in the line (case-insensitively), decorated
//! with that rule's icon and color, and partitioned into four buckets. The
//! configuration resolver decides which source supplies the active rules.
pub mod bucket;
pub mod config;
pub mod formatter;
pub mod parser;
pub mod rules;
pub mod text;

pub use bucket::{bucket, Buckets};
pub use config::{ConfigError, Probe, Resolved, Resolver};
pub use formatter::format_line;
pub use parser::{matches_rule, parse_log};
pub use rules::{LogCategory, Rule, RuleSet};
