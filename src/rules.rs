//! The rule model: one keyword rule per severity category.
use vstd::prelude::*;

verus! {

/// The severity category assigned to a log line.
#[derive(Debug, Clone, Copy, PartialEq, Eq, Structural)]
pub enum LogCategory {
    /// Critical severity log
    Critical,
    /// Error severity log
    Error,
    /// Warning severity log
    Warning,
    /// Informational log
    Info,
}

impl LogCategory {
    /// Position of the category in the matching order: the most severe first.
    pub open spec fn rank(self) -> nat {
        match self {
            LogCategory::Critical => 0,
            LogCategory::Error => 1,
            LogCategory::Warning => 2,
            LogCategory::Info => 3,
        }
    }
}

/// A rule for matching log lines, with the color and icon that decorate
/// the lines it matches.
#[derive(Debug)]
pub struct Rule {
    /// Keywords that trigger this rule (compared case-insensitively)
    pub keywords: Vec<String>,
    /// Color name for highlighting
    pub color: String,
    /// Icon to display with the log
    pub icon: String,
}

/// What a rule holds, as character sequences.
pub struct RuleView {
    pub keywords: Seq<Seq<char>>,
    pub color: Seq<char>,
    pub icon: Seq<char>,
}

impl View for Rule {
    type V = RuleView;

    open spec fn view(&self) -> RuleView {
        RuleView {
            keywords: self.keywords@.map_values(|k: String| k@),
            color: self.color@,
            icon: self.icon@,
        }
    }
}

/// The four rules, one per category.
#[derive(Debug)]
pub struct RuleSet {
    /// Rules for critical logs
    pub critical: Rule,
    /// Rules for error logs
    pub error: Rule,
    /// Rules for warning logs
    pub warning: Rule,
    /// Rules for informational logs
    pub info: Rule,
}

/// What a rule set holds, as character sequences.
pub struct RuleSetView {
    pub critical: RuleView,
    pub error: RuleView,
    pub warning: RuleView,
    pub info: RuleView,
}

impl View for RuleSet {
    type V = RuleSetView;

    open spec fn view(&self) -> RuleSetView {
        RuleSetView {
            critical: self.critical@,
            error: self.error@,
            warning: self.warning@,
            info: self.info@,
        }
    }
}

impl RuleSetView {
    /// The rule that governs a category.
    pub open spec fn rule_for(self, c: LogCategory) -> RuleView {
        match c {
            LogCategory::Critical => self.critical,
            LogCategory::Error => self.error,
            LogCategory::Warning => self.warning,
            LogCategory::Info => self.info,
        }
    }
}

} // verus!
