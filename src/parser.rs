//! The line classifier: the first rule, in severity order, that matches.
use vstd::prelude::*;
use crate::formatter::{format_line, is_decoration};
use crate::rules::{LogCategory, Rule, RuleSet, RuleSetView, RuleView};
use crate::text::{chars_of, lower_of, lowercase, occurs_in, occurs_in_chars};

verus! {

/// A rule matches a line when one of its keywords occurs in the line, both
/// taken in lower case. A rule without keywords matches nothing.
pub open spec fn rule_matches(line: Seq<char>, rule: RuleView) -> bool {
    exists|i: int| 0 <= i < rule.keywords.len() && occurs_in(lower_of(#[trigger] rule.keywords[i]), lower_of(line))
}

/// The first category, in the order Critical, Error, Warning, Info, whose
/// rule matches the line; `None` when no rule does.
pub open spec fn first_match(line: Seq<char>, rules: RuleSetView) -> Option<LogCategory> {
    if rule_matches(line, rules.critical) {
        Some(LogCategory::Critical)
    } else if rule_matches(line, rules.error) {
        Some(LogCategory::Error)
    } else if rule_matches(line, rules.warning) {
        Some(LogCategory::Warning)
    } else if rule_matches(line, rules.info) {
        Some(LogCategory::Info)
    } else {
        None
    }
}

/// `out` is `line` decorated with the icon and color of `rule`.
pub open spec fn decorated_by(out: Seq<char>, line: Seq<char>, rule: RuleView) -> bool {
    is_decoration(out, line, rule.color, rule.icon)
}

/// Checks whether a log line matches any of the keywords of a rule,
/// ignoring case.
pub fn matches_rule(line: &str, rule: &Rule) -> (r: bool)
    ensures
        r == rule_matches(line@, rule@),
{
    if rule.keywords.len() == 0 {
        return false;
    }
    let lowered = lowercase(line);
    let hay = chars_of(lowered.as_str());
    let mut i: usize = 0;
    while i < rule.keywords.len()
        invariant
            i <= rule.keywords@.len(),
            hay@ == lower_of(line@),
            forall|j: int| 0 <= j < i ==> !occurs_in(lower_of(#[trigger] rule@.keywords[j]), lower_of(line@)),
        decreases rule.keywords@.len() - i,
    {
        let kw = lowercase(rule.keywords[i].as_str());
        let needle = chars_of(kw.as_str());
        if occurs_in_chars(&needle, &hay) {
            assert(occurs_in(lower_of(rule@.keywords[i as int]), lower_of(line@)));
            return true;
        }
        i = i + 1;
    }
    false
}

/// Classifies a log line: the decorated line and its category for the first
/// rule, in the order critical, error, warning, info, that matches it, or
/// `None` when no rule matches.
pub fn parse_log(line: &str, rules: &RuleSet) -> (r: Option<(String, LogCategory)>)
    ensures
        r.is_some() == first_match(line@, rules@).is_some(),
        r matches Some((s, c)) ==> Some(c) == first_match(line@, rules@) && decorated_by(s@, line@, rules@.rule_for(c)),
{
    if matches_rule(line, &rules.critical) {
        Some((format_line(line, rules.critical.color.as_str(), rules.critical.icon.as_str()), LogCategory::Critical))
    } else if matches_rule(line, &rules.error) {
        Some((format_line(line, rules.error.color.as_str(), rules.error.icon.as_str()), LogCategory::Error))
    } else if matches_rule(line, &rules.warning) {
        Some((format_line(line, rules.warning.color.as_str(), rules.warning.icon.as_str()), LogCategory::Warning))
    } else if matches_rule(line, &rules.info) {
        Some((format_line(line, rules.info.color.as_str(), rules.info.icon.as_str()), LogCategory::Info))
    } else {
        None
    }
}

/// The category given to a line is the first, in severity order, whose rule
/// matches it: that rule matches, and every more severe rule does not.
pub proof fn lemma_first_match_is_most_severe(line: Seq<char>, rules: RuleSetView, c: LogCategory, d: LogCategory)
    requires
        first_match(line, rules) == Some(c),
        d.rank() < c.rank(),
    ensures
        rule_matches(line, rules.rule_for(c)),
        !rule_matches(line, rules.rule_for(d)),
{
}

/// A line that no rule matches gets no category, and a line that some rule
/// matches gets one.
pub proof fn lemma_match_iff_some_rule(line: Seq<char>, rules: RuleSetView)
    ensures
        first_match(line, rules).is_some() <==> exists|c: LogCategory| rule_matches(line, #[trigger] rules.rule_for(c)),
{
    if first_match(line, rules).is_some() {
        let c = first_match(line, rules).unwrap();
        assert(rule_matches(line, rules.rule_for(c)));
    }
}

/// Classification ignores case: two lines with the same lower-case form are
/// matched by the same rules and get the same category.
pub proof fn lemma_classification_ignores_case(a: Seq<char>, b: Seq<char>, rules: RuleSetView)
    requires
        lower_of(a) == lower_of(b),
    ensures
        first_match(a, rules) == first_match(b, rules),
        forall|c: LogCategory| rule_matches(a, #[trigger] rules.rule_for(c)) == rule_matches(b, rules.rule_for(c)),
{
}

/// A rule with no keywords matches no line, the empty line included.
pub proof fn lemma_empty_rule_never_matches(line: Seq<char>, rule: RuleView)
    requires
        rule.keywords.len() == 0,
    ensures
        !rule_matches(line, rule),
{
}

} // verus!
