//! The bucketing driver: one pass over the lines, each to its category.
use vstd::prelude::*;
use crate::parser::{decorated_by, first_match, parse_log};
use crate::rules::{LogCategory, RuleSet, RuleSetView};

verus! {

/// The characters of each text in a sequence.
pub open spec fn texts(v: Seq<String>) -> Seq<Seq<char>> {
    v.map_values(|s: String| s@)
}

/// The bucket a line goes to: the category of the first matching rule, and
/// Info for a line that no rule matches.
pub open spec fn category_of(line: Seq<char>, rules: RuleSetView) -> LogCategory {
    match first_match(line, rules) {
        Some(c) => c,
        None => LogCategory::Info,
    }
}

/// `out` is how `line` appears in its bucket: decorated by the rule that
/// matched it, or unchanged when no rule matched.
pub open spec fn shown(out: Seq<char>, line: Seq<char>, rules: RuleSetView) -> bool {
    match first_match(line, rules) {
        Some(c) => decorated_by(out, line, rules.rule_for(c)),
        None => out == line,
    }
}

/// The positions, in increasing order, of the lines among the first `n`
/// that go to the bucket of `cat`.
pub open spec fn positions(lines: Seq<Seq<char>>, rules: RuleSetView, cat: LogCategory, n: int) -> Seq<int>
    decreases n,
{
    if n <= 0 {
        seq![]
    } else {
        let before = positions(lines, rules, cat, n - 1);
        if category_of(lines[n - 1], rules) == cat {
            before.push(n - 1)
        } else {
            before
        }
    }
}

/// `bucket` holds, in input order, how each of the first `n` lines whose
/// category is `cat` is shown.
pub open spec fn fills_bucket(bucket: Seq<Seq<char>>, lines: Seq<Seq<char>>, rules: RuleSetView, cat: LogCategory, n: int) -> bool {
    let p = positions(lines, rules, cat, n);
    &&& bucket.len() == p.len()
    &&& forall|j: int| 0 <= j < p.len() ==> shown(#[trigger] bucket[j], lines[p[j]], rules)
}

/// The lines of a log, partitioned by category.
#[derive(Debug)]
pub struct Buckets {
    pub critical: Vec<String>,
    pub error: Vec<String>,
    pub warning: Vec<String>,
    pub info: Vec<String>,
}

impl Buckets {
    /// The contents of the bucket of a category.
    pub open spec fn bucket_of(&self, c: LogCategory) -> Seq<Seq<char>> {
        match c {
            LogCategory::Critical => texts(self.critical@),
            LogCategory::Error => texts(self.error@),
            LogCategory::Warning => texts(self.warning@),
            LogCategory::Info => texts(self.info@),
        }
    }

    /// Four empty buckets.
    pub fn new() -> (r: Buckets)
        ensures
            forall|c: LogCategory| #[trigger] r.bucket_of(c).len() == 0,
    {
        Buckets { critical: Vec::new(), error: Vec::new(), warning: Vec::new(), info: Vec::new() }
    }

    /// Appends a text to the bucket of a category.
    pub fn push(&mut self, c: LogCategory, s: String)
        ensures
            final(self).bucket_of(c) == old(self).bucket_of(c).push(s@),
            forall|d: LogCategory| d != c ==> #[trigger] final(self).bucket_of(d) == old(self).bucket_of(d),
    {
        match c {
            LogCategory::Critical => self.critical.push(s),
            LogCategory::Error => self.error.push(s),
            LogCategory::Warning => self.warning.push(s),
            LogCategory::Info => self.info.push(s),
        }
        proof {
            assert(final(self).bucket_of(c) =~= old(self).bucket_of(c).push(s@));
        }
    }
}

/// Classifies every line and partitions them into four buckets: a matched
/// line is decorated and goes to its category's bucket, an unmatched one
/// goes to the info bucket as it is. Each bucket keeps the input order.
pub fn bucket(lines: &Vec<String>, rules: &RuleSet) -> (r: Buckets)
    ensures
        forall|c: LogCategory| fills_bucket(#[trigger] r.bucket_of(c), texts(lines@), rules@, c, lines@.len() as int),
{
    let ghost ls = texts(lines@);
    let mut out = Buckets::new();
    let mut i: usize = 0;
    while i < lines.len()
        invariant
            i <= lines@.len(),
            ls == texts(lines@),
            forall|c: LogCategory| fills_bucket(#[trigger] out.bucket_of(c), ls, rules@, c, i as int),
        decreases lines@.len() - i,
    {
        let line = &lines[i];
        let ghost before = out;
        let (s, c) = match parse_log(line.as_str(), rules) {
            Some((s, c)) => (s, c),
            None => (line.clone(), LogCategory::Info),
        };
        proof {
            assert(ls[i as int] == line@);
            assert(category_of(ls[i as int], rules@) == c);
            assert(shown(s@, ls[i as int], rules@));
        }
        out.push(c, s);
        proof {
            assert forall|d: LogCategory| fills_bucket(#[trigger] out.bucket_of(d), ls, rules@, d, i + 1) by {
                let p = positions(ls, rules@, d, i as int);
                assert(fills_bucket(before.bucket_of(d), ls, rules@, d, i as int));
                if d == c {
                    assert forall|j: int| 0 <= j < p.len() + 1 implies shown(#[trigger] out.bucket_of(d)[j], ls[positions(ls, rules@, d, i + 1)[j]], rules@) by {
                        if j < p.len() {
                            assert(out.bucket_of(d)[j] == before.bucket_of(d)[j]);
                        }
                    }
                } else {
                    assert(positions(ls, rules@, d, i + 1) == p);
                }
            }
        }
        i = i + 1;
    }
    out
}

/// Each bucket is a stable part of the input: its positions are increasing
/// and in range, each is a line of that category, and every line of that
/// category is among them.
pub proof fn lemma_positions_stable(lines: Seq<Seq<char>>, rules: RuleSetView, cat: LogCategory, n: int)
    requires
        0 <= n <= lines.len(),
    ensures
        forall|j: int, k: int| 0 <= j < k < positions(lines, rules, cat, n).len()
            ==> positions(lines, rules, cat, n)[j] < positions(lines, rules, cat, n)[k],
        forall|j: int| 0 <= j < positions(lines, rules, cat, n).len() ==> {
            let p = #[trigger] positions(lines, rules, cat, n)[j];
            0 <= p < n && category_of(lines[p], rules) == cat
        },
        forall|i: int| 0 <= i < n && category_of(lines[i], rules) == cat
            ==> #[trigger] positions(lines, rules, cat, n).contains(i),
    decreases n,
{
    if n > 0 {
        lemma_positions_stable(lines, rules, cat, n - 1);
        let before = positions(lines, rules, cat, n - 1);
        let p = positions(lines, rules, cat, n);
        assert forall|i: int| 0 <= i < n && category_of(lines[i], rules) == cat implies #[trigger] p.contains(i) by {
            if i < n - 1 {
                assert(before.contains(i));
                let j = choose|j: int| 0 <= j < before.len() && before[j] == i;
                assert(p[j] == i);
            } else {
                assert(p[p.len() - 1] == i);
            }
        }
    }
}

} // verus!
