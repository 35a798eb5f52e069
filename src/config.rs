//! Configuration resolution: which source supplies the active rules.
//!
//! The sources are tried in a fixed order: an explicit path, a file under
//! the per-user configuration directory, a system-wide file, and last the
//! embedded default. The first that loads wins. Reading and parsing the
//! files is done by the caller, who reports each outcome here.
use vstd::prelude::*;
use crate::bucket::texts;
use crate::rules::RuleSet;

verus! {

/// Where a rules file lives below the per-user configuration directory.
pub const USER_RULES_SUBPATH: &'static str = "dmesg-analyzer/default_rules.toml";

/// The system-wide rules file.
pub const SYSTEM_RULES_PATH: &'static str = "/usr/share/dmesg-analyzer/default_rules.toml";

/// The descriptor of rules taken from the embedded default.
pub const EMBEDDED_SOURCE: &'static str = "embedded";

/// Why a configuration source supplied no rules.
#[derive(Debug, Clone, Copy, PartialEq, Eq, Structural)]
pub enum ConfigError {
    /// The text could not be parsed, or lacks a field or has one of the wrong shape.
    MalformedConfig,
    /// The file does not exist or could not be read.
    SourceUnavailable,
}

/// The outcome of trying one configuration source.
#[derive(Debug)]
pub enum Probe {
    Loaded(RuleSet),
    Failed(ConfigError),
}

/// One configuration source that was tried, and how it went.
#[derive(Debug)]
pub struct Attempt {
    pub source: String,
    pub probe: Probe,
}

/// The chosen rules, and the source that supplied them.
#[derive(Debug)]
pub struct Resolved {
    pub rules: RuleSet,
    pub source: String,
}

/// What the resolver asks for next.
#[derive(Debug)]
pub enum Action {
    /// Try the rules file at this path.
    Probe(String),
    /// Every file has failed: parse the embedded default.
    UseEmbedded,
}

/// `rel` appended to the directory `base`, with one separator between them.
pub open spec fn join_path(base: Seq<char>, rel: Seq<char>) -> Seq<char> {
    if base.len() == 0 || base.last() == '/' {
        base + rel
    } else {
        base.push('/') + rel
    }
}

/// The characters of an optional text.
pub open spec fn opt_text(o: Option<&str>) -> Option<Seq<char>> {
    match o {
        Some(s) => Some(s@),
        None => None,
    }
}

/// The file sources, in the order they are tried: the explicit path if one
/// is given, the file under the per-user configuration directory if that
/// directory is known, and the system-wide file.
pub open spec fn candidate_tiers(explicit: Option<Seq<char>>, config_home: Option<Seq<char>>) -> Seq<Seq<char>> {
    let first: Seq<Seq<char>> = match explicit {
        Some(p) => seq![p],
        None => seq![],
    };
    let second: Seq<Seq<char>> = match config_home {
        Some(h) => seq![join_path(h, USER_RULES_SUBPATH@)],
        None => seq![],
    };
    first + second + seq![SYSTEM_RULES_PATH@]
}

/// What the embedded default gives: its rules tagged as embedded, or the
/// error that makes it unusable.
pub open spec fn embedded_outcome(embedded: Probe) -> Result<(RuleSet, Seq<char>), ConfigError> {
    match embedded {
        Probe::Loaded(rs) => Ok((rs, EMBEDDED_SOURCE@)),
        Probe::Failed(e) => Err(e),
    }
}

/// The rules of the first attempt that loaded, with its source; when none
/// did, what the embedded default gives.
pub open spec fn resolution(attempts: Seq<Attempt>, embedded: Probe) -> Result<(RuleSet, Seq<char>), ConfigError>
    decreases attempts.len(),
{
    if attempts.len() == 0 {
        embedded_outcome(embedded)
    } else {
        match attempts[0].probe {
            Probe::Loaded(rs) => Ok((rs, attempts[0].source@)),
            Probe::Failed(_) => resolution(attempts.drop_first(), embedded),
        }
    }
}

/// `rel` appended to the directory `base`, with one separator between them.
pub fn join_path_exec(base: &str, rel: &str) -> (r: String)
    ensures
        r@ == join_path(base@, rel@),
{
    let n = base.unicode_len();
    let mut out = String::from_str(base);
    if n > 0 && base.get_char(n - 1) != '/' {
        out.append("/");
        proof {
            reveal_strlit("/");
        }
    }
    out.append(rel);
    proof {
        assert(out@ =~= join_path(base@, rel@));
    }
    out
}

/// The file sources to try, in order (see [`candidate_tiers`]).
pub fn candidate_paths(explicit: Option<&str>, config_home: Option<&str>) -> (r: Vec<String>)
    ensures
        texts(r@) == candidate_tiers(opt_text(explicit), opt_text(config_home)),
{
    let mut r: Vec<String> = Vec::new();
    match explicit {
        Some(p) => r.push(String::from_str(p)),
        None => {},
    }
    match config_home {
        Some(h) => r.push(join_path_exec(h, USER_RULES_SUBPATH)),
        None => {},
    }
    r.push(String::from_str(SYSTEM_RULES_PATH));
    assert(texts(r@) =~= candidate_tiers(opt_text(explicit), opt_text(config_home)));
    r
}

/// Uses the embedded default: its rules tagged `"embedded"`, or the error
/// that made it unusable.
pub fn use_embedded(embedded: Probe) -> (r: Result<Resolved, ConfigError>)
    ensures
        match r {
            Ok(res) => embedded_outcome(embedded) == Ok::<(RuleSet, Seq<char>), ConfigError>((res.rules, res.source@)),
            Err(e) => embedded_outcome(embedded) == Err::<(RuleSet, Seq<char>), ConfigError>(e),
        },
{
    match embedded {
        Probe::Loaded(rs) => Ok(Resolved { rules: rs, source: String::from_str(EMBEDDED_SOURCE) }),
        Probe::Failed(e) => Err(e),
    }
}

/// Resolves the active rules from the attempts, in the order given, and the
/// embedded default: the first attempt that loaded wins, and the embedded
/// default is used when none did.
pub fn resolve(attempts: Vec<Attempt>, embedded: Probe) -> (r: Result<Resolved, ConfigError>)
    ensures
        match r {
            Ok(res) => resolution(attempts@, embedded) == Ok::<(RuleSet, Seq<char>), ConfigError>((res.rules, res.source@)),
            Err(e) => resolution(attempts@, embedded) == Err::<(RuleSet, Seq<char>), ConfigError>(e),
        },
{
    let ghost all = attempts@;
    let mut rest = attempts;
    while rest.len() > 0
        invariant
            all == attempts@,
            resolution(rest@, embedded) == resolution(all, embedded),
        decreases rest@.len(),
    {
        let ghost before = rest@;
        let a = rest.remove(0);
        assert(rest@ =~= before.drop_first());
        let ghost first = a;
        assert(before[0] == first);
        match a.probe {
            Probe::Loaded(rs) => {
                assert(resolution(before, embedded) == Ok::<(RuleSet, Seq<char>), ConfigError>((rs, first.source@)));
                return Ok(Resolved { rules: rs, source: a.source });
            },
            Probe::Failed(_) => {},
        }
    }
    use_embedded(embedded)
}

/// Steps through the file sources one at a time, so that no file is read
/// after one has supplied the rules.
#[derive(Debug)]
pub struct Resolver {
    tiers: Vec<String>,
    next: usize,
}

impl Resolver {
    /// The file sources, in the order they are tried.
    pub closed spec fn tiers(&self) -> Seq<Seq<char>> {
        texts(self.tiers@)
    }

    /// How many sources have failed so far.
    pub closed spec fn position(&self) -> nat {
        self.next as nat
    }

    /// The position never passes the end of the sources.
    pub open spec fn wf(&self) -> bool {
        self.position() <= self.tiers().len()
    }

    /// A resolver that starts with the explicit path if one is given, then
    /// the file under the per-user configuration directory if that
    /// directory is known, then the system-wide file.
    pub fn new(explicit: Option<&str>, config_home: Option<&str>) -> (r: Resolver)
        ensures
            r.wf(),
            r.tiers() == candidate_tiers(opt_text(explicit), opt_text(config_home)),
            r.position() == 0,
    {
        Resolver { tiers: candidate_paths(explicit, config_home), next: 0 }
    }

    /// The next source to try: the first file source that has not failed,
    /// or the embedded default once all have.
    pub fn next_action(&self) -> (r: Action)
        requires
            self.wf(),
        ensures
            match r {
                Action::Probe(p) => self.position() < self.tiers().len() && p@ == self.tiers()[self.position() as int],
                Action::UseEmbedded => self.position() == self.tiers().len(),
            },
    {
        if self.next < self.tiers.len() {
            Action::Probe(self.tiers[self.next].clone())
        } else {
            Action::UseEmbedded
        }
    }

    /// Reports how the current source went: rules that loaded are chosen,
    /// tagged with the source; a failure moves on to the next source.
    pub fn feed(&mut self, probe: Probe) -> (r: Option<Resolved>)
        requires
            old(self).wf(),
            old(self).position() < old(self).tiers().len(),
        ensures
            final(self).wf(),
            final(self).tiers() == old(self).tiers(),
            match probe {
                Probe::Loaded(rs) => r matches Some(res) && res.rules == rs
                    && res.source@ == old(self).tiers()[old(self).position() as int]
                    && final(self).position() == old(self).position(),
                Probe::Failed(_) => r is None && final(self).position() == old(self).position() + 1,
            },
    {
        match probe {
            Probe::Loaded(rs) => Some(Resolved { rules: rs, source: self.tiers[self.next].clone() }),
            Probe::Failed(_) => {
                assert(self.tiers().len() == self.tiers@.len());
                let n = self.tiers.len();
                assert(self.next < n);
                self.next = self.next + 1;
                None
            },
        }
    }
}

/// The first attempt that loaded supplies the rules, tagged with its
/// source, whatever the later attempts and the embedded default hold.
pub proof fn lemma_first_loaded_wins(attempts: Seq<Attempt>, embedded: Probe, k: int)
    requires
        0 <= k < attempts.len(),
        forall|i: int| 0 <= i < k ==> #[trigger] attempts[i].probe is Failed,
        attempts[k].probe is Loaded,
    ensures
        resolution(attempts, embedded) == Ok::<(RuleSet, Seq<char>), ConfigError>(
            (attempts[k].probe->Loaded_0, attempts[k].source@),
        ),
    decreases k,
{
    if k > 0 {
        let rest = attempts.drop_first();
        assert forall|i: int| 0 <= i < k - 1 implies #[trigger] rest[i].probe is Failed by {
            assert(rest[i] == attempts[i + 1]);
        }
        lemma_first_loaded_wins(rest, embedded, k - 1);
        assert(attempts[0].probe is Failed);
    }
}

/// When every file source fails, the embedded default decides: its rules
/// tagged `"embedded"`, or its error.
pub proof fn lemma_all_failed_gives_embedded(attempts: Seq<Attempt>, embedded: Probe)
    requires
        forall|i: int| 0 <= i < attempts.len() ==> #[trigger] attempts[i].probe is Failed,
    ensures
        resolution(attempts, embedded) == embedded_outcome(embedded),
    decreases attempts.len(),
{
    if attempts.len() > 0 {
        let rest = attempts.drop_first();
        assert forall|i: int| 0 <= i < rest.len() implies #[trigger] rest[i].probe is Failed by {
            assert(rest[i] == attempts[i + 1]);
        }
        lemma_all_failed_gives_embedded(rest, embedded);
        assert(attempts[0].probe is Failed);
    }
}

/// With an explicit path and a per-user configuration directory, when the
/// explicit file fails and the per-user file loads, the per-user file
/// supplies the rules, and not the embedded default.
pub proof fn lemma_user_file_beats_embedded(
    explicit: Seq<char>,
    config_home: Seq<char>,
    attempts: Seq<Attempt>,
    embedded: Probe,
)
    requires
        texts_of_sources(attempts) == candidate_tiers(Some(explicit), Some(config_home)),
        attempts[0].probe is Failed,
        attempts[1].probe is Loaded,
    ensures
        resolution(attempts, embedded) == Ok::<(RuleSet, Seq<char>), ConfigError>(
            (attempts[1].probe->Loaded_0, join_path(config_home, USER_RULES_SUBPATH@)),
        ),
{
    assert(texts_of_sources(attempts).len() == 3);
    assert(texts_of_sources(attempts)[1] == attempts[1].source@);
    assert(candidate_tiers(Some(explicit), Some(config_home))[1] == join_path(config_home, USER_RULES_SUBPATH@));
    lemma_first_loaded_wins(attempts, embedded, 1);
}

/// The sources of the attempts, in order.
pub open spec fn texts_of_sources(attempts: Seq<Attempt>) -> Seq<Seq<char>> {
    attempts.map_values(|a: Attempt| a.source@)
}

} // verus!
