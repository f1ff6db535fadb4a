//! Compiled User-Agent patterns, and the cache that holds one per pattern.

use regex::Regex;
use vstd::hash_map::StringHashMap;
use vstd::prelude::*;

use crate::model::record_views;
use crate::model::Alias;
use crate::model::AliasView;

verus! {

/// `regex::Regex`, a compiled regular expression, carried as an opaque
/// value.
#[verifier::external_type_specification]
#[verifier::external_body]
pub struct ExRegex(regex::Regex);

/// `regex::Error`, the reason a pattern was refused, carried as an opaque
/// value.
#[verifier::external_type_specification]
#[verifier::external_body]
pub struct ExRegexError(regex::Error);

/// Whether the pattern, once compiled, finds a match anywhere in the haystack.
pub uninterp spec fn pattern_matches(pattern: Seq<char>, haystack: Seq<char>) -> bool;

/// What `Regex::is_match` answers for this compiled expression and haystack.
pub uninterp spec fn regex_is_match(re: Regex, haystack: Seq<char>) -> bool;

/// The compiled expression answers every haystack as the pattern does.
pub open spec fn compiled_from(re: Regex, pattern: Seq<char>) -> bool {
    forall|haystack: Seq<char>| #[trigger]
        regex_is_match(re, haystack) == pattern_matches(pattern, haystack)
}

/// `regex::Regex::new` either refuses the pattern or hands back an expression
/// that matches exactly the haystacks the pattern matches. Which patterns it
/// refuses (bad syntax, or a program over the size limit) is left open.
pub assume_specification[ regex::Regex::new ](re: &str) -> (outcome: Result<Regex, regex::Error>)
    ensures
        outcome matches Ok(compiled) ==> forall|haystack: Seq<char>| #[trigger]
            regex_is_match(compiled, haystack) == pattern_matches(re@, haystack),
;

/// `regex::Regex::is_match` is a function of the expression and the haystack:
/// true if and only if the expression matches somewhere in the haystack.
pub assume_specification[ regex::Regex::is_match ](re: &Regex, haystack: &str) -> (found: bool)
    ensures
        found == regex_is_match(*re, haystack@),
;

/// Why a configuration was refused at startup.
#[derive(Debug, PartialEq, Eq)]
pub enum ConfigError {
    /// An agent rule holds a pattern that does not compile.
    InvalidPattern(String),
}

/// The mathematical value of a [`ConfigError`].
pub enum ConfigErrorView {
    InvalidPattern(Seq<char>),
}

impl View for ConfigError {
    type V = ConfigErrorView;

    open spec fn view(&self) -> ConfigErrorView {
        match self {
            ConfigError::InvalidPattern(pattern) => ConfigErrorView::InvalidPattern(pattern@),
        }
    }
}

/// A pattern together with its compiled form.
pub struct CompiledMatcher {
    pattern: String,
    regex: Regex,
}

impl CompiledMatcher {
    #[verifier::type_invariant]
    spec fn inv(self) -> bool {
        compiled_from(self.regex, self.pattern@)
    }

    /// The pattern this matcher was compiled from.
    pub closed spec fn source(self) -> Seq<char> {
        self.pattern@
    }

    /// Wraps what the compiler returned for `pattern`: a matcher for a
    /// compiled expression, `InvalidPattern` for a refusal.
    pub fn from_outcome(pattern: &str, outcome: Result<Regex, regex::Error>) -> (made: Result<
        CompiledMatcher,
        ConfigError,
    >)
        requires
            outcome matches Ok(compiled) ==> compiled_from(compiled, pattern@),
        ensures
            outcome is Ok ==> made is Ok && made->Ok_0.source() == pattern@,
            outcome is Err ==> made is Err && made->Err_0@ == ConfigErrorView::InvalidPattern(
                pattern@,
            ),
    {
        match outcome {
            Ok(regex) => Ok(CompiledMatcher { pattern: pattern.to_owned(), regex }),
            Err(_) => Err(ConfigError::InvalidPattern(pattern.to_owned())),
        }
    }

    /// Compiles `pattern`. The compiler decides whether the pattern is
    /// accepted; a refusal is reported as `InvalidPattern` with the pattern.
    pub fn compile(pattern: &str) -> (made: Result<CompiledMatcher, ConfigError>)
        ensures
            made matches Ok(matcher) ==> matcher.source() == pattern@,
            made matches Err(error) ==> error@ == ConfigErrorView::InvalidPattern(pattern@),
    {
        CompiledMatcher::from_outcome(pattern, Regex::new(pattern))
    }

    /// The pattern this matcher was compiled from.
    pub fn pattern(&self) -> (source: &str)
        ensures
            source@ == self.source(),
    {
        self.pattern.as_str()
    }

    /// Whether the pattern matches somewhere in `user_agent`.
    pub fn matches(&self, user_agent: &str) -> (found: bool)
        ensures
            found == pattern_matches(self.source(), user_agent@),
    {
        proof {
            use_type_invariant(self);
        }
        self.regex.is_match(user_agent)
    }
}

/// The record carries an agent rule with this pattern.
pub open spec fn has_pattern(record: AliasView, pattern: Seq<char>) -> bool {
    record.agent matches Some(agent) && agent.regex == pattern
}

/// Some record carries an agent rule with this pattern.
pub open spec fn uses_pattern(records: Seq<AliasView>, pattern: Seq<char>) -> bool {
    exists|i: int| 0 <= i < records.len() && #[trigger] has_pattern(records[i], pattern)
}

/// The distinct patterns of all agent rules among the records.
pub open spec fn agent_patterns(records: Seq<AliasView>) -> Set<Seq<char>> {
    Set::new(|pattern: Seq<char>| uses_pattern(records, pattern))
}

/// Compiled matchers keyed by their pattern: one entry per distinct pattern.
pub struct MatcherCache {
    compiled: StringHashMap<CompiledMatcher>,
}

impl MatcherCache {
    #[verifier::type_invariant]
    spec fn inv(self) -> bool {
        forall|pattern: Seq<char>| #[trigger]
            self.compiled@.contains_key(pattern) ==> self.compiled@[pattern].source() == pattern
    }

    /// The patterns that have an entry.
    pub closed spec fn patterns(self) -> Set<Seq<char>> {
        self.compiled@.dom()
    }

    /// The number of entries: one for each distinct pattern.
    pub fn len(&self) -> (count: usize)
        ensures
            count == self.patterns().len(),
    {
        self.compiled.len()
    }

    /// Whether `pattern` has an entry.
    pub fn contains(&self, pattern: &str) -> (present: bool)
        ensures
            present == self.patterns().contains(pattern@),
    {
        self.compiled.contains_key(pattern)
    }

    /// The matcher compiled from `pattern`. Asking for a pattern without an
    /// entry is a defect of the caller, ruled out here.
    pub fn get(&self, pattern: &str) -> (matcher: &CompiledMatcher)
        requires
            self.patterns().contains(pattern@),
        ensures
            matcher.source() == pattern@,
    {
        proof {
            use_type_invariant(self);
        }
        match self.compiled.get(pattern) {
            Some(matcher) => matcher,
            None => vstd::pervasive::unreached(),
        }
    }

    /// Compiles every distinct agent pattern of `records` once. The first
    /// pattern that the compiler refuses ends the work with `InvalidPattern`.
    pub fn compile_all(records: &Vec<Alias>) -> (built: Result<MatcherCache, ConfigError>)
        ensures
            built matches Ok(cache) ==> cache.patterns() == agent_patterns(record_views(records@)),
            built matches Err(error) ==> (error@ matches ConfigErrorView::InvalidPattern(pattern)
                && uses_pattern(record_views(records@), pattern)),
            agent_patterns(record_views(records@)) == Set::<Seq<char>>::empty() ==> built is Ok,
    {
        let ghost all = record_views(records@);
        let mut compiled: StringHashMap<CompiledMatcher> = StringHashMap::new();
        let mut i: usize = 0;
        while i < records.len()
            invariant
                i <= records.len(),
                all == record_views(records@),
                compiled@.dom() == agent_patterns(all.take(i as int)),
                forall|pattern: Seq<char>| #[trigger]
                    compiled@.contains_key(pattern) ==> compiled@[pattern].source() == pattern,
            decreases records.len() - i,
        {
            let record = &records[i];
            proof {
                assert(all.take(i as int + 1) == all.take(i as int).push(all[i as int]));
                lemma_patterns_push(all.take(i as int), all[i as int]);
            }
            match &record.agent {
                Some(agent) => {
                    if !compiled.contains_key(agent.regex.as_str()) {
                        match CompiledMatcher::compile(agent.regex.as_str()) {
                            Ok(matcher) => {
                                compiled.insert(agent.regex.clone(), matcher);
                            },
                            Err(error) => {
                                assert(has_pattern(all[i as int], agent.regex@));
                                assert(agent_patterns(all).contains(agent.regex@));
                                return Err(error);
                            },
                        }
                    }
                },
                None => {},
            }
            i += 1;
        }
        assert(all.take(i as int) == all);
        Ok(MatcherCache { compiled })
    }
}

/// Appending a record adds its agent pattern, if it has one, and nothing else.
pub proof fn lemma_patterns_push(records: Seq<AliasView>, record: AliasView)
    ensures
        agent_patterns(records.push(record)) == (match record.agent {
            Some(agent) => agent_patterns(records).insert(agent.regex),
            None => agent_patterns(records),
        }),
{
    let longer = records.push(record);
    let expected = match record.agent {
        Some(agent) => agent_patterns(records).insert(agent.regex),
        None => agent_patterns(records),
    };
    assert forall|pattern: Seq<char>| agent_patterns(longer).contains(pattern) implies #[trigger]
        expected.contains(pattern) by {
        let i = choose|i: int| 0 <= i < longer.len() && #[trigger] has_pattern(longer[i], pattern);
        if i < records.len() {
            assert(has_pattern(records[i], pattern));
        }
    }
    assert forall|pattern: Seq<char>| expected.contains(pattern) implies #[trigger]
        agent_patterns(longer).contains(pattern) by {
        if uses_pattern(records, pattern) {
            let i = choose|i: int|
                0 <= i < records.len() && #[trigger] has_pattern(records[i], pattern);
            assert(has_pattern(longer[i], pattern));
        } else {
            assert(has_pattern(longer[records.len() as int], pattern));
        }
    }
}

} // verus!
