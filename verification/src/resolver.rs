//! The resolver: which alias, if any, answers a request.

use vstd::prelude::*;

use crate::decode::decode_path;
use crate::decode::percent_decoded;
use crate::matcher::agent_patterns;
use crate::matcher::has_pattern;
use crate::matcher::uses_pattern;
use crate::matcher::ConfigError;
use crate::matcher::ConfigErrorView;
use crate::matcher::MatcherCache;
use crate::model::record_views;
use crate::model::Alias;
use crate::model::AliasView;
use crate::selection::is_first;
use crate::selection::lemma_candidate_is_record;
use crate::selection::lemma_first_with_is;
use crate::selection::lemma_first_with_none;
use crate::selection::optional_view;
use crate::selection::resolved;
use crate::selection::verdict_of;
use crate::selection::Verdict;
use crate::table::borrowed_views;
use crate::table::candidates;
use crate::table::AliasTable;

verus! {

/// An alias table together with the compiled matcher of every agent pattern
/// in it.
pub struct Resolver {
    table: AliasTable,
    matchers: MatcherCache,
}

impl View for Resolver {
    type V = Seq<AliasView>;

    closed spec fn view(&self) -> Seq<AliasView> {
        self.table@
    }
}

impl Resolver {
    #[verifier::type_invariant]
    spec fn inv(self) -> bool {
        self.matchers.patterns() == agent_patterns(self.table@)
    }

    /// Builds the table and compiles each distinct agent pattern once. A
    /// pattern that the compiler refuses ends the work with `InvalidPattern`;
    /// records without agent rules always build.
    pub fn new(records: Vec<Alias>) -> (built: Result<Resolver, ConfigError>)
        ensures
            built matches Ok(resolver) ==> resolver@ == record_views(records@),
            built matches Err(error) ==> (error@ matches ConfigErrorView::InvalidPattern(pattern)
                && uses_pattern(record_views(records@), pattern)),
            agent_patterns(record_views(records@)) == Set::<Seq<char>>::empty() ==> built is Ok,
    {
        match MatcherCache::compile_all(&records) {
            Ok(matchers) => Ok(Resolver { table: AliasTable::new(records), matchers }),
            Err(error) => Err(error),
        }
    }

    /// The alias table.
    pub fn table(&self) -> (table: &AliasTable)
        ensures
            table@ == self@,
    {
        &self.table
    }

    /// The compiled matchers: one for each agent pattern of the table.
    pub fn matchers(&self) -> (matchers: &MatcherCache)
        ensures
            matchers.patterns() == agent_patterns(self@),
    {
        proof {
            use_type_invariant(self);
        }
        &self.matchers
    }

    /// Selects the record for a path that is already percent-decoded.
    ///
    /// The candidates are the records with exactly this path, in load order.
    /// The first candidate whose agent pattern matches `user_agent` is
    /// returned at once. Otherwise the first candidate without an agent rule,
    /// or with a rule that is not `only_matching`, is returned; if there is
    /// none, the result is `None`.
    pub fn resolve_decoded<'a>(&'a self, decoded_path: &str, user_agent: &str) -> (found: Option<
        &'a Alias,
    >)
        ensures
            optional_view(found) == resolved(self@, decoded_path@, user_agent@),
    {
        proof {
            use_type_invariant(self);
        }
        let pool = self.table.lookup_candidates(decoded_path);
        let ghost views = borrowed_views(pool@);
        let mut fallback: Vec<&'a Alias> = Vec::new();
        let ghost mut first_fallback: int = 0;
        let mut k: usize = 0;
        while k < pool.len()
            invariant
                k <= pool.len(),
                views == borrowed_views(pool@),
                views == candidates(self@, decoded_path@),
                self.matchers.patterns() == agent_patterns(self@),
                forall|j: int|
                    0 <= j < k ==> verdict_of(#[trigger] views[j], user_agent@) != Verdict::Claims,
                fallback.len() == 0 ==> forall|j: int|
                    0 <= j < k ==> verdict_of(#[trigger] views[j], user_agent@)
                        != Verdict::FallsBack,
                fallback.len() > 0 ==> first_fallback < k && is_first(
                    views,
                    user_agent@,
                    Verdict::FallsBack,
                    first_fallback,
                ) && fallback[0]@ == views[first_fallback],
            decreases pool.len() - k,
        {
            let candidate: &'a Alias = pool[k];
            match &candidate.agent {
                None => {
                    if fallback.len() == 0 {
                        proof {
                            first_fallback = k as int;
                        }
                    }
                    fallback.push(candidate);
                },
                Some(agent) => {
                    proof {
                        lemma_candidate_is_covered(self@, decoded_path@, k as int);
                    }
                    let matcher = self.matchers.get(agent.regex.as_str());
                    let matched = matcher.matches(user_agent);
                    match agent.verdict(matched) {
                        Verdict::Claims => {
                            proof {
                                lemma_first_with_is(views, user_agent@, Verdict::Claims, k as int);
                            }
                            return Some(candidate);
                        },
                        Verdict::FallsBack => {
                            if fallback.len() == 0 {
                                proof {
                                    first_fallback = k as int;
                                }
                            }
                            fallback.push(candidate);
                        },
                        Verdict::Excluded => {},
                    }
                },
            }
            k += 1;
        }
        proof {
            lemma_first_with_none(views, user_agent@, Verdict::Claims);
        }
        if fallback.len() > 0 {
            proof {
                lemma_first_with_is(views, user_agent@, Verdict::FallsBack, first_fallback);
            }
            Some(fallback[0])
        } else {
            proof {
                lemma_first_with_none(views, user_agent@, Verdict::FallsBack);
            }
            None
        }
    }

    /// Selects the record for a request: percent-decodes `path`, then
    /// selects as [`Resolver::resolve_decoded`] does. A path without a `%`
    /// is its own decoded form.
    pub fn resolve<'a>(&'a self, path: &str, user_agent: &str) -> (found: Option<&'a Alias>)
        ensures
            optional_view(found) == resolved(self@, percent_decoded(path@), user_agent@),
            !path@.contains('%') ==> optional_view(found) == resolved(self@, path@, user_agent@),
    {
        let decoded = decode_path(path);
        self.resolve_decoded(decoded.as_str(), user_agent)
    }
}

/// The agent pattern of a candidate is one of the table's agent patterns.
proof fn lemma_candidate_is_covered(records: Seq<AliasView>, path: Seq<char>, k: int)
    requires
        0 <= k < candidates(records, path).len(),
        candidates(records, path)[k].agent is Some,
    ensures
        agent_patterns(records).contains(candidates(records, path)[k].agent->0.regex),
{
    let i = lemma_candidate_is_record(records, path, k);
    assert(has_pattern(records[i], records[i].agent->0.regex));
}

} // verus!
