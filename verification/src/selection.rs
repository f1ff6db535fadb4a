//! What resolving means: the verdict of each candidate for a client, and
//! the candidate that is selected.

use vstd::prelude::*;

use crate::matcher::pattern_matches;
use crate::model::Agent;
use crate::model::AgentView;
use crate::model::Alias;
use crate::model::AliasView;
use crate::table::candidates;

verus! {

/// How one candidate stands towards a request.
#[derive(Clone, Copy, Debug, PartialEq, Eq, Structural)]
pub enum Verdict {
    /// Its agent rule matches the client: it is served at once.
    Claims,
    /// It is served if no candidate claims the request.
    FallsBack,
    /// It is hidden from this client.
    Excluded,
}

impl AgentView {
    /// The verdict of a candidate with this agent rule, given whether the
    /// pattern matched the client.
    pub open spec fn verdict(self, matched: bool) -> Verdict {
        if matched {
            Verdict::Claims
        } else if self.only_matching == Some(true) {
            Verdict::Excluded
        } else {
            Verdict::FallsBack
        }
    }
}

impl Agent {
    /// The verdict of a candidate with this agent rule, given whether the
    /// pattern matched the client.
    pub fn verdict(&self, matched: bool) -> (verdict: Verdict)
        ensures
            verdict == self@.verdict(matched),
    {
        if matched {
            Verdict::Claims
        } else {
            match self.only_matching {
                Some(true) => Verdict::Excluded,
                _ => Verdict::FallsBack,
            }
        }
    }
}

/// The verdict of a candidate for a client: one without an agent rule falls
/// back, one with a rule goes by whether its pattern matches.
pub open spec fn verdict_of(candidate: AliasView, user_agent: Seq<char>) -> Verdict {
    match candidate.agent {
        None => Verdict::FallsBack,
        Some(agent) => agent.verdict(pattern_matches(agent.regex, user_agent)),
    }
}

/// Candidate `i` has the wanted verdict and no earlier candidate has it.
pub open spec fn is_first(
    pool: Seq<AliasView>,
    user_agent: Seq<char>,
    wanted: Verdict,
    i: int,
) -> bool {
    &&& 0 <= i < pool.len()
    &&& verdict_of(pool[i], user_agent) == wanted
    &&& forall|j: int| 0 <= j < i ==> verdict_of(#[trigger] pool[j], user_agent) != wanted
}

/// The index of the first candidate with the wanted verdict.
pub open spec fn first_with(
    pool: Seq<AliasView>,
    user_agent: Seq<char>,
    wanted: Verdict,
) -> Option<int> {
    if exists|i: int| is_first(pool, user_agent, wanted, i) {
        Some(choose|i: int| is_first(pool, user_agent, wanted, i))
    } else {
        None
    }
}

/// The candidates that are served only where none claims the request, in
/// order.
pub open spec fn fallback_pool(pool: Seq<AliasView>, user_agent: Seq<char>) -> Seq<AliasView> {
    pool.filter(|candidate: AliasView| verdict_of(candidate, user_agent) == Verdict::FallsBack)
}

/// The index of the candidate that is served: the first that claims the
/// request, else the first that falls back.
pub open spec fn selected(pool: Seq<AliasView>, user_agent: Seq<char>) -> Option<int> {
    match first_with(pool, user_agent, Verdict::Claims) {
        Some(i) => Some(i),
        None => first_with(pool, user_agent, Verdict::FallsBack),
    }
}

/// The record that answers a request for the decoded `path` from a client
/// that names itself `user_agent`.
pub open spec fn resolved(
    records: Seq<AliasView>,
    path: Seq<char>,
    user_agent: Seq<char>,
) -> Option<AliasView> {
    let pool = candidates(records, path);
    match selected(pool, user_agent) {
        Some(i) => Some(pool[i]),
        None => None,
    }
}

/// The view of a record that may be absent.
pub open spec fn optional_view(found: Option<&Alias>) -> Option<AliasView> {
    match found {
        Some(record) => Some(record@),
        None => None,
    }
}

/// At most one index is the first with a verdict.
pub proof fn lemma_first_is_unique(
    pool: Seq<AliasView>,
    user_agent: Seq<char>,
    wanted: Verdict,
    i: int,
    j: int,
)
    requires
        is_first(pool, user_agent, wanted, i),
        is_first(pool, user_agent, wanted, j),
    ensures
        i == j,
{
}

/// An index that is the first with a verdict is the one `first_with` names.
pub proof fn lemma_first_with_is(
    pool: Seq<AliasView>,
    user_agent: Seq<char>,
    wanted: Verdict,
    i: int,
)
    requires
        is_first(pool, user_agent, wanted, i),
    ensures
        first_with(pool, user_agent, wanted) == Some(i),
{
    let chosen = choose|k: int| is_first(pool, user_agent, wanted, k);
    lemma_first_is_unique(pool, user_agent, wanted, i, chosen);
}

/// Where no candidate has the verdict, `first_with` names none.
pub proof fn lemma_first_with_none(pool: Seq<AliasView>, user_agent: Seq<char>, wanted: Verdict)
    requires
        forall|j: int| 0 <= j < pool.len() ==> verdict_of(#[trigger] pool[j], user_agent) != wanted,
    ensures
        first_with(pool, user_agent, wanted) is None,
{
}

/// Where some candidate has the verdict, `first_with` names the first that
/// has it.
pub proof fn lemma_first_with_some(
    pool: Seq<AliasView>,
    user_agent: Seq<char>,
    wanted: Verdict,
    i: int,
)
    requires
        0 <= i < pool.len(),
        verdict_of(pool[i], user_agent) == wanted,
    ensures
        first_with(pool, user_agent, wanted) matches Some(k) && k <= i && is_first(
            pool,
            user_agent,
            wanted,
            k,
        ),
    decreases i,
{
    if exists|j: int| 0 <= j < i && verdict_of(#[trigger] pool[j], user_agent) == wanted {
        let j = choose|j: int| 0 <= j < i && verdict_of(#[trigger] pool[j], user_agent) == wanted;
        lemma_first_with_some(pool, user_agent, wanted, j);
    } else {
        lemma_first_with_is(pool, user_agent, wanted, i);
    }
}

/// Two pools whose candidates have the same verdicts, position by position,
/// select the same index.
pub proof fn lemma_selected_by_verdicts(
    pool: Seq<AliasView>,
    other: Seq<AliasView>,
    user_agent: Seq<char>,
)
    requires
        pool.len() == other.len(),
        forall|j: int|
            0 <= j < pool.len() ==> verdict_of(#[trigger] pool[j], user_agent) == verdict_of(
                other[j],
                user_agent,
            ),
    ensures
        selected(pool, user_agent) == selected(other, user_agent),
{
    lemma_first_with_by_verdicts(pool, other, user_agent, Verdict::Claims);
    lemma_first_with_by_verdicts(pool, other, user_agent, Verdict::FallsBack);
}

proof fn lemma_first_with_by_verdicts(
    pool: Seq<AliasView>,
    other: Seq<AliasView>,
    user_agent: Seq<char>,
    wanted: Verdict,
)
    requires
        pool.len() == other.len(),
        forall|j: int|
            0 <= j < pool.len() ==> verdict_of(#[trigger] pool[j], user_agent) == verdict_of(
                other[j],
                user_agent,
            ),
    ensures
        first_with(pool, user_agent, wanted) == first_with(other, user_agent, wanted),
{
    assert forall|i: int| is_first(pool, user_agent, wanted, i) implies is_first(
        other,
        user_agent,
        wanted,
        i,
    ) by {
        assert forall|j: int| 0 <= j < i implies verdict_of(#[trigger] other[j], user_agent)
            != wanted by {
            assert(verdict_of(pool[j], user_agent) == verdict_of(other[j], user_agent));
        }
    }
    assert forall|i: int| is_first(other, user_agent, wanted, i) implies is_first(
        pool,
        user_agent,
        wanted,
        i,
    ) by {}
    match first_with(pool, user_agent, wanted) {
        Some(i) => {
            lemma_first_with_is(other, user_agent, wanted, i);
        },
        None => {},
    }
}

/// The record has this path, and this verdict for the client.
pub open spec fn answers(
    record: AliasView,
    path: Seq<char>,
    user_agent: Seq<char>,
    wanted: Verdict,
) -> bool {
    record.uri == path && verdict_of(record, user_agent) == wanted
}

/// The value is that of a record loaded before position `a`.
pub open spec fn loaded_before(records: Seq<AliasView>, a: int, candidate: AliasView) -> bool {
    exists|k: int| 0 <= k < a && k < records.len() && #[trigger] records[k] == candidate
}

/// Candidates keep the load order: a record with the path is a candidate,
/// and every candidate before it is a record that was loaded before it.
pub proof fn lemma_candidate_position(records: Seq<AliasView>, path: Seq<char>, a: int) -> (m: int)
    requires
        0 <= a < records.len(),
        records[a].uri == path,
    ensures
        0 <= m < candidates(records, path).len(),
        candidates(records, path)[m] == records[a],
        forall|j: int|
            0 <= j < m ==> loaded_before(records, a, #[trigger] candidates(records, path)[j]),
{
    let same_path = |record: AliasView| record.uri == path;
    let front = records.take(a);
    let middle = seq![records[a]];
    let back = records.skip(a + 1);
    assert(records == front + middle + back);
    Seq::filter_distributes_over_add(front + middle, back, same_path);
    Seq::filter_distributes_over_add(front, middle, same_path);
    assert(middle.filter(same_path) == middle) by {
        reveal_with_fuel(Seq::filter, 2);
    }
    let m = front.filter(same_path).len() as int;
    let pool = candidates(records, path);
    assert forall|j: int| 0 <= j < m implies loaded_before(records, a, #[trigger] pool[j]) by {
        front.lemma_filter_contains_rev(same_path, front.filter(same_path)[j]);
    }
    m
}

/// Every candidate is a record with the path.
pub proof fn lemma_candidate_is_record(records: Seq<AliasView>, path: Seq<char>, j: int) -> (k: int)
    requires
        0 <= j < candidates(records, path).len(),
    ensures
        0 <= k < records.len(),
        records[k] == candidates(records, path)[j],
        records[k].uri == path,
{
    let same_path = |record: AliasView| record.uri == path;
    let candidate = candidates(records, path)[j];
    records.lemma_filter_contains_rev(same_path, candidate);
    records.lemma_filter_pred(same_path, j);
    choose|k: int| 0 <= k < records.len() && records[k] == candidate
}

/// The first record that answers with a verdict is the first candidate with
/// that verdict.
pub proof fn lemma_first_record_is_first_candidate(
    records: Seq<AliasView>,
    path: Seq<char>,
    user_agent: Seq<char>,
    wanted: Verdict,
    a: int,
)
    requires
        0 <= a < records.len(),
        answers(records[a], path, user_agent, wanted),
        forall|k: int| 0 <= k < a ==> !answers(#[trigger] records[k], path, user_agent, wanted),
    ensures
        first_with(candidates(records, path), user_agent, wanted) matches Some(m) && candidates(
            records,
            path,
        )[m] == records[a],
{
    let pool = candidates(records, path);
    let m = lemma_candidate_position(records, path, a);
    assert forall|j: int| 0 <= j < m implies verdict_of(#[trigger] pool[j], user_agent)
        != wanted by {
        lemma_candidate_is_record(records, path, j);
    }
    lemma_first_with_is(pool, user_agent, wanted, m);
}

/// Where no record answers with a verdict, no candidate has it.
pub proof fn lemma_no_record_no_candidate(
    records: Seq<AliasView>,
    path: Seq<char>,
    user_agent: Seq<char>,
    wanted: Verdict,
)
    requires
        forall|k: int|
            0 <= k < records.len() ==> !answers(#[trigger] records[k], path, user_agent, wanted),
    ensures
        first_with(candidates(records, path), user_agent, wanted) is None,
{
    let pool = candidates(records, path);
    assert forall|j: int| 0 <= j < pool.len() implies verdict_of(#[trigger] pool[j], user_agent)
        != wanted by {
        lemma_candidate_is_record(records, path, j);
    }
    lemma_first_with_none(pool, user_agent, wanted);
}

} // verus!
