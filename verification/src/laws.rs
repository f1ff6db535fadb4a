//! General facts about resolving, proved from its definition.

use vstd::prelude::*;

use crate::matcher::pattern_matches;
use crate::model::Alias;
use crate::model::AliasView;
use crate::selection::answers;
use crate::selection::fallback_pool;
use crate::selection::first_with;
use crate::selection::lemma_first_record_is_first_candidate;
use crate::selection::lemma_first_with_none;
use crate::selection::lemma_first_with_some;
use crate::selection::lemma_no_record_no_candidate;
use crate::selection::lemma_selected_by_verdicts;
use crate::selection::optional_view;
use crate::selection::resolved;
use crate::selection::selected;
use crate::selection::verdict_of;
use crate::selection::Verdict;
use crate::table::candidates;

verus! {

/// Where no record with the path has an agent pattern that matches the
/// client, the answer is the first record with the path that falls back.
pub proof fn law_first_fallback_is_answer(
    records: Seq<AliasView>,
    path: Seq<char>,
    user_agent: Seq<char>,
    i: int,
)
    requires
        0 <= i < records.len(),
        answers(records[i], path, user_agent, Verdict::FallsBack),
        forall|k: int|
            0 <= k < i ==> !answers(#[trigger] records[k], path, user_agent, Verdict::FallsBack),
        forall|k: int|
            0 <= k < records.len() ==> !answers(
                #[trigger] records[k],
                path,
                user_agent,
                Verdict::Claims,
            ),
    ensures
        resolved(records, path, user_agent) == Some(records[i]),
{
    lemma_no_record_no_candidate(records, path, user_agent, Verdict::Claims);
    lemma_first_record_is_first_candidate(records, path, user_agent, Verdict::FallsBack, i);
}

/// Where every record with the path is hidden from the client, there is no
/// answer.
pub proof fn law_hidden_records_give_no_answer(
    records: Seq<AliasView>,
    path: Seq<char>,
    user_agent: Seq<char>,
)
    requires
        forall|k: int|
            0 <= k < records.len() && (#[trigger] records[k]).uri == path ==> verdict_of(
                records[k],
                user_agent,
            ) == Verdict::Excluded,
    ensures
        resolved(records, path, user_agent) is None,
{
    lemma_no_record_no_candidate(records, path, user_agent, Verdict::Claims);
    lemma_no_record_no_candidate(records, path, user_agent, Verdict::FallsBack);
}

/// A path that no record carries has no candidate and resolves to nothing,
/// whoever asks.
pub proof fn law_unknown_path_resolves_to_none(
    records: Seq<AliasView>,
    path: Seq<char>,
    user_agent: Seq<char>,
)
    requires
        forall|i: int| 0 <= i < records.len() ==> (#[trigger] records[i]).uri != path,
    ensures
        candidates(records, path).len() == 0,
        resolved(records, path, user_agent) is None,
{
    let same_path = |record: AliasView| record.uri == path;
    let pool = candidates(records, path);
    if pool.len() > 0 {
        records.lemma_filter_contains_rev(same_path, pool[0]);
        records.lemma_filter_pred(same_path, 0);
    }
    lemma_first_with_none(pool, user_agent, Verdict::Claims);
    lemma_first_with_none(pool, user_agent, Verdict::FallsBack);
}

/// Where a record with the path has an agent pattern that matches the
/// client, the answer is the first record that does: the one returned here,
/// which stands at or before `j`. No match that is loaded later takes its
/// place.
pub proof fn law_earliest_match_wins(
    records: Seq<AliasView>,
    path: Seq<char>,
    user_agent: Seq<char>,
    j: int,
) -> (i: int)
    requires
        0 <= j < records.len(),
        answers(records[j], path, user_agent, Verdict::Claims),
    ensures
        0 <= i <= j,
        answers(records[i], path, user_agent, Verdict::Claims),
        forall|k: int|
            0 <= k < i ==> !answers(#[trigger] records[k], path, user_agent, Verdict::Claims),
        resolved(records, path, user_agent) == Some(records[i]),
    decreases j,
{
    if exists|k: int|
        0 <= k < j && answers(#[trigger] records[k], path, user_agent, Verdict::Claims) {
        let k = choose|k: int|
            0 <= k < j && answers(#[trigger] records[k], path, user_agent, Verdict::Claims);
        law_earliest_match_wins(records, path, user_agent, k)
    } else {
        lemma_first_record_is_first_candidate(records, path, user_agent, Verdict::Claims, j);
        j
    }
}

/// Of two records with the path whose agent patterns both match the client,
/// the one loaded earlier is the answer, provided no record loaded before
/// it matches too.
pub proof fn law_first_match_wins(
    records: Seq<AliasView>,
    path: Seq<char>,
    user_agent: Seq<char>,
    i: int,
    j: int,
)
    requires
        0 <= i < j < records.len(),
        answers(records[i], path, user_agent, Verdict::Claims),
        answers(records[j], path, user_agent, Verdict::Claims),
        forall|k: int|
            0 <= k < i ==> !answers(#[trigger] records[k], path, user_agent, Verdict::Claims),
    ensures
        resolved(records, path, user_agent) == Some(records[i]),
{
    lemma_first_record_is_first_candidate(records, path, user_agent, Verdict::Claims, i);
}

/// Where no candidate claims the request, the one selected is the head of
/// the fallback pool, and none is selected where that pool is empty.
pub proof fn law_fallback_is_head_of_pool(pool: Seq<AliasView>, user_agent: Seq<char>)
    requires
        forall|j: int|
            0 <= j < pool.len() ==> verdict_of(#[trigger] pool[j], user_agent) != Verdict::Claims,
    ensures
        selected(pool, user_agent) is None <==> fallback_pool(pool, user_agent).len() == 0,
        selected(pool, user_agent) matches Some(i) ==> pool[i] == fallback_pool(
            pool,
            user_agent,
        )[0],
{
    let falls_back = |candidate: AliasView| verdict_of(candidate, user_agent) == Verdict::FallsBack;
    lemma_first_with_none(pool, user_agent, Verdict::Claims);
    if exists|j: int|
        0 <= j < pool.len() && verdict_of(#[trigger] pool[j], user_agent) == Verdict::FallsBack {
        let j = choose|j: int|
            0 <= j < pool.len() && verdict_of(#[trigger] pool[j], user_agent)
                == Verdict::FallsBack;
        lemma_first_with_some(pool, user_agent, Verdict::FallsBack, j);
        let i = first_with(pool, user_agent, Verdict::FallsBack)->0;
        let front = pool.take(i);
        let middle = seq![pool[i]];
        let back = pool.skip(i + 1);
        assert(pool == front + middle + back);
        Seq::filter_distributes_over_add(front + middle, back, falls_back);
        Seq::filter_distributes_over_add(front, middle, falls_back);
        front.lemma_all_neg_filter_empty(falls_back);
        assert(middle.filter(falls_back) == middle) by {
            reveal_with_fuel(Seq::filter, 2);
        }
    } else {
        lemma_first_with_none(pool, user_agent, Verdict::FallsBack);
        pool.lemma_all_neg_filter_empty(falls_back);
    }
}

/// A candidate whose rule is `only_matching` and whose pattern does not
/// match the client neither claims the request nor is in the fallback pool:
/// it is never selected, and where it is the only candidate there is no
/// answer.
pub proof fn law_strict_rule_hides_candidate(
    records: Seq<AliasView>,
    path: Seq<char>,
    user_agent: Seq<char>,
    i: int,
)
    requires
        0 <= i < candidates(records, path).len(),
        candidates(records, path)[i].agent is Some,
        candidates(records, path)[i].agent->0.only_matching == Some(true),
        !pattern_matches(candidates(records, path)[i].agent->0.regex, user_agent),
    ensures
        verdict_of(candidates(records, path)[i], user_agent) == Verdict::Excluded,
        !fallback_pool(candidates(records, path), user_agent).contains(
            candidates(records, path)[i],
        ),
        selected(candidates(records, path), user_agent) != Some(i),
        candidates(records, path).len() == 1 ==> resolved(records, path, user_agent) is None,
{
    let pool = candidates(records, path);
    let falls_back = |candidate: AliasView| verdict_of(candidate, user_agent) == Verdict::FallsBack;
    if pool.filter(falls_back).contains(pool[i]) {
        let at = choose|at: int|
            0 <= at < pool.filter(falls_back).len() && pool.filter(falls_back)[at] == pool[i];
        pool.lemma_filter_pred(falls_back, at);
    }
    if pool.len() == 1 {
        lemma_first_with_none(pool, user_agent, Verdict::Claims);
        lemma_first_with_none(pool, user_agent, Verdict::FallsBack);
    }
}

/// A candidate whose rule is not `only_matching` and whose pattern does not
/// match the client is in the fallback pool, and stands exactly as it would
/// without any agent rule: taking the rule away changes neither its verdict
/// nor which candidate is selected.
pub proof fn law_lenient_rule_falls_back(pool: Seq<AliasView>, user_agent: Seq<char>, i: int)
    requires
        0 <= i < pool.len(),
        pool[i].agent is Some,
        pool[i].agent->0.only_matching != Some(true),
        !pattern_matches(pool[i].agent->0.regex, user_agent),
    ensures
        verdict_of(pool[i], user_agent) == Verdict::FallsBack,
        fallback_pool(pool, user_agent).contains(pool[i]),
        verdict_of(pool[i], user_agent) == verdict_of(
            AliasView { agent: None, ..pool[i] },
            user_agent,
        ),
        selected(pool, user_agent) == selected(
            pool.update(i, AliasView { agent: None, ..pool[i] }),
            user_agent,
        ),
{
    let falls_back = |candidate: AliasView| verdict_of(candidate, user_agent) == Verdict::FallsBack;
    pool.lemma_filter_contains(falls_back, i);
    let other = pool.update(i, AliasView { agent: None, ..pool[i] });
    assert forall|j: int| 0 <= j < pool.len() implies verdict_of(#[trigger] pool[j], user_agent)
        == verdict_of(other[j], user_agent) by {}
    lemma_selected_by_verdicts(pool, other, user_agent);
}

/// Resolving is a function of the table, the decoded path and the client:
/// two answers to the same request are the same.
pub proof fn law_resolve_is_repeatable(
    records: Seq<AliasView>,
    path: Seq<char>,
    user_agent: Seq<char>,
    first: Option<&Alias>,
    second: Option<&Alias>,
)
    requires
        optional_view(first) == resolved(records, path, user_agent),
        optional_view(second) == resolved(records, path, user_agent),
    ensures
        optional_view(first) == optional_view(second),
        first is Some <==> second is Some,
{
}

} // verus!
