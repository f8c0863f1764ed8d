//! Ranking of scored candidates: keep those that scored, order them by score,
//! highest first, keeping the original order among equal scores (a stable sort).
use vstd::prelude::*;

verus! {

/// A scored candidate as a value.
pub type ScoredView = (i64, Seq<char>);

/// The candidates that have a score, paired with it, in their original order.
pub open spec fn scored_items(cands: Seq<Seq<char>>, scores: Seq<Option<i64>>) -> Seq<ScoredView>
    decreases cands.len(),
{
    if cands.len() == 0 || scores.len() == 0 {
        Seq::empty()
    } else {
        let rest = scored_items(cands.drop_last(), scores.drop_last());
        match scores.last() {
            Some(s) => rest.push((s, cands.last())),
            None => rest,
        }
    }
}

/// Inserts `x` into `s` just before the first element that scores lower than `x`.
pub open spec fn insert_desc(s: Seq<ScoredView>, x: ScoredView) -> Seq<ScoredView>
    decreases s.len(),
{
    if s.len() == 0 {
        seq![x]
    } else if s[0].0 < x.0 {
        seq![x] + s
    } else {
        seq![s[0]] + insert_desc(s.drop_first(), x)
    }
}

/// `s` ordered by score, highest first; equal scores keep their order in `s`.
pub open spec fn stable_desc(s: Seq<ScoredView>) -> Seq<ScoredView>
    decreases s.len(),
{
    if s.len() == 0 {
        Seq::empty()
    } else {
        insert_desc(stable_desc(s.drop_last()), s.last())
    }
}

/// The ranking of `cands` under `scores`.
pub open spec fn ranked(cands: Seq<Seq<char>>, scores: Seq<Option<i64>>) -> Seq<ScoredView> {
    stable_desc(scored_items(cands, scores))
}

/// The views of scored strings.
pub open spec fn scored_views(v: Seq<(i64, String)>) -> Seq<ScoredView> {
    v.map_values(|p: (i64, String)| (p.0, p.1@))
}

/// Index of the first element of `s` scoring lower than `score`, or `s.len()`.
pub open spec fn first_lower(s: Seq<ScoredView>, score: i64) -> int
    decreases s.len(),
{
    if s.len() == 0 {
        0
    } else if s[0].0 < score {
        0
    } else {
        1 + first_lower(s.drop_first(), score)
    }
}

/// Scores never increase along `s`.
pub open spec fn is_desc(s: Seq<ScoredView>) -> bool {
    forall|i: int, j: int| 0 <= i < j < s.len() ==> s[i].0 >= s[j].0
}

proof fn lemma_insert_desc_is_insert(s: Seq<ScoredView>, x: ScoredView)
    ensures
        0 <= first_lower(s, x.0) <= s.len(),
        insert_desc(s, x) == s.insert(first_lower(s, x.0), x),
        forall|k: int| 0 <= k < first_lower(s, x.0) ==> s[k].0 >= x.0,
        first_lower(s, x.0) < s.len() ==> s[first_lower(s, x.0)].0 < x.0,
    decreases s.len(),
{
    if s.len() == 0 {
        assert(s.insert(0, x) =~= seq![x]);
    } else if s[0].0 < x.0 {
        assert(s.insert(0, x) =~= seq![x] + s);
    } else {
        let t = s.drop_first();
        lemma_insert_desc_is_insert(t, x);
        assert(s.insert(first_lower(s, x.0), x) =~= seq![s[0]] + t.insert(first_lower(t, x.0), x));
        assert forall|k: int| 0 <= k < first_lower(s, x.0) implies s[k].0 >= x.0 by {
            if k > 0 {
                assert(s[k] == t[k - 1]);
            }
        }
    }
}

fn first_lower_index(v: &Vec<(i64, String)>, score: i64) -> (k: usize)
    ensures
        k == first_lower(scored_views(v@), score),
{
    let ghost s = scored_views(v@);
    proof {
        lemma_insert_desc_is_insert(s, (score, Seq::empty()));
    }
    let mut k: usize = 0;
    while k < v.len()
        invariant
            k <= v.len(),
            s == scored_views(v@),
            0 <= first_lower(s, score) <= s.len(),
            forall|j: int| 0 <= j < first_lower(s, score) ==> s[j].0 >= score,
            first_lower(s, score) < s.len() ==> s[first_lower(s, score)].0 < score,
            forall|j: int| 0 <= j < k ==> s[j].0 >= score,
        decreases v.len() - k,
    {
        if v[k].0 < score {
            assert(s[k as int].0 < score);
            return k;
        }
        k = k + 1;
    }
    k
}

/// Ranks candidates by the scores given for them (one score or `None` per candidate):
/// those without a score are dropped, the rest come highest score first, equal scores
/// in candidate order.
pub fn rank_by_score(candidates: &[String], scores: &[Option<i64>]) -> (r: Vec<(i64, String)>)
    requires
        candidates.len() == scores.len(),
    ensures
        scored_views(r@) == ranked(candidates@.map_values(|c: String| c@), scores@),
{
    let ghost cs = candidates@.map_values(|c: String| c@);
    let mut res: Vec<(i64, String)> = Vec::new();
    let mut i: usize = 0;
    assert(scored_views(res@) =~= stable_desc(scored_items(cs.take(0), scores@.take(0))));
    while i < candidates.len()
        invariant
            i <= candidates.len() == scores.len(),
            cs == candidates@.map_values(|c: String| c@),
            scored_views(res@) == stable_desc(scored_items(cs.take(i as int), scores@.take(i as int))),
        decreases candidates.len() - i,
    {
        let ghost before = scored_items(cs.take(i as int), scores@.take(i as int));
        assert(cs.take(i + 1).drop_last() =~= cs.take(i as int));
        assert(scores@.take(i + 1).drop_last() =~= scores@.take(i as int));
        match scores[i] {
            Some(sc) => {
                let k = first_lower_index(&res, sc);
                let item = (sc, candidates[i].clone());
                let ghost xv = (sc, candidates@[i as int]@);
                proof {
                    lemma_insert_desc_is_insert(scored_views(res@), xv);
                    assert(scored_items(cs.take(i + 1), scores@.take(i + 1)) == before.push(xv));
                    assert(before.push(xv).drop_last() =~= before);
                }
                res.insert(k, item);
                assert(scored_views(res@) =~= insert_desc(stable_desc(before), xv));
            },
            None => {
                assert(scored_items(cs.take(i + 1), scores@.take(i + 1)) == before);
            },
        }
        i = i + 1;
    }
    assert(cs.take(candidates.len() as int) =~= cs);
    assert(scores@.take(scores.len() as int) =~= scores@);
    res
}

proof fn lemma_insert_desc_sorted(s: Seq<ScoredView>, x: ScoredView)
    requires
        is_desc(s),
    ensures
        is_desc(insert_desc(s, x)),
        insert_desc(s, x).to_multiset() == s.to_multiset().insert(x),
{
    lemma_insert_desc_is_insert(s, x);
    let k = first_lower(s, x.0);
    let r = s.insert(k, x);
    assert forall|i: int, j: int| 0 <= i < j < r.len() implies r[i].0 >= r[j].0 by {
        if j < k {
        } else if j == k {
        } else if i < k {
            assert(r[j] == s[j - 1]);
            if j - 1 >= k {
                assert(s[k].0 >= s[j - 1].0);
            }
        } else if i == k {
            assert(r[j] == s[j - 1]);
            assert(s[k].0 >= s[j - 1].0 || j - 1 == k);
        } else {
            assert(r[i] == s[i - 1] && r[j] == s[j - 1]);
        }
    }
    vstd::seq_lib::to_multiset_insert(s, k, x);
}

/// A ranking lists scores highest first, and holds exactly the candidates that scored,
/// each with its score (as a multiset: nothing is lost, duplicated or invented).
pub proof fn law_ranking_sorted_permutation(cands: Seq<Seq<char>>, scores: Seq<Option<i64>>)
    ensures
        is_desc(ranked(cands, scores)),
        ranked(cands, scores).to_multiset() == scored_items(cands, scores).to_multiset(),
{
    lemma_stable_desc(scored_items(cands, scores));
}

proof fn lemma_stable_desc(s: Seq<ScoredView>)
    ensures
        is_desc(stable_desc(s)),
        stable_desc(s).to_multiset() == s.to_multiset(),
    decreases s.len(),
{
    if s.len() == 0 {
        assert(stable_desc(s) =~= s);
    } else {
        lemma_stable_desc(s.drop_last());
        lemma_insert_desc_sorted(stable_desc(s.drop_last()), s.last());
        vstd::seq_lib::to_multiset_build(s.drop_last(), s.last());
        assert(s.drop_last().push(s.last()) =~= s);
    }
}

} // verus!
