use vstd::prelude::*;
use crate::catalog::ArtifactPair;
use crate::calendar::CivilDate;
use crate::text::text_eq;

verus! {

/// A pair made on the day numbered `made` has expired on the day numbered
/// `today`: it is strictly more than `max_age_days` days old.
pub open spec fn is_expired(made: int, today: int, max_age_days: int) -> bool {
    today - made > max_age_days
}

/// The pairs of `domain` that have expired on `today`.
pub open spec fn expired_of(pairs: Seq<ArtifactPair>, domain: Seq<char>, today: int, max_age_days: int) -> Seq<ArtifactPair> {
    pairs.filter(|p: ArtifactPair| p.domain@ == domain && is_expired(p.date.ordinal as int, today, max_age_days))
}

/// The pairs of `domain` to delete on `today` under a retention of
/// `max_age_days` days: exactly those strictly older than that, in their order.
pub fn expired_pairs(pairs: &Vec<ArtifactPair>, domain: &str, today: &CivilDate, max_age_days: u32) -> (r: Vec<ArtifactPair>)
    ensures
        r@ == expired_of(pairs@, domain@, today.ordinal as int, max_age_days as int),
{
    let mut r: Vec<ArtifactPair> = Vec::new();
    let mut i: usize = 0;
    while i < pairs.len()
        invariant
            i <= pairs.len(),
            r@ == expired_of(pairs@.take(i as int), domain@, today.ordinal as int, max_age_days as int),
        decreases pairs.len() - i,
    {
        proof {
            reveal(Seq::filter);
            assert(pairs@.take(i + 1).drop_last() =~= pairs@.take(i as int));
        }
        let age = today.ordinal as i64 - pairs[i].date.ordinal as i64;
        if age > max_age_days as i64 && text_eq(pairs[i].domain.as_str(), domain) {
            r.push(pairs[i].duplicate());
        }
        i = i + 1;
    }
    assert(pairs@.take(pairs.len() as int) =~= pairs@);
    r
}

/// The files to delete for the expired pairs: the image then the
/// configuration of each, so that neither half of a pair is left behind.
pub fn deletion_paths(expired: &Vec<ArtifactPair>) -> (r: Vec<String>)
    ensures
        r@.len() == 2 * expired@.len(),
        forall|i: int| 0 <= i < expired@.len() ==> r@[2 * i] == #[trigger] expired@[i].image_path
            && r@[2 * i + 1] == expired@[i].config_path,
{
    let mut r: Vec<String> = Vec::new();
    let mut i: usize = 0;
    while i < expired.len()
        invariant
            i <= expired.len(),
            r@.len() == 2 * i,
            forall|j: int| 0 <= j < i ==> r@[2 * j] == #[trigger] expired@[j].image_path
                && r@[2 * j + 1] == expired@[j].config_path,
        decreases expired.len() - i,
    {
        r.push(expired[i].image_path.clone());
        r.push(expired[i].config_path.clone());
        i = i + 1;
    }
    r
}

/// A pair is deleted if and only if it belongs to the domain and is strictly
/// older than the retention allows; pairs of that domain no older than that stay.
pub proof fn lemma_retention_exact(pairs: Seq<ArtifactPair>, domain: Seq<char>, today: int, max_age_days: int, p: ArtifactPair)
    requires
        pairs.contains(p),
    ensures
        expired_of(pairs, domain, today, max_age_days).contains(p) <==> (p.domain@ == domain
            && today - p.date.ordinal > max_age_days),
{
    let f = |q: ArtifactPair| q.domain@ == domain && is_expired(q.date.ordinal as int, today, max_age_days);
    broadcast use vstd::seq_lib::group_filter_ensures;

    if f(p) {
        let i = choose|i: int| 0 <= i < pairs.len() && pairs[i] == p;
        pairs.lemma_filter_contains(f, i);
    }
}

} // verus!
