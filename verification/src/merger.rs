//! The merger: folds a lineage, root first, into one composite record.

use std::sync::Arc;
use vstd::prelude::*;

use crate::record::{Entries, Record};

verus! {

/// The composite of a lineage given root first: each record in turn overwrites
/// the top-level keys gathered so far, so the record nearest the leaf wins.
pub open spec fn merged(lineage: Seq<Entries>) -> Entries
    decreases lineage.len(),
{
    if lineage.len() == 0 {
        Map::empty()
    } else {
        merged(lineage.drop_last()).union_prefer_right(lineage.last())
    }
}

/// The composite of a base record and one override.
pub open spec fn composite(base: Entries, specific: Entries) -> Entries {
    base.union_prefer_right(specific)
}

/// The composites of one base with each of `overrides`, in their order.
pub open spec fn composites(base: Entries, overrides: Seq<Entries>) -> Seq<Entries> {
    Seq::new(overrides.len(), |i: int| composite(base, overrides[i]))
}

/// The entries of each record behind `handles`, in their order.
pub open spec fn entries_of(handles: Seq<Arc<Record>>) -> Seq<Entries> {
    handles.map_values(|handle: Arc<Record>| handle@)
}

/// Folds `lineage`, given root first, into its composite.
pub fn fold(lineage: &Vec<Arc<Record>>) -> (folded: Record)
    ensures
        folded@ == merged(entries_of(lineage@)),
{
    let mut folded = Record::new();
    let mut done: usize = 0;
    while done < lineage.len()
        invariant
            done <= lineage@.len(),
            folded@ == merged(entries_of(lineage@).take(done as int)),
        decreases lineage@.len() - done,
    {
        folded.absorb(&lineage[done]);
        proof {
            let all = entries_of(lineage@);
            assert(all.take(done + 1).drop_last() == all.take(done as int));
        }
        done += 1;
    }
    assert(entries_of(lineage@).take(done as int) == entries_of(lineage@));
    folded
}

/// Folding a lineage that ends in `specific` lays `specific` over the composite of
/// what precedes it: a branch's composite is decided by the ancestry it shares and
/// by its own record, and by nothing pushed onto any other branch.
pub proof fn lemma_merged_push(shared: Seq<Entries>, specific: Entries)
    ensures
        merged(shared.push(specific)) == merged(shared).union_prefer_right(specific),
{
    assert(shared.push(specific).drop_last() == shared);
}

/// Folding a base and one override gives the base with the override laid over it.
pub proof fn lemma_merged_pair(base: Entries, specific: Entries)
    ensures
        merged(seq![base, specific]) == composite(base, specific),
{
    let root = Seq::<Entries>::empty().push(base);
    lemma_merged_push(Seq::empty(), base);
    lemma_merged_push(root, specific);
    assert(seq![base, specific] == root.push(specific));
}

/// A key is in the composite of a lineage exactly if some record of the lineage has it.
pub proof fn lemma_merged_keys(lineage: Seq<Entries>, key: Seq<char>)
    ensures
        merged(lineage).dom().contains(key) <==> exists|i: int|
            0 <= i < lineage.len() && #[trigger] lineage[i].dom().contains(key),
    decreases lineage.len(),
{
    if lineage.len() > 0 {
        let shared = lineage.drop_last();
        lemma_merged_keys(shared, key);
        if merged(lineage).dom().contains(key) && !lineage.last().dom().contains(key) {
            let i = choose|i: int| 0 <= i < shared.len() && #[trigger] shared[i].dom().contains(key);
            assert(lineage[i].dom().contains(key));
        }
        if exists|i: int| 0 <= i < lineage.len() && #[trigger] lineage[i].dom().contains(key) {
            let i = choose|i: int| 0 <= i < lineage.len() && #[trigger] lineage[i].dom().contains(key);
            if i < lineage.len() - 1 {
                assert(shared[i].dom().contains(key));
            }
        }
    }
}

/// The most specific record wins: the composite of a lineage holds, under each
/// key, the value of the record nearest the leaf that has the key, whole.
pub proof fn lemma_most_specific_wins(lineage: Seq<Entries>, at: int, key: Seq<char>)
    requires
        0 <= at < lineage.len(),
        lineage[at].dom().contains(key),
        forall|later: int| at < later < lineage.len() ==> !(#[trigger] lineage[later]).dom().contains(key),
    ensures
        merged(lineage).dom().contains(key),
        merged(lineage)[key] == lineage[at][key],
    decreases lineage.len(),
{
    if at < lineage.len() - 1 {
        let shared = lineage.drop_last();
        assert forall|later: int| at < later < shared.len() implies !(#[trigger] shared[later]).dom().contains(key) by {
            assert(shared[later] == lineage[later]);
        }
        lemma_most_specific_wins(shared, at, key);
    }
}

/// Under a key that the base and an override both have, that override's composite
/// holds the override's value.
pub proof fn lemma_override_precedence(base: Entries, overrides: Seq<Entries>, i: int, key: Seq<char>)
    requires
        0 <= i < overrides.len(),
        base.dom().contains(key),
        overrides[i].dom().contains(key),
    ensures
        composites(base, overrides)[i].dom().contains(key),
        composites(base, overrides)[i][key] == overrides[i][key],
{
}

/// Under a key that the base has and an override lacks, that override's composite
/// holds the base's value.
pub proof fn lemma_base_preserved(base: Entries, overrides: Seq<Entries>, i: int, key: Seq<char>)
    requires
        0 <= i < overrides.len(),
        base.dom().contains(key),
        !overrides[i].dom().contains(key),
    ensures
        composites(base, overrides)[i].dom().contains(key),
        composites(base, overrides)[i][key] == base[key],
{
}

/// Siblings do not show in one another's composites: an override's composite has
/// no key but those of the base and of that override, and it stays as it is
/// whatever any other override is replaced with.
pub proof fn lemma_siblings_independent(
    base: Entries,
    overrides: Seq<Entries>,
    i: int,
    j: int,
    other: Entries,
)
    requires
        0 <= i < overrides.len(),
        0 <= j < overrides.len(),
        i != j,
    ensures
        composites(base, overrides.update(j, other))[i] == composites(base, overrides)[i],
        forall|key: Seq<char>| #[trigger]
            composites(base, overrides)[i].dom().contains(key) ==> base.dom().contains(key)
                || overrides[i].dom().contains(key),
        forall|key: Seq<char>|
            overrides[j].dom().contains(key) && !base.dom().contains(key) && !overrides[i].dom().contains(
                key,
            ) ==> !(#[trigger] composites(base, overrides)[i].dom().contains(key)),
{
}

/// One composite per override, in the overrides' order; none where there is no
/// override, whatever the base holds.
pub proof fn lemma_composites_follow_overrides(base: Entries, overrides: Seq<Entries>)
    ensures
        composites(base, overrides).len() == overrides.len(),
        forall|i: int|
            0 <= i < overrides.len() ==> #[trigger] composites(base, overrides)[i] == composite(
                base,
                overrides[i],
            ),
        overrides.len() == 0 ==> composites(base, overrides) == Seq::<Entries>::empty(),
{
}

} // verus!
