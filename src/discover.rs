//! Type-directed discovery: which registry buckets a query keeps, and the
//! nodes it returns.
use vstd::prelude::*;

use crate::entry::{ContentHash, EntryView, SensemakerEntry};

verus! {

/// What checking one bucket's scheme against the query's target gave.
#[derive(Debug, PartialEq, Eq)]
pub enum UnifyVerdict {
    /// The bucket's scheme unifies with the target.
    Unifies,
    /// It does not.
    DoesNotUnify,
    /// The bucket could not be read or decoded.
    Unreadable,
}

/// A bucket linked from the registry root, with the verdict for it.
#[derive(Debug, PartialEq, Eq)]
pub struct BucketCandidate {
    pub bucket: ContentHash,
    pub verdict: UnifyVerdict,
}

/// Whether a query keeps a bucket: every bucket when there is no target,
/// otherwise exactly those whose scheme unifies with it.
pub open spec fn keeps(has_target: bool, c: BucketCandidate) -> bool {
    !has_target || c.verdict is Unifies
}

/// The hashes of the buckets in `cs` that a query keeps, in order.
pub open spec fn kept_buckets(cs: Seq<BucketCandidate>, has_target: bool) -> Seq<Seq<u8>>
    decreases cs.len(),
{
    if cs.len() == 0 {
        Seq::empty()
    } else {
        kept_buckets(cs.drop_last(), has_target) + (if keeps(has_target, cs.last()) {
            seq![cs.last().bucket@]
        } else {
            Seq::empty()
        })
    }
}

/// The buckets among `candidates` whose nodes a query returns, in order. With
/// no target every bucket is kept; with a target a bucket is kept only when
/// its scheme unifies with it, so one that could not be checked is left out.
pub fn select_unifying_buckets(candidates: &Vec<BucketCandidate>, has_target: bool) -> (r: Vec<ContentHash>)
    ensures
        r@.map_values(|h: ContentHash| h@) == kept_buckets(candidates@, has_target),
{
    let mut r: Vec<ContentHash> = Vec::new();
    let mut i: usize = 0;
    while i < candidates.len()
        invariant
            0 <= i <= candidates.len(),
            r@.map_values(|h: ContentHash| h@) == kept_buckets(candidates@.subrange(0, i as int), has_target),
        decreases candidates.len() - i,
    {
        let ghost before = r@;
        assert(candidates@.subrange(0, i as int + 1).drop_last() == candidates@.subrange(0, i as int));
        let c = &candidates[i];
        let keep = match c.verdict {
            UnifyVerdict::Unifies => true,
            _ => !has_target,
        };
        if keep {
            r.push(c.bucket.copy());
        }
        assert(r@.map_values(|h: ContentHash| h@) =~= before.map_values(|h: ContentHash| h@) + (if keeps(
            has_target,
            candidates@[i as int],
        ) {
            seq![candidates@[i as int].bucket@]
        } else {
            Seq::empty()
        }));
        i = i + 1;
    }
    assert(candidates@.subrange(0, candidates.len() as int) == candidates@);
    r
}

/// A node found through the registry, with the identity of its record.
#[derive(Debug, PartialEq, Eq)]
pub struct LinkedEntry {
    pub id: ContentHash,
    pub entry: SensemakerEntry,
}

impl View for LinkedEntry {
    type V = (Seq<u8>, EntryView);

    open spec fn view(&self) -> (Seq<u8>, EntryView) {
        (self.id@, self.entry@)
    }
}

pub open spec fn linked_views(es: Seq<LinkedEntry>) -> Seq<(Seq<u8>, EntryView)> {
    es.map_values(|e: LinkedEntry| e@)
}

/// The nodes of every group, group after group.
pub open spec fn concat_groups(groups: Seq<Vec<LinkedEntry>>) -> Seq<(Seq<u8>, EntryView)>
    decreases groups.len(),
{
    if groups.len() == 0 {
        Seq::empty()
    } else {
        concat_groups(groups.drop_last()) + linked_views(groups.last()@)
    }
}

impl LinkedEntry {
    pub fn copy(&self) -> (r: LinkedEntry)
        ensures
            r@ == self@,
    {
        LinkedEntry { id: self.id.copy(), entry: self.entry.copy() }
    }
}

/// The result of a query: the nodes linked from each kept bucket, bucket after
/// bucket, in the order the buckets were kept.
pub fn collect_linked_entries(groups: &Vec<Vec<LinkedEntry>>) -> (r: Vec<LinkedEntry>)
    ensures
        linked_views(r@) == concat_groups(groups@),
{
    let mut r: Vec<LinkedEntry> = Vec::new();
    let mut i: usize = 0;
    while i < groups.len()
        invariant
            0 <= i <= groups.len(),
            linked_views(r@) == concat_groups(groups@.subrange(0, i as int)),
        decreases groups.len() - i,
    {
        assert(groups@.subrange(0, i as int + 1).drop_last() == groups@.subrange(0, i as int));
        let g = &groups[i];
        let ghost before = r@;
        let mut j: usize = 0;
        while j < g.len()
            invariant
                0 <= j <= g.len(),
                linked_views(r@) == linked_views(before) + linked_views(g@.subrange(0, j as int)),
            decreases g.len() - j,
        {
            let ghost prev = r@;
            r.push(g[j].copy());
            assert(linked_views(r@) =~= linked_views(prev).push(g@[j as int]@));
            assert(linked_views(g@.subrange(0, j as int + 1)) =~= linked_views(g@.subrange(0, j as int)).push(
                g@[j as int]@,
            ));
            j = j + 1;
            assert(linked_views(r@) =~= linked_views(before) + linked_views(g@.subrange(0, j as int)));
        }
        assert(g@.subrange(0, g.len() as int) == g@);
        i = i + 1;
    }
    assert(groups@.subrange(0, groups.len() as int) == groups@);
    r
}

} // verus!
