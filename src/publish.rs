//! Publishing a built node: the registry root, the bucket of its output
//! scheme and the node itself, each created only when the store lacks it.
use vstd::prelude::*;

use vstd::multiset::Multiset;

use crate::builder::BuildError;
use crate::entry::{ContentHash, SensemakerEntry};

verus! {

/// One write to the content store.
#[derive(Debug, PartialEq, Eq)]
pub enum StoreWrite {
    /// Create the registry root record.
    CreateRoot,
    /// Create the bucket record with this hash.
    CreateBucket(ContentHash),
    /// Link the root to the bucket with this hash, under the owner tag.
    LinkRootToBucket(ContentHash),
    /// Create the node record with this hash.
    CreateNode(ContentHash),
    /// Link a bucket to a node, under the owner tag.
    LinkBucketToNode(ContentHash, ContentHash),
}

pub enum WriteView {
    CreateRoot,
    CreateBucket(Seq<u8>),
    LinkRootToBucket(Seq<u8>),
    CreateNode(Seq<u8>),
    LinkBucketToNode(Seq<u8>, Seq<u8>),
}

impl View for StoreWrite {
    type V = WriteView;

    open spec fn view(&self) -> WriteView {
        match self {
            StoreWrite::CreateRoot => WriteView::CreateRoot,
            StoreWrite::CreateBucket(b) => WriteView::CreateBucket(b@),
            StoreWrite::LinkRootToBucket(b) => WriteView::LinkRootToBucket(b@),
            StoreWrite::CreateNode(n) => WriteView::CreateNode(n@),
            StoreWrite::LinkBucketToNode(b, n) => WriteView::LinkBucketToNode(b@, n@),
        }
    }
}

/// What the store holds of the records that one publish touches.
#[derive(Debug, PartialEq, Eq)]
pub struct PublishLookups {
    /// Whether the registry root exists.
    pub root_present: bool,
    /// The hash of the bucket for the node's output scheme.
    pub bucket: ContentHash,
    /// Whether that bucket exists.
    pub bucket_present: bool,
    /// The hash of the node.
    pub node: ContentHash,
    /// The identity of the node's record, when it already exists.
    pub existing: Option<ContentHash>,
}

/// What a publish writes, in order, and the identity of the node when it
/// already existed (otherwise the identity is the one its creation gives).
#[derive(Debug, PartialEq, Eq)]
pub struct PublishPlan {
    pub node: SensemakerEntry,
    pub writes: Vec<StoreWrite>,
    pub existing: Option<ContentHash>,
}

pub open spec fn write_views(ws: Seq<StoreWrite>) -> Seq<WriteView> {
    ws.map_values(|w: StoreWrite| w@)
}

/// The writes of a publish: the root if it is missing, then the bucket and its
/// link from the root if the bucket is missing, then the node and its link
/// from the bucket if the node is missing.
pub open spec fn publish_writes(
    root_present: bool,
    bucket: Seq<u8>,
    bucket_present: bool,
    node: Seq<u8>,
    node_present: bool,
) -> Seq<WriteView> {
    (if root_present { Seq::empty() } else { seq![WriteView::CreateRoot] })
    + (if bucket_present { Seq::empty() } else {
        seq![WriteView::CreateBucket(bucket), WriteView::LinkRootToBucket(bucket)]
    })
    + (if node_present { Seq::empty() } else {
        seq![WriteView::CreateNode(node), WriteView::LinkBucketToNode(bucket, node)]
    })
}

fn push_bucket_writes(writes: &mut Vec<StoreWrite>, bucket: &ContentHash)
    ensures
        write_views(final(writes)@) == write_views(old(writes)@)
            + seq![WriteView::CreateBucket(bucket@), WriteView::LinkRootToBucket(bucket@)],
{
    writes.push(StoreWrite::CreateBucket(bucket.copy()));
    writes.push(StoreWrite::LinkRootToBucket(bucket.copy()));
    assert(write_views(final(writes)@) =~= write_views(old(writes)@)
        + seq![WriteView::CreateBucket(bucket@), WriteView::LinkRootToBucket(bucket@)]);
}

fn push_node_writes(writes: &mut Vec<StoreWrite>, bucket: &ContentHash, node: &ContentHash)
    ensures
        write_views(final(writes)@) == write_views(old(writes)@)
            + seq![WriteView::CreateNode(node@), WriteView::LinkBucketToNode(bucket@, node@)],
{
    writes.push(StoreWrite::CreateNode(node.copy()));
    writes.push(StoreWrite::LinkBucketToNode(bucket.copy(), node.copy()));
    assert(write_views(final(writes)@) =~= write_views(old(writes)@)
        + seq![WriteView::CreateNode(node@), WriteView::LinkBucketToNode(bucket@, node@)]);
}

/// Publishes the outcome of a build: a build error comes back unchanged;
/// a built node gets the writes of [`publish_writes`] for what the store lacks.
pub fn create_sensemaker_entry_full(built: Result<SensemakerEntry, BuildError>, store: &PublishLookups) -> (r:
    Result<PublishPlan, BuildError>)
    ensures
        built is Err ==> r is Err && r->Err_0@ == built->Err_0@,
        built is Ok ==> r is Ok && r->Ok_0.node@ == built->Ok_0@
            && write_views(r->Ok_0.writes@) == publish_writes(
                store.root_present,
                store.bucket@,
                store.bucket_present,
                store.node@,
                store.existing is Some,
            )
            && match store.existing {
                Some(h) => r->Ok_0.existing is Some && r->Ok_0.existing->Some_0@ == h@,
                None => r->Ok_0.existing is None,
            },
{
    let node = match built {
        Err(e) => {
            return Err(e);
        },
        Ok(n) => n,
    };
    let mut writes: Vec<StoreWrite> = Vec::new();
    if !store.root_present {
        writes.push(StoreWrite::CreateRoot);
    }
    assert(write_views(writes@) =~= (if store.root_present { Seq::empty() } else {
        seq![WriteView::CreateRoot]
    }));
    if !store.bucket_present {
        push_bucket_writes(&mut writes, &store.bucket);
    }
    let existing = match &store.existing {
        Some(h) => Some(h.copy()),
        None => {
            push_node_writes(&mut writes, &store.bucket, &store.node);
            None
        },
    };
    Ok(PublishPlan { node, writes, existing })
}

/// The content store as publishing sees it: each record by its content hash,
/// with the identity its creation was given, and the links between hashes.
pub struct StoreModel {
    pub records: Map<Seq<u8>, Seq<u8>>,
    pub links: Multiset<(Seq<u8>, Seq<u8>)>,
}

/// Creates the record `h` with identity `id`; creating a record that exists
/// changes nothing.
pub open spec fn create_record(s: StoreModel, h: Seq<u8>, id: Seq<u8>) -> StoreModel {
    if s.records.contains_key(h) {
        s
    } else {
        StoreModel { records: s.records.insert(h, id), links: s.links }
    }
}

pub open spec fn add_link(s: StoreModel, from: Seq<u8>, to: Seq<u8>) -> StoreModel {
    StoreModel { records: s.records, links: s.links.insert((from, to)) }
}

/// The store after one write; `root` is the hash of the registry root and
/// `id` the identity that a creation gets.
pub open spec fn apply_write(s: StoreModel, root: Seq<u8>, w: WriteView, id: Seq<u8>) -> StoreModel {
    match w {
        WriteView::CreateRoot => create_record(s, root, id),
        WriteView::CreateBucket(b) => create_record(s, b, id),
        WriteView::LinkRootToBucket(b) => add_link(s, root, b),
        WriteView::CreateNode(n) => create_record(s, n, id),
        WriteView::LinkBucketToNode(b, n) => add_link(s, b, n),
    }
}

/// The store after the writes `ws`, first to last.
pub open spec fn apply_writes(s: StoreModel, root: Seq<u8>, ws: Seq<WriteView>, id: Seq<u8>) -> StoreModel
    decreases ws.len(),
{
    if ws.len() == 0 {
        s
    } else {
        apply_writes(apply_write(s, root, ws[0], id), root, ws.drop_first(), id)
    }
}

/// The writes that publishing the node `node`, of bucket `bucket`, makes on `s`.
pub open spec fn publish_on(s: StoreModel, root: Seq<u8>, bucket: Seq<u8>, node: Seq<u8>) -> Seq<WriteView> {
    publish_writes(
        s.records.contains_key(root),
        bucket,
        s.records.contains_key(bucket),
        node,
        s.records.contains_key(node),
    )
}

/// The identity that publishing `node` on `s` returns, where a creation gets `id`.
pub open spec fn published_identity(s: StoreModel, node: Seq<u8>, id: Seq<u8>) -> Seq<u8> {
    if s.records.contains_key(node) {
        s.records[node]
    } else {
        id
    }
}

/// The registry links of one node are as publishing leaves them: one link
/// from the root to the bucket exactly when the bucket exists, and one from
/// the bucket to the node exactly when the node exists.
pub open spec fn registry_consistent(s: StoreModel, root: Seq<u8>, bucket: Seq<u8>, node: Seq<u8>) -> bool {
    &&& s.links.count((root, bucket)) == (if s.records.contains_key(bucket) { 1nat } else { 0nat })
    &&& s.links.count((bucket, node)) == (if s.records.contains_key(node) { 1nat } else { 0nat })
}

proof fn lemma_apply_concat(s: StoreModel, root: Seq<u8>, a: Seq<WriteView>, b: Seq<WriteView>, id: Seq<u8>)
    ensures
        apply_writes(s, root, a + b, id) == apply_writes(apply_writes(s, root, a, id), root, b, id),
    decreases a.len(),
{
    if a.len() == 0 {
        assert(a + b =~= b);
    } else {
        assert((a + b).drop_first() =~= a.drop_first() + b);
        lemma_apply_concat(apply_write(s, root, a[0], id), root, a.drop_first(), b, id);
    }
}

proof fn lemma_apply_one(s: StoreModel, root: Seq<u8>, w: WriteView, id: Seq<u8>)
    ensures
        apply_writes(s, root, seq![w], id) == apply_write(s, root, w, id),
{
    assert(seq![w].drop_first() =~= Seq::<WriteView>::empty());
    assert(apply_writes(apply_write(s, root, w, id), root, Seq::<WriteView>::empty(), id)
        == apply_write(s, root, w, id));
}

proof fn lemma_apply_two(s: StoreModel, root: Seq<u8>, w: WriteView, v: WriteView, id: Seq<u8>)
    ensures
        apply_writes(s, root, seq![w, v], id) == apply_write(apply_write(s, root, w, id), root, v, id),
{
    assert(seq![w, v] =~= seq![w] + seq![v]);
    lemma_apply_concat(s, root, seq![w], seq![v], id);
    lemma_apply_one(s, root, w, id);
    lemma_apply_one(apply_write(s, root, w, id), root, v, id);
}

/// Publishing is idempotent. On a store whose registry links for the node are
/// consistent, one publish leaves the root, the bucket and the node stored,
/// with exactly one link from the root to the bucket and one from the bucket
/// to the node; publishing the same node again writes nothing and returns the
/// same identity as the first publish.
pub proof fn lemma_publish_idempotent(
    s: StoreModel,
    root: Seq<u8>,
    bucket: Seq<u8>,
    node: Seq<u8>,
    id: Seq<u8>,
    second_id: Seq<u8>,
)
    requires
        registry_consistent(s, root, bucket, node),
        root != bucket,
        root != node,
        bucket != node,
    ensures
        ({
            let s1 = apply_writes(s, root, publish_on(s, root, bucket, node), id);
            &&& s1.records.contains_key(root)
            &&& s1.records.contains_key(bucket)
            &&& s1.records.contains_key(node)
            &&& s1.links.count((root, bucket)) == 1
            &&& s1.links.count((bucket, node)) == 1
            &&& registry_consistent(s1, root, bucket, node)
            &&& publish_on(s1, root, bucket, node) == Seq::<WriteView>::empty()
            &&& published_identity(s1, node, second_id) == published_identity(s, node, id)
        }),
{
    let root_w: Seq<WriteView> = if s.records.contains_key(root) { Seq::empty() } else {
        seq![WriteView::CreateRoot]
    };
    let bucket_w: Seq<WriteView> = if s.records.contains_key(bucket) { Seq::empty() } else {
        seq![WriteView::CreateBucket(bucket), WriteView::LinkRootToBucket(bucket)]
    };
    let node_w: Seq<WriteView> = if s.records.contains_key(node) { Seq::empty() } else {
        seq![WriteView::CreateNode(node), WriteView::LinkBucketToNode(bucket, node)]
    };
    lemma_apply_concat(s, root, root_w + bucket_w, node_w, id);
    lemma_apply_concat(s, root, root_w, bucket_w, id);
    let s_a = apply_writes(s, root, root_w, id);
    let s_b = apply_writes(s_a, root, bucket_w, id);
    let s1 = apply_writes(s_b, root, node_w, id);
    if s.records.contains_key(root) {
        assert(s_a == s);
    } else {
        lemma_apply_one(s, root, WriteView::CreateRoot, id);
    }
    if s.records.contains_key(bucket) {
        assert(s_b == s_a);
    } else {
        lemma_apply_two(s_a, root, WriteView::CreateBucket(bucket), WriteView::LinkRootToBucket(bucket), id);
    }
    if s.records.contains_key(node) {
        assert(s1 == s_b);
    } else {
        lemma_apply_two(s_b, root, WriteView::CreateNode(node), WriteView::LinkBucketToNode(bucket, node), id);
    }
    assert(publish_on(s, root, bucket, node) == root_w + bucket_w + node_w);
    assert(publish_on(s1, root, bucket, node) =~= Seq::<WriteView>::empty());
}

} // verus!
