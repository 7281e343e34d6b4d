use social_sensemaker::builder::BuildError;
use social_sensemaker::discover::{collect_linked_entries, select_unifying_buckets, BucketCandidate, LinkedEntry, UnifyVerdict};
use social_sensemaker::entry::{ContentHash, FlatValue, Scheme, SensemakerEntry};
use social_sensemaker::expr::{Expr, Lit};
use social_sensemaker::publish::{create_sensemaker_entry_full, PublishLookups, StoreWrite};

fn h(b: u8) -> ContentHash {
    ContentHash { bytes: vec![b; 4] }
}

fn node(i: i64, scheme: &[u8]) -> SensemakerEntry {
    SensemakerEntry {
        operator: Expr::Lit(Lit::LInt(i)),
        operands: vec![],
        output_scheme: Scheme { encoded: scheme.to_vec() },
        output_flat_value: FlatValue { encoded: vec![i as u8] },
        start_gas: 10,
    }
}

fn lookups(root: bool, bucket: bool, existing: Option<ContentHash>) -> PublishLookups {
    PublishLookups { root_present: root, bucket: h(2), bucket_present: bucket, node: h(3), existing }
}

#[test]
fn first_publish_creates_everything() {
    let plan = create_sensemaker_entry_full(Ok(node(0, b"Int")), &lookups(false, false, None)).unwrap();
    assert_eq!(
        plan.writes,
        vec![
            StoreWrite::CreateRoot,
            StoreWrite::CreateBucket(h(2)),
            StoreWrite::LinkRootToBucket(h(2)),
            StoreWrite::CreateNode(h(3)),
            StoreWrite::LinkBucketToNode(h(2), h(3)),
        ]
    );
    assert_eq!(plan.existing, None);
    assert_eq!(plan.node, node(0, b"Int"));
}

#[test]
fn republish_writes_nothing_and_returns_the_record() {
    let plan = create_sensemaker_entry_full(Ok(node(0, b"Int")), &lookups(true, true, Some(h(9)))).unwrap();
    assert!(plan.writes.is_empty());
    assert_eq!(plan.existing, Some(h(9)));
}

#[test]
fn new_node_in_existing_bucket_reuses_the_bucket() {
    let plan = create_sensemaker_entry_full(Ok(node(1, b"Int")), &lookups(true, true, None)).unwrap();
    assert_eq!(plan.writes, vec![StoreWrite::CreateNode(h(3)), StoreWrite::LinkBucketToNode(h(2), h(3))]);
}

#[test]
fn publish_passes_build_errors_on() {
    let r = create_sensemaker_entry_full(Err(BuildError::GasExhausted), &lookups(false, false, None));
    assert_eq!(r, Err(BuildError::GasExhausted));
}

fn candidates() -> Vec<BucketCandidate> {
    // buckets typed `Int`, `Int -> Int` and `Bool`, checked against the target `Int`
    vec![
        BucketCandidate { bucket: h(1), verdict: UnifyVerdict::Unifies },
        BucketCandidate { bucket: h(2), verdict: UnifyVerdict::DoesNotUnify },
        BucketCandidate { bucket: h(3), verdict: UnifyVerdict::DoesNotUnify },
    ]
}

#[test]
fn target_keeps_only_unifying_buckets() {
    assert_eq!(select_unifying_buckets(&candidates(), true), vec![h(1)]);
}

#[test]
fn no_target_keeps_every_bucket() {
    assert_eq!(select_unifying_buckets(&candidates(), false), vec![h(1), h(2), h(3)]);
}

#[test]
fn unreadable_bucket_is_left_out_of_a_targeted_query() {
    let cs = vec![
        BucketCandidate { bucket: h(4), verdict: UnifyVerdict::Unreadable },
        BucketCandidate { bucket: h(5), verdict: UnifyVerdict::Unifies },
    ];
    assert_eq!(select_unifying_buckets(&cs, true), vec![h(5)]);
    assert_eq!(select_unifying_buckets(&cs, false), vec![h(4), h(5)]);
}

#[test]
fn linked_entries_come_bucket_after_bucket() {
    let groups = vec![
        vec![LinkedEntry { id: h(10), entry: node(1, b"Int") }, LinkedEntry { id: h(11), entry: node(2, b"Int") }],
        vec![],
        vec![LinkedEntry { id: h(12), entry: node(3, b"Bool") }],
    ];
    let r = collect_linked_entries(&groups);
    let ids: Vec<ContentHash> = r.iter().map(|e| e.id.copy()).collect();
    assert_eq!(ids, vec![h(10), h(11), h(12)]);
    assert_eq!(r[2].entry, node(3, b"Bool"));
}
