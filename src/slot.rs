//! Named state-machine slots: a transition function and a current data node
//! per slot, advanced by applying the transition to the data and an action.
use vstd::prelude::*;

use crate::builder::{application_operator, application_request};
use crate::entry::{ContentHash, CreateSensemakerEntryInput, OperandView};

verus! {

/// Tag of the links to a slot's transition function.
pub const SM_COMP_TAG: &'static str = "sm_comp";

/// Tag of the links to a slot's initial data.
pub const SM_INIT_TAG: &'static str = "sm_init";

/// Tag of the links to a slot's current data.
pub const SM_DATA_TAG: &'static str = "sm_data";

/// Tag of the registry links from the root to buckets and from buckets to nodes.
pub const OWNER_TAG: &'static str = "sensemaker_owner";

/// A link from a path to a record, with the time it was made.
#[derive(Debug, PartialEq, Eq)]
pub struct Link {
    pub target: ContentHash,
    pub timestamp: i64,
}

/// Whether `k` is the index of the latest link: no link is later, and every
/// link after it is strictly earlier.
pub open spec fn is_latest(links: Seq<Link>, k: int) -> bool {
    &&& 0 <= k < links.len()
    &&& forall|i: int| 0 <= i < links.len() ==> links[i].timestamp <= links[k].timestamp
    &&& forall|i: int| k < i < links.len() ==> links[i].timestamp < links[k].timestamp
}

/// The index of the latest link: the greatest timestamp, and among links
/// with that timestamp the last one.
pub fn latest_link_index(links: &Vec<Link>) -> (r: Option<usize>)
    ensures
        links.len() == 0 ==> r is None,
        links.len() > 0 ==> r is Some && is_latest(links@, r->Some_0 as int),
{
    if links.len() == 0 {
        return None;
    }
    let mut best: usize = 0;
    let mut i: usize = 1;
    while i < links.len()
        invariant
            1 <= i <= links.len(),
            is_latest(links@.subrange(0, i as int), best as int),
        decreases links.len() - i,
    {
        if links[i].timestamp >= links[best].timestamp {
            best = i;
        }
        i = i + 1;
    }
    assert(links@.subrange(0, links.len() as int) =~= links@);
    Some(best)
}

/// The latest link's target, if there is any link.
pub fn get_latest_linked_entry(links: &Vec<Link>) -> (r: Option<ContentHash>)
    ensures
        links.len() == 0 ==> r is None,
        links.len() > 0 ==> r is Some && exists|k: int| is_latest(links@, k) && r->Some_0@ == links@[k].target@,
{
    match latest_link_index(links) {
        None => None,
        Some(k) => Some(links[k].target.copy()),
    }
}

/// Exactly one index is the latest.
pub proof fn lemma_latest_unique(links: Seq<Link>, a: int, b: int)
    requires
        is_latest(links, a),
        is_latest(links, b),
    ensures
        a == b,
{
    if a < b {
        assert(links[b].timestamp < links[a].timestamp);
        assert(links[a].timestamp <= links[b].timestamp);
    } else if b < a {
        assert(links[a].timestamp < links[b].timestamp);
        assert(links[b].timestamp <= links[a].timestamp);
    }
}

/// Slot history is append-only and the latest link wins: appending a link no
/// earlier than every existing one keeps all earlier links and makes the new
/// one the latest.
pub proof fn lemma_appended_link_is_latest(links: Seq<Link>, newer: Link)
    requires
        forall|i: int| 0 <= i < links.len() ==> links[i].timestamp <= newer.timestamp,
    ensures
        is_latest(links.push(newer), links.len() as int),
        links.push(newer).subrange(0, links.len() as int) == links,
{
    assert(links.push(newer).subrange(0, links.len() as int) =~= links);
}

/// Which role a slot link plays.
#[derive(Debug, PartialEq, Eq)]
pub enum SlotTag {
    Comp,
    Init,
    Data,
}

/// A link to make from a path to a node.
#[derive(Debug, PartialEq, Eq)]
pub struct SlotLink {
    pub path: String,
    pub tag: SlotTag,
    pub target: ContentHash,
}

/// Why a slot could not be initialized or stepped.
#[derive(Debug, PartialEq, Eq)]
pub enum SmError {
    NoInitValue,
    NoComputation,
    NoData,
}

/// The path of the data of the slot `path` for the record `target`: the two
/// joined by a dot.
pub fn sm_data_path(path: &String, target: &String) -> (r: String)
    ensures
        r@ == path@ + seq!['.'] + target@,
{
    let mut r = path.clone();
    let dot: &'static str = ".";
    proof {
        reveal_strlit(".");
    }
    r.append(dot);
    r.append(target.as_str());
    r
}

/// Initializes the data of slot `path` for `target` with the slot's latest
/// initial value, or fails with `NoInitValue` when it has none.
pub fn initialize_sm_data(path: &String, target: &String, latest_init: Option<ContentHash>) -> (r: Result<
    SlotLink,
    SmError,
>)
    ensures
        latest_init is None ==> r is Err && r->Err_0 is NoInitValue,
        latest_init is Some ==> r is Ok && r->Ok_0.path@ == path@ + seq!['.'] + target@
            && r->Ok_0.tag is Data && r->Ok_0.target@ == latest_init->Some_0@,
{
    match latest_init {
        None => Err(SmError::NoInitValue),
        Some(init) => Ok(SlotLink { path: sm_data_path(path, target), tag: SlotTag::Data, target: init }),
    }
}

/// A step of a slot whose data and transition function are known.
#[derive(Debug, PartialEq, Eq)]
pub struct StepPlan {
    /// Where the slot's data links live.
    pub data_path: String,
    /// The slot's current data node.
    pub data: ContentHash,
    /// The slot's transition function node.
    pub comp: ContentHash,
}

/// Starts a step of slot `path` for `target`, given the latest data link of
/// the slot's data path and the latest transition link of the slot. Fails with
/// `NoData` when there is no data, else with `NoComputation` when there is no
/// transition function.
pub fn step_sm(path: &String, target: &String, latest_data: Option<ContentHash>, latest_comp: Option<ContentHash>) -> (r:
    Result<StepPlan, SmError>)
    ensures
        latest_data is None ==> r is Err && r->Err_0 is NoData,
        latest_data is Some && latest_comp is None ==> r is Err && r->Err_0 is NoComputation,
        latest_data is Some && latest_comp is Some ==> r is Ok && r->Ok_0.data_path@ == path@ + seq!['.'] + target@
            && r->Ok_0.data@ == latest_data->Some_0@ && r->Ok_0.comp@ == latest_comp->Some_0@,
{
    let data = match latest_data {
        None => {
            return Err(SmError::NoData);
        },
        Some(d) => d,
    };
    let comp = match latest_comp {
        None => {
            return Err(SmError::NoComputation);
        },
        Some(c) => c,
    };
    Ok(StepPlan { data_path: sm_data_path(path, target), data, comp })
}

impl StepPlan {
    /// The node to build for this step: the transition function applied to the
    /// data and then to the action, given the identities of the three records.
    pub fn application(&self, comp_id: &ContentHash, data_id: &ContentHash, action_id: &ContentHash) -> (r:
        CreateSensemakerEntryInput)
        ensures
            r.expr == application_operator(3),
            r.args.len() == 3,
            r.args@[0]@ == OperandView::Node(comp_id@),
            r.args@[1]@ == OperandView::Node(data_id@),
            r.args@[2]@ == OperandView::Node(action_id@),
    {
        let mut ids: Vec<ContentHash> = Vec::new();
        ids.push(comp_id.copy());
        ids.push(data_id.copy());
        ids.push(action_id.copy());
        application_request(&ids)
    }

    /// The link that makes `new_data` the slot's current data.
    pub fn advance(&self, new_data: ContentHash) -> (r: SlotLink)
        ensures
            r.path@ == self.data_path@,
            r.tag is Data,
            r.target@ == new_data@,
    {
        SlotLink { path: self.data_path.clone(), tag: SlotTag::Data, target: new_data }
    }
}

} // verus!
