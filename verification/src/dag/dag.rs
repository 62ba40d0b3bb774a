//! The provenance record of one request: an ordered list of stage records,
//! summarised by a Merkle root over the hashes of their serialised forms.

use vstd::prelude::*;
use vstd::string::*;
use crate::digest::{blake3_hex, blake3_hex_of};
use crate::text::{
    decimal,
    decimal_string,
    json_string,
    json_string_of,
    lemma_decimal,
    lemma_decimal_injective,
    lemma_hyphen_suffix,
    lemma_json_string_single_line,
    lemma_short_single_line,
    opt_text,
    single_line,
    texts,
    utf8,
};
use super::merkletree::{next_layer, root_of, MerkleTree};

verus! {

/// One stage of a request's pipeline. `payload` holds the stage's data as
/// JSON text; the ledger hashes it and never looks inside.
#[derive(Debug)]
pub struct DagNode {
    pub id: String,
    pub node_type: String,
    pub payload: String,
}

/// What a stage record holds.
pub struct DagNodeView {
    pub id: Seq<char>,
    pub node_type: Seq<char>,
    pub payload: Seq<char>,
}

impl View for DagNode {
    type V = DagNodeView;

    open spec fn view(&self) -> DagNodeView {
        DagNodeView { id: self.id@, node_type: self.node_type@, payload: self.payload@ }
    }
}

impl Clone for DagNode {
    fn clone(&self) -> (out: Self)
        ensures
            out@ == self@,
    {
        DagNode {
            id: self.id.clone(),
            node_type: self.node_type.clone(),
            payload: self.payload.clone(),
        }
    }
}

/// What a list of stage records holds.
pub open spec fn node_views(nodes: Seq<DagNode>) -> Seq<DagNodeView> {
    Seq::new(nodes.len(), |i: int| nodes[i]@)
}

/// The identifier of the stage of type `node_type` at position `index`.
pub open spec fn node_id(node_type: Seq<char>, index: nat) -> Seq<char> {
    node_type + "-"@ + decimal(index)
}

/// Every record's identifier is made of its type and its position.
pub open spec fn ids_by_position(nodes: Seq<DagNodeView>) -> bool {
    forall|i: int|
        0 <= i < nodes.len() ==> (#[trigger] nodes[i]).id == node_id(nodes[i].node_type, i as nat)
}

/// The serialised form of a stage record: a JSON object with the members
/// `id`, `node_type` and `payload`, in that order.
pub open spec fn node_json(node: DagNodeView) -> Seq<char> {
    "{\"id\":"@ + json_string(node.id) + ",\"node_type\":"@ + json_string(node.node_type)
        + ",\"payload\":"@ + node.payload + "}"@
}

/// The content hash of a stage record, over its whole serialised form.
pub open spec fn node_hash(node: DagNodeView) -> Seq<char> {
    blake3_hex(utf8(node_json(node)))
}

/// The leaf hashes of a list of stage records, in order.
pub open spec fn leaf_hashes(nodes: Seq<DagNodeView>) -> Seq<Seq<char>> {
    Seq::new(nodes.len(), |i: int| node_hash(nodes[i]))
}

/// The Merkle root over a list of stage records; absent for an empty list.
pub open spec fn merkle_root_of(nodes: Seq<DagNodeView>) -> Option<Seq<char>> {
    root_of(leaf_hashes(nodes))
}

/// Writes the serialised form of a stage record.
pub fn node_json_text(node: &DagNode) -> (out: String)
    ensures
        out@ == node_json(node@),
{
    let mut out = String::from_str("{\"id\":");
    out.append(json_string_of(node.id.as_str()).as_str());
    out.append(",\"node_type\":");
    out.append(json_string_of(node.node_type.as_str()).as_str());
    out.append(",\"payload\":");
    out.append(node.payload.as_str());
    out.append("}");
    out
}

/// Computes the content hash of a stage record.
pub fn node_hash_text(node: &DagNode) -> (out: String)
    ensures
        out@ == node_hash(node@),
{
    let json = node_json_text(node);
    blake3_hex_of(json.as_str().as_bytes())
}

/// The provenance of one request: its stage records in insertion order.
#[derive(Debug)]
pub struct RequestDag {
    pub nodes: Vec<DagNode>,
}

impl Default for RequestDag {
    fn default() -> (dag: Self)
        ensures
            dag.stages() == Seq::<DagNodeView>::empty(),
            dag.well_formed(),
    {
        let dag = RequestDag { nodes: Vec::new() };
        assert(dag.stages() =~= Seq::<DagNodeView>::empty());
        dag
    }
}

impl RequestDag {
    /// The stage records, in insertion order.
    pub open spec fn stages(&self) -> Seq<DagNodeView> {
        node_views(self.nodes@)
    }

    /// The records are as `add_node` leaves them: each identifier is made
    /// of the record's type and position.
    pub open spec fn well_formed(&self) -> bool {
        ids_by_position(self.stages())
    }

    /// Appends a stage record and returns a copy of it. Its identifier is
    /// the stage type and the record's position, joined by a hyphen.
    pub fn add_node(&mut self, node_type: &str, payload: String) -> (node: DagNode)
        ensures
            node@ == (DagNodeView {
                id: node_id(node_type@, old(self).stages().len()),
                node_type: node_type@,
                payload: payload@,
            }),
            final(self).stages() == old(self).stages().push(node@),
            old(self).well_formed() ==> final(self).well_formed(),
    {
        let mut id = String::from_str(node_type);
        id.append("-");
        id.append(decimal_string(self.nodes.len() as u64).as_str());
        let node = DagNode { id, node_type: String::from_str(node_type), payload };
        let copy = node.clone();
        self.nodes.push(node);
        assert(self.stages() =~= old(self).stages().push(copy@));
        copy
    }

    /// The Merkle root over the hashes of the stage records, in insertion
    /// order; `None` when no stage was recorded.
    pub fn merkle_root(&self) -> (r: Option<String>)
        ensures
            opt_text(r) == merkle_root_of(self.stages()),
            r is None <==> self.stages().len() == 0,
    {
        if self.nodes.len() == 0 {
            assert(leaf_hashes(self.stages()).len() == 0);
            return None;
        }
        let mut leaves: Vec<String> = Vec::new();
        let mut i: usize = 0;
        while i < self.nodes.len()
            invariant
                i <= self.nodes@.len(),
                leaves@.len() == i,
                forall|k: int| 0 <= k < i ==> leaves@[k]@ == node_hash(self.nodes@[k]@),
            decreases self.nodes@.len() - i,
        {
            leaves.push(node_hash_text(&self.nodes[i]));
            i += 1;
        }
        assert(texts(leaves@) =~= leaf_hashes(self.stages()));
        let tree = MerkleTree::from_leaves(leaves);
        proof {
            lemma_root_present(leaf_hashes(self.stages()));
        }
        tree.root()
    }
}

/// In a provenance whose identifiers are made by position, no two records
/// have the same identifier.
pub proof fn lemma_ids_unique(nodes: Seq<DagNodeView>)
    requires
        ids_by_position(nodes),
    ensures
        forall|i: int, j: int|
            0 <= i < nodes.len() && 0 <= j < nodes.len() && i != j ==> (#[trigger] nodes[i]).id != (
            #[trigger] nodes[j]).id,
{
    reveal_strlit("-");
    assert("-"@ =~= seq!['-']);
    assert forall|i: int, j: int|
        0 <= i < nodes.len() && 0 <= j < nodes.len() && i != j implies (#[trigger] nodes[i]).id != (
        #[trigger] nodes[j]).id by {
        lemma_decimal(i as nat);
        lemma_decimal(j as nat);
        if nodes[i].id == nodes[j].id {
            lemma_hyphen_suffix(
                nodes[i].node_type,
                decimal(i as nat),
                nodes[j].node_type,
                decimal(j as nat),
            );
            lemma_decimal_injective(i as nat, j as nat);
        }
    }
}

/// The serialised form of a stage record holds no line break, provided that
/// its payload holds none.
pub proof fn lemma_node_json_single_line(node: DagNodeView)
    requires
        single_line(node.payload),
    ensures
        single_line(node_json(node)),
{
    lemma_json_string_single_line(node.id);
    lemma_json_string_single_line(node.node_type);
    reveal_strlit("{\"id\":");
    lemma_short_single_line("{\"id\":"@);
    reveal_strlit(",\"node_type\":");
    lemma_short_single_line(",\"node_type\":"@);
    reveal_strlit(",\"payload\":");
    lemma_short_single_line(",\"payload\":"@);
    reveal_strlit("}");
    lemma_short_single_line("}"@);
}

/// A non-empty layer has a root.
pub proof fn lemma_root_present(layer: Seq<Seq<char>>)
    requires
        layer.len() > 0,
    ensures
        root_of(layer) is Some,
    decreases layer.len(),
{
    if layer.len() > 1 {
        lemma_root_present(next_layer(layer));
    }
}

/// Knows the peers over which work is spread.
pub struct DagScheduler {
    pub peers: Vec<String>,
}

impl Default for DagScheduler {
    fn default() -> (scheduler: Self)
        ensures
            scheduler.peers@.len() == 0,
    {
        DagScheduler { peers: Vec::new() }
    }
}

/// The note that `schedule_task` writes for a task and a number of peers.
pub open spec fn schedule_note(task: Seq<char>, peers: nat) -> Seq<char> {
    "scheduled: "@ + task + " across "@ + decimal(peers) + " peers"@
}

impl DagScheduler {
    /// Describes the scheduling of `task` over the known peers.
    pub fn schedule_task(&self, task: &str) -> (out: String)
        ensures
            out@ == schedule_note(task@, self.peers@.len()),
    {
        let mut out = String::from_str("scheduled: ");
        out.append(task);
        out.append(" across ");
        out.append(decimal_string(self.peers.len() as u64).as_str());
        out.append(" peers");
        out
    }

    /// The checkpoint of a request: the Merkle root of its provenance.
    pub fn record_checkpoint(&self, dag: &RequestDag) -> (r: Option<String>)
        ensures
            opt_text(r) == merkle_root_of(dag.stages()),
            r is None <==> dag.stages().len() == 0,
    {
        dag.merkle_root()
    }
}

} // verus!
