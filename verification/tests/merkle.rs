use axiomhive::dag::dag::{node_hash_text, node_json_text, DagNode, DagScheduler, RequestDag};
use axiomhive::dag::merkletree::{build_next_layer, combine_hashes, MerkleTree};
use axiomhive::dag::peers::{P2PNetwork, PeerInfo};

fn h2(a: &str, b: &str) -> String {
    let mut hasher = blake3::Hasher::new();
    hasher.update(a.as_bytes());
    hasher.update(b.as_bytes());
    hasher.finalize().to_hex().to_string()
}

fn leaves(items: &[&str]) -> Vec<String> {
    items.iter().map(|s| s.to_string()).collect()
}

#[test]
fn empty_tree_has_no_root() {
    assert_eq!(MerkleTree::from_leaves(vec![]).root(), None);
}

#[test]
fn single_leaf_is_its_own_root() {
    let tree = MerkleTree::from_leaves(leaves(&["abc"]));
    assert_eq!(tree.nodes.len(), 1);
    assert_eq!(tree.nodes[0].hash, "abc");
    assert_eq!(tree.root(), Some("abc".to_string()));
}

#[test]
fn two_leaves_are_combined_in_order() {
    let tree = MerkleTree::from_leaves(leaves(&["A", "B"]));
    assert_eq!(tree.root(), Some(h2("A", "B")));
    assert_eq!(combine_hashes("A", "B"), h2("A", "B"));
    assert_ne!(combine_hashes("A", "B"), "A");
    assert_eq!(
        combine_hashes("", ""),
        "af1349b9f5f9a1a6a0404dea36dcc9499bcb25c9adc112b7cc9a93cae41f3262"
    );
}

#[test]
fn odd_leaf_is_carried_unchanged() {
    let tree = MerkleTree::from_leaves(leaves(&["A", "B", "C"]));
    assert_eq!(build_next_layer(&leaves(&["A", "B", "C"])), vec![h2("A", "B"), "C".to_string()]);
    assert_eq!(tree.root(), Some(h2(&h2("A", "B"), "C")));
    assert_ne!(tree.root(), Some(h2(&h2("A", "B"), &h2("C", "C"))));
}

#[test]
fn five_leaves_carry_the_last_twice() {
    let tree = MerkleTree::from_leaves(leaves(&["a", "b", "c", "d", "e"]));
    let left = h2(&h2("a", "b"), &h2("c", "d"));
    assert_eq!(tree.root(), Some(h2(&left, "e")));
}

#[test]
fn same_leaves_same_root_and_order_matters() {
    let one = MerkleTree::from_leaves(leaves(&["x", "y", "z"])).root();
    let two = MerkleTree::from_leaves(leaves(&["x", "y", "z"])).root();
    assert_eq!(one, two);
    let swapped = MerkleTree::from_leaves(leaves(&["y", "x", "z"])).root();
    assert_ne!(one, swapped);
    assert_ne!(
        MerkleTree::from_leaves(leaves(&["a", "b"])).root(),
        MerkleTree::from_leaves(leaves(&["b", "a"])).root()
    );
}

#[test]
fn leaves_of_unequal_length_may_share_a_root() {
    assert_eq!(
        MerkleTree::from_leaves(leaves(&["x", "xx"])).root(),
        MerkleTree::from_leaves(leaves(&["xx", "x"])).root()
    );
}

#[test]
fn add_node_derives_identifier_from_position() {
    let mut dag = RequestDag::default();
    let first = dag.add_node("policy_check", "{}".to_string());
    let second = dag.add_node("model_run", "[1,2]".to_string());
    assert_eq!(first.id, "policy_check-0");
    assert_eq!(second.id, "model_run-1");
    assert_eq!(second.node_type, "model_run");
    assert_eq!(second.payload, "[1,2]");
    assert_eq!(dag.nodes.len(), 2);
    assert_eq!(dag.nodes[0].id, "policy_check-0");
    for _ in 0..9 {
        dag.add_node("s", "null".to_string());
    }
    assert_eq!(dag.nodes[10].id, "s-10");
}

#[test]
fn node_hash_covers_identifier_type_and_payload() {
    let node = DagNode {
        id: "policy-0".to_string(),
        node_type: "policy".to_string(),
        payload: "{\"ok\":true}".to_string(),
    };
    let json = "{\"id\":\"policy-0\",\"node_type\":\"policy\",\"payload\":{\"ok\":true}}";
    assert_eq!(node_json_text(&node), json);
    assert_eq!(node_hash_text(&node), blake3::hash(json.as_bytes()).to_hex().to_string());

    let odd = DagNode {
        id: "a\\b\n\t\r\u{8}\u{c}\u{1}\u{1f}\u{7f}\u{e9}/".to_string(),
        node_type: String::new(),
        payload: "null".to_string(),
    };
    assert_eq!(
        node_json_text(&odd),
        "{\"id\":\"a\\\\b\\n\\t\\r\\b\\f\\u0001\\u001f\u{7f}\u{e9}/\",\"node_type\":\"\",\"payload\":null}"
    );

    let quoted = DagNode {
        id: "a\"b-0".to_string(),
        node_type: "a\"b".to_string(),
        payload: "1".to_string(),
    };
    assert_eq!(
        node_json_text(&quoted),
        "{\"id\":\"a\\\"b-0\",\"node_type\":\"a\\\"b\",\"payload\":1}"
    );
}

#[test]
fn dag_root_is_tree_over_node_hashes() {
    let mut dag = RequestDag::default();
    dag.add_node("policy", "{\"ok\":true}".to_string());
    dag.add_node("model", "{\"run\":1}".to_string());
    dag.add_node("verification", "{}".to_string());
    let hashes: Vec<String> = dag.nodes.iter().map(node_hash_text).collect();
    assert_eq!(dag.merkle_root(), Some(h2(&h2(&hashes[0], &hashes[1]), &hashes[2])));

    let mut relabelled = RequestDag::default();
    relabelled.add_node("model", "{\"ok\":true}".to_string());
    relabelled.add_node("policy", "{\"run\":1}".to_string());
    relabelled.add_node("verification", "{}".to_string());
    assert_ne!(dag.merkle_root(), relabelled.merkle_root());
}

#[test]
fn scheduler_reports_peers_and_checkpoint() {
    let scheduler = DagScheduler { peers: vec!["a".to_string(), "b".to_string()] };
    assert_eq!(scheduler.schedule_task("job"), "scheduled: job across 2 peers");
    assert_eq!(DagScheduler::default().schedule_task(""), "scheduled:  across 0 peers");
    let mut dag = RequestDag::default();
    assert_eq!(scheduler.record_checkpoint(&dag), None);
    dag.add_node("policy", "{}".to_string());
    assert_eq!(scheduler.record_checkpoint(&dag), dag.merkle_root());
}

#[test]
fn network_keeps_peers_in_order() {
    let mut net = P2PNetwork::default();
    assert!(net.discover_peers().is_empty());
    net.add_peer(PeerInfo { peer_id: "p1".to_string(), address: "/ip4/1".to_string() });
    net.add_peer(PeerInfo { peer_id: "p2".to_string(), address: "/ip4/2".to_string() });
    let seen = net.discover_peers();
    assert_eq!(seen.len(), 2);
    assert_eq!(seen[0].peer_id, "p1");
    assert_eq!(seen[1].address, "/ip4/2");
}
