//! A binary hash tree over an ordered list of leaf hashes.
//!
//! Adjacent nodes of a layer are combined left to right. A node left over at
//! the end of a layer of odd length is carried into the next layer as it is:
//! it is neither duplicated nor hashed with itself.

use vstd::prelude::*;
use vstd::string::*;
use crate::digest::{
    blake3_digest,
    blake3_hex,
    blake3_hex_of_pair,
    hex_lower,
    lemma_hex_lower_injective,
};
use crate::text::{lemma_utf8_concat, lemma_utf8_injective, opt_text, texts, utf8};

verus! {

/// The hash of a pair of nodes: BLAKE3 over the left hash text followed by
/// the right hash text, in hexadecimal.
pub open spec fn combine(left: Seq<char>, right: Seq<char>) -> Seq<char> {
    blake3_hex(utf8(left) + utf8(right))
}

/// The layer above `layer`: each adjacent pair combined, a trailing odd node
/// carried unchanged.
pub open spec fn next_layer(layer: Seq<Seq<char>>) -> Seq<Seq<char>> {
    Seq::new(
        ((layer.len() + 1) / 2) as nat,
        |k: int|
            if 2 * k + 1 < layer.len() {
                combine(layer[2 * k], layer[2 * k + 1])
            } else {
                layer[2 * k]
            },
    )
}

/// The root above `layer`: absent for no nodes, the node itself for one,
/// otherwise the root above the next layer.
pub open spec fn root_of(layer: Seq<Seq<char>>) -> Option<Seq<char>>
    decreases layer.len(),
{
    if layer.len() == 0 {
        None
    } else if layer.len() == 1 {
        Some(layer[0])
    } else {
        root_of(next_layer(layer))
    }
}

/// A leaf of the tree: a hash as text.
pub struct MerkleNode {
    pub hash: String,
}

/// The leaves of a tree, in order.
pub struct MerkleTree {
    pub nodes: Vec<MerkleNode>,
}

/// Combines two hash texts into the hash of their parent.
pub fn combine_hashes(left: &str, right: &str) -> (out: String)
    ensures
        out@ == combine(left@, right@),
{
    blake3_hex_of_pair(left.as_bytes(), right.as_bytes())
}

/// Computes the layer above `layer`.
pub fn build_next_layer(layer: &Vec<String>) -> (next: Vec<String>)
    ensures
        texts(next@) == next_layer(texts(layer@)),
{
    let n: usize = layer.len();
    let mut next: Vec<String> = Vec::new();
    let mut i: usize = 0;
    while i < n
        invariant
            n == layer@.len(),
            i <= n,
            i == n || i % 2 == 0,
            next@.len() == (i + 1) / 2,
            forall|k: int| 0 <= k < next@.len() ==> next@[k]@ == next_layer(texts(layer@))[k],
        decreases n - i,
    {
        if i + 1 < n {
            let h = combine_hashes(layer[i].as_str(), layer[i + 1].as_str());
            next.push(h);
            i += 2;
        } else {
            next.push(layer[i].clone());
            i += 1;
        }
    }
    assert(texts(next@) =~= next_layer(texts(layer@)));
    next
}

impl MerkleTree {
    /// The leaf hashes, in order.
    pub open spec fn leaves(&self) -> Seq<Seq<char>> {
        Seq::new(self.nodes@.len(), |i: int| self.nodes@[i].hash@)
    }

    /// A tree over the given leaf hashes, kept in their order.
    pub fn from_leaves(leaves: Vec<String>) -> (tree: Self)
        ensures
            tree.leaves() == texts(leaves@),
    {
        let mut nodes: Vec<MerkleNode> = Vec::new();
        let mut i: usize = 0;
        while i < leaves.len()
            invariant
                i <= leaves@.len(),
                nodes@.len() == i,
                forall|k: int| 0 <= k < i ==> nodes@[k].hash@ == leaves@[k]@,
            decreases leaves@.len() - i,
        {
            nodes.push(MerkleNode { hash: leaves[i].clone() });
            i += 1;
        }
        let tree = MerkleTree { nodes };
        assert(tree.leaves() =~= texts(leaves@));
        tree
    }

    /// The root hash: `None` for a tree without leaves, the leaf itself for a
    /// single leaf, else the result of folding the layers pairwise.
    pub fn root(&self) -> (r: Option<String>)
        ensures
            opt_text(r) == root_of(self.leaves()),
    {
        if self.nodes.len() == 0 {
            return None;
        }
        let mut layer: Vec<String> = Vec::new();
        let mut i: usize = 0;
        while i < self.nodes.len()
            invariant
                i <= self.nodes@.len(),
                layer@.len() == i,
                forall|k: int| 0 <= k < i ==> layer@[k]@ == self.nodes@[k].hash@,
            decreases self.nodes@.len() - i,
        {
            layer.push(self.nodes[i].hash.clone());
            i += 1;
        }
        assert(texts(layer@) =~= self.leaves());
        while layer.len() > 1
            invariant
                layer@.len() >= 1,
                root_of(texts(layer@)) == root_of(self.leaves()),
            decreases layer@.len(),
        {
            layer = build_next_layer(&layer);
        }
        Some(layer[0].clone())
    }
}

/// A tree's root is a function of its ordered leaf list: two trees over the
/// same leaves have the same root.
pub proof fn lemma_root_deterministic(a: MerkleTree, b: MerkleTree)
    requires
        a.leaves() == b.leaves(),
    ensures
        root_of(a.leaves()) == root_of(b.leaves()),
{
}

/// With three leaves the first two are combined, the third is carried
/// unchanged into the next layer, and the root combines the two.
pub proof fn lemma_odd_leaf_carried(a: Seq<char>, b: Seq<char>, c: Seq<char>)
    ensures
        next_layer(seq![a, b, c]) == seq![combine(a, b), c],
        root_of(seq![a, b, c]) == Some(combine(combine(a, b), c)),
{
    let l1 = next_layer(seq![a, b, c]);
    assert(l1 =~= seq![combine(a, b), c]);
    let l2 = next_layer(l1);
    assert(l2 =~= seq![combine(combine(a, b), c)]);
    reveal_with_fuel(root_of, 3);
}

/// The bytes that are hashed for the `k`-th pair of a layer.
pub open spec fn pair_bytes(layer: Seq<Seq<char>>, k: int) -> Seq<u8> {
    utf8(layer[2 * k]) + utf8(layer[2 * k + 1])
}

/// `x` is hashed on the way from the layer to its root.
pub open spec fn is_hashed(layer: Seq<Seq<char>>, x: Seq<u8>) -> bool
    decreases layer.len(),
{
    layer.len() >= 2 && ((exists|k: int|
        0 <= k && 2 * k + 1 < layer.len() && x == #[trigger] pair_bytes(layer, k)) || is_hashed(
        next_layer(layer),
        x,
    ))
}

/// `x` is hashed on the way from one of the two layers to its root.
pub open spec fn is_hashed_in(a: Seq<Seq<char>>, b: Seq<Seq<char>>, x: Seq<u8>) -> bool {
    is_hashed(a, x) || is_hashed(b, x)
}

/// On the byte strings that are hashed for the two layers, the digest is 32
/// bytes long and gives different strings different digests.
pub open spec fn digest_tells_apart(a: Seq<Seq<char>>, b: Seq<Seq<char>>) -> bool {
    &&& forall|x: Seq<u8>| is_hashed_in(a, b, x) ==> (#[trigger] blake3_digest(x)).len() == 32
    &&& forall|x: Seq<u8>, y: Seq<u8>|
        #![trigger blake3_digest(x), blake3_digest(y)]
        is_hashed_in(a, b, x) && is_hashed_in(a, b, y) && blake3_digest(x) == blake3_digest(y)
            ==> x == y
}

/// The two layers are equally long, and nodes at the same place are equally
/// long texts, as hashes of one kind are.
pub open spec fn same_shape(a: Seq<Seq<char>>, b: Seq<Seq<char>>) -> bool {
    &&& a.len() == b.len()
    &&& forall|i: int| 0 <= i < a.len() ==> (#[trigger] a[i]).len() == b[i].len()
}

/// The two pairs that stand at one place of two layers are the same, where
/// their combined hashes are.
proof fn lemma_pair_told_apart(a: Seq<Seq<char>>, b: Seq<Seq<char>>, k: int)
    requires
        same_shape(a, b),
        digest_tells_apart(a, b),
        0 <= k,
        2 * k + 1 < a.len(),
        combine(a[2 * k], a[2 * k + 1]) == combine(b[2 * k], b[2 * k + 1]),
    ensures
        a[2 * k] == b[2 * k],
        a[2 * k + 1] == b[2 * k + 1],
{
    let (a0, a1, b0, b1) = (a[2 * k], a[2 * k + 1], b[2 * k], b[2 * k + 1]);
    let x = pair_bytes(a, k);
    let y = pair_bytes(b, k);
    assert(is_hashed(a, x));
    assert(is_hashed(b, y));
    assert(is_hashed_in(a, b, x) && is_hashed_in(a, b, y));
    lemma_hex_lower_injective(blake3_digest(x), blake3_digest(y));
    assert(x == y);
    lemma_utf8_concat(a0, a1);
    lemma_utf8_concat(b0, b1);
    lemma_utf8_injective(a0 + a1, b0 + b1);
    assert(a0.len() == b0.len());
    assert(a0 =~= (a0 + a1).subrange(0, a0.len() as int));
    assert(b0 =~= (b0 + b1).subrange(0, b0.len() as int));
    assert(a1 =~= (a0 + a1).subrange(a0.len() as int, (a0 + a1).len() as int));
    assert(b1 =~= (b0 + b1).subrange(b0.len() as int, (b0 + b1).len() as int));
}

/// Order matters: two layers of one shape with the same root are the same
/// layer, node by node, as long as the digest tells the hashed byte strings
/// apart. So leaves in another order give another root. Without the
/// condition on the shape the claim fails: the leaves `x` and `xx` are
/// hashed to the same root in either order.
pub proof fn lemma_root_tells_layers_apart(a: Seq<Seq<char>>, b: Seq<Seq<char>>)
    requires
        same_shape(a, b),
        digest_tells_apart(a, b),
        root_of(a) == root_of(b),
    ensures
        a == b,
    decreases a.len(),
{
    if a.len() == 0 {
        assert(a =~= b);
    } else if a.len() == 1 {
        assert(a =~= b);
    } else {
        let na = next_layer(a);
        let nb = next_layer(b);
        assert forall|x: Seq<u8>| is_hashed_in(na, nb, x) implies is_hashed_in(a, b, x) by {}
        assert forall|i: int| 0 <= i < na.len() implies (#[trigger] na[i]).len() == nb[i].len() by {
            if 2 * i + 1 < a.len() {
                let x = pair_bytes(a, i);
                let y = pair_bytes(b, i);
                assert(is_hashed(a, x));
                assert(is_hashed(b, y));
                assert(is_hashed_in(a, b, x) && is_hashed_in(a, b, y));
                assert(na[i] == hex_lower(blake3_digest(x)));
                assert(nb[i] == hex_lower(blake3_digest(y)));
            } else {
                assert(na[i] == a[2 * i]);
                assert(nb[i] == b[2 * i]);
            }
        }
        lemma_root_tells_layers_apart(na, nb);
        assert forall|i: int| 0 <= i < a.len() implies a[i] == b[i] by {
            let k = i / 2;
            if 2 * k + 1 < a.len() {
                assert(na[k] == combine(a[2 * k], a[2 * k + 1]));
                assert(nb[k] == combine(b[2 * k], b[2 * k + 1]));
                lemma_pair_told_apart(a, b, k);
            } else {
                assert(i == 2 * k);
                assert(na[k] == a[2 * k]);
                assert(nb[k] == b[2 * k]);
            }
        }
        assert(a =~= b);
    }
}

} // verus!
