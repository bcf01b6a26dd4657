//! Merkle paths: the fold of a leaf with its siblings up to the root.
//!
//! Convention: a path is listed from the leaf's level upwards. Each step
//! names the sibling at that level and the side on which it stands. The
//! parent of two nodes is the SHA-256 digest of the left node's 32 bytes
//! followed by the right node's 32 bytes.

use crate::hashing::{
    append_bytes, collision_exists, digests_differ_or_collide, digests_equal, sha256,
    sha256_digest,
};
use crate::wire::byte_strings;
use vstd::prelude::*;

verus! {

/// One level of a Merkle path.
#[derive(Clone, Copy, Debug, PartialEq, Eq)]
pub struct MerkleStep {
    /// The digest of the neighbouring subtree.
    pub sibling: [u8; 32],
    /// `true` where the sibling is the left child and the running node the
    /// right one; `false` for the other way round.
    pub sibling_on_left: bool,
}

/// A step as plain values.
pub struct Step {
    pub sibling: Seq<u8>,
    pub sibling_on_left: bool,
}

impl View for MerkleStep {
    type V = Step;

    open spec fn view(&self) -> Step {
        Step { sibling: self.sibling@, sibling_on_left: self.sibling_on_left }
    }
}

/// A path as plain values, step by step.
pub open spec fn steps(path: Seq<MerkleStep>) -> Seq<Step> {
    Seq::new(path.len(), |k: int| path[k]@)
}

/// The path whose siblings and sides are listed apart, level by level.
pub open spec fn paired(siblings: Seq<Seq<u8>>, sides: Seq<bool>) -> Seq<Step> {
    Seq::new(
        siblings.len(),
        |k: int| Step { sibling: siblings[k], sibling_on_left: sides[k] },
    )
}

/// The bytes that a parent node hashes.
pub open spec fn node_preimage(left: Seq<u8>, right: Seq<u8>) -> Seq<u8> {
    left + right
}

/// The parent of `left` and `right`.
pub open spec fn parent_of(left: Seq<u8>, right: Seq<u8>) -> Seq<u8> {
    sha256(node_preimage(left, right))
}

/// The bytes that are hashed to climb from `current` by `step`: the
/// sibling before the running node where it stands on the left, after it
/// otherwise.
pub open spec fn climb_preimage(current: Seq<u8>, step: Step) -> Seq<u8> {
    if step.sibling_on_left {
        node_preimage(step.sibling, current)
    } else {
        node_preimage(current, step.sibling)
    }
}

/// The node one level above `current`, given the step at its level.
pub open spec fn climb(current: Seq<u8>, step: Step) -> Seq<u8> {
    sha256(climb_preimage(current, step))
}

/// The node reached from `leaf` by climbing every step of `path` in order.
pub open spec fn fold_path(leaf: Seq<u8>, path: Seq<Step>) -> Seq<u8>
    decreases path.len(),
{
    if path.len() == 0 {
        leaf
    } else {
        climb(fold_path(leaf, path.drop_last()), path.last())
    }
}

/// Whether `path` leads from `leaf` to `root`.
pub open spec fn leads_to(leaf: Seq<u8>, path: Seq<Step>, root: Seq<u8>) -> bool {
    fold_path(leaf, path) == root
}

/// Joins siblings and sides into a path. The two lists must name the same
/// number of levels.
pub fn pair_steps(siblings: &Vec<[u8; 32]>, sides: &Vec<bool>) -> (path: Option<Vec<MerkleStep>>)
    ensures
        path is Some <==> siblings@.len() == sides@.len(),
        path matches Some(p) ==> steps(p@) == paired(byte_strings(siblings@), sides@),
{
    let n: usize = siblings.len();
    if sides.len() != n {
        return None;
    }
    let mut out: Vec<MerkleStep> = Vec::new();
    let mut i: usize = 0;
    while i < n
        invariant
            n == siblings@.len(),
            n == sides@.len(),
            i <= n,
            out@.len() == i,
            forall|k: int|
                0 <= k < i ==> (#[trigger] out@[k]).sibling@ == siblings@[k]@
                    && out@[k].sibling_on_left == sides@[k],
        decreases n - i,
    {
        out.push(MerkleStep { sibling: siblings[i], sibling_on_left: sides[i] });
        i = i + 1;
    }
    assert(steps(out@) =~= paired(byte_strings(siblings@), sides@));
    Some(out)
}

/// Computes the parent of two nodes.
pub fn hash_pair(left: &[u8; 32], right: &[u8; 32]) -> (parent: [u8; 32])
    ensures
        parent@ == parent_of(left@, right@),
{
    let mut buf: Vec<u8> = Vec::new();
    append_bytes(&mut buf, left.as_slice());
    append_bytes(&mut buf, right.as_slice());
    assert(buf@ =~= node_preimage(left@, right@));
    sha256_digest(buf.as_slice())
}

/// Computes the root that `path` leads to from `leaf`.
pub fn compute_root(leaf: &[u8; 32], path: &Vec<MerkleStep>) -> (root: [u8; 32])
    ensures
        root@ == fold_path(leaf@, steps(path@)),
{
    let n: usize = path.len();
    let mut current: [u8; 32] = *leaf;
    let mut i: usize = 0;
    assert(steps(path@).subrange(0, 0).len() == 0);
    while i < n
        invariant
            n == path@.len(),
            i <= n,
            current@ == fold_path(leaf@, steps(path@).subrange(0, i as int)),
        decreases n - i,
    {
        let step: &MerkleStep = &path[i];
        let ghost below = steps(path@).subrange(0, i as int);
        let ghost upto = steps(path@).subrange(0, i + 1);
        assert(upto.drop_last() =~= below);
        assert(upto.last() == path@[i as int]@);
        current =
        if step.sibling_on_left {
            hash_pair(&step.sibling, &current)
        } else {
            hash_pair(&current, &step.sibling)
        };
        i = i + 1;
    }
    assert(steps(path@).subrange(0, n as int) =~= steps(path@));
    current
}

/// Whether `path` leads from `leaf` to `root`.
pub fn verify_path(leaf: &[u8; 32], path: &Vec<MerkleStep>, root: &[u8; 32]) -> (valid: bool)
    ensures
        valid == leads_to(leaf@, steps(path@), root@),
{
    let computed = compute_root(leaf, path);
    digests_equal(&computed, root)
}

/// Round trip: a path is accepted for the root that folding it computes.
pub proof fn computed_root_is_accepted(leaf: Seq<u8>, path: Seq<Step>)
    ensures
        leads_to(leaf, path, fold_path(leaf, path)),
{
}

/// A path accepts one root only: whatever differs from the folded root,
/// in any byte, is refused.
pub proof fn other_root_is_refused(leaf: Seq<u8>, path: Seq<Step>, root: Seq<u8>)
    requires
        root != fold_path(leaf, path),
    ensures
        !leads_to(leaf, path, root),
{
}

/// Folding a path in two parts is folding it whole: the node reached by the
/// lower part is the leaf of the upper part.
pub proof fn fold_path_splits(leaf: Seq<u8>, lower: Seq<Step>, upper: Seq<Step>)
    ensures
        fold_path(leaf, lower + upper) == fold_path(fold_path(leaf, lower), upper),
    decreases upper.len(),
{
    if upper.len() == 0 {
        assert(lower + upper =~= lower);
    } else {
        fold_path_splits(leaf, lower, upper.drop_last());
        assert((lower + upper).drop_last() =~= lower + upper.drop_last());
        assert((lower + upper).last() == upper.last());
    }
}

/// Turning the side flag of a step changes the bytes that are hashed at its
/// level, unless the sibling equals the running node.
pub proof fn turned_step_hashes_other_bytes(current: Seq<u8>, step: Step)
    requires
        current.len() == step.sibling.len(),
        current != step.sibling,
    ensures
        climb_preimage(current, step) != climb_preimage(
            current,
            Step { sibling: step.sibling, sibling_on_left: !step.sibling_on_left },
        ),
{
    let n = current.len() as int;
    let a = node_preimage(step.sibling, current);
    let b = node_preimage(current, step.sibling);
    if a == b {
        assert(a.subrange(0, n) =~= step.sibling);
        assert(b.subrange(0, n) =~= current);
    }
}

/// Changing a sibling, in any byte, changes the bytes that are hashed at
/// its level, whichever side it stands on.
pub proof fn changed_sibling_hashes_other_bytes(current: Seq<u8>, step: Step, forged: Seq<u8>)
    requires
        forged.len() == step.sibling.len(),
        forged != step.sibling,
    ensures
        climb_preimage(current, step) != climb_preimage(
            current,
            Step { sibling: forged, sibling_on_left: step.sibling_on_left },
        ),
{
    let n = forged.len() as int;
    let m = current.len() as int;
    if step.sibling_on_left {
        let a = node_preimage(step.sibling, current);
        let b = node_preimage(forged, current);
        if a == b {
            assert(a.subrange(0, n) =~= step.sibling);
            assert(b.subrange(0, n) =~= forged);
        }
    } else {
        let a = node_preimage(current, step.sibling);
        let b = node_preimage(current, forged);
        if a == b {
            assert(a.subrange(m, m + n) =~= step.sibling);
            assert(b.subrange(m, m + n) =~= forged);
        }
    }
}

/// Climbing by one step from different nodes hashes different bytes.
pub proof fn climb_preimage_tells_nodes_apart(a: Seq<u8>, b: Seq<u8>, step: Step)
    requires
        a != b,
    ensures
        climb_preimage(a, step) != climb_preimage(b, step),
{
    let n = step.sibling.len() as int;
    let pa = climb_preimage(a, step);
    let pb = climb_preimage(b, step);
    if pa == pb {
        assert(a.len() == b.len()) by {
            assert(pa.len() == a.len() + n);
            assert(pb.len() == b.len() + n);
        }
        if step.sibling_on_left {
            assert(pa.subrange(n, n + a.len()) =~= a);
            assert(pb.subrange(n, n + b.len()) =~= b);
        } else {
            assert(pa.subrange(0, a.len() as int) =~= a);
            assert(pb.subrange(0, b.len() as int) =~= b);
        }
    }
}

/// Two different nodes lead to different roots by the same path, unless
/// SHA-256 collides on the way.
pub proof fn different_nodes_reach_different_roots(a: Seq<u8>, b: Seq<u8>, path: Seq<Step>)
    requires
        a != b,
    ensures
        fold_path(a, path) != fold_path(b, path) || collision_exists(),
    decreases path.len(),
{
    if path.len() > 0 {
        different_nodes_reach_different_roots(a, b, path.drop_last());
        let below_a = fold_path(a, path.drop_last());
        let below_b = fold_path(b, path.drop_last());
        if below_a != below_b {
            climb_preimage_tells_nodes_apart(below_a, below_b, path.last());
            digests_differ_or_collide(
                climb_preimage(below_a, path.last()),
                climb_preimage(below_b, path.last()),
            );
        }
    }
}

/// Tampering with one step of a path changes the root it leads to, unless
/// SHA-256 collides: where the forged step hashes other bytes at its level
/// than the true one, the forged path reaches another root. With the two
/// lemmas above this covers a sibling changed in any byte and a side flag
/// turned over.
pub proof fn tampered_step_changes_root(
    leaf: Seq<u8>,
    path: Seq<Step>,
    level: int,
    forged: Step,
)
    requires
        0 <= level < path.len(),
        climb_preimage(fold_path(leaf, path.subrange(0, level)), forged) != climb_preimage(
            fold_path(leaf, path.subrange(0, level)),
            path[level],
        ),
    ensures
        fold_path(leaf, path.update(level, forged)) != fold_path(leaf, path) || collision_exists(),
{
    let lower = path.subrange(0, level);
    let upper = path.subrange(level + 1, path.len() as int);
    let current = fold_path(leaf, lower);
    assert(path =~= (lower + seq![path[level]]) + upper);
    assert(path.update(level, forged) =~= (lower + seq![forged]) + upper);
    fold_path_splits(leaf, lower + seq![path[level]], upper);
    fold_path_splits(leaf, lower + seq![forged], upper);
    assert((lower + seq![path[level]]).drop_last() =~= lower);
    assert((lower + seq![forged]).drop_last() =~= lower);
    let honest = fold_path(leaf, lower + seq![path[level]]);
    let tampered = fold_path(leaf, lower + seq![forged]);
    assert(honest == climb(current, path[level]));
    assert(tampered == climb(current, forged));
    digests_differ_or_collide(climb_preimage(current, forged), climb_preimage(current, path[level]));
    if tampered != honest {
        different_nodes_reach_different_roots(tampered, honest, upper);
    }
}

} // verus!
