//! The scene hierarchy model and the bone path resolver.
//!
//! The resolver consumes the hierarchy read-only: starting from a root
//! entity it walks the path's segments, skipping the first (the root
//! itself), and at each step descends into the first direct child whose
//! name equals the segment.  A segment with no matching child fails the
//! lookup for that path alone.

use crate::clip::BonePath;
use vstd::prelude::*;

verus! {

/// One entity in the scene hierarchy: its name and its direct children,
/// in order.
#[derive(Debug)]
pub struct SceneNode {
    pub name: String,
    pub children: Vec<usize>,
}

/// The scene hierarchy; an entity is an index into `nodes`.
#[derive(Debug)]
pub struct SceneTree {
    pub nodes: Vec<SceneNode>,
}

/// Why a node could not be added to the tree.
#[derive(Clone, Copy, PartialEq, Eq, Structural, Debug)]
pub enum SceneError {
    /// A listed child index names no existing node.
    ChildOutOfRange,
}

/// A failed bone path lookup: the index of the first segment that no
/// child of the walk so far is named after.
#[derive(Clone, Copy, PartialEq, Eq, Structural, Debug)]
pub struct PathResolutionFailure {
    pub segment: usize,
}

impl SceneTree {
    /// Every child index names a node of the tree.
    pub open spec fn wf(self) -> bool {
        forall|i: int, j: int|
            0 <= i < self.nodes@.len() && 0 <= j < self.nodes@[i].children@.len() ==> (
            #[trigger] self.nodes@[i].children@[j]) < self.nodes@.len()
    }

    pub fn new() -> (r: SceneTree)
        ensures
            r.nodes@.len() == 0,
            r.wf(),
    {
        SceneTree { nodes: Vec::new() }
    }

    /// Add a node whose children must already be in the tree, and hand
    /// back its entity index.  Building leaves-first this way keeps the
    /// hierarchy closed under `wf` at every step.
    pub fn push_node(&mut self, name: String, children: Vec<usize>) -> (r: Result<
        usize,
        SceneError,
    >)
        requires
            old(self).wf(),
        ensures
            match r {
                Ok(id) => {
                    &&& final(self).wf()
                    &&& id as int == old(self).nodes@.len()
                    &&& final(self).nodes@.len() == old(self).nodes@.len() + 1
                    &&& final(self).nodes@[id as int].name@ == name@
                    &&& final(self).nodes@[id as int].children@ == children@
                    &&& forall|k: int|
                        0 <= k < old(self).nodes@.len() ==> #[trigger] final(self).nodes@[k]
                            == old(self).nodes@[k]
                },
                Err(SceneError::ChildOutOfRange) => {
                    &&& *final(self) == *old(self)
                    &&& exists|k: int|
                        0 <= k < children@.len() && #[trigger] children@[k] >= old(
                            self,
                        ).nodes@.len()
                },
            },
    {
        let n = self.nodes.len();
        let mut j: usize = 0;
        while j < children.len()
            invariant
                j <= children@.len(),
                n == self.nodes@.len(),
                forall|k: int| 0 <= k < j ==> #[trigger] children@[k] < n,
            decreases children@.len() - j,
        {
            if children[j] >= n {
                return Err(SceneError::ChildOutOfRange);
            }
            j = j + 1;
        }
        self.nodes.push(SceneNode { name, children });
        Ok(n)
    }
}

/// The first of `kids`, in order, naming a node called `name`.
pub open spec fn spec_first_child_named(tree: SceneTree, kids: Seq<usize>, name: Seq<char>) -> Option<
    int,
>
    decreases kids.len(),
{
    if kids.len() == 0 {
        None
    } else if kids[0] < tree.nodes@.len() && tree.nodes@[kids[0] as int].name@ == name {
        Some(kids[0] as int)
    } else {
        spec_first_child_named(tree, kids.drop_first(), name)
    }
}

/// A child that matches with no earlier match is what
/// `spec_first_child_named` finds.
proof fn lemma_first_child_unique(tree: SceneTree, kids: Seq<usize>, name: Seq<char>, j: int)
    requires
        0 <= j < kids.len(),
        kids[j] < tree.nodes@.len(),
        tree.nodes@[kids[j] as int].name@ == name,
        forall|k: int|
            0 <= k < j ==> !(#[trigger] kids[k] < tree.nodes@.len()
                && tree.nodes@[kids[k] as int].name@ == name),
    ensures
        spec_first_child_named(tree, kids, name) == Some(kids[j] as int),
    decreases kids.len(),
{
    if j == 0 {
    } else {
        assert(forall|k: int| 1 <= k < kids.len() ==> #[trigger] kids.drop_first()[k - 1]
            == kids[k]);
        lemma_first_child_unique(tree, kids.drop_first(), name, j - 1);
    }
}

/// When no child matches, the lookup misses.
proof fn lemma_first_child_none(tree: SceneTree, kids: Seq<usize>, name: Seq<char>)
    requires
        forall|k: int|
            0 <= k < kids.len() ==> !(#[trigger] kids[k] < tree.nodes@.len()
                && tree.nodes@[kids[k] as int].name@ == name),
    ensures
        spec_first_child_named(tree, kids, name) is None,
    decreases kids.len(),
{
    if kids.len() == 0 {
    } else {
        assert(forall|k: int| 1 <= k < kids.len() ==> #[trigger] kids.drop_first()[k - 1]
            == kids[k]);
        lemma_first_child_none(tree, kids.drop_first(), name);
    }
}

/// Scan `parent`'s direct children, in order, for the first named `name`.
fn first_child_named(tree: &SceneTree, parent: usize, name: &String) -> (r: Option<usize>)
    requires
        tree.wf(),
        parent < tree.nodes@.len(),
    ensures
        match r {
            Some(c) => spec_first_child_named(*tree, tree.nodes@[parent as int].children@, name@)
                == Some(c as int) && c < tree.nodes@.len(),
            None => spec_first_child_named(*tree, tree.nodes@[parent as int].children@, name@)
                is None,
        },
{
    let kids = &tree.nodes[parent].children;
    let n = kids.len();
    let mut j: usize = 0;
    while j < n
        invariant
            j <= n,
            tree.wf(),
            parent < tree.nodes@.len(),
            kids@ == tree.nodes@[parent as int].children@,
            n == kids@.len(),
            forall|k: int|
                0 <= k < j ==> !(#[trigger] kids@[k] < tree.nodes@.len()
                    && tree.nodes@[kids@[k] as int].name@ == name@),
        decreases n - j,
    {
        let child = kids[j];
        assert(child < tree.nodes@.len());
        if tree.nodes[child].name == *name {
            proof {
                lemma_first_child_unique(*tree, kids@, name@, j as int);
            }
            return Some(child);
        }
        j = j + 1;
    }
    proof {
        lemma_first_child_none(*tree, kids@, name@);
    }
    None
}

/// Walk `segs` from entity `e`: the resolved entity, or the offset into
/// `segs` of the first segment with no matching child.
pub open spec fn spec_resolve(tree: SceneTree, e: int, segs: Seq<Seq<char>>) -> Result<int, int>
    decreases segs.len(),
{
    if segs.len() == 0 {
        Ok(e)
    } else {
        match spec_first_child_named(tree, tree.nodes@[e].children@, segs[0]) {
            Some(c) => match spec_resolve(tree, c, segs.drop_first()) {
                Ok(x) => Ok(x),
                Err(k) => Err(k + 1),
            },
            None => Err(0),
        }
    }
}

/// Resolve a bone path from `root`, skipping the path's first segment,
/// which names the root the caller already holds.  `Err` carries the index
/// into `path` of the first segment that matched no child.
pub fn resolve(tree: &SceneTree, root: usize, path: &BonePath) -> (r: Result<
    usize,
    PathResolutionFailure,
>)
    requires
        tree.wf(),
        root < tree.nodes@.len(),
        path.wf(),
    ensures
        match r {
            Ok(e) => e < tree.nodes@.len() && spec_resolve(
                *tree,
                root as int,
                path.names().drop_first(),
            ) == Ok::<int, int>(e as int),
            Err(f) => 1 <= f.segment < path.names().len() && spec_resolve(
                *tree,
                root as int,
                path.names().drop_first(),
            ) == Err::<int, int>(f.segment - 1int),
        },
{
    let ghost segs = path.names().drop_first();
    proof {
        assert(segs.skip(0) =~= segs);
    }
    let mut current: usize = root;
    let n = path.parts.len();
    let mut si: usize = 1;
    while si < n
        invariant
            1 <= si <= n,
            tree.wf(),
            n == path.names().len(),
            n == path.parts@.len(),
            segs == path.names().drop_first(),
            current < tree.nodes@.len(),
            spec_resolve(*tree, root as int, segs) == (match spec_resolve(
                *tree,
                current as int,
                segs.skip(si - 1),
            ) {
                Ok(x) => Ok::<int, int>(x),
                Err(k) => Err::<int, int>(k + si - 1),
            }),
        decreases n - si,
    {
        let ghost rest = segs.skip(si - 1);
        proof {
            assert(rest.len() == n - si);
            assert(rest[0] == path.names()[si as int]);
            assert(path.names()[si as int] == path.parts@[si as int]@);
        }
        match first_child_named(tree, current, &path.parts[si]) {
            Some(c) => {
                proof {
                    assert(rest.drop_first() =~= segs.skip(si as int));
                }
                current = c;
            },
            None => {
                proof {
                    assert(spec_resolve(*tree, current as int, rest) == Err::<int, int>(0));
                }
                return Err(PathResolutionFailure { segment: si });
            },
        }
        si = si + 1;
    }
    proof {
        assert(segs.skip(si - 1).len() == 0);
        assert(segs.skip(si - 1) =~= Seq::<Seq<char>>::empty());
    }
    Ok(current)
}

} // verus!
