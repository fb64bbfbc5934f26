//! Animation clips and the clip store.
//!
//! A clip maps bone paths to the curves that animate them, one optional
//! curve per channel (rotation, translation, scale).  Clips are immutable
//! once loaded and shared read-only across every animated subject; the
//! store hands them out by index.

use crate::curve::{RotationCurve, VectorCurve};
use vstd::pervasive::VecAdditionalExecFns;
use vstd::prelude::*;

verus! {

/// Ordered bone name segments from an animated root down to a target bone.
/// The first segment names the root itself and is skipped when resolving.
#[derive(Debug)]
pub struct BonePath {
    pub parts: Vec<String>,
}

impl BonePath {
    /// The path as a sequence of name character sequences.
    pub open spec fn names(self) -> Seq<Seq<char>> {
        self.parts.deep_view()
    }

    /// A path reaches from a root, so it has at least the root segment.
    pub open spec fn wf(self) -> bool {
        self.names().len() >= 1
    }

    pub fn new(parts: Vec<String>) -> (r: Result<BonePath, EmptyPath>)
        ensures
            match r {
                Ok(p) => p.parts@ == parts@ && p.wf(),
                Err(_) => parts@.len() == 0,
            },
    {
        if parts.len() == 0 {
            Err(EmptyPath {})
        } else {
            assert(parts.deep_view().len() == parts@.len());
            Ok(BonePath { parts })
        }
    }
}

/// A bone path must hold at least the root segment.
#[derive(Clone, Copy, PartialEq, Eq, Structural, Debug)]
pub struct EmptyPath {}

/// True exactly when the two paths spell the same segment names.
pub fn path_eq(a: &BonePath, b: &BonePath) -> (r: bool)
    ensures
        r == (a.names() == b.names()),
{
    if a.parts.len() != b.parts.len() {
        assert(a.names().len() != b.names().len());
        return false;
    }
    let n = a.parts.len();
    let mut i: usize = 0;
    while i < n
        invariant
            i <= n,
            n == a.parts@.len(),
            n == b.parts@.len(),
            forall|k: int| 0 <= k < i ==> a.names()[k] == b.names()[k],
        decreases n - i,
    {
        if a.parts[i] != b.parts[i] {
            assert(a.names()[i as int] != b.names()[i as int]);
            return false;
        }
        i = i + 1;
    }
    assert(a.names() =~= b.names());
    true
}

/// The curves a clip holds for one bone, one per transform channel.
#[derive(Debug)]
pub struct CurveSet {
    pub rotation: Option<RotationCurve>,
    pub translation: Option<VectorCurve>,
    pub scale: Option<VectorCurve>,
}

impl CurveSet {
    pub open spec fn wf(self) -> bool {
        &&& (self.rotation matches Some(c) ==> c.wf())
        &&& (self.translation matches Some(c) ==> c.wf())
        &&& (self.scale matches Some(c) ==> c.wf())
    }
}

/// One bone's entry in a clip: its path and its curves.
#[derive(Debug)]
pub struct ClipEntry {
    pub path: BonePath,
    pub curves: CurveSet,
}

/// First entry whose path spells `names`, if any.
pub open spec fn spec_find_path(entries: Seq<ClipEntry>, names: Seq<Seq<char>>) -> Option<int>
    decreases entries.len(),
{
    if entries.len() == 0 {
        None
    } else if entries[0].path.names() == names {
        Some(0)
    } else {
        match spec_find_path(entries.drop_first(), names) {
            Some(i) => Some(i + 1),
            None => None,
        }
    }
}

/// Whatever index `spec_find_path` returns is in range, matches `names`,
/// and is preceded by no match; `None` means no entry matches.
pub proof fn lemma_find_path_characterizes(entries: Seq<ClipEntry>, names: Seq<Seq<char>>)
    ensures
        match spec_find_path(entries, names) {
            Some(i) => {
                &&& 0 <= i < entries.len()
                &&& entries[i].path.names() == names
                &&& forall|k: int| 0 <= k < i ==> (#[trigger] entries[k]).path.names() != names
            },
            None => forall|k: int|
                0 <= k < entries.len() ==> (#[trigger] entries[k]).path.names() != names,
        },
    decreases entries.len(),
{
    if entries.len() == 0 {
    } else if entries[0].path.names() == names {
    } else {
        lemma_find_path_characterizes(entries.drop_first(), names);
        assert(forall|k: int|
            1 <= k < entries.len() ==> #[trigger] entries[k] == entries.drop_first()[k - 1]);
    }
}

/// An index that matches `names` with no earlier match is what
/// `spec_find_path` returns.
pub proof fn lemma_find_path_unique(entries: Seq<ClipEntry>, names: Seq<Seq<char>>, i: int)
    requires
        0 <= i < entries.len(),
        entries[i].path.names() == names,
        forall|k: int| 0 <= k < i ==> (#[trigger] entries[k]).path.names() != names,
    ensures
        spec_find_path(entries, names) == Some(i),
    decreases entries.len(),
{
    if i == 0 {
    } else {
        assert(forall|k: int|
            1 <= k < entries.len() ==> #[trigger] entries[k] == entries.drop_first()[k - 1]);
        lemma_find_path_unique(entries.drop_first(), names, i - 1);
    }
}

/// A named animation clip: a mapping from bone paths to curve sets.
#[derive(Debug)]
pub struct AnimationClip {
    pub entries: Vec<ClipEntry>,
}

impl AnimationClip {
    /// Paths are unique, so the entries form a mapping; every path and
    /// every curve is well formed.
    pub open spec fn wf(self) -> bool {
        &&& forall|i: int|
            0 <= i < self.entries@.len() ==> (#[trigger] self.entries@[i]).path.wf()
        &&& forall|i: int|
            0 <= i < self.entries@.len() ==> (#[trigger] self.entries@[i]).curves.wf()
        &&& forall|i: int, j: int|
            0 <= i < j < self.entries@.len() ==> self.entries@[i].path.names()
                != self.entries@[j].path.names()
    }

    /// The curve set the clip maps `names` to, if any.
    pub open spec fn spec_get(self, names: Seq<Seq<char>>) -> Option<CurveSet> {
        match spec_find_path(self.entries@, names) {
            Some(i) => Some(self.entries@[i].curves),
            None => None,
        }
    }

    pub fn new() -> (r: AnimationClip)
        ensures
            r.entries@.len() == 0,
            r.wf(),
    {
        AnimationClip { entries: Vec::new() }
    }

    /// Index of the entry for `path`, if the clip has one.
    pub fn find_entry(&self, path: &BonePath) -> (r: Option<usize>)
        ensures
            match r {
                Some(i) => spec_find_path(self.entries@, path.names()) == Some(i as int),
                None => spec_find_path(self.entries@, path.names()) is None,
            },
    {
        let n = self.entries.len();
        let mut i: usize = 0;
        while i < n
            invariant
                i <= n,
                n == self.entries@.len(),
                forall|k: int|
                    0 <= k < i ==> (#[trigger] self.entries@[k]).path.names() != path.names(),
            decreases n - i,
        {
            if path_eq(&self.entries[i].path, path) {
                proof {
                    lemma_find_path_unique(self.entries@, path.names(), i as int);
                }
                return Some(i);
            }
            i = i + 1;
        }
        proof {
            lemma_find_path_characterizes(self.entries@, path.names());
        }
        None
    }

    /// The curve set stored for `path`, if the clip has one.
    pub fn get_curves(&self, path: &BonePath) -> (r: Option<&CurveSet>)
        ensures
            match r {
                Some(cs) => self.spec_get(path.names()) == Some(*cs),
                None => self.spec_get(path.names()) is None,
            },
    {
        match self.find_entry(path) {
            Some(i) => {
                proof {
                    lemma_find_path_characterizes(self.entries@, path.names());
                }
                Some(&self.entries[i].curves)
            },
            None => None,
        }
    }

    /// Map `path` to `curves`, replacing any curve set the clip already
    /// held for it and leaving every other bone's entry unchanged.
    pub fn insert_curves(&mut self, path: BonePath, curves: CurveSet)
        requires
            old(self).wf(),
            path.wf(),
            curves.wf(),
        ensures
            final(self).wf(),
            final(self).spec_get(path.names()) == Some(curves),
            forall|q: Seq<Seq<char>>|
                q != path.names() ==> #[trigger] final(self).spec_get(q) == old(self).spec_get(
                    q,
                ),
    {
        let ghost names = path.names();
        let ghost old_entries = self.entries@;
        match self.find_entry(&path) {
            Some(i) => {
                proof {
                    lemma_find_path_characterizes(old_entries, names);
                }
                self.entries.set(i, ClipEntry { path, curves });
                proof {
                    lemma_insert_replace(old_entries, self.entries@, names, i as int);
                    assert forall|q: Seq<Seq<char>>| q != names implies #[trigger] self.spec_get(
                        q,
                    ) == old(self).spec_get(q) by {
                        lemma_find_path_characterizes(self.entries@, q);
                    }
                }
            },
            None => {
                proof {
                    lemma_find_path_characterizes(old_entries, names);
                }
                self.entries.push(ClipEntry { path, curves });
                proof {
                    lemma_insert_append(old_entries, self.entries@, names);
                    assert forall|q: Seq<Seq<char>>| q != names implies #[trigger] self.spec_get(
                        q,
                    ) == old(self).spec_get(q) by {
                        lemma_find_path_characterizes(self.entries@, q);
                        lemma_find_path_characterizes(old_entries, q);
                    }
                }
            },
        }
    }
}

/// Replacing the matching entry with one spelling the same path keeps every
/// lookup result except the replaced path's own.
proof fn lemma_insert_replace(
    old_entries: Seq<ClipEntry>,
    new_entries: Seq<ClipEntry>,
    names: Seq<Seq<char>>,
    i: int,
)
    requires
        0 <= i < old_entries.len(),
        new_entries == old_entries.update(i, new_entries[i]),
        new_entries.len() == old_entries.len(),
        new_entries[i].path.names() == names,
        old_entries[i].path.names() == names,
        forall|k: int| 0 <= k < i ==> (#[trigger] old_entries[k]).path.names() != names,
    ensures
        spec_find_path(new_entries, names) == Some(i),
        forall|q: Seq<Seq<char>>|
            q != names ==> #[trigger] spec_find_path(new_entries, q) == spec_find_path(
                old_entries,
                q,
            ),
{
    assert(forall|k: int|
        0 <= k < i ==> (#[trigger] new_entries[k]).path.names() != names);
    lemma_find_path_unique(new_entries, names, i);
    assert forall|q: Seq<Seq<char>>| q != names implies #[trigger] spec_find_path(new_entries, q)
        == spec_find_path(old_entries, q) by {
        lemma_find_path_same_names(old_entries, new_entries, q);
    }
}

/// Appending an entry for a path no other entry spells makes lookups of
/// that path find it and leaves every other lookup unchanged.
proof fn lemma_insert_append(
    old_entries: Seq<ClipEntry>,
    new_entries: Seq<ClipEntry>,
    names: Seq<Seq<char>>,
)
    requires
        new_entries.len() == old_entries.len() + 1,
        new_entries == old_entries.push(new_entries[old_entries.len() as int]),
        new_entries[old_entries.len() as int].path.names() == names,
        forall|k: int| 0 <= k < old_entries.len() ==> (#[trigger] old_entries[k]).path.names()
            != names,
    ensures
        spec_find_path(new_entries, names) == Some(old_entries.len() as int),
        forall|q: Seq<Seq<char>>|
            q != names ==> #[trigger] spec_find_path(new_entries, q) == spec_find_path(
                old_entries,
                q,
            ),
{
    assert(forall|k: int|
        0 <= k < old_entries.len() ==> #[trigger] new_entries[k] == old_entries[k]);
    lemma_find_path_unique(new_entries, names, old_entries.len() as int);
    assert forall|q: Seq<Seq<char>>| q != names implies #[trigger] spec_find_path(new_entries, q)
        == spec_find_path(old_entries, q) by {
        lemma_find_path_push(old_entries, new_entries[old_entries.len() as int], q);
    }
}

/// Looking up a path depends only on the names each entry spells.
proof fn lemma_find_path_same_names(
    s1: Seq<ClipEntry>,
    s2: Seq<ClipEntry>,
    q: Seq<Seq<char>>,
)
    requires
        s1.len() == s2.len(),
        forall|k: int|
            0 <= k < s1.len() ==> (#[trigger] s1[k]).path.names() == s2[k].path.names(),
    ensures
        spec_find_path(s1, q) == spec_find_path(s2, q),
    decreases s1.len(),
{
    if s1.len() == 0 {
    } else {
        assert(forall|k: int|
            0 <= k < s1.len() - 1 ==> #[trigger] s1.drop_first()[k] == s1[k + 1]);
        assert(forall|k: int|
            0 <= k < s2.len() - 1 ==> #[trigger] s2.drop_first()[k] == s2[k + 1]);
        lemma_find_path_same_names(s1.drop_first(), s2.drop_first(), q);
    }
}

/// Appending an entry that does not spell `q` leaves a lookup of `q` as it
/// was when the lookup misses, and untouched when it already hit.
proof fn lemma_find_path_push(entries: Seq<ClipEntry>, e: ClipEntry, q: Seq<Seq<char>>)
    requires
        e.path.names() != q,
    ensures
        spec_find_path(entries.push(e), q) == spec_find_path(entries, q),
    decreases entries.len(),
{
    reveal_with_fuel(spec_find_path, 3);
    if entries.len() == 0 {
        assert(entries.push(e)[0] == e);
        assert(entries.push(e).drop_first() =~= Seq::<ClipEntry>::empty());
        assert(spec_find_path(Seq::<ClipEntry>::empty(), q) is None);
    } else {
        assert(entries.push(e)[0] == entries[0]);
        assert(entries.push(e).drop_first() =~= entries.drop_first().push(e));
        lemma_find_path_push(entries.drop_first(), e, q);
    }
}

/// The read-only store of loaded clips, shared by every animated subject;
/// a clip reference is an index into it.
#[derive(Debug)]
pub struct ClipStore {
    pub clips: Vec<AnimationClip>,
}

impl ClipStore {
    pub open spec fn wf(self) -> bool {
        forall|i: int| 0 <= i < self.clips@.len() ==> (#[trigger] self.clips@[i]).wf()
    }

    /// A clip reference is valid when it indexes a stored clip.
    pub open spec fn spec_has(self, id: int) -> bool {
        0 <= id < self.clips@.len()
    }

    pub fn new() -> (r: ClipStore)
        ensures
            r.clips@.len() == 0,
            r.wf(),
    {
        ClipStore { clips: Vec::new() }
    }

    /// Add a clip and hand back its reference.
    pub fn add_clip(&mut self, clip: AnimationClip) -> (id: usize)
        requires
            old(self).wf(),
            clip.wf(),
        ensures
            final(self).wf(),
            id as int == old(self).clips@.len(),
            final(self).clips@ == old(self).clips@.push(clip),
    {
        let id = self.clips.len();
        self.clips.push(clip);
        id
    }

    /// Look a clip up by reference, as the blend tick does.
    pub fn get_clip(&self, id: usize) -> (r: Option<&AnimationClip>)
        ensures
            match r {
                Some(c) => self.spec_has(id as int) && *c == self.clips@[id as int],
                None => !self.spec_has(id as int),
            },
    {
        if id < self.clips.len() {
            Some(&self.clips[id])
        } else {
            None
        }
    }
}

} // verus!
