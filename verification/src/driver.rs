//! The per-tick transition driver.
//!
//! Once per simulation tick, for one animated subject, the driver pauses
//! direct playback, advances the crossfade's elapsed time, computes the
//! fade factor, blends every bone the source clip animates, and, when the
//! factor reaches one, hands control back to ordinary looped playback of
//! the destination clip and returns the state machine to idle.  The same
//! tick's blend still runs at the full factor, so the visible result is
//! exactly the destination clip's starting pose.

use crate::blend::{blend_bone, spec_bone_write, BoneWrite, RotationWrite};
use crate::clip::{AnimationClip, ClipStore};
use crate::scene::{resolve, spec_resolve, SceneTree};
use crate::state::{fade_numerator, spec_fade_numerator, CrossFadePlayer};
use vstd::prelude::*;

verus! {

/// The state of a subject's direct clip playback, which a crossfade pauses
/// and, on completion, points at the destination clip.  Its elapsed time
/// is the playback clock captured when the transition froze it, and is the
/// time at which the source clip's curves are sampled.
#[derive(Clone, Copy, PartialEq, Eq, Structural, Debug)]
pub struct Playback {
    pub clip: Option<usize>,
    pub elapsed: u64,
    pub paused: bool,
    pub repeat: bool,
}

impl Playback {
    pub fn pause(&mut self)
        ensures
            *final(self) == (Playback {
                clip: old(self).clip,
                elapsed: old(self).elapsed,
                paused: true,
                repeat: old(self).repeat,
            }),
    {
        self.paused = true;
    }

    /// Start playing `clip` from its beginning, unpaused, not repeating.
    pub fn play(&mut self, clip: usize)
        ensures
            *final(self) == (Playback { clip: Some(clip), elapsed: 0, paused: false, repeat: false }),
    {
        *self = Playback { clip: Some(clip), elapsed: 0, paused: false, repeat: false };
    }

    /// Mark the current playback as looping.
    pub fn set_repeat(&mut self)
        ensures
            *final(self) == (Playback {
                clip: old(self).clip,
                elapsed: old(self).elapsed,
                paused: old(self).paused,
                repeat: true,
            }),
    {
        self.repeat = true;
    }

    pub fn elapsed(&self) -> (r: u64)
        ensures
            r == self.elapsed,
    {
        self.elapsed
    }
}

impl Default for Playback {
    /// Fresh playback: no clip, clock at zero, running, not repeating.
    fn default() -> (r: Playback)
        ensures
            r == (Playback { clip: None, elapsed: 0, paused: false, repeat: false }),
    {
        Playback { clip: None, elapsed: 0, paused: false, repeat: false }
    }
}

/// One bone path of the source clip that the scene hierarchy could not
/// resolve this tick: the entry's index in the clip and the path segment
/// that matched no child.  Reported as a diagnostic; the tick goes on.
#[derive(Clone, Copy, PartialEq, Eq, Structural, Debug)]
pub struct BoneMiss {
    pub path_index: usize,
    pub segment: usize,
}

/// Everything one blend tick produced: the transform writes for every
/// resolved bone, a diagnostic per unresolvable bone path, and whether
/// this tick completed the transition.
#[derive(Debug)]
pub struct TickOutput {
    pub writes: Vec<BoneWrite>,
    pub misses: Vec<BoneMiss>,
    pub completed: bool,
}

/// Elapsed time advanced by a tick's delta, saturating at the clock's cap.
pub open spec fn spec_saturating_add(a: u64, b: u64) -> u64 {
    if a + b > u64::MAX {
        u64::MAX
    } else {
        (a + b) as u64
    }
}

/// A tick never rewinds the transition clock: the saturating advance is
/// monotone in the starting time, so, with `lemma_fade_factor_monotonic`,
/// the fade factor never decreases across the ticks of one transition.
pub proof fn lemma_elapsed_monotonic(a: u64, b: u64)
    ensures
        spec_saturating_add(a, b) >= a,
{
}

/// A tick does work exactly when a transition is in progress and both its
/// clip references name loaded clips; otherwise it is a no-op.
pub open spec fn spec_tick_active(s: CrossFadePlayer, clips: ClipStore) -> bool {
    &&& s.from is Some && clips.spec_has(s.from->0 as int)
    &&& s.to is Some && clips.spec_has(s.to->0 as int)
}

/// The writes a blend tick emits for the first `n` entries of the source
/// clip: one per entry whose bone path resolves, in entry order, blending
/// toward the destination clip's curves for the same path.
pub open spec fn spec_tick_writes(
    tree: SceneTree,
    root: usize,
    from_clip: AnimationClip,
    to_clip: AnimationClip,
    sample_time: u64,
    num: u64,
    den: u64,
    n: int,
) -> Seq<BoneWrite>
    decreases n,
{
    if n <= 0 {
        Seq::empty()
    } else {
        let prefix = spec_tick_writes(tree, root, from_clip, to_clip, sample_time, num, den, n - 1);
        let entry = from_clip.entries@[n - 1];
        match spec_resolve(tree, root as int, entry.path.names().drop_first()) {
            Ok(e) => prefix.push(
                spec_bone_write(
                    e as usize,
                    entry.curves,
                    to_clip.spec_get(entry.path.names()),
                    sample_time,
                    num,
                    den,
                ),
            ),
            Err(_) => prefix,
        }
    }
}

/// The diagnostics a blend tick emits for the first `n` entries of the
/// source clip: one per entry whose bone path does not resolve.
pub open spec fn spec_tick_misses(
    tree: SceneTree,
    root: usize,
    from_clip: AnimationClip,
    n: int,
) -> Seq<BoneMiss>
    decreases n,
{
    if n <= 0 {
        Seq::empty()
    } else {
        let prefix = spec_tick_misses(tree, root, from_clip, n - 1);
        let entry = from_clip.entries@[n - 1];
        match spec_resolve(tree, root as int, entry.path.names().drop_first()) {
            Ok(_) => prefix,
            Err(k) => prefix.push(
                BoneMiss { path_index: (n - 1) as usize, segment: (k + 1) as usize },
            ),
        }
    }
}

/// A bone path that cannot be resolved silences only itself: every source
/// entry whose path does resolve contributes its own write to the tick's
/// output, computed from that entry and the destination clip alone,
/// whatever happens to the other entries.
pub proof fn lemma_tick_writes_per_entry(
    tree: SceneTree,
    root: usize,
    from_clip: AnimationClip,
    to_clip: AnimationClip,
    sample_time: u64,
    num: u64,
    den: u64,
    j: int,
    n: int,
)
    requires
        0 <= j < n <= from_clip.entries@.len(),
    ensures
        ({
            let entry = from_clip.entries@[j];
            spec_resolve(tree, root as int, entry.path.names().drop_first()) matches Ok(e)
                ==> spec_tick_writes(
                tree,
                root,
                from_clip,
                to_clip,
                sample_time,
                num,
                den,
                n,
            ).contains(
                spec_bone_write(
                    e as usize,
                    entry.curves,
                    to_clip.spec_get(entry.path.names()),
                    sample_time,
                    num,
                    den,
                ),
            )
        }),
    decreases n,
{
    let entry = from_clip.entries@[j];
    let prefix = spec_tick_writes(tree, root, from_clip, to_clip, sample_time, num, den, n - 1);
    let whole = spec_tick_writes(tree, root, from_clip, to_clip, sample_time, num, den, n);
    match spec_resolve(tree, root as int, entry.path.names().drop_first()) {
        Ok(e) => {
            let w = spec_bone_write(
                e as usize,
                entry.curves,
                to_clip.spec_get(entry.path.names()),
                sample_time,
                num,
                den,
            );
            if j == n - 1 {
                assert(whole == prefix.push(w));
                assert(whole[prefix.len() as int] == w);
            } else {
                lemma_tick_writes_per_entry(
                    tree,
                    root,
                    from_clip,
                    to_clip,
                    sample_time,
                    num,
                    den,
                    j,
                    n - 1,
                );
                let i = choose|i: int| 0 <= i < prefix.len() && prefix[i] == w;
                match spec_resolve(
                    tree,
                    root as int,
                    from_clip.entries@[n - 1].path.names().drop_first(),
                ) {
                    Ok(_) => {
                        assert(whole[i] == w);
                    },
                    Err(_) => {
                        assert(whole == prefix);
                        assert(whole[i] == w);
                    },
                }
            }
        },
        Err(_) => {},
    }
}

/// Completion convergence: a tick at the full fade factor — reached
/// exactly when the simulated time since the request reaches the
/// transition time — includes a write for every resolvable source bone,
/// and each of that write's channels with a destination target equals
/// the destination clip's first keyframe for that channel exactly.
/// `tick`'s own contract returns the state machine to idle and hands
/// playback to looped direct playback of the destination at that same
/// tick, so the pose the blend leaves behind is the pose that playback
/// starts from.
pub proof fn lemma_completion_convergence(
    tree: SceneTree,
    root: usize,
    from_clip: AnimationClip,
    to_clip: AnimationClip,
    sample_time: u64,
    den: u64,
    j: int,
    n: int,
)
    requires
        den > 0,
        0 <= j < n <= from_clip.entries@.len(),
    ensures
        ({
            let entry = from_clip.entries@[j];
            spec_resolve(tree, root as int, entry.path.names().drop_first()) matches Ok(e) ==> ({
                let w = spec_bone_write(
                    e as usize,
                    entry.curves,
                    to_clip.spec_get(entry.path.names()),
                    sample_time,
                    den,
                    den,
                );
                &&& spec_tick_writes(
                    tree,
                    root,
                    from_clip,
                    to_clip,
                    sample_time,
                    den,
                    den,
                    n,
                ).contains(w)
                &&& (to_clip.spec_get(entry.path.names()) matches Some(ts)
                    ==> entry.curves.rotation matches Some(c)
                    ==> ts.rotation matches Some(d)
                    ==> crate::curve::spec_governing(c.times@, sample_time) is At
                    ==> w.rotation == Some(RotationWrite::Exact(d.values@[0])))
                &&& (to_clip.spec_get(entry.path.names()) matches Some(ts)
                    ==> entry.curves.translation matches Some(c)
                    ==> ts.translation matches Some(d)
                    ==> crate::curve::spec_governing(c.times@, sample_time) is At
                    ==> w.translation == Some(d.values@[0]))
                &&& (to_clip.spec_get(entry.path.names()) matches Some(ts)
                    ==> entry.curves.scale matches Some(c)
                    ==> ts.scale matches Some(d)
                    ==> crate::curve::spec_governing(c.times@, sample_time) is At
                    ==> w.scale == Some(d.values@[0]))
            })
        }),
{
    lemma_tick_writes_per_entry(tree, root, from_clip, to_clip, sample_time, den, den, j, n);
    let entry = from_clip.entries@[j];
    match spec_resolve(tree, root as int, entry.path.names().drop_first()) {
        Ok(e) => {
            match to_clip.spec_get(entry.path.names()) {
                Some(ts) => {
                    crate::blend::lemma_completion_exact(
                        e as usize,
                        entry.curves,
                        ts,
                        sample_time,
                        den,
                    );
                },
                None => {},
            }
        },
        Err(_) => {},
    }
}

impl CrossFadePlayer {
    /// Advance this subject's crossfade by `delta` ticks and blend every
    /// bone the source clip animates into the output's writes.
    ///
    /// Idle subjects, and transitions whose clip references name no loaded
    /// clip, are a no-op.  An active transition pauses direct playback,
    /// samples the source curves at the playback clock frozen by that
    /// pause, and blends toward the destination clip's first keyframes at
    /// the fade factor `min(elapsed + delta, transition_time) /
    /// transition_time`.  When the factor reaches one, this same tick's
    /// writes land exactly on the destination's first keyframes, playback
    /// switches to the destination clip, looping from its start, and the
    /// state returns to idle.
    pub fn tick(
        &mut self,
        playback: &mut Playback,
        clips: &ClipStore,
        tree: &SceneTree,
        root: usize,
        delta: u64,
    ) -> (out: TickOutput)
        requires
            old(self).wf(),
            clips.wf(),
            tree.wf(),
            root < tree.nodes@.len(),
        ensures
            final(self).wf(),
            !spec_tick_active(*old(self), *clips) ==> {
                &&& *final(self) == *old(self)
                &&& *final(playback) == *old(playback)
                &&& out.writes@ == Seq::<BoneWrite>::empty()
                &&& out.misses@ == Seq::<BoneMiss>::empty()
                &&& !out.completed
            },
            spec_tick_active(*old(self), *clips) ==> ({
                let to_id = old(self).to->0;
                let tt = old(self).transition_time;
                let new_elapsed = spec_saturating_add(old(self).elapsed, delta);
                let num = spec_fade_numerator(new_elapsed as int, tt as int) as u64;
                let from_clip = clips.clips@[old(self).from->0 as int];
                let to_clip = clips.clips@[to_id as int];
                let sample_time = old(playback).elapsed;
                &&& out.completed == (new_elapsed >= tt)
                &&& out.writes@ == spec_tick_writes(
                    *tree,
                    root,
                    from_clip,
                    to_clip,
                    sample_time,
                    num,
                    tt,
                    from_clip.entries@.len() as int,
                )
                &&& out.misses@ == spec_tick_misses(
                    *tree,
                    root,
                    from_clip,
                    from_clip.entries@.len() as int,
                )
                &&& (out.completed ==> *final(self) == CrossFadePlayer::spec_idle()
                    && *final(playback) == (Playback {
                    clip: Some(to_id),
                    elapsed: 0,
                    paused: false,
                    repeat: true,
                }))
                &&& !out.completed ==> *final(self) == (CrossFadePlayer {
                    from: old(self).from,
                    to: old(self).to,
                    transition_time: tt,
                    elapsed: new_elapsed,
                }) && *final(playback) == (Playback {
                    clip: old(playback).clip,
                    elapsed: old(playback).elapsed,
                    paused: true,
                    repeat: old(playback).repeat,
                })
            }),
    {
        let (from_id, to_id) = match (self.from, self.to) {
            (Some(f), Some(t)) => (f, t),
            _ => {
                return TickOutput { writes: Vec::new(), misses: Vec::new(), completed: false };
            },
        };
        let from_clip = match clips.get_clip(from_id) {
            Some(c) => c,
            None => {
                return TickOutput { writes: Vec::new(), misses: Vec::new(), completed: false };
            },
        };
        let to_clip = match clips.get_clip(to_id) {
            Some(c) => c,
            None => {
                return TickOutput { writes: Vec::new(), misses: Vec::new(), completed: false };
            },
        };

        // Stop direct playback and freeze the source sampling time at the
        // clock it had reached.
        playback.pause();
        let sample_time = playback.elapsed();

        // Advance the transition clock and compute the clamped fade factor
        // `num / tt`.
        let tt = self.transition_time;
        let new_elapsed = if delta > u64::MAX - self.elapsed {
            u64::MAX
        } else {
            self.elapsed + delta
        };
        self.elapsed = new_elapsed;
        let num = fade_numerator(new_elapsed, tt);
        let completed = new_elapsed >= tt;
        if completed {
            // Hand control to looped direct playback of the destination;
            // this tick's blend below still runs, at the full factor, so
            // the pose lands exactly where that playback starts.
            self.reset();
            playback.play(to_id);
            playback.set_repeat();
        }

        let n = from_clip.entries.len();
        let mut writes: Vec<BoneWrite> = Vec::new();
        let mut misses: Vec<BoneMiss> = Vec::new();
        let mut i: usize = 0;
        while i < n
            invariant
                i <= n,
                n == from_clip.entries@.len(),
                tree.wf(),
                root < tree.nodes@.len(),
                from_clip.wf(),
                to_clip.wf(),
                tt > 0,
                num <= tt,
                writes@ == spec_tick_writes(
                    *tree,
                    root,
                    *from_clip,
                    *to_clip,
                    sample_time,
                    num,
                    tt,
                    i as int,
                ),
                misses@ == spec_tick_misses(*tree, root, *from_clip, i as int),
            decreases n - i,
        {
            let entry = &from_clip.entries[i];
            match resolve(tree, root, &entry.path) {
                Ok(e) => {
                    let to_curves = to_clip.get_curves(&entry.path);
                    proof {
                        crate::clip::lemma_find_path_characterizes(
                            to_clip.entries@,
                            entry.path.names(),
                        );
                    }
                    let w = blend_bone(e, &entry.curves, to_curves, sample_time, num, tt);
                    writes.push(w);
                },
                Err(fail) => {
                    misses.push(BoneMiss { path_index: i, segment: fail.segment });
                },
            }
            i = i + 1;
        }
        TickOutput { writes, misses, completed }
    }
}

} // verus!
