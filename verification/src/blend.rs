//! The blend writer: per-bone, per-channel interpolation.
//!
//! For a bone the source clip animates, each channel samples the source
//! curve's governing keyframe at the frozen source time and, when the
//! destination clip also animates that channel, interpolates toward the
//! destination curve's first keyframe at the current fade factor.  A
//! channel with no destination value holds the sampled source value
//! unchanged.
//!
//! Translation and scale interpolate linearly and are computed here
//! exactly.  A rotation strictly inside the fade window is reported as a
//! shortest-arc spherical interpolation request carrying its operands and
//! factor, since the spherical arc needs trigonometry the integer model
//! cannot express; at the window's endpoints the rotation is the exact
//! source or destination keyframe, as the spherical arc's own endpoints
//! are.

use crate::clip::CurveSet;
use crate::curve::{
    sample_governing_keyframe, spec_governing, GoverningKeyframe, RotationCurve, VectorCurve,
};
use crate::values::{lerp_vec3, spec_lerp_vec3, Quat, Vec3};
use vstd::prelude::*;

verus! {

/// How a resolved bone's rotation channel is written this tick.
#[derive(Clone, Copy, PartialEq, Eq, Structural, Debug)]
pub enum RotationWrite {
    /// Write this quaternion as it stands.
    Exact(Quat),
    /// Write the shortest-arc spherical interpolation from `from` toward
    /// `to` at the fraction `num / den`; the caller carries it out.
    Slerp { from: Quat, to: Quat, num: u64, den: u64 },
}

/// The transform channels to write into one resolved bone; a `None`
/// channel is skipped and keeps whatever the bone held.
#[derive(Clone, Copy, PartialEq, Eq, Structural, Debug)]
pub struct BoneWrite {
    pub entity: usize,
    pub rotation: Option<RotationWrite>,
    pub translation: Option<Vec3>,
    pub scale: Option<Vec3>,
}

/// The destination's blend target for the rotation channel: the first
/// keyframe of its rotation curve, if the destination animates this bone's
/// rotation at all.
pub open spec fn spec_dest_rotation(to_set: Option<CurveSet>) -> Option<Quat> {
    match to_set {
        Some(cs) => match cs.rotation {
            Some(c) => Some(c.values@[0]),
            None => None,
        },
        None => None,
    }
}

/// The destination's blend target for the translation channel.
pub open spec fn spec_dest_translation(to_set: Option<CurveSet>) -> Option<Vec3> {
    match to_set {
        Some(cs) => match cs.translation {
            Some(c) => Some(c.values@[0]),
            None => None,
        },
        None => None,
    }
}

/// The destination's blend target for the scale channel.
pub open spec fn spec_dest_scale(to_set: Option<CurveSet>) -> Option<Vec3> {
    match to_set {
        Some(cs) => match cs.scale {
            Some(c) => Some(c.values@[0]),
            None => None,
        },
        None => None,
    }
}

/// What the rotation channel writes: nothing when the source curve has not
/// started or has finished at the sample time; otherwise the governing
/// source keyframe, blended toward `to_rot` when that target exists.
pub open spec fn spec_rotation_write(
    from_curve: RotationCurve,
    to_rot: Option<Quat>,
    sample_time: u64,
    num: u64,
    den: u64,
) -> Option<RotationWrite> {
    match spec_governing(from_curve.times@, sample_time) {
        GoverningKeyframe::At(i) => {
            let src = from_curve.values@[i as int];
            Some(
                match to_rot {
                    None => RotationWrite::Exact(src),
                    Some(dst) => if num == den {
                        RotationWrite::Exact(dst)
                    } else if num == 0 {
                        RotationWrite::Exact(src)
                    } else {
                        RotationWrite::Slerp { from: src, to: dst, num, den }
                    },
                },
            )
        },
        _ => None,
    }
}

/// What a translation or scale channel writes: nothing when the source
/// curve has not started or has finished at the sample time; otherwise the
/// governing source keyframe, interpolated toward `to_val` when that
/// target exists.
pub open spec fn spec_vector_write(
    from_curve: VectorCurve,
    to_val: Option<Vec3>,
    sample_time: u64,
    num: u64,
    den: u64,
) -> Option<Vec3> {
    match spec_governing(from_curve.times@, sample_time) {
        GoverningKeyframe::At(i) => {
            let src = from_curve.values@[i as int];
            Some(
                match to_val {
                    None => src,
                    Some(dst) => spec_lerp_vec3(src, dst, num as int, den as int),
                },
            )
        },
        _ => None,
    }
}

/// Every channel of one bone's write, from the source curve set and the
/// destination's curve set for the same bone path, if any.
pub open spec fn spec_bone_write(
    entity: usize,
    from_set: CurveSet,
    to_set: Option<CurveSet>,
    sample_time: u64,
    num: u64,
    den: u64,
) -> BoneWrite {
    BoneWrite {
        entity,
        rotation: match from_set.rotation {
            Some(c) => spec_rotation_write(c, spec_dest_rotation(to_set), sample_time, num, den),
            None => None,
        },
        translation: match from_set.translation {
            Some(c) => spec_vector_write(
                c,
                spec_dest_translation(to_set),
                sample_time,
                num,
                den,
            ),
            None => None,
        },
        scale: match from_set.scale {
            Some(c) => spec_vector_write(c, spec_dest_scale(to_set), sample_time, num, den),
            None => None,
        },
    }
}

/// Compute one resolved bone's channel writes at the given fade fraction,
/// sampling the source curves at the frozen `sample_time`.
pub fn blend_bone(
    entity: usize,
    from_set: &CurveSet,
    to_set: Option<&CurveSet>,
    sample_time: u64,
    num: u64,
    den: u64,
) -> (w: BoneWrite)
    requires
        from_set.wf(),
        to_set matches Some(cs) ==> cs.wf(),
        den > 0,
        num <= den,
    ensures
        w == spec_bone_write(
            entity,
            *from_set,
            match to_set {
                Some(cs) => Some(*cs),
                None => None::<CurveSet>,
            },
            sample_time,
            num,
            den,
        ),
{
    let ghost to_set_spec = match to_set {
        Some(cs) => Some(*cs),
        None => None::<CurveSet>,
    };
    let to_rotation: Option<Quat> = match to_set {
        Some(cs) => match &cs.rotation {
            Some(c) => Some(c.values[0]),
            None => None,
        },
        None => None,
    };
    let to_translation: Option<Vec3> = match to_set {
        Some(cs) => match &cs.translation {
            Some(c) => Some(c.values[0]),
            None => None,
        },
        None => None,
    };
    let to_scale: Option<Vec3> = match to_set {
        Some(cs) => match &cs.scale {
            Some(c) => Some(c.values[0]),
            None => None,
        },
        None => None,
    };
    proof {
        assert(to_rotation == spec_dest_rotation(to_set_spec));
        assert(to_translation == spec_dest_translation(to_set_spec));
        assert(to_scale == spec_dest_scale(to_set_spec));
    }

    let rotation: Option<RotationWrite> = match &from_set.rotation {
        Some(c) => {
            match sample_governing_keyframe(&c.times, sample_time) {
                GoverningKeyframe::At(i) => {
                    let src = c.values[i];
                    Some(
                        match to_rotation {
                            None => RotationWrite::Exact(src),
                            Some(dst) => if num == den {
                                RotationWrite::Exact(dst)
                            } else if num == 0 {
                                RotationWrite::Exact(src)
                            } else {
                                RotationWrite::Slerp { from: src, to: dst, num, den }
                            },
                        },
                    )
                },
                _ => None,
            }
        },
        None => None,
    };
    let translation: Option<Vec3> = match &from_set.translation {
        Some(c) => {
            match sample_governing_keyframe(&c.times, sample_time) {
                GoverningKeyframe::At(i) => {
                    let src = c.values[i];
                    Some(
                        match to_translation {
                            None => src,
                            Some(dst) => lerp_vec3(src, dst, num, den),
                        },
                    )
                },
                _ => None,
            }
        },
        None => None,
    };
    let scale: Option<Vec3> = match &from_set.scale {
        Some(c) => {
            match sample_governing_keyframe(&c.times, sample_time) {
                GoverningKeyframe::At(i) => {
                    let src = c.values[i];
                    Some(
                        match to_scale {
                            None => src,
                            Some(dst) => lerp_vec3(src, dst, num, den),
                        },
                    )
                },
                _ => None,
            }
        },
        None => None,
    };
    BoneWrite { entity, rotation, translation, scale }
}

/// A channel only the source clip animates holds the sampled source value
/// unchanged, whatever the fade factor: the write equals the governing
/// source keyframe exactly, for translation and scale alike.
pub proof fn lemma_missing_destination_holds_vector(
    from_curve: VectorCurve,
    sample_time: u64,
    num: u64,
    den: u64,
)
    ensures
        spec_vector_write(from_curve, None, sample_time, num, den) == (match spec_governing(
            from_curve.times@,
            sample_time,
        ) {
            GoverningKeyframe::At(i) => Some(from_curve.values@[i as int]),
            _ => None::<Vec3>,
        }),
{
}

/// A rotation channel only the source clip animates holds the sampled
/// source keyframe exactly, whatever the fade factor.
pub proof fn lemma_missing_destination_holds_rotation(
    from_curve: RotationCurve,
    sample_time: u64,
    num: u64,
    den: u64,
)
    ensures
        spec_rotation_write(from_curve, None, sample_time, num, den) == (match spec_governing(
            from_curve.times@,
            sample_time,
        ) {
            GoverningKeyframe::At(i) => Some(
                RotationWrite::Exact(from_curve.values@[i as int]),
            ),
            _ => None::<RotationWrite>,
        }),
{
}

/// Strictly inside the fade window, a rotation channel with both operands
/// is reported as exactly the shortest-arc interpolation request between
/// the governing source keyframe and the destination's first keyframe, at
/// the fade fraction itself.
pub proof fn lemma_rotation_blend_operands(
    from_curve: RotationCurve,
    dst: Quat,
    sample_time: u64,
    num: u64,
    den: u64,
)
    requires
        0 < num < den,
    ensures
        spec_rotation_write(from_curve, Some(dst), sample_time, num, den) == (
        match spec_governing(from_curve.times@, sample_time) {
            GoverningKeyframe::At(i) => Some(
                RotationWrite::Slerp {
                    from: from_curve.values@[i as int],
                    to: dst,
                    num,
                    den,
                },
            ),
            _ => None::<RotationWrite>,
        }),
{
}

/// A bone the destination clip does not animate at all keeps its source
/// pose through the whole transition: at any fade factor, every channel
/// the write carries is the governing source keyframe unchanged.
pub proof fn lemma_missing_destination_bone(
    entity: usize,
    from_set: CurveSet,
    sample_time: u64,
    num: u64,
    den: u64,
)
    ensures
        spec_bone_write(entity, from_set, None, sample_time, num, den) == (BoneWrite {
            entity,
            rotation: match from_set.rotation {
                Some(c) => match spec_governing(c.times@, sample_time) {
                    GoverningKeyframe::At(i) => Some(
                        RotationWrite::Exact(c.values@[i as int]),
                    ),
                    _ => None,
                },
                None => None,
            },
            translation: match from_set.translation {
                Some(c) => match spec_governing(c.times@, sample_time) {
                    GoverningKeyframe::At(i) => Some(c.values@[i as int]),
                    _ => None,
                },
                None => None,
            },
            scale: match from_set.scale {
                Some(c) => match spec_governing(c.times@, sample_time) {
                    GoverningKeyframe::At(i) => Some(c.values@[i as int]),
                    _ => None,
                },
                None => None,
            },
        }),
{
}

/// At the full fade factor every channel with a destination target lands
/// exactly on the destination clip's first keyframe, so the tick that ends
/// a transition writes the exact pose direct playback of the destination
/// clip then starts from.
pub proof fn lemma_completion_exact(
    entity: usize,
    from_set: CurveSet,
    to_set: CurveSet,
    sample_time: u64,
    den: u64,
)
    requires
        den > 0,
    ensures
        ({
            let w = spec_bone_write(entity, from_set, Some(to_set), sample_time, den, den);
            &&& (from_set.rotation matches Some(c) ==> to_set.rotation matches Some(d)
                ==> spec_governing(c.times@, sample_time) is At ==> w.rotation == Some(
                RotationWrite::Exact(d.values@[0]),
            ))
            &&& (from_set.translation matches Some(c) ==> to_set.translation matches Some(d)
                ==> spec_governing(c.times@, sample_time) is At ==> w.translation == Some(
                d.values@[0],
            ))
            &&& (from_set.scale matches Some(c) ==> to_set.scale matches Some(d)
                ==> spec_governing(c.times@, sample_time) is At ==> w.scale == Some(
                d.values@[0],
            ))
        }),
{
    match (from_set.translation, to_set.translation) {
        (Some(c), Some(d)) => match spec_governing(c.times@, sample_time) {
            GoverningKeyframe::At(i) => {
                crate::values::lemma_lerp_vec3_endpoints(
                    c.values@[i as int],
                    d.values@[0],
                    den as int,
                );
            },
            _ => {},
        },
        _ => {},
    }
    match (from_set.scale, to_set.scale) {
        (Some(c), Some(d)) => match spec_governing(c.times@, sample_time) {
            GoverningKeyframe::At(i) => {
                crate::values::lemma_lerp_vec3_endpoints(
                    c.values@[i as int],
                    d.values@[0],
                    den as int,
                );
            },
            _ => {},
        },
        _ => {},
    }
}

} // verus!
