//! Clip selection for the player character.
//!
//! Higher-level state (idle or moving) decides which animation the player
//! should be showing.  When the desired clip differs from the one already
//! chosen, the selector asks for a crossfade toward it — or for direct
//! playback when nothing has been chosen yet — and records the choice.

use vstd::prelude::*;

verus! {

/// Index of the idle animation in the player's clip list.
pub const IDLE_CLIP_INDEX: usize = 0;

/// Index of the run animation in the player's clip list.
pub const RUN_CLIP_INDEX: usize = 1;

/// Crossfade duration, in ticks of one millisecond, when settling into
/// the idle animation.
pub const IDLE_FADE_TICKS: u64 = 300;

/// Crossfade duration, in ticks of one millisecond, when breaking into
/// the run animation.
pub const RUN_FADE_TICKS: u64 = 250;

/// Playback speed in thousandths: ordinary speed.
pub const NORMAL_SPEED_MILLI: u64 = 1000;

/// Playback speed in thousandths for the run animation, played slightly
/// fast to match the movement rate.
pub const RUN_SPEED_MILLI: u64 = 1300;

/// The clip references loaded for the player, by role index.
#[derive(Debug)]
pub struct Animations(pub Vec<usize>);

/// What the player is doing, as far as animation cares.
#[allow(non_camel_case_types)]
#[derive(Clone, Copy, Debug, Eq, PartialEq, Hash, Structural)]
pub enum PlayerStateEnum {
    IDLE,
    MOVING,
}

/// The player's animation bookkeeping: the behavioural state and which
/// clip list index, if any, was last selected.
#[derive(Clone, Copy, Debug, Eq, PartialEq, Structural)]
pub struct PlayerState {
    pub state: PlayerStateEnum,
    pub animation: Option<usize>,
}

/// What the selector asks the playback layer to do.
#[derive(Clone, Copy, Debug, Eq, PartialEq, Structural)]
pub enum AnimationCommand {
    /// Play this clip directly, from its start.
    Play { clip: usize, repeat: bool },
    /// Crossfade toward this clip over `duration` ticks, then play it at
    /// `speed_milli` thousandths of ordinary speed.
    CrossFade { clip: usize, duration: u64, speed_milli: u64, repeat: bool },
}

/// Choose the player's animation for this tick.
///
/// An idle player settles on the idle clip: directly when nothing was
/// ever selected, by crossfade when another clip was showing.  A moving
/// player breaks into the run clip by crossfade whenever it is not the
/// one showing.  A player already showing the desired clip asks for
/// nothing.  The selection is recorded in `state.animation`.
pub fn player_animation_system(animations: &Animations, state: &mut PlayerState) -> (r: Option<
    AnimationCommand,
>)
    requires
        animations.0@.len() >= 2,
    ensures
        final(state).state == old(state).state,
        old(state).state == PlayerStateEnum::IDLE ==> ({
            if old(state).animation == Some(IDLE_CLIP_INDEX) {
                r is None && *final(state) == *old(state)
            } else if old(state).animation is None {
                &&& r == Some(
                    AnimationCommand::Play {
                        clip: animations.0@[IDLE_CLIP_INDEX as int],
                        repeat: true,
                    },
                )
                &&& final(state).animation == Some(IDLE_CLIP_INDEX)
            } else {
                &&& r == Some(
                    AnimationCommand::CrossFade {
                        clip: animations.0@[IDLE_CLIP_INDEX as int],
                        duration: IDLE_FADE_TICKS,
                        speed_milli: NORMAL_SPEED_MILLI,
                        repeat: true,
                    },
                )
                &&& final(state).animation == Some(IDLE_CLIP_INDEX)
            }
        }),
        old(state).state == PlayerStateEnum::MOVING ==> ({
            if old(state).animation == Some(RUN_CLIP_INDEX) {
                r is None && *final(state) == *old(state)
            } else {
                &&& r == Some(
                    AnimationCommand::CrossFade {
                        clip: animations.0@[RUN_CLIP_INDEX as int],
                        duration: RUN_FADE_TICKS,
                        speed_milli: RUN_SPEED_MILLI,
                        repeat: true,
                    },
                )
                &&& final(state).animation == Some(RUN_CLIP_INDEX)
            }
        }),
{
    match state.state {
        PlayerStateEnum::IDLE => {
            match state.animation {
                Some(current) => {
                    if current == IDLE_CLIP_INDEX {
                        None
                    } else {
                        state.animation = Some(IDLE_CLIP_INDEX);
                        Some(
                            AnimationCommand::CrossFade {
                                clip: animations.0[IDLE_CLIP_INDEX],
                                duration: IDLE_FADE_TICKS,
                                speed_milli: NORMAL_SPEED_MILLI,
                                repeat: true,
                            },
                        )
                    }
                },
                None => {
                    state.animation = Some(IDLE_CLIP_INDEX);
                    Some(
                        AnimationCommand::Play {
                            clip: animations.0[IDLE_CLIP_INDEX],
                            repeat: true,
                        },
                    )
                },
            }
        },
        PlayerStateEnum::MOVING => {
            let wants_run = match state.animation {
                Some(current) => current != RUN_CLIP_INDEX,
                None => true,
            };
            if wants_run {
                state.animation = Some(RUN_CLIP_INDEX);
                Some(
                    AnimationCommand::CrossFade {
                        clip: animations.0[RUN_CLIP_INDEX],
                        duration: RUN_FADE_TICKS,
                        speed_milli: RUN_SPEED_MILLI,
                        repeat: true,
                    },
                )
            } else {
                None
            }
        },
    }
}

} // verus!
