//! Clip selection for the player's behavioural states.

use crossfade::player::{
    player_animation_system, AnimationCommand, Animations, PlayerState, PlayerStateEnum,
    IDLE_CLIP_INDEX, IDLE_FADE_TICKS, NORMAL_SPEED_MILLI, RUN_CLIP_INDEX, RUN_FADE_TICKS,
    RUN_SPEED_MILLI,
};

fn animations() -> Animations {
    // Clip store references for the idle and run animations.
    Animations(vec![40, 41])
}

#[test]
fn first_idle_selection_plays_directly() {
    let anims = animations();
    let mut state = PlayerState { state: PlayerStateEnum::IDLE, animation: None };
    let cmd = player_animation_system(&anims, &mut state);
    assert_eq!(cmd, Some(AnimationCommand::Play { clip: 40, repeat: true }));
    assert_eq!(state.animation, Some(IDLE_CLIP_INDEX));
}

#[test]
fn idle_while_already_idle_does_nothing() {
    let anims = animations();
    let mut state = PlayerState {
        state: PlayerStateEnum::IDLE,
        animation: Some(IDLE_CLIP_INDEX),
    };
    let cmd = player_animation_system(&anims, &mut state);
    assert_eq!(cmd, None);
    assert_eq!(state.animation, Some(IDLE_CLIP_INDEX));
}

#[test]
fn settling_from_run_to_idle_crossfades() {
    let anims = animations();
    let mut state = PlayerState {
        state: PlayerStateEnum::IDLE,
        animation: Some(RUN_CLIP_INDEX),
    };
    let cmd = player_animation_system(&anims, &mut state);
    assert_eq!(
        cmd,
        Some(AnimationCommand::CrossFade {
            clip: 40,
            duration: IDLE_FADE_TICKS,
            speed_milli: NORMAL_SPEED_MILLI,
            repeat: true,
        })
    );
    assert_eq!(state.animation, Some(IDLE_CLIP_INDEX));
}

#[test]
fn breaking_into_run_crossfades_fast() {
    let anims = animations();
    let mut state = PlayerState {
        state: PlayerStateEnum::MOVING,
        animation: Some(IDLE_CLIP_INDEX),
    };
    let cmd = player_animation_system(&anims, &mut state);
    assert_eq!(
        cmd,
        Some(AnimationCommand::CrossFade {
            clip: 41,
            duration: RUN_FADE_TICKS,
            speed_milli: RUN_SPEED_MILLI,
            repeat: true,
        })
    );
    assert_eq!(state.animation, Some(RUN_CLIP_INDEX));
}

#[test]
fn moving_while_already_running_does_nothing() {
    let anims = animations();
    let mut state = PlayerState {
        state: PlayerStateEnum::MOVING,
        animation: Some(RUN_CLIP_INDEX),
    };
    let cmd = player_animation_system(&anims, &mut state);
    assert_eq!(cmd, None);
}

#[test]
fn moving_with_no_selection_still_crossfades() {
    let anims = animations();
    let mut state = PlayerState { state: PlayerStateEnum::MOVING, animation: None };
    let cmd = player_animation_system(&anims, &mut state);
    assert!(matches!(cmd, Some(AnimationCommand::CrossFade { clip: 41, .. })));
    assert_eq!(state.animation, Some(RUN_CLIP_INDEX));
}
