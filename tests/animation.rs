use slime_dodge::animation::npc::{SlimeAnimation, SlimeSoundFrames};
use slime_dodge::animation::player::{PlayerAnimation, PlayerSoundFrames};
use slime_dodge::animation::{MovementAnimationState, IDLE_INTERVAL, WALKING_INTERVAL};

#[test]
fn new_animation_starts_idle() {
    let slime = SlimeAnimation::new();
    assert_eq!(slime.get_state(), MovementAnimationState::Idling);
    assert_eq!(slime.get_frame(), 0);
    assert_eq!(slime.get_atlas_index(), 0);
    assert!(!slime.changed());
}

#[test]
fn walking_cycles_through_its_frames() {
    let mut slime = SlimeAnimation::walking();
    assert_eq!(slime.get_atlas_index(), 1);
    let mut indices = Vec::new();
    for _ in 0..4 {
        slime.update_timer(WALKING_INTERVAL);
        assert!(slime.changed());
        indices.push(slime.get_atlas_index());
    }
    assert_eq!(indices, vec![2, 3, 1, 2]);
    slime.update_timer(WALKING_INTERVAL / 2);
    assert!(!slime.changed());
    assert_eq!(slime.get_frame(), 1);
}

#[test]
fn player_walks_eight_frames() {
    let mut player = PlayerAnimation::walking();
    for _ in 0..7 {
        player.update_timer(WALKING_INTERVAL);
    }
    assert_eq!(player.get_frame(), 7);
    assert_eq!(player.get_atlas_index(), 8);
    player.update_timer(WALKING_INTERVAL);
    assert_eq!(player.get_frame(), 0);
}

#[test]
fn idle_stays_on_single_frame() {
    let mut player = PlayerAnimation::idling();
    player.update_timer(IDLE_INTERVAL);
    assert!(player.changed());
    assert_eq!(player.get_frame(), 0);
    assert_eq!(player.get_atlas_index(), 0);
}

#[test]
fn state_change_restarts_cycle() {
    let mut slime = SlimeAnimation::walking();
    slime.update_timer(WALKING_INTERVAL);
    assert_eq!(slime.get_frame(), 1);
    slime.update_state(MovementAnimationState::Walking);
    assert_eq!(slime.get_frame(), 1);
    slime.update_state(MovementAnimationState::Idling);
    assert_eq!(slime.get_state(), MovementAnimationState::Idling);
    assert_eq!(slime.get_frame(), 0);
    assert!(!slime.changed());
}

#[test]
fn step_sound_on_listed_frames_while_walking() {
    let frames = SlimeSoundFrames::new();
    assert_eq!(frames.get_frames(), &vec![3]);
    let player_frames = PlayerSoundFrames::new();
    assert_eq!(player_frames.get_frames(), &vec![5, 9]);
    let mut player = PlayerAnimation::walking();
    let mut due = Vec::new();
    for _ in 0..8 {
        player.update_timer(WALKING_INTERVAL);
        due.push(player_frames.step_due(&player));
    }
    assert_eq!(due, vec![false, false, false, false, true, false, false, false]);
    let mut idle = PlayerAnimation::idling();
    idle.update_timer(IDLE_INTERVAL);
    assert!(!player_frames.step_due(&idle));
    let mut slime = SlimeAnimation::walking();
    slime.update_timer(WALKING_INTERVAL);
    slime.update_timer(WALKING_INTERVAL);
    assert!(!frames.step_due(&slime));
}
