use pixel_gardener::player::{
    character_animation, character_movement, player_texture_file, setup_player, AtlasSprite,
    LookingDirection, MoveKeys, PlayerAnimation, PlayerBundle, PlayerState, Speed,
    ANIMATION_INTERVAL_NS, IDLE_FRAME, PLAYER_SPEED, PLAYER_TEXTURE_COUNT, RUN_FIRST_FRAME,
    RUN_LAST_FRAME,
};
use pixel_gardener::position::Position;

const IDLE: PlayerState = PlayerState::Idle;
const RUNNING: PlayerState = PlayerState::Running;
const LEFT: LookingDirection = LookingDirection::Left;
const RIGHT: LookingDirection = LookingDirection::Right;

fn sheet() -> (PlayerAnimation, AtlasSprite) {
    (PlayerAnimation::new(0, 1, 6), AtlasSprite { index: 0, flip_x: false })
}

#[test]
fn a_new_animation_has_a_fresh_running_timer() {
    let animation = PlayerAnimation::new(3, 4, 9);
    assert_eq!(animation.idle_idx(), 3);
    assert_eq!(animation.run_first_idx(), 4);
    assert_eq!(animation.run_last_idx(), 9);
    assert_eq!(animation.elapsed_ns(), 0);
    assert!(!animation.paused());
    assert!(!animation.finished());
}

#[test]
fn idle_shows_the_idle_frame_and_holds_the_timer_wound_up() {
    let (mut animation, _) = sheet();
    let mut sprite = AtlasSprite { index: 4, flip_x: true };
    character_animation(16_000_000, &mut animation, &IDLE, &RIGHT, &mut sprite);
    assert_eq!(sprite, AtlasSprite { index: 0, flip_x: true });
    assert!(animation.paused());
    assert!(!animation.finished());
    assert_eq!(animation.elapsed_ns(), ANIMATION_INTERVAL_NS);
}

#[test]
fn idle_after_a_fired_tick_clears_the_timer() {
    let (mut animation, mut sprite) = sheet();
    character_animation(ANIMATION_INTERVAL_NS, &mut animation, &RUNNING, &RIGHT, &mut sprite);
    assert!(animation.finished());
    character_animation(1, &mut animation, &IDLE, &RIGHT, &mut sprite);
    assert!(!animation.finished());
    assert!(animation.paused());
    assert_eq!(animation.elapsed_ns(), ANIMATION_INTERVAL_NS);
}

#[test]
fn first_running_tick_after_idle_advances_exactly_once() {
    for delta_ns in [1, 16_000_000, ANIMATION_INTERVAL_NS - 1, ANIMATION_INTERVAL_NS] {
        let (mut animation, mut sprite) = sheet();
        character_animation(16_000_000, &mut animation, &IDLE, &RIGHT, &mut sprite);
        assert_eq!(sprite.index, 0);
        character_animation(delta_ns, &mut animation, &RUNNING, &RIGHT, &mut sprite);
        assert_eq!(sprite.index, 1);
        assert!(!animation.paused());
        assert!(animation.finished());
        assert_eq!(animation.elapsed_ns(), delta_ns % ANIMATION_INTERVAL_NS);
    }
}

#[test]
fn a_fresh_timer_fires_only_after_a_full_interval() {
    let (mut animation, mut sprite) = sheet();
    character_animation(ANIMATION_INTERVAL_NS - 1, &mut animation, &RUNNING, &RIGHT, &mut sprite);
    assert_eq!(sprite.index, 0);
    assert!(!animation.finished());
    assert_eq!(animation.elapsed_ns(), ANIMATION_INTERVAL_NS - 1);
    character_animation(1, &mut animation, &RUNNING, &RIGHT, &mut sprite);
    assert_eq!(sprite.index, 1);
    assert!(animation.finished());
    assert_eq!(animation.elapsed_ns(), 0);
}

#[test]
fn the_timer_keeps_what_is_left_over_after_firing() {
    let (mut animation, mut sprite) = sheet();
    character_animation(60_000_000, &mut animation, &RUNNING, &RIGHT, &mut sprite);
    assert_eq!(sprite.index, 0);
    character_animation(60_000_000, &mut animation, &RUNNING, &RIGHT, &mut sprite);
    assert_eq!(sprite.index, 1);
    assert_eq!(animation.elapsed_ns(), 20_000_000);
    character_animation(60_000_000, &mut animation, &RUNNING, &RIGHT, &mut sprite);
    assert_eq!(sprite.index, 1);
    assert!(!animation.finished());
    assert_eq!(animation.elapsed_ns(), 80_000_000);
    character_animation(60_000_000, &mut animation, &RUNNING, &RIGHT, &mut sprite);
    assert_eq!(sprite.index, 2);
    assert_eq!(animation.elapsed_ns(), 40_000_000);
}

#[test]
fn a_long_tick_still_advances_by_one_frame() {
    let (mut animation, mut sprite) = sheet();
    character_animation(350_000_000, &mut animation, &RUNNING, &RIGHT, &mut sprite);
    assert_eq!(sprite.index, 1);
    assert_eq!(animation.elapsed_ns(), 50_000_000);
}

#[test]
fn frames_cycle_through_the_run_frames() {
    let (mut animation, mut sprite) = sheet();
    character_animation(0, &mut animation, &IDLE, &RIGHT, &mut sprite);
    character_animation(ANIMATION_INTERVAL_NS, &mut animation, &RUNNING, &RIGHT, &mut sprite);
    assert_eq!(sprite.index, 1);
    for n in 1..=20usize {
        character_animation(ANIMATION_INTERVAL_NS, &mut animation, &RUNNING, &RIGHT, &mut sprite);
        assert_eq!(sprite.index, 1 + n % 6);
    }
}

#[test]
fn the_last_run_frame_wraps_to_the_first() {
    let (mut animation, _) = sheet();
    let mut sprite = AtlasSprite { index: 6, flip_x: false };
    character_animation(ANIMATION_INTERVAL_NS, &mut animation, &RUNNING, &RIGHT, &mut sprite);
    assert_eq!(sprite.index, 1);
}

#[test]
fn a_frame_beyond_the_cycle_moves_on_by_one() {
    let (mut animation, _) = sheet();
    let mut sprite = AtlasSprite { index: 9, flip_x: false };
    character_animation(ANIMATION_INTERVAL_NS, &mut animation, &RUNNING, &RIGHT, &mut sprite);
    assert_eq!(sprite.index, 10);
}

#[test]
fn an_idle_frame_inside_the_cycle_cuts_it_short() {
    let mut animation = PlayerAnimation::new(2, 1, 6);
    let mut sprite = AtlasSprite { index: 1, flip_x: false };
    character_animation(ANIMATION_INTERVAL_NS, &mut animation, &RUNNING, &RIGHT, &mut sprite);
    assert_eq!(sprite.index, 2);
    character_animation(ANIMATION_INTERVAL_NS, &mut animation, &RUNNING, &RIGHT, &mut sprite);
    assert_eq!(sprite.index, 1);
}

#[test]
fn running_mirrors_exactly_when_facing_left() {
    let (mut animation, mut sprite) = sheet();
    character_animation(1, &mut animation, &RUNNING, &LEFT, &mut sprite);
    assert!(sprite.flip_x);
    character_animation(1, &mut animation, &RUNNING, &RIGHT, &mut sprite);
    assert!(!sprite.flip_x);
}

#[test]
fn facing_set_while_idle_shows_once_running() {
    let mut player = PlayerBundle::new(0, PlayerAnimation::new(0, 1, 6));
    player.speed = Speed(0);
    let left = MoveKeys { up: false, down: false, left: true, right: false };
    character_movement(
        &mut player.sprite_bundle.transform,
        &player.speed,
        &mut player.state,
        &mut player.looking_direction,
        left,
        16_000_000,
    );
    assert_eq!(player.state, PlayerState::Idle);
    assert_eq!(player.looking_direction, LookingDirection::Left);
    character_animation(
        16_000_000,
        &mut player.animation,
        &player.state,
        &player.looking_direction,
        &mut player.sprite_bundle.sprite,
    );
    assert_eq!(player.sprite_bundle.sprite, AtlasSprite { index: 0, flip_x: false });
    assert_eq!(player.looking_direction, LookingDirection::Left);

    player.speed = Speed(100);
    let up = MoveKeys { up: true, down: false, left: false, right: false };
    character_movement(
        &mut player.sprite_bundle.transform,
        &player.speed,
        &mut player.state,
        &mut player.looking_direction,
        up,
        16_000_000,
    );
    assert_eq!(player.state, PlayerState::Running);
    assert_eq!(player.looking_direction, LookingDirection::Left);
    character_animation(
        16_000_000,
        &mut player.animation,
        &player.state,
        &player.looking_direction,
        &mut player.sprite_bundle.sprite,
    );
    assert_eq!(player.sprite_bundle.sprite, AtlasSprite { index: 1, flip_x: true });
    assert_eq!(player.sprite_bundle.transform, Position { x: 0, y: 1_600_000_000 });
}

#[test]
fn has_next_frame_fails_only_at_the_top_outside_the_cycle() {
    let animation = PlayerAnimation::new(0, 1, 6);
    assert!(animation.has_next_frame(0));
    assert!(animation.has_next_frame(6));
    assert!(animation.has_next_frame(usize::MAX - 1));
    assert!(!animation.has_next_frame(usize::MAX));
    let top = PlayerAnimation::new(usize::MAX, 1, 6);
    assert!(top.has_next_frame(usize::MAX));
    let last = PlayerAnimation::new(0, 1, usize::MAX);
    assert!(last.has_next_frame(usize::MAX));
}

#[test]
fn a_new_player_stands_in_the_middle_facing_right() {
    let player = PlayerBundle::new(1, PlayerAnimation::new(3, 4, 9));
    assert_eq!(player.name, "PlayerEntity");
    assert_eq!(player.state, PlayerState::Idle);
    assert_eq!(player.looking_direction, LookingDirection::Right);
    assert_eq!(player.speed, Speed(100));
    assert_eq!(player.sprite_bundle.texture, 1);
    assert_eq!(player.sprite_bundle.sprite, AtlasSprite { index: 3, flip_x: false });
    assert_eq!(player.sprite_bundle.transform, Position { x: 0, y: 0 });
    assert_eq!(player.animation.idle_idx(), 3);
    assert_eq!(player.animation.run_first_idx(), 4);
    assert_eq!(player.animation.run_last_idx(), 9);
}

#[test]
fn setup_player_picks_one_of_the_textures() {
    let mut seen = [false; PLAYER_TEXTURE_COUNT];
    for _ in 0..200 {
        let player = setup_player();
        assert!(player.sprite_bundle.texture < PLAYER_TEXTURE_COUNT);
        seen[player.sprite_bundle.texture] = true;
        assert_eq!(player.name, "PlayerEntity");
        assert_eq!(player.state, PlayerState::Idle);
        assert_eq!(player.looking_direction, LookingDirection::Right);
        assert_eq!(player.speed, Speed(PLAYER_SPEED));
        assert_eq!(player.sprite_bundle.sprite, AtlasSprite { index: IDLE_FRAME, flip_x: false });
        assert_eq!(player.sprite_bundle.transform, Position { x: 0, y: 0 });
        assert_eq!(player.animation.idle_idx(), IDLE_FRAME);
        assert_eq!(player.animation.run_first_idx(), RUN_FIRST_FRAME);
        assert_eq!(player.animation.run_last_idx(), RUN_LAST_FRAME);
        assert_eq!(player.animation.elapsed_ns(), 0);
        assert!(!player.animation.paused());
    }
    assert!(seen[0] && seen[1]);
}

#[test]
fn player_texture_files_are_the_two_sheets() {
    assert_eq!(player_texture_file(0), "characters/mani-idle-run.png");
    assert_eq!(player_texture_file(1), "characters/gabe-idle-run.png");
}

#[test]
fn the_sheet_constants_are_those_of_the_sprite_sheet() {
    assert_eq!(ANIMATION_INTERVAL_NS, 100_000_000);
    assert_eq!((IDLE_FRAME, RUN_FIRST_FRAME, RUN_LAST_FRAME), (0, 1, 6));
    assert_eq!(PLAYER_SPEED, 100);
}

#[test]
fn the_count_of_firings_is_kept_in_32_bits() {
    let (mut animation, mut sprite) = sheet();
    let delta_ns = ANIMATION_INTERVAL_NS * (1u64 << 32);
    character_animation(delta_ns, &mut animation, &RUNNING, &RIGHT, &mut sprite);
    assert!(animation.finished());
    assert_eq!(animation.elapsed_ns(), 0);
    assert_eq!(sprite.index, 0);
    character_animation(
        delta_ns + ANIMATION_INTERVAL_NS + 7,
        &mut animation,
        &RUNNING,
        &RIGHT,
        &mut sprite,
    );
    assert!(animation.finished());
    assert_eq!(animation.elapsed_ns(), 7);
    assert_eq!(sprite.index, 1);
}

#[test]
fn the_longest_tick_is_taken() {
    let (mut animation, mut sprite) = sheet();
    character_animation(0, &mut animation, &IDLE, &RIGHT, &mut sprite);
    character_animation(u64::MAX, &mut animation, &RUNNING, &LEFT, &mut sprite);
    assert!(animation.finished());
    assert_eq!(
        animation.elapsed_ns() as u128,
        (u64::MAX as u128 + ANIMATION_INTERVAL_NS as u128) % ANIMATION_INTERVAL_NS as u128
    );
    assert_eq!(sprite, AtlasSprite { index: 1, flip_x: true });
}
