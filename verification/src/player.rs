//! The player: movement, motion state, facing and the sprite animation.

use crate::chance::random_index;
use crate::countdown::{
    fresh_timer, ticked, timer_elapsed_ns, timer_finished, timer_just_finished, timer_new,
    timer_pause, timer_paused, timer_reset, timer_set_elapsed, timer_state, timer_tick,
    timer_unpause, TimerState,
};
use crate::position::Position;
use bevy::time::Timer;
use vstd::arithmetic::div_mod::{
    lemma_fundamental_div_mod, lemma_fundamental_div_mod_converse_mod, lemma_mod_bound,
    lemma_small_mod,
};
use vstd::prelude::*;

verus! {

/// Time between two frames of the run cycle, in nanoseconds.
pub const ANIMATION_INTERVAL_NS: u64 = 100_000_000;

/// A diagonal step is this many ten-thousandths of a straight one on each
/// axis, close to one over the square root of two.
pub const DIAGONAL_TEN_THOUSANDTHS: u128 = 7_071;

/// How many player textures there are to choose from.
pub const PLAYER_TEXTURE_COUNT: usize = 2;

/// The speed a new player has, in world units per second.
pub const PLAYER_SPEED: u32 = 100;

/// The frame shown while the player stands.
pub const IDLE_FRAME: usize = 0;

/// The first frame of the run cycle.
pub const RUN_FIRST_FRAME: usize = 1;

/// The last frame of the run cycle.
pub const RUN_LAST_FRAME: usize = 6;

/// The shared ledger, in hundredths of a currency unit. It may be negative.
#[derive(Clone, Copy, Debug, PartialEq, Eq, Structural)]
pub struct Money(pub i64);

/// Marks the player among the entities.
#[derive(Clone, Copy, Debug, PartialEq, Eq, Structural)]
pub struct PlayerMarker;

/// Movement speed in world units per second.
#[derive(Clone, Copy, Debug, PartialEq, Eq, Structural)]
pub struct Speed(pub u32);

/// The side the player faces.
#[derive(Clone, Copy, Debug, PartialEq, Eq, Structural)]
pub enum LookingDirection {
    Right,
    Left,
}

/// Whether the player stands or moves.
#[derive(Clone, Copy, Debug, PartialEq, Eq, Structural)]
pub enum PlayerState {
    Idle,
    Running,
}

/// The four movement keys, each as held or not during this tick.
#[derive(Clone, Copy, Debug, PartialEq, Eq, Structural)]
pub struct MoveKeys {
    pub up: bool,
    pub down: bool,
    pub left: bool,
    pub right: bool,
}

/// What is drawn for the player: a frame of the sprite sheet, mirrored or not.
#[derive(Clone, Copy, Debug, PartialEq, Eq, Structural)]
pub struct AtlasSprite {
    pub index: usize,
    pub flip_x: bool,
}

/// The player's sprite sheet: which texture, which frame of it, and where.
#[derive(Clone, Copy, Debug, PartialEq, Eq, Structural)]
pub struct SpriteSheet {
    pub texture: usize,
    pub sprite: AtlasSprite,
    pub transform: Position,
}

/// The frames of the player's sprite sheet and the timer that paces them.
pub struct PlayerAnimation {
    idle_idx: usize,
    run_first_idx: usize,
    run_last_idx: usize,
    timer: Timer,
}

/// A `PlayerAnimation` as contracts see it.
pub struct AnimationView {
    pub idle_idx: usize,
    pub run_first_idx: usize,
    pub run_last_idx: usize,
    pub timer: TimerState,
}

impl View for PlayerAnimation {
    type V = AnimationView;

    closed spec fn view(&self) -> AnimationView {
        AnimationView {
            idle_idx: self.idle_idx,
            run_first_idx: self.run_first_idx,
            run_last_idx: self.run_last_idx,
            timer: timer_state(self.timer),
        }
    }
}

/// Everything the player consists of.
pub struct PlayerBundle {
    pub marker: PlayerMarker,
    pub state: PlayerState,
    pub looking_direction: LookingDirection,
    pub speed: Speed,
    pub sprite_bundle: SpriteSheet,
    pub animation: PlayerAnimation,
    /// The name under which the player is listed.
    pub name: &'static str,
}

// ---------------------------------------------------------------------------
// Movement
// ---------------------------------------------------------------------------

/// How far the player gets along one axis in one tick: speed times time, in
/// position steps.
pub open spec fn movement_amount(speed: Speed, delta_ns: u64) -> int {
    speed.0 * delta_ns
}

/// What one pair of opposing keys contributes to its axis: the full amount
/// towards the one key that is held alone, nothing when both or neither are.
pub open spec fn axis_contribution(negative: bool, positive: bool, amount: int) -> int {
    if negative && !positive {
        -amount
    } else if positive && !negative {
        amount
    } else {
        0
    }
}

/// A contribution scaled for a diagonal step, rounded towards zero.
pub open spec fn diagonal_scaled(contribution: int) -> int {
    if contribution >= 0 {
        contribution * DIAGONAL_TEN_THOUSANDTHS / 10_000
    } else {
        -((-contribution) * DIAGONAL_TEN_THOUSANDTHS / 10_000)
    }
}

/// The step along x and along y that the held keys give for `amount`. Where
/// both axes contribute, both are scaled so that the diagonal is no faster.
pub open spec fn displacement(keys: MoveKeys, amount: int) -> (int, int) {
    let h = axis_contribution(keys.left, keys.right, amount);
    let v = axis_contribution(keys.down, keys.up, amount);
    if h != 0 && v != 0 {
        (diagonal_scaled(h), diagonal_scaled(v))
    } else {
        (h, v)
    }
}

/// Idle exactly when the step is zero along both axes.
pub open spec fn motion_state(step: (int, int)) -> PlayerState {
    if step.0 == 0 && step.1 == 0 {
        PlayerState::Idle
    } else {
        PlayerState::Running
    }
}

/// The facing after a tick: towards the one horizontal key that is held
/// alone, unchanged when both or neither are.
pub open spec fn turned(facing: LookingDirection, keys: MoveKeys) -> LookingDirection {
    if keys.left && !keys.right {
        LookingDirection::Left
    } else if keys.right && !keys.left {
        LookingDirection::Right
    } else {
        facing
    }
}

/// Scales one axis of a diagonal step, rounding towards zero.
fn scale_diagonal(contribution: i128) -> (scaled: i128)
    requires
        -0x1_0000_0000_0000_0000_0000_0000 < contribution < 0x1_0000_0000_0000_0000_0000_0000,
    ensures
        scaled == diagonal_scaled(contribution as int),
{
    if contribution >= 0 {
        let magnitude: u128 = contribution as u128;
        (magnitude * DIAGONAL_TEN_THOUSANDTHS / 10_000) as i128
    } else {
        let magnitude: u128 = (-contribution) as u128;
        -((magnitude * DIAGONAL_TEN_THOUSANDTHS / 10_000) as i128)
    }
}

/// One tick of movement: turns the player towards the horizontal key held
/// alone, moves the position by what the held keys give for the speed and the
/// time passed, and says whether the player runs or stands.
pub fn character_movement(
    transform: &mut Position,
    player_speed: &Speed,
    state: &mut PlayerState,
    looking_dir: &mut LookingDirection,
    keys: MoveKeys,
    delta_ns: u64,
)
    ensures
        *final(looking_dir) == turned(*old(looking_dir), keys),
        ({
            let step = displacement(keys, movement_amount(*player_speed, delta_ns));
            &&& *final(transform) == old(transform).shifted(step.0, step.1)
            &&& *final(state) == motion_state(step)
        }),
{
    assert(player_speed.0 * delta_ns < 0x1_0000_0000_0000_0000_0000_0000) by (nonlinear_arith)
        requires
            player_speed.0 < 0x1_0000_0000,
            delta_ns < 0x1_0000_0000_0000_0000,
    ;
    let amount: i128 = (player_speed.0 as i128) * (delta_ns as i128);

    let mut v_speed: i128 = if keys.down && !keys.up {
        -amount
    } else if keys.up && !keys.down {
        amount
    } else {
        0
    };
    let mut h_speed: i128 = if keys.left && !keys.right {
        *looking_dir = LookingDirection::Left;
        -amount
    } else if keys.right && !keys.left {
        *looking_dir = LookingDirection::Right;
        amount
    } else {
        0
    };

    if v_speed != 0 && h_speed != 0 {
        v_speed = scale_diagonal(v_speed);
        h_speed = scale_diagonal(h_speed);
    }
    if v_speed == 0 && h_speed == 0 {
        *state = PlayerState::Idle;
    } else {
        *state = PlayerState::Running;
    }

    transform.shift(h_speed, v_speed);
}

// ---------------------------------------------------------------------------
// Animation
// ---------------------------------------------------------------------------

impl AnimationView {
    /// The frame timer repeats every `ANIMATION_INTERVAL_NS` and has counted
    /// no more than one interval.
    pub open spec fn wf(self) -> bool {
        &&& self.timer.repeating
        &&& self.timer.duration == ANIMATION_INTERVAL_NS
        &&& self.timer.elapsed <= ANIMATION_INTERVAL_NS
    }

    /// The frame that follows `frame` when the timer fires: from the idle
    /// frame and from the last frame of the run cycle back to its first
    /// frame, from any other frame on to the next.
    pub open spec fn next_frame(self, frame: int) -> int {
        if frame == self.idle_idx || frame == self.run_last_idx {
            self.run_first_idx as int
        } else {
            frame + 1
        }
    }

    /// Whether the frame after `frame` is one that a `usize` holds.
    pub open spec fn has_next_frame(self, frame: usize) -> bool {
        self.next_frame(frame as int) <= usize::MAX
    }

    /// The frame reached from `frame` after the timer fired `fired` times.
    pub open spec fn frame_after(self, frame: int, fired: nat) -> int
        decreases fired,
    {
        if fired == 0 {
            frame
        } else {
            self.next_frame(self.frame_after(frame, (fired - 1) as nat))
        }
    }
}

/// The frame timer while the player stands: paused, and wound up to one full
/// interval, so that it fires on the first tick of the next run.
pub open spec fn held_timer(timer: TimerState) -> TimerState {
    TimerState {
        elapsed: ANIMATION_INTERVAL_NS as nat,
        paused: true,
        finished: false,
        times_finished: 0,
        ..timer
    }
}

/// The frame timer after a tick of `delta_ns` while the player runs.
pub open spec fn running_timer(timer: TimerState, delta_ns: u64) -> TimerState {
    ticked(TimerState { paused: false, ..timer }, delta_ns as nat)
}

/// One tick of the animation. Standing shows the idle frame, leaves the
/// mirroring alone and holds the timer. Running lets the timer count, moves
/// on by one frame if it fired, and mirrors the sprite exactly when the
/// player faces left.
pub open spec fn animation_step(
    animation: AnimationView,
    state: PlayerState,
    facing: LookingDirection,
    sprite: AtlasSprite,
    delta_ns: u64,
) -> (AnimationView, AtlasSprite) {
    match state {
        PlayerState::Idle => (
            AnimationView { timer: held_timer(animation.timer), ..animation },
            AtlasSprite { index: animation.idle_idx, flip_x: sprite.flip_x },
        ),
        PlayerState::Running => {
            let timer = running_timer(animation.timer, delta_ns);
            (
                AnimationView { timer, ..animation },
                AtlasSprite {
                    index: if timer.times_finished > 0 {
                        animation.next_frame(sprite.index as int) as usize
                    } else {
                        sprite.index
                    },
                    flip_x: facing == LookingDirection::Left,
                },
            )
        },
    }
}

impl PlayerAnimation {
    #[verifier::type_invariant]
    spec fn inv(self) -> bool {
        self@.wf()
    }

    /// An animation over the given frames, with a fresh frame timer.
    pub fn new(idle_idx: usize, run_first_idx: usize, run_last_idx: usize) -> (animation:
        PlayerAnimation)
        ensures
            animation@ == (AnimationView {
                idle_idx,
                run_first_idx,
                run_last_idx,
                timer: fresh_timer(ANIMATION_INTERVAL_NS as nat, true),
            }),
    {
        PlayerAnimation {
            idle_idx,
            run_first_idx,
            run_last_idx,
            timer: timer_new(ANIMATION_INTERVAL_NS, true),
        }
    }

    /// The frame shown while the player stands.
    pub fn idle_idx(&self) -> (frame: usize)
        ensures
            frame == self@.idle_idx,
    {
        self.idle_idx
    }

    /// The first frame of the run cycle.
    pub fn run_first_idx(&self) -> (frame: usize)
        ensures
            frame == self@.run_first_idx,
    {
        self.run_first_idx
    }

    /// The last frame of the run cycle.
    pub fn run_last_idx(&self) -> (frame: usize)
        ensures
            frame == self@.run_last_idx,
    {
        self.run_last_idx
    }

    /// Whether the frame after `frame` is one that a `usize` holds.
    pub fn has_next_frame(&self, frame: usize) -> (has: bool)
        ensures
            has == self@.has_next_frame(frame),
    {
        frame == self.idle_idx || frame == self.run_last_idx || frame < usize::MAX
    }

    /// Whether the frame timer is held.
    pub fn paused(&self) -> (paused: bool)
        ensures
            paused == self@.timer.paused,
    {
        timer_paused(&self.timer)
    }

    /// Whether the frame timer fired on the last tick.
    pub fn finished(&self) -> (finished: bool)
        ensures
            finished == self@.timer.finished,
    {
        timer_finished(&self.timer)
    }

    /// The time that the frame timer has counted, in nanoseconds.
    pub fn elapsed_ns(&self) -> (elapsed_ns: u64)
        ensures
            elapsed_ns == self@.timer.elapsed,
            elapsed_ns <= ANIMATION_INTERVAL_NS,
    {
        proof {
            use_type_invariant(self);
        }
        timer_elapsed_ns(&self.timer)
    }
}

impl Default for LookingDirection {
    /// A player looks right until it turns.
    fn default() -> (facing: LookingDirection)
        ensures
            facing == LookingDirection::Right,
    {
        LookingDirection::Right
    }
}

impl Default for PlayerState {
    /// A player stands until it moves.
    fn default() -> (state: PlayerState)
        ensures
            state == PlayerState::Idle,
    {
        PlayerState::Idle
    }
}

/// One tick of the player's animation, `delta_ns` after the last one.
///
/// Where the tick moves the sprite on by a frame, the next frame must be one
/// that a `usize` holds.
pub fn character_animation(
    delta_ns: u64,
    animation: &mut PlayerAnimation,
    state: &PlayerState,
    looking_dir: &LookingDirection,
    sprite: &mut AtlasSprite,
)
    requires
        *state == PlayerState::Running && running_timer(
            old(animation)@.timer,
            delta_ns,
        ).times_finished > 0 ==> old(animation)@.has_next_frame(old(sprite).index),
    ensures
        (final(animation)@, *final(sprite)) == animation_step(
            old(animation)@,
            *state,
            *looking_dir,
            *old(sprite),
            delta_ns,
        ),
        final(animation)@.wf(),
{
    proof {
        use_type_invariant(&*animation);
    }
    match state {
        PlayerState::Idle => {
            timer_pause(&mut animation.timer);
            timer_reset(&mut animation.timer);
            timer_set_elapsed(&mut animation.timer, ANIMATION_INTERVAL_NS);
            sprite.index = animation.idle_idx;
        },
        PlayerState::Running => {
            timer_unpause(&mut animation.timer);
            timer_tick(&mut animation.timer, delta_ns);
            if timer_just_finished(&animation.timer) {
                if sprite.index == animation.idle_idx || sprite.index == animation.run_last_idx {
                    sprite.index = animation.run_first_idx;
                } else {
                    sprite.index += 1;
                };
            }
            match looking_dir {
                LookingDirection::Right => sprite.flip_x = false,
                LookingDirection::Left => sprite.flip_x = true,
            };
        },
    };
}

// ---------------------------------------------------------------------------
// Setting up
// ---------------------------------------------------------------------------

/// The files that hold the player's textures.
pub open spec fn player_texture_files() -> Seq<Seq<char>> {
    seq!["characters/mani-idle-run.png"@, "characters/gabe-idle-run.png"@]
}

/// The file that holds the player texture of the given index.
pub fn player_texture_file(index: usize) -> (file: &'static str)
    requires
        index < PLAYER_TEXTURE_COUNT,
    ensures
        file@ == player_texture_files()[index as int],
{
    if index == 0 {
        "characters/mani-idle-run.png"
    } else {
        "characters/gabe-idle-run.png"
    }
}

/// The animation of a new player: the frames of its sprite sheet and a fresh
/// frame timer.
pub open spec fn starting_animation() -> AnimationView {
    AnimationView {
        idle_idx: IDLE_FRAME,
        run_first_idx: RUN_FIRST_FRAME,
        run_last_idx: RUN_LAST_FRAME,
        timer: fresh_timer(ANIMATION_INTERVAL_NS as nat, true),
    }
}

impl PlayerBundle {
    /// A player as it is made: standing in the middle of the world, facing
    /// right, at the starting speed, showing the idle frame of the given
    /// texture unmirrored, with the given animation.
    pub open spec fn is_new(self, texture: usize, animation: AnimationView) -> bool {
        &&& self.state == PlayerState::Idle
        &&& self.looking_direction == LookingDirection::Right
        &&& self.speed == Speed(PLAYER_SPEED)
        &&& self.sprite_bundle == (SpriteSheet {
            texture,
            sprite: AtlasSprite { index: animation.idle_idx, flip_x: false },
            transform: Position { x: 0, y: 0 },
        })
        &&& self.animation@ == animation
        &&& self.name@ == "PlayerEntity"@
    }

    /// A new player with the given texture and animation.
    pub fn new(texture: usize, player_animation: PlayerAnimation) -> (player: PlayerBundle)
        ensures
            player.is_new(texture, player_animation@),
            player.animation == player_animation,
    {
        PlayerBundle {
            marker: PlayerMarker,
            state: PlayerState::Idle,
            looking_direction: LookingDirection::Right,
            speed: Speed(PLAYER_SPEED),
            sprite_bundle: SpriteSheet {
                texture,
                sprite: AtlasSprite { index: player_animation.idle_idx, flip_x: false },
                transform: Position::origin(),
            },
            animation: player_animation,
            name: "PlayerEntity",
        }
    }
}

/// Makes the player: one of the player textures, chosen at random, and the
/// starting animation.
pub fn setup_player() -> (player: PlayerBundle)
    ensures
        player.sprite_bundle.texture < PLAYER_TEXTURE_COUNT,
        player.is_new(player.sprite_bundle.texture, starting_animation()),
{
    let texture_index: usize = random_index(PLAYER_TEXTURE_COUNT);
    let player_animation = PlayerAnimation::new(IDLE_FRAME, RUN_FIRST_FRAME, RUN_LAST_FRAME);
    PlayerBundle::new(texture_index, player_animation)
}

// ---------------------------------------------------------------------------
// What holds of movement and animation
// ---------------------------------------------------------------------------

/// A key held alone moves its axis by speed times time, towards that key:
/// the negative key by minus that amount, the positive key by plus that
/// amount. Both keys of a pair held, or neither, contribute nothing.
pub proof fn lone_key_moves_by_speed_times_time(
    negative: bool,
    positive: bool,
    speed: Speed,
    delta_ns: u64,
)
    ensures
        negative && !positive ==> axis_contribution(
            negative,
            positive,
            movement_amount(speed, delta_ns),
        ) == -(speed.0 * delta_ns),
        positive && !negative ==> axis_contribution(
            negative,
            positive,
            movement_amount(speed, delta_ns),
        ) == speed.0 * delta_ns,
        negative == positive ==> axis_contribution(
            negative,
            positive,
            movement_amount(speed, delta_ns),
        ) == 0,
{
}

/// Along a single axis the step is the axis contribution itself: nothing is
/// scaled unless both axes contribute.
pub proof fn straight_step_is_full(keys: MoveKeys, amount: int)
    requires
        keys.left == keys.right || keys.up == keys.down,
    ensures
        displacement(keys, amount) == (
            axis_contribution(keys.left, keys.right, amount),
            axis_contribution(keys.down, keys.up, amount),
        ),
{
}

/// On a diagonal both axes move by the same scaled magnitude, and the length
/// of the step stays that of a straight one up to rounding: its square is
/// never above the square of the amount, and short of it by no more than a
/// fifty-thousandth of that square and three times the amount.
pub proof fn diagonal_step_keeps_speed(keys: MoveKeys, amount: int)
    requires
        amount > 0,
        keys.left != keys.right,
        keys.up != keys.down,
    ensures
        ({
            let (dx, dy) = displacement(keys, amount);
            &&& dx == if keys.right { amount * 7_071 / 10_000 } else { -(amount * 7_071 / 10_000) }
            &&& dy == if keys.up { amount * 7_071 / 10_000 } else { -(amount * 7_071 / 10_000) }
            &&& dx * dx + dy * dy <= amount * amount
            &&& 50_000 * (amount * amount - (dx * dx + dy * dy)) <= amount * amount + 150_000
                * amount
        }),
{
    let d = amount * 7_071 / 10_000;
    let (dx, dy) = displacement(keys, amount);
    assert(dx == d || dx == -d);
    assert(dy == d || dy == -d);
    assert(dx * dx == d * d) by (nonlinear_arith)
        requires
            dx == d || dx == -d,
    ;
    assert(dy * dy == d * d) by (nonlinear_arith)
        requires
            dy == d || dy == -d,
    ;
    assert(0 <= 10_000 * d <= 7_071 * amount && 7_071 * amount - 10_000 * d < 10_000);
    assert(2 * (d * d) <= amount * amount) by (nonlinear_arith)
        requires
            0 <= 10_000 * d <= 7_071 * amount,
            amount > 0,
    ;
    assert(50_000 * (amount * amount - 2 * (d * d)) <= amount * amount + 150_000 * amount)
        by (nonlinear_arith)
        requires
            0 <= 10_000 * d,
            7_071 * amount - 10_000 * d < 10_000,
            amount > 0,
    ;
}

/// The player stands exactly when the step is zero along both axes, and runs
/// otherwise.
pub proof fn idle_iff_no_step(keys: MoveKeys, amount: int)
    ensures
        motion_state(displacement(keys, amount)) == PlayerState::Idle <==> displacement(
            keys,
            amount,
        ).0 == 0 && displacement(keys, amount).1 == 0,
        motion_state(displacement(keys, amount)) == PlayerState::Running <==> !(displacement(
            keys,
            amount,
        ).0 == 0 && displacement(keys, amount).1 == 0),
{
}

/// Without a key held alone on either axis the player stands where it was.
pub proof fn no_input_is_idle(keys: MoveKeys, amount: int)
    requires
        keys.left == keys.right,
        keys.up == keys.down,
    ensures
        displacement(keys, amount) == (0int, 0int),
        motion_state(displacement(keys, amount)) == PlayerState::Idle,
{
}

/// After a tick of standing, the first tick of running moves the sprite on by
/// exactly one frame, to the first frame of the run cycle, however short the
/// tick is, up to one full interval.
pub proof fn first_running_tick_advances_frame(
    animation: AnimationView,
    facing_idle: LookingDirection,
    facing_running: LookingDirection,
    sprite: AtlasSprite,
    delta_idle_ns: u64,
    delta_ns: u64,
)
    requires
        animation.wf(),
        delta_ns <= ANIMATION_INTERVAL_NS,
    ensures
        ({
            let (stood, shown) = animation_step(
                animation,
                PlayerState::Idle,
                facing_idle,
                sprite,
                delta_idle_ns,
            );
            let (ran, moved) = animation_step(
                stood,
                PlayerState::Running,
                facing_running,
                shown,
                delta_ns,
            );
            &&& shown.index == animation.idle_idx
            &&& ran.timer.times_finished > 0
            &&& moved.index == animation.next_frame(animation.idle_idx as int)
            &&& moved.index == animation.run_first_idx
        }),
{
    let total = ANIMATION_INTERVAL_NS + delta_ns;
    assert(total / (ANIMATION_INTERVAL_NS as int) == 1 || total / (ANIMATION_INTERVAL_NS as int)
        == 2);
}

/// Starting at the first frame of the run cycle, after the timer fired `n`
/// times the sprite shows the frame `n` steps on in the cycle. This needs the
/// idle frame to lie outside the cycle, or to be its last frame.
pub proof fn run_cycle_frame(animation: AnimationView, n: nat)
    requires
        animation.run_first_idx <= animation.run_last_idx,
        !(animation.run_first_idx <= animation.idle_idx < animation.run_last_idx),
    ensures
        animation.frame_after(animation.run_first_idx as int, n) == animation.run_first_idx + n
            % ((animation.run_last_idx - animation.run_first_idx + 1) as nat),
    decreases n,
{
    let first = animation.run_first_idx as int;
    let len = animation.run_last_idx - animation.run_first_idx + 1;
    if n > 0 {
        let m = n - 1;
        run_cycle_frame(animation, m as nat);
        let q = m / len;
        let r = m % len;
        lemma_fundamental_div_mod(m, len);
        lemma_mod_bound(m, len);
        assert(animation.frame_after(first, m as nat) == first + r);
        if r == len - 1 {
            assert(n == (q + 1) * len + 0) by (nonlinear_arith)
                requires
                    n == m + 1,
                    m == len * q + r,
                    r == len - 1,
            ;
            lemma_fundamental_div_mod_converse_mod(n as int, len, q + 1, 0);
        } else {
            assert(n == q * len + (r + 1)) by (nonlinear_arith)
                requires
                    n == m + 1,
                    m == len * q + r,
            ;
            lemma_fundamental_div_mod_converse_mod(n as int, len, q, r + 1);
        }
        assert(animation.frame_after(first, n) == animation.next_frame(first + r));
    } else {
        lemma_small_mod(0, len as nat);
    }
}

/// Standing never changes the mirroring; running mirrors the sprite exactly
/// when the player faces left.
pub proof fn mirroring_follows_facing_only_while_running(
    animation: AnimationView,
    facing: LookingDirection,
    sprite: AtlasSprite,
    delta_ns: u64,
)
    ensures
        animation_step(animation, PlayerState::Idle, facing, sprite, delta_ns).1.flip_x
            == sprite.flip_x,
        animation_step(animation, PlayerState::Running, facing, sprite, delta_ns).1.flip_x == (
        facing == LookingDirection::Left),
{
}

/// With the animation run after the movement of the same tick, the sprite is
/// mirrored by the facing that the movement left, and only if that movement
/// left the player running: a turn made while standing shows on the first
/// tick of running, not before.
pub proof fn turn_shows_once_running(
    keys: MoveKeys,
    amount: int,
    facing: LookingDirection,
    animation: AnimationView,
    sprite: AtlasSprite,
    delta_ns: u64,
)
    ensures
        ({
            let state = motion_state(displacement(keys, amount));
            let shown = animation_step(animation, state, turned(facing, keys), sprite, delta_ns).1;
            &&& state == PlayerState::Idle ==> shown.flip_x == sprite.flip_x
            &&& state == PlayerState::Running ==> shown.flip_x == (turned(facing, keys)
                == LookingDirection::Left)
        }),
{
}

} // verus!
