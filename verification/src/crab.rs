//! The player: a crab under gravity that jumps when asked to.

use vstd::prelude::*;
use crate::atlas::{Atlas, DrawCommand, Sprite};
use crate::config::{
    AUTO_JUMP_LEVEL, GRAVITY, GROUND_LEVEL, JUMP_IMPULSE, PLAYER_START_X, SCREEN_TOP, TILT_ANGLE,
    TILT_SPEED,
};
use crate::entity::{PipeEntity, PlayState};
use crate::fixed::{
    clamp, clamped, floor_div, lemma_floor_div_exceeds, narrow, per_second, plus, saturate,
    scale_by_inverse, sum, NANOS_PER_SECOND, UNIT,
};
use crate::geometry::{Point2, Rect, Vector2};

verus! {

/// The physics on the entity.
#[derive(Debug, PartialEq, Eq, Clone, Copy, Structural)]
pub struct Physics {
    pub velocity: Vector2,
    pub acceleration: Vector2,
    pub gravity: bool,
}

/// The player.
pub struct PlayerEntity {
    pub sprite: Sprite,
    pub position: Point2,
    /// The frame shown while rising, and the frame shown otherwise.
    pub player_sprites: Vec<Sprite>,
    /// Cleared by a jump and set again once the jump key is let go, so that
    /// a key held down gives one jump.
    pub can_jump: bool,
    pub physics: Physics,
}

/// What a player holds, as mathematics.
pub struct PlayerModel {
    pub sprite: Sprite,
    pub position: Point2,
    pub frames: Seq<Sprite>,
    pub can_jump: bool,
    pub physics: Physics,
}

impl View for PlayerEntity {
    type V = PlayerModel;

    open spec fn view(&self) -> PlayerModel {
        PlayerModel {
            sprite: self.sprite,
            position: self.position,
            frames: self.player_sprites@,
            can_jump: self.can_jump,
            physics: self.physics,
        }
    }
}

/// `value`, held within the range from `old_min` to `old_max`, carried
/// linearly onto the range from `new_min` to `new_max`.
pub open spec fn rescaled(value: int, old_min: int, old_max: int, new_min: int, new_max: int)
    -> int {
    saturate(
        saturate(
            ((clamped(value, old_min, old_max) - old_min) * (new_max - new_min)) / (old_max
                - old_min),
        ) + new_min,
    )
}

/// Returns `value` scaled from [`old_min`, `old_max`] into the range
/// [`new_min`, `new_max`]. The width of either range has to fit into 64 bits.
pub fn rescale_range(value: i64, old_min: i64, old_max: i64, new_min: i64, new_max: i64) -> (r:
    i64)
    requires
        old_min < old_max,
        old_max - old_min <= i64::MAX,
        i64::MIN <= new_max - new_min <= i64::MAX,
    ensures
        r == rescaled(
            value as int,
            old_min as int,
            old_max as int,
            new_min as int,
            new_max as int,
        ),
{
    let old_range: i128 = old_max as i128 - old_min as i128;
    let new_range: i128 = new_max as i128 - new_min as i128;
    let along: i128 = clamp(value, old_min, old_max) as i128 - old_min as i128;
    assert(0 <= along <= old_range);
    assert(-0x4000_0000_0000_0000_0000_0000_0000_0000 <= along * new_range
        <= 0x4000_0000_0000_0000_0000_0000_0000_0000) by (nonlinear_arith)
        requires
            0 <= along <= 0x7fff_ffff_ffff_ffff,
            -0x8000_0000_0000_0000 <= new_range <= 0x7fff_ffff_ffff_ffff,
    ;
    let carried: i64 = narrow(floor_div(along * new_range, old_range));
    plus(carried, new_min)
}

impl Physics {
    /// The physics right after a jump was triggered: whatever the entity
    /// was doing, it now rises at `JUMP_IMPULSE`.
    pub open spec fn jumped(self) -> Physics {
        Physics {
            acceleration: Vector2 { x: 0, y: (-GRAVITY) as i64 },
            velocity: Vector2 { x: 0, y: (-JUMP_IMPULSE) as i64 },
            gravity: self.gravity,
        }
    }

    /// The physics with its acceleration set anew from gravity alone.
    pub open spec fn rested(self) -> Physics {
        Physics {
            acceleration: Vector2 { x: 0, y: if self.gravity { GRAVITY } else { 0 } },
            velocity: self.velocity,
            gravity: self.gravity,
        }
    }

    /// The physics after a frame of `delta_ns > 0` nanoseconds: the
    /// acceleration is multiplied by the inverse of the frame time and
    /// added to the velocity, and the velocity is multiplied by the inverse
    /// of the frame time in turn.
    pub open spec fn integrated(self, delta_ns: u64) -> Physics {
        let ax = per_second(self.acceleration.x as int, delta_ns as int);
        let ay = per_second(self.acceleration.y as int, delta_ns as int);
        Physics {
            acceleration: Vector2 { x: ax as i64, y: ay as i64 },
            velocity: Vector2 {
                x: per_second(sum(self.velocity.x as int, ax), delta_ns as int) as i64,
                y: per_second(sum(self.velocity.y as int, ay), delta_ns as int) as i64,
            },
            gravity: self.gravity,
        }
    }

    /// The physics after a frame of `delta_ns > 0` nanoseconds in which
    /// nothing makes the entity jump.
    pub open spec fn fallen(self, delta_ns: u64) -> Physics {
        self.rested().integrated(delta_ns)
    }

    /// Gravity speeds this entity up over a frame of `delta_ns`
    /// nanoseconds: its vertical velocity is not yet at the end of the
    /// range, and what the frame makes of it lies above it.
    pub open spec fn gains_speed(self, delta_ns: u64) -> bool {
        &&& self.velocity.y < i64::MAX
        &&& sum(self.velocity.y as int, per_second(GRAVITY as int, delta_ns as int))
            * NANOS_PER_SECOND >= (self.velocity.y + 1) * delta_ns
    }

    /// The physics of an entity at rest.
    pub fn new(with_gravity: bool) -> (physics: Self)
        ensures
            physics == (Physics {
                velocity: Vector2 { x: 0, y: 0 },
                acceleration: Vector2 { x: 0, y: 0 },
                gravity: with_gravity,
            }),
    {
        Physics {
            velocity: Vector2::new(0, 0),
            acceleration: Vector2::new(0, 0),
            gravity: with_gravity,
        }
    }
}

/// Under gravity and without a jump, a frame raises the downward velocity
/// exactly where `gains_speed` holds. Elsewhere the two divisions by the
/// frame time outweigh gravity: a player that rises fast in a short frame
/// rises faster after it, and one that falls fast in a long frame falls
/// slower.
pub proof fn lemma_gravity_gain(physics: Physics, delta_ns: u64)
    requires
        physics.gravity,
        delta_ns > 0,
    ensures
        physics.fallen(delta_ns).velocity.y > physics.velocity.y <==> physics.gains_speed(delta_ns),
{
    let v = physics.velocity.y as int;
    let d = delta_ns as int;
    let a = per_second(GRAVITY as int, d);
    let s = sum(v, a);
    lemma_floor_div_exceeds(s * NANOS_PER_SECOND, d, v);
    assert(physics.rested().acceleration.y == GRAVITY);
    assert(physics.fallen(delta_ns).velocity.y == per_second(s, d));
}

/// In a frame of at most one second, gravity speeds up every player that
/// stands still or falls, short of the end of the range.
pub proof fn lemma_gravity_speeds_fall(physics: Physics, delta_ns: u64)
    requires
        physics.gravity,
        0 < delta_ns <= NANOS_PER_SECOND,
        0 <= physics.velocity.y < i64::MAX,
    ensures
        physics.fallen(delta_ns).velocity.y > physics.velocity.y,
{
    let v = physics.velocity.y as int;
    let d = delta_ns as int;
    let n = NANOS_PER_SECOND as int;
    lemma_floor_div_exceeds(GRAVITY * n, d, 0);
    assert(GRAVITY * n >= 1 * d);
    let a = per_second(GRAVITY as int, d);
    assert(a >= 1);
    let s = sum(v, a);
    assert(s >= v + 1);
    assert(s * n >= (v + 1) * d) by (nonlinear_arith)
        requires
            s >= v + 1,
            v >= 0,
            0 < d <= n,
    ;
    lemma_gravity_gain(physics, delta_ns);
}

/// In a frame of exactly one second the integrator adds `GRAVITY` to the
/// downward velocity, whatever the velocity, up to the end of the range.
pub proof fn lemma_gravity_at_unit_frame(physics: Physics)
    requires
        physics.gravity,
    ensures
        physics.fallen(NANOS_PER_SECOND as u64).velocity.y == sum(
            physics.velocity.y as int,
            GRAVITY as int,
        ),
        physics.velocity.y < i64::MAX ==> physics.fallen(NANOS_PER_SECOND as u64).velocity.y
            > physics.velocity.y,
{
    let n = NANOS_PER_SECOND as int;
    let v = physics.velocity.y as int;
    assert((GRAVITY * n) / n == GRAVITY) by (nonlinear_arith)
        requires
            n > 0,
    ;
    let s = sum(v, GRAVITY as int);
    assert((s * n) / n == s) by (nonlinear_arith)
        requires
            n > 0,
    ;
}

/// A tick in which nothing makes the player jump leaves its physics as
/// gravity and the frame alone make them.
pub proof fn lemma_tick_without_jump(
    player: PlayerModel,
    jump_pressed: bool,
    delta_ns: u64,
    state: PlayState,
)
    requires
        delta_ns > 0,
        !player.jump_triggered(jump_pressed, state),
        !player.jumps_unasked(jump_pressed, state),
    ensures
        player.after_update(jump_pressed, delta_ns, state).physics == player.physics.fallen(
            delta_ns,
        ),
{
}

/// The player of a new game, cut from the atlas.
pub fn create_player(sprites: &Atlas) -> (player: Box<PlayerEntity>)
    requires
        sprites.lookup("crab0.png"@) is Some,
        sprites.lookup("crab1.png"@) is Some,
    ensures
        player@ == PlayerModel::fresh(
            sprites.lookup("crab0.png"@).unwrap(),
            sprites.lookup("crab1.png"@).unwrap(),
        ),
{
    let crab0 = sprites.create_sprite("crab0.png");
    let sprite = crab0;
    let crab1 = sprites.create_sprite("crab1.png");
    let player_sprites = vec![crab0, crab1];
    let player = PlayerEntity::new(sprite, (PLAYER_START_X, SCREEN_TOP), player_sprites);
    Box::new(player)
}

impl PlayerModel {
    /// A player as `PlayerEntity::new` makes it: at rest, under gravity,
    /// free to jump.
    pub open spec fn created(sprite: Sprite, position: (i64, i64), frames: Seq<Sprite>)
        -> PlayerModel {
        PlayerModel {
            sprite,
            position: Point2 { x: position.0, y: position.1 },
            frames,
            can_jump: true,
            physics: Physics {
                velocity: Vector2 { x: 0, y: 0 },
                acceleration: Vector2 { x: 0, y: 0 },
                gravity: true,
            },
        }
    }

    /// The player of a new game, with `rising` and `falling` as its two frames.
    pub open spec fn fresh(rising: Sprite, falling: Sprite) -> PlayerModel {
        Self::created(rising, (PLAYER_START_X, SCREEN_TOP), seq![rising, falling])
    }

    /// The player has hit the ground.
    pub open spec fn grounded(self) -> bool {
        self.position.y > GROUND_LEVEL
    }

    /// The rectangle that the player covers.
    pub open spec fn bounds(self) -> Rect {
        self.sprite.bound_box().moved_to(self.position)
    }

    /// The player touches the pipe segment.
    pub open spec fn hits(self, other: PipeEntity) -> bool {
        other.rect().overlaps_spec(self.bounds())
    }

    /// This frame's input makes the player jump: the game is not over, the
    /// jump key is down, and it was let go since the last jump.
    pub open spec fn jump_triggered(self, jump_pressed: bool, state: PlayState) -> bool {
        !(state is Dead) && jump_pressed && self.can_jump
    }

    /// The state of the game after the player's tick: the first jump on the
    /// start screen begins the game; nothing else changes the state here.
    pub open spec fn state_after_update(self, jump_pressed: bool, state: PlayState) -> PlayState {
        if self.jump_triggered(jump_pressed, state) && state == PlayState::StartScreen {
            PlayState::Play
        } else {
            state
        }
    }

    /// On the start screen the player jumps by itself once it has sunk
    /// below `AUTO_JUMP_LEVEL`.
    pub open spec fn jumps_unasked(self, jump_pressed: bool, state: PlayState) -> bool {
        self.state_after_update(jump_pressed, state) == PlayState::StartScreen && self.position.y
            > AUTO_JUMP_LEVEL
    }

    /// The player's physics after this frame's input was handled and before
    /// the frame is integrated. In a frame that takes no time gravity is
    /// left as it was.
    pub open spec fn physics_after_input(self, jump_pressed: bool, delta_ns: u64, state: PlayState)
        -> Physics {
        let rested = if delta_ns > 0 {
            self.physics.rested()
        } else {
            self.physics
        };
        if self.jump_triggered(jump_pressed, state) || self.jumps_unasked(jump_pressed, state) {
            rested.jumped()
        } else {
            rested
        }
    }

    /// Whether the player may jump after this frame: while the game is not
    /// over, exactly when the jump key is up.
    pub open spec fn can_jump_after(self, jump_pressed: bool, state: PlayState) -> bool {
        if state is Dead {
            self.can_jump
        } else {
            !jump_pressed
        }
    }

    /// The player moved by its velocity over a frame of `delta_ns`
    /// nanoseconds. A frame that takes no time moves nothing.
    pub open spec fn moved(self, delta_ns: u64) -> PlayerModel {
        if delta_ns > 0 {
            let physics = self.physics.integrated(delta_ns);
            PlayerModel {
                physics,
                position: Point2 {
                    x: sum(self.position.x as int, physics.velocity.x as int) as i64,
                    y: sum(self.position.y as int, physics.velocity.y as int) as i64,
                },
                ..self
            }
        } else {
            self
        }
    }

    /// The player kept from rising above `SCREEN_TOP`.
    pub open spec fn kept_on_screen(self) -> PlayerModel {
        PlayerModel {
            position: Point2 {
                x: self.position.x,
                y: if self.position.y < SCREEN_TOP {
                    SCREEN_TOP
                } else {
                    self.position.y
                },
            },
            ..self
        }
    }

    /// The player after one tick.
    pub open spec fn after_update(self, jump_pressed: bool, delta_ns: u64, state: PlayState)
        -> PlayerModel {
        (PlayerModel {
            physics: self.physics_after_input(jump_pressed, delta_ns, state),
            can_jump: self.can_jump_after(jump_pressed, state),
            ..self
        }).moved(delta_ns).kept_on_screen()
    }

    /// The turn of the player's sprite: it follows the vertical speed, up
    /// to `TILT_ANGLE` either way.
    pub open spec fn tilt(self) -> int {
        rescaled(
            self.physics.velocity.y as int,
            -TILT_SPEED,
            TILT_SPEED as int,
            -TILT_ANGLE,
            TILT_ANGLE as int,
        )
    }

    /// The frame in which the player is shown: the second while it falls or
    /// rests, the first while it rises.
    pub open spec fn shown_frame(self) -> int {
        if self.physics.velocity.y >= 0 {
            1
        } else {
            0
        }
    }

    /// The command that draws the player.
    pub open spec fn command(self) -> DrawCommand {
        DrawCommand {
            offset: Point2 { x: (UNIT / 2) as i64, y: (UNIT / 2) as i64 },
            rotation: self.tilt() as i64,
            ..self.frames[self.shown_frame()].command_at(self.position)
        }
    }

}

impl PlayerEntity {
    /// One tick of the player, for a frame of `delta_ns` nanoseconds in
    /// which the jump key is down or not. Returns the state of the game
    /// after it.
    pub fn update(&mut self, jump_pressed: bool, delta_ns: u64, state: &PlayState) -> (next:
        PlayState)
        ensures
            final(self)@ == old(self)@.after_update(jump_pressed, delta_ns, *state),
            next == old(self)@.state_after_update(jump_pressed, *state),
    {
        if delta_ns > 0 {
            self.physics.acceleration = if self.physics.gravity {
                Vector2::new(0, GRAVITY)
            } else {
                Vector2::new(0, 0)
            };
        }
        let mut state = *state;
        if state.is_not_dead() {
            if !jump_pressed && !self.can_jump {
                self.can_jump = true;
            }
            if jump_pressed && self.can_jump {
                PlayerEntity::jump(&mut self.physics);
                self.can_jump = false;
                // exit start screen state.
                if state == PlayState::StartScreen {
                    state = PlayState::Play;
                }
            }
        }
        // Self jumping script on the start screen.

        if state == PlayState::StartScreen {
            self.auto_jump()
        }
        self.change_player_position(delta_ns);
        // Crab should not go above the top of the screen easily.
        self.prevent_going_off();
        state
    }

    /// Integrates a frame of `delta_ns` nanoseconds into the player's
    /// velocity and position.
    pub fn change_player_position(&mut self, delta_ns: u64)
        ensures
            final(self)@ == old(self)@.moved(delta_ns),
    {
        if delta_ns == 0 {
            return ;
        }
        self.physics.acceleration.x = scale_by_inverse(self.physics.acceleration.x, delta_ns);
        self.physics.acceleration.y = scale_by_inverse(self.physics.acceleration.y, delta_ns);
        self.physics.velocity.x = plus(self.physics.velocity.x, self.physics.acceleration.x);
        self.physics.velocity.y = plus(self.physics.velocity.y, self.physics.acceleration.y);
        self.physics.velocity.x = scale_by_inverse(self.physics.velocity.x, delta_ns);
        self.physics.velocity.y = scale_by_inverse(self.physics.velocity.y, delta_ns);
        // moves all the entities on the board.
        self.position.x = plus(self.position.x, self.physics.velocity.x);
        self.position.y = plus(self.position.y, self.physics.velocity.y);
    }

    /// A player at rest at `position`, under gravity and free to jump.
    pub fn new(sprite: Sprite, position: (i64, i64), player_sprites: Vec<Sprite>) -> (player: Self)
        ensures
            player@ == PlayerModel::created(sprite, position, player_sprites@),
            player.player_sprites == player_sprites,
    {
        PlayerEntity {
            sprite,
            position: Point2::new(position.0, position.1),
            physics: Physics::new(true),
            can_jump: true,
            player_sprites,
        }
    }

    /// Whether the player touches the pipe segment.
    pub fn overlaps(&self, other: &PipeEntity) -> (hit: bool)
        ensures
            hit == self@.hits(*other),
    {
        let player_rect = self.get_bounds();
        let other_rect = other.get_rect();
        other_rect.overlaps(&player_rect)
    }

    /// The rectangle that the player covers.
    pub fn get_bounds(&self) -> (rect: Rect)
        ensures
            rect == self@.bounds(),
    {
        let mut rect = self.sprite.get_bound_box();
        rect.move_to(self.position);
        rect
    }

    /// Keeps the player from rising above `SCREEN_TOP`.
    pub fn prevent_going_off(&mut self)
        ensures
            final(self)@ == old(self)@.kept_on_screen(),
    {
        self.position.y = if self.position.y < SCREEN_TOP {
            SCREEN_TOP
        } else {
            self.position.y
        }
    }

    /// Makes the player jump once it has sunk below `AUTO_JUMP_LEVEL`.
    pub fn auto_jump(&mut self)
        ensures
            final(self)@ == (PlayerModel {
                physics: if old(self).position.y > AUTO_JUMP_LEVEL {
                    old(self).physics.jumped()
                } else {
                    old(self).physics
                },
                ..old(self)@
            }),
    {
        if self.position.y > AUTO_JUMP_LEVEL {
            PlayerEntity::jump(&mut self.physics);
        }
    }

    /// The command that draws the player: the frame that fits its
    /// direction, turned about its middle by its speed.
    pub fn draw(&mut self) -> (command: DrawCommand)
        requires
            old(self)@.shown_frame() < old(self)@.frames.len(),
        ensures
            command == old(self)@.command(),
            final(self)@ == old(self)@,
    {
        self.draw_player()
    }

    fn draw_player(&self) -> (command: DrawCommand)
        requires
            self@.shown_frame() < self@.frames.len(),
        ensures
            command == self@.command(),
    {
        // The turn follows the vertical speed.
        let angle: i64 = rescale_range(
            self.physics.velocity.y,
            -TILT_SPEED,
            TILT_SPEED,
            -TILT_ANGLE,
            TILT_ANGLE,
        );
        let frame: &Sprite = if self.physics.velocity.y >= 0 {
            &self.player_sprites[1]
        } else {
            &self.player_sprites[0]
        };
        let upright = frame.draw_params(self.position);
        DrawCommand {
            src: upright.src,
            dest: upright.dest,
            scale: upright.scale,
            offset: Point2::new(UNIT / 2, UNIT / 2),
            rotation: angle,
        }
    }

    /// Triggers a jump: whatever the entity was doing, it now rises at
    /// `JUMP_IMPULSE` against an acceleration of `-GRAVITY`.
    pub fn jump(physics: &mut Physics)
        ensures
            *final(physics) == old(physics).jumped(),
            final(physics).velocity.y == -JUMP_IMPULSE,
            final(physics).acceleration.y == -GRAVITY,
    {
        physics.acceleration = Vector2::new(0, -GRAVITY);
        physics.velocity = Vector2::new(0, -JUMP_IMPULSE);
    }
}

} // verus!
