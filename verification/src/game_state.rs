//! The game as a whole: its entities, its phase and its scores, and the
//! tick that moves all of them on by one frame.

use vstd::prelude::*;
use crate::atlas::{Atlas, DrawCommand};
use crate::config::{FIRST_PIPE_X, GROUND_LEVEL, NUM_PIPES, RESTART_AFTER};
use crate::crab::{create_player, PlayerEntity, PlayerModel};
use crate::entity::{PipeEntity, PlayState};
use crate::noise::{is_function, oracle};
use crate::pipe::{create_pipes, lane, tracker_after_inits, PipeTracker, TrackerModel};
use crate::tile::{create_tiles, floor, TileEntity};

verus! {

/// What the host reports of one frame.
#[derive(Debug, PartialEq, Eq, Clone, Copy, Structural)]
pub struct Frame {
    /// The jump key is down.
    pub jump_pressed: bool,
    /// Nanoseconds that the frame took.
    pub delta: u64,
    /// Nanoseconds on the game's clock.
    pub now: u64,
}

/// The sounds that one tick asks for.
#[derive(Debug, PartialEq, Eq, Clone, Copy, Structural)]
pub struct Cues {
    /// A new game began.
    pub begin: bool,
    /// Number of points made.
    pub score: usize,
    /// The player died.
    pub ouch: bool,
}

/// The game: its entities, its phase and its scores.
pub struct GameState {
    pub tiles_drawn: bool,
    pub pipes: Vec<Box<PipeEntity>>,
    pub tiles: Vec<Box<TileEntity>>,
    pub player: Box<PlayerEntity>,
    /// The struct that moves the pipes around.
    pub pipe_tracker: PipeTracker,
    pub play_state: PlayState,
    pub atlas: Atlas,
    pub score: i128,
    pub best_score: i128,
}

/// What a game holds, as mathematics.
pub struct GameModel {
    pub tiles_drawn: bool,
    pub pipes: Seq<Box<PipeEntity>>,
    pub tiles: Seq<Box<TileEntity>>,
    pub player: PlayerModel,
    pub tracker: TrackerModel,
    pub play_state: PlayState,
    pub score: i128,
    pub best_score: i128,
}

impl View for GameState {
    type V = GameModel;

    open spec fn view(&self) -> GameModel {
        GameModel {
            tiles_drawn: self.tiles_drawn,
            pipes: self.pipes@,
            tiles: self.tiles@,
            player: self.player@,
            tracker: self.pipe_tracker@,
            play_state: self.play_state,
            score: self.score,
            best_score: self.best_score,
        }
    }
}

/// Pipes and tracker in the middle of a tick.
pub struct Scrolled {
    pub pipes: Seq<Box<PipeEntity>>,
    pub tracker: TrackerModel,
}

/// Pipes, phase and score in the middle of the checks of a tick.
pub struct Checked {
    pub pipes: Seq<Box<PipeEntity>>,
    pub play_state: PlayState,
    pub score: i128,
    /// Points made so far in this tick.
    pub scored: nat,
    /// The player died in this tick.
    pub ouch: bool,
}

/// The score one point higher; it stays where it cannot grow.
pub open spec fn bumped(score: i128) -> i128 {
    if score < i128::MAX {
        (score + 1) as i128
    } else {
        score
    }
}

/// The pipes and the tracker after the first `n` segments had their tick,
/// in order, each asking the tracker as the ones before left it.
pub open spec fn scrolled(
    pipes: Seq<Box<PipeEntity>>,
    tracker: TrackerModel,
    state: PlayState,
    noise: spec_fn(i64) -> i64,
    n: nat,
) -> Scrolled
    decreases n,
{
    if n == 0 {
        Scrolled { pipes, tracker }
    } else {
        let before = scrolled(pipes, tracker, state, noise, (n - 1) as nat);
        let pipe = *pipes[n - 1];
        Scrolled {
            pipes: before.pipes.update(
                n - 1,
                Box::new(pipe.after_update(before.tracker, state, noise)),
            ),
            tracker: pipe.tracker_after_update(before.tracker, state, noise),
        }
    }
}

/// The outcome of checking the first `n` segments, in order: each is asked
/// for its point first and tested against the player second. Where the
/// checks are `armed`, the player dies at the first segment at which it
/// touches that segment or the ground while the game is being played; no
/// segment gives a point after that. Checks that are not armed kill nobody.
pub open spec fn checked(
    pipes: Seq<Box<PipeEntity>>,
    player: PlayerModel,
    state: PlayState,
    score: i128,
    now: u64,
    armed: bool,
    n: nat,
) -> Checked
    decreases n,
{
    if n == 0 {
        Checked { pipes, play_state: state, score, scored: 0, ouch: false }
    } else {
        let before = checked(pipes, player, state, score, now, armed, (n - 1) as nat);
        let pipe = *pipes[n - 1];
        let scores = pipe.scores(before.play_state);
        let dies = armed && (player.hits(pipe) || player.grounded()) && before.play_state
            == PlayState::Play;
        Checked {
            pipes: before.pipes.update(n - 1, Box::new(pipe.after_scoring(before.play_state))),
            play_state: if dies {
                PlayState::Dead { time: now }
            } else {
                before.play_state
            },
            score: if scores {
                bumped(before.score)
            } else {
                before.score
            },
            scored: if scores {
                before.scored + 1
            } else {
                before.scored
            },
            ouch: before.ouch || dies,
        }
    }
}

/// The atlas holds every sprite that a game is built from.
pub open spec fn is_complete(atlas: &Atlas) -> bool {
    &&& atlas.lookup("pipe_bottom.png"@) is Some
    &&& atlas.lookup("pipe_top.png"@) is Some
    &&& atlas.lookup("crab0.png"@) is Some
    &&& atlas.lookup("crab1.png"@) is Some
    &&& atlas.lookup("floor_tile.png"@) is Some
}

/// The pipes of a new game.
pub open spec fn start_entities(
    atlas: &Atlas,
    tracker: TrackerModel,
    noise: spec_fn(i64) -> i64,
) -> Seq<Box<PipeEntity>> {
    lane(
        atlas.lookup("pipe_bottom.png"@).unwrap(),
        atlas.lookup("pipe_top.png"@).unwrap(),
        tracker,
        FIRST_PIPE_X,
        noise,
        NUM_PIPES as nat,
    )
}

/// A tracker that has placed nothing yet.
pub open spec fn new_tracker() -> TrackerModel {
    TrackerModel { seen: 1, window: Seq::empty(), time: 0 }
}

impl GameModel {
    /// The cooldown after the player's death is over.
    pub open spec fn restart_due(state: PlayState, now: u64) -> bool {
        state matches PlayState::Dead { time } && now >= time && now - time >= RESTART_AFTER
    }

    /// The best score, raised to the present score where that is higher.
    pub open spec fn promoted(self) -> GameModel {
        GameModel {
            best_score: if self.score > self.best_score {
                self.score
            } else {
                self.best_score
            },
            ..self
        }
    }

    /// The game started over: pipes, player and tracker are made anew, the
    /// best score takes the present score where that is higher, and the
    /// score is cleared. The floor stays.
    pub open spec fn restarted(self, atlas: &Atlas, noise: spec_fn(i64) -> i64) -> GameModel {
        GameModel {
            pipes: start_entities(atlas, new_tracker(), noise),
            player: PlayerModel::fresh(
                atlas.lookup("crab0.png"@).unwrap(),
                atlas.lookup("crab1.png"@).unwrap(),
            ),
            tracker: tracker_after_inits(new_tracker(), noise, NUM_PIPES as nat),
            play_state: PlayState::StartScreen,
            score: 0,
            ..self.promoted()
        }
    }

    /// A new game.
    pub open spec fn initial(atlas: &Atlas, noise: spec_fn(i64) -> i64) -> GameModel {
        GameModel {
            tiles_drawn: false,
            pipes: start_entities(atlas, new_tracker(), noise),
            tiles: floor(atlas.lookup("floor_tile.png"@).unwrap()),
            player: PlayerModel::fresh(
                atlas.lookup("crab0.png"@).unwrap(),
                atlas.lookup("crab1.png"@).unwrap(),
            ),
            tracker: tracker_after_inits(new_tracker(), noise, NUM_PIPES as nat),
            play_state: PlayState::StartScreen,
            score: 0,
            best_score: 0,
        }
    }

    /// The game after the first step of a tick: it starts over once the
    /// cooldown after a death is past.
    pub open spec fn after_losing(
        self,
        atlas: &Atlas,
        now: u64,
        state: PlayState,
        noise: spec_fn(i64) -> i64,
    ) -> GameModel {
        if Self::restart_due(state, now) {
            self.restarted(atlas, noise)
        } else {
            self
        }
    }

    /// The game after the player's step of a tick.
    pub open spec fn after_player(self, frame: Frame) -> GameModel {
        GameModel {
            player: self.player.after_update(frame.jump_pressed, frame.delta, self.play_state),
            play_state: self.player.state_after_update(frame.jump_pressed, self.play_state),
            ..self
        }
    }

    /// The game after the pipes' step of a tick.
    pub open spec fn after_scroll(self, noise: spec_fn(i64) -> i64) -> GameModel {
        let done = scrolled(self.pipes, self.tracker, self.play_state, noise, self.pipes.len());
        GameModel { pipes: done.pipes, tracker: done.tracker, ..self }
    }

    /// The outcome of a tick's checks for points and, where they are
    /// `armed`, for the player's death.
    pub open spec fn checks(self, now: u64, armed: bool) -> Checked {
        let done = checked(
            self.pipes,
            self.player,
            self.play_state,
            self.score,
            now,
            armed,
            self.pipes.len(),
        );
        if armed && done.play_state == PlayState::Play && self.player.grounded() {
            Checked { play_state: PlayState::Dead { time: now }, ouch: true, ..done }
        } else {
            done
        }
    }

    /// The game after the checks of a tick.
    pub open spec fn after_checks(self, now: u64, armed: bool) -> GameModel {
        let done = self.checks(now, armed);
        GameModel { pipes: done.pipes, play_state: done.play_state, score: done.score, ..self }
    }

    /// The game is being played when the player's step of this tick
    /// begins. Only then can the tick end the game: the tick that leaves
    /// the start screen kills nobody.
    pub open spec fn armed(self, atlas: &Atlas, frame: Frame, noise: spec_fn(i64) -> i64) -> bool {
        self.after_losing(atlas, frame.now, self.play_state, noise).play_state
            == PlayState::Play
    }

    /// The game just before the checks of a tick.
    pub open spec fn before_checks(
        self,
        atlas: &Atlas,
        frame: Frame,
        noise: spec_fn(i64) -> i64,
    ) -> GameModel {
        self.after_losing(atlas, frame.now, self.play_state, noise).after_player(
            frame,
        ).after_scroll(noise)
    }

    /// The game one tick on: a restart where it is due, the player's step,
    /// the pipes' step, and the checks, in this order. The checks are armed
    /// where the game was being played before the player's step.
    pub open spec fn after_tick(self, atlas: &Atlas, frame: Frame, noise: spec_fn(i64) -> i64)
        -> GameModel {
        self.before_checks(atlas, frame, noise).after_checks(
            frame.now,
            self.armed(atlas, frame, noise),
        )
    }

    /// The sounds of that tick.
    pub open spec fn cues(self, atlas: &Atlas, frame: Frame, noise: spec_fn(i64) -> i64) -> Cues {
        let done = self.before_checks(atlas, frame, noise).checks(
            frame.now,
            self.armed(atlas, frame, noise),
        );
        Cues {
            begin: Self::restart_due(self.play_state, frame.now),
            score: done.scored as usize,
            ouch: done.ouch,
        }
    }
}

impl GameState {
    /// The atlas is complete, and the tracker is sound and has placed a pipe.
    pub open spec fn wf(&self) -> bool {
        &&& is_complete(&self.atlas)
        &&& self.pipe_tracker.wf()
        &&& self@.tracker.window.len() > 0
    }

    /// Starts the game over once the cooldown after the player's death is
    /// past. `state` is the phase at the start of the tick. Tells whether
    /// the game started over.
    pub fn handle_after_losing<F: Fn(i64) -> i64>(&mut self, now: u64, state: PlayState, noise: &F)
        -> (restarted: bool)
        requires
            old(self).wf(),
            is_function(noise),
        ensures
            restarted == GameModel::restart_due(state, now),
            final(self)@ == old(self)@.after_losing(&old(self).atlas, now, state, oracle(noise)),
            final(self).atlas == old(self).atlas,
            final(self).wf(),
    {
        match state {
            PlayState::Dead { time } => {
                if now >= time && now - time >= RESTART_AFTER {
                    self.restart(noise);
                    true
                } else {
                    false
                }
            },
            _ => false,
        }
    }

    /// Creates a new game from the sprites of `atlas`.
    pub fn new<F: Fn(i64) -> i64>(atlas: Atlas, noise: &F) -> (game: Self)
        requires
            is_complete(&atlas),
            is_function(noise),
        ensures
            game@ == GameModel::initial(&atlas, oracle(noise)),
            game.atlas == atlas,
            game.wf(),
    {
        let mut pipe_tracker = PipeTracker::new();
        let pipes = GameState::create_start_entities(&atlas, &mut pipe_tracker, noise);
        let player = create_player(&atlas);
        let tiles = create_tiles(&atlas);
        GameState {
            tiles_drawn: false,
            pipes,
            player,
            tiles,
            pipe_tracker,
            play_state: PlayState::StartScreen,
            atlas,
            score: 0,
            best_score: 0,
        }
    }

    /// The pipes of a new game, placed by `pipe_tracker`.
    pub fn create_start_entities<F: Fn(i64) -> i64>(
        sprites: &Atlas,
        pipe_tracker: &mut PipeTracker,
        noise: &F,
    ) -> (pipes: Vec<Box<PipeEntity>>)
        requires
            sprites.lookup("pipe_bottom.png"@) is Some,
            sprites.lookup("pipe_top.png"@) is Some,
            old(pipe_tracker).wf(),
            is_function(noise),
        ensures
            pipes@ == start_entities(sprites, old(pipe_tracker)@, oracle(noise)),
            final(pipe_tracker)@ == tracker_after_inits(
                old(pipe_tracker)@,
                oracle(noise),
                NUM_PIPES as nat,
            ),
            final(pipe_tracker).wf(),
            final(pipe_tracker)@.window.len() > 0,
    {
        let pipes = create_pipes(
            sprites.create_sprite("pipe_bottom.png"),
            sprites.create_sprite("pipe_top.png"),
            pipe_tracker,
            FIRST_PIPE_X,
            noise,
        );
        pipes
    }

    /// Starts the game over: pipes, player and tracker are made anew, the
    /// best score takes the score where that is higher, and the score is
    /// cleared.
    pub fn restart<F: Fn(i64) -> i64>(&mut self, noise: &F)
        requires
            is_complete(&old(self).atlas),
            is_function(noise),
        ensures
            final(self)@ == old(self)@.restarted(&old(self).atlas, oracle(noise)),
            final(self).atlas == old(self).atlas,
            final(self).wf(),
    {
        let mut pt = PipeTracker::new();
        self.pipes = GameState::create_start_entities(&self.atlas, &mut pt, noise);
        self.player = create_player(&self.atlas);
        self.pipe_tracker = pt;
        self.play_state = PlayState::StartScreen;
        self.swap_scores();
        self.score = 0;
    }

    /// Raises the best score to the present score where that is higher.
    pub fn swap_scores(&mut self)
        ensures
            final(self)@ == old(self)@.promoted(),
            final(self).atlas == old(self).atlas,
            final(self).pipe_tracker == old(self).pipe_tracker,
    {
        if self.score > self.best_score {
            self.best_score = self.score;
        }
    }

    /// One tick of the game: a restart where it is due, the player's step,
    /// the pipes' step, and the checks for points and for the player's
    /// death. The tick that leaves the start screen ends in `Play`: only a
    /// game that was being played before the player's step can end in this
    /// tick.
    pub fn update<F: Fn(i64) -> i64>(&mut self, frame: &Frame, noise: &F) -> (cues: Cues)
        requires
            old(self).wf(),
            is_function(noise),
        ensures
            final(self)@ == old(self)@.after_tick(&old(self).atlas, *frame, oracle(noise)),
            cues == old(self)@.cues(&old(self).atlas, *frame, oracle(noise)),
            final(self).atlas == old(self).atlas,
            final(self).wf(),
            old(self).play_state == PlayState::StartScreen ==> {
                &&& !cues.ouch
                &&& final(self).play_state == (if old(self)@.player.jump_triggered(
                    frame.jump_pressed,
                    PlayState::StartScreen,
                ) {
                    PlayState::Play
                } else {
                    PlayState::StartScreen
                })
            },
            old(self).play_state == PlayState::Play ==> {
                &&& final(self).play_state == (if cues.ouch {
                    PlayState::Dead { time: frame.now }
                } else {
                    PlayState::Play
                })
            },
            old(self).play_state is Dead ==> {
                &&& !cues.ouch
                &&& !cues.begin ==> final(self).play_state == old(self).play_state
                &&& cues.begin ==> final(self).play_state == PlayState::StartScreen
                    || final(self).play_state == PlayState::Play
            },
    {
        let state = self.play_state;
        let begin = self.handle_after_losing(frame.now, state, noise);
        // A tick can end only a game that was being played when its
        // player's step began.
        let armed = self.play_state.is_playing();
        let state = self.player.update(frame.jump_pressed, frame.delta, &self.play_state);
        if !self.play_state.is_playing() && state == PlayState::Play {
            self.play_state = PlayState::Play;
        }
        let ghost before = self@;
        let mut i: usize = 0;
        while i < self.pipes.len()
            invariant
                i <= self.pipes.len(),
                is_function(noise),
                self.wf(),
                self.pipes@.len() == before.pipes.len(),
                forall|k: int| i <= k < self.pipes@.len() ==> self.pipes@[k] == before.pipes[k],
                self@ == (GameModel {
                    pipes: scrolled(
                        before.pipes,
                        before.tracker,
                        before.play_state,
                        oracle(noise),
                        i as nat,
                    ).pipes,
                    tracker: scrolled(
                        before.pipes,
                        before.tracker,
                        before.play_state,
                        oracle(noise),
                        i as nat,
                    ).tracker,
                    ..before
                }),
                self.atlas == old(self).atlas,
            decreases self.pipes.len() - i,
        {
            self.pipes[i].update(&mut self.pipe_tracker, &self.play_state, noise);
            i += 1;
        }
        let made = update_it(self, frame.now, armed);
        proof {
            lemma_phases(old(self)@, &old(self).atlas, *frame, oracle(noise));
        }
        Cues { begin, score: made.score, ouch: made.ouch }
    }

    /// The commands that draw the game: the player first, the floor
    /// second, the pipes last, each group in its own order.
    pub fn draw(&mut self) -> (commands: Vec<DrawCommand>)
        requires
            old(self)@.player.shown_frame() < old(self)@.player.frames.len(),
        ensures
            commands@ == old(self)@.commands(),
            final(self)@ == old(self)@,
            final(self).atlas == old(self).atlas,
    {
        let mut commands: Vec<DrawCommand> = Vec::new();
        commands.push(self.player.draw());
        if !self.tiles_drawn {
            let mut i: usize = 0;
            while i < self.tiles.len()
                invariant
                    i <= self.tiles.len(),
                    self@ == old(self)@,
                    self.atlas == old(self).atlas,
                    !self.tiles_drawn,
                    commands@.len() == 1 + i,
                    forall|k: int| 0 <= k < commands@.len() ==> commands@[k] == old(self)@.commands()[k],
                decreases self.tiles.len() - i,
            {
                commands.push(self.tiles[i].draw());
                assert(self.tiles@ =~= old(self).tiles@);
                i += 1;
            }
            self.tiles_drawn = false;
        }
        let ghost shown = commands@.len();
        let mut i: usize = 0;
        while i < self.pipes.len()
            invariant
                i <= self.pipes.len(),
                self@ == old(self)@,
                self.atlas == old(self).atlas,
                shown == 1 + old(self)@.shown_tiles().len(),
                commands@.len() == shown + i,
                forall|k: int| 0 <= k < commands@.len() ==> commands@[k] == old(self)@.commands()[k],
            decreases self.pipes.len() - i,
        {
            commands.push(self.pipes[i].draw());
            assert(self.pipes@ =~= old(self).pipes@);
            i += 1;
        }
        assert(commands@ =~= old(self)@.commands());
        commands
    }
}

impl GameModel {
    /// The floor tiles that are drawn.
    pub open spec fn shown_tiles(self) -> Seq<Box<TileEntity>> {
        if self.tiles_drawn {
            Seq::empty()
        } else {
            self.tiles
        }
    }

    /// The commands that draw the game.
    pub open spec fn commands(self) -> Seq<DrawCommand> {
        seq![self.player.command()] + Seq::new(
            self.shown_tiles().len(),
            |k: int| self.shown_tiles()[k].sprite.command_at(self.shown_tiles()[k].position),
        ) + Seq::new(
            self.pipes.len(),
            |k: int| self.pipes[k].sprite.command_at(self.pipes[k].position),
        )
    }
}

/// Asks every pipe segment for its point and, where `armed`, tests it
/// against the player, in order, and tests the player against the ground.
/// Counts the points onto the score and records the death with the time
/// `now`. A tick arms its checks where the game was being played before
/// the player moved.
pub fn update_it(game: &mut GameState, now: u64, armed: bool) -> (cues: Cues)
    ensures
        final(game)@ == old(game)@.after_checks(now, armed),
        cues == (Cues {
            begin: false,
            score: old(game)@.checks(now, armed).scored as usize,
            ouch: old(game)@.checks(now, armed).ouch,
        }),
        final(game).atlas == old(game).atlas,
        final(game).pipe_tracker == old(game).pipe_tracker,
        !armed || old(game).play_state != PlayState::Play ==> !cues.ouch
            && final(game).play_state == old(game).play_state,
        cues.ouch ==> final(game).play_state == (PlayState::Dead { time: now }),
{
    proof {
        lemma_only_collision_kills(game@, now, armed);
    }
    let ghost before = game@;
    let mut scored: usize = 0;
    let mut ouch = false;
    let mut i: usize = 0;
    while i < game.pipes.len()
        invariant
            i <= game.pipes.len(),
            game.pipes@.len() == before.pipes.len(),
            forall|k: int| i <= k < game.pipes@.len() ==> game.pipes@[k] == before.pipes[k],
            scored <= i,
            ({
                let done = checked(
                    before.pipes,
                    before.player,
                    before.play_state,
                    before.score,
                    now,
                    armed,
                    i as nat,
                );
                &&& game@ == (GameModel {
                    pipes: done.pipes,
                    play_state: done.play_state,
                    score: done.score,
                    ..before
                })
                &&& scored == done.scored
                &&& ouch == done.ouch
            }),
            game.atlas == old(game).atlas,
            game.pipe_tracker == old(game).pipe_tracker,
        decreases game.pipes.len() - i,
    {
        if game.pipes[i].set_scored(&game.play_state) {
            if game.score < i128::MAX {
                game.score += 1;
            }
            scored += 1;
        }
        // if crab hits a pipe or hits ground

        if armed && (game.player.overlaps(&game.pipes[i]) || hits_ground(&game.player))
            && game.play_state.is_playing() {
            ouch = true;
            game.play_state.set_dead(now);
        }
        i += 1;
    }
    if armed && hits_ground(&game.player) && game.play_state.is_playing() {
        ouch = true;
        game.play_state.set_dead(now);
    }
    Cues { begin: false, score: scored, ouch }
}

/// Whether the player has sunk below `GROUND_LEVEL`.
pub fn hits_ground(player: &Box<PlayerEntity>) -> (grounded: bool)
    ensures
        grounded == player@.grounded(),
{
    player.position.y > GROUND_LEVEL
}

/// The player touches one of the first `n` segments.
pub open spec fn touches_any(pipes: Seq<Box<PipeEntity>>, player: PlayerModel, n: nat) -> bool {
    exists|k: int| 0 <= k < n && #[trigger] player.hits(*pipes[k])
}

/// `score` raised by `points`, as far as it can grow.
pub open spec fn raised(score: i128, points: nat) -> i128 {
    if score + points > i128::MAX {
        i128::MAX
    } else {
        (score + points) as i128
    }
}

/// What the checks of the first `n` segments come to. The score grows by
/// the points made, one for each segment that gives one. The phase changes
/// only from `Play`, only where the checks are armed, and only to `Dead` at
/// the present time: it does so exactly when the player touches the ground
/// or one of the segments. Each segment checked is as asking it for its
/// point left it, in the phase in which its turn came; the others are
/// untouched.
pub proof fn lemma_checked_outcome(
    pipes: Seq<Box<PipeEntity>>,
    player: PlayerModel,
    state: PlayState,
    score: i128,
    now: u64,
    armed: bool,
    n: nat,
)
    requires
        n <= pipes.len(),
    ensures
        ({
            let done = checked(pipes, player, state, score, now, armed, n);
            &&& done.pipes.len() == pipes.len()
            &&& done.scored <= n
            &&& done.score == raised(score, done.scored)
            &&& forall|k: int| n <= k < pipes.len() ==> done.pipes[k] == pipes[k]
            &&& forall|k: int|
                0 <= k < n ==> *(#[trigger] done.pipes[k]) == pipes[k].after_scoring(
                    checked(pipes, player, state, score, now, armed, k as nat).play_state,
                )
            &&& state != PlayState::Play ==> {
                &&& done.play_state == state
                &&& done.scored == 0
                &&& !done.ouch
            }
            &&& state == PlayState::Play ==> {
                &&& done.ouch == (armed && (touches_any(pipes, player, n) || (n > 0
                    && player.grounded())))
                &&& done.play_state == (if done.ouch {
                    PlayState::Dead { time: now }
                } else {
                    PlayState::Play
                })
            }
        }),
    decreases n,
{
    if n > 0 {
        let m = (n - 1) as nat;
        lemma_checked_outcome(pipes, player, state, score, now, armed, m);
        let before = checked(pipes, player, state, score, now, armed, m);
        let done = checked(pipes, player, state, score, now, armed, n);
        if state == PlayState::Play {
            if touches_any(pipes, player, n) {
                let k = choose|k: int| 0 <= k < n && #[trigger] player.hits(*pipes[k]);
                if k < m {
                    assert(touches_any(pipes, player, m));
                }
            }
            if touches_any(pipes, player, m) {
                let k = choose|k: int| 0 <= k < m && #[trigger] player.hits(*pipes[k]);
                assert(0 <= k < n && player.hits(*pipes[k]));
            }
            if player.hits(*pipes[m as int]) {
                assert(touches_any(pipes, player, n));
            }
        }
        assert forall|k: int| 0 <= k < n implies *(#[trigger] done.pipes[k])
            == pipes[k].after_scoring(
            checked(pipes, player, state, score, now, armed, k as nat).play_state,
        ) by {
            if k < m {
                assert(done.pipes[k] == before.pipes[k]);
            }
        }
    }
}

/// The player's step takes the game from the start screen to `Play`, and
/// to nothing else: it does so exactly when a jump is triggered. It
/// changes no other phase.
pub proof fn lemma_player_starts_the_game(game: GameModel, frame: Frame)
    ensures
        game.after_player(frame).play_state == (if game.play_state == PlayState::StartScreen
            && game.player.jump_triggered(frame.jump_pressed, game.play_state) {
            PlayState::Play
        } else {
            game.play_state
        }),
{
}

/// The pipes' step changes no phase.
pub proof fn lemma_scroll_keeps_phase(game: GameModel, noise: spec_fn(i64) -> i64)
    ensures
        game.after_scroll(noise).play_state == game.play_state,
        game.after_scroll(noise).player == game.player,
        game.after_scroll(noise).score == game.score,
        game.after_scroll(noise).best_score == game.best_score,
{
}

/// The checks end a game that is being played, and do nothing else to the
/// phase: from `Play` the game goes to `Dead`, with the present time,
/// exactly when the checks are armed and the player touches the ground or
/// a pipe segment; the start screen and `Dead` stay as they are. Checks
/// that are not armed change no phase and report no death.
pub proof fn lemma_only_collision_kills(game: GameModel, now: u64, armed: bool)
    ensures
        game.play_state != PlayState::Play ==> game.after_checks(now, armed).play_state
            == game.play_state,
        game.play_state == PlayState::Play ==> game.after_checks(now, armed).play_state == (
        if armed && (game.player.grounded() || touches_any(
            game.pipes,
            game.player,
            game.pipes.len(),
        )) {
            PlayState::Dead { time: now }
        } else {
            PlayState::Play
        }),
        game.checks(now, armed).ouch == (armed && game.play_state == PlayState::Play && (
        game.player.grounded() || touches_any(game.pipes, game.player, game.pipes.len()))),
        !armed ==> game.after_checks(now, armed).play_state == game.play_state && !game.checks(
            now,
            armed,
        ).ouch,
{
    lemma_checked_outcome(
        game.pipes,
        game.player,
        game.play_state,
        game.score,
        now,
        armed,
        game.pipes.len(),
    );
}

/// Only the end of the cooldown leads from `Dead` to the start screen:
/// the first step of a tick changes the game exactly when the phase is
/// `Dead` and `RESTART_AFTER` nanoseconds have passed since the death. It
/// then clears the score and raises the best score to it.
pub proof fn lemma_restart_after_cooldown(
    game: GameModel,
    atlas: &Atlas,
    now: u64,
    noise: spec_fn(i64) -> i64,
)
    ensures
        ({
            let next = game.after_losing(atlas, now, game.play_state, noise);
            if game.play_state matches PlayState::Dead { time } && now - time >= RESTART_AFTER {
                &&& next.play_state == PlayState::StartScreen
                &&& next.score == 0
                &&& next.best_score == (if game.score > game.best_score {
                    game.score
                } else {
                    game.best_score
                })
                &&& next.best_score >= game.best_score
                &&& next.best_score >= game.score
                &&& next.tiles == game.tiles
            } else {
                next == game
            }
        }),
{
}

/// The phases of the game follow one another in a circle, tick by tick.
/// From the start screen a tick leads to `Play`, exactly where a jump is
/// triggered, and to nothing else: whatever the player touches, the tick
/// that begins the game does not end it. From `Play` a tick leads to
/// `Dead`, at the present time, exactly where the player, after all has
/// moved, touches the ground or a pipe segment. From `Dead` nothing
/// changes the phase until the cooldown is over; the tick that ends it is
/// a tick of the game started over, and so ends on the start screen or in
/// `Play`. A death is reported exactly by the ticks that lead from `Play`
/// to `Dead`.
pub proof fn lemma_phases(game: GameModel, atlas: &Atlas, frame: Frame, noise: spec_fn(i64) -> i64)
    ensures
        ({
            let next = game.after_tick(atlas, frame, noise).play_state;
            let ouch = game.cues(atlas, frame, noise).ouch;
            let ready = game.before_checks(atlas, frame, noise);
            let touching = ready.player.grounded() || touches_any(
                ready.pipes,
                ready.player,
                ready.pipes.len(),
            );
            match game.play_state {
                PlayState::StartScreen => {
                    &&& next == (if game.player.jump_triggered(
                        frame.jump_pressed,
                        game.play_state,
                    ) {
                        PlayState::Play
                    } else {
                        PlayState::StartScreen
                    })
                    &&& !ouch
                },
                PlayState::Play => {
                    &&& next == (if touching {
                        PlayState::Dead { time: frame.now }
                    } else {
                        PlayState::Play
                    })
                    &&& ouch == touching
                },
                PlayState::Dead { time } => {
                    &&& !ouch
                    &&& if GameModel::restart_due(game.play_state, frame.now) {
                        next == (if game.restarted(atlas, noise).player.jump_triggered(
                            frame.jump_pressed,
                            PlayState::StartScreen,
                        ) {
                            PlayState::Play
                        } else {
                            PlayState::StartScreen
                        })
                    } else {
                        next == game.play_state
                    }
                },
            }
        }),
{
    let ready = game.before_checks(atlas, frame, noise);
    lemma_only_collision_kills(ready, frame.now, game.armed(atlas, frame, noise));
}

/// The best score never falls, and the score grows by the points that the
/// tick reports, from nothing where the tick started the game over. This
/// is said of a game whose segments can be counted in a `usize`.
pub proof fn lemma_scores(game: GameModel, atlas: &Atlas, frame: Frame, noise: spec_fn(i64) -> i64)
    requires
        game.after_tick(atlas, frame, noise).pipes.len() <= usize::MAX,
    ensures
        game.after_tick(atlas, frame, noise).best_score >= game.best_score,
        game.after_tick(atlas, frame, noise).score == raised(
            if game.cues(atlas, frame, noise).begin {
                0
            } else {
                game.score
            },
            game.cues(atlas, frame, noise).score as nat,
        ),
        game.cues(atlas, frame, noise).score <= game.after_tick(atlas, frame, noise).pipes.len(),
{
    let ready = game.before_checks(atlas, frame, noise);
    lemma_checked_outcome(
        ready.pipes,
        ready.player,
        ready.play_state,
        ready.score,
        frame.now,
        game.armed(atlas, frame, noise),
        ready.pipes.len(),
    );
}

/// The checks give each point once: checked again at once, with nothing
/// moved in between, no segment gives a point, and nothing changes.
pub proof fn lemma_checks_settle(game: GameModel, now: u64, later: u64, armed: bool)
    ensures
        game.after_checks(now, armed).checks(later, armed).scored == 0,
        game.after_checks(now, armed).after_checks(later, armed).score == game.after_checks(
            now,
            armed,
        ).score,
        game.after_checks(now, armed).after_checks(later, armed).play_state
            == game.after_checks(now, armed).play_state,
{
    let n = game.pipes.len();
    let first = game.after_checks(now, armed);
    lemma_checked_outcome(game.pipes, game.player, game.play_state, game.score, now, armed, n);
    lemma_only_collision_kills(game, now, armed);
    lemma_settled(game, now, later, armed, n);
    lemma_checked_outcome(
        first.pipes,
        first.player,
        first.play_state,
        first.score,
        later,
        armed,
        n,
    );
    lemma_only_collision_kills(first, later, armed);
}

/// After the checks of a tick, checking the first `m` segments again
/// gives no point and changes no phase.
proof fn lemma_settled(game: GameModel, now: u64, later: u64, armed: bool, m: nat)
    requires
        m <= game.pipes.len(),
    ensures
        ({
            let first = game.after_checks(now, armed);
            let again = checked(
                first.pipes,
                first.player,
                first.play_state,
                first.score,
                later,
                armed,
                m,
            );
            &&& again.scored == 0
            &&& again.play_state == first.play_state
        }),
    decreases m,
{
    let n = game.pipes.len();
    let first = game.after_checks(now, armed);
    lemma_checked_outcome(game.pipes, game.player, game.play_state, game.score, now, armed, n);
    lemma_checked_outcome(
        first.pipes,
        first.player,
        first.play_state,
        first.score,
        later,
        armed,
        m,
    );
    if m > 0 {
        let k = (m - 1) as nat;
        lemma_settled(game, now, later, armed, k);
        lemma_checked_outcome(
            game.pipes,
            game.player,
            game.play_state,
            game.score,
            now,
            armed,
            k,
        );
        let turn = checked(game.pipes, game.player, game.play_state, game.score, now, armed, k);
        assert(*first.pipes[k as int] == game.pipes[k as int].after_scoring(turn.play_state));
        if first.play_state == PlayState::Play && armed {
            assert(!touches_any(game.pipes, game.player, n));
            if game.player.hits(*first.pipes[k as int]) {
                assert(game.player.hits(*game.pipes[k as int]));
                assert(touches_any(game.pipes, game.player, n));
            }
        }
    }
}

} // verus!
