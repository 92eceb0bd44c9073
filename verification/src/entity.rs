//! The phases of the game and the pipe segments that scroll through it.

use vstd::prelude::*;
use crate::atlas::{DrawCommand, Sprite};
use crate::config::{PIPE_SPEED, SCORE_LINE};
use crate::fixed::{in_sight, plus, sum};
use crate::geometry::{Point2, Rect};
use crate::noise::{is_function, oracle};
use crate::pipe::{PipeTracker, TrackerModel};

verus! {

/// The current state of the game.
#[derive(Debug, PartialEq, Eq, Clone, Copy, Structural)]
pub enum PlayState {
    StartScreen,
    Play,
    /// The player died when the game's clock stood at `time` nanoseconds.
    Dead { time: u64 },
}

/// How far an entity jumps to the right once it has left the screen on the left.
#[derive(Debug, PartialEq, Eq, Clone, Copy, Structural)]
pub struct Scroll {
    pub jump_distance: i64,
}

/// Whether a pipe can still give its point on this pass.
#[derive(Debug, PartialEq, Eq, Clone, Copy, Structural)]
pub enum ScoringPipe {
    /// This segment never gives a point.
    Dormant,
    ReadyToScore,
    /// The point of this pass has been given.
    Scored,
}

/// One segment of a pipe.
#[derive(Debug, PartialEq, Eq, Clone, Copy, Structural)]
pub struct PipeEntity {
    pub sprite: Sprite,
    pub position: Point2,
    pub scroller: Scroll,
    pub scoring_pipe: ScoringPipe,
}

impl PlayState {
    /// Whether the game is being played.
    pub fn is_playing(&self) -> (playing: bool)
        ensures
            playing == (*self == PlayState::Play),
    {
        *self == PlayState::Play
    }

    /// Ends the game, at `time` nanoseconds on the game's clock.
    pub fn set_dead(&mut self, time: u64)
        ensures
            *final(self) == (PlayState::Dead { time }),
    {
        *self = PlayState::Dead { time }
    }

    /// Whether the player is alive: on the start screen and in play.
    pub fn is_not_dead(&self) -> (alive: bool)
        ensures
            alive == !(*self is Dead),
    {
        *self == PlayState::Play || *self == PlayState::StartScreen
    }
}

impl PipeEntity {
    /// The rectangle that the segment covers.
    pub open spec fn rect(self) -> Rect {
        self.sprite.bound_box().moved_to(self.position)
    }

    /// The segment has left the screen on the left: its right edge is left
    /// of the origin.
    pub open spec fn off_screen(self) -> bool {
        self.sprite.width + self.position.x < 0
    }

    /// The segment one tick further to the left.
    pub open spec fn shifted(self) -> PipeEntity {
        PipeEntity {
            position: Point2 {
                x: sum(self.position.x as int, -PIPE_SPEED) as i64,
                y: self.position.y,
            },
            ..self
        }
    }

    /// The scoring state with which the segment starts its next pass.
    pub open spec fn rearmed(self) -> ScoringPipe {
        if self.scoring_pipe == ScoringPipe::Scored {
            ScoringPipe::ReadyToScore
        } else {
            self.scoring_pipe
        }
    }

    /// The segment put back at the right end of the lane, `moved` lower than before.
    pub open spec fn recycled(self, moved: i64) -> PipeEntity {
        PipeEntity {
            position: Point2 {
                x: sum(self.position.x as int, self.scroller.jump_distance as int) as i64,
                y: sum(self.position.y as int, moved as int) as i64,
            },
            scoring_pipe: self.rearmed(),
            ..self
        }
    }

    /// The segment after the recycling step: unchanged while any of it is
    /// still on the screen.
    pub open spec fn after_recycle(self, tracker: TrackerModel, noise: spec_fn(i64) -> i64)
        -> PipeEntity {
        if self.off_screen() {
            self.recycled(tracker.pipe_difference(noise))
        } else {
            self
        }
    }

    /// The tracker after the segment's recycling step.
    pub open spec fn tracker_after_recycle(
        self,
        tracker: TrackerModel,
        noise: spec_fn(i64) -> i64,
    ) -> TrackerModel {
        if self.off_screen() {
            tracker.after_difference(noise)
        } else {
            tracker
        }
    }

    /// The segment after one tick.
    pub open spec fn after_update(
        self,
        tracker: TrackerModel,
        state: PlayState,
        noise: spec_fn(i64) -> i64,
    ) -> PipeEntity {
        if state == PlayState::StartScreen {
            self
        } else {
            self.shifted().after_recycle(tracker, noise)
        }
    }

    /// The tracker after the segment's tick.
    pub open spec fn tracker_after_update(
        self,
        tracker: TrackerModel,
        state: PlayState,
        noise: spec_fn(i64) -> i64,
    ) -> TrackerModel {
        if state == PlayState::StartScreen {
            tracker
        } else {
            self.shifted().tracker_after_recycle(tracker, noise)
        }
    }

    /// The segment's tick asks the tracker for a difference.
    pub open spec fn recycles(self, state: PlayState) -> bool {
        state != PlayState::StartScreen && self.shifted().off_screen()
    }

    /// The segment gives its point now.
    pub open spec fn scores(self, state: PlayState) -> bool {
        &&& self.position.x <= SCORE_LINE
        &&& self.scoring_pipe == ScoringPipe::ReadyToScore
        &&& state == PlayState::Play
    }

    /// The segment after it was asked for its point.
    pub open spec fn after_scoring(self, state: PlayState) -> PipeEntity {
        if self.scores(state) {
            PipeEntity { scoring_pipe: ScoringPipe::Scored, ..self }
        } else {
            self
        }
    }

    /// A segment of a pipe at (`x`, `y`), in a lane `scroll` long; it gives
    /// no point.
    pub open spec fn new_spec(sprite: Sprite, x: i64, y: i64, scroll: i64) -> PipeEntity {
        PipeEntity {
            sprite,
            position: Point2 { x, y },
            scroller: Scroll { jump_distance: scroll },
            scoring_pipe: ScoringPipe::Dormant,
        }
    }

    /// A segment at `position`, in a lane `scroller` long; it gives no point.
    pub fn new(sprite: Sprite, position: (i64, i64), scroller: i64) -> (pipe: Self)
        ensures
            pipe == PipeEntity::new_spec(sprite, position.0, position.1, scroller),
    {
        PipeEntity {
            sprite,
            position: Point2::new(position.0, position.1),
            scroller: Scroll { jump_distance: scroller },
            scoring_pipe: ScoringPipe::Dormant,
        }
    }

    /// A segment at (`x`, `y`), in a lane `scroll` long; it gives no point.
    pub fn new_pipe(sprite: Sprite, x: i64, y: i64, scroll: i64) -> (pipe: Self)
        ensures
            pipe == PipeEntity::new_spec(sprite, x, y, scroll),
    {
        Self::new(sprite, (x, y), scroll)
    }

    /// The rectangle that the segment covers.
    pub fn get_rect(&self) -> (rect: Rect)
        ensures
            rect == self.rect(),
    {
        let mut rect = self.sprite.get_bound_box();
        rect.move_to(self.position);
        rect
    }

    /// Whether the segment still has its point to give on this pass.
    pub fn is_ready_to_score(&self) -> (ready: bool)
        ensures
            ready == (self.scoring_pipe == ScoringPipe::ReadyToScore),
    {
        ScoringPipe::ReadyToScore == self.scoring_pipe
    }

    /// Puts the segment back at the right end of the lane once it has left
    /// the screen on the left, and gives it the gap height that the tracker
    /// has for its next pass.
    pub fn recycle_passed_pipes<F: Fn(i64) -> i64>(
        &mut self,
        pipe_tracker: &mut PipeTracker,
        noise: &F,
    )
        requires
            old(pipe_tracker).wf(),
            old(self).off_screen() ==> old(pipe_tracker)@.window.len() > 0,
            is_function(noise),
        ensures
            *final(self) == old(self).after_recycle(old(pipe_tracker)@, oracle(noise)),
            final(pipe_tracker)@ == old(self).tracker_after_recycle(
                old(pipe_tracker)@,
                oracle(noise),
            ),
            final(pipe_tracker).wf(),
            final(pipe_tracker)@.window.len() == old(pipe_tracker)@.window.len(),
    {
        let right_pos: i128 = self.sprite.width as i128 + self.position.x as i128;
        if right_pos >= 0 {
            return ;
        }
        self.position.y = plus(self.position.y, pipe_tracker.get_pipe_difference(noise));
        self.reset_scored_pipes();
        self.position.x = plus(self.position.x, self.scroller.jump_distance);
    }

    /// Makes a segment that gave its point ready to give it again.
    pub fn reset_scored_pipes(&mut self)
        ensures
            *final(self) == (PipeEntity { scoring_pipe: old(self).rearmed(), ..*old(self) }),
    {
        if self.scoring_pipe == ScoringPipe::Scored {
            self.scoring_pipe = ScoringPipe::ReadyToScore;
        }
    }

    /// One tick of the segment: it stands still on the start screen;
    /// otherwise it moves left by `PIPE_SPEED` and is recycled once it has
    /// left the screen.
    pub fn update<F: Fn(i64) -> i64>(
        &mut self,
        pipe_tracker: &mut PipeTracker,
        state: &PlayState,
        noise: &F,
    )
        requires
            old(pipe_tracker).wf(),
            old(self).recycles(*state) ==> old(pipe_tracker)@.window.len() > 0,
            is_function(noise),
        ensures
            *final(self) == old(self).after_update(old(pipe_tracker)@, *state, oracle(noise)),
            final(pipe_tracker)@ == old(self).tracker_after_update(
                old(pipe_tracker)@,
                *state,
                oracle(noise),
            ),
            final(pipe_tracker).wf(),
            final(pipe_tracker)@.window.len() == old(pipe_tracker)@.window.len(),
    {
        if PlayState::StartScreen == *state {
            return ;
        }
        // Moves the pipes towards the crab.

        let speed: i64 = crate::pipe::pipe_velocity();
        self.position.x = plus(self.position.x, speed);
        // When the pipes go off the left side
        // we put them back at the right side to come again.
        self.recycle_passed_pipes(pipe_tracker, noise);
    }

    /// The command that draws the segment.
    pub fn draw(&mut self) -> (command: DrawCommand)
        ensures
            command == old(self).sprite.command_at(old(self).position),
            *final(self) == *old(self),
    {
        self.sprite.add_draw_param(self.position)
    }

    /// Asks the segment for its point. It gives one, and only then answers
    /// `true`, when it is ready to score, has come to the score line and the
    /// game is being played; it is `Scored` from then on.
    pub fn set_scored(&mut self, play_state: &PlayState) -> (scored: bool)
        ensures
            scored == old(self).scores(*play_state),
            *final(self) == old(self).after_scoring(*play_state),
    {
        if self.position.x > SCORE_LINE {
            return false;
        }
        if self.is_ready_to_score() && play_state.is_playing() {
            self.scoring_pipe = ScoringPipe::Scored;
            return true;
        }
        false
    }
}

/// A segment in the middle of a run of ticks.
pub struct Pass {
    pub pipe: PipeEntity,
    pub tracker: TrackerModel,
    /// How often the segment was recycled so far.
    pub recycles: nat,
}

/// The segment, the tracker that it asks, and the count of its recyclings
/// after `n` ticks.
pub open spec fn passed(
    pipe: PipeEntity,
    tracker: TrackerModel,
    state: PlayState,
    noise: spec_fn(i64) -> i64,
    n: nat,
) -> Pass
    decreases n,
{
    if n == 0 {
        Pass { pipe, tracker, recycles: 0 }
    } else {
        let before = passed(pipe, tracker, state, noise, (n - 1) as nat);
        Pass {
            pipe: before.pipe.after_update(before.tracker, state, noise),
            tracker: before.pipe.tracker_after_update(before.tracker, state, noise),
            recycles: if before.pipe.recycles(state) {
                before.recycles + 1
            } else {
                before.recycles
            },
        }
    }
}

/// A segment that has left the screen is put back by the length of its
/// lane and made ready to score again. Where the lane is long enough to
/// bring it back onto the screen, recycling it once more changes nothing.
pub proof fn lemma_recycle_moves_once(
    pipe: PipeEntity,
    tracker: TrackerModel,
    again: TrackerModel,
    noise: spec_fn(i64) -> i64,
)
    requires
        pipe.off_screen(),
        i64::MIN <= pipe.position.x + pipe.scroller.jump_distance <= i64::MAX,
    ensures
        pipe.after_recycle(tracker, noise).position.x == pipe.position.x
            + pipe.scroller.jump_distance,
        pipe.after_recycle(tracker, noise).scoring_pipe != ScoringPipe::Scored,
        pipe.sprite.width + pipe.position.x + pipe.scroller.jump_distance >= 0
            ==> pipe.after_recycle(tracker, noise).after_recycle(again, noise)
            == pipe.after_recycle(tracker, noise),
{
}

/// A segment that is on the screen is left alone by the recycling step, and
/// so is the tracker.
pub proof fn lemma_no_recycle_on_screen(
    pipe: PipeEntity,
    tracker: TrackerModel,
    noise: spec_fn(i64) -> i64,
)
    requires
        !pipe.off_screen(),
    ensures
        pipe.after_recycle(tracker, noise) == pipe,
        pipe.tracker_after_recycle(tracker, noise) == tracker,
{
}

/// Where a run of `n` ticks stands after `k` of them, for a segment that
/// starts on its lane and whose lane is `n` ticks long: before its
/// recycling it has moved left by `k` steps and is still on the screen;
/// after it, it stands one lane further right.
pub proof fn lemma_pass_progress(
    pipe: PipeEntity,
    tracker: TrackerModel,
    state: PlayState,
    noise: spec_fn(i64) -> i64,
    n: nat,
    k: nat,
)
    requires
        state != PlayState::StartScreen,
        in_sight(pipe.position.x as int),
        in_sight(pipe.sprite.width as int),
        in_sight(pipe.scroller.jump_distance as int),
        0 <= pipe.position.x + pipe.sprite.width < pipe.scroller.jump_distance,
        pipe.scroller.jump_distance == n * PIPE_SPEED,
        k <= n,
    ensures
        ({
            let here = passed(pipe, tracker, state, noise, k);
            &&& here.pipe.sprite == pipe.sprite
            &&& here.pipe.scroller == pipe.scroller
            &&& here.recycles <= 1
            &&& here.recycles == 0 ==> {
                &&& here.pipe.position.x == pipe.position.x - k * PIPE_SPEED
                &&& here.pipe.position.x + pipe.sprite.width >= 0
            }
            &&& here.recycles == 1 ==> here.pipe.position.x == pipe.position.x - k * PIPE_SPEED
                + pipe.scroller.jump_distance
        }),
    decreases k,
{
    if k > 0 {
        lemma_pass_progress(pipe, tracker, state, noise, n, (k - 1) as nat);
        let before = passed(pipe, tracker, state, noise, (k - 1) as nat);
        let here = passed(pipe, tracker, state, noise, k);
        assert(here.pipe == before.pipe.after_update(before.tracker, state, noise));
    }
}

/// Over one traversal of its lane a segment is recycled exactly once and
/// comes back to the place where it started. The count of ticks is the
/// lane's length in steps of `PIPE_SPEED`; the length of a frame plays no
/// part.
pub proof fn lemma_one_recycle_per_lane(
    pipe: PipeEntity,
    tracker: TrackerModel,
    state: PlayState,
    noise: spec_fn(i64) -> i64,
    n: nat,
)
    requires
        state != PlayState::StartScreen,
        in_sight(pipe.position.x as int),
        in_sight(pipe.sprite.width as int),
        in_sight(pipe.scroller.jump_distance as int),
        0 <= pipe.position.x + pipe.sprite.width < pipe.scroller.jump_distance,
        pipe.scroller.jump_distance == n * PIPE_SPEED,
    ensures
        passed(pipe, tracker, state, noise, n).recycles == 1,
        passed(pipe, tracker, state, noise, n).pipe.position.x == pipe.position.x,
{
    lemma_pass_progress(pipe, tracker, state, noise, n, n);
}

/// On the start screen the pipes stand still, however many ticks pass.
pub proof fn lemma_pipes_wait_on_start_screen(
    pipe: PipeEntity,
    tracker: TrackerModel,
    noise: spec_fn(i64) -> i64,
    n: nat,
)
    ensures
        passed(pipe, tracker, PlayState::StartScreen, noise, n) == (Pass {
            pipe,
            tracker,
            recycles: 0,
        }),
    decreases n,
{
    if n > 0 {
        lemma_pipes_wait_on_start_screen(pipe, tracker, noise, (n - 1) as nat);
    }
}

/// A segment gives its point once: right after it gave one it gives no
/// other, whatever the state of the game, and asking it changes nothing.
pub proof fn lemma_point_given_once(pipe: PipeEntity, state: PlayState, later: PlayState)
    requires
        pipe.scores(state),
    ensures
        pipe.after_scoring(state).scoring_pipe == ScoringPipe::Scored,
        !pipe.after_scoring(state).scores(later),
        pipe.after_scoring(state).after_scoring(later) == pipe.after_scoring(state),
{
}

/// A segment that has given its point stays `Scored` through every tick
/// that does not recycle it, and is ready to score again after the tick
/// that does.
pub proof fn lemma_scored_until_recycled(
    pipe: PipeEntity,
    tracker: TrackerModel,
    state: PlayState,
    noise: spec_fn(i64) -> i64,
)
    requires
        pipe.scoring_pipe == ScoringPipe::Scored,
    ensures
        !pipe.scores(state),
        pipe.after_update(tracker, state, noise).scoring_pipe == (if pipe.recycles(state) {
            ScoringPipe::ReadyToScore
        } else {
            ScoringPipe::Scored
        }),
{
}

} // verus!
