//! Where the pipes stand: the tracker that places their gaps, and the
//! layout of a fresh lane.

use std::collections::VecDeque;
use vstd::prelude::*;
use crate::atlas::Sprite;
use crate::config::{
    NUM_PIPES, PIPE_SPEED, SEGMENTS, SPACE_MULTIPLIER, TOP_MAX, TOP_MIN, VERTICAL_GAP,
    VERTICAL_GAP_DEVIANCE, WINDOW_PERIOD,
};
use crate::entity::{PipeEntity, ScoringPipe};
use crate::fixed::{
    clamp, clamped, difference, minus, narrow, plus, product, saturate, sum, times, wide_product,
    UNIT,
};
use crate::geometry::{Point2, Vector2};
use crate::noise::{is_function, oracle, sample_at};

verus! {

/// The height of a gap's lower edge for a noise value: the value, held
/// between `-UNIT` and `UNIT`, carried linearly onto the band from `TOP_MIN`
/// to `TOP_MAX`.
pub open spec fn pipe_top(noise: i64) -> i64 {
    (TOP_MIN + ((clamped(noise as int, -UNIT, UNIT as int) + UNIT) * (TOP_MAX - TOP_MIN)) / (2
        * UNIT)) as i64
}

/// Every gap lies inside the band, whatever the noise.
pub proof fn lemma_pipe_top_in_band(noise: i64)
    ensures
        TOP_MIN <= pipe_top(noise) <= TOP_MAX,
        noise <= -UNIT ==> pipe_top(noise) == TOP_MIN,
        noise >= UNIT ==> pipe_top(noise) == TOP_MAX,
{
    assert(TOP_MAX - TOP_MIN == 31_000 && 2 * UNIT == 2_000);
}

/// The gap height follows the noise: a greater value never gives a smaller height.
pub proof fn lemma_pipe_top_monotonic(a: i64, b: i64)
    requires
        a <= b,
    ensures
        pipe_top(a) <= pipe_top(b),
{
    assert(TOP_MAX - TOP_MIN == 31_000 && 2 * UNIT == 2_000);
}

/// The height of a gap's lower edge for a noise value.
pub fn top_for_noise(noise: i64) -> (top: i64)
    ensures
        top == pipe_top(noise),
        TOP_MIN <= top <= TOP_MAX,
{
    let raised: i64 = clamp(noise, -UNIT, UNIT) + UNIT;
    let span: i64 = TOP_MAX - TOP_MIN;
    assert(0 <= raised <= 2_000 && span == 31_000);
    assert(0 <= raised * span <= 62_000_000) by (nonlinear_arith)
        requires
            0 <= raised <= 2_000,
            span == 31_000,
    ;
    TOP_MIN + (raised * span) / (2 * UNIT)
}

/// The distance that a pipe moves in one tick; it is negative, for pipes move left.
pub fn pipe_velocity() -> (v: i64)
    ensures
        v == -PIPE_SPEED,
{
    -PIPE_SPEED
}

/// What a tracker holds, as mathematics.
pub struct TrackerModel {
    /// Queries since the window last moved.
    pub seen: nat,
    /// The recorded gap heights, oldest first.
    pub window: Seq<i64>,
    /// The time cursor at which the noise is sampled.
    pub time: i64,
}

impl TrackerModel {
    /// The counter is below its period and the window within its capacity.
    pub open spec fn wf(self) -> bool {
        &&& self.seen < WINDOW_PERIOD
        &&& self.window.len() <= NUM_PIPES
    }

    /// The time cursor one step on.
    pub open spec fn next_time(self) -> i64 {
        sum(self.time as int, VERTICAL_GAP_DEVIANCE as int) as i64
    }

    /// `window` with `top` recorded as its newest entry, the oldest one
    /// leaving where the window is full.
    pub open spec fn recorded(window: Seq<i64>, top: i64) -> Seq<i64> {
        if window.len() >= NUM_PIPES {
            window.drop_first().push(top)
        } else {
            window.push(top)
        }
    }

    /// The gap height that placing a new pipe records.
    pub open spec fn init_top(self, noise: spec_fn(i64) -> i64) -> i64 {
        pipe_top(noise(self.next_time()))
    }

    /// The tracker after a new pipe was placed.
    pub open spec fn after_init(self, noise: spec_fn(i64) -> i64) -> TrackerModel {
        TrackerModel {
            seen: 0,
            window: Self::recorded(self.window, self.init_top(noise)),
            time: self.next_time(),
        }
    }

    /// The gap height at the present time cursor.
    pub open spec fn current_top(self, noise: spec_fn(i64) -> i64) -> i64 {
        pipe_top(noise(self.time))
    }

    /// How far a recycled pipe has to move: from the oldest recorded gap
    /// height to the present one.
    pub open spec fn pipe_difference(self, noise: spec_fn(i64) -> i64) -> i64 {
        difference(self.current_top(noise) as int, self.window[0] as int) as i64
    }

    /// The tracker after one query for the difference: every
    /// `WINDOW_PERIOD`-th query replaces the oldest entry of the window by
    /// the present gap height and moves the time cursor on.
    pub open spec fn after_difference(self, noise: spec_fn(i64) -> i64) -> TrackerModel {
        if self.seen + 1 == WINDOW_PERIOD {
            TrackerModel {
                seen: 0,
                window: self.window.drop_first().push(self.current_top(noise)),
                time: self.next_time(),
            }
        } else {
            TrackerModel { seen: self.seen + 1, window: self.window, time: self.time }
        }
    }
}

/// Places the gaps of the pipes: a window of the most recent gap heights, a
/// time cursor into the noise, and a count of the queries since the window
/// last moved.
#[derive(Debug)]
pub struct PipeTracker {
    pipes_seen: usize,
    top: VecDeque<i64>,
    time: i64,
}

impl View for PipeTracker {
    type V = TrackerModel;

    closed spec fn view(&self) -> TrackerModel {
        TrackerModel { seen: self.pipes_seen as nat, window: self.top@, time: self.time }
    }
}

impl PipeTracker {
    /// The counter is below its period and the window within its capacity.
    pub open spec fn wf(&self) -> bool {
        self@.wf()
    }

    /// A tracker that has placed no pipe yet.
    pub fn new() -> (tracker: Self)
        ensures
            tracker@ == (TrackerModel { seen: 1, window: Seq::<i64>::empty(), time: 0 }),
            tracker.wf(),
    {
        PipeTracker { pipes_seen: 1, top: VecDeque::new(), time: 0 }
    }

    /// The time cursor.
    pub fn time(&self) -> (t: i64)
        ensures
            t == self@.time,
    {
        self.time
    }

    /// Queries since the window last moved.
    pub fn pipes_seen(&self) -> (n: usize)
        ensures
            n == self@.seen,
    {
        self.pipes_seen
    }

    /// Number of recorded gap heights.
    pub fn window_len(&self) -> (n: usize)
        ensures
            n == self@.window.len(),
    {
        self.top.len()
    }

    /// The recorded gap height at place `i`, the oldest being at place 0.
    pub fn recorded_top(&self, i: usize) -> (top: Option<i64>)
        ensures
            top == (if i < self@.window.len() {
                Some(self@.window[i as int])
            } else {
                None
            }),
    {
        if i < self.top.len() {
            Some(self.top[i])
        } else {
            None
        }
    }

    /// Counts one query and gives the gap height at the present time cursor.
    fn get_pipe_top<F: Fn(i64) -> i64>(&mut self, noise: &F) -> (top: i64)
        requires
            old(self).pipes_seen < WINDOW_PERIOD,
            is_function(noise),
        ensures
            top == old(self)@.current_top(oracle(noise)),
            call_ensures(*noise, (old(self).time,), oracle(noise)(old(self).time)),
            final(self).pipes_seen == old(self).pipes_seen + 1,
            final(self).top == old(self).top,
            final(self).time == old(self).time,
    {
        self.pipes_seen += 1;
        top_for_noise(sample_at(noise, self.time))
    }

    /// Places a new pipe: moves the time cursor on, records the gap height
    /// there and starts the count of queries afresh.
    pub fn init_get_pipe_top<F: Fn(i64) -> i64>(&mut self, noise: &F) -> (top: i64)
        requires
            old(self).wf(),
            is_function(noise),
        ensures
            top == old(self)@.init_top(oracle(noise)),
            TOP_MIN <= top <= TOP_MAX,
            final(self)@ == old(self)@.after_init(oracle(noise)),
            final(self).wf(),
            call_ensures(
                *noise,
                (old(self)@.next_time(),),
                oracle(noise)(old(self)@.next_time()),
            ),
    {
        self.time = plus(self.time, VERTICAL_GAP_DEVIANCE);
        let result: i64 = self.get_pipe_top(noise);
        self.pipes_seen = 0;
        if self.top.len() >= NUM_PIPES {
            let _ = self.top.pop_front();
            assert(self.top@ =~= old(self).top@.drop_first());
        }
        self.top.push_back(result);
        result
    }

    /// Returns the direction pipe has to move.
    pub fn get_pipe_difference<F: Fn(i64) -> i64>(&mut self, noise: &F) -> (moved: i64)
        requires
            old(self).wf(),
            old(self)@.window.len() > 0,
            is_function(noise),
        ensures
            moved == old(self)@.pipe_difference(oracle(noise)),
            final(self)@ == old(self)@.after_difference(oracle(noise)),
            final(self).wf(),
            final(self)@.window.len() == old(self)@.window.len(),
            call_ensures(*noise, (old(self)@.time,), oracle(noise)(old(self)@.time)),
    {
        let last_pos: i64 = self.top[0];
        let now_pos: i64 = self.get_pipe_top(noise);
        if self.pipes_seen == WINDOW_PERIOD {
            let _ = self.top.pop_front();
            assert(self.top@ =~= old(self).top@.drop_first());
            self.top.push_back(now_pos);
            self.pipes_seen = 0;
            self.time = plus(self.time, VERTICAL_GAP_DEVIANCE);
        }
        minus(now_pos, last_pos)
    }
}

/// The tracker after `n` new pipes were placed.
pub open spec fn tracker_after_inits(tracker: TrackerModel, noise: spec_fn(i64) -> i64, n: nat)
    -> TrackerModel
    decreases n,
{
    if n == 0 {
        tracker
    } else {
        tracker_after_inits(tracker, noise, (n - 1) as nat).after_init(noise)
    }
}

/// `n` times the stored quantity `v`.
pub open spec fn repeated(v: int, n: int) -> int {
    saturate(v * n)
}

/// The space between two pipes whose tips are `width` wide.
pub open spec fn space_width(width: i64) -> i64 {
    product(width as int, SPACE_MULTIPLIER as int) as i64
}

/// The distance from one pipe to the next.
pub open spec fn stride(width: i64) -> i64 {
    sum(width as int, space_width(width) as int) as i64
}

/// The length of the lane: the distance after which a pipe comes again.
pub open spec fn lane_length(width: i64) -> i64 {
    repeated(stride(width) as int, NUM_PIPES as int) as i64
}

/// The `k`-th body segment of a pipe half whose tip, `top_height` high,
/// stands at (`x`, `top`). A negative `k` counts upward.
pub open spec fn pipe_body(
    sprite_base: Sprite,
    x: i64,
    top: i64,
    total_dist: i64,
    top_height: i64,
    k: int,
) -> PipeEntity {
    PipeEntity::new_spec(
        sprite_base,
        x,
        sum(sum(top as int, top_height as int), repeated(sprite_base.height as int, k)) as i64,
        total_dist,
    )
}

/// The sprite shown upside down.
pub open spec fn flipped(sprite: Sprite) -> Sprite {
    Sprite { scale: Vector2 { x: sprite.scale.x, y: (-UNIT) as i64 }, ..sprite }
}

/// The lower half of a pipe: `SEGMENTS` body segments stacked downward
/// from under the tip, and the tip last, its upper edge at `top`.
pub open spec fn lower_half(
    sprite_base: Sprite,
    sprite_top: Sprite,
    x: i64,
    top: i64,
    total_dist: i64,
) -> Seq<Box<PipeEntity>> {
    Seq::new(
        (SEGMENTS + 1) as nat,
        |k: int|
            if k < SEGMENTS {
                Box::new(pipe_body(sprite_base, x, top, total_dist, sprite_top.height, k))
            } else {
                Box::new(PipeEntity::new_spec(sprite_top, x, top, total_dist))
            },
    )
}

/// The upper half of a pipe: `SEGMENTS` body segments stacked upward from
/// above the tip, and the tip last, upside down, its lower edge at `top`.
/// The tip is the segment that gives the pipe's point.
pub open spec fn upper_half(
    sprite_base: Sprite,
    sprite_top: Sprite,
    x: i64,
    top: i64,
    total_dist: i64,
) -> Seq<Box<PipeEntity>> {
    Seq::new(
        (SEGMENTS + 1) as nat,
        |k: int|
            if k < SEGMENTS {
                Box::new(
                    pipe_body(
                        sprite_base,
                        x,
                        top,
                        total_dist,
                        difference(0, sprite_top.height as int) as i64,
                        -k,
                    ),
                )
            } else {
                Box::new(
                    PipeEntity {
                        scoring_pipe: ScoringPipe::ReadyToScore,
                        ..PipeEntity::new_spec(flipped(sprite_top), x, top, total_dist)
                    },
                )
            },
    )
}

/// The `i`-th pipe of a fresh lane that starts at `x`: its lower half, and
/// its upper half `VERTICAL_GAP` above. `tracker` is the tracker before any
/// pipe of the lane was placed.
pub open spec fn lane_pipe(
    sprite_base: Sprite,
    sprite_top: Sprite,
    tracker: TrackerModel,
    x: i64,
    noise: spec_fn(i64) -> i64,
    i: nat,
) -> Seq<Box<PipeEntity>> {
    let top = tracker_after_inits(tracker, noise, i).init_top(noise);
    let pipe_x = sum(x as int, repeated(stride(sprite_top.width) as int, i as int)) as i64;
    let total_dist = lane_length(sprite_top.width);
    lower_half(sprite_base, sprite_top, pipe_x, top, total_dist) + upper_half(
        sprite_base,
        sprite_top,
        pipe_x,
        difference(top as int, VERTICAL_GAP as int) as i64,
        total_dist,
    )
}

/// The first `n` pipes of a fresh lane, segment by segment.
pub open spec fn lane(
    sprite_base: Sprite,
    sprite_top: Sprite,
    tracker: TrackerModel,
    x: i64,
    noise: spec_fn(i64) -> i64,
    n: nat,
) -> Seq<Box<PipeEntity>>
    decreases n,
{
    if n == 0 {
        Seq::empty()
    } else {
        lane(sprite_base, sprite_top, tracker, x, noise, (n - 1) as nat) + lane_pipe(
            sprite_base,
            sprite_top,
            tracker,
            x,
            noise,
            (n - 1) as nat,
        )
    }
}

/// `n` times `v`, for a small count `n`.
pub fn repeat(v: i64, n: i64) -> (r: i64)
    ensures
        r == repeated(v as int, n as int),
{
    narrow(wide_product(v, n))
}

/// The segments of the lower half of a pipe whose gap has its lower edge at `top`.
pub fn create_pipe_bottom(
    sprite_base: Sprite,
    sprite_top: Sprite,
    x: i64,
    top: i64,
    total_dist: i64,
) -> (segments: Vec<Box<PipeEntity>>)
    ensures
        segments@ == lower_half(sprite_base, sprite_top, x, top, total_dist),
{
    let top_height: i64 = sprite_top.height;
    let pipe_tip = create_pipe_tip(sprite_top, x, top, total_dist);
    let mut p: Vec<Box<PipeEntity>> = Vec::new();
    let mut i: usize = 0;
    while i < SEGMENTS
        invariant
            i <= SEGMENTS,
            top_height == sprite_top.height,
            p@.len() == i,
            forall|k: int|
                0 <= k < i ==> p@[k] == lower_half(sprite_base, sprite_top, x, top, total_dist)[k],
        decreases SEGMENTS - i,
    {
        p.push(make_pipe_body(&sprite_base, x, top, total_dist, top_height, i as i64));
        i += 1;
    }
    p.push(Box::new(pipe_tip));
    assert(p@ =~= lower_half(sprite_base, sprite_top, x, top, total_dist));
    p
}

/// The segments of a fresh lane of `NUM_PIPES` pipes, the first at `x`,
/// each with the gap height that the tracker places for it.
pub fn create_pipes<F: Fn(i64) -> i64>(
    sprite_base: Sprite,
    sprite_top: Sprite,
    pipe_tracker: &mut PipeTracker,
    x: i64,
    noise: &F,
) -> (pipes: Vec<Box<PipeEntity>>)
    requires
        old(pipe_tracker).wf(),
        is_function(noise),
    ensures
        pipes@ == lane(sprite_base, sprite_top, old(pipe_tracker)@, x, oracle(noise), NUM_PIPES as nat),
        pipes@.len() == NUM_PIPES * 2 * (SEGMENTS + 1),
        final(pipe_tracker)@ == tracker_after_inits(
            old(pipe_tracker)@,
            oracle(noise),
            NUM_PIPES as nat,
        ),
        final(pipe_tracker).wf(),
        final(pipe_tracker)@.window.len() > 0,
{
    let width: i64 = sprite_top.width;
    let space_width: i64 = times(width, SPACE_MULTIPLIER);
    let total_dist: i64 = repeat(plus(width, space_width), NUM_PIPES as i64);
    let gap: i64 = VERTICAL_GAP;
    let mut pipes: Vec<Box<PipeEntity>> = Vec::new();
    let mut i: usize = 0;
    while i < NUM_PIPES
        invariant
            i <= NUM_PIPES,
            is_function(noise),
            width == sprite_top.width,
            space_width == self::space_width(width),
            total_dist == lane_length(width),
            gap == VERTICAL_GAP,
            pipe_tracker.wf(),
            i > 0 ==> pipe_tracker@.window.len() > 0,
            pipe_tracker@ == tracker_after_inits(old(pipe_tracker)@, oracle(noise), i as nat),
            pipes@ == lane(sprite_base, sprite_top, old(pipe_tracker)@, x, oracle(noise), i as nat),
            pipes@.len() == 10 * i,
        decreases NUM_PIPES - i,
    {
        let top: i64 = pipe_tracker.init_get_pipe_top(noise);
        let pipe_x: i64 = plus(x, repeat(plus(space_width, width), i as i64));
        let mut bottom = create_pipe_bottom(sprite_base, sprite_top, pipe_x, top, total_dist);
        let mut upper = create_pipe_top(
            sprite_base,
            sprite_top,
            pipe_x,
            minus(top, gap),
            total_dist,
        );
        assert(bottom@.len() == SEGMENTS + 1 && upper@.len() == SEGMENTS + 1);
        pipes.append(&mut bottom);
        pipes.append(&mut upper);
        i += 1;
    }
    assert(NUM_PIPES * 2 * (SEGMENTS + 1) == 40) by (nonlinear_arith)
        requires
            NUM_PIPES == 4,
            SEGMENTS == 4,
    ;
    pipes
}

/// The segments of the upper half of a pipe whose gap has its upper edge at `top`.
pub fn create_pipe_top(
    sprite_base: Sprite,
    sprite_top: Sprite,
    x: i64,
    top: i64,
    total_dist: i64,
) -> (segments: Vec<Box<PipeEntity>>)
    ensures
        segments@ == upper_half(sprite_base, sprite_top, x, top, total_dist),
{
    let top_height: i64 = minus(0, sprite_top.height);
    let mut sprite_top = sprite_top;
    sprite_top.scale.y = -UNIT;
    let mut pipe_tip = create_pipe_tip(sprite_top, x, top, total_dist);
    pipe_tip.scoring_pipe = ScoringPipe::ReadyToScore;
    let mut p: Vec<Box<PipeEntity>> = Vec::new();
    let mut i: usize = 0;
    while i < SEGMENTS
        invariant
            i <= SEGMENTS,
            p@.len() == i,
            forall|k: int|
                0 <= k < i ==> *p@[k] == pipe_body(sprite_base, x, top, total_dist, top_height, -k),
        decreases SEGMENTS - i,
    {
        p.push(make_pipe_body(&sprite_base, x, top, total_dist, top_height, -(i as i64)));
        i += 1;
    }
    p.push(Box::new(pipe_tip));
    p
}

/// The `i`-th body segment beyond a tip that is `top_height` high and stands at (`x`, `top`).
pub fn make_pipe_body(
    sprite_base: &Sprite,
    x: i64,
    top: i64,
    total_dist: i64,
    top_height: i64,
    i: i64,
) -> (body: Box<PipeEntity>)
    ensures
        *body == pipe_body(*sprite_base, x, top, total_dist, top_height, i as int),
{
    let top: i64 = plus(plus(top, top_height), repeat(sprite_base.height, i));
    let pipe_body = PipeEntity::new_pipe(*sprite_base, x, top, total_dist);
    Box::new(pipe_body)
}

/// The tip of a pipe half.
pub fn create_pipe_tip(sprite_top: Sprite, x: i64, top: i64, scroll: i64) -> (tip: PipeEntity)
    ensures
        tip == PipeEntity::new_spec(sprite_top, x, top, scroll),
{
    PipeEntity::new_pipe(sprite_top, x, top, scroll)
}

} // verus!
