use flappy_crab::atlas::Sprite;
use flappy_crab::entity::{PipeEntity, PlayState, ScoringPipe, Scroll};
use flappy_crab::geometry::{Point2, Rect, Vector2};
use flappy_crab::pipe::{
    create_pipe_bottom, create_pipe_tip, create_pipe_top, create_pipes, make_pipe_body,
    pipe_velocity, repeat, top_for_noise, PipeTracker,
};

fn base() -> Sprite {
    Sprite::new(Rect::new(0, 12_000, 26_000, 16_000), 26_000, 16_000)
}

fn tip() -> Sprite {
    Sprite::new(Rect::new(0, 28_000, 26_000, 12_000), 26_000, 12_000)
}

fn flat(_t: i64) -> i64 {
    0
}

/// A tracker that has placed four pipes over flat noise.
fn placed() -> PipeTracker {
    let mut tracker = PipeTracker::new();
    for _ in 0..4 {
        tracker.init_get_pipe_top(&flat);
    }
    tracker
}

#[test]
fn gap_heights_fill_the_band() {
    assert_eq!(top_for_noise(-1_000), 62_000);
    assert_eq!(top_for_noise(1_000), 93_000);
    assert_eq!(top_for_noise(0), 77_500);
    assert_eq!(top_for_noise(500), 85_250);
    assert_eq!(top_for_noise(-500), 69_750);
    assert_eq!(top_for_noise(333), 82_661);
    assert_eq!(top_for_noise(1), 77_515);
}

#[test]
fn noise_out_of_range_stays_in_the_band() {
    assert_eq!(top_for_noise(5_000), 93_000);
    assert_eq!(top_for_noise(-5_000), 62_000);
    assert_eq!(top_for_noise(i64::MAX), 93_000);
    assert_eq!(top_for_noise(i64::MIN), 62_000);
}

#[test]
fn new_tracker_is_empty() {
    let tracker = PipeTracker::new();
    assert_eq!(tracker.time(), 0);
    assert_eq!(tracker.pipes_seen(), 1);
    assert_eq!(tracker.window_len(), 0);
    assert_eq!(tracker.recorded_top(0), None);
}

#[test]
fn init_moves_the_cursor_and_records() {
    let mut tracker = PipeTracker::new();
    let top = tracker.init_get_pipe_top(&|t: i64| t);
    assert_eq!(top, top_for_noise(600));
    assert_eq!(top, 86_800);
    assert_eq!(tracker.time(), 600);
    assert_eq!(tracker.pipes_seen(), 0);
    assert_eq!(tracker.window_len(), 1);
    assert_eq!(tracker.recorded_top(0), Some(86_800));
    assert_eq!(tracker.recorded_top(1), None);
    let top = tracker.init_get_pipe_top(&|t: i64| -t);
    assert_eq!(top, top_for_noise(-1_200));
    assert_eq!(top, 62_000);
    assert_eq!(tracker.time(), 1_200);
    assert_eq!(tracker.recorded_top(1), Some(62_000));
}

#[test]
fn the_window_holds_one_entry_for_each_pipe() {
    let mut tracker = PipeTracker::new();
    for i in 0..6 {
        tracker.init_get_pipe_top(&|t: i64| t / 6 - 500);
        assert_eq!(tracker.window_len(), if i < 4 { i + 1 } else { 4 });
    }
    assert_eq!(tracker.time(), 3_600);
    // The samples were taken at 600, 1200, ..., 3600; the first two have left.
    assert_eq!(tracker.recorded_top(0), Some(top_for_noise(-200)));
    assert_eq!(tracker.recorded_top(3), Some(top_for_noise(100)));
}

#[test]
fn four_pipes_and_one_difference() {
    let mut tracker = PipeTracker::new();
    let noise = |t: i64| if t == 2_400 { 1_000 } else { -1_000 };
    let mut tops = Vec::new();
    for _ in 0..4 {
        tops.push(tracker.init_get_pipe_top(&noise));
    }
    assert_eq!(tops, vec![62_000, 62_000, 62_000, 93_000]);
    let moved = tracker.get_pipe_difference(&noise);
    assert_eq!(moved, 93_000 - tops[0]);
    assert_eq!(moved, 31_000);
    assert_eq!(tracker.pipes_seen(), 1);
    assert_eq!(tracker.time(), 2_400);
    assert_eq!(tracker.window_len(), 4);
    assert_eq!(tracker.recorded_top(0), Some(62_000));
}

#[test]
fn every_tenth_query_moves_the_window() {
    let mut tracker = placed();
    let noise = |t: i64| if t == 2_400 { 400 } else { -400 };
    for i in 1..10 {
        assert_eq!(tracker.get_pipe_difference(&noise), 83_700 - 77_500);
        assert_eq!(tracker.pipes_seen(), i);
        assert_eq!(tracker.time(), 2_400);
        assert_eq!(tracker.recorded_top(0), Some(77_500));
        assert_eq!(tracker.recorded_top(3), Some(77_500));
    }
    assert_eq!(tracker.get_pipe_difference(&noise), 6_200);
    assert_eq!(tracker.pipes_seen(), 0);
    assert_eq!(tracker.time(), 3_000);
    assert_eq!(tracker.window_len(), 4);
    assert_eq!(tracker.recorded_top(3), Some(83_700));
    // The cursor has moved: the noise there gives another height.
    assert_eq!(tracker.get_pipe_difference(&noise), 71_300 - 77_500);
    assert_eq!(tracker.pipes_seen(), 1);
}

#[test]
fn pipes_move_left() {
    assert_eq!(pipe_velocity(), -1_000);
}

#[test]
fn repeat_multiplies_by_a_count() {
    assert_eq!(repeat(16_000, 3), 48_000);
    assert_eq!(repeat(16_000, -3), -48_000);
    assert_eq!(repeat(16_000, 0), 0);
    assert_eq!(repeat(i64::MAX, 2), i64::MAX);
    assert_eq!(repeat(i64::MAX, -2), i64::MIN);
}

#[test]
fn new_pipe_is_dormant() {
    let pipe = PipeEntity::new(tip(), (1, 2), 3);
    assert_eq!(
        pipe,
        PipeEntity {
            sprite: tip(),
            position: Point2 { x: 1, y: 2 },
            scroller: Scroll { jump_distance: 3 },
            scoring_pipe: ScoringPipe::Dormant,
        }
    );
    assert_eq!(PipeEntity::new_pipe(tip(), 1, 2, 3), pipe);
    assert_eq!(create_pipe_tip(tip(), 1, 2, 3), pipe);
    assert!(!pipe.is_ready_to_score());
}

#[test]
fn body_segments_stack_from_the_tip() {
    let body = make_pipe_body(&base(), 200_000, 77_500, 260_000, 12_000, 2);
    assert_eq!(*body, PipeEntity::new(base(), (200_000, 121_500), 260_000));
    let body = make_pipe_body(&base(), 200_000, 20_500, 260_000, -12_000, -3);
    assert_eq!(*body, PipeEntity::new(base(), (200_000, -39_500), 260_000));
}

#[test]
fn lower_half_has_its_tip_at_the_gap() {
    let half = create_pipe_bottom(base(), tip(), 200_000, 77_500, 260_000);
    assert_eq!(half.len(), 5);
    let heights: Vec<i64> = half.iter().map(|p| p.position.y).collect();
    assert_eq!(heights, vec![89_500, 105_500, 121_500, 137_500, 77_500]);
    for (i, segment) in half.iter().enumerate() {
        assert_eq!(segment.position.x, 200_000);
        assert_eq!(segment.scroller.jump_distance, 260_000);
        assert_eq!(segment.scoring_pipe, ScoringPipe::Dormant);
        assert_eq!(segment.sprite, if i < 4 { base() } else { tip() });
    }
}

#[test]
fn upper_half_is_flipped_and_scores() {
    let half = create_pipe_top(base(), tip(), 200_000, 20_500, 260_000);
    assert_eq!(half.len(), 5);
    let heights: Vec<i64> = half.iter().map(|p| p.position.y).collect();
    assert_eq!(heights, vec![8_500, -7_500, -23_500, -39_500, 20_500]);
    for segment in half.iter().take(4) {
        assert_eq!(segment.sprite, base());
        assert_eq!(segment.scoring_pipe, ScoringPipe::Dormant);
    }
    assert_eq!(half[4].scoring_pipe, ScoringPipe::ReadyToScore);
    assert_eq!(half[4].sprite.scale, Vector2 { x: 1_000, y: -1_000 });
    assert_eq!(half[4].sprite.rect, tip().rect);
    assert_eq!(half[4].get_rect(), Rect::new(200_000, 20_500, 26_000, -12_000));
}

#[test]
fn a_fresh_lane_has_four_pipes_of_ten_segments() {
    let mut tracker = PipeTracker::new();
    let pipes = create_pipes(base(), tip(), &mut tracker, 200_000, &flat);
    assert_eq!(pipes.len(), 40);
    assert_eq!(tracker.time(), 2_400);
    assert_eq!(tracker.window_len(), 4);
    assert_eq!(tracker.pipes_seen(), 0);
    for (i, segment) in pipes.iter().enumerate() {
        let pipe = (i / 10) as i64;
        assert_eq!(segment.position.x, 200_000 + 65_000 * pipe);
        assert_eq!(segment.scroller.jump_distance, 260_000);
        let scores = i % 10 == 9;
        assert_eq!(segment.is_ready_to_score(), scores);
    }
    assert_eq!(pipes[4].position.y, 77_500);
    assert_eq!(pipes[9].position.y, 20_500);
    assert_eq!(pipes[0].position.y, 89_500);
    assert_eq!(pipes[5].position.y, 8_500);
}

#[test]
fn each_pipe_of_a_lane_gets_its_own_gap() {
    let mut tracker = PipeTracker::new();
    let noise = |t: i64| t - 1_500;
    let pipes = create_pipes(base(), tip(), &mut tracker, 0, &noise);
    let tops: Vec<i64> = (0..4).map(|i| pipes[10 * i + 4].position.y).collect();
    assert_eq!(
        tops,
        vec![
            top_for_noise(-900),
            top_for_noise(-300),
            top_for_noise(300),
            top_for_noise(900)
        ]
    );
    assert_eq!(tops, vec![63_550, 72_850, 82_150, 91_450]);
    for i in 0..4 {
        assert_eq!(pipes[10 * i + 9].position.y, tops[i] - 57_000);
        assert_eq!(tracker.recorded_top(i), Some(tops[i]));
    }
}

#[test]
fn pipes_stand_still_on_the_start_screen() {
    let mut tracker = placed();
    let mut pipe = PipeEntity::new(tip(), (-100_000, 5), 260_000);
    pipe.update(&mut tracker, &PlayState::StartScreen, &flat);
    assert_eq!(pipe.position, Point2 { x: -100_000, y: 5 });
    assert_eq!(tracker.pipes_seen(), 0);
}

#[test]
fn pipes_scroll_while_playing_and_while_dead() {
    let mut tracker = placed();
    let mut pipe = PipeEntity::new(tip(), (200_000, 5), 260_000);
    pipe.update(&mut tracker, &PlayState::Play, &flat);
    assert_eq!(pipe.position, Point2 { x: 199_000, y: 5 });
    pipe.update(&mut tracker, &PlayState::Dead { time: 0 }, &flat);
    assert_eq!(pipe.position, Point2 { x: 198_000, y: 5 });
    assert_eq!(tracker.pipes_seen(), 0);
}

#[test]
fn a_pipe_is_recycled_only_when_all_of_it_has_left() {
    let mut tracker = placed();
    let mut pipe = PipeEntity::new(tip(), (-25_000, 5), 260_000);
    pipe.update(&mut tracker, &PlayState::Play, &flat);
    assert_eq!(pipe.position.x, -26_000);
    assert_eq!(tracker.pipes_seen(), 0);
    pipe.update(&mut tracker, &PlayState::Play, &flat);
    assert_eq!(pipe.position.x, -27_000 + 260_000);
    assert_eq!(tracker.pipes_seen(), 1);
}

#[test]
fn a_pipe_off_the_left_edge_is_recycled() {
    let mut tracker = placed();
    let noise = |_t: i64| 400;
    let mut pipe = PipeEntity::new(tip(), (-(26_000 + 1_000), 20_500), 500_000);
    pipe.scoring_pipe = ScoringPipe::Scored;
    pipe.recycle_passed_pipes(&mut tracker, &noise);
    assert_eq!(pipe.position.x, -27_000 + 500_000);
    assert_eq!(pipe.position.y, 20_500 + (83_700 - 77_500));
    assert_eq!(pipe.scoring_pipe, ScoringPipe::ReadyToScore);
    assert_eq!(tracker.pipes_seen(), 1);
    // It is back on the screen: recycling it again does nothing.
    pipe.recycle_passed_pipes(&mut tracker, &noise);
    assert_eq!(pipe.position, Point2 { x: 473_000, y: 26_700 });
    assert_eq!(tracker.pipes_seen(), 1);
}

#[test]
fn recycling_keeps_dormant_and_ready_segments_as_they_are() {
    let mut tracker = placed();
    let mut pipe = PipeEntity::new(base(), (-27_000, 0), 500_000);
    pipe.recycle_passed_pipes(&mut tracker, &flat);
    assert_eq!(pipe.scoring_pipe, ScoringPipe::Dormant);
    let mut pipe = PipeEntity::new(base(), (-27_000, 0), 500_000);
    pipe.scoring_pipe = ScoringPipe::ReadyToScore;
    pipe.recycle_passed_pipes(&mut tracker, &flat);
    assert_eq!(pipe.scoring_pipe, ScoringPipe::ReadyToScore);
    pipe.scoring_pipe = ScoringPipe::Scored;
    pipe.reset_scored_pipes();
    assert_eq!(pipe.scoring_pipe, ScoringPipe::ReadyToScore);
}

#[test]
fn one_recycle_for_each_traversal_of_the_lane() {
    let mut tracker = placed();
    let start = Point2 { x: 200_000, y: 20_500 };
    let mut pipe = PipeEntity::new(tip(), (start.x, start.y), 260_000);
    let mut recycles = 0;
    for lap in 1..=3 {
        for _ in 0..260 {
            let before = pipe.position.x;
            pipe.update(&mut tracker, &PlayState::Play, &flat);
            if pipe.position.x > before {
                recycles += 1;
                assert_eq!(pipe.position.x, before - 1_000 + 260_000);
            }
        }
        assert_eq!(recycles, lap);
        assert_eq!(pipe.position.x, start.x);
    }
    assert_eq!(pipe.position.y, start.y);
}

#[test]
fn a_point_is_given_once_for_each_pass() {
    let mut pipe = PipeEntity::new(tip(), (20_001, 0), 260_000);
    pipe.scoring_pipe = ScoringPipe::ReadyToScore;
    assert!(!pipe.set_scored(&PlayState::Play));
    assert_eq!(pipe.scoring_pipe, ScoringPipe::ReadyToScore);
    pipe.position.x = 20_000;
    assert!(!pipe.set_scored(&PlayState::StartScreen));
    assert!(!pipe.set_scored(&PlayState::Dead { time: 1 }));
    assert_eq!(pipe.scoring_pipe, ScoringPipe::ReadyToScore);
    assert!(pipe.set_scored(&PlayState::Play));
    assert_eq!(pipe.scoring_pipe, ScoringPipe::Scored);
    for x in [20_000, 19_000, 0, -26_000] {
        pipe.position.x = x;
        assert!(!pipe.set_scored(&PlayState::Play));
        assert_eq!(pipe.scoring_pipe, ScoringPipe::Scored);
    }
    let mut tracker = placed();
    pipe.update(&mut tracker, &PlayState::Play, &flat);
    assert_eq!(pipe.scoring_pipe, ScoringPipe::ReadyToScore);
    assert!(!pipe.set_scored(&PlayState::Play));
    pipe.position.x = 20_000;
    assert!(pipe.set_scored(&PlayState::Play));
}

#[test]
fn dormant_segments_never_score() {
    let mut pipe = PipeEntity::new(base(), (0, 0), 260_000);
    assert!(!pipe.set_scored(&PlayState::Play));
    assert_eq!(pipe.scoring_pipe, ScoringPipe::Dormant);
}

#[test]
fn a_segment_covers_its_sprite_at_its_place() {
    let pipe = PipeEntity::new(base(), (200_000, 89_500), 260_000);
    assert_eq!(pipe.get_rect(), Rect::new(200_000, 89_500, 26_000, 16_000));
}

#[test]
fn a_segment_is_drawn_at_its_place() {
    let mut pipe = PipeEntity::new(base(), (200_000, 89_500), 260_000);
    let command = pipe.draw();
    assert_eq!(command, base().draw_params(Point2::new(200_000, 89_500)));
    assert_eq!(command.src, Rect::new(0, 12_000, 26_000, 16_000));
}
