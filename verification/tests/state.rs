use flappy_crab::entity::PlayState;

#[test]
fn only_play_is_playing() {
    assert!(PlayState::Play.is_playing());
    assert!(!PlayState::StartScreen.is_playing());
    assert!(!PlayState::Dead { time: 0 }.is_playing());
}

#[test]
fn start_screen_and_play_are_not_dead() {
    assert!(PlayState::StartScreen.is_not_dead());
    assert!(PlayState::Play.is_not_dead());
    assert!(!PlayState::Dead { time: 3 }.is_not_dead());
}

#[test]
fn set_dead_records_the_time() {
    let mut state = PlayState::Play;
    state.set_dead(7);
    assert_eq!(state, PlayState::Dead { time: 7 });
    let mut state = PlayState::StartScreen;
    state.set_dead(u64::MAX);
    assert_eq!(state, PlayState::Dead { time: u64::MAX });
}
