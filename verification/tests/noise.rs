use flappy_crab::noise::sample_at;

#[test]
fn the_sampler_is_asked_at_the_given_time() {
    assert_eq!(sample_at(&|t: i64| t + 1, 5), 6);
    assert_eq!(sample_at(&|t: i64| -t, i64::MAX), -i64::MAX);
    let table = [3i64, 1, 4];
    assert_eq!(sample_at(&|t: i64| table[(t / 600) as usize], 1_200), 4);
}
