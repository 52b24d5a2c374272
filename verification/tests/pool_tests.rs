use keysounds::events::SoundCategory;
use keysounds::pools::{wav_glob_pattern, SamplePools};

#[test]
fn empty_keydown_pool_fails_startup() {
    let err = SamplePools::new(0, 3, 3, 3).unwrap_err();
    assert_eq!(err.category, SoundCategory::KeyDown);
}

#[test]
fn empty_pools_reported_in_order() {
    assert_eq!(SamplePools::new(0, 0, 0, 0).unwrap_err().category, SoundCategory::KeyDown);
    assert_eq!(SamplePools::new(1, 0, 0, 0).unwrap_err().category, SoundCategory::KeyUp);
    assert_eq!(SamplePools::new(1, 1, 0, 0).unwrap_err().category, SoundCategory::MouseDown);
    assert_eq!(SamplePools::new(1, 1, 1, 0).unwrap_err().category, SoundCategory::MouseUp);
}

#[test]
fn non_empty_pools_pass_startup() {
    let pools = SamplePools::new(4, 3, 2, 1).unwrap();
    assert_eq!(pools.size(SoundCategory::KeyDown), 4);
    assert_eq!(pools.size(SoundCategory::KeyUp), 3);
    assert_eq!(pools.size(SoundCategory::MouseDown), 2);
    assert_eq!(pools.size(SoundCategory::MouseUp), 1);
}

#[test]
fn draw_is_spread_over_the_whole_pool() {
    // 400 draws from a pool of 4: every index must stay in range, and
    // with a uniform draw each index appears close to 100 times; even a
    // very loose lower bound of 20 fails with probability far below
    // anything observable if the draw is uniform.
    let pools = SamplePools::new(4, 1, 1, 1).unwrap();
    let mut counts = [0usize; 4];
    for _ in 0..400 {
        let i = pools.draw(SoundCategory::KeyDown);
        assert!(i < 4);
        counts[i] += 1;
    }
    for &c in counts.iter() {
        assert!(c >= 20, "draw distribution far from uniform: {:?}", counts);
    }
}

#[test]
fn draw_from_singleton_pool_is_the_only_index() {
    let pools = SamplePools::new(1, 1, 1, 1).unwrap();
    for _ in 0..10 {
        assert_eq!(pools.draw(SoundCategory::MouseUp), 0);
    }
}

#[test]
fn wav_glob_pattern_appends_the_wav_selector() {
    assert_eq!(wav_glob_pattern("./audio/keydown"), "./audio/keydown/*.wav");
    assert_eq!(wav_glob_pattern(""), "/*.wav");
}
