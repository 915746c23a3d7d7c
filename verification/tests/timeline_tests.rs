use intro_rs::timeline::{
    camera_setup, frame, setup_random_camera, shot_seconds, shot_seed, update_world, CameraMode,
    CameraSetup, Director, CAMERA_SEED_BASE, FIRST_RANDOM_CAMERA, SHOT_COUNT,
};

#[test]
fn shot_tables_match_the_script() {
    assert_eq!(shot_seconds(0), 2);
    assert_eq!(shot_seconds(10), 14);
    assert_eq!(shot_seconds(37), 20);
    assert_eq!(shot_seed(0), 64);
    assert_eq!(shot_seed(8), 1649);
    assert_eq!(shot_seed(37), 1261);
    let total: u32 = (0..SHOT_COUNT).map(|i| shot_seconds(i) as u32).sum();
    assert_eq!(total, 178);
}

#[test]
fn camera_setup_offsets_the_seed() {
    assert_eq!(
        camera_setup(64, CameraMode::Flight),
        CameraSetup { rng_seed: 9231313, orbit: false }
    );
    assert_eq!(
        camera_setup(0, CameraMode::Orbit),
        CameraSetup { rng_seed: CAMERA_SEED_BASE, orbit: true }
    );
}

#[test]
fn update_world_cuts_to_the_next_shot() {
    let mut d = Director::new();
    let setup = update_world(&mut d);
    assert_eq!(setup, CameraSetup { rng_seed: 9231249 + 64, orbit: false });
    assert_eq!(d.play_pos, 1);
    assert_eq!(d.delay_counter, 120);
    assert_eq!(d.camera_mode, CameraMode::Flight);
    assert_eq!(d.frames_since_cut, 0);
}

#[test]
fn orbit_shots_are_21_to_33() {
    let mut d = Director::new();
    for i in 0..SHOT_COUNT {
        let setup = update_world(&mut d);
        let orbit = (21..=33).contains(&i);
        assert_eq!(setup.orbit, orbit, "shot {}", i);
        assert_eq!(d.camera_mode == CameraMode::Orbit, orbit);
        assert_eq!(setup.rng_seed, CAMERA_SEED_BASE + shot_seed(i) as u32);
        assert_eq!(d.delay_counter, shot_seconds(i) as u32 * 60);
    }
    assert_eq!(d.play_pos, SHOT_COUNT);
}

#[test]
fn first_frame_cuts_then_counts_down() {
    let mut d = Director::new();
    let step = frame(&mut d);
    assert_eq!(step.cut, Some(CameraSetup { rng_seed: 9231249 + 64, orbit: false }));
    assert_eq!(step.remaining, 119);
    assert_eq!(step.frames_since_cut, 1);
    assert_eq!(step.camera_mode, CameraMode::Flight);
    for k in 2..=120u32 {
        let step = frame(&mut d);
        assert_eq!(step.cut, None);
        assert_eq!(step.frames_since_cut, k);
        assert_eq!(step.remaining, 120 - k);
    }
    let step = frame(&mut d);
    assert_eq!(step.cut, Some(CameraSetup { rng_seed: 9231249 + 434, orbit: false }));
    assert_eq!(step.frames_since_cut, 1);
    assert_eq!(step.remaining, 119);
}

#[test]
fn whole_script_runs_10680_frames() {
    let mut d = Director::new();
    let mut frames: u32 = 0;
    let mut cuts: usize = 0;
    while d.is_running() {
        let step = frame(&mut d);
        frames += 1;
        if step.cut.is_some() {
            cuts += 1;
        }
    }
    assert_eq!(frames, 10680);
    assert_eq!(cuts, SHOT_COUNT);
    assert_eq!(d.play_pos, SHOT_COUNT);
    assert_eq!(d.delay_counter, 0);
}

#[test]
fn random_camera_takes_the_next_seed() {
    let mut d = Director::new();
    let setup = setup_random_camera(&mut d);
    assert_eq!(d.cam_count, FIRST_RANDOM_CAMERA + 1);
    assert_eq!(d.camera_mode, CameraMode::Orbit);
    assert_eq!(setup, CameraSetup { rng_seed: 9231249 + 1101, orbit: true });
    assert_eq!(d.play_pos, 0);
    assert_eq!(d.delay_counter, 0);
}

#[test]
fn a_cut_resets_the_mode_after_a_random_camera() {
    let mut d = Director::new();
    setup_random_camera(&mut d);
    let step = frame(&mut d);
    assert_eq!(step.camera_mode, CameraMode::Flight);
    assert_eq!(d.cam_count, 1101);
}
