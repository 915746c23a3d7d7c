use vstd::prelude::*;

verus! {

/// Number of shots in the camera script.
pub const SHOT_COUNT: usize = 38;

/// Frames shown per second of a shot.
pub const FRAMES_PER_SECOND: u32 = 60;

/// Added to a shot's seed to seed the camera's random generator.
pub const CAMERA_SEED_BASE: u32 = 9231249;

/// The counter from which random (user-requested) cameras take their seeds.
pub const FIRST_RANDOM_CAMERA: u32 = 1100;

/// First shot filmed with the orbiting camera.
pub const ORBIT_FIRST_SHOT: usize = 21;

/// Last shot filmed with the orbiting camera.
pub const ORBIT_LAST_SHOT: usize = 33;

/// How the camera moves between two cuts.
#[derive(Clone, Copy, Debug, PartialEq, Eq, Structural)]
pub enum CameraMode {
    /// The camera flies along its velocity vector.
    Flight,
    /// The camera circles around the pivot in the middle of the map.
    Orbit,
}

/// What is needed to place the camera for a new shot: the seed of the
/// random generator that picks its position, rotation and speeds, and
/// whether the orbit parameters are drawn as well.
#[derive(Clone, Copy, Debug, PartialEq, Eq, Structural)]
pub struct CameraSetup {
    pub rng_seed: u32,
    pub orbit: bool,
}

/// Length, in seconds, of each shot of the script.
pub open spec fn shot_seconds_table() -> Seq<u16> {
    seq![
        2, 2, 4, 2, 2, 6,
        3, 3, 5, 4, 14, 3, 3, 6, 6,
        4, 8,
        3, 8, 6, 6,
        4, 4, 3,
        3,
        3, 5, 3, 3, 3, 3, 10,
        2,
        4, 4, 2, 2, 20,
    ]
}

/// Seed from which each shot's camera is drawn.
pub open spec fn shot_seed_table() -> Seq<u16> {
    seq![
        64, 434, 65, 798, 436, 1187,
        317, 298, 1649, 909, 724, 1453, 1007, 723, 1046,
        123, 1299,
        1120, 636, 613, 1006,
        449, 729, 398,
        353,
        942, 666, 345, 420, 495, 983, 741,
        1490,
        166, 151, 691, 1112, 1261,
    ]
}

/// Length of shot `i` in frames.
pub open spec fn shot_frames(i: int) -> int {
    shot_seconds_table()[i] * 60
}

/// Camera mode that the script prescribes for shot `i`.
pub open spec fn mode_for_shot(i: int) -> CameraMode {
    if ORBIT_FIRST_SHOT <= i <= ORBIT_LAST_SHOT {
        CameraMode::Orbit
    } else {
        CameraMode::Flight
    }
}

/// The camera placement drawn from `seed`, in the given mode.
pub open spec fn spec_camera_setup(seed: int, mode: CameraMode) -> CameraSetup {
    CameraSetup { rng_seed: (CAMERA_SEED_BASE + seed) as u32, orbit: mode == CameraMode::Orbit }
}

/// Length of the shot shown before the shot at `play_pos` starts (0 before the first cut).
pub open spec fn current_shot_frames(play_pos: int) -> int {
    if play_pos == 0 {
        0
    } else {
        shot_frames(play_pos - 1)
    }
}

/// Every shot of the script lasts at least two seconds.
pub proof fn lemma_shot_seconds_at_least_two(i: int)
    requires
        0 <= i < SHOT_COUNT,
    ensures
        shot_seconds_table()[i] >= 2,
        shot_frames(i) >= 120,
{
    assert(forall|j: int| 0 <= j < 38 ==> #[trigger] shot_seconds_table()[j] >= 2);
}

/// Length in seconds of shot `i`.
pub fn shot_seconds(i: usize) -> (secs: u16)
    requires
        i < SHOT_COUNT,
    ensures
        secs == shot_seconds_table()[i as int],
{
    let table: [u16; 38] = [
        2, 2, 4, 2, 2, 6,
        3, 3, 5, 4, 14, 3, 3, 6, 6,
        4, 8,
        3, 8, 6, 6,
        4, 4, 3,
        3,
        3, 5, 3, 3, 3, 3, 10,
        2,
        4, 4, 2, 2, 20,
    ];
    assert(table@ =~= shot_seconds_table());
    table[i]
}

/// Camera seed of shot `i`.
pub fn shot_seed(i: usize) -> (seed: u16)
    requires
        i < SHOT_COUNT,
    ensures
        seed == shot_seed_table()[i as int],
{
    let table: [u16; 38] = [
        64, 434, 65, 798, 436, 1187,
        317, 298, 1649, 909, 724, 1453, 1007, 723, 1046,
        123, 1299,
        1120, 636, 613, 1006,
        449, 729, 398,
        353,
        942, 666, 345, 420, 495, 983, 741,
        1490,
        166, 151, 691, 1112, 1261,
    ];
    assert(table@ =~= shot_seed_table());
    table[i]
}


/// Placement of the camera drawn from `seed`: the generator is seeded with
/// `CAMERA_SEED_BASE + seed`, and the orbit parameters are drawn in orbit mode.
pub fn camera_setup(seed: u32, mode: CameraMode) -> (setup: CameraSetup)
    requires
        CAMERA_SEED_BASE + seed <= u32::MAX,
    ensures
        setup == spec_camera_setup(seed as int, mode),
        setup.rng_seed == 9231249 + seed,
        setup.orbit == (mode == CameraMode::Orbit),
{
    CameraSetup { rng_seed: CAMERA_SEED_BASE + seed, orbit: matches!(mode, CameraMode::Orbit) }
}

/// The state of the scripted camera: which shot comes next, how many frames
/// are left in the current one, how many have been shown since the last cut,
/// the current camera mode, and the counter behind user-requested cameras.
#[derive(Clone, Copy, Debug, PartialEq, Eq, Structural)]
pub struct Director {
    pub play_pos: usize,
    pub delay_counter: u32,
    pub frames_since_cut: u32,
    pub camera_mode: CameraMode,
    pub cam_count: u32,
}

/// What a frame reports to the renderer: the new camera placement if the
/// frame starts a shot, the mode in which the camera moves this frame, the
/// frames left in the shot and the frames shown since the last cut.
#[derive(Clone, Copy, Debug, PartialEq, Eq, Structural)]
pub struct FrameStep {
    pub cut: Option<CameraSetup>,
    pub camera_mode: CameraMode,
    pub remaining: u32,
    pub frames_since_cut: u32,
}

impl Director {
    /// A director is consistent when it has not run past the script and the
    /// frames shown plus the frames left make up the current shot.
    pub open spec fn wf(self) -> bool {
        &&& self.play_pos <= SHOT_COUNT
        &&& self.frames_since_cut + self.delay_counter == current_shot_frames(self.play_pos as int)
    }

    /// Whether another frame can be shown: either the current shot goes on,
    /// or there is a shot left to cut to.
    pub open spec fn can_advance(self) -> bool {
        self.delay_counter > 0 || self.play_pos < SHOT_COUNT
    }

    /// The state before the first frame.
    pub open spec fn spec_new() -> Director {
        Director {
            play_pos: 0,
            delay_counter: 0,
            frames_since_cut: 0,
            camera_mode: CameraMode::Flight,
            cam_count: FIRST_RANDOM_CAMERA,
        }
    }

    /// The state before the first frame: no shot started yet, flight mode,
    /// user-requested cameras counting from `FIRST_RANDOM_CAMERA`.
    pub fn new() -> (d: Director)
        ensures
            d == Director::spec_new(),
            d.wf(),
    {
        Director {
            play_pos: 0,
            delay_counter: 0,
            frames_since_cut: 0,
            camera_mode: CameraMode::Flight,
            cam_count: FIRST_RANDOM_CAMERA,
        }
    }

    /// Whether another frame can be shown.
    pub fn is_running(&self) -> (b: bool)
        ensures
            b == self.can_advance(),
    {
        self.delay_counter > 0 || self.play_pos < SHOT_COUNT
    }
}

/// The director after a cut to shot `d.play_pos`.
pub open spec fn spec_update_world(d: Director) -> Director {
    Director {
        play_pos: (d.play_pos + 1) as usize,
        delay_counter: shot_frames(d.play_pos as int) as u32,
        camera_mode: mode_for_shot(d.play_pos as int),
        ..d
    }
}

/// The camera placement for the cut to shot `d.play_pos`.
pub open spec fn spec_cut_setup(d: Director) -> CameraSetup {
    spec_camera_setup(shot_seed_table()[d.play_pos as int] as int, mode_for_shot(d.play_pos as int))
}

/// The director and the report after one frame.
pub open spec fn spec_frame(d: Director) -> (Director, FrameStep) {
    let (d1, cut) = if d.delay_counter == 0 {
        (Director { frames_since_cut: 0, ..spec_update_world(d) }, Some(spec_cut_setup(d)))
    } else {
        (d, None)
    };
    let d2 = Director {
        delay_counter: (d1.delay_counter - 1) as u32,
        frames_since_cut: (d1.frames_since_cut + 1) as u32,
        ..d1
    };
    (d2, FrameStep {
        cut,
        camera_mode: d2.camera_mode,
        remaining: d2.delay_counter,
        frames_since_cut: d2.frames_since_cut,
    })
}

/// The script's shot lengths, in seconds, shot by shot.
pub proof fn lemma_shot_seconds_values()
    ensures
        shot_seconds_table() =~= seq![
            2u16, 2, 4, 2, 2, 6, 3, 3, 5, 4, 14, 3, 3, 6, 6, 4, 8, 3, 8, 6, 6, 4, 4, 3, 3, 3, 5, 3,
            3, 3, 3, 10, 2, 4, 4, 2, 2, 20,
        ],
        shot_seconds_table().len() == SHOT_COUNT,
{
}

/// The script's camera seeds, shot by shot.
pub proof fn lemma_shot_seed_values()
    ensures
        shot_seed_table() =~= seq![
            64u16, 434, 65, 798, 436, 1187, 317, 298, 1649, 909, 724, 1453, 1007, 723, 1046, 123,
            1299, 1120, 636, 613, 1006, 449, 729, 398, 353, 942, 666, 345, 420, 495, 983, 741, 1490,
            166, 151, 691, 1112, 1261,
        ],
        shot_seed_table().len() == SHOT_COUNT,
{
}

/// The camera orbits exactly during shots 21 to 33, and a placement seeds the
/// generator with 9231249 plus the shot's seed.
pub proof fn lemma_modes_and_seeds(i: int, seed: int, mode: CameraMode)
    requires
        0 <= seed,
        9231249 + seed <= u32::MAX,
    ensures
        (mode_for_shot(i) == CameraMode::Orbit) <==> (21 <= i && i <= 33),
        spec_camera_setup(seed, mode).rng_seed == 9231249 + seed,
        spec_camera_setup(seed, mode).orbit <==> mode == CameraMode::Orbit,
{
}

/// What one frame does. The report always describes the director after the
/// frame: the mode the camera moves in, the frames left and the frames since
/// the cut. While the shot has frames left, the frame only counts one down
/// and one up. When it has run out, the frame cuts to shot `p = play_pos`:
/// it reports the placement seeded with 9231249 plus the shot's seed, orbit
/// exactly for shots 21 to 33, switches to that mode, starts the shot's
/// 60 frames per second with this frame as its first, and moves on to shot
/// `p + 1`; the user-camera counter is untouched.
pub proof fn lemma_frame_behaviour(d: Director)
    requires
        d.wf(),
        d.can_advance(),
    ensures
        ({
            let (d2, step) = spec_frame(d);
            &&& step.camera_mode == d2.camera_mode
            &&& step.remaining == d2.delay_counter
            &&& step.frames_since_cut == d2.frames_since_cut
            &&& d2.cam_count == d.cam_count
            &&& d.delay_counter > 0 ==> {
                &&& step.cut is None
                &&& d2.play_pos == d.play_pos
                &&& d2.camera_mode == d.camera_mode
                &&& d2.delay_counter == d.delay_counter - 1
                &&& d2.frames_since_cut == d.frames_since_cut + 1
            }
            &&& d.delay_counter == 0 ==> {
                let p = d.play_pos as int;
                let orbit = 21 <= p && p <= 33;
                &&& step.cut == Some(CameraSetup {
                    rng_seed: (9231249 + shot_seed_table()[p]) as u32,
                    orbit,
                })
                &&& 9231249 + shot_seed_table()[p] <= u32::MAX
                &&& d2.camera_mode == (if orbit { CameraMode::Orbit } else { CameraMode::Flight })
                &&& d2.play_pos == p + 1
                &&& d2.delay_counter == shot_seconds_table()[p] * 60 - 1
                &&& d2.frames_since_cut == 1
            }
        }),
{
    if d.delay_counter == 0 {
        lemma_shot_seconds_at_least_two(d.play_pos as int);
        assert(forall|j: int| 0 <= j < 38 ==> #[trigger] shot_seed_table()[j] <= 1649);
    }
}

/// The director after `n` frames.
pub open spec fn run(d: Director, n: nat) -> Director
    decreases n,
{
    if n == 0 {
        d
    } else {
        run(spec_frame(d).0, (n - 1) as nat)
    }
}

/// While a shot still has frames left, a frame only counts down: it neither
/// cuts nor changes the camera mode.
pub proof fn lemma_frames_within_shot(d: Director, n: nat)
    requires
        d.wf(),
        n <= d.delay_counter,
    ensures
        run(d, n) == (Director {
            delay_counter: (d.delay_counter - n) as u32,
            frames_since_cut: (d.frames_since_cut + n) as u32,
            ..d
        }),
        run(d, n).wf(),
    decreases n,
{
    if n > 0 {
        let d1 = spec_frame(d).0;
        assert(d1 == Director {
            delay_counter: (d.delay_counter - 1) as u32,
            frames_since_cut: (d.frames_since_cut + 1) as u32,
            ..d
        });
        lemma_frames_within_shot(d1, (n - 1) as nat);
    }
}

/// Each shot stays on screen for exactly its length: from a director whose
/// shot has run out, the first frame cuts to shot `d.play_pos`, the next cut
/// comes after `shot_frames(d.play_pos)` frames, and in between the shot and
/// its camera mode stay as the cut set them.
pub proof fn lemma_shot_lasts_its_length(d: Director)
    requires
        d.wf(),
        d.delay_counter == 0,
        d.play_pos < SHOT_COUNT,
    ensures
        spec_frame(d).1.cut == Some(spec_cut_setup(d)),
        forall|k: nat|
            1 <= k <= shot_frames(d.play_pos as int) ==> {
                &&& #[trigger] run(d, k).play_pos == d.play_pos + 1
                &&& run(d, k).camera_mode == mode_for_shot(d.play_pos as int)
                &&& run(d, k).cam_count == d.cam_count
                &&& run(d, k).frames_since_cut == k
                &&& run(d, k).delay_counter == shot_frames(d.play_pos as int) - k
                &&& (k < shot_frames(d.play_pos as int) ==> spec_frame(run(d, k)).1.cut is None)
            },
{
    lemma_shot_seconds_at_least_two(d.play_pos as int);
    let d1 = spec_frame(d).0;
    assert(d1.wf());
    assert forall|k: nat|
        1 <= k <= shot_frames(d.play_pos as int) implies {
            &&& #[trigger] run(d, k).play_pos == d.play_pos + 1
            &&& run(d, k).camera_mode == mode_for_shot(d.play_pos as int)
            &&& run(d, k).cam_count == d.cam_count
            &&& run(d, k).frames_since_cut == k
            &&& run(d, k).delay_counter == shot_frames(d.play_pos as int) - k
            &&& (k < shot_frames(d.play_pos as int) ==> spec_frame(run(d, k)).1.cut is None)
        } by {
        assert(run(d, k) == run(d1, (k - 1) as nat));
        lemma_frames_within_shot(d1, (k - 1) as nat);
    }
}

/// Number of frames taken by the first `i` shots of the script.
pub open spec fn script_frames(i: nat) -> int
    decreases i,
{
    if i == 0 {
        0
    } else {
        script_frames((i - 1) as nat) + shot_frames(i - 1)
    }
}

/// Running `a` frames and then `b` more is running `a + b` frames.
pub proof fn lemma_run_add(d: Director, a: nat, b: nat)
    ensures
        run(run(d, a), b) == run(d, a + b),
    decreases a,
{
    if a > 0 {
        lemma_run_add(spec_frame(d).0, (a - 1) as nat, b);
        assert((a - 1) as nat + b == (a + b - 1) as nat);
    }
}

/// Played from the start without interruption, shot `i` begins on frame
/// `script_frames(i) + 1`: after `script_frames(i)` frames the first `i`
/// shots are done and the last of them has just run out.
pub proof fn lemma_script_schedule(d: Director, i: nat)
    requires
        d == Director::spec_new(),
        i <= SHOT_COUNT,
    ensures
        run(d, script_frames(i) as nat) == (Director {
            play_pos: i as usize,
            delay_counter: 0,
            frames_since_cut: current_shot_frames(i as int) as u32,
            camera_mode: if i == 0 { CameraMode::Flight } else { mode_for_shot(i - 1) },
            cam_count: FIRST_RANDOM_CAMERA,
        }),
        script_frames(i) >= 0,
    decreases i,
{
    if i > 0 {
        let p = (i - 1) as nat;
        lemma_script_schedule(d, p);
        lemma_shot_seconds_at_least_two(p as int);
        let before = run(d, script_frames(p) as nat);
        let len = shot_frames(p as int);
        let d1 = spec_frame(before).0;
        assert(d1.wf());
        lemma_frames_within_shot(d1, (len - 1) as nat);
        assert(run(d1, 0) == d1);
        assert(run(before, 1) == d1);
        lemma_run_add(before, 1, (len - 1) as nat);
        let after = run(before, len as nat);
        assert(after == Director {
            play_pos: i as usize,
            delay_counter: 0,
            frames_since_cut: current_shot_frames(i as int) as u32,
            camera_mode: mode_for_shot(i - 1),
            cam_count: FIRST_RANDOM_CAMERA,
        });
        lemma_run_add(d, script_frames(p) as nat, len as nat);
        assert(script_frames(p) as nat + len as nat == script_frames(i) as nat);
    }
}

/// The whole script lasts 178 seconds, 10680 frames; after them the director
/// has no shot left and cannot advance.
pub proof fn lemma_script_length(d: Director)
    requires
        d == Director::spec_new(),
    ensures
        script_frames(SHOT_COUNT as nat) == 10680,
        run(d, 10680).play_pos == SHOT_COUNT,
        !run(d, 10680).can_advance(),
{
    reveal_with_fuel(script_frames, 39);
    lemma_script_schedule(d, SHOT_COUNT as nat);
}

/// Cuts to the next shot of the script: sets the camera mode that the script
/// gives the shot (orbit for shots 21 to 33), starts its countdown of
/// 60 frames per second, moves to the following shot and returns the
/// placement to draw the camera from.
pub fn update_world(d: &mut Director) -> (setup: CameraSetup)
    requires
        old(d).play_pos < SHOT_COUNT,
    ensures
        *final(d) == spec_update_world(*old(d)),
        setup == spec_cut_setup(*old(d)),
        final(d).play_pos == old(d).play_pos + 1,
        final(d).delay_counter == shot_seconds_table()[old(d).play_pos as int] * 60,
        (final(d).camera_mode == CameraMode::Orbit) <==> (21 <= old(d).play_pos && old(d).play_pos <= 33),
        setup.rng_seed == 9231249 + shot_seed_table()[old(d).play_pos as int],
        setup.orbit <==> (21 <= old(d).play_pos && old(d).play_pos <= 33),
{
    let pos = d.play_pos;
    let mode = if ORBIT_FIRST_SHOT <= pos && pos <= ORBIT_LAST_SHOT {
        CameraMode::Orbit
    } else {
        CameraMode::Flight
    };
    let secs = shot_seconds(pos);
    let seed = shot_seed(pos);
    d.camera_mode = mode;
    d.delay_counter = secs as u32 * FRAMES_PER_SECOND;
    d.play_pos = pos + 1;
    camera_setup(seed as u32, mode)
}

/// Advances the script by one frame: when the current shot has run out, cuts
/// to the next one and restarts the count of frames since the cut; then
/// counts the frame.
pub fn frame(d: &mut Director) -> (step: FrameStep)
    requires
        old(d).wf(),
        old(d).can_advance(),
    ensures
        final(d).wf(),
        (*final(d), step) == spec_frame(*old(d)),
        step.camera_mode == final(d).camera_mode,
        step.remaining == final(d).delay_counter,
        step.frames_since_cut == final(d).frames_since_cut,
        step.cut is Some <==> old(d).delay_counter == 0,
{
    let mut cut: Option<CameraSetup> = None;
    if d.delay_counter == 0 {
        let setup = update_world(d);
        d.frames_since_cut = 0;
        cut = Some(setup);
    }
    proof {
        if old(d).delay_counter == 0 {
            lemma_shot_seconds_at_least_two(old(d).play_pos as int);
        }
    }
    d.delay_counter = d.delay_counter - 1;
    d.frames_since_cut = d.frames_since_cut + 1;
    FrameStep {
        cut,
        camera_mode: d.camera_mode,
        remaining: d.delay_counter,
        frames_since_cut: d.frames_since_cut,
    }
}

/// Switches to a camera the user asked for: takes the next seed from the
/// counter and places an orbiting camera from it.
pub fn setup_random_camera(d: &mut Director) -> (setup: CameraSetup)
    requires
        old(d).cam_count < u32::MAX - CAMERA_SEED_BASE,
    ensures
        *final(d) == (Director { cam_count: (old(d).cam_count + 1) as u32, camera_mode: CameraMode::Orbit, ..*old(d) }),
        setup == spec_camera_setup(old(d).cam_count + 1, CameraMode::Orbit),
{
    d.cam_count = d.cam_count + 1;
    let setup = camera_setup(d.cam_count, CameraMode::Orbit);
    d.camera_mode = CameraMode::Orbit;
    setup
}

} // verus!
