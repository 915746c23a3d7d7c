use intro_rs::controls::{
    lbutton_down, lbutton_up, motion_fits, rbutton_down, rbutton_up, set_pos, CameraNudge, Mouse,
};
use intro_rs::timeline::{CameraMode, CameraSetup, Director};

#[test]
fn moving_without_a_button_only_records() {
    let mut m = Mouse::new();
    assert_eq!(set_pos(&mut m, 40, 50, false), CameraNudge::Still);
    assert_eq!((m.old_x, m.old_y), (40, 50));
    assert!(!m.moving_camera && !m.rotating_camera);
}

#[test]
fn left_drag_slides_and_raises() {
    let mut m = Mouse::new();
    lbutton_down(&mut m, 10, 20);
    assert!(m.moving_camera && !m.rotating_camera);
    assert_eq!(set_pos(&mut m, 13, 25, false), CameraNudge::Slide { dx: 3, dy: 5 });
    assert_eq!(set_pos(&mut m, 100, 15, true), CameraNudge::Raise { dy: -10 });
    assert_eq!((m.old_x, m.old_y), (100, 15));
    lbutton_up(&mut m);
    assert!(!m.moving_camera);
    assert_eq!(set_pos(&mut m, 0, 0, false), CameraNudge::Still);
}

#[test]
fn right_drag_turns() {
    let mut m = Mouse::new();
    rbutton_down(&mut m, -5, 7);
    assert!(m.rotating_camera && !m.moving_camera);
    assert_eq!(set_pos(&mut m, 0, 0, true), CameraNudge::Turn { dx: 5, dy: -7 });
    assert_eq!(set_pos(&mut m, 3, 1, false), CameraNudge::Turn { dx: 3, dy: 1 });
}

#[test]
fn button_downs_exclude_each_other() {
    let mut m = Mouse::new();
    lbutton_down(&mut m, 1, 1);
    rbutton_down(&mut m, 2, 2);
    assert!(m.rotating_camera && !m.moving_camera);
    lbutton_down(&mut m, 3, 3);
    assert!(m.moving_camera && !m.rotating_camera);
}

#[test]
fn right_release_switches_to_a_random_orbit_camera() {
    let mut m = Mouse::new();
    let mut d = Director::new();
    rbutton_down(&mut m, 4, 4);
    let setup = rbutton_up(&mut m, &mut d);
    assert!(!m.rotating_camera);
    assert_eq!((m.old_x, m.old_y), (4, 4));
    assert_eq!(setup, CameraSetup { rng_seed: 9231249 + 1101, orbit: true });
    assert_eq!(d.camera_mode, CameraMode::Orbit);
    assert_eq!(d.cam_count, 1101);
    let setup = rbutton_up(&mut m, &mut d);
    assert_eq!(setup.rng_seed, 9231249 + 1102);
}

#[test]
fn motion_fits_checks_only_the_deltas_in_use() {
    let mut m = Mouse::new();
    assert!(motion_fits(&m, i32::MIN, i32::MAX, false));
    rbutton_down(&mut m, i32::MAX, 0);
    assert!(!motion_fits(&m, i32::MIN, 0, false));
    assert!(motion_fits(&m, 0, 0, false));
    lbutton_down(&mut m, i32::MAX, 0);
    assert!(motion_fits(&m, i32::MIN, 0, true));
    assert!(!motion_fits(&m, i32::MIN, 0, false));
}

#[test]
fn turns_add_up_to_the_pointer_travel() {
    let mut split = Mouse::new();
    rbutton_down(&mut split, 10, 10);
    let mut direct = split;
    let first = set_pos(&mut split, 25, -4, false);
    let second = set_pos(&mut split, 7, 30, false);
    let whole = set_pos(&mut direct, 7, 30, false);
    match (first, second, whole) {
        (
            CameraNudge::Turn { dx: a, dy: b },
            CameraNudge::Turn { dx: c, dy: d },
            CameraNudge::Turn { dx: e, dy: f },
        ) => {
            assert_eq!((a + c, b + d), (e, f));
            assert_eq!((e, f), (-3, 20));
        }
        _ => panic!("a right drag turns the camera"),
    }
}

#[test]
fn a_slide_follows_the_whole_travel() {
    let mut m = Mouse::new();
    lbutton_down(&mut m, 100, 200);
    let path = [(130, 190), (90, 260), (-40, 0), (101, 222)];
    let (mut sx, mut sy) = (0, 0);
    for (x, y) in path {
        match set_pos(&mut m, x, y, false) {
            CameraNudge::Slide { dx, dy } => {
                sx += dx;
                sy += dy;
            }
            _ => panic!("a left drag slides the camera"),
        }
    }
    assert_eq!((sx, sy), (1, 22));
}

#[test]
fn a_raise_follows_the_vertical_travel() {
    let mut m = Mouse::new();
    lbutton_down(&mut m, 0, 0);
    let mut sy = 0;
    for (x, y) in [(5, 9), (-3, -4), (8, 12)] {
        match set_pos(&mut m, x, y, true) {
            CameraNudge::Raise { dy } => sy += dy,
            _ => panic!("a left drag with Ctrl raises the camera"),
        }
    }
    assert_eq!(sy, 12);
}

#[test]
fn events_never_leave_two_drags_active() {
    let mut m = Mouse::new();
    let mut d = Director::new();
    lbutton_down(&mut m, 0, 0);
    rbutton_down(&mut m, 1, 1);
    assert!(!(m.moving_camera && m.rotating_camera));
    set_pos(&mut m, 2, 2, false);
    lbutton_down(&mut m, 3, 3);
    assert!(!(m.moving_camera && m.rotating_camera));
    rbutton_up(&mut m, &mut d);
    lbutton_up(&mut m);
    assert!(!m.moving_camera && !m.rotating_camera);
}
