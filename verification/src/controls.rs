use vstd::prelude::*;

use crate::timeline::{setup_random_camera, spec_camera_setup, CameraMode, CameraSetup, Director, CAMERA_SEED_BASE};

verus! {

/// Pointer state of the free-camera controls: the last pointer position and
/// whether a left drag moves the camera or a right drag turns it.
#[derive(Clone, Copy, Debug, PartialEq, Eq, Structural)]
pub struct Mouse {
    pub old_x: i32,
    pub old_y: i32,
    pub moving_camera: bool,
    pub rotating_camera: bool,
}

/// How the camera is to follow a pointer move, in pointer units. The camera
/// position moves by 1/32 of a unit per unit, its rotation by 1/1024.
#[derive(Clone, Copy, Debug, PartialEq, Eq, Structural)]
pub enum CameraNudge {
    /// The pointer moved with no button held.
    Still,
    /// Left drag with Ctrl held: the camera rises by `dy`.
    Raise { dy: i32 },
    /// Left drag: the camera slides by `dx` across and `dy` forward.
    Slide { dx: i32, dy: i32 },
    /// Right drag: the camera pitches by `dy` and yaws by `dx`.
    Turn { dx: i32, dy: i32 },
}

/// Whether `v` is a value of `i32`.
pub open spec fn fits_i32(v: int) -> bool {
    i32::MIN <= v <= i32::MAX
}

impl Mouse {
    /// A left drag and a right drag never run at once.
    pub open spec fn wf(self) -> bool {
        !(self.moving_camera && self.rotating_camera)
    }

    /// The state at start-up: pointer at the origin, no drag.
    pub fn new() -> (m: Mouse)
        ensures
            m == (Mouse { old_x: 0, old_y: 0, moving_camera: false, rotating_camera: false }),
            m.wf(),
    {
        Mouse { old_x: 0, old_y: 0, moving_camera: false, rotating_camera: false }
    }

    /// Whether the motion from the last position to (`x`, `y`) can be taken
    /// in `i32` for the deltas that the current drag uses.
    pub open spec fn motion_fits(self, x: i32, y: i32, ctrl: bool) -> bool {
        &&& (self.moving_camera || self.rotating_camera) ==> fits_i32(y - self.old_y)
        &&& (self.rotating_camera || (self.moving_camera && !ctrl)) ==> fits_i32(x - self.old_x)
    }

    /// The nudge that a move of the pointer to (`x`, `y`) asks for.
    pub open spec fn spec_nudge(self, x: i32, y: i32, ctrl: bool) -> CameraNudge {
        if self.moving_camera {
            if ctrl {
                CameraNudge::Raise { dy: (y - self.old_y) as i32 }
            } else {
                CameraNudge::Slide { dx: (x - self.old_x) as i32, dy: (y - self.old_y) as i32 }
            }
        } else if self.rotating_camera {
            CameraNudge::Turn { dx: (x - self.old_x) as i32, dy: (y - self.old_y) as i32 }
        } else {
            CameraNudge::Still
        }
    }
}

/// Sideways part of a nudge, in pointer units.
pub open spec fn nudge_dx(n: CameraNudge) -> int {
    match n {
        CameraNudge::Slide { dx, .. } => dx as int,
        CameraNudge::Turn { dx, .. } => dx as int,
        _ => 0,
    }
}

/// Vertical (or forward) part of a nudge, in pointer units.
pub open spec fn nudge_dy(n: CameraNudge) -> int {
    match n {
        CameraNudge::Still => 0,
        CameraNudge::Raise { dy } => dy as int,
        CameraNudge::Slide { dy, .. } => dy as int,
        CameraNudge::Turn { dy, .. } => dy as int,
    }
}

/// The pointer state after the first `k` of the moves to (`xs[j]`, `ys[j]`).
pub open spec fn mouse_after_moves(m: Mouse, xs: Seq<i32>, ys: Seq<i32>, k: int) -> Mouse {
    if k <= 0 {
        m
    } else {
        Mouse { old_x: xs[k - 1], old_y: ys[k - 1], ..m }
    }
}

/// Whether each of the first `k` moves fits in `i32`, as `set_pos` requires.
pub open spec fn moves_fit(m: Mouse, xs: Seq<i32>, ys: Seq<i32>, ctrl: bool, k: int) -> bool {
    forall|j: int|
        0 <= j < k ==> #[trigger] mouse_after_moves(m, xs, ys, j).motion_fits(xs[j], ys[j], ctrl)
}

/// Sum of the sideways parts of the nudges reported for the first `k` moves.
pub open spec fn drag_dx(m: Mouse, xs: Seq<i32>, ys: Seq<i32>, ctrl: bool, k: nat) -> int
    decreases k,
{
    if k == 0 {
        0
    } else {
        drag_dx(m, xs, ys, ctrl, (k - 1) as nat) + nudge_dx(
            mouse_after_moves(m, xs, ys, k - 1).spec_nudge(xs[k - 1], ys[k - 1], ctrl),
        )
    }
}

/// Sum of the vertical parts of the nudges reported for the first `k` moves.
pub open spec fn drag_dy(m: Mouse, xs: Seq<i32>, ys: Seq<i32>, ctrl: bool, k: nat) -> int
    decreases k,
{
    if k == 0 {
        0
    } else {
        drag_dy(m, xs, ys, ctrl, (k - 1) as nat) + nudge_dy(
            mouse_after_moves(m, xs, ys, k - 1).spec_nudge(xs[k - 1], ys[k - 1], ctrl),
        )
    }
}

/// Over a drag, the camera follows the pointer's whole travel, whatever the
/// positions in between: the nudges of `k` moves add up to the distance from
/// where the drag was to where the last move ends (with Ctrl in a left drag,
/// only the vertical part counts).
pub proof fn lemma_drag_travel(m: Mouse, xs: Seq<i32>, ys: Seq<i32>, ctrl: bool, k: nat)
    requires
        m.wf(),
        m.moving_camera || m.rotating_camera,
        0 < k <= xs.len(),
        k <= ys.len(),
        moves_fit(m, xs, ys, ctrl, k as int),
    ensures
        drag_dy(m, xs, ys, ctrl, k) == ys[k - 1] - m.old_y,
        drag_dx(m, xs, ys, ctrl, k) == if m.moving_camera && ctrl { 0 } else { xs[k - 1] - m.old_x },
    decreases k,
{
    let last = mouse_after_moves(m, xs, ys, k - 1);
    assert(last.motion_fits(xs[k - 1], ys[k - 1], ctrl));
    let n = last.spec_nudge(xs[k - 1], ys[k - 1], ctrl);
    assert(nudge_dy(n) == ys[k - 1] - last.old_y);
    assert(nudge_dx(n) == if m.moving_camera && ctrl { 0 } else { xs[k - 1] - last.old_x });
    assert(drag_dy(m, xs, ys, ctrl, 0) == 0);
    assert(drag_dx(m, xs, ys, ctrl, 0) == 0);
    if k > 1 {
        assert(moves_fit(m, xs, ys, ctrl, (k - 1) as int));
        lemma_drag_travel(m, xs, ys, ctrl, (k - 1) as nat);
    }
}

/// A pointer event, as the window reports it.
#[derive(Clone, Copy, Debug, PartialEq, Eq, Structural)]
pub enum MouseEvent {
    Move { x: i32, y: i32, ctrl: bool },
    LeftDown { x: i32, y: i32 },
    LeftUp,
    RightDown { x: i32, y: i32 },
    RightUp,
}

/// The pointer state after an event.
pub open spec fn after_event(m: Mouse, e: MouseEvent) -> Mouse {
    match e {
        MouseEvent::Move { x, y, .. } => Mouse { old_x: x, old_y: y, ..m },
        MouseEvent::LeftDown { x, y } => Mouse { old_x: x, old_y: y, moving_camera: true, rotating_camera: false },
        MouseEvent::LeftUp => Mouse { moving_camera: false, ..m },
        MouseEvent::RightDown { x, y } => Mouse { old_x: x, old_y: y, moving_camera: false, rotating_camera: true },
        MouseEvent::RightUp => Mouse { rotating_camera: false, ..m },
    }
}

/// The pointer state after the events `es`, in order.
pub open spec fn after_events(m: Mouse, es: Seq<MouseEvent>) -> Mouse
    decreases es.len(),
{
    if es.len() == 0 {
        m
    } else {
        after_event(after_events(m, es.drop_last()), es.last())
    }
}

/// At most one drag is ever active: from a state with no two drags at once,
/// every sequence of pointer events leads to a state with no two drags at
/// once, so a move either slides or turns the camera, never both.
pub proof fn lemma_one_drag_at_a_time(m: Mouse, es: Seq<MouseEvent>)
    requires
        m.wf(),
    ensures
        after_events(m, es).wf(),
    decreases es.len(),
{
    if es.len() > 0 {
        lemma_one_drag_at_a_time(m, es.drop_last());
    }
}

/// What kind of nudge a move reports, and by how much: a left drag slides
/// the camera by the pointer motion, or raises it by the vertical motion
/// when Ctrl is held; a right drag turns it by the pointer motion; with no
/// drag the camera stays still.
pub proof fn lemma_nudge_kinds(m: Mouse, x: i32, y: i32, ctrl: bool)
    requires
        m.wf(),
        m.motion_fits(x, y, ctrl),
    ensures
        m.moving_camera && !ctrl ==> m.spec_nudge(x, y, ctrl) == (CameraNudge::Slide {
            dx: (x - m.old_x) as i32,
            dy: (y - m.old_y) as i32,
        }),
        m.moving_camera && ctrl ==> m.spec_nudge(x, y, ctrl) == (CameraNudge::Raise { dy: (y - m.old_y) as i32 }),
        m.rotating_camera ==> m.spec_nudge(x, y, ctrl) == (CameraNudge::Turn {
            dx: (x - m.old_x) as i32,
            dy: (y - m.old_y) as i32,
        }),
        !m.moving_camera && !m.rotating_camera ==> m.spec_nudge(x, y, ctrl) == CameraNudge::Still,
        m.moving_camera && !ctrl ==> nudge_dx(m.spec_nudge(x, y, ctrl)) == x - m.old_x
            && nudge_dy(m.spec_nudge(x, y, ctrl)) == y - m.old_y,
        m.moving_camera && ctrl ==> nudge_dx(m.spec_nudge(x, y, ctrl)) == 0
            && nudge_dy(m.spec_nudge(x, y, ctrl)) == y - m.old_y,
        m.rotating_camera ==> nudge_dx(m.spec_nudge(x, y, ctrl)) == x - m.old_x
            && nudge_dy(m.spec_nudge(x, y, ctrl)) == y - m.old_y,
{
}

/// Whether the motion to (`x`, `y`) fits in `i32` for the current drag.
pub fn motion_fits(mouse: &Mouse, x: i32, y: i32, ctrl: bool) -> (b: bool)
    ensures
        b == mouse.motion_fits(x, y, ctrl),
{
    let dy = y as i64 - mouse.old_y as i64;
    let dx = x as i64 - mouse.old_x as i64;
    let dy_ok = i32::MIN as i64 <= dy && dy <= i32::MAX as i64;
    let dx_ok = i32::MIN as i64 <= dx && dx <= i32::MAX as i64;
    (!(mouse.moving_camera || mouse.rotating_camera) || dy_ok)
        && (!(mouse.rotating_camera || (mouse.moving_camera && !ctrl)) || dx_ok)
}

/// The pointer moved to (`x`, `y`): reports how the camera follows the
/// motion since the last position (a left drag moves it, upwards when Ctrl
/// is held; a right drag turns it) and records the new position.
pub fn set_pos(mouse: &mut Mouse, x: i32, y: i32, ctrl: bool) -> (nudge: CameraNudge)
    requires
        old(mouse).wf(),
        old(mouse).motion_fits(x, y, ctrl),
    ensures
        nudge == old(mouse).spec_nudge(x, y, ctrl),
        *final(mouse) == (Mouse { old_x: x, old_y: y, ..*old(mouse) }),
        *final(mouse) == after_event(*old(mouse), MouseEvent::Move { x, y, ctrl }),
        final(mouse).wf(),
{
    let nudge = if mouse.moving_camera {
        if ctrl {
            CameraNudge::Raise { dy: y - mouse.old_y }
        } else {
            CameraNudge::Slide { dx: x - mouse.old_x, dy: y - mouse.old_y }
        }
    } else if mouse.rotating_camera {
        CameraNudge::Turn { dx: x - mouse.old_x, dy: y - mouse.old_y }
    } else {
        CameraNudge::Still
    };
    mouse.old_x = x;
    mouse.old_y = y;
    nudge
}

/// The right button went down at (`x`, `y`): a right drag starts, which
/// turns the camera, and any left drag ends.
pub fn rbutton_down(mouse: &mut Mouse, x: i32, y: i32)
    ensures
        *final(mouse) == (Mouse { old_x: x, old_y: y, moving_camera: false, rotating_camera: true }),
        *final(mouse) == after_event(*old(mouse), MouseEvent::RightDown { x, y }),
        final(mouse).wf(),
{
    mouse.old_x = x;
    mouse.old_y = y;
    mouse.moving_camera = false;
    mouse.rotating_camera = true;
}

/// The right button went up: the right drag ends, and the director switches
/// to a fresh orbiting camera taken from its counter, whose placement is
/// returned.
pub fn rbutton_up(mouse: &mut Mouse, director: &mut Director) -> (setup: CameraSetup)
    requires
        old(director).cam_count < u32::MAX - CAMERA_SEED_BASE,
    ensures
        *final(mouse) == (Mouse { rotating_camera: false, ..*old(mouse) }),
        *final(mouse) == after_event(*old(mouse), MouseEvent::RightUp),
        *final(director) == (Director {
            cam_count: (old(director).cam_count + 1) as u32,
            camera_mode: CameraMode::Orbit,
            ..*old(director)
        }),
        setup == spec_camera_setup(old(director).cam_count + 1, CameraMode::Orbit),
        old(mouse).wf() ==> final(mouse).wf(),
        old(director).wf() ==> final(director).wf(),
{
    let setup = setup_random_camera(director);
    mouse.rotating_camera = false;
    setup
}

/// The left button went down at (`x`, `y`): a left drag starts, which moves
/// the camera, and any right drag ends.
pub fn lbutton_down(mouse: &mut Mouse, x: i32, y: i32)
    ensures
        *final(mouse) == (Mouse { old_x: x, old_y: y, moving_camera: true, rotating_camera: false }),
        *final(mouse) == after_event(*old(mouse), MouseEvent::LeftDown { x, y }),
        final(mouse).wf(),
{
    mouse.old_x = x;
    mouse.old_y = y;
    mouse.moving_camera = true;
    mouse.rotating_camera = false;
}

/// The left button went up: the left drag ends.
pub fn lbutton_up(mouse: &mut Mouse)
    ensures
        *final(mouse) == (Mouse { moving_camera: false, ..*old(mouse) }),
        *final(mouse) == after_event(*old(mouse), MouseEvent::LeftUp),
        old(mouse).wf() ==> final(mouse).wf(),
{
    mouse.moving_camera = false;
}

} // verus!
