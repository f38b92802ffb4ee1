use crate::geometry::{abs, clamp_coord, div_toward_zero, Position};
use vstd::prelude::*;

verus! {

/// How far, in thousandths of the way from camera to cursor, the camera goal
/// leans past the player.
pub const CURSOR_CAMERA_INFLUENCE: u64 = 300;

/// `c` moved toward `g` by `f` thousandths of the way, rounded toward `c`.
pub open spec fn toward(c: int, g: int, f: int) -> int {
    c + div_toward_zero((g - c) * f, 1000)
}

/// Where the camera heads: the player, leaning toward the cursor by the
/// cursor influence times the way from camera to cursor when there is a
/// cursor, held inside the coordinate range.
pub open spec fn camera_goal_spec(player: Position, camera: Position, cursor: Option<Position>) -> Position {
    match cursor {
        None => player,
        Some(c) => Position {
            x: clamp_coord(player.x + div_toward_zero((c.x - camera.x) * CURSOR_CAMERA_INFLUENCE, 1000)) as i32,
            y: clamp_coord(player.y + div_toward_zero((c.y - camera.y) * CURSOR_CAMERA_INFLUENCE, 1000)) as i32,
        },
    }
}

fn share_exec(d: i64, f: u64) -> (r: i64)
    requires
        abs(d as int) <= 0x1_0000_0000,
        f <= 1000,
    ensures
        r == div_toward_zero(d * f, 1000),
        abs(r as int) <= abs(d as int),
{
    let m: u64 = if d >= 0 { d as u64 } else { (-d) as u64 };
    assert(m * f <= 0x1_0000_0000 * 1000) by (nonlinear_arith)
        requires
            m <= 0x1_0000_0000,
            f <= 1000,
    ;
    assert((d >= 0 ==> d * f == m * f) && (d < 0 ==> d * f == -(m * f)) && m * f >= 0) by (
    nonlinear_arith)
        requires
            m == abs(d as int),
            f >= 0,
    ;
    let s: u64 = m * f / 1000;
    assert(s <= m) by (nonlinear_arith)
        requires
            s == m * f / 1000,
            f <= 1000,
    ;
    if d >= 0 {
        s as i64
    } else {
        -(s as i64)
    }
}

fn clamp_exec(x: i64) -> (r: i32)
    ensures
        r == clamp_coord(x as int),
{
    if x < i32::MIN as i64 {
        i32::MIN
    } else if x > i32::MAX as i64 {
        i32::MAX
    } else {
        x as i32
    }
}

/// The camera's goal for this frame.
pub fn camera_goal(player: Position, camera: Position, cursor: Option<Position>) -> (r: Position)
    ensures
        r == camera_goal_spec(player, camera, cursor),
{
    match cursor {
        None => player,
        Some(c) => {
            let ox = share_exec(c.x as i64 - camera.x as i64, CURSOR_CAMERA_INFLUENCE);
            let oy = share_exec(c.y as i64 - camera.y as i64, CURSOR_CAMERA_INFLUENCE);
            Position {
                x: clamp_exec(player.x as i64 + ox),
                y: clamp_exec(player.y as i64 + oy),
            }
        },
    }
}

fn toward_exec(c: i32, g: i32, f: u64) -> (r: i32)
    requires
        f <= 1000,
    ensures
        r == toward(c as int, g as int, f as int),
        c <= g ==> c <= r <= g,
        g <= c ==> g <= r <= c,
{
    let d: u64 = if g >= c { (g as i64 - c as i64) as u64 } else { (c as i64 - g as i64) as u64 };
    assert(d * f <= 0x1_0000_0000 * 1000) by (nonlinear_arith)
        requires
            d <= 0x1_0000_0000,
            f <= 1000,
    ;
    assert((g >= c ==> (g - c) * f == d * f) && (g < c ==> (g - c) * f == -(d * f)) && d * f >= 0)
        by (nonlinear_arith)
        requires
            d == abs(g - c),
            f >= 0,
    ;
    let s: u64 = d * f / 1000;
    assert(s <= d) by (nonlinear_arith)
        requires
            s == d * f / 1000,
            f <= 1000,
    ;
    if g >= c {
        (c as i64 + s as i64) as i32
    } else {
        (c as i64 - s as i64) as i32
    }
}

/// Moves the camera toward its goal by `blend` thousandths of the way, each
/// axis rounded toward the camera. With `blend` at one minus the exponential
/// decay over the frame time, the smoothing does not depend on frame rate.
/// The camera never passes its goal.
pub fn nudge(camera: Position, goal: Position, blend: u64) -> (r: Position)
    requires
        blend <= 1000,
    ensures
        r.x == toward(camera.x as int, goal.x as int, blend as int),
        r.y == toward(camera.y as int, goal.y as int, blend as int),
        blend == 1000 ==> r == goal,
        blend == 0 ==> r == camera,
        camera.x <= goal.x ==> camera.x <= r.x <= goal.x,
        goal.x <= camera.x ==> goal.x <= r.x <= camera.x,
        camera.y <= goal.y ==> camera.y <= r.y <= goal.y,
        goal.y <= camera.y ==> goal.y <= r.y <= camera.y,
{
    let r = Position { x: toward_exec(camera.x, goal.x, blend), y: toward_exec(camera.y, goal.y, blend) };
    proof {
        if blend == 0 {
            assert((goal.x - camera.x) * 0 == 0);
            assert((goal.y - camera.y) * 0 == 0);
        }
        if blend == 1000 {
            assert((goal.x - camera.x) * 1000 / 1000 == goal.x - camera.x);
            assert((camera.x - goal.x) * 1000 / 1000 == camera.x - goal.x);
            assert((goal.y - camera.y) * 1000 / 1000 == goal.y - camera.y);
            assert((camera.y - goal.y) * 1000 / 1000 == camera.y - goal.y);
        }
    }
    r
}

/// The camera after one frame: it heads for its goal by `blend` thousandths
/// of the way.
pub fn update_camera(camera: Position, player: Position, cursor: Option<Position>, blend: u64) -> (r:
    Position)
    requires
        blend <= 1000,
    ensures
        r.x == toward(
            camera.x as int,
            camera_goal_spec(player, camera, cursor).x as int,
            blend as int,
        ),
        r.y == toward(
            camera.y as int,
            camera_goal_spec(player, camera, cursor).y as int,
            blend as int,
        ),
{
    let goal = camera_goal(player, camera, cursor);
    nudge(camera, goal, blend)
}

} // verus!
