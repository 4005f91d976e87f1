//! The navigation interface: obstacles, intents, and the conversion of a
//! commanded velocity into the direction and speed that the motor controller
//! understands.

use crate::communication::TeensySendMsg;
use crate::proto::{CpRobot, CpTrackedRobot};
use crate::vec::{norm_sq, Vec2i};
use core::time::Duration;
use vstd::prelude::*;

verus! {

/// A moving obstacle, such as the ball.
#[derive(Debug, Clone, Copy, PartialEq, Eq, Structural)]
pub struct MovingObstacle {
    pub pos_mm: Vec2i,
    pub vel_mm_s: Vec2i,
    pub radius_mm: u32,
}

/// A tracked robot other than this one.
#[derive(Debug, Clone, Copy, PartialEq, Eq, Structural)]
pub struct OtherRobot {
    pub id: u32,
    pub pos_mm: Vec2i,
    pub vel_mm_s: Vec2i,
    /// Collision radius for this robot (including safety margin).
    pub radius_mm: u32,
}

/// Higher-level navigation intent coming from the behaviours.
#[derive(Debug, Clone, Copy, PartialEq, Eq, Structural)]
pub enum NavIntent {
    /// Stop (preferred velocity 0).
    Stop,
    /// Drive towards a target position.
    GoToPosition { target_pos_mm: Vec2i, max_speed_mm_s: u32 },
    /// Directly request a preferred velocity (world frame).
    PreferredVelocity { vel_mm_s: Vec2i, max_speed_mm_s: u32 },
}

/// Diagnostics of one navigation step.
#[derive(Debug, Clone, Copy, Default)]
pub struct OrcaDebug {
    pub preferred_vel_mm_s: Vec2i,
    pub num_neighbors: usize,
    pub compute_time: Duration,
}

/// Output of the navigation step: a collision-avoiding velocity in the world
/// frame.
#[derive(Debug, Clone, Copy)]
pub struct NavCommand {
    pub vel_mm_s: Vec2i,
    pub debug: Option<OrcaDebug>,
}

/// `tan((k + 0.5) degrees)` in units of `2^-32`, for `k` in `0..90`: the
/// boundaries between whole-degree directions in the first quadrant. Each
/// entry is within one unit of the true value, so only a direction that lies
/// within that distance of a half-degree boundary can be put on its other
/// side.
pub const HALF_DEGREE_TAN: [u64; 90] = [
    37481612, 112467677, 187522322, 262691453, 338021257, 413558313,
    489349712, 565443172, 641887163, 718731033, 796025137, 873820972,
    952171326, 1031130419, 1110754067, 1191099847, 1272227273, 1354197987,
    1437075955, 1520927688, 1605822471, 1691832610, 1779033704, 1867504930,
    1957329363, 2048594314, 2141391701, 2235818457, 2331976973, 2429975579,
    2529929081, 2631959344, 2736195935, 2842776839, 2951849240, 3063570399,
    3178108618, 3295644319, 3416371248, 3540497818, 3668248612, 3799866077,
    3935612425, 4075771779, 4220652607, 4370590473, 4525951175, 4687134322,
    4854577424, 5028760595, 5210211959, 5399513909, 5597310356, 5804315174,
    6021322075, 6249216194, 6488987746, 6741748219, 7008749628, 7291407577,
    7591328996, 7910345722, 8250555412, 8614371703, 9004586193, 9424445583,
    9877748526, 10368968296, 10903409688, 11487411846, 12128613490, 12836304173,
    13621895952, 14499566593, 15487151743, 16607406286, 17889826291, 19373345505,
    21110438703, 23173569809, 25665712514, 28738297216, 32623515503, 37696444158,
    44604940815, 54572733798, 70222094564, 98370923986, 164018183765, 492154504798
];

/// `2^32`, the unit of `HALF_DEGREE_TAN`.
pub const TAN_ONE: u64 = 0x1_0000_0000;

/// Whether the direction `(ax, ay)` of the first quadrant lies at or beyond
/// the boundary `(k + 0.5)` degrees.
pub open spec fn passes_boundary(ax: int, ay: int, k: int) -> bool {
    ay * TAN_ONE >= HALF_DEGREE_TAN@[k] * ax
}

/// How many of the first `k` half-degree boundaries the direction `(ax, ay)`
/// of the first quadrant has passed.
pub open spec fn boundaries_passed(ax: int, ay: int, k: int) -> int
    decreases k,
{
    if k <= 0 {
        0
    } else {
        boundaries_passed(ax, ay, k - 1) + if passes_boundary(ax, ay, k - 1) {
            1int
        } else {
            0int
        }
    }
}

/// The direction of `(ax, ay)`, with `ax, ay >= 0`, in whole degrees
/// (0 to 90).
pub open spec fn quadrant_degrees(ax: int, ay: int) -> int {
    boundaries_passed(ax, ay, 90)
}

/// The direction of a non-zero vector in whole degrees, `0` along +X, `90`
/// along +Y, counter-clockwise, in `0..360`.
pub open spec fn direction_degrees(v: Vec2i) -> int {
    let ax: int = if v.x >= 0 { v.x as int } else { -v.x };
    let ay: int = if v.y >= 0 { v.y as int } else { -v.y };
    if v.y >= 0 {
        if v.x > 0 || (v.x == 0 && v.y > 0) {
            quadrant_degrees(ax, ay)
        } else {
            180 - quadrant_degrees(ax, ay)
        }
    } else {
        if v.x < 0 {
            180 + quadrant_degrees(ax, ay)
        } else {
            (360 - quadrant_degrees(ax, ay)) % 360
        }
    }
}

/// `q` is the integer nearest to `sqrt(n)`, a half rounded up.
pub open spec fn round_sqrt(q: int, n: int) -> bool {
    &&& 0 <= q
    &&& 4 * n < (2 * q + 1) * (2 * q + 1)
    &&& (q == 0 || (2 * q - 1) * (2 * q - 1) <= 4 * n)
}

/// The speed of a velocity, rounded to a whole mm/s and capped at `u16::MAX`.
pub open spec fn speed_u16(v: Vec2i, s: u16) -> bool {
    if 4 * norm_sq(v) >= (2 * 65535 + 1) * (2 * 65535 + 1) {
        s == 65535
    } else {
        round_sqrt(s as int, norm_sq(v))
    }
}

/// The direction of `(ax, ay)` in the first quadrant, in whole degrees.
fn quadrant_degrees_exec(ax: u64, ay: u64) -> (d: u16)
    requires
        ax <= 0x8000_0000,
        ay <= 0x8000_0000,
    ensures
        d == quadrant_degrees(ax as int, ay as int),
        d <= 90,
{
    let lhs: u128 = (ay as u128) * (TAN_ONE as u128);
    let mut count: u16 = 0;
    let mut k: usize = 0;
    while k < 90
        invariant
            k <= 90,
            count == boundaries_passed(ax as int, ay as int, k as int),
            count <= k,
            lhs == ay * TAN_ONE,
            ax <= 0x8000_0000,
            ay <= 0x8000_0000,
        decreases 90 - k,
    {
        let t: u64 = HALF_DEGREE_TAN[k];
        assert((t as u128) * (ax as u128) <= 0xFFFF_FFFF_FFFF_FFFF * 0x8000_0000) by (nonlinear_arith)
            requires
                t <= 0xFFFF_FFFF_FFFF_FFFF,
                ax <= 0x8000_0000,
        ;
        let rhs: u128 = (t as u128) * (ax as u128);
        if lhs >= rhs {
            count = count + 1;
        }
        k = k + 1;
    }
    count
}

/// The integer nearest to `sqrt(n)`, capped at `u16::MAX`.
fn rounded_speed(n: u64) -> (s: u16)
    ensures
        4 * n >= (2 * 65535 + 1) * (2 * 65535 + 1) ==> s == 65535,
        4 * n < (2 * 65535 + 1) * (2 * 65535 + 1) ==> round_sqrt(s as int, n as int),
{
    let four_n: u128 = 4u128 * (n as u128);
    if four_n >= 131071u128 * 131071u128 {
        return 65535;
    }
    let mut lo: u64 = 0;
    let mut up: u64 = 65535;
    while lo < up
        invariant
            lo <= up <= 65535,
            four_n == 4 * n,
            4 * n < (2 * up + 1) * (2 * up + 1),
            lo == 0 || (2 * lo - 1) * (2 * lo - 1) <= 4 * n,
        decreases up - lo,
    {
        let mid: u64 = lo + (up - lo) / 2;
        let k: u128 = 2u128 * (mid as u128) + 1u128;
        assert(k * k <= 131071 * 131071) by (nonlinear_arith)
            requires
                k <= 131071,
        ;
        if four_n < k * k {
            up = mid;
        } else {
            assert((2 * (mid + 1) - 1) * (2 * (mid + 1) - 1) == k * k);
            lo = mid + 1;
        }
    }
    lo as u16
}

/// Converts a velocity (mm/s) into `(direction in degrees, speed in mm/s)`.
///
/// The direction has 1 degree resolution, 0 along +X and 90 along +Y,
/// counter-clockwise; the speed is the rounded magnitude, capped at
/// `u16::MAX`. A zero velocity gives `(0, 0)`.
pub fn vel_to_dir_speed_deg_1(vel_mm_s: Vec2i) -> (r: (u16, u16))
    ensures
        norm_sq(vel_mm_s) == 0 ==> r == (0u16, 0u16),
        norm_sq(vel_mm_s) != 0 ==> {
            &&& r.0 == direction_degrees(vel_mm_s)
            &&& speed_u16(vel_mm_s, r.1)
        },
        r.0 < 360,
{
    let vx = vel_mm_s.x;
    let vy = vel_mm_s.y;
    let ax: u64 = if vx >= 0 { vx as u64 } else { (-(vx as i64)) as u64 };
    let ay: u64 = if vy >= 0 { vy as u64 } else { (-(vy as i64)) as u64 };
    assert(ax * ax <= 0x4000_0000_0000_0000 && ay * ay <= 0x4000_0000_0000_0000) by (nonlinear_arith)
        requires
            ax <= 0x8000_0000,
            ay <= 0x8000_0000,
    ;
    let n2: u64 = ax * ax + ay * ay;
    assert(n2 == norm_sq(vel_mm_s)) by (nonlinear_arith)
        requires
            n2 == ax * ax + ay * ay,
            ax == vx || ax == -vx,
            ay == vy || ay == -vy,
            vel_mm_s.x == vx,
            vel_mm_s.y == vy,
    ;
    if n2 == 0 {
        return (0, 0);
    }
    let q = quadrant_degrees_exec(ax, ay);
    let dir: u16 = if vy >= 0 {
        if vx > 0 || (vx == 0 && vy > 0) {
            q
        } else {
            180 - q
        }
    } else {
        if vx < 0 {
            180 + q
        } else {
            if q == 0 { 0 } else { 360 - q }
        }
    };
    let speed = rounded_speed(n2);
    (dir, speed)
}

/// Writes a navigation command into the motor-controller message: the
/// direction and speed of its velocity; nothing else changes.
pub fn nav_command_to_teensy(base: &mut TeensySendMsg, nav: NavCommand)
    ensures
        norm_sq(nav.vel_mm_s) == 0 ==> final(base).dir == 0 && final(base).speed == 0,
        norm_sq(nav.vel_mm_s) != 0 ==> {
            &&& final(base).dir == direction_degrees(nav.vel_mm_s)
            &&& speed_u16(nav.vel_mm_s, final(base).speed)
        },
        *final(base) == (TeensySendMsg {
            dir: final(base).dir,
            speed: final(base).speed,
            ..*old(base)
        }),
{
    let (dir_deg, speed_mm_s) = vel_to_dir_speed_deg_1(nav.vel_mm_s);
    base.dir = dir_deg;
    base.speed = speed_mm_s;
}

/// Whether a tracked robot is an obstacle: not the skipped id (this robot,
/// when the list is its own team's) and not ignored.
pub open spec fn is_obstacle(r: CpTrackedRobot, skip_id: Option<u32>, ignored: Seq<u32>) -> bool {
    skip_id != Some(r.robot_id) && !ignored.contains(r.robot_id)
}

/// The id to leave out of a team list: this robot's, in its own team's list
/// only (yellow when `team_color` is false, blue otherwise).
pub open spec fn self_in_list(team_color: bool, list_is_blue: bool, self_id: u32) -> Option<u32> {
    if team_color == list_is_blue {
        Some(self_id)
    } else {
        None
    }
}

/// The obstacle that a tracked robot is, with the given collision radius.
pub open spec fn as_other(r: CpTrackedRobot, radius_mm: u32) -> OtherRobot {
    OtherRobot {
        id: r.robot_id,
        pos_mm: Vec2i { x: r.pos.x, y: r.pos.y },
        vel_mm_s: match r.vel {
            Some(v) => Vec2i { x: v.x, y: v.y },
            None => Vec2i { x: 0, y: 0 },
        },
        radius_mm,
    }
}

/// The obstacles among the tracked robots `src`, in order.
pub open spec fn others_from(src: Seq<CpTrackedRobot>, skip_id: Option<u32>, ignored: Seq<u32>, radius_mm: u32) -> Seq<
    OtherRobot,
>
    decreases src.len(),
{
    if src.len() == 0 {
        Seq::empty()
    } else {
        others_from(src.drop_last(), skip_id, ignored, radius_mm) + if is_obstacle(
            src.last(),
            skip_id,
            ignored,
        ) {
            seq![as_other(src.last(), radius_mm)]
        } else {
            Seq::empty()
        }
    }
}

/// Every obstacle built from `src` is an obstacle robot of `src`.
pub proof fn lemma_others_are_obstacles(
    src: Seq<CpTrackedRobot>,
    skip_id: Option<u32>,
    ignored: Seq<u32>,
    radius_mm: u32,
)
    ensures
        others_from(src, skip_id, ignored, radius_mm).len() <= src.len(),
        forall|k: int|
            0 <= k < others_from(src, skip_id, ignored, radius_mm).len() ==> {
                let o = #[trigger] others_from(src, skip_id, ignored, radius_mm)[k];
                &&& skip_id != Some(o.id)
                &&& !ignored.contains(o.id)
                &&& o.radius_mm == radius_mm
            },
    decreases src.len(),
{
    if src.len() > 0 {
        lemma_others_are_obstacles(src.drop_last(), skip_id, ignored, radius_mm);
    }
}

fn contains_id(ids: &[u32], id: u32) -> (r: bool)
    ensures
        r == ids@.contains(id),
{
    let mut i: usize = 0;
    while i < ids.len()
        invariant
            i <= ids@.len(),
            forall|j: int| 0 <= j < i ==> ids@[j] != id,
        decreases ids@.len() - i,
    {
        if ids[i] == id {
            assert(ids@[i as int] == id);
            return true;
        }
        i = i + 1;
    }
    false
}

/// Appends the obstacles among `src` (every robot but the one with
/// `skip_id` and the ignored ones) with the default radius.
pub fn append_others(
    out: &mut Vec<OtherRobot>,
    src: &[CpTrackedRobot],
    skip_id: Option<u32>,
    ignored_robot_ids: &[u32],
    default_radius_mm: u32,
)
    ensures
        final(out)@ == old(out)@ + others_from(src@, skip_id, ignored_robot_ids@, default_radius_mm),
{
    let ghost start = out@;
    let mut i: usize = 0;
    while i < src.len()
        invariant
            i <= src@.len(),
            out@ == start + others_from(src@.take(i as int), skip_id, ignored_robot_ids@, default_radius_mm),
        decreases src@.len() - i,
    {
        let r = src[i];
        assert(src@.take(i + 1).drop_last() =~= src@.take(i as int));
        assert(src@.take(i + 1).last() == r);
        let skipped = match skip_id {
            Some(id) => id == r.robot_id,
            None => false,
        };
        if !skipped && !contains_id(ignored_robot_ids, r.robot_id) {
            let vel = match r.vel {
                Some(v) => Vec2i { x: v.x, y: v.y },
                None => Vec2i { x: 0, y: 0 },
            };
            out.push(
                OtherRobot {
                    id: r.robot_id,
                    pos_mm: Vec2i { x: r.pos.x, y: r.pos.y },
                    vel_mm_s: vel,
                    radius_mm: default_radius_mm,
                },
            );
        }
        assert(out@ =~= start + others_from(src@.take(i + 1), skip_id, ignored_robot_ids@, default_radius_mm));
        i = i + 1;
    }
    assert(src@.take(src@.len() as int) =~= src@);
}

/// The obstacles of a CrashPilot packet: the yellow robots, then the blue
/// ones, without the ignored ones and without this robot, which is left out
/// of its own team's list only (an opponent with the same number stays).
pub fn collect_others(
    cp: &CpRobot,
    self_id: u32,
    ignored_robot_ids: &[u32],
    default_radius_mm: u32,
) -> (r: Vec<OtherRobot>)
    ensures
        r@ == others_from(
            cp.robots_yellow@,
            self_in_list(cp.infos.team_color, false, self_id),
            ignored_robot_ids@,
            default_radius_mm,
        ) + others_from(
            cp.robots_blue@,
            self_in_list(cp.infos.team_color, true, self_id),
            ignored_robot_ids@,
            default_radius_mm,
        ),
{
    let (skip_yellow, skip_blue) = if cp.infos.team_color {
        (None, Some(self_id))
    } else {
        (Some(self_id), None)
    };
    let mut others: Vec<OtherRobot> = Vec::new();
    append_others(&mut others, cp.robots_yellow.as_slice(), skip_yellow, ignored_robot_ids, default_radius_mm);
    append_others(&mut others, cp.robots_blue.as_slice(), skip_blue, ignored_robot_ids, default_radius_mm);
    assert(Seq::<OtherRobot>::empty() + others_from(cp.robots_yellow@, skip_yellow, ignored_robot_ids@, default_radius_mm)
        =~= others_from(cp.robots_yellow@, skip_yellow, ignored_robot_ids@, default_radius_mm));
    others
}

/// The ball as an obstacle of radius `ball_avoidance_radius_mm`, or none
/// when that radius is 0.
pub fn ball_obstacle(cp: &CpRobot, ball_avoidance_radius_mm: u32) -> (r: Option<MovingObstacle>)
    ensures
        ball_avoidance_radius_mm == 0 ==> r is None,
        ball_avoidance_radius_mm != 0 ==> r == Some(
            MovingObstacle {
                pos_mm: Vec2i { x: cp.ball.pos.x, y: cp.ball.pos.y },
                vel_mm_s: match cp.ball.vel {
                    Some(v) => Vec2i { x: v.x, y: v.y },
                    None => Vec2i { x: 0, y: 0 },
                },
                radius_mm: ball_avoidance_radius_mm,
            },
        ),
{
    if ball_avoidance_radius_mm == 0 {
        None
    } else {
        let vel = match cp.ball.vel {
            Some(v) => Vec2i { x: v.x, y: v.y },
            None => Vec2i { x: 0, y: 0 },
        };
        Some(
            MovingObstacle {
                pos_mm: Vec2i { x: cp.ball.pos.x, y: cp.ball.pos.y },
                vel_mm_s: vel,
                radius_mm: ball_avoidance_radius_mm,
            },
        )
    }
}

proof fn lemma_count_all(ax: int, ay: int, k: int)
    requires
        0 <= k,
        forall|j: int| 0 <= j < k ==> passes_boundary(ax, ay, j),
    ensures
        boundaries_passed(ax, ay, k) == k,
    decreases k,
{
    if k > 0 {
        lemma_count_all(ax, ay, k - 1);
    }
}

proof fn lemma_count_none(ax: int, ay: int, k: int)
    requires
        0 <= k,
        forall|j: int| 0 <= j < k ==> !passes_boundary(ax, ay, j),
    ensures
        boundaries_passed(ax, ay, k) == 0,
    decreases k,
{
    if k > 0 {
        lemma_count_none(ax, ay, k - 1);
    }
}

/// Every half-degree boundary of the table has a positive slope.
proof fn lemma_table_positive()
    ensures
        forall|j: int| 0 <= j < 90 ==> HALF_DEGREE_TAN@[j] > 0,
{
    assert forall|j: int| 0 <= j < 90 implies HALF_DEGREE_TAN@[j] > 0 by {
        assert(HALF_DEGREE_TAN@[j] == HALF_DEGREE_TAN[j]);
    }
}

/// The axis directions are exact: +X is 0 degrees, +Y 90, -X 180 and -Y 270.
pub proof fn lemma_direction_axes(c: i32)
    requires
        c > 0,
    ensures
        direction_degrees(Vec2i { x: c, y: 0 }) == 0,
        direction_degrees(Vec2i { x: 0, y: c }) == 90,
        direction_degrees(Vec2i { x: (-c) as i32, y: 0 }) == 180,
        direction_degrees(Vec2i { x: 0, y: (-c) as i32 }) == 270,
{
    lemma_table_positive();
    assert forall|j: int| 0 <= j < 90 implies !passes_boundary(c as int, 0, j) by {
        assert(HALF_DEGREE_TAN@[j] * c > 0) by (nonlinear_arith)
            requires
                HALF_DEGREE_TAN@[j] > 0,
                c > 0,
        ;
    }
    lemma_count_none(c as int, 0, 90);
    assert forall|j: int| 0 <= j < 90 implies passes_boundary(0, c as int, j) by {
        assert(c * TAN_ONE >= 0) by (nonlinear_arith)
            requires
                c > 0,
        ;
    }
    lemma_count_all(0, c as int, 90);
}

proof fn lemma_count_scaled(ax: int, ay: int, s: int, k: int)
    requires
        s > 0,
        0 <= k,
    ensures
        boundaries_passed(s * ax, s * ay, k) == boundaries_passed(ax, ay, k),
    decreases k,
{
    if k > 0 {
        lemma_count_scaled(ax, ay, s, k - 1);
        let t = HALF_DEGREE_TAN@[k - 1] as int;
        assert(((s * ay) * TAN_ONE >= t * (s * ax)) == (ay * TAN_ONE >= t * ax)) by (nonlinear_arith)
            requires
                s > 0,
        ;
    }
}

/// The direction of a velocity does not depend on its speed: scaling it by
/// a positive factor keeps its whole-degree direction.
pub proof fn lemma_direction_scale_invariant(v: Vec2i, s: i32)
    requires
        s > 0,
        i32::MIN <= s * v.x <= i32::MAX,
        i32::MIN <= s * v.y <= i32::MAX,
    ensures
        direction_degrees(Vec2i { x: (s * v.x) as i32, y: (s * v.y) as i32 }) == direction_degrees(v),
{
    let w = Vec2i { x: (s * v.x) as i32, y: (s * v.y) as i32 };
    let ax: int = if v.x >= 0 { v.x as int } else { -v.x };
    let ay: int = if v.y >= 0 { v.y as int } else { -v.y };
    assert((v.x > 0) == (s * v.x > 0) && (v.x == 0) == (s * v.x == 0) && (v.x < 0) == (s * v.x < 0)) by (nonlinear_arith)
        requires
            s > 0,
    ;
    assert((v.y > 0) == (s * v.y > 0) && (v.y == 0) == (s * v.y == 0) && (v.y < 0) == (s * v.y < 0)) by (nonlinear_arith)
        requires
            s > 0,
    ;
    assert((if w.x >= 0 { w.x as int } else { -w.x }) == s * ax) by (nonlinear_arith)
        requires
            s > 0,
            w.x == s * v.x,
            ax == (if v.x >= 0 { v.x as int } else { -v.x }),
    ;
    assert((if w.y >= 0 { w.y as int } else { -w.y }) == s * ay) by (nonlinear_arith)
        requires
            s > 0,
            w.y == s * v.y,
            ay == (if v.y >= 0 { v.y as int } else { -v.y }),
    ;
    lemma_count_scaled(ax, ay, s as int, 90);
}


/// The whole-degree direction of a first-quadrant vector lies in `0..=90`.
proof fn lemma_quadrant_bounds(ax: int, ay: int, k: int)
    requires
        0 <= k,
    ensures
        0 <= boundaries_passed(ax, ay, k) <= k,
    decreases k,
{
    if k > 0 {
        lemma_quadrant_bounds(ax, ay, k - 1);
    }
}

/// On the axes the first-quadrant direction is 0 (along x) or 90 (along y).
proof fn lemma_quadrant_on_axes(a: int)
    requires
        a > 0,
    ensures
        quadrant_degrees(a, 0) == 0,
        quadrant_degrees(0, a) == 90,
{
    lemma_table_positive();
    assert forall|j: int| 0 <= j < 90 implies !passes_boundary(a, 0, j) by {
        assert(HALF_DEGREE_TAN@[j] * a > 0) by (nonlinear_arith)
            requires
                HALF_DEGREE_TAN@[j] > 0,
                a > 0,
        ;
    }
    lemma_count_none(a, 0, 90);
    assert forall|j: int| 0 <= j < 90 implies passes_boundary(0, a, j) by {
        assert(a * TAN_ONE >= 0) by (nonlinear_arith)
            requires
                a > 0,
        ;
    }
    lemma_count_all(0, a, 90);
}

/// Reversing a velocity turns its direction by half a turn: for every
/// non-zero `v` whose negation is representable, the direction of `-v` is
/// the direction of `v` plus 180 degrees, modulo 360.
pub proof fn lemma_direction_point_symmetric(v: Vec2i)
    requires
        v.x != 0 || v.y != 0,
        v.x != i32::MIN,
        v.y != i32::MIN,
    ensures
        direction_degrees(Vec2i { x: (-v.x) as i32, y: (-v.y) as i32 }) == (direction_degrees(v) + 180)
            % 360,
        0 <= direction_degrees(v) < 360,
{
    let ax: int = if v.x >= 0 { v.x as int } else { -v.x };
    let ay: int = if v.y >= 0 { v.y as int } else { -v.y };
    lemma_quadrant_bounds(ax, ay, 90);
    if ax > 0 {
        lemma_quadrant_on_axes(ax);
    }
    if ay > 0 {
        lemma_quadrant_on_axes(ay);
    }
}

/// Mirroring a velocity in the x axis mirrors its direction: for every
/// non-zero `v` whose mirror is representable, the direction of `(x, -y)` is
/// 360 minus the direction of `(x, y)`, modulo 360.
pub proof fn lemma_direction_mirror_x(v: Vec2i)
    requires
        v.x != 0 || v.y != 0,
        v.y != i32::MIN,
    ensures
        direction_degrees(Vec2i { x: v.x, y: (-v.y) as i32 }) == (360 - direction_degrees(v)) % 360,
{
    let ax: int = if v.x >= 0 { v.x as int } else { -v.x };
    let ay: int = if v.y >= 0 { v.y as int } else { -v.y };
    lemma_quadrant_bounds(ax, ay, 90);
    if ax > 0 {
        lemma_quadrant_on_axes(ax);
    }
    if ay > 0 {
        lemma_quadrant_on_axes(ay);
    }
}

/// Mirroring a velocity in the y axis mirrors its direction: for every
/// non-zero `v` whose mirror is representable, the direction of `(-x, y)` is
/// 180 minus the direction of `(x, y)`, modulo 360.
pub proof fn lemma_direction_mirror_y(v: Vec2i)
    requires
        v.x != 0 || v.y != 0,
        v.x != i32::MIN,
    ensures
        direction_degrees(Vec2i { x: (-v.x) as i32, y: v.y }) == (540 - direction_degrees(v)) % 360,
{
    let ax: int = if v.x >= 0 { v.x as int } else { -v.x };
    let ay: int = if v.y >= 0 { v.y as int } else { -v.y };
    lemma_quadrant_bounds(ax, ay, 90);
    if ax > 0 {
        lemma_quadrant_on_axes(ax);
    }
    if ay > 0 {
        lemma_quadrant_on_axes(ay);
    }
}

/// A strictly first-quadrant velocity (`x > 0`, `y > 0`) has a direction in
/// `0..=90`; one in the second quadrant in `90..=180`, the third `180..=270`,
/// the fourth `270..=360` (360 written as 0).
pub proof fn lemma_direction_quadrants(v: Vec2i)
    requires
        v.x != 0,
        v.y != 0,
    ensures
        v.x > 0 && v.y > 0 ==> 0 <= direction_degrees(v) <= 90,
        v.x < 0 && v.y > 0 ==> 90 <= direction_degrees(v) <= 180,
        v.x < 0 && v.y < 0 ==> 180 <= direction_degrees(v) <= 270,
        v.x > 0 && v.y < 0 ==> direction_degrees(v) == 0 || 270 <= direction_degrees(v) < 360,
{
    let ax: int = if v.x >= 0 { v.x as int } else { -v.x };
    let ay: int = if v.y >= 0 { v.y as int } else { -v.y };
    lemma_quadrant_bounds(ax, ay, 90);
}

/// An obstacle `o` is the tracked robot `r` with collision radius `radius_mm`:
/// its id, its position, and its velocity (zero when unknown).
pub open spec fn obstacle_of(o: OtherRobot, r: CpTrackedRobot, radius_mm: u32) -> bool {
    &&& o.id == r.robot_id
    &&& o.pos_mm.x == r.pos.x
    &&& o.pos_mm.y == r.pos.y
    &&& (r.vel matches Some(v) ==> o.vel_mm_s.x == v.x && o.vel_mm_s.y == v.y)
    &&& (r.vel is None ==> o.vel_mm_s.x == 0 && o.vel_mm_s.y == 0)
    &&& o.radius_mm == radius_mm
}

/// Every obstacle built from the tracked robots `src` is one of them, with
/// its own id, position and velocity; and every robot of `src` that is not
/// skipped or ignored is among the obstacles.
pub proof fn lemma_obstacles_are_the_tracked_robots(
    src: Seq<CpTrackedRobot>,
    skip_id: Option<u32>,
    ignored: Seq<u32>,
    radius_mm: u32,
)
    ensures
        forall|k: int|
            0 <= k < others_from(src, skip_id, ignored, radius_mm).len() ==> exists|j: int|
                0 <= j < src.len() && obstacle_of(
                    #[trigger] others_from(src, skip_id, ignored, radius_mm)[k],
                    src[j],
                    radius_mm,
                ),
        forall|j: int|
            0 <= j < src.len() && skip_id != Some(#[trigger] src[j].robot_id) && !ignored.contains(
                src[j].robot_id,
            ) ==> exists|k: int|
                0 <= k < others_from(src, skip_id, ignored, radius_mm).len() && obstacle_of(
                    others_from(src, skip_id, ignored, radius_mm)[k],
                    src[j],
                    radius_mm,
                ),
    decreases src.len(),
{
    if src.len() > 0 {
        let prefix = src.drop_last();
        lemma_obstacles_are_the_tracked_robots(prefix, skip_id, ignored, radius_mm);
        let out = others_from(src, skip_id, ignored, radius_mm);
        let pre = others_from(prefix, skip_id, ignored, radius_mm);
        let n = src.len() - 1;
        assert forall|k: int| 0 <= k < out.len() implies exists|j: int|
            0 <= j < src.len() && obstacle_of(#[trigger] out[k], src[j], radius_mm) by {
            if k < pre.len() {
                assert(out[k] == pre[k]);
                let j = choose|j: int| 0 <= j < prefix.len() && obstacle_of(pre[k], prefix[j], radius_mm);
                assert(prefix[j] == src[j]);
            } else {
                assert(obstacle_of(out[k], src[n], radius_mm));
            }
        }
        assert forall|j: int|
            0 <= j < src.len() && skip_id != Some(#[trigger] src[j].robot_id) && !ignored.contains(
                src[j].robot_id,
            ) implies exists|k: int| 0 <= k < out.len() && obstacle_of(out[k], src[j], radius_mm) by {
            if j < n {
                assert(prefix[j] == src[j]);
                assert(skip_id != Some(prefix[j].robot_id));
                let k = choose|k: int| 0 <= k < pre.len() && obstacle_of(pre[k], prefix[j], radius_mm);
                assert(out[k] == pre[k]);
            } else {
                assert(out[pre.len() as int] == as_other(src[n], radius_mm));
                assert(obstacle_of(out[pre.len() as int], src[j], radius_mm));
            }
        }
    }
}

} // verus!
