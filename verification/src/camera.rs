//! The camera on a leash behind the player: its yaw and pitch, the lock
//! that makes it ignore the mouse, and how far it may stand from the player
//! without geometry in between.
//!
//! Angles count millionths of a degree, mouse motion millionths of a dot.

use vstd::prelude::*;
use crate::fixed::{clamp, clamp_spec, diff, diff_spec, product, product_spec, sum, sum_spec, SCALE};

verus! {

/// The angle by which one dot of mouse motion turns the camera at full
/// sensitivity: a hundred-and-eightieth of a radian.
pub const DEGREES_PER_DOT: i64 = 318_310;

/// The share of `DEGREES_PER_DOT` that the camera applies: a tenth.
pub const SENSITIVITY: i64 = 100_000;

/// The steepest pitch either way: ninety degrees.
pub const PITCH_LIMIT: i64 = 90_000_000;

/// How far the camera stands from the player when nothing is in the way.
pub const DEFAULT_DISTANCE: i64 = 30_000_000;

/// One motion of the mouse.
#[derive(Clone, Copy, Debug, PartialEq, Eq, Structural)]
pub struct MouseMotion {
    pub dx: i64,
    pub dy: i64,
}

/// How the window holds the pointer.
#[derive(Clone, Copy, Debug, PartialEq, Eq, Structural)]
pub enum CursorGrabMode {
    Released,
    Locked,
}

/// The pointer of the window.
#[derive(Clone, Copy, Debug, PartialEq, Eq, Structural)]
pub struct Cursor {
    pub grab_mode: CursorGrabMode,
    pub visible: bool,
}

/// One hit of the ray from the player back to the camera.
#[derive(Clone, Copy, Debug, PartialEq, Eq, Structural)]
pub struct RayHit {
    /// Whether the collider only senses and does not block.
    pub sensor: bool,
    /// Where along the ray the hit lies, as a share of its length.
    pub time_of_impact: i64,
}

/// The orientation of the camera, its lock and the length of its leash.
#[derive(Clone, Copy, Debug, PartialEq, Eq, Structural)]
pub struct LeashedCamera {
    pub pitch: i64,
    pub yaw: i64,
    /// Whether the camera is locked and ignores the mouse.
    pub ignore_mouse: bool,
    /// The greatest distance from the player.
    pub max_distance: i64,
}

/// The pointer as it is while the mouse steers the camera: hidden and
/// locked.
pub open spec fn captured() -> Cursor {
    Cursor { grab_mode: CursorGrabMode::Locked, visible: false }
}

/// The pointer as it is while the camera ignores the mouse, and in the
/// menus: shown and free.
pub open spec fn released() -> Cursor {
    Cursor { grab_mode: CursorGrabMode::Released, visible: true }
}

/// The pointer that goes with a camera: free where the camera ignores the
/// mouse, captured where it follows it.
pub open spec fn pointer_of(ignore_mouse: bool) -> Cursor {
    if ignore_mouse {
        released()
    } else {
        captured()
    }
}

/// The angle by which `dots` of mouse motion turn the camera.
pub open spec fn turn_spec(dots: int) -> int {
    product_spec(product_spec(dots, SENSITIVITY as int), DEGREES_PER_DOT as int)
}

/// The sum of the horizontal motions of `motions`, in order.
pub open spec fn total_dx(motions: Seq<MouseMotion>) -> int
    decreases motions.len(),
{
    if motions.len() == 0 {
        0
    } else {
        sum_spec(total_dx(motions.drop_last()), motions.last().dx as int)
    }
}

/// The sum of the vertical motions of `motions`, in order.
pub open spec fn total_dy(motions: Seq<MouseMotion>) -> int
    decreases motions.len(),
{
    if motions.len() == 0 {
        0
    } else {
        sum_spec(total_dy(motions.drop_last()), motions.last().dy as int)
    }
}

/// Whether hit `i` of `hits` blocks the ray and no blocking hit lies nearer.
pub open spec fn nearest_solid_hit(hits: Seq<RayHit>, i: int) -> bool {
    &&& 0 <= i < hits.len()
    &&& !hits[i].sensor
    &&& forall|j: int|
        0 <= j < hits.len() && !(#[trigger] hits[j]).sensor ==> hits[i].time_of_impact
            <= hits[j].time_of_impact
}

/// Whether every hit of `hits` is on a sensor.
pub open spec fn no_solid_hit(hits: Seq<RayHit>) -> bool {
    forall|j: int| 0 <= j < hits.len() ==> (#[trigger] hits[j]).sensor
}

impl LeashedCamera {
    /// What always holds of a camera: its pitch is within ninety degrees of
    /// level.
    pub open spec fn wf(self) -> bool {
        -PITCH_LIMIT <= self.pitch <= PITCH_LIMIT
    }

    /// A level, unlocked camera that looks along `yaw`, on a leash of 30.
    pub open spec fn new_spec(yaw: i64) -> LeashedCamera {
        LeashedCamera { pitch: 0, yaw, ignore_mouse: false, max_distance: DEFAULT_DISTANCE }
    }

    /// A level, unlocked camera that looks along `yaw`.
    pub fn new(yaw: i64) -> (c: LeashedCamera)
        ensures
            c == LeashedCamera::new_spec(yaw),
            c.wf(),
    {
        LeashedCamera { pitch: 0, yaw, ignore_mouse: false, max_distance: DEFAULT_DISTANCE }
    }

    /// The camera after the mouse moved by `dx` and `dy` dots in all.
    pub open spec fn turned(self, dx: int, dy: int) -> LeashedCamera {
        if self.ignore_mouse {
            self
        } else {
            LeashedCamera {
                pitch: clamp_spec(
                    diff_spec(self.pitch as int, turn_spec(dy)),
                    -PITCH_LIMIT as int,
                    PITCH_LIMIT as int,
                ) as i64,
                yaw: diff_spec(self.yaw as int, turn_spec(dx)) as i64,
                ..self
            }
        }
    }

    /// Turns the camera by the mouse motions of one tick, unless it is
    /// locked: the pitch falls by the angle of the vertical motion and is
    /// held within ninety degrees of level, the yaw falls by the angle of
    /// the horizontal motion.
    pub fn leash_camera(&mut self, motions: &Vec<MouseMotion>)
        ensures
            *final(self) == old(self).turned(total_dx(motions@), total_dy(motions@)),
            !old(self).ignore_mouse ==> final(self).wf(),
            old(self).wf() ==> final(self).wf(),
    {
        let mut dx: i64 = 0;
        let mut dy: i64 = 0;
        let mut i: usize = 0;
        while i < motions.len()
            invariant
                i <= motions.len(),
                dx == total_dx(motions@.take(i as int)),
                dy == total_dy(motions@.take(i as int)),
            decreases motions.len() - i,
        {
            proof {
                assert(motions@.take(i + 1).drop_last() =~= motions@.take(i as int));
            }
            dx = sum(dx, motions[i].dx);
            dy = sum(dy, motions[i].dy);
            i += 1;
        }
        proof {
            assert(motions@.take(motions.len() as int) =~= motions@);
        }
        if !self.ignore_mouse {
            self.pitch = clamp(diff(self.pitch, turn(dy)), -PITCH_LIMIT, PITCH_LIMIT);
            self.yaw = diff(self.yaw, turn(dx));
        }
    }

    /// The camera after the lock key was pressed.
    pub open spec fn toggled(self) -> LeashedCamera {
        LeashedCamera { ignore_mouse: !self.ignore_mouse, ..self }
    }

    /// Locks or unlocks the camera when the lock key was pressed, and the
    /// pointer with it: a camera that followed the mouse then ignores it and
    /// the pointer is shown and set free; a camera that ignored the mouse
    /// then follows it and the pointer is hidden and locked. Whether the
    /// window is focused makes no difference. Yaw, pitch and leash stay as
    /// they are.
    pub fn toggle_camera_lock(&mut self, cursor: &mut Cursor, focused: bool, pressed: bool)
        ensures
            !pressed ==> *final(self) == *old(self) && *final(cursor) == *old(cursor),
            pressed ==> *final(self) == old(self).toggled(),
            pressed ==> *final(cursor) == pointer_of(final(self).ignore_mouse),
            old(self).wf() ==> final(self).wf(),
    {
        if pressed {
            self.ignore_mouse = !self.ignore_mouse;
            if self.ignore_mouse {
                cursor.grab_mode = CursorGrabMode::Released;
                cursor.visible = true;
            } else {
                cursor.grab_mode = CursorGrabMode::Locked;
                cursor.visible = false;
            }
        }
    }

    /// The distance at which the camera stands when the ray was blocked at
    /// `fraction` of its length.
    pub fn leash_length(&self, fraction: i64) -> (r: i64)
        ensures
            r == product_spec(self.max_distance as int, fraction as int),
    {
        product(self.max_distance, fraction)
    }
}

/// The lock and the pointer flip in lockstep: after the lock key the
/// pointer is the one that goes with the camera, whatever it was before and
/// whether or not the window is focused, and a second press puts the camera
/// and a pointer that went with it back as they were.
pub proof fn lemma_lock_and_pointer_in_lockstep(camera: LeashedCamera)
    ensures
        pointer_of(camera.toggled().ignore_mouse) == (if camera.ignore_mouse {
            captured()
        } else {
            released()
        }),
        pointer_of(camera.toggled().ignore_mouse) != pointer_of(camera.ignore_mouse),
        camera.toggled().toggled() == camera,
        pointer_of(camera.toggled().toggled().ignore_mouse) == pointer_of(camera.ignore_mouse),
{
}

/// Turns dots of mouse motion into an angle.
pub fn turn(dots: i64) -> (r: i64)
    ensures
        r == turn_spec(dots as int),
{
    product(product(dots, SENSITIVITY), DEGREES_PER_DOT)
}

/// The share of the leash that is free: where the nearest hit that is not on
/// a sensor lies along the ray, held between nothing and all of it, and all
/// of it where no such hit exists.
pub fn raycast_camera(hits: &Vec<RayHit>) -> (fraction: i64)
    ensures
        0 <= fraction <= SCALE,
        no_solid_hit(hits@) ==> fraction == SCALE,
        forall|i: int|
            nearest_solid_hit(hits@, i) ==> fraction == clamp_spec(
                hits@[i].time_of_impact as int,
                0,
                SCALE as int,
            ),
{
    let mut nearest: Option<i64> = None;
    let mut i: usize = 0;
    while i < hits.len()
        invariant
            i <= hits.len(),
            nearest is None ==> forall|j: int| 0 <= j < i ==> (#[trigger] hits@[j]).sensor,
            nearest matches Some(t) ==> {
                &&& exists|k: int| 0 <= k < i && !(#[trigger] hits@[k]).sensor && hits@[k].time_of_impact == t
                &&& forall|j: int| 0 <= j < i && !(#[trigger] hits@[j]).sensor ==> t <= hits@[j].time_of_impact
            },
        decreases hits.len() - i,
    {
        let hit = hits[i];
        if !hit.sensor {
            nearest = match nearest {
                Some(t) => if hit.time_of_impact < t {
                    Some(hit.time_of_impact)
                } else {
                    Some(t)
                },
                None => Some(hit.time_of_impact),
            };
        }
        i += 1;
    }
    match nearest {
        Some(t) => {
            proof {
                let w = choose|w: int|
                    0 <= w < hits.len() && !(#[trigger] hits@[w]).sensor && hits@[w].time_of_impact == t;
                assert forall|k: int| nearest_solid_hit(hits@, k) implies hits@[k].time_of_impact == t by {
                    assert(hits@[k].time_of_impact <= hits@[w].time_of_impact);
                }
            }
            clamp(t, 0, SCALE)
        },
        None => SCALE,
    }
}

} // verus!
