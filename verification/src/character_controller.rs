//! The kinematic character controller: grounding, gravity, movement, jumps,
//! damping, the acceleration multiplier and the response to penetration.
//!
//! Speeds count millionths of a unit per second, times millionths of a
//! second, angles millionths of a degree.

use vstd::prelude::*;
use crate::fixed::{clamp, clamp_spec, product, product_spec, sum, sum_spec, SCALE};
use crate::input::{actions_spec, keyboard_input, Keys};
use crate::vector::Vec3;

verus! {

/// The least value of the acceleration multiplier: one.
pub const MULTIPLIER_MIN: i64 = 1_000_000;

/// The greatest value of the acceleration multiplier: ten.
pub const MULTIPLIER_MAX: i64 = 10_000_000;

/// What a jump from the ground adds to the multiplier: 1.1.
pub const MULTIPLIER_STEP: i64 = 1_100_000;

/// The factor by which the multiplier shrinks in one sixtieth of a second
/// on the ground: 0.97.
pub const GROUNDED_DECAY: i64 = 970_000;

/// The factor by which the multiplier shrinks in one sixtieth of a second
/// in the air: 0.999.
pub const AIRBORNE_DECAY: i64 = 999_000;

/// The most jumps that can be taken without touching the ground.
pub const MAX_AIR_JUMPS: u32 = 2;

/// What the player asked for in one tick.
#[derive(Clone, Copy, Debug, PartialEq, Eq, Structural)]
pub enum MovementAction {
    /// Move along a direction of the horizontal plane: `x` to the right of
    /// the camera, `z` the way it looks.
    Move(Vec3),
    /// Jump.
    Jump,
}

/// How the physics engine moves a body.
#[derive(Clone, Copy, Debug, PartialEq, Eq, Structural)]
pub enum RigidBody {
    Dynamic,
    Static,
    Kinematic,
}

/// One hit of the downward shape cast, nearest first.
#[derive(Clone, Copy, Debug, PartialEq, Eq, Structural)]
pub struct GroundHit {
    /// Whether the collider that was hit belongs to the ground layer.
    pub ground: bool,
    /// The angle between the surface normal, in world space, and straight up.
    pub slope_angle: i64,
}

/// The horizontal axes of the camera, in world space, from its yaw alone.
#[derive(Clone, Copy, Debug, PartialEq, Eq, Structural)]
pub struct Heading {
    /// The unit vector to the right of the camera.
    pub right: Vec3,
    /// The unit vector along which the camera looks.
    pub forward: Vec3,
}

/// How long a tick took, and what that time makes of the rates that are
/// given per sixtieth of a second: each factor is its rate raised to the
/// sixtieths of a second in `dt`.
#[derive(Clone, Copy, Debug, PartialEq, Eq, Structural)]
pub struct Step {
    pub dt: i64,
    /// The controller's `damping` over `dt`.
    pub damping: i64,
    /// `GROUNDED_DECAY` over `dt`.
    pub grounded_decay: i64,
    /// `AIRBORNE_DECAY` over `dt`.
    pub airborne_decay: i64,
}

/// The contact points of two colliders that share one normal.
#[derive(Debug)]
pub struct ContactManifold {
    /// The contact normal in world space, pointing from the other collider
    /// to the controller.
    pub normal: Vec3,
    /// The angle between `normal` and straight up.
    pub slope_angle: i64,
    /// How deep each contact point lies inside the other collider.
    pub penetrations: Vec<i64>,
}

/// What the physics engine found between the controller and another collider.
#[derive(Debug)]
pub struct Contacts {
    /// Whether the colliders touched during the sub-step that is being solved.
    pub during_current_substep: bool,
    pub manifolds: Vec<ContactManifold>,
}

/// Whether a slope at `angle` from straight up can be stood on.
pub open spec fn walkable(angle: i64, max_slope_angle: i64) -> bool {
    -max_slope_angle <= angle <= max_slope_angle
}

/// Whether hit `i` is the first of `hits` on the ground layer.
pub open spec fn first_ground_hit(hits: Seq<GroundHit>, i: int) -> bool {
    &&& 0 <= i < hits.len()
    &&& hits[i].ground
    &&& forall|j: int| 0 <= j < i ==> !(#[trigger] hits[j]).ground
}

/// Whether no hit of `hits` is on the ground layer.
pub open spec fn no_ground_hit(hits: Seq<GroundHit>) -> bool {
    forall|j: int| 0 <= j < hits.len() ==> !(#[trigger] hits[j]).ground
}

/// The multiplier `m` held within its bounds.
pub open spec fn bounded_multiplier(m: int) -> int {
    clamp_spec(m, MULTIPLIER_MIN as int, MULTIPLIER_MAX as int)
}

/// The state and the tuning of the player's kinematic body.
#[derive(Clone, Copy, Debug, PartialEq, Eq, Structural)]
pub struct CharacterController {
    pub position: Vec3,
    pub velocity: Vec3,
    pub body: RigidBody,
    /// Standing on a slope that can be walked on.
    pub grounded: bool,
    /// Standing on a slope that is too steep.
    pub sliding: bool,
    /// Jumps taken since the ground was last left.
    pub jump_count: u32,
    /// The acceleration multiplier that chained jumps build up.
    pub multiplier: i64,
    pub acceleration: i64,
    /// The share of horizontal speed that is left after a sixtieth of a second.
    pub damping: i64,
    pub jump_impulse: i64,
    pub max_slope_angle: i64,
    pub gravity: Vec3,
}

impl CharacterController {
    /// What always holds of a controller: it is not grounded and sliding at
    /// once, it has taken at most two jumps in the air, and its multiplier
    /// lies between one and ten.
    pub open spec fn wf(self) -> bool {
        &&& !(self.grounded && self.sliding)
        &&& self.jump_count <= MAX_AIR_JUMPS
        &&& MULTIPLIER_MIN <= self.multiplier <= MULTIPLIER_MAX
    }

    /// A kinematic controller at rest at `position`, with the default tuning:
    /// acceleration 30, damping 0.9, jump impulse 7, slopes up to 81 degrees.
    pub fn new(position: Vec3, gravity: Vec3) -> (c: CharacterController)
        ensures
            c == (CharacterController {
                position,
                velocity: Vec3::zero(),
                body: RigidBody::Kinematic,
                grounded: false,
                sliding: false,
                jump_count: 0,
                multiplier: MULTIPLIER_MIN,
                acceleration: 30_000_000,
                damping: 900_000,
                jump_impulse: 7_000_000,
                max_slope_angle: 81_000_000,
                gravity,
            }),
            c.wf(),
    {
        CharacterController {
            position,
            velocity: Vec3 { x: 0, y: 0, z: 0 },
            body: RigidBody::Kinematic,
            grounded: false,
            sliding: false,
            jump_count: 0,
            multiplier: MULTIPLIER_MIN,
            acceleration: 30_000_000,
            damping: 900_000,
            jump_impulse: 7_000_000,
            max_slope_angle: 81_000_000,
            gravity,
        }
    }

    /// The same controller with another tuning.
    pub fn with_movement(
        self,
        acceleration: i64,
        damping: i64,
        jump_impulse: i64,
        max_slope_angle: i64,
    ) -> (c: CharacterController)
        ensures
            c == (CharacterController {
                acceleration,
                damping,
                jump_impulse,
                max_slope_angle,
                multiplier: MULTIPLIER_MIN,
                ..self
            }),
            self.wf() ==> c.wf(),
    {
        CharacterController {
            acceleration,
            damping,
            jump_impulse,
            max_slope_angle,
            multiplier: MULTIPLIER_MIN,
            ..self
        }
    }

    /// The controller as the hits of the downward shape cast leave it: the
    /// first hit on the ground layer decides.
    pub open spec fn classified(self, hits: Seq<GroundHit>) -> CharacterController
        decreases hits.len(),
    {
        if hits.len() == 0 {
            CharacterController { grounded: false, sliding: false, ..self }
        } else if hits[0].ground {
            CharacterController {
                grounded: walkable(hits[0].slope_angle, self.max_slope_angle),
                sliding: !walkable(hits[0].slope_angle, self.max_slope_angle),
                ..self
            }
        } else {
            self.classified(hits.skip(1))
        }
    }

    /// Decides from the hits of the downward shape cast whether the
    /// controller stands, slides or is in the air. The first hit on the
    /// ground layer decides: it grounds the controller where its slope can
    /// be walked on, and makes it slide where it cannot. With no such hit
    /// the controller is in the air.
    pub fn update_grounded(&mut self, hits: &Vec<GroundHit>)
        ensures
            *final(self) == old(self).classified(hits@),
            *final(self) == (CharacterController {
                grounded: final(self).grounded,
                sliding: final(self).sliding,
                ..*old(self)
            }),
            !(final(self).grounded && final(self).sliding),
            no_ground_hit(hits@) ==> !final(self).grounded && !final(self).sliding,
            forall|i: int| first_ground_hit(hits@, i) ==> {
                &&& final(self).grounded == walkable(hits@[i].slope_angle, old(self).max_slope_angle)
                &&& final(self).sliding == !walkable(hits@[i].slope_angle, old(self).max_slope_angle)
            },
            old(self).wf() ==> final(self).wf(),
    {
        let mut grounded = false;
        let mut sliding = false;
        let mut i: usize = 0;
        proof {
            assert(hits@.skip(0) =~= hits@);
        }
        while i < hits.len()
            invariant_except_break
                i <= hits.len(),
                !grounded && !sliding,
                forall|j: int| 0 <= j < i ==> !(#[trigger] hits@[j]).ground,
                old(self).classified(hits@) == old(self).classified(hits@.skip(i as int)),
            invariant
                *self == *old(self),
            ensures
                !(grounded && sliding),
                no_ground_hit(hits@) ==> !grounded && !sliding,
                forall|k: int| first_ground_hit(hits@, k) ==> {
                    &&& grounded == walkable(hits@[k].slope_angle, self.max_slope_angle)
                    &&& sliding == !walkable(hits@[k].slope_angle, self.max_slope_angle)
                },
                old(self).classified(hits@) == (CharacterController { grounded, sliding, ..*old(self) }),
            decreases hits.len() - i,
        {
            let hit = hits[i];
            proof {
                assert(hits@.skip(i as int)[0] == hits@[i as int]);
                assert(hits@.skip(i as int).skip(1) =~= hits@.skip(i + 1));
            }
            if hit.ground {
                if within_slope(hit.slope_angle, self.max_slope_angle) {
                    grounded = true;
                } else {
                    sliding = true;
                }
                assert forall|k: int| first_ground_hit(hits@, k) implies k == i by {
                    if k > i {
                        assert(!hits@[i as int].ground);
                    }
                }
                break;
            }
            i += 1;
        }
        self.grounded = grounded;
        self.sliding = sliding;
    }

    /// The controller after gravity has pulled on it for `dt`.
    pub open spec fn with_gravity(self, dt: i64) -> CharacterController {
        CharacterController { velocity: self.velocity.plus_spec(self.gravity.scaled_spec(dt)), ..self }
    }

    /// Adds `gravity * dt` to the velocity.
    pub fn apply_gravity(&mut self, dt: i64)
        ensures
            *final(self) == old(self).with_gravity(dt),
            old(self).wf() ==> final(self).wf(),
    {
        self.velocity = self.velocity.plus(self.gravity.scaled(dt));
    }

    /// The speed that a move along a world direction of component `w` adds in
    /// `dt`: `w * acceleration * multiplier * dt`.
    pub open spec fn push_spec(self, w: int, dt: i64) -> int {
        product_spec(
            product_spec(product_spec(w, self.acceleration as int), self.multiplier as int),
            dt as int,
        )
    }

    /// The controller after a move along `direction`, seen from the camera.
    pub open spec fn moved(self, direction: Vec3, heading: Heading, dt: i64) -> CharacterController {
        let world = world_direction(direction, heading);
        CharacterController {
            velocity: Vec3 {
                x: sum_spec(self.velocity.x as int, self.push_spec(world.x as int, dt)) as i64,
                y: self.velocity.y,
                z: sum_spec(self.velocity.z as int, self.push_spec(world.z as int, dt)) as i64,
            },
            ..self
        }
    }

    /// The controller after a jump was asked for.
    pub open spec fn jumped(self) -> CharacterController {
        if self.grounded || self.sliding {
            CharacterController {
                jump_count: 0,
                velocity: Vec3 { y: self.jump_impulse, ..self.velocity },
                multiplier: bounded_multiplier(self.multiplier + MULTIPLIER_STEP) as i64,
                ..self
            }
        } else if self.jump_count < MAX_AIR_JUMPS {
            CharacterController {
                jump_count: (self.jump_count + 1) as u32,
                velocity: Vec3 { y: self.jump_impulse, ..self.velocity },
                ..self
            }
        } else {
            self
        }
    }

    /// The controller after one action.
    pub open spec fn acted(self, action: MovementAction, heading: Heading, dt: i64) -> CharacterController {
        match action {
            MovementAction::Move(direction) => self.moved(direction, heading, dt),
            MovementAction::Jump => self.jumped(),
        }
    }

    /// The controller after every action of `actions`, in order.
    pub open spec fn acted_all(self, actions: Seq<MovementAction>, heading: Heading, dt: i64) -> CharacterController
        decreases actions.len(),
    {
        if actions.len() == 0 {
            self
        } else {
            self.acted_all(actions.drop_last(), heading, dt).acted(actions.last(), heading, dt)
        }
    }

    /// Takes a jump: from the ground or a slope it sets the jump count to
    /// zero and raises the multiplier by 1.1, up to ten; in the air it counts
    /// one jump more, up to two. Either way the vertical speed becomes the
    /// jump impulse. A third jump in the air changes nothing.
    pub fn jump(&mut self)
        ensures
            *final(self) == old(self).jumped(),
            old(self).wf() ==> final(self).wf(),
            old(self).grounded || old(self).sliding ==> final(self).jump_count == 0,
            !old(self).grounded && !old(self).sliding && old(self).jump_count < MAX_AIR_JUMPS
                ==> final(self).jump_count == old(self).jump_count + 1,
            !old(self).grounded && !old(self).sliding && old(self).jump_count >= MAX_AIR_JUMPS
                ==> *final(self) == *old(self),
    {
        if self.grounded || self.sliding {
            self.multiplier = clamp(sum(self.multiplier, MULTIPLIER_STEP), MULTIPLIER_MIN, MULTIPLIER_MAX);
            self.jump_count = 0;
            self.velocity.y = self.jump_impulse;
        } else if self.jump_count < MAX_AIR_JUMPS {
            self.jump_count = self.jump_count + 1;
            self.velocity.y = self.jump_impulse;
        }
    }

    /// Speeds the controller up along `direction`, which is given as the
    /// camera sees it: every horizontal component of the velocity grows by
    /// that component of the world direction times
    /// `acceleration * multiplier * dt`.
    pub fn accelerate(&mut self, direction: Vec3, heading: &Heading, dt: i64)
        ensures
            *final(self) == old(self).moved(direction, *heading, dt),
            old(self).wf() ==> final(self).wf(),
    {
        let world = camera_relative(direction, heading);
        let push_x = product(product(product(world.x, self.acceleration), self.multiplier), dt);
        let push_z = product(product(product(world.z, self.acceleration), self.multiplier), dt);
        self.velocity.x = sum(self.velocity.x, push_x);
        self.velocity.z = sum(self.velocity.z, push_z);
    }

    /// Carries out the actions of one tick, in order, on a controller that is
    /// in a run; outside a run nothing changes.
    pub fn movement(&mut self, actions: &Vec<MovementAction>, heading: &Heading, dt: i64, in_run: bool)
        ensures
            in_run ==> *final(self) == old(self).acted_all(actions@, *heading, dt),
            !in_run ==> *final(self) == *old(self),
            *final(self) == (CharacterController {
                velocity: final(self).velocity,
                jump_count: final(self).jump_count,
                multiplier: final(self).multiplier,
                ..*old(self)
            }),
            old(self).wf() ==> final(self).wf(),
    {
        if !in_run {
            return;
        }
        let mut i: usize = 0;
        while i < actions.len()
            invariant
                i <= actions.len(),
                *self == old(self).acted_all(actions@.take(i as int), *heading, dt),
                *self == (CharacterController {
                    velocity: self.velocity,
                    jump_count: self.jump_count,
                    multiplier: self.multiplier,
                    ..*old(self)
                }),
                old(self).wf() ==> self.wf(),
            decreases actions.len() - i,
        {
            proof {
                assert(actions@.take(i + 1).drop_last() =~= actions@.take(i as int));
            }
            match actions[i] {
                MovementAction::Move(direction) => {
                    self.accelerate(direction, heading, dt);
                },
                MovementAction::Jump => {
                    self.jump();
                },
            }
            i += 1;
        }
        proof {
            assert(actions@.take(actions.len() as int) =~= actions@);
        }
    }

    /// The controller after its horizontal speed was scaled by `factor`.
    pub open spec fn damped(self, factor: i64) -> CharacterController {
        CharacterController {
            velocity: Vec3 {
                x: product_spec(self.velocity.x as int, factor as int) as i64,
                y: self.velocity.y,
                z: product_spec(self.velocity.z as int, factor as int) as i64,
            },
            ..self
        }
    }

    /// Slows the controller down in the horizontal plane: `factor` is the
    /// damping of the tick, `damping` raised to the sixtieths of a second
    /// that the tick took. The vertical speed stays.
    pub fn apply_movement_damping(&mut self, factor: i64)
        ensures
            *final(self) == old(self).damped(factor),
            old(self).wf() ==> final(self).wf(),
    {
        self.velocity.x = product(self.velocity.x, factor);
        self.velocity.z = product(self.velocity.z, factor);
    }

    /// The controller after its multiplier decayed for one tick: by the
    /// decay on the ground where it is grounded, else by the decay in the air.
    pub open spec fn decayed(self, step: Step) -> CharacterController {
        CharacterController {
            multiplier: decayed_multiplier(
                self.multiplier,
                if self.grounded {
                    step.grounded_decay
                } else {
                    step.airborne_decay
                },
            ),
            ..self
        }
    }

    /// Lets the multiplier decay for one tick, faster on the ground than in
    /// the air, and holds it between one and ten.
    pub fn decay_multiplier(&mut self, step: &Step)
        ensures
            *final(self) == old(self).decayed(*step),
            MULTIPLIER_MIN <= final(self).multiplier <= MULTIPLIER_MAX,
            old(self).wf() ==> final(self).wf(),
    {
        let factor = if self.grounded {
            step.grounded_decay
        } else {
            step.airborne_decay
        };
        self.multiplier = clamp(product(self.multiplier, factor), MULTIPLIER_MIN, MULTIPLIER_MAX);
    }

    /// The controller after one tick of a run: grounding, gravity, the
    /// actions that the keys ask for, damping, and the decay of the
    /// multiplier, in this order.
    pub open spec fn ticked(
        self,
        keys: Keys,
        hits: Seq<GroundHit>,
        heading: Heading,
        step: Step,
        in_run: bool,
    ) -> CharacterController {
        let fallen = self.classified(hits).with_gravity(step.dt);
        let steered = if in_run {
            fallen.acted_all(actions_spec(keys), heading, step.dt)
        } else {
            fallen
        };
        steered.damped(step.damping).decayed(step)
    }

    /// Runs one tick while the game is played. The order is part of the
    /// rules: the controller is grounded first, then pulled by gravity, then
    /// moved by what the keys ask for, if it is in a run, then damped, and
    /// last its multiplier decays.
    pub fn tick(&mut self, keys: &Keys, hits: &Vec<GroundHit>, heading: &Heading, step: &Step, in_run: bool)
        ensures
            *final(self) == old(self).ticked(*keys, hits@, *heading, *step, in_run),
            !(final(self).grounded && final(self).sliding),
            MULTIPLIER_MIN <= final(self).multiplier <= MULTIPLIER_MAX,
            old(self).wf() ==> final(self).wf(),
    {
        let actions = keyboard_input(keys);
        self.update_grounded(hits);
        self.apply_gravity(step.dt);
        self.movement(&actions, heading, step.dt, in_run);
        self.apply_movement_damping(step.damping);
        self.decay_multiplier(step);
    }

    /// Runs one tick once the run is finished: the controller is grounded
    /// and pulled by gravity, and no longer steered.
    pub fn tick_finished(&mut self, hits: &Vec<GroundHit>, dt: i64)
        ensures
            *final(self) == old(self).classified(hits@).with_gravity(dt),
            old(self).wf() ==> final(self).wf(),
    {
        self.update_grounded(hits);
        self.apply_gravity(dt);
    }

    /// The controller after one contact point that lies `penetration` deep
    /// pushed it along `normal`.
    pub open spec fn pushed_out(self, normal: Vec3, penetration: i64) -> CharacterController {
        if penetration > 0 {
            CharacterController { position: self.position.plus_spec(normal.scaled_spec(penetration)), ..self }
        } else {
            self
        }
    }

    /// The controller after every contact point of `penetrations`, in order.
    pub open spec fn pushed_out_all(self, normal: Vec3, penetrations: Seq<i64>) -> CharacterController
        decreases penetrations.len(),
    {
        if penetrations.len() == 0 {
            self
        } else {
            self.pushed_out_all(normal, penetrations.drop_last()).pushed_out(normal, penetrations.last())
        }
    }

    /// The controller after it stopped falling, if it was.
    pub open spec fn landed(self) -> CharacterController {
        if self.velocity.y < 0 {
            CharacterController { velocity: Vec3 { y: 0, ..self.velocity }, ..self }
        } else {
            self
        }
    }

    /// The controller after one manifold was resolved.
    pub open spec fn resolved_manifold(self, manifold: ContactManifold) -> CharacterController {
        let pushed = self.pushed_out_all(manifold.normal, manifold.penetrations@);
        if walkable(manifold.slope_angle, self.max_slope_angle) {
            pushed.landed()
        } else {
            pushed
        }
    }

    /// The controller after every manifold of `manifolds`, in order.
    pub open spec fn resolved_manifolds(self, manifolds: Seq<ContactManifold>) -> CharacterController
        decreases manifolds.len(),
    {
        if manifolds.len() == 0 {
            self
        } else {
            self.resolved_manifolds(manifolds.drop_last()).resolved_manifold(manifolds.last())
        }
    }

    /// The controller after the contacts with one collider were resolved.
    pub open spec fn resolved_contacts(self, contacts: Contacts) -> CharacterController {
        if contacts.during_current_substep {
            self.resolved_manifolds(contacts.manifolds@)
        } else {
            self
        }
    }

    /// The controller after the contacts with every collider, in order.
    pub open spec fn resolved_collisions(self, collisions: Seq<Contacts>) -> CharacterController
        decreases collisions.len(),
    {
        if collisions.len() == 0 {
            self
        } else {
            self.resolved_collisions(collisions.drop_last()).resolved_contacts(collisions.last())
        }
    }

    /// Resolves one manifold: every contact point that penetrates moves the
    /// position by `normal * penetration`; then, where the normal is no
    /// steeper than the greatest slope, a fall is stopped.
    pub fn resolve_manifold(&mut self, manifold: &ContactManifold)
        ensures
            *final(self) == old(self).resolved_manifold(*manifold),
            old(self).wf() ==> final(self).wf(),
    {
        let mut i: usize = 0;
        while i < manifold.penetrations.len()
            invariant
                i <= manifold.penetrations.len(),
                *self == old(self).pushed_out_all(manifold.normal, manifold.penetrations@.take(i as int)),
                *self == (CharacterController { position: self.position, ..*old(self) }),
            decreases manifold.penetrations.len() - i,
        {
            proof {
                assert(manifold.penetrations@.take(i + 1).drop_last() =~= manifold.penetrations@.take(
                    i as int,
                ));
            }
            let penetration = manifold.penetrations[i];
            if penetration > 0 {
                self.position = self.position.plus(manifold.normal.scaled(penetration));
            }
            i += 1;
        }
        proof {
            assert(manifold.penetrations@.take(manifold.penetrations.len() as int)
                =~= manifold.penetrations@);
        }
        if within_slope(manifold.slope_angle, self.max_slope_angle) && self.velocity.y < 0 {
            self.velocity.y = 0;
        }
    }

    /// Resolves the contacts with one collider, if the two touched during
    /// the sub-step that is being solved.
    pub fn resolve_contacts(&mut self, contacts: &Contacts)
        ensures
            *final(self) == old(self).resolved_contacts(*contacts),
            old(self).wf() ==> final(self).wf(),
    {
        if !contacts.during_current_substep {
            return;
        }
        let mut i: usize = 0;
        while i < contacts.manifolds.len()
            invariant
                i <= contacts.manifolds.len(),
                *self == old(self).resolved_manifolds(contacts.manifolds@.take(i as int)),
                old(self).wf() ==> self.wf(),
            decreases contacts.manifolds.len() - i,
        {
            proof {
                assert(contacts.manifolds@.take(i + 1).drop_last() =~= contacts.manifolds@.take(i as int));
            }
            self.resolve_manifold(&contacts.manifolds[i]);
            i += 1;
        }
        proof {
            assert(contacts.manifolds@.take(contacts.manifolds.len() as int) =~= contacts.manifolds@);
        }
    }

    /// Pushes a kinematic controller out of what it penetrates, once per
    /// physics sub-step. A body of another kind is left to the physics
    /// engine.
    pub fn kinematic_controller_collisions(&mut self, collisions: &Vec<Contacts>)
        ensures
            old(self).body == RigidBody::Kinematic ==> *final(self) == old(self).resolved_collisions(
                collisions@,
            ),
            old(self).body != RigidBody::Kinematic ==> *final(self) == *old(self),
            old(self).wf() ==> final(self).wf(),
    {
        match self.body {
            RigidBody::Kinematic => {},
            _ => {
                return;
            },
        }
        let mut i: usize = 0;
        while i < collisions.len()
            invariant
                i <= collisions.len(),
                *self == old(self).resolved_collisions(collisions@.take(i as int)),
                old(self).wf() ==> self.wf(),
            decreases collisions.len() - i,
        {
            proof {
                assert(collisions@.take(i + 1).drop_last() =~= collisions@.take(i as int));
            }
            self.resolve_contacts(&collisions[i]);
            i += 1;
        }
        proof {
            assert(collisions@.take(collisions.len() as int) =~= collisions@);
        }
    }
}

/// The multiplier `m` after a decay by `factor`, held between one and ten.
pub open spec fn decayed_multiplier(m: i64, factor: i64) -> i64 {
    bounded_multiplier(product_spec(m as int, factor as int)) as i64
}

/// The world direction of a move that the camera sees along `direction`:
/// `direction.x` along the camera's right and `direction.z` along its
/// forward axis.
pub open spec fn world_direction(direction: Vec3, heading: Heading) -> Vec3 {
    heading.right.scaled_spec(direction.x).plus_spec(heading.forward.scaled_spec(direction.z))
}

/// Turns a direction as the camera sees it into a world direction.
pub fn camera_relative(direction: Vec3, heading: &Heading) -> (r: Vec3)
    ensures
        r == world_direction(direction, *heading),
{
    heading.right.scaled(direction.x).plus(heading.forward.scaled(direction.z))
}

/// On the ground the multiplier falls toward one faster than in the air.
/// Take one tick whose two decays are at most one, that on the ground the
/// smaller, as the powers of 0.97 and 0.999 are over any equal time. Then a
/// controller comes out of the tick with a multiplier that is at least one
/// and no greater than before, no greater if it is grounded than if it is
/// not, and smaller wherever the decay in the air leaves it above one.
pub proof fn lemma_grounded_decays_faster(c: CharacterController, step: Step)
    requires
        c.wf(),
        0 <= step.grounded_decay < step.airborne_decay <= SCALE,
    ensures
        ({
            let on_ground = (CharacterController { grounded: true, sliding: false, ..c }).decayed(step);
            let in_air = (CharacterController { grounded: false, ..c }).decayed(step);
            &&& MULTIPLIER_MIN <= on_ground.multiplier <= in_air.multiplier <= c.multiplier
            &&& in_air.multiplier > MULTIPLIER_MIN ==> on_ground.multiplier < in_air.multiplier
        }),
        GROUNDED_DECAY < AIRBORNE_DECAY <= SCALE,
{
    let a = c.multiplier as int * step.grounded_decay as int;
    let b = c.multiplier as int * step.airborne_decay as int;
    assert(0 <= a && a + 1_000_000 <= b && b <= c.multiplier * 1_000_000) by (nonlinear_arith)
        requires
            a == c.multiplier as int * step.grounded_decay as int,
            b == c.multiplier as int * step.airborne_decay as int,
            1_000_000 <= c.multiplier <= 10_000_000,
            0 <= step.grounded_decay < step.airborne_decay <= 1_000_000,
    ;
    assert(0 <= a / 1_000_000 < b / 1_000_000 <= c.multiplier) by (nonlinear_arith)
        requires
            0 <= a,
            a + 1_000_000 <= b,
            b <= c.multiplier * 1_000_000,
    ;
}

/// Tells whether a slope at `angle` from straight up can be stood on.
pub fn within_slope(angle: i64, max_slope_angle: i64) -> (r: bool)
    ensures
        r == walkable(angle, max_slope_angle),
{
    if max_slope_angle < 0 {
        false
    } else {
        angle <= max_slope_angle && angle >= -max_slope_angle
    }
}

} // verus!
