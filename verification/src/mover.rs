//! A point mass that is pushed around by forces, one tick at a time.
//!
//! Within a tick, forces are first gathered with `apply_force` and
//! `apply_friction`; `update` then turns what was gathered into motion and
//! starts the next tick with the mover's inherent force alone.
//!
//! Two things are for the host to choose. What happens at the edges of the
//! rectangle is an [`EdgePolicy`]; a new mover stops there. Whether a force
//! is divided by the mover's mass before it is gathered is a switch that is
//! off in a new mover: forces then take effect as they are.

use vstd::prelude::*;
use crate::geom::{Rect, Vec2};
use crate::random::random_range;
use crate::units::{clamp, saturate, saturate_i32, spec_clamp, trunc_div, UNIT};

verus! {

/// The fastest that a new mover travels along an axis in the positive
/// direction, per tick.
pub const TOP_SPEED: i32 = 4000;

/// The fastest that a new mover travels along an axis in the negative
/// direction, per tick.
pub const MIN_SPEED: i32 = -4000;

/// The mass of a new mover is drawn from `MIN_MASS` up to, but not
/// including, `MAX_MASS`.
pub const MIN_MASS: i32 = 1000;

pub const MAX_MASS: i32 = 10000;

/// Friction takes away `FRICTION_NUMERATOR / FRICTION_DENOMINATOR` of the
/// velocity.
pub const FRICTION_NUMERATOR: i32 = 3;

pub const FRICTION_DENOMINATOR: i32 = 10;

/// A bounce keeps one part in `BOUNCE_DAMPING` of the speed.
pub const BOUNCE_DAMPING: i32 = 2;

/// What happens to a mover that would leave its rectangle.
#[derive(Debug, Clone, Copy, PartialEq, Eq, Structural)]
pub enum EdgePolicy {
    /// The mover reappears on the opposite edge and keeps its velocity.
    Wrap,
    /// The mover stops on the edge: along that axis its velocity becomes
    /// zero.
    Clamp,
    /// The mover is put on the edge and thrown back: along that axis its
    /// velocity is reversed and dampened.
    Bounce,
}

/// The sum of two vectors, each coordinate stopping at the ends of the range
/// of an `i32`.
pub open spec fn saturating_sum(a: Vec2, b: Vec2) -> Vec2 {
    Vec2 { x: saturate(a.x + b.x) as i32, y: saturate(a.y + b.y) as i32 }
}

/// What `force` does to a mover of mass `mass` when forces are scaled by
/// mass: the force divided by the mass, where a mass of `UNIT` leaves the
/// force as it is.
pub open spec fn scaled_by_mass(force: Vec2, mass: i32) -> Vec2 {
    Vec2 {
        x: saturate(trunc_div(force.x * UNIT, mass as int)) as i32,
        y: saturate(trunc_div(force.y * UNIT, mass as int)) as i32,
    }
}

/// The force with which friction opposes `velocity`.
pub open spec fn friction_of(velocity: Vec2) -> Vec2 {
    Vec2 {
        x: (-trunc_div(velocity.x * FRICTION_NUMERATOR, FRICTION_DENOMINATOR as int)) as i32,
        y: (-trunc_div(velocity.y * FRICTION_NUMERATOR, FRICTION_DENOMINATOR as int)) as i32,
    }
}

/// Position and velocity along one axis once `policy` has dealt with the
/// edges `low` and `high`.
pub open spec fn resolve_edge(
    policy: EdgePolicy,
    position: int,
    velocity: int,
    low: int,
    high: int,
    min_speed: int,
    top_speed: int,
) -> (int, int) {
    if position > high {
        match policy {
            EdgePolicy::Wrap => (low, velocity),
            EdgePolicy::Clamp => (high, 0),
            EdgePolicy::Bounce => (
                high,
                spec_clamp(-trunc_div(velocity, BOUNCE_DAMPING as int), min_speed, top_speed),
            ),
        }
    } else if position < low {
        match policy {
            EdgePolicy::Wrap => (high, velocity),
            EdgePolicy::Clamp => (low, 0),
            EdgePolicy::Bounce => (
                low,
                spec_clamp(-trunc_div(velocity, BOUNCE_DAMPING as int), min_speed, top_speed),
            ),
        }
    } else {
        (position, velocity)
    }
}

/// Position and velocity along one axis after a tick: the force is added to
/// the velocity, the velocity is held within its limits and added to the
/// position, and `policy` deals with the edges.
pub open spec fn step_axis(
    policy: EdgePolicy,
    position: int,
    velocity: int,
    force: int,
    low: int,
    high: int,
    min_speed: int,
    top_speed: int,
) -> (int, int) {
    let moved = spec_clamp(velocity + force, min_speed, top_speed);
    resolve_edge(policy, position + moved, moved, low, high, min_speed, top_speed)
}

/// Whatever the force and whatever the policy, a tick leaves the position
/// between the edges and the velocity within its limits.
pub proof fn lemma_step_axis_bounds(
    policy: EdgePolicy,
    position: int,
    velocity: int,
    force: int,
    low: int,
    high: int,
    min_speed: int,
    top_speed: int,
)
    requires
        low <= high,
        min_speed <= 0 <= top_speed,
    ensures
        low <= step_axis(policy, position, velocity, force, low, high, min_speed, top_speed).0
            <= high,
        min_speed <= step_axis(policy, position, velocity, force, low, high, min_speed, top_speed).1
            <= top_speed,
{
}

/// What a mover is made of: the mathematical model of a [`Mover`].
pub struct MoverState {
    pub position: Vec2,
    pub velocity: Vec2,
    pub top_speed: i32,
    pub min_speed: i32,
    pub mass: i32,
    /// The force that acts on the mover in every tick.
    pub inherent_force: Vec2,
    /// The force gathered for the tick in progress.
    pub current_force: Vec2,
    pub edge_policy: EdgePolicy,
    /// Whether a force is divided by the mass before it is gathered.
    pub scales_by_mass: bool,
}

impl MoverState {
    /// Whether the mass is positive, the speed limits lie on either side of
    /// zero, and the velocity is within them.
    pub open spec fn wf(self) -> bool {
        &&& self.mass > 0
        &&& self.min_speed <= 0 <= self.top_speed
        &&& self.min_speed <= self.velocity.x <= self.top_speed
        &&& self.min_speed <= self.velocity.y <= self.top_speed
    }

    /// A mover that stands still at `position` with mass `mass`, the default
    /// speed limits, no force at work, the policy of stopping at the edges,
    /// and forces that take effect whatever the mass.
    pub open spec fn fresh(position: Vec2, mass: i32) -> MoverState {
        MoverState {
            position,
            velocity: Vec2 { x: 0, y: 0 },
            top_speed: TOP_SPEED,
            min_speed: MIN_SPEED,
            mass,
            inherent_force: Vec2 { x: 0, y: 0 },
            current_force: Vec2 { x: 0, y: 0 },
            edge_policy: EdgePolicy::Clamp,
            scales_by_mass: false,
        }
    }

    /// What `force` adds to the gathered force: the force itself, or the
    /// force divided by the mass where the mover scales forces by mass.
    pub open spec fn effect_of(self, force: Vec2) -> Vec2 {
        if self.scales_by_mass {
            scaled_by_mass(force, self.mass)
        } else {
            force
        }
    }

    /// The mover after `force` was added to what has been gathered.
    pub open spec fn apply_force(self, force: Vec2) -> MoverState {
        MoverState {
            current_force: saturating_sum(self.current_force, self.effect_of(force)),
            ..self
        }
    }

    /// The mover after friction was added to what has been gathered.
    pub open spec fn apply_friction(self) -> MoverState {
        self.apply_force(friction_of(self.velocity))
    }

    /// The mover after each of `forces` was added in turn.
    pub open spec fn apply_forces(self, forces: Seq<Vec2>) -> MoverState
        decreases forces.len(),
    {
        if forces.len() == 0 {
            self
        } else {
            self.apply_forces(forces.drop_last()).apply_force(forces.last())
        }
    }

    /// The mover after the end of a tick in `rect`.
    pub open spec fn update(self, rect: Rect) -> MoverState {
        let x = step_axis(
            self.edge_policy,
            self.position.x as int,
            self.velocity.x as int,
            self.current_force.x as int,
            rect.spec_left() as int,
            rect.spec_right() as int,
            self.min_speed as int,
            self.top_speed as int,
        );
        let y = step_axis(
            self.edge_policy,
            self.position.y as int,
            self.velocity.y as int,
            self.current_force.y as int,
            rect.spec_bottom() as int,
            rect.spec_top() as int,
            self.min_speed as int,
            self.top_speed as int,
        );
        MoverState {
            position: Vec2 { x: x.0 as i32, y: y.0 as i32 },
            velocity: Vec2 { x: x.1 as i32, y: y.1 as i32 },
            current_force: self.inherent_force,
            ..self
        }
    }
}

/// Gathering forces changes nothing but the gathered force, so it leaves a
/// valid mover valid.
pub proof fn lemma_apply_forces_keeps_the_rest(state: MoverState, forces: Seq<Vec2>)
    ensures
        state.apply_forces(forces) == (MoverState {
            current_force: state.apply_forces(forces).current_force,
            ..state
        }),
        state.wf() ==> state.apply_forces(forces).wf(),
    decreases forces.len(),
{
    if forces.len() > 0 {
        lemma_apply_forces_keeps_the_rest(state, forces.drop_last());
    }
}

/// The end of a tick leaves the velocity within the speed limits along both
/// axes and the position inside the rectangle, whatever force was gathered
/// and whatever the edge policy is.
pub proof fn lemma_update_keeps_the_limits(state: MoverState, rect: Rect)
    requires
        state.wf(),
        rect.wf(),
    ensures
        state.update(rect).wf(),
        state.update(rect).min_speed == state.min_speed,
        state.update(rect).top_speed == state.top_speed,
        state.min_speed <= state.update(rect).velocity.x <= state.top_speed,
        state.min_speed <= state.update(rect).velocity.y <= state.top_speed,
        rect.spec_contains(state.update(rect).position),
        state.update(rect).current_force == state.inherent_force,
{
    rect.lemma_wf_edges();
    lemma_step_axis_bounds(
        state.edge_policy,
        state.position.x as int,
        state.velocity.x as int,
        state.current_force.x as int,
        rect.spec_left() as int,
        rect.spec_right() as int,
        state.min_speed as int,
        state.top_speed as int,
    );
    lemma_step_axis_bounds(
        state.edge_policy,
        state.position.y as int,
        state.velocity.y as int,
        state.current_force.y as int,
        rect.spec_bottom() as int,
        rect.spec_top() as int,
        state.min_speed as int,
        state.top_speed as int,
    );
}

/// However many forces are applied within a tick, and whatever they are, the
/// velocity after `update` lies within the speed limits along both axes.
pub proof fn lemma_velocity_is_clamped(state: MoverState, forces: Seq<Vec2>, rect: Rect)
    requires
        state.wf(),
        rect.wf(),
    ensures
        state.min_speed <= state.apply_forces(forces).update(rect).velocity.x <= state.top_speed,
        state.min_speed <= state.apply_forces(forces).update(rect).velocity.y <= state.top_speed,
{
    lemma_apply_forces_keeps_the_rest(state, forces);
    lemma_update_keeps_the_limits(state.apply_forces(forces), rect);
}

/// A single push along the x axis sets a resting mover in motion: after the
/// tick its velocity is the push, held within the speed limits, and as long
/// as that keeps it inside the rectangle, its position has moved by exactly
/// that velocity.
pub proof fn lemma_first_push(position: Vec2, mass: i32, push: i32, rect: Rect)
    requires
        mass > 0,
        rect.wf(),
        rect.spec_contains(position),
        0 < push,
        position.x + spec_clamp(push as int, MIN_SPEED as int, TOP_SPEED as int)
            <= rect.spec_right(),
    ensures
        ({
            let pushed = MoverState::fresh(position, mass).apply_force(Vec2 { x: push, y: 0 });
            let after = pushed.update(rect);
            &&& after.velocity.x > 0
            &&& after.velocity.x == spec_clamp(push as int, MIN_SPEED as int, TOP_SPEED as int)
            &&& after.velocity.y == 0
            &&& after.position.x == position.x + after.velocity.x
            &&& after.position.y == position.y
        }),
{
    rect.lemma_wf_edges();
}

/// A point mass with a position, a velocity, and the force gathered for the
/// tick in progress.
pub struct Mover {
    position: Vec2,
    velocity: Vec2,
    top_speed: i32,
    min_speed: i32,
    mass: i32,
    // inherent_force is some force that is exerted on the object as a result
    // of the inherent properties of the object. Example: Helium's buoyancy
    inherent_force: Vec2,
    current_force: Vec2,
    edge_policy: EdgePolicy,
    scales_by_mass: bool,
}

impl View for Mover {
    type V = MoverState;

    closed spec fn view(&self) -> MoverState {
        MoverState {
            position: self.position,
            velocity: self.velocity,
            top_speed: self.top_speed,
            min_speed: self.min_speed,
            mass: self.mass,
            inherent_force: self.inherent_force,
            current_force: self.current_force,
            edge_policy: self.edge_policy,
            scales_by_mass: self.scales_by_mass,
        }
    }
}

fn resolve(
    policy: EdgePolicy,
    position: i64,
    velocity: i32,
    low: i32,
    high: i32,
    min_speed: i32,
    top_speed: i32,
) -> (r: (i32, i32))
    requires
        low <= high,
        min_speed <= 0 <= top_speed,
        min_speed <= velocity <= top_speed,
    ensures
        (r.0 as int, r.1 as int) == resolve_edge(
            policy,
            position as int,
            velocity as int,
            low as int,
            high as int,
            min_speed as int,
            top_speed as int,
        ),
        low <= r.0 <= high,
        min_speed <= r.1 <= top_speed,
{
    if position > high as i64 {
        match policy {
            EdgePolicy::Wrap => (low, velocity),
            EdgePolicy::Clamp => (high, 0),
            EdgePolicy::Bounce => (
                high,
                clamp(-((velocity / BOUNCE_DAMPING) as i64), min_speed as i64, top_speed as i64)
                    as i32,
            ),
        }
    } else if position < low as i64 {
        match policy {
            EdgePolicy::Wrap => (high, velocity),
            EdgePolicy::Clamp => (low, 0),
            EdgePolicy::Bounce => (
                low,
                clamp(-((velocity / BOUNCE_DAMPING) as i64), min_speed as i64, top_speed as i64)
                    as i32,
            ),
        }
    } else {
        (position as i32, velocity)
    }
}

impl Mover {
    /// The invariant of every mover: its state is a valid one.
    #[verifier::type_invariant]
    pub closed spec fn wf(&self) -> bool {
        self@.wf()
    }

    fn fresh(position: Vec2, mass: i32) -> (mover: Self)
        requires
            mass > 0,
        ensures
            mover@ == MoverState::fresh(position, mass),
    {
        Mover {
            position,
            velocity: Vec2 { x: 0, y: 0 },
            top_speed: TOP_SPEED,
            min_speed: MIN_SPEED,
            mass,
            inherent_force: Vec2 { x: 0, y: 0 },
            current_force: Vec2 { x: 0, y: 0 },
            edge_policy: EdgePolicy::Clamp,
            scales_by_mass: false,
        }
    }

    /// A mover that stands still at `position` and weighs `mass`; `None`
    /// when `mass` is not positive.
    pub fn at(position: Vec2, mass: i32) -> (r: Option<Self>)
        ensures
            r.is_some() <==> mass > 0,
            r matches Some(mover) ==> mover@ == MoverState::fresh(position, mass),
    {
        if mass > 0 {
            Some(Mover::fresh(position, mass))
        } else {
            None
        }
    }

    /// A mover that stands still somewhere in `rect`, with a mass between
    /// `MIN_MASS` and `MAX_MASS`. Place and mass are drawn at random; an
    /// edge of zero length leaves no choice along its axis.
    pub fn new(rect: Rect) -> (mover: Self)
        ensures
            mover@ == MoverState::fresh(mover@.position, mover@.mass),
            rect.spec_contains(mover@.position),
            rect.spec_left() < rect.spec_right() ==> mover@.position.x < rect.spec_right(),
            rect.spec_bottom() < rect.spec_top() ==> mover@.position.y < rect.spec_top(),
            MIN_MASS <= mover@.mass < MAX_MASS,
    {
        proof {
            use_type_invariant(&rect);
            rect.lemma_wf_edges();
        }
        let rand_x: i32 = if rect.left() == rect.right() {
            rect.left()
        } else {
            random_range(rect.left(), rect.right())
        };
        let rand_y: i32 = if rect.top() == rect.bottom() {
            rect.top()
        } else {
            random_range(rect.top(), rect.bottom())
        };
        let mass: i32 = random_range(MIN_MASS, MAX_MASS);
        Mover::fresh(Vec2 { x: rand_x, y: rand_y }, mass)
    }

    /// Like `new`, for a mover on which `inherent_force` acts in every tick,
    /// the first one included.
    pub fn new_with_inherent_force(rect: Rect, inherent_force: Vec2) -> (mover: Self)
        ensures
            mover@ == (MoverState {
                inherent_force,
                current_force: inherent_force,
                ..MoverState::fresh(mover@.position, mover@.mass)
            }),
            rect.spec_contains(mover@.position),
            rect.spec_left() < rect.spec_right() ==> mover@.position.x < rect.spec_right(),
            rect.spec_bottom() < rect.spec_top() ==> mover@.position.y < rect.spec_top(),
            MIN_MASS <= mover@.mass < MAX_MASS,
    {
        let mut mover = Mover::new(rect);
        mover.inherent_force = inherent_force;
        mover.current_force = inherent_force;
        mover
    }

    /// The same mover with another way of dealing with the edges.
    pub fn with_edge_policy(self, edge_policy: EdgePolicy) -> (mover: Self)
        ensures
            mover@ == (MoverState { edge_policy, ..self@ }),
    {
        proof {
            use_type_invariant(&self);
        }
        let mut mover = self;
        mover.edge_policy = edge_policy;
        mover
    }

    /// The same mover with forces that are divided by its mass before they
    /// are gathered, or, with `false`, that take effect whatever the mass.
    pub fn with_mass_scaling(self, scales_by_mass: bool) -> (mover: Self)
        ensures
            mover@ == (MoverState { scales_by_mass, ..self@ }),
    {
        proof {
            use_type_invariant(&self);
        }
        let mut mover = self;
        mover.scales_by_mass = scales_by_mass;
        mover
    }

    pub fn position(&self) -> (r: Vec2)
        ensures
            r == self@.position,
    {
        self.position
    }

    pub fn velocity(&self) -> (r: Vec2)
        ensures
            r == self@.velocity,
            self@.min_speed <= r.x <= self@.top_speed,
            self@.min_speed <= r.y <= self@.top_speed,
    {
        proof {
            use_type_invariant(self);
        }
        self.velocity
    }

    pub fn top_speed(&self) -> (r: i32)
        ensures
            r == self@.top_speed,
    {
        self.top_speed
    }

    pub fn min_speed(&self) -> (r: i32)
        ensures
            r == self@.min_speed,
    {
        self.min_speed
    }

    pub fn mass(&self) -> (r: i32)
        ensures
            r == self@.mass,
            r > 0,
    {
        proof {
            use_type_invariant(self);
        }
        self.mass
    }

    pub fn inherent_force(&self) -> (r: Vec2)
        ensures
            r == self@.inherent_force,
    {
        self.inherent_force
    }

    pub fn current_force(&self) -> (r: Vec2)
        ensures
            r == self@.current_force,
    {
        self.current_force
    }

    pub fn edge_policy(&self) -> (r: EdgePolicy)
        ensures
            r == self@.edge_policy,
    {
        self.edge_policy
    }

    pub fn scales_by_mass(&self) -> (r: bool)
        ensures
            r == self@.scales_by_mass,
    {
        self.scales_by_mass
    }

    /// Adds `force` to what has been gathered for this tick, divided by the
    /// mass first where the mover scales forces by mass. The sum stops at
    /// the ends of the range of an `i32`.
    pub fn apply_force(&mut self, force: Vec2)
        ensures
            final(self)@ == old(self)@.apply_force(force),
    {
        proof {
            use_type_invariant(&*self);
        }
        let effect = if self.scales_by_mass {
            let mass: i64 = self.mass as i64;
            Vec2 {
                x: saturate_i32((force.x as i64 * UNIT as i64) / mass),
                y: saturate_i32((force.y as i64 * UNIT as i64) / mass),
            }
        } else {
            force
        };
        self.current_force = Vec2 {
            x: saturate_i32(self.current_force.x as i64 + effect.x as i64),
            y: saturate_i32(self.current_force.y as i64 + effect.y as i64),
        };
    }

    /// Adds the force with which friction opposes the current velocity.
    pub fn apply_friction(&mut self)
        ensures
            final(self)@ == old(self)@.apply_friction(),
    {
        let numerator: i64 = FRICTION_NUMERATOR as i64;
        let denominator: i64 = FRICTION_DENOMINATOR as i64;
        let opposite_force = Vec2 {
            x: (-((self.velocity.x as i64 * numerator) / denominator)) as i32,
            y: (-((self.velocity.y as i64 * numerator) / denominator)) as i32,
        };
        self.apply_force(opposite_force);
    }

    /// Ends the tick. The gathered force is added to the velocity, the
    /// velocity is held within the speed limits and added to the position,
    /// the edge policy deals with a position outside `rect`, and the next
    /// tick starts with the inherent force alone.
    pub fn update(&mut self, rect: Rect)
        ensures
            final(self)@ == old(self)@.update(rect),
            final(self)@.min_speed <= final(self)@.velocity.x <= final(self)@.top_speed,
            final(self)@.min_speed <= final(self)@.velocity.y <= final(self)@.top_speed,
            rect.spec_contains(final(self)@.position),
    {
        proof {
            use_type_invariant(&*self);
            use_type_invariant(&rect);
            rect.lemma_wf_edges();
        }
        let min_speed: i64 = self.min_speed as i64;
        let top_speed: i64 = self.top_speed as i64;
        let moved_x: i32 = clamp(
            self.velocity.x as i64 + self.current_force.x as i64,
            min_speed,
            top_speed,
        ) as i32;
        let moved_y: i32 = clamp(
            self.velocity.y as i64 + self.current_force.y as i64,
            min_speed,
            top_speed,
        ) as i32;
        let (x, velocity_x) = resolve(
            self.edge_policy,
            self.position.x as i64 + moved_x as i64,
            moved_x,
            rect.left(),
            rect.right(),
            self.min_speed,
            self.top_speed,
        );
        let (y, velocity_y) = resolve(
            self.edge_policy,
            self.position.y as i64 + moved_y as i64,
            moved_y,
            rect.bottom(),
            rect.top(),
            self.min_speed,
            self.top_speed,
        );
        self.velocity = Vec2 { x: velocity_x, y: velocity_y };
        self.position = Vec2 { x, y };
        self.current_force = self.inherent_force;
    }
}

} // verus!
