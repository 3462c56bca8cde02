//! The single-slot animator: a fixed-step linear tween that carries one
//! disk's position towards a target.
//!
//! Positions are integer milliunits (thousandths of a world unit). Every
//! position the game ever feeds the slot lies on that grid, so the tween —
//! each tick moves by a hundredth of the start-to-target distance — is exact
//! in integers, and reaching the tolerance box of a tenth of a unit around
//! the target is a provable fact rather than a numerical hope.

use vstd::prelude::*;
use vstd::arithmetic::mul::{lemma_mul_inequality, lemma_mul_nonnegative};

verus! {

/// A position in milliunits: each axis counts thousandths of a world unit.
#[derive(Clone, Copy, PartialEq, Eq, Structural, Debug)]
pub struct Vec3Milli {
    pub x: i32,
    pub y: i32,
    pub z: i32,
}

/// The largest coordinate magnitude the animator accepts, far enough from the
/// `i32` limits that the tween arithmetic can never overflow.
pub const MAX_COORD: i32 = 1000000;

/// All three coordinates within the accepted range.
pub open spec fn coord_ok(v: Vec3Milli) -> bool {
    &&& -MAX_COORD <= v.x <= MAX_COORD
    &&& -MAX_COORD <= v.y <= MAX_COORD
    &&& -MAX_COORD <= v.z <= MAX_COORD
}

/// One axis of the tween step: a hundredth of the start-to-target distance,
/// rounded towards zero.
pub open spec fn axis_step(s: int, t: int) -> int {
    if t >= s {
        (t - s) / 100
    } else {
        -((s - t) / 100)
    }
}

/// Where one axis stands after `k` tween ticks from `s` towards `t`.
pub open spec fn axis_after(s: int, t: int, k: int) -> int {
    s + k * axis_step(s, t)
}

/// Inside the tolerance box: every axis strictly within a tenth of a unit
/// (100 milliunits) of the target.
pub open spec fn on_pos(px: int, py: int, pz: int, t: Vec3Milli) -> bool {
    &&& px - 100 < t.x < px + 100
    &&& py - 100 < t.y < py + 100
    &&& pz - 100 < t.z < pz + 100
}

/// For up to 100 ticks the axis never leaves the closed interval between
/// start and target.
proof fn lemma_axis_between(s: int, t: int, k: int)
    requires
        0 <= k <= 100,
    ensures
        t >= s ==> s <= axis_after(s, t, k) <= t,
        t < s ==> t <= axis_after(s, t, k) <= s,
{
    if t >= s {
        let st = (t - s) / 100;
        assert(0 <= st);
        assert(100 * st <= t - s);
        lemma_mul_nonnegative(k, st);
        lemma_mul_inequality(k, 100, st);
    } else {
        let st = (s - t) / 100;
        assert(0 <= st);
        assert(100 * st <= s - t);
        lemma_mul_nonnegative(k, st);
        lemma_mul_inequality(k, 100, st);
        assert(axis_step(s, t) == -st);
        assert(k * (-st) == -(k * st)) by (nonlinear_arith);
    }
}

/// After exactly 100 ticks the axis is within 99 milliunits of the target:
/// only the division remainder is left.
proof fn lemma_axis_close_at_100(s: int, t: int)
    ensures
        -99 <= t - axis_after(s, t, 100) <= 99,
{
    if t >= s {
        let st = (t - s) / 100;
        assert(t - s == 100 * st + (t - s) % 100);
        assert(0 <= (t - s) % 100 < 100);
    } else {
        let st = (s - t) / 100;
        assert(s - t == 100 * st + (s - t) % 100);
        assert(0 <= (s - t) % 100 < 100);
        assert(axis_step(s, t) == -st);
        assert(100 * (-st) == -(100 * st)) by (nonlinear_arith);
    }
}

/// Animator convergence: whatever the start and the target, 100 tween ticks
/// put every axis strictly inside the tolerance box around the target.
pub proof fn lemma_animator_converges(s: Vec3Milli, t: Vec3Milli)
    ensures
        on_pos(
            axis_after(s.x as int, t.x as int, 100),
            axis_after(s.y as int, t.y as int, 100),
            axis_after(s.z as int, t.z as int, 100),
            t,
        ),
{
    lemma_axis_close_at_100(s.x as int, t.x as int);
    lemma_axis_close_at_100(s.y as int, t.y as int);
    lemma_axis_close_at_100(s.z as int, t.z as int);
}

/// How many animations an animator is running. The animator is one slot, so
/// this can never exceed one: at most one piece animates at any instant.
pub open spec fn active_animations(a: Anmiator) -> int {
    if a.is_in_animation {
        1
    } else {
        0
    }
}

/// At most one animation is active at any instant: the single slot either
/// runs one animation or none.
pub proof fn lemma_at_most_one_animation(a: Anmiator)
    ensures
        active_animations(a) <= 1,
{
}

/// One axis of the per-tick movement, computed exactly as `axis_step` says.
fn step_exec(s: i32, t: i32) -> (r: i32)
    requires
        -MAX_COORD <= s <= MAX_COORD,
        -MAX_COORD <= t <= MAX_COORD,
    ensures
        r == axis_step(s as int, t as int),
{
    if t >= s {
        (t - s) / 100
    } else {
        -((s - t) / 100)
    }
}

/// The single animation slot. At most one piece is ever animated: the slot
/// holds one disk or nothing.
pub struct Anmiator {
    /// Whether the slot is occupied.
    pub is_in_animation: bool,
    /// The disk (by width, which is unique) whose position is being driven.
    pub animated: Option<u32>,
    /// Where the running animation started.
    pub starting_pos: Option<Vec3Milli>,
    /// Where the driven disk stands right now.
    pub current_pos: Option<Vec3Milli>,
    /// Where the running animation is headed.
    pub target_pos: Option<Vec3Milli>,
    /// How many ticks the running animation has taken; carried only for the
    /// convergence argument.
    pub ticks: Ghost<int>,
}

/// The slot was freed: the animation ended and only the recorded start of the
/// finished flight is kept.
pub open spec fn slot_cleared(pre: Anmiator, post: Anmiator) -> bool {
    &&& !post.is_in_animation
    &&& post.animated is None
    &&& post.current_pos is None
    &&& post.target_pos is None
    &&& post.starting_pos == pre.starting_pos
}

/// One tween tick of an occupied slot: the driven disk `w` advanced to `np`,
/// and the slot either kept flying with that position or, having entered the
/// tolerance box, was freed.
pub open spec fn ticked(pre: Anmiator, post: Anmiator, w: u32, np: Vec3Milli) -> bool {
    let s = pre.starting_pos.unwrap();
    let t = pre.target_pos.unwrap();
    let k = pre.ticks@;
    &&& w == pre.animated.unwrap()
    &&& np.x == axis_after(s.x as int, t.x as int, k + 1)
    &&& np.y == axis_after(s.y as int, t.y as int, k + 1)
    &&& np.z == axis_after(s.z as int, t.z as int, k + 1)
    &&& coord_ok(np)
    &&& if on_pos(np.x as int, np.y as int, np.z as int, t) {
        slot_cleared(pre, post)
    } else {
        &&& post.is_in_animation
        &&& post.animated == pre.animated
        &&& post.starting_pos == pre.starting_pos
        &&& post.target_pos == pre.target_pos
        &&& post.current_pos == Some(np)
        &&& post.ticks@ == k + 1
    }
}

impl Anmiator {
    /// A healthy slot: when occupied it knows its disk, its endpoints are in
    /// range, and the current position is exactly `ticks` tween steps along —
    /// never more than 99, because the hundredth tick always lands in the
    /// tolerance box and frees the slot.
    pub open spec fn wf(self) -> bool {
        self.is_in_animation ==> {
            &&& self.animated is Some
            &&& self.starting_pos is Some
            &&& self.current_pos is Some
            &&& self.target_pos is Some
            &&& coord_ok(self.starting_pos.unwrap())
            &&& coord_ok(self.target_pos.unwrap())
            &&& 0 <= self.ticks@ <= 99
            &&& self.current_pos.unwrap().x == axis_after(
                self.starting_pos.unwrap().x as int,
                self.target_pos.unwrap().x as int,
                self.ticks@,
            )
            &&& self.current_pos.unwrap().y == axis_after(
                self.starting_pos.unwrap().y as int,
                self.target_pos.unwrap().y as int,
                self.ticks@,
            )
            &&& self.current_pos.unwrap().z == axis_after(
                self.starting_pos.unwrap().z as int,
                self.target_pos.unwrap().z as int,
                self.ticks@,
            )
        }
    }

    /// An empty slot.
    pub fn new() -> (r: Self)
        ensures
            !r.is_in_animation,
            r.animated is None,
            r.starting_pos is None,
            r.current_pos is None,
            r.target_pos is None,
            r.wf(),
    {
        Anmiator {
            is_in_animation: false,
            animated: None,
            starting_pos: None,
            current_pos: None,
            target_pos: None,
            ticks: Ghost(0),
        }
    }

    /// Whether an animation is in flight.
    pub fn is_in_animation(&self) -> (r: bool)
        ensures
            r == self.is_in_animation,
    {
        self.is_in_animation
    }

    /// Fills the slot: the disk will be tweened from `starting_pos` towards
    /// `target_pos`. A queued animation overwrites whatever was in flight.
    pub fn queue_animation(
        &mut self,
        actor: u32,
        starting_pos: Vec3Milli,
        target_pos: Vec3Milli,
    )
        requires
            coord_ok(starting_pos),
            coord_ok(target_pos),
        ensures
            final(self).is_in_animation,
            final(self).animated == Some(actor),
            final(self).starting_pos == Some(starting_pos),
            final(self).current_pos == Some(starting_pos),
            final(self).target_pos == Some(target_pos),
            final(self).wf(),
    {
        self.animated = Some(actor);
        self.starting_pos = Some(starting_pos);
        self.current_pos = Some(starting_pos);
        self.target_pos = Some(target_pos);
        self.is_in_animation = true;
        self.ticks = Ghost(0);
    }

    /// Empties the slot without snapping the piece to its target.
    pub fn cancel(&mut self)
        ensures
            !final(self).is_in_animation,
            final(self).animated is None,
            final(self).current_pos is None,
            final(self).target_pos is None,
            final(self).starting_pos == old(self).starting_pos,
            final(self).wf(),
    {
        self.is_in_animation = false;
        self.animated = None;
        self.current_pos = None;
        self.target_pos = None;
    }

    /// Whether the driven disk has entered the tolerance box of its target.
    fn check_if_on_pos(&self) -> (r: bool)
        requires
            self.current_pos is Some,
            self.target_pos is Some,
            coord_ok(self.current_pos.unwrap()),
        ensures
            r == on_pos(
                self.current_pos.unwrap().x as int,
                self.current_pos.unwrap().y as int,
                self.current_pos.unwrap().z as int,
                self.target_pos.unwrap(),
            ),
    {
        let pos = self.current_pos.unwrap();
        let target = self.target_pos.unwrap();

        if !(pos.x - 100 < target.x && target.x < pos.x + 100) {
            return false;
        }
        if !(pos.y - 100 < target.y && target.y < pos.y + 100) {
            return false;
        }
        if !(pos.z - 100 < target.z && target.z < pos.z + 100) {
            return false;
        }
        true
    }

    /// One frame of the tween. When the slot is occupied the disk advances by
    /// a hundredth of the start-to-target distance, and the call reports which
    /// disk moved and where it now stands, so the owner can write that
    /// position back into its store. A tick that enters the tolerance box
    /// frees the slot.
    pub fn update(&mut self) -> (r: Option<(u32, Vec3Milli)>)
        requires
            old(self).wf(),
        ensures
            final(self).wf(),
            !old(self).is_in_animation ==> r is None && *final(self) == *old(self),
            old(self).is_in_animation ==> r is Some && ticked(
                *old(self),
                *final(self),
                r.unwrap().0,
                r.unwrap().1,
            ),
    {
        if !self.is_in_animation || self.target_pos.is_none() || self.animated.is_none() {
            return None;
        }

        let s = self.starting_pos.unwrap();
        let t = self.target_pos.unwrap();
        let cur = self.current_pos.unwrap();
        let disk = self.animated.unwrap();
        let ghost k: int = self.ticks@;

        let dx = step_exec(s.x, t.x);
        let dy = step_exec(s.y, t.y);
        let dz = step_exec(s.z, t.z);

        proof {
            lemma_axis_between(s.x as int, t.x as int, k);
            lemma_axis_between(s.y as int, t.y as int, k);
            lemma_axis_between(s.z as int, t.z as int, k);
            lemma_axis_between(s.x as int, t.x as int, k + 1);
            lemma_axis_between(s.y as int, t.y as int, k + 1);
            lemma_axis_between(s.z as int, t.z as int, k + 1);
            assert((k + 1) * axis_step(s.x as int, t.x as int) == k * axis_step(
                s.x as int,
                t.x as int,
            ) + axis_step(s.x as int, t.x as int)) by (nonlinear_arith);
            assert((k + 1) * axis_step(s.y as int, t.y as int) == k * axis_step(
                s.y as int,
                t.y as int,
            ) + axis_step(s.y as int, t.y as int)) by (nonlinear_arith);
            assert((k + 1) * axis_step(s.z as int, t.z as int) == k * axis_step(
                s.z as int,
                t.z as int,
            ) + axis_step(s.z as int, t.z as int)) by (nonlinear_arith);
        }

        let np = Vec3Milli { x: cur.x + dx, y: cur.y + dy, z: cur.z + dz };
        self.current_pos = Some(np);
        self.ticks = Ghost(k + 1);

        if self.check_if_on_pos() {
            self.is_in_animation = false;
            self.animated = None;
            self.target_pos = None;
            self.current_pos = None;
        } else {
            proof {
                // Still in flight, so some axis is at least 100 milliunits
                // short; after the hundredth tick that is impossible.
                if k + 1 == 100 {
                    lemma_axis_close_at_100(s.x as int, t.x as int);
                    lemma_axis_close_at_100(s.y as int, t.y as int);
                    lemma_axis_close_at_100(s.z as int, t.z as int);
                }
            }
        }

        Some((disk, np))
    }
}

} // verus!
