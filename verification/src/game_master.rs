//! The orchestrator: it owns the three disk stacks, the key-press protocol
//! that selects moves, the auto-player and its move queue, the single
//! animation slot, and the per-disk position store.
//!
//! One `update` call is one frame. The frame loop around the library feeds it
//! the pressed key and acts on the returned report: it prints the messages
//! and mirrors the milliunit positions into its floating-point transforms.

use vstd::prelude::*;
use std::collections::VecDeque;
use crate::animator::{Anmiator, Vec3Milli, coord_ok, ticked};
use crate::pegs::{
    cfg_wf, cfg_disk_count, descending_widths, initial_cfg, peg_decreasing, spec_apply_move,
    spec_can_move,
};
use crate::solver::{generate_moves, hanoi_moves, AutoGameMove};

verus! {

/// Sideways distance between neighbouring peg sticks, in milliunits.
pub const DISTANCE_BETWEEN_STICKS: i32 = 15000;

/// Vertical space one stacked disk takes, in milliunits.
pub const DONUT_HEIGHT: i32 = 600;

/// Height of the ground plane the towers stand on, in milliunits.
pub const GROUND_OFFSET: i32 = -6000;

/// Depth of the two outer peg sticks, in milliunits.
pub const POS_FAR_STICK: i32 = -12000;

/// Depth of the middle peg stick, in milliunits.
pub const POS_CLOSE_STICK: i32 = -10000;

/// The most disks a game may be initialized with; keeps every stacking height
/// within the coordinate range the animator accepts.
pub const MAX_DONUTS: i32 = 1000;

/// What one frame of `update` reports back to the frame loop.
#[derive(Clone, Copy, Debug)]
pub struct FrameReport {
    /// The win was observed this frame and `playing` was latched off.
    pub won_now: bool,
    /// A move the frame tried to make: the second key of a selected pair, or
    /// the next queued auto-move.
    pub attempted: Option<AutoGameMove>,
    /// Whether the attempted move passed the legality check and was applied.
    pub committed: bool,
}

/// Applies `f` to every actor of a stack in place, front to back.
pub fn call_on_stack<ACTOR, F: Fn(ACTOR) -> ACTOR>(f: F, stack: &mut Vec<ACTOR>)
    requires
        forall|i: int| 0 <= i < old(stack)@.len() ==> call_requires(f, (old(stack)@[i],)),
    ensures
        final(stack)@.len() == old(stack)@.len(),
        forall|i: int|
            0 <= i < old(stack)@.len() ==> call_ensures(
                f,
                (old(stack)@[i],),
                #[trigger] final(stack)@[i],
            ),
{
    let mut i: usize = 0;
    while i < stack.len()
        invariant
            i <= stack@.len(),
            stack@.len() == old(stack)@.len(),
            forall|j: int| i <= j < stack@.len() ==> stack@[j] == old(stack)@[j],
            forall|j: int| 0 <= j < old(stack)@.len() ==> call_requires(f, (old(stack)@[j],)),
            forall|j: int|
                0 <= j < i ==> call_ensures(f, (old(stack)@[j],), #[trigger] stack@[j]),
        decreases stack@.len() - i,
    {
        let actor = stack.remove(i);
        let actor = f(actor);
        stack.insert(i, actor);
        i += 1;
    }
}

/// The key that selects peg `i`: the inverse of `convert_key_to_i32`.
fn index_to_key(i: u32) -> (r: char)
    requires
        i < 3,
    ensures
        r as int == i + 49,
        r == '1' || r == '2' || r == '3',
{
    if i == 0 {
        '1'
    } else if i == 1 {
        '2'
    } else {
        '3'
    }
}

/// Peg index carried by a key press: `'1'`, `'2'`, `'3'` give 0, 1, 2.
fn convert_key_to_i32(key: char) -> (r: i32)
    ensures
        r == key as int - '1' as int,
{
    key as i32 - '1' as i32
}

/// Where a disk landing on peg `b` comes to rest when that peg already holds
/// `h` disks: the peg's column, one stacking step above the pile, at the
/// peg's depth.
pub open spec fn target_pos_for(b: int, h: int) -> Vec3Milli
    recommends
        0 <= b < 3,
        0 <= h <= MAX_DONUTS,
{
    Vec3Milli {
        x: (DISTANCE_BETWEEN_STICKS * b - DISTANCE_BETWEEN_STICKS) as i32,
        y: (DONUT_HEIGHT * h + GROUND_OFFSET) as i32,
        z: if b == 1 {
            POS_CLOSE_STICK
        } else {
            POS_FAR_STICK
        },
    }
}

/// Where the disk of width `w` starts a game of `n` disks: on the first peg,
/// stacked at height `n - w`.
pub open spec fn initial_disk_pos(n: int, w: int) -> Vec3Milli
    recommends
        1 <= w <= n <= MAX_DONUTS,
{
    Vec3Milli {
        x: (0 - DISTANCE_BETWEEN_STICKS) as i32,
        y: (DONUT_HEIGHT * (n - w) + GROUND_OFFSET) as i32,
        z: POS_FAR_STICK,
    }
}

/// Every disk width on the board is one of the game's widths `1 ..= n`.
pub open spec fn widths_in_range(c: Seq<Seq<u32>>, n: int) -> bool {
    forall|k: int, i: int|
        0 <= k < 3 && 0 <= i < c[k].len() ==> 1 <= #[trigger] c[k][i] <= n
}

/// What a committed move does to the board and the animator: the top of peg
/// `a` is now on peg `b`, and the moved disk is being tweened from where it
/// lay towards its resting place on `b`. Pending keys and the auto-player's
/// queue are the caller's business.
pub open spec fn committed_move(pre: GameMaster, post: GameMaster, a: int, b: int) -> bool {
    let w = pre.cfg()[a].last();
    &&& post.cfg() == spec_apply_move(pre.cfg(), a, b)
    &&& post.positions == pre.positions
    &&& post.animator.is_in_animation
    &&& post.animator.animated == Some(w)
    &&& post.animator.starting_pos == Some(pre.positions@[w as int - 1])
    &&& post.animator.current_pos == Some(pre.positions@[w as int - 1])
    &&& post.animator.target_pos == Some(target_pos_for(b, pre.cfg()[b].len() as int))
}

/// The game master: all game state, the solver queue, and the animation slot.
pub struct GameMaster {
    /// The single animation slot.
    pub animator: Anmiator,
    /// The first peg's disk widths, bottom to top.
    pub stack_one: Vec<u32>,
    /// The second peg's disk widths, bottom to top.
    pub stack_two: Vec<u32>,
    /// The third peg's disk widths, bottom to top.
    pub stack_three: Vec<u32>,
    /// Each disk's position in milliunits, indexed by width minus one. The
    /// renderer reads these; the animator drives the moving one.
    pub positions: Vec<Vec3Milli>,
    /// The first key of a two-key move selection, waiting for its partner.
    pub button_choice_1: Option<char>,
    /// How many disks the game was initialized with; -1 before that.
    pub dounuts_amount: i32,
    /// True until the win is observed, then latched off for good.
    pub playing: bool,
    /// Moves the auto-player has generated and not yet consumed.
    pub auto_gamer_moves: VecDeque<AutoGameMove>,
    /// Whether the auto-player drives the game; latched on by the `A` key.
    pub auto_gamer: bool,
}

impl GameMaster {
    /// The board as the mathematical model sees it.
    pub open spec fn cfg(self) -> Seq<Seq<u32>> {
        seq![self.stack_one@, self.stack_two@, self.stack_three@]
    }

    /// The win condition: the third peg holds every disk.
    pub open spec fn spec_win(self) -> bool {
        self.stack_three@.len() >= self.dounuts_amount as int
    }

    /// A healthy game: the board is three decreasing pegs carrying all
    /// `dounuts_amount` disks with widths `1 ..= dounuts_amount`, the position
    /// store has one in-range entry per disk, queued auto-moves name real
    /// pegs, a pending key is one of the three peg keys, and the animation
    /// slot is healthy and drives a real disk.
    pub open spec fn wf(self) -> bool {
        &&& 1 <= self.dounuts_amount <= MAX_DONUTS
        &&& cfg_wf(self.cfg())
        &&& cfg_disk_count(self.cfg()) == self.dounuts_amount
        &&& widths_in_range(self.cfg(), self.dounuts_amount as int)
        &&& self.positions@.len() == self.dounuts_amount
        &&& forall|i: int|
            0 <= i < self.positions@.len() ==> coord_ok(#[trigger] self.positions@[i])
        &&& forall|i: int|
            0 <= i < self.auto_gamer_moves@.len() ==> (#[trigger] self.auto_gamer_moves@[i]).from
                < 3 && self.auto_gamer_moves@[i].to < 3
        &&& (self.button_choice_1 is Some ==> (self.button_choice_1.unwrap() == '1'
            || self.button_choice_1.unwrap() == '2' || self.button_choice_1.unwrap() == '3'))
        &&& self.animator.wf()
        &&& (self.animator.is_in_animation ==> 1 <= self.animator.animated.unwrap()
            <= self.dounuts_amount)
    }

    /// A game master with no disks yet; `initialize` brings the board up.
    pub fn new() -> (r: Self)
        ensures
            !r.animator.is_in_animation,
            r.stack_one@.len() == 0,
            r.stack_two@.len() == 0,
            r.stack_three@.len() == 0,
            r.positions@.len() == 0,
            r.button_choice_1 is None,
            r.dounuts_amount == -1,
            r.playing,
            r.auto_gamer_moves@.len() == 0,
            !r.auto_gamer,
    {
        GameMaster {
            animator: Anmiator::new(),
            stack_one: Vec::new(),
            stack_two: Vec::new(),
            stack_three: Vec::new(),
            positions: Vec::new(),
            button_choice_1: None,
            dounuts_amount: -1,
            playing: true,
            auto_gamer_moves: VecDeque::new(),
            auto_gamer: false,
        }
    }

    /// Builds the starting tower: `dounuts_amount` disks on the first peg,
    /// widest at the bottom, each lying at its stacking height. The peg
    /// sticks themselves are scenery and live with the renderer.
    pub fn initialize(&mut self, dounuts_amount: i32)
        requires
            1 <= dounuts_amount <= MAX_DONUTS,
            old(self).stack_one@.len() == 0,
            old(self).stack_two@.len() == 0,
            old(self).stack_three@.len() == 0,
            old(self).positions@.len() == 0,
            old(self).auto_gamer_moves@.len() == 0,
            old(self).button_choice_1 is None,
            !old(self).animator.is_in_animation,
            old(self).animator.wf(),
        ensures
            final(self).wf(),
            final(self).dounuts_amount == dounuts_amount,
            final(self).cfg() == initial_cfg(dounuts_amount as nat),
            final(self).positions@.len() == dounuts_amount,
            forall|w: int|
                1 <= w <= dounuts_amount ==> final(self).positions@[w - 1] == initial_disk_pos(
                    dounuts_amount as int,
                    w,
                ),
            final(self).playing == old(self).playing,
            final(self).auto_gamer == old(self).auto_gamer,
            final(self).auto_gamer_moves == old(self).auto_gamer_moves,
            final(self).button_choice_1 is None,
            final(self).animator == old(self).animator,
    {
        self.dounuts_amount = dounuts_amount;
        self.generate_donuts();
        proof {
            let n = dounuts_amount as int;
            assert(self.cfg() =~~= initial_cfg(dounuts_amount as nat));
            assert(cfg_wf(self.cfg())) by {
                assert forall|k: int| 0 <= k < 3 implies peg_decreasing(
                    #[trigger] self.cfg()[k],
                ) by {
                    if k == 0 {
                        assert(forall|i: int, j: int|
                            0 <= i < j < n ==> #[trigger] descending_widths(
                                dounuts_amount as nat,
                            )[i] > #[trigger] descending_widths(dounuts_amount as nat)[j]);
                    }
                }
            }
            assert(widths_in_range(self.cfg(), n)) by {
                assert(forall|i: int|
                    0 <= i < n ==> 1 <= #[trigger] descending_widths(dounuts_amount as nat)[i]
                        <= n);
            }
            assert forall|i: int| 0 <= i < self.positions@.len() implies coord_ok(
                #[trigger] self.positions@[i],
            ) by {
                assert(self.positions@[i] == initial_disk_pos(n, i + 1));
            }
        }
    }

    /// Fills the first peg with widths `dounuts_amount` down to 1 and records
    /// each disk's starting position.
    fn generate_donuts(&mut self)
        requires
            1 <= old(self).dounuts_amount <= MAX_DONUTS,
            old(self).stack_one@.len() == 0,
            old(self).positions@.len() == 0,
        ensures
            final(self).stack_one@ == descending_widths(old(self).dounuts_amount as nat),
            final(self).positions@.len() == old(self).dounuts_amount,
            forall|w: int|
                1 <= w <= old(self).dounuts_amount ==> final(self).positions@[w - 1]
                    == initial_disk_pos(old(self).dounuts_amount as int, w),
            *final(self) == (GameMaster {
                stack_one: final(self).stack_one,
                positions: final(self).positions,
                ..(*old(self))
            }),
    {
        let max_i = self.dounuts_amount;
        // The tower, widest disk first.
        let mut i: i32 = 0;
        while i < max_i
            invariant
                0 <= i <= max_i,
                max_i == self.dounuts_amount,
                1 <= max_i <= MAX_DONUTS,
                self.stack_one@.len() == i,
                forall|j: int| 0 <= j < i ==> self.stack_one@[j] == (max_i - j) as u32,
                *self == (GameMaster { stack_one: self.stack_one, ..(*old(self)) }),
            decreases max_i - i,
        {
            let i_diff = max_i - i;
            self.stack_one.push(i_diff as u32);
            i = i + 1;
        }
        proof {
            assert(self.stack_one@ =~= descending_widths(max_i as nat));
        }

        // One resting place per disk, indexed by width minus one: the disk of
        // width w lies at height max_i - w on the first peg.
        let mut w: i32 = 1;
        while w <= max_i
            invariant
                1 <= w <= max_i + 1,
                max_i == self.dounuts_amount,
                1 <= max_i <= MAX_DONUTS,
                self.positions@.len() == w - 1,
                forall|v: int|
                    1 <= v < w ==> self.positions@[v - 1] == initial_disk_pos(max_i as int, v),
                self.stack_one@ == descending_widths(max_i as nat),
                *self == (GameMaster {
                    stack_one: self.stack_one,
                    positions: self.positions,
                    ..(*old(self))
                }),
            decreases max_i + 1 - w,
        {
            let offset = DONUT_HEIGHT * (max_i - w) + GROUND_OFFSET;
            self.positions.push(
                Vec3Milli { x: 0 - DISTANCE_BETWEEN_STICKS, y: offset, z: POS_FAR_STICK },
            );
            w = w + 1;
        }
    }

    /// One peg's disks, for reading and writing; pegs are numbered 0 to 2.
    pub fn get_stack(&mut self, index: i32) -> (r: &mut Vec<u32>)
        requires
            0 <= index < 3,
        ensures
            r@ == old(self).cfg()[index as int],
            final(self).cfg() == old(self).cfg().update(index as int, final(r)@),
            *final(self) == (GameMaster {
                stack_one: final(self).stack_one,
                stack_two: final(self).stack_two,
                stack_three: final(self).stack_three,
                ..(*old(self))
            }),
    {
        if index == 0 {
            &mut self.stack_one
        } else if index == 1 {
            &mut self.stack_two
        } else {
            &mut self.stack_three
        }
    }

    /// One peg's disks, for reading only.
    fn stack_ref(&self, index: i32) -> (r: &Vec<u32>)
        requires
            0 <= index < 3,
        ensures
            r@ == self.cfg()[index as int],
    {
        if index == 0 {
            &self.stack_one
        } else if index == 1 {
            &self.stack_two
        } else {
            &self.stack_three
        }
    }

    /// The legal-move check between two pegs: the source must have a disk,
    /// and its top disk must be narrower than the destination's top unless
    /// the destination is empty. Moving a peg onto itself fails the
    /// narrower-than test.
    pub fn check_if_move_possible(&self, index_a: i32, index_b: i32) -> (r: bool)
        requires
            0 <= index_a < 3,
            0 <= index_b < 3,
        ensures
            r == spec_can_move(self.cfg(), index_a as int, index_b as int),
    {
        if self.stack_ref(index_a).is_empty() {
            return false;
        }

        if self.stack_ref(index_b).is_empty() {
            return true;
        }

        let stack_a = self.stack_ref(index_a);
        let top_a = stack_a[stack_a.len() - 1];
        let stack_b = self.stack_ref(index_b);
        let top_b = stack_b[stack_b.len() - 1];
        if top_a < top_b {
            return true;
        }

        false
    }

    /// Forgets a half-made selection.
    fn flush_choices(&mut self)
        ensures
            *final(self) == (GameMaster { button_choice_1: None, ..(*old(self)) }),
    {
        self.button_choice_1 = None;
    }

    /// Commits a legal move: pops the disk off the source peg, queues its
    /// flight from where it lies to its resting place on the destination,
    /// and pushes it onto the destination. The logical move is complete at
    /// once; the flight is purely visual.
    fn finish_donut_routinge(&mut self, index_a: i32, index_b: i32)
        requires
            old(self).wf(),
            spec_can_move(old(self).cfg(), index_a as int, index_b as int),
        ensures
            final(self).wf(),
            committed_move(*old(self), *final(self), index_a as int, index_b as int),
            final(self).button_choice_1 == old(self).button_choice_1,
            final(self).auto_gamer_moves == old(self).auto_gamer_moves,
            final(self).dounuts_amount == old(self).dounuts_amount,
            final(self).playing == old(self).playing,
            final(self).auto_gamer == old(self).auto_gamer,
    {
        let ghost pre = *old(self);
        let ghost a = index_a as int;
        let ghost b = index_b as int;
        let distance = DISTANCE_BETWEEN_STICKS * index_b - DISTANCE_BETWEEN_STICKS;

        proof {
            // The popped disk is a real disk of this game.
            assert(1 <= pre.cfg()[a][pre.cfg()[a].len() - 1] <= pre.dounuts_amount);
            // No peg can hold more than all the disks.
            assert(pre.cfg()[b].len() <= pre.dounuts_amount);
        }
        let donut = self.get_stack(index_a).pop().unwrap();
        let stack_len = self.get_stack(index_b).len();
        let mut z = POS_FAR_STICK;

        if index_b == 1 {
            z = POS_CLOSE_STICK;
        }

        let starting_pos = self.positions[(donut - 1) as usize];

        self.animator.queue_animation(
            donut,
            starting_pos,
            Vec3Milli { x: distance, y: DONUT_HEIGHT * (stack_len as i32) + GROUND_OFFSET, z },
        );

        self.get_stack(index_b).push(donut);

        proof {
            assert(self.cfg() =~~= spec_apply_move(pre.cfg(), a, b));
            crate::pegs::lemma_move_preserves_wf(pre.cfg(), a, b);
            crate::pegs::lemma_move_preserves_count(pre.cfg(), a, b);
            assert(widths_in_range(self.cfg(), self.dounuts_amount as int)) by {
                let c2 = spec_apply_move(pre.cfg(), a, b);
                assert forall|k: int, i: int|
                    0 <= k < 3 && 0 <= i < c2[k].len() implies 1 <= #[trigger] c2[k][i]
                    <= pre.dounuts_amount by {
                    if k == a {
                        assert(c2[k][i] == pre.cfg()[a][i]);
                    } else if k == b {
                        if i < pre.cfg()[b].len() {
                            assert(c2[k][i] == pre.cfg()[b][i]);
                        } else {
                            assert(c2[k][i] == pre.cfg()[a].last());
                        }
                    } else {
                        assert(c2[k][i] == pre.cfg()[k][i]);
                    }
                }
            }
        }
    }

    /// One peg-key press. The first key of a pair is remembered; the second
    /// names the destination, and the move is committed if it is legal and
    /// dropped if not. Either way the selection is cleared.
    pub fn start_donut_routine(&mut self, button: char) -> (r: FrameReport)
        requires
            old(self).wf(),
            button == '1' || button == '2' || button == '3',
        ensures
            final(self).wf(),
            !r.won_now,
            final(self).dounuts_amount == old(self).dounuts_amount,
            final(self).playing == old(self).playing,
            final(self).auto_gamer == old(self).auto_gamer,
            old(self).button_choice_1 is None ==> (*final(self) == (GameMaster {
                button_choice_1: Some(button),
                ..(*old(self))
            }) && r.attempted is None && !r.committed),
            old(self).button_choice_1 is Some ==> ({
                let a = old(self).button_choice_1.unwrap() as int - 49;
                let b = button as int - 49;
                &&& r.attempted == Some(AutoGameMove { from: a as u32, to: b as u32 })
                &&& r.committed == spec_can_move(old(self).cfg(), a, b)
                &&& final(self).button_choice_1 is None
                &&& (r.committed ==> committed_move(*old(self), *final(self), a, b)
                    && final(self).auto_gamer_moves == old(self).auto_gamer_moves)
                &&& (!r.committed ==> *final(self) == (GameMaster {
                    button_choice_1: None,
                    ..(*old(self))
                }))
            }),
    {
        if self.button_choice_1.is_none() {
            self.button_choice_1 = Some(button);
            return FrameReport { won_now: false, attempted: None, committed: false };
        }

        let first = self.button_choice_1.unwrap();
        let index_a = convert_key_to_i32(first);
        let index_b = convert_key_to_i32(button);
        let mv = AutoGameMove { from: index_a as u32, to: index_b as u32 };

        if !self.check_if_move_possible(index_a, index_b) {
            self.flush_choices();
            return FrameReport { won_now: false, attempted: Some(mv), committed: false };
        }

        self.finish_donut_routinge(index_a, index_b);
        self.flush_choices();
        FrameReport { won_now: false, attempted: Some(mv), committed: true }
    }

    /// Refills the auto-player's queue with the full solution for the current
    /// game: first peg to third peg, second as the spare.
    fn generate_auto_gamer_moves(&mut self)
        requires
            0 <= old(self).dounuts_amount,
        ensures
            *final(self) == (GameMaster {
                auto_gamer_moves: final(self).auto_gamer_moves,
                ..(*old(self))
            }),
            final(self).auto_gamer_moves@ == old(self).auto_gamer_moves@ + hanoi_moves(
                old(self).dounuts_amount as nat,
                0,
                2,
                1,
            ),
    {
        let n = self.dounuts_amount;
        generate_moves(&mut self.auto_gamer_moves, n, 0, 2, 1);
    }

    /// One auto-player frame: draw the next queued move, refilling the queue
    /// with the full solution when it has run dry, and put it through the
    /// same two-key routine a player would use.
    fn auto_game(&mut self) -> (r: FrameReport)
        requires
            old(self).wf(),
        ensures
            final(self).wf(),
            !r.won_now,
            final(self).dounuts_amount == old(self).dounuts_amount,
            final(self).playing == old(self).playing,
            final(self).auto_gamer == old(self).auto_gamer,
            ({
                let q = if old(self).auto_gamer_moves@.len() == 0 {
                    hanoi_moves(old(self).dounuts_amount as nat, 0, 2, 1)
                } else {
                    old(self).auto_gamer_moves@
                };
                let mv = q[0];
                &&& q.len() > 0
                &&& r.attempted == Some(mv)
                &&& r.committed == spec_can_move(old(self).cfg(), mv.from as int, mv.to as int)
                &&& final(self).auto_gamer_moves@ == q.drop_first()
                &&& final(self).button_choice_1 is None
                &&& (r.committed ==> committed_move(*old(self), *final(self), mv.from as int, mv.to as int))
                &&& (!r.committed ==> final(self).cfg() == old(self).cfg() && final(self).positions
                    == old(self).positions && final(self).animator == old(self).animator)
            }),
    {
        if self.auto_gamer_moves.len() == 0 {
            self.generate_auto_gamer_moves();
            proof {
                crate::solver::lemma_hanoi_moves_pegs(self.dounuts_amount as nat, 0, 2, 1);
            }
        }

        let game_move = self.auto_gamer_moves.pop_front().unwrap();
        self.button_choice_1 = Some(index_to_key(game_move.from));
        self.start_donut_routine(index_to_key(game_move.to))
    }

    /// One frame. In order: a flight in progress gets its tween tick and the
    /// frame ends; a game no longer playing does nothing; a newly reached win
    /// latches `playing` off; then the auto-player draws its next move, or
    /// the pressed key is routed — `1`, `2`, `3` select pegs, `A` switches
    /// the auto-player on for good, anything else is ignored.
    pub fn update(&mut self, button: Option<char>) -> (r: FrameReport)
        requires
            old(self).wf(),
        ensures
            final(self).wf(),
            final(self).dounuts_amount == old(self).dounuts_amount,
            // The win latch: observed exactly when the frame is free to look,
            // and playing never comes back.
            r.won_now == (!old(self).animator.is_in_animation && old(self).playing
                && old(self).spec_win()),
            final(self).playing == (old(self).playing && !r.won_now),
            !old(self).playing ==> !final(self).playing,
            // A frame with a flight in progress only advances the flight.
            old(self).animator.is_in_animation ==> ({
                let w = old(self).animator.animated.unwrap();
                &&& r.attempted is None && !r.committed
                &&& final(self).stack_one == old(self).stack_one
                &&& final(self).stack_two == old(self).stack_two
                &&& final(self).stack_three == old(self).stack_three
                &&& final(self).auto_gamer_moves == old(self).auto_gamer_moves
                &&& final(self).auto_gamer == old(self).auto_gamer
                &&& final(self).button_choice_1 == old(self).button_choice_1
                &&& ticked(
                    old(self).animator,
                    final(self).animator,
                    w,
                    final(self).positions@[w as int - 1],
                )
                &&& final(self).positions@ == old(self).positions@.update(
                    w as int - 1,
                    final(self).positions@[w as int - 1],
                )
            }),
            // A dead frame does nothing.
            !old(self).animator.is_in_animation && !old(self).playing ==> *final(self) == *old(
                self,
            ) && r.attempted is None && !r.committed,
            // The auto-player's frame.
            !old(self).animator.is_in_animation && old(self).playing && old(self).auto_gamer
                ==> ({
                let q = if old(self).auto_gamer_moves@.len() == 0 {
                    hanoi_moves(old(self).dounuts_amount as nat, 0, 2, 1)
                } else {
                    old(self).auto_gamer_moves@
                };
                let mv = q[0];
                &&& r.attempted == Some(mv)
                &&& r.committed == spec_can_move(old(self).cfg(), mv.from as int, mv.to as int)
                &&& final(self).auto_gamer_moves@ == q.drop_first()
                &&& final(self).button_choice_1 is None
                &&& final(self).auto_gamer
                &&& (r.committed ==> committed_move(*old(self), *final(self), mv.from as int, mv.to as int))
                &&& (!r.committed ==> final(self).cfg() == old(self).cfg() && final(self).positions
                    == old(self).positions && final(self).animator == old(self).animator)
            }),
            // Key frames: a peg key runs the two-key routine.
            !old(self).animator.is_in_animation && old(self).playing && !old(self).auto_gamer
                && button is Some && (button.unwrap() == '1' || button.unwrap() == '2'
                || button.unwrap() == '3') ==> ({
                let key = button.unwrap();
                &&& (old(self).button_choice_1 is None ==> *final(self) == (GameMaster {
                    button_choice_1: Some(key),
                    playing: final(self).playing,
                    ..(*old(self))
                }) && r.attempted is None && !r.committed)
                &&& (old(self).button_choice_1 is Some ==> ({
                    let a = old(self).button_choice_1.unwrap() as int - 49;
                    let b = key as int - 49;
                    &&& r.attempted == Some(AutoGameMove { from: a as u32, to: b as u32 })
                    &&& r.committed == spec_can_move(old(self).cfg(), a, b)
                    &&& final(self).button_choice_1 is None
                    &&& final(self).auto_gamer_moves == old(self).auto_gamer_moves
                    &&& final(self).auto_gamer == old(self).auto_gamer
                    &&& (r.committed ==> committed_move(*old(self), *final(self), a, b))
                    &&& (!r.committed ==> *final(self) == (GameMaster {
                        button_choice_1: None,
                        playing: final(self).playing,
                        ..(*old(self))
                    }))
                }))
            }),
            // The auto-player key is a one-way latch.
            !old(self).animator.is_in_animation && old(self).playing && !old(self).auto_gamer
                && button == Some('A') ==> *final(self) == (GameMaster {
                auto_gamer: true,
                playing: final(self).playing,
                ..(*old(self))
            }) && r.attempted is None && !r.committed,
            // Any other key, or none, is ignored.
            !old(self).animator.is_in_animation && old(self).playing && !old(self).auto_gamer && (
            button is None || !(button.unwrap() == '1' || button.unwrap() == '2'
                || button.unwrap() == '3' || button.unwrap() == 'A')) ==> *final(self)
                == (GameMaster { playing: final(self).playing, ..(*old(self)) }) && r.attempted
                is None && !r.committed,
    {
        if self.animator.is_in_animation() {
            let stepped = self.animator.update();
            if let Some((disk, pos)) = stepped {
                // The flight moved a disk: record where it stands now.
                self.positions.set((disk - 1) as usize, pos);
            }
            return FrameReport { won_now: false, attempted: None, committed: false };
        }

        if !self.playing {
            return FrameReport { won_now: false, attempted: None, committed: false };
        }

        let mut won_now = false;
        if self.check_win_condition() {
            self.playing = false;
            won_now = true;
        }

        if self.auto_gamer {
            let mut rep = self.auto_game();
            rep.won_now = won_now;
            return rep;
        }

        match button {
            Some(key) => {
                if key == '1' || key == '2' || key == '3' {
                    let mut rep = self.start_donut_routine(key);
                    rep.won_now = won_now;
                    return rep;
                }
                if key == 'A' {
                    self.auto_gamer = true;
                }
                FrameReport { won_now, attempted: None, committed: false }
            },
            None => FrameReport { won_now, attempted: None, committed: false },
        }
    }

    /// Whether the game is won: the third peg holds every disk.
    pub fn check_win_condition(&self) -> (r: bool)
        requires
            0 <= self.dounuts_amount,
        ensures
            r == self.spec_win(),
    {
        let third_stack = self.stack_ref(2);
        if third_stack.len() >= self.dounuts_amount as usize {
            return true;
        }
        false
    }
}

} // verus!
