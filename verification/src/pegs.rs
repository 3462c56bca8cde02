//! The mathematical model of the board: three pegs holding disk widths from
//! bottom to top, the legal-move rule, and how a sequence of moves plays out.

use vstd::prelude::*;
use crate::solver::AutoGameMove;

verus! {

/// A peg is strictly width-decreasing from bottom to top, so wider disks are
/// always below narrower ones.
pub open spec fn peg_decreasing(p: Seq<u32>) -> bool {
    forall|i: int, j: int| 0 <= i < j < p.len() ==> p[i] > p[j]
}

/// A well-formed board: exactly three pegs, each strictly width-decreasing.
pub open spec fn cfg_wf(c: Seq<Seq<u32>>) -> bool {
    &&& c.len() == 3
    &&& forall|k: int| 0 <= k < 3 ==> peg_decreasing(#[trigger] c[k])
}

/// The number of disks on the board.
pub open spec fn cfg_disk_count(c: Seq<Seq<u32>>) -> int {
    c[0].len() + c[1].len() + c[2].len() as int
}

/// The legal-move rule: peg `a` must have a disk, and its top disk must be
/// narrower than the top of peg `b` unless `b` is empty.
pub open spec fn spec_can_move(c: Seq<Seq<u32>>, a: int, b: int) -> bool {
    &&& 0 <= a < 3
    &&& 0 <= b < 3
    &&& a != b
    &&& c[a].len() > 0
    &&& (c[b].len() == 0 || c[a].last() < c[b].last())
}

/// The board after popping the top of peg `a` and pushing it onto peg `b`.
pub open spec fn spec_apply_move(c: Seq<Seq<u32>>, a: int, b: int) -> Seq<Seq<u32>>
    recommends
        spec_can_move(c, a, b),
{
    c.update(b, c[b].push(c[a].last())).update(a, c[a].drop_last())
}

/// Every move of `ms` is legal when the moves are played in order from `c`.
pub open spec fn plays_legal(c: Seq<Seq<u32>>, ms: Seq<AutoGameMove>) -> bool
    decreases ms.len(),
{
    ms.len() == 0 || {
        &&& spec_can_move(c, ms[0].from as int, ms[0].to as int)
        &&& plays_legal(spec_apply_move(c, ms[0].from as int, ms[0].to as int), ms.drop_first())
    }
}

/// The board reached by playing `ms` in order from `c`.
pub open spec fn play(c: Seq<Seq<u32>>, ms: Seq<AutoGameMove>) -> Seq<Seq<u32>>
    decreases ms.len(),
{
    if ms.len() == 0 {
        c
    } else {
        play(spec_apply_move(c, ms[0].from as int, ms[0].to as int), ms.drop_first())
    }
}

/// The widths of `n` disks stacked widest-first: `n` at the bottom down to
/// `1` on top.
pub open spec fn descending_widths(n: nat) -> Seq<u32>
    recommends
        n <= u32::MAX,
{
    Seq::new(n, |i: int| (n - i) as u32)
}

/// The starting board: all `n` disks on the first peg, the others empty.
pub open spec fn initial_cfg(n: nat) -> Seq<Seq<u32>>
    recommends
        n <= u32::MAX,
{
    seq![descending_widths(n), Seq::<u32>::empty(), Seq::<u32>::empty()]
}

/// A legal move keeps every peg strictly width-decreasing.
pub proof fn lemma_move_preserves_wf(c: Seq<Seq<u32>>, a: int, b: int)
    requires
        cfg_wf(c),
        spec_can_move(c, a, b),
    ensures
        cfg_wf(spec_apply_move(c, a, b)),
{
    let c2 = spec_apply_move(c, a, b);
    assert(c2[a] == c[a].drop_last());
    assert(c2[b] == c[b].push(c[a].last()));
    assert(peg_decreasing(c2[a])) by {
        assert(peg_decreasing(c[a]));
    }
    assert(peg_decreasing(c2[b])) by {
        assert(peg_decreasing(c[b]));
        assert forall|i: int, j: int| 0 <= i < j < c2[b].len() implies #[trigger] c2[b][i]
            > #[trigger] c2[b][j] by {
            if j == c2[b].len() - 1 {
                assert(c2[b][j] == c[a].last());
                assert(c[b][i] >= c[b].last());
            }
        }
    }
    assert forall|k: int| 0 <= k < 3 implies peg_decreasing(#[trigger] c2[k]) by {
        if k != a && k != b {
            assert(c2[k] == c[k]);
        }
    }
}

/// A legal move never creates or destroys a disk.
pub proof fn lemma_move_preserves_count(c: Seq<Seq<u32>>, a: int, b: int)
    requires
        c.len() == 3,
        spec_can_move(c, a, b),
    ensures
        cfg_disk_count(spec_apply_move(c, a, b)) == cfg_disk_count(c),
{
    let c2 = spec_apply_move(c, a, b);
    assert(c2[a] == c[a].drop_last());
    assert(c2[b] == c[b].push(c[a].last()));
}

/// A legal sequence of moves keeps the board well formed throughout.
pub proof fn lemma_play_preserves_wf(c: Seq<Seq<u32>>, ms: Seq<AutoGameMove>)
    requires
        cfg_wf(c),
        plays_legal(c, ms),
    ensures
        cfg_wf(play(c, ms)),
    decreases ms.len(),
{
    if ms.len() != 0 {
        let c1 = spec_apply_move(c, ms[0].from as int, ms[0].to as int);
        lemma_move_preserves_wf(c, ms[0].from as int, ms[0].to as int);
        lemma_play_preserves_wf(c1, ms.drop_first());
    }
}

/// A legal sequence of moves never changes the number of disks on the board.
pub proof fn lemma_play_preserves_count(c: Seq<Seq<u32>>, ms: Seq<AutoGameMove>)
    requires
        c.len() == 3,
        plays_legal(c, ms),
    ensures
        play(c, ms).len() == 3,
        cfg_disk_count(play(c, ms)) == cfg_disk_count(c),
    decreases ms.len(),
{
    if ms.len() != 0 {
        let c1 = spec_apply_move(c, ms[0].from as int, ms[0].to as int);
        lemma_move_preserves_count(c, ms[0].from as int, ms[0].to as int);
        lemma_play_preserves_count(c1, ms.drop_first());
    }
}

/// Playing a concatenation plays the two halves one after the other.
pub proof fn lemma_play_append(c: Seq<Seq<u32>>, m1: Seq<AutoGameMove>, m2: Seq<AutoGameMove>)
    ensures
        play(c, m1 + m2) == play(play(c, m1), m2),
    decreases m1.len(),
{
    if m1.len() == 0 {
        assert(m1 + m2 =~= m2);
    } else {
        let c1 = spec_apply_move(c, m1[0].from as int, m1[0].to as int);
        assert((m1 + m2).drop_first() =~= m1.drop_first() + m2);
        lemma_play_append(c1, m1.drop_first(), m2);
    }
}

/// A concatenation is legal when the first half is legal from `c` and the
/// second half is legal from where the first half ends.
pub proof fn lemma_legal_append(c: Seq<Seq<u32>>, m1: Seq<AutoGameMove>, m2: Seq<AutoGameMove>)
    requires
        plays_legal(c, m1),
        plays_legal(play(c, m1), m2),
    ensures
        plays_legal(c, m1 + m2),
    decreases m1.len(),
{
    if m1.len() == 0 {
        assert(m1 + m2 =~= m2);
    } else {
        let c1 = spec_apply_move(c, m1[0].from as int, m1[0].to as int);
        assert((m1 + m2).drop_first() =~= m1.drop_first() + m2);
        lemma_legal_append(c1, m1.drop_first(), m2);
    }
}

} // verus!
