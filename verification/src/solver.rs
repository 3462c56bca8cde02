//! The auto-player's move generator: the classic recursive solution of the
//! three-peg puzzle, together with its correctness proof.

use vstd::prelude::*;
use crate::pegs::{
    cfg_wf, peg_decreasing, play, plays_legal, spec_apply_move, spec_can_move, lemma_play_append,
    lemma_legal_append, lemma_play_preserves_wf, lemma_move_preserves_wf, descending_widths,
    initial_cfg,
};
use vstd::arithmetic::power2::{pow2, lemma_pow2_unfold, lemma2_to64};

verus! {

/// One step of the auto-player: move the top disk of peg `from` onto peg `to`.
#[derive(Clone, Copy, PartialEq, Eq, Structural, Debug)]
pub struct AutoGameMove {
    pub from: u32,
    pub to: u32,
}

/// The classic recursive move sequence that carries `n` disks from peg `from`
/// to peg `to` with the help of peg `aux`: solve for `n - 1` towards `aux`,
/// move the largest disk, then solve for `n - 1` from `aux` onto `to`.
pub open spec fn hanoi_moves(n: nat, from: u32, to: u32, aux: u32) -> Seq<AutoGameMove>
    decreases n,
{
    if n == 0 {
        Seq::empty()
    } else {
        hanoi_moves((n - 1) as nat, from, aux, to) + seq![AutoGameMove { from, to }]
            + hanoi_moves((n - 1) as nat, aux, to, from)
    }
}

/// The board after lifting the top `n` disks of peg `s` onto peg `d` in one
/// block, keeping their order.
pub open spec fn move_stack(c: Seq<Seq<u32>>, n: nat, s: int, d: int) -> Seq<Seq<u32>>
    recommends
        0 <= s < 3,
        0 <= d < 3,
        s != d,
        n <= c[s].len(),
{
    let ls = c[s].len() as int;
    c.update(d, c[d] + c[s].subrange(ls - n, ls)).update(s, c[s].subrange(0, ls - n))
}

/// Every disk outside the top `n` of peg `s` is wider than each of those `n`
/// disks, so the block can travel anywhere without breaking the ordering rule.
pub open spec fn others_larger(c: Seq<Seq<u32>>, s: int, n: nat) -> bool {
    forall|k: int, i: int, j: int|
        #![trigger c[k][i], c[s][j]]
        0 <= k < 3 && 0 <= i < c[k].len() && c[s].len() - n <= j < c[s].len()
            && (k != s || i < c[s].len() - n) ==> c[k][i] > c[s][j]
}

/// When the top `n` disks of peg `s` are the narrowest on the board, so are
/// the top `n - 1`: the disk below them, still on peg `s`, is wider because
/// the peg is decreasing.
proof fn lemma_others_shrink(c: Seq<Seq<u32>>, n: nat, s: u32)
    requires
        cfg_wf(c),
        s < 3,
        0 < n <= c[s as int].len(),
        others_larger(c, s as int, n),
    ensures
        others_larger(c, s as int, (n - 1) as nat),
{
    let si = s as int;
    let ls = c[si].len() as int;
    let m = (n - 1) as nat;
    assert forall|k: int, i: int, j: int|
        0 <= k < 3 && 0 <= i < c[k].len() && c[si].len() - m <= j < c[si].len() && (k != si || i < c[
            si].len() - m) implies #[trigger] c[k][i] > #[trigger] c[si][j] by {
        if k == si && i == ls - n {
            assert(peg_decreasing(c[si]));
            assert(c[si][i] > c[si][j]);
        } else {
            assert(k != si || i < ls - n);
            assert(c[k][i] > c[si][j]);
        }
    }
}

/// The board just after the widest disk of the moving block has stepped onto
/// the destination: the first recursive half has parked the `n - 1` upper
/// disks on the spare peg, then the single move was legal, and the three pegs
/// hold exactly the expected contents.
proof fn lemma_mid_board(c: Seq<Seq<u32>>, n: nat, s: u32, d: u32, a: u32)
    requires
        cfg_wf(c),
        s < 3,
        d < 3,
        a < 3,
        s != d,
        s != a,
        d != a,
        0 < n <= c[s as int].len(),
        others_larger(c, s as int, n),
    ensures
        ({
            let si = s as int;
            let ls = c[si].len() as int;
            let m = (n - 1) as nat;
            let c1 = move_stack(c, m, si, a as int);
            let c2 = spec_apply_move(c1, si, d as int);
            &&& spec_can_move(c1, si, d as int)
            &&& c2.len() == 3
            &&& c2[si] == c[si].subrange(0, ls - n)
            &&& c2[d as int] == c[d as int].push(c[si][ls - n])
            &&& c2[a as int] == c[a as int] + c[si].subrange(ls - m, ls)
        }),
{
    let si = s as int;
    let di = d as int;
    let ai = a as int;
    let ls = c[si].len() as int;
    let m = (n - 1) as nat;
    let c1 = move_stack(c, m, si, ai);
    assert(c1[si] == c[si].subrange(0, ls - m));
    assert(c1[di] == c[di]);
    assert(c1[ai] == c[ai] + c[si].subrange(ls - m, ls));
    assert(c1[si].len() == ls - m);
    assert(c1[si].last() == c[si][ls - n]);
    assert(spec_can_move(c1, si, di)) by {
        if c[di].len() > 0 {
            assert(c[di][c[di].len() - 1] > c[si][ls - n]);
        }
    }
    let c2 = spec_apply_move(c1, si, di);
    assert(c1[si].drop_last() =~= c[si].subrange(0, ls - n));
    assert(c2[si] == c[si].subrange(0, ls - n));
    assert(c2[di] == c[di].push(c[si][ls - n]));
    assert(c2[ai] == c[ai] + c[si].subrange(ls - m, ls));
}

/// After the widest disk of the block has landed, the `n - 1` disks parked on
/// the spare peg are still the narrowest things on the board.
proof fn lemma_block_still_narrowest(c: Seq<Seq<u32>>, n: nat, s: u32, d: u32, a: u32)
    requires
        cfg_wf(c),
        s < 3,
        d < 3,
        a < 3,
        s != d,
        s != a,
        d != a,
        0 < n <= c[s as int].len(),
        others_larger(c, s as int, n),
    ensures
        others_larger(
            spec_apply_move(move_stack(c, (n - 1) as nat, s as int, a as int), s as int, d as int),
            a as int,
            (n - 1) as nat,
        ),
{
    let si = s as int;
    let di = d as int;
    let ai = a as int;
    let ls = c[si].len() as int;
    let la = c[ai].len() as int;
    let m = (n - 1) as nat;
    let c2 = spec_apply_move(move_stack(c, m, si, ai), si, di);
    lemma_mid_board(c, n, s, d, a);
    assert(c2[ai].len() == la + m);
    assert forall|k: int, i: int, j: int|
        0 <= k < 3 && 0 <= i < c2[k].len() && c2[ai].len() - m <= j < c2[ai].len() && (k != ai || i
            < c2[ai].len() - m) implies #[trigger] c2[k][i] > #[trigger] c2[ai][j] by {
        assert(c2[ai][j] == c[si][ls - m + (j - la)]);
        assert(ls - n < ls - m + (j - la) < ls);
        assert(peg_decreasing(c[si]));
        if k == ai {
            assert(c2[k][i] == c[ai][i]);
            assert(c[ai][i] > c[si][ls - m + (j - la)]);
        } else if k == si {
            assert(c2[k][i] == c[si][i]);
            assert(i < ls - n);
            assert(c[si][i] > c[si][ls - m + (j - la)]);
        } else {
            assert(k == di);
            if i < c[di].len() {
                assert(c2[k][i] == c[di][i]);
                assert(c[di][i] > c[si][ls - m + (j - la)]);
            } else {
                assert(c2[k][i] == c[si][ls - n]);
                assert(c[si][ls - n] > c[si][ls - m + (j - la)]);
            }
        }
    }
}

/// Landing the parked block on top of the widest disk rebuilds the full
/// block, now complete on the destination peg.
proof fn lemma_reassemble(c: Seq<Seq<u32>>, n: nat, s: u32, d: u32, a: u32)
    requires
        cfg_wf(c),
        s < 3,
        d < 3,
        a < 3,
        s != d,
        s != a,
        d != a,
        0 < n <= c[s as int].len(),
        others_larger(c, s as int, n),
    ensures
        move_stack(
            spec_apply_move(move_stack(c, (n - 1) as nat, s as int, a as int), s as int, d as int),
            (n - 1) as nat,
            a as int,
            d as int,
        ) == move_stack(c, n, s as int, d as int),
{
    let si = s as int;
    let di = d as int;
    let ai = a as int;
    let ls = c[si].len() as int;
    let la = c[ai].len() as int;
    let m = (n - 1) as nat;
    let c2 = spec_apply_move(move_stack(c, m, si, ai), si, di);
    lemma_mid_board(c, n, s, d, a);
    let c3 = move_stack(c2, m, ai, di);
    assert(c3 =~~= move_stack(c, n, si, di)) by {
        assert(c2[ai].subrange(la + m - m, la + m) =~= c[si].subrange(ls - m, ls));
        assert(c2[ai].subrange(0, la) =~= c[ai]);
        assert(c2[di] + c2[ai].subrange(la + m - m, la + m) =~= c[di] + c[si].subrange(ls - n, ls));
        assert(c2[si] =~= c[si].subrange(0, ls - n));
    }
}

/// The heart of the solver proof: when the top `n` disks of peg `s` are the
/// narrowest disks on the board, the recursive sequence is legal move by move
/// and carries exactly that block onto peg `d`.
pub proof fn lemma_solve_ok(c: Seq<Seq<u32>>, n: nat, s: u32, d: u32, a: u32)
    requires
        cfg_wf(c),
        s < 3,
        d < 3,
        a < 3,
        s != d,
        s != a,
        d != a,
        n <= c[s as int].len(),
        others_larger(c, s as int, n),
    ensures
        plays_legal(c, hanoi_moves(n, s, d, a)),
        play(c, hanoi_moves(n, s, d, a)) == move_stack(c, n, s as int, d as int),
    decreases n,
{
    let si = s as int;
    let di = d as int;
    let ai = a as int;
    let ls = c[si].len() as int;
    if n == 0 {
        assert(hanoi_moves(0, s, d, a) =~= Seq::<AutoGameMove>::empty());
        assert(move_stack(c, 0, si, di) =~~= c) by {
            assert(c[di] + c[si].subrange(ls, ls) =~= c[di]);
            assert(c[si].subrange(0, ls) =~= c[si]);
        }
    } else {
        let m = (n - 1) as nat;
        let h1 = hanoi_moves(m, s, a, d);
        let h2 = hanoi_moves(m, a, d, s);
        let mv = AutoGameMove { from: s, to: d };

        lemma_others_shrink(c, n, s);
        lemma_solve_ok(c, m, s, a, d);
        let c1 = move_stack(c, m, si, ai);
        lemma_mid_board(c, n, s, d, a);
        let c2 = spec_apply_move(c1, si, di);
        lemma_play_preserves_wf(c, h1);
        lemma_move_preserves_wf(c1, si, di);
        lemma_block_still_narrowest(c, n, s, d, a);

        // The single move in the middle.
        assert(seq![mv].drop_first() =~= Seq::<AutoGameMove>::empty());
        assert(spec_apply_move(c1, mv.from as int, mv.to as int) == c2);
        assert(plays_legal(c2, Seq::<AutoGameMove>::empty()));
        assert(play(c2, Seq::<AutoGameMove>::empty()) == c2);
        assert(plays_legal(c1, seq![mv]));
        assert(play(c1, seq![mv]) == c2);

        // The second recursive half, from the spare peg to the destination.
        assert(c2[ai] == c[ai] + c[si].subrange(ls - m, ls));
        assert(m <= c2[ai].len());
        lemma_solve_ok(c2, m, a, d, s);
        lemma_reassemble(c, n, s, d, a);

        // Chain the three parts together.
        lemma_play_append(c, h1, seq![mv]);
        lemma_legal_append(c, h1, seq![mv]);
        lemma_play_append(c, h1 + seq![mv], h2);
        lemma_legal_append(c, h1 + seq![mv], h2);
        assert(hanoi_moves(n, s, d, a) == h1 + seq![mv] + h2);
    }
}

/// The recursive sequence for `n` disks has exactly `2^n - 1` moves.
pub proof fn lemma_hanoi_moves_len(n: nat, from: u32, to: u32, aux: u32)
    ensures
        hanoi_moves(n, from, to, aux).len() == pow2(n) - 1,
    decreases n,
{
    if n == 0 {
        lemma2_to64();
    } else {
        lemma_hanoi_moves_len((n - 1) as nat, from, aux, to);
        lemma_hanoi_moves_len((n - 1) as nat, aux, to, from);
        lemma_pow2_unfold(n);
    }
}

/// Every move of the recursive sequence names only the three pegs it was
/// built from.
pub proof fn lemma_hanoi_moves_pegs(n: nat, from: u32, to: u32, aux: u32)
    ensures
        forall|i: int|
            0 <= i < hanoi_moves(n, from, to, aux).len() ==> {
                let mv = #[trigger] hanoi_moves(n, from, to, aux)[i];
                &&& (mv.from == from || mv.from == to || mv.from == aux)
                &&& (mv.to == from || mv.to == to || mv.to == aux)
            },
    decreases n,
{
    if n != 0 {
        let m = (n - 1) as nat;
        let h1 = hanoi_moves(m, from, aux, to);
        let h2 = hanoi_moves(m, aux, to, from);
        let mv = AutoGameMove { from, to };
        let whole = hanoi_moves(n, from, to, aux);
        lemma_hanoi_moves_pegs(m, from, aux, to);
        lemma_hanoi_moves_pegs(m, aux, to, from);
        assert(whole == h1 + seq![mv] + h2);
        assert forall|i: int| 0 <= i < whole.len() implies {
            let w = #[trigger] whole[i];
            &&& (w.from == from || w.from == to || w.from == aux)
            &&& (w.to == from || w.to == to || w.to == aux)
        } by {
            if i < h1.len() {
                assert(whole[i] == h1[i]);
            } else if i == h1.len() {
                assert(whole[i] == mv);
            } else {
                assert(whole[i] == h2[i - h1.len() - 1]);
            }
        }
    }
}

/// Solver correctness: from the starting board the generated sequence is
/// legal at every step, has exactly `2^n - 1` moves, and ends with the whole
/// tower rebuilt on the third peg, which is the winning state.
pub proof fn lemma_solver_correct(n: nat)
    requires
        n <= u32::MAX,
    ensures
        hanoi_moves(n, 0, 2, 1).len() == pow2(n) - 1,
        plays_legal(initial_cfg(n), hanoi_moves(n, 0, 2, 1)),
        play(initial_cfg(n), hanoi_moves(n, 0, 2, 1)) == seq![
            Seq::<u32>::empty(),
            Seq::<u32>::empty(),
            descending_widths(n),
        ],
{
    let c = initial_cfg(n);
    lemma_hanoi_moves_len(n, 0, 2, 1);
    assert(cfg_wf(c)) by {
        assert forall|k: int| 0 <= k < 3 implies peg_decreasing(#[trigger] c[k]) by {
            if k == 0 {
                assert(forall|i: int, j: int|
                    0 <= i < j < n ==> #[trigger] descending_widths(n)[i]
                        > #[trigger] descending_widths(n)[j]);
            }
        }
    }
    lemma_solve_ok(c, n, 0, 2, 1);
    assert(move_stack(c, n, 0, 2) =~~= seq![
        Seq::<u32>::empty(),
        Seq::<u32>::empty(),
        descending_widths(n),
    ]) by {
        assert(c[0].subrange(0, 0) =~= Seq::<u32>::empty());
        assert(c[2] + c[0].subrange(c[0].len() - n, c[0].len() as int) =~= descending_widths(n));
    }
}

/// Appends the full solving sequence for `n` disks to the back of `target`,
/// in the order in which the auto-player will consume it from the front.
pub fn generate_moves(
    target: &mut std::collections::VecDeque<AutoGameMove>,
    n: i32,
    from: u32,
    to: u32,
    aux: u32,
)
    requires
        0 <= n,
    ensures
        final(target)@ == old(target)@ + hanoi_moves(n as nat, from, to, aux),
    decreases n,
{
    if n == 0 {
        proof {
            assert(old(target)@ + hanoi_moves(0, from, to, aux) =~= old(target)@);
        }
        return;
    }

    generate_moves(target, n - 1, from, aux, to);
    target.push_back(AutoGameMove { from, to });
    generate_moves(target, n - 1, aux, to, from);

    proof {
        assert(final(target)@ == old(target)@ + hanoi_moves(n as nat, from, to, aux)) by {
            assert((old(target)@ + hanoi_moves((n - 1) as nat, from, aux, to)).push(
                AutoGameMove { from, to },
            ) + hanoi_moves((n - 1) as nat, aux, to, from) =~= old(target)@ + hanoi_moves(
                n as nat,
                from,
                to,
                aux,
            ));
        }
    }
}

} // verus!
