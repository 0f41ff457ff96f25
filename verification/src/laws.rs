//! Proof functions: the facts that hold of every session and of the game
//! rules, stated over the mathematical model.

use vstd::prelude::*;

use crate::model::GameError;
use crate::model::GameStatus;
use crate::model::GameView;
use crate::model::MoveView;
use crate::model::PlayerView;
use crate::model::first_human_from;
use crate::model::line_cells;
use crate::model::line_complete;
use crate::model::occupied;
use crate::model::occupied_by;
use crate::model::spec_best_move;
use crate::model::spec_commit;
use crate::model::spec_cpu_move;
use crate::model::spec_opponent;
use crate::model::spec_threat_cell;
use crate::model::spec_threat_cell_from;
use crate::model::spec_validate;
use crate::model::spec_winner;
use crate::model::spec_winner_from;
use crate::model::two_and_open;
use vstd::set_lib::lemma_int_range;
use vstd::set_lib::lemma_len_subset;
use vstd::set_lib::set_int_range;

verus! {

/// When no two committed moves share a cell, a cell has at most one occupant.
pub proof fn lemma_occupant_unique(
    moves: Seq<MoveView>,
    pos: int,
    p1: PlayerView,
    p2: PlayerView,
)
    requires
        forall|i: int, j: int|
            0 <= i < j < moves.len() ==> (#[trigger] moves[i]).position != (
            #[trigger] moves[j]).position,
        occupied_by(moves, pos, p1),
        occupied_by(moves, pos, p2),
    ensures
        p1 == p2,
{
    let i1 = choose|i: int|
        0 <= i < moves.len() && (#[trigger] moves[i]).position == pos && moves[i].player == p1;
    let i2 = choose|i: int|
        0 <= i < moves.len() && (#[trigger] moves[i]).position == pos && moves[i].player == p2;
    if i1 != i2 {
        assert(moves[i1].position != moves[i2].position);
    }
}

/// A cell occupied by some participant is occupied.
pub proof fn lemma_occupied_by_implies_occupied(moves: Seq<MoveView>, pos: int, p: PlayerView)
    requires
        occupied_by(moves, pos, p),
    ensures
        occupied(moves, pos),
{
    let i = choose|i: int|
        0 <= i < moves.len() && (#[trigger] moves[i]).position == pos && moves[i].player == p;
    assert(moves[i].position == pos);
}

/// When some participant at index `i` or later is human, the scan for the
/// first human from `i` finds one.
pub proof fn lemma_first_human_some(players: Seq<PlayerView>, i: int)
    requires
        0 <= i <= players.len(),
        exists|j: int| i <= j < players.len() && #[trigger] players[j] is Human,
    ensures
        first_human_from(players, i) is Some,
    decreases players.len() - i,
{
    if !(players[i] is Human) {
        let j = choose|j: int| i <= j < players.len() && #[trigger] players[j] is Human;
        assert(i + 1 <= j < players.len() && players[j] is Human);
        lemma_first_human_some(players, i + 1);
    }
}

/// Committing a move that passed validation keeps the session invariant.
pub proof fn lemma_commit_preserves_wf(g: GameView, m: MoveView)
    requires
        g.wf(),
        spec_validate(g, m) is Ok,
    ensures
        spec_commit(g, m).wf(),
{
    let g2 = spec_commit(g, m);
    assert(forall|i: int| 0 <= i < g.moves.len() ==> g2.moves[i] == g.moves[i]);
    assert(g2.moves[g.moves.len() as int] == m);
}

/// Any threat cell the selector finds is a free board cell.
pub proof fn lemma_threat_cell_free(moves: Seq<MoveView>, k: int, p: PlayerView)
    ensures
        match spec_threat_cell_from(moves, k, p) {
            Some(c) => 1 <= c <= 9 && !occupied(moves, c),
            None => true,
        },
    decreases 8 - k,
{
    if k >= 8 {
    } else if two_and_open(moves, k, p) {
    } else {
        lemma_threat_cell_free(moves, k + 1, p);
    }
}

/// Fewer than nine committed moves leave some board cell free.
pub proof fn lemma_free_cell_exists(moves: Seq<MoveView>)
    requires
        moves.len() < 9,
    ensures
        exists|pos: int| 1 <= pos <= 9 && !(#[trigger] occupied(moves, pos)),
{
    broadcast use vstd::seq_lib::seq_to_set_is_finite;
    broadcast use vstd::set::group_set_axioms;

    if forall|pos: int| 1 <= pos <= 9 ==> #[trigger] occupied(moves, pos) {
        let positions = moves.map_values(|m: MoveView| m.position);
        assert forall|pos: int| set_int_range(1, 10).contains(pos) implies positions.to_set().contains(
            pos,
        ) by {
            assert(occupied(moves, pos));
            let i = choose|i: int| 0 <= i < moves.len() && #[trigger] moves[i].position == pos;
            assert(positions[i] == pos);
            assert(positions.contains(pos));
        }
        assert(set_int_range(1, 10) <= positions.to_set());
        lemma_int_range(1, 10);
        positions.lemma_cardinality_of_set();
        lemma_len_subset(set_int_range(1, 10), positions.to_set());
        assert(false);
    }
}

/// On a well-formed session that is not complete and has a free cell, the
/// computer's turn goes through: the selector finds a move and validation
/// accepts it.
pub proof fn lemma_cpu_move_available(g: GameView)
    requires
        g.wf(),
        g.status != GameStatus::Complete,
        g.moves.len() < 9,
    ensures
        spec_cpu_move(g) is Ok,
{
    lemma_threat_cell_free(g.moves, 0, PlayerView::Computer);
    lemma_threat_cell_free(g.moves, 0, spec_opponent(g.players, PlayerView::Computer));
    lemma_free_cell_exists(g.moves);
    let bm = spec_best_move(g, PlayerView::Computer);
    assert(bm is Ok);
    assert(spec_validate(g, bm->Ok_0) is Ok);
}

/// A well-formed session never holds more than nine moves, and no two of its
/// committed moves occupy the same cell.
pub proof fn lemma_session_bounds(g: GameView)
    requires
        g.wf(),
    ensures
        g.moves.len() <= 9,
        forall|i: int, j: int|
            0 <= i < j < g.moves.len() ==> (#[trigger] g.moves[i]).position != (
            #[trigger] g.moves[j]).position,
{
}

/// The winner scan from `k` finds nothing exactly when no line from `k`
/// onward is fully owned.
pub proof fn lemma_winner_from_none(moves: Seq<MoveView>, k: int)
    requires
        0 <= k <= 8,
    ensures
        (spec_winner_from(moves, k) is None) <==> (forall|j: int, p: PlayerView|
            k <= j < 8 ==> !(#[trigger] line_complete(moves, j, p))),
    decreases 8 - k,
{
    if k < 8 {
        lemma_winner_from_none(moves, k + 1);
    }
}

/// Skipping lines that nobody fully owns does not change the winner scan.
pub proof fn lemma_winner_from_skip(moves: Seq<MoveView>, i: int, k: int)
    requires
        0 <= i <= k <= 8,
        forall|j: int, p: PlayerView| i <= j < k ==> !(#[trigger] line_complete(moves, j, p)),
    ensures
        spec_winner_from(moves, i) == spec_winner_from(moves, k),
    decreases k - i,
{
    if i < k {
        assert(!line_complete(moves, i, choose|p: PlayerView| line_complete(moves, i, p)));
        lemma_winner_from_skip(moves, i + 1, k);
    }
}

/// A session may only complete one way: with a winner recorded, or with all
/// nine moves committed and no line fully owned.  Never both, never neither.
pub proof fn lemma_complete_winner_xor(g: GameView)
    requires
        g.wf(),
        g.status == GameStatus::Complete,
    ensures
        (g.winner is Some) != (g.moves.len() == 9 && forall|k: int, p: PlayerView|
            0 <= k < 8 ==> !(#[trigger] line_complete(g.moves, k, p))),
{
    lemma_winner_from_none(g.moves, 0);
}

/// Filling any one of the eight lines with three moves by one participant,
/// with no other moves committed, makes that participant the winner.
pub proof fn lemma_line_win(moves: Seq<MoveView>, k: int, p: PlayerView)
    requires
        0 <= k < 8,
        moves.len() == 3,
        moves[0].position == line_cells(k).0,
        moves[1].position == line_cells(k).1,
        moves[2].position == line_cells(k).2,
        moves[0].player == p,
        moves[1].player == p,
        moves[2].player == p,
    ensures
        spec_winner(moves) == Some(p),
{
    assert(occupied_by(moves, line_cells(k).0, p));
    assert(occupied_by(moves, line_cells(k).1, p));
    assert(occupied_by(moves, line_cells(k).2, p));
    assert(line_complete(moves, k, p));
    assert forall|j: int, q: PlayerView| 0 <= j < 8 && j != k implies !(#[trigger] line_complete(
        moves,
        j,
        q,
    )) by {
        if line_complete(moves, j, q) {
            assert forall|c: int| occupied(moves, c) implies (c == line_cells(k).0 || c
                == line_cells(k).1 || c == line_cells(k).2) by {
                let i = choose|i: int| 0 <= i < moves.len() && #[trigger] moves[i].position == c;
                assert(i == 0 || i == 1 || i == 2);
            }
            lemma_occupied_by_implies_occupied(moves, line_cells(j).0, q);
            lemma_occupied_by_implies_occupied(moves, line_cells(j).1, q);
            lemma_occupied_by_implies_occupied(moves, line_cells(j).2, q);
            assert(false);
        }
    }
    lemma_winner_from_skip(moves, 0, k);
    let q = choose|q: PlayerView| line_complete(moves, k, q);
    assert(forall|i: int, j: int|
        0 <= i < j < moves.len() ==> (#[trigger] moves[i]).position != (
        #[trigger] moves[j]).position);
    lemma_occupant_unique(moves, line_cells(k).0, q, p);
}

/// The selector takes an immediate win over a block, and a block over any
/// positional preference: with a completable line of its own it plays the
/// completing cell, and otherwise, with a completable line of its opponent,
/// it plays the blocking cell.
pub proof fn lemma_selector_priority(g: GameView, p: PlayerView)
    ensures
        spec_threat_cell(g.moves, p) is Some ==> spec_best_move(g, p) == Ok::<
            MoveView,
            GameError,
        >(
            MoveView {
                player: p,
                position: spec_threat_cell(g.moves, p)->Some_0,
                turn: g.moves.len() as int + 1,
            },
        ),
        (spec_threat_cell(g.moves, p) is None && spec_threat_cell(
            g.moves,
            spec_opponent(g.players, PlayerView::Computer),
        ) is Some) ==> spec_best_move(g, p) == Ok::<MoveView, GameError>(
            MoveView {
                player: PlayerView::Computer,
                position: spec_threat_cell(g.moves, spec_opponent(g.players, PlayerView::Computer))->Some_0,
                turn: g.moves.len() as int + 1,
            },
        ),
{
}

} // verus!
