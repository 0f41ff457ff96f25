//! The executable game engine: move validation, state transitions, win and
//! draw detection, the heuristic move selector, and session orchestration.
//! Each operation's contract ties its result to the spec functions of
//! `crate::model`.

use vstd::prelude::*;

use crate::laws::lemma_commit_preserves_wf;
use crate::laws::lemma_cpu_move_available;
use crate::laws::lemma_first_human_some;
use crate::laws::lemma_occupant_unique;
use crate::laws::lemma_occupied_by_implies_occupied;
use crate::model::Game;
use crate::model::GameError;
use crate::model::GameStatus;
use crate::model::GameView;
use crate::model::Move;
use crate::model::MoveView;
use crate::model::Outcome;
use crate::model::Player;
use crate::model::PlayerID;
use crate::model::PlayerView;
use crate::model::first_human;
use crate::model::first_human_from;
use crate::model::has_human;
use crate::model::line_cells;
use crate::model::line_complete;
use crate::model::moves_ok;
use crate::model::occupied;
use crate::model::occupied_by;
use crate::model::open_cell;
use crate::model::spec_apply_player_move;
use crate::model::spec_best_move;
use crate::model::spec_commit;
use crate::model::spec_cpu_move;
use crate::model::spec_evaluate;
use crate::model::spec_opponent;
use crate::model::spec_outcome;
use crate::model::spec_threat_cell;
use crate::model::spec_threat_cell_from;
use crate::model::spec_validate;
use crate::model::spec_winner;
use crate::model::spec_winner_from;
use crate::model::two_and_open;

verus! {

/// Relies on uuid's `Uuid::new_v4` and its `Display` impl: a fresh random
/// version-4 identifier, rendered as the 36-character hyphenated form.
#[verifier::external_body]
fn fresh_id() -> (r: String)
    ensures
        r@.len() == 36,
{
    uuid::Uuid::new_v4().to_string()
}

/// A copy of a participant, equal to the original.
fn copy_player(p: &Player) -> (r: Player)
    ensures
        r == *p,
{
    match p {
        Player::Computer => Player::Computer,
        Player::Human(id) => Player::Human(id.clone()),
    }
}

impl Game {
    /// Whether any committed move occupies the cell `pos`.
    fn position_occupied(&self, pos: u32) -> (b: bool)
        ensures
            b == occupied(self@.moves, pos as int),
    {
        let mut i: usize = 0;
        while i < self.moves.len()
            invariant
                i <= self.moves@.len(),
                forall|j: int| 0 <= j < i ==> (#[trigger] self@.moves[j]).position != pos as int,
            decreases self.moves@.len() - i,
        {
            if self.moves[i].position == pos {
                proof {
                    assert(self@.moves[i as int].position == pos as int);
                }
                return true;
            }
            i += 1;
        }
        false
    }

    /// Whether a committed move by participant `p` occupies the cell `pos`.
    fn position_occupied_by(&self, pos: u32, p: &Player) -> (b: bool)
        ensures
            b == occupied_by(self@.moves, pos as int, p@),
    {
        let mut i: usize = 0;
        while i < self.moves.len()
            invariant
                i <= self.moves@.len(),
                forall|j: int|
                    0 <= j < i ==> !((#[trigger] self@.moves[j]).position == pos as int
                        && self@.moves[j].player == p@),
            decreases self.moves@.len() - i,
        {
            if self.moves[i].position == pos && self.moves[i].player == *p {
                proof {
                    assert(self@.moves[i as int].position == pos as int);
                    assert(self@.moves[i as int].player == p@);
                }
                return true;
            }
            i += 1;
        }
        false
    }

    /// The participant of the first committed move at cell `pos`, if any.
    fn find_player_at(&self, pos: u32) -> (r: Option<Player>)
        ensures
            match r {
                Some(pl) => occupied_by(self@.moves, pos as int, pl@),
                None => !occupied(self@.moves, pos as int),
            },
    {
        let mut i: usize = 0;
        while i < self.moves.len()
            invariant
                i <= self.moves@.len(),
                forall|j: int| 0 <= j < i ==> (#[trigger] self@.moves[j]).position != pos as int,
            decreases self.moves@.len() - i,
        {
            if self.moves[i].position == pos {
                let pl = copy_player(&self.moves[i].player);
                proof {
                    assert(self@.moves[i as int].position == pos as int);
                    assert(self@.moves[i as int].player == pl@);
                }
                return Some(pl);
            }
            i += 1;
        }
        None
    }

    /// The three board cells of the `k`-th winning line.
    fn line_positions(k: usize) -> (r: (u32, u32, u32))
        requires
            k < 8,
        ensures
            r.0 as int == line_cells(k as int).0,
            r.1 as int == line_cells(k as int).1,
            r.2 as int == line_cells(k as int).2,
    {
        if k == 0 {
            (1, 2, 3)
        } else if k == 1 {
            (4, 5, 6)
        } else if k == 2 {
            (7, 8, 9)
        } else if k == 3 {
            (1, 4, 7)
        } else if k == 4 {
            (2, 5, 8)
        } else if k == 5 {
            (3, 6, 9)
        } else if k == 6 {
            (1, 5, 9)
        } else {
            (3, 5, 7)
        }
    }

    /// Scans the line table in order and returns the owner of the first fully
    /// owned line, if any line is fully owned.
    pub fn has_won(&self) -> (r: Option<Player>)
        requires
            moves_ok(self@.moves),
        ensures
            match r {
                Some(p) => spec_winner(self@.moves) == Some(p@),
                None => spec_winner(self@.moves) is None,
            },
    {
        let ghost moves = self@.moves;
        let mut k: usize = 0;
        while k < 8
            invariant
                moves_ok(moves),
                moves == self@.moves,
                k <= 8,
                spec_winner_from(moves, 0) == spec_winner_from(moves, k as int),
            decreases 8 - k,
        {
            let (a, b, c) = Self::line_positions(k);
            match self.find_player_at(a) {
                None => {
                    proof {
                        if exists|p: PlayerView| line_complete(moves, k as int, p) {
                            let q = choose|p: PlayerView| line_complete(moves, k as int, p);
                            lemma_occupied_by_implies_occupied(moves, a as int, q);
                            assert(false);
                        }
                    }
                },
                Some(pl) => {
                    let owns_b = self.position_occupied_by(b, &pl);
                    let owns_c = self.position_occupied_by(c, &pl);
                    if owns_b && owns_c {
                        proof {
                            assert(line_complete(moves, k as int, pl@));
                            let q = choose|p: PlayerView| line_complete(moves, k as int, p);
                            lemma_occupant_unique(moves, a as int, q, pl@);
                            assert(spec_winner_from(moves, k as int) == Some(pl@));
                        }
                        return Some(pl);
                    }
                    proof {
                        if exists|p: PlayerView| line_complete(moves, k as int, p) {
                            let q = choose|p: PlayerView| line_complete(moves, k as int, p);
                            lemma_occupant_unique(moves, a as int, q, pl@);
                            assert(false);
                        }
                    }
                },
            }
            proof {
                assert(spec_winner_from(moves, k as int) == spec_winner_from(moves, k as int + 1));
            }
            k += 1;
        }
        None
    }

    /// Detects the verdict owed by the committed moves: a win on the first
    /// fully owned line in table order, a draw on an exhausted board, and an
    /// open session otherwise.  The session itself is untouched.
    pub fn evaluate_outcome(&self) -> (r: Outcome)
        requires
            self@.wf(),
        ensures
            r@ == spec_outcome(self@.moves),
    {
        match self.has_won() {
            Some(p) => Outcome::Won(p),
            None => if self.moves.len() >= 9 {
                Outcome::Draw
            } else {
                Outcome::Ongoing
            },
        }
    }

    /// Applies the detector's verdict to the session: a win completes it and
    /// records the winner, an exhausted board completes it without one, and
    /// otherwise nothing changes.
    pub fn check_for_complete(&mut self)
        requires
            old(self)@.wf(),
        ensures
            final(self)@.wf(),
            final(self)@ == spec_evaluate(old(self)@),
    {
        match self.has_won() {
            Some(winner) => {
                self.status = GameStatus::Complete;
                self.winner = Some(winner);
            },
            None => {
                if self.moves.len() >= 9 {
                    self.status = GameStatus::Complete;
                }
            },
        }
        proof {
            assert(self@ =~= spec_evaluate(old(self)@));
        }
    }

    /// Validates a candidate move against the current session state; the
    /// session is untouched.  The checks run in a fixed order and the first
    /// failure wins: a complete session, a full board, a position off the
    /// board, an occupied position.
    pub fn is_valid_move(&self, new_move: Move) -> (r: Result<Move, GameError>)
        ensures
            match spec_validate(self@, new_move@) {
                Ok(_) => r == Ok::<Move, GameError>(new_move),
                Err(e) => r == Err::<Move, GameError>(e),
            },
    {
        if self.status == GameStatus::Complete {
            return Err(GameError::GameAlreadyComplete);
        }
        if self.moves.len() >= 9 {
            return Err(GameError::BoardFull);
        }
        if new_move.position < 1 || new_move.position > 9 {
            return Err(GameError::InvalidPosition);
        }
        if self.position_occupied(new_move.position) {
            return Err(GameError::PositionOccupied);
        }
        Ok(new_move)
    }

    /// Validates and commits a move.  A rejected move leaves the session
    /// exactly as it was; an accepted move is appended, and a first move
    /// starts play.
    pub fn make_move(&mut self, new_move: Move) -> (r: Result<(), GameError>)
        requires
            old(self)@.wf(),
        ensures
            final(self)@.wf(),
            match spec_validate(old(self)@, new_move@) {
                Ok(_) => r is Ok && final(self)@ == spec_commit(old(self)@, new_move@),
                Err(e) => r == Err::<(), GameError>(e) && *final(self) == *old(self),
            },
    {
        let validated_move = match self.is_valid_move(new_move) {
            Ok(m) => m,
            Err(e) => {
                return Err(e);
            },
        };
        if self.moves.len() == 0 {
            self.status = GameStatus::InProgress;
        }
        self.moves.push(validated_move);
        proof {
            assert(self@.moves =~= old(self)@.moves.push(new_move@));
            assert(self@ =~= spec_commit(old(self)@, new_move@));
            lemma_commit_preserves_wf(old(self)@, new_move@);
        }
        Ok(())
    }

    /// The first human participant in join order.
    fn find_first_human(&self) -> (r: Player)
        requires
            has_human(self@.players),
        ensures
            Some(r@) == first_human(self@.players),
    {
        let ghost players = self@.players;
        let mut i: usize = 0;
        while i < self.players.len()
            invariant
                players == self@.players,
                i <= players.len(),
                first_human_from(players, 0) == first_human_from(players, i as int),
            decreases players.len() - i,
        {
            match &self.players[i] {
                Player::Human(_) => {
                    let pl = copy_player(&self.players[i]);
                    proof {
                        assert(players[i as int] == pl@);
                        assert(players[i as int] is Human);
                    }
                    return pl;
                },
                Player::Computer => {
                    proof {
                        assert(!(players[i as int] is Human));
                        assert(first_human_from(players, i as int) == first_human_from(
                            players,
                            i as int + 1,
                        ));
                    }
                },
            }
            i += 1;
        }
        proof {
            lemma_first_human_some(players, 0);
            assert(false);
        }
        unreached()
    }

    /// Scans the line table in order for a cell with which `player` would
    /// complete three in a row, and offers the first such cell as `player`'s
    /// next move.
    pub fn check_winning_moves(&self, player: Player) -> (r: Option<Move>)
        requires
            self@.wf(),
        ensures
            match spec_threat_cell(self@.moves, player@) {
                Some(c) => r is Some && r->Some_0@ == (MoveView {
                    player: player@,
                    position: c,
                    turn: self@.moves.len() as int + 1,
                }),
                None => r is None,
            },
    {
        let ghost moves = self@.moves;
        let ghost pv = player@;
        let turn = self.moves.len() as u32 + 1;
        let mut k: usize = 0;
        while k < 8
            invariant
                self@.wf(),
                moves == self@.moves,
                pv == player@,
                k <= 8,
                turn as int == moves.len() + 1,
                spec_threat_cell_from(moves, 0, pv) == spec_threat_cell_from(moves, k as int, pv),
            decreases 8 - k,
        {
            let (a, b, c) = Self::line_positions(k);
            let owns_a = self.position_occupied_by(a, &player);
            let owns_b = self.position_occupied_by(b, &player);
            let owns_c = self.position_occupied_by(c, &player);
            if owns_a && owns_b && !self.position_occupied(c) {
                proof {
                    lemma_occupied_by_implies_occupied(moves, a as int, pv);
                    lemma_occupied_by_implies_occupied(moves, b as int, pv);
                    assert(two_and_open(moves, k as int, pv));
                    assert(open_cell(moves, k as int) == c as int);
                }
                return Some(Move { player, position: c, turn });
            }
            if owns_a && owns_c && !self.position_occupied(b) {
                proof {
                    lemma_occupied_by_implies_occupied(moves, a as int, pv);
                    assert(two_and_open(moves, k as int, pv));
                    assert(open_cell(moves, k as int) == b as int);
                }
                return Some(Move { player, position: b, turn });
            }
            if owns_b && owns_c && !self.position_occupied(a) {
                proof {
                    assert(two_and_open(moves, k as int, pv));
                    assert(open_cell(moves, k as int) == a as int);
                }
                return Some(Move { player, position: a, turn });
            }
            proof {
                assert(!two_and_open(moves, k as int, pv));
                assert(spec_threat_cell_from(moves, k as int, pv) == spec_threat_cell_from(
                    moves,
                    k as int + 1,
                    pv,
                ));
            }
            k += 1;
        }
        None
    }

    /// Scans the line table in order for a cell with which the opponent of
    /// `player` would complete three in a row, and offers the first such cell
    /// as `player`'s blocking move.  The computer's opponent is the first
    /// human participant, re-derived from the join order; a human's opponent
    /// is the computer.
    pub fn check_blocking_moves(&self, player: Player) -> (r: Option<Move>)
        requires
            self@.wf(),
            player@ is Computer ==> has_human(self@.players),
        ensures
            match spec_threat_cell(self@.moves, spec_opponent(self@.players, player@)) {
                Some(c) => r is Some && r->Some_0@ == (MoveView {
                    player: player@,
                    position: c,
                    turn: self@.moves.len() as int + 1,
                }),
                None => r is None,
            },
    {
        let opponent = match &player {
            Player::Computer => self.find_first_human(),
            Player::Human(_) => Player::Computer,
        };
        let ghost moves = self@.moves;
        let ghost ov = opponent@;
        proof {
            assert(ov == spec_opponent(self@.players, player@));
        }
        let turn = self.moves.len() as u32 + 1;
        let mut k: usize = 0;
        while k < 8
            invariant
                self@.wf(),
                moves == self@.moves,
                ov == opponent@,
                ov == spec_opponent(self@.players, player@),
                k <= 8,
                turn as int == moves.len() + 1,
                spec_threat_cell_from(moves, 0, ov) == spec_threat_cell_from(moves, k as int, ov),
            decreases 8 - k,
        {
            let (a, b, c) = Self::line_positions(k);
            let opp_a = self.position_occupied_by(a, &opponent);
            let opp_b = self.position_occupied_by(b, &opponent);
            let opp_c = self.position_occupied_by(c, &opponent);
            if opp_a && opp_b && !self.position_occupied(c) {
                proof {
                    lemma_occupied_by_implies_occupied(moves, a as int, ov);
                    lemma_occupied_by_implies_occupied(moves, b as int, ov);
                    assert(two_and_open(moves, k as int, ov));
                    assert(open_cell(moves, k as int) == c as int);
                }
                return Some(Move { player, position: c, turn });
            }
            if opp_a && opp_c && !self.position_occupied(b) {
                proof {
                    lemma_occupied_by_implies_occupied(moves, a as int, ov);
                    assert(two_and_open(moves, k as int, ov));
                    assert(open_cell(moves, k as int) == b as int);
                }
                return Some(Move { player, position: b, turn });
            }
            if opp_b && opp_c && !self.position_occupied(a) {
                proof {
                    assert(two_and_open(moves, k as int, ov));
                    assert(open_cell(moves, k as int) == a as int);
                }
                return Some(Move { player, position: a, turn });
            }
            proof {
                assert(!two_and_open(moves, k as int, ov));
                assert(spec_threat_cell_from(moves, k as int, ov) == spec_threat_cell_from(
                    moves,
                    k as int + 1,
                    ov,
                ));
            }
            k += 1;
        }
        None
    }

    /// Selects the computer's next move by the fixed priority: win at once,
    /// else block the opponent, else take the center, else the first free
    /// corner, else the first free side.  The result is a function of the
    /// session state alone, so identical states always yield identical moves.
    pub fn best_next_move(&self, player: Player) -> (r: Result<Move, GameError>)
        requires
            self@.wf(),
            has_human(self@.players),
        ensures
            match spec_best_move(self@, player@) {
                Ok(m) => r is Ok && r->Ok_0@ == m,
                Err(e) => r == Err::<Move, GameError>(e),
            },
    {
        let turn = self.moves.len() as u32 + 1;
        if let Some(winning_move) = self.check_winning_moves(player) {
            return Ok(winning_move);
        }
        if let Some(blocking_move) = self.check_blocking_moves(Player::Computer) {
            return Ok(blocking_move);
        }
        if !self.position_occupied(5) {
            return Ok(Move { player: Player::Computer, position: 5, turn });
        }
        if !self.position_occupied(1) {
            return Ok(Move { player: Player::Computer, position: 1, turn });
        }
        if !self.position_occupied(3) {
            return Ok(Move { player: Player::Computer, position: 3, turn });
        }
        if !self.position_occupied(7) {
            return Ok(Move { player: Player::Computer, position: 7, turn });
        }
        if !self.position_occupied(9) {
            return Ok(Move { player: Player::Computer, position: 9, turn });
        }
        if !self.position_occupied(2) {
            return Ok(Move { player: Player::Computer, position: 2, turn });
        }
        if !self.position_occupied(4) {
            return Ok(Move { player: Player::Computer, position: 4, turn });
        }
        if !self.position_occupied(6) {
            return Ok(Move { player: Player::Computer, position: 6, turn });
        }
        if !self.position_occupied(8) {
            return Ok(Move { player: Player::Computer, position: 8, turn });
        }
        Err(GameError::NoMovesAvailable)
    }

    /// Selects and commits the computer's next move.
    pub fn make_cpu_move(&mut self) -> (r: Result<(), GameError>)
        requires
            old(self)@.wf(),
            has_human(old(self)@.players),
        ensures
            final(self)@.wf(),
            match spec_cpu_move(old(self)@) {
                Ok(g2) => r is Ok && final(self)@ == g2,
                Err(e) => r == Err::<(), GameError>(e) && *final(self) == *old(self),
            },
    {
        let cpu_move = match self.best_next_move(Player::Computer) {
            Ok(m) => m,
            Err(e) => {
                return Err(e);
            },
        };
        self.make_move(cpu_move)
    }

    /// Creates a new session with a fresh identifier, no moves, no
    /// participants, and play not yet started.
    pub fn new_local() -> (g: Game)
        ensures
            g@.wf(),
            g@.moves.len() == 0,
            g@.players.len() == 0,
            g@.status == GameStatus::NotStarted,
            g@.winner is None,
            g@.id.len() == 36,
    {
        let id = fresh_id();
        let g = Game {
            id,
            moves: Vec::new(),
            players: Vec::new(),
            status: GameStatus::NotStarted,
            winner: None,
        };
        proof {
            assert(g@.moves =~= Seq::<crate::model::MoveView>::empty());
            assert(g@.players =~= Seq::<crate::model::PlayerView>::empty());
        }
        g
    }

    /// Whether some participant of the session is human.
    pub fn has_human_player(&self) -> (b: bool)
        ensures
            b == has_human(self@.players),
    {
        let mut i: usize = 0;
        while i < self.players.len()
            invariant
                i <= self.players@.len(),
                forall|j: int| 0 <= j < i ==> !((#[trigger] self@.players[j]) is Human),
            decreases self.players@.len() - i,
        {
            match &self.players[i] {
                Player::Human(_) => {
                    proof {
                        assert(self@.players[i as int] is Human);
                    }
                    return true;
                },
                Player::Computer => {
                    proof {
                        assert(!(self@.players[i as int] is Human));
                    }
                },
            }
            i += 1;
        }
        false
    }

    /// Decides whether the session satisfies its invariant.  A record loaded
    /// from storage that fails this check is not a session this library could
    /// have produced, and must be treated as corrupt.
    pub fn is_well_formed(&self) -> (b: bool)
        ensures
            b == self@.wf(),
    {
        if self.moves.len() > 9 {
            return false;
        }
        if self.players.len() > 2 {
            return false;
        }
        let ghost moves = self@.moves;
        let mut i: usize = 0;
        while i < self.moves.len()
            invariant
                moves == self@.moves,
                i <= moves.len(),
                moves.len() <= 9,
                forall|x: int| 0 <= x < i ==> 1 <= (#[trigger] moves[x]).position <= 9,
                forall|x: int, y: int|
                    0 <= x < y < moves.len() && x < i ==> (#[trigger] moves[x]).position != (
                    #[trigger] moves[y]).position,
            decreases moves.len() - i,
        {
            let pos = self.moves[i].position;
            proof {
                assert(moves[i as int].position == pos as int);
            }
            if pos < 1 || pos > 9 {
                return false;
            }
            let mut j: usize = i + 1;
            while j < self.moves.len()
                invariant
                    moves == self@.moves,
                    i < j <= moves.len(),
                    i < moves.len(),
                    pos as int == moves[i as int].position,
                    forall|y: int| i < y < j ==> (#[trigger] moves[y]).position != pos as int,
                decreases moves.len() - j,
            {
                if self.moves[j].position == pos {
                    proof {
                        assert(moves[j as int].position == pos as int);
                    }
                    return false;
                }
                j += 1;
            }
            i += 1;
        }
        if self.status == GameStatus::NotStarted && self.moves.len() > 0 {
            return false;
        }
        let is_complete = self.status == GameStatus::Complete;
        if !is_complete {
            if let Some(_) = &self.winner {
                return false;
            }
            return true;
        }
        let computed = self.has_won();
        match (&self.winner, &computed) {
            (Some(w), Some(c)) => {
                if !(w == c) {
                    return false;
                }
            },
            (None, None) => {
                if self.moves.len() != 9 {
                    return false;
                }
            },
            _ => {
                return false;
            },
        }
        true
    }

    /// Starts a fresh session: the named human joins first, the computer
    /// second, no move is committed, and play has not started.
    pub fn start(player_id: PlayerID) -> (g: Game)
        ensures
            g@.wf(),
            g@.status == GameStatus::NotStarted,
            g@.moves.len() == 0,
            g@.winner is None,
            g@.players == seq![PlayerView::Human(player_id@), PlayerView::Computer],
            has_human(g@.players),
            g@.id.len() == 36,
    {
        let ghost pid = player_id@;
        let g0 = Game::new_local();
        let g1 = match g0.add_player(Player::Human(player_id)) {
            Ok(g) => g,
            Err(_) => unreached(),
        };
        let g2 = match g1.add_player(Player::Computer) {
            Ok(g) => g,
            Err(_) => unreached(),
        };
        proof {
            assert(g2@.players =~= seq![PlayerView::Human(pid), PlayerView::Computer]);
            assert(g2@.players[0] is Human);
        }
        g2
    }

    /// Runs one full orchestrated turn: validates and commits the named
    /// human's move, evaluates the outcome, and, if the session is still
    /// open, selects and commits the computer's reply and evaluates again.
    /// A rejected move leaves the session exactly as it was.
    pub fn apply_player_move(&mut self, position: u32, player_id: PlayerID) -> (r: Result<
        (),
        GameError,
    >)
        requires
            old(self)@.wf(),
            has_human(old(self)@.players),
        ensures
            final(self)@.wf(),
            match spec_apply_player_move(old(self)@, position as int, player_id@) {
                Ok(gv) => r is Ok && final(self)@ == gv,
                Err(e) => r == Err::<(), GameError>(e) && *final(self) == *old(self),
            },
    {
        let turn = self.moves.len() as u32 + 1;
        let player_move = Move { player: Player::Human(player_id), position, turn };
        match self.make_move(player_move) {
            Ok(_) => {},
            Err(e) => {
                return Err(e);
            },
        }
        self.check_for_complete();
        if self.status != GameStatus::Complete {
            proof {
                lemma_cpu_move_available(self@);
            }
            match self.make_cpu_move() {
                Ok(_) => {},
                Err(_) => unreached(),
            }
            self.check_for_complete();
        }
        Ok(())
    }

    /// Adds a participant to the session, in join order.  Once two
    /// participants are present, any further one is rejected.
    pub fn add_player(self, player: Player) -> (r: Result<Game, GameError>)
        ensures
            if self@.players.len() >= 2 {
                r == Err::<Game, GameError>(GameError::MaxPlayersReached)
            } else {
                r is Ok && r->Ok_0@ == (GameView { players: self@.players.push(player@), ..self@ })
            },
            self@.wf() && r is Ok ==> r->Ok_0@.wf(),
    {
        let ghost old_view = self@;
        let ghost pv = player@;
        if self.players.len() >= 2 {
            return Err(GameError::MaxPlayersReached);
        }
        let mut g = self;
        g.players.push(player);
        proof {
            assert(g@.players =~= old_view.players.push(pv));
            assert(g@ =~= (GameView { players: old_view.players.push(pv), ..old_view }));
        }
        Ok(g)
    }
}

} // verus!
