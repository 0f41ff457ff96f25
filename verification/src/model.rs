//! Data model of a Tic-Tac-Toe session and the mathematical description of the
//! game rules: move validation, committing a move, win and draw detection, and
//! the deterministic move-selection heuristic.

use vstd::prelude::*;

verus! {

/// The errors that can arise while processing a game.
#[derive(Clone, Copy, Debug, PartialEq, Eq, Structural)]
pub enum GameError {
    /// A move was attempted on a session that is already complete.
    GameAlreadyComplete,
    /// A move was attempted while nine moves are already committed.
    BoardFull,
    /// The requested position lies outside the board, which has cells 1 to 9.
    InvalidPosition,
    /// The requested position is already taken by a committed move.
    PositionOccupied,
    /// A third participant tried to join a two-player session.
    MaxPlayersReached,
    /// The move selector found no empty cell to play.
    NoMovesAvailable,
    /// No stored record exists for the requested session identifier.
    CouldNotFindGame,
    /// A stored record could not be decoded into a valid session.
    BadGameData,
    /// A record could not be written to storage.
    StorageUnavailable,
}

/// The lifecycle stage of a session.
#[derive(Clone, Copy, Debug, PartialEq, Eq, Structural)]
pub enum GameStatus {
    NotStarted,
    InProgress,
    Complete,
}

/// An opaque identifier for a human player, unique within one session.
pub type PlayerID = String;

/// A participant in a game: either the computer or a human with an identifier.
#[derive(Clone, Debug)]
pub enum Player {
    /// The non-human, heuristic participant.
    Computer,
    /// A human participant, carrying the identifier it joined with.
    Human(PlayerID),
}

/// The mathematical value of a `Player`: the identifier is a sequence of
/// characters rather than a heap-allocated string.
pub enum PlayerView {
    Computer,
    Human(Seq<char>),
}

impl View for Player {
    type V = PlayerView;

    open spec fn view(&self) -> PlayerView {
        match self {
            Player::Computer => PlayerView::Computer,
            Player::Human(id) => PlayerView::Human(id@),
        }
    }
}

impl PartialEq for Player {
    /// Two participants are equal exactly when they are the same variant and,
    /// for humans, carry the same identifier.
    fn eq(&self, other: &Self) -> bool {
        match self {
            Player::Computer => match other {
                Player::Computer => true,
                Player::Human(_) => false,
            },
            Player::Human(id1) => match other {
                Player::Computer => false,
                Player::Human(id2) => id1.eq(id2),
            },
        }
    }
}

impl vstd::std_specs::cmp::PartialEqSpecImpl for Player {
    open spec fn obeys_eq_spec() -> bool {
        true
    }

    open spec fn eq_spec(&self, other: &Player) -> bool {
        self@ == other@
    }
}

/// One committed placement: who played, at which cell, on which turn.
#[derive(Clone, Debug)]
pub struct Move {
    /// The participant that made the move.
    pub player: Player,
    /// The board cell taken by the move, numbered 1 to 9 in row-major order.
    pub position: u32,
    /// The turn on which the move was made, counted from 1.
    pub turn: u32,
}

/// The mathematical value of a `Move`.
#[verifier::ext_equal]
pub struct MoveView {
    pub player: PlayerView,
    pub position: int,
    pub turn: int,
}

impl View for Move {
    type V = MoveView;

    open spec fn view(&self) -> MoveView {
        MoveView { player: self.player@, position: self.position as int, turn: self.turn as int }
    }
}

/// One session of Tic-Tac-Toe.
pub struct Game {
    /// The unique identifier of the session.
    pub id: String,
    /// The committed moves, in play order; at most nine fit on the board.
    pub moves: Vec<Move>,
    /// The participants, in join order; at most two take part.
    pub players: Vec<Player>,
    /// The lifecycle stage of the session.
    pub status: GameStatus,
    /// The winning participant, set once the session completes with a win.
    pub winner: Option<Player>,
}

/// The mathematical value of a `Game`.
#[verifier::ext_equal]
pub struct GameView {
    pub id: Seq<char>,
    pub moves: Seq<MoveView>,
    pub players: Seq<PlayerView>,
    pub status: GameStatus,
    pub winner: Option<PlayerView>,
}

impl View for Game {
    type V = GameView;

    open spec fn view(&self) -> GameView {
        GameView {
            id: self.id@,
            moves: self.moves@.map_values(|m: Move| m@),
            players: self.players@.map_values(|p: Player| p@),
            status: self.status,
            winner: match self.winner {
                Some(p) => Some(p@),
                None => None,
            },
        }
    }
}

/// Some committed move occupies the cell `pos`.
pub open spec fn occupied(moves: Seq<MoveView>, pos: int) -> bool {
    exists|i: int| 0 <= i < moves.len() && #[trigger] moves[i].position == pos
}

/// Some committed move by participant `p` occupies the cell `pos`.
pub open spec fn occupied_by(moves: Seq<MoveView>, pos: int, p: PlayerView) -> bool {
    exists|i: int|
        0 <= i < moves.len() && (#[trigger] moves[i]).position == pos && moves[i].player == p
}

/// The three cells of the `k`-th winning line: the three rows, then the three
/// columns, then the two diagonals of the board.
pub open spec fn line_cells(k: int) -> (int, int, int) {
    if k == 0 {
        (1, 2, 3)
    } else if k == 1 {
        (4, 5, 6)
    } else if k == 2 {
        (7, 8, 9)
    } else if k == 3 {
        (1, 4, 7)
    } else if k == 4 {
        (2, 5, 8)
    } else if k == 5 {
        (3, 6, 9)
    } else if k == 6 {
        (1, 5, 9)
    } else {
        (3, 5, 7)
    }
}

/// Participant `p` occupies all three cells of line `k`.
pub open spec fn line_complete(moves: Seq<MoveView>, k: int, p: PlayerView) -> bool {
    occupied_by(moves, line_cells(k).0, p) && occupied_by(moves, line_cells(k).1, p)
        && occupied_by(moves, line_cells(k).2, p)
}

/// The winner determined by lines `k` and onward: the owner of the first fully
/// owned line in table order, if any.
pub open spec fn spec_winner_from(moves: Seq<MoveView>, k: int) -> Option<PlayerView>
    decreases 8 - k,
{
    if k >= 8 {
        None
    } else if exists|p: PlayerView| line_complete(moves, k, p) {
        Some(choose|p: PlayerView| line_complete(moves, k, p))
    } else {
        spec_winner_from(moves, k + 1)
    }
}

/// The owner of the first fully owned line in table order, if any line is
/// fully owned.
pub open spec fn spec_winner(moves: Seq<MoveView>) -> Option<PlayerView> {
    spec_winner_from(moves, 0)
}

/// Participant `p` occupies exactly two cells of line `k` and the third cell
/// is free, so playing it would complete the line for `p`.
pub open spec fn two_and_open(moves: Seq<MoveView>, k: int, p: PlayerView) -> bool {
    let a = line_cells(k).0;
    let b = line_cells(k).1;
    let c = line_cells(k).2;
    ||| (occupied_by(moves, a, p) && occupied_by(moves, b, p) && !occupied(moves, c))
    ||| (occupied_by(moves, a, p) && occupied_by(moves, c, p) && !occupied(moves, b))
    ||| (occupied_by(moves, b, p) && occupied_by(moves, c, p) && !occupied(moves, a))
}

/// The first free cell of line `k`, scanning its cells in line order.
pub open spec fn open_cell(moves: Seq<MoveView>, k: int) -> int {
    if !occupied(moves, line_cells(k).0) {
        line_cells(k).0
    } else if !occupied(moves, line_cells(k).1) {
        line_cells(k).1
    } else {
        line_cells(k).2
    }
}

/// Scanning lines `k` and onward in table order: the free cell of the first
/// line on which `p` could complete three in a row, if any.
pub open spec fn spec_threat_cell_from(moves: Seq<MoveView>, k: int, p: PlayerView) -> Option<int>
    decreases 8 - k,
{
    if k >= 8 {
        None
    } else if two_and_open(moves, k, p) {
        Some(open_cell(moves, k))
    } else {
        spec_threat_cell_from(moves, k + 1, p)
    }
}

/// The cell with which `p` could complete the first completable line in table
/// order, if any.
pub open spec fn spec_threat_cell(moves: Seq<MoveView>, p: PlayerView) -> Option<int> {
    spec_threat_cell_from(moves, 0, p)
}

/// The first human participant at index `i` or later, in join order.
pub open spec fn first_human_from(players: Seq<PlayerView>, i: int) -> Option<PlayerView>
    decreases players.len() - i,
{
    if i < 0 || i >= players.len() {
        None
    } else if players[i] is Human {
        Some(players[i])
    } else {
        first_human_from(players, i + 1)
    }
}

/// The first human participant in join order, if any.
pub open spec fn first_human(players: Seq<PlayerView>) -> Option<PlayerView> {
    first_human_from(players, 0)
}

/// Some participant is human.
pub open spec fn has_human(players: Seq<PlayerView>) -> bool {
    exists|i: int| 0 <= i < players.len() && #[trigger] players[i] is Human
}

/// The opponent of `p` within the given participants: the first human for the
/// computer, and the computer for a human.
pub open spec fn spec_opponent(players: Seq<PlayerView>, p: PlayerView) -> PlayerView {
    match p {
        PlayerView::Computer => match first_human(players) {
            Some(h) => h,
            None => PlayerView::Computer,
        },
        PlayerView::Human(_) => PlayerView::Computer,
    }
}

/// The committed moves fit the board: at most nine, each on a board cell,
/// and no two on the same cell.
pub open spec fn moves_ok(moves: Seq<MoveView>) -> bool {
    &&& moves.len() <= 9
    &&& forall|i: int, j: int|
        0 <= i < j < moves.len() ==> (#[trigger] moves[i]).position != (
        #[trigger] moves[j]).position
    &&& forall|i: int| 0 <= i < moves.len() ==> 1 <= (#[trigger] moves[i]).position <= 9
}

impl GameView {
    /// The session invariant: the moves fit the board; at most two
    /// participants take part; a session that has not started has no moves;
    /// the winner is absent until the session completes and is then set
    /// exactly as the line table dictates, and a complete session without a
    /// winner has exhausted the board.
    pub open spec fn wf(self) -> bool {
        &&& moves_ok(self.moves)
        &&& self.players.len() <= 2
        &&& (self.status == GameStatus::NotStarted ==> self.moves.len() == 0)
        &&& (self.status != GameStatus::Complete ==> self.winner is None)
        &&& (self.status == GameStatus::Complete ==> self.winner == spec_winner(self.moves))
        &&& (self.status == GameStatus::Complete && self.winner is None ==> self.moves.len() == 9)
    }
}

/// The verdict of win/draw detection over the committed moves.
#[derive(Clone, Debug)]
pub enum Outcome {
    /// No line is fully owned and the board still has free cells.
    Ongoing,
    /// The given participant fully owns a line.
    Won(Player),
    /// No line is fully owned and all nine cells are taken.
    Draw,
}

/// The mathematical value of an `Outcome`.
pub enum OutcomeView {
    Ongoing,
    Won(PlayerView),
    Draw,
}

impl View for Outcome {
    type V = OutcomeView;

    open spec fn view(&self) -> OutcomeView {
        match self {
            Outcome::Ongoing => OutcomeView::Ongoing,
            Outcome::Won(p) => OutcomeView::Won(p@),
            Outcome::Draw => OutcomeView::Draw,
        }
    }
}

/// The verdict the detector owes: the owner of the first fully owned line in
/// table order wins; with no such line, nine committed moves are a draw and
/// fewer leave the session open.
pub open spec fn spec_outcome(moves: Seq<MoveView>) -> OutcomeView {
    match spec_winner(moves) {
        Some(p) => OutcomeView::Won(p),
        None => if moves.len() >= 9 {
            OutcomeView::Draw
        } else {
            OutcomeView::Ongoing
        },
    }
}

/// The outcome of move validation: the candidate move itself when every check
/// passes, else the first failing check in order.
pub open spec fn spec_validate(g: GameView, m: MoveView) -> Result<MoveView, GameError> {
    if g.status == GameStatus::Complete {
        Err(GameError::GameAlreadyComplete)
    } else if g.moves.len() >= 9 {
        Err(GameError::BoardFull)
    } else if m.position < 1 || m.position > 9 {
        Err(GameError::InvalidPosition)
    } else if occupied(g.moves, m.position) {
        Err(GameError::PositionOccupied)
    } else {
        Ok(m)
    }
}

/// The session after committing a validated move: the move is appended, and a
/// session receiving its first move enters play.
pub open spec fn spec_commit(g: GameView, m: MoveView) -> GameView {
    GameView {
        moves: g.moves.push(m),
        status: if g.moves.len() == 0 {
            GameStatus::InProgress
        } else {
            g.status
        },
        ..g
    }
}

/// The session after win/draw detection: completion with the winner recorded
/// on a fully owned line, completion without one on an exhausted board, and
/// otherwise no change.
pub open spec fn spec_evaluate(g: GameView) -> GameView {
    match spec_winner(g.moves) {
        Some(p) => GameView { status: GameStatus::Complete, winner: Some(p), ..g },
        None => if g.moves.len() >= 9 {
            GameView { status: GameStatus::Complete, ..g }
        } else {
            g
        },
    }
}

/// The move the selector produces for `p` on the given session: the cell that
/// wins at once, else the cell that blocks the computer's opponent, else the
/// center, else the first free corner, else the first free side; an error only
/// on a full board.  The turn is one past the committed moves.
pub open spec fn spec_best_move(g: GameView, p: PlayerView) -> Result<MoveView, GameError> {
    let t = g.moves.len() as int + 1;
    match spec_threat_cell(g.moves, p) {
        Some(c) => Ok(MoveView { player: p, position: c, turn: t }),
        None => match spec_threat_cell(g.moves, spec_opponent(g.players, PlayerView::Computer)) {
            Some(c) => Ok(MoveView { player: PlayerView::Computer, position: c, turn: t }),
            None => if !occupied(g.moves, 5) {
                Ok(MoveView { player: PlayerView::Computer, position: 5, turn: t })
            } else if !occupied(g.moves, 1) {
                Ok(MoveView { player: PlayerView::Computer, position: 1, turn: t })
            } else if !occupied(g.moves, 3) {
                Ok(MoveView { player: PlayerView::Computer, position: 3, turn: t })
            } else if !occupied(g.moves, 7) {
                Ok(MoveView { player: PlayerView::Computer, position: 7, turn: t })
            } else if !occupied(g.moves, 9) {
                Ok(MoveView { player: PlayerView::Computer, position: 9, turn: t })
            } else if !occupied(g.moves, 2) {
                Ok(MoveView { player: PlayerView::Computer, position: 2, turn: t })
            } else if !occupied(g.moves, 4) {
                Ok(MoveView { player: PlayerView::Computer, position: 4, turn: t })
            } else if !occupied(g.moves, 6) {
                Ok(MoveView { player: PlayerView::Computer, position: 6, turn: t })
            } else if !occupied(g.moves, 8) {
                Ok(MoveView { player: PlayerView::Computer, position: 8, turn: t })
            } else {
                Err(GameError::NoMovesAvailable)
            },
        },
    }
}

/// The session after the computer's turn: its selected move is validated and
/// committed, and any failure along the way is the result.
pub open spec fn spec_cpu_move(g: GameView) -> Result<GameView, GameError> {
    match spec_best_move(g, PlayerView::Computer) {
        Err(e) => Err(e),
        Ok(m) => match spec_validate(g, m) {
            Err(e) => Err(e),
            Ok(_) => Ok(spec_commit(g, m)),
        },
    }
}

/// The session after one full orchestrated turn: the named human's move is
/// validated, committed and evaluated; if the session is then still open, the
/// computer replies and the result is evaluated again.
pub open spec fn spec_apply_player_move(g: GameView, pos: int, pid: Seq<char>) -> Result<
    GameView,
    GameError,
> {
    let m = MoveView {
        player: PlayerView::Human(pid),
        position: pos,
        turn: g.moves.len() as int + 1,
    };
    match spec_validate(g, m) {
        Err(e) => Err(e),
        Ok(_) => {
            let g1 = spec_evaluate(spec_commit(g, m));
            if g1.status == GameStatus::Complete {
                Ok(g1)
            } else {
                match spec_cpu_move(g1) {
                    Err(e) => Err(e),
                    Ok(g2) => Ok(spec_evaluate(g2)),
                }
            }
        },
    }
}

} // verus!
