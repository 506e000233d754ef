use vstd::prelude::*;
use crate::board::{
    Board,
    Mark,
    PlayingStatus,
    Position,
    Turn,
    empty_marks,
    outcome_of,
};

verus! {

/// Notice that `mark` was placed; `position.number` is the cell's index,
/// 0 to 8, row by row.
#[derive(Debug, Clone, Copy, PartialEq, Eq, Structural)]
pub struct MarkEvent {
    pub mark: Mark,
    pub position: Position,
}

/// One round of play: the board, whose move is next, and the outcome so far.
pub struct Round {
    pub board: Board,
    pub turn: Turn,
    pub status: PlayingStatus,
}

/// What a round is: the nine marks row by row, whose move is next, and the
/// outcome so far.
pub struct RoundModel {
    pub marks: Seq<Mark>,
    pub turn: Turn,
    pub status: PlayingStatus,
}

impl View for Round {
    type V = RoundModel;

    open spec fn view(&self) -> RoundModel {
        RoundModel { marks: self.board@, turn: self.turn, status: self.status }
    }
}

/// A round before its first move: an empty board, X to move, in play.
pub open spec fn fresh_round() -> RoundModel {
    RoundModel { marks: empty_marks(), turn: Turn::X, status: PlayingStatus::Playing }
}

/// Whether a mark at `position` (1 to 9) is accepted in `r`: the round is
/// still in play and that cell is empty.
pub open spec fn accepts(r: RoundModel, position: int) -> bool {
    &&& r.status == PlayingStatus::Playing
    &&& 1 <= position <= 9
    &&& r.marks[position - 1] == Mark::Empty
}

/// The round after the player to move tries to mark `position`, and the
/// notice of the new mark. An accepted mark takes that cell and passes the
/// move to the other player; any other attempt changes nothing.
pub open spec fn mark_step(r: RoundModel, position: int) -> (RoundModel, Option<MarkEvent>) {
    if accepts(r, position) {
        (
            RoundModel {
                marks: r.marks.update(position - 1, r.turn.mark()),
                turn: r.turn.other(),
                status: r.status,
            },
            Some(MarkEvent { mark: r.turn.mark(), position: Position { number: (position - 1) as usize } }),
        )
    } else {
        (r, None)
    }
}

/// The round with its outcome brought up to date: while in play it follows
/// the board; once won or drawn it stays.
pub open spec fn status_step(r: RoundModel) -> RoundModel {
    if r.status == PlayingStatus::Playing {
        RoundModel { status: outcome_of(r.marks), ..r }
    } else {
        r
    }
}

/// The text that shows a round's state: whose move it is while in play,
/// the winner's mark followed by " won", or "Draw".
pub open spec fn status_label(status: PlayingStatus, turn: Turn) -> Seq<char> {
    match status {
        PlayingStatus::Playing => match turn {
            Turn::X => "X"@,
            Turn::O => "O"@,
        },
        PlayingStatus::Won(Mark::X) => "X won"@,
        PlayingStatus::Won(Mark::O) => "O won"@,
        PlayingStatus::Won(Mark::Empty) => "Empty won"@,
        PlayingStatus::Draw => "Draw"@,
    }
}

/// An accepted mark passes the move to the other player exactly once, puts
/// the mover's mark on its own cell and leaves every other cell as it was.
pub proof fn lemma_accepted_mark_flips_turn(r: RoundModel, position: int)
    requires
        r.marks.len() == 9,
        r.status == PlayingStatus::Playing,
        1 <= position <= 9,
        r.marks[position - 1] == Mark::Empty,
    ensures
        mark_step(r, position).0.turn == r.turn.other(),
        mark_step(r, position).0.turn != r.turn,
        mark_step(r, position).0.status == r.status,
        mark_step(r, position).0.marks.len() == 9,
        mark_step(r, position).0.marks[position - 1] == r.turn.mark(),
        forall|i: int|
            0 <= i < 9 && i != position - 1 ==> #[trigger] mark_step(r, position).0.marks[i]
                == r.marks[i],
{
}

/// A mark on a taken cell, or once the round is won or drawn, changes
/// nothing and makes nothing known.
pub proof fn lemma_refused_mark_changes_nothing(r: RoundModel, position: int)
    requires
        r.marks.len() == 9,
        1 <= position <= 9,
        r.marks[position - 1] != Mark::Empty || r.status != PlayingStatus::Playing,
    ensures
        mark_step(r, position) == (r, None::<MarkEvent>),
{
}

impl Round {
    /// A round before its first move.
    pub fn new() -> (r: Round)
        ensures
            r@ == fresh_round(),
    {
        Round { board: Board::new(), turn: Turn::X, status: PlayingStatus::Playing }
    }

    /// Starts the round over, whatever was played: an empty board, X to
    /// move, in play.
    pub fn reset(&mut self)
        ensures
            final(self)@ == fresh_round(),
    {
        self.board = Board::new();
        self.turn = Turn::X;
        self.status = PlayingStatus::Playing;
    }

    /// The player to move marks the cell at `position` (1 to 9). Accepted
    /// only while the round is in play and the cell is empty: then the cell
    /// takes the player's mark, the move passes to the other player, and the
    /// notice of the new mark is returned. Otherwise nothing changes.
    pub fn attempt_mark(&mut self, position: usize) -> (r: Option<MarkEvent>)
        ensures
            (final(self)@, r) == mark_step(old(self)@, position as int),
            !accepts(old(self)@, position as int) ==> *final(self) == *old(self),
    {
        if position < 1 || position > 9 {
            return None;
        }
        match self.status {
            PlayingStatus::Playing => {},
            _ => {
                return None;
            },
        }
        let cell = self.board.cell(position);
        if cell.mark != Mark::Empty {
            return None;
        }
        let mut mark = Mark::Empty;
        mark.set_from_turn(&self.turn);
        self.board.put(position, mark);
        self.turn.next();
        Some(MarkEvent { mark, position: Position { number: position - 1 } })
    }

    /// Brings the outcome up to date with the board while the round is in
    /// play; a round that is won or drawn stays so.
    pub fn update_status(&mut self)
        ensures
            final(self)@ == status_step(old(self)@),
            final(self).board == old(self).board,
    {
        match self.status {
            PlayingStatus::Playing => {
                self.status = self.board.evaluate_outcome();
            },
            _ => {},
        }
    }

    /// The text that shows this round's state.
    pub fn status_text(&self) -> (r: &'static str)
        ensures
            r@ == status_label(self.status, self.turn),
    {
        match self.status {
            PlayingStatus::Playing => match self.turn {
                Turn::X => "X",
                Turn::O => "O",
            },
            PlayingStatus::Won(Mark::X) => "X won",
            PlayingStatus::Won(Mark::O) => "O won",
            PlayingStatus::Won(Mark::Empty) => "Empty won",
            PlayingStatus::Draw => "Draw",
        }
    }
}

} // verus!
