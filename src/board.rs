use vstd::prelude::*;

verus! {

/// Whose move is next.
#[derive(Debug, Clone, Copy, PartialEq, Eq, Structural)]
pub enum Turn {
    X,
    O,
}

/// What occupies a cell.
#[derive(Debug, Clone, Copy, PartialEq, Eq, Hash, Structural)]
pub enum Mark {
    X,
    O,
    Empty,
}

impl Turn {
    /// The other player.
    pub open spec fn other(self) -> Turn {
        match self {
            Turn::X => Turn::O,
            Turn::O => Turn::X,
        }
    }

    /// The mark that this player places.
    pub open spec fn mark(self) -> Mark {
        match self {
            Turn::X => Mark::X,
            Turn::O => Mark::O,
        }
    }

    /// Hands the move to the other player.
    pub fn next(&mut self)
        ensures
            *final(self) == old(self).other(),
    {
        *self = match self {
            Turn::X => Turn::O,
            Turn::O => Turn::X,
        }
    }
}

impl Mark {
    /// Sets this mark to the one that the player `turn` places.
    pub fn set_from_turn(&mut self, turn: &Turn)
        ensures
            *final(self) == turn.mark(),
    {
        *self = match turn {
            Turn::X => Mark::X,
            Turn::O => Mark::O,
        }
    }
}

/// A cell's place on the board, counted row by row: from 1 to 9 in a
/// `Cell`, from 0 to 8 in a `MarkEvent`.
#[derive(Debug, Clone, Copy, PartialEq, Eq, Structural)]
pub struct Position {
    pub number: usize,
}

/// One square of the board and the mark on it.
#[derive(Debug, Clone, Copy, PartialEq, Eq, Structural)]
pub struct Cell {
    pub mark: Mark,
    pub position: Position,
}

/// The outcome of a round as far as it has gone.
#[derive(Debug, Clone, Copy, PartialEq, Eq, Hash, Structural)]
pub enum PlayingStatus {
    Playing,
    Won(Mark),
    Draw,
}

/// The number of winning lines: three rows, three columns, two diagonals.
pub const LINE_COUNT: usize = 8;

/// The cells (indices 0 to 8, row by row) of winning line `k`, in the order
/// in which lines are checked: rows, then columns, then the diagonal through
/// the first cell, then the one through the third.
pub open spec fn line(k: int) -> (int, int, int) {
    if k == 0 {
        (0, 1, 2)
    } else if k == 1 {
        (3, 4, 5)
    } else if k == 2 {
        (6, 7, 8)
    } else if k == 3 {
        (0, 3, 6)
    } else if k == 4 {
        (1, 4, 7)
    } else if k == 5 {
        (2, 5, 8)
    } else if k == 6 {
        (0, 4, 8)
    } else {
        (2, 4, 6)
    }
}

/// The mark that fills line `k` of `marks`, or `Empty` where the line is not
/// filled with one player's mark.
pub open spec fn line_winner(marks: Seq<Mark>, k: int) -> Mark {
    let (a, b, c) = line(k);
    if marks[a] != Mark::Empty && marks[a] == marks[b] && marks[b] == marks[c] {
        marks[a]
    } else {
        Mark::Empty
    }
}

/// Whether line `k` of `marks` holds three equal marks of one player.
pub open spec fn is_uniform_line(marks: Seq<Mark>, k: int) -> bool {
    line_winner(marks, k) != Mark::Empty
}

/// The mark of the first uniform line among lines `k` to 7, or `Empty`.
pub open spec fn first_winner_from(marks: Seq<Mark>, k: int) -> Mark
    decreases 8 - k,
{
    if k < 0 || k >= 8 {
        Mark::Empty
    } else if is_uniform_line(marks, k) {
        line_winner(marks, k)
    } else {
        first_winner_from(marks, k + 1)
    }
}

/// The winner of a board: the mark of its first uniform line, or `Empty`.
pub open spec fn winner_of(marks: Seq<Mark>) -> Mark {
    first_winner_from(marks, 0)
}

/// Whether no cell of the board is empty.
pub open spec fn is_full_board(marks: Seq<Mark>) -> bool {
    forall|i: int| 0 <= i < 9 ==> marks[i] != Mark::Empty
}

/// The outcome of a board: won by the owner of its first uniform line, else
/// drawn when it is full, else still in play.
pub open spec fn outcome_of(marks: Seq<Mark>) -> PlayingStatus {
    let w = winner_of(marks);
    if w != Mark::Empty {
        PlayingStatus::Won(w)
    } else if is_full_board(marks) {
        PlayingStatus::Draw
    } else {
        PlayingStatus::Playing
    }
}

/// The marks of a board with nothing on it.
pub open spec fn empty_marks() -> Seq<Mark> {
    Seq::new(9, |i: int| Mark::Empty)
}

/// The cells of winning line `k`.
fn line_cells(k: usize) -> (r: (usize, usize, usize))
    requires
        k < LINE_COUNT,
    ensures
        (r.0 as int, r.1 as int, r.2 as int) == line(k as int),
{
    match k {
        0 => (0, 1, 2),
        1 => (3, 4, 5),
        2 => (6, 7, 8),
        3 => (0, 3, 6),
        4 => (1, 4, 7),
        5 => (2, 5, 8),
        6 => (0, 4, 8),
        _ => (2, 4, 6),
    }
}

/// The nine cells of a game, row by row; cell `i` (from 0) stands at
/// position `i + 1`.
pub struct Board {
    cells: [Cell; 9],
}

impl View for Board {
    type V = Seq<Mark>;

    /// The marks of the nine cells, row by row.
    closed spec fn view(&self) -> Seq<Mark> {
        Seq::new(9, |i: int| self.cells@[i].mark)
    }
}

/// A board always has nine cells.
pub broadcast proof fn lemma_board_len(b: Board)
    ensures
        #[trigger] b@.len() == 9,
{
}

impl Board {
    /// Each cell knows its own position.
    #[verifier::type_invariant]
    closed spec fn positions_match(&self) -> bool {
        forall|i: int| 0 <= i < 9 ==> #[trigger] self.cells@[i].position.number == i + 1
    }

    /// A board of nine empty cells.
    pub fn new() -> (r: Board)
        ensures
            r@ == empty_marks(),
    {
        let r = Board {
            cells: [
                Cell { mark: Mark::Empty, position: Position { number: 1 } },
                Cell { mark: Mark::Empty, position: Position { number: 2 } },
                Cell { mark: Mark::Empty, position: Position { number: 3 } },
                Cell { mark: Mark::Empty, position: Position { number: 4 } },
                Cell { mark: Mark::Empty, position: Position { number: 5 } },
                Cell { mark: Mark::Empty, position: Position { number: 6 } },
                Cell { mark: Mark::Empty, position: Position { number: 7 } },
                Cell { mark: Mark::Empty, position: Position { number: 8 } },
                Cell { mark: Mark::Empty, position: Position { number: 9 } },
            ],
        };
        assert(r@ =~= empty_marks());
        r
    }

    /// A board holding `marks`, row by row.
    pub fn from_marks(marks: [Mark; 9]) -> (r: Board)
        ensures
            r@ == marks@,
    {
        let r = Board {
            cells: [
                Cell { mark: marks[0], position: Position { number: 1 } },
                Cell { mark: marks[1], position: Position { number: 2 } },
                Cell { mark: marks[2], position: Position { number: 3 } },
                Cell { mark: marks[3], position: Position { number: 4 } },
                Cell { mark: marks[4], position: Position { number: 5 } },
                Cell { mark: marks[5], position: Position { number: 6 } },
                Cell { mark: marks[6], position: Position { number: 7 } },
                Cell { mark: marks[7], position: Position { number: 8 } },
                Cell { mark: marks[8], position: Position { number: 9 } },
            ],
        };
        assert(r@ =~= marks@);
        r
    }

    /// The cell at `position` (1 to 9, row by row).
    pub fn cell(&self, position: usize) -> (r: Cell)
        requires
            1 <= position <= 9,
        ensures
            r.mark == self@[position - 1],
            r.position.number == position,
    {
        proof {
            use_type_invariant(self);
        }
        self.cells[position - 1]
    }

    /// Puts `mark` on the cell at `position` (1 to 9); the other cells keep
    /// theirs.
    pub(crate) fn put(&mut self, position: usize, mark: Mark)
        requires
            1 <= position <= 9,
        ensures
            final(self)@ == old(self)@.update(position - 1, mark),
    {
        proof {
            use_type_invariant(&*self);
        }
        let cell = Cell { mark, position: Position { number: position } };
        self.cells[position - 1] = cell;
        assert(self@ =~= old(self)@.update(position - 1, mark));
    }

    /// Whether no cell is empty.
    pub fn is_full(&self) -> (r: bool)
        ensures
            r == is_full_board(self@),
    {
        let mut i: usize = 0;
        while i < 9
            invariant
                i <= 9,
                forall|j: int| 0 <= j < i ==> self@[j] != Mark::Empty,
            decreases 9 - i,
        {
            if self.cells[i].mark == Mark::Empty {
                assert(self@[i as int] == Mark::Empty);
                return false;
            }
            i += 1;
        }
        true
    }

    /// The mark of the first line, in the order of `line`, that one player
    /// fills; `Empty` where there is none.
    pub fn winner(&self) -> (r: Mark)
        ensures
            r == winner_of(self@),
    {
        let mut k: usize = 0;
        while k < LINE_COUNT
            invariant
                k <= LINE_COUNT,
                winner_of(self@) == first_winner_from(self@, k as int),
            decreases LINE_COUNT - k,
        {
            let (a, b, c) = line_cells(k);
            let m = self.cells[a].mark;
            if m != Mark::Empty && m == self.cells[b].mark && m == self.cells[c].mark {
                return m;
            }
            k += 1;
        }
        Mark::Empty
    }

    /// The outcome of the board: won by the owner of the first uniform line,
    /// else drawn when the board is full, else still in play.
    pub fn evaluate_outcome(&self) -> (r: PlayingStatus)
        ensures
            r == outcome_of(self@),
    {
        let w = self.winner();
        if w != Mark::Empty {
            PlayingStatus::Won(w)
        } else if self.is_full() {
            PlayingStatus::Draw
        } else {
            PlayingStatus::Playing
        }
    }
}


/// Whether cell `i` lies on winning line `k`.
pub open spec fn on_line(k: int, i: int) -> bool {
    i == line(k).0 || i == line(k).1 || i == line(k).2
}

/// Where no line from `k` on is uniform, none of them names a winner.
proof fn lemma_no_uniform_from(marks: Seq<Mark>, k: int)
    requires
        forall|j: int| k <= j < 8 ==> !#[trigger] is_uniform_line(marks, j),
    ensures
        first_winner_from(marks, k) == Mark::Empty,
    decreases 8 - k,
{
    if 0 <= k < 8 {
        lemma_no_uniform_from(marks, k + 1);
    }
}

/// A board whose only marks fill one winning line with the mark of one player
/// is won by that player.
pub proof fn lemma_single_line_wins(b: Board, k: int, m: Mark)
    requires
        0 <= k < 8,
        m != Mark::Empty,
        forall|i: int| 0 <= i < 9 ==> b@[i] == (if on_line(k, i) { m } else { Mark::Empty }),
    ensures
        outcome_of(b@) == PlayingStatus::Won(m),
{
    let s = b@;
    assert(s[0] == (if on_line(k, 0) { m } else { Mark::Empty }));
    assert(s[1] == (if on_line(k, 1) { m } else { Mark::Empty }));
    assert(s[2] == (if on_line(k, 2) { m } else { Mark::Empty }));
    assert(s[3] == (if on_line(k, 3) { m } else { Mark::Empty }));
    assert(s[4] == (if on_line(k, 4) { m } else { Mark::Empty }));
    assert(s[5] == (if on_line(k, 5) { m } else { Mark::Empty }));
    assert(s[6] == (if on_line(k, 6) { m } else { Mark::Empty }));
    assert(s[7] == (if on_line(k, 7) { m } else { Mark::Empty }));
    assert(s[8] == (if on_line(k, 8) { m } else { Mark::Empty }));
    reveal_with_fuel(first_winner_from, 9);
}

/// A full board on which no line is uniform is a draw.
pub proof fn lemma_full_without_line_draws(b: Board)
    requires
        is_full_board(b@),
        forall|k: int| 0 <= k < 8 ==> !#[trigger] is_uniform_line(b@, k),
    ensures
        outcome_of(b@) == PlayingStatus::Draw,
{
    lemma_no_uniform_from(b@, 0);
}

/// A board with an empty cell on which no line is uniform is still in play.
pub proof fn lemma_open_without_line_plays(b: Board)
    requires
        !is_full_board(b@),
        forall|k: int| 0 <= k < 8 ==> !#[trigger] is_uniform_line(b@, k),
    ensures
        outcome_of(b@) == PlayingStatus::Playing,
{
    lemma_no_uniform_from(b@, 0);
}

} // verus!
