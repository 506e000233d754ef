use tic_tac_toe::{
    Board, Command, Game, GameEvent, GameStatus, GameStatusEvent, Mark, MarkEvent, PlayingStatus,
    Position, Round, Turn,
};
use tic_tac_toe::Mark::{Empty, O, X};

const LINES: [[usize; 3]; 8] = [
    [0, 1, 2],
    [3, 4, 5],
    [6, 7, 8],
    [0, 3, 6],
    [1, 4, 7],
    [2, 5, 8],
    [0, 4, 8],
    [2, 4, 6],
];

fn marks_of(board: &Board) -> [Mark; 9] {
    let mut out = [Mark::Empty; 9];
    for p in 1..=9 {
        out[p - 1] = board.cell(p).mark;
    }
    out
}

fn board_with_line(line: [usize; 3], m: Mark) -> Board {
    let mut marks = [Mark::Empty; 9];
    for i in line {
        marks[i] = m;
    }
    Board::from_marks(marks)
}

fn play(round: &mut Round, positions: &[usize]) {
    for &p in positions {
        assert!(round.attempt_mark(p).is_some(), "mark at {} refused", p);
    }
    round.update_status();
}

#[test]
fn every_line_of_x_wins() {
    for line in LINES {
        let b = board_with_line(line, Mark::X);
        assert_eq!(b.evaluate_outcome(), PlayingStatus::Won(Mark::X));
        assert_eq!(b.winner(), Mark::X);
    }
}

#[test]
fn every_line_of_o_wins() {
    for line in LINES {
        let b = board_with_line(line, Mark::O);
        assert_eq!(b.evaluate_outcome(), PlayingStatus::Won(Mark::O));
        assert_eq!(b.winner(), Mark::O);
    }
}

#[test]
fn empty_top_row_does_not_hide_a_lower_line() {
    let b = board_with_line([3, 4, 5], Mark::X);
    assert_eq!(b.winner(), Mark::X);
    let b = board_with_line([2, 4, 6], Mark::O);
    assert_eq!(b.winner(), Mark::O);
}

#[test]
fn full_board_without_line_is_a_draw() {
    let b = Board::from_marks([X, O, X, O, O, X, X, X, O]);
    assert!(b.is_full());
    assert_eq!(b.winner(), Mark::Empty);
    assert_eq!(b.evaluate_outcome(), PlayingStatus::Draw);
}

#[test]
fn open_board_without_line_is_in_play() {
    let b = Board::from_marks([X, O, X, Empty, O, Empty, O, X, Empty]);
    assert!(!b.is_full());
    assert_eq!(b.evaluate_outcome(), PlayingStatus::Playing);
    assert_eq!(Board::new().evaluate_outcome(), PlayingStatus::Playing);
}

#[test]
fn first_line_in_order_wins_a_tie() {
    // top row of O and bottom row of X: rows are checked from the top
    let b = Board::from_marks([O, O, O, Empty, Empty, Empty, X, X, X]);
    assert_eq!(b.evaluate_outcome(), PlayingStatus::Won(Mark::O));
    // columns are checked from the left
    let b = Board::from_marks([X, Empty, O, X, Empty, O, X, Empty, O]);
    assert_eq!(b.winner(), Mark::X);
    let b = Board::from_marks([Empty, O, X, Empty, O, X, Empty, O, X]);
    assert_eq!(b.winner(), Mark::O);
}

#[test]
fn new_board_is_empty_with_positions() {
    let b = Board::new();
    for p in 1..=9 {
        let c = b.cell(p);
        assert_eq!(c.mark, Mark::Empty);
        assert_eq!(c.position, Position { number: p });
    }
    assert!(!b.is_full());
}

#[test]
fn turn_alternates() {
    let mut t = Turn::X;
    t.next();
    assert_eq!(t, Turn::O);
    t.next();
    assert_eq!(t, Turn::X);
}

#[test]
fn mark_follows_turn() {
    let mut m = Mark::Empty;
    m.set_from_turn(&Turn::O);
    assert_eq!(m, Mark::O);
    m.set_from_turn(&Turn::X);
    assert_eq!(m, Mark::X);
}

#[test]
fn accepted_mark_flips_turn_and_changes_one_cell() {
    let mut r = Round::new();
    r.attempt_mark(5).unwrap();
    let before = marks_of(&r.board);
    let turn_before = r.turn;
    let e = r.attempt_mark(7);
    assert_eq!(
        e,
        Some(MarkEvent { mark: Mark::O, position: Position { number: 6 } })
    );
    assert_eq!(turn_before, Turn::O);
    assert_eq!(r.turn, Turn::X);
    let after = marks_of(&r.board);
    for i in 0..9 {
        if i == 6 {
            assert_eq!(after[i], Mark::O);
        } else {
            assert_eq!(after[i], before[i]);
        }
    }
    assert_eq!(r.status, PlayingStatus::Playing);
}

#[test]
fn mark_on_taken_cell_changes_nothing() {
    let mut r = Round::new();
    r.attempt_mark(1).unwrap();
    let before = marks_of(&r.board);
    assert_eq!(r.attempt_mark(1), None);
    assert_eq!(marks_of(&r.board), before);
    assert_eq!(r.turn, Turn::O);
    assert_eq!(r.status, PlayingStatus::Playing);
}

#[test]
fn mark_out_of_range_changes_nothing() {
    let mut r = Round::new();
    assert_eq!(r.attempt_mark(0), None);
    assert_eq!(r.attempt_mark(10), None);
    assert_eq!(marks_of(&r.board), [Mark::Empty; 9]);
    assert_eq!(r.turn, Turn::X);
}

#[test]
fn mark_after_the_round_ended_changes_nothing() {
    let mut r = Round::new();
    play(&mut r, &[1, 5, 2, 6, 3]);
    assert_eq!(r.status, PlayingStatus::Won(Mark::X));
    let before = marks_of(&r.board);
    assert_eq!(r.attempt_mark(9), None);
    assert_eq!(marks_of(&r.board), before);
    assert_eq!(r.turn, Turn::O);
    assert_eq!(r.status, PlayingStatus::Won(Mark::X));

    let mut d = Round {
        board: Board::new(),
        turn: Turn::X,
        status: PlayingStatus::Draw,
    };
    assert_eq!(d.attempt_mark(1), None);
    assert_eq!(marks_of(&d.board), [Mark::Empty; 9]);
}

#[test]
fn reset_after_marks_starts_over() {
    let mut r = Round::new();
    play(&mut r, &[1, 5, 2, 6, 3]);
    r.reset();
    assert_eq!(marks_of(&r.board), [Mark::Empty; 9]);
    assert_eq!(r.turn, Turn::X);
    assert_eq!(r.status, PlayingStatus::Playing);
}

#[test]
fn top_row_wins_for_x() {
    let mut r = Round::new();
    play(&mut r, &[1, 5, 2, 6, 3]);
    assert_eq!(r.status, PlayingStatus::Won(Mark::X));
    assert_eq!(r.status_text(), "X won");
}

#[test]
fn full_board_in_given_order_is_a_draw() {
    let mut r = Round::new();
    for p in [1, 2, 3, 4, 6, 5, 7, 9, 8] {
        assert!(r.attempt_mark(p).is_some());
        r.update_status();
        if p != 8 {
            assert_eq!(r.status, PlayingStatus::Playing);
        }
    }
    assert_eq!(r.status, PlayingStatus::Draw);
    assert_eq!(r.status_text(), "Draw");
}

#[test]
fn won_round_stays_won() {
    let mut r = Round {
        board: Board::from_marks([O, O, O, Empty, Empty, Empty, Empty, Empty, Empty]),
        turn: Turn::X,
        status: PlayingStatus::Won(Mark::X),
    };
    r.update_status();
    assert_eq!(r.status, PlayingStatus::Won(Mark::X));
}

#[test]
fn status_text_names_the_state() {
    let mut r = Round::new();
    assert_eq!(r.status_text(), "X");
    r.attempt_mark(1);
    assert_eq!(r.status_text(), "O");
    r.status = PlayingStatus::Won(Mark::O);
    assert_eq!(r.status_text(), "O won");
    r.status = PlayingStatus::Draw;
    assert_eq!(r.status_text(), "Draw");
}

#[test]
fn menu_play_menu_play_gives_a_fresh_round() {
    let mut g = Game::new();
    assert_eq!(g.mode, GameStatus::Menu);
    assert!(g.handle_event(GameStatusEvent::Playing));
    for p in [1, 5, 2, 6, 3] {
        g.apply(Command::Mark(p));
    }
    g.settle();
    assert_eq!(g.round.status, PlayingStatus::Won(Mark::X));
    assert!(g.handle_event(GameStatusEvent::Menu));
    assert!(g.handle_event(GameStatusEvent::Playing));
    assert_eq!(g.mode, GameStatus::Playing);
    assert_eq!(marks_of(&g.round.board), [Mark::Empty; 9]);
    assert_eq!(g.round.turn, Turn::X);
    assert_eq!(g.round.status, PlayingStatus::Playing);
}

#[test]
fn request_for_the_shown_screen_is_ignored() {
    let mut g = Game::new();
    assert!(!g.handle_event(GameStatusEvent::Menu));
    assert_eq!(g.mode, GameStatus::Menu);
    assert!(g.handle_event(GameStatusEvent::Playing));
    g.apply(Command::Mark(4));
    assert!(!g.handle_event(GameStatusEvent::Playing));
    assert_eq!(g.round.board.cell(4).mark, Mark::X);
    assert_eq!(g.round.turn, Turn::O);
}

#[test]
fn marks_are_ignored_on_the_menu() {
    let mut g = Game::new();
    assert_eq!(g.apply(Command::Mark(5)), None);
    assert_eq!(marks_of(&g.round.board), [Mark::Empty; 9]);
    assert_eq!(g.settle(), None);
}

#[test]
fn leaving_play_discards_the_round() {
    let mut g = Game::new();
    g.handle_event(GameStatusEvent::Playing);
    g.apply(Command::Mark(2));
    assert_eq!(
        g.apply(Command::Switch(GameStatusEvent::Menu)),
        Some(GameEvent::ModeChanged(GameStatus::Menu))
    );
    assert_eq!(g.mode, GameStatus::Menu);
    assert_eq!(marks_of(&g.round.board), [Mark::Empty; 9]);
    assert_eq!(g.round.turn, Turn::X);
    assert_eq!(g.round.status, PlayingStatus::Playing);
}

#[test]
fn leaving_a_won_round_resets_status_and_turn() {
    let mut g = Game::new();
    g.handle_event(GameStatusEvent::Playing);
    let cmds: Vec<Command> = [1, 5, 2, 6, 3].iter().map(|&p| Command::Mark(p)).collect();
    g.tick(&cmds);
    assert_eq!(g.round.status, PlayingStatus::Won(Mark::X));
    assert_eq!(g.round.turn, Turn::O);
    assert!(g.handle_event(GameStatusEvent::Menu));
    assert_eq!(g.round.status, PlayingStatus::Playing);
    assert_eq!(g.round.turn, Turn::X);
    assert_eq!(marks_of(&g.round.board), [Mark::Empty; 9]);
}

#[test]
fn tick_reports_in_order() {
    let mut g = Game::new();
    let cmds = vec![
        Command::Mark(1),
        Command::Switch(GameStatusEvent::Playing),
        Command::Switch(GameStatusEvent::Playing),
        Command::Mark(1),
        Command::Mark(5),
        Command::Mark(1),
        Command::Mark(2),
        Command::Mark(6),
        Command::Mark(3),
    ];
    let told = g.tick(&cmds);
    let mark = |m: Mark, n: usize| {
        GameEvent::MarkPlaced(MarkEvent {
            mark: m,
            position: Position { number: n },
        })
    };
    assert_eq!(
        told,
        vec![
            GameEvent::ModeChanged(GameStatus::Playing),
            mark(Mark::X, 0),
            mark(Mark::O, 4),
            mark(Mark::X, 1),
            mark(Mark::O, 5),
            mark(Mark::X, 2),
            GameEvent::OutcomeChanged(PlayingStatus::Won(Mark::X)),
        ]
    );
    assert_eq!(g.round.status_text(), "X won");
    assert_eq!(g.tick(&vec![Command::Mark(9)]), vec![]);
}

#[test]
fn tick_without_change_reports_nothing() {
    let mut g = Game::new();
    assert_eq!(g.tick(&vec![]), vec![]);
    g.handle_event(GameStatusEvent::Playing);
    assert_eq!(g.tick(&vec![]), vec![]);
    assert_eq!(g.round.status, PlayingStatus::Playing);
}
