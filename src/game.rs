use vstd::prelude::*;
use crate::board::PlayingStatus;
use crate::round::{MarkEvent, Round, RoundModel, fresh_round, mark_step, status_step};

verus! {

/// The screen the game shows: the menu, or a round in play.
#[derive(Debug, Clone, Copy, PartialEq, Eq, Hash, Structural)]
pub enum GameStatus {
    Menu,
    Playing,
}

/// A request to switch to the named screen.
#[derive(Debug, Clone, Copy, PartialEq, Eq, Structural)]
pub enum GameStatusEvent {
    Menu,
    Playing,
}

/// One command from the player: switch screens, or mark the cell at a
/// position (1 to 9).
#[derive(Debug, Clone, Copy, PartialEq, Eq, Structural)]
pub enum Command {
    Switch(GameStatusEvent),
    Mark(usize),
}

/// What a display needs to hear of: a mark placed, a new outcome, a new
/// screen.
#[derive(Debug, Clone, Copy, PartialEq, Eq, Structural)]
pub enum GameEvent {
    MarkPlaced(MarkEvent),
    OutcomeChanged(PlayingStatus),
    ModeChanged(GameStatus),
}

/// A game session: the screen shown and the round that belongs to it.
pub struct Game {
    pub mode: GameStatus,
    pub round: Round,
}

/// What a game session is: its screen and its round.
pub struct GameModel {
    pub mode: GameStatus,
    pub round: RoundModel,
}

impl View for Game {
    type V = GameModel;

    open spec fn view(&self) -> GameModel {
        GameModel { mode: self.mode, round: self.round@ }
    }
}

/// The screen that `event` asks for.
pub open spec fn target(event: GameStatusEvent) -> GameStatus {
    match event {
        GameStatusEvent::Menu => GameStatus::Menu,
        GameStatusEvent::Playing => GameStatus::Playing,
    }
}

/// The session after `event`: a request for the screen already shown is
/// ignored; any real change of screen starts the round over, so entering
/// play begins a fresh round and going back to the menu discards the one
/// that was played.
pub open spec fn switch_step(g: GameModel, event: GameStatusEvent) -> (GameModel, Option<GameEvent>) {
    let to = target(event);
    if to == g.mode {
        (g, None)
    } else {
        (GameModel { mode: to, round: fresh_round() }, Some(GameEvent::ModeChanged(to)))
    }
}

/// The session after one command, and what it makes known. Marks count only
/// while a round is shown.
pub open spec fn command_step(g: GameModel, c: Command) -> (GameModel, Option<GameEvent>) {
    match c {
        Command::Switch(event) => switch_step(g, event),
        Command::Mark(position) => {
            if g.mode == GameStatus::Playing {
                let (r, placed) = mark_step(g.round, position as int);
                (
                    GameModel { mode: g.mode, round: r },
                    match placed {
                        Some(e) => Some(GameEvent::MarkPlaced(e)),
                        None => None,
                    },
                )
            } else {
                (g, None)
            }
        },
    }
}

/// The session after `cmds`, taken in order, and what they made known.
pub open spec fn commands_step(g: GameModel, cmds: Seq<Command>) -> (GameModel, Seq<GameEvent>)
    decreases cmds.len(),
{
    if cmds.len() == 0 {
        (g, Seq::empty())
    } else {
        let (g1, told) = commands_step(g, cmds.drop_last());
        let (g2, e) = command_step(g1, cmds.last());
        (
            g2,
            match e {
                Some(x) => told.push(x),
                None => told,
            },
        )
    }
}

/// The session with its outcome brought up to date while a round is shown,
/// and the new outcome where it changed.
pub open spec fn outcome_step(g: GameModel) -> (GameModel, Option<GameEvent>) {
    if g.mode == GameStatus::Playing {
        let r = status_step(g.round);
        (
            GameModel { mode: g.mode, round: r },
            if r.status != g.round.status {
                Some(GameEvent::OutcomeChanged(r.status))
            } else {
                None
            },
        )
    } else {
        (g, None)
    }
}

/// One tick: the commands in order, then the outcome.
pub open spec fn tick_step(g: GameModel, cmds: Seq<Command>) -> (GameModel, Seq<GameEvent>) {
    let (g1, told) = commands_step(g, cmds);
    let (g2, e) = outcome_step(g1);
    (
        g2,
        match e {
            Some(x) => told.push(x),
            None => told,
        },
    )
}

/// Going back to the menu and into play again, from any session in play,
/// gives a fresh round, however the last one ended.
pub proof fn lemma_reentered_play_is_fresh(g: GameModel)
    requires
        g.mode == GameStatus::Playing,
    ensures
        commands_step(
            g,
            seq![
                Command::Switch(GameStatusEvent::Menu),
                Command::Switch(GameStatusEvent::Playing),
            ],
        ).0 == (GameModel { mode: GameStatus::Playing, round: fresh_round() }),
{
    let cmds = seq![
        Command::Switch(GameStatusEvent::Menu),
        Command::Switch(GameStatusEvent::Playing),
    ];
    assert(cmds.drop_last() =~= seq![Command::Switch(GameStatusEvent::Menu)]);
    assert(cmds.drop_last().drop_last() =~= Seq::<Command>::empty());
    reveal_with_fuel(commands_step, 3);
}

/// Going back to the menu from any session in play discards the round: the
/// board is emptied, X is to move and the round counts as in play again,
/// however it had ended.
pub proof fn lemma_leaving_play_discards_round(g: GameModel)
    requires
        g.mode == GameStatus::Playing,
    ensures
        switch_step(g, GameStatusEvent::Menu).0 == (GameModel {
            mode: GameStatus::Menu,
            round: fresh_round(),
        }),
        switch_step(g, GameStatusEvent::Menu).1 == Some(GameEvent::ModeChanged(GameStatus::Menu)),
{
}

impl Game {
    /// A session on the menu, with a fresh round ready.
    pub fn new() -> (r: Game)
        ensures
            r@ == (GameModel { mode: GameStatus::Menu, round: fresh_round() }),
    {
        Game { mode: GameStatus::Menu, round: Round::new() }
    }

    /// Switches to the screen that `event` asks for, unless it is shown
    /// already; a real change of screen starts the round over. Returns whether the
    /// screen changed.
    pub fn handle_event(&mut self, event: GameStatusEvent) -> (changed: bool)
        ensures
            final(self)@ == switch_step(old(self)@, event).0,
            changed == switch_step(old(self)@, event).1 is Some,
    {
        let to = match event {
            GameStatusEvent::Menu => GameStatus::Menu,
            GameStatusEvent::Playing => GameStatus::Playing,
        };
        if to == self.mode {
            return false;
        }
        self.round.reset();
        self.mode = to;
        true
    }

    /// Carries out one command and returns what it makes known.
    pub fn apply(&mut self, c: Command) -> (r: Option<GameEvent>)
        ensures
            (final(self)@, r) == command_step(old(self)@, c),
    {
        match c {
            Command::Switch(event) => {
                if self.handle_event(event) {
                    Some(GameEvent::ModeChanged(self.mode))
                } else {
                    None
                }
            },
            Command::Mark(position) => {
                if self.mode == GameStatus::Playing {
                    match self.round.attempt_mark(position) {
                        Some(e) => Some(GameEvent::MarkPlaced(e)),
                        None => None,
                    }
                } else {
                    None
                }
            },
        }
    }

    /// Brings the outcome up to date while a round is shown; returns the new
    /// outcome where it changed.
    pub fn settle(&mut self) -> (r: Option<GameEvent>)
        ensures
            (final(self)@, r) == outcome_step(old(self)@),
    {
        if self.mode == GameStatus::Playing {
            let before = self.round.status;
            self.round.update_status();
            if self.round.status != before {
                Some(GameEvent::OutcomeChanged(self.round.status))
            } else {
                None
            }
        } else {
            None
        }
    }

    /// One tick of the game: carries out `cmds` in order, then brings the
    /// outcome up to date, and returns all that they made known, in order.
    pub fn tick(&mut self, cmds: &Vec<Command>) -> (told: Vec<GameEvent>)
        ensures
            (final(self)@, told@) == tick_step(old(self)@, cmds@),
    {
        let mut told: Vec<GameEvent> = Vec::new();
        let mut i: usize = 0;
        while i < cmds.len()
            invariant
                i <= cmds.len(),
                (self@, told@) == commands_step(old(self)@, cmds@.subrange(0, i as int)),
            decreases cmds.len() - i,
        {
            let e = self.apply(cmds[i]);
            proof {
                assert(cmds@.subrange(0, i + 1).drop_last() =~= cmds@.subrange(0, i as int));
            }
            match e {
                Some(x) => told.push(x),
                None => {},
            }
            i += 1;
        }
        proof {
            assert(cmds@.subrange(0, cmds@.len() as int) =~= cmds@);
        }
        match self.settle() {
            Some(x) => told.push(x),
            None => {},
        }
        told
    }
}

} // verus!
