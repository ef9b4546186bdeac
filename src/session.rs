use vstd::prelude::*;
use crate::board::{move_cells, move_character, unit_result, Board, BoardView};
use crate::command::{command_words, parse_commands};
use crate::error::GameError;
use crate::render::{frame, get_board};

verus! {

#[derive(Clone, Copy, Debug, PartialEq, Eq, Structural)]
pub enum LoopState {
    Running,
    Terminated,
}

/// The two notifications the loop races on after each line of input.
#[derive(Clone, Copy, Debug, PartialEq, Eq, Structural)]
pub enum Signal {
    Cancel,
    Tick,
}

/// What the driver must do after handing one signal to the session.
pub enum Reaction {
    /// Print the farewell line and stop.
    Farewell,
    /// Print `frame`; `outcome` reports what the pending command did.
    Frame { frame: String, outcome: Result<(), GameError> },
    /// The session has ended: nothing to do.
    Halted,
}

/// The board together with the state of the loop that owns it.
pub struct Session {
    pub state: LoopState,
    pub board: Board,
}

pub struct SessionView {
    pub state: LoopState,
    pub board: BoardView,
}

impl View for Session {
    type V = SessionView;

    open spec fn view(&self) -> SessionView {
        SessionView { state: self.state, board: self.board@ }
    }
}

/// What one command line does to a board: the new cells, or the error met.
pub open spec fn command_effect(b: BoardView, line: Seq<char>) -> Result<Seq<usize>, GameError> {
    match command_words(line) {
        Err(e) => Err(e),
        Ok(ws) => move_cells(b, ws[0], ws[2]),
    }
}

/// The session after one signal, with `line` the line read before it.
pub open spec fn step(s: SessionView, signal: Signal, line: Seq<char>) -> SessionView {
    match s.state {
        LoopState::Terminated => s,
        LoopState::Running => match signal {
            Signal::Cancel => SessionView { state: LoopState::Terminated, board: s.board },
            Signal::Tick => match command_effect(s.board, line) {
                Ok(cells) => SessionView { board: BoardView { cells, ..s.board }, ..s },
                Err(_) => s,
            },
        },
    }
}

/// The session after a sequence of (signal, line) events, in order.
pub open spec fn run(s: SessionView, events: Seq<(Signal, Seq<char>)>) -> SessionView
    decreases events.len(),
{
    if events.len() == 0 {
        s
    } else {
        run(step(s, events[0].0, events[0].1), events.drop_first())
    }
}

/// Once the session has ended, no event changes it.
pub proof fn lemma_terminated_is_final(s: SessionView, events: Seq<(Signal, Seq<char>)>)
    requires
        s.state == LoopState::Terminated,
    ensures
        run(s, events) == s,
    decreases events.len(),
{
    if events.len() > 0 {
        lemma_terminated_is_final(step(s, events[0].0, events[0].1), events.drop_first());
    }
}

/// After a cancellation the loop has ended, and whatever events follow, the
/// board stays as it was when the cancellation came.
pub proof fn lemma_cancel_freezes_board(
    s: SessionView,
    line: Seq<char>,
    events: Seq<(Signal, Seq<char>)>,
)
    ensures
        run(step(s, Signal::Cancel, line), events) == (SessionView {
            state: LoopState::Terminated,
            board: s.board,
        }),
{
    lemma_terminated_is_final(step(s, Signal::Cancel, line), events);
}

/// Which ready signal is serviced: a pending cancellation always wins over a tick.
pub fn pick_signal(cancel_ready: bool, tick_ready: bool) -> (r: Option<Signal>)
    ensures
        r == if cancel_ready {
            Some(Signal::Cancel)
        } else if tick_ready {
            Some(Signal::Tick)
        } else {
            None::<Signal>
        },
{
    if cancel_ready {
        Some(Signal::Cancel)
    } else if tick_ready {
        Some(Signal::Tick)
    } else {
        None
    }
}

impl Session {
    pub open spec fn wf(&self) -> bool {
        self.board.wf()
    }

    /// A running session over `board`.
    pub fn new(board: Board) -> (r: Session)
        requires
            board.wf(),
        ensures
            r.wf(),
            r.state == LoopState::Running,
            r.board == board,
    {
        Session { state: LoopState::Running, board }
    }

    /// Handles one signal; `line` is the line of input read before it. A tick
    /// renders the board as it stands, then applies the line's command.
    pub fn handle(&mut self, signal: Signal, line: &str) -> (r: Reaction)
        requires
            old(self).wf(),
        ensures
            final(self).wf(),
            final(self)@ == step(old(self)@, signal, line@),
            old(self).state == LoopState::Terminated ==> r is Halted,
            old(self).state == LoopState::Running && signal == Signal::Cancel ==> r is Farewell,
            old(self).state == LoopState::Running && signal == Signal::Tick ==> (r matches Reaction::Frame {
                frame: f,
                outcome,
            } && f@ == frame(old(self).board@) && outcome == unit_result(
                command_effect(old(self).board@, line@),
            )),
    {
        match self.state {
            LoopState::Terminated => Reaction::Halted,
            LoopState::Running => match signal {
                Signal::Cancel => {
                    self.state = LoopState::Terminated;
                    Reaction::Farewell
                },
                Signal::Tick => {
                    let f = get_board(&self.board);
                    let outcome = match parse_commands(line) {
                        Err(e) => Err(e),
                        Ok(commands) => move_character(
                            commands[0].as_str(),
                            commands[2].as_str(),
                            &mut self.board,
                        ),
                    };
                    Reaction::Frame { frame: f, outcome }
                },
            },
        }
    }
}

} // verus!
