use grid_tactics::board::{Board, EMPTY_SPACE};
use grid_tactics::character::Character;
use grid_tactics::coordinates::Coordinates;
use grid_tactics::error::GameError;
use grid_tactics::render::get_board;
use grid_tactics::session::{pick_signal, LoopState, Reaction, Session, Signal};

fn session() -> (Session, usize) {
    let mut b = Board::new(3, Character::empty_space());
    let s = Character::new("soldier".to_string(), "S".to_string(), 3, 5).unwrap();
    let id = b.place(&Coordinates { row: 0, col: 0 }, s).unwrap();
    (Session::new(b), id)
}

#[test]
fn tick_renders_then_moves() {
    let (mut s, id) = session();
    let before = get_board(&s.board);
    match s.handle(Signal::Tick, "A1 to B1\n") {
        Reaction::Frame { frame, outcome } => {
            assert_eq!(frame, before);
            assert_eq!(outcome, Ok(()));
        }
        _ => panic!("expected a frame"),
    }
    assert_eq!(s.board.unit_at(&Coordinates { row: 0, col: 1 }), Some(id));
    assert_eq!(s.state, LoopState::Running);
}

#[test]
fn tick_with_bad_line_changes_nothing() {
    let (mut s, id) = session();
    match s.handle(Signal::Tick, "A1 B1") {
        Reaction::Frame { outcome, .. } => assert_eq!(outcome, Err(GameError::MalformedCommand)),
        _ => panic!("expected a frame"),
    }
    assert_eq!(s.board.unit_at(&Coordinates { row: 0, col: 0 }), Some(id));
}

#[test]
fn cancel_terminates_and_freezes_board() {
    let (mut s, id) = session();
    assert!(matches!(s.handle(Signal::Cancel, "A1 to B1"), Reaction::Farewell));
    assert_eq!(s.state, LoopState::Terminated);
    assert!(matches!(s.handle(Signal::Tick, "A1 to B1"), Reaction::Halted));
    assert!(matches!(s.handle(Signal::Cancel, ""), Reaction::Halted));
    assert_eq!(s.board.unit_at(&Coordinates { row: 0, col: 0 }), Some(id));
    assert_eq!(s.board.unit_at(&Coordinates { row: 0, col: 1 }), Some(EMPTY_SPACE));
    assert_eq!(s.state, LoopState::Terminated);
}

#[test]
fn cancellation_wins_ties() {
    assert_eq!(pick_signal(true, true), Some(Signal::Cancel));
    assert_eq!(pick_signal(true, false), Some(Signal::Cancel));
    assert_eq!(pick_signal(false, true), Some(Signal::Tick));
    assert_eq!(pick_signal(false, false), None);
}
