use grid_tactics::board::{move_character, validate_move, Board, EMPTY_SPACE};
use grid_tactics::character::Character;
use grid_tactics::coordinates::Coordinates;
use grid_tactics::error::GameError;
use grid_tactics::render::get_board;

fn soldier() -> Character {
    Character::new("soldier".to_string(), "S".to_string(), 3, 5).unwrap()
}

fn board_with_soldier() -> (Board, usize) {
    let mut b = Board::new(3, Character::empty_space());
    let id = b.place(&Coordinates { row: 0, col: 0 }, soldier()).unwrap();
    (b, id)
}

fn cells_of(b: &Board) -> Vec<Option<usize>> {
    let mut v = Vec::new();
    for row in 0..3 {
        for col in 0..3 {
            v.push(b.unit_at(&Coordinates { row, col }));
        }
    }
    v
}

#[test]
fn validate_row_out_of_range() {
    let (b, _) = board_with_soldier();
    assert_eq!(validate_move(&Coordinates { row: 3, col: 0 }, &b), Err(GameError::RowOutOfRange));
}

#[test]
fn validate_col_out_of_range() {
    let (b, _) = board_with_soldier();
    assert_eq!(validate_move(&Coordinates { row: 0, col: 5 }, &b), Err(GameError::ColOutOfRange));
    assert_eq!(validate_move(&Coordinates { row: 9, col: 9 }, &b), Err(GameError::RowOutOfRange));
    assert_eq!(validate_move(&Coordinates { row: 2, col: 2 }, &b), Ok(()));
}

#[test]
fn move_swaps_unit_and_sentinel() {
    let (mut b, id) = board_with_soldier();
    let before = get_board(&b);
    assert_eq!(move_character("A1", "B1", &mut b), Ok(()));
    assert_eq!(b.unit_at(&Coordinates { row: 0, col: 1 }), Some(id));
    assert_eq!(b.unit_at(&Coordinates { row: 0, col: 0 }), Some(EMPTY_SPACE));
    let after = get_board(&b);
    let lines_before: Vec<&str> = before.lines().collect();
    let lines_after: Vec<&str> = after.lines().collect();
    assert_eq!(lines_before.len(), lines_after.len());
    let mut diffs = Vec::new();
    for (i, (x, y)) in lines_before.iter().zip(lines_after.iter()).enumerate() {
        for (j, (cx, cy)) in x.chars().zip(y.chars()).enumerate() {
            if cx != cy {
                diffs.push((i, j));
            }
        }
    }
    assert_eq!(diffs, vec![(3, 5), (3, 15)]);
}

#[test]
fn move_errors_leave_board_unchanged() {
    let (mut b, _) = board_with_soldier();
    let start = cells_of(&b);
    assert_eq!(move_character("9A", "B1", &mut b), Err(GameError::InvalidColumn));
    assert_eq!(move_character("A1", "Bx", &mut b), Err(GameError::InvalidRow));
    assert_eq!(move_character("A1", "A4", &mut b), Err(GameError::RowOutOfRange));
    assert_eq!(move_character("A1", "D1", &mut b), Err(GameError::ColOutOfRange));
    assert_eq!(move_character("D1", "A1", &mut b), Err(GameError::ColOutOfRange));
    assert_eq!(cells_of(&b), start);
}

#[test]
fn move_onto_itself_keeps_unit() {
    let (mut b, id) = board_with_soldier();
    assert_eq!(move_character("A1", "a1", &mut b), Ok(()));
    assert_eq!(b.unit_at(&Coordinates { row: 0, col: 0 }), Some(id));
}

#[test]
fn move_empty_cell_moves_sentinel() {
    let (mut b, id) = board_with_soldier();
    assert_eq!(move_character("C3", "A1", &mut b), Ok(()));
    assert_eq!(b.unit_at(&Coordinates { row: 0, col: 0 }), Some(EMPTY_SPACE));
    assert_eq!(b.unit_at(&Coordinates { row: 2, col: 2 }), Some(EMPTY_SPACE));
    assert_ne!(id, EMPTY_SPACE);
}

#[test]
fn place_out_of_range_fails() {
    let (mut b, _) = board_with_soldier();
    assert_eq!(b.place(&Coordinates { row: 0, col: 3 }, soldier()), Err(GameError::ColOutOfRange));
    assert_eq!(b.unit_at(&Coordinates { row: 0, col: 3 }), None);
}

#[test]
fn glyph_must_be_one_character() {
    assert_eq!(
        Character::new("x".to_string(), "ab".to_string(), 0, 0).err(),
        Some(GameError::CatalogLoadFailure)
    );
    assert_eq!(
        Character::new("x".to_string(), "".to_string(), 0, 0).err(),
        Some(GameError::CatalogLoadFailure)
    );
    let c = Character::new("x".to_string(), "é".to_string(), 1, 2).unwrap();
    assert_eq!((c.display_char.as_str(), c.def, c.att), ("é", 1, 2));
}

#[test]
fn render_twice_is_identical() {
    let (b, _) = board_with_soldier();
    assert_eq!(get_board(&b), get_board(&b));
}

#[test]
fn render_single_cell_board() {
    let mut b = Board::new(1, Character::empty_space());
    b.place(&Coordinates { row: 0, col: 0 }, soldier()).unwrap();
    let want = "###########\n\
                #         #\n\
                #         #\n\
                #    S    #\n\
                #         #\n\
                #         #\n\
                ###########\n";
    assert_eq!(get_board(&b), want);
}

#[test]
fn render_three_by_three_size() {
    let (b, _) = board_with_soldier();
    let f = get_board(&b);
    let lines: Vec<&str> = f.lines().collect();
    assert_eq!(lines.len(), 19);
    assert!(lines.iter().all(|l| l.chars().count() == 31));
    assert_eq!(lines[0], "#".repeat(31));
    assert_eq!(lines[3].chars().nth(5), Some('S'));
    assert_eq!(lines[3].chars().nth(15), Some(' '));
    assert_eq!(lines[6], "#".repeat(31));
}

#[test]
fn render_empty_board() {
    let b = Board::new(0, Character::empty_space());
    assert_eq!(get_board(&b), "#\n");
}
