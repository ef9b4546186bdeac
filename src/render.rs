use vstd::prelude::*;
use crate::board::{cell_index, move_cells, Board, BoardView, EMPTY_SPACE};
use crate::coordinates::parse_label;

verus! {

/// Rows of text in one cell, counting its top border.
pub const SPACE_HEIGHT: usize = 6;

/// Columns of text in one cell, counting its left border.
pub const SPACE_WIDTH: usize = 10;

pub open spec fn frame_height(b: BoardView) -> nat {
    b.size * 6 + 1
}

pub open spec fn frame_width(b: BoardView) -> nat {
    b.size * 10 + 1
}

/// The glyph of the unit in cell (`row`, `col`).
pub open spec fn glyph(b: BoardView, row: int, col: int) -> char {
    b.units[b.unit_at(row, col) as int].display_char@[0]
}

/// The character at line `i`, column `j` of the frame.
pub open spec fn frame_char(b: BoardView, i: int, j: int) -> char {
    if i % 6 == 0 || i == frame_height(b) - 1 {
        '#'
    } else if j % 10 == 0 || j == frame_width(b) - 1 {
        '#'
    } else if i % 6 == 3 && j % 10 == 5 {
        glyph(b, i / 6, j / 10)
    } else {
        ' '
    }
}

/// Line `i` of the frame, with its newline.
pub open spec fn frame_line(b: BoardView, i: int) -> Seq<char> {
    Seq::new(frame_width(b), |j: int| frame_char(b, i, j)).push('\n')
}

/// The first `k` lines of the frame.
pub open spec fn frame_lines(b: BoardView, k: nat) -> Seq<char>
    decreases k,
{
    if k == 0 {
        Seq::empty()
    } else {
        frame_lines(b, (k - 1) as nat) + frame_line(b, k - 1)
    }
}

/// The whole frame of a board.
pub open spec fn frame(b: BoardView) -> Seq<char> {
    frame_lines(b, frame_height(b))
}

/// Draws the board as a grid of `#` borders with each unit's glyph at the
/// centre of its cell.
pub fn get_board(spaces_array: &Board) -> (r: String)
    requires
        spaces_array.wf(),
    ensures
        r@ == frame(spaces_array@),
{
    let ghost b = spaces_array@;
    let n = spaces_array.size;
    let len = spaces_array.spaces.len();
    assert(n * 10 + 1 <= usize::MAX) by (nonlinear_arith)
        requires
            n * n == len,
            len <= usize::MAX,
            usize::MAX >= 0xffff_ffff,
    ;
    let board_space_height = SPACE_HEIGHT;
    let board_height = n * board_space_height + 1;
    let board_space_width = SPACE_WIDTH;
    let board_width = n * board_space_width + 1;
    let mut board = String::new();
    let mut i: usize = 0;
    while i < board_height
        invariant
            b == spaces_array@,
            b.wf(),
            n == b.size,
            len == b.cells.len(),
            board_height == frame_height(b),
            board_width == frame_width(b),
            board_space_height == 6,
            board_space_width == 10,
            i <= board_height,
            board@ == frame_lines(b, i as nat),
        decreases board_height - i,
    {
        let mut j: usize = 0;
        while j < board_width
            invariant
                b == spaces_array@,
                b.wf(),
                n == b.size,
                len == b.cells.len(),
                board_height == frame_height(b),
                board_width == frame_width(b),
                board_space_height == 6,
                board_space_width == 10,
                i < board_height,
                j <= board_width,
                board@ == frame_lines(b, i as nat) + Seq::new(j as nat, |jj: int| frame_char(b, i as int, jj)),
            decreases board_width - j,
        {
            let ghost prev = board@;
            let ghost want = frame_char(b, i as int, j as int);
            proof {
                reveal_strlit("#");
                reveal_strlit(" ");
                assert("#"@ =~= seq!['#']);
                assert(" "@ =~= seq![' ']);
            }
            if i % board_space_height == 0 || i == board_height - 1 {
                board.append("#");
            } else if j % board_space_width == 0 || j == board_width - 1 {
                board.append("#");
            } else if i % board_space_height == board_space_height / 2 && j % board_space_width
                == board_space_width / 2 {
                let row = i / board_space_height;
                let col = j / board_space_width;
                assert(row < n) by (nonlinear_arith)
                    requires
                        i < n * 6,
                        row == i / 6,
                ;
                assert(col < n) by (nonlinear_arith)
                    requires
                        j < n * 10,
                        col == j / 10,
                ;
                let id = spaces_array.spaces[cell_index(row, col, n, len)];
                assert(b.units[id as int].wf());
                board.append(spaces_array.units[id].display_char.as_str());
            } else {
                board.append(" ");
            }
            assert(board@ =~= prev.push(want));
            assert(board@ =~= frame_lines(b, i as nat) + Seq::new(
                (j + 1) as nat,
                |jj: int| frame_char(b, i as int, jj),
            ));
            j = j + 1;
        }
        let ghost prev = board@;
        proof {
            reveal_strlit("\n");
            assert("\n"@ =~= seq!['\n']);
        }
        board.append("\n");
        assert(board@ =~= prev.push('\n'));
        assert(frame_lines(b, (i + 1) as nat) == frame_lines(b, i as nat) + frame_line(b, i as int));
        assert(board@ =~= frame_lines(b, (i + 1) as nat));
        i = i + 1;
    }
    board
}


/// Rendering is a function of the board alone: the same board always gives the same frame.
pub proof fn lemma_render_is_pure(a: BoardView, b: BoardView)
    requires
        a == b,
    ensures
        frame(a) == frame(b),
{
}

/// A successful move redraws at most two spots of the frame: the centres of
/// the source and the target cells. Every other character stays as it was.
pub proof fn lemma_move_redraws_two_cells(b: BoardView, from: Seq<char>, to: Seq<char>, i: int, j: int)
    requires
        b.wf(),
        move_cells(b, from, to) is Ok,
        0 <= i < frame_height(b),
        0 <= j < frame_width(b),
        frame_char(b, i, j) != frame_char(
            BoardView { cells: move_cells(b, from, to)->Ok_0, ..b },
            i,
            j,
        ),
    ensures
        ({
            let s = parse_label(from)->Ok_0;
            let t = parse_label(to)->Ok_0;
            (i == s.row * 6 + 3 && j == s.col * 10 + 5) || (i == t.row * 6 + 3 && j == t.col * 10
                + 5)
        }),
{
    let s = parse_label(from)->Ok_0;
    let t = parse_label(to)->Ok_0;
    let a = BoardView { cells: move_cells(b, from, to)->Ok_0, ..b };
    let n = b.size;
    let r = i / 6;
    let c = j / 10;
    assert(i % 6 == 3 && j % 10 == 5);
    assert(r < n) by (nonlinear_arith)
        requires
            i < n * 6 + 1,
            i % 6 == 3,
            r == i / 6,
    ;
    assert(c < n) by (nonlinear_arith)
        requires
            j < n * 10 + 1,
            j % 10 == 5,
            c == j / 10,
    ;
    assert(0 <= r * n + c < n * n) by (nonlinear_arith)
        requires
            0 <= r < n,
            0 <= c < n,
    ;
    assert(b.unit_at(r, c) != a.unit_at(r, c));
    let p = r * n + c;
    assert(s.row < n && s.col < n && t.row < n && t.col < n);
    assert(0 <= s.row * n + s.col < n * n) by (nonlinear_arith)
        requires
            s.row < n,
            s.col < n,
    ;
    assert(0 <= t.row * n + t.col < n * n) by (nonlinear_arith)
        requires
            t.row < n,
            t.col < n,
    ;
    assert(a.cells == b.cells.update(b.index(s), EMPTY_SPACE).update(
        b.index(t),
        b.cells[b.index(s)],
    ));
    assert(p == b.index(s) || p == b.index(t)) by {
        if p != b.index(s) && p != b.index(t) {
            assert(a.cells[p] == b.cells[p]);
        }
    }
    assert(i == r * 6 + 3 && j == c * 10 + 5);
    if p == b.index(s) {
        lemma_same_cell(r, c, s.row as int, s.col as int, n as int);
    } else {
        lemma_same_cell(r, c, t.row as int, t.col as int, n as int);
    }
}

proof fn lemma_same_cell(r: int, c: int, r2: int, c2: int, n: int)
    requires
        0 <= c < n,
        0 <= c2 < n,
        0 <= r,
        0 <= r2,
        r * n + c == r2 * n + c2,
    ensures
        r == r2,
        c == c2,
{
    assert(r == r2) by (nonlinear_arith)
        requires
            0 <= c < n,
            0 <= c2 < n,
            0 <= r,
            0 <= r2,
            r * n + c == r2 * n + c2,
    ;
}

} // verus!
