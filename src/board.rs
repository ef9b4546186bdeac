use vstd::prelude::*;
use crate::character::Character;
use crate::coordinates::{parse_coordinates, parse_label, Coordinates};
use crate::error::GameError;

verus! {

/// Roster index of the empty-space sentinel.
pub const EMPTY_SPACE: usize = 0;

/// A square grid of cells, each holding the roster index of the unit in it.
/// Index `EMPTY_SPACE` of the roster is the empty-space sentinel.
pub struct Board {
    pub size: usize,
    pub units: Vec<Character>,
    pub spaces: Vec<usize>,
}

/// Mathematical picture of a board: side length, roster, and the cells in row-major order.
pub struct BoardView {
    pub size: nat,
    pub units: Seq<Character>,
    pub cells: Seq<usize>,
}

impl View for Board {
    type V = BoardView;

    open spec fn view(&self) -> BoardView {
        BoardView { size: self.size as nat, units: self.units@, cells: self.spaces@ }
    }
}

impl BoardView {
    /// Position of a cell in `cells`.
    pub open spec fn index(&self, c: Coordinates) -> int {
        c.row * self.size + c.col
    }

    pub open spec fn unit_at(&self, row: int, col: int) -> usize {
        self.cells[row * self.size + col]
    }

    pub open spec fn wf(&self) -> bool {
        &&& self.cells.len() == self.size * self.size
        &&& self.units.len() >= 1
        &&& forall|u: int| 0 <= u < self.units.len() ==> (#[trigger] self.units[u]).wf()
        &&& forall|p: int| 0 <= p < self.cells.len() ==> #[trigger] self.cells[p] < self.units.len()
        // a unit stands in at most one cell
        &&& forall|p: int, q: int|
            0 <= p < self.cells.len() && 0 <= q < self.cells.len() && #[trigger] self.cells[p]
                == #[trigger] self.cells[q] && self.cells[p] != EMPTY_SPACE ==> p == q
    }
}

/// The range check of a coordinate against a board of side `size`: rows first.
pub open spec fn range_check(c: Coordinates, size: nat) -> Result<(), GameError> {
    if c.row >= size {
        Err(GameError::RowOutOfRange)
    } else if c.col >= size {
        Err(GameError::ColOutOfRange)
    } else {
        Ok(())
    }
}

/// The cells after moving the unit at label `from` to label `to`, or the error met on the way.
pub open spec fn move_cells(b: BoardView, from: Seq<char>, to: Seq<char>) -> Result<
    Seq<usize>,
    GameError,
> {
    match parse_label(from) {
        Err(e) => Err(e),
        Ok(s) => match range_check(s, b.size) {
            Err(e) => Err(e),
            Ok(_) => match parse_label(to) {
                Err(e) => Err(e),
                Ok(t) => match range_check(t, b.size) {
                    Err(e) => Err(e),
                    Ok(_) => Ok(
                        b.cells.update(b.index(s), EMPTY_SPACE).update(
                            b.index(t),
                            b.cells[b.index(s)],
                        ),
                    ),
                },
            },
        },
    }
}

pub open spec fn unit_result(r: Result<Seq<usize>, GameError>) -> Result<(), GameError> {
    match r {
        Ok(_) => Ok(()),
        Err(e) => Err(e),
    }
}

/// Row-major position of an on-board cell in a grid of `len == size * size` cells.
pub(crate) fn cell_index(row: usize, col: usize, size: usize, len: usize) -> (r: usize)
    requires
        row < size,
        col < size,
        size * size == len,
    ensures
        r == row * size + col,
        r < len,
{
    assert(row * size + col < size * size) by (nonlinear_arith)
        requires
            row < size,
            col < size,
    ;
    row * size + col
}

impl Board {
    pub open spec fn wf(&self) -> bool {
        self@.wf()
    }

    /// A board of side `size` with every cell empty; `empty_space` is the sentinel.
    pub fn new(size: usize, empty_space: Character) -> (r: Board)
        requires
            size * size <= usize::MAX,
            empty_space.wf(),
        ensures
            r.wf(),
            r@.size == size,
            r@.units == seq![empty_space],
            r@.cells == Seq::new((size * size) as nat, |p: int| EMPTY_SPACE),
    {
        let n: usize = size * size;
        let mut spaces: Vec<usize> = Vec::new();
        while spaces.len() < n
            invariant
                spaces.len() <= n,
                forall|p: int| 0 <= p < spaces.len() ==> spaces@[p] == EMPTY_SPACE,
            decreases n - spaces.len(),
        {
            spaces.push(EMPTY_SPACE);
        }
        let mut units: Vec<Character> = Vec::new();
        units.push(empty_space);
        let r = Board { size, units, spaces };
        assert(r@.cells =~= Seq::new((size * size) as nat, |p: int| EMPTY_SPACE));
        assert(r@.units =~= seq![empty_space]);
        r
    }

    /// Puts a new unit on the board at `coordinates` and returns its roster index.
    pub fn place(&mut self, coordinates: &Coordinates, unit: Character) -> (r: Result<usize, GameError>)
        requires
            old(self).wf(),
            unit.wf(),
        ensures
            final(self).wf(),
            match range_check(*coordinates, old(self)@.size) {
                Err(e) => r == Err::<usize, GameError>(e) && *final(self) == *old(self),
                Ok(_) => {
                    &&& r == Ok::<usize, GameError>(old(self)@.units.len() as usize)
                    &&& final(self)@.size == old(self)@.size
                    &&& final(self)@.units == old(self)@.units.push(unit)
                    &&& final(self)@.cells == old(self)@.cells.update(
                        old(self)@.index(*coordinates),
                        old(self)@.units.len() as usize,
                    )
                },
            },
    {
        match validate_move(coordinates, self) {
            Err(e) => Err(e),
            Ok(()) => {
                let id = self.units.len();
                let p = cell_index(coordinates.row as usize, coordinates.col as usize, self.size, self.spaces.len());
                self.units.push(unit);
                self.spaces.set(p, id);
                Ok(id)
            },
        }
    }

    /// Roster index of the unit at `coordinates`, if the cell is on the board.
    pub fn unit_at(&self, coordinates: &Coordinates) -> (r: Option<usize>)
        requires
            self.wf(),
        ensures
            range_check(*coordinates, self@.size) is Ok ==> r == Some(
                self@.cells[self@.index(*coordinates)],
            ),
            range_check(*coordinates, self@.size) is Err ==> r is None,
    {
        match validate_move(coordinates, self) {
            Err(_) => None,
            Ok(()) => {
                Some(self.spaces[cell_index(coordinates.row as usize, coordinates.col as usize, self.size, self.spaces.len())])
            },
        }
    }
}

/// Checks that `coordinates` lies on the board: the row first, then the column.
pub fn validate_move(coordinates: &Coordinates, spaces_array: &Board) -> (r: Result<(), GameError>)
    ensures
        r == range_check(*coordinates, spaces_array@.size),
{
    if (coordinates.row as usize) < spaces_array.size {
    } else {
        return Err(GameError::RowOutOfRange);
    }
    if (coordinates.col as usize) < spaces_array.size {
    } else {
        return Err(GameError::ColOutOfRange);
    }
    Ok(())
}

/// Moves the unit at label `selected_name` to label `space_name`; the source
/// cell is left holding the empty-space sentinel. On error the board is unchanged.
pub fn move_character(selected_name: &str, space_name: &str, spaces_array: &mut Board) -> (r:
    Result<(), GameError>)
    requires
        old(spaces_array).wf(),
    ensures
        final(spaces_array).wf(),
        r == unit_result(move_cells(old(spaces_array)@, selected_name@, space_name@)),
        final(spaces_array)@.size == old(spaces_array)@.size,
        final(spaces_array)@.units == old(spaces_array)@.units,
        match move_cells(old(spaces_array)@, selected_name@, space_name@) {
            Ok(cells) => final(spaces_array)@.cells == cells,
            Err(_) => final(spaces_array)@.cells == old(spaces_array)@.cells,
        },
{
    let select_coordinates = parse_coordinates(selected_name)?;
    validate_move(&select_coordinates, spaces_array)?;
    let move_to_coordinates = parse_coordinates(space_name)?;
    validate_move(&move_to_coordinates, spaces_array)?;
    let ghost b = spaces_array@;
    let n = spaces_array.size;
    let s = cell_index(select_coordinates.row as usize, select_coordinates.col as usize, n, spaces_array.spaces.len());
    let t = cell_index(move_to_coordinates.row as usize, move_to_coordinates.col as usize, n, spaces_array.spaces.len());
    let selected_character = spaces_array.spaces[s];
    spaces_array.spaces.set(s, EMPTY_SPACE);
    spaces_array.spaces.set(t, selected_character);
    proof {
        let c = spaces_array@.cells;
        assert forall|p: int, q: int|
            0 <= p < c.len() && 0 <= q < c.len() && #[trigger] c[p] == #[trigger] c[q] && c[p]
                != EMPTY_SPACE implies p == q by {
            if p != t && q != t {
                assert(b.cells[p] == c[p] && b.cells[q] == c[q]);
            } else if p == t && q != t {
                assert(c[q] == b.cells[q] && q != s);
            } else if q == t && p != t {
                assert(c[p] == b.cells[p] && p != s);
            }
        }
    }
    Ok(())
}

} // verus!
