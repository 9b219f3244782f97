use vstd::prelude::*;

use crate::cell::{Cell, CellView, Coordinates};

verus! {

/// Number of cells on the board.
pub const CELLS: usize = 9;

/// Number of winning lines: three rows, three columns, two diagonals.
pub const LINES: usize = 8;

/// The three cells of winning line `l` (`0..3` rows, `3..6` columns,
/// `6` the main diagonal, `7` the anti-diagonal), in row-major indices.
pub open spec fn line(l: int) -> (int, int, int) {
    if 0 <= l < 3 {
        (3 * l, 3 * l + 1, 3 * l + 2)
    } else if 3 <= l < 6 {
        (l - 3, l, l + 3)
    } else if l == 6 {
        (0, 4, 8)
    } else {
        (2, 4, 6)
    }
}

/// Cell `i` lies on line `l`.
pub open spec fn on_line(l: int, i: int) -> bool {
    let (a, b, c) = line(l);
    i == a || i == b || i == c
}

/// All three cells of line `l` are held by `p`.
pub open spec fn line_held_by(cells: Seq<CellView>, l: int, p: Seq<char>) -> bool {
    let (a, b, c) = line(l);
    &&& cells[a].owner == Some(p)
    &&& cells[b].owner == Some(p)
    &&& cells[c].owner == Some(p)
}

/// Some line through cell `i` is held entirely by the occupant of `i`.
pub open spec fn wins_through(cells: Seq<CellView>, i: int) -> bool {
    &&& cells[i].owner is Some
    &&& exists|l: int|
        0 <= l < 8 && on_line(l, i) && #[trigger] line_held_by(cells, l, cells[i].owner->0)
}

/// Some row, column or diagonal is held entirely by one identity.
pub open spec fn has_full_line(cells: Seq<CellView>) -> bool {
    exists|l: int, p: Seq<char>| 0 <= l < 8 && #[trigger] line_held_by(cells, l, p)
}

/// On a board where no line was full, once cell `i` is taken, some line through
/// `i` is held by its new occupant exactly when some row, column or diagonal of
/// the board is held entirely by one identity.
pub proof fn lemma_win_check_complete(cells: Seq<CellView>, i: int, p: Seq<char>, sign: Seq<char>)
    requires
        cells.len() == 9,
        0 <= i < 9,
        !has_full_line(cells),
    ensures
        wins_through(cells.update(i, CellView { owner: Some(p), sign }), i) <==> has_full_line(
            cells.update(i, CellView { owner: Some(p), sign }),
        ),
{
    let after = cells.update(i, CellView { owner: Some(p), sign });
    if wins_through(after, i) {
        let l = choose|l: int|
            0 <= l < 8 && on_line(l, i) && #[trigger] line_held_by(after, l, after[i].owner->0);
        assert(line_held_by(after, l, p));
    }
    if has_full_line(after) {
        let (l, q) = choose|l: int, q: Seq<char>| 0 <= l < 8 && #[trigger] line_held_by(after, l, q);
        if !on_line(l, i) {
            assert(line_held_by(cells, l, q));
        }
        assert(on_line(l, i));
        assert(q == p);
        assert(line_held_by(after, l, after[i].owner->0));
    }
}

/// A board of nine cells, none of them held and none of them marked.
pub open spec fn fresh_cells() -> Seq<CellView> {
    Seq::new(9, |i: int| CellView::empty())
}

/// A fresh board holds no full line.
pub proof fn lemma_fresh_board_has_no_full_line()
    ensures
        !has_full_line(fresh_cells()),
{
    if has_full_line(fresh_cells()) {
        let (l, p) = choose|l: int, p: Seq<char>|
            0 <= l < 8 && #[trigger] line_held_by(fresh_cells(), l, p);
        let (a, b, c) = line(l);
        assert(fresh_cells()[a].owner is None);
    }
}

/// The lines that pass through `index`.
fn lines_through(index: usize) -> (r: Vec<usize>)
    requires
        index < CELLS,
    ensures
        forall|k: int| 0 <= k < r@.len() ==> r@[k] < LINES && on_line(r@[k] as int, index as int),
        forall|l: int|
            0 <= l < 8 && on_line(l, index as int) ==> exists|k: int|
                0 <= k < r@.len() && r@[k] == l,
{
    let r: Vec<usize> = if index == 0 {
        vec![0, 3, 6]
    } else if index == 1 {
        vec![0, 4]
    } else if index == 2 {
        vec![0, 5, 7]
    } else if index == 3 {
        vec![1, 3]
    } else if index == 4 {
        vec![1, 4, 6, 7]
    } else if index == 5 {
        vec![1, 5]
    } else if index == 6 {
        vec![2, 3, 7]
    } else if index == 7 {
        vec![2, 4]
    } else {
        vec![2, 5, 6]
    };
    proof {
        assert forall|l: int| 0 <= l < 8 && on_line(l, index as int) implies exists|k: int|
            0 <= k < r@.len() && r@[k] == l by {
            if r@.len() == 2 {
                assert(r@[0] == l || r@[1] == l);
            } else if r@.len() == 3 {
                assert(r@[0] == l || r@[1] == l || r@[2] == l);
            } else {
                assert(r@[0] == l || r@[1] == l || r@[2] == l || r@[3] == l);
            }
        }
    }
    r
}

/// The cells of line `l`, as indices.
fn line_cells(l: usize) -> (r: (usize, usize, usize))
    requires
        l < LINES,
    ensures
        r.0 as int == line(l as int).0,
        r.1 as int == line(l as int).1,
        r.2 as int == line(l as int).2,
        r.0 < CELLS && r.1 < CELLS && r.2 < CELLS,
{
    if l < 3 {
        (3 * l, 3 * l + 1, 3 * l + 2)
    } else if l < 6 {
        (l - 3, l, l + 3)
    } else if l == 6 {
        (0, 4, 8)
    } else {
        (2, 4, 6)
    }
}


/// First piece of the drawing, before the rows.
pub const BOARD_TOP: &'static str = "-------------\n        ";

/// Opens each row of the drawing.
pub const ROW_OPEN: &'static str = "||";

/// Comes before the mark of each cell.
pub const CELL_OPEN: &'static str = " ";

/// Comes after the mark of each cell.
pub const CELL_CLOSE: &'static str = " |";

/// Closes each row of the drawing.
pub const ROW_CLOSE: &'static str = "|";

/// Rule drawn under each row.
pub const ROW_RULE: &'static str = "--------------\n            ";

/// How one cell is drawn: its mark between a space and a bar.
pub open spec fn cell_text(c: CellView) -> Seq<char> {
    CELL_OPEN@ + c.sign + CELL_CLOSE@
}

/// How row `r` of the board is drawn.
pub open spec fn row_text(cells: Seq<CellView>, r: int) -> Seq<char> {
    ROW_OPEN@ + cell_text(cells[3 * r]) + cell_text(cells[3 * r + 1]) + cell_text(
        cells[3 * r + 2],
    ) + ROW_CLOSE@ + ROW_RULE@
}

/// The top of the drawing followed by its first `n` rows.
pub open spec fn rows_text(cells: Seq<CellView>, n: nat) -> Seq<char>
    decreases n,
{
    if n == 0 {
        BOARD_TOP@
    } else {
        rows_text(cells, (n - 1) as nat) + row_text(cells, n - 1)
    }
}

/// The full drawing of a board.
pub open spec fn drawing(cells: Seq<CellView>) -> Seq<char> {
    rows_text(cells, 3)
}

/// Whether `cell` is held by `p`.
fn held_by(cell: &Cell, p: &String) -> (r: bool)
    ensures
        r == (cell@.owner == Some(p@)),
{
    match &cell.player {
        Some(q) => *q == *p,
        None => false,
    }
}

/// Appends the drawing of one cell.
fn append_cell(s: &mut String, c: &Cell)
    ensures
        final(s)@ == old(s)@ + cell_text(c@),
{
    s.append(CELL_OPEN);
    s.append(c.sign.as_str());
    s.append(CELL_CLOSE);
    assert(final(s)@ =~= old(s)@ + cell_text(c@));
}

/// The nine cells of a tic-tac-toe board, in row-major order.
#[derive(Clone, Debug, PartialEq, Eq)]
pub struct Board {
    pub cells: Vec<Cell>,
}

impl View for Board {
    type V = Seq<CellView>;

    open spec fn view(&self) -> Seq<CellView> {
        self.cells@.map_values(|c: Cell| c@)
    }
}

impl Board {
    /// Nine cells, cell `i` standing at the position whose row-major index is `i`.
    pub open spec fn wf(&self) -> bool {
        &&& self.cells@.len() == 9
        &&& forall|i: int|
            0 <= i < 9 ==> (#[trigger] self.cells@[i]).coordinates.valid()
                && self.cells@[i].coordinates.spec_index() == i
    }

    /// Whether the board is well formed.
    pub fn is_wf(&self) -> (r: bool)
        ensures
            r == self.wf(),
    {
        if self.cells.len() != CELLS {
            return false;
        }
        let mut i: usize = 0;
        while i < CELLS
            invariant
                self.cells@.len() == 9,
                i <= 9,
                forall|k: int|
                    0 <= k < i ==> (#[trigger] self.cells@[k]).coordinates.valid()
                        && self.cells@[k].coordinates.spec_index() == k,
            decreases 9 - i,
        {
            let c = self.cells[i].coordinates;
            if !c.is_valid() || c.index() != i {
                return false;
            }
            i = i + 1;
        }
        true
    }

    pub fn new() -> (r: Self)
        ensures
            r.wf(),
            r@ == fresh_cells(),
    {
        let mut cells: Vec<Cell> = Vec::new();
        let mut i: u8 = 0;
        while i < 3
            invariant
                i <= 3,
                cells@.len() == 3 * i,
                forall|k: int|
                    0 <= k < cells@.len() ==> (#[trigger] cells@[k]).coordinates.valid()
                        && cells@[k].coordinates.spec_index() == k && cells@[k]@
                        == CellView::empty(),
            decreases 3 - i,
        {
            let mut j: u8 = 0;
            while j < 3
                invariant
                    i < 3,
                    j <= 3,
                    cells@.len() == 3 * i + j,
                    forall|k: int|
                        0 <= k < cells@.len() ==> (#[trigger] cells@[k]).coordinates.valid()
                            && cells@[k].coordinates.spec_index() == k && cells@[k]@
                            == CellView::empty(),
                decreases 3 - j,
            {
                cells.push(Cell::new(Coordinates { x: i, y: j }));
                j = j + 1;
            }
            i = i + 1;
        }
        let r = Self { cells };
        assert(r@ =~= fresh_cells());
        r
    }

    /// Gives the cell at `coordinates` to `player` with mark `sign`, if nobody
    /// holds it yet; says whether it did.
    pub fn occupy_cell(&mut self, player: String, coordinates: Coordinates, sign: String) -> (r:
        bool)
        requires
            old(self).wf(),
            coordinates.valid(),
        ensures
            final(self).wf(),
            r == (old(self)@[coordinates.spec_index()].owner is None),
            r ==> final(self)@ == old(self)@.update(
                coordinates.spec_index(),
                CellView { owner: Some(player@), sign: sign@ },
            ),
            !r ==> *final(self) == *old(self),
    {
        let index = coordinates.index();
        if self.cells[index].is_free() {
            let cell = Cell {
                coordinates: self.cells[index].coordinates,
                player: Some(player),
                sign,
            };
            self.cells.set(index, cell);
            assert(self@ =~= old(self)@.update(
                coordinates.spec_index(),
                CellView { owner: Some(player@), sign: sign@ },
            ));
            true
        } else {
            false
        }
    }

    /// Whether the occupant of the cell at `coordinates` holds a whole line
    /// through that cell. Only the lines through that cell are looked at.
    pub fn check_for_win(&self, coordinates: Coordinates) -> (r: bool)
        requires
            self.wf(),
            coordinates.valid(),
        ensures
            r == wins_through(self@, coordinates.spec_index()),
    {
        let index = coordinates.index();
        match &self.cells[index].player {
            None => false,
            Some(p) => {
                let lines = lines_through(index);
                let mut k: usize = 0;
                while k < lines.len()
                    invariant
                        self.wf(),
                        k <= lines@.len(),
                        index == coordinates.spec_index(),
                        index < 9,
                        self@[index as int].owner == Some(p@),
                        forall|m: int| 0 <= m < lines@.len() ==> lines@[m] < LINES && on_line(lines@[m] as int, index as int),
                        forall|l: int|
                            0 <= l < 8 && on_line(l, index as int) ==> exists|m: int|
                                0 <= m < lines@.len() && lines@[m] == l,
                        forall|m: int|
                            0 <= m < k ==> !line_held_by(self@, #[trigger] lines@[m] as int, p@),
                    decreases lines@.len() - k,
                {
                    let (a, b, c) = line_cells(lines[k]);
                    if held_by(&self.cells[a], p) && held_by(&self.cells[b], p) && held_by(
                        &self.cells[c],
                        p,
                    ) {
                        let ghost l = lines@[k as int] as int;
                        assert(0 <= l < 8 && on_line(l, index as int));
                        assert(line_held_by(self@, l, self@[index as int].owner->0));
                        return true;
                    }
                    k = k + 1;
                }
                proof {
                    assert forall|l: int|
                        0 <= l < 8 && on_line(l, index as int) implies !line_held_by(
                        self@,
                        l,
                        p@,
                    ) by {
                        let m = choose|m: int| 0 <= m < lines@.len() && lines@[m] == l;
                        assert(!line_held_by(self@, lines@[m] as int, p@));
                    }
                }
                false
            },
        }
    }

    /// The board as text: a rule on top, then each row as `||`, each cell's
    /// mark between a space and a bar, `|`, and a rule.
    pub fn draw_board(&self) -> (r: String)
        requires
            self.wf(),
        ensures
            r@ == drawing(self@),
    {
        let mut s = String::from_str(BOARD_TOP);
        let mut i: usize = 0;
        while i < 3
            invariant
                self.wf(),
                i <= 3,
                s@ == rows_text(self@, i as nat),
            decreases 3 - i,
        {
            let ghost before = s@;
            s.append(ROW_OPEN);
            append_cell(&mut s, &self.cells[3 * i]);
            append_cell(&mut s, &self.cells[3 * i + 1]);
            append_cell(&mut s, &self.cells[3 * i + 2]);
            s.append(ROW_CLOSE);
            s.append(ROW_RULE);
            assert(s@ =~= before + row_text(self@, i as int));
            i = i + 1;
        }
        s
    }

    /// A board with the same cells, all of them cleared.
    pub fn restart_board(&self) -> (r: Self)
        requires
            self.wf(),
        ensures
            r.wf(),
            r@ == fresh_cells(),
    {
        let mut cells: Vec<Cell> = Vec::new();
        let mut index: usize = 0;
        while index < self.cells.len()
            invariant
                self.wf(),
                index <= 9,
                cells@.len() == index,
                forall|k: int|
                    0 <= k < index ==> (#[trigger] cells@[k]).coordinates
                        == self.cells@[k].coordinates && cells@[k]@ == CellView::empty(),
            decreases 9 - index,
        {
            cells.push(self.cells[index].restart());
            index = index + 1;
        }
        let r = Self { cells };
        assert(r@ =~= fresh_cells());
        r
    }

    /// A copy of the board, cell for cell.
    pub fn duplicate(&self) -> (r: Self)
        requires
            self.wf(),
        ensures
            r.wf(),
            r@ == self@,
    {
        let mut cells: Vec<Cell> = Vec::new();
        let mut index: usize = 0;
        while index < self.cells.len()
            invariant
                self.wf(),
                index <= 9,
                cells@.len() == index,
                forall|k: int|
                    0 <= k < index ==> (#[trigger] cells@[k]).coordinates
                        == self.cells@[k].coordinates && cells@[k]@ == self.cells@[k]@,
            decreases 9 - index,
        {
            cells.push(self.cells[index].duplicate());
            index = index + 1;
        }
        let r = Self { cells };
        assert(r@ =~= self@);
        r
    }
}

} // verus!
