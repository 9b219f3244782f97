use vstd::prelude::*;

verus! {

/// Number of rows (and of columns) of the board.
pub const SIDE: u8 = 3;

/// A position on the board: row `x`, column `y`.
#[derive(Clone, Copy, Debug, PartialEq, Eq, Structural)]
pub struct Coordinates {
    pub x: u8,
    pub y: u8,
}

impl Coordinates {
    /// Both coordinates lie in `0..3`.
    pub open spec fn valid(self) -> bool {
        self.x < 3 && self.y < 3
    }

    /// Row-major position of the cell on a board of nine cells.
    pub open spec fn spec_index(self) -> int {
        self.x * 3 + self.y
    }

    pub fn new(x: u8, y: u8) -> (r: Self)
        ensures
            r.x == x,
            r.y == y,
    {
        Self { x, y }
    }

    /// Whether the position lies on the board.
    pub fn is_valid(&self) -> (r: bool)
        ensures
            r == self.valid(),
    {
        self.x < SIDE && self.y < SIDE
    }

    pub fn index(&self) -> (r: usize)
        requires
            self.valid(),
        ensures
            r == self.spec_index(),
            r < 9,
    {
        (self.x * SIDE + self.y) as usize
    }
}

/// What a cell shows: who holds it, if anyone, and the mark drawn there.
pub struct CellView {
    pub owner: Option<Seq<char>>,
    pub sign: Seq<char>,
}

impl CellView {
    pub open spec fn empty() -> CellView {
        CellView { owner: None, sign: Seq::empty() }
    }
}

/// The identity held in an optional player name, as characters.
pub open spec fn owner_of(p: Option<String>) -> Option<Seq<char>> {
    match p {
        Some(s) => Some(s@),
        None => None,
    }
}

/// One square of the board.
#[derive(Clone, Debug, PartialEq, Eq)]
pub struct Cell {
    pub coordinates: Coordinates,
    pub player: Option<String>,
    pub sign: String,
}

impl View for Cell {
    type V = CellView;

    open spec fn view(&self) -> CellView {
        CellView { owner: owner_of(self.player), sign: self.sign@ }
    }
}

impl Cell {
    pub fn new(coordinates: Coordinates) -> (r: Self)
        ensures
            r.coordinates == coordinates,
            r@ == CellView::empty(),
    {
        Self { coordinates, player: None, sign: String::new() }
    }

    /// The same square with its occupant and mark cleared.
    pub fn restart(&self) -> (r: Self)
        ensures
            r.coordinates == self.coordinates,
            r@ == CellView::empty(),
    {
        Self::new(self.coordinates)
    }

    /// Whether nobody holds this square.
    pub fn is_free(&self) -> (r: bool)
        ensures
            r == (self@.owner is None),
    {
        self.player.is_none()
    }

    /// A copy with the same position, occupant and mark.
    pub fn duplicate(&self) -> (r: Self)
        ensures
            r.coordinates == self.coordinates,
            r@ == self@,
    {
        let player = match &self.player {
            Some(p) => Some(p.clone()),
            None => None,
        };
        Self { coordinates: self.coordinates, player, sign: self.sign.clone() }
    }
}

} // verus!
