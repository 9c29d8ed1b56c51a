//! Tile grid and cell coordinates.
use vstd::prelude::*;

verus! {

/// The kind of one tile of the level's structure layer.
#[derive(Debug, Clone, Copy, PartialEq, Eq, Structural)]
pub enum Cell {
    Ground,
    EmptyUnderground,
    EmptyOverground,
}

/// One of the four axis directions of the grid; `Up` decreases the row.
#[derive(Debug, Clone, Copy, PartialEq, Eq, Structural)]
pub enum Dir {
    Up,
    Left,
    Down,
    Right,
}

pub open spec fn dx(d: Dir) -> int {
    match d {
        Dir::Left => -1,
        Dir::Right => 1,
        _ => 0,
    }
}

pub open spec fn dy(d: Dir) -> int {
    match d {
        Dir::Up => -1,
        Dir::Down => 1,
        _ => 0,
    }
}

pub open spec fn opposite(d: Dir) -> Dir {
    match d {
        Dir::Up => Dir::Down,
        Dir::Left => Dir::Right,
        Dir::Down => Dir::Up,
        Dir::Right => Dir::Left,
    }
}

impl Dir {
    pub fn opposite(self) -> (r: Dir)
        ensures
            r == opposite(self),
    {
        match self {
            Dir::Up => Dir::Down,
            Dir::Left => Dir::Right,
            Dir::Down => Dir::Up,
            Dir::Right => Dir::Left,
        }
    }
}

/// A rectangular tile grid stored row by row, the top row first.
#[derive(Debug, Clone)]
pub struct Grid {
    pub cells: Vec<Cell>,
    pub width: usize,
    pub height: usize,
}

pub open spec fn in_bounds(g: Grid, x: int, y: int) -> bool {
    0 <= x < g.width && 0 <= y < g.height
}

pub open spec fn cell(g: Grid, x: int, y: int) -> Cell {
    g.cells@[x + y * g.width]
}

/// Open space: an underground empty tile, the only kind that gets a background node.
pub open spec fn is_open(g: Grid, x: int, y: int) -> bool {
    in_bounds(g, x, y) && cell(g, x, y) == Cell::EmptyUnderground
}

impl Grid {
    /// Holds the cells of exactly `width * height` tiles, with room for five node ids per tile.
    pub open spec fn wf(self) -> bool {
        &&& self.cells@.len() == self.width * self.height
        &&& 5 * self.width * self.height <= usize::MAX
    }
}

pub proof fn lemma_index_in_bounds(w: int, h: int, x: int, y: int)
    requires
        0 <= x < w,
        0 <= y < h,
    ensures
        0 <= x + y * w < w * h,
{
    assert(0 <= y * w) by (nonlinear_arith)
        requires
            0 <= y,
            0 <= w,
    ;
    assert(y * w + w <= w * h) by (nonlinear_arith)
        requires
            y < h,
            0 <= w,
    ;
}

pub proof fn lemma_area_fits(g: Grid)
    requires
        g.wf(),
    ensures
        g.width * g.height <= usize::MAX,
{
    assert(g.width * g.height <= 5 * g.width * g.height) by (nonlinear_arith);
}

/// Kind of the tile at `(x, y)`.
pub fn cell_at(g: &Grid, x: usize, y: usize) -> (r: Cell)
    requires
        g.wf(),
        x < g.width,
        y < g.height,
    ensures
        r == cell(*g, x as int, y as int),
{
    proof {
        lemma_index_in_bounds(g.width as int, g.height as int, x as int, y as int);
        lemma_area_fits(*g);
    }
    g.cells[x + y * g.width]
}

/// A position on the grid, with the grid's dimensions.
#[derive(Debug, Clone, Copy)]
pub struct Index2d {
    pub x: usize,
    pub y: usize,
    pub grid_width: usize,
    pub grid_height: usize,
}

impl Index2d {
    pub open spec fn wf(self) -> bool {
        self.x < self.grid_width && self.y < self.grid_height
    }

    /// The position of the `i`-th tile in row order.
    pub fn new(i: usize, grid_width: usize, grid_height: usize) -> (r: Index2d)
        requires
            i < grid_width * grid_height,
        ensures
            r.wf(),
            r.grid_width == grid_width,
            r.grid_height == grid_height,
            r.x + r.y * grid_width == i,
    {
        proof {
            assert(grid_width > 0) by (nonlinear_arith)
                requires
                    i < grid_width * grid_height,
                    0 <= i,
            ;
            vstd::arithmetic::div_mod::lemma_fundamental_div_mod(i as int, grid_width as int);
            vstd::arithmetic::div_mod::lemma_div_pos_is_pos(i as int, grid_width as int);
            vstd::arithmetic::div_mod::lemma_remainder(i as int, grid_width as int);
            let q = i as int / grid_width as int;
            assert(q < grid_height) by (nonlinear_arith)
                requires
                    i == grid_width * q + i as int % grid_width as int,
                    0 <= i as int % grid_width as int,
                    i < grid_width * grid_height,
                    grid_width > 0,
            ;
            assert(q * grid_width == grid_width * q) by (nonlinear_arith);
        }
        Index2d {
            x: i % grid_width,
            y: i / grid_width,
            grid_width,
            grid_height,
        }
    }

    /// The row-order index of this position.
    pub fn i(&self) -> (r: usize)
        requires
            self.wf(),
            self.grid_width * self.grid_height <= usize::MAX,
        ensures
            r == self.x + self.y * self.grid_width,
            r < self.grid_width * self.grid_height,
    {
        proof {
            lemma_index_in_bounds(
                self.grid_width as int,
                self.grid_height as int,
                self.x as int,
                self.y as int,
            );
        }
        self.x + self.y * self.grid_width
    }

    /// The neighbouring position in direction `d`, if it lies on the grid.
    pub fn step(&self, d: Dir) -> (r: Option<Index2d>)
        requires
            self.wf(),
        ensures
            match r {
                Some(n) => {
                    &&& n.wf()
                    &&& n.grid_width == self.grid_width
                    &&& n.grid_height == self.grid_height
                    &&& n.x == self.x + dx(d)
                    &&& n.y == self.y + dy(d)
                },
                None => !(0 <= self.x + dx(d) < self.grid_width && 0 <= self.y + dy(d)
                    < self.grid_height),
            },
    {
        match d {
            Dir::Up => self.up(),
            Dir::Left => self.left(),
            Dir::Down => self.down(),
            Dir::Right => self.right(),
        }
    }

    pub fn up(&self) -> (r: Option<Index2d>)
        requires
            self.wf(),
        ensures
            r == (if self.y == 0 {
                None
            } else {
                Some(Index2d { y: (self.y - 1) as usize, ..*self })
            }),
    {
        if self.y == 0 {
            return None;
        }
        Some(Index2d { x: self.x, y: self.y - 1, grid_width: self.grid_width, grid_height: self.grid_height })
    }

    pub fn left(&self) -> (r: Option<Index2d>)
        requires
            self.wf(),
        ensures
            r == (if self.x == 0 {
                None
            } else {
                Some(Index2d { x: (self.x - 1) as usize, ..*self })
            }),
    {
        if self.x == 0 {
            return None;
        }
        Some(Index2d { x: self.x - 1, y: self.y, grid_width: self.grid_width, grid_height: self.grid_height })
    }

    pub fn down(&self) -> (r: Option<Index2d>)
        requires
            self.wf(),
        ensures
            r == (if self.y + 1 == self.grid_height {
                None
            } else {
                Some(Index2d { y: (self.y + 1) as usize, ..*self })
            }),
    {
        if self.y + 1 == self.grid_height {
            return None;
        }
        Some(Index2d { x: self.x, y: self.y + 1, grid_width: self.grid_width, grid_height: self.grid_height })
    }

    pub fn right(&self) -> (r: Option<Index2d>)
        requires
            self.wf(),
        ensures
            r == (if self.x + 1 == self.grid_width {
                None
            } else {
                Some(Index2d { x: (self.x + 1) as usize, ..*self })
            }),
    {
        if self.x + 1 == self.grid_width {
            return None;
        }
        Some(Index2d { x: self.x + 1, y: self.y, grid_width: self.grid_width, grid_height: self.grid_height })
    }
}

/// Whether `p` names a tile of the grid that is open space.
pub fn exists_and_is_empty(g: &Grid, p: Option<Index2d>) -> (r: bool)
    requires
        g.wf(),
        p matches Some(q) ==> q.wf() && q.grid_width == g.width && q.grid_height == g.height,
    ensures
        r == match p {
            Some(q) => is_open(*g, q.x as int, q.y as int),
            None => false,
        },
{
    match p {
        Some(q) => cell_at(g, q.x, q.y) == Cell::EmptyUnderground,
        None => false,
    }
}

} // verus!
