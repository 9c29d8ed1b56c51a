//! Lookup from grid positions to the nodes of the navigation graph.
use vstd::prelude::*;

use crate::grid::lemma_index_in_bounds;
use crate::nav_mesh::NodeId;

verus! {

/// The edge nodes that a tile owns, by direction.
#[derive(Debug, Clone, Copy, PartialEq, Eq, Structural)]
pub struct TileEdges {
    pub up: Option<NodeId>,
    pub left: Option<NodeId>,
    pub down: Option<NodeId>,
    pub right: Option<NodeId>,
}

/// Per-tile tables built with the graph: the background node of tile `i` has id `5 * i`.
#[derive(Debug, Clone)]
pub struct NavMeshLUT {
    /// Edge nodes of each tile, in row order from the top row.
    pub grid_edges: Vec<TileEdges>,
    /// Whether each tile is open space.
    pub grid_is_empty: Vec<bool>,
    /// Number of tiles in a row.
    pub grid_width: usize,
    /// Number of rows.
    pub grid_height: usize,
}

impl NavMeshLUT {
    /// One entry per tile, and room for five node ids per tile.
    pub open spec fn wf(self) -> bool {
        &&& self.grid_edges@.len() == self.grid_width * self.grid_height
        &&& self.grid_is_empty@.len() == self.grid_width * self.grid_height
        &&& 5 * self.grid_width * self.grid_height <= usize::MAX
    }

    /// Background node and index of the open tile in column `x` and row `y` (from the top
    /// row); `None` outside the grid or on a tile that is not open.
    pub fn get_tile_entity(&self, x: usize, y: usize) -> (r: Option<(NodeId, usize)>)
        requires
            self.wf(),
        ensures
            r == (if x < self.grid_width && y < self.grid_height && self.grid_is_empty@[x + y
                * self.grid_width] {
                Some(((5 * (x + y * self.grid_width)) as NodeId, (x + y * self.grid_width) as usize))
            } else {
                None
            }),
    {
        if x >= self.grid_width || y >= self.grid_height {
            return None;
        }
        proof {
            lemma_index_in_bounds(self.grid_width as int, self.grid_height as int, x as int, y as int);
            assert(5 * (x + y * self.grid_width) < 5 * (self.grid_width * self.grid_height))
                by (nonlinear_arith)
                requires
                    x + y * self.grid_width < self.grid_width * self.grid_height,
            ;
            assert(5 * (self.grid_width * self.grid_height) == 5 * self.grid_width * self.grid_height)
                by (nonlinear_arith);
        }
        let index = x + y * self.grid_width;
        if !self.grid_is_empty[index] {
            return None;
        }
        Some((5 * index, index))
    }

    /// Node and index of the tile at `index = x + y * grid_width`, if that index lies on
    /// the grid.
    pub fn get_tile_entity_grid(&self, x: usize, y: usize) -> (r: Option<(NodeId, usize)>)
        requires
            self.wf(),
        ensures
            r == (if x + y * self.grid_width < self.grid_width * self.grid_height {
                Some(((5 * (x + y * self.grid_width)) as NodeId, (x + y * self.grid_width) as usize))
            } else {
                None
            }),
    {
        let n = self.grid_edges.len();
        let index = match y.checked_mul(self.grid_width) {
            Some(row) => match row.checked_add(x) {
                Some(i) => i,
                None => return None,
            },
            None => {
                proof {
                    assert(y * self.grid_width >= 0) by (nonlinear_arith)
                        requires
                            y >= 0,
                            self.grid_width >= 0,
                    ;
                }
                return None;
            },
        };
        if index >= n {
            return None;
        }
        proof {
            assert(5 * index < 5 * (self.grid_width * self.grid_height)) by (nonlinear_arith)
                requires
                    index < self.grid_width * self.grid_height,
            ;
            assert(5 * (self.grid_width * self.grid_height) == 5 * self.grid_width * self.grid_height)
                by (nonlinear_arith);
        }
        Some((5 * index, index))
    }

    /// The edge nodes of tile `tile_index`.
    pub fn get_tile_edges(&self, tile_index: usize) -> (r: TileEdges)
        requires
            self.wf(),
            tile_index < self.grid_width * self.grid_height,
        ensures
            r == self.grid_edges@[tile_index as int],
    {
        self.grid_edges[tile_index]
    }
}

} // verus!
