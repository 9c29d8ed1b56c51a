//! The navigation graph: one background node per open tile and one edge node per wall surface.
use vstd::prelude::*;

use crate::grid::{
    cell, cell_at, dx, dy, exists_and_is_empty, in_bounds, is_open, lemma_area_fits,
    lemma_index_in_bounds, opposite, Cell, Dir, Grid, Index2d,
};
use crate::nav_mesh_lut::{NavMeshLUT, TileEdges};

verus! {

/// Identifier of a graph node: an index into [`NavMesh::nodes`].
pub type NodeId = usize;

/// How a wall surface meets the next one.
#[derive(Debug, Clone, Copy, PartialEq, Eq, Structural)]
pub enum EdgeNeighborKind {
    /// The wall continues in the same direction.
    Straight,
    /// Concave corner: both walls bound the same tile.
    Inward,
    /// Convex corner: the wall turns around the tip of a solid tile.
    Outward,
}

/// A lateral link of a horizontal wall surface, with its classification.
#[derive(Debug, Clone, Copy, PartialEq, Eq, Structural)]
pub enum EdgeNeighbor {
    Straight(NodeId),
    Inward(NodeId),
    Outward(NodeId),
    Absent,
}

impl EdgeNeighbor {
    pub open spec fn target(self) -> Option<NodeId> {
        match self {
            EdgeNeighbor::Straight(e) => Some(e),
            EdgeNeighbor::Inward(e) => Some(e),
            EdgeNeighbor::Outward(e) => Some(e),
            EdgeNeighbor::Absent => None,
        }
    }

    /// The linked node, if any.
    pub fn get(&self) -> (r: Option<NodeId>)
        ensures
            r == self.target(),
    {
        match self {
            EdgeNeighbor::Straight(e) => Some(*e),
            EdgeNeighbor::Inward(e) => Some(*e),
            EdgeNeighbor::Outward(e) => Some(*e),
            EdgeNeighbor::Absent => None,
        }
    }
}

pub open spec fn edge_neighbor(k: EdgeNeighborKind, e: NodeId) -> EdgeNeighbor {
    match k {
        EdgeNeighborKind::Straight => EdgeNeighbor::Straight(e),
        EdgeNeighborKind::Inward => EdgeNeighbor::Inward(e),
        EdgeNeighborKind::Outward => EdgeNeighbor::Outward(e),
    }
}

/// A node of the navigation graph with the ids of the nodes it is linked to.
#[derive(Debug, Clone, Copy, PartialEq, Eq, Structural)]
pub enum NavNode {
    /// Open space inside a tile.
    Background { up: NodeId, left: NodeId, down: NodeId, right: NodeId },
    /// A wall surface facing left or right.
    VerticalEdge {
        up: NodeId,
        up_kind: EdgeNeighborKind,
        down: NodeId,
        down_kind: EdgeNeighborKind,
        back: NodeId,
        is_left_side: bool,
    },
    /// A floor or ceiling surface; a surface edge over solid ground has no `back`.
    HorizontalEdge { left: EdgeNeighbor, right: EdgeNeighbor, back: Option<NodeId>, is_up_side: bool },
}

impl NavNode {
    /// The ids that diffusion spreads to, in the order up, left, down, right, back.
    pub open spec fn neighbor_ids(self) -> Seq<NodeId> {
        match self {
            NavNode::Background { up, left, down, right } => seq![up, left, down, right],
            NavNode::VerticalEdge { up, down, back, .. } => seq![up, down, back],
            NavNode::HorizontalEdge { left, right, back, .. } => opt_seq(left.target()) + opt_seq(
                right.target(),
            ) + opt_seq(back),
        }
    }

    pub fn neighbors(&self) -> (r: Vec<NodeId>)
        ensures
            r@ == self.neighbor_ids(),
    {
        match self {
            NavNode::Background { up, left, down, right } => vec![*up, *left, *down, *right],
            NavNode::VerticalEdge { up, down, back, .. } => vec![*up, *down, *back],
            NavNode::HorizontalEdge { left, right, back, .. } => {
                let mut r: Vec<NodeId> = Vec::new();
                if let Some(e) = left.get() {
                    r.push(e);
                }
                if let Some(e) = right.get() {
                    r.push(e);
                }
                if let Some(e) = back {
                    r.push(*e);
                }
                proof {
                    assert(r@ =~= self.neighbor_ids());
                }
                r
            },
        }
    }
}

pub open spec fn opt_seq(o: Option<NodeId>) -> Seq<NodeId> {
    match o {
        Some(e) => seq![e],
        None => Seq::empty(),
    }
}

/// Slot of a tile's node: 0 for the background, then one per direction.
pub open spec fn slot(d: Dir) -> int {
    match d {
        Dir::Up => 1,
        Dir::Left => 2,
        Dir::Down => 3,
        Dir::Right => 4,
    }
}

pub open spec fn dir_of_slot(s: int) -> Dir {
    if s == 1 {
        Dir::Up
    } else if s == 2 {
        Dir::Left
    } else if s == 3 {
        Dir::Down
    } else {
        Dir::Right
    }
}

/// Id of the node in slot `s` of tile `(x, y)`.
pub open spec fn node_id(g: Grid, x: int, y: int, s: int) -> int {
    5 * (x + y * g.width) + s
}

pub open spec fn bg_id(g: Grid, x: int, y: int) -> NodeId {
    node_id(g, x, y, 0) as NodeId
}

pub open spec fn edge_id(g: Grid, x: int, y: int, d: Dir) -> NodeId {
    node_id(g, x, y, slot(d)) as NodeId
}

/// An open tile has a wall surface toward `d` when the tile there is missing or not open.
pub open spec fn has_edge(g: Grid, x: int, y: int, d: Dir) -> bool {
    is_open(g, x, y) && !is_open(g, x + dx(d), y + dy(d))
}

/// An overground tile directly above ground carries a surface edge with no background.
pub open spec fn is_surface(g: Grid, x: int, y: int) -> bool {
    &&& in_bounds(g, x, y)
    &&& in_bounds(g, x, y + 1)
    &&& cell(g, x, y) == Cell::EmptyOverground
    &&& cell(g, x, y + 1) == Cell::Ground
}

/// Whether tile `(x, y)` owns an edge node in slot `d`.
pub open spec fn tile_edge(g: Grid, x: int, y: int, d: Dir) -> bool {
    has_edge(g, x, y, d) || (d == Dir::Down && is_surface(g, x, y))
}

/// Link of the wall of tile `(x, y)` facing `d` toward the perpendicular direction `l`:
/// a wall of the same tile (concave corner), else the diagonal tile's wall when that tile
/// is open (convex corner), else the same wall of the tile beside.
pub open spec fn corner_link(g: Grid, x: int, y: int, d: Dir, l: Dir) -> (EdgeNeighborKind, NodeId) {
    if has_edge(g, x, y, l) {
        (EdgeNeighborKind::Inward, edge_id(g, x, y, l))
    } else if is_open(g, x + dx(l) + dx(d), y + dy(l) + dy(d)) {
        (
            EdgeNeighborKind::Outward,
            edge_id(g, x + dx(l) + dx(d), y + dy(l) + dy(d), opposite(l)),
        )
    } else {
        (EdgeNeighborKind::Straight, edge_id(g, x + dx(l), y + dy(l), d))
    }
}

/// Lateral link of a floor or ceiling of an open tile; a floor beside a surface tile
/// continues straight onto that tile's surface edge.
pub open spec fn horizontal_link(g: Grid, x: int, y: int, d: Dir, l: Dir) -> EdgeNeighbor {
    if d == Dir::Down && is_surface(g, x + dx(l), y) {
        EdgeNeighbor::Straight(edge_id(g, x + dx(l), y, Dir::Down))
    } else {
        edge_neighbor(corner_link(g, x, y, d, l).0, corner_link(g, x, y, d, l).1)
    }
}

/// Lateral link of a surface edge: the floor of the tile beside, unless that tile is ground.
pub open spec fn surface_link(g: Grid, x: int, y: int, l: Dir) -> EdgeNeighbor {
    let a = x + dx(l);
    if in_bounds(g, a, y) && cell(g, a, y) != Cell::Ground && tile_edge(g, a, y, Dir::Down) {
        EdgeNeighbor::Straight(edge_id(g, a, y, Dir::Down))
    } else {
        EdgeNeighbor::Absent
    }
}

/// A background link: the wall toward `d` if there is one, else the neighbour's background.
pub open spec fn link_to(g: Grid, x: int, y: int, d: Dir) -> NodeId {
    if has_edge(g, x, y, d) {
        edge_id(g, x, y, d)
    } else {
        bg_id(g, x + dx(d), y + dy(d))
    }
}

/// Downward link of a side wall. A clipped wall's floor continues onto a surface edge, so
/// below the wall there is no corner: its down link leads straight into the tile's own
/// open space.
pub open spec fn side_wall_down(g: Grid, x: int, y: int, d: Dir) -> (EdgeNeighborKind, NodeId) {
    if spec_clipped(g, x, y, slot(d)) {
        (EdgeNeighborKind::Straight, bg_id(g, x, y))
    } else {
        corner_link(g, x, y, d, Dir::Down)
    }
}

pub open spec fn spec_edge_node(g: Grid, x: int, y: int, d: Dir) -> Option<NavNode> {
    if has_edge(g, x, y, d) {
        if d == Dir::Up || d == Dir::Down {
            Some(
                NavNode::HorizontalEdge {
                    left: horizontal_link(g, x, y, d, Dir::Left),
                    right: horizontal_link(g, x, y, d, Dir::Right),
                    back: Some(bg_id(g, x, y)),
                    is_up_side: d == Dir::Up,
                },
            )
        } else {
            Some(
                NavNode::VerticalEdge {
                    up: corner_link(g, x, y, d, Dir::Up).1,
                    up_kind: corner_link(g, x, y, d, Dir::Up).0,
                    down: side_wall_down(g, x, y, d).1,
                    down_kind: side_wall_down(g, x, y, d).0,
                    back: bg_id(g, x, y),
                    is_left_side: d == Dir::Left,
                },
            )
        }
    } else if d == Dir::Down && is_surface(g, x, y) {
        Some(
            NavNode::HorizontalEdge {
                left: surface_link(g, x, y, Dir::Left),
                right: surface_link(g, x, y, Dir::Right),
                back: None,
                is_up_side: false,
            },
        )
    } else {
        None
    }
}

/// The node that the graph holds in slot `s` of tile `(x, y)`, if any.
pub open spec fn spec_node(g: Grid, x: int, y: int, s: int) -> Option<NavNode> {
    if s == 0 {
        if is_open(g, x, y) {
            Some(
                NavNode::Background {
                    up: link_to(g, x, y, Dir::Up),
                    left: link_to(g, x, y, Dir::Left),
                    down: link_to(g, x, y, Dir::Down),
                    right: link_to(g, x, y, Dir::Right),
                },
            )
        } else {
            None
        }
    } else {
        spec_edge_node(g, x, y, dir_of_slot(s))
    }
}

/// A side wall whose tile's floor continues onto a surface edge: its collider stops short
/// of the floor, so that agents walk over onto the surface, and its down link leads into
/// open space (see [`side_wall_down`]).
pub open spec fn spec_clipped(g: Grid, x: int, y: int, s: int) -> bool {
    let d = dir_of_slot(s);
    &&& 1 <= s
    &&& d == Dir::Left || d == Dir::Right
    &&& has_edge(g, x, y, d)
    &&& has_edge(g, x, y, Dir::Down)
    &&& is_surface(g, x + dx(d), y)
}

pub open spec fn spec_tile_edges(g: Grid, x: int, y: int) -> TileEdges {
    TileEdges {
        up: if tile_edge(g, x, y, Dir::Up) { Some(edge_id(g, x, y, Dir::Up)) } else { None },
        left: if tile_edge(g, x, y, Dir::Left) { Some(edge_id(g, x, y, Dir::Left)) } else { None },
        down: if tile_edge(g, x, y, Dir::Down) { Some(edge_id(g, x, y, Dir::Down)) } else { None },
        right: if tile_edge(g, x, y, Dir::Right) { Some(edge_id(g, x, y, Dir::Right)) } else { None },
    }
}

/// The navigation graph of a level with its lookup table.
#[derive(Debug, Clone)]
pub struct NavMesh {
    /// Node of each id; ids of slots that hold no node map to `None`.
    pub nodes: Vec<Option<NavNode>>,
    /// Side walls whose collider is shortened at the bottom.
    pub clipped: Vec<bool>,
    pub lut: NavMeshLUT,
}

/// The graph that `g` describes: every slot of every tile holds the node given by
/// [`spec_node`], and the lookup table mirrors the grid.
pub open spec fn built_from(m: NavMesh, g: Grid) -> bool {
    &&& g.wf()
    &&& m.nodes@.len() == 5 * g.width * g.height
    &&& m.clipped@.len() == 5 * g.width * g.height
    &&& forall|x: int, y: int, s: int|
        #![trigger spec_node(g, x, y, s)]
        in_bounds(g, x, y) && 0 <= s < 5 ==> m.nodes@[node_id(g, x, y, s)] == spec_node(g, x, y, s)
            && m.clipped@[node_id(g, x, y, s)] == spec_clipped(g, x, y, s)
    &&& m.lut.wf()
    &&& m.lut.grid_width == g.width
    &&& m.lut.grid_height == g.height
    &&& m.lut.grid_edges@.len() == g.width * g.height
    &&& m.lut.grid_is_empty@.len() == g.width * g.height
    &&& forall|x: int, y: int|
        #![trigger spec_tile_edges(g, x, y)]
        in_bounds(g, x, y) ==> m.lut.grid_edges@[x + y * g.width] == spec_tile_edges(g, x, y)
            && m.lut.grid_is_empty@[x + y * g.width] == is_open(g, x, y)
}

/// Why a grid cannot be turned into a graph.
#[derive(Debug, Clone, Copy, PartialEq, Eq, Structural)]
pub enum NavMeshError {
    /// The cell count is not `width * height`.
    SizeMismatch,
    /// The grid is too large for its node ids to fit a `usize`.
    TooLarge,
}


/// `t` is a position of grid `g`.
pub open spec fn on_grid(g: Grid, t: Index2d) -> bool {
    g.wf() && t.wf() && t.grid_width == g.width && t.grid_height == g.height
}

pub proof fn lemma_index_injective(w: int, x1: int, y1: int, x2: int, y2: int)
    requires
        0 <= x1 < w,
        0 <= x2 < w,
        0 <= y1,
        0 <= y2,
        x1 + y1 * w == x2 + y2 * w,
    ensures
        x1 == x2,
        y1 == y2,
{
    assert(y1 == y2) by (nonlinear_arith)
        requires
            0 <= x1 < w,
            0 <= x2 < w,
            0 <= y1,
            0 <= y2,
            x1 + y1 * w == x2 + y2 * w,
    ;
}

fn slot_of(d: Dir) -> (r: usize)
    ensures
        r == slot(d),
        dir_of_slot(r as int) == d,
{
    match d {
        Dir::Up => 1,
        Dir::Left => 2,
        Dir::Down => 3,
        Dir::Right => 4,
    }
}

fn node_id_of(g: &Grid, t: Index2d, s: usize) -> (r: NodeId)
    requires
        on_grid(*g, t),
        s < 5,
    ensures
        r == node_id(*g, t.x as int, t.y as int, s as int),
        r < 5 * g.width * g.height,
{
    proof {
        lemma_area_fits(*g);
    }
    let i = t.i();
    proof {
        assert(5 * i + s < 5 * (g.width * g.height)) by (nonlinear_arith)
            requires
                i < g.width * g.height,
                s < 5,
        ;
        assert(5 * (g.width * g.height) == 5 * g.width * g.height) by (nonlinear_arith);
    }
    5 * i + s
}

fn tile_is_open(g: &Grid, t: Index2d) -> (r: bool)
    requires
        on_grid(*g, t),
    ensures
        r == is_open(*g, t.x as int, t.y as int),
{
    cell_at(g, t.x, t.y) == Cell::EmptyUnderground
}

fn tile_has_edge(g: &Grid, t: Index2d, d: Dir) -> (r: bool)
    requires
        on_grid(*g, t),
    ensures
        r == has_edge(*g, t.x as int, t.y as int, d),
{
    tile_is_open(g, t) && !exists_and_is_empty(g, t.step(d))
}

fn tile_is_surface(g: &Grid, t: Index2d) -> (r: bool)
    requires
        on_grid(*g, t),
    ensures
        r == is_surface(*g, t.x as int, t.y as int),
{
    match t.down() {
        Some(b) => cell_at(g, t.x, t.y) == Cell::EmptyOverground && cell_at(g, b.x, b.y)
            == Cell::Ground,
        None => false,
    }
}

fn tile_edge_of(g: &Grid, t: Index2d, d: Dir) -> (r: bool)
    requires
        on_grid(*g, t),
    ensures
        r == tile_edge(*g, t.x as int, t.y as int, d),
{
    tile_has_edge(g, t, d) || (d == Dir::Down && tile_is_surface(g, t))
}

fn edge_neighbor_of(k: EdgeNeighborKind, e: NodeId) -> (r: EdgeNeighbor)
    ensures
        r == edge_neighbor(k, e),
{
    match k {
        EdgeNeighborKind::Straight => EdgeNeighbor::Straight(e),
        EdgeNeighborKind::Inward => EdgeNeighbor::Inward(e),
        EdgeNeighborKind::Outward => EdgeNeighbor::Outward(e),
    }
}

fn corner_link_of(g: &Grid, t: Index2d, d: Dir, l: Dir) -> (r: (EdgeNeighborKind, NodeId))
    requires
        on_grid(*g, t),
        is_open(*g, t.x as int, t.y as int),
    ensures
        r == corner_link(*g, t.x as int, t.y as int, d, l),
{
    if tile_has_edge(g, t, l) {
        (EdgeNeighborKind::Inward, node_id_of(g, t, slot_of(l)))
    } else {
        let side = t.step(l).unwrap();
        let diag = side.step(d);
        if exists_and_is_empty(g, diag) {
            (EdgeNeighborKind::Outward, node_id_of(g, diag.unwrap(), slot_of(l.opposite())))
        } else {
            (EdgeNeighborKind::Straight, node_id_of(g, side, slot_of(d)))
        }
    }
}

fn horizontal_link_of(g: &Grid, t: Index2d, d: Dir, l: Dir) -> (r: EdgeNeighbor)
    requires
        on_grid(*g, t),
        is_open(*g, t.x as int, t.y as int),
        l == Dir::Left || l == Dir::Right,
    ensures
        r == horizontal_link(*g, t.x as int, t.y as int, d, l),
{
    if d == Dir::Down {
        if let Some(side) = t.step(l) {
            if tile_is_surface(g, side) {
                return EdgeNeighbor::Straight(node_id_of(g, side, 3));
            }
        }
    }
    let (k, e) = corner_link_of(g, t, d, l);
    edge_neighbor_of(k, e)
}

fn surface_link_of(g: &Grid, t: Index2d, l: Dir) -> (r: EdgeNeighbor)
    requires
        on_grid(*g, t),
        l == Dir::Left || l == Dir::Right,
    ensures
        r == surface_link(*g, t.x as int, t.y as int, l),
{
    match t.step(l) {
        Some(a) => {
            if cell_at(g, a.x, a.y) != Cell::Ground && tile_edge_of(g, a, Dir::Down) {
                EdgeNeighbor::Straight(node_id_of(g, a, 3))
            } else {
                EdgeNeighbor::Absent
            }
        },
        None => EdgeNeighbor::Absent,
    }
}

fn link_to_of(g: &Grid, t: Index2d, d: Dir) -> (r: NodeId)
    requires
        on_grid(*g, t),
        is_open(*g, t.x as int, t.y as int),
    ensures
        r == link_to(*g, t.x as int, t.y as int, d),
{
    if tile_has_edge(g, t, d) {
        node_id_of(g, t, slot_of(d))
    } else {
        node_id_of(g, t.step(d).unwrap(), 0)
    }
}

fn edge_node_of(g: &Grid, t: Index2d, d: Dir) -> (r: Option<NavNode>)
    requires
        on_grid(*g, t),
    ensures
        r == spec_edge_node(*g, t.x as int, t.y as int, d),
{
    if tile_has_edge(g, t, d) {
        let back = node_id_of(g, t, 0);
        if d == Dir::Up || d == Dir::Down {
            Some(
                NavNode::HorizontalEdge {
                    left: horizontal_link_of(g, t, d, Dir::Left),
                    right: horizontal_link_of(g, t, d, Dir::Right),
                    back: Some(back),
                    is_up_side: d == Dir::Up,
                },
            )
        } else {
            let (up_kind, up) = corner_link_of(g, t, d, Dir::Up);
            let (down_kind, down) = if is_clipped(g, t, d) {
                (EdgeNeighborKind::Straight, back)
            } else {
                corner_link_of(g, t, d, Dir::Down)
            };
            Some(
                NavNode::VerticalEdge {
                    up,
                    up_kind,
                    down,
                    down_kind,
                    back,
                    is_left_side: d == Dir::Left,
                },
            )
        }
    } else if d == Dir::Down && tile_is_surface(g, t) {
        Some(
            NavNode::HorizontalEdge {
                left: surface_link_of(g, t, Dir::Left),
                right: surface_link_of(g, t, Dir::Right),
                back: None,
                is_up_side: false,
            },
        )
    } else {
        None
    }
}

fn background_node_of(g: &Grid, t: Index2d) -> (r: Option<NavNode>)
    requires
        on_grid(*g, t),
    ensures
        r == spec_node(*g, t.x as int, t.y as int, 0),
{
    if tile_is_open(g, t) {
        Some(
            NavNode::Background {
                up: link_to_of(g, t, Dir::Up),
                left: link_to_of(g, t, Dir::Left),
                down: link_to_of(g, t, Dir::Down),
                right: link_to_of(g, t, Dir::Right),
            },
        )
    } else {
        None
    }
}

fn is_clipped(g: &Grid, t: Index2d, d: Dir) -> (r: bool)
    requires
        on_grid(*g, t),
    ensures
        r == spec_clipped(*g, t.x as int, t.y as int, slot(d)),
{
    if d == Dir::Left || d == Dir::Right {
        if tile_has_edge(g, t, d) && tile_has_edge(g, t, Dir::Down) {
            return match t.step(d) {
                Some(side) => tile_is_surface(g, side),
                None => false,
            };
        }
    }
    false
}

fn tile_edges_of(g: &Grid, t: Index2d) -> (r: TileEdges)
    requires
        on_grid(*g, t),
    ensures
        r == spec_tile_edges(*g, t.x as int, t.y as int),
{
    let up = if tile_edge_of(g, t, Dir::Up) { Some(node_id_of(g, t, 1)) } else { None };
    let left = if tile_edge_of(g, t, Dir::Left) { Some(node_id_of(g, t, 2)) } else { None };
    let down = if tile_edge_of(g, t, Dir::Down) { Some(node_id_of(g, t, 3)) } else { None };
    let right = if tile_edge_of(g, t, Dir::Right) { Some(node_id_of(g, t, 4)) } else { None };
    TileEdges { up, left, down, right }
}

/// Builds the navigation graph of a grid: a background node for every open tile, an edge
/// node for each side of an open tile that faces a missing or non-open tile, and a surface
/// edge under every overground tile that sits on ground. Tile `i` owns ids `5 * i` (its
/// background) to `5 * i + 4` (its up, left, down and right edges).
pub fn spawn_nav_mesh(g: &Grid) -> (r: Result<NavMesh, NavMeshError>)
    ensures
        match r {
            Ok(m) => built_from(m, *g),
            Err(NavMeshError::TooLarge) => 5 * g.width * g.height > usize::MAX,
            Err(NavMeshError::SizeMismatch) => 5 * g.width * g.height <= usize::MAX
                && g.cells@.len() != g.width * g.height,
        },
{
    let n = match g.width.checked_mul(g.height) {
        Some(n) => n,
        None => {
            proof {
                assert(g.width * g.height <= 5 * g.width * g.height) by (nonlinear_arith);
            }
            return Err(NavMeshError::TooLarge);
        },
    };
    if n.checked_mul(5).is_none() {
        proof {
            assert(5 * g.width * g.height == n * 5) by (nonlinear_arith)
                requires
                    n == g.width * g.height,
            ;
        }
        return Err(NavMeshError::TooLarge);
    }
    proof {
        assert(5 * g.width * g.height == n * 5) by (nonlinear_arith)
            requires
                n == g.width * g.height,
        ;
    }
    if g.cells.len() != n {
        return Err(NavMeshError::SizeMismatch);
    }
    let w = g.width;
    let h = g.height;
    let mut nodes: Vec<Option<NavNode>> = Vec::new();
    let mut clipped: Vec<bool> = Vec::new();
    let mut grid_edges: Vec<TileEdges> = Vec::new();
    let mut grid_is_empty: Vec<bool> = Vec::new();
    let mut i: usize = 0;
    while i < n
        invariant
            g.wf(),
            n == w * h,
            w == g.width,
            h == g.height,
            i <= n,
            nodes@.len() == 5 * i,
            clipped@.len() == 5 * i,
            grid_edges@.len() == i,
            grid_is_empty@.len() == i,
            forall|x: int, y: int, s: int|
                #![trigger spec_node(*g, x, y, s)]
                in_bounds(*g, x, y) && 0 <= s < 5 && x + y * w < i ==> nodes@[node_id(
                    *g,
                    x,
                    y,
                    s,
                )] == spec_node(*g, x, y, s) && clipped@[node_id(*g, x, y, s)] == spec_clipped(
                    *g,
                    x,
                    y,
                    s,
                ),
            forall|x: int, y: int|
                #![trigger spec_tile_edges(*g, x, y)]
                in_bounds(*g, x, y) && x + y * w < i ==> grid_edges@[x + y * w]
                    == spec_tile_edges(*g, x, y) && grid_is_empty@[x + y * w] == is_open(
                    *g,
                    x,
                    y,
                ),
        decreases n - i,
    {
        let t = Index2d::new(i, w, h);
        let ghost old_nodes = nodes@;
        let ghost old_clipped = clipped@;
        let ghost old_edges = grid_edges@;
        let ghost old_empty = grid_is_empty@;
        nodes.push(background_node_of(g, t));
        nodes.push(edge_node_of(g, t, Dir::Up));
        nodes.push(edge_node_of(g, t, Dir::Left));
        nodes.push(edge_node_of(g, t, Dir::Down));
        nodes.push(edge_node_of(g, t, Dir::Right));
        clipped.push(false);
        clipped.push(false);
        clipped.push(is_clipped(g, t, Dir::Left));
        clipped.push(false);
        clipped.push(is_clipped(g, t, Dir::Right));
        grid_edges.push(tile_edges_of(g, t));
        grid_is_empty.push(tile_is_open(g, t));
        proof {
            assert forall|x: int, y: int, s: int|
                #![trigger spec_node(*g, x, y, s)]
                in_bounds(*g, x, y) && 0 <= s < 5 && x + y * w < i + 1 implies nodes@[node_id(
                    *g,
                    x,
                    y,
                    s,
                )] == spec_node(*g, x, y, s) && clipped@[node_id(*g, x, y, s)] == spec_clipped(
                *g,
                x,
                y,
                s,
            ) by {
                if x + y * w < i {
                    assert(nodes@[node_id(*g, x, y, s)] == old_nodes[node_id(*g, x, y, s)]);
                    assert(clipped@[node_id(*g, x, y, s)] == old_clipped[node_id(*g, x, y, s)]);
                } else {
                    lemma_index_injective(w as int, x, y, t.x as int, t.y as int);
                    assert(node_id(*g, x, y, s) == 5 * i + s);
                }
            }
            assert forall|x: int, y: int|
                #![trigger spec_tile_edges(*g, x, y)]
                in_bounds(*g, x, y) && x + y * w < i + 1 implies grid_edges@[x + y * w]
                == spec_tile_edges(*g, x, y) && grid_is_empty@[x + y * w] == is_open(*g, x, y) by {
                if x + y * w < i {
                    assert(grid_edges@[x + y * w] == old_edges[x + y * w]);
                    assert(grid_is_empty@[x + y * w] == old_empty[x + y * w]);
                } else {
                    lemma_index_injective(w as int, x, y, t.x as int, t.y as int);
                }
            }
        }
        i = i + 1;
    }
    let m = NavMesh {
        nodes,
        clipped,
        lut: NavMeshLUT { grid_edges, grid_is_empty, grid_width: w, grid_height: h },
    };
    proof {
        assert forall|x: int, y: int, s: int|
            #![trigger spec_node(*g, x, y, s)]
            in_bounds(*g, x, y) && 0 <= s < 5 implies m.nodes@[node_id(*g, x, y, s)] == spec_node(
            *g,
            x,
            y,
            s,
        ) && m.clipped@[node_id(*g, x, y, s)] == spec_clipped(*g, x, y, s) by {
            lemma_index_in_bounds(w as int, h as int, x, y);
        }
        assert forall|x: int, y: int|
            #![trigger spec_tile_edges(*g, x, y)]
            in_bounds(*g, x, y) implies m.lut.grid_edges@[x + y * w] == spec_tile_edges(*g, x, y)
            && m.lut.grid_is_empty@[x + y * w] == is_open(*g, x, y) by {
            lemma_index_in_bounds(w as int, h as int, x, y);
        }
    }
    Ok(m)
}

} // verus!
