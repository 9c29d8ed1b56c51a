//! Structural laws of the navigation graph.
use vstd::prelude::*;

use crate::grid::{dx, dy, in_bounds, is_open, lemma_index_in_bounds, opposite, Dir, Grid};
use crate::nav_mesh::lemma_index_injective;
use crate::nav_mesh::{
    built_from, corner_link, dir_of_slot, edge_id, edge_neighbor, has_edge, horizontal_link,
    is_surface, node_id, side_wall_down, slot, spec_clipped, spec_edge_node, spec_node, spec_tile_edges, surface_link,
    tile_edge, EdgeNeighbor, EdgeNeighborKind, NavMesh, NavNode, NodeId,
};

verus! {

/// `id` names a node of the graph.
pub open spec fn resolves(m: NavMesh, id: NodeId) -> bool {
    id < m.nodes@.len() && m.nodes@[id as int] is Some
}

/// `id` names a background node of the graph.
pub open spec fn resolves_to_background(m: NavMesh, id: NodeId) -> bool {
    id < m.nodes@.len() && m.nodes@[id as int] matches Some(NavNode::Background { .. })
}

/// Node `n` links to `b` and classifies that link as `k`.
pub open spec fn links_to(n: NavNode, b: NodeId, k: EdgeNeighborKind) -> bool {
    match n {
        NavNode::Background { .. } => false,
        NavNode::VerticalEdge { up, up_kind, down, down_kind, .. } => (up == b && up_kind == k) || (
        down == b && down_kind == k),
        NavNode::HorizontalEdge { left, right, .. } => left == edge_neighbor(k, b) || right
            == edge_neighbor(k, b),
    }
}

/// The back link of an edge node, if it has one.
pub open spec fn back_of(n: NavNode) -> Option<NodeId> {
    match n {
        NavNode::Background { .. } => None,
        NavNode::VerticalEdge { back, .. } => Some(back),
        NavNode::HorizontalEdge { back, .. } => back,
    }
}

proof fn lemma_decode(g: Grid, a: int) -> (r: (int, int, int))
    requires
        g.wf(),
        0 <= a < 5 * g.width * g.height,
    ensures
        in_bounds(g, r.0, r.1),
        0 <= r.2 < 5,
        a == node_id(g, r.0, r.1, r.2),
{
    let w = g.width as int;
    let h = g.height as int;
    assert(w > 0) by (nonlinear_arith)
        requires
            0 <= a < 5 * w * h,
            w >= 0,
            h >= 0,
    ;
    vstd::arithmetic::div_mod::lemma_fundamental_div_mod(a, 5);
    let i = a / 5;
    let s = a % 5;
    assert(i < w * h) by (nonlinear_arith)
        requires
            a == 5 * i + s,
            0 <= s,
            a < 5 * w * h,
    ;
    vstd::arithmetic::div_mod::lemma_fundamental_div_mod(i, w);
    vstd::arithmetic::div_mod::lemma_div_pos_is_pos(i, w);
    let x = i % w;
    let y = i / w;
    assert(y < h) by (nonlinear_arith)
        requires
            i == w * y + x,
            0 <= x,
            i < w * h,
            w > 0,
    ;
    assert(y * w == w * y) by (nonlinear_arith);
    (x, y, s)
}

proof fn lemma_node_at(m: NavMesh, g: Grid, x: int, y: int, s: int)
    requires
        built_from(m, g),
        in_bounds(g, x, y),
        0 <= s < 5,
    ensures
        0 <= node_id(g, x, y, s) < m.nodes@.len(),
        (node_id(g, x, y, s) as NodeId) as int == node_id(g, x, y, s),
        m.nodes@[node_id(g, x, y, s)] == spec_node(g, x, y, s),
        m.clipped@[node_id(g, x, y, s)] == spec_clipped(g, x, y, s),
{
    lemma_index_in_bounds(g.width as int, g.height as int, x, y);
    assert(5 * (x + y * g.width) + s < 5 * g.width * g.height) by (nonlinear_arith)
        requires
            x + y * g.width < g.width * g.height,
            s < 5,
    ;
    assert(spec_node(g, x, y, s) == spec_node(g, x, y, s));
}

proof fn lemma_edge_at(m: NavMesh, g: Grid, x: int, y: int, d: Dir)
    requires
        built_from(m, g),
        in_bounds(g, x, y),
    ensures
        edge_id(g, x, y, d) < m.nodes@.len(),
        m.nodes@[edge_id(g, x, y, d) as int] == spec_edge_node(g, x, y, d),
{
    lemma_node_at(m, g, x, y, slot(d));
}

proof fn lemma_corner_inward(m: NavMesh, g: Grid, x: int, y: int, d: Dir, l: Dir)
    requires
        built_from(m, g),
        has_edge(g, x, y, d),
        has_edge(g, x, y, l),
        (d == Dir::Up || d == Dir::Down) <==> (l == Dir::Left || l == Dir::Right),
        !(l == Dir::Down && is_surface(g, x + dx(d), y)),
        !(d == Dir::Down && is_surface(g, x + dx(l), y)),
    ensures
        resolves(m, edge_id(g, x, y, l)),
        links_to(
            m.nodes@[edge_id(g, x, y, l) as int].unwrap(),
            edge_id(g, x, y, d),
            EdgeNeighborKind::Inward,
        ),
{
    lemma_edge_at(m, g, x, y, l);
    assert(corner_link(g, x, y, l, d) == (EdgeNeighborKind::Inward, edge_id(g, x, y, d)));
    if l == Dir::Up || l == Dir::Down {
        assert(horizontal_link(g, x, y, l, d) == EdgeNeighbor::Inward(edge_id(g, x, y, d)));
    } else if d == Dir::Down {
        assert(!spec_clipped(g, x, y, slot(l)));
        assert(side_wall_down(g, x, y, l) == corner_link(g, x, y, l, Dir::Down));
    }
}

#[verifier::rlimit(40)]
proof fn lemma_corner_outward(m: NavMesh, g: Grid, x: int, y: int, d: Dir, l: Dir)
    requires
        built_from(m, g),
        has_edge(g, x, y, d),
        !has_edge(g, x, y, l),
        is_open(g, x + dx(l) + dx(d), y + dy(l) + dy(d)),
        (d == Dir::Up || d == Dir::Down) <==> (l == Dir::Left || l == Dir::Right),
    ensures
        resolves(m, edge_id(g, x + dx(l) + dx(d), y + dy(l) + dy(d), opposite(l))),
        links_to(
            m.nodes@[edge_id(g, x + dx(l) + dx(d), y + dy(l) + dy(d), opposite(l)) as int].unwrap(),
            edge_id(g, x, y, d),
            EdgeNeighborKind::Outward,
        ),
{
    let a = x + dx(l) + dx(d);
    let b = y + dy(l) + dy(d);
    lemma_edge_at(m, g, a, b, opposite(l));
    assert(a + dx(opposite(l)) == x + dx(d) && b + dy(opposite(l)) == y + dy(d));
    assert(a + dx(opposite(d)) == x + dx(l) && b + dy(opposite(d)) == y + dy(l));
    assert(a + dx(opposite(d)) + dx(opposite(l)) == x && b + dy(opposite(d)) + dy(opposite(l)) == y);
    assert(has_edge(g, a, b, opposite(l)));
    assert(!has_edge(g, a, b, opposite(d)));
    assert(opposite(opposite(d)) == d);
    assert(corner_link(g, a, b, opposite(l), opposite(d)) == (
        EdgeNeighborKind::Outward,
        edge_id(g, x, y, d),
    ));
    if opposite(d) == Dir::Down && (opposite(l) == Dir::Left || opposite(l) == Dir::Right) {
        assert(!has_edge(g, a, b, Dir::Down));
        assert(!spec_clipped(g, a, b, slot(opposite(l))));
        assert(side_wall_down(g, a, b, opposite(l)) == corner_link(g, a, b, opposite(l), Dir::Down));
    }
    if opposite(l) == Dir::Up || opposite(l) == Dir::Down {
        assert(!is_surface(g, a + dx(opposite(d)), b));
        assert(horizontal_link(g, a, b, opposite(l), opposite(d)) == EdgeNeighbor::Outward(
            edge_id(g, x, y, d),
        ));
    }
}

#[verifier::rlimit(40)]
proof fn lemma_corner_straight(m: NavMesh, g: Grid, x: int, y: int, d: Dir, l: Dir)
    requires
        built_from(m, g),
        has_edge(g, x, y, d),
        !has_edge(g, x, y, l),
        !is_open(g, x + dx(l) + dx(d), y + dy(l) + dy(d)),
        (d == Dir::Up || d == Dir::Down) <==> (l == Dir::Left || l == Dir::Right),
    ensures
        resolves(m, edge_id(g, x + dx(l), y + dy(l), d)),
        links_to(
            m.nodes@[edge_id(g, x + dx(l), y + dy(l), d) as int].unwrap(),
            edge_id(g, x, y, d),
            EdgeNeighborKind::Straight,
        ),
{
    let a = x + dx(l);
    let b = y + dy(l);
    lemma_edge_at(m, g, a, b, d);
    assert(a + dx(opposite(l)) == x && b + dy(opposite(l)) == y);
    assert(has_edge(g, a, b, d));
    assert(!has_edge(g, a, b, opposite(l)));
    assert(corner_link(g, a, b, d, opposite(l)) == (
        EdgeNeighborKind::Straight,
        edge_id(g, x, y, d),
    ));
    if opposite(l) == Dir::Down && (d == Dir::Left || d == Dir::Right) {
        assert(!has_edge(g, a, b, Dir::Down));
        assert(!spec_clipped(g, a, b, slot(d)));
        assert(side_wall_down(g, a, b, d) == corner_link(g, a, b, d, Dir::Down));
    }
    if d == Dir::Up || d == Dir::Down {
        assert(!is_surface(g, a + dx(opposite(l)), b));
        assert(horizontal_link(g, a, b, d, opposite(l)) == EdgeNeighbor::Straight(
            edge_id(g, x, y, d),
        ));
    }
}

/// The target of a corner link is an edge node that links back with the same kind. The
/// corner links that a surface edge replaces are left out.
proof fn lemma_corner_link(m: NavMesh, g: Grid, x: int, y: int, d: Dir, l: Dir)
    requires
        built_from(m, g),
        has_edge(g, x, y, d),
        (d == Dir::Up || d == Dir::Down) <==> (l == Dir::Left || l == Dir::Right),
        !(l == Dir::Down && has_edge(g, x, y, l) && is_surface(g, x + dx(d), y)),
        !(d == Dir::Down && has_edge(g, x, y, l) && is_surface(g, x + dx(l), y)),
    ensures
        resolves(m, corner_link(g, x, y, d, l).1),
        links_to(
            m.nodes@[corner_link(g, x, y, d, l).1 as int].unwrap(),
            edge_id(g, x, y, d),
            corner_link(g, x, y, d, l).0,
        ),
{
    if has_edge(g, x, y, l) {
        lemma_corner_inward(m, g, x, y, d, l);
    } else if is_open(g, x + dx(l) + dx(d), y + dy(l) + dy(d)) {
        lemma_corner_outward(m, g, x, y, d, l);
    } else {
        lemma_corner_straight(m, g, x, y, d, l);
    }
}

/// The target of a lateral link of a floor or ceiling links back with the same kind.
proof fn lemma_horizontal_link(m: NavMesh, g: Grid, x: int, y: int, d: Dir, l: Dir)
    requires
        built_from(m, g),
        has_edge(g, x, y, d),
        d == Dir::Up || d == Dir::Down,
        l == Dir::Left || l == Dir::Right,
    ensures
        horizontal_link(g, x, y, d, l).target() matches Some(b) && resolves(m, b)
            && links_to(m.nodes@[b as int].unwrap(), edge_id(g, x, y, d), kind_of(horizontal_link(g, x, y, d, l))),
{
    if d == Dir::Down && is_surface(g, x + dx(l), y) {
        lemma_edge_at(m, g, x + dx(l), y, Dir::Down);
        lemma_edge_at(m, g, x, y, Dir::Down);
        assert(surface_link(g, x + dx(l), y, opposite(l)) == EdgeNeighbor::Straight(
            edge_id(g, x, y, Dir::Down),
        ));
    } else {
        lemma_corner_link(m, g, x, y, d, l);
    }
}

/// The classification carried by a present lateral link.
pub open spec fn kind_of(e: EdgeNeighbor) -> EdgeNeighborKind {
    match e {
        EdgeNeighbor::Inward(_) => EdgeNeighborKind::Inward,
        EdgeNeighbor::Outward(_) => EdgeNeighborKind::Outward,
        _ => EdgeNeighborKind::Straight,
    }
}

/// The target of a lateral link of a surface edge links back straight.
proof fn lemma_surface_link(m: NavMesh, g: Grid, x: int, y: int, l: Dir)
    requires
        built_from(m, g),
        is_surface(g, x, y),
        l == Dir::Left || l == Dir::Right,
    ensures
        surface_link(g, x, y, l) matches EdgeNeighbor::Straight(b) ==> resolves(m, b) && links_to(
            m.nodes@[b as int].unwrap(),
            edge_id(g, x, y, Dir::Down),
            EdgeNeighborKind::Straight,
        ),
        surface_link(g, x, y, l) is Straight || surface_link(g, x, y, l) is Absent,
{
    let a = x + dx(l);
    if in_bounds(g, a, y) && tile_edge(g, a, y, Dir::Down) {
        lemma_edge_at(m, g, a, y, Dir::Down);
        lemma_edge_at(m, g, x, y, Dir::Down);
        assert(a + dx(opposite(l)) == x);
    }
}

proof fn lemma_background_closure(m: NavMesh, g: Grid, x: int, y: int)
    requires
        built_from(m, g),
        in_bounds(g, x, y),
        is_open(g, x, y),
    ensures
        forall|j: int|
            0 <= j < spec_node(g, x, y, 0).unwrap().neighbor_ids().len() ==> resolves(
                m,
                #[trigger] spec_node(g, x, y, 0).unwrap().neighbor_ids()[j],
            ),
{
    assert forall|d: Dir| #[trigger] has_edge(g, x, y, d) || !has_edge(g, x, y, d) implies resolves(
        m,
        crate::nav_mesh::link_to(g, x, y, d),
    ) by {
        if has_edge(g, x, y, d) {
            lemma_edge_at(m, g, x, y, d);
        } else {
            lemma_node_at(m, g, x + dx(d), y + dy(d), 0);
        }
    }
    assert(has_edge(g, x, y, Dir::Up) || !has_edge(g, x, y, Dir::Up));
    assert(has_edge(g, x, y, Dir::Left) || !has_edge(g, x, y, Dir::Left));
    assert(has_edge(g, x, y, Dir::Down) || !has_edge(g, x, y, Dir::Down));
    assert(has_edge(g, x, y, Dir::Right) || !has_edge(g, x, y, Dir::Right));
}

#[verifier::rlimit(40)]
proof fn lemma_edge_closure(m: NavMesh, g: Grid, x: int, y: int, s: int)
    requires
        built_from(m, g),
        in_bounds(g, x, y),
        1 <= s < 5,
        spec_node(g, x, y, s) is Some,
    ensures
        forall|j: int|
            0 <= j < spec_node(g, x, y, s).unwrap().neighbor_ids().len() ==> resolves(
                m,
                #[trigger] spec_node(g, x, y, s).unwrap().neighbor_ids()[j],
            ),
        back_of(spec_node(g, x, y, s).unwrap()) matches Some(b) ==> resolves_to_background(m, b),
{
    let d = dir_of_slot(s);
    assert(slot(d) == s);
    if has_edge(g, x, y, d) {
        lemma_node_at(m, g, x, y, 0);
        if d == Dir::Up || d == Dir::Down {
            lemma_horizontal_link(m, g, x, y, d, Dir::Left);
            lemma_horizontal_link(m, g, x, y, d, Dir::Right);
        } else {
            lemma_corner_link(m, g, x, y, d, Dir::Up);
            if !spec_clipped(g, x, y, s) {
                lemma_corner_link(m, g, x, y, d, Dir::Down);
            }
        }
    } else {
        lemma_surface_link(m, g, x, y, Dir::Left);
        lemma_surface_link(m, g, x, y, Dir::Right);
    }
}

/// Neighbour closure: every link of a node of the graph (the four links of a background
/// node, the links of an edge node and its back link) names a node of the graph, and the
/// back link of an edge node names a background node.
pub proof fn lemma_neighbor_closure(m: NavMesh, g: Grid, a: int)
    requires
        built_from(m, g),
        0 <= a < m.nodes@.len(),
        m.nodes@[a] is Some,
    ensures
        forall|j: int|
            0 <= j < m.nodes@[a].unwrap().neighbor_ids().len() ==> resolves(
                m,
                #[trigger] m.nodes@[a].unwrap().neighbor_ids()[j],
            ),
        back_of(m.nodes@[a].unwrap()) matches Some(b) ==> resolves_to_background(m, b),
{
    let (x, y, s) = lemma_decode(g, a);
    lemma_node_at(m, g, x, y, s);
    if s == 0 {
        lemma_background_closure(m, g, x, y);
    } else {
        lemma_edge_closure(m, g, x, y, s);
    }
}

/// Symmetry of wall links: when an edge node links to another edge node and classifies
/// the corner between them as `k` (straight, concave or convex), the other node links back
/// to it with the same classification.
pub proof fn lemma_edge_symmetry(m: NavMesh, g: Grid, a: int, b: NodeId, k: EdgeNeighborKind)
    requires
        built_from(m, g),
        0 <= a < m.nodes@.len(),
        m.nodes@[a] is Some,
        links_to(m.nodes@[a].unwrap(), b, k),
        b < m.nodes@.len() ==> !(m.nodes@[b as int] matches Some(NavNode::Background { .. })),
    ensures
        resolves(m, b),
        links_to(m.nodes@[b as int].unwrap(), a as NodeId, k),
{
    let (x, y, s) = lemma_decode(g, a);
    lemma_node_at(m, g, x, y, s);
    let d = dir_of_slot(s);
    assert(s != 0);
    assert(slot(d) == s);
    assert(edge_id(g, x, y, d) == a as NodeId);
    if has_edge(g, x, y, d) {
        if d == Dir::Up || d == Dir::Down {
            lemma_horizontal_link(m, g, x, y, d, Dir::Left);
            lemma_horizontal_link(m, g, x, y, d, Dir::Right);
        } else {
            lemma_corner_link(m, g, x, y, d, Dir::Up);
            if spec_clipped(g, x, y, s) {
                lemma_node_at(m, g, x, y, 0);
            } else {
                lemma_corner_link(m, g, x, y, d, Dir::Down);
            }
        }
    } else {
        lemma_surface_link(m, g, x, y, Dir::Left);
        lemma_surface_link(m, g, x, y, Dir::Right);
    }
}

/// Lookup closure: every open tile that the lookup table reports resolves to a background
/// node of the graph, at id `5 * index`.
pub proof fn lemma_lut_background(m: NavMesh, g: Grid, x: int, y: int)
    requires
        built_from(m, g),
        in_bounds(g, x, y),
        m.lut.grid_is_empty@[x + y * g.width],
    ensures
        resolves_to_background(m, (5 * (x + y * g.width)) as NodeId),
{
    lemma_node_at(m, g, x, y, 0);
    assert(m.lut.grid_edges@[x + y * g.width] == spec_tile_edges(g, x, y));
    assert(node_id(g, x, y, 0) == 5 * (x + y * g.width));
}

proof fn lemma_node_id_injective(g: Grid, x1: int, y1: int, s1: int, x2: int, y2: int, s2: int)
    requires
        in_bounds(g, x1, y1),
        in_bounds(g, x2, y2),
        0 <= s1 < 5,
        0 <= s2 < 5,
        node_id(g, x1, y1, s1) == node_id(g, x2, y2, s2),
    ensures
        x1 == x2,
        y1 == y2,
        s1 == s2,
{
    let i1 = x1 + y1 * g.width;
    let i2 = x2 + y2 * g.width;
    assert(i1 == i2);
    lemma_index_injective(g.width as int, x1, y1, x2, y2);
}

proof fn lemma_distinct(g: Grid, x1: int, y1: int, s1: int, x2: int, y2: int, s2: int)
    requires
        g.wf(),
        in_bounds(g, x1, y1),
        in_bounds(g, x2, y2),
        0 <= s1 < 5,
        0 <= s2 < 5,
        x1 != x2 || y1 != y2 || s1 != s2,
    ensures
        node_id(g, x1, y1, s1) as NodeId != node_id(g, x2, y2, s2) as NodeId,
{
    lemma_index_in_bounds(g.width as int, g.height as int, x1, y1);
    lemma_index_in_bounds(g.width as int, g.height as int, x2, y2);
    assert(5 * (x1 + y1 * g.width) + s1 < 5 * g.width * g.height) by (nonlinear_arith)
        requires
            x1 + y1 * g.width < g.width * g.height,
            s1 < 5,
    ;
    assert(5 * (x2 + y2 * g.width) + s2 < 5 * g.width * g.height) by (nonlinear_arith)
        requires
            x2 + y2 * g.width < g.width * g.height,
            s2 < 5,
    ;
    if node_id(g, x1, y1, s1) == node_id(g, x2, y2, s2) {
        lemma_node_id_injective(g, x1, y1, s1, x2, y2, s2);
    }
}

proof fn lemma_corner_not_self(g: Grid, x: int, y: int, d: Dir, l: Dir)
    requires
        g.wf(),
        has_edge(g, x, y, d),
        (d == Dir::Up || d == Dir::Down) <==> (l == Dir::Left || l == Dir::Right),
    ensures
        corner_link(g, x, y, d, l).1 != edge_id(g, x, y, d),
{
    if has_edge(g, x, y, l) {
        lemma_distinct(g, x, y, slot(l), x, y, slot(d));
    } else if is_open(g, x + dx(l) + dx(d), y + dy(l) + dy(d)) {
        lemma_distinct(g, x + dx(l) + dx(d), y + dy(l) + dy(d), slot(opposite(l)), x, y, slot(d));
    } else {
        lemma_distinct(g, x + dx(l), y + dy(l), slot(d), x, y, slot(d));
    }
}

proof fn lemma_horizontal_not_self(g: Grid, x: int, y: int, d: Dir, l: Dir)
    requires
        g.wf(),
        has_edge(g, x, y, d),
        d == Dir::Up || d == Dir::Down,
        l == Dir::Left || l == Dir::Right,
    ensures
        horizontal_link(g, x, y, d, l).target() != Some(edge_id(g, x, y, d)),
{
    if d == Dir::Down && is_surface(g, x + dx(l), y) {
        lemma_distinct(g, x + dx(l), y, slot(Dir::Down), x, y, slot(d));
    } else {
        lemma_corner_not_self(g, x, y, d, l);
    }
}

/// No self links: a node never lists itself among its neighbours, so during diffusion a
/// node's buffer only receives what its neighbours scatter.
pub proof fn lemma_no_self_links(m: NavMesh, g: Grid, a: int)
    requires
        built_from(m, g),
        0 <= a < m.nodes@.len(),
        m.nodes@[a] is Some,
    ensures
        !m.nodes@[a].unwrap().neighbor_ids().contains(a as NodeId),
{
    let (x, y, s) = lemma_decode(g, a);
    lemma_node_at(m, g, x, y, s);
    if s == 0 {
        assert forall|d: Dir| #[trigger] has_edge(g, x, y, d) || !has_edge(g, x, y, d) implies
            crate::nav_mesh::link_to(g, x, y, d) != a as NodeId by {
            if has_edge(g, x, y, d) {
                lemma_distinct(g, x, y, slot(d), x, y, 0);
            } else {
                lemma_distinct(g, x + dx(d), y + dy(d), 0, x, y, 0);
            }
        }
        assert(has_edge(g, x, y, Dir::Up) || !has_edge(g, x, y, Dir::Up));
        assert(has_edge(g, x, y, Dir::Left) || !has_edge(g, x, y, Dir::Left));
        assert(has_edge(g, x, y, Dir::Down) || !has_edge(g, x, y, Dir::Down));
        assert(has_edge(g, x, y, Dir::Right) || !has_edge(g, x, y, Dir::Right));
    } else {
        let d = dir_of_slot(s);
        assert(slot(d) == s);
        lemma_distinct(g, x, y, 0, x, y, s);
        if has_edge(g, x, y, d) {
            if d == Dir::Up || d == Dir::Down {
                lemma_horizontal_not_self(g, x, y, d, Dir::Left);
                lemma_horizontal_not_self(g, x, y, d, Dir::Right);
            } else {
                lemma_corner_not_self(g, x, y, d, Dir::Up);
                lemma_corner_not_self(g, x, y, d, Dir::Down);
            }
        } else {
            if in_bounds(g, x - 1, y) {
                lemma_distinct(g, x - 1, y, slot(Dir::Down), x, y, s);
            }
            if in_bounds(g, x + 1, y) {
                lemma_distinct(g, x + 1, y, slot(Dir::Down), x, y, s);
            }
        }
    }
    let n = m.nodes@[a].unwrap();
    assert(forall|j: int| 0 <= j < n.neighbor_ids().len() ==> n.neighbor_ids()[j] != a as NodeId);
}

spec fn corner_target(g: Grid, x: int, y: int, d: Dir, l: Dir) -> (int, int, int) {
    if has_edge(g, x, y, l) {
        (x, y, slot(l))
    } else if is_open(g, x + dx(l) + dx(d), y + dy(l) + dy(d)) {
        (x + dx(l) + dx(d), y + dy(l) + dy(d), slot(opposite(l)))
    } else {
        (x + dx(l), y + dy(l), slot(d))
    }
}

spec fn horizontal_target(g: Grid, x: int, y: int, d: Dir, l: Dir) -> (int, int, int) {
    if d == Dir::Down && is_surface(g, x + dx(l), y) {
        (x + dx(l), y, slot(Dir::Down))
    } else {
        corner_target(g, x, y, d, l)
    }
}

proof fn lemma_corner_target(g: Grid, x: int, y: int, d: Dir, l: Dir)
    requires
        g.wf(),
        has_edge(g, x, y, d),
        (d == Dir::Up || d == Dir::Down) <==> (l == Dir::Left || l == Dir::Right),
    ensures
        in_bounds(g, corner_target(g, x, y, d, l).0, corner_target(g, x, y, d, l).1),
        0 <= corner_target(g, x, y, d, l).2 < 5,
        corner_link(g, x, y, d, l).1 == node_id(
            g,
            corner_target(g, x, y, d, l).0,
            corner_target(g, x, y, d, l).1,
            corner_target(g, x, y, d, l).2,
        ) as NodeId,
        in_bounds(g, horizontal_target(g, x, y, d, l).0, horizontal_target(g, x, y, d, l).1),
        0 <= horizontal_target(g, x, y, d, l).2 < 5,
        (d == Dir::Up || d == Dir::Down) ==> horizontal_link(g, x, y, d, l).target() == Some(
            node_id(
                g,
                horizontal_target(g, x, y, d, l).0,
                horizontal_target(g, x, y, d, l).1,
                horizontal_target(g, x, y, d, l).2,
            ) as NodeId,
        ),
        // the target lies on the side of `l`, or is a wall of the tile itself
        (corner_target(g, x, y, d, l).0 - x) * dx(l) + (corner_target(g, x, y, d, l).1 - y) * dy(l) >= 0,
        (horizontal_target(g, x, y, d, l).0 - x) * dx(l) + (horizontal_target(g, x, y, d, l).1 - y) * dy(l) >= 0,
        corner_target(g, x, y, d, l).0 == x && corner_target(g, x, y, d, l).1 == y ==> corner_target(g, x, y, d, l).2 == slot(l),
        horizontal_target(g, x, y, d, l).0 == x && horizontal_target(g, x, y, d, l).1 == y ==> horizontal_target(g, x, y, d, l).2 == slot(l),
{
}

proof fn lemma_corner_pair_distinct(g: Grid, x: int, y: int, d: Dir, l: Dir)
    requires
        g.wf(),
        has_edge(g, x, y, d),
        (d == Dir::Up || d == Dir::Down) <==> (l == Dir::Left || l == Dir::Right),
    ensures
        corner_link(g, x, y, d, l).1 != corner_link(g, x, y, d, opposite(l)).1,
        (d == Dir::Up || d == Dir::Down) ==> horizontal_link(g, x, y, d, l).target()
            != horizontal_link(g, x, y, d, opposite(l)).target(),
{
    let o = opposite(l);
    lemma_corner_target(g, x, y, d, l);
    lemma_corner_target(g, x, y, d, o);
    let a = corner_target(g, x, y, d, l);
    let b = corner_target(g, x, y, d, o);
    lemma_distinct(g, a.0, a.1, a.2, b.0, b.1, b.2);
    let c = horizontal_target(g, x, y, d, l);
    let e = horizontal_target(g, x, y, d, o);
    lemma_distinct(g, c.0, c.1, c.2, e.0, e.1, e.2);
}

/// A node links to a given node through at most one of its wall links, so it classifies
/// that node in one way only.
proof fn lemma_link_kind_unique(m: NavMesh, g: Grid, c: int, t: NodeId, k1: EdgeNeighborKind, k2: EdgeNeighborKind)
    requires
        built_from(m, g),
        0 <= c < m.nodes@.len(),
        m.nodes@[c] is Some,
        links_to(m.nodes@[c].unwrap(), t, k1),
        links_to(m.nodes@[c].unwrap(), t, k2),
    ensures
        k1 == k2,
{
    let (x, y, s) = lemma_decode(g, c);
    lemma_node_at(m, g, x, y, s);
    let d = dir_of_slot(s);
    assert(s != 0);
    assert(slot(d) == s);
    if has_edge(g, x, y, d) {
        if d == Dir::Up || d == Dir::Down {
            lemma_corner_pair_distinct(g, x, y, d, Dir::Left);
        } else if spec_clipped(g, x, y, s) {
            lemma_corner_target(g, x, y, d, Dir::Up);
            let u = corner_target(g, x, y, d, Dir::Up);
            lemma_distinct(g, u.0, u.1, u.2, x, y, 0);
        } else {
            lemma_corner_pair_distinct(g, x, y, d, Dir::Up);
        }
    } else {
        if in_bounds(g, x - 1, y) && in_bounds(g, x + 1, y) {
            lemma_distinct(g, x - 1, y, slot(Dir::Down), x + 1, y, slot(Dir::Down));
        }
    }
}

/// Graph symmetry: for every pair of edge nodes that link to each other, each one's
/// classification of the other (straight, concave or convex) is the same.
pub proof fn lemma_pair_symmetry(
    m: NavMesh,
    g: Grid,
    a: NodeId,
    b: NodeId,
    k1: EdgeNeighborKind,
    k2: EdgeNeighborKind,
)
    requires
        built_from(m, g),
        a < m.nodes@.len(),
        b < m.nodes@.len(),
        m.nodes@[a as int] is Some,
        m.nodes@[b as int] is Some,
        links_to(m.nodes@[a as int].unwrap(), b, k1),
        links_to(m.nodes@[b as int].unwrap(), a, k2),
    ensures
        k1 == k2,
{
    lemma_edge_symmetry(m, g, a as int, b, k1);
    lemma_link_kind_unique(m, g, b as int, a, k1, k2);
}

} // verus!
