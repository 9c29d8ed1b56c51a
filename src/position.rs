//! Which surface an ant walks on, and how collision contacts move it between surfaces.
use vstd::prelude::*;

use crate::grid::Dir;
use crate::nav_mesh::{EdgeNeighbor, NavMesh, NavNode, NodeId};

verus! {

/// The surface an ant is attached to.
#[derive(Debug, Clone, Copy, PartialEq, Eq, Structural)]
pub enum AntPositionKind {
    Background,
    VerticalWall { is_left_side: bool },
    HorizontalWall { is_up_side: bool },
}

pub open spec fn kind_on(n: NavNode) -> AntPositionKind {
    match n {
        NavNode::Background { .. } => AntPositionKind::Background,
        NavNode::VerticalEdge { is_left_side, .. } => AntPositionKind::VerticalWall { is_left_side },
        NavNode::HorizontalEdge { is_up_side, .. } => AntPositionKind::HorizontalWall { is_up_side },
    }
}

impl AntPositionKind {
    /// The position kind of an ant spawned on `node`.
    pub fn on_node(node: &NavNode) -> (r: AntPositionKind)
        ensures
            r == kind_on(*node),
    {
        match node {
            NavNode::Background { .. } => AntPositionKind::Background,
            NavNode::VerticalEdge { is_left_side, .. } => AntPositionKind::VerticalWall {
                is_left_side: *is_left_side,
            },
            NavNode::HorizontalEdge { is_up_side, .. } => AntPositionKind::HorizontalWall {
                is_up_side: *is_up_side,
            },
        }
    }
}

/// What the collision system and the ant's own state report for one tick.
#[derive(Debug, Clone, Copy, PartialEq, Eq, Structural)]
pub struct PositionInput {
    pub kind: AntPositionKind,
    /// The node the ant is recorded on.
    pub current: NodeId,
    /// The depth coordinate is at or below the wall clipping threshold.
    pub below_clipping: bool,
    /// The nearest wall node among the contacts, if any.
    pub closest_wall: Option<NodeId>,
    /// No contact at all this tick.
    pub contacts_empty: bool,
    /// The ant heads toward positive x.
    pub heading_right: bool,
    /// The ant heads toward negative y (down on screen).
    pub heading_down: bool,
}

/// What to do with the ant this tick.
#[derive(Debug, Clone, Copy, PartialEq, Eq, Structural)]
pub enum PositionAction {
    /// Nothing changes.
    Stay,
    /// Attach to a floor or ceiling node.
    PlaceOnHorizontalWall { node: NodeId, is_up_side: bool },
    /// Attach to a side wall node.
    PlaceOnVerticalWall { node: NodeId, is_left_side: bool },
    /// Stay on the same kind of wall, now recorded on `node`.
    SetCurrentNode { node: NodeId },
    /// Step off the wall into open space, nudged toward `push`.
    ToBackground { push: Dir },
    /// A surface edge has nothing behind it: hold the depth at zero.
    ClampDepth,
    /// The ant's state contradicts the graph (a missed collision): remove the ant.
    Remove,
}

pub open spec fn node_of(m: NavMesh, id: NodeId) -> Option<NavNode> {
    if id < m.nodes@.len() {
        m.nodes@[id as int]
    } else {
        None
    }
}

/// Attach to the contacted wall, whatever its orientation.
pub open spec fn attach(m: NavMesh, id: NodeId) -> PositionAction {
    match node_of(m, id) {
        Some(NavNode::HorizontalEdge { is_up_side, .. }) => PositionAction::PlaceOnHorizontalWall {
            node: id,
            is_up_side,
        },
        Some(NavNode::VerticalEdge { is_left_side, .. }) => PositionAction::PlaceOnVerticalWall {
            node: id,
            is_left_side,
        },
        _ => PositionAction::Remove,
    }
}

/// Past a convex corner of a floor or ceiling: continue on the side wall that the current
/// node links to in the direction of travel.
pub open spec fn turn_from_horizontal(m: NavMesh, inp: PositionInput) -> PositionAction {
    let new_left = inp.heading_right;
    match node_of(m, inp.current) {
        Some(NavNode::HorizontalEdge { left, right, .. }) => {
            let next = if new_left { right } else { left };
            match next.target() {
                Some(id) => match node_of(m, id) {
                    Some(NavNode::VerticalEdge { is_left_side, .. }) => if is_left_side == new_left {
                        PositionAction::PlaceOnVerticalWall { node: id, is_left_side }
                    } else {
                        PositionAction::Remove
                    },
                    _ => PositionAction::Remove,
                },
                None => PositionAction::Remove,
            }
        },
        _ => PositionAction::Remove,
    }
}

/// Past a convex corner of a side wall: continue on the floor or ceiling that the current
/// node links to in the direction of travel; where the wall's link leads into open space
/// (a side wall cut short above a surface edge), step off into it.
pub open spec fn turn_from_vertical(m: NavMesh, inp: PositionInput) -> PositionAction {
    let new_up = inp.heading_down;
    match node_of(m, inp.current) {
        Some(NavNode::VerticalEdge { up, down, is_left_side, .. }) => {
            let id = if new_up { down } else { up };
            match node_of(m, id) {
                Some(NavNode::HorizontalEdge { is_up_side, .. }) => if is_up_side == new_up {
                    PositionAction::PlaceOnHorizontalWall { node: id, is_up_side }
                } else {
                    PositionAction::Remove
                },
                Some(NavNode::Background { .. }) => PositionAction::ToBackground {
                    push: if is_left_side { Dir::Right } else { Dir::Left },
                },
                _ => PositionAction::Remove,
            }
        },
        _ => PositionAction::Remove,
    }
}

pub open spec fn spec_position_step(m: NavMesh, inp: PositionInput) -> PositionAction {
    match inp.kind {
        AntPositionKind::Background => match inp.closest_wall {
            Some(id) => attach(m, id),
            None => PositionAction::Stay,
        },
        AntPositionKind::HorizontalWall { is_up_side } => if inp.below_clipping {
            match node_of(m, inp.current) {
                Some(NavNode::HorizontalEdge { back, .. }) => if back is Some {
                    PositionAction::ToBackground { push: if is_up_side { Dir::Down } else { Dir::Up } }
                } else {
                    PositionAction::ClampDepth
                },
                _ => PositionAction::Remove,
            }
        } else if let Some(id) = inp.closest_wall {
            match node_of(m, id) {
                Some(NavNode::VerticalEdge { is_left_side, .. }) => PositionAction::PlaceOnVerticalWall {
                    node: id,
                    is_left_side,
                },
                Some(NavNode::HorizontalEdge { .. }) => PositionAction::SetCurrentNode { node: id },
                _ => PositionAction::Remove,
            }
        } else if inp.contacts_empty {
            turn_from_horizontal(m, inp)
        } else {
            PositionAction::Stay
        },
        AntPositionKind::VerticalWall { is_left_side } => if inp.below_clipping {
            PositionAction::ToBackground { push: if is_left_side { Dir::Right } else { Dir::Left } }
        } else if let Some(id) = inp.closest_wall {
            match node_of(m, id) {
                Some(NavNode::HorizontalEdge { is_up_side, .. }) => PositionAction::PlaceOnHorizontalWall {
                    node: id,
                    is_up_side,
                },
                Some(NavNode::VerticalEdge { .. }) => PositionAction::SetCurrentNode { node: id },
                _ => PositionAction::Remove,
            }
        } else if inp.contacts_empty {
            turn_from_vertical(m, inp)
        } else {
            PositionAction::Stay
        },
    }
}

/// The position kind after `a` is carried out on an ant of kind `k`.
pub open spec fn kind_after(k: AntPositionKind, a: PositionAction) -> AntPositionKind {
    match a {
        PositionAction::PlaceOnHorizontalWall { is_up_side, .. } => AntPositionKind::HorizontalWall {
            is_up_side,
        },
        PositionAction::PlaceOnVerticalWall { is_left_side, .. } => AntPositionKind::VerticalWall {
            is_left_side,
        },
        PositionAction::ToBackground { .. } => AntPositionKind::Background,
        _ => k,
    }
}

fn get_node(m: &NavMesh, id: NodeId) -> (r: Option<NavNode>)
    ensures
        r == node_of(*m, id),
{
    if id < m.nodes.len() {
        m.nodes[id]
    } else {
        None
    }
}

fn attach_to(m: &NavMesh, id: NodeId) -> (r: PositionAction)
    ensures
        r == attach(*m, id),
{
    match get_node(m, id) {
        Some(NavNode::HorizontalEdge { is_up_side, .. }) => PositionAction::PlaceOnHorizontalWall {
            node: id,
            is_up_side,
        },
        Some(NavNode::VerticalEdge { is_left_side, .. }) => PositionAction::PlaceOnVerticalWall {
            node: id,
            is_left_side,
        },
        _ => PositionAction::Remove,
    }
}

fn turn_horizontal(m: &NavMesh, inp: &PositionInput) -> (r: PositionAction)
    ensures
        r == turn_from_horizontal(*m, *inp),
{
    let new_left = inp.heading_right;
    match get_node(m, inp.current) {
        Some(NavNode::HorizontalEdge { left, right, .. }) => {
            let next: EdgeNeighbor = if new_left { right } else { left };
            match next.get() {
                Some(id) => match get_node(m, id) {
                    Some(NavNode::VerticalEdge { is_left_side, .. }) => {
                        if is_left_side == new_left {
                            PositionAction::PlaceOnVerticalWall { node: id, is_left_side }
                        } else {
                            PositionAction::Remove
                        }
                    },
                    _ => PositionAction::Remove,
                },
                None => PositionAction::Remove,
            }
        },
        _ => PositionAction::Remove,
    }
}

fn turn_vertical(m: &NavMesh, inp: &PositionInput) -> (r: PositionAction)
    ensures
        r == turn_from_vertical(*m, *inp),
{
    let new_up = inp.heading_down;
    match get_node(m, inp.current) {
        Some(NavNode::VerticalEdge { up, down, is_left_side, .. }) => {
            let id = if new_up { down } else { up };
            match get_node(m, id) {
                Some(NavNode::HorizontalEdge { is_up_side, .. }) => {
                    if is_up_side == new_up {
                        PositionAction::PlaceOnHorizontalWall { node: id, is_up_side }
                    } else {
                        PositionAction::Remove
                    }
                },
                Some(NavNode::Background { .. }) => PositionAction::ToBackground {
                    push: if is_left_side { Dir::Right } else { Dir::Left },
                },
                _ => PositionAction::Remove,
            }
        },
        _ => PositionAction::Remove,
    }
}

/// Decides one tick of the surface state machine. From open space the ant attaches to the
/// nearest contacted wall. On a wall it steps off into open space once its depth falls to
/// the clipping threshold (a surface edge with nothing behind only clamps the depth),
/// switches to a contacted wall of the other orientation, follows a contacted wall of the
/// same orientation, or, with no contact left, turns the convex corner onto the wall that
/// the graph links in its direction of travel. A state that contradicts the graph removes
/// the ant.
pub fn update_ant_position_kind(m: &NavMesh, inp: &PositionInput) -> (r: PositionAction)
    ensures
        r == spec_position_step(*m, *inp),
{
    match inp.kind {
        AntPositionKind::Background => match inp.closest_wall {
            Some(id) => attach_to(m, id),
            None => PositionAction::Stay,
        },
        AntPositionKind::HorizontalWall { is_up_side } => {
            if inp.below_clipping {
                match get_node(m, inp.current) {
                    Some(NavNode::HorizontalEdge { back, .. }) => {
                        if back.is_some() {
                            PositionAction::ToBackground {
                                push: if is_up_side { Dir::Down } else { Dir::Up },
                            }
                        } else {
                            PositionAction::ClampDepth
                        }
                    },
                    _ => PositionAction::Remove,
                }
            } else if let Some(id) = inp.closest_wall {
                match get_node(m, id) {
                    Some(NavNode::VerticalEdge { is_left_side, .. }) => {
                        PositionAction::PlaceOnVerticalWall { node: id, is_left_side }
                    },
                    Some(NavNode::HorizontalEdge { .. }) => PositionAction::SetCurrentNode { node: id },
                    _ => PositionAction::Remove,
                }
            } else if inp.contacts_empty {
                turn_horizontal(m, inp)
            } else {
                PositionAction::Stay
            }
        },
        AntPositionKind::VerticalWall { is_left_side } => {
            if inp.below_clipping {
                PositionAction::ToBackground {
                    push: if is_left_side { Dir::Right } else { Dir::Left },
                }
            } else if let Some(id) = inp.closest_wall {
                match get_node(m, id) {
                    Some(NavNode::HorizontalEdge { is_up_side, .. }) => {
                        PositionAction::PlaceOnHorizontalWall { node: id, is_up_side }
                    },
                    Some(NavNode::VerticalEdge { .. }) => PositionAction::SetCurrentNode { node: id },
                    _ => PositionAction::Remove,
                }
            } else if inp.contacts_empty {
                turn_vertical(m, inp)
            } else {
                PositionAction::Stay
            }
        },
    }
}

/// The kind of the node an ant is recorded on agrees with its position kind.
pub open spec fn consistent(m: NavMesh, k: AntPositionKind, current: NodeId) -> bool {
    match node_of(m, current) {
        Some(n) => match (k, n) {
            (AntPositionKind::Background, NavNode::Background { .. }) => true,
            (AntPositionKind::VerticalWall { .. }, NavNode::VerticalEdge { .. }) => true,
            (AntPositionKind::HorizontalWall { .. }, NavNode::HorizontalEdge { .. }) => true,
            _ => false,
        },
        None => false,
    }
}

/// Whether an ant's position kind matches the node it is recorded on.
pub fn assert_ant(m: &NavMesh, kind: AntPositionKind, current: NodeId) -> (r: bool)
    ensures
        r == consistent(*m, kind, current),
{
    match get_node(m, current) {
        Some(n) => match (kind, n) {
            (AntPositionKind::Background, NavNode::Background { .. }) => true,
            (AntPositionKind::VerticalWall { .. }, NavNode::VerticalEdge { .. }) => true,
            (AntPositionKind::HorizontalWall { .. }, NavNode::HorizontalEdge { .. }) => true,
            _ => false,
        },
        None => false,
    }
}

/// Surface consistency: a wall move records the ant on a node of the new orientation, so
/// that after a placement or a node update on a wall the recorded node agrees with the new
/// position kind.
pub proof fn lemma_wall_moves_consistent(m: NavMesh, inp: PositionInput)
    ensures
        match spec_position_step(m, inp) {
            PositionAction::PlaceOnHorizontalWall { node, .. } => consistent(
                m,
                kind_after(inp.kind, spec_position_step(m, inp)),
                node,
            ),
            PositionAction::PlaceOnVerticalWall { node, .. } => consistent(
                m,
                kind_after(inp.kind, spec_position_step(m, inp)),
                node,
            ),
            PositionAction::SetCurrentNode { node } => consistent(m, inp.kind, node),
            _ => true,
        },
{
}

} // verus!
