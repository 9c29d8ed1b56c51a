//! Pheromone channels and the topology that diffusion and gradients read.
use vstd::prelude::*;

use crate::nav_mesh::{NavMesh, NavNode, NodeId};

verus! {

/// The scent signals diffused over the graph, one concentration channel each.
#[derive(Debug, Clone, Copy, PartialEq, Eq, Structural)]
pub enum PheromoneKind {
    Default,
    Storage,
    Food,
    Zombqueen,
    Zombant,
}

/// Number of pheromone channels.
pub const N_PHEROMONE_KINDS: usize = 5;

pub open spec fn channel(k: PheromoneKind) -> int {
    match k {
        PheromoneKind::Default => 0,
        PheromoneKind::Storage => 1,
        PheromoneKind::Food => 2,
        PheromoneKind::Zombqueen => 3,
        PheromoneKind::Zombant => 4,
    }
}

impl PheromoneKind {
    /// Index of this channel in per-node concentration arrays.
    pub fn index(&self) -> (r: usize)
        ensures
            r == channel(*self),
            r < N_PHEROMONE_KINDS,
    {
        match self {
            PheromoneKind::Default => 0,
            PheromoneKind::Storage => 1,
            PheromoneKind::Food => 2,
            PheromoneKind::Zombqueen => 3,
            PheromoneKind::Zombant => 4,
        }
    }
}

/// The component of a gradient vector that a neighbour's concentration adds to.
#[derive(Debug, Clone, Copy, PartialEq, Eq, Structural)]
pub enum GradientComponent {
    Up,
    Down,
    Left,
    Right,
    /// Toward the open space behind a wall (negative depth).
    Background,
    /// Toward a wall in front of open space (positive depth).
    Foreground,
}

pub open spec fn is_background_node(m: NavMesh, id: NodeId) -> bool {
    id < m.nodes@.len() && m.nodes@[id as int] matches Some(NavNode::Background { .. })
}

/// A neighbour of a background node counts in its own direction when it is open space,
/// and toward the foreground when it is a wall.
pub open spec fn planar_or_foreground(m: NavMesh, id: NodeId, c: GradientComponent) -> (NodeId, GradientComponent) {
    if is_background_node(m, id) {
        (id, c)
    } else {
        (id, GradientComponent::Foreground)
    }
}

pub open spec fn opt_source(o: Option<NodeId>, c: GradientComponent) -> Seq<(NodeId, GradientComponent)> {
    match o {
        Some(id) => seq![(id, c)],
        None => Seq::empty(),
    }
}

/// The neighbours whose concentrations make up a node's gradient, each with the component
/// it adds to; absent links contribute nothing.
pub open spec fn spec_gradient_sources(m: NavMesh, n: NavNode) -> Seq<(NodeId, GradientComponent)> {
    match n {
        NavNode::Background { up, left, down, right } => seq![
            planar_or_foreground(m, up, GradientComponent::Up),
            planar_or_foreground(m, down, GradientComponent::Down),
            planar_or_foreground(m, left, GradientComponent::Left),
            planar_or_foreground(m, right, GradientComponent::Right),
        ],
        NavNode::VerticalEdge { up, down, back, .. } => seq![
            (up, GradientComponent::Up),
            (down, GradientComponent::Down),
            (back, GradientComponent::Background),
        ],
        NavNode::HorizontalEdge { left, right, back, .. } => opt_source(
            left.target(),
            GradientComponent::Left,
        ) + opt_source(right.target(), GradientComponent::Right) + opt_source(
            back,
            GradientComponent::Background,
        ),
    }
}

fn is_background_at(m: &NavMesh, id: NodeId) -> (r: bool)
    ensures
        r == is_background_node(*m, id),
{
    if id < m.nodes.len() {
        match m.nodes[id] {
            Some(NavNode::Background { .. }) => true,
            _ => false,
        }
    } else {
        false
    }
}

fn classify(m: &NavMesh, id: NodeId, c: GradientComponent) -> (r: (NodeId, GradientComponent))
    ensures
        r == planar_or_foreground(*m, id, c),
{
    if is_background_at(m, id) {
        (id, c)
    } else {
        (id, GradientComponent::Foreground)
    }
}

/// Which neighbour feeds which component of the gradient of `node`.
pub fn gradient_sources(m: &NavMesh, node: &NavNode) -> (r: Vec<(NodeId, GradientComponent)>)
    ensures
        r@ == spec_gradient_sources(*m, *node),
{
    match node {
        NavNode::Background { up, left, down, right } => vec![
            classify(m, *up, GradientComponent::Up),
            classify(m, *down, GradientComponent::Down),
            classify(m, *left, GradientComponent::Left),
            classify(m, *right, GradientComponent::Right),
        ],
        NavNode::VerticalEdge { up, down, back, .. } => vec![
            (*up, GradientComponent::Up),
            (*down, GradientComponent::Down),
            (*back, GradientComponent::Background),
        ],
        NavNode::HorizontalEdge { left, right, back, .. } => {
            let mut r: Vec<(NodeId, GradientComponent)> = Vec::new();
            if let Some(e) = left.get() {
                r.push((e, GradientComponent::Left));
            }
            if let Some(e) = right.get() {
                r.push((e, GradientComponent::Right));
            }
            if let Some(e) = back {
                r.push((*e, GradientComponent::Background));
            }
            proof {
                assert(r@ =~= spec_gradient_sources(*m, *node));
            }
            r
        },
    }
}

/// Overwrites the concentrations of each node that has a source with the source's values;
/// sources are fixed emitters, not additions. Entries without a matching source stay.
pub fn apply_sources<T: Copy>(
    concentrations: &mut Vec<[T; N_PHEROMONE_KINDS]>,
    sources: &Vec<Option<[T; N_PHEROMONE_KINDS]>>,
)
    ensures
        final(concentrations)@.len() == old(concentrations)@.len(),
        forall|i: int|
            0 <= i < old(concentrations)@.len() ==> #[trigger] final(concentrations)@[i] == (
            if i < sources@.len() && sources@[i] is Some {
                sources@[i].unwrap()
            } else {
                old(concentrations)@[i]
            }),
{
    let mut i: usize = 0;
    while i < concentrations.len()
        invariant
            concentrations@.len() == old(concentrations)@.len(),
            forall|j: int|
                0 <= j < i ==> #[trigger] concentrations@[j] == (if j < sources@.len()
                    && sources@[j] is Some {
                    sources@[j].unwrap()
                } else {
                    old(concentrations)@[j]
                }),
            forall|j: int| i <= j < concentrations@.len() ==> #[trigger] concentrations@[j] == old(concentrations)@[j],
        decreases concentrations@.len() - i,
    {
        if i < sources.len() {
            if let Some(values) = sources[i] {
                concentrations.set(i, values);
            }
        }
        i = i + 1;
    }
}

} // verus!
