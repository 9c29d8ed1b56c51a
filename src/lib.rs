//! Navigation graph, pheromone topology and agent state machines of an ant colony
//! simulation.
//!
//! A level's tile grid becomes a graph of background nodes (open space) and edge nodes
//! (wall surfaces) whose links are classified at corners; the laws of that graph are in
//! [`laws`]. Agents move between surfaces by the decisions of [`position`] and cycle through
//! jobs by [`goal`].
pub mod clues;
pub mod goal;
pub mod grid;
pub mod job;
pub mod laws;
pub mod nav_mesh;
pub mod nav_mesh_lut;
pub mod pheromones;
pub mod position;
