//! The jobs of an ant and the pheromone each one follows.
use vstd::prelude::*;

use crate::pheromones::PheromoneKind;

verus! {

#[derive(Debug, Clone, Copy, PartialEq, Eq, Structural)]
pub enum Job {
    Wander,
    Food,
    Storage,
    Thief,
    Offering,
}

pub open spec fn spec_follows(j: Job) -> PheromoneKind {
    match j {
        Job::Wander => PheromoneKind::Default,
        Job::Food => PheromoneKind::Food,
        Job::Storage => PheromoneKind::Storage,
        Job::Thief => PheromoneKind::Storage,
        Job::Offering => PheromoneKind::Zombqueen,
    }
}

pub open spec fn spec_next_job(j: Job) -> Job {
    match j {
        Job::Wander => Job::Wander,
        Job::Food => Job::Storage,
        Job::Storage => Job::Food,
        Job::Thief => Job::Offering,
        Job::Offering => Job::Thief,
    }
}

impl Job {
    /// The pheromone channel that an ant with this job steers by.
    pub fn follows(&self) -> (r: PheromoneKind)
        ensures
            r == spec_follows(*self),
    {
        match self {
            Job::Wander => PheromoneKind::Default,
            Job::Food => PheromoneKind::Food,
            Job::Storage => PheromoneKind::Storage,
            Job::Thief => PheromoneKind::Storage,
            Job::Offering => PheromoneKind::Zombqueen,
        }
    }

    /// The job taken up once this one's target is reached.
    pub fn next_job(&self) -> (r: Job)
        ensures
            r == spec_next_job(*self),
    {
        match self {
            Job::Wander => Job::Wander,
            Job::Food => Job::Storage,
            Job::Storage => Job::Food,
            Job::Thief => Job::Offering,
            Job::Offering => Job::Thief,
        }
    }
}

impl Default for Job {
    fn default() -> (r: Job)
        ensures
            r == Job::Wander,
    {
        Job::Wander
    }
}

} // verus!
