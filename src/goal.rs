//! The goal cycle of an ant: carrying resources between objects.
use vstd::prelude::*;

use crate::job::{spec_follows, Job};
use crate::nav_mesh::NodeId;
use crate::pheromones::PheromoneKind;

verus! {

/// A resource store attached to a graph node; no quantity means an inexhaustible source.
#[derive(Debug, Clone, Copy, PartialEq, Eq, Structural)]
pub struct Object {
    pub kind: PheromoneKind,
    pub quantity: Option<u64>,
}

/// An ant's job and the units of resource it carries.
#[derive(Debug, Clone, Copy, PartialEq, Eq, Structural)]
pub struct AntGoal {
    pub job: Job,
    pub holds: u64,
}

pub open spec fn food_taken(q: Option<u64>) -> Option<u64> {
    match q {
        Some(n) => Some(if n >= 1 { (n - 1) as u64 } else { 0 }),
        None => None,
    }
}

pub open spec fn storage_filled(q: Option<u64>) -> Option<u64> {
    match q {
        Some(n) => Some((n + 1) as u64),
        None => None,
    }
}

pub open spec fn storage_robbed(q: Option<u64>) -> Option<u64> {
    match q {
        Some(n) => Some(if n >= 2 { (n - 2) as u64 } else { 0 }),
        None => None,
    }
}

/// The goal after reaching an object of kind `kind` holding `q`.
pub open spec fn goal_after(g: AntGoal, kind: PheromoneKind, q: Option<u64>) -> AntGoal {
    match kind {
        PheromoneKind::Food => AntGoal { job: Job::Storage, holds: 1 },
        PheromoneKind::Storage => match g.job {
            Job::Storage => AntGoal { job: Job::Food, holds: 0 },
            Job::Thief => AntGoal { job: Job::Offering, holds: 2 },
            _ => g,
        },
        _ => g,
    }
}

/// The quantity left in an object of kind `kind` after an ant with goal `g` reaches it.
pub open spec fn quantity_after(g: AntGoal, kind: PheromoneKind, q: Option<u64>) -> Option<u64> {
    match kind {
        PheromoneKind::Food => food_taken(q),
        PheromoneKind::Storage => match g.job {
            Job::Storage => storage_filled(q),
            Job::Thief => storage_robbed(q),
            _ => q,
        },
        _ => q,
    }
}

/// Whether the ant turns around on reaching the object.
pub open spec fn turns_around(g: AntGoal, kind: PheromoneKind, q: Option<u64>) -> bool {
    match kind {
        PheromoneKind::Food => true,
        PheromoneKind::Storage => match g.job {
            Job::Storage => true,
            Job::Thief => true,
            _ => false,
        },
        _ => false,
    }
}

/// An increment of a storage object cannot overflow.
pub open spec fn fill_fits(o: Object) -> bool {
    o.quantity matches Some(n) ==> n < u64::MAX
}

impl AntGoal {
    /// Takes one unit from a food object (an exhausted object stays at zero) and heads for
    /// storage. Returns whether the ant turns around, which it always does.
    pub fn reached_food_target(&mut self, object: &mut Object) -> (turn: bool)
        ensures
            *final(self) == (AntGoal { job: Job::Storage, holds: 1 }),
            final(object).quantity == food_taken(old(object).quantity),
            final(object).kind == old(object).kind,
            turn,
    {
        self.job = Job::Storage;
        if let Some(q) = object.quantity {
            object.quantity = Some(q.saturating_sub(1));
        }
        self.holds = 1;
        true
    }

    /// Hands the carried units to the queen's hoard when offering, then goes back to
    /// stealing. Returns whether the ant turns around.
    pub fn reached_zombqueen(&mut self, hoard: &mut u64) -> (turn: bool)
        requires
            old(self).job == Job::Offering ==> *old(hoard) + old(self).holds <= u64::MAX,
        ensures
            old(self).job == Job::Offering ==> *final(self) == (AntGoal { job: Job::Thief, holds: 0 })
                && *final(hoard) == *old(hoard) + old(self).holds && turn,
            old(self).job != Job::Offering ==> *final(self) == *old(self) && *final(hoard)
                == *old(hoard) && !turn,
    {
        match self.job {
            Job::Offering => {
                self.job = Job::Thief;
                *hoard = *hoard + self.holds;
                self.holds = 0;
                true
            },
            _ => false,
        }
    }

    /// Delivers one unit to a storage object (job `Storage`), or robs two units from it and
    /// carries them off to the queen (job `Thief`). An inexhaustible storage stays so. The
    /// ant turns around, which the result reports.
    pub fn reached_storage_target(&mut self, object: &mut Object) -> (turn: bool)
        requires
            old(self).job == Job::Storage || old(self).job == Job::Thief,
            old(self).job == Job::Storage ==> fill_fits(*old(object)),
        ensures
            *final(self) == goal_after(*old(self), PheromoneKind::Storage, old(object).quantity),
            final(object).quantity == quantity_after(
                *old(self),
                PheromoneKind::Storage,
                old(object).quantity,
            ),
            final(object).kind == old(object).kind,
            turn == turns_around(*old(self), PheromoneKind::Storage, old(object).quantity),
    {
        match self.job {
            Job::Storage => {
                self.job = Job::Food;
                if let Some(q) = object.quantity {
                    object.quantity = Some(q + 1);
                }
                self.holds = 0;
                true
            },
            Job::Thief => {
                self.job = Job::Offering;
                if let Some(q) = object.quantity {
                    object.quantity = Some(q.saturating_sub(2));
                }
                self.holds = 2;
                true
            },
            _ => false,
        }
    }

    /// Acts on the object at the ant's node according to the object's kind.
    pub fn reached_object(&mut self, object: &mut Object) -> (turn: bool)
        requires
            old(object).kind == PheromoneKind::Storage ==> old(self).job == Job::Storage
                || old(self).job == Job::Thief,
            old(object).kind == PheromoneKind::Storage && old(self).job == Job::Storage ==> fill_fits(
                *old(object),
            ),
        ensures
            *final(self) == goal_after(*old(self), old(object).kind, old(object).quantity),
            final(object).quantity == quantity_after(
                *old(self),
                old(object).kind,
                old(object).quantity,
            ),
            final(object).kind == old(object).kind,
            turn == turns_around(*old(self), old(object).kind, old(object).quantity),
    {
        match object.kind {
            PheromoneKind::Storage => self.reached_storage_target(object),
            PheromoneKind::Food => self.reached_food_target(object),
            _ => false,
        }
    }
}

/// Visits the object at an ant's current node: only an object of the kind that the ant's
/// job follows is acted on. Returns whether the ant turns around.
pub fn update_ant_goal(goal: &mut AntGoal, object: &mut Object) -> (turn: bool)
    requires
        old(object).kind == PheromoneKind::Storage && old(goal).job == Job::Storage ==> fill_fits(
            *old(object),
        ),
    ensures
        old(object).kind == spec_follows(old(goal).job) ==> *final(goal) == goal_after(
            *old(goal),
            old(object).kind,
            old(object).quantity,
        ) && final(object).quantity == quantity_after(
            *old(goal),
            old(object).kind,
            old(object).quantity,
        ) && turn == turns_around(*old(goal), old(object).kind, old(object).quantity),
        old(object).kind != spec_follows(old(goal).job) ==> *final(goal) == *old(goal)
            && final(object).quantity == old(object).quantity && !turn,
        final(object).kind == old(object).kind,
{
    if object.kind == goal.job.follows() {
        goal.reached_object(object)
    } else {
        false
    }
}

/// Meets the queen: an ant on the queen's node hands over what it offers (see
/// [`AntGoal::reached_zombqueen`]); elsewhere nothing changes. Returns whether the ant turns
/// around.
pub fn update_ant_queen(goal: &mut AntGoal, ant_node: NodeId, queen_node: NodeId, hoard: &mut u64) -> (turn: bool)
    requires
        ant_node == queen_node && old(goal).job == Job::Offering ==> *old(hoard) + old(goal).holds
            <= u64::MAX,
    ensures
        ant_node == queen_node && old(goal).job == Job::Offering ==> *final(goal) == (AntGoal {
            job: Job::Thief,
            holds: 0,
        }) && *final(hoard) == *old(hoard) + old(goal).holds && turn,
        !(ant_node == queen_node && old(goal).job == Job::Offering) ==> *final(goal) == *old(goal)
            && *final(hoard) == *old(hoard) && !turn,
{
    if ant_node == queen_node {
        goal.reached_zombqueen(hoard)
    } else {
        false
    }
}

pub open spec fn stored_sum(objects: Seq<Object>) -> int
    decreases objects.len(),
{
    if objects.len() == 0 {
        0
    } else {
        let last = objects.last();
        stored_sum(objects.drop_last()) + if last.kind == PheromoneKind::Storage {
            match last.quantity {
                Some(q) => q as int,
                None => 0,
            }
        } else {
            0
        }
    }
}

/// Total quantity held by storage objects; an unbounded storage counts as zero.
pub fn stored_food(objects: &Vec<Object>) -> (r: u128)
    ensures
        r == stored_sum(objects@),
{
    let mut total: u128 = 0;
    let mut i: usize = 0;
    while i < objects.len()
        invariant
            i <= objects@.len(),
            total == stored_sum(objects@.take(i as int)),
            total <= i * (u64::MAX as int),
        decreases objects@.len() - i,
    {
        let o = objects[i];
        proof {
            assert(objects@.take(i as int + 1).drop_last() == objects@.take(i as int));
            assert(objects@.take(i as int + 1).last() == o);
            assert(i * (u64::MAX as int) + u64::MAX <= (usize::MAX as int) * (u64::MAX as int))
                by (nonlinear_arith)
                requires
                    i < usize::MAX,
            ;
        }
        if o.kind == PheromoneKind::Storage {
            if let Some(q) = o.quantity {
                total = total + q as u128;
            }
        }
        i = i + 1;
    }
    proof {
        assert(objects@.take(objects@.len() as int) == objects@);
    }
    total
}

pub open spec fn food_storage_cycle(kind_index: nat) -> PheromoneKind {
    if kind_index % 2 == 0 {
        PheromoneKind::Food
    } else {
        PheromoneKind::Storage
    }
}

/// The goal after the first `n` visits of a walk that alternates between a food object
/// and a storage object, starting with food; `qs[k]` is what the `k`-th object holds.
pub open spec fn goal_after_cycle(g: AntGoal, qs: Seq<Option<u64>>, n: nat) -> AntGoal
    decreases n,
{
    if n == 0 {
        g
    } else {
        goal_after(
            goal_after_cycle(g, qs, (n - 1) as nat),
            food_storage_cycle((n - 1) as nat),
            qs[n - 1],
        )
    }
}

/// Goal cycle: an ant gathering food that reaches food and storage objects in turn goes
/// Food, Storage, Food, Storage, ..., carrying 1 after each food object and 0 after each
/// storage object, whatever the objects hold.
pub proof fn lemma_food_storage_cycle(g: AntGoal, qs: Seq<Option<u64>>, n: nat)
    requires
        g.job == Job::Food,
    ensures
        n % 2 == 1 ==> goal_after_cycle(g, qs, n) == (AntGoal { job: Job::Storage, holds: 1 }),
        n > 0 && n % 2 == 0 ==> goal_after_cycle(g, qs, n) == (AntGoal { job: Job::Food, holds: 0 }),
    decreases n,
{
    if n > 0 {
        lemma_food_storage_cycle(g, qs, (n - 1) as nat);
    }
}

} // verus!
