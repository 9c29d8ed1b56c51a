//! Progress of the clue hunt.
use vstd::prelude::*;

verus! {

/// Which colours of the target ant have been revealed, and the pheromone views earned.
#[derive(Debug, Clone, Copy, PartialEq, Eq, Structural)]
pub struct Clues {
    pub z0_primary_color: bool,
    pub z0_secondary_color: bool,
    pub pheromone_view_charges: usize,
}

/// What a found clue reveals.
#[derive(Debug, Clone, Copy, PartialEq, Eq, Structural)]
pub enum ClueReveal {
    PrimaryColor,
    SecondaryColor,
    PheromoneViewCharge,
}

impl Clues {
    /// Reveals the next clue: the colour still hidden, the primary one when `coin` says so
    /// and both are hidden, else one more pheromone view charge.
    pub fn reveal_next(&mut self, coin: bool) -> (r: ClueReveal)
        requires
            old(self).z0_primary_color && old(self).z0_secondary_color
                ==> old(self).pheromone_view_charges < usize::MAX,
        ensures
            r == (if old(self).z0_primary_color && old(self).z0_secondary_color {
                ClueReveal::PheromoneViewCharge
            } else if old(self).z0_primary_color {
                ClueReveal::SecondaryColor
            } else if old(self).z0_secondary_color || coin {
                ClueReveal::PrimaryColor
            } else {
                ClueReveal::SecondaryColor
            }),
            final(self).pheromone_view_charges == old(self).pheromone_view_charges + (if r
                == ClueReveal::PheromoneViewCharge {
                1int
            } else {
                0
            }),
            final(self).z0_primary_color == (old(self).z0_primary_color || r == ClueReveal::PrimaryColor),
            final(self).z0_secondary_color == (old(self).z0_secondary_color || r
                == ClueReveal::SecondaryColor),
    {
        if self.z0_primary_color && self.z0_secondary_color {
            self.pheromone_view_charges = self.pheromone_view_charges + 1;
            ClueReveal::PheromoneViewCharge
        } else if self.z0_primary_color {
            self.z0_secondary_color = true;
            ClueReveal::SecondaryColor
        } else if self.z0_secondary_color || coin {
            self.z0_primary_color = true;
            ClueReveal::PrimaryColor
        } else {
            self.z0_secondary_color = true;
            ClueReveal::SecondaryColor
        }
    }
}

} // verus!
