use vstd::prelude::*;

use crate::types::{Error, ParticipantRole};

verus! {

/// A participant of the recycling programme.
///
/// Once a record exists its `address` never changes and the record is
/// never deleted; deregistration only clears `is_registered`.
/// Re-registration overwrites the record wholesale, zeroing the running
/// totals and stamping a fresh `registered_at`.
#[derive(Debug, PartialEq, Eq)]
pub struct Participant {
    /// Identity reference; also the key the record is stored under.
    pub address: u64,
    /// Current role.
    pub role: ParticipantRole,
    /// Display name.
    pub name: String,
    /// Latitude in fixed-point millionths of a degree.
    pub latitude: i128,
    /// Longitude in fixed-point millionths of a degree.
    pub longitude: i128,
    /// Cleared on deregistration; required for most restricted actions.
    pub is_registered: bool,
    /// Cumulative weight of this participant's submitted batches, grams.
    pub total_waste_processed: u128,
    /// Cumulative reward points earned through verification.
    pub total_tokens_earned: u128,
    /// Ledger time of the (most recent) registration.
    pub registered_at: u64,
}

impl Clone for Participant {
    /// Clones preserve the record exactly.
    fn clone(&self) -> (r: Self)
        ensures
            r == *self,
    {
        Participant {
            address: self.address,
            role: self.role,
            name: self.name.clone(),
            latitude: self.latitude,
            longitude: self.longitude,
            is_registered: self.is_registered,
            total_waste_processed: self.total_waste_processed,
            total_tokens_earned: self.total_tokens_earned,
            registered_at: self.registered_at,
        }
    }
}

/// The participant record after adding `weight` grams of processed waste
/// and `points` earned tokens to its running totals.  Meaningful only
/// where both sums fit in 128 bits.
pub open spec fn accumulated(p: Participant, weight: u64, points: u64) -> Participant {
    Participant {
        total_waste_processed: (p.total_waste_processed + weight) as u128,
        total_tokens_earned: (p.total_tokens_earned + points) as u128,
        ..p
    }
}

/// Whether both running totals still fit after adding `weight` and
/// `points`.
pub open spec fn accumulation_fits(p: Participant, weight: u64, points: u64) -> bool {
    p.total_waste_processed + weight <= u128::MAX && p.total_tokens_earned + points <= u128::MAX
}

impl Participant {
    /// Add to the running totals, failing (and changing nothing) where a
    /// sum would not fit.
    pub fn accumulate(&mut self, weight: u64, points: u64) -> (r: Result<(), Error>)
        ensures
            match r {
                Ok(()) => accumulation_fits(*old(self), weight, points) && *final(self)
                    == accumulated(*old(self), weight, points),
                Err(e) => e == Error::OverflowError && !accumulation_fits(
                    *old(self),
                    weight,
                    points,
                ) && *final(self) == *old(self),
            },
    {
        let new_waste: u128 = match self.total_waste_processed.checked_add(weight as u128) {
            Some(w) => w,
            None => { return Err(Error::OverflowError); },
        };
        let new_tokens: u128 = match self.total_tokens_earned.checked_add(points as u128) {
            Some(t) => t,
            None => { return Err(Error::OverflowError); },
        };
        self.total_waste_processed = new_waste;
        self.total_tokens_earned = new_tokens;
        Ok(())
    }
}

} // verus!
