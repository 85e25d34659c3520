use vstd::prelude::*;

use crate::types::{type_multiplier, WasteType};

verus! {

/// A submitted batch of recyclable material.
///
/// The identifier is handed out by the ledger's waste counter exactly once
/// and never reused.  A record is created unverified and is verified at
/// most once; verification is irreversible.
#[derive(Debug, PartialEq, Eq)]
pub struct Material {
    /// Unique sequential identifier, starting at 1.
    pub id: u64,
    /// The kind of material the batch consists of.
    pub waste_type: WasteType,
    /// Weight of the batch in grams.
    pub weight: u64,
    /// Identity of the participant that submitted the batch.
    pub submitter: u64,
    /// Ledger time at submission.
    pub timestamp: u64,
    /// Free-text description of the batch.
    pub description: String,
    /// Whether a recycler has verified the batch.
    pub verified: bool,
}

/// Reward points a batch is worth once verified: its weight in whole
/// kilograms (grams divided by 1000, truncating) times the per-type
/// multiplier, times ten.
pub open spec fn reward_points(weight: u64, t: WasteType) -> int {
    (weight as int / 1000) * type_multiplier(t) * 10
}

impl Clone for Material {
    /// Clones preserve the record exactly.
    fn clone(&self) -> (r: Self)
        ensures
            r == *self,
    {
        Material {
            id: self.id,
            waste_type: self.waste_type,
            weight: self.weight,
            submitter: self.submitter,
            timestamp: self.timestamp,
            description: self.description.clone(),
            verified: self.verified,
        }
    }
}

impl Material {
    /// A fresh, unverified record with the given contents.
    pub fn new(
        id: u64,
        waste_type: WasteType,
        weight: u64,
        submitter: u64,
        timestamp: u64,
        description: String,
    ) -> (m: Material)
        ensures
            m == (Material { id, waste_type, weight, submitter, timestamp, description, verified: false }),
    {
        Material { id, waste_type, weight, submitter, timestamp, description, verified: false }
    }

    /// Mark the record as verified.
    pub fn verify(&mut self)
        ensures
            *final(self) == (Material { verified: true, ..*old(self) }),
    {
        self.verified = true;
    }

    /// The reward points this batch is worth, or `None` where the product
    /// would not fit in 64 bits.
    pub fn calculate_reward_points(&self) -> (r: Option<u64>)
        ensures
            match r {
                Some(p) => p == reward_points(self.weight, self.waste_type),
                None => reward_points(self.weight, self.waste_type) > u64::MAX,
            },
    {
        let kg: u64 = self.weight / 1000;
        let mult: u64 = self.waste_type.multiplier();
        let base: u64 = match kg.checked_mul(mult) {
            Some(b) => b,
            None => {
                proof {
                    assert(kg * mult * 10 > u64::MAX) by (nonlinear_arith)
                        requires
                            kg * mult > u64::MAX,
                    ;
                }
                return None;
            },
        };
        base.checked_mul(10)
    }
}

} // verus!
