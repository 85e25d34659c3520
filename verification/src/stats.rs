use vstd::prelude::*;

use crate::material::{reward_points, Material};
use crate::types::{Error, WasteType};

verus! {

/// Running per-participant statistics: a fold over that participant's
/// submission and verification events.  A stats record is created lazily
/// on the participant's first submission and never destroyed.
#[derive(Clone, Copy, Debug, PartialEq, Eq, Structural)]
pub struct RecyclingStats {
    /// The participant these statistics belong to.
    pub participant: u64,
    /// Number of batches submitted.
    pub total_submissions: u64,
    /// Number of those batches that have been verified.
    pub verified_submissions: u64,
    /// Cumulative weight of submitted batches, grams.
    pub total_weight: u64,
    /// Cumulative reward points granted on verification.
    pub total_points: u64,
    /// Number of submitted paper batches.
    pub paper_count: u64,
    /// Number of submitted PET plastic batches.
    pub pet_plastic_count: u64,
    /// Number of submitted plastic batches.
    pub plastic_count: u64,
    /// Number of submitted metal batches.
    pub metal_count: u64,
    /// Number of submitted glass batches.
    pub glass_count: u64,
}

/// A zeroed statistics record for `participant`.
pub open spec fn new_stats(participant: u64) -> RecyclingStats {
    RecyclingStats {
        participant,
        total_submissions: 0,
        verified_submissions: 0,
        total_weight: 0,
        total_points: 0,
        paper_count: 0,
        pet_plastic_count: 0,
        plastic_count: 0,
        metal_count: 0,
        glass_count: 0,
    }
}

/// The statistics after recording one submitted batch of type `t` and
/// weight `weight`.  Meaningful only where [`submission_fits`] holds.
pub open spec fn recorded_submission(s: RecyclingStats, t: WasteType, weight: u64) -> RecyclingStats {
    let bumped = RecyclingStats {
        total_submissions: (s.total_submissions + 1) as u64,
        total_weight: (s.total_weight + weight) as u64,
        ..s
    };
    match t {
        WasteType::Paper => RecyclingStats { paper_count: (s.paper_count + 1) as u64, ..bumped },
        WasteType::PetPlastic => RecyclingStats {
            pet_plastic_count: (s.pet_plastic_count + 1) as u64,
            ..bumped
        },
        WasteType::Plastic => RecyclingStats {
            plastic_count: (s.plastic_count + 1) as u64,
            ..bumped
        },
        WasteType::Metal => RecyclingStats { metal_count: (s.metal_count + 1) as u64, ..bumped },
        WasteType::Glass => RecyclingStats { glass_count: (s.glass_count + 1) as u64, ..bumped },
    }
}

/// The per-type submission count `s` keeps for `t`.
pub open spec fn count_for(s: RecyclingStats, t: WasteType) -> u64 {
    match t {
        WasteType::Paper => s.paper_count,
        WasteType::PetPlastic => s.pet_plastic_count,
        WasteType::Plastic => s.plastic_count,
        WasteType::Metal => s.metal_count,
        WasteType::Glass => s.glass_count,
    }
}

/// Whether every counter touched by recording a submission still fits.
pub open spec fn submission_fits(s: RecyclingStats, t: WasteType, weight: u64) -> bool {
    &&& s.total_submissions < u64::MAX
    &&& s.total_weight + weight <= u64::MAX
    &&& count_for(s, t) < u64::MAX
}

/// The statistics after recording the verification of `m`.  Meaningful
/// only where [`verification_fits`] holds.
pub open spec fn recorded_verification(s: RecyclingStats, m: Material) -> RecyclingStats {
    RecyclingStats {
        verified_submissions: (s.verified_submissions + 1) as u64,
        total_points: (s.total_points + reward_points(m.weight, m.waste_type)) as u64,
        ..s
    }
}

/// Whether the reward of `m` and the counters touched by recording its
/// verification still fit.
pub open spec fn verification_fits(s: RecyclingStats, m: Material) -> bool {
    &&& s.verified_submissions < u64::MAX
    &&& reward_points(m.weight, m.waste_type) <= u64::MAX
    &&& s.total_points + reward_points(m.weight, m.waste_type) <= u64::MAX
}

/// Verified submissions as a floor percentage of total submissions, with
/// an empty record rated 0.
pub open spec fn spec_verification_rate(s: RecyclingStats) -> int {
    if s.total_submissions == 0 {
        0
    } else {
        s.verified_submissions * 100 / s.total_submissions as int
    }
}

impl RecyclingStats {
    /// A zeroed statistics record for `participant`.
    pub fn new(participant: u64) -> (s: Self)
        ensures
            s == new_stats(participant),
    {
        RecyclingStats {
            participant,
            total_submissions: 0,
            verified_submissions: 0,
            total_weight: 0,
            total_points: 0,
            paper_count: 0,
            pet_plastic_count: 0,
            plastic_count: 0,
            metal_count: 0,
            glass_count: 0,
        }
    }

    /// Record one submitted batch, failing (and changing nothing) where a
    /// counter would overflow.
    pub fn record_submission(&mut self, m: &Material) -> (r: Result<(), Error>)
        ensures
            match r {
                Ok(()) => submission_fits(*old(self), m.waste_type, m.weight) && *final(self)
                    == recorded_submission(*old(self), m.waste_type, m.weight),
                Err(e) => e == Error::OverflowError && !submission_fits(
                    *old(self),
                    m.waste_type,
                    m.weight,
                ) && *final(self) == *old(self),
            },
    {
        let total: u64 = match self.total_submissions.checked_add(1) {
            Some(v) => v,
            None => { return Err(Error::OverflowError); },
        };
        let weight: u64 = match self.total_weight.checked_add(m.weight) {
            Some(v) => v,
            None => { return Err(Error::OverflowError); },
        };
        let bucket: u64 = match self.type_count(m.waste_type).checked_add(1) {
            Some(v) => v,
            None => { return Err(Error::OverflowError); },
        };
        self.total_submissions = total;
        self.total_weight = weight;
        self.set_type_count(m.waste_type, bucket);
        Ok(())
    }

    /// Record the verification of `m`, failing (and changing nothing)
    /// where the reward or a counter would overflow.
    pub fn record_verification(&mut self, m: &Material) -> (r: Result<(), Error>)
        ensures
            match r {
                Ok(()) => verification_fits(*old(self), *m) && *final(self)
                    == recorded_verification(*old(self), *m),
                Err(e) => e == Error::OverflowError && !verification_fits(*old(self), *m)
                    && *final(self) == *old(self),
            },
    {
        let reward: u64 = match m.calculate_reward_points() {
            Some(p) => p,
            None => { return Err(Error::OverflowError); },
        };
        let verified: u64 = match self.verified_submissions.checked_add(1) {
            Some(v) => v,
            None => { return Err(Error::OverflowError); },
        };
        let points: u64 = match self.total_points.checked_add(reward) {
            Some(v) => v,
            None => { return Err(Error::OverflowError); },
        };
        self.verified_submissions = verified;
        self.total_points = points;
        Ok(())
    }

    /// The per-type submission count kept for `t`.
    pub fn type_count(&self, t: WasteType) -> (r: u64)
        ensures
            r == count_for(*self, t),
    {
        match t {
            WasteType::Paper => self.paper_count,
            WasteType::PetPlastic => self.pet_plastic_count,
            WasteType::Plastic => self.plastic_count,
            WasteType::Metal => self.metal_count,
            WasteType::Glass => self.glass_count,
        }
    }

    fn set_type_count(&mut self, t: WasteType, v: u64)
        ensures
            *final(self) == match t {
                WasteType::Paper => (RecyclingStats { paper_count: v, ..*old(self) }),
                WasteType::PetPlastic => (RecyclingStats { pet_plastic_count: v, ..*old(self) }),
                WasteType::Plastic => (RecyclingStats { plastic_count: v, ..*old(self) }),
                WasteType::Metal => (RecyclingStats { metal_count: v, ..*old(self) }),
                WasteType::Glass => (RecyclingStats { glass_count: v, ..*old(self) }),
            },
    {
        match t {
            WasteType::Paper => { self.paper_count = v; },
            WasteType::PetPlastic => { self.pet_plastic_count = v; },
            WasteType::Plastic => { self.plastic_count = v; },
            WasteType::Metal => { self.metal_count = v; },
            WasteType::Glass => { self.glass_count = v; },
        }
    }

    /// Verified submissions as a floor percentage of total submissions;
    /// a record with no submissions is rated 0.
    pub fn verification_rate(&self) -> (r: u64)
        requires
            self.verified_submissions <= self.total_submissions,
        ensures
            r == spec_verification_rate(*self),
            r <= 100,
    {
        if self.total_submissions == 0 {
            0
        } else {
            let rate: u128 = (self.verified_submissions as u128) * 100
                / (self.total_submissions as u128);
            proof {
                assert(self.verified_submissions as int * 100 / self.total_submissions as int
                    <= 100) by (nonlinear_arith)
                    requires
                        0 < self.total_submissions,
                        self.verified_submissions <= self.total_submissions,
                ;
            }
            rate as u64
        }
    }
}

} // verus!
