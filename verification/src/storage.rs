use vstd::prelude::*;

use std::collections::HashMap;

use crate::material::Material;
use crate::participant::Participant;
use crate::stats::{new_stats, RecyclingStats};

verus! {

/// The ledger store: one owned value holding every storage region of the
/// contract — configuration, the participant registry, the material
/// records, the per-participant statistics and the two counter sequences.
///
/// The store itself is dumb; the invariants that tie the regions together
/// are stated by [`Storage::wf`] and maintained by the operations of
/// [`crate::contract::ScavengerContract`].
pub struct Storage {
    /// Whether the configuration has been initialized.
    pub initialized: bool,
    /// The configured administrator identity, once set.
    pub admin: Option<u64>,
    /// The reward token address, once set.
    pub token_address: Option<u64>,
    /// The charity address, once set.
    pub charity_address: Option<u64>,
    /// Percentage routed to collectors, once set.
    pub collector_percentage: Option<u32>,
    /// Percentage routed to the owner, once set.
    pub owner_percentage: Option<u32>,
    /// Total tokens earned across the programme.
    pub total_earned: i128,
    /// The configuration module's own counter slot.
    pub counter: u64,
    /// Participant records, keyed by identity.
    pub participants: HashMap<u64, Participant>,
    /// Material records; the record with identifier `i` sits at index
    /// `i - 1`.
    pub materials: Vec<Material>,
    /// Per-participant statistics, keyed by identity.
    pub stats: HashMap<u64, RecyclingStats>,
    /// The "waste" counter sequence: how many material identifiers have
    /// been allocated.
    pub waste_count: u64,
    /// The "incentive" counter sequence.
    pub incentive_count: u64,
}

/// How many records in `ms` were submitted by `p`.
pub open spec fn count_submitted(ms: Seq<Material>, p: u64) -> int
    decreases ms.len(),
{
    if ms.len() == 0 {
        0
    } else {
        count_submitted(ms.drop_last(), p) + if ms.last().submitter == p {
            1int
        } else {
            0int
        }
    }
}

/// How many records in `ms` were submitted by `p` and are verified.
pub open spec fn count_verified(ms: Seq<Material>, p: u64) -> int
    decreases ms.len(),
{
    if ms.len() == 0 {
        0
    } else {
        count_verified(ms.drop_last(), p) + if ms.last().submitter == p && ms.last().verified {
            1int
        } else {
            0int
        }
    }
}

/// Counts are non-negative, a participant's verified records are no more
/// than its submitted ones, and no count exceeds the number of records.
pub proof fn lemma_count_bounds(ms: Seq<Material>, p: u64)
    ensures
        0 <= count_verified(ms, p),
        count_verified(ms, p) <= count_submitted(ms, p),
        count_submitted(ms, p) <= ms.len(),
    decreases ms.len(),
{
    if ms.len() > 0 {
        lemma_count_bounds(ms.drop_last(), p);
    }
}

/// Appending a record raises exactly its submitter's counts.
pub proof fn lemma_count_push(ms: Seq<Material>, m: Material, p: u64)
    ensures
        count_submitted(ms.push(m), p) == count_submitted(ms, p) + if m.submitter == p {
            1int
        } else {
            0int
        },
        count_verified(ms.push(m), p) == count_verified(ms, p) + if m.submitter == p
            && m.verified {
            1int
        } else {
            0int
        },
{
    assert(ms.push(m).drop_last() =~= ms);
}

/// Replacing a record with one by the same submitter keeps the submission
/// counts, and moves the verified count only by the change of the
/// record's own verified flag.
pub proof fn lemma_count_update(ms: Seq<Material>, i: int, m2: Material, p: u64)
    requires
        0 <= i < ms.len(),
        m2.submitter == ms[i].submitter,
    ensures
        count_submitted(ms.update(i, m2), p) == count_submitted(ms, p),
        count_verified(ms.update(i, m2), p) == count_verified(ms, p) + if ms[i].submitter == p
            && !ms[i].verified && m2.verified {
            1int
        } else if ms[i].submitter == p && ms[i].verified && !m2.verified {
            -1int
        } else {
            0int
        },
    decreases ms.len(),
{
    let ms2 = ms.update(i, m2);
    if i == ms.len() - 1 {
        assert(ms2.drop_last() =~= ms.drop_last());
    } else {
        assert(ms2.drop_last() =~= ms.drop_last().update(i, m2));
        lemma_count_update(ms.drop_last(), i, m2, p);
    }
}

/// Counts over a concatenation are the sums of the parts' counts.
pub proof fn lemma_count_concat(ms: Seq<Material>, ns: Seq<Material>, p: u64)
    ensures
        count_submitted(ms + ns, p) == count_submitted(ms, p) + count_submitted(ns, p),
        count_verified(ms + ns, p) == count_verified(ms, p) + count_verified(ns, p),
    decreases ns.len(),
{
    if ns.len() == 0 {
        assert(ms + ns =~= ms);
    } else {
        assert((ms + ns).drop_last() =~= ms + ns.drop_last());
        lemma_count_concat(ms, ns.drop_last(), p);
    }
}

/// A run of unverified records by one submitter counts `len` submissions
/// for that submitter and nothing else.
pub proof fn lemma_count_uniform(ns: Seq<Material>, s: u64, p: u64)
    requires
        forall|j: int| 0 <= j < ns.len() ==> (#[trigger] ns[j]).submitter == s && !ns[j].verified,
    ensures
        count_submitted(ns, p) == if p == s {
            ns.len() as int
        } else {
            0int
        },
        count_verified(ns, p) == 0,
    decreases ns.len(),
{
    if ns.len() > 0 {
        lemma_count_uniform(ns.drop_last(), s, p);
    }
}

/// A participant no record names has zero counts.
pub proof fn lemma_count_zero(ms: Seq<Material>, p: u64)
    requires
        forall|i: int| 0 <= i < ms.len() ==> (#[trigger] ms[i]).submitter != p,
    ensures
        count_submitted(ms, p) == 0,
        count_verified(ms, p) == 0,
    decreases ms.len(),
{
    if ms.len() > 0 {
        lemma_count_zero(ms.drop_last(), p);
    }
}

/// The statistics record kept for `p`, or a zeroed one where none exists
/// yet.
pub open spec fn stats_or_new(st: Map<u64, RecyclingStats>, p: u64) -> RecyclingStats {
    if st.contains_key(p) {
        st[p]
    } else {
        new_stats(p)
    }
}

/// The material record with identifier `id`, if one was ever allocated.
pub open spec fn lookup_material(ms: Seq<Material>, id: u64) -> Option<Material> {
    if 1 <= id <= ms.len() {
        Some(ms[id - 1])
    } else {
        None
    }
}

impl Storage {
    /// The invariants tying the storage regions together:
    /// identifiers are dense and allocated by the waste counter; records
    /// are keyed by their own identity; every material's submitter has a
    /// participant record and a statistics record; each statistics record
    /// counts exactly its participant's submitted and verified materials;
    /// and the configured percentages sum to at most 100.
    pub open spec fn wf(self) -> bool {
        &&& self.waste_count == self.materials@.len()
        &&& forall|i: int|
            0 <= i < self.materials@.len() ==> (#[trigger] self.materials@[i]).id == i + 1
        &&& forall|a: u64|
            #[trigger] self.participants@.contains_key(a) ==> self.participants@[a].address == a
        &&& forall|a: u64|
            #[trigger] self.stats@.contains_key(a) ==> self.stats@[a].participant == a
        &&& forall|i: int|
            0 <= i < self.materials@.len() ==> self.stats@.contains_key(
                (#[trigger] self.materials@[i]).submitter,
            )
        &&& forall|i: int|
            0 <= i < self.materials@.len() ==> self.participants@.contains_key(
                (#[trigger] self.materials@[i]).submitter,
            )
        &&& forall|a: u64|
            #[trigger] self.stats@.contains_key(a) ==> self.stats@[a].total_submissions
                == count_submitted(self.materials@, a) && self.stats@[a].verified_submissions
                == count_verified(self.materials@, a)
        &&& forall|c: u32, o: u32|
            self.collector_percentage == Some(c) && self.owner_percentage == Some(o) ==> c + o
                <= 100
    }

    /// A completely empty store.
    pub fn new() -> (s: Self)
        ensures
            s.wf(),
            !s.initialized,
            s.admin is None,
            s.token_address is None,
            s.charity_address is None,
            s.collector_percentage is None,
            s.owner_percentage is None,
            s.total_earned == 0,
            s.counter == 0,
            s.participants@ == Map::<u64, Participant>::empty(),
            s.materials@ == Seq::<Material>::empty(),
            s.stats@ == Map::<u64, RecyclingStats>::empty(),
            s.waste_count == 0,
            s.incentive_count == 0,
    {
        Storage {
            initialized: false,
            admin: None,
            token_address: None,
            charity_address: None,
            collector_percentage: None,
            owner_percentage: None,
            total_earned: 0,
            counter: 0,
            participants: HashMap::new(),
            materials: Vec::new(),
            stats: HashMap::new(),
            waste_count: 0,
            incentive_count: 0,
        }
    }

    /// Whether the configuration has been initialized.
    pub fn is_initialized(&self) -> (r: bool)
        ensures
            r == self.initialized,
    {
        self.initialized
    }

    /// Mark the configuration as initialized.
    pub fn set_initialized(&mut self)
        ensures
            *final(self) == (Storage { initialized: true, ..*old(self) }),
    {
        self.initialized = true;
    }

    /// The configured administrator, if set.
    pub fn get_admin(&self) -> (r: Option<u64>)
        ensures
            r == self.admin,
    {
        self.admin
    }

    /// Set the administrator.
    pub fn set_admin(&mut self, admin: u64)
        ensures
            *final(self) == (Storage { admin: Some(admin), ..*old(self) }),
    {
        self.admin = Some(admin);
    }

    /// The reward token address, if set.
    pub fn get_token_address(&self) -> (r: Option<u64>)
        ensures
            r == self.token_address,
    {
        self.token_address
    }

    /// Set the reward token address.
    pub fn set_token_address(&mut self, address: u64)
        ensures
            *final(self) == (Storage { token_address: Some(address), ..*old(self) }),
    {
        self.token_address = Some(address);
    }

    /// The charity address, if set.
    pub fn get_charity_address(&self) -> (r: Option<u64>)
        ensures
            r == self.charity_address,
    {
        self.charity_address
    }

    /// Set the charity address.
    pub fn set_charity_address(&mut self, address: u64)
        ensures
            *final(self) == (Storage { charity_address: Some(address), ..*old(self) }),
    {
        self.charity_address = Some(address);
    }

    /// The collector percentage, if set.
    pub fn get_collector_percentage(&self) -> (r: Option<u32>)
        ensures
            r == self.collector_percentage,
    {
        self.collector_percentage
    }

    /// Set the collector percentage.
    pub fn set_collector_percentage(&mut self, percentage: u32)
        ensures
            *final(self) == (Storage { collector_percentage: Some(percentage), ..*old(self) }),
    {
        self.collector_percentage = Some(percentage);
    }

    /// The owner percentage, if set.
    pub fn get_owner_percentage(&self) -> (r: Option<u32>)
        ensures
            r == self.owner_percentage,
    {
        self.owner_percentage
    }

    /// Set the owner percentage.
    pub fn set_owner_percentage(&mut self, percentage: u32)
        ensures
            *final(self) == (Storage { owner_percentage: Some(percentage), ..*old(self) }),
    {
        self.owner_percentage = Some(percentage);
    }

    /// The total tokens earned across the programme.
    pub fn get_total_earned(&self) -> (r: i128)
        ensures
            r == self.total_earned,
    {
        self.total_earned
    }

    /// Set the total tokens earned.
    pub fn set_total_earned(&mut self, amount: i128)
        ensures
            *final(self) == (Storage { total_earned: amount, ..*old(self) }),
    {
        self.total_earned = amount;
    }

    /// The configuration module's counter slot.
    pub fn get_counter(&self) -> (r: u64)
        ensures
            r == self.counter,
    {
        self.counter
    }

    /// Set the configuration module's counter slot.
    pub fn set_counter(&mut self, value: u64)
        ensures
            *final(self) == (Storage { counter: value, ..*old(self) }),
    {
        self.counter = value;
    }
}

} // verus!
