use vstd::prelude::*;

use crate::batch::{
    batch_recorded, count_items_of_type, delta_points, delta_verified, lemma_delta_push,
    lemma_ids_take_step, lemma_items_take_le, lemma_items_take_step, lemma_newly_verified_props,
    newly_verified_ids, resolved_ids, sum_weights,
};
use crate::material::{reward_points, Material};
use crate::participant::{accumulated, Participant};
use crate::stats::{
    count_for, recorded_submission, recorded_verification, submission_fits, verification_fits,
    RecyclingStats,
};
use crate::storage::{
    count_submitted, count_verified, lemma_count_bounds, lemma_count_concat, lemma_count_push,
    lemma_count_uniform, lemma_count_update, lemma_count_zero, lookup_material, stats_or_new,
    Storage,
};
use crate::types::{role_has_capability, Capability, Error, ParticipantRole, WasteType};

verus! {

/// The recycling-incentive contract: the registry, submission and
/// verification pipeline, statistics and configuration, all operating on
/// one owned [`Storage`] value.
///
/// The host environment authenticates callers and supplies the clock;
/// operations receive both as plain values.  `caller` is the identity the
/// host authenticated for the call, and an operation acting for an
/// identity fails with [`Error::AuthError`] when the two differ.  Every
/// failing operation leaves the store exactly as it found it.
pub struct ScavengerContract {
    /// The ledger store all operations act on.
    pub storage: Storage,
}

impl ScavengerContract {
    /// The participant registry region of the store.
    pub open spec fn participants(self) -> Map<u64, Participant> {
        self.storage.participants@
    }

    /// The material record region of the store.
    pub open spec fn materials(self) -> Seq<Material> {
        self.storage.materials@
    }

    /// The statistics region of the store.
    pub open spec fn stats(self) -> Map<u64, RecyclingStats> {
        self.storage.stats@
    }

    /// The store's invariants; see [`Storage::wf`].
    pub open spec fn wf(self) -> bool {
        self.storage.wf()
    }

    /// Whether the configuration region is the same in `self` and `other`.
    pub open spec fn same_config(self, other: Self) -> bool {
        &&& self.storage.initialized == other.storage.initialized
        &&& self.storage.admin == other.storage.admin
        &&& self.storage.token_address == other.storage.token_address
        &&& self.storage.charity_address == other.storage.charity_address
        &&& self.storage.collector_percentage == other.storage.collector_percentage
        &&& self.storage.owner_percentage == other.storage.owner_percentage
        &&& self.storage.total_earned == other.storage.total_earned
        &&& self.storage.counter == other.storage.counter
    }

    /// Whether both counter sequences are the same in `self` and `other`.
    pub open spec fn same_counters(self, other: Self) -> bool {
        &&& self.storage.waste_count == other.storage.waste_count
        &&& self.storage.incentive_count == other.storage.incentive_count
    }

    /// A contract over a completely empty store.
    pub fn new() -> (c: Self)
        ensures
            c.wf(),
            !c.storage.initialized,
            c.storage.admin is None,
            c.storage.token_address is None,
            c.storage.charity_address is None,
            c.storage.collector_percentage is None,
            c.storage.owner_percentage is None,
            c.storage.total_earned == 0,
            c.storage.counter == 0,
            c.participants() == Map::<u64, Participant>::empty(),
            c.materials() == Seq::<Material>::empty(),
            c.stats() == Map::<u64, RecyclingStats>::empty(),
            c.storage.waste_count == 0,
            c.storage.incentive_count == 0,
    {
        ScavengerContract { storage: Storage::new() }
    }

    /// First error of the checks shared by the registry operations that
    /// demand an existing, registered record: authentication, existence,
    /// registration.
    pub open spec fn registry_check(self, caller: u64, address: u64) -> Option<Error> {
        if caller != address {
            Some(Error::AuthError)
        } else if !self.participants().contains_key(address) {
            Some(Error::NotFoundError)
        } else if !self.participants()[address].is_registered {
            Some(Error::NotRegisteredError)
        } else {
            None
        }
    }

    /// Register `address`, overwriting any existing record wholesale:
    /// re-registration is not an error, it replaces role, name and
    /// location and zeroes the running totals.  The fresh record is
    /// registered and stamped with `now`.
    pub fn register_participant(
        &mut self,
        caller: u64,
        address: u64,
        role: ParticipantRole,
        name: String,
        latitude: i128,
        longitude: i128,
        now: u64,
    ) -> (r: Result<Participant, Error>)
        requires
            old(self).wf(),
        ensures
            final(self).wf(),
            match r {
                Ok(p) => {
                    &&& caller == address
                    &&& p == (Participant {
                        address,
                        role,
                        name,
                        latitude,
                        longitude,
                        is_registered: true,
                        total_waste_processed: 0,
                        total_tokens_earned: 0,
                        registered_at: now,
                    })
                    &&& final(self).participants() == old(self).participants().insert(address, p)
                    &&& final(self).materials() == old(self).materials()
                    &&& final(self).stats() == old(self).stats()
                    &&& final(self).same_config(*old(self))
                    &&& final(self).same_counters(*old(self))
                },
                Err(e) => {
                    &&& e == Error::AuthError
                    &&& caller != address
                    &&& *final(self) == *old(self)
                },
            },
    {
        if caller != address {
            return Err(Error::AuthError);
        }
        let p = Participant {
            address,
            role,
            name,
            latitude,
            longitude,
            is_registered: true,
            total_waste_processed: 0,
            total_tokens_earned: 0,
            registered_at: now,
        };
        let ret = p.clone();
        self.storage.participants.insert(address, p);
        Ok(ret)
    }

    /// The stored record for `address`, or `None` where there is none.
    pub fn get_participant(&self, address: u64) -> (r: Option<Participant>)
        ensures
            match r {
                Some(p) => self.participants().contains_key(address) && p
                    == self.participants()[address],
                None => !self.participants().contains_key(address),
            },
    {
        match self.storage.participants.get(&address) {
            Some(p) => Some(p.clone()),
            None => None,
        }
    }

    /// Whether `address` has a record that is currently registered.
    pub fn is_registered(&self, address: u64) -> (r: bool)
        ensures
            r == (self.participants().contains_key(address)
                && self.participants()[address].is_registered),
    {
        match self.storage.participants.get(&address) {
            Some(p) => p.is_registered,
            None => false,
        }
    }

    /// Replace the role of the registered participant `address`.
    pub fn update_role(&mut self, caller: u64, address: u64, new_role: ParticipantRole) -> (r:
        Result<Participant, Error>)
        requires
            old(self).wf(),
        ensures
            final(self).wf(),
            match r {
                Ok(p) => {
                    &&& old(self).registry_check(caller, address) is None
                    &&& p == (Participant { role: new_role, ..old(self).participants()[address] })
                    &&& final(self).participants() == old(self).participants().insert(address, p)
                    &&& final(self).materials() == old(self).materials()
                    &&& final(self).stats() == old(self).stats()
                    &&& final(self).same_config(*old(self))
                    &&& final(self).same_counters(*old(self))
                },
                Err(e) => {
                    &&& old(self).registry_check(caller, address) == Some(e)
                    &&& *final(self) == *old(self)
                },
            },
    {
        if caller != address {
            return Err(Error::AuthError);
        }
        let p = match self.storage.participants.get(&address) {
            Some(q) => q.clone(),
            None => { return Err(Error::NotFoundError); },
        };
        if !p.is_registered {
            return Err(Error::NotRegisteredError);
        }
        let updated = Participant { role: new_role, ..p };
        let ret = updated.clone();
        self.storage.participants.insert(address, updated);
        Ok(ret)
    }

    /// Replace the location of the registered participant `address`.
    pub fn update_location(&mut self, caller: u64, address: u64, latitude: i128, longitude: i128)
        -> (r: Result<Participant, Error>)
        requires
            old(self).wf(),
        ensures
            final(self).wf(),
            match r {
                Ok(p) => {
                    &&& old(self).registry_check(caller, address) is None
                    &&& p == (Participant {
                        latitude,
                        longitude,
                        ..old(self).participants()[address]
                    })
                    &&& final(self).participants() == old(self).participants().insert(address, p)
                    &&& final(self).materials() == old(self).materials()
                    &&& final(self).stats() == old(self).stats()
                    &&& final(self).same_config(*old(self))
                    &&& final(self).same_counters(*old(self))
                },
                Err(e) => {
                    &&& old(self).registry_check(caller, address) == Some(e)
                    &&& *final(self) == *old(self)
                },
            },
    {
        if caller != address {
            return Err(Error::AuthError);
        }
        let p = match self.storage.participants.get(&address) {
            Some(q) => q.clone(),
            None => { return Err(Error::NotFoundError); },
        };
        if !p.is_registered {
            return Err(Error::NotRegisteredError);
        }
        let updated = Participant { latitude, longitude, ..p };
        let ret = updated.clone();
        self.storage.participants.insert(address, updated);
        Ok(ret)
    }

    /// Deregister `address`: clear its `is_registered` flag, keeping the
    /// record.  Deregistering twice is a no-op on the flag, not an error.
    pub fn deregister_participant(&mut self, caller: u64, address: u64) -> (r: Result<
        Participant,
        Error,
    >)
        requires
            old(self).wf(),
        ensures
            final(self).wf(),
            match r {
                Ok(p) => {
                    &&& caller == address
                    &&& old(self).participants().contains_key(address)
                    &&& p == (Participant {
                        is_registered: false,
                        ..old(self).participants()[address]
                    })
                    &&& final(self).participants() == old(self).participants().insert(address, p)
                    &&& final(self).materials() == old(self).materials()
                    &&& final(self).stats() == old(self).stats()
                    &&& final(self).same_config(*old(self))
                    &&& final(self).same_counters(*old(self))
                },
                Err(e) => {
                    &&& *final(self) == *old(self)
                    &&& if caller != address {
                        e == Error::AuthError
                    } else {
                        e == Error::NotFoundError && !old(self).participants().contains_key(
                            address,
                        )
                    }
                },
            },
    {
        if caller != address {
            return Err(Error::AuthError);
        }
        let p = match self.storage.participants.get(&address) {
            Some(q) => q.clone(),
            None => { return Err(Error::NotFoundError); },
        };
        let updated = Participant { is_registered: false, ..p };
        let ret = updated.clone();
        self.storage.participants.insert(address, updated);
        Ok(ret)
    }

    /// Whether `address` is registered with a role that may collect
    /// materials.
    pub fn can_collect(&self, address: u64) -> (r: bool)
        ensures
            r == (self.participants().contains_key(address)
                && self.participants()[address].is_registered && role_has_capability(
                self.participants()[address].role,
                Capability::Collect,
            )),
    {
        match self.storage.participants.get(&address) {
            Some(p) => p.is_registered && p.role.can_collect_materials(),
            None => false,
        }
    }

    /// Whether `address` is registered with a role that may manufacture.
    pub fn can_manufacture(&self, address: u64) -> (r: bool)
        ensures
            r == (self.participants().contains_key(address)
                && self.participants()[address].is_registered && role_has_capability(
                self.participants()[address].role,
                Capability::Manufacture,
            )),
    {
        match self.storage.participants.get(&address) {
            Some(p) => p.is_registered && p.role.can_manufacture(),
            None => false,
        }
    }
}

impl ScavengerContract {
    /// Whether every counter touched by submitting a batch of type `t`
    /// and weight `weight` for `submitter` still fits: the waste counter,
    /// the submitter's statistics, and the submitter's running total.
    pub open spec fn submit_fits(self, submitter: u64, t: WasteType, weight: u64) -> bool {
        &&& self.storage.waste_count < u64::MAX
        &&& submission_fits(stats_or_new(self.stats(), submitter), t, weight)
        &&& self.participants()[submitter].total_waste_processed + weight <= u128::MAX
    }

    /// First error of the checks `submit_material` makes, or `None` where
    /// the submission goes through.
    pub open spec fn submit_check(self, caller: u64, submitter: u64, t: WasteType, weight: u64)
        -> Option<Error> {
        match self.registry_check(caller, submitter) {
            Some(e) => Some(e),
            None => if !self.submit_fits(submitter, t, weight) {
                Some(Error::OverflowError)
            } else {
                None
            },
        }
    }

    /// Submit one batch of material for recycling.
    ///
    /// The submitter must be an authenticated, registered participant.
    /// The record gets the next identifier of the waste sequence, is
    /// stored unverified and stamped with `now`, the submitter's
    /// statistics record one more submission, and the submitter's running
    /// weight grows by the batch's weight.  Any overflow fails the whole
    /// call with no effect.
    pub fn submit_material(
        &mut self,
        caller: u64,
        waste_type: WasteType,
        weight: u64,
        submitter: u64,
        description: String,
        now: u64,
    ) -> (r: Result<Material, Error>)
        requires
            old(self).wf(),
        ensures
            final(self).wf(),
            match r {
                Ok(m) => {
                    &&& old(self).submit_check(caller, submitter, waste_type, weight) is None
                    &&& m == (Material {
                        id: (old(self).storage.waste_count + 1) as u64,
                        waste_type,
                        weight,
                        submitter,
                        timestamp: now,
                        description,
                        verified: false,
                    })
                    &&& final(self).materials() == old(self).materials().push(m)
                    &&& final(self).storage.waste_count == old(self).storage.waste_count + 1
                    &&& final(self).stats() == old(self).stats().insert(
                        submitter,
                        recorded_submission(
                            stats_or_new(old(self).stats(), submitter),
                            waste_type,
                            weight,
                        ),
                    )
                    &&& final(self).participants() == old(self).participants().insert(
                        submitter,
                        accumulated(old(self).participants()[submitter], weight, 0),
                    )
                    &&& final(self).same_config(*old(self))
                    &&& final(self).storage.incentive_count == old(self).storage.incentive_count
                },
                Err(e) => {
                    &&& old(self).submit_check(caller, submitter, waste_type, weight) == Some(e)
                    &&& *final(self) == *old(self)
                },
            },
    {
        if caller != submitter {
            return Err(Error::AuthError);
        }
        let mut part = match self.storage.participants.get(&submitter) {
            Some(q) => q.clone(),
            None => { return Err(Error::NotFoundError); },
        };
        if !part.is_registered {
            return Err(Error::NotRegisteredError);
        }
        let id: u64 = match self.storage.waste_count.checked_add(1) {
            Some(v) => v,
            None => { return Err(Error::OverflowError); },
        };
        let mut st: RecyclingStats = match self.storage.stats.get(&submitter) {
            Some(s) => *s,
            None => RecyclingStats::new(submitter),
        };
        let material = Material::new(id, waste_type, weight, submitter, now, description);
        if st.record_submission(&material).is_err() {
            return Err(Error::OverflowError);
        }
        if part.accumulate(weight, 0).is_err() {
            return Err(Error::OverflowError);
        }
        let ret = material.clone();
        let ghost pre = self.materials();
        self.storage.materials.push(material);
        self.storage.waste_count = id;
        self.storage.stats.insert(submitter, st);
        self.storage.participants.insert(submitter, part);
        proof {
            if !old(self).stats().contains_key(submitter) {
                lemma_count_zero(pre, submitter);
            }
            assert forall|a: u64| #[trigger] self.storage.stats@.contains_key(a) implies
                self.storage.stats@[a].total_submissions == count_submitted(
                    self.storage.materials@,
                    a,
                ) && self.storage.stats@[a].verified_submissions == count_verified(
                    self.storage.materials@,
                    a,
                ) by {
                lemma_count_push(pre, ret, a);
            }
        }
        Ok(ret)
    }

    /// Whether every counter touched by submitting a whole batch of
    /// items for `submitter` still fits.
    pub open spec fn batch_fits(self, submitter: u64, items: Seq<(WasteType, u64, String)>)
        -> bool {
        let st = stats_or_new(self.stats(), submitter);
        &&& self.storage.waste_count + items.len() <= u64::MAX
        &&& st.total_submissions + items.len() <= u64::MAX
        &&& st.total_weight + sum_weights(items) <= u64::MAX
        &&& forall|t: WasteType|
            count_for(st, t) + #[trigger] count_items_of_type(items, t) <= u64::MAX
        &&& self.participants()[submitter].total_waste_processed + sum_weights(items)
            <= u128::MAX
    }

    /// First error of the checks `submit_materials_batch` makes, or
    /// `None` where the whole batch goes through.
    pub open spec fn submit_batch_check(
        self,
        caller: u64,
        submitter: u64,
        items: Seq<(WasteType, u64, String)>,
    ) -> Option<Error> {
        match self.registry_check(caller, submitter) {
            Some(e) => Some(e),
            None => if !self.batch_fits(submitter, items) {
                Some(Error::OverflowError)
            } else {
                None
            },
        }
    }

    /// Submit a whole batch of materials at once.
    ///
    /// The preconditions are checked once for the batch, not per item.
    /// Each item is allocated the next identifier of the shared waste
    /// sequence, so single and batched submissions interleave without
    /// collision, and every record of the batch carries the same
    /// timestamp `now`.  The end state is the same as submitting the
    /// items one by one; any overflow anywhere in the batch fails the
    /// whole call with no effect.
    #[verifier::loop_isolation(false)]
    pub fn submit_materials_batch(
        &mut self,
        caller: u64,
        items: Vec<(WasteType, u64, String)>,
        submitter: u64,
        now: u64,
    ) -> (r: Result<Vec<Material>, Error>)
        requires
            old(self).wf(),
        ensures
            final(self).wf(),
            match r {
                Ok(ms) => {
                    &&& old(self).submit_batch_check(caller, submitter, items@) is None
                    &&& ms@.len() == items@.len()
                    &&& forall|k: int|
                        0 <= k < items@.len() ==> ms@[k] == (Material {
                            id: (old(self).storage.waste_count + k + 1) as u64,
                            waste_type: items@[k].0,
                            weight: items@[k].1,
                            submitter,
                            timestamp: now,
                            description: items@[k].2,
                            verified: false,
                        })
                    &&& final(self).materials() == old(self).materials() + ms@
                    &&& final(self).storage.waste_count == old(self).storage.waste_count
                        + items@.len()
                    &&& final(self).stats() == old(self).stats().insert(
                        submitter,
                        batch_recorded(stats_or_new(old(self).stats(), submitter), items@),
                    )
                    &&& final(self).participants() == old(self).participants().insert(
                        submitter,
                        accumulated(
                            old(self).participants()[submitter],
                            sum_weights(items@) as u64,
                            0,
                        ),
                    )
                    &&& final(self).same_config(*old(self))
                    &&& final(self).storage.incentive_count == old(self).storage.incentive_count
                },
                Err(e) => {
                    &&& old(self).submit_batch_check(caller, submitter, items@) == Some(e)
                    &&& *final(self) == *old(self)
                },
            },
    {
        if caller != submitter {
            return Err(Error::AuthError);
        }
        let mut part = match self.storage.participants.get(&submitter) {
            Some(q) => q.clone(),
            None => { return Err(Error::NotFoundError); },
        };
        if !part.is_registered {
            return Err(Error::NotRegisteredError);
        }
        let mut st: RecyclingStats = match self.storage.stats.get(&submitter) {
            Some(s) => *s,
            None => RecyclingStats::new(submitter),
        };
        let ghost base_st = st;
        let mut next: u64 = self.storage.waste_count;
        let mut results: Vec<Material> = Vec::new();
        let mut pending: Vec<Material> = Vec::new();
        let mut sum_w: u64 = 0;
        let mut i: usize = 0;
        while i < items.len()
            invariant
                i <= items@.len(),
                next == old(self).storage.waste_count + i,
                results@.len() == i,
                pending@ == results@,
                forall|k: int|
                    0 <= k < i ==> results@[k] == (Material {
                        id: (old(self).storage.waste_count + k + 1) as u64,
                        waste_type: items@[k].0,
                        weight: items@[k].1,
                        submitter,
                        timestamp: now,
                        description: items@[k].2,
                        verified: false,
                    }),
                st.participant == base_st.participant,
                st.verified_submissions == base_st.verified_submissions,
                st.total_points == base_st.total_points,
                st.total_submissions == base_st.total_submissions + i,
                st.total_weight == base_st.total_weight + sum_weights(items@.take(i as int)),
                forall|t: WasteType|
                    count_for(st, t) == count_for(base_st, t) + #[trigger] count_items_of_type(
                        items@.take(i as int),
                        t,
                    ),
                sum_w == sum_weights(items@.take(i as int)),
            decreases items@.len() - i,
        {
            let waste_type: WasteType = items[i].0;
            let weight: u64 = items[i].1;
            let description: String = items[i].2.clone();
            proof {
                lemma_items_take_step(items@, i as int);
            }
            let id: u64 = match next.checked_add(1) {
                Some(v) => v,
                None => { return Err(Error::OverflowError); },
            };
            let m = Material::new(id, waste_type, weight, submitter, now, description);
            if st.record_submission(&m).is_err() {
                proof {
                    lemma_items_take_le(items@, i as int + 1);
                    assert(count_items_of_type(items@.take(i as int + 1), waste_type)
                        <= count_items_of_type(items@, waste_type));
                }
                return Err(Error::OverflowError);
            }
            sum_w = sum_w + weight;
            results.push(m.clone());
            pending.push(m);
            next = id;
            i = i + 1;
        }
        proof {
            assert(items@.take(items@.len() as int) =~= items@);
        }
        if part.accumulate(sum_w, 0).is_err() {
            return Err(Error::OverflowError);
        }
        proof {
            assert(st == batch_recorded(base_st, items@)) by {
                assert(count_for(st, WasteType::Paper) == count_for(base_st, WasteType::Paper)
                    + count_items_of_type(items@, WasteType::Paper));
                assert(count_for(st, WasteType::PetPlastic) == count_for(
                    base_st,
                    WasteType::PetPlastic,
                ) + count_items_of_type(items@, WasteType::PetPlastic));
                assert(count_for(st, WasteType::Plastic) == count_for(base_st, WasteType::Plastic)
                    + count_items_of_type(items@, WasteType::Plastic));
                assert(count_for(st, WasteType::Metal) == count_for(base_st, WasteType::Metal)
                    + count_items_of_type(items@, WasteType::Metal));
                assert(count_for(st, WasteType::Glass) == count_for(base_st, WasteType::Glass)
                    + count_items_of_type(items@, WasteType::Glass));
            }
        }
        let ghost premats = self.materials();
        let ghost newmats = results@;
        self.storage.materials.append(&mut pending);
        self.storage.waste_count = next;
        self.storage.stats.insert(submitter, st);
        self.storage.participants.insert(submitter, part);
        proof {
            if !old(self).stats().contains_key(submitter) {
                lemma_count_zero(premats, submitter);
            }
            assert forall|a: u64| #[trigger] self.storage.stats@.contains_key(a) implies
                self.storage.stats@[a].total_submissions == count_submitted(
                    self.storage.materials@,
                    a,
                ) && self.storage.stats@[a].verified_submissions == count_verified(
                    self.storage.materials@,
                    a,
                ) by {
                lemma_count_concat(premats, newmats, a);
                lemma_count_uniform(newmats, submitter, a);
            }
        }
        Ok(results)
    }

    /// Whether `waste_id` names a stored material record.
    pub fn waste_exists(&self, waste_id: u64) -> (r: bool)
        ensures
            r == (lookup_material(self.materials(), waste_id) is Some),
    {
        1 <= waste_id && waste_id <= (self.storage.materials.len() as u64)
    }

    fn get_waste(&self, waste_id: u64) -> (r: Option<Material>)
        ensures
            r == lookup_material(self.materials(), waste_id),
    {
        if 1 <= waste_id && waste_id <= (self.storage.materials.len() as u64) {
            Some(self.storage.materials[(waste_id - 1) as usize].clone())
        } else {
            None
        }
    }

    /// The material record with identifier `material_id`, if any.
    pub fn get_material(&self, material_id: u64) -> (r: Option<Material>)
        ensures
            r == lookup_material(self.materials(), material_id),
    {
        self.get_waste(material_id)
    }

    /// The material record with identifier `waste_id`, if any.
    pub fn get_waste_by_id(&self, waste_id: u64) -> (r: Option<Material>)
        ensures
            r == lookup_material(self.materials(), waste_id),
    {
        self.get_waste(waste_id)
    }

    /// Look up several material records at once.  The result has one slot
    /// per requested identifier, in order; an identifier that names no
    /// record yields an absent slot, not a shorter list or an error.
    pub fn get_wastes_batch(&self, waste_ids: Vec<u64>) -> (r: Vec<Option<Material>>)
        ensures
            r@.len() == waste_ids@.len(),
            forall|k: int|
                0 <= k < waste_ids@.len() ==> r@[k] == lookup_material(
                    self.materials(),
                    waste_ids@[k],
                ),
    {
        let mut results: Vec<Option<Material>> = Vec::new();
        let mut i: usize = 0;
        while i < waste_ids.len()
            invariant
                i <= waste_ids@.len(),
                results@.len() == i,
                forall|k: int|
                    0 <= k < i ==> results@[k] == lookup_material(
                        self.materials(),
                        waste_ids@[k],
                    ),
            decreases waste_ids@.len() - i,
        {
            results.push(self.get_waste(waste_ids[i]));
            i = i + 1;
        }
        results
    }

    /// The statistics record kept for `participant`, if it ever
    /// submitted.
    pub fn get_stats(&self, participant: u64) -> (r: Option<RecyclingStats>)
        ensures
            match r {
                Some(s) => self.stats().contains_key(participant) && s
                    == self.stats()[participant],
                None => !self.stats().contains_key(participant),
            },
    {
        match self.storage.stats.get(&participant) {
            Some(s) => Some(*s),
            None => None,
        }
    }

    /// Allocate the next identifier of the incentive sequence.  The
    /// sequence is independent of the waste sequence: allocating here
    /// never perturbs material identifiers, and vice versa.
    pub fn next_incentive_id(&mut self) -> (r: Result<u64, Error>)
        requires
            old(self).wf(),
        ensures
            final(self).wf(),
            match r {
                Ok(id) => {
                    &&& id == old(self).storage.incentive_count + 1
                    &&& final(self).storage == (Storage {
                        incentive_count: id,
                        ..old(self).storage
                    })
                },
                Err(e) => {
                    &&& e == Error::OverflowError
                    &&& old(self).storage.incentive_count == u64::MAX
                    &&& *final(self) == *old(self)
                },
            },
    {
        match self.storage.incentive_count.checked_add(1) {
            Some(id) => {
                self.storage.incentive_count = id;
                Ok(id)
            },
            None => Err(Error::OverflowError),
        }
    }

    /// How many identifiers the waste sequence has handed out.
    pub fn get_waste_count(&self) -> (r: u64)
        ensures
            r == self.storage.waste_count,
    {
        self.storage.waste_count
    }

    /// How many identifiers the incentive sequence has handed out.
    pub fn get_incentive_count(&self) -> (r: u64)
        ensures
            r == self.storage.incentive_count,
    {
        self.storage.incentive_count
    }

    /// Whether every counter touched by verifying the (unverified)
    /// record `material_id` still fits: its reward, its submitter's
    /// statistics, and its submitter's running token total.
    pub open spec fn verify_fits(self, material_id: u64) -> bool {
        let m = self.materials()[material_id - 1];
        &&& verification_fits(self.stats()[m.submitter], m)
        &&& self.participants()[m.submitter].total_tokens_earned + reward_points(
            m.weight,
            m.waste_type,
        ) <= u128::MAX
    }

    /// First error of the checks the verification operations make, or
    /// `None` where verification goes through (or is a no-op on an
    /// already verified record).
    pub open spec fn verify_check(self, caller: u64, verifier: u64, material_id: u64) -> Option<
        Error,
    > {
        match self.verifier_check(caller, verifier) {
            Some(e) => Some(e),
            None => if lookup_material(self.materials(), material_id) is None {
                Some(Error::NotFoundError)
            } else if !self.materials()[material_id - 1].verified && !self.verify_fits(
                material_id,
            ) {
                Some(Error::OverflowError)
            } else {
                None
            },
        }
    }

    /// First error of the checks on the verifier itself:
    /// authentication, existence, registration, and the capability to
    /// process recyclables.
    pub open spec fn verifier_check(self, caller: u64, verifier: u64) -> Option<Error> {
        if caller != verifier {
            Some(Error::AuthError)
        } else if !self.participants().contains_key(verifier) {
            Some(Error::NotFoundError)
        } else if !self.participants()[verifier].is_registered {
            Some(Error::NotRegisteredError)
        } else if !role_has_capability(
            self.participants()[verifier].role,
            Capability::ProcessRecyclables,
        ) {
            Some(Error::ForbiddenError)
        } else {
            None
        }
    }

    /// Verify a submitted material record.
    ///
    /// Only a registered recycler may verify.  Verification flips the
    /// record's flag irreversibly, records the verification in the
    /// submitter's statistics and grants the submitter the record's
    /// reward points.  Verifying an already verified record is a no-op:
    /// it returns the record unchanged and grants nothing a second time.
    pub fn verify_material(&mut self, caller: u64, material_id: u64, verifier: u64) -> (r: Result<
        Material,
        Error,
    >)
        requires
            old(self).wf(),
        ensures
            final(self).wf(),
            match r {
                Ok(m) => {
                    &&& old(self).verify_check(caller, verifier, material_id) is None
                    &&& lookup_material(old(self).materials(), material_id) is Some
                    &&& if old(self).materials()[material_id - 1].verified {
                        &&& m == old(self).materials()[material_id - 1]
                        &&& *final(self) == *old(self)
                    } else {
                        let m0 = old(self).materials()[material_id - 1];
                        &&& m == (Material { verified: true, ..m0 })
                        &&& final(self).materials() == old(self).materials().update(
                            material_id - 1,
                            m,
                        )
                        &&& final(self).stats() == old(self).stats().insert(
                            m0.submitter,
                            recorded_verification(old(self).stats()[m0.submitter], m0),
                        )
                        &&& final(self).participants() == old(self).participants().insert(
                            m0.submitter,
                            accumulated(
                                old(self).participants()[m0.submitter],
                                0,
                                reward_points(m0.weight, m0.waste_type) as u64,
                            ),
                        )
                        &&& final(self).same_config(*old(self))
                        &&& final(self).same_counters(*old(self))
                    }
                },
                Err(e) => {
                    &&& old(self).verify_check(caller, verifier, material_id) == Some(e)
                    &&& *final(self) == *old(self)
                },
            },
    {
        if caller != verifier {
            return Err(Error::AuthError);
        }
        let vp = match self.storage.participants.get(&verifier) {
            Some(q) => q.clone(),
            None => { return Err(Error::NotFoundError); },
        };
        if !vp.is_registered {
            return Err(Error::NotRegisteredError);
        }
        if !vp.role.can_process_recyclables() {
            return Err(Error::ForbiddenError);
        }
        if material_id < 1 || material_id > (self.storage.materials.len() as u64) {
            return Err(Error::NotFoundError);
        }
        let idx: usize = (material_id - 1) as usize;
        let m0 = self.storage.materials[idx].clone();
        if m0.verified {
            return Ok(m0);
        }
        let submitter: u64 = m0.submitter;
        let reward: u64 = match m0.calculate_reward_points() {
            Some(p) => p,
            None => { return Err(Error::OverflowError); },
        };
        let mut st: RecyclingStats = match self.storage.stats.get(&submitter) {
            Some(s) => *s,
            None => {
                proof {
                    assert(false);
                }
                return Err(Error::NotFoundError);
            },
        };
        if st.record_verification(&m0).is_err() {
            return Err(Error::OverflowError);
        }
        let mut part: Participant = match self.storage.participants.get(&submitter) {
            Some(q) => q.clone(),
            None => {
                proof {
                    assert(false);
                }
                return Err(Error::NotFoundError);
            },
        };
        if part.accumulate(0, reward).is_err() {
            return Err(Error::OverflowError);
        }
        let updated = Material { verified: true, ..m0 };
        let ret = updated.clone();
        let ghost pre = self.materials();
        let ghost updated_value = ret;
        self.storage.materials.set(idx, updated);
        self.storage.stats.insert(submitter, st);
        self.storage.participants.insert(submitter, part);
        proof {
            assert forall|a: u64| #[trigger] self.storage.stats@.contains_key(a) implies
                self.storage.stats@[a].total_submissions == count_submitted(
                    self.storage.materials@,
                    a,
                ) && self.storage.stats@[a].verified_submissions == count_verified(
                    self.storage.materials@,
                    a,
                ) by {
                lemma_count_update(pre, idx as int, updated_value, a);
            }
        }
        Ok(ret)
    }
}

/// Law: material identifiers are allocated exactly once.  In any
/// well-formed store every stored record carries an identifier between 1
/// and the waste counter, no two records share one, and the counter's
/// next value is carried by no record at all — so an identifier is never
/// reused, however submissions were batched or interleaved.
pub proof fn lemma_waste_ids_allocated_once(c: ScavengerContract)
    requires
        c.wf(),
    ensures
        forall|i: int|
            0 <= i < c.materials().len() ==> 1 <= (#[trigger] c.materials()[i]).id
                <= c.storage.waste_count,
        forall|i: int, i2: int|
            0 <= i < i2 < c.materials().len() ==> c.materials()[i].id != c.materials()[i2].id,
        forall|i: int|
            0 <= i < c.materials().len() ==> (#[trigger] c.materials()[i]).id
                != c.storage.waste_count + 1,
{
}

/// Law: a participant's verified submissions never exceed its total
/// submissions, and its total submissions never exceed the number of
/// stored records.  Both counters are tied to the record store by the
/// well-formedness invariant.
pub proof fn lemma_verified_le_total(c: ScavengerContract, a: u64)
    requires
        c.wf(),
        c.stats().contains_key(a),
    ensures
        c.stats()[a].verified_submissions <= c.stats()[a].total_submissions,
        c.stats()[a].total_submissions <= c.materials().len(),
{
    lemma_count_bounds(c.materials(), a);
}

/// Whether some entry of `pend` carries statistics for `a`.
pub open spec fn pend_stats_has(pend: Seq<RecyclingStats>, a: u64) -> bool {
    exists|j: int| 0 <= j < pend.len() && pend[j].participant == a
}

/// Whether some entry of `pend` is the participant record of `a`.
pub open spec fn pend_parts_has(pend: Seq<Participant>, a: u64) -> bool {
    exists|j: int| 0 <= j < pend.len() && pend[j].address == a
}

fn vec_contains_id(v: &Vec<u64>, x: u64) -> (r: bool)
    ensures
        r == v@.contains(x),
{
    let mut i: usize = 0;
    while i < v.len()
        invariant
            i <= v@.len(),
            forall|k: int| 0 <= k < i ==> v@[k] != x,
        decreases v@.len() - i,
    {
        if v[i] == x {
            return true;
        }
        i = i + 1;
    }
    false
}

fn find_stats(pend: &Vec<RecyclingStats>, p: u64) -> (r: Option<usize>)
    ensures
        match r {
            Some(j) => j < pend@.len() && pend@[j as int].participant == p,
            None => !pend_stats_has(pend@, p),
        },
{
    let mut i: usize = 0;
    while i < pend.len()
        invariant
            i <= pend@.len(),
            forall|k: int| 0 <= k < i ==> pend@[k].participant != p,
        decreases pend@.len() - i,
    {
        if pend[i].participant == p {
            return Some(i);
        }
        i = i + 1;
    }
    None
}

fn find_part(pend: &Vec<Participant>, a: u64) -> (r: Option<usize>)
    ensures
        match r {
            Some(j) => j < pend@.len() && pend@[j as int].address == a,
            None => !pend_parts_has(pend@, a),
        },
{
    let mut i: usize = 0;
    while i < pend.len()
        invariant
            i <= pend@.len(),
            forall|k: int| 0 <= k < i ==> pend@[k].address != a,
        decreases pend@.len() - i,
    {
        if pend[i].address == a {
            return Some(i);
        }
        i = i + 1;
    }
    None
}

impl ScavengerContract {
    /// Whether processing position `j` of a verification batch would, at
    /// that moment, push a counter past its range: the identifier at `j`
    /// is newly verified there, and with every earlier newly verified
    /// identifier already accumulated, its reward or one of its
    /// submitter's counters no longer fits.
    pub open spec fn verify_batch_overflow_at(self, ids: Seq<u64>, j: int) -> bool {
        let ms = self.materials();
        let id = ids[j];
        let prev = newly_verified_ids(ms, ids.take(j));
        &&& 0 <= j < ids.len()
        &&& 1 <= id <= ms.len()
        &&& !ms[id - 1].verified
        &&& !prev.contains(id)
        &&& {
            let m0 = ms[id - 1];
            let p = m0.submitter;
            let st = RecyclingStats {
                verified_submissions: (self.stats()[p].verified_submissions + delta_verified(
                    ms,
                    prev,
                    p,
                )) as u64,
                total_points: (self.stats()[p].total_points + delta_points(ms, prev, p)) as u64,
                ..self.stats()[p]
            };
            ||| !verification_fits(st, m0)
            ||| self.participants()[p].total_tokens_earned + delta_points(ms, prev, p)
                + reward_points(m0.weight, m0.waste_type) > u128::MAX
        }
    }

    /// Whether a verification batch overflows at any position.
    pub open spec fn verify_batch_overflow(self, ids: Seq<u64>) -> bool {
        exists|j: int| #[trigger] self.verify_batch_overflow_at(ids, j)
    }

    /// First error of the checks `verify_materials_batch` makes, or
    /// `None` where the whole batch goes through.
    pub open spec fn verify_batch_check(self, caller: u64, verifier: u64, ids: Seq<u64>)
        -> Option<Error> {
        match self.verifier_check(caller, verifier) {
            Some(e) => Some(e),
            None => if self.verify_batch_overflow(ids) {
                Some(Error::OverflowError)
            } else {
                None
            },
        }
    }

    /// Read-only first pass of a verification batch: walk the
    /// identifier list, work out which records would be newly verified,
    /// and accumulate the prospective statistics and participant records
    /// in small pending tables, checking every addition.  Returns an
    /// overflow error — with the store untouched — as soon as a counter
    /// would no longer fit.
    #[verifier::loop_isolation(false)]
    #[verifier::rlimit(100)]
    fn vb_scan(&self, ids: &Vec<u64>) -> (r: Result<
        (Vec<u64>, Vec<RecyclingStats>, Vec<Participant>, Vec<Material>),
        Error,
    >)
        requires
            self.wf(),
        ensures
            match r {
                Ok(out) => ({
                    let flipped = out.0@;
                    let pend_st = out.1@;
                    let pend_pp = out.2@;
                    let results = out.3@;
                    &&& flipped == newly_verified_ids(self.materials(), ids@)
                    &&& !self.verify_batch_overflow(ids@)
                    &&& pend_st.len() == pend_pp.len()
                    &&& forall|j: int|
                        0 <= j < pend_st.len() ==> (#[trigger] pend_st[j]).participant
                            == pend_pp[j].address
                    &&& forall|j: int|
                        0 <= j < pend_st.len() ==> {
                            let a = (#[trigger] pend_st[j]).participant;
                            &&& self.stats().contains_key(a)
                            &&& pend_st[j] == (RecyclingStats {
                                verified_submissions: pend_st[j].verified_submissions,
                                total_points: pend_st[j].total_points,
                                ..self.stats()[a]
                            })
                            &&& pend_st[j].verified_submissions
                                == self.stats()[a].verified_submissions + delta_verified(
                                self.materials(),
                                flipped,
                                a,
                            )
                            &&& pend_st[j].total_points == self.stats()[a].total_points
                                + delta_points(self.materials(), flipped, a)
                        }
                    &&& forall|j: int|
                        0 <= j < pend_pp.len() ==> {
                            let a = (#[trigger] pend_pp[j]).address;
                            &&& self.participants().contains_key(a)
                            &&& pend_pp[j] == (Participant {
                                total_tokens_earned: pend_pp[j].total_tokens_earned,
                                ..self.participants()[a]
                            })
                            &&& pend_pp[j].total_tokens_earned
                                == self.participants()[a].total_tokens_earned + delta_points(
                                self.materials(),
                                flipped,
                                a,
                            )
                        }
                    &&& forall|j1: int, j2: int|
                        0 <= j1 < j2 < pend_st.len() ==> pend_st[j1].participant
                            != pend_st[j2].participant
                    &&& forall|j1: int, j2: int|
                        0 <= j1 < j2 < pend_pp.len() ==> pend_pp[j1].address
                            != pend_pp[j2].address
                    &&& forall|a: u64|
                        !pend_stats_has(pend_st, a) ==> #[trigger] delta_verified(
                            self.materials(),
                            flipped,
                            a,
                        ) == 0 && delta_points(self.materials(), flipped, a) == 0
                    &&& results.len() == resolved_ids(self.materials(), ids@).len()
                    &&& forall|k: int|
                        0 <= k < results.len() ==> results[k] == (Material {
                            verified: true,
                            ..self.materials()[resolved_ids(self.materials(), ids@)[k] - 1]
                        })
                }),
                Err(e) => e == Error::OverflowError && self.verify_batch_overflow(ids@),
            },
    {
        let mut flipped: Vec<u64> = Vec::new();
        let mut pend_st: Vec<RecyclingStats> = Vec::new();
        let mut pend_pp: Vec<Participant> = Vec::new();
        let mut results: Vec<Material> = Vec::new();
        let mut i: usize = 0;
        while i < ids.len()
            invariant
                self.wf(),
                i <= ids@.len(),
                flipped@ == newly_verified_ids(self.materials(), ids@.take(i as int)),
                pend_st@.len() == pend_pp@.len(),
                forall|j: int|
                    0 <= j < pend_st@.len() ==> (#[trigger] pend_st@[j]).participant
                        == pend_pp@[j].address,
                forall|j: int|
                    0 <= j < pend_st@.len() ==> {
                        let a = (#[trigger] pend_st@[j]).participant;
                        &&& self.stats().contains_key(a)
                        &&& pend_st@[j] == (RecyclingStats {
                            verified_submissions: pend_st@[j].verified_submissions,
                            total_points: pend_st@[j].total_points,
                            ..self.stats()[a]
                        })
                        &&& pend_st@[j].verified_submissions
                            == self.stats()[a].verified_submissions + delta_verified(
                            self.materials(),
                            flipped@,
                            a,
                        )
                        &&& pend_st@[j].total_points == self.stats()[a].total_points
                            + delta_points(self.materials(), flipped@, a)
                    },
                forall|j: int|
                    0 <= j < pend_pp@.len() ==> {
                        let a = (#[trigger] pend_pp@[j]).address;
                        &&& self.participants().contains_key(a)
                        &&& pend_pp@[j] == (Participant {
                            total_tokens_earned: pend_pp@[j].total_tokens_earned,
                            ..self.participants()[a]
                        })
                        &&& pend_pp@[j].total_tokens_earned
                            == self.participants()[a].total_tokens_earned + delta_points(
                            self.materials(),
                            flipped@,
                            a,
                        )
                    },
                forall|j1: int, j2: int|
                    0 <= j1 < j2 < pend_st@.len() ==> pend_st@[j1].participant
                        != pend_st@[j2].participant,
                forall|a: u64|
                    !pend_stats_has(pend_st@, a) ==> #[trigger] delta_verified(
                        self.materials(),
                        flipped@,
                        a,
                    ) == 0 && delta_points(self.materials(), flipped@, a) == 0,
                results@.len() == resolved_ids(self.materials(), ids@.take(i as int)).len(),
                forall|k: int|
                    0 <= k < results@.len() ==> results@[k] == (Material {
                        verified: true,
                        ..self.materials()[resolved_ids(
                            self.materials(),
                            ids@.take(i as int),
                        )[k] - 1]
                    }),
                forall|j: int| 0 <= j < i ==> !self.verify_batch_overflow_at(ids@, j),
            decreases ids@.len() - i,
        {
            let id: u64 = ids[i];
            proof {
                lemma_ids_take_step(self.materials(), ids@, i as int);
            }
            if 1 <= id && id <= (self.storage.materials.len() as u64) {
                let m0 = self.storage.materials[(id - 1) as usize].clone();
                let already: bool = m0.verified || vec_contains_id(&flipped, id);
                if already {
                    results.push(Material { verified: true, ..m0 });
                } else {
                    let submitter: u64 = m0.submitter;
                    let reward: u64 = match m0.calculate_reward_points() {
                        Some(p) => p,
                        None => {
                            proof {
                                assert(self.verify_batch_overflow_at(ids@, i as int));
                            }
                            return Err(Error::OverflowError);
                        },
                    };
                    let st_idx: Option<usize> = find_stats(&pend_st, submitter);
                    let mut st: RecyclingStats = match st_idx {
                        Some(j) => pend_st[j],
                        None => match self.storage.stats.get(&submitter) {
                            Some(s) => *s,
                            None => {
                                proof {
                                    assert(false);
                                }
                                return Err(Error::OverflowError);
                            },
                        },
                    };
                    if st.record_verification(&m0).is_err() {
                        proof {
                            assert(self.verify_batch_overflow_at(ids@, i as int));
                        }
                        return Err(Error::OverflowError);
                    }
                    let mut part: Participant = match st_idx {
                        Some(j) => pend_pp[j].clone(),
                        None => match self.storage.participants.get(&submitter) {
                            Some(q) => q.clone(),
                            None => {
                                proof {
                                    assert(false);
                                }
                                return Err(Error::OverflowError);
                            },
                        },
                    };
                    if part.accumulate(0, reward).is_err() {
                        proof {
                            assert(self.verify_batch_overflow_at(ids@, i as int));
                        }
                        return Err(Error::OverflowError);
                    }
                    let ghost flipped_before = flipped@;
                    let ghost pend_before = pend_st@;
                    let ghost pp_before = pend_pp@;
                    let ghost st_before_v = st;
                    let ghost part_before_v = part;
                    match st_idx {
                        Some(j) => {
                            pend_st.set(j, st);
                            pend_pp.set(j, part);
                        },
                        None => {
                            pend_st.push(st);
                            pend_pp.push(part);
                        },
                    }
                    flipped.push(id);
                    results.push(Material { verified: true, ..m0 });
                    proof {
                        assert forall|a: u64| true implies #[trigger] delta_verified(
                            self.materials(),
                            flipped@,
                            a,
                        ) == delta_verified(self.materials(), flipped_before, a) + (
                        if self.materials()[id - 1].submitter == a {
                            1int
                        } else {
                            0int
                        }) && delta_points(self.materials(), flipped@, a) == delta_points(
                            self.materials(),
                            flipped_before,
                            a,
                        ) + (if self.materials()[id - 1].submitter == a {
                            reward_points(
                                self.materials()[id - 1].weight,
                                self.materials()[id - 1].waste_type,
                            )
                        } else {
                            0
                        }) by {
                            lemma_delta_push(self.materials(), flipped_before, id, a);
                        }
                        let jstar: int = if st_idx is Some {
                            st_idx->0 as int
                        } else {
                            pend_st@.len() - 1
                        };
                        assert(pend_st@.len() == pend_pp@.len());
                        assert(pend_st@[jstar] == st_before_v);
                        assert(pend_pp@[jstar] == part_before_v);
                        assert(forall|j: int|
                            0 <= j < pend_st@.len() && j != jstar ==> #[trigger] pend_st@[j]
                                == pend_before[j] && pend_pp@[j] == pp_before[j]);
                        assert(st_before_v.participant == submitter);
                        assert(part_before_v.address == submitter);
                        assert(self.stats().contains_key(submitter));
                        assert(self.participants().contains_key(submitter));
                        assert(st_before_v.verified_submissions
                            == self.stats()[submitter].verified_submissions + delta_verified(
                            self.materials(),
                            flipped@,
                            submitter,
                        ));
                        assert(st_before_v.total_points == self.stats()[submitter].total_points
                            + delta_points(self.materials(), flipped@, submitter));
                        assert(st_before_v == (RecyclingStats {
                            verified_submissions: st_before_v.verified_submissions,
                            total_points: st_before_v.total_points,
                            ..self.stats()[submitter]
                        }));
                        assert(part_before_v.total_tokens_earned
                            == self.participants()[submitter].total_tokens_earned + delta_points(
                            self.materials(),
                            flipped@,
                            submitter,
                        ));
                        assert(part_before_v == (Participant {
                            total_tokens_earned: part_before_v.total_tokens_earned,
                            ..self.participants()[submitter]
                        }));
                        assert forall|j: int| 0 <= j < pend_st@.len() implies ({
                            let a = (#[trigger] pend_st@[j]).participant;
                            &&& self.stats().contains_key(a)
                            &&& pend_st@[j] == (RecyclingStats {
                                verified_submissions: pend_st@[j].verified_submissions,
                                total_points: pend_st@[j].total_points,
                                ..self.stats()[a]
                            })
                            &&& pend_st@[j].verified_submissions
                                == self.stats()[a].verified_submissions + delta_verified(
                                self.materials(),
                                flipped@,
                                a,
                            )
                            &&& pend_st@[j].total_points == self.stats()[a].total_points
                                + delta_points(self.materials(), flipped@, a)
                        }) by {
                            if j != jstar {
                                assert(pend_st@[j] == pend_before[j]);
                                assert(pend_st@[j].participant != submitter);
                                assert(delta_verified(self.materials(), flipped@, pend_st@[j].participant)
                                    == delta_verified(
                                    self.materials(),
                                    flipped_before,
                                    pend_st@[j].participant,
                                ));
                            }
                        }
                        assert forall|j: int| 0 <= j < pend_pp@.len() implies ({
                            let a = (#[trigger] pend_pp@[j]).address;
                            &&& self.participants().contains_key(a)
                            &&& pend_pp@[j] == (Participant {
                                total_tokens_earned: pend_pp@[j].total_tokens_earned,
                                ..self.participants()[a]
                            })
                            &&& pend_pp@[j].total_tokens_earned
                                == self.participants()[a].total_tokens_earned + delta_points(
                                self.materials(),
                                flipped@,
                                a,
                            )
                        }) by {
                            if j != jstar {
                                assert(pend_pp@[j] == pp_before[j]);
                                assert(pend_st@[j].participant == pend_pp@[j].address);
                                assert(pend_pp@[j].address != submitter);
                                lemma_delta_push(
                                    self.materials(),
                                    flipped_before,
                                    id,
                                    pend_pp@[j].address,
                                );
                                assert(delta_points(self.materials(), flipped@, pend_pp@[j].address)
                                    == delta_points(
                                    self.materials(),
                                    flipped_before,
                                    pend_pp@[j].address,
                                ));
                            }
                        }
                        assert forall|a: u64| !pend_stats_has(pend_st@, a) implies
                            #[trigger] delta_verified(self.materials(), flipped@, a) == 0
                                && delta_points(self.materials(), flipped@, a) == 0 by {
                            if pend_stats_has(pend_before, a) {
                                let jj = choose|jj: int|
                                    0 <= jj < pend_before.len() && #[trigger] pend_before[jj].participant
                                        == a;
                                assert(pend_st@[jj].participant == a);
                                assert(pend_stats_has(pend_st@, a));
                                assert(false);
                            }
                            if a == submitter {
                                assert(pend_st@[jstar].participant == a);
                                assert(pend_stats_has(pend_st@, a));
                                assert(false);
                            }
                            lemma_delta_push(self.materials(), flipped_before, id, a);
                            assert(self.materials()[id - 1].submitter == submitter);
                            assert(delta_verified(self.materials(), flipped_before, a) == 0);
                            assert(delta_points(self.materials(), flipped_before, a) == 0);
                        }
                    }
                }
            }
            i = i + 1;
        }
        proof {
            assert(ids@.take(ids@.len() as int) =~= ids@);
            assert(!self.verify_batch_overflow(ids@));
            assert forall|j1: int, j2: int| 0 <= j1 < j2 < pend_pp@.len() implies
                pend_pp@[j1].address != pend_pp@[j2].address by {
                assert(pend_st@[j1].participant == pend_pp@[j1].address);
                assert(pend_st@[j2].participant == pend_pp@[j2].address);
            }
        }
        Ok((flipped, pend_st, pend_pp, results))
    }

    /// Commit pass of a verification batch: set the verified flag of
    /// every newly verified record.
    #[verifier::loop_isolation(false)]
    fn vb_commit_materials(&mut self, flipped: &Vec<u64>)
        requires
            forall|jj: int|
                0 <= jj < flipped@.len() ==> 1 <= #[trigger] flipped@[jj]
                    <= old(self).storage.materials@.len() && !old(self).storage.materials@[
                    flipped@[jj] - 1].verified,
            forall|j1: int, j2: int|
                0 <= j1 < j2 < flipped@.len() ==> flipped@[j1] != flipped@[j2],
        ensures
            final(self).storage == (Storage {
                materials: final(self).storage.materials,
                ..old(self).storage
            }),
            final(self).storage.materials@.len() == old(self).storage.materials@.len(),
            forall|i2: int|
                0 <= i2 < old(self).storage.materials@.len()
                    ==> final(self).storage.materials@[i2] == (Material {
                    verified: old(self).storage.materials@[i2].verified || flipped@.contains(
                        (i2 + 1) as u64,
                    ),
                    ..old(self).storage.materials@[i2]
                }),
            forall|a: u64|
                #[trigger] count_submitted(final(self).storage.materials@, a) == count_submitted(
                    old(self).storage.materials@,
                    a,
                ),
            forall|a: u64|
                #[trigger] count_verified(final(self).storage.materials@, a) == count_verified(
                    old(self).storage.materials@,
                    a,
                ) + delta_verified(old(self).storage.materials@, flipped@, a),
    {
        let ghost ms0 = self.storage.materials@;
        let n_mats: usize = self.storage.materials.len();
        proof {
            assert(ms0.len() == n_mats);
        }
        let mut j: usize = 0;
        while j < flipped.len()
            invariant
                j <= flipped@.len(),
                self.storage == (Storage {
                    materials: self.storage.materials,
                    ..old(self).storage
                }),
                self.storage.materials@.len() == ms0.len(),
                forall|i2: int|
                    0 <= i2 < ms0.len() ==> self.storage.materials@[i2] == (Material {
                        verified: ms0[i2].verified || flipped@.take(j as int).contains(
                            (i2 + 1) as u64,
                        ),
                        ..ms0[i2]
                    }),
                forall|a: u64|
                    #[trigger] count_submitted(self.storage.materials@, a) == count_submitted(
                        ms0,
                        a,
                    ),
                forall|a: u64|
                    #[trigger] count_verified(self.storage.materials@, a) == count_verified(
                        ms0,
                        a,
                    ) + delta_verified(ms0, flipped@.take(j as int), a),
            decreases flipped@.len() - j,
        {
            let id: u64 = flipped[j];
            let idx: usize = (id - 1) as usize;
            let ghost mats_before = self.storage.materials@;
            proof {
                assert(!flipped@.take(j as int).contains(id)) by {
                    if flipped@.take(j as int).contains(id) {
                        let w = choose|w: int|
                            0 <= w < j && #[trigger] flipped@.take(j as int)[w] == id;
                        assert(flipped@[w] == id);
                        assert(flipped@[j as int] == id);
                        assert(false);
                    }
                }
                assert(!mats_before[id - 1].verified);
                assert(mats_before[id - 1] == (Material {
                    verified: false,
                    ..ms0[id - 1]
                }));
            }
            let cur = self.storage.materials[idx].clone();
            let updated = Material { verified: true, ..cur };
            let ghost updated_g = updated;
            self.storage.materials.set(idx, updated);
            proof {
                assert(flipped@.take(j as int + 1).drop_last() =~= flipped@.take(j as int));
                assert forall|a: u64| true implies #[trigger] count_submitted(
                    self.storage.materials@,
                    a,
                ) == count_submitted(mats_before, a) by {
                    lemma_count_update(mats_before, idx as int, updated_g, a);
                }
                assert forall|a: u64| true implies #[trigger] count_verified(
                    self.storage.materials@,
                    a,
                ) == count_verified(mats_before, a) + (if ms0[id - 1].submitter == a {
                    1int
                } else {
                    0int
                }) by {
                    lemma_count_update(mats_before, idx as int, updated_g, a);
                }
                assert forall|a: u64| true implies #[trigger] delta_verified(
                    ms0,
                    flipped@.take(j as int + 1),
                    a,
                ) == delta_verified(ms0, flipped@.take(j as int), a) + (if ms0[id
                    - 1].submitter == a {
                    1int
                } else {
                    0int
                }) by {
                    lemma_delta_push(ms0, flipped@.take(j as int), id, a);
                    assert(flipped@.take(j as int).push(id) =~= flipped@.take(j as int + 1));
                }
                assert forall|i2: int| 0 <= i2 < ms0.len() implies self.storage.materials@[i2]
                    == (Material {
                    verified: ms0[i2].verified || flipped@.take(j as int + 1).contains(
                        (i2 + 1) as u64,
                    ),
                    ..ms0[i2]
                }) by {
                    if flipped@.take(j as int + 1).contains((i2 + 1) as u64) {
                        let w = choose|w: int|
                            0 <= w < j + 1 && #[trigger] flipped@.take(j as int + 1)[w] == i2
                                + 1;
                        if w < j {
                            assert(flipped@.take(j as int)[w] == i2 + 1);
                            assert(flipped@.take(j as int).contains((i2 + 1) as u64));
                        }
                    }
                    if flipped@.take(j as int).contains((i2 + 1) as u64) {
                        let w = choose|w: int|
                            0 <= w < j && #[trigger] flipped@.take(j as int)[w] == i2 + 1;
                        assert(flipped@.take(j as int + 1)[w] == i2 + 1);
                        assert(flipped@.take(j as int + 1).contains((i2 + 1) as u64));
                    }
                    assert(flipped@.take(j as int + 1)[j as int] == id);
                    assert(flipped@.take(j as int + 1).contains(id));
                }
            }
            j = j + 1;
        }
        proof {
            assert(flipped@.take(flipped@.len() as int) =~= flipped@);
        }
    }

    /// Commit pass of a verification batch: write back the pending
    /// statistics records.
    #[verifier::loop_isolation(false)]
    fn vb_commit_stats(&mut self, pend: &Vec<RecyclingStats>)
        requires
            forall|j1: int, j2: int|
                0 <= j1 < j2 < pend@.len() ==> pend@[j1].participant != pend@[j2].participant,
            forall|j: int|
                0 <= j < pend@.len() ==> old(self).storage.stats@.contains_key(
                    (#[trigger] pend@[j]).participant,
                ),
        ensures
            final(self).storage == (Storage {
                stats: final(self).storage.stats,
                ..old(self).storage
            }),
            final(self).storage.stats@.dom() == old(self).storage.stats@.dom(),
            forall|j: int|
                0 <= j < pend@.len() ==> final(self).storage.stats@[(#[trigger] pend@[j]).participant]
                    == pend@[j],
            forall|a: u64|
                #[trigger] old(self).storage.stats@.contains_key(a) && !pend_stats_has(pend@, a)
                    ==> final(self).storage.stats@[a] == old(self).storage.stats@[a],
    {
        let ghost st0 = self.storage.stats@;
        let mut k: usize = 0;
        while k < pend.len()
            invariant
                k <= pend@.len(),
                self.storage == (Storage { stats: self.storage.stats, ..old(self).storage }),
                self.storage.stats@.dom() == st0.dom(),
                forall|kk: int|
                    0 <= kk < k ==> self.storage.stats@[(#[trigger] pend@[kk]).participant]
                        == pend@[kk],
                forall|a: u64|
                    st0.contains_key(a) && !(exists|kk: int|
                        0 <= kk < k && (#[trigger] pend@[kk]).participant == a) ==> self.storage.stats@[a]
                        == st0[a],
            decreases pend@.len() - k,
        {
            let s = pend[k];
            self.storage.stats.insert(s.participant, s);
            k = k + 1;
        }
        proof {
            assert forall|a: u64|
                #[trigger] st0.contains_key(a) && !pend_stats_has(pend@, a) implies
                self.storage.stats@[a] == st0[a] by {
                if exists|kk: int|
                    0 <= kk < pend@.len() && (#[trigger] pend@[kk]).participant == a {
                    let kk = choose|kk: int|
                        0 <= kk < pend@.len() && (#[trigger] pend@[kk]).participant == a;
                    assert(pend_stats_has(pend@, a));
                }
            }
        }
    }

    /// Commit pass of a verification batch: write back the pending
    /// participant records.
    #[verifier::loop_isolation(false)]
    fn vb_commit_parts(&mut self, pend: &Vec<Participant>)
        requires
            forall|j1: int, j2: int|
                0 <= j1 < j2 < pend@.len() ==> pend@[j1].address != pend@[j2].address,
            forall|j: int|
                0 <= j < pend@.len() ==> old(self).storage.participants@.contains_key(
                    (#[trigger] pend@[j]).address,
                ),
        ensures
            final(self).storage == (Storage {
                participants: final(self).storage.participants,
                ..old(self).storage
            }),
            final(self).storage.participants@.dom() == old(self).storage.participants@.dom(),
            forall|j: int|
                0 <= j < pend@.len() ==> final(self).storage.participants@[
                    (#[trigger] pend@[j]).address] == pend@[j],
            forall|a: u64|
                #[trigger] old(self).storage.participants@.contains_key(a) && !pend_parts_has(
                    pend@,
                    a,
                ) ==> final(self).storage.participants@[a] == old(self).storage.participants@[a],
    {
        let ghost pp0 = self.storage.participants@;
        let mut k: usize = 0;
        while k < pend.len()
            invariant
                k <= pend@.len(),
                self.storage == (Storage {
                    participants: self.storage.participants,
                    ..old(self).storage
                }),
                self.storage.participants@.dom() == pp0.dom(),
                forall|kk: int|
                    0 <= kk < k ==> self.storage.participants@[(#[trigger] pend@[kk]).address]
                        == pend@[kk],
                forall|a: u64|
                    pp0.contains_key(a) && !(exists|kk: int|
                        0 <= kk < k && (#[trigger] pend@[kk]).address == a)
                        ==> self.storage.participants@[a] == pp0[a],
            decreases pend@.len() - k,
        {
            let p = pend[k].clone();
            self.storage.participants.insert(p.address, p);
            k = k + 1;
        }
        proof {
            assert forall|a: u64|
                #[trigger] pp0.contains_key(a) && !pend_parts_has(pend@, a) implies
                self.storage.participants@[a] == pp0[a] by {
                if exists|kk: int| 0 <= kk < pend@.len() && (#[trigger] pend@[kk]).address == a {
                    let kk = choose|kk: int|
                        0 <= kk < pend@.len() && (#[trigger] pend@[kk]).address == a;
                    assert(pend_parts_has(pend@, a));
                }
            }
        }
    }

    /// Verify several material records at once, best-effort over the
    /// given identifier list.
    ///
    /// The verifier checks are made once for the batch.  An identifier
    /// that names no record is skipped silently, with no error and no
    /// effect for it.  Each identifier that resolves contributes the
    /// record, verified, to the result, in order and duplicates
    /// included; a record already verified (or repeated in the list)
    /// accumulates nothing a second time.  Any overflow fails the whole
    /// call with no effect.
    #[verifier::rlimit(50)]
    pub fn verify_materials_batch(&mut self, caller: u64, material_ids: Vec<u64>, verifier: u64)
        -> (r: Result<Vec<Material>, Error>)
        requires
            old(self).wf(),
        ensures
            final(self).wf(),
            match r {
                Ok(rs) => ({
                    let ms0 = old(self).materials();
                    let nv = newly_verified_ids(ms0, material_ids@);
                    let rv = resolved_ids(ms0, material_ids@);
                    &&& old(self).verify_batch_check(caller, verifier, material_ids@) is None
                    &&& final(self).materials().len() == ms0.len()
                    &&& forall|i: int|
                        0 <= i < ms0.len() ==> final(self).materials()[i] == (Material {
                            verified: ms0[i].verified || nv.contains((i + 1) as u64),
                            ..ms0[i]
                        })
                    &&& final(self).stats().dom() == old(self).stats().dom()
                    &&& forall|a: u64|
                        #[trigger] old(self).stats().contains_key(a) ==> final(self).stats()[a]
                            == (RecyclingStats {
                            verified_submissions: (old(self).stats()[a].verified_submissions
                                + delta_verified(ms0, nv, a)) as u64,
                            total_points: (old(self).stats()[a].total_points + delta_points(
                                ms0,
                                nv,
                                a,
                            )) as u64,
                            ..old(self).stats()[a]
                        })
                    &&& final(self).participants().dom() == old(self).participants().dom()
                    &&& forall|a: u64|
                        #[trigger] old(self).participants().contains_key(a)
                            ==> final(self).participants()[a] == (Participant {
                            total_tokens_earned: (old(self).participants()[a].total_tokens_earned
                                + delta_points(ms0, nv, a)) as u128,
                            ..old(self).participants()[a]
                        })
                    &&& rs@.len() == rv.len()
                    &&& forall|k: int|
                        0 <= k < rv.len() ==> rs@[k] == (Material {
                            verified: true,
                            ..ms0[rv[k] - 1]
                        })
                    &&& final(self).same_config(*old(self))
                    &&& final(self).same_counters(*old(self))
                }),
                Err(e) => {
                    &&& old(self).verify_batch_check(caller, verifier, material_ids@) == Some(e)
                    &&& *final(self) == *old(self)
                },
            },
    {
        if caller != verifier {
            return Err(Error::AuthError);
        }
        let vp = match self.storage.participants.get(&verifier) {
            Some(q) => q.clone(),
            None => { return Err(Error::NotFoundError); },
        };
        if !vp.is_registered {
            return Err(Error::NotRegisteredError);
        }
        if !vp.role.can_process_recyclables() {
            return Err(Error::ForbiddenError);
        }
        let ghost ms0 = self.materials();
        let ghost st0 = self.stats();
        let ghost pp0 = self.participants();
        let (flipped, pend_st, pend_pp, results) = match self.vb_scan(&material_ids) {
            Ok(out) => out,
            Err(e) => { return Err(e); },
        };
        proof {
            lemma_newly_verified_props(ms0, material_ids@);
        }
        self.vb_commit_materials(&flipped);
        self.vb_commit_stats(&pend_st);
        self.vb_commit_parts(&pend_pp);
        proof {
            let nv = newly_verified_ids(ms0, material_ids@);
            assert forall|a: u64| #[trigger] st0.contains_key(a) implies self.storage.stats@[a]
                == (RecyclingStats {
                verified_submissions: (st0[a].verified_submissions + delta_verified(
                    ms0,
                    nv,
                    a,
                )) as u64,
                total_points: (st0[a].total_points + delta_points(ms0, nv, a)) as u64,
                ..st0[a]
            }) by {
                if pend_stats_has(pend_st@, a) {
                    let jj = choose|jj: int|
                        0 <= jj < pend_st@.len() && (#[trigger] pend_st@[jj]).participant == a;
                    assert(self.storage.stats@[pend_st@[jj].participant] == pend_st@[jj]);
                }
            }
            assert forall|a: u64| #[trigger] pp0.contains_key(a) implies
                self.storage.participants@[a] == (Participant {
                total_tokens_earned: (pp0[a].total_tokens_earned + delta_points(
                    ms0,
                    nv,
                    a,
                )) as u128,
                ..pp0[a]
            }) by {
                if pend_parts_has(pend_pp@, a) {
                    let jj = choose|jj: int|
                        0 <= jj < pend_pp@.len() && (#[trigger] pend_pp@[jj]).address == a;
                    assert(self.storage.participants@[pend_pp@[jj].address] == pend_pp@[jj]);
                    assert(pend_st@[jj].participant == a);
                } else {
                    assert forall|jj: int| 0 <= jj < pend_st@.len() implies
                        (#[trigger] pend_st@[jj]).participant != a by {
                        if pend_st@[jj].participant == a {
                            assert(pend_pp@[jj].address == a);
                            assert(pend_parts_has(pend_pp@, a));
                        }
                    }
                    assert(!pend_stats_has(pend_st@, a));
                    assert(delta_verified(ms0, nv, a) == 0);
                    assert(delta_points(ms0, nv, a) == 0);
                }
            }
            assert forall|a: u64| #[trigger] self.storage.stats@.contains_key(a) implies
                self.storage.stats@[a].total_submissions == count_submitted(
                    self.storage.materials@,
                    a,
                ) && self.storage.stats@[a].verified_submissions == count_verified(
                    self.storage.materials@,
                    a,
                ) by {
                assert(st0.contains_key(a));
            }
        }
        Ok(results)
    }
}

/// Collector share configured at initialization.
pub const DEFAULT_COLLECTOR_PERCENTAGE: u32 = 5;

/// Owner share configured at initialization.
pub const DEFAULT_OWNER_PERCENTAGE: u32 = 50;

/// Value the configuration counter slot starts at.
pub const INITIAL_COUNTER_VALUE: u64 = 1;

impl ScavengerContract {
    /// First error of the administrator gate: the configured
    /// administrator must exist, be the one named, and be the
    /// authenticated caller.
    pub open spec fn admin_check(self, caller: u64, admin: u64) -> Option<Error> {
        if self.storage.admin is None {
            Some(Error::NotFoundError)
        } else if self.storage.admin != Some(admin) {
            Some(Error::ForbiddenError)
        } else if caller != admin {
            Some(Error::AuthError)
        } else {
            None
        }
    }

    fn require_admin(&self, caller: u64, admin: u64) -> (r: Result<(), Error>)
        ensures
            match r {
                Ok(()) => self.admin_check(caller, admin) is None,
                Err(e) => self.admin_check(caller, admin) == Some(e),
            },
    {
        let stored = match self.storage.get_admin() {
            Some(a) => a,
            None => { return Err(Error::NotFoundError); },
        };
        if stored != admin {
            return Err(Error::ForbiddenError);
        }
        if caller != admin {
            return Err(Error::AuthError);
        }
        Ok(())
    }

    /// Initialize the configuration: set the administrator and token
    /// address, the default percentages (collector 5, owner 50), the
    /// counter slot to 1 and the total earned to 0.  Can only succeed
    /// once.
    pub fn __constructor(&mut self, caller: u64, admin: u64, token_address: u64) -> (r: Result<
        (),
        Error,
    >)
        requires
            old(self).wf(),
        ensures
            final(self).wf(),
            match r {
                Ok(()) => {
                    &&& !old(self).storage.initialized
                    &&& caller == admin
                    &&& final(self).storage == (Storage {
                        initialized: true,
                        admin: Some(admin),
                        token_address: Some(token_address),
                        collector_percentage: Some(DEFAULT_COLLECTOR_PERCENTAGE),
                        owner_percentage: Some(DEFAULT_OWNER_PERCENTAGE),
                        total_earned: 0,
                        counter: INITIAL_COUNTER_VALUE,
                        ..old(self).storage
                    })
                },
                Err(e) => {
                    &&& *final(self) == *old(self)
                    &&& if old(self).storage.initialized {
                        e == Error::AlreadyInitializedError
                    } else {
                        e == Error::AuthError && caller != admin
                    }
                },
            },
    {
        if self.storage.is_initialized() {
            return Err(Error::AlreadyInitializedError);
        }
        if caller != admin {
            return Err(Error::AuthError);
        }
        self.storage.set_admin(admin);
        self.storage.set_token_address(token_address);
        self.storage.set_collector_percentage(DEFAULT_COLLECTOR_PERCENTAGE);
        self.storage.set_owner_percentage(DEFAULT_OWNER_PERCENTAGE);
        self.storage.set_counter(INITIAL_COUNTER_VALUE);
        self.storage.set_total_earned(0);
        self.storage.set_initialized();
        Ok(())
    }

    /// The configured administrator.
    pub fn get_admin(&self) -> (r: Result<u64, Error>)
        ensures
            match r {
                Ok(a) => self.storage.admin == Some(a),
                Err(e) => e == Error::NotFoundError && self.storage.admin is None,
            },
    {
        match self.storage.get_admin() {
            Some(a) => Ok(a),
            None => Err(Error::NotFoundError),
        }
    }

    /// The configured reward token address.
    pub fn get_token_address(&self) -> (r: Result<u64, Error>)
        ensures
            match r {
                Ok(a) => self.storage.token_address == Some(a),
                Err(e) => e == Error::NotFoundError && self.storage.token_address is None,
            },
    {
        match self.storage.get_token_address() {
            Some(a) => Ok(a),
            None => Err(Error::NotFoundError),
        }
    }

    /// The configured charity address, if any.
    pub fn get_charity_address(&self) -> (r: Option<u64>)
        ensures
            r == self.storage.charity_address,
    {
        self.storage.get_charity_address()
    }

    /// The configured collector percentage.
    pub fn get_collector_percentage(&self) -> (r: Result<u32, Error>)
        ensures
            match r {
                Ok(p) => self.storage.collector_percentage == Some(p),
                Err(e) => e == Error::NotFoundError && self.storage.collector_percentage is None,
            },
    {
        match self.storage.get_collector_percentage() {
            Some(p) => Ok(p),
            None => Err(Error::NotFoundError),
        }
    }

    /// The configured owner percentage.
    pub fn get_owner_percentage(&self) -> (r: Result<u32, Error>)
        ensures
            match r {
                Ok(p) => self.storage.owner_percentage == Some(p),
                Err(e) => e == Error::NotFoundError && self.storage.owner_percentage is None,
            },
    {
        match self.storage.get_owner_percentage() {
            Some(p) => Ok(p),
            None => Err(Error::NotFoundError),
        }
    }

    /// The total tokens earned across the programme.
    pub fn get_total_earned(&self) -> (r: i128)
        ensures
            r == self.storage.total_earned,
    {
        self.storage.get_total_earned()
    }

    /// The configuration module's counter slot.
    pub fn get_counter(&self) -> (r: u64)
        ensures
            r == self.storage.counter,
    {
        self.storage.get_counter()
    }

    /// Whether the configuration has been initialized.
    pub fn is_initialized(&self) -> (r: bool)
        ensures
            r == self.storage.initialized,
    {
        self.storage.is_initialized()
    }

    /// Set the charity address; only the administrator may.
    pub fn set_charity_address(&mut self, caller: u64, admin: u64, charity_address: u64) -> (r:
        Result<(), Error>)
        requires
            old(self).wf(),
        ensures
            final(self).wf(),
            match r {
                Ok(()) => {
                    &&& old(self).admin_check(caller, admin) is None
                    &&& final(self).storage == (Storage {
                        charity_address: Some(charity_address),
                        ..old(self).storage
                    })
                },
                Err(e) => {
                    &&& old(self).admin_check(caller, admin) == Some(e)
                    &&& *final(self) == *old(self)
                },
            },
    {
        match self.require_admin(caller, admin) {
            Ok(()) => {},
            Err(e) => { return Err(e); },
        }
        self.storage.set_charity_address(charity_address);
        Ok(())
    }

    /// First error of a collector-percentage update: the administrator
    /// gate, a missing owner percentage, or a sum over 100.
    pub open spec fn update_collector_check(self, caller: u64, admin: u64, new_percentage: u32)
        -> Option<Error> {
        match self.admin_check(caller, admin) {
            Some(e) => Some(e),
            None => match self.storage.owner_percentage {
                None => Some(Error::NotFoundError),
                Some(o) => if new_percentage + o > 100 {
                    Some(Error::InvalidPercentageError)
                } else {
                    None
                },
            },
        }
    }

    /// Update the collector percentage; only the administrator may, and
    /// the collector and owner percentages may never sum over 100.
    pub fn update_collector_percentage(&mut self, caller: u64, admin: u64, new_percentage: u32)
        -> (r: Result<(), Error>)
        requires
            old(self).wf(),
        ensures
            final(self).wf(),
            match r {
                Ok(()) => {
                    &&& old(self).update_collector_check(caller, admin, new_percentage) is None
                    &&& final(self).storage == (Storage {
                        collector_percentage: Some(new_percentage),
                        ..old(self).storage
                    })
                },
                Err(e) => {
                    &&& old(self).update_collector_check(caller, admin, new_percentage) == Some(e)
                    &&& *final(self) == *old(self)
                },
            },
    {
        match self.require_admin(caller, admin) {
            Ok(()) => {},
            Err(e) => { return Err(e); },
        }
        let owner_pct = match self.storage.get_owner_percentage() {
            Some(o) => o,
            None => { return Err(Error::NotFoundError); },
        };
        if (new_percentage as u64) + (owner_pct as u64) > 100 {
            return Err(Error::InvalidPercentageError);
        }
        self.storage.set_collector_percentage(new_percentage);
        Ok(())
    }

    /// First error of an owner-percentage update: the administrator
    /// gate, a missing collector percentage, or a sum over 100.
    pub open spec fn update_owner_check(self, caller: u64, admin: u64, new_percentage: u32)
        -> Option<Error> {
        match self.admin_check(caller, admin) {
            Some(e) => Some(e),
            None => match self.storage.collector_percentage {
                None => Some(Error::NotFoundError),
                Some(c) => if c + new_percentage > 100 {
                    Some(Error::InvalidPercentageError)
                } else {
                    None
                },
            },
        }
    }

    /// Update the owner percentage; only the administrator may, and the
    /// collector and owner percentages may never sum over 100.
    pub fn update_owner_percentage(&mut self, caller: u64, admin: u64, new_percentage: u32) -> (r:
        Result<(), Error>)
        requires
            old(self).wf(),
        ensures
            final(self).wf(),
            match r {
                Ok(()) => {
                    &&& old(self).update_owner_check(caller, admin, new_percentage) is None
                    &&& final(self).storage == (Storage {
                        owner_percentage: Some(new_percentage),
                        ..old(self).storage
                    })
                },
                Err(e) => {
                    &&& old(self).update_owner_check(caller, admin, new_percentage) == Some(e)
                    &&& *final(self) == *old(self)
                },
            },
    {
        match self.require_admin(caller, admin) {
            Ok(()) => {},
            Err(e) => { return Err(e); },
        }
        let collector_pct = match self.storage.get_collector_percentage() {
            Some(c) => c,
            None => { return Err(Error::NotFoundError); },
        };
        if (collector_pct as u64) + (new_percentage as u64) > 100 {
            return Err(Error::InvalidPercentageError);
        }
        self.storage.set_owner_percentage(new_percentage);
        Ok(())
    }
}

} // verus!
