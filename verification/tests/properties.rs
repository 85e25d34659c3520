use scavenger::{Error, Material, ParticipantRole, RecyclingStats, ScavengerContract, Storage, WasteType};

const NOW: u64 = 1700000000;

fn register(c: &mut ScavengerContract, address: u64, role: ParticipantRole) {
    c.register_participant(address, address, role, String::from("Test"), 0, 0, NOW).unwrap();
}

#[test]
fn registration_reflects_values_and_clock() {
    let mut c = ScavengerContract::new();
    let user: u64 = 1;

    let p = c
        .register_participant(user, user, ParticipantRole::Collector, String::from("Clock"), 5, -5, 424242)
        .unwrap();
    assert_eq!(p.registered_at, 424242);

    let stored = c.get_participant(user).unwrap();
    assert_eq!(stored.role, ParticipantRole::Collector);
    assert_eq!(stored.name, String::from("Clock"));
    assert_eq!(stored.latitude, 5);
    assert_eq!(stored.longitude, -5);
    assert_eq!(stored.registered_at, 424242);
}

#[test]
fn reregistration_overwrites_without_error() {
    let mut c = ScavengerContract::new();
    let user: u64 = 1;

    c.register_participant(user, user, ParticipantRole::Recycler, String::from("Old"), 1, 2, 10).unwrap();
    c.submit_material(user, WasteType::Paper, 1000, user, String::from("Test"), 11).unwrap();
    assert_eq!(c.get_participant(user).unwrap().total_waste_processed, 1000);

    // Re-registering is not rejected; it replaces role, name and
    // location and zeroes the running totals.
    let p = c
        .register_participant(user, user, ParticipantRole::Manufacturer, String::from("New"), 3, 4, 12)
        .unwrap();
    assert_eq!(p.role, ParticipantRole::Manufacturer);

    let stored = c.get_participant(user).unwrap();
    assert_eq!(stored.role, ParticipantRole::Manufacturer);
    assert_eq!(stored.name, String::from("New"));
    assert_eq!(stored.latitude, 3);
    assert_eq!(stored.longitude, 4);
    assert_eq!(stored.total_waste_processed, 0);
    assert_eq!(stored.registered_at, 12);
}

#[test]
fn submit_on_unknown_and_deregistered_identities() {
    let mut c = ScavengerContract::new();
    let user: u64 = 1;

    // Unregistered identity: no record at all
    let r = c.submit_material(user, WasteType::Paper, 1000, user, String::from("Test"), NOW);
    assert_eq!(r, Err(Error::NotFoundError));

    // Deregistered identity: record exists, flag cleared
    register(&mut c, user, ParticipantRole::Collector);
    c.deregister_participant(user, user).unwrap();
    let r = c.submit_material(user, WasteType::Paper, 1000, user, String::from("Test"), NOW);
    assert_eq!(r, Err(Error::NotRegisteredError));
}

#[test]
fn reward_formula_worked_examples() {
    let glass = Material::new(1, WasteType::Glass, 2000, 1, NOW, String::from("Glass"));
    assert_eq!(glass.calculate_reward_points(), Some(20));

    let metal = Material::new(2, WasteType::Metal, 5000, 1, NOW, String::from("Metal"));
    assert_eq!(metal.calculate_reward_points(), Some(250));

    let paper = Material::new(3, WasteType::Paper, 1000, 1, NOW, String::from("Paper"));
    assert_eq!(paper.calculate_reward_points(), Some(10));

    let plastic = Material::new(4, WasteType::Plastic, 2000, 1, NOW, String::from("Plastic"));
    assert_eq!(plastic.calculate_reward_points(), Some(40));

    let pet = Material::new(5, WasteType::PetPlastic, 1000, 1, NOW, String::from("PET"));
    assert_eq!(pet.calculate_reward_points(), Some(30));

    // Weight is truncated to whole kilograms before the multiplication
    let partial = Material::new(6, WasteType::Paper, 1999, 1, NOW, String::from("Partial"));
    assert_eq!(partial.calculate_reward_points(), Some(10));
}

#[test]
fn batch_submit_accumulates_stats() {
    let mut c = ScavengerContract::new();
    let user: u64 = 1;

    register(&mut c, user, ParticipantRole::Collector);

    let items = vec![
        (WasteType::Paper, 1000u64, String::from("a")),
        (WasteType::Plastic, 2000u64, String::from("b")),
        (WasteType::Metal, 3000u64, String::from("c")),
    ];
    c.submit_materials_batch(user, items, user, NOW).unwrap();

    let stats = c.get_stats(user).unwrap();
    assert_eq!(stats.total_submissions, 3);
    assert_eq!(stats.total_weight, 6000);
    assert_eq!(c.get_participant(user).unwrap().total_waste_processed, 6000);
}

#[test]
fn batch_equals_sequential_submissions() {
    let user: u64 = 1;

    let mut batched = ScavengerContract::new();
    register(&mut batched, user, ParticipantRole::Collector);
    let items = vec![
        (WasteType::Paper, 1500u64, String::from("a")),
        (WasteType::Glass, 2500u64, String::from("b")),
        (WasteType::Paper, 500u64, String::from("c")),
    ];
    batched.submit_materials_batch(user, items, user, NOW).unwrap();

    let mut sequential = ScavengerContract::new();
    register(&mut sequential, user, ParticipantRole::Collector);
    sequential.submit_material(user, WasteType::Paper, 1500, user, String::from("a"), NOW).unwrap();
    sequential.submit_material(user, WasteType::Glass, 2500, user, String::from("b"), NOW).unwrap();
    sequential.submit_material(user, WasteType::Paper, 500, user, String::from("c"), NOW).unwrap();

    assert_eq!(batched.get_stats(user), sequential.get_stats(user));
    assert_eq!(batched.get_participant(user), sequential.get_participant(user));
    assert_eq!(batched.get_waste_count(), sequential.get_waste_count());
    for id in 1..=3u64 {
        assert_eq!(batched.get_material(id), sequential.get_material(id));
    }
}

#[test]
fn verify_batch_skips_missing_ids_silently() {
    let mut c = ScavengerContract::new();
    let submitter: u64 = 1;
    let recycler: u64 = 2;

    register(&mut c, submitter, ParticipantRole::Collector);
    register(&mut c, recycler, ParticipantRole::Recycler);

    let desc = String::from("Test");
    c.submit_material(submitter, WasteType::Paper, 1000, submitter, desc.clone(), NOW).unwrap();
    c.submit_material(submitter, WasteType::Glass, 2000, submitter, desc, NOW).unwrap();

    // Identifier 99 in the middle of the list names no record: the
    // others are verified, 99 is skipped with no error and no effect.
    let results = c.verify_materials_batch(recycler, vec![1, 99, 2], recycler).unwrap();
    assert_eq!(results.len(), 2);
    assert!(results[0].verified);
    assert!(results[1].verified);
    assert_eq!(results[0].id, 1);
    assert_eq!(results[1].id, 2);

    let stats = c.get_stats(submitter).unwrap();
    assert_eq!(stats.verified_submissions, 2);
    assert_eq!(stats.total_points, 10 + 20);
}

#[test]
fn get_wastes_batch_preserves_order_and_slots() {
    let mut c = ScavengerContract::new();
    let user: u64 = 1;

    register(&mut c, user, ParticipantRole::Collector);

    let desc = String::from("Test");
    c.submit_material(user, WasteType::Paper, 1000, user, desc.clone(), NOW).unwrap();
    c.submit_material(user, WasteType::Plastic, 2000, user, desc.clone(), NOW).unwrap();
    c.submit_material(user, WasteType::Metal, 3000, user, desc, NOW).unwrap();

    let results = c.get_wastes_batch(vec![1, 2, 3, 99]);
    assert_eq!(results.len(), 4);
    assert_eq!(results[0].as_ref().unwrap().id, 1);
    assert_eq!(results[1].as_ref().unwrap().id, 2);
    assert_eq!(results[2].as_ref().unwrap().id, 3);
    assert!(results[3].is_none());
}

#[test]
fn reverify_is_a_no_op() {
    let mut c = ScavengerContract::new();
    let submitter: u64 = 1;
    let recycler: u64 = 2;

    register(&mut c, submitter, ParticipantRole::Collector);
    register(&mut c, recycler, ParticipantRole::Recycler);

    c.submit_material(submitter, WasteType::Glass, 2000, submitter, String::from("Test"), NOW).unwrap();
    let first = c.verify_material(recycler, 1, recycler).unwrap();
    assert!(first.verified);
    assert_eq!(c.get_participant(submitter).unwrap().total_tokens_earned, 20);

    // A second verification of the same record succeeds but grants
    // nothing a second time.
    let second = c.verify_material(recycler, 1, recycler).unwrap();
    assert!(second.verified);
    let stats = c.get_stats(submitter).unwrap();
    assert_eq!(stats.verified_submissions, 1);
    assert_eq!(stats.total_points, 20);
    assert_eq!(c.get_participant(submitter).unwrap().total_tokens_earned, 20);

    // The same holds for a repeated identifier in a batch
    let results = c.verify_materials_batch(recycler, vec![1, 1], recycler).unwrap();
    assert_eq!(results.len(), 2);
    let stats = c.get_stats(submitter).unwrap();
    assert_eq!(stats.verified_submissions, 1);
    assert_eq!(stats.total_points, 20);
}

#[test]
fn verify_requires_recycler_role() {
    let mut c = ScavengerContract::new();
    let submitter: u64 = 1;
    let collector: u64 = 2;
    let manufacturer: u64 = 3;

    register(&mut c, submitter, ParticipantRole::Collector);
    register(&mut c, collector, ParticipantRole::Collector);
    register(&mut c, manufacturer, ParticipantRole::Manufacturer);

    c.submit_material(submitter, WasteType::Paper, 1000, submitter, String::from("Test"), NOW).unwrap();

    assert_eq!(c.verify_material(collector, 1, collector), Err(Error::ForbiddenError));
    assert_eq!(c.verify_material(manufacturer, 1, manufacturer), Err(Error::ForbiddenError));
    assert_eq!(
        c.verify_materials_batch(collector, vec![1], collector),
        Err(Error::ForbiddenError)
    );
}

#[test]
fn registry_updates_on_unknown_identity_fail() {
    let mut c = ScavengerContract::new();
    let user: u64 = 1;

    assert_eq!(c.update_role(user, user, ParticipantRole::Recycler), Err(Error::NotFoundError));
    assert_eq!(c.update_location(user, user, 1, 2), Err(Error::NotFoundError));
    assert_eq!(c.deregister_participant(user, user), Err(Error::NotFoundError));
}

#[test]
fn auth_is_checked_before_existence() {
    let mut c = ScavengerContract::new();
    let user: u64 = 1;
    let other: u64 = 2;

    // Neither identity exists, yet the authentication failure comes
    // first.
    assert_eq!(c.update_role(other, user, ParticipantRole::Recycler), Err(Error::AuthError));
    assert_eq!(c.verify_material(other, 1, user), Err(Error::AuthError));
    assert_eq!(
        c.submit_material(other, WasteType::Paper, 1, user, String::from("x"), NOW),
        Err(Error::AuthError)
    );
}

#[test]
fn verify_missing_material_fails() {
    let mut c = ScavengerContract::new();
    let recycler: u64 = 1;

    register(&mut c, recycler, ParticipantRole::Recycler);
    assert_eq!(c.verify_material(recycler, 1, recycler), Err(Error::NotFoundError));
}

#[test]
fn auth_is_checked_on_every_write() {
    let mut c = ScavengerContract::new();
    let user: u64 = 1;
    let intruder: u64 = 2;

    register(&mut c, user, ParticipantRole::Recycler);

    assert_eq!(
        c.register_participant(intruder, user, ParticipantRole::Collector, String::from("x"), 0, 0, NOW),
        Err(Error::AuthError)
    );
    assert_eq!(c.update_role(intruder, user, ParticipantRole::Collector), Err(Error::AuthError));
    assert_eq!(c.update_location(intruder, user, 1, 1), Err(Error::AuthError));
    assert_eq!(c.deregister_participant(intruder, user), Err(Error::AuthError));
    assert_eq!(
        c.submit_material(intruder, WasteType::Paper, 1, user, String::from("x"), NOW),
        Err(Error::AuthError)
    );
    assert_eq!(
        c.submit_materials_batch(intruder, vec![], user, NOW),
        Err(Error::AuthError)
    );
    assert_eq!(c.verify_material(intruder, 1, user), Err(Error::AuthError));
    assert_eq!(c.verify_materials_batch(intruder, vec![1], user), Err(Error::AuthError));
}

#[test]
fn submission_overflow_aborts_without_effect() {
    let mut c = ScavengerContract::new();
    let user: u64 = 1;

    register(&mut c, user, ParticipantRole::Collector);

    c.submit_material(user, WasteType::Paper, u64::MAX, user, String::from("heavy"), NOW).unwrap();
    let stats = c.get_stats(user).unwrap();
    assert_eq!(stats.total_weight, u64::MAX);

    // A further submission would push the cumulative weight past the
    // 64-bit range: the whole call fails and nothing changes.
    let r = c.submit_material(user, WasteType::Paper, 1, user, String::from("straw"), NOW);
    assert_eq!(r, Err(Error::OverflowError));

    let stats = c.get_stats(user).unwrap();
    assert_eq!(stats.total_submissions, 1);
    assert_eq!(stats.total_weight, u64::MAX);
    assert!(!c.waste_exists(2));
    assert_eq!(c.get_waste_count(), 1);

    // The same batch-wide: the whole batch fails, including items that
    // alone would fit.
    let items = vec![
        (WasteType::Paper, 0u64, String::from("fine")),
        (WasteType::Paper, 1u64, String::from("too much")),
    ];
    let r = c.submit_materials_batch(user, items, user, NOW);
    assert_eq!(r, Err(Error::OverflowError));
    assert_eq!(c.get_stats(user).unwrap().total_submissions, 1);
    assert_eq!(c.get_waste_count(), 1);
}

#[test]
fn verification_rate_examples() {
    let empty = RecyclingStats::new(1);
    assert_eq!(empty.verification_rate(), 0);

    let mut c = ScavengerContract::new();
    let submitter: u64 = 1;
    let recycler: u64 = 2;

    register(&mut c, submitter, ParticipantRole::Collector);
    register(&mut c, recycler, ParticipantRole::Recycler);

    let desc = String::from("Test");
    c.submit_material(submitter, WasteType::Paper, 1000, submitter, desc.clone(), NOW).unwrap();
    c.submit_material(submitter, WasteType::Paper, 1000, submitter, desc, NOW).unwrap();
    c.verify_material(recycler, 1, recycler).unwrap();

    // 1 of 2 verified: floor(1 * 100 / 2) = 50
    assert_eq!(c.get_stats(submitter).unwrap().verification_rate(), 50);
}

#[test]
fn waste_type_names_and_multipliers() {
    let types = [
        (WasteType::Paper, 1, "Paper"),
        (WasteType::PetPlastic, 3, "PET Plastic"),
        (WasteType::Plastic, 2, "Plastic"),
        (WasteType::Metal, 5, "Metal"),
        (WasteType::Glass, 1, "Glass"),
    ];
    for (t, mult, name) in types {
        assert_eq!(t.multiplier(), mult);
        assert_eq!(t.as_str(), name);
        assert!(!t.as_str().is_empty());
    }
}

#[test]
fn role_capabilities() {
    assert!(ParticipantRole::Recycler.can_collect_materials());
    assert!(ParticipantRole::Recycler.can_process_recyclables());
    assert!(!ParticipantRole::Recycler.can_manufacture());

    assert!(ParticipantRole::Collector.can_collect_materials());
    assert!(!ParticipantRole::Collector.can_process_recyclables());
    assert!(!ParticipantRole::Collector.can_manufacture());

    assert!(!ParticipantRole::Manufacturer.can_collect_materials());
    assert!(!ParticipantRole::Manufacturer.can_process_recyclables());
    assert!(ParticipantRole::Manufacturer.can_manufacture());
}

// Configuration module

#[test]
fn constructor_sets_defaults_once() {
    let mut c = ScavengerContract::new();
    assert!(!c.is_initialized());

    let admin: u64 = 10;
    let token: u64 = 11;
    c.__constructor(admin, admin, token).unwrap();

    assert!(c.is_initialized());
    assert_eq!(c.get_admin(), Ok(admin));
    assert_eq!(c.get_token_address(), Ok(token));
    assert_eq!(c.get_collector_percentage(), Ok(5));
    assert_eq!(c.get_owner_percentage(), Ok(50));
    assert_eq!(c.get_counter(), 1);
    assert_eq!(c.get_total_earned(), 0);
    assert_eq!(c.get_charity_address(), None);

    // A second initialization is refused
    assert_eq!(c.__constructor(admin, admin, token), Err(Error::AlreadyInitializedError));
}

#[test]
fn constructor_requires_admin_auth() {
    let mut c = ScavengerContract::new();
    assert_eq!(c.__constructor(1, 2, 3), Err(Error::AuthError));
    assert!(!c.is_initialized());
    assert_eq!(c.get_admin(), Err(Error::NotFoundError));
}

#[test]
fn charity_address_is_admin_only() {
    let mut c = ScavengerContract::new();
    let admin: u64 = 10;
    c.__constructor(admin, admin, 11).unwrap();

    // Someone other than the configured admin is refused
    assert_eq!(c.set_charity_address(12, 12, 77), Err(Error::ForbiddenError));
    // The admin named but not authenticated is refused
    assert_eq!(c.set_charity_address(12, admin, 77), Err(Error::AuthError));

    c.set_charity_address(admin, admin, 77).unwrap();
    assert_eq!(c.get_charity_address(), Some(77));
}

#[test]
fn percentages_may_not_sum_over_100() {
    let mut c = ScavengerContract::new();
    let admin: u64 = 10;
    c.__constructor(admin, admin, 11).unwrap();

    // Owner share is 50, so a collector share of 51 is refused
    assert_eq!(
        c.update_collector_percentage(admin, admin, 51),
        Err(Error::InvalidPercentageError)
    );
    c.update_collector_percentage(admin, admin, 50).unwrap();
    assert_eq!(c.get_collector_percentage(), Ok(50));

    // Collector share is now 50, so an owner share of 51 is refused
    assert_eq!(c.update_owner_percentage(admin, admin, 51), Err(Error::InvalidPercentageError));
    c.update_owner_percentage(admin, admin, 25).unwrap();
    assert_eq!(c.get_owner_percentage(), Ok(25));

    // And with a smaller owner share the collector share may grow
    c.update_collector_percentage(admin, admin, 75).unwrap();
    assert_eq!(c.get_collector_percentage(), Ok(75));
}

#[test]
fn storage_accessors_round_trip() {
    let mut s = Storage::new();
    assert!(!s.is_initialized());
    assert_eq!(s.get_admin(), None);
    assert_eq!(s.get_token_address(), None);
    assert_eq!(s.get_charity_address(), None);
    assert_eq!(s.get_collector_percentage(), None);
    assert_eq!(s.get_owner_percentage(), None);
    assert_eq!(s.get_total_earned(), 0);
    assert_eq!(s.get_counter(), 0);

    s.set_admin(1);
    s.set_token_address(2);
    s.set_charity_address(3);
    s.set_collector_percentage(4);
    s.set_owner_percentage(5);
    s.set_total_earned(-6);
    s.set_counter(7);
    s.set_initialized();

    assert!(s.is_initialized());
    assert_eq!(s.get_admin(), Some(1));
    assert_eq!(s.get_token_address(), Some(2));
    assert_eq!(s.get_charity_address(), Some(3));
    assert_eq!(s.get_collector_percentage(), Some(4));
    assert_eq!(s.get_owner_percentage(), Some(5));
    assert_eq!(s.get_total_earned(), -6);
    assert_eq!(s.get_counter(), 7);
}
