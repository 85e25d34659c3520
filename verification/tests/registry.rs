use scavenger::{Error, ParticipantRole, ScavengerContract};

fn create_test_contract() -> (ScavengerContract, u64, u64) {
    let mut contract = ScavengerContract::new();
    let admin: u64 = 900;
    let token_address: u64 = 901;
    contract.__constructor(admin, admin, token_address).unwrap();
    (contract, admin, token_address)
}

#[test]
fn test_register_participant_recycler() {
    let (mut client, _admin, _token_address) = create_test_contract();

    let participant: u64 = 1;
    let name = String::from("John Recycler");

    client
        .register_participant(participant, participant, ParticipantRole::Recycler, name.clone(), 100, 200, 7)
        .unwrap();

    // Verify registration
    assert!(client.is_registered(participant));

    let stored = client.get_participant(participant).unwrap();
    assert_eq!(stored.address, participant);
    assert_eq!(stored.role, ParticipantRole::Recycler);
    assert_eq!(stored.name, name);
    assert_eq!(stored.latitude, 100);
    assert_eq!(stored.longitude, 200);
}

#[test]
fn test_register_participant_collector() {
    let (mut client, _admin, _token_address) = create_test_contract();

    let participant: u64 = 2;
    let name = String::from("Jane Collector");

    client
        .register_participant(participant, participant, ParticipantRole::Collector, name, -50, 75, 7)
        .unwrap();

    // Verify registration
    assert!(client.is_registered(participant));

    let stored = client.get_participant(participant).unwrap();
    assert_eq!(stored.role, ParticipantRole::Collector);
    assert_eq!(stored.latitude, -50);
    assert_eq!(stored.longitude, 75);
}

#[test]
fn test_register_participant_manufacturer() {
    let (mut client, _admin, _token_address) = create_test_contract();

    let participant: u64 = 3;
    let name = String::from("Bob Manufacturer");

    client
        .register_participant(participant, participant, ParticipantRole::Manufacturer, name, 0, 0, 7)
        .unwrap();

    // Verify registration
    assert!(client.is_registered(participant));

    let stored = client.get_participant(participant).unwrap();
    assert_eq!(stored.role, ParticipantRole::Manufacturer);
}

#[test]
fn test_all_roles_work() {
    let (mut client, _admin, _token_address) = create_test_contract();

    // Register recycler
    let recycler: u64 = 10;
    client
        .register_participant(recycler, recycler, ParticipantRole::Recycler, String::from("Recycler"), 10, 20, 7)
        .unwrap();

    // Register collector
    let collector: u64 = 11;
    client
        .register_participant(collector, collector, ParticipantRole::Collector, String::from("Collector"), 30, 40, 7)
        .unwrap();

    // Register manufacturer
    let manufacturer: u64 = 12;
    client
        .register_participant(
            manufacturer,
            manufacturer,
            ParticipantRole::Manufacturer,
            String::from("Manufacturer"),
            50,
            60,
            7,
        )
        .unwrap();

    // Verify all registered
    assert!(client.is_registered(recycler));
    assert!(client.is_registered(collector));
    assert!(client.is_registered(manufacturer));

    // Verify roles
    assert_eq!(client.get_participant(recycler).unwrap().role, ParticipantRole::Recycler);
    assert_eq!(client.get_participant(collector).unwrap().role, ParticipantRole::Collector);
    assert_eq!(client.get_participant(manufacturer).unwrap().role, ParticipantRole::Manufacturer);
}

#[test]
fn test_participant_not_registered() {
    let (client, _admin, _token_address) = create_test_contract();

    let participant: u64 = 42;

    // Should not be registered
    assert!(!client.is_registered(participant));
    assert_eq!(client.get_participant(participant), None);
}

#[test]
fn test_multiple_participants() {
    let (mut client, _admin, _token_address) = create_test_contract();

    // Register multiple participants
    for i in 0..5u64 {
        let participant: u64 = 100 + i;
        let name = String::from("Participant");
        let role = if i % 3 == 0 {
            ParticipantRole::Recycler
        } else if i % 3 == 1 {
            ParticipantRole::Collector
        } else {
            ParticipantRole::Manufacturer
        };

        client
            .register_participant(participant, participant, role, name, i as i128, i as i128 * 10, 7)
            .unwrap();

        assert!(client.is_registered(participant));
    }
}

#[test]
fn test_participant_timestamp() {
    let (mut client, _admin, _token_address) = create_test_contract();

    let participant: u64 = 5;
    let name = String::from("Timestamp Test");

    client
        .register_participant(participant, participant, ParticipantRole::Recycler, name, 100, 200, 1234567890)
        .unwrap();

    let stored = client.get_participant(participant).unwrap();
    assert_eq!(stored.registered_at, 1234567890);
}

#[test]
fn test_negative_coordinates() {
    let (mut client, _admin, _token_address) = create_test_contract();

    let participant: u64 = 6;
    let name = String::from("Negative Coords");

    // Test with negative coordinates
    client
        .register_participant(participant, participant, ParticipantRole::Recycler, name, -90, -180, 7)
        .unwrap();

    let stored = client.get_participant(participant).unwrap();
    assert_eq!(stored.latitude, -90);
    assert_eq!(stored.longitude, -180);
}

#[test]
fn test_registration_requires_auth() {
    let (mut client, _admin, _token_address) = create_test_contract();

    let participant: u64 = 7;
    let name = String::from("Auth Test");

    // This works when the caller authenticated as the participant
    client
        .register_participant(participant, participant, ParticipantRole::Recycler, name.clone(), 100, 200, 7)
        .unwrap();

    assert!(client.is_registered(participant));

    // A caller authenticated as someone else is refused
    let other: u64 = 8;
    let refused = client.register_participant(other, participant, ParticipantRole::Recycler, name, 100, 200, 7);
    assert_eq!(refused, Err(Error::AuthError));
}
