use seeder::{
    AccessLevel, AccessLevelValues, Geometry, Organization, OrganizationValues, SeedError, Session,
    SimCard, Table, User, UserValues, Vehicle, VehicleTracker, VehicleTrackerLastLocation,
    VehicleTrackerLocation,
};

#[test]
fn seeded_organization_is_unblocked_and_verified() {
    let values = OrganizationValues::new(String::from("Acme"), String::from("billing@acme.test"));
    assert_eq!(values.name, "Acme");
    assert_eq!(values.billing_email, "billing@acme.test");
    assert!(!values.blocked);
    assert!(values.billing_email_verified);
}

#[test]
fn seeded_access_level_grants_the_update_of_its_organization() {
    let values = AccessLevelValues::new(String::from("admin"), String::from("all of it"), true);
    assert_eq!(values.name, "admin");
    assert_eq!(values.description, "all of it");
    assert!(values.is_fixed);
    assert_eq!(values.permissions, vec![String::from("UPDATE_ORGANIZATION")]);
    assert!(!AccessLevelValues::new(String::from("a"), String::from("b"), false).is_fixed);
}

#[test]
fn user_values_are_kept_as_given() {
    let values = UserValues::new(
        String::from("ann"),
        String::from("ann@example.com"),
        false,
        String::from("$2b$04$hash"),
        Some(String::from("lorem")),
    );
    assert_eq!(values.username, "ann");
    assert_eq!(values.email, "ann@example.com");
    assert!(!values.email_verified);
    assert_eq!(values.password, "$2b$04$hash");
    assert_eq!(values.description.as_deref(), Some("lorem"));
}

#[test]
fn clones_of_values_are_equal() {
    let o = OrganizationValues::new(String::from("Acme"), String::from("billing@acme.test"));
    assert_eq!(o.clone(), o);
    let l = AccessLevelValues::new(String::from("admin"), String::from("all of it"), true);
    assert_eq!(l.clone(), l);
    let u = UserValues::new(String::from("a"), String::from("b"), true, String::from("c"), None);
    assert_eq!(u.clone(), u);
}

#[test]
fn new_organization_row_has_no_owner() {
    let values = OrganizationValues::new(String::from("Acme"), String::from("billing@acme.test"));
    let row = Organization::created(values, 7, 1_700_000_000_000_000);
    assert_eq!(
        row,
        Organization {
            id: 7,
            created_at: 1_700_000_000_000_000,
            name: String::from("Acme"),
            blocked: false,
            billing_email: String::from("billing@acme.test"),
            billing_email_verified: true,
            confirm_billing_email_token: None,
            owner_id: None,
        }
    );
}

#[test]
fn owned_organization_row_names_its_owner_and_keeps_the_rest() {
    let values = OrganizationValues::new(String::from("Acme"), String::from("billing@acme.test"));
    let row = Organization::created(values, 7, 11).owned_by(42);
    assert_eq!(row.owner_id, Some(42));
    assert_eq!(row.id, 7);
    assert_eq!(row.created_at, 11);
    assert_eq!(row.name, "Acme");
    assert_eq!(row.confirm_billing_email_token, None);
}

#[test]
fn new_access_level_row_holds_each_permission() {
    let values = AccessLevelValues::new(String::from("admin"), String::from("all of it"), true);
    let row = AccessLevel::created(values, Some(7), 3, -5);
    assert_eq!(
        row,
        AccessLevel {
            id: 3,
            created_at: -5,
            name: String::from("admin"),
            description: String::from("all of it"),
            is_fixed: true,
            permissions: vec![Some(String::from("UPDATE_ORGANIZATION"))],
            organization_id: Some(7),
        }
    );
}

#[test]
fn new_access_level_row_keeps_the_order_of_permissions() {
    let mut values = AccessLevelValues::new(String::from("a"), String::from("b"), false);
    values.permissions.push(String::from("CREATE_USER"));
    let row = AccessLevel::created(values, None, 1, 0);
    assert_eq!(
        row.permissions,
        vec![Some(String::from("UPDATE_ORGANIZATION")), Some(String::from("CREATE_USER"))]
    );
    assert_eq!(row.organization_id, None);
}

#[test]
fn new_user_row_has_no_token_and_no_picture() {
    let values = UserValues::new(
        String::from("ann"),
        String::from("ann@example.com"),
        true,
        String::from("$2b$04$hash"),
        Some(String::from("lorem")),
    );
    let row = User::created(values, Some(7), 3, 9, 12);
    assert_eq!(
        row,
        User {
            id: 9,
            created_at: 12,
            username: String::from("ann"),
            email: String::from("ann@example.com"),
            email_verified: true,
            password: String::from("$2b$04$hash"),
            reset_password_token: None,
            confirm_email_token: None,
            profile_picture: None,
            description: Some(String::from("lorem")),
            organization_id: Some(7),
            access_level_id: 3,
        }
    );
}

#[test]
fn tables_are_named_as_in_the_database() {
    assert_eq!(Table::AccessLevel.name(), "access_level");
    assert_eq!(Table::Organization.name(), "organization");
    assert_eq!(Table::Session.name(), "session");
    assert_eq!(Table::SimCard.name(), "sim_card");
    assert_eq!(Table::User.name(), "user");
    assert_eq!(Table::Vehicle.name(), "vehicle");
    assert_eq!(Table::VehicleTracker.name(), "vehicle_tracker");
    assert_eq!(Table::VehicleTrackerLastLocation.name(), "vehicle_tracker_last_location");
    assert_eq!(Table::VehicleTrackerLocation.name(), "vehicle_tracker_location");
}

#[test]
fn each_error_names_what_failed() {
    assert_eq!(SeedError::HashFailed.message(), "hashing a password failed");
    assert_eq!(
        SeedError::HashIsPlaintext.message(),
        "hashing a password gave the password back"
    );
    assert_eq!(
        SeedError::InsertFailed(Table::AccessLevel).message(),
        "insert failed on table access_level"
    );
    assert_eq!(
        SeedError::UpdateFailed(Table::Organization).message(),
        "update failed on table organization"
    );
    assert_eq!(SeedError::UnexpectedEvent.message(), "the event answers no pending operation");
}

#[test]
fn rows_outside_the_seeding_are_representable() {
    let sim = SimCard {
        id: 1,
        created_at: 0,
        phone_number: String::from("+5511999999999"),
        ssn: String::from("8955"),
        apn_address: String::from("apn.test"),
        apn_user: String::from("user"),
        apn_password: String::from("pass"),
        pin: None,
        pin2: None,
        puk: None,
        puk2: None,
        organization_id: 1,
        tracker_id: Some(2),
    };
    let vehicle = Vehicle {
        id: 3,
        created_at: 0,
        plate: String::from("ABC1D23"),
        photo: None,
        model_year: Some(2020),
        fabrication_year: Some(2019),
        chassis_number: None,
        brand: None,
        model: None,
        color: None,
        additional_info: None,
        organization_id: 1,
    };
    let tracker = VehicleTracker {
        id: 2,
        created_at: 0,
        model: String::from("H02"),
        imei: String::from("357207059646786"),
        organization_id: 1,
        vehicle_id: Some(vehicle.id),
    };
    let last = VehicleTrackerLastLocation { tracker_id: tracker.id, time: 5, point: Geometry };
    let location = VehicleTrackerLocation { time: 5, tracker_id: tracker.id, point: Geometry };
    let session = Session {
        public_id: 1,
        session_token: vec![1, 2, 3],
        created_at: 0,
        expires_at: 10,
        user_agent: String::from("curl"),
        ip: "10.0.0.0/8".parse::<ipnetwork::IpNetwork>().unwrap(),
        user_id: 4,
    };
    assert_eq!(sim.tracker_id, Some(tracker.id));
    assert_eq!(last.tracker_id, location.tracker_id);
    assert_eq!(last.point, location.point);
    assert_eq!(session.ip.prefix(), 8);
}
