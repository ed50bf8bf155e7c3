use seeder::{
    create_canonical_accounts, create_default_test_master_user, create_default_test_user,
    fake_access_level, fake_master_user, fake_organization, fake_root_user_with_user_org,
    fake_user, run_seed, seed_db, test_master_user, test_user, AccessLevelValues, Account,
    Action, Event, Seeder, DEFAULT_GROUPS,
};

struct Db {
    organizations: Vec<(i32, String, Option<i32>)>,
    access_levels: Vec<(i32, Option<i32>)>,
    users: Vec<(i32, String, String, Option<i32>, i32)>,
    operations: usize,
}

impl Db {
    fn new() -> Db {
        Db {
            organizations: Vec::new(),
            access_levels: Vec::new(),
            users: Vec::new(),
            operations: 0,
        }
    }

    fn perform(&mut self, action: Action) -> Event {
        self.operations += 1;
        match action {
            Action::InsertOrganization { values } => {
                let id = self.organizations.len() as i32 + 1;
                self.organizations.push((id, values.name, None));
                Event::Inserted { id, created_at: 0 }
            }
            Action::InsertAccessLevel { organization_id, .. } => {
                let id = self.access_levels.len() as i32 + 1;
                self.access_levels.push((id, organization_id));
                Event::Inserted { id, created_at: 0 }
            }
            Action::InsertUser { values, organization_id, access_level_id } => {
                let id = self.users.len() as i32 + 1;
                self.users.push((
                    id,
                    values.username,
                    values.email,
                    organization_id,
                    access_level_id,
                ));
                Event::Inserted { id, created_at: 0 }
            }
            Action::SetOrganizationOwner { organization_id, owner_id } => {
                for row in self.organizations.iter_mut() {
                    if row.0 == organization_id {
                        row.2 = Some(owner_id);
                    }
                }
                Event::Updated
            }
        }
    }

    fn run(&mut self, seeder: &mut Seeder) {
        let mut next = seeder.action();
        while let Some(action) = next {
            let event = self.perform(action);
            next = seeder.step(event).unwrap();
        }
    }
}

fn word_count(text: &str) -> usize {
    text.split(' ').count()
}

fn is_hash(text: &str) -> bool {
    text.chars().count() == 60 && text.starts_with("$2b$04$")
}

fn check_level(level: &AccessLevelValues) {
    assert!(level.is_fixed);
    assert_eq!(level.permissions, vec![String::from("UPDATE_ORGANIZATION")]);
    assert_eq!(level.name, "admin");
    assert_eq!(level.description, "may update the organization");
}

fn check_master(account: &Account) {
    assert_eq!(account.organization, None);
    check_level(&account.access_level);
    assert_eq!(account.user.username, "test_master_user");
    assert_eq!(account.user.email, "rastercar.tests.001@gmail.com");
    assert!(account.user.email_verified);
    assert_eq!(account.user.description, None);
    assert!(is_hash(&account.user.password));
    assert!(bcrypt::verify("testmasteruser", &account.user.password).unwrap());
}

fn check_test_user(account: &Account) {
    let organization = account.organization.as_ref().unwrap();
    assert!(!organization.owned);
    assert_eq!(organization.values.name, "test user org");
    assert_eq!(organization.values.billing_email, "testuser@gmail.com");
    assert!(!organization.values.blocked);
    assert!(organization.values.billing_email_verified);
    check_level(&account.access_level);
    assert_eq!(account.user.username, "test_user");
    assert_eq!(account.user.email, "rastercar.tests.002@gmail.com");
    assert!(account.user.email_verified);
    assert_eq!(account.user.description.as_deref(), Some("test user"));
    assert!(is_hash(&account.user.password));
    assert!(bcrypt::verify("testuser", &account.user.password).unwrap());
}

fn check_description(text: &str) {
    assert!((1..3).contains(&word_count(text)));
    assert!(text.split(' ').all(|w| !w.is_empty()));
}

fn check_random_user(account: &Account) {
    check_level(&account.access_level);
    assert!(is_hash(&account.user.password));
    assert!(account.user.email.contains("@example."));
    assert!(!account.user.username.is_empty());
    check_description(account.user.description.as_ref().unwrap());
}

fn check_owner_group(account: &Account) {
    let organization = account.organization.as_ref().unwrap();
    assert!(organization.owned);
    assert!(!organization.values.blocked);
    assert!(organization.values.billing_email_verified);
    assert!(!organization.values.name.is_empty());
    assert!(organization.values.billing_email.contains("@example."));
    check_random_user(account);
}

#[test]
fn fake_organization_is_unblocked_and_verified() {
    for _ in 0..20 {
        let values = fake_organization();
        assert!(!values.blocked);
        assert!(values.billing_email_verified);
        assert!(!values.name.is_empty());
        assert!(values.billing_email.contains("@example."));
    }
}

#[test]
fn fixed_access_level_is_the_same_in_every_call() {
    let first = fake_access_level(true);
    check_level(&first);
    for _ in 0..20 {
        assert_eq!(fake_access_level(true), first);
    }
}

#[test]
fn access_level_that_is_not_fixed_is_drawn() {
    for _ in 0..20 {
        let drawn = fake_access_level(false);
        assert!(!drawn.is_fixed);
        assert_eq!(drawn.permissions, vec![String::from("UPDATE_ORGANIZATION")]);
        assert!(!drawn.name.is_empty());
        assert!(!drawn.name.contains(' '));
        assert!((2..7).contains(&word_count(&drawn.description)));
        assert!(drawn.description.split(' ').all(|w| !w.is_empty()));
    }
}

#[test]
fn fake_user_stores_a_hash() {
    for _ in 0..5 {
        let values = fake_user().unwrap();
        assert!(is_hash(&values.password));
        assert!(!values.username.is_empty());
        assert!(!values.email.is_empty());
        check_description(values.description.as_ref().unwrap());
    }
}

#[test]
fn fake_users_differ() {
    let drawn: Vec<String> = (0..8).map(|_| fake_user().unwrap().password).collect();
    for i in 0..drawn.len() {
        for j in 0..i {
            assert_ne!(drawn[i], drawn[j]);
        }
    }
}

#[test]
fn fake_root_user_owns_a_fresh_organization() {
    for _ in 0..5 {
        check_owner_group(&fake_root_user_with_user_org().unwrap());
    }
}

#[test]
fn fake_master_user_is_outside_every_organization() {
    for _ in 0..5 {
        let account = fake_master_user().unwrap();
        assert_eq!(account.organization, None);
        check_random_user(&account);
    }
}

#[test]
fn default_test_master_user_is_well_known() {
    check_master(&create_default_test_master_user().unwrap());
}

#[test]
fn default_test_user_is_well_known() {
    check_test_user(&create_default_test_user().unwrap());
}

#[test]
fn well_known_accounts_are_the_same_in_every_run() {
    let first = create_default_test_user().unwrap();
    let second = create_default_test_user().unwrap();
    assert_eq!(first.organization, second.organization);
    assert_eq!(first.access_level, second.access_level);
    assert_eq!(first.user.username, second.user.username);
    assert_eq!(first.user.email, second.user.email);
    assert_eq!(first.user.email_verified, second.user.email_verified);
    assert_eq!(first.user.description, second.user.description);
    assert_ne!(first.user.password, second.user.password);
    assert!(bcrypt::verify("testuser", &first.user.password).unwrap());
    assert!(bcrypt::verify("testuser", &second.user.password).unwrap());
    let first = create_default_test_master_user().unwrap();
    let second = create_default_test_master_user().unwrap();
    assert_eq!(first.organization, second.organization);
    assert_eq!(first.access_level, second.access_level);
    assert_eq!(first.user.username, second.user.username);
    assert_eq!(first.user.email, second.user.email);
    assert_eq!(first.user.email_verified, second.user.email_verified);
    assert_eq!(first.user.description, second.user.description);
}

#[test]
fn test_master_user_takes_the_level_and_the_hash() {
    let level = AccessLevelValues::new(String::from("root"), String::from("all of it"), true);
    let account = test_master_user(level.clone(), String::from("$2b$04$hash"));
    assert_eq!(account.organization, None);
    assert_eq!(account.access_level, level);
    assert_eq!(account.user.username, "test_master_user");
    assert_eq!(account.user.email, "rastercar.tests.001@gmail.com");
    assert!(account.user.email_verified);
    assert_eq!(account.user.password, "$2b$04$hash");
    assert_eq!(account.user.description, None);
}

#[test]
fn test_user_takes_the_level_and_the_hash() {
    let level = AccessLevelValues::new(String::from("admin"), String::from("all of it"), true);
    let account = test_user(level.clone(), String::from("$2b$04$hash"));
    let organization = account.organization.as_ref().unwrap();
    assert!(!organization.owned);
    assert_eq!(organization.values.name, "test user org");
    assert_eq!(organization.values.billing_email, "testuser@gmail.com");
    assert!(!organization.values.blocked);
    assert!(organization.values.billing_email_verified);
    assert_eq!(account.access_level, level);
    assert_eq!(account.user.username, "test_user");
    assert_eq!(account.user.email, "rastercar.tests.002@gmail.com");
    assert!(account.user.email_verified);
    assert_eq!(account.user.password, "$2b$04$hash");
    assert_eq!(account.user.description.as_deref(), Some("test user"));
}

#[test]
fn canonical_accounts_are_the_operator_then_the_customer() {
    let plan = create_canonical_accounts().unwrap();
    assert_eq!(plan.len(), 2);
    check_master(&plan[0]);
    check_test_user(&plan[1]);
}

#[test]
fn run_seed_plans_the_well_known_accounts_first() {
    for (regular, privileged) in [(0usize, 0usize), (1, 0), (0, 1), (3, 2)] {
        let seeder = run_seed(regular, privileged).unwrap();
        assert_eq!(seeder.plan.len(), 2 + regular + privileged);
        assert!(seeder.done.is_empty());
        assert_eq!(seeder.failure, None);
        check_master(&seeder.plan[0]);
        check_test_user(&seeder.plan[1]);
        for account in &seeder.plan[2..2 + regular] {
            check_owner_group(account);
        }
        for account in &seeder.plan[2 + regular..] {
            assert_eq!(account.organization, None);
            check_random_user(account);
        }
    }
}

#[test]
fn run_seed_of_one_organization_on_an_empty_schema() {
    let mut seeder = run_seed(1, 0).unwrap();
    let mut db = Db::new();
    db.run(&mut seeder);
    assert!(seeder.finished());
    assert_eq!(db.organizations.len(), 2);
    assert_eq!(db.users.len(), 3);
    assert_eq!(db.access_levels.len(), 3);
    assert_eq!(seeder.organizations().len(), 2);
    assert_eq!(seeder.users().len(), 3);
    assert_eq!(seeder.access_levels().len(), 3);
    // the well-known accounts have the lowest identifiers
    assert_eq!(db.users[0].0, 1);
    assert_eq!(db.users[0].1, "test_master_user");
    assert_eq!(db.users[0].3, None);
    assert_eq!(db.access_levels[0], (1, None));
    assert_eq!(db.users[1].0, 2);
    assert_eq!(db.users[1].1, "test_user");
    assert_eq!(db.users[1].2, "rastercar.tests.002@gmail.com");
    assert_eq!(db.users[1].3, Some(1));
    assert_eq!(db.users[1].4, 2);
    assert_eq!(db.organizations[0], (1, String::from("test user org"), None));
    assert_eq!(db.access_levels[1], (2, Some(1)));
    // the randomized organization and its owner
    assert_eq!(db.organizations[1].0, 2);
    assert_eq!(db.organizations[1].2, Some(3));
    assert_eq!(db.users[2].3, Some(2));
    assert_eq!(db.users[2].4, 3);
    assert_eq!(db.access_levels[2], (3, Some(2)));
}

#[test]
fn run_seed_links_each_randomized_organization_to_its_owner() {
    let mut seeder = run_seed(4, 3).unwrap();
    let mut db = Db::new();
    db.run(&mut seeder);
    assert_eq!(seeder.organizations().len(), 1 + 4);
    assert_eq!(seeder.users().len(), 2 + 4 + 3);
    assert_eq!(seeder.access_levels().len(), 2 + 4 + 3);
    for i in 2..6 {
        let rows = &seeder.done[i];
        let organization = rows.organization.as_ref().unwrap();
        assert_eq!(organization.owner_id, Some(rows.user.id));
        assert_eq!(rows.user.organization_id, Some(organization.id));
        assert_eq!(rows.access_level.organization_id, Some(organization.id));
    }
    for i in 6..9 {
        let rows = &seeder.done[i];
        assert_eq!(rows.organization, None);
        assert_eq!(rows.user.organization_id, None);
        assert_eq!(rows.access_level.organization_id, None);
    }
    for user in &db.users {
        let level = db.access_levels.iter().find(|l| l.0 == user.4).unwrap();
        assert_eq!(level.1, user.3);
    }
}

#[test]
fn run_seed_takes_four_operations_for_each_randomized_organization() {
    for (regular, privileged, operations) in [(0usize, 0usize, 5usize), (1, 0, 9), (2, 3, 19)] {
        let mut seeder = run_seed(regular, privileged).unwrap();
        let mut db = Db::new();
        db.run(&mut seeder);
        assert!(seeder.finished());
        assert_eq!(db.operations, operations);
    }
}

#[test]
fn no_password_of_a_run_reaches_the_database() {
    let mut seeder = run_seed(2, 1).unwrap();
    let mut next = seeder.action();
    let mut id = 0;
    while let Some(action) = next {
        if let Action::InsertUser { values, .. } = &action {
            assert!(is_hash(&values.password));
            assert_ne!(values.password, "testuser");
            assert_ne!(values.password, "testmasteruser");
        }
        id += 1;
        let event = match action {
            Action::SetOrganizationOwner { .. } => Event::Updated,
            _ => Event::Inserted { id, created_at: 0 },
        };
        next = seeder.step(event).unwrap();
    }
    for user in seeder.users() {
        assert!(is_hash(&user.password));
    }
}

#[test]
fn well_known_rows_are_the_same_on_two_empty_databases() {
    let mut rows = Vec::new();
    for _ in 0..2 {
        let mut seeder = run_seed(1, 0).unwrap();
        let mut db = Db::new();
        db.run(&mut seeder);
        rows.push(seeder);
    }
    for i in 0..2 {
        let (first, second) = (&rows[0].done[i], &rows[1].done[i]);
        assert_eq!(first.organization, second.organization);
        assert_eq!(first.access_level, second.access_level);
        assert_eq!(first.user.username, second.user.username);
        assert_eq!(first.user.email, second.user.email);
        assert_eq!(first.user.description, second.user.description);
        assert_eq!(first.user.id, second.user.id);
        assert_ne!(first.user.password, second.user.password);
    }
    assert_eq!(rows[0].done[0].access_level.name, "admin");
    assert_eq!(rows[0].done[1].access_level.description, "may update the organization");
    assert_eq!(rows[0].done[1].user.description.as_deref(), Some("test user"));
    assert_eq!(rows[0].done[0].user.description, None);
}

#[test]
fn seeding_twice_adds_to_what_is_there() {
    let mut db = Db::new();
    let mut first = run_seed(2, 1).unwrap();
    db.run(&mut first);
    let before = (db.organizations.clone(), db.access_levels.clone(), db.users.clone());
    let mut second = run_seed(2, 1).unwrap();
    db.run(&mut second);
    assert!(second.finished());
    assert_eq!(db.organizations.len(), 2 * before.0.len());
    assert_eq!(db.access_levels.len(), 2 * before.1.len());
    assert_eq!(db.users.len(), 2 * before.2.len());
    assert_eq!(&db.organizations[..before.0.len()], &before.0[..]);
    assert_eq!(&db.access_levels[..before.1.len()], &before.1[..]);
    assert_eq!(&db.users[..before.2.len()], &before.2[..]);
    let well_known = db.users.iter().filter(|u| u.1 == "test_user").count();
    assert_eq!(well_known, 2);
}

#[test]
fn seed_db_plans_the_default_number_of_organizations() {
    assert_eq!(DEFAULT_GROUPS, 19);
    let seeder = seed_db().unwrap();
    assert_eq!(seeder.plan.len(), 21);
    check_master(&seeder.plan[0]);
    check_test_user(&seeder.plan[1]);
    for account in &seeder.plan[2..] {
        check_owner_group(account);
    }
}
