use asset_telemetry::error::CustomError;
use asset_telemetry::metrics::domain::Domain;
use asset_telemetry::response::Reply;
use asset_telemetry::user::login::{
    find_in_table, login, login_at, next_probe, verify_user, verify_user_at, Directory,
    LoginRequest, User,
};
use asset_telemetry::user::provisioning::{
    advance, baseline_owners, created_reply, failure_reply, first_step, Progress, ProvisionStep,
};
use asset_telemetry::user::users::{
    assign_id, copy_text, createstaff, createsub, createsuper, createtechnician, verify_password,
    Account, Staff, SubAdmin, SuperAdmin, Technician, UserRole,
};

const SECRET: &[u8] = b"secret";

fn sub_admin_request(email: &str, password: &str) -> SubAdmin {
    SubAdmin {
        id: None,
        metrics_id: None,
        company_name: Some("Co".to_string()),
        email: email.to_string(),
        phone: "555-0100".to_string(),
        password: password.to_string(),
        created_at: None,
        updated_at: None,
    }
}

fn staff_request(email: &str, password: &str) -> Staff {
    Staff {
        id: Some(7),
        metrics_id: Some(70),
        name: "Sam".to_string(),
        email: email.to_string(),
        password: password.to_string(),
        created_at: None,
        updated_at: None,
        company_affiliated_to: Some("Co".to_string()),
    }
}

fn super_admin_request(email: &str, password: &str) -> SuperAdmin {
    SuperAdmin {
        id: Some(1),
        name: "Root".to_string(),
        email: email.to_string(),
        password: password.to_string(),
        created_at: None,
        updated_at: None,
    }
}

fn technician_request(email: &str, password: &str) -> Technician {
    Technician {
        id: None,
        name: "Tess".to_string(),
        email: email.to_string(),
        password: password.to_string(),
        created_at: None,
        updated_at: None,
    }
}

fn run_to_answer(role: UserRole, fail_at: Option<ProvisionStep>) -> (Vec<ProvisionStep>, Reply) {
    let mut done = Vec::new();
    let mut step = first_step();
    loop {
        let outcome =
            if fail_at == Some(step) { Err("connection reset".to_string()) } else { Ok(()) };
        let succeeded = outcome.is_ok();
        let progress = advance(role, step, outcome);
        if succeeded {
            done.push(step);
        }
        match progress {
            Progress::Next(next) => step = next,
            Progress::Answer(reply) => return (done, reply),
        }
    }
}

#[test]
fn provision_sub_admin_then_login() {
    let account = createsub(sub_admin_request("ops@co.com", "p@ss1")).expect("prepared");
    let (_, reply) = run_to_answer(UserRole::SubAdmin, None);
    assert_eq!(reply.status, 201);

    let mut directory = Directory::new();
    directory.sub_admins.push(account);

    let request = LoginRequest { email: "ops@co.com".to_string(), password: "p@ss1".to_string() };
    let granted = login(&directory, &request, SECRET).expect("logged in");
    assert!(!granted.token.is_empty());

    let wrong = LoginRequest { email: "ops@co.com".to_string(), password: "p@ss2".to_string() };
    let denied = login(&directory, &wrong, SECRET).expect_err("denied");
    assert_eq!(denied.status, 401);
    assert_eq!(denied.body, "Invalid credentials");
}

#[test]
fn createsub_rejects_email_without_at_sign() {
    let rejected = createsub(sub_admin_request("ops.co.com", "p@ss1")).expect_err("rejected");
    assert_eq!(rejected, Reply { status: 400, body: "Invalid email format".to_string() });
}

#[test]
fn createstaff_rejects_email_without_at_sign() {
    let rejected = createstaff(staff_request("", "p@ss1")).expect_err("rejected");
    assert_eq!(rejected, Reply { status: 400, body: "Invalid email format".to_string() });
}

#[test]
fn createsuper_rejects_email_without_at_sign() {
    let rejected = createsuper(super_admin_request("root", "p@ss1")).expect_err("rejected");
    assert_eq!(rejected, Reply { status: 400, body: "Invalid email format".to_string() });
}

#[test]
fn createtechnician_rejects_email_without_at_sign() {
    let rejected = createtechnician(technician_request("tess", "p@ss1")).expect_err("rejected");
    assert_eq!(rejected, Reply { status: 400, body: "Invalid email format".to_string() });
}

#[test]
fn createsub_draws_missing_identifiers() {
    let account = createsub(sub_admin_request("ops@co.com", "p@ss1")).expect("prepared");
    assert!(account.id.expect("assigned") >= 1);
    assert!(account.metrics_id.expect("assigned") >= 1);
    assert_eq!(account.email, "ops@co.com");
    assert_eq!(account.phone, "555-0100");
    assert_eq!(account.company_name.as_deref(), Some("Co"));
    assert!(account.created_at.is_some());
    assert_eq!(account.updated_at, None);
    assert_ne!(account.password, "p@ss1");
    assert!(matches!(verify_password(&account.password, "p@ss1"), Ok(true)));
}

#[test]
fn createstaff_keeps_requested_identifiers() {
    let account = createstaff(staff_request("sam@co.com", "s3cret")).expect("prepared");
    assert_eq!(account.id, Some(7));
    assert_eq!(account.metrics_id, Some(70));
    assert_eq!(account.name, "Sam");
    assert_eq!(account.company_affiliated_to.as_deref(), Some("Co"));
    assert!(account.created_at.is_some());
    assert_eq!(account.updated_at, None);
    assert!(matches!(verify_password(&account.password, "s3cret"), Ok(true)));
}

#[test]
fn createsuper_leaves_identifier_as_requested() {
    let account = createsuper(super_admin_request("root@co.com", "r00t")).expect("prepared");
    assert_eq!(account.id, Some(1));
    assert_eq!(account.name, "Root");
    assert!(account.created_at.is_some());
    assert_eq!(account.updated_at, None);
    assert!(matches!(verify_password(&account.password, "r00t"), Ok(true)));
}

#[test]
fn createtechnician_draws_no_identifier() {
    let account = createtechnician(technician_request("tess@co.com", "t3ch")).expect("prepared");
    assert_eq!(account.id, None);
    assert!(account.created_at.is_some());
    assert!(matches!(verify_password(&account.password, "t3ch"), Ok(true)));
}

#[test]
fn created_at_is_a_recent_time_in_microseconds() {
    let account = createsuper(super_admin_request("root@co.com", "r00t")).expect("prepared");
    // After 2020-01-01 and before 2100-01-01, in microseconds.
    let created = account.created_at.expect("stamped");
    assert!(created > 1_577_836_800_000_000);
    assert!(created < 4_102_444_800_000_000);
}

#[test]
fn enrolled_accounts_are_assembled_field_by_field() {
    let sub = SubAdmin::enrolled(sub_admin_request("ops@co.com", "x"), "HASH".to_string(), 5, 6, 99);
    assert_eq!(sub.id, Some(5));
    assert_eq!(sub.metrics_id, Some(6));
    assert_eq!(sub.password, "HASH");
    assert_eq!(sub.created_at, Some(99));
    assert_eq!(sub.updated_at, None);

    let staff = Staff::enrolled(staff_request("sam@co.com", "x"), "HASH".to_string(), 8, 9, 100);
    assert_eq!((staff.id, staff.metrics_id), (Some(8), Some(9)));
    assert_eq!(staff.password, "HASH");
    assert_eq!(staff.created_at, Some(100));

    let root = SuperAdmin::enrolled(super_admin_request("r@co.com", "x"), "HASH".to_string(), 101);
    assert_eq!(root.id, Some(1));
    assert_eq!(root.created_at, Some(101));

    let tech = Technician::enrolled(technician_request("t@co.com", "x"), "HASH".to_string(), 102);
    assert_eq!(tech.id, None);
    assert_eq!(tech.created_at, Some(102));
}

#[test]
fn assign_id_prefers_the_requested_identifier() {
    assert_eq!(assign_id(Some(42)), 42);
    assert_eq!(assign_id(Some(-3)), -3);
    assert!(assign_id(None) >= 1);
}

#[test]
fn provisioning_an_owner_takes_every_baseline_in_order() {
    let (done, reply) = run_to_answer(UserRole::SubAdmin, None);
    assert_eq!(
        done,
        vec![
            ProvisionStep::PersistAccount,
            ProvisionStep::Baseline(Domain::SystemInfo),
            ProvisionStep::Baseline(Domain::Cpu),
            ProvisionStep::Baseline(Domain::Disk),
            ProvisionStep::Baseline(Domain::Memory),
            ProvisionStep::Baseline(Domain::Network),
            ProvisionStep::Baseline(Domain::Filesystem),
            ProvisionStep::Baseline(Domain::IpLocation),
            ProvisionStep::Baseline(Domain::Process),
            ProvisionStep::Baseline(Domain::ServiceStatus),
            ProvisionStep::Baseline(Domain::Uptime),
        ]
    );
    assert_eq!(reply, Reply { status: 201, body: "Sub admin created successfully".to_string() });

    let (done, reply) = run_to_answer(UserRole::Staff, None);
    assert_eq!(done.len(), 11);
    assert_eq!(reply, Reply { status: 201, body: "Staff created successfully".to_string() });
}

#[test]
fn provisioning_without_telemetry_stops_after_the_account() {
    let (done, reply) = run_to_answer(UserRole::SuperAdmin, None);
    assert_eq!(done, vec![ProvisionStep::PersistAccount]);
    assert_eq!(reply, Reply { status: 201, body: "Super admin created successfully".to_string() });

    let (done, reply) = run_to_answer(UserRole::Technician, None);
    assert_eq!(done, vec![ProvisionStep::PersistAccount]);
    assert_eq!(reply, Reply { status: 201, body: "Technician created successfully".to_string() });
}

#[test]
fn a_failed_baseline_aborts_and_keeps_earlier_writes() {
    let failing = ProvisionStep::Baseline(Domain::Memory);
    let (done, reply) = run_to_answer(UserRole::Staff, Some(failing));
    assert_eq!(
        done,
        vec![
            ProvisionStep::PersistAccount,
            ProvisionStep::Baseline(Domain::SystemInfo),
            ProvisionStep::Baseline(Domain::Cpu),
            ProvisionStep::Baseline(Domain::Disk),
        ]
    );
    assert_eq!(reply.status, 500);
    assert_eq!(reply.body, "Failed to save memory info: connection reset");
}

#[test]
fn a_failed_account_write_aborts_at_once() {
    let (done, reply) = run_to_answer(UserRole::SubAdmin, Some(ProvisionStep::PersistAccount));
    assert!(done.is_empty());
    assert_eq!(reply.status, 500);
    assert_eq!(reply.body, "Failed to create sub admin: connection reset");
}

#[test]
fn failure_replies_name_the_step() {
    let reply = failure_reply(UserRole::SuperAdmin, ProvisionStep::PersistAccount, "x");
    assert_eq!(reply.body, "Failed to create super admin: x");
    let reply = failure_reply(UserRole::Staff, ProvisionStep::PersistAccount, "");
    assert_eq!(reply.body, "Failed to create staff: ");
    let reply = failure_reply(UserRole::Technician, ProvisionStep::PersistAccount, "y");
    assert_eq!(reply.body, "Failed to create technician: y");
    let labels = [
        (Domain::SystemInfo, "system"),
        (Domain::Cpu, "CPU"),
        (Domain::Disk, "disk"),
        (Domain::Memory, "memory"),
        (Domain::Network, "network"),
        (Domain::Filesystem, "filesystem"),
        (Domain::IpLocation, "ip"),
        (Domain::Process, "process"),
        (Domain::ServiceStatus, "services"),
        (Domain::Uptime, "uptime"),
    ];
    for (domain, label) in labels {
        let reply = failure_reply(UserRole::SubAdmin, ProvisionStep::Baseline(domain), "boom");
        assert_eq!(reply.status, 500);
        assert_eq!(reply.body, format!("Failed to save {} info: boom", label));
        assert_eq!(domain.label(), label);
    }
}

#[test]
fn created_replies_name_the_role() {
    assert_eq!(created_reply(UserRole::SubAdmin).status, 201);
    assert_eq!(created_reply(UserRole::SubAdmin).body, "Sub admin created successfully");
    assert_eq!(created_reply(UserRole::Technician).body, "Technician created successfully");
}

#[test]
fn baseline_owners_fill_the_column_of_the_role() {
    assert_eq!(baseline_owners(UserRole::SubAdmin, 5), Some((Some(5), None)));
    assert_eq!(baseline_owners(UserRole::Staff, 5), Some((None, Some(5))));
    assert_eq!(baseline_owners(UserRole::SuperAdmin, 5), None);
    assert_eq!(baseline_owners(UserRole::Technician, 5), None);
}

#[test]
fn resolve_prefers_super_admin_over_staff() {
    let mut directory = Directory::new();
    directory.staff.push(staff_request("dup@co.com", "staff-hash"));
    directory.super_admins.push(super_admin_request("dup@co.com", "super-hash"));

    let user = directory.find_user_by_email("dup@co.com").expect("found");
    assert_eq!(user.role(), UserRole::SuperAdmin);
    assert_eq!(user, User::SuperAdmin(super_admin_request("dup@co.com", "super-hash")));
    assert_eq!(user.password(), "super-hash");
}

#[test]
fn resolve_follows_the_precedence_of_the_tables() {
    let mut directory = Directory::new();
    directory.technicians.push(technician_request("dup@co.com", "tech-hash"));
    assert_eq!(
        directory.find_user_by_email("dup@co.com").expect("found").role(),
        UserRole::Technician
    );
    directory.staff.push(staff_request("dup@co.com", "staff-hash"));
    assert_eq!(directory.find_user_by_email("dup@co.com").expect("found").role(), UserRole::Staff);
    directory.sub_admins.push(sub_admin_request("dup@co.com", "sub-hash"));
    assert_eq!(
        directory.find_user_by_email("dup@co.com").expect("found").role(),
        UserRole::SubAdmin
    );
    directory.super_admins.push(super_admin_request("dup@co.com", "super-hash"));
    assert_eq!(
        directory.find_user_by_email("dup@co.com").expect("found").role(),
        UserRole::SuperAdmin
    );
}

#[test]
fn resolve_takes_the_first_row_of_a_table() {
    let mut directory = Directory::new();
    directory.staff.push(staff_request("other@co.com", "zero"));
    directory.staff.push(staff_request("dup@co.com", "one"));
    directory.staff.push(staff_request("dup@co.com", "two"));
    let user = directory.find_user_by_email("dup@co.com").expect("found");
    assert_eq!(user.password(), "one");
}

#[test]
fn resolve_unknown_email_is_not_found() {
    let mut directory = Directory::new();
    directory.staff.push(staff_request("sam@co.com", "hash"));
    let missing = directory.find_user_by_email("nobody@co.com").expect_err("missing");
    assert!(matches!(&missing, CustomError::OtherError(message) if message == "Not Found"));
    assert_eq!(missing.message(), "Other error: Not Found");
    assert!(Directory::new().find_user_by_email("").is_err());
}

#[test]
fn resolve_compares_whole_emails() {
    let mut directory = Directory::new();
    directory.staff.push(staff_request("sam@co.com", "hash"));
    assert!(directory.find_user_by_email("sam@co.co").is_err());
    assert!(directory.find_user_by_email("Sam@co.com").is_err());
    assert!(directory.find_user_by_email("sam@co.com ").is_err());
}

#[test]
fn login_unknown_email_is_unauthorized() {
    let directory = Directory::new();
    let request = LoginRequest { email: "ops@co.com".to_string(), password: "p@ss1".to_string() };
    let denied = login_at(&directory, &request, SECRET, 1_700_000_000).expect_err("denied");
    assert_eq!(denied.status, 401);
    assert_eq!(denied.body, "Invalid request: OtherError(\"Not Found\")");
}

#[test]
fn login_checks_the_account_that_wins_the_lookup() {
    let staff = createstaff(staff_request("dup@co.com", "staff-pass")).expect("prepared");
    let root = createsuper(super_admin_request("dup@co.com", "root-pass")).expect("prepared");
    let mut directory = Directory::new();
    directory.staff.push(staff);
    directory.super_admins.push(root);

    let as_root =
        LoginRequest { email: "dup@co.com".to_string(), password: "root-pass".to_string() };
    assert!(login_at(&directory, &as_root, SECRET, 1_700_000_000).is_ok());
    let as_staff =
        LoginRequest { email: "dup@co.com".to_string(), password: "staff-pass".to_string() };
    let denied = login_at(&directory, &as_staff, SECRET, 1_700_000_000).expect_err("denied");
    assert_eq!(denied.status, 401);
}

#[test]
fn login_with_unparsable_stored_hash_is_a_fault_of_the_service() {
    let mut directory = Directory::new();
    directory.staff.push(staff_request("sam@co.com", "not-a-hash"));
    let request = LoginRequest { email: "sam@co.com".to_string(), password: "x".to_string() };
    let failed = login_at(&directory, &request, SECRET, 1_700_000_000).expect_err("failed");
    assert_eq!(failed, Reply { status: 500, body: "Failed to verify password".to_string() });
}

#[test]
fn login_with_a_wrong_password_carries_no_token() {
    let account = createsub(sub_admin_request("ops@co.com", "p@ss1")).expect("prepared");
    let mut directory = Directory::new();
    directory.sub_admins.push(account);
    let request = LoginRequest { email: "ops@co.com".to_string(), password: "wrong".to_string() };
    let denied = login_at(&directory, &request, SECRET, 1_700_000_000).expect_err("denied");
    assert_eq!(denied, Reply { status: 401, body: "Invalid credentials".to_string() });
}

#[test]
fn probing_follows_the_order_of_the_lookup_and_stops_at_a_hit() {
    assert_eq!(next_probe(None, false), Some(UserRole::SuperAdmin));
    assert_eq!(next_probe(None, true), Some(UserRole::SuperAdmin));
    assert_eq!(next_probe(Some(UserRole::SuperAdmin), false), Some(UserRole::SubAdmin));
    assert_eq!(next_probe(Some(UserRole::SubAdmin), false), Some(UserRole::Staff));
    assert_eq!(next_probe(Some(UserRole::Staff), false), Some(UserRole::Technician));
    assert_eq!(next_probe(Some(UserRole::Technician), false), None);
    for role in [UserRole::SuperAdmin, UserRole::SubAdmin, UserRole::Staff, UserRole::Technician] {
        assert_eq!(next_probe(Some(role), true), None);
    }
}

#[test]
fn verify_user_issues_a_token_for_the_email() {
    let account = createsub(sub_admin_request("ops@co.com", "p@ss1")).expect("prepared");
    let granted =
        verify_user_at(&account.password, "p@ss1", "ops@co.com", SECRET, 1_700_000_000)
            .expect("granted");
    let claims =
        asset_telemetry::auth::claims::Claims::read(&granted.token, SECRET).expect("readable");
    assert_eq!(claims.sub(), "ops@co.com");
    assert_eq!(claims.exp(), 1_700_000_000 + 86_400);
}

#[test]
fn verify_user_reads_the_clock_for_the_expiry() {
    let account = createsub(sub_admin_request("ops@co.com", "p@ss1")).expect("prepared");
    let before = asset_telemetry::auth::claims::current_time();
    let granted = verify_user(&account.password, "p@ss1", "ops@co.com", SECRET).expect("granted");
    let claims =
        asset_telemetry::auth::claims::Claims::read(&granted.token, SECRET).expect("readable");
    assert!(claims.exp() >= before + 86_400);
    let denied = verify_user(&account.password, "nope", "ops@co.com", SECRET).expect_err("denied");
    assert_eq!(denied.status, 401);
}

#[test]
fn find_in_table_gives_the_first_matching_row() {
    let rows = vec![
        staff_request("a@co.com", "0"),
        staff_request("b@co.com", "1"),
        staff_request("b@co.com", "2"),
    ];
    assert_eq!(find_in_table(&rows, &"b@co.com".to_string()), Some(1));
    assert_eq!(find_in_table(&rows, &"a@co.com".to_string()), Some(0));
    assert_eq!(find_in_table(&rows, &"c@co.com".to_string()), None);
    assert_eq!(find_in_table(&Vec::<Staff>::new(), &"a@co.com".to_string()), None);
}

#[test]
fn accounts_hand_out_email_hash_and_copies() {
    let staff = staff_request("sam@co.com", "hash-s");
    assert_eq!(staff.email_of(), "sam@co.com");
    assert_eq!(staff.password_of(), "hash-s");
    assert_eq!(staff.duplicate(), staff);

    let sub = sub_admin_request("ops@co.com", "hash-o");
    assert_eq!(sub.email_of(), "ops@co.com");
    assert_eq!(sub.password_of(), "hash-o");
    assert_eq!(sub.duplicate(), sub);

    let root = super_admin_request("root@co.com", "hash-r");
    assert_eq!((root.email_of().as_str(), root.password_of().as_str()), ("root@co.com", "hash-r"));
    assert_eq!(root.duplicate(), root);

    let tech = technician_request("tess@co.com", "hash-t");
    assert_eq!((tech.email_of().as_str(), tech.password_of().as_str()), ("tess@co.com", "hash-t"));
    assert_eq!(tech.duplicate(), tech);

    assert_eq!(copy_text(&Some("x".to_string())), Some("x".to_string()));
    assert_eq!(copy_text(&None), None);
}

#[test]
fn reply_keeps_status_and_body() {
    assert_eq!(Reply::new(418, "teapot"), Reply { status: 418, body: "teapot".to_string() });
    assert_eq!(asset_telemetry::response::STATUS_OK, 200);
    assert_eq!(asset_telemetry::response::STATUS_CREATED, 201);
    assert_eq!(asset_telemetry::response::STATUS_BAD_REQUEST, 400);
    assert_eq!(asset_telemetry::response::STATUS_UNAUTHORIZED, 401);
    assert_eq!(asset_telemetry::response::STATUS_INTERNAL_SERVER_ERROR, 500);
}
