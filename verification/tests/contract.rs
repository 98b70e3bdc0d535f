use pifp::errors::{Abort, Error};
use pifp::host::{HostEnv, Notification};
use pifp::lifecycle::PifpProtocol;
use pifp::roles::Role;
use pifp::types::ProjectStatus;

const CONTRACT: u64 = 900;

fn setup() -> (HostEnv, PifpProtocol) {
    (HostEnv::new(), PifpProtocol::new(CONTRACT))
}

fn setup_with_init() -> (HostEnv, PifpProtocol, u64) {
    let (env, mut client) = setup();
    let super_admin: u64 = 1;
    client.init(super_admin).unwrap();
    (env, client, super_admin)
}

fn dummy_proof() -> [u8; 32] {
    [0xab_u8; 32]
}

fn future_deadline(env: &HostEnv) -> u64 {
    env.timestamp + 86_400
}

#[test]
fn test_donation_count_initialized_to_zero() {
    let (mut env, mut client, super_admin) = setup_with_init();
    let creator: u64 = 10;
    let token: u64 = 101;

    client
        .grant_role(&mut env, super_admin, creator, Role::ProjectManager)
        .unwrap();

    let tokens = vec![token];
    let deadline = future_deadline(&env);
    let project = client
        .register_project(&mut env, creator, tokens, 10_000i128, dummy_proof(), deadline)
        .unwrap();

    assert_eq!(project.donation_count, 0);
}

#[test]
fn test_donation_count_increments_for_new_donor() {
    let (mut env, mut client, super_admin) = setup_with_init();
    let creator: u64 = 10;
    let token: u64 = 101;
    let donator: u64 = 20;

    client
        .grant_role(&mut env, super_admin, creator, Role::ProjectManager)
        .unwrap();

    let tokens = vec![token];
    let deadline = future_deadline(&env);
    let project = client
        .register_project(&mut env, creator, tokens, 10_000i128, dummy_proof(), deadline)
        .unwrap();

    env.tokens.mint(token, donator, 1_000i128).unwrap();

    client.deposit(&mut env, project.id, donator, token, 500i128).unwrap();

    let updated_project = client.get_project(project.id).unwrap();
    assert_eq!(updated_project.donation_count, 1);
}

#[test]
fn test_donation_count_stays_same_for_repeated_donor() {
    let (mut env, mut client, super_admin) = setup_with_init();
    let creator: u64 = 10;
    let token: u64 = 101;
    let donator: u64 = 20;

    client
        .grant_role(&mut env, super_admin, creator, Role::ProjectManager)
        .unwrap();

    let tokens = vec![token];
    let deadline = future_deadline(&env);
    let project = client
        .register_project(&mut env, creator, tokens, 10_000i128, dummy_proof(), deadline)
        .unwrap();

    env.tokens.mint(token, donator, 2_000i128).unwrap();

    client.deposit(&mut env, project.id, donator, token, 500i128).unwrap();

    let updated_project = client.get_project(project.id).unwrap();
    assert_eq!(updated_project.donation_count, 1);

    client.deposit(&mut env, project.id, donator, token, 300i128).unwrap();

    let updated_project = client.get_project(project.id).unwrap();
    assert_eq!(updated_project.donation_count, 1);
}

#[test]
fn test_donation_count_increments_for_different_donors() {
    let (mut env, mut client, super_admin) = setup_with_init();
    let creator: u64 = 10;
    let token: u64 = 101;
    let donator1: u64 = 20;
    let donator2: u64 = 21;

    client
        .grant_role(&mut env, super_admin, creator, Role::ProjectManager)
        .unwrap();

    let tokens = vec![token];
    let deadline = future_deadline(&env);
    let project = client
        .register_project(&mut env, creator, tokens, 10_000i128, dummy_proof(), deadline)
        .unwrap();

    env.tokens.mint(token, donator1, 1_000i128).unwrap();
    env.tokens.mint(token, donator2, 1_000i128).unwrap();

    client.deposit(&mut env, project.id, donator1, token, 500i128).unwrap();

    let updated_project = client.get_project(project.id).unwrap();
    assert_eq!(updated_project.donation_count, 1);

    client.deposit(&mut env, project.id, donator2, token, 300i128).unwrap();

    let updated_project = client.get_project(project.id).unwrap();
    assert_eq!(updated_project.donation_count, 2);
}

#[test]
fn test_donation_count_increments_for_same_donor_different_tokens() {
    let (mut env, mut client, super_admin) = setup_with_init();
    let creator: u64 = 10;
    let token1: u64 = 101;
    let token2: u64 = 102;
    let donator: u64 = 20;

    client
        .grant_role(&mut env, super_admin, creator, Role::ProjectManager)
        .unwrap();

    let tokens = vec![token1, token2];
    let deadline = future_deadline(&env);
    let project = client
        .register_project(&mut env, creator, tokens, 10_000i128, dummy_proof(), deadline)
        .unwrap();

    env.tokens.mint(token1, donator, 1_000i128).unwrap();
    env.tokens.mint(token2, donator, 1_000i128).unwrap();

    client.deposit(&mut env, project.id, donator, token1, 500i128).unwrap();

    let updated_project = client.get_project(project.id).unwrap();
    assert_eq!(updated_project.donation_count, 1);

    client.deposit(&mut env, project.id, donator, token2, 300i128).unwrap();

    let updated_project = client.get_project(project.id).unwrap();
    assert_eq!(updated_project.donation_count, 2);
}

#[test]
fn test_donation_count_complex_scenario() {
    let (mut env, mut client, super_admin) = setup_with_init();
    let creator: u64 = 10;
    let token1: u64 = 101;
    let token2: u64 = 102;
    let donator1: u64 = 20;
    let donator2: u64 = 21;
    let donator3: u64 = 22;

    client
        .grant_role(&mut env, super_admin, creator, Role::ProjectManager)
        .unwrap();

    let tokens = vec![token1, token2];
    let deadline = future_deadline(&env);
    let project = client
        .register_project(&mut env, creator, tokens, 10_000i128, dummy_proof(), deadline)
        .unwrap();

    env.tokens.mint(token1, donator1, 5_000i128).unwrap();
    env.tokens.mint(token1, donator2, 5_000i128).unwrap();
    env.tokens.mint(token1, donator3, 5_000i128).unwrap();
    env.tokens.mint(token2, donator1, 5_000i128).unwrap();
    env.tokens.mint(token2, donator2, 5_000i128).unwrap();

    client.deposit(&mut env, project.id, donator1, token1, 100i128).unwrap();
    assert_eq!(client.get_project(project.id).unwrap().donation_count, 1);

    client.deposit(&mut env, project.id, donator1, token1, 100i128).unwrap();
    assert_eq!(client.get_project(project.id).unwrap().donation_count, 1);

    client.deposit(&mut env, project.id, donator2, token1, 200i128).unwrap();
    assert_eq!(client.get_project(project.id).unwrap().donation_count, 2);

    client.deposit(&mut env, project.id, donator1, token2, 150i128).unwrap();
    assert_eq!(client.get_project(project.id).unwrap().donation_count, 3);

    client.deposit(&mut env, project.id, donator3, token1, 300i128).unwrap();
    assert_eq!(client.get_project(project.id).unwrap().donation_count, 4);

    client.deposit(&mut env, project.id, donator2, token2, 250i128).unwrap();
    assert_eq!(client.get_project(project.id).unwrap().donation_count, 5);

    client.deposit(&mut env, project.id, donator2, token2, 100i128).unwrap();
    assert_eq!(client.get_project(project.id).unwrap().donation_count, 5);
}

#[test]
fn test_project_created_event() {
    let (mut env, mut client, super_admin) = setup_with_init();
    let creator: u64 = 10;
    let token: u64 = 101;
    let goal = 5000i128;
    let proof_hash = [0xab_u8; 32];
    let deadline = env.timestamp + 86400;

    client
        .grant_role(&mut env, super_admin, creator, Role::ProjectManager)
        .unwrap();

    let tokens = vec![token];
    let project = client
        .register_project(&mut env, creator, tokens, goal, proof_hash, deadline)
        .unwrap();

    let last_event = *env.events.last().expect("No events found");
    assert_eq!(last_event.topic(), "created");
    assert_eq!(
        last_event,
        Notification::Created { project_id: project.id, creator, token, goal }
    );
}

#[test]
fn test_project_funded_event() {
    let (mut env, mut client, super_admin) = setup_with_init();
    let creator: u64 = 10;
    let token: u64 = 101;
    let donator: u64 = 20;
    let amount = 1000i128;

    client
        .grant_role(&mut env, super_admin, creator, Role::ProjectManager)
        .unwrap();
    let deadline = env.timestamp + 86400;
    let tokens = vec![token];
    let project = client
        .register_project(&mut env, creator, tokens, 10000, [0u8; 32], deadline)
        .unwrap();

    env.tokens.mint(token, donator, amount).unwrap();

    client.deposit(&mut env, project.id, donator, token, amount).unwrap();

    let last_event = *env.events.last().expect("No events found");
    assert_eq!(last_event.topic(), "funded");
    assert_eq!(
        last_event,
        Notification::Funded { project_id: project.id, donator, amount }
    );
}

#[test]
fn test_project_verified_event() {
    let (mut env, mut client, super_admin) = setup_with_init();
    let creator: u64 = 10;
    let oracle: u64 = 30;
    let token: u64 = 101;
    let proof_hash = [0xab_u8; 32];

    client
        .grant_role(&mut env, super_admin, creator, Role::ProjectManager)
        .unwrap();
    client.set_oracle(&mut env, super_admin, oracle).unwrap();

    let deadline = env.timestamp + 86400;
    let tokens = vec![token];
    let project = client
        .register_project(&mut env, creator, tokens, 1000, proof_hash, deadline)
        .unwrap();

    client
        .verify_and_release(&mut env, oracle, project.id, proof_hash)
        .unwrap();

    let last_event = *env.events.last().expect("No events found");
    assert_eq!(last_event.topic(), "verified");
    assert_eq!(
        last_event,
        Notification::Verified { project_id: project.id, oracle, proof_hash }
    );
}

#[test]
fn test_get_project_balances() {
    let (mut env, mut client, super_admin) = setup_with_init();
    let creator: u64 = 10;
    let donator: u64 = 20;
    let token_a: u64 = 101;
    let token_b: u64 = 102;

    let amount_a = 2_500i128;
    let amount_b = 7_000i128;

    client
        .grant_role(&mut env, super_admin, creator, Role::ProjectManager)
        .unwrap();
    let deadline = env.timestamp + 86_400;
    let tokens = vec![token_a, token_b];
    let project = client
        .register_project(&mut env, creator, tokens, 10_000i128, [0u8; 32], deadline)
        .unwrap();

    env.tokens.mint(token_a, donator, amount_a).unwrap();
    env.tokens.mint(token_b, donator, amount_b).unwrap();

    client.deposit(&mut env, project.id, donator, token_a, amount_a).unwrap();
    client.deposit(&mut env, project.id, donator, token_b, amount_b).unwrap();

    let balances = client.get_project_balances(project.id).unwrap();

    assert_eq!(balances.project_id, project.id);
    assert_eq!(balances.balances.len(), 2);

    let bal_a = balances.balances.get(0).expect("token_a balance missing");
    let bal_b = balances.balances.get(1).expect("token_b balance missing");

    assert_eq!(bal_a.token, token_a);
    assert_eq!(bal_a.balance, amount_a);

    assert_eq!(bal_b.token, token_b);
    assert_eq!(bal_b.balance, amount_b);
}

#[test]
fn test_funds_released_to_creator() {
    let (mut env, mut client, super_admin) = setup_with_init();
    let creator: u64 = 10;
    let oracle: u64 = 30;
    let donator: u64 = 20;
    let token: u64 = 101;
    let deposit_amount = 1000i128;
    let proof_hash = [0xab_u8; 32];

    client
        .grant_role(&mut env, super_admin, creator, Role::ProjectManager)
        .unwrap();
    client.set_oracle(&mut env, super_admin, oracle).unwrap();

    let deadline = env.timestamp + 86400;
    let tokens = vec![token];
    let project = client
        .register_project(&mut env, creator, tokens, 5000, proof_hash, deadline)
        .unwrap();

    env.tokens.mint(token, donator, deposit_amount).unwrap();
    client
        .deposit(&mut env, project.id, donator, token, deposit_amount)
        .unwrap();

    client
        .verify_and_release(&mut env, oracle, project.id, proof_hash)
        .unwrap();

    let creator_balance = env.tokens.balance(token, creator);
    assert_eq!(
        creator_balance, deposit_amount,
        "Creator should receive the deposited funds"
    );

    let contract_balance = env.tokens.balance(token, CONTRACT);
    assert_eq!(
        contract_balance, 0,
        "Contract should have zero balance after release"
    );
}

#[test]
fn sequential_ids_from_zero() {
    let (mut env, mut client, super_admin) = setup_with_init();
    let manager: u64 = 11;
    client
        .grant_role(&mut env, super_admin, manager, Role::ProjectManager)
        .unwrap();

    let deadline = env.timestamp + 100;
    let first = client
        .register_project(&mut env, manager, vec![101], 50i128, [1u8; 32], deadline)
        .unwrap();
    assert_eq!(first.id, 0);
    assert_eq!(first.status, ProjectStatus::Funding);
    assert_eq!(first.donation_count, 0);

    let second = client
        .register_project(&mut env, manager, vec![102], 70i128, [2u8; 32], deadline)
        .unwrap();
    assert_eq!(second.id, 1);

    let third = client
        .register_project(&mut env, manager, vec![103], 90i128, [3u8; 32], deadline)
        .unwrap();
    assert_eq!(third.id, 2);

    let balances = client.get_project_balances(0).unwrap();
    assert_eq!(balances.balances.len(), 1);
    assert_eq!(balances.balances[0].balance, 0);
}

#[test]
fn deposit_adds_exactly_the_amount() {
    let (mut env, mut client, super_admin) = setup_with_init();
    let creator: u64 = 10;
    let donator: u64 = 20;
    let token: u64 = 101;
    client
        .grant_role(&mut env, super_admin, creator, Role::ProjectManager)
        .unwrap();
    let deadline = env.timestamp + 86400;
    let project = client
        .register_project(&mut env, creator, vec![token], 10_000i128, [0u8; 32], deadline)
        .unwrap();

    env.tokens.mint(token, donator, 1_000i128).unwrap();

    client.deposit(&mut env, project.id, donator, token, 400i128).unwrap();
    let before = client.get_project_balances(project.id).unwrap().balances[0].balance;
    assert_eq!(before, 400i128);

    client.deposit(&mut env, project.id, donator, token, 300i128).unwrap();
    let after = client.get_project_balances(project.id).unwrap().balances[0].balance;
    assert_eq!(after, before + 300i128);
}

#[test]
fn deposit_before_any_project_fails_not_found() {
    let (mut env, mut client, _super_admin) = setup_with_init();
    let donator: u64 = 20;
    env.tokens.mint(101, donator, 1_000i128).unwrap();

    let r = client.deposit(&mut env, 0, donator, 101, 100i128);
    assert_eq!(r, Err(Abort::Code(Error::ProjectNotFound)));

    assert!(client.get_project(0).is_err());
    assert_eq!(env.tokens.balance(101, CONTRACT), 0);
    assert_eq!(env.events.len(), 0);
}

#[test]
fn proof_hash_mismatch_aborts_without_state_change() {
    let (mut env, mut client, super_admin) = setup_with_init();
    let creator: u64 = 10;
    let oracle: u64 = 30;
    let donator: u64 = 20;
    let token: u64 = 101;
    let stored = [0xab_u8; 32];

    client
        .grant_role(&mut env, super_admin, creator, Role::ProjectManager)
        .unwrap();
    client.set_oracle(&mut env, super_admin, oracle).unwrap();
    let deadline = env.timestamp + 86400;
    let project = client
        .register_project(&mut env, creator, vec![token], 5_000i128, stored, deadline)
        .unwrap();

    env.tokens.mint(token, donator, 500i128).unwrap();
    client.deposit(&mut env, project.id, donator, token, 500i128).unwrap();

    let mut wrong = stored;
    wrong[7] ^= 0x01;
    let r = client.verify_and_release(&mut env, oracle, project.id, wrong);
    assert_eq!(r, Err(Abort::Panic));

    let reread = client.get_project(project.id).unwrap();
    assert_eq!(reread.status, ProjectStatus::Funding);
    let balances = client.get_project_balances(project.id).unwrap();
    assert_eq!(balances.balances[0].balance, 500i128);
    assert_eq!(env.tokens.balance(token, CONTRACT), 500i128);
    assert_eq!(env.tokens.balance(token, creator), 0i128);
}

#[test]
fn completed_projects_stay_completed() {
    let (mut env, mut client, super_admin) = setup_with_init();
    let creator: u64 = 10;
    let oracle: u64 = 30;
    let token: u64 = 101;
    let stored = [0x11_u8; 32];

    client
        .grant_role(&mut env, super_admin, creator, Role::ProjectManager)
        .unwrap();
    client.set_oracle(&mut env, super_admin, oracle).unwrap();
    let deadline = env.timestamp + 86400;
    let project = client
        .register_project(&mut env, creator, vec![token], 1_000i128, stored, deadline)
        .unwrap();

    client
        .verify_and_release(&mut env, oracle, project.id, stored)
        .unwrap();
    assert_eq!(
        client.get_project(project.id).unwrap().status,
        ProjectStatus::Completed
    );

    let again = client.verify_and_release(&mut env, oracle, project.id, stored);
    assert_eq!(again, Err(Abort::Code(Error::MilestoneAlreadyReleased)));
    assert_eq!(
        client.get_project(project.id).unwrap().status,
        ProjectStatus::Completed
    );
}

#[test]
fn grant_role_requires_admin_or_above() {
    let (mut env, mut client, super_admin) = setup_with_init();
    let manager: u64 = 11;
    let oracle: u64 = 30;
    let nobody: u64 = 40;
    let target: u64 = 41;

    client
        .grant_role(&mut env, super_admin, manager, Role::ProjectManager)
        .unwrap();
    client
        .grant_role(&mut env, super_admin, oracle, Role::Oracle)
        .unwrap();

    let r = client.grant_role(&mut env, nobody, target, Role::Admin);
    assert_eq!(r, Err(Abort::Code(Error::NotAuthorized)));

    let r = client.grant_role(&mut env, manager, target, Role::Admin);
    assert_eq!(r, Err(Abort::Code(Error::NotAuthorized)));

    let r = client.grant_role(&mut env, oracle, target, Role::Admin);
    assert_eq!(r, Err(Abort::Code(Error::NotAuthorized)));

    assert_eq!(client.role_of(target), None);
}

#[test]
fn only_super_admin_grants_super_admin() {
    let (mut env, mut client, super_admin) = setup_with_init();
    let admin: u64 = 12;
    let target: u64 = 41;

    client
        .grant_role(&mut env, super_admin, admin, Role::Admin)
        .unwrap();

    let r = client.grant_role(&mut env, admin, target, Role::SuperAdmin);
    assert_eq!(r, Err(Abort::Code(Error::NotAuthorized)));
    assert!(!client.has_role(target, Role::SuperAdmin));

    client
        .grant_role(&mut env, super_admin, target, Role::SuperAdmin)
        .unwrap();
    assert!(client.has_role(target, Role::SuperAdmin));
    assert!(!client.has_role(super_admin, Role::SuperAdmin));
}

#[test]
fn transfer_super_admin_is_atomic() {
    let (mut env, mut client, super_admin) = setup_with_init();
    let next_admin: u64 = 50;

    client
        .transfer_super_admin(&mut env, super_admin, next_admin)
        .unwrap();
    assert!(!client.has_role(super_admin, Role::SuperAdmin));
    assert!(client.has_role(next_admin, Role::SuperAdmin));

    let r = client.transfer_super_admin(&mut env, super_admin, next_admin);
    assert_eq!(r, Err(Abort::Code(Error::NotAuthorized)));
}

#[test]
fn revoke_role_without_role_fails_role_not_found() {
    let (mut env, mut client, super_admin) = setup_with_init();
    let stranger: u64 = 60;

    let r = client.revoke_role(&mut env, super_admin, stranger);
    assert_eq!(r, Err(Abort::Code(Error::RoleNotFound)));
}

#[test]
fn revoke_cannot_strip_super_admin() {
    let (mut env, mut client, super_admin) = setup_with_init();
    let admin: u64 = 12;
    client
        .grant_role(&mut env, super_admin, admin, Role::Admin)
        .unwrap();

    let r = client.revoke_role(&mut env, admin, super_admin);
    assert_eq!(r, Err(Abort::Code(Error::NotAuthorized)));
    assert!(client.has_role(super_admin, Role::SuperAdmin));

    client.revoke_role(&mut env, super_admin, admin).unwrap();
    assert_eq!(client.role_of(admin), None);
}

#[test]
fn init_only_once() {
    let (_env, mut client, _super_admin) = setup_with_init();
    let r = client.init(77);
    assert_eq!(r, Err(Abort::Code(Error::AlreadyInitialized)));
    assert_eq!(client.role_of(77), None);
}

#[test]
fn register_rejects_invalid_inputs() {
    let (mut env, mut client, super_admin) = setup_with_init();
    let manager: u64 = 11;
    client
        .grant_role(&mut env, super_admin, manager, Role::ProjectManager)
        .unwrap();
    env.set_timestamp(1_000);

    let r = client.register_project(&mut env, manager, vec![101], 0i128, [0u8; 32], 2_000);
    assert_eq!(r, Err(Abort::Code(Error::InvalidMilestones)));

    let r = client.register_project(&mut env, manager, vec![101], -5i128, [0u8; 32], 2_000);
    assert_eq!(r, Err(Abort::Code(Error::InvalidMilestones)));

    let r = client.register_project(&mut env, manager, vec![101], 10i128, [0u8; 32], 1_000);
    assert_eq!(r, Err(Abort::Code(Error::InvalidMilestones)));

    let r = client.register_project(&mut env, manager, vec![], 10i128, [0u8; 32], 2_000);
    assert_eq!(r, Err(Abort::Code(Error::InvalidMilestones)));

    let r = client.register_project(&mut env, 99, vec![101], 10i128, [0u8; 32], 2_000);
    assert_eq!(r, Err(Abort::Code(Error::NotAuthorized)));

    assert!(client.get_project(0).is_err());
}

#[test]
fn deposit_rejects_unaccepted_token() {
    let (mut env, mut client, super_admin) = setup_with_init();
    let creator: u64 = 10;
    let donator: u64 = 20;
    client
        .grant_role(&mut env, super_admin, creator, Role::ProjectManager)
        .unwrap();
    let deadline = env.timestamp + 86400;
    let project = client
        .register_project(&mut env, creator, vec![101], 10_000i128, [0u8; 32], deadline)
        .unwrap();

    env.tokens.mint(202, donator, 1_000i128).unwrap();
    let r = client.deposit(&mut env, project.id, donator, 202, 100i128);
    assert_eq!(r, Err(Abort::Code(Error::GoalMismatch)));
    assert_eq!(env.tokens.balance(202, donator), 1_000i128);
}

#[test]
fn deposit_with_insufficient_funds_aborts() {
    let (mut env, mut client, super_admin) = setup_with_init();
    let creator: u64 = 10;
    let donator: u64 = 20;
    let token: u64 = 101;
    client
        .grant_role(&mut env, super_admin, creator, Role::ProjectManager)
        .unwrap();
    let deadline = env.timestamp + 86400;
    let project = client
        .register_project(&mut env, creator, vec![token], 10_000i128, [0u8; 32], deadline)
        .unwrap();

    env.tokens.mint(token, donator, 50i128).unwrap();
    let r = client.deposit(&mut env, project.id, donator, token, 100i128);
    assert_eq!(r, Err(Abort::Panic));
    assert_eq!(env.tokens.balance(token, donator), 50i128);
    assert_eq!(
        client.get_project_balances(project.id).unwrap().balances[0].balance,
        0i128
    );
}

#[test]
fn verify_requires_oracle_role() {
    let (mut env, mut client, super_admin) = setup_with_init();
    let creator: u64 = 10;
    let stranger: u64 = 70;
    let stored = [0x42_u8; 32];
    client
        .grant_role(&mut env, super_admin, creator, Role::ProjectManager)
        .unwrap();
    let deadline = env.timestamp + 86400;
    let project = client
        .register_project(&mut env, creator, vec![101], 1_000i128, stored, deadline)
        .unwrap();

    let r = client.verify_and_release(&mut env, stranger, project.id, stored);
    assert_eq!(r, Err(Abort::Code(Error::NotAuthorized)));
    assert_eq!(
        client.get_project(project.id).unwrap().status,
        ProjectStatus::Funding
    );
}

#[test]
fn expired_projects_fail_as_not_found() {
    let (mut env, mut client, super_admin) = setup_with_init();
    let creator: u64 = 10;
    let oracle: u64 = 30;
    let stored = [0x11_u8; 32];
    client
        .grant_role(&mut env, super_admin, creator, Role::ProjectManager)
        .unwrap();
    client.set_oracle(&mut env, super_admin, oracle).unwrap();
    let deadline = env.timestamp + 86400;
    let project = client
        .register_project(&mut env, creator, vec![101], 1_000i128, stored, deadline)
        .unwrap();

    // Expiry is lazy: a status value written by the storage layer, never a
    // background sweep.
    let expired = pifp::types::ProjectState {
        balances: vec![0],
        status: ProjectStatus::Expired,
        donors: vec![],
    };
    client.store.save_project_state(project.id, expired).unwrap();

    let r = client.verify_and_release(&mut env, oracle, project.id, stored);
    assert_eq!(r, Err(Abort::Code(Error::ProjectNotFound)));
    assert_eq!(
        client.get_project(project.id).unwrap().status,
        ProjectStatus::Expired
    );
}

#[test]
fn error_codes_are_stable() {
    assert_eq!(Error::ProjectNotFound.code(), 1);
    assert_eq!(Error::MilestoneNotFound.code(), 2);
    assert_eq!(Error::MilestoneAlreadyReleased.code(), 3);
    assert_eq!(Error::InsufficientBalance.code(), 4);
    assert_eq!(Error::InvalidMilestones.code(), 5);
    assert_eq!(Error::NotAuthorized.code(), 6);
    assert_eq!(Error::GoalMismatch.code(), 7);
    assert_eq!(Error::AlreadyInitialized.code(), 8);
    assert_eq!(Error::RoleNotFound.code(), 9);
}
