use pifp::errors::Error;
use pifp::storage::{
    DataKey, INSTANCE_BUMP_AMOUNT, INSTANCE_LIFETIME_THRESHOLD, PERSISTENT_BUMP_AMOUNT,
    PERSISTENT_LIFETIME_THRESHOLD, ProjectStore, renew_ttl,
};
use pifp::types::{ProjectConfig, ProjectState, ProjectStatus};

#[test]
fn renewal_extends_only_below_threshold() {
    assert_eq!(
        renew_ttl(0, INSTANCE_LIFETIME_THRESHOLD, INSTANCE_BUMP_AMOUNT),
        INSTANCE_BUMP_AMOUNT
    );
    assert_eq!(
        renew_ttl(
            INSTANCE_LIFETIME_THRESHOLD,
            INSTANCE_LIFETIME_THRESHOLD,
            INSTANCE_BUMP_AMOUNT
        ),
        INSTANCE_LIFETIME_THRESHOLD
    );
    assert_eq!(
        renew_ttl(
            PERSISTENT_LIFETIME_THRESHOLD - 1,
            PERSISTENT_LIFETIME_THRESHOLD,
            PERSISTENT_BUMP_AMOUNT
        ),
        PERSISTENT_BUMP_AMOUNT
    );
    assert_eq!(
        renew_ttl(
            PERSISTENT_BUMP_AMOUNT,
            PERSISTENT_LIFETIME_THRESHOLD,
            PERSISTENT_BUMP_AMOUNT
        ),
        PERSISTENT_BUMP_AMOUNT
    );
}

#[test]
fn counter_hands_out_sequential_ids() {
    let mut store = ProjectStore::new();
    assert_eq!(store.get_and_increment_project_id(), 0);
    assert_eq!(store.get_and_increment_project_id(), 1);
    assert_eq!(store.get_and_increment_project_id(), 2);
}

#[test]
fn oracle_reference_round_trip() {
    let mut store = ProjectStore::new();
    assert_eq!(store.get_oracle(), None);
    store.set_oracle(42);
    assert_eq!(store.get_oracle(), Some(42));
}

#[test]
fn split_records_round_trip() {
    let mut store = ProjectStore::new();
    let id = store.get_and_increment_project_id();
    let config = ProjectConfig {
        id,
        creator: 10,
        accepted_tokens: vec![101],
        goal: 500,
        proof_hash: [7u8; 32],
        deadline: 99,
    };
    let state = ProjectState {
        balances: vec![0],
        status: ProjectStatus::Funding,
        donors: vec![],
    };
    store.save_project(config, state);

    let loaded = store.load_project(id).unwrap();
    assert_eq!(loaded.id, id);
    assert_eq!(loaded.creator, 10);
    assert_eq!(loaded.goal, 500);
    assert_eq!(loaded.status, ProjectStatus::Funding);
    assert_eq!(loaded.donation_count, 0);

    let new_state = ProjectState {
        balances: vec![250],
        status: ProjectStatus::Active,
        donors: vec![(20, 101)],
    };
    store.save_project_state(id, new_state).unwrap();

    let config_again = store.load_project_config(id).unwrap();
    assert_eq!(config_again.goal, 500);
    let state_again = store.load_project_state(id).unwrap();
    assert_eq!(state_again.balances, vec![250]);
    assert_eq!(state_again.status, ProjectStatus::Active);

    assert_eq!(store.load_project(1), Err(Error::ProjectNotFound));
}

#[test]
fn storage_keys_distinguish_tiers() {
    assert_eq!(DataKey::ProjConfig(3), DataKey::ProjConfig(3));
    assert_ne!(DataKey::ProjConfig(3), DataKey::ProjState(3));
    assert_ne!(DataKey::ProjectCount, DataKey::OracleKey);
}
