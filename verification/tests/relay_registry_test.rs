use stellarconduit_contracts::address::Address;
use stellarconduit_contracts::relay_registry::errors::ContractError;
use stellarconduit_contracts::relay_registry::storage::{
    get_admin, get_min_stake, get_node, get_node_count, get_pending_unstake,
    get_stake_lock_period, increment_node_count, remove_node, remove_pending_unstake,
    set_min_stake, set_node, set_node_count, set_pending_unstake, set_stake_lock_period, Storage,
};
use stellarconduit_contracts::relay_registry::types::{
    NodeMetadata, NodeStatus, RelayNode, StakeEntry,
};
use stellarconduit_contracts::relay_registry::RelayRegistryContract;

fn address(text: &str) -> Address {
    Address::new(text.to_string())
}

fn metadata() -> NodeMetadata {
    NodeMetadata { region: "eu-west".to_string(), capacity: 64, uptime_commitment: 99 }
}

/// A registry governed by "admin", with a minimum stake of 1000 and a lock
/// period of 50.
fn registry() -> Storage {
    let mut storage = Storage::new(address("admin"));
    assert_eq!(
        RelayRegistryContract::configure_min_stake(&mut storage, address("admin"), 1000),
        Ok(())
    );
    assert_eq!(
        RelayRegistryContract::configure_lock_period(&mut storage, address("admin"), 50),
        Ok(())
    );
    storage
}

fn registered(storage: &mut Storage, name: &str, now: u64) -> RelayNode {
    RelayRegistryContract::register(storage, now, address(name), metadata()).unwrap()
}

// Registration

#[test]
fn test_register_new_node() {
    let mut storage = registry();
    let node = RelayRegistryContract::register(&mut storage, 7, address("node-a"), metadata());
    let expected = RelayNode {
        address: address("node-a"),
        stake: 1000,
        status: NodeStatus::Active,
        metadata: metadata(),
        registered_at: 7,
        last_active: 7,
    };
    assert_eq!(node, Ok(expected.clone()));
    assert_eq!(get_node(&storage, &address("node-a")), Some(expected));
    assert_eq!(get_node_count(&storage), 1);
}

#[test]
fn test_register_duplicate_node() {
    let mut storage = registry();
    let first = registered(&mut storage, "node-a", 7);
    let again = RelayRegistryContract::register(&mut storage, 9, address("node-a"), metadata());
    assert_eq!(again, Err(ContractError::AlreadyRegistered));
    assert_eq!(get_node(&storage, &address("node-a")), Some(first));
    assert_eq!(get_node_count(&storage), 1);
}

#[test]
fn test_register_with_invalid_metadata() {
    let mut storage = registry();
    let no_capacity = NodeMetadata { capacity: 0, ..metadata() };
    let too_much_uptime = NodeMetadata { uptime_commitment: 101, ..metadata() };
    let no_region = NodeMetadata { region: String::new(), ..metadata() };
    for bad in [no_capacity, too_much_uptime, no_region] {
        let refused = RelayRegistryContract::register(&mut storage, 7, address("node-a"), bad);
        assert_eq!(refused, Err(ContractError::InvalidMetadata));
    }
    assert_eq!(get_node(&storage, &address("node-a")), None);
    assert_eq!(get_node_count(&storage), 0);
}

#[test]
fn test_register_accepts_metadata_at_the_limits() {
    let mut storage = registry();
    let full = NodeMetadata { region: "x".to_string(), capacity: 1, uptime_commitment: 100 };
    let idle = NodeMetadata { region: "x".to_string(), capacity: u32::MAX, uptime_commitment: 0 };
    assert!(RelayRegistryContract::register(&mut storage, 1, address("a"), full).is_ok());
    assert!(RelayRegistryContract::register(&mut storage, 1, address("b"), idle).is_ok());
    assert_eq!(get_node_count(&storage), 2);
}

#[test]
fn test_is_valid_metadata() {
    assert!(RelayRegistryContract::is_valid_metadata(&metadata()));
    assert!(!RelayRegistryContract::is_valid_metadata(&NodeMetadata { capacity: 0, ..metadata() }));
    assert!(!RelayRegistryContract::is_valid_metadata(&NodeMetadata {
        uptime_commitment: 101,
        ..metadata()
    }));
    assert!(!RelayRegistryContract::is_valid_metadata(&NodeMetadata {
        region: String::new(),
        ..metadata()
    }));
}

#[test]
fn test_register_with_exhausted_node_counter() {
    let mut storage = registry();
    registered(&mut storage, "node-a", 7);
    set_node_count(&mut storage, u32::MAX - 1);
    let last = RelayRegistryContract::register(&mut storage, 8, address("node-b"), metadata());
    assert_eq!(last.unwrap().stake, 1000);
    assert_eq!(get_node_count(&storage), u32::MAX);

    let refused = RelayRegistryContract::register(&mut storage, 9, address("node-c"), metadata());
    assert_eq!(refused, Err(ContractError::Overflow));
    assert_eq!(get_node(&storage, &address("node-c")), None);
    assert_eq!(get_node_count(&storage), u32::MAX);
    assert!(!RelayRegistryContract::is_active(&storage, address("node-c")));

    // what is wrong with the request itself is reported first
    let again = RelayRegistryContract::register(&mut storage, 9, address("node-b"), metadata());
    assert_eq!(again, Err(ContractError::AlreadyRegistered));
    let bad = NodeMetadata { capacity: 0, ..metadata() };
    let invalid = RelayRegistryContract::register(&mut storage, 9, address("node-c"), bad);
    assert_eq!(invalid, Err(ContractError::InvalidMetadata));

    // the nodes on file are untouched and can go on
    assert_eq!(
        RelayRegistryContract::stake(&mut storage, 10, address("node-b"), 5).unwrap().stake,
        1005
    );
}

#[test]
fn test_increment_node_count_is_checked() {
    let mut storage = Storage::new(address("admin"));
    assert_eq!(increment_node_count(&mut storage), Ok(()));
    assert_eq!(get_node_count(&storage), 1);
    set_node_count(&mut storage, u32::MAX - 1);
    assert_eq!(increment_node_count(&mut storage), Ok(()));
    assert_eq!(get_node_count(&storage), u32::MAX);
    assert_eq!(increment_node_count(&mut storage), Err(ContractError::Overflow));
    assert_eq!(increment_node_count(&mut storage), Err(ContractError::Overflow));
    assert_eq!(get_node_count(&storage), u32::MAX);
}

// Staking

#[test]
fn test_stake_increases_balance() {
    let mut storage = registry();
    registered(&mut storage, "node-a", 7);
    let node = RelayRegistryContract::stake(&mut storage, 12, address("node-a"), 250).unwrap();
    assert_eq!(node.stake, 1250);
    assert_eq!(node.status, NodeStatus::Active);
    assert_eq!(node.registered_at, 7);
    assert_eq!(node.last_active, 12);
    assert_eq!(get_node(&storage, &address("node-a")), Some(node));
}

#[test]
fn test_stake_rejects_amounts_that_are_not_positive() {
    let mut storage = registry();
    let before = registered(&mut storage, "node-a", 7);
    for amount in [0, -1, i128::MIN] {
        let refused = RelayRegistryContract::stake(&mut storage, 12, address("node-a"), amount);
        assert_eq!(refused, Err(ContractError::InsufficientStake));
    }
    // the amount is looked at before the node is
    let refused = RelayRegistryContract::stake(&mut storage, 12, address("nobody"), 0);
    assert_eq!(refused, Err(ContractError::InsufficientStake));
    assert_eq!(get_node(&storage, &address("node-a")), Some(before));
}

#[test]
fn test_stake_not_registered() {
    let mut storage = registry();
    let refused = RelayRegistryContract::stake(&mut storage, 12, address("nobody"), 10);
    assert_eq!(refused, Err(ContractError::NotRegistered));
}

#[test]
fn test_stake_below_minimum() {
    let mut storage = registry();
    registered(&mut storage, "node-a", 7);
    RelayRegistryContract::unstake(&mut storage, 8, address("node-a"), 600).unwrap();
    let before = get_node(&storage, &address("node-a")).unwrap();
    assert_eq!(before.stake, 400);
    assert_eq!(before.status, NodeStatus::Inactive);
    // 400 + 599 is one short of the minimum
    let refused = RelayRegistryContract::stake(&mut storage, 9, address("node-a"), 599);
    assert_eq!(refused, Err(ContractError::InsufficientStake));
    assert_eq!(get_node(&storage, &address("node-a")), Some(before));
}

#[test]
fn test_stake_activates_node() {
    let mut storage = registry();
    registered(&mut storage, "node-a", 7);
    RelayRegistryContract::unstake(&mut storage, 8, address("node-a"), 600).unwrap();
    assert!(!RelayRegistryContract::is_active(&storage, address("node-a")));
    let node = RelayRegistryContract::stake(&mut storage, 9, address("node-a"), 600).unwrap();
    assert_eq!(node.stake, 1000);
    assert_eq!(node.status, NodeStatus::Active);
    assert!(RelayRegistryContract::is_active(&storage, address("node-a")));
}

#[test]
fn test_stake_overflow() {
    let mut storage = registry();
    registered(&mut storage, "node-a", 7);
    let refused =
        RelayRegistryContract::stake(&mut storage, 9, address("node-a"), i128::MAX - 999);
    assert_eq!(refused, Err(ContractError::Overflow));
    assert_eq!(get_node(&storage, &address("node-a")).unwrap().stake, 1000);
    let node =
        RelayRegistryContract::stake(&mut storage, 9, address("node-a"), i128::MAX - 1000).unwrap();
    assert_eq!(node.stake, i128::MAX);
}

#[test]
fn test_stake_slashed_node() {
    let mut storage = registry();
    registered(&mut storage, "node-a", 7);
    RelayRegistryContract::slash(&mut storage, 8, address("node-a"), "lost".to_string()).unwrap();
    let refused = RelayRegistryContract::stake(&mut storage, 9, address("node-a"), 5000);
    assert_eq!(refused, Err(ContractError::NodeSlashed));
    let refused = RelayRegistryContract::unstake(&mut storage, 9, address("node-a"), 1);
    assert_eq!(refused, Err(ContractError::NodeSlashed));
    let node = get_node(&storage, &address("node-a")).unwrap();
    assert_eq!(node.stake, 0);
    assert_eq!(node.status, NodeStatus::Slashed);
}

// Unstaking

#[test]
fn test_unstake_initiates_lock() {
    let mut storage = registry();
    registered(&mut storage, "node-a", 7);
    RelayRegistryContract::stake(&mut storage, 8, address("node-a"), 500).unwrap();
    let node = RelayRegistryContract::unstake(&mut storage, 20, address("node-a"), 300).unwrap();
    assert_eq!(node.stake, 1200);
    assert_eq!(node.status, NodeStatus::Active);
    assert_eq!(node.last_active, 20);
    assert_eq!(get_node(&storage, &address("node-a")), Some(node));
    assert_eq!(
        get_pending_unstake(&storage, &address("node-a")),
        Some(StakeEntry { address: address("node-a"), amount: 300, unlocks_at: 70 })
    );
}

#[test]
fn test_unstake_below_minimum_deactivates() {
    let mut storage = registry();
    registered(&mut storage, "node-a", 7);
    let node = RelayRegistryContract::unstake(&mut storage, 20, address("node-a"), 1).unwrap();
    assert_eq!(node.stake, 999);
    assert_eq!(node.status, NodeStatus::Inactive);
    assert!(!RelayRegistryContract::is_active(&storage, address("node-a")));
}

#[test]
fn test_unstake_everything() {
    let mut storage = registry();
    registered(&mut storage, "node-a", 7);
    let node = RelayRegistryContract::unstake(&mut storage, 20, address("node-a"), 1000).unwrap();
    assert_eq!(node.stake, 0);
    assert_eq!(node.status, NodeStatus::Inactive);
    let refused = RelayRegistryContract::unstake(&mut storage, 21, address("node-a"), 1);
    assert_eq!(refused, Err(ContractError::InsufficientStake));
}

#[test]
fn test_unstake_rejects_bad_amounts() {
    let mut storage = registry();
    let before = registered(&mut storage, "node-a", 7);
    for amount in [0, -5, 1001, i128::MAX] {
        let refused = RelayRegistryContract::unstake(&mut storage, 20, address("node-a"), amount);
        assert_eq!(refused, Err(ContractError::InsufficientStake));
    }
    assert_eq!(get_node(&storage, &address("node-a")), Some(before));
    assert_eq!(get_pending_unstake(&storage, &address("node-a")), None);
}

#[test]
fn test_unstake_not_registered() {
    let mut storage = registry();
    let refused = RelayRegistryContract::unstake(&mut storage, 20, address("nobody"), 1);
    assert_eq!(refused, Err(ContractError::NotRegistered));
}

#[test]
fn test_unstake_joins_outstanding_request() {
    let mut storage = registry();
    registered(&mut storage, "node-a", 7);
    RelayRegistryContract::unstake(&mut storage, 20, address("node-a"), 300).unwrap();
    let node = RelayRegistryContract::unstake(&mut storage, 30, address("node-a"), 200).unwrap();
    assert_eq!(node.stake, 500);
    assert_eq!(
        get_pending_unstake(&storage, &address("node-a")),
        Some(StakeEntry { address: address("node-a"), amount: 500, unlocks_at: 80 })
    );
}

#[test]
fn test_unstake_relocks_for_the_current_period() {
    let mut storage = registry();
    registered(&mut storage, "node-a", 7);
    RelayRegistryContract::unstake(&mut storage, 20, address("node-a"), 300).unwrap();
    RelayRegistryContract::configure_lock_period(&mut storage, address("admin"), 5).unwrap();
    RelayRegistryContract::unstake(&mut storage, 30, address("node-a"), 200).unwrap();
    assert_eq!(
        get_pending_unstake(&storage, &address("node-a")),
        Some(StakeEntry { address: address("node-a"), amount: 500, unlocks_at: 35 })
    );
}

#[test]
fn test_unstake_unlock_time_overflow() {
    let mut storage = registry();
    let before = registered(&mut storage, "node-a", 7);
    let refused = RelayRegistryContract::unstake(&mut storage, u64::MAX - 49, address("node-a"), 1);
    assert_eq!(refused, Err(ContractError::Overflow));
    assert_eq!(get_node(&storage, &address("node-a")), Some(before));
    assert_eq!(get_pending_unstake(&storage, &address("node-a")), None);
    let node =
        RelayRegistryContract::unstake(&mut storage, u64::MAX - 50, address("node-a"), 1).unwrap();
    assert_eq!(node.stake, 999);
    assert_eq!(get_pending_unstake(&storage, &address("node-a")).unwrap().unlocks_at, u64::MAX);
}

#[test]
fn test_unstake_locked_amount_overflow() {
    let mut storage = registry();
    registered(&mut storage, "node-a", 7);
    RelayRegistryContract::stake(&mut storage, 8, address("node-a"), i128::MAX - 1000).unwrap();
    RelayRegistryContract::unstake(&mut storage, 9, address("node-a"), i128::MAX).unwrap();
    RelayRegistryContract::stake(&mut storage, 10, address("node-a"), 1000).unwrap();
    let before = get_node(&storage, &address("node-a"));
    let refused = RelayRegistryContract::unstake(&mut storage, 11, address("node-a"), 1);
    assert_eq!(refused, Err(ContractError::Overflow));
    assert_eq!(get_node(&storage, &address("node-a")), before);
    assert_eq!(get_pending_unstake(&storage, &address("node-a")).unwrap().amount, i128::MAX);
}

#[test]
fn test_unstake_during_lock_period() {
    let mut storage = registry();
    registered(&mut storage, "node-a", 7);
    RelayRegistryContract::unstake(&mut storage, 20, address("node-a"), 300).unwrap();
    for now in [0, 20, 69] {
        let refused = RelayRegistryContract::finalize_unstake(&mut storage, now, address("node-a"));
        assert_eq!(refused, Err(ContractError::StakeLocked));
    }
    assert_eq!(
        get_pending_unstake(&storage, &address("node-a")),
        Some(StakeEntry { address: address("node-a"), amount: 300, unlocks_at: 70 })
    );
}

#[test]
fn test_unstake_after_lock_period() {
    let mut storage = registry();
    registered(&mut storage, "node-a", 7);
    RelayRegistryContract::unstake(&mut storage, 20, address("node-a"), 300).unwrap();
    let node = get_node(&storage, &address("node-a"));
    let released = RelayRegistryContract::finalize_unstake(&mut storage, 70, address("node-a"));
    assert_eq!(released, Ok(300));
    assert_eq!(get_pending_unstake(&storage, &address("node-a")), None);
    assert_eq!(get_node(&storage, &address("node-a")), node);
    let again = RelayRegistryContract::finalize_unstake(&mut storage, 71, address("node-a"));
    assert_eq!(again, Err(ContractError::InsufficientStake));
}

#[test]
fn test_finalize_unstake_refusals() {
    let mut storage = registry();
    let refused = RelayRegistryContract::finalize_unstake(&mut storage, 70, address("nobody"));
    assert_eq!(refused, Err(ContractError::NotRegistered));
    registered(&mut storage, "node-a", 7);
    let refused = RelayRegistryContract::finalize_unstake(&mut storage, 70, address("node-a"));
    assert_eq!(refused, Err(ContractError::InsufficientStake));
    RelayRegistryContract::unstake(&mut storage, 20, address("node-a"), 300).unwrap();
    RelayRegistryContract::slash(&mut storage, 30, address("node-a"), "lost".to_string()).unwrap();
    let refused = RelayRegistryContract::finalize_unstake(&mut storage, 70, address("node-a"));
    assert_eq!(refused, Err(ContractError::NodeSlashed));
}

// Slashing

#[test]
fn test_slash_active_node() {
    let mut storage = registry();
    registered(&mut storage, "node-a", 7);
    registered(&mut storage, "node-b", 7);
    let node =
        RelayRegistryContract::slash(&mut storage, 30, address("node-a"), "lost".to_string())
            .unwrap();
    assert_eq!(node.stake, 0);
    assert_eq!(node.status, NodeStatus::Slashed);
    assert_eq!(node.last_active, 30);
    assert_eq!(node.registered_at, 7);
    assert_eq!(get_node(&storage, &address("node-a")), Some(node));
    assert_eq!(get_node(&storage, &address("node-b")).unwrap().stake, 1000);
    assert!(RelayRegistryContract::is_active(&storage, address("node-b")));
}

#[test]
fn test_slash_forfeits_locked_funds() {
    let mut storage = registry();
    registered(&mut storage, "node-a", 7);
    RelayRegistryContract::unstake(&mut storage, 20, address("node-a"), 300).unwrap();
    RelayRegistryContract::slash(&mut storage, 30, address("node-a"), "lost".to_string()).unwrap();
    assert_eq!(get_pending_unstake(&storage, &address("node-a")), None);
    assert_eq!(get_node(&storage, &address("node-a")).unwrap().stake, 0);
}

#[test]
fn test_slash_inactive_node() {
    let mut storage = registry();
    registered(&mut storage, "node-a", 7);
    RelayRegistryContract::unstake(&mut storage, 20, address("node-a"), 900).unwrap();
    let node =
        RelayRegistryContract::slash(&mut storage, 30, address("node-a"), "lost".to_string())
            .unwrap();
    assert_eq!(node.stake, 0);
    assert_eq!(node.status, NodeStatus::Slashed);
}

#[test]
fn test_slash_twice() {
    let mut storage = registry();
    registered(&mut storage, "node-a", 7);
    let node =
        RelayRegistryContract::slash(&mut storage, 30, address("node-a"), "lost".to_string())
            .unwrap();
    let again =
        RelayRegistryContract::slash(&mut storage, 40, address("node-a"), "again".to_string());
    assert_eq!(again, Err(ContractError::NodeSlashed));
    assert_eq!(get_node(&storage, &address("node-a")), Some(node));
}

#[test]
fn test_slash_not_registered() {
    let mut storage = registry();
    let refused =
        RelayRegistryContract::slash(&mut storage, 30, address("nobody"), "lost".to_string());
    assert_eq!(refused, Err(ContractError::NotRegistered));
}

#[test]
fn test_slash_unauthorized() {
    let mut storage = registry();
    let before = registered(&mut storage, "node-a", 7);
    registered(&mut storage, "node-b", 7);
    for caller in ["node-a", "node-b", "stranger"] {
        let refused = RelayRegistryContract::admin_slash(
            &mut storage,
            30,
            address(caller),
            address("node-a"),
            "override".to_string(),
        );
        assert_eq!(refused, Err(ContractError::UnauthorizedSlash));
    }
    assert_eq!(get_node(&storage, &address("node-a")), Some(before));
}

#[test]
fn test_slash_by_admin() {
    let mut storage = registry();
    registered(&mut storage, "node-a", 7);
    let node = RelayRegistryContract::admin_slash(
        &mut storage,
        30,
        address("admin"),
        address("node-a"),
        "override".to_string(),
    )
    .unwrap();
    assert_eq!(node.stake, 0);
    assert_eq!(node.status, NodeStatus::Slashed);
    let refused = RelayRegistryContract::admin_slash(
        &mut storage,
        31,
        address("admin"),
        address("nobody"),
        "override".to_string(),
    );
    assert_eq!(refused, Err(ContractError::NotRegistered));
}

#[test]
fn test_admin_cannot_slash_itself() {
    let mut storage = registry();
    registered(&mut storage, "admin", 7);
    let refused = RelayRegistryContract::admin_slash(
        &mut storage,
        30,
        address("admin"),
        address("admin"),
        "override".to_string(),
    );
    assert_eq!(refused, Err(ContractError::UnauthorizedSlash));
    assert!(RelayRegistryContract::is_active(&storage, address("admin")));
}

#[test]
fn test_authorized_slash_by_arbiter() {
    let mut storage = registry();
    registered(&mut storage, "node-a", 7);
    let node = RelayRegistryContract::authorized_slash(
        &mut storage,
        30,
        address("engine"),
        Some(address("engine")),
        address("node-a"),
        "lost".to_string(),
    )
    .unwrap();
    assert_eq!((node.stake, node.status, node.last_active), (0, NodeStatus::Slashed, 30));
    assert_eq!(get_node(&storage, &address("node-a")), Some(node));
    let again = RelayRegistryContract::authorized_slash(
        &mut storage,
        31,
        address("engine"),
        Some(address("engine")),
        address("node-a"),
        "lost".to_string(),
    );
    assert_eq!(again, Err(ContractError::NodeSlashed));
}

#[test]
fn test_authorized_slash_by_admin() {
    for arbiter in [None, Some(address("engine"))] {
        let mut storage = registry();
        registered(&mut storage, "node-a", 7);
        let node = RelayRegistryContract::authorized_slash(
            &mut storage,
            30,
            address("admin"),
            arbiter,
            address("node-a"),
            "override".to_string(),
        )
        .unwrap();
        assert_eq!((node.stake, node.status), (0, NodeStatus::Slashed));
        assert_eq!(get_node(&storage, &address("node-a")), Some(node));
    }
}

#[test]
fn test_authorized_slash_refuses_everybody_else() {
    let mut storage = registry();
    let before = registered(&mut storage, "node-a", 7);
    registered(&mut storage, "admin", 7);
    let cases = [
        // the node itself, a peer and a stranger, with and without an engine on file
        ("node-a", None, "node-a"),
        ("node-a", Some("engine"), "node-a"),
        ("node-b", Some("engine"), "node-a"),
        ("stranger", None, "node-a"),
        // the engine that the registry was not told of
        ("engine", None, "node-a"),
        ("engine", Some("other-engine"), "node-a"),
        // the administrator asking for its own slash
        ("admin", Some("engine"), "admin"),
    ];
    for (caller, arbiter, target) in cases {
        let refused = RelayRegistryContract::authorized_slash(
            &mut storage,
            30,
            address(caller),
            arbiter.map(address),
            address(target),
            "claim".to_string(),
        );
        assert_eq!(refused, Err(ContractError::UnauthorizedSlash));
    }
    assert_eq!(get_node(&storage, &address("node-a")), Some(before));
    assert!(RelayRegistryContract::is_active(&storage, address("admin")));
    // an authorized caller is still told where there is nothing to slash
    let unknown = RelayRegistryContract::authorized_slash(
        &mut storage,
        30,
        address("engine"),
        Some(address("engine")),
        address("nobody"),
        "claim".to_string(),
    );
    assert_eq!(unknown, Err(ContractError::NotRegistered));
}

// Lookup

#[test]
fn test_get_node_returns_data() {
    let mut storage = registry();
    let node = registered(&mut storage, "node-a", 7);
    assert_eq!(RelayRegistryContract::get_node(&storage, address("node-a")), Ok(node));
}

#[test]
fn test_get_node_not_found() {
    let storage = registry();
    assert_eq!(
        RelayRegistryContract::get_node(&storage, address("node-a")),
        Err(ContractError::NotRegistered)
    );
}

#[test]
fn test_is_active_returns_true() {
    let mut storage = registry();
    registered(&mut storage, "node-a", 7);
    assert!(RelayRegistryContract::is_active(&storage, address("node-a")));
}

#[test]
fn test_is_active_returns_false() {
    let mut storage = registry();
    registered(&mut storage, "inactive", 7);
    registered(&mut storage, "slashed", 7);
    RelayRegistryContract::unstake(&mut storage, 8, address("inactive"), 1).unwrap();
    RelayRegistryContract::slash(&mut storage, 8, address("slashed"), "lost".to_string()).unwrap();
    assert!(!RelayRegistryContract::is_active(&storage, address("inactive")));
    assert!(!RelayRegistryContract::is_active(&storage, address("slashed")));
    assert!(!RelayRegistryContract::is_active(&storage, address("absent")));
}

// Settings

#[test]
fn test_configure_min_stake() {
    let mut storage = Storage::new(address("admin"));
    assert_eq!(get_min_stake(&storage), 0);
    assert_eq!(
        RelayRegistryContract::configure_min_stake(&mut storage, address("node-a"), 5),
        Err(ContractError::Unauthorized)
    );
    assert_eq!(
        RelayRegistryContract::configure_min_stake(&mut storage, address("admin"), -1),
        Err(ContractError::InsufficientStake)
    );
    assert_eq!(get_min_stake(&storage), 0);
    assert_eq!(
        RelayRegistryContract::configure_min_stake(&mut storage, address("admin"), 5),
        Ok(())
    );
    assert_eq!(get_min_stake(&storage), 5);
    assert_eq!(registered(&mut storage, "node-a", 1).stake, 5);
}

#[test]
fn test_configure_lock_period() {
    let mut storage = Storage::new(address("admin"));
    assert_eq!(get_stake_lock_period(&storage), 0);
    assert_eq!(
        RelayRegistryContract::configure_lock_period(&mut storage, address("node-a"), 5),
        Err(ContractError::Unauthorized)
    );
    assert_eq!(get_stake_lock_period(&storage), 0);
    assert_eq!(
        RelayRegistryContract::configure_lock_period(&mut storage, address("admin"), 5),
        Ok(())
    );
    assert_eq!(get_stake_lock_period(&storage), 5);
}

#[test]
fn test_zero_lock_period_unlocks_at_once() {
    let mut storage = Storage::new(address("admin"));
    registered(&mut storage, "node-a", 1);
    RelayRegistryContract::stake(&mut storage, 2, address("node-a"), 10).unwrap();
    RelayRegistryContract::unstake(&mut storage, 3, address("node-a"), 4).unwrap();
    assert_eq!(RelayRegistryContract::finalize_unstake(&mut storage, 2, address("node-a")),
        Err(ContractError::StakeLocked));
    assert_eq!(RelayRegistryContract::finalize_unstake(&mut storage, 3, address("node-a")), Ok(4));
}

// The store

#[test]
fn test_storage_starts_empty() {
    let storage = Storage::new(address("admin"));
    assert_eq!(get_admin(&storage), address("admin"));
    assert_eq!(get_node_count(&storage), 0);
    assert_eq!(get_min_stake(&storage), 0);
    assert_eq!(get_stake_lock_period(&storage), 0);
    assert_eq!(get_node(&storage, &address("node-a")), None);
    assert_eq!(get_pending_unstake(&storage, &address("node-a")), None);
}

#[test]
fn test_storage_nodes() {
    let mut storage = Storage::new(address("admin"));
    let node = RelayNode {
        address: address("node-a"),
        stake: 12,
        status: NodeStatus::Inactive,
        metadata: metadata(),
        registered_at: 3,
        last_active: 4,
    };
    let other = RelayNode { address: address("node-b"), stake: 99, ..node.clone() };
    set_node(&mut storage, &address("node-a"), &node);
    set_node(&mut storage, &address("node-b"), &other);
    assert_eq!(get_node(&storage, &address("node-a")), Some(node.clone()));
    assert_eq!(get_node(&storage, &address("node-b")), Some(other.clone()));
    let richer = RelayNode { stake: 13, ..node };
    set_node(&mut storage, &address("node-a"), &richer);
    assert_eq!(get_node(&storage, &address("node-a")), Some(richer));
    assert_eq!(get_node(&storage, &address("node-b")), Some(other.clone()));
    remove_node(&mut storage, &address("node-a"));
    assert_eq!(get_node(&storage, &address("node-a")), None);
    assert_eq!(get_node(&storage, &address("node-b")), Some(other.clone()));
    remove_node(&mut storage, &address("node-a"));
    assert_eq!(get_node(&storage, &address("node-b")), Some(other));
}

#[test]
fn test_storage_pending_unstake() {
    let mut storage = Storage::new(address("admin"));
    let entry = StakeEntry { address: address("node-a"), amount: 5, unlocks_at: 9 };
    set_pending_unstake(&mut storage, &address("node-a"), &entry);
    assert_eq!(get_pending_unstake(&storage, &address("node-a")), Some(entry.clone()));
    assert_eq!(get_pending_unstake(&storage, &address("node-b")), None);
    let later = StakeEntry { unlocks_at: 10, ..entry };
    set_pending_unstake(&mut storage, &address("node-a"), &later);
    assert_eq!(get_pending_unstake(&storage, &address("node-a")), Some(later));
    remove_pending_unstake(&mut storage, &address("node-a"));
    assert_eq!(get_pending_unstake(&storage, &address("node-a")), None);
}

#[test]
fn test_storage_settings_and_counter() {
    let mut storage = Storage::new(address("admin"));
    set_min_stake(&mut storage, 77);
    set_stake_lock_period(&mut storage, 8);
    assert_eq!(increment_node_count(&mut storage), Ok(()));
    assert_eq!(increment_node_count(&mut storage), Ok(()));
    assert_eq!(get_min_stake(&storage), 77);
    assert_eq!(get_stake_lock_period(&storage), 8);
    assert_eq!(get_node_count(&storage), 2);
}

// What holds over a course of operations, on one concrete course

#[test]
fn test_holdings_never_exceed_deposits() {
    let mut storage = registry();
    let who = address("node-a");
    let mut deposits: i128 = 0;
    let holdings = |storage: &Storage| {
        get_node(storage, &address("node-a")).map_or(0, |node| node.stake)
            + get_pending_unstake(storage, &address("node-a")).map_or(0, |entry| entry.amount)
    };
    registered(&mut storage, "node-a", 1);
    deposits += 1000;
    assert_eq!(holdings(&storage), 1000);
    RelayRegistryContract::stake(&mut storage, 2, who.clone(), 400).unwrap();
    deposits += 400;
    assert_eq!(holdings(&storage), deposits);
    RelayRegistryContract::unstake(&mut storage, 3, who.clone(), 700).unwrap();
    assert_eq!(holdings(&storage), deposits);
    assert!(RelayRegistryContract::stake(&mut storage, 4, who.clone(), -3).is_err());
    assert_eq!(holdings(&storage), deposits);
    assert_eq!(RelayRegistryContract::finalize_unstake(&mut storage, 53, who.clone()), Ok(700));
    assert_eq!(holdings(&storage), 700);
    assert!(holdings(&storage) <= deposits);
    RelayRegistryContract::unstake(&mut storage, 60, who.clone(), 100).unwrap();
    RelayRegistryContract::slash(&mut storage, 61, who.clone(), "lost".to_string()).unwrap();
    assert_eq!(holdings(&storage), 0);
    assert!(get_node(&storage, &who).unwrap().stake >= 0);
}

#[test]
fn test_slashed_node_stays_slashed() {
    let mut storage = registry();
    let who = address("node-a");
    registered(&mut storage, "node-a", 1);
    RelayRegistryContract::slash(&mut storage, 2, who.clone(), "lost".to_string()).unwrap();
    let slashed = get_node(&storage, &who);
    assert!(RelayRegistryContract::register(&mut storage, 3, who.clone(), metadata()).is_err());
    assert!(RelayRegistryContract::stake(&mut storage, 4, who.clone(), 5000).is_err());
    assert!(RelayRegistryContract::unstake(&mut storage, 5, who.clone(), 1).is_err());
    assert!(RelayRegistryContract::finalize_unstake(&mut storage, 6, who.clone()).is_err());
    assert!(RelayRegistryContract::slash(&mut storage, 7, who.clone(), "x".to_string()).is_err());
    assert_eq!(get_node(&storage, &who), slashed);
    assert_eq!(get_node(&storage, &who).unwrap().stake, 0);
}
