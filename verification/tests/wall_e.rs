use amax_node::chain_spec::genesis::{
    genesis, AccountId, AuraId, DefaultState, GenesisConfig, GrandpaId,
};
use amax_node::chain_spec::properties::properties;
use amax_node::chain_spec::wall_e::{
    development_config, local_testnet_config, ChainType, WallERuntime, DEV_ACCOUNTS,
};

const UNITS: u128 = 1_000_000_000_000_000_000;

fn runtime(wasm_binary: Option<Vec<u8>>) -> WallERuntime {
    WallERuntime { wasm_binary, ss58_prefix: 1280, units: UNITS }
}

fn accounts() -> Vec<AccountId> {
    (0..DEV_ACCOUNTS as u8).map(|i| AccountId([i + 1; 20])).collect()
}

fn keys(count: u8) -> Vec<(AuraId, GrandpaId)> {
    (0..count).map(|i| (AuraId([i + 10; 32]), GrandpaId([i + 20; 32]))).collect()
}

#[test]
fn properties_describe_the_token() {
    let properties = properties(42);
    assert_eq!(properties.len(), 3);
    assert_eq!(properties.get("tokenSymbol"), Some(&serde_json::Value::from("AMAX")));
    assert_eq!(properties.get("tokenDecimals"), Some(&serde_json::Value::from(18)));
    assert_eq!(properties.get("ss58Format"), Some(&serde_json::Value::from(42)));
}

#[test]
fn properties_carry_the_largest_prefix() {
    assert_eq!(properties(u16::MAX).get("ss58Format"), Some(&serde_json::Value::from(65535)));
}

#[test]
fn ten_development_accounts() {
    assert_eq!(DEV_ACCOUNTS, 10);
}

#[test]
fn development_network() {
    let spec = development_config(runtime(Some(vec![0, 97, 115, 109])), accounts()).unwrap();
    assert_eq!(spec.name, "Wall-e Development");
    assert_eq!(spec.id, "wall_e_dev");
    assert_eq!(spec.chain_type, ChainType::Development);
    assert_eq!(spec.genesis.code, vec![0, 97, 115, 109]);
    assert_eq!(spec.genesis.authority_seeds, vec!["Alice"]);
    assert_eq!(spec.genesis.accounts, accounts());
    assert_eq!(spec.genesis.units, UNITS);
    assert!(spec.boot_nodes.is_empty());
    assert!(spec.telemetry_endpoints.is_none());
    assert!(spec.protocol_id.is_none());
    assert!(spec.fork_id.is_none());
    assert_eq!(spec.properties, Some(properties(1280)));
    assert!(spec.extensions.is_none());
}

#[test]
fn local_test_network() {
    let spec = local_testnet_config(runtime(Some(vec![1])), accounts()).unwrap();
    assert_eq!(spec.name, "Wall-e Local Testnet");
    assert_eq!(spec.id, "wall_e_local_testnet");
    assert_eq!(spec.chain_type, ChainType::Local);
    assert_eq!(spec.genesis.code, vec![1]);
    assert_eq!(spec.genesis.authority_seeds, vec!["Alice", "Bob"]);
    assert_eq!(spec.genesis.accounts, accounts());
    assert!(spec.boot_nodes.is_empty());
    assert!(spec.telemetry_endpoints.is_none());
    assert!(spec.protocol_id.is_none());
    assert!(spec.fork_id.is_none());
    assert_eq!(spec.properties, Some(properties(1280)));
    assert!(spec.extensions.is_none());
}

#[test]
fn no_network_without_a_runtime() {
    let development = development_config(runtime(None), accounts());
    assert_eq!(development.unwrap_err(), "Development wasm not available");
    let local = local_testnet_config(runtime(None), accounts());
    assert_eq!(local.unwrap_err(), "Development wasm not available");
}

#[test]
fn an_empty_runtime_is_a_runtime() {
    assert!(development_config(runtime(Some(vec![])), accounts()).is_ok());
}

#[test]
fn networks_are_told_apart() {
    let development = development_config(runtime(Some(vec![1])), accounts()).unwrap();
    let local = local_testnet_config(runtime(Some(vec![1])), accounts()).unwrap();
    assert_ne!(development.id, local.id);
    assert_ne!(development.name, local.name);
    assert_eq!(development.properties, local.properties);
    assert_eq!(development.genesis.accounts, local.genesis.accounts);
    assert_eq!(local.genesis.authority_seeds[0], development.genesis.authority_seeds[0]);
    assert_eq!(local.genesis.authority_seeds.len(), development.genesis.authority_seeds.len() + 1);
}

#[test]
fn every_account_is_endowed_alike() {
    let spec = development_config(runtime(Some(vec![1])), accounts()).unwrap();
    let state = spec.build_genesis(keys(1));
    assert_eq!(state.balances.balances.len(), 10);
    for (i, (account, balance)) in state.balances.balances.iter().enumerate() {
        assert_eq!(*account, accounts()[i]);
        assert_eq!(*balance, 100_000_000_000_000_000_000_000);
    }
    let total: u128 = state.balances.balances.iter().map(|(_, balance)| balance).sum();
    assert_eq!(total, 10 * 100_000 * UNITS);
}

#[test]
fn the_first_account_administers_and_is_endowed() {
    let spec = local_testnet_config(runtime(Some(vec![1])), accounts()).unwrap();
    let state = spec.build_genesis(keys(2));
    assert_eq!(state.sudo.key, Some(AccountId([1; 20])));
    assert!(state.balances.balances.contains(&(AccountId([1; 20]), 100_000 * UNITS)));
}

#[test]
fn authorities_author_and_vote() {
    let spec = local_testnet_config(runtime(Some(vec![7, 8])), accounts()).unwrap();
    let state = spec.build_genesis(keys(2));
    assert_eq!(state.system.code, vec![7, 8]);
    assert_eq!(state.aura.authorities, vec![AuraId([10; 32]), AuraId([11; 32])]);
    assert_eq!(
        state.grandpa.authorities,
        vec![(GrandpaId([20; 32]), 1), (GrandpaId([21; 32]), 1)]
    );
    let votes: u64 = state.grandpa.authorities.iter().map(|(_, weight)| weight).sum();
    assert_eq!(votes, 2);
}

#[test]
fn the_largest_endowment_can_be_counted() {
    let runtime =
        WallERuntime { wasm_binary: Some(vec![1]), ss58_prefix: 0, units: u128::MAX / 100_000 };
    let spec = development_config(runtime, vec![AccountId([9; 20])]).unwrap();
    let state = spec.build_genesis(keys(1));
    assert_eq!(state.balances.balances[0].1, (u128::MAX / 100_000) * 100_000);
}

#[test]
fn genesis_takes_what_it_is_given() {
    let state: GenesisConfig = genesis(
        &[5, 6],
        vec![(AuraId([1; 32]), GrandpaId([2; 32]))],
        AccountId([3; 20]),
        vec![(AccountId([4; 20]), 5), (AccountId([6; 20]), 7)],
        false,
    );
    assert_eq!(state.system.code, vec![5, 6]);
    assert_eq!(state.balances.balances, vec![(AccountId([4; 20]), 5), (AccountId([6; 20]), 7)]);
    assert_eq!(state.aura.authorities, vec![AuraId([1; 32])]);
    assert_eq!(state.grandpa.authorities, vec![(GrandpaId([2; 32]), 1)]);
    assert_eq!(state.sudo.key, Some(AccountId([3; 20])));
    assert_eq!(state.transaction_payment, DefaultState);
    assert_eq!(state.technical_committee, DefaultState);
    assert_eq!(state.technical_committee_membership, DefaultState);
    assert_eq!(state.evm, DefaultState);
    assert_eq!(state.ethereum, DefaultState);
    assert_eq!(state.base_fee, DefaultState);
}

#[test]
fn genesis_without_authorities_or_balances() {
    let state = genesis(&[], vec![], AccountId([0; 20]), vec![], true);
    assert!(state.system.code.is_empty());
    assert!(state.balances.balances.is_empty());
    assert!(state.aura.authorities.is_empty());
    assert!(state.grandpa.authorities.is_empty());
    assert_eq!(state.sudo.key, Some(AccountId([0; 20])));
}
