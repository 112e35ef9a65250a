//! The Wall-e networks.

use vstd::prelude::*;

use crate::chain_spec::genesis::{
    genesis, genesis_state, total_issuance, AccountId, AuraId, Balance, GenesisConfig, GenesisView,
    GrandpaId,
};
use crate::chain_spec::properties::{
    law_properties_keep_apart, properties, properties_view, token_properties, Properties, PropertyView,
};

verus! {

/// How many development accounts a network is given.
pub const DEV_ACCOUNTS: u32 = 10;

/// How many tokens each development account starts with.
pub const ENDOWMENT: u128 = 100_000;

/// Why there is no network without a runtime.
pub const WASM_UNAVAILABLE: &'static str = "Development wasm not available";

/// What a network takes from the Wall-e runtime.
#[derive(Debug)]
pub struct WallERuntime {
    /// The code of the runtime, where it was built.
    pub wasm_binary: Option<Vec<u8>>,
    /// The prefix of the addresses.
    pub ss58_prefix: u16,
    /// The smallest units that make up one token.
    pub units: Balance,
}

/// What a network is for.
#[derive(Debug, Clone, Copy, PartialEq, Eq, Structural)]
pub enum ChainType {
    /// Development on one machine.
    Development,
    /// Tests on one machine.
    Local,
}

/// What the first state of a network is built from.
#[derive(Debug)]
pub struct GenesisSource {
    /// The code of the runtime.
    pub code: Vec<u8>,
    /// The seeds that the keys of the authorities are derived from.
    pub authority_seeds: Vec<&'static str>,
    /// The accounts that own tokens; the first one administers the network.
    pub accounts: Vec<AccountId>,
    /// The smallest units that make up one token.
    pub units: Balance,
}

/// A network.
#[derive(Debug)]
pub struct ChainSpec {
    pub name: &'static str,
    pub id: &'static str,
    pub chain_type: ChainType,
    pub genesis: GenesisSource,
    pub boot_nodes: Vec<String>,
    pub telemetry_endpoints: Option<Vec<(String, u8)>>,
    pub protocol_id: Option<String>,
    pub fork_id: Option<String>,
    pub properties: Option<Properties>,
    pub extensions: Option<()>,
}

/// A network, as contracts speak of it.
pub struct ChainSpecView {
    pub name: Seq<char>,
    pub id: Seq<char>,
    pub chain_type: ChainType,
    pub code: Seq<u8>,
    pub authority_seeds: Seq<Seq<char>>,
    pub accounts: Seq<AccountId>,
    pub units: Balance,
    pub boot_nodes: Seq<String>,
    pub telemetry_endpoints: Option<Vec<(String, u8)>>,
    pub protocol_id: Option<String>,
    pub fork_id: Option<String>,
    pub properties: Option<Map<Seq<char>, PropertyView>>,
    pub extensions: Option<()>,
}

impl View for ChainSpec {
    type V = ChainSpecView;

    open spec fn view(&self) -> ChainSpecView {
        ChainSpecView {
            name: self.name@,
            id: self.id@,
            chain_type: self.chain_type,
            code: self.genesis.code@,
            authority_seeds: self.genesis.authority_seeds@.map_values(|seed: &'static str| seed@),
            accounts: self.genesis.accounts@,
            units: self.genesis.units,
            boot_nodes: self.boot_nodes@,
            telemetry_endpoints: self.telemetry_endpoints,
            protocol_id: self.protocol_id,
            fork_id: self.fork_id,
            properties: match self.properties {
                Some(properties) => Some(properties_view(properties)),
                None => None,
            },
            extensions: self.extensions,
        }
    }
}

/// A Wall-e network: no boot nodes, no telemetry, no protocol of its own.
pub open spec fn network(
    name: Seq<char>,
    id: Seq<char>,
    chain_type: ChainType,
    authority_seeds: Seq<Seq<char>>,
    runtime: WallERuntime,
    accounts: Seq<AccountId>,
) -> ChainSpecView {
    ChainSpecView {
        name,
        id,
        chain_type,
        code: runtime.wasm_binary->0@,
        authority_seeds,
        accounts,
        units: runtime.units,
        boot_nodes: seq![],
        telemetry_endpoints: None,
        protocol_id: None,
        fork_id: None,
        properties: Some(token_properties(runtime.ss58_prefix as nat)),
        extensions: None,
    }
}

/// The development network, whose one authority is Alice.
pub open spec fn development_network(
    runtime: WallERuntime,
    accounts: Seq<AccountId>,
) -> ChainSpecView {
    network(
        "Wall-e Development"@,
        "wall_e_dev"@,
        ChainType::Development,
        seq!["Alice"@],
        runtime,
        accounts,
    )
}

/// The local test network, whose authorities are Alice and Bob.
pub open spec fn local_test_network(
    runtime: WallERuntime,
    accounts: Seq<AccountId>,
) -> ChainSpecView {
    network(
        "Wall-e Local Testnet"@,
        "wall_e_local_testnet"@,
        ChainType::Local,
        seq!["Alice"@, "Bob"@],
        runtime,
        accounts,
    )
}

/// A Wall-e network, where the runtime was built.
fn wall_e_config(
    name: &'static str,
    id: &'static str,
    chain_type: ChainType,
    authority_seeds: Vec<&'static str>,
    runtime: WallERuntime,
    accounts: Vec<AccountId>,
) -> (r: Result<ChainSpec, String>)
    ensures
        r is Ok <==> runtime.wasm_binary is Some,
        r is Ok ==> r->Ok_0@ == network(
            name@,
            id@,
            chain_type,
            authority_seeds@.map_values(|seed: &'static str| seed@),
            runtime,
            accounts@,
        ),
        r is Err ==> r->Err_0@ == WASM_UNAVAILABLE@,
{
    let code = match runtime.wasm_binary {
        Some(code) => code,
        None => return Err(WASM_UNAVAILABLE.to_owned()),
    };
    let boot_nodes: Vec<String> = Vec::new();
    assert(boot_nodes@ =~= seq![]);
    Ok(
        ChainSpec {
            name,
            id,
            chain_type,
            genesis: GenesisSource { code, authority_seeds, accounts, units: runtime.units },
            boot_nodes,
            telemetry_endpoints: None,
            protocol_id: None,
            fork_id: None,
            properties: Some(properties(runtime.ss58_prefix)),
            extensions: None,
        },
    )
}

/// The development network with these accounts, where the runtime was built.
pub fn development_config(runtime: WallERuntime, accounts: Vec<AccountId>) -> (r: Result<
    ChainSpec,
    String,
>)
    ensures
        r is Ok <==> runtime.wasm_binary is Some,
        r is Ok ==> r->Ok_0@ == development_network(runtime, accounts@),
        r is Err ==> r->Err_0@ == WASM_UNAVAILABLE@,
        r is Err ==> r->Err_0@ == "Development wasm not available"@,
{
    let authority_seeds = vec!["Alice"];
    assert(authority_seeds@.map_values(|seed: &'static str| seed@) =~= seq!["Alice"@]);
    wall_e_config(
        "Wall-e Development",
        "wall_e_dev",
        ChainType::Development,
        authority_seeds,
        runtime,
        accounts,
    )
}

/// The local test network with these accounts, where the runtime was built.
pub fn local_testnet_config(runtime: WallERuntime, accounts: Vec<AccountId>) -> (r: Result<
    ChainSpec,
    String,
>)
    ensures
        r is Ok <==> runtime.wasm_binary is Some,
        r is Ok ==> r->Ok_0@ == local_test_network(runtime, accounts@),
        r is Err ==> r->Err_0@ == WASM_UNAVAILABLE@,
        r is Err ==> r->Err_0@ == "Development wasm not available"@,
{
    let authority_seeds = vec!["Alice", "Bob"];
    assert(authority_seeds@.map_values(|seed: &'static str| seed@) =~= seq!["Alice"@, "Bob"@]);
    wall_e_config(
        "Wall-e Local Testnet",
        "wall_e_local_testnet",
        ChainType::Local,
        authority_seeds,
        runtime,
        accounts,
    )
}

impl ChainSpecView {
    /// What each account starts with.
    pub open spec fn endowment(self) -> int {
        ENDOWMENT * self.units
    }

    /// Who owns what at first: every account the same.
    pub open spec fn endowed(self) -> Seq<(AccountId, Balance)> {
        self.accounts.map_values(|account: AccountId| (account, self.endowment() as u128))
    }

    /// Whether a first state can be built: some account administers the network,
    /// and what an account starts with can be counted.
    pub open spec fn can_start(self) -> bool {
        self.accounts.len() > 0 && self.endowment() <= u128::MAX
    }

    /// The first state, for the keys that were derived from the seeds.
    pub open spec fn first_state(self, authorities: Seq<(AuraId, GrandpaId)>) -> GenesisView {
        genesis_state(self.code, authorities, self.accounts[0], self.endowed())
    }
}

impl ChainSpec {
    /// The first state of the network. `authorities` are the keys derived from
    /// the seeds of the authorities, one pair for each.
    pub fn build_genesis(&self, authorities: Vec<(AuraId, GrandpaId)>) -> (state: GenesisConfig)
        requires
            self@.can_start(),
            authorities@.len() == self@.authority_seeds.len(),
        ensures
            state@ == self@.first_state(authorities@),
    {
        let accounts = &self.genesis.accounts;
        let endowment: u128 = ENDOWMENT * self.genesis.units;
        let mut endowed: Vec<(AccountId, Balance)> = Vec::new();
        for i in 0..accounts.len()
            invariant
                accounts@ == self@.accounts,
                endowment == self@.endowment(),
                endowed@.len() == i,
                forall|j: int| 0 <= j < i ==> endowed@[j] == (accounts@[j], endowment),
        {
            endowed.push((accounts[i], endowment));
        }
        assert(endowed@ =~= self@.endowed());
        genesis(self.genesis.code.as_slice(), authorities, accounts[0], endowed, true)
    }
}

/// Every account starts with the same: together they own as many endowments as
/// there are accounts.
pub proof fn law_total_issuance(network: ChainSpecView, authorities: Seq<(AuraId, GrandpaId)>)
    requires
        network.can_start(),
    ensures
        total_issuance(network.first_state(authorities).balances) == network.accounts.len()
            * network.endowment(),
{
    lemma_equal_shares(network.accounts, network.endowment() as u128);
}

proof fn lemma_equal_shares(accounts: Seq<AccountId>, share: u128)
    ensures
        total_issuance(accounts.map_values(|account: AccountId| (account, share)))
            == accounts.len() * share,
    decreases accounts.len(),
{
    let shares = accounts.map_values(|account: AccountId| (account, share));
    if accounts.len() > 0 {
        let fewer = accounts.drop_last();
        lemma_equal_shares(fewer, share);
        assert(shares.drop_last() =~= fewer.map_values(|account: AccountId| (account, share)));
        assert(fewer.len() == accounts.len() - 1);
        assert(accounts.len() * share == (accounts.len() - 1) * share + share) by (nonlinear_arith);
        assert(shares.last().1 == share);
    } else {
        assert(accounts.len() * share == 0) by (nonlinear_arith)
            requires
                accounts.len() == 0,
        ;
    }
}

/// The account that administers the network owns tokens like every other.
pub proof fn law_administrator_is_endowed(
    network: ChainSpecView,
    authorities: Seq<(AuraId, GrandpaId)>,
)
    requires
        network.can_start(),
    ensures
        ({
            let state = network.first_state(authorities);
            &&& state.sudo_key is Some
            &&& state.balances.contains((state.sudo_key->0, network.endowment() as u128))
        }),
{
    let state = network.first_state(authorities);
    assert(state.balances[0] == (state.sudo_key->0, network.endowment() as u128));
}

/// The two networks are told apart by name and identifier, and differ in
/// nothing else but what they are for and who has authority.
pub proof fn law_networks_are_told_apart(runtime: WallERuntime, accounts: Seq<AccountId>)
    ensures
        ({
            let development = development_network(runtime, accounts);
            let local = local_test_network(runtime, accounts);
            &&& development.name != local.name
            &&& development.id != local.id
            &&& development == (ChainSpecView {
                name: development.name,
                id: development.id,
                chain_type: development.chain_type,
                authority_seeds: development.authority_seeds,
                ..local
            })
        }),
{
    reveal_strlit("Wall-e Development");
    reveal_strlit("Wall-e Local Testnet");
    reveal_strlit("wall_e_dev");
    reveal_strlit("wall_e_local_testnet");
    assert("Wall-e Development"@.len() != "Wall-e Local Testnet"@.len());
    assert("wall_e_dev"@.len() != "wall_e_local_testnet"@.len());
}

/// The local test network keeps the authority of the development network and
/// adds one.
pub proof fn law_local_network_adds_an_authority(runtime: WallERuntime, accounts: Seq<AccountId>)
    ensures
        local_test_network(runtime, accounts).authority_seeds == development_network(
            runtime,
            accounts,
        ).authority_seeds.push("Bob"@),
{
    assert(local_test_network(runtime, accounts).authority_seeds =~= development_network(
        runtime,
        accounts,
    ).authority_seeds.push("Bob"@));
}

/// A network takes from the runtime its code, whole, the units of its token and
/// the prefix of its addresses, and it takes all accounts in their order.
pub proof fn law_network_takes_over_its_runtime(runtime: WallERuntime, accounts: Seq<AccountId>)
    requires
        runtime.wasm_binary is Some,
    ensures
        development_network(runtime, accounts).code == runtime.wasm_binary->0@,
        local_test_network(runtime, accounts).code == runtime.wasm_binary->0@,
        development_network(runtime, accounts).units == runtime.units,
        local_test_network(runtime, accounts).units == runtime.units,
        development_network(runtime, accounts).accounts == accounts,
        local_test_network(runtime, accounts).accounts == accounts,
        development_network(runtime, accounts).properties matches Some(properties)
            && properties["ss58Format"@] == PropertyView::Number(runtime.ss58_prefix as nat)
            && properties["tokenSymbol"@] == PropertyView::Text("AMAX"@)
            && properties["tokenDecimals"@] == PropertyView::Number(18)
            && properties.dom() == set!["tokenSymbol"@, "tokenDecimals"@, "ss58Format"@],
        local_test_network(runtime, accounts).properties == development_network(
            runtime,
            accounts,
        ).properties,
{
    law_properties_keep_apart(runtime.ss58_prefix as nat);
}

/// The networks go by their names and identifiers, are for development and for
/// local tests, and are authored by Alice, with Bob on the test network. Neither
/// depends on the runtime or on the accounts.
pub proof fn law_networks_are_what_they_are_called(
    runtime: WallERuntime,
    accounts: Seq<AccountId>,
)
    ensures
        development_network(runtime, accounts).name == "Wall-e Development"@,
        development_network(runtime, accounts).id == "wall_e_dev"@,
        development_network(runtime, accounts).chain_type is Development,
        development_network(runtime, accounts).authority_seeds == seq!["Alice"@],
        local_test_network(runtime, accounts).name == "Wall-e Local Testnet"@,
        local_test_network(runtime, accounts).id == "wall_e_local_testnet"@,
        local_test_network(runtime, accounts).chain_type is Local,
        local_test_network(runtime, accounts).authority_seeds == seq!["Alice"@, "Bob"@],
{
}

/// The networks stand alone: nobody is told to connect to them, they report to no
/// telemetry server, and they have no protocol, fork or extension of their own.
pub proof fn law_networks_stand_alone(runtime: WallERuntime, accounts: Seq<AccountId>)
    ensures
        development_network(runtime, accounts).boot_nodes.len() == 0,
        development_network(runtime, accounts).telemetry_endpoints is None,
        development_network(runtime, accounts).protocol_id is None,
        development_network(runtime, accounts).fork_id is None,
        development_network(runtime, accounts).extensions is None,
        local_test_network(runtime, accounts).boot_nodes.len() == 0,
        local_test_network(runtime, accounts).telemetry_endpoints is None,
        local_test_network(runtime, accounts).protocol_id is None,
        local_test_network(runtime, accounts).fork_id is None,
        local_test_network(runtime, accounts).extensions is None,
{
}

/// The first state of a network runs the code of the network, byte for byte, and
/// its authorities are those whose keys were derived.
pub proof fn law_first_state_runs_the_network(
    network: ChainSpecView,
    authorities: Seq<(AuraId, GrandpaId)>,
    i: int,
)
    requires
        network.can_start(),
    ensures
        network.first_state(authorities).code == network.code,
        network.first_state(authorities).aura_authorities.len() == authorities.len(),
        network.first_state(authorities).grandpa_authorities.len() == authorities.len(),
        0 <= i < authorities.len() ==> network.first_state(authorities).aura_authorities[i]
            == authorities[i].0,
        0 <= i < authorities.len() ==> network.first_state(authorities).grandpa_authorities[i] == (
            authorities[i].1,
            1u64,
        ),
{
}

/// Every account of a network, and nobody else, starts with 100 000 tokens, and
/// the first account administers the network.
pub proof fn law_every_account_is_endowed(
    network: ChainSpecView,
    authorities: Seq<(AuraId, GrandpaId)>,
    i: int,
)
    requires
        network.can_start(),
    ensures
        network.first_state(authorities).balances.len() == network.accounts.len(),
        0 <= i < network.accounts.len() ==> network.first_state(authorities).balances[i].0
            == network.accounts[i],
        0 <= i < network.accounts.len() ==> network.first_state(authorities).balances[i].1
            == 100_000 * network.units,
        network.first_state(authorities).sudo_key == Some(network.accounts.first()),
{
}

/// A network starts as soon as somebody can administer it and 100 000 tokens can
/// be counted in its units.
pub proof fn law_network_can_start(network: ChainSpecView)
    ensures
        network.can_start() <==> network.accounts.len() > 0 && 100_000 * network.units
            <= u128::MAX,
{
}

/// The view of a network shows each of its parts whole.
pub proof fn law_view_shows_the_network(spec: ChainSpec, i: int)
    ensures
        spec@.name == spec.name@,
        spec@.id == spec.id@,
        spec@.chain_type == spec.chain_type,
        spec@.code == spec.genesis.code@,
        spec@.authority_seeds.len() == spec.genesis.authority_seeds@.len(),
        0 <= i < spec.genesis.authority_seeds@.len() ==> spec@.authority_seeds[i]
            == spec.genesis.authority_seeds@[i]@,
        spec@.accounts == spec.genesis.accounts@,
        spec@.units == spec.genesis.units,
        spec@.boot_nodes == spec.boot_nodes@,
        spec@.telemetry_endpoints == spec.telemetry_endpoints,
        spec@.protocol_id == spec.protocol_id,
        spec@.fork_id == spec.fork_id,
        spec@.properties is Some <==> spec.properties is Some,
        spec.properties is Some ==> spec@.properties->0 == properties_view(spec.properties->0),
        spec@.extensions == spec.extensions,
{
}

/// A runtime is all that a network needs. With one, both networks take over its
/// code whole, its units and all accounts; without one, neither exists, for the
/// same reason.
pub proof fn law_runtime_makes_the_networks(
    runtime: WallERuntime,
    accounts: Vec<AccountId>,
    development: Result<ChainSpec, String>,
    local: Result<ChainSpec, String>,
)
    requires
        call_ensures(development_config, (runtime, accounts), development),
        call_ensures(local_testnet_config, (runtime, accounts), local),
    ensures
        runtime.wasm_binary matches Some(code) ==> {
            &&& development matches Ok(spec) && spec.genesis.code@ == code@ && spec.genesis.accounts@
                == accounts@ && spec.genesis.units == runtime.units
            &&& local matches Ok(spec) && spec.genesis.code@ == code@ && spec.genesis.accounts@
                == accounts@ && spec.genesis.units == runtime.units
        },
        runtime.wasm_binary is None ==> {
            &&& development matches Err(reason) && reason@ == "Development wasm not available"@
            &&& local matches Err(reason) && reason@ == "Development wasm not available"@
        },
        development matches Ok(spec) ==> spec.name@ == "Wall-e Development"@ && spec.id@
            == "wall_e_dev"@ && spec.chain_type is Development,
        local matches Ok(spec) ==> spec.name@ == "Wall-e Local Testnet"@ && spec.id@
            == "wall_e_local_testnet"@ && spec.chain_type is Local,
{
    law_networks_are_what_they_are_called(runtime, accounts@);
    if runtime.wasm_binary is Some {
        law_network_takes_over_its_runtime(runtime, accounts@);
        law_view_shows_the_network(development->Ok_0, 0);
        law_view_shows_the_network(local->Ok_0, 0);
    }
}

/// The first state that is built of a network runs its code, endows each of its
/// accounts with 100 000 tokens, gives authority to the given keys and is
/// administered by the first account.
pub proof fn law_built_state_is_that_of_the_network(
    spec: &ChainSpec,
    authorities: Vec<(AuraId, GrandpaId)>,
    state: GenesisConfig,
    i: int,
)
    requires
        spec@.can_start(),
        authorities@.len() == spec@.authority_seeds.len(),
        call_ensures(ChainSpec::build_genesis, (spec, authorities), state),
    ensures
        state.system.code@ == spec.genesis.code@,
        state.balances.balances@.len() == spec.genesis.accounts@.len(),
        0 <= i < spec.genesis.accounts@.len() ==> state.balances.balances@[i].0
            == spec.genesis.accounts@[i] && state.balances.balances@[i].1 == 100_000
            * spec.genesis.units,
        state.aura.authorities@.len() == authorities@.len(),
        state.grandpa.authorities@.len() == authorities@.len(),
        0 <= i < authorities@.len() ==> state.aura.authorities@[i] == authorities@[i].0
            && state.grandpa.authorities@[i] == (authorities@[i].1, 1u64),
        state.sudo.key == Some(spec.genesis.accounts@.first()),
{
    law_view_shows_the_network(*spec, 0);
    law_every_account_is_endowed(spec@, authorities@, i);
    law_first_state_runs_the_network(spec@, authorities@, i);
    assert(state@.aura_authorities == state.aura.authorities@);
    assert(state@.grandpa_authorities == state.grandpa.authorities@);
    assert(state@.balances == state.balances.balances@);
}

} // verus!
