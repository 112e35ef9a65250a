//! The state that a chain starts from.

use vstd::prelude::*;
use vstd::slice::slice_to_vec;

verus! {

/// An amount of the token, in its smallest unit.
pub type Balance = u128;

/// An account.
#[derive(Debug, Clone, Copy, PartialEq, Eq)]
pub struct AccountId(pub [u8; 20]);

/// The key by which an authority authors blocks.
#[derive(Debug, Clone, Copy, PartialEq, Eq)]
pub struct AuraId(pub [u8; 32]);

/// The key by which an authority votes on finality.
#[derive(Debug, Clone, Copy, PartialEq, Eq)]
pub struct GrandpaId(pub [u8; 32]);

/// The weight that every authority has in the vote on finality.
pub const AUTHORITY_WEIGHT: u64 = 1;

/// The code of the runtime.
#[derive(Debug)]
pub struct SystemConfig {
    pub code: Vec<u8>,
}

/// The balances that accounts start with.
#[derive(Debug)]
pub struct BalancesConfig {
    pub balances: Vec<(AccountId, Balance)>,
}

/// The authorities that author blocks.
#[derive(Debug)]
pub struct AuraConfig {
    pub authorities: Vec<AuraId>,
}

/// The authorities that vote on finality, each with its weight.
#[derive(Debug)]
pub struct GrandpaConfig {
    pub authorities: Vec<(GrandpaId, u64)>,
}

/// The account with the rights of the network's administrator.
#[derive(Debug)]
pub struct SudoConfig {
    pub key: Option<AccountId>,
}

/// A pallet that starts from its default state.
#[derive(Debug, Clone, Copy, PartialEq, Eq, Structural)]
pub struct DefaultState;

/// The state that a chain starts from.
#[derive(Debug)]
pub struct GenesisConfig {
    pub system: SystemConfig,
    pub balances: BalancesConfig,
    pub transaction_payment: DefaultState,
    pub aura: AuraConfig,
    pub grandpa: GrandpaConfig,
    pub technical_committee: DefaultState,
    pub technical_committee_membership: DefaultState,
    pub evm: DefaultState,
    pub ethereum: DefaultState,
    pub base_fee: DefaultState,
    pub sudo: SudoConfig,
}

/// The state that a chain starts from, as contracts speak of it. The pallets
/// that it does not mention start from their default state.
pub struct GenesisView {
    pub code: Seq<u8>,
    pub balances: Seq<(AccountId, Balance)>,
    pub aura_authorities: Seq<AuraId>,
    pub grandpa_authorities: Seq<(GrandpaId, u64)>,
    pub sudo_key: Option<AccountId>,
}

impl View for GenesisConfig {
    type V = GenesisView;

    open spec fn view(&self) -> GenesisView {
        GenesisView {
            code: self.system.code@,
            balances: self.balances.balances@,
            aura_authorities: self.aura.authorities@,
            grandpa_authorities: self.grandpa.authorities@,
            sudo_key: self.sudo.key,
        }
    }
}

/// The state in which `authorities` author blocks and vote with equal weight,
/// `endowed` says who owns what, and `root_key` administers the network.
pub open spec fn genesis_state(
    code: Seq<u8>,
    authorities: Seq<(AuraId, GrandpaId)>,
    root_key: AccountId,
    endowed: Seq<(AccountId, Balance)>,
) -> GenesisView {
    GenesisView {
        code,
        balances: endowed,
        aura_authorities: authorities.map_values(|keys: (AuraId, GrandpaId)| keys.0),
        grandpa_authorities: authorities.map_values(
            |keys: (AuraId, GrandpaId)| (keys.1, AUTHORITY_WEIGHT),
        ),
        sudo_key: Some(root_key),
    }
}

/// The state that a chain starts from.
pub fn genesis(
    wasm_binary: &[u8],
    initial_authorities: Vec<(AuraId, GrandpaId)>,
    root_key: AccountId,
    endowed: Vec<(AccountId, Balance)>,
    _enable_println: bool,
) -> (state: GenesisConfig)
    ensures
        state@ == genesis_state(wasm_binary@, initial_authorities@, root_key, endowed@),
        state.system.code@ == wasm_binary@,
        state.balances.balances@ == endowed@,
        state.sudo.key == Some(root_key),
{
    let mut aura: Vec<AuraId> = Vec::new();
    let mut grandpa: Vec<(GrandpaId, u64)> = Vec::new();
    for i in 0..initial_authorities.len()
        invariant
            aura@ =~= initial_authorities@.take(i as int).map_values(
                |keys: (AuraId, GrandpaId)| keys.0,
            ),
            grandpa@ =~= initial_authorities@.take(i as int).map_values(
                |keys: (AuraId, GrandpaId)| (keys.1, AUTHORITY_WEIGHT),
            ),
    {
        let keys = initial_authorities[i];
        aura.push(keys.0);
        grandpa.push((keys.1, AUTHORITY_WEIGHT));
    }
    assert(initial_authorities@.take(initial_authorities@.len() as int) =~= initial_authorities@);
    GenesisConfig {
        system: SystemConfig { code: slice_to_vec(wasm_binary) },
        balances: BalancesConfig { balances: endowed },
        transaction_payment: DefaultState,
        aura: AuraConfig { authorities: aura },
        grandpa: GrandpaConfig { authorities: grandpa },
        technical_committee: DefaultState,
        technical_committee_membership: DefaultState,
        evm: DefaultState,
        ethereum: DefaultState,
        base_fee: DefaultState,
        sudo: SudoConfig { key: Some(root_key) },
    }
}

/// What all accounts own together.
pub open spec fn total_issuance(balances: Seq<(AccountId, Balance)>) -> nat
    decreases balances.len(),
{
    if balances.len() == 0 {
        0
    } else {
        total_issuance(balances.drop_last()) + balances.last().1 as nat
    }
}

/// The weight of all votes together.
pub open spec fn total_weight(authorities: Seq<(GrandpaId, u64)>) -> nat
    decreases authorities.len(),
{
    if authorities.len() == 0 {
        0
    } else {
        total_weight(authorities.drop_last()) + authorities.last().1 as nat
    }
}

/// Every authority both authors blocks and votes: the two lists go together,
/// key by key.
pub proof fn law_authorities_author_and_vote(
    code: Seq<u8>,
    authorities: Seq<(AuraId, GrandpaId)>,
    root_key: AccountId,
    endowed: Seq<(AccountId, Balance)>,
    i: int,
)
    requires
        0 <= i < authorities.len(),
    ensures
        ({
            let state = genesis_state(code, authorities, root_key, endowed);
            &&& state.aura_authorities.len() == authorities.len()
            &&& state.grandpa_authorities.len() == authorities.len()
            &&& (state.aura_authorities[i], state.grandpa_authorities[i].0) == authorities[i]
        }),
{
}

/// Every authority has one vote: the votes weigh as much as there are
/// authorities.
pub proof fn law_one_authority_one_vote(
    code: Seq<u8>,
    authorities: Seq<(AuraId, GrandpaId)>,
    root_key: AccountId,
    endowed: Seq<(AccountId, Balance)>,
)
    ensures
        total_weight(genesis_state(code, authorities, root_key, endowed).grandpa_authorities)
            == authorities.len(),
    decreases authorities.len(),
{
    let votes = genesis_state(code, authorities, root_key, endowed).grandpa_authorities;
    if authorities.len() > 0 {
        let fewer = authorities.drop_last();
        law_one_authority_one_vote(code, fewer, root_key, endowed);
        assert(votes.drop_last() =~= genesis_state(
            code,
            fewer,
            root_key,
            endowed,
        ).grandpa_authorities);
    }
}

/// A chain starts from the runtime it is given, byte for byte and whatever its
/// length.
pub proof fn law_runtime_is_kept_whole(
    code: Seq<u8>,
    authorities: Seq<(AuraId, GrandpaId)>,
    root_key: AccountId,
    endowed: Seq<(AccountId, Balance)>,
    i: int,
)
    ensures
        genesis_state(code, authorities, root_key, endowed).code.len() == code.len(),
        0 <= i < code.len() ==> genesis_state(code, authorities, root_key, endowed).code[i]
            == code[i],
{
}

/// Balances are neither added, dropped, merged nor changed, and come in the order
/// they are given in.
pub proof fn law_balances_are_kept(
    code: Seq<u8>,
    authorities: Seq<(AuraId, GrandpaId)>,
    root_key: AccountId,
    endowed: Seq<(AccountId, Balance)>,
    i: int,
)
    ensures
        genesis_state(code, authorities, root_key, endowed).balances.len() == endowed.len(),
        0 <= i < endowed.len() ==> genesis_state(code, authorities, root_key, endowed).balances[i]
            == endowed[i],
        total_issuance(genesis_state(code, authorities, root_key, endowed).balances)
            == total_issuance(endowed),
{
}

/// The root key administers the network, whoever owns tokens or has authority.
pub proof fn law_root_key_administers(
    code: Seq<u8>,
    authorities: Seq<(AuraId, GrandpaId)>,
    root_key: AccountId,
    endowed: Seq<(AccountId, Balance)>,
)
    ensures
        genesis_state(code, authorities, root_key, endowed).sudo_key == Some(root_key),
{
}

/// Each vote weighs one, and there is a vote for each authority and no other.
pub proof fn law_each_vote_weighs_one(
    code: Seq<u8>,
    authorities: Seq<(AuraId, GrandpaId)>,
    root_key: AccountId,
    endowed: Seq<(AccountId, Balance)>,
    i: int,
)
    ensures
        genesis_state(code, authorities, root_key, endowed).grandpa_authorities.len()
            == authorities.len(),
        genesis_state(code, authorities, root_key, endowed).aura_authorities.len()
            == authorities.len(),
        0 <= i < authorities.len() ==> genesis_state(
            code,
            authorities,
            root_key,
            endowed,
        ).grandpa_authorities[i].1 == 1,
{
}

/// Nothing that a chain starts from gets lost: equal first states come from the
/// same runtime, authorities, administrator and balances.
pub proof fn law_first_state_tells_its_sources(
    code: Seq<u8>,
    authorities: Seq<(AuraId, GrandpaId)>,
    root_key: AccountId,
    endowed: Seq<(AccountId, Balance)>,
    other_code: Seq<u8>,
    other_authorities: Seq<(AuraId, GrandpaId)>,
    other_root_key: AccountId,
    other_endowed: Seq<(AccountId, Balance)>,
)
    requires
        genesis_state(code, authorities, root_key, endowed) == genesis_state(
            other_code,
            other_authorities,
            other_root_key,
            other_endowed,
        ),
    ensures
        code == other_code,
        authorities == other_authorities,
        root_key == other_root_key,
        endowed == other_endowed,
{
    let state = genesis_state(code, authorities, root_key, endowed);
    let other = genesis_state(other_code, other_authorities, other_root_key, other_endowed);
    assert(state.aura_authorities.len() == authorities.len());
    assert(other.aura_authorities.len() == other_authorities.len());
    assert forall|i: int| 0 <= i < authorities.len() implies authorities[i]
        == other_authorities[i] by {
        assert(state.aura_authorities[i] == other.aura_authorities[i]);
        assert(state.grandpa_authorities[i] == other.grandpa_authorities[i]);
        assert(state.aura_authorities[i] == authorities[i].0);
        assert(state.grandpa_authorities[i].0 == authorities[i].1);
        assert(other.aura_authorities[i] == other_authorities[i].0);
        assert(other.grandpa_authorities[i].0 == other_authorities[i].1);
    }
    assert(authorities =~= other_authorities);
}

/// The view of a first state shows each of its parts whole.
pub proof fn law_view_shows_the_first_state(state: GenesisConfig)
    ensures
        state@.code == state.system.code@,
        state@.balances == state.balances.balances@,
        state@.aura_authorities == state.aura.authorities@,
        state@.grandpa_authorities == state.grandpa.authorities@,
        state@.sudo_key == state.sudo.key,
{
}

/// The state that is built holds the runtime byte for byte, all balances, both
/// keys of every authority with a vote of one, and the administrator.
pub proof fn law_genesis_holds_what_it_is_given(
    wasm_binary: &[u8],
    initial_authorities: Vec<(AuraId, GrandpaId)>,
    root_key: AccountId,
    endowed: Vec<(AccountId, Balance)>,
    enable_println: bool,
    state: GenesisConfig,
    i: int,
)
    requires
        call_ensures(
            genesis,
            (wasm_binary, initial_authorities, root_key, endowed, enable_println),
            state,
        ),
    ensures
        state.system.code@ == wasm_binary@,
        state.balances.balances@ == endowed@,
        state.aura.authorities@.len() == initial_authorities@.len(),
        state.grandpa.authorities@.len() == initial_authorities@.len(),
        0 <= i < initial_authorities@.len() ==> state.aura.authorities@[i]
            == initial_authorities@[i].0,
        0 <= i < initial_authorities@.len() ==> state.grandpa.authorities@[i] == (
            initial_authorities@[i].1,
            1u64,
        ),
        state.sudo.key == Some(root_key),
{
    assert(state@.aura_authorities == state.aura.authorities@);
    assert(state@.grandpa_authorities == state.grandpa.authorities@);
}

} // verus!
