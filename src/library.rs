use vstd::prelude::*;

use crate::account::AccountHandle;
use crate::domain::Domain;

verus! {

/// Opaque reference to a library of one builder, handed out by `add_library`.
#[derive(Clone, Copy, Debug, PartialEq, Eq, Structural)]
pub struct LibraryHandle {
    pub id: u64,
}

/// A denomination that the chain has not yet checked.
pub enum Denom {
    Native(String),
    Cw20(String),
}

/// One share of a split: a fixed amount of a denomination sent to an account.
pub struct SplitConfig {
    pub denom: Denom,
    pub account: AccountHandle,
    pub amount: u128,
}

/// Splits the balance of one account over several.
pub struct SplitterConfig {
    pub input_addr: AccountHandle,
    pub splits: Vec<SplitConfig>,
}

/// How much of a denomination a forwarder moves at most per call.
pub struct ForwardingConfig {
    pub denom: Denom,
    pub max_amount: u128,
}

/// Forwards balances from one account to another; no rate constraint is set.
pub struct ForwarderConfig {
    pub input_addr: AccountHandle,
    pub output_addr: AccountHandle,
    pub forwarding_configs: Vec<ForwardingConfig>,
}

/// An Astroport pair kind.
pub enum PairType {
    Xyk,
    Stable,
    Custom(String),
}

/// How an Astroport pool issues its liquidity token.
pub enum PoolType {
    NativeLpToken(PairType),
    Cw20LpToken(PairType),
}

/// The two assets of a pool.
pub struct AssetData {
    pub asset1: String,
    pub asset2: String,
}

/// Provides liquidity to an Astroport pool; no maximum spread is set.
pub struct AstroportLperConfig {
    pub input_addr: AccountHandle,
    pub output_addr: AccountHandle,
    pub pool_addr: String,
    pub pool_type: PoolType,
    pub asset_data: AssetData,
}

/// Withdraws a liquidity position from an Astroport pool.
pub struct AstroportWithdrawerConfig {
    pub input_addr: AccountHandle,
    pub output_addr: AccountHandle,
    pub pool_addr: String,
    pub pool_type: PoolType,
    pub asset_data: AssetData,
}

/// How much an IBC transfer moves.
pub enum IbcTransferAmount {
    FullAmount,
    FixedAmount(u128),
}

/// Packet-forward hop for one denomination: the channel to the hop chain,
/// the channel from there to the destination, and the receiver on the hop chain.
pub struct PfmConfig {
    pub local_to_hop_chain_channel_id: String,
    pub hop_to_destination_chain_channel_id: String,
    pub hop_chain_receiver_address: String,
}

/// A packet-forward entry, keyed by the denomination it applies to.
pub struct PfmEntry {
    pub denom: String,
    pub config: PfmConfig,
}

/// An IBC transfer from one account to an account on another chain.
/// The timeout is in seconds; the packet-forward entries have distinct denominations.
pub struct IbcTransferConfig {
    pub input_addr: AccountHandle,
    pub output_addr: AccountHandle,
    pub denom: Denom,
    pub amount: IbcTransferAmount,
    pub memo: String,
    pub channel_id: String,
    pub ibc_transfer_timeout: Option<u64>,
    pub denom_to_pfm_map: Vec<PfmEntry>,
}

/// Provides liquidity to an Osmosis concentrated-liquidity pool within a tick range.
pub struct OsmosisClLperConfig {
    pub input_addr: AccountHandle,
    pub output_addr: AccountHandle,
    pub pool_id: u64,
    pub pool_asset_1: String,
    pub pool_asset_2: String,
    pub lower_tick: i64,
    pub upper_tick: i64,
}

/// Withdraws a position from an Osmosis concentrated-liquidity pool.
pub struct OsmosisClWithdrawerConfig {
    pub input_addr: AccountHandle,
    pub output_addr: AccountHandle,
    pub pool_id: u64,
}

/// The closed set of integrations a library can be.
pub enum LibraryConfig {
    ValenceSplitterLibrary(SplitterConfig),
    ValenceForwarderLibrary(ForwarderConfig),
    ValenceAstroportLper(AstroportLperConfig),
    ValenceAstroportWithdrawer(AstroportWithdrawerConfig),
    ValenceGenericIbcTransferLibrary(IbcTransferConfig),
    ValenceNeutronIbcTransferLibrary(IbcTransferConfig),
    ValenceOsmosisClLper(OsmosisClLperConfig),
    ValenceOsmosisClWithdrawer(OsmosisClWithdrawerConfig),
}

/// A library as declared by a program: a label, its chain and its configuration.
pub struct LibraryInfo {
    pub label: String,
    pub domain: Domain,
    pub config: LibraryConfig,
}

impl LibraryInfo {
    pub fn new(label: String, domain: &Domain, config: LibraryConfig) -> (r: LibraryInfo)
        ensures
            r.label == label,
            r.domain == *domain,
            r.config == config,
    {
        LibraryInfo { label, domain: domain.clone(), config }
    }
}

} // verus!
