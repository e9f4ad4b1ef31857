use vstd::prelude::*;

use crate::account::{AccountInfo, AccountType};
use crate::authorization::AuthorizationMode;
use crate::domain::Domain;
use crate::library::{
    Denom, ForwarderConfig, ForwardingConfig, LibraryConfig, LibraryInfo, OsmosisClLperConfig,
    OsmosisClWithdrawerConfig,
};
use crate::params::{
    all_set, first_unset, i64_value, key_views, parse_i64, parse_u128, parse_u64, required_all,
    unsigned_value, ProgramError, ProgramParams,
};
use crate::program_config::{ProgramConfig, ProgramConfigBuilder};
use crate::programs::common::{
    link,
    account_is, authorize, call_is, forwarder_is, ibc_transfer, ibc_transfer_is, library_is,
    link_is,
};

verus! {

/// The parameters the program reads, in the order it reads them.
pub open spec fn parameter_keys() -> Seq<Seq<char>> {
    seq![
        "owner"@,
        "neutron_stride_channel"@,
        "stride_osmosis_channel"@,
        "osmosis_stride_channel"@,
        "stride_neutron_channel"@,
        "neutron_cosmos_channel"@,
        "cosmos_osmosis_channel"@,
        "osmosis_cosmos_channel"@,
        "cosmos_neutron_channel"@,
        "ibc_timeout_seconds"@,
        "pool_id"@,
        "lower_tick"@,
        "upper_tick"@,
        "neutron_atom_denom"@,
        "neutron_statom_denom"@,
        "osmosis_atom_denom"@,
        "osmosis_statom_denom"@,
        "max_forward_amount"@,
    ]
}

/// The labels of the program's authorizations, in the order they are added.
pub open spec fn authorization_labels() -> Seq<Seq<char>> {
    seq![
        "IBC_Transfer_Neutron_to_Osmosis_ATOM"@,
        "IBC_Transfer_Neutron_to_Osmosis_STATOM"@,
        "Provide_Liquidity"@,
        "Withdraw_Liquidity"@,
        "IBC_Transfer_Osmosis_to_Neutron_ATOM"@,
        "Forward_Tokens"@,
        "IBC_Transfer_Osmosis_to_Neutron_STATOM"@,
    ]
}

/// The authorization labels are pairwise distinct.
pub proof fn lemma_labels_distinct()
    ensures
        forall|i: int, j: int|
            0 <= i < j < 7 ==> #[trigger] authorization_labels()[i] != #[trigger] authorization_labels()[j],
{
    reveal_strlit("IBC_Transfer_Neutron_to_Osmosis_ATOM");
    reveal_strlit("IBC_Transfer_Neutron_to_Osmosis_STATOM");
    reveal_strlit("Provide_Liquidity");
    reveal_strlit("Withdraw_Liquidity");
    reveal_strlit("IBC_Transfer_Osmosis_to_Neutron_ATOM");
    reveal_strlit("Forward_Tokens");
    reveal_strlit("IBC_Transfer_Osmosis_to_Neutron_STATOM");
    assert("IBC_Transfer_Neutron_to_Osmosis_ATOM"@.len() != "IBC_Transfer_Neutron_to_Osmosis_STATOM"@.len());
    assert("IBC_Transfer_Neutron_to_Osmosis_ATOM"@.len() != "Provide_Liquidity"@.len());
    assert("IBC_Transfer_Neutron_to_Osmosis_STATOM"@.len() != "Provide_Liquidity"@.len());
    assert("IBC_Transfer_Neutron_to_Osmosis_ATOM"@.len() != "Withdraw_Liquidity"@.len());
    assert("IBC_Transfer_Neutron_to_Osmosis_STATOM"@.len() != "Withdraw_Liquidity"@.len());
    assert("Provide_Liquidity"@.len() != "Withdraw_Liquidity"@.len());
    assert("IBC_Transfer_Neutron_to_Osmosis_ATOM"@[13] != "IBC_Transfer_Osmosis_to_Neutron_ATOM"@[13]);
    assert("IBC_Transfer_Neutron_to_Osmosis_STATOM"@.len() != "IBC_Transfer_Osmosis_to_Neutron_ATOM"@.len());
    assert("Provide_Liquidity"@.len() != "IBC_Transfer_Osmosis_to_Neutron_ATOM"@.len());
    assert("Withdraw_Liquidity"@.len() != "IBC_Transfer_Osmosis_to_Neutron_ATOM"@.len());
    assert("IBC_Transfer_Neutron_to_Osmosis_ATOM"@.len() != "Forward_Tokens"@.len());
    assert("IBC_Transfer_Neutron_to_Osmosis_STATOM"@.len() != "Forward_Tokens"@.len());
    assert("Provide_Liquidity"@.len() != "Forward_Tokens"@.len());
    assert("Withdraw_Liquidity"@.len() != "Forward_Tokens"@.len());
    assert("IBC_Transfer_Osmosis_to_Neutron_ATOM"@.len() != "Forward_Tokens"@.len());
    assert("IBC_Transfer_Neutron_to_Osmosis_ATOM"@.len() != "IBC_Transfer_Osmosis_to_Neutron_STATOM"@.len());
    assert("IBC_Transfer_Neutron_to_Osmosis_STATOM"@[13] != "IBC_Transfer_Osmosis_to_Neutron_STATOM"@[13]);
    assert("Provide_Liquidity"@.len() != "IBC_Transfer_Osmosis_to_Neutron_STATOM"@.len());
    assert("Withdraw_Liquidity"@.len() != "IBC_Transfer_Osmosis_to_Neutron_STATOM"@.len());
    assert("IBC_Transfer_Osmosis_to_Neutron_ATOM"@.len() != "IBC_Transfer_Osmosis_to_Neutron_STATOM"@.len());
    assert("Forward_Tokens"@.len() != "IBC_Transfer_Osmosis_to_Neutron_STATOM"@.len());
}

/// `s` read as a `u64`, or `default` when it is not one.
pub open spec fn u64_or(s: Seq<char>, default: u64) -> u64 {
    match unsigned_value(s, u64::MAX as nat) {
        Some(v) => v as u64,
        None => default,
    }
}

/// `s` read as an `i64`, or `default` when it is not one.
pub open spec fn i64_or(s: Seq<char>, default: i64) -> i64 {
    match i64_value(s) {
        Some(v) => v as i64,
        None => default,
    }
}

/// `s` read as a `u128`, or zero when it is not one.
pub open spec fn u128_or_zero(s: Seq<char>) -> u128 {
    match unsigned_value(s, u128::MAX as nat) {
        Some(v) => v as u128,
        None => 0,
    }
}

/// Concentrated liquidity from account `input` into `output` in pool `pool_id`, within the ticks.
pub open spec fn cl_lper_is(
    c: LibraryConfig,
    input: u64,
    output: u64,
    pool_id: u64,
    asset1: Seq<char>,
    asset2: Seq<char>,
    lower: i64,
    upper: i64,
) -> bool {
    &&& c is ValenceOsmosisClLper
    &&& c->ValenceOsmosisClLper_0.input_addr.id == input
    &&& c->ValenceOsmosisClLper_0.output_addr.id == output
    &&& c->ValenceOsmosisClLper_0.pool_id == pool_id
    &&& c->ValenceOsmosisClLper_0.pool_asset_1@ == asset1
    &&& c->ValenceOsmosisClLper_0.pool_asset_2@ == asset2
    &&& c->ValenceOsmosisClLper_0.lower_tick == lower
    &&& c->ValenceOsmosisClLper_0.upper_tick == upper
}

/// A concentrated-liquidity withdrawal from account `input` into `output` in pool `pool_id`.
pub open spec fn cl_withdrawer_is(c: LibraryConfig, input: u64, output: u64, pool_id: u64) -> bool {
    &&& c is ValenceOsmosisClWithdrawer
    &&& c->ValenceOsmosisClWithdrawer_0.input_addr.id == input
    &&& c->ValenceOsmosisClWithdrawer_0.output_addr.id == output
    &&& c->ValenceOsmosisClWithdrawer_0.pool_id == pool_id
}

/// The whole program this module writes from `params`.
pub open spec fn osmosis_lp_program(c: ProgramConfig, params: ProgramParams) -> bool {
    let v = |k: Seq<char>| params.value_of(k)->Some_0;
    let timeout = u64_or(v("ibc_timeout_seconds"@), 3600);
    let pool_id = u64_or(v("pool_id"@), 1);
    &&& c.name@ == "neutron_to_osmosis_crosschain_lper"@
    &&& c.owner@ == v("owner"@)
    &&& c.home.chain@ == "neutron"@
    &&& c.id is None
    &&& c.accounts@.len() == 5
    &&& account_is(c.accounts@[0], "account_N1"@, "neutron"@)
    &&& account_is(c.accounts@[1], "account_N2"@, "neutron"@)
    &&& account_is(c.accounts@[2], "account_O1"@, "osmosis"@)
    &&& account_is(c.accounts@[3], "account_O2"@, "osmosis"@)
    &&& account_is(c.accounts@[4], "account_O3"@, "osmosis"@)
    &&& c.libraries@.len() == 7
    &&& library_is(c.libraries@[0], "neutron_ibc_atom_transfer"@, "neutron"@)
    &&& c.libraries@[0].config is ValenceNeutronIbcTransferLibrary
    &&& ibc_transfer_is(
        c.libraries@[0].config->ValenceNeutronIbcTransferLibrary_0,
        1,
        3,
        v("neutron_atom_denom"@),
        "Transfer ATOM from Neutron to Osmosis via Cosmos Hub"@,
        v("neutron_cosmos_channel"@),
        timeout,
        v("cosmos_osmosis_channel"@),
        "pfm"@,
    )
    &&& library_is(c.libraries@[1], "neutron_ibc_statom_transfer"@, "neutron"@)
    &&& c.libraries@[1].config is ValenceNeutronIbcTransferLibrary
    &&& ibc_transfer_is(
        c.libraries@[1].config->ValenceNeutronIbcTransferLibrary_0,
        1,
        3,
        v("neutron_statom_denom"@),
        "Transfer stATOM from Neutron to Osmosis via Stride"@,
        v("neutron_stride_channel"@),
        timeout,
        v("stride_osmosis_channel"@),
        "stride1qxatg2nkmsf26cymcg2saeh9l2cqp0s2p0eqgx"@,
    )
    &&& library_is(c.libraries@[2], "osmosis_cl_lper"@, "osmosis"@)
    &&& cl_lper_is(
        c.libraries@[2].config,
        3,
        4,
        pool_id,
        v("osmosis_atom_denom"@),
        v("osmosis_statom_denom"@),
        i64_or(v("lower_tick"@), -100000i64),
        i64_or(v("upper_tick"@), 100000i64),
    )
    &&& library_is(c.libraries@[3], "osmosis_cl_withdrawer"@, "osmosis"@)
    &&& cl_withdrawer_is(c.libraries@[3].config, 4, 5, pool_id)
    &&& library_is(c.libraries@[4], "generic_ibc_atom_transfer"@, "osmosis"@)
    &&& c.libraries@[4].config is ValenceGenericIbcTransferLibrary
    &&& ibc_transfer_is(
        c.libraries@[4].config->ValenceGenericIbcTransferLibrary_0,
        5,
        2,
        v("osmosis_atom_denom"@),
        "Transfer ATOM from Osmosis to Neutron via Cosmos Hub"@,
        v("osmosis_cosmos_channel"@),
        timeout,
        v("cosmos_neutron_channel"@),
        "pfm"@,
    )
    &&& library_is(c.libraries@[5], "generic_ibc_statom_transfer"@, "osmosis"@)
    &&& c.libraries@[5].config is ValenceGenericIbcTransferLibrary
    &&& ibc_transfer_is(
        c.libraries@[5].config->ValenceGenericIbcTransferLibrary_0,
        5,
        2,
        v("osmosis_statom_denom"@),
        "Transfer stATOM from Osmosis to Neutron via Stride"@,
        v("osmosis_stride_channel"@),
        timeout,
        v("stride_neutron_channel"@),
        "stride1qxatg2nkmsf26cymcg2saeh9l2cqp0s2p0eqgx"@,
    )
    &&& library_is(c.libraries@[6], "forwarder"@, "neutron"@)
    &&& forwarder_is(
        c.libraries@[6].config,
        2,
        1,
        seq![v("neutron_atom_denom"@), v("neutron_statom_denom"@)],
        u128_or_zero(v("max_forward_amount"@)),
    )
    &&& c.links@.len() == 7
    &&& link_is(c.links@[0], 1, 1, 3)
    &&& link_is(c.links@[1], 2, 1, 3)
    &&& link_is(c.links@[2], 3, 3, 4)
    &&& link_is(c.links@[3], 4, 4, 5)
    &&& link_is(c.links@[4], 5, 5, 2)
    &&& link_is(c.links@[5], 6, 5, 2)
    &&& link_is(c.links@[6], 7, 2, 1)
    &&& c.authorizations@.len() == 7
    &&& call_is(c.authorizations@[0], authorization_labels()[0], 1, None, "ibc_transfer"@)
    &&& c.authorizations@[0].mode is Permissionless
    &&& call_is(c.authorizations@[1], authorization_labels()[1], 2, None, "ibc_transfer"@)
    &&& c.authorizations@[1].mode is Permissionless
    &&& call_is(c.authorizations@[2], authorization_labels()[2], 3, Some("osmosis"@), "provide_liquidity_default"@)
    &&& c.authorizations@[2].mode is Permissionless
    &&& call_is(c.authorizations@[3], authorization_labels()[3], 4, Some("osmosis"@), "withdraw_liquidity"@)
    &&& c.authorizations@[3].mode is Permissionless
    &&& call_is(c.authorizations@[4], authorization_labels()[4], 5, Some("osmosis"@), "ibc_transfer"@)
    &&& c.authorizations@[4].mode is Permissionless
    &&& call_is(c.authorizations@[5], authorization_labels()[5], 7, None, "forward"@)
    &&& c.authorizations@[5].mode is Permissionless
    &&& call_is(c.authorizations@[6], authorization_labels()[6], 6, Some("osmosis"@), "ibc_transfer"@)
    &&& c.authorizations@[6].mode is Permissionless
}

fn u64_or_default(s: &str, default: u64) -> (r: u64)
    ensures
        r == u64_or(s@, default),
{
    match parse_u64(s) {
        Some(v) => v,
        None => default,
    }
}

fn i64_or_default(s: &str, default: i64) -> (r: i64)
    ensures
        r == i64_or(s@, default),
{
    match parse_i64(s) {
        Some(v) => v,
        None => default,
    }
}

fn u128_or_zero_default(s: &str) -> (r: u128)
    ensures
        r == u128_or_zero(s@),
{
    match parse_u128(s) {
        Some(v) => v,
        None => 0,
    }
}

/// Moves ATOM and stATOM from Neutron to Osmosis (through the Cosmos Hub and
/// Stride), provides them as concentrated liquidity on Osmosis, withdraws the
/// position, brings both back to Neutron, and forwards them to the start.
/// Numeric parameters that do not parse fall back to a timeout of 3600 s,
/// pool 1, ticks -100000 and 100000, and a forwarding cap of zero.
pub fn program_builder(params: ProgramParams) -> (r: Result<ProgramConfig, ProgramError>)
    ensures
        r is Ok <==> all_set(params, parameter_keys()),
        r is Err ==> first_unset(params, parameter_keys(), r->Err_0.spec_key()),
        r is Ok ==> r->Ok_0.well_formed() && osmosis_lp_program(r->Ok_0, params),
{
    let keys = vec![
        "owner",
        "neutron_stride_channel",
        "stride_osmosis_channel",
        "osmosis_stride_channel",
        "stride_neutron_channel",
        "neutron_cosmos_channel",
        "cosmos_osmosis_channel",
        "osmosis_cosmos_channel",
        "cosmos_neutron_channel",
        "ibc_timeout_seconds",
        "pool_id",
        "lower_tick",
        "upper_tick",
        "neutron_atom_denom",
        "neutron_statom_denom",
        "osmosis_atom_denom",
        "osmosis_statom_denom",
        "max_forward_amount",
    ];
    assert(key_views(keys@) =~= parameter_keys());
    let values = required_all(&params, &keys)?;
    let owner = &values[0];
    let neutron_stride_channel = &values[1];
    let stride_osmosis_channel = &values[2];
    let osmosis_stride_channel = &values[3];
    let stride_neutron_channel = &values[4];
    let neutron_cosmos_channel = &values[5];
    let cosmos_osmosis_channel = &values[6];
    let osmosis_cosmos_channel = &values[7];
    let cosmos_neutron_channel = &values[8];
    let ibc_timeout_seconds = &values[9];
    let pool_id = &values[10];
    let lower_tick = &values[11];
    let upper_tick = &values[12];
    let neutron_atom_denom = &values[13];
    let neutron_statom_denom = &values[14];
    let osmosis_atom_denom = &values[15];
    let osmosis_statom_denom = &values[16];
    let max_forward_amount = &values[17];

    let timeout = u64_or_default(ibc_timeout_seconds.as_str(), 3600);
    let pool = u64_or_default(pool_id.as_str(), 1);
    let lower = i64_or_default(lower_tick.as_str(), -100000);
    let upper = i64_or_default(upper_tick.as_str(), 100000);
    let max_amount = u128_or_zero_default(max_forward_amount.as_str());

    let neutron_domain = Domain::cosmos_cosmwasm("neutron");
    let osmosis_domain = Domain::cosmos_cosmwasm("osmosis");

    let mut builder = ProgramConfigBuilder::new("neutron_to_osmosis_crosschain_lper", owner.as_str());
    proof {
        reveal_strlit("account_N1");
        reveal_strlit("account_N2");
        reveal_strlit("account_O1");
        reveal_strlit("account_O2");
        reveal_strlit("account_O3");
        reveal_strlit("neutron_ibc_atom_transfer");
        reveal_strlit("neutron_ibc_statom_transfer");
        reveal_strlit("osmosis_cl_lper");
        reveal_strlit("osmosis_cl_withdrawer");
        reveal_strlit("generic_ibc_atom_transfer");
        reveal_strlit("generic_ibc_statom_transfer");
        reveal_strlit("forwarder");
    }

    let account_n1 = builder.add_account(
        AccountInfo::new("account_N1".to_owned(), &neutron_domain, AccountType::default()),
    ).unwrap();
    let account_n2 = builder.add_account(
        AccountInfo::new("account_N2".to_owned(), &neutron_domain, AccountType::default()),
    ).unwrap();
    let account_o1 = builder.add_account(
        AccountInfo::new("account_O1".to_owned(), &osmosis_domain, AccountType::default()),
    ).unwrap();
    let account_o2 = builder.add_account(
        AccountInfo::new("account_O2".to_owned(), &osmosis_domain, AccountType::default()),
    ).unwrap();
    let account_o3 = builder.add_account(
        AccountInfo::new("account_O3".to_owned(), &osmosis_domain, AccountType::default()),
    ).unwrap();

    let stride_receiver = "stride1qxatg2nkmsf26cymcg2saeh9l2cqp0s2p0eqgx";

    // ATOM from N1 to O1 through the Cosmos Hub.
    let neutron_ibc_atom_transfer = builder.add_library(
        LibraryInfo::new(
            "neutron_ibc_atom_transfer".to_owned(),
            &neutron_domain,
            LibraryConfig::ValenceNeutronIbcTransferLibrary(
                ibc_transfer(
                    account_n1,
                    account_o1,
                    neutron_atom_denom,
                    "Transfer ATOM from Neutron to Osmosis via Cosmos Hub",
                    neutron_cosmos_channel,
                    timeout,
                    cosmos_osmosis_channel,
                    "pfm",
                ),
            ),
        ),
    ).unwrap();
    link(&mut builder, neutron_ibc_atom_transfer, account_n1, account_o1);

    // stATOM from N1 to O1 through Stride.
    let neutron_ibc_statom_transfer = builder.add_library(
        LibraryInfo::new(
            "neutron_ibc_statom_transfer".to_owned(),
            &neutron_domain,
            LibraryConfig::ValenceNeutronIbcTransferLibrary(
                ibc_transfer(
                    account_n1,
                    account_o1,
                    neutron_statom_denom,
                    "Transfer stATOM from Neutron to Osmosis via Stride",
                    neutron_stride_channel,
                    timeout,
                    stride_osmosis_channel,
                    stride_receiver,
                ),
            ),
        ),
    ).unwrap();
    link(&mut builder, neutron_ibc_statom_transfer, account_n1, account_o1);

    // Concentrated liquidity from O1 into a position held by O2.
    let osmosis_cl_lper = builder.add_library(
        LibraryInfo::new(
            "osmosis_cl_lper".to_owned(),
            &osmosis_domain,
            LibraryConfig::ValenceOsmosisClLper(
                OsmosisClLperConfig {
                    input_addr: account_o1,
                    output_addr: account_o2,
                    pool_id: pool,
                    pool_asset_1: osmosis_atom_denom.clone(),
                    pool_asset_2: osmosis_statom_denom.clone(),
                    lower_tick: lower,
                    upper_tick: upper,
                },
            ),
        ),
    ).unwrap();
    link(&mut builder, osmosis_cl_lper, account_o1, account_o2);

    // The position in O2 withdrawn into O3.
    let osmosis_cl_withdrawer = builder.add_library(
        LibraryInfo::new(
            "osmosis_cl_withdrawer".to_owned(),
            &osmosis_domain,
            LibraryConfig::ValenceOsmosisClWithdrawer(
                OsmosisClWithdrawerConfig {
                    input_addr: account_o2,
                    output_addr: account_o3,
                    pool_id: pool,
                },
            ),
        ),
    ).unwrap();
    link(&mut builder, osmosis_cl_withdrawer, account_o2, account_o3);

    // ATOM from O3 back to N2 through the Cosmos Hub.
    let generic_ibc_atom_transfer = builder.add_library(
        LibraryInfo::new(
            "generic_ibc_atom_transfer".to_owned(),
            &osmosis_domain,
            LibraryConfig::ValenceGenericIbcTransferLibrary(
                ibc_transfer(
                    account_o3,
                    account_n2,
                    osmosis_atom_denom,
                    "Transfer ATOM from Osmosis to Neutron via Cosmos Hub",
                    osmosis_cosmos_channel,
                    timeout,
                    cosmos_neutron_channel,
                    "pfm",
                ),
            ),
        ),
    ).unwrap();
    link(&mut builder, generic_ibc_atom_transfer, account_o3, account_n2);

    // stATOM from O3 back to N2 through Stride.
    let generic_ibc_statom_transfer = builder.add_library(
        LibraryInfo::new(
            "generic_ibc_statom_transfer".to_owned(),
            &osmosis_domain,
            LibraryConfig::ValenceGenericIbcTransferLibrary(
                ibc_transfer(
                    account_o3,
                    account_n2,
                    osmosis_statom_denom,
                    "Transfer stATOM from Osmosis to Neutron via Stride",
                    osmosis_stride_channel,
                    timeout,
                    stride_neutron_channel,
                    stride_receiver,
                ),
            ),
        ),
    ).unwrap();
    link(&mut builder, generic_ibc_statom_transfer, account_o3, account_n2);

    // Both denominations forwarded from N2 to N1.
    let mut forwarding_configs = Vec::new();
    forwarding_configs.push(
        ForwardingConfig { denom: Denom::Native(neutron_atom_denom.clone()), max_amount },
    );
    forwarding_configs.push(
        ForwardingConfig { denom: Denom::Native(neutron_statom_denom.clone()), max_amount },
    );
    let forwarder = builder.add_library(
        LibraryInfo::new(
            "forwarder".to_owned(),
            &neutron_domain,
            LibraryConfig::ValenceForwarderLibrary(
                ForwarderConfig { input_addr: account_n2, output_addr: account_n1, forwarding_configs },
            ),
        ),
    ).unwrap();
    link(&mut builder, forwarder, account_n2, account_n1);

    assert(builder.libraries()[2].domain.chain@ == "osmosis"@);
    assert(builder.libraries()[3].domain.chain@ == "osmosis"@);
    assert(builder.libraries()[4].domain.chain@ == "osmosis"@);
    assert(builder.libraries()[5].domain.chain@ == "osmosis"@);
    proof {
        lemma_labels_distinct();
        reveal_strlit("IBC_Transfer_Neutron_to_Osmosis_ATOM");
        reveal_strlit("IBC_Transfer_Neutron_to_Osmosis_STATOM");
        reveal_strlit("Provide_Liquidity");
        reveal_strlit("Withdraw_Liquidity");
        reveal_strlit("IBC_Transfer_Osmosis_to_Neutron_ATOM");
        reveal_strlit("Forward_Tokens");
        reveal_strlit("IBC_Transfer_Osmosis_to_Neutron_STATOM");
        reveal_strlit("osmosis");
        reveal_strlit("neutron");
        assert("osmosis"@[0] != "neutron"@[0]);
    }
    // IBC transfer of ATOM from Neutron to Osmosis through the Cosmos Hub.
    assert(authorization_labels()[0] == "IBC_Transfer_Neutron_to_Osmosis_ATOM"@);
    authorize(
        &mut builder,
        "IBC_Transfer_Neutron_to_Osmosis_ATOM",
        AuthorizationMode::Permissionless,
        neutron_ibc_atom_transfer,
        None,
        "ibc_transfer",
    );
    assert(builder.authorizations() =~= seq![builder.authorizations()[0]]);
    // IBC transfer of stATOM from Neutron to Osmosis through Stride.
    assert(authorization_labels()[1] == "IBC_Transfer_Neutron_to_Osmosis_STATOM"@);
    authorize(
        &mut builder,
        "IBC_Transfer_Neutron_to_Osmosis_STATOM",
        AuthorizationMode::Permissionless,
        neutron_ibc_statom_transfer,
        None,
        "ibc_transfer",
    );
    assert(builder.authorizations() =~= seq![builder.authorizations()[0], builder.authorizations()[1]]);
    // Provide liquidity on Osmosis.
    assert(authorization_labels()[2] == "Provide_Liquidity"@);
    authorize(
        &mut builder,
        "Provide_Liquidity",
        AuthorizationMode::Permissionless,
        osmosis_cl_lper,
        Some("osmosis"),
        "provide_liquidity_default",
    );
    assert(builder.authorizations() =~= seq![builder.authorizations()[0], builder.authorizations()[1], builder.authorizations()[2]]);
    // Withdraw liquidity on Osmosis.
    assert(authorization_labels()[3] == "Withdraw_Liquidity"@);
    authorize(
        &mut builder,
        "Withdraw_Liquidity",
        AuthorizationMode::Permissionless,
        osmosis_cl_withdrawer,
        Some("osmosis"),
        "withdraw_liquidity",
    );
    assert(builder.authorizations() =~= seq![builder.authorizations()[0], builder.authorizations()[1], builder.authorizations()[2], builder.authorizations()[3]]);
    // IBC transfer of ATOM from Osmosis back to Neutron through the Cosmos Hub.
    assert(authorization_labels()[4] == "IBC_Transfer_Osmosis_to_Neutron_ATOM"@);
    authorize(
        &mut builder,
        "IBC_Transfer_Osmosis_to_Neutron_ATOM",
        AuthorizationMode::Permissionless,
        generic_ibc_atom_transfer,
        Some("osmosis"),
        "ibc_transfer",
    );
    assert(builder.authorizations() =~= seq![builder.authorizations()[0], builder.authorizations()[1], builder.authorizations()[2], builder.authorizations()[3], builder.authorizations()[4]]);
    // Forward tokens from N2 to N1.
    assert(authorization_labels()[5] == "Forward_Tokens"@);
    authorize(
        &mut builder,
        "Forward_Tokens",
        AuthorizationMode::Permissionless,
        forwarder,
        None,
        "forward",
    );
    assert(builder.authorizations() =~= seq![builder.authorizations()[0], builder.authorizations()[1], builder.authorizations()[2], builder.authorizations()[3], builder.authorizations()[4], builder.authorizations()[5]]);
    // IBC transfer of stATOM from Osmosis back to Neutron through Stride.
    assert(authorization_labels()[6] == "IBC_Transfer_Osmosis_to_Neutron_STATOM"@);
    authorize(
        &mut builder,
        "IBC_Transfer_Osmosis_to_Neutron_STATOM",
        AuthorizationMode::Permissionless,
        generic_ibc_statom_transfer,
        Some("osmosis"),
        "ibc_transfer",
    );
    Ok(builder.build())
}

} // verus!
