use vstd::prelude::*;

use crate::account::{AccountInfo, AccountType};
use crate::authorization::{AuthorizationMode, PermissionType};
use crate::domain::Domain;
use crate::library::{
    AssetData, AstroportLperConfig, AstroportWithdrawerConfig, LibraryConfig, LibraryInfo, PairType,
    PoolType,
};
use crate::params::{all_set, first_unset, key_views, required_all, ProgramError, ProgramParams};
use crate::program_config::{ProgramConfig, ProgramConfigBuilder};
use crate::programs::common::{
    link,
    account_is, allow_list_of, authorize, call_is, concentrated, library_is, link_is, lper_is,
    withdrawer_is,
};

verus! {

/// The parameters the program reads, in the order it reads them.
pub open spec fn parameter_keys() -> Seq<Seq<char>> {
    seq!["owner"@, "pool_addr"@, "ntrn_denom"@, "atom_denom"@, "permissioned_withdrawer"@]
}

/// An Astroport concentrated pool with a native liquidity token.
pub fn concentrated_pool() -> (r: PoolType)
    ensures
        concentrated(r),
{
    PoolType::NativeLpToken(PairType::Custom("concentrated".to_owned()))
}

/// The whole program this module writes from `params`.
pub open spec fn astroport_program(c: ProgramConfig, params: ProgramParams) -> bool {
    let v = |k: Seq<char>| params.value_of(k)->Some_0;
    &&& c.name@ == ""@
    &&& c.owner@ == v("owner"@)
    &&& c.home.chain@ == "neutron"@
    &&& c.id is None
    &&& c.accounts@.len() == 3
    &&& account_is(c.accounts@[0], "input_account"@, "neutron"@)
    &&& account_is(c.accounts@[1], "liquidity_position_account"@, "neutron"@)
    &&& account_is(c.accounts@[2], "output_account"@, "neutron"@)
    &&& c.libraries@.len() == 2
    &&& library_is(c.libraries@[0], "deploy_liquidity"@, "neutron"@)
    &&& lper_is(c.libraries@[0].config, 1, 2, v("pool_addr"@), v("ntrn_denom"@), v("atom_denom"@))
    &&& library_is(c.libraries@[1], "withdraw_liquidity_position"@, "neutron"@)
    &&& withdrawer_is(
        c.libraries@[1].config,
        2,
        3,
        v("pool_addr"@),
        v("ntrn_denom"@),
        v("atom_denom"@),
    )
    &&& c.links@.len() == 2
    &&& link_is(c.links@[0], 1, 1, 2)
    &&& link_is(c.links@[1], 2, 2, 3)
    &&& c.authorizations@.len() == 2
    &&& call_is(
        c.authorizations@[0],
        "provide_liquidity"@,
        1,
        None,
        "provide_double_sided_liquidity"@,
    )
    &&& c.authorizations@[0].mode is Permissionless
    &&& call_is(c.authorizations@[1], "withdraw_liquidity"@, 2, None, "withdraw_liquidity"@)
    &&& allow_list_of(c.authorizations@[1].mode, v("permissioned_withdrawer"@))
}

/// Provides NTRN/ATOM liquidity on Astroport from an input account into a
/// position account, and withdraws the position into an output account. Anyone
/// may provide; only the permissioned withdrawer may withdraw.
pub fn program_builder(params: ProgramParams) -> (r: Result<ProgramConfig, ProgramError>)
    ensures
        r is Ok <==> all_set(params, parameter_keys()),
        r is Err ==> first_unset(params, parameter_keys(), r->Err_0.spec_key()),
        r is Ok ==> r->Ok_0.well_formed() && astroport_program(r->Ok_0, params),
{
    let keys = vec!["owner", "pool_addr", "ntrn_denom", "atom_denom", "permissioned_withdrawer"];
    assert(key_views(keys@) =~= parameter_keys());
    let values = required_all(&params, &keys)?;
    let owner = &values[0];
    let pool_addr = &values[1];
    let ntrn_denom = &values[2];
    let atom_denom = &values[3];
    let permissioned_withdrawer = values[4].clone();

    let mut builder = ProgramConfigBuilder::new("", owner.as_str());
    proof {
        reveal_strlit("input_account");
        reveal_strlit("liquidity_position_account");
        reveal_strlit("output_account");
        reveal_strlit("deploy_liquidity");
        reveal_strlit("withdraw_liquidity_position");
    }

    let neutron_domain = Domain::cosmos_cosmwasm("neutron");

    let input_account = builder.add_account(
        AccountInfo::new("input_account".to_owned(), &neutron_domain, AccountType::default()),
    ).unwrap();
    let liquidity_position_account = builder.add_account(
        AccountInfo::new(
            "liquidity_position_account".to_owned(),
            &neutron_domain,
            AccountType::default(),
        ),
    ).unwrap();
    let output_account = builder.add_account(
        AccountInfo::new("output_account".to_owned(), &neutron_domain, AccountType::default()),
    ).unwrap();

    let liquidity_provider_library = builder.add_library(
        LibraryInfo::new(
            "deploy_liquidity".to_owned(),
            &neutron_domain,
            LibraryConfig::ValenceAstroportLper(
                AstroportLperConfig {
                    input_addr: input_account,
                    output_addr: liquidity_position_account,
                    pool_addr: pool_addr.clone(),
                    pool_type: concentrated_pool(),
                    asset_data: AssetData { asset1: ntrn_denom.clone(), asset2: atom_denom.clone() },
                },
            ),
        ),
    ).unwrap();
    let liquidity_withdrawer_library = builder.add_library(
        LibraryInfo::new(
            "withdraw_liquidity_position".to_owned(),
            &neutron_domain,
            LibraryConfig::ValenceAstroportWithdrawer(
                AstroportWithdrawerConfig {
                    input_addr: liquidity_position_account,
                    output_addr: output_account,
                    pool_addr: pool_addr.clone(),
                    pool_type: concentrated_pool(),
                    asset_data: AssetData { asset1: ntrn_denom.clone(), asset2: atom_denom.clone() },
                },
            ),
        ),
    ).unwrap();

    link(&mut builder, liquidity_provider_library, input_account, liquidity_position_account);
    link(&mut builder, liquidity_withdrawer_library, liquidity_position_account, output_account);

    proof {
        reveal_strlit("provide_liquidity");
        reveal_strlit("withdraw_liquidity");
    }
    authorize(
        &mut builder,
        "provide_liquidity",
        AuthorizationMode::Permissionless,
        liquidity_provider_library,
        None,
        "provide_double_sided_liquidity",
    );
    assert("provide_liquidity"@[0] != "withdraw_liquidity"@[0]);
    assert(builder.authorizations() =~= seq![builder.authorizations()[0]]);
    let withdrawers = vec![permissioned_withdrawer];
    let mode = AuthorizationMode::Permissioned(PermissionType::WithoutCallLimit(withdrawers));
    assert(allow_list_of(mode, values@[4]@));
    authorize(
        &mut builder,
        "withdraw_liquidity",
        mode,
        liquidity_withdrawer_library,
        None,
        "withdraw_liquidity",
    );

    Ok(builder.build())
}

} // verus!
