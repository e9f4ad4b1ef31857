use vstd::prelude::*;

use crate::account::{AccountInfo, AccountType};
use crate::authorization::{AuthorizationMode, PermissionType};
use crate::domain::Domain;
use crate::library::{
    AssetData, AstroportLperConfig, AstroportWithdrawerConfig, LibraryConfig, LibraryInfo,
};
use crate::params::{all_set, first_unset, key_views, required_all, ProgramError, ProgramParams};
use crate::program_config::{ProgramConfig, ProgramConfigBuilder};
use crate::programs::astroport_lper::concentrated_pool;
use crate::programs::common::{
    link,
    account_is, allow_list_of, authorize, call_is, ibc_transfer, ibc_transfer_is, library_is,
    link_is, lper_is, withdrawer_is,
};

verus! {

/// The parameters the program reads, in the order it reads them.
pub open spec fn parameter_keys() -> Seq<Seq<char>> {
    seq![
        "owner"@,
        "permissioned_withdrawer"@,
        "usdc_on_terra"@,
        "usdc_on_neutron"@,
        "ntrn_on_neutron"@,
        "usdc_ntrn_pool_addr"@,
        "terra_noble_ibc_channel_id"@,
        "noble_neutron_ibc_channel_id"@,
    ]
}

/// The whole program this module writes from `params`.
pub open spec fn crosschain_program(c: ProgramConfig, params: ProgramParams) -> bool {
    let v = |k: Seq<char>| params.value_of(k)->Some_0;
    &&& c.name@ == "test program"@
    &&& c.owner@ == v("owner"@)
    &&& c.home.chain@ == "neutron"@
    &&& c.id is None
    &&& c.accounts@.len() == 4
    &&& account_is(c.accounts@[0], "terra_input_account"@, "terra2"@)
    &&& account_is(c.accounts@[1], "neutron_input_account"@, "neutron"@)
    &&& account_is(c.accounts@[2], "liquidity_position_account"@, "neutron"@)
    &&& account_is(c.accounts@[3], "withdraw_output_account"@, "neutron"@)
    &&& c.libraries@.len() == 3
    &&& library_is(c.libraries@[0], "terra_ibc_transfer"@, "terra2"@)
    &&& c.libraries@[0].config is ValenceGenericIbcTransferLibrary
    &&& ibc_transfer_is(
        c.libraries@[0].config->ValenceGenericIbcTransferLibrary_0,
        1,
        2,
        v("usdc_on_terra"@),
        ""@,
        v("terra_noble_ibc_channel_id"@),
        600,
        v("noble_neutron_ibc_channel_id"@),
        "invalid-pfm"@,
    )
    &&& library_is(c.libraries@[1], "astroport_lper"@, "neutron"@)
    &&& lper_is(
        c.libraries@[1].config,
        2,
        3,
        v("usdc_ntrn_pool_addr"@),
        v("usdc_on_neutron"@),
        v("ntrn_on_neutron"@),
    )
    &&& library_is(c.libraries@[2], "astroport_withdrawer"@, "neutron"@)
    &&& withdrawer_is(
        c.libraries@[2].config,
        3,
        4,
        v("usdc_ntrn_pool_addr"@),
        v("usdc_on_neutron"@),
        v("ntrn_on_neutron"@),
    )
    &&& c.links@.len() == 3
    &&& link_is(c.links@[0], 1, 1, 2)
    &&& link_is(c.links@[1], 2, 2, 3)
    &&& link_is(c.links@[2], 3, 3, 4)
    &&& c.authorizations@.len() == 3
    &&& call_is(
        c.authorizations@[0],
        "transfer_usdc_terra_to_neutron"@,
        1,
        Some("terra"@),
        "ibc_transfer"@,
    )
    &&& c.authorizations@[0].mode is Permissionless
    &&& call_is(
        c.authorizations@[1],
        "provide_liquidity"@,
        3,
        None,
        "provide_double_sided_liquidity"@,
    )
    &&& c.authorizations@[1].mode is Permissionless
    &&& call_is(c.authorizations@[2], "withdraw_liquidity"@, 3, None, "withdraw_liquidity"@)
    &&& allow_list_of(c.authorizations@[2].mode, v("permissioned_withdrawer"@))
}

/// Moves USDC from Terra to Neutron through Noble, provides USDC/NTRN
/// liquidity on Astroport, and lets the permissioned withdrawer withdraw it.
/// The hop receiver on Noble is deliberately invalid, so that a transfer
/// that cannot be forwarded reverts as a whole. The provide-liquidity
/// authorization is wired to the withdrawer library, as this program has it.
pub fn program_builder(params: ProgramParams) -> (r: Result<ProgramConfig, ProgramError>)
    ensures
        r is Ok <==> all_set(params, parameter_keys()),
        r is Err ==> first_unset(params, parameter_keys(), r->Err_0.spec_key()),
        r is Ok ==> r->Ok_0.well_formed() && crosschain_program(r->Ok_0, params),
{
    let keys = vec![
        "owner",
        "permissioned_withdrawer",
        "usdc_on_terra",
        "usdc_on_neutron",
        "ntrn_on_neutron",
        "usdc_ntrn_pool_addr",
        "terra_noble_ibc_channel_id",
        "noble_neutron_ibc_channel_id",
    ];
    assert(key_views(keys@) =~= parameter_keys());
    let values = required_all(&params, &keys)?;
    let owner = &values[0];
    let permissioned_withdrawer = values[1].clone();
    let usdc_on_terra = &values[2];
    let usdc_on_neutron = &values[3];
    let ntrn_on_neutron = &values[4];
    let usdc_ntrn_pool_addr = &values[5];
    let terra_noble_ibc_channel_id = &values[6];
    let noble_neutron_ibc_channel_id = &values[7];

    let mut builder = ProgramConfigBuilder::new("test program", owner.as_str());
    proof {
        reveal_strlit("terra_input_account");
        reveal_strlit("neutron_input_account");
        reveal_strlit("liquidity_position_account");
        reveal_strlit("withdraw_output_account");
        reveal_strlit("terra_ibc_transfer");
        reveal_strlit("astroport_lper");
        reveal_strlit("astroport_withdrawer");
    }

    let neutron_domain = Domain::cosmos_cosmwasm("neutron");
    let terra_domain = Domain::cosmos_cosmwasm("terra2");

    let terra_input_account = builder.add_account(
        AccountInfo::new("terra_input_account".to_owned(), &terra_domain, AccountType::default()),
    ).unwrap();
    let neutron_input_account = builder.add_account(
        AccountInfo::new("neutron_input_account".to_owned(), &neutron_domain, AccountType::default()),
    ).unwrap();
    let liquidity_position_account = builder.add_account(
        AccountInfo::new(
            "liquidity_position_account".to_owned(),
            &neutron_domain,
            AccountType::default(),
        ),
    ).unwrap();
    let withdraw_output_account = builder.add_account(
        AccountInfo::new(
            "withdraw_output_account".to_owned(),
            &neutron_domain,
            AccountType::default(),
        ),
    ).unwrap();

    let terra_ibc_transfer_library = builder.add_library(
        LibraryInfo::new(
            "terra_ibc_transfer".to_owned(),
            &terra_domain,
            LibraryConfig::ValenceGenericIbcTransferLibrary(
                ibc_transfer(
                    terra_input_account,
                    neutron_input_account,
                    usdc_on_terra,
                    "",
                    terra_noble_ibc_channel_id,
                    600,
                    noble_neutron_ibc_channel_id,
                    "invalid-pfm",
                ),
            ),
        ),
    ).unwrap();

    let astroport_lper_library = builder.add_library(
        LibraryInfo::new(
            "astroport_lper".to_owned(),
            &neutron_domain,
            LibraryConfig::ValenceAstroportLper(
                AstroportLperConfig {
                    input_addr: neutron_input_account,
                    output_addr: liquidity_position_account,
                    pool_addr: usdc_ntrn_pool_addr.clone(),
                    pool_type: concentrated_pool(),
                    asset_data: AssetData {
                        asset1: usdc_on_neutron.clone(),
                        asset2: ntrn_on_neutron.clone(),
                    },
                },
            ),
        ),
    ).unwrap();

    let astroport_withdrawer_library = builder.add_library(
        LibraryInfo::new(
            "astroport_withdrawer".to_owned(),
            &neutron_domain,
            LibraryConfig::ValenceAstroportWithdrawer(
                AstroportWithdrawerConfig {
                    input_addr: liquidity_position_account,
                    output_addr: withdraw_output_account,
                    pool_addr: usdc_ntrn_pool_addr.clone(),
                    pool_type: concentrated_pool(),
                    asset_data: AssetData {
                        asset1: usdc_on_neutron.clone(),
                        asset2: ntrn_on_neutron.clone(),
                    },
                },
            ),
        ),
    ).unwrap();

    link(&mut builder, terra_ibc_transfer_library, terra_input_account, neutron_input_account);
    link(&mut builder, astroport_lper_library, neutron_input_account, liquidity_position_account);
    link(&mut builder, astroport_withdrawer_library, liquidity_position_account, withdraw_output_account);

    proof {
        reveal_strlit("terra2");
        reveal_strlit("neutron");
        reveal_strlit("transfer_usdc_terra_to_neutron");
        reveal_strlit("provide_liquidity");
        reveal_strlit("withdraw_liquidity");
        assert(builder.libraries()[0].domain.chain@ == "terra2"@);
        assert("terra2"@[0] != "neutron"@[0]);
    }
    authorize(
        &mut builder,
        "transfer_usdc_terra_to_neutron",
        AuthorizationMode::Permissionless,
        terra_ibc_transfer_library,
        Some("terra"),
        "ibc_transfer",
    );
    assert("transfer_usdc_terra_to_neutron"@[0] != "provide_liquidity"@[0]);
    assert(builder.authorizations() =~= seq![builder.authorizations()[0]]);
    authorize(
        &mut builder,
        "provide_liquidity",
        AuthorizationMode::Permissionless,
        astroport_withdrawer_library,
        None,
        "provide_double_sided_liquidity",
    );
    assert("transfer_usdc_terra_to_neutron"@[0] != "withdraw_liquidity"@[0]);
    assert("provide_liquidity"@[0] != "withdraw_liquidity"@[0]);
    assert(builder.authorizations() =~= seq![
        builder.authorizations()[0],
        builder.authorizations()[1],
    ]);
    let withdrawers = vec![permissioned_withdrawer];
    let mode = AuthorizationMode::Permissioned(PermissionType::WithoutCallLimit(withdrawers));
    assert(allow_list_of(mode, values@[1]@));
    authorize(
        &mut builder,
        "withdraw_liquidity",
        mode,
        astroport_withdrawer_library,
        None,
        "withdraw_liquidity",
    );

    Ok(builder.build())
}

} // verus!
