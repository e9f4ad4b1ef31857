use vstd::prelude::*;

use crate::account::{AccountInfo, AccountType};
use crate::authorization::AuthorizationMode;
use crate::domain::Domain;
use crate::library::{Denom, LibraryConfig, LibraryInfo, SplitConfig, SplitterConfig};
use crate::params::{required, ProgramError, ProgramParams};
use crate::program_config::{ProgramConfig, ProgramConfigBuilder};
use crate::programs::common::{
    link,account_is, authorize, call_is, library_is, link_is, native};

verus! {

/// A splitter from account `input` paying a fixed `amount` of native `denom` to `account`.
pub open spec fn splitter_is(
    c: LibraryConfig,
    input: u64,
    denom: Seq<char>,
    account: u64,
    amount: u128,
) -> bool {
    &&& c is ValenceSplitterLibrary
    &&& c->ValenceSplitterLibrary_0.input_addr.id == input
    &&& c->ValenceSplitterLibrary_0.splits@.len() == 1
    &&& native(c->ValenceSplitterLibrary_0.splits@[0].denom, denom)
    &&& c->ValenceSplitterLibrary_0.splits@[0].account.id == account
    &&& c->ValenceSplitterLibrary_0.splits@[0].amount == amount
}

/// The whole program this module writes for `owner`.
pub open spec fn template_program(c: ProgramConfig, owner: Seq<char>) -> bool {
    &&& c.name@ == "test_program"@
    &&& c.owner@ == owner
    &&& c.home.chain@ == "neutron"@
    &&& c.id is None
    &&& c.accounts@.len() == 2
    &&& account_is(c.accounts@[0], "test_1"@, "neutron"@)
    &&& account_is(c.accounts@[1], "test_2"@, "neutron"@)
    &&& c.libraries@.len() == 1
    &&& library_is(c.libraries@[0], "test_splitter"@, "neutron"@)
    &&& splitter_is(c.libraries@[0].config, 1, "untrn"@, 2, 1_000_000_000)
    &&& c.links@.len() == 1
    &&& link_is(c.links@[0], 1, 1, 2)
    &&& c.authorizations@.len() == 1
    &&& call_is(c.authorizations@[0], "swap"@, 1, None, "split"@)
    &&& c.authorizations@[0].mode is Permissionless
}

/// Two Neutron accounts and a splitter that sends a fixed amount of untrn from
/// the first to the second, triggered by anyone through the `swap` authorization.
pub fn program_builder(params: ProgramParams) -> (r: Result<ProgramConfig, ProgramError>)
    ensures
        r is Ok <==> params.value_of("owner"@) is Some,
        r is Err ==> r->Err_0.missing("owner"@),
        r is Ok ==> r->Ok_0.well_formed() && template_program(
            r->Ok_0,
            params.value_of("owner"@)->Some_0,
        ),
{
    let owner = required(&params, "owner")?;

    let neutron_domain = Domain::cosmos_cosmwasm("neutron");
    let swap_amount: u128 = 1_000_000_000;

    let mut builder = ProgramConfigBuilder::new("test_program", owner.as_str());
    proof {
        reveal_strlit("test_1");
        reveal_strlit("test_2");
        reveal_strlit("test_splitter");
    }

    let account_1 = builder.add_account(
        AccountInfo::new("test_1".to_owned(), &neutron_domain, AccountType::default()),
    ).unwrap();
    let account_2 = builder.add_account(
        AccountInfo::new("test_2".to_owned(), &neutron_domain, AccountType::default()),
    ).unwrap();

    let mut splits = Vec::new();
    splits.push(
        SplitConfig {
            denom: Denom::Native("untrn".to_owned()),
            account: account_2,
            amount: swap_amount,
        },
    );
    let library_1 = builder.add_library(
        LibraryInfo::new(
            "test_splitter".to_owned(),
            &neutron_domain,
            LibraryConfig::ValenceSplitterLibrary(SplitterConfig { input_addr: account_1, splits }),
        ),
    ).unwrap();

    link(&mut builder, library_1, account_1, account_2);

    proof {
        reveal_strlit("swap");
    }
    authorize(&mut builder, "swap", AuthorizationMode::Permissionless, library_1, None, "split");

    Ok(builder.build())
}

} // verus!
