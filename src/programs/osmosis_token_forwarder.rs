use vstd::prelude::*;

use crate::account::{AccountHandle, AccountInfo, AccountType};
use crate::authorization::AuthorizationMode;
use crate::domain::Domain;
use crate::library::{Denom, ForwarderConfig, ForwardingConfig, LibraryConfig, LibraryInfo};
use crate::params::{required, ProgramError, ProgramParams};
use crate::program_config::{ProgramConfig, ProgramConfigBuilder};
use crate::programs::common::{
    link,
    account_is, authorize, call_is, forwarder_is, library_is, link_is,
};

verus! {

/// Forwards up to 1000 OSMO (in uosmo) from `input` to `output`.
fn uosmo_forwarder(input: AccountHandle, output: AccountHandle) -> (r: LibraryConfig)
    ensures
        forwarder_is(r, input.id, output.id, seq!["uosmo"@], 1_000_000_000),
{
    let mut forwarding_configs = Vec::new();
    forwarding_configs.push(
        ForwardingConfig { denom: Denom::Native("uosmo".to_owned()), max_amount: 1_000_000_000 },
    );
    LibraryConfig::ValenceForwarderLibrary(
        ForwarderConfig { input_addr: input, output_addr: output, forwarding_configs },
    )
}

/// The whole program this module writes for `owner`.
pub open spec fn forwarder_program(c: ProgramConfig, owner: Seq<char>) -> bool {
    &&& c.name@ == "osmosis_token_forwarder"@
    &&& c.owner@ == owner
    &&& c.home.chain@ == "neutron"@
    &&& c.id is None
    &&& c.accounts@.len() == 2
    &&& account_is(c.accounts@[0], "account_A"@, "osmosis"@)
    &&& account_is(c.accounts@[1], "account_B"@, "osmosis"@)
    &&& c.libraries@.len() == 2
    &&& library_is(c.libraries@[0], "forwader_A_to_B"@, "osmosis"@)
    &&& forwarder_is(c.libraries@[0].config, 1, 2, seq!["uosmo"@], 1_000_000_000)
    &&& library_is(c.libraries@[1], "forwarder_B_to_A"@, "osmosis"@)
    &&& forwarder_is(c.libraries@[1].config, 2, 1, seq!["uosmo"@], 1_000_000_000)
    &&& c.links@.len() == 2
    &&& link_is(c.links@[0], 1, 1, 2)
    &&& link_is(c.links@[1], 2, 2, 1)
    &&& c.authorizations@.len() == 2
    &&& call_is(c.authorizations@[0], "A_to_B"@, 1, Some("osmosis"@), "forward"@)
    &&& c.authorizations@[0].mode is Permissionless
    &&& call_is(c.authorizations@[1], "B_to_A"@, 2, Some("osmosis"@), "forward"@)
    &&& c.authorizations@[1].mode is Permissionless
}

/// Two Osmosis accounts with a forwarder each way, each run by anyone through
/// its own authorization. The forwarders live off the home chain, so their
/// functions name Osmosis as their external domain.
pub fn program_builder(params: ProgramParams) -> (r: Result<ProgramConfig, ProgramError>)
    ensures
        r is Ok <==> params.value_of("owner"@) is Some,
        r is Err ==> r->Err_0.missing("owner"@),
        r is Ok ==> r->Ok_0.well_formed() && forwarder_program(
            r->Ok_0,
            params.value_of("owner"@)->Some_0,
        ),
{
    let owner = required(&params, "owner")?;

    let osmosis_domain = Domain::cosmos_cosmwasm("osmosis");

    let mut builder = ProgramConfigBuilder::new("osmosis_token_forwarder", owner.as_str());
    proof {
        reveal_strlit("account_A");
        reveal_strlit("account_B");
        reveal_strlit("forwader_A_to_B");
        reveal_strlit("forwarder_B_to_A");
    }

    let account_a = builder.add_account(
        AccountInfo::new("account_A".to_owned(), &osmosis_domain, AccountType::default()),
    ).unwrap();
    let account_b = builder.add_account(
        AccountInfo::new("account_B".to_owned(), &osmosis_domain, AccountType::default()),
    ).unwrap();

    let forwarder_a_to_b = builder.add_library(
        LibraryInfo::new(
            "forwader_A_to_B".to_owned(),
            &osmosis_domain,
            uosmo_forwarder(account_a, account_b),
        ),
    ).unwrap();
    link(&mut builder, forwarder_a_to_b, account_a, account_b);

    let forwarder_b_to_a = builder.add_library(
        LibraryInfo::new(
            "forwarder_B_to_A".to_owned(),
            &osmosis_domain,
            uosmo_forwarder(account_b, account_a),
        ),
    ).unwrap();
    link(&mut builder, forwarder_b_to_a, account_b, account_a);

    proof {
        reveal_strlit("osmosis");
        reveal_strlit("neutron");
        reveal_strlit("A_to_B");
        reveal_strlit("B_to_A");
        assert(builder.libraries()[0].domain.chain@ == "osmosis"@);
        assert(builder.libraries()[1].domain.chain@ == "osmosis"@);
        assert("osmosis"@[0] != "neutron"@[0]);
    }
    authorize(
        &mut builder,
        "A_to_B",
        AuthorizationMode::Permissionless,
        forwarder_a_to_b,
        Some("osmosis"),
        "forward",
    );
    assert("A_to_B"@[0] != "B_to_A"@[0]);
    assert(builder.authorizations() =~= seq![builder.authorizations()[0]]);
    authorize(
        &mut builder,
        "B_to_A",
        AuthorizationMode::Permissionless,
        forwarder_b_to_a,
        Some("osmosis"),
        "forward",
    );

    Ok(builder.build())
}

} // verus!
