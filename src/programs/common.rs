use vstd::prelude::*;

use crate::account::{AccountHandle, AccountInfo, AccountType};
use crate::authorization::{
    AtomicFunction, AtomicFunctionBuilder, AtomicSubroutineBuilder, Authorization,
    AuthorizationBuilder, AuthorizationMode, Message, MessageDetails, MessageType,
    ParamRestriction,
};
use crate::domain::FunctionDomain;
use crate::library::{
    Denom, IbcTransferAmount, IbcTransferConfig, LibraryConfig, LibraryHandle, LibraryInfo,
    PoolType,
};
use crate::program_config::{function_placed, label_taken, library_at, Link, ProgramConfigBuilder};

verus! {

/// A base account labelled `label` on `chain`.
pub open spec fn account_is(a: AccountInfo, label: Seq<char>, chain: Seq<char>) -> bool {
    a.label@ == label && a.domain.chain@ == chain && a.kind == AccountType::Base
}

/// A library labelled `label` on `chain`.
pub open spec fn library_is(l: LibraryInfo, label: Seq<char>, chain: Seq<char>) -> bool {
    l.label@ == label && l.domain.chain@ == chain
}

/// A link from account `input` through library `library` to account `output`.
pub open spec fn link_is(l: Link, library: u64, input: u64, output: u64) -> bool {
    &&& l.library == (LibraryHandle { id: library })
    &&& l.input_accounts@ == seq![AccountHandle { id: input }]
    &&& l.output_accounts@ == seq![AccountHandle { id: output }]
}

/// The native denomination `denom`.
pub open spec fn native(d: Denom, denom: Seq<char>) -> bool {
    d is Native && d->Native_0@ == denom
}

/// An execute message calling `process_function`, whose payload must name
/// `process_function` and `action`.
pub open spec fn details_is(m: MessageDetails, action: Seq<char>) -> bool {
    &&& m.message_type == MessageType::CosmwasmExecuteMsg
    &&& m.message.name@ == "process_function"@
    &&& m.message.params_restrictions is Some
    &&& m.message.params_restrictions->Some_0@.len() == 1
    &&& m.message.params_restrictions->Some_0@[0] is MustBeIncluded
    &&& ({
        let tokens = m.message.params_restrictions->Some_0@[0]->MustBeIncluded_0@;
        tokens.len() == 2 && tokens[0]@ == "process_function"@ && tokens[1]@ == action
    })
}

/// No explicit domain, or the external domain `chain`.
pub open spec fn domain_is(d: Option<FunctionDomain>, external: Option<Seq<char>>) -> bool {
    match external {
        None => d is None,
        Some(chain) => d is Some && d->Some_0 is External && d->Some_0->External_0@ == chain,
    }
}

pub open spec fn chain_view(external: Option<&str>) -> Option<Seq<char>> {
    match external {
        None => None,
        Some(s) => Some(s@),
    }
}

/// An authorization `label` running one `process_function` call with `action`
/// on library `library`, with explicit domain `external` if any.
pub open spec fn call_is(
    a: Authorization,
    label: Seq<char>,
    library: u64,
    external: Option<Seq<char>>,
    action: Seq<char>,
) -> bool {
    &&& a.label@ == label
    &&& a.subroutine.functions@.len() == 1
    &&& a.subroutine.functions@[0].contract_address == (LibraryHandle { id: library })
    &&& domain_is(a.subroutine.functions@[0].domain, external)
    &&& details_is(a.subroutine.functions@[0].message_details, action)
}

/// Only `address` may call, with no cap on calls.
pub open spec fn allow_list_of(m: AuthorizationMode, address: Seq<char>) -> bool {
    &&& m is Permissioned
    &&& m->Permissioned_0 is WithoutCallLimit
    &&& m->Permissioned_0->WithoutCallLimit_0@.len() == 1
    &&& m->Permissioned_0->WithoutCallLimit_0@[0]@ == address
}

/// An Astroport concentrated pool with a native liquidity token.
pub open spec fn concentrated(p: PoolType) -> bool {
    p is NativeLpToken && p->NativeLpToken_0 is Custom && p->NativeLpToken_0->Custom_0@
        == "concentrated"@
}

/// Astroport liquidity from account `input` into `output`, on `pool` with the given assets.
pub open spec fn lper_is(
    c: LibraryConfig,
    input: u64,
    output: u64,
    pool: Seq<char>,
    asset1: Seq<char>,
    asset2: Seq<char>,
) -> bool {
    &&& c is ValenceAstroportLper
    &&& c->ValenceAstroportLper_0.input_addr.id == input
    &&& c->ValenceAstroportLper_0.output_addr.id == output
    &&& c->ValenceAstroportLper_0.pool_addr@ == pool
    &&& concentrated(c->ValenceAstroportLper_0.pool_type)
    &&& c->ValenceAstroportLper_0.asset_data.asset1@ == asset1
    &&& c->ValenceAstroportLper_0.asset_data.asset2@ == asset2
}

/// An Astroport withdrawal from account `input` into `output`, on `pool` with the given assets.
pub open spec fn withdrawer_is(
    c: LibraryConfig,
    input: u64,
    output: u64,
    pool: Seq<char>,
    asset1: Seq<char>,
    asset2: Seq<char>,
) -> bool {
    &&& c is ValenceAstroportWithdrawer
    &&& c->ValenceAstroportWithdrawer_0.input_addr.id == input
    &&& c->ValenceAstroportWithdrawer_0.output_addr.id == output
    &&& c->ValenceAstroportWithdrawer_0.pool_addr@ == pool
    &&& concentrated(c->ValenceAstroportWithdrawer_0.pool_type)
    &&& c->ValenceAstroportWithdrawer_0.asset_data.asset1@ == asset1
    &&& c->ValenceAstroportWithdrawer_0.asset_data.asset2@ == asset2
}

/// A full-balance IBC transfer of native `denom` from account `input` to
/// `output` over `channel`, with a single packet-forward entry for `denom`
/// that hops on over `onward_channel` through `receiver`.
pub open spec fn ibc_transfer_is(
    t: IbcTransferConfig,
    input: u64,
    output: u64,
    denom: Seq<char>,
    memo: Seq<char>,
    channel: Seq<char>,
    timeout: u64,
    onward_channel: Seq<char>,
    receiver: Seq<char>,
) -> bool {
    &&& t.input_addr.id == input
    &&& t.output_addr.id == output
    &&& native(t.denom, denom)
    &&& t.amount is FullAmount
    &&& t.memo@ == memo
    &&& t.channel_id@ == channel
    &&& t.ibc_transfer_timeout == Some(timeout)
    &&& t.denom_to_pfm_map@.len() == 1
    &&& t.denom_to_pfm_map@[0].denom@ == denom
    &&& t.denom_to_pfm_map@[0].config.local_to_hop_chain_channel_id@ == channel
    &&& t.denom_to_pfm_map@[0].config.hop_to_destination_chain_channel_id@ == onward_channel
    &&& t.denom_to_pfm_map@[0].config.hop_chain_receiver_address@ == receiver
}

/// A forwarder from account `input` to `output` moving at most `max` of each
/// native denomination in `denoms`, in that order.
pub open spec fn forwarder_is(
    c: LibraryConfig,
    input: u64,
    output: u64,
    denoms: Seq<Seq<char>>,
    max: u128,
) -> bool {
    &&& c is ValenceForwarderLibrary
    &&& c->ValenceForwarderLibrary_0.input_addr.id == input
    &&& c->ValenceForwarderLibrary_0.output_addr.id == output
    &&& c->ValenceForwarderLibrary_0.forwarding_configs@.len() == denoms.len()
    &&& forall|i: int|
        0 <= i < denoms.len() ==> native(
            (#[trigger] c->ValenceForwarderLibrary_0.forwarding_configs@[i]).denom,
            denoms[i],
        ) && c->ValenceForwarderLibrary_0.forwarding_configs@[i].max_amount == max
}

/// A full-balance IBC transfer, with one packet-forward entry for its denomination.
pub fn ibc_transfer(
    input: AccountHandle,
    output: AccountHandle,
    denom: &String,
    memo: &str,
    channel: &String,
    timeout: u64,
    onward_channel: &String,
    receiver: &str,
) -> (r: IbcTransferConfig)
    ensures
        ibc_transfer_is(
            r,
            input.id,
            output.id,
            denom@,
            memo@,
            channel@,
            timeout,
            onward_channel@,
            receiver@,
        ),
{
    let mut pfm = Vec::new();
    pfm.push(
        crate::library::PfmEntry {
            denom: denom.clone(),
            config: crate::library::PfmConfig {
                local_to_hop_chain_channel_id: channel.clone(),
                hop_to_destination_chain_channel_id: onward_channel.clone(),
                hop_chain_receiver_address: receiver.to_owned(),
            },
        },
    );
    IbcTransferConfig {
        input_addr: input,
        output_addr: output,
        denom: Denom::Native(denom.clone()),
        amount: IbcTransferAmount::FullAmount,
        memo: memo.to_owned(),
        channel_id: channel.clone(),
        ibc_transfer_timeout: Some(timeout),
        denom_to_pfm_map: pfm,
    }
}

/// Links account `input` through `library` to account `output`.
pub fn link(
    builder: &mut ProgramConfigBuilder,
    library: LibraryHandle,
    input: AccountHandle,
    output: AccountHandle,
)
    requires
        old(builder).well_formed(),
        old(builder).library_registered(library),
        old(builder).account_registered(input),
        old(builder).account_registered(output),
    ensures
        final(builder).links().len() == old(builder).links().len() + 1,
        final(builder).links().drop_last() == old(builder).links(),
        link_is(final(builder).links().last(), library.id, input.id, output.id),
        final(builder).name() == old(builder).name(),
        final(builder).owner() == old(builder).owner(),
        final(builder).home() == old(builder).home(),
        final(builder).accounts() == old(builder).accounts(),
        final(builder).libraries() == old(builder).libraries(),
        final(builder).authorizations() == old(builder).authorizations(),
        final(builder).well_formed(),
{
    let ghost before = old(builder).links();
    let inputs = vec![input];
    let outputs = vec![output];
    assert(inputs@ == seq![AccountHandle { id: input.id }]);
    assert(outputs@ == seq![AccountHandle { id: output.id }]);
    builder.add_link(library, inputs, outputs).unwrap();
    assert(builder.links().drop_last() =~= before);
    assert(builder.links().last().library == (LibraryHandle { id: library.id }));
}

/// An execute message calling `process_function`, whose payload must name
/// `process_function` and `action`.
pub fn process_function(action: &str) -> (r: MessageDetails)
    ensures
        details_is(r, action@),
{
    let mut tokens = Vec::new();
    tokens.push("process_function".to_owned());
    tokens.push(action.to_owned());
    MessageDetails {
        message_type: MessageType::CosmwasmExecuteMsg,
        message: Message {
            name: "process_function".to_owned(),
            params_restrictions: Some(vec![ParamRestriction::MustBeIncluded(tokens)]),
        },
    }
}

/// Adds an authorization `label` that runs one `process_function` call with
/// `action` on `library`. A library off the home chain is called with its
/// external domain `external`; one on it with no explicit domain.
pub fn authorize(
    builder: &mut ProgramConfigBuilder,
    label: &str,
    mode: AuthorizationMode,
    library: LibraryHandle,
    external: Option<&str>,
    action: &str,
)
    requires
        old(builder).well_formed(),
        label@.len() > 0,
        !label_taken(old(builder).authorizations(), label@),
        old(builder).library_registered(library),
        (library_at(old(builder).libraries(), library).domain.chain@ != old(builder).home().chain@)
            == (external is Some),
    ensures
        final(builder).authorizations().len() == old(builder).authorizations().len() + 1,
        final(builder).authorizations().drop_last() == old(builder).authorizations(),
        call_is(final(builder).authorizations().last(), label@, library.id, chain_view(external), action@),
        final(builder).authorizations().last().mode == mode,
        final(builder).name() == old(builder).name(),
        final(builder).owner() == old(builder).owner(),
        final(builder).home() == old(builder).home(),
        final(builder).accounts() == old(builder).accounts(),
        final(builder).libraries() == old(builder).libraries(),
        final(builder).links() == old(builder).links(),
        final(builder).well_formed(),
{
    let function_builder = AtomicFunctionBuilder::new();
    let function_builder = match external {
        Some(chain) => function_builder.with_domain(FunctionDomain::External(chain.to_owned())),
        None => function_builder,
    };
    let function: AtomicFunction = function_builder.with_contract_address(library).with_message_details(
        process_function(action),
    ).build().unwrap();
    let subroutine = AtomicSubroutineBuilder::new().with_function(function).build().unwrap();
    let authorization: Authorization = AuthorizationBuilder::new().with_mode(mode).with_label(
        label,
    ).with_subroutine(subroutine).build().unwrap();
    assert(authorization.subroutine.functions@ =~= seq![function]);
    assert(function_placed(old(builder).home(), old(builder).libraries(), function));
    let ghost before = old(builder).authorizations();
    builder.add_authorization(authorization).unwrap();
    assert(builder.authorizations().drop_last() =~= before);
}

} // verus!
