use deployer_lib::account::{AccountHandle, AccountInfo, AccountType};
use deployer_lib::authorization::{
    AssemblyError, AtomicFunction, AtomicFunctionBuilder, AtomicSubroutineBuilder,
    AuthorizationBuilder, AuthorizationMode, CallLimit, Message, MessageDetails, MessageType,
    ParamRestriction, PermissionType,
};
use deployer_lib::domain::{Domain, FunctionDomain};
use deployer_lib::library::{
    Denom, ForwarderConfig, ForwardingConfig, LibraryConfig, LibraryHandle, LibraryInfo,
};
use deployer_lib::program_config::{BuildError, ProgramConfigBuilder};

fn details(action: &str) -> MessageDetails {
    MessageDetails {
        message_type: MessageType::CosmwasmExecuteMsg,
        message: Message {
            name: "process_function".to_string(),
            params_restrictions: Some(vec![ParamRestriction::MustBeIncluded(vec![
                "process_function".to_string(),
                action.to_string(),
            ])]),
        },
    }
}

fn function(library: LibraryHandle, domain: Option<FunctionDomain>) -> AtomicFunction {
    let b = AtomicFunctionBuilder::new().with_contract_address(library);
    let b = match domain {
        Some(d) => b.with_domain(d),
        None => b,
    };
    b.with_message_details(details("forward")).build().unwrap()
}

fn single(label: &str, f: AtomicFunction) -> deployer_lib::authorization::Authorization {
    AuthorizationBuilder::new()
        .with_label(label)
        .with_subroutine(AtomicSubroutineBuilder::new().with_function(f).build().unwrap())
        .build()
        .unwrap()
}

fn forwarder(input: AccountHandle, output: AccountHandle) -> LibraryConfig {
    LibraryConfig::ValenceForwarderLibrary(ForwarderConfig {
        input_addr: input,
        output_addr: output,
        forwarding_configs: vec![ForwardingConfig {
            denom: Denom::Native("untrn".to_string()),
            max_amount: 10,
        }],
    })
}

fn account(builder: &mut ProgramConfigBuilder, label: &str, chain: &str) -> AccountHandle {
    builder.add_account(AccountInfo::new(
        label.to_string(),
        &Domain::cosmos_cosmwasm(chain),
        AccountType::default(),
    ))
    .unwrap()
}

#[test]
fn scenario_a_forwarding_program() {
    let mut builder = ProgramConfigBuilder::new("forward", "owner1");
    let x = account(&mut builder, "X", "neutron");
    let y = account(&mut builder, "Y", "neutron");
    let lib = builder.add_library(LibraryInfo::new(
        "fwd".to_string(),
        &Domain::cosmos_cosmwasm("neutron"),
        forwarder(x, y),
    )).unwrap();
    assert_eq!(builder.add_link(lib, vec![x], vec![y]), Ok(()));
    assert_eq!(builder.add_authorization(single("forward", function(lib, None))), Ok(()));
    let config = builder.build();
    assert_eq!(config.accounts.len(), 2);
    assert_eq!(config.libraries.len(), 1);
    assert_eq!(config.links.len(), 1);
    assert_eq!(config.links[0].library, lib);
    assert_eq!(config.links[0].input_accounts, vec![x]);
    assert_eq!(config.links[0].output_accounts, vec![y]);
    assert_eq!(config.authorizations.len(), 1);
    assert!(matches!(config.authorizations[0].mode, AuthorizationMode::Permissionless));
    assert_eq!(config.owner, "owner1");
    assert_eq!(config.id, None);
}

#[test]
fn handles_count_up_from_one() {
    let mut builder = ProgramConfigBuilder::new("p", "o");
    let a = account(&mut builder, "a", "neutron");
    let b = account(&mut builder, "b", "neutron");
    assert_eq!((a.id, b.id), (1, 2));
    let lib = builder.add_library(LibraryInfo::new(
        "l".to_string(),
        &Domain::cosmos_cosmwasm("neutron"),
        forwarder(a, b),
    )).unwrap();
    assert_eq!(lib.id, 1);
}

#[test]
fn link_with_unregistered_account_is_refused() {
    let mut builder = ProgramConfigBuilder::new("p", "o");
    let a = account(&mut builder, "a", "neutron");
    let lib = builder.add_library(LibraryInfo::new(
        "l".to_string(),
        &Domain::cosmos_cosmwasm("neutron"),
        forwarder(a, a),
    )).unwrap();
    let ghost_account = AccountHandle { id: 2 };
    assert_eq!(
        builder.add_link(lib, vec![a], vec![ghost_account]),
        Err(BuildError::DanglingReference)
    );
    assert_eq!(
        builder.add_link(lib, vec![AccountHandle { id: 0 }], vec![a]),
        Err(BuildError::DanglingReference)
    );
    assert_eq!(builder.add_link(lib, vec![a], vec![a]), Ok(()));
    assert_eq!(builder.build().links.len(), 1);
}

#[test]
fn link_with_unregistered_library_is_refused() {
    let mut builder = ProgramConfigBuilder::new("p", "o");
    let a = account(&mut builder, "a", "neutron");
    let b = account(&mut builder, "b", "neutron");
    assert_eq!(
        builder.add_link(LibraryHandle { id: 1 }, vec![a], vec![b]),
        Err(BuildError::DanglingReference)
    );
    assert_eq!(builder.build().links.len(), 0);
}

#[test]
fn duplicate_label_is_refused() {
    let mut builder = ProgramConfigBuilder::new("p", "o");
    let a = account(&mut builder, "a", "neutron");
    let b = account(&mut builder, "b", "neutron");
    let lib = builder.add_library(LibraryInfo::new(
        "l".to_string(),
        &Domain::cosmos_cosmwasm("neutron"),
        forwarder(a, b),
    )).unwrap();
    assert_eq!(builder.add_authorization(single("go", function(lib, None))), Ok(()));
    assert_eq!(
        builder.add_authorization(single("go", function(lib, None))),
        Err(BuildError::DuplicateLabel)
    );
    assert_eq!(builder.add_authorization(single("go_again", function(lib, None))), Ok(()));
    let config = builder.build();
    assert_eq!(config.authorizations.len(), 2);
    assert_eq!(config.authorizations[0].label, "go");
    assert_eq!(config.authorizations[1].label, "go_again");
}

#[test]
fn function_on_unregistered_library_is_refused() {
    let mut builder = ProgramConfigBuilder::new("p", "o");
    assert_eq!(
        builder.add_authorization(single("go", function(LibraryHandle { id: 3 }, None))),
        Err(BuildError::DanglingReference)
    );
}

#[test]
fn cross_domain_function_must_name_its_domain() {
    let mut builder = ProgramConfigBuilder::new("p", "o");
    let a = account(&mut builder, "a", "osmosis");
    let b = account(&mut builder, "b", "osmosis");
    let lib = builder.add_library(LibraryInfo::new(
        "l".to_string(),
        &Domain::cosmos_cosmwasm("osmosis"),
        forwarder(a, b),
    )).unwrap();
    assert_eq!(
        builder.add_authorization(single("implicit", function(lib, None))),
        Err(BuildError::DomainMismatch)
    );
    assert_eq!(
        builder.add_authorization(single("main", function(lib, Some(FunctionDomain::Main)))),
        Err(BuildError::DomainMismatch)
    );
    assert_eq!(
        builder.add_authorization(single(
            "external",
            function(lib, Some(FunctionDomain::External("osmosis".to_string())))
        )),
        Ok(())
    );
}

#[test]
fn home_library_must_not_claim_an_external_domain() {
    let mut builder = ProgramConfigBuilder::new("p", "o");
    let a = account(&mut builder, "a", "neutron");
    let lib = builder.add_library(LibraryInfo::new(
        "l".to_string(),
        &Domain::cosmos_cosmwasm("neutron"),
        forwarder(a, a),
    )).unwrap();
    assert_eq!(
        builder.add_authorization(single(
            "x",
            function(lib, Some(FunctionDomain::External("neutron".to_string())))
        )),
        Err(BuildError::DomainMismatch)
    );
}

#[test]
fn build_keeps_registries_in_order() {
    let mut builder = ProgramConfigBuilder::new("p", "o");
    let a = account(&mut builder, "first", "neutron");
    let b = account(&mut builder, "second", "neutron");
    builder.add_library(LibraryInfo::new(
        "l".to_string(),
        &Domain::cosmos_cosmwasm("neutron"),
        forwarder(a, b),
    )).unwrap();
    let config = builder.build();
    assert_eq!(config.name, "p");
    assert_eq!(config.home.chain, "neutron");
    assert_eq!(config.accounts[0].label, "first");
    assert_eq!(config.accounts[1].label, "second");
    assert_eq!(config.libraries[0].label, "l");
    assert_eq!(config.id, None);
}

#[test]
fn scenario_d_permissioned_without_call_limit() {
    let f = function(LibraryHandle { id: 1 }, None);
    let authorization = AuthorizationBuilder::new()
        .with_mode(AuthorizationMode::Permissioned(PermissionType::WithoutCallLimit(vec![
            "addr1".to_string(),
            "addr2".to_string(),
        ])))
        .with_label("restricted")
        .with_subroutine(AtomicSubroutineBuilder::new().with_function(f).build().unwrap())
        .build()
        .unwrap();
    match &authorization.mode {
        AuthorizationMode::Permissioned(PermissionType::WithoutCallLimit(addrs)) => {
            assert_eq!(addrs, &vec!["addr1".to_string(), "addr2".to_string()]);
        }
        _ => panic!("expected an allow-list without call limit"),
    }
    let capped = AuthorizationMode::Permissioned(PermissionType::WithCallLimit(vec![CallLimit {
        address: "addr1".to_string(),
        max_calls: 3,
    }]));
    assert!(!matches!(
        capped,
        AuthorizationMode::Permissioned(PermissionType::WithoutCallLimit(_))
    ));
}

#[test]
fn assembly_errors() {
    assert_eq!(
        AtomicFunctionBuilder::new().with_message_details(details("x")).build().err(),
        Some(AssemblyError::MissingLibrary)
    );
    assert_eq!(
        AtomicFunctionBuilder::new().with_contract_address(LibraryHandle { id: 1 }).build().err(),
        Some(AssemblyError::MissingMessage)
    );
    assert_eq!(AtomicSubroutineBuilder::new().build().err(), Some(AssemblyError::EmptySubroutine));
    let sub = || {
        AtomicSubroutineBuilder::new()
            .with_function(function(LibraryHandle { id: 1 }, None))
            .build()
            .unwrap()
    };
    assert_eq!(
        AuthorizationBuilder::new().with_subroutine(sub()).build().err(),
        Some(AssemblyError::MissingLabel)
    );
    assert_eq!(
        AuthorizationBuilder::new().with_label("").with_subroutine(sub()).build().err(),
        Some(AssemblyError::MissingLabel)
    );
    assert_eq!(
        AuthorizationBuilder::new().with_label("l").build().err(),
        Some(AssemblyError::MissingSubroutine)
    );
    let ok = AuthorizationBuilder::new().with_label("l").with_subroutine(sub()).build().unwrap();
    assert_eq!(ok.label, "l");
    assert_eq!(ok.subroutine.functions.len(), 1);
}

#[test]
fn subroutine_keeps_function_order() {
    let s = AtomicSubroutineBuilder::new()
        .with_function(function(LibraryHandle { id: 1 }, None))
        .with_function(function(LibraryHandle { id: 2 }, None))
        .build()
        .unwrap();
    assert_eq!(s.functions[0].contract_address.id, 1);
    assert_eq!(s.functions[1].contract_address.id, 2);
}

#[test]
fn unlabelled_account_or_library_is_refused() {
    let mut builder = ProgramConfigBuilder::new("p", "o");
    let neutron = Domain::cosmos_cosmwasm("neutron");
    assert_eq!(
        builder.add_account(AccountInfo::new(String::new(), &neutron, AccountType::default())),
        Err(BuildError::EmptyLabel)
    );
    let a = account(&mut builder, "a", "neutron");
    assert_eq!(a.id, 1);
    assert_eq!(
        builder.add_library(LibraryInfo::new(String::new(), &neutron, forwarder(a, a))),
        Err(BuildError::EmptyLabel)
    );
    let config = builder.build();
    assert_eq!(config.accounts.len(), 1);
    assert_eq!(config.libraries.len(), 0);
}
