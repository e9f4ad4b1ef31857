use deployer_lib::authorization::{AuthorizationMode, PermissionType};
use deployer_lib::domain::FunctionDomain;
use deployer_lib::library::LibraryConfig;
use deployer_lib::params::{ProgramError, ProgramParams};
use deployer_lib::program_config::ProgramConfig;
use deployer_lib::programs::{
    astroport_lper, crosschain_astroport_lper, neutron_to_osmosis_crosschain_lper,
    osmosis_token_forwarder, program_template,
};

fn params(pairs: &[(&str, &str)]) -> ProgramParams {
    let mut p = ProgramParams::new();
    for (k, v) in pairs {
        p.insert(k, v);
    }
    p
}

fn expect_err(r: Result<ProgramConfig, ProgramError>) -> ProgramError {
    match r {
        Err(e) => e,
        Ok(_) => panic!("expected a missing parameter"),
    }
}

fn missing_key(e: ProgramError) -> String {
    match e {
        ProgramError::MissingParameter(k) => k,
    }
}

fn labels(c: &ProgramConfig) -> Vec<String> {
    c.authorizations.iter().map(|a| a.label.clone()).collect()
}

#[test]
fn template_program() {
    let c = program_template::program_builder(params(&[("owner", "neutron1owner")])).unwrap();
    assert_eq!(c.owner, "neutron1owner");
    assert_eq!(c.name, "test_program");
    assert_eq!((c.accounts.len(), c.libraries.len(), c.links.len()), (2, 1, 1));
    assert_eq!(labels(&c), vec!["swap"]);
    match &c.libraries[0].config {
        LibraryConfig::ValenceSplitterLibrary(s) => {
            assert_eq!(s.splits.len(), 1);
            assert_eq!(s.splits[0].amount, 1_000_000_000);
            assert_eq!((s.input_addr.id, s.splits[0].account.id), (1, 2));
        }
        _ => panic!("expected a splitter"),
    }
    let e = expect_err(program_template::program_builder(params(&[])));
    assert_eq!(missing_key(e), "owner");
}

#[test]
fn osmosis_forwarder_program() {
    let c = osmosis_token_forwarder::program_builder(params(&[("owner", "o")])).unwrap();
    assert_eq!(c.name, "osmosis_token_forwarder");
    assert_eq!((c.accounts.len(), c.libraries.len(), c.links.len()), (2, 2, 2));
    assert_eq!(labels(&c), vec!["A_to_B", "B_to_A"]);
    for a in &c.authorizations {
        assert!(matches!(
            &a.subroutine.functions[0].domain,
            Some(FunctionDomain::External(d)) if d == "osmosis"
        ));
    }
}

#[test]
fn astroport_program() {
    let all = [
        ("owner", "o"),
        ("pool_addr", "pool"),
        ("ntrn_denom", "untrn"),
        ("atom_denom", "uatom"),
        ("permissioned_withdrawer", "w"),
    ];
    let c = astroport_lper::program_builder(params(&all)).unwrap();
    assert_eq!((c.accounts.len(), c.libraries.len(), c.links.len()), (3, 2, 2));
    assert_eq!(labels(&c), vec!["provide_liquidity", "withdraw_liquidity"]);
    match &c.authorizations[1].mode {
        AuthorizationMode::Permissioned(PermissionType::WithoutCallLimit(a)) => {
            assert_eq!(a, &vec!["w".to_string()])
        }
        _ => panic!("expected the permissioned withdrawer"),
    }
    let e = expect_err(astroport_lper::program_builder(params(&all[..3])));
    assert_eq!(missing_key(e), "atom_denom");
}

#[test]
fn crosschain_astroport_program() {
    let all = [
        ("owner", "o"),
        ("permissioned_withdrawer", "w"),
        ("usdc_on_terra", "uusdc"),
        ("usdc_on_neutron", "ibc/usdc"),
        ("ntrn_on_neutron", "untrn"),
        ("usdc_ntrn_pool_addr", "pool"),
        ("terra_noble_ibc_channel_id", "channel-1"),
        ("noble_neutron_ibc_channel_id", "channel-2"),
    ];
    let c = crosschain_astroport_lper::program_builder(params(&all)).unwrap();
    assert_eq!((c.accounts.len(), c.libraries.len(), c.links.len()), (4, 3, 3));
    assert_eq!(
        labels(&c),
        vec!["transfer_usdc_terra_to_neutron", "provide_liquidity", "withdraw_liquidity"]
    );
    match &c.libraries[0].config {
        LibraryConfig::ValenceGenericIbcTransferLibrary(t) => {
            assert_eq!(t.ibc_transfer_timeout, Some(600));
            assert_eq!(t.denom_to_pfm_map[0].config.hop_chain_receiver_address, "invalid-pfm");
        }
        _ => panic!("expected an IBC transfer"),
    }
    let e = expect_err(crosschain_astroport_lper::program_builder(params(&all[1..])));
    assert_eq!(missing_key(e), "owner");
}

fn osmosis_params(timeout: &str, pool: &str, lower: &str, upper: &str, max: &str) -> ProgramParams {
    params(&[
        ("owner", "o"),
        ("neutron_stride_channel", "c1"),
        ("stride_osmosis_channel", "c2"),
        ("osmosis_stride_channel", "c3"),
        ("stride_neutron_channel", "c4"),
        ("neutron_cosmos_channel", "c5"),
        ("cosmos_osmosis_channel", "c6"),
        ("osmosis_cosmos_channel", "c7"),
        ("cosmos_neutron_channel", "c8"),
        ("ibc_timeout_seconds", timeout),
        ("pool_id", pool),
        ("lower_tick", lower),
        ("upper_tick", upper),
        ("neutron_atom_denom", "natom"),
        ("neutron_statom_denom", "nstatom"),
        ("osmosis_atom_denom", "oatom"),
        ("osmosis_statom_denom", "ostatom"),
        ("max_forward_amount", max),
    ])
}

#[test]
fn neutron_to_osmosis_program() {
    let c = neutron_to_osmosis_crosschain_lper::program_builder(osmosis_params(
        "120", "7", "-50", "50", "1000",
    ))
    .unwrap();
    assert_eq!((c.accounts.len(), c.libraries.len(), c.links.len()), (5, 7, 7));
    assert_eq!(
        labels(&c),
        vec![
            "IBC_Transfer_Neutron_to_Osmosis_ATOM",
            "IBC_Transfer_Neutron_to_Osmosis_STATOM",
            "Provide_Liquidity",
            "Withdraw_Liquidity",
            "IBC_Transfer_Osmosis_to_Neutron_ATOM",
            "Forward_Tokens",
            "IBC_Transfer_Osmosis_to_Neutron_STATOM",
        ]
    );
    let forward_link = &c.links[6];
    assert_eq!(
        (forward_link.library.id, forward_link.input_accounts[0].id, forward_link.output_accounts[0].id),
        (7, 2, 1)
    );
    assert!(c
        .authorizations
        .iter()
        .all(|a| matches!(a.mode, AuthorizationMode::Permissionless)));
    match &c.libraries[0].config {
        LibraryConfig::ValenceNeutronIbcTransferLibrary(t) => {
            assert_eq!(t.ibc_transfer_timeout, Some(120))
        }
        _ => panic!("expected a Neutron IBC transfer"),
    }
    match &c.libraries[2].config {
        LibraryConfig::ValenceOsmosisClLper(l) => {
            assert_eq!((l.pool_id, l.lower_tick, l.upper_tick), (7, -50, 50))
        }
        _ => panic!("expected a CL provider"),
    }
    match &c.libraries[6].config {
        LibraryConfig::ValenceForwarderLibrary(f) => {
            assert_eq!(f.forwarding_configs[0].max_amount, 1000)
        }
        _ => panic!("expected a forwarder"),
    }
}

#[test]
fn neutron_to_osmosis_defaults_for_unparsable_numbers() {
    let c = neutron_to_osmosis_crosschain_lper::program_builder(osmosis_params(
        "soon", "x", "low", "high", "lots",
    ))
    .unwrap();
    match &c.libraries[0].config {
        LibraryConfig::ValenceNeutronIbcTransferLibrary(t) => {
            assert_eq!(t.ibc_transfer_timeout, Some(3600))
        }
        _ => panic!("expected a Neutron IBC transfer"),
    }
    match &c.libraries[2].config {
        LibraryConfig::ValenceOsmosisClLper(l) => {
            assert_eq!((l.pool_id, l.lower_tick, l.upper_tick), (1, -100000, 100000))
        }
        _ => panic!("expected a CL provider"),
    }
    match &c.libraries[6].config {
        LibraryConfig::ValenceForwarderLibrary(f) => assert_eq!(f.forwarding_configs[1].max_amount, 0),
        _ => panic!("expected a forwarder"),
    }
}

#[test]
fn neutron_to_osmosis_needs_every_parameter() {
    let mut p = ProgramParams::new();
    p.insert("owner", "o");
    let e = expect_err(neutron_to_osmosis_crosschain_lper::program_builder(p));
    assert_eq!(missing_key(e), "neutron_stride_channel");
}
