//! Programs written with the builder, one per module.

pub mod astroport_lper;
pub mod common;
pub mod crosschain_astroport_lper;
pub mod neutron_to_osmosis_crosschain_lper;
pub mod osmosis_token_forwarder;
pub mod program_template;
