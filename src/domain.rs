use vstd::prelude::*;

verus! {

/// The chain an account or a library lives on.
pub struct Domain {
    pub chain: String,
}

impl Domain {
    /// A CosmWasm chain, named as the network configuration names it.
    pub fn cosmos_cosmwasm(chain: &str) -> (r: Domain)
        ensures
            r.chain@ == chain@,
    {
        Domain { chain: chain.to_owned() }
    }
}

impl Clone for Domain {
    fn clone(&self) -> (r: Self)
        ensures
            r == *self,
    {
        Domain { chain: self.chain.clone() }
    }
}

/// Where an atomic function is executed, as the authorization contract sees it:
/// on the program's home chain, or on a named external chain.
pub enum FunctionDomain {
    Main,
    External(String),
}

impl FunctionDomain {
    pub open spec fn is_external(&self) -> bool {
        self is External
    }
}

} // verus!
