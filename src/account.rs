use vstd::prelude::*;

use crate::domain::Domain;

verus! {

/// Opaque reference to an account of one builder, handed out by `add_account`.
#[derive(Clone, Copy, Debug, PartialEq, Eq, Structural)]
pub struct AccountHandle {
    pub id: u64,
}

/// The kind of an account: the plain base account, or a specialised one.
#[derive(Clone, Copy, Debug, PartialEq, Eq, Structural)]
pub enum AccountType {
    Base,
    Interchain,
}

impl Default for AccountType {
    fn default() -> (r: Self)
        ensures
            r == AccountType::Base,
    {
        AccountType::Base
    }
}

/// An account as declared by a program: a label for display, its chain and its kind.
pub struct AccountInfo {
    pub label: String,
    pub domain: Domain,
    pub kind: AccountType,
}

impl AccountInfo {
    pub fn new(label: String, domain: &Domain, kind: AccountType) -> (r: AccountInfo)
        ensures
            r.label == label,
            r.domain == *domain,
            r.kind == kind,
    {
        AccountInfo { label, domain: domain.clone(), kind }
    }
}

} // verus!
