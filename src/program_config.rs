use vstd::prelude::*;

use crate::account::{AccountHandle, AccountInfo};
use crate::authorization::{AtomicFunction, Authorization};
use crate::domain::{Domain, FunctionDomain};
use crate::library::{LibraryHandle, LibraryInfo};

verus! {

/// Declared data flow: from the input accounts through a library to the output accounts.
pub struct Link {
    pub input_accounts: Vec<AccountHandle>,
    pub library: LibraryHandle,
    pub output_accounts: Vec<AccountHandle>,
}

/// A finished program. Account handle `k` names `accounts[k - 1]`, library handle
/// `k` names `libraries[k - 1]`. The deployment id is set only by a deployment.
pub struct ProgramConfig {
    pub name: String,
    pub owner: String,
    pub home: Domain,
    pub accounts: Vec<AccountInfo>,
    pub libraries: Vec<LibraryInfo>,
    pub links: Vec<Link>,
    pub authorizations: Vec<Authorization>,
    pub id: Option<u64>,
}

/// Why the builder refused a link or an authorization.
#[derive(Clone, Copy, Debug, PartialEq, Eq, Structural)]
pub enum BuildError {
    /// A handle that this builder did not hand out.
    DanglingReference,
    /// An authorization label that is already taken.
    DuplicateLabel,
    /// An account or a library without a label.
    EmptyLabel,
    /// A function whose explicit domain does not match where its library lives:
    /// a library off the home domain needs an external domain, one on it must not have one.
    DomainMismatch,
}

pub open spec fn account_in(accounts: Seq<AccountInfo>, h: AccountHandle) -> bool {
    1 <= h.id <= accounts.len()
}

pub open spec fn library_in(libraries: Seq<LibraryInfo>, h: LibraryHandle) -> bool {
    1 <= h.id <= libraries.len()
}

pub open spec fn accounts_in(accounts: Seq<AccountInfo>, hs: Seq<AccountHandle>) -> bool {
    forall|i: int| 0 <= i < hs.len() ==> #[trigger] account_in(accounts, hs[i])
}

/// The library a registered handle names.
pub open spec fn library_at(libraries: Seq<LibraryInfo>, h: LibraryHandle) -> LibraryInfo {
    libraries[h.id - 1]
}

/// A call on `library` is placed correctly when its explicit domain, if any,
/// says "external" exactly when the library lives off the home chain; a call
/// without one must target a library on the home chain.
pub open spec fn placement_ok(
    home: Domain,
    libraries: Seq<LibraryInfo>,
    library: LibraryHandle,
    domain: Option<FunctionDomain>,
) -> bool {
    let foreign = library_at(libraries, library).domain.chain@ != home.chain@;
    match domain {
        None => !foreign,
        Some(d) => d.is_external() == foreign,
    }
}

pub open spec fn function_placed(
    home: Domain,
    libraries: Seq<LibraryInfo>,
    f: AtomicFunction,
) -> bool {
    placement_ok(home, libraries, f.contract_address, f.domain)
}

pub open spec fn functions_registered(libraries: Seq<LibraryInfo>, fs: Seq<AtomicFunction>) -> bool {
    forall|i: int| 0 <= i < fs.len() ==> library_in(libraries, #[trigger] fs[i].contract_address)
}

pub open spec fn functions_placed(
    home: Domain,
    libraries: Seq<LibraryInfo>,
    fs: Seq<AtomicFunction>,
) -> bool {
    forall|i: int| 0 <= i < fs.len() ==> function_placed(home, libraries, #[trigger] fs[i])
}

pub open spec fn label_taken(authorizations: Seq<Authorization>, label: Seq<char>) -> bool {
    exists|i: int| 0 <= i < authorizations.len() && #[trigger] authorizations[i].label@ == label
}

pub open spec fn labels_unique(authorizations: Seq<Authorization>) -> bool {
    forall|i: int, j: int|
        0 <= i < j < authorizations.len() ==> #[trigger] authorizations[i].label@
            != #[trigger] authorizations[j].label@
}

pub open spec fn link_registered(
    accounts: Seq<AccountInfo>,
    libraries: Seq<LibraryInfo>,
    link: Link,
) -> bool {
    &&& library_in(libraries, link.library)
    &&& accounts_in(accounts, link.input_accounts@)
    &&& accounts_in(accounts, link.output_accounts@)
}

pub open spec fn authorization_valid(
    home: Domain,
    libraries: Seq<LibraryInfo>,
    a: Authorization,
) -> bool {
    &&& functions_registered(libraries, a.subroutine.functions@)
    &&& functions_placed(home, libraries, a.subroutine.functions@)
}

/// The graph's invariant: links and authorizations refer only to registered
/// handles, every function is placed on the right domain, and labels are unique.
pub open spec fn graph_well_formed(
    home: Domain,
    accounts: Seq<AccountInfo>,
    libraries: Seq<LibraryInfo>,
    links: Seq<Link>,
    authorizations: Seq<Authorization>,
) -> bool {
    &&& forall|i: int| 0 <= i < links.len() ==> link_registered(accounts, libraries, #[trigger] links[i])
    &&& forall|i: int|
        0 <= i < authorizations.len() ==> authorization_valid(home, libraries, #[trigger] authorizations[i])
    &&& labels_unique(authorizations)
}

impl ProgramConfig {
    pub open spec fn well_formed(&self) -> bool {
        graph_well_formed(
            self.home,
            self.accounts@,
            self.libraries@,
            self.links@,
            self.authorizations@,
        )
    }
}

/// Accumulates a program's accounts, libraries, links and authorizations.
/// Authorizations run on the home chain, Neutron.
pub struct ProgramConfigBuilder {
    name: String,
    owner: String,
    home: Domain,
    accounts: Vec<AccountInfo>,
    libraries: Vec<LibraryInfo>,
    links: Vec<Link>,
    authorizations: Vec<Authorization>,
}

impl ProgramConfigBuilder {
    pub closed spec fn name(&self) -> Seq<char> {
        self.name@
    }

    pub closed spec fn owner(&self) -> Seq<char> {
        self.owner@
    }

    pub closed spec fn home(&self) -> Domain {
        self.home
    }

    pub closed spec fn accounts(&self) -> Seq<AccountInfo> {
        self.accounts@
    }

    pub closed spec fn libraries(&self) -> Seq<LibraryInfo> {
        self.libraries@
    }

    pub closed spec fn links(&self) -> Seq<Link> {
        self.links@
    }

    pub closed spec fn authorizations(&self) -> Seq<Authorization> {
        self.authorizations@
    }

    pub open spec fn well_formed(&self) -> bool {
        graph_well_formed(
            self.home(),
            self.accounts(),
            self.libraries(),
            self.links(),
            self.authorizations(),
        )
    }

    pub open spec fn account_registered(&self, h: AccountHandle) -> bool {
        account_in(self.accounts(), h)
    }

    pub open spec fn library_registered(&self, h: LibraryHandle) -> bool {
        library_in(self.libraries(), h)
    }

    /// What `add_authorization` accepts: a fresh label, registered libraries,
    /// and every function on the right domain.
    pub open spec fn accepts_authorization(&self, a: Authorization) -> bool {
        &&& !label_taken(self.authorizations(), a.label@)
        &&& authorization_valid(self.home(), self.libraries(), a)
    }

    pub fn new(name: &str, owner: &str) -> (r: Self)
        ensures
            r.name() == name@,
            r.owner() == owner@,
            r.home().chain@ == "neutron"@,
            r.accounts().len() == 0,
            r.libraries().len() == 0,
            r.links().len() == 0,
            r.authorizations().len() == 0,
            r.well_formed(),
    {
        ProgramConfigBuilder {
            name: name.to_owned(),
            owner: owner.to_owned(),
            home: Domain::cosmos_cosmwasm("neutron"),
            accounts: Vec::new(),
            libraries: Vec::new(),
            links: Vec::new(),
            authorizations: Vec::new(),
        }
    }

    fn push_account(&mut self, info: AccountInfo) -> (r: AccountHandle)
        requires
            old(self).accounts().len() < u64::MAX,
            old(self).well_formed(),
        ensures
            r.id == old(self).accounts().len() + 1,
            final(self).accounts() == old(self).accounts().push(info),
            final(self).account_registered(r),
            final(self).name() == old(self).name(),
            final(self).owner() == old(self).owner(),
            final(self).home() == old(self).home(),
            final(self).libraries() == old(self).libraries(),
            final(self).links() == old(self).links(),
            final(self).authorizations() == old(self).authorizations(),
            final(self).well_formed(),
    {
        self.accounts.push(info);
        let r = AccountHandle { id: self.accounts.len() as u64 };
        proof {
            let accounts = self.accounts@;
            assert forall|i: int| 0 <= i < self.links@.len() implies link_registered(
                accounts,
                self.libraries@,
                #[trigger] self.links@[i],
            ) by {
                let l = self.links@[i];
                assert(link_registered(old(self).accounts@, self.libraries@, l));
                assert forall|j: int| 0 <= j < l.input_accounts@.len() implies #[trigger] account_in(
                    accounts,
                    l.input_accounts@[j],
                ) by {
                    assert(account_in(old(self).accounts@, l.input_accounts@[j]));
                }
                assert forall|j: int| 0 <= j < l.output_accounts@.len() implies #[trigger] account_in(
                    accounts,
                    l.output_accounts@[j],
                ) by {
                    assert(account_in(old(self).accounts@, l.output_accounts@[j]));
                }
            }
        }
        r
    }
    fn push_library(&mut self, info: LibraryInfo) -> (r: LibraryHandle)
        requires
            old(self).libraries().len() < u64::MAX,
            old(self).well_formed(),
        ensures
            r.id == old(self).libraries().len() + 1,
            final(self).libraries() == old(self).libraries().push(info),
            final(self).library_registered(r),
            final(self).name() == old(self).name(),
            final(self).owner() == old(self).owner(),
            final(self).home() == old(self).home(),
            final(self).accounts() == old(self).accounts(),
            final(self).links() == old(self).links(),
            final(self).authorizations() == old(self).authorizations(),
            final(self).well_formed(),
    {
        self.libraries.push(info);
        let r = LibraryHandle { id: self.libraries.len() as u64 };
        proof {
            let libraries = self.libraries@;
            let old_libraries = old(self).libraries@;
            assert forall|i: int| 0 <= i < self.links@.len() implies link_registered(
                self.accounts@,
                libraries,
                #[trigger] self.links@[i],
            ) by {
                assert(link_registered(self.accounts@, old_libraries, self.links@[i]));
            }
            assert forall|i: int| 0 <= i < self.authorizations@.len() implies authorization_valid(
                self.home,
                libraries,
                #[trigger] self.authorizations@[i],
            ) by {
                let fs = self.authorizations@[i].subroutine.functions@;
                assert(authorization_valid(self.home, old_libraries, self.authorizations@[i]));
                assert forall|j: int| 0 <= j < fs.len() implies library_in(
                    libraries,
                    #[trigger] fs[j].contract_address,
                ) by {
                    assert(library_in(old_libraries, fs[j].contract_address));
                }
                assert forall|j: int| 0 <= j < fs.len() implies function_placed(
                    self.home,
                    libraries,
                    #[trigger] fs[j],
                ) by {
                    assert(library_in(old_libraries, fs[j].contract_address));
                    assert(function_placed(self.home, old_libraries, fs[j]));
                    assert(library_at(libraries, fs[j].contract_address) == library_at(
                        old_libraries,
                        fs[j].contract_address,
                    ));
                }
            }
        }
        r
    }

    /// Registers an account; its handle is the next account id, starting at 1.
    /// An account without a label is refused.
    pub fn add_account(&mut self, info: AccountInfo) -> (r: Result<AccountHandle, BuildError>)
        requires
            old(self).accounts().len() < u64::MAX,
            old(self).well_formed(),
        ensures
            r is Ok <==> info.label@.len() > 0,
            r is Err ==> r->Err_0 == BuildError::EmptyLabel && final(self).accounts() == old(
                self,
            ).accounts(),
            r is Ok ==> r->Ok_0.id == old(self).accounts().len() + 1 && final(self).accounts()
                == old(self).accounts().push(info) && final(self).account_registered(r->Ok_0),
            final(self).name() == old(self).name(),
            final(self).owner() == old(self).owner(),
            final(self).home() == old(self).home(),
            final(self).libraries() == old(self).libraries(),
            final(self).links() == old(self).links(),
            final(self).authorizations() == old(self).authorizations(),
            final(self).well_formed(),
    {
        if info.label.as_str().unicode_len() == 0 {
            return Err(BuildError::EmptyLabel);
        }
        Ok(self.push_account(info))
    }

    /// Registers a library; its handle is the next library id, starting at 1.
    /// A library without a label is refused.
    pub fn add_library(&mut self, info: LibraryInfo) -> (r: Result<LibraryHandle, BuildError>)
        requires
            old(self).libraries().len() < u64::MAX,
            old(self).well_formed(),
        ensures
            r is Ok <==> info.label@.len() > 0,
            r is Err ==> r->Err_0 == BuildError::EmptyLabel && final(self).libraries() == old(
                self,
            ).libraries(),
            r is Ok ==> r->Ok_0.id == old(self).libraries().len() + 1 && final(self).libraries()
                == old(self).libraries().push(info) && final(self).library_registered(r->Ok_0),
            final(self).name() == old(self).name(),
            final(self).owner() == old(self).owner(),
            final(self).home() == old(self).home(),
            final(self).accounts() == old(self).accounts(),
            final(self).links() == old(self).links(),
            final(self).authorizations() == old(self).authorizations(),
            final(self).well_formed(),
    {
        if info.label.as_str().unicode_len() == 0 {
            return Err(BuildError::EmptyLabel);
        }
        Ok(self.push_library(info))
    }

    /// Whether every handle in `handles` names a registered account.
    fn all_accounts_registered(&self, handles: &Vec<AccountHandle>) -> (r: bool)
        ensures
            r == accounts_in(self.accounts(), handles@),
    {
        let n = self.accounts.len();
        let mut i: usize = 0;
        while i < handles.len()
            invariant
                i <= handles@.len(),
                n == self.accounts@.len(),
                forall|j: int| 0 <= j < i ==> #[trigger] account_in(self.accounts@, handles@[j]),
            decreases handles@.len() - i,
        {
            let id = handles[i].id;
            if id < 1 || id as usize > n || id > n as u64 {
                assert(!account_in(self.accounts@, handles@[i as int]));
                return false;
            }
            i = i + 1;
        }
        true
    }

    /// Records a link. Every handle must have been handed out by this builder.
    pub fn add_link(
        &mut self,
        library: LibraryHandle,
        input_accounts: Vec<AccountHandle>,
        output_accounts: Vec<AccountHandle>,
    ) -> (r: Result<(), BuildError>)
        requires
            old(self).well_formed(),
        ensures
            r is Ok <==> (old(self).library_registered(library) && accounts_in(
                old(self).accounts(),
                input_accounts@,
            ) && accounts_in(old(self).accounts(), output_accounts@)),
            r is Err ==> r->Err_0 == BuildError::DanglingReference && final(self).links()
                == old(self).links(),
            r is Ok ==> final(self).links() == old(self).links().push(
                (Link { input_accounts, library, output_accounts }),
            ),
            final(self).name() == old(self).name(),
            final(self).owner() == old(self).owner(),
            final(self).home() == old(self).home(),
            final(self).accounts() == old(self).accounts(),
            final(self).libraries() == old(self).libraries(),
            final(self).authorizations() == old(self).authorizations(),
            final(self).well_formed(),
    {
        let registered = library.id >= 1 && library.id as usize <= self.libraries.len()
            && library.id <= self.libraries.len() as u64;
        if !registered || !self.all_accounts_registered(&input_accounts)
            || !self.all_accounts_registered(&output_accounts) {
            return Err(BuildError::DanglingReference);
        }
        let link = Link { input_accounts, library, output_accounts };
        self.links.push(link);
        proof {
            assert forall|i: int| 0 <= i < self.links@.len() implies link_registered(
                self.accounts@,
                self.libraries@,
                #[trigger] self.links@[i],
            ) by {
                if i < old(self).links@.len() {
                    assert(self.links@[i] == old(self).links@[i]);
                }
            }
        }
        Ok(())
    }

    /// Whether some authorization already carries `label`.
    fn has_label(&self, label: &String) -> (r: bool)
        ensures
            r == label_taken(self.authorizations(), label@),
    {
        let mut i: usize = 0;
        while i < self.authorizations.len()
            invariant
                i <= self.authorizations@.len(),
                forall|j: int| 0 <= j < i ==> #[trigger] self.authorizations@[j].label@ != label@,
            decreases self.authorizations@.len() - i,
        {
            if self.authorizations[i].label == *label {
                return true;
            }
            i = i + 1;
        }
        false
    }

    /// Whether every function targets a registered library.
    fn functions_registered(&self, functions: &Vec<AtomicFunction>) -> (r: bool)
        ensures
            r == functions_registered(self.libraries(), functions@),
    {
        let n = self.libraries.len();
        let mut i: usize = 0;
        while i < functions.len()
            invariant
                i <= functions@.len(),
                n == self.libraries@.len(),
                forall|j: int| 0 <= j < i ==> library_in(self.libraries@, #[trigger] functions@[j].contract_address),
            decreases functions@.len() - i,
        {
            let id = functions[i].contract_address.id;
            if id < 1 || id as usize > n || id > n as u64 {
                return false;
            }
            i = i + 1;
        }
        true
    }

    /// Whether every function, all of whose libraries are registered, is placed on the right domain.
    fn functions_placed(&self, functions: &Vec<AtomicFunction>) -> (r: bool)
        requires
            functions_registered(self.libraries(), functions@),
        ensures
            r == functions_placed(self.home(), self.libraries(), functions@),
    {
        let n = self.libraries.len();
        let mut i: usize = 0;
        while i < functions.len()
            invariant
                i <= functions@.len(),
                n == self.libraries@.len(),
                functions_registered(self.libraries@, functions@),
                forall|j: int| 0 <= j < i ==> function_placed(self.home, self.libraries@, #[trigger] functions@[j]),
            decreases functions@.len() - i,
        {
            let f = &functions[i];
            assert(library_in(self.libraries@, functions@[i as int].contract_address));
            assert(*f == functions@[i as int]);
            assert(1 <= f.contract_address.id <= n);
            let index = (f.contract_address.id - 1) as usize;
            let library = &self.libraries[index];
            assert(*library == library_at(self.libraries@, f.contract_address));
            let foreign = !(library.domain.chain == self.home.chain);
            let placed = match &f.domain {
                None => !foreign,
                Some(FunctionDomain::Main) => !foreign,
                Some(FunctionDomain::External(_)) => foreign,
            };
            assert(placed == function_placed(self.home, self.libraries@, functions@[i as int]));
            if !placed {
                return false;
            }
            i = i + 1;
        }
        true
    }

    /// Appends an authorization. A taken label is refused first; then a function
    /// on an unregistered library; then a function on the wrong domain.
    pub fn add_authorization(&mut self, authorization: Authorization) -> (r: Result<(), BuildError>)
        requires
            old(self).well_formed(),
        ensures
            r is Ok <==> old(self).accepts_authorization(authorization),
            label_taken(old(self).authorizations(), authorization.label@) ==> r == Err::<(), _>(
                BuildError::DuplicateLabel,
            ),
            !label_taken(old(self).authorizations(), authorization.label@) && !functions_registered(
                old(self).libraries(),
                authorization.subroutine.functions@,
            ) ==> r == Err::<(), _>(BuildError::DanglingReference),
            !label_taken(old(self).authorizations(), authorization.label@) && functions_registered(
                old(self).libraries(),
                authorization.subroutine.functions@,
            ) && !functions_placed(
                old(self).home(),
                old(self).libraries(),
                authorization.subroutine.functions@,
            ) ==> r == Err::<(), _>(BuildError::DomainMismatch),
            r is Err ==> final(self).authorizations() == old(self).authorizations(),
            r is Ok ==> final(self).authorizations() == old(self).authorizations().push(
                authorization,
            ),
            final(self).name() == old(self).name(),
            final(self).owner() == old(self).owner(),
            final(self).home() == old(self).home(),
            final(self).accounts() == old(self).accounts(),
            final(self).libraries() == old(self).libraries(),
            final(self).links() == old(self).links(),
            final(self).well_formed(),
    {
        if self.has_label(&authorization.label) {
            return Err(BuildError::DuplicateLabel);
        }
        if !self.functions_registered(&authorization.subroutine.functions) {
            return Err(BuildError::DanglingReference);
        }
        if !self.functions_placed(&authorization.subroutine.functions) {
            return Err(BuildError::DomainMismatch);
        }
        self.authorizations.push(authorization);
        proof {
            let auths = self.authorizations@;
            let n = old(self).authorizations@.len();
            assert forall|i: int| 0 <= i < auths.len() implies authorization_valid(
                self.home,
                self.libraries@,
                #[trigger] auths[i],
            ) by {
                if i < n {
                    assert(auths[i] == old(self).authorizations@[i]);
                }
            }
            assert forall|i: int, j: int| 0 <= i < j < auths.len() implies #[trigger] auths[i].label@
                != #[trigger] auths[j].label@ by {
                if j < n {
                    assert(auths[i] == old(self).authorizations@[i]);
                    assert(auths[j] == old(self).authorizations@[j]);
                } else {
                    assert(auths[i] == old(self).authorizations@[i]);
                }
            }
        }
        Ok(())
    }

    /// Freezes the registries into a program, as they stand, with no deployment id.
    pub fn build(self) -> (r: ProgramConfig)
        requires
            self.well_formed(),
        ensures
            built_from(self, r),
            r.well_formed(),
    {
        ProgramConfig {
            name: self.name,
            owner: self.owner,
            home: self.home,
            accounts: self.accounts,
            libraries: self.libraries,
            links: self.links,
            authorizations: self.authorizations,
            id: None,
        }
    }
}

/// `config` holds exactly the registries of `builder`, in the order they were
/// added, and carries no deployment id.
pub open spec fn built_from(builder: ProgramConfigBuilder, config: ProgramConfig) -> bool {
    &&& config.name@ == builder.name()
    &&& config.owner@ == builder.owner()
    &&& config.home == builder.home()
    &&& config.accounts@ == builder.accounts()
    &&& config.libraries@ == builder.libraries()
    &&& config.links@ == builder.links()
    &&& config.authorizations@ == builder.authorizations()
    &&& config.id is None
}

/// Building only reads the registries: any two programs built from the same
/// builder are the same program, field by field and in the same order, and
/// each holds the registries exactly as they were.
pub proof fn lemma_build_is_pure(
    builder: ProgramConfigBuilder,
    first: ProgramConfig,
    second: ProgramConfig,
)
    requires
        built_from(builder, first),
        built_from(builder, second),
    ensures
        first.name@ == second.name@,
        first.owner@ == second.owner@,
        first.home == second.home,
        first.accounts@ == second.accounts@,
        first.libraries@ == second.libraries@,
        first.links@ == second.links@,
        first.authorizations@ == second.authorizations@,
        first.id == second.id,
        first.accounts@ == builder.accounts(),
        first.libraries@ == builder.libraries(),
        first.links@ == builder.links(),
        first.authorizations@ == builder.authorizations(),
{
}

/// A handle handed out by the builder stays valid as the builder grows: an
/// account registry that extends another still holds every handle of the first.
/// With `add_link`'s contract this makes every link over handed-out handles acceptable.
pub proof fn lemma_account_handles_persist(
    before: Seq<AccountInfo>,
    after: Seq<AccountInfo>,
    handles: Seq<AccountHandle>,
)
    requires
        before.len() <= after.len(),
        accounts_in(before, handles),
    ensures
        accounts_in(after, handles),
{
    assert forall|i: int| 0 <= i < handles.len() implies #[trigger] account_in(after, handles[i]) by {
        assert(account_in(before, handles[i]));
    }
}

} // verus!
