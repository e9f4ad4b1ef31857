use vstd::prelude::*;

use crate::domain::FunctionDomain;
use crate::library::LibraryHandle;

verus! {

/// The kind of contract message an atomic function sends.
#[derive(Clone, Copy, Debug, PartialEq, Eq, Structural)]
pub enum MessageType {
    CosmwasmExecuteMsg,
    CosmwasmMigrateMsg,
}

/// A coarse guard on the serialized message: every listed token must (or must
/// not) occur in it. This is a literal check, not a validation of the message schema.
pub enum ParamRestriction {
    MustBeIncluded(Vec<String>),
    CannotBeIncluded(Vec<String>),
}

/// The function a message calls, with the restrictions on its parameters.
pub struct Message {
    pub name: String,
    pub params_restrictions: Option<Vec<ParamRestriction>>,
}

pub struct MessageDetails {
    pub message_type: MessageType,
    pub message: Message,
}

/// One contract invocation on one library. With no domain given, it runs on
/// the domain of the library it targets.
pub struct AtomicFunction {
    pub domain: Option<FunctionDomain>,
    pub message_details: MessageDetails,
    pub contract_address: LibraryHandle,
}

/// A non-empty sequence of atomic functions that succeed or fail together.
pub struct AtomicSubroutine {
    pub functions: Vec<AtomicFunction>,
}

/// A caller allowed a bounded number of calls.
pub struct CallLimit {
    pub address: String,
    pub max_calls: u128,
}

/// The allow-list of a permissioned authorization, with or without a cap on calls.
pub enum PermissionType {
    WithCallLimit(Vec<CallLimit>),
    WithoutCallLimit(Vec<String>),
}

/// Who may trigger an authorization.
pub enum AuthorizationMode {
    Permissionless,
    Permissioned(PermissionType),
}

/// A named, access-controlled entry point that runs one subroutine.
pub struct Authorization {
    pub label: String,
    pub mode: AuthorizationMode,
    pub subroutine: AtomicSubroutine,
}

/// Why an atomic function, a subroutine or an authorization could not be assembled.
#[derive(Clone, Copy, Debug, PartialEq, Eq, Structural)]
pub enum AssemblyError {
    MissingLibrary,
    MissingMessage,
    EmptySubroutine,
    MissingLabel,
    MissingSubroutine,
}

pub struct AtomicFunctionBuilder {
    pub domain: Option<FunctionDomain>,
    pub message_details: Option<MessageDetails>,
    pub contract_address: Option<LibraryHandle>,
}

impl AtomicFunctionBuilder {
    pub fn new() -> (r: Self)
        ensures
            r.domain is None,
            r.message_details is None,
            r.contract_address is None,
    {
        AtomicFunctionBuilder { domain: None, message_details: None, contract_address: None }
    }

    /// Names the domain explicitly; needed when the library is not on the home domain.
    pub fn with_domain(self, domain: FunctionDomain) -> (r: Self)
        ensures
            r.domain == Some(domain),
            r.message_details == self.message_details,
            r.contract_address == self.contract_address,
    {
        AtomicFunctionBuilder { domain: Some(domain), ..self }
    }

    pub fn with_contract_address(self, library: LibraryHandle) -> (r: Self)
        ensures
            r.domain == self.domain,
            r.message_details == self.message_details,
            r.contract_address == Some(library),
    {
        AtomicFunctionBuilder { contract_address: Some(library), ..self }
    }

    pub fn with_message_details(self, details: MessageDetails) -> (r: Self)
        ensures
            r.domain == self.domain,
            r.message_details == Some(details),
            r.contract_address == self.contract_address,
    {
        AtomicFunctionBuilder { message_details: Some(details), ..self }
    }

    /// Fails when no library or no message was given.
    pub fn build(self) -> (r: Result<AtomicFunction, AssemblyError>)
        ensures
            self.contract_address is None ==> r == Err::<AtomicFunction, _>(
                AssemblyError::MissingLibrary,
            ),
            self.contract_address is Some && self.message_details is None ==> r == Err::<
                AtomicFunction,
                _,
            >(AssemblyError::MissingMessage),
            self.contract_address is Some && self.message_details is Some ==> r == Ok::<
                _,
                AssemblyError,
            >(
                (AtomicFunction {
                    domain: self.domain,
                    message_details: self.message_details->Some_0,
                    contract_address: self.contract_address->Some_0,
                }),
            ),
    {
        match self.contract_address {
            None => Err(AssemblyError::MissingLibrary),
            Some(contract_address) => match self.message_details {
                None => Err(AssemblyError::MissingMessage),
                Some(message_details) => Ok(
                    AtomicFunction { domain: self.domain, message_details, contract_address },
                ),
            },
        }
    }
}

pub struct AtomicSubroutineBuilder {
    pub functions: Vec<AtomicFunction>,
}

impl AtomicSubroutineBuilder {
    pub fn new() -> (r: Self)
        ensures
            r.functions@.len() == 0,
    {
        AtomicSubroutineBuilder { functions: Vec::new() }
    }

    /// Appends a function after those already given.
    pub fn with_function(self, function: AtomicFunction) -> (r: Self)
        ensures
            r.functions@ == self.functions@.push(function),
    {
        let mut functions = self.functions;
        functions.push(function);
        AtomicSubroutineBuilder { functions }
    }

    /// Fails when no function was given.
    pub fn build(self) -> (r: Result<AtomicSubroutine, AssemblyError>)
        ensures
            self.functions@.len() == 0 <==> r is Err,
            r is Err ==> r->Err_0 == AssemblyError::EmptySubroutine,
            r is Ok ==> r->Ok_0.functions@ == self.functions@,
    {
        if self.functions.len() == 0 {
            Err(AssemblyError::EmptySubroutine)
        } else {
            Ok(AtomicSubroutine { functions: self.functions })
        }
    }
}

pub struct AuthorizationBuilder {
    pub label: Option<String>,
    pub mode: AuthorizationMode,
    pub subroutine: Option<AtomicSubroutine>,
}

impl AuthorizationBuilder {
    /// No label and no subroutine yet; anyone may call.
    pub fn new() -> (r: Self)
        ensures
            r.label is None,
            r.mode is Permissionless,
            r.subroutine is None,
    {
        AuthorizationBuilder {
            label: None,
            mode: AuthorizationMode::Permissionless,
            subroutine: None,
        }
    }

    pub fn with_label(self, label: &str) -> (r: Self)
        ensures
            r.label is Some && r.label->Some_0@ == label@,
            r.mode == self.mode,
            r.subroutine == self.subroutine,
    {
        AuthorizationBuilder { label: Some(label.to_owned()), ..self }
    }

    pub fn with_mode(self, mode: AuthorizationMode) -> (r: Self)
        ensures
            r.label == self.label,
            r.mode == mode,
            r.subroutine == self.subroutine,
    {
        AuthorizationBuilder { mode, ..self }
    }

    pub fn with_subroutine(self, subroutine: AtomicSubroutine) -> (r: Self)
        ensures
            r.label == self.label,
            r.mode == self.mode,
            r.subroutine == Some(subroutine),
    {
        AuthorizationBuilder { subroutine: Some(subroutine), ..self }
    }

    /// Fails when the label is missing or empty, or no subroutine was given.
    pub fn build(self) -> (r: Result<Authorization, AssemblyError>)
        ensures
            (self.label is None || self.label->Some_0@.len() == 0) ==> r == Err::<
                Authorization,
                _,
            >(AssemblyError::MissingLabel),
            (self.label is Some && self.label->Some_0@.len() > 0 && self.subroutine is None)
                ==> r == Err::<Authorization, _>(AssemblyError::MissingSubroutine),
            (self.label is Some && self.label->Some_0@.len() > 0 && self.subroutine is Some)
                ==> r == Ok::<_, AssemblyError>(
                (Authorization {
                    label: self.label->Some_0,
                    mode: self.mode,
                    subroutine: self.subroutine->Some_0,
                }),
            ),
    {
        match self.label {
            None => Err(AssemblyError::MissingLabel),
            Some(label) => {
                if label.as_str().unicode_len() == 0 {
                    Err(AssemblyError::MissingLabel)
                } else {
                    match self.subroutine {
                        None => Err(AssemblyError::MissingSubroutine),
                        Some(subroutine) => Ok(
                            Authorization { label, mode: self.mode, subroutine },
                        ),
                    }
                }
            },
        }
    }
}

} // verus!
