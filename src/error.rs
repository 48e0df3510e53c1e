//! The errors of the library, and their JSON form.

use crate::hash::{json_string, json_string_of};
use vstd::prelude::*;

verus! {

/// A domain-level failure, stored in state as a value and handed back to callers.
#[derive(Debug)]
pub enum HolochainError {
    /// A failure described only by its message.
    ErrorGeneric(String),
    /// The caller holds no token for the capability's membrane.
    DoesNotHaveCapabilityToken,
    /// The call names a zome that the DNA does not define.
    ZomeNotFound(String),
    /// The call names a capability that the zome does not define.
    CapabilityNotFound(String),
    /// No DNA has been loaded.
    DnaMissing,
}

/// The message of a `DoesNotHaveCapabilityToken` error.
pub const NO_CAPABILITY_TOKEN_MSG: &'static str = "Caller does not have Capability to make that call";

/// The message of a `DnaMissing` error.
pub const DNA_MISSING_MSG: &'static str = "DNA is missing";

/// The human-readable message of an error.
pub open spec fn error_message(e: ErrorV) -> Seq<char> {
    match e {
        ErrorV::ErrorGeneric(m) => m,
        ErrorV::DoesNotHaveCapabilityToken => NO_CAPABILITY_TOKEN_MSG@,
        ErrorV::ZomeNotFound(m) => m,
        ErrorV::CapabilityNotFound(m) => m,
        ErrorV::DnaMissing => DNA_MISSING_MSG@,
    }
}

/// The JSON object `{"error": <message>}`.
pub open spec fn error_json(e: ErrorV) -> Seq<char> {
    "{\"error\":"@ + json_string_of(error_message(e)) + "}"@
}

/// `r` is a generic error whose message is `msg`.
pub open spec fn is_generic_error<T>(r: Result<T, HolochainError>, msg: Seq<char>) -> bool {
    r matches Err(HolochainError::ErrorGeneric(m)) && m@ == msg
}

/// The mathematical value of an error: its variant and message.
pub ghost enum ErrorV {
    ErrorGeneric(Seq<char>),
    DoesNotHaveCapabilityToken,
    ZomeNotFound(Seq<char>),
    CapabilityNotFound(Seq<char>),
    DnaMissing,
}

impl View for HolochainError {
    type V = ErrorV;

    open spec fn view(&self) -> ErrorV {
        match self {
            HolochainError::ErrorGeneric(m) => ErrorV::ErrorGeneric(m@),
            HolochainError::DoesNotHaveCapabilityToken => ErrorV::DoesNotHaveCapabilityToken,
            HolochainError::ZomeNotFound(m) => ErrorV::ZomeNotFound(m@),
            HolochainError::CapabilityNotFound(m) => ErrorV::CapabilityNotFound(m@),
            HolochainError::DnaMissing => ErrorV::DnaMissing,
        }
    }
}

impl HolochainError {
    /// A generic error carrying `msg`.
    pub fn new(msg: &str) -> (r: HolochainError)
        ensures
            r matches HolochainError::ErrorGeneric(m) && m@ == msg@,
    {
        HolochainError::ErrorGeneric(String::from_str(msg))
    }

    fn is_no_token(&self) -> (r: bool)
        ensures
            r == (*self is DoesNotHaveCapabilityToken),
    {
        match self {
            HolochainError::DoesNotHaveCapabilityToken => true,
            _ => false,
        }
    }

    fn is_dna_missing(&self) -> (r: bool)
        ensures
            r == (*self is DnaMissing),
    {
        match self {
            HolochainError::DnaMissing => true,
            _ => false,
        }
    }

    /// The human-readable message.
    pub fn message(&self) -> (r: String)
        ensures
            r@ == error_message(self@),
    {
        match self {
            HolochainError::ErrorGeneric(m) => m.clone(),
            HolochainError::DoesNotHaveCapabilityToken => String::from_str(NO_CAPABILITY_TOKEN_MSG),
            HolochainError::ZomeNotFound(m) => m.clone(),
            HolochainError::CapabilityNotFound(m) => m.clone(),
            HolochainError::DnaMissing => String::from_str(DNA_MISSING_MSG),
        }
    }

    /// The JSON object `{"error": <message>}`.
    pub fn to_json(&self) -> (r: String)
        ensures
            r@ == error_json(self@),
    {
        let msg = self.message();
        let mut out = String::from_str("{\"error\":");
        out.append(json_string(msg.as_str()).as_str());
        out.append("}");
        out
    }
}

impl Clone for HolochainError {
    fn clone(&self) -> (r: Self)
        ensures
            r == *self,
    {
        match self {
            HolochainError::ErrorGeneric(m) => HolochainError::ErrorGeneric(m.clone()),
            HolochainError::DoesNotHaveCapabilityToken => HolochainError::DoesNotHaveCapabilityToken,
            HolochainError::ZomeNotFound(m) => HolochainError::ZomeNotFound(m.clone()),
            HolochainError::CapabilityNotFound(m) => HolochainError::CapabilityNotFound(m.clone()),
            HolochainError::DnaMissing => HolochainError::DnaMissing,
        }
    }
}

impl PartialEq for HolochainError {
    fn eq(&self, other: &HolochainError) -> (r: bool)
        ensures
            r == (self@ == other@),
    {
        match self {
            HolochainError::ErrorGeneric(x) => match other {
                HolochainError::ErrorGeneric(y) => x.eq(y),
                _ => false,
            },
            HolochainError::DoesNotHaveCapabilityToken => other.is_no_token(),
            HolochainError::ZomeNotFound(x) => match other {
                HolochainError::ZomeNotFound(y) => x.eq(y),
                _ => false,
            },
            HolochainError::CapabilityNotFound(x) => match other {
                HolochainError::CapabilityNotFound(y) => x.eq(y),
                _ => false,
            },
            HolochainError::DnaMissing => other.is_dna_missing(),
        }
    }
}

impl vstd::std_specs::cmp::PartialEqSpecImpl for HolochainError {
    open spec fn obeys_eq_spec() -> bool {
        true
    }

    open spec fn eq_spec(&self, other: &HolochainError) -> bool {
        self@ == other@
    }
}

} // verus!
