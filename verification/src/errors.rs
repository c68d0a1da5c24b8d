//! The bridge's error taxonomy and its outward-facing response form.
//!
//! Provider-reported authorization failures are not errors: they travel as
//! ordinary failed outcomes. Only the mechanism's own inability to complete
//! is an error: malformed input, a surface that could not be driven, the
//! deadline, or a failed durable write.

use vstd::prelude::*;

verus! {

/// Why the bridge or the store could not complete.
#[derive(Debug)]
pub enum BridgeError {
    /// Malformed caller input, such as an invalid authorization URL.
    InvalidInput { message: String },
    /// The browsing surface could not be created or observed.
    SurfaceError { message: String },
    /// The single hard error a completed wait can produce.
    AuthorizationTimeout,
    /// Serialization or durable-write failure in the store.
    PersistenceError { message: String },
}

/// Error shape handed to the surrounding application.
#[derive(Debug, PartialEq)]
pub struct ErrorResponse {
    pub error: String,
    pub message: String,
}

impl BridgeError {
    /// The stable name of the error's kind.
    pub fn kind_name(&self) -> (r: String)
        ensures
            self matches BridgeError::InvalidInput { .. } ==> r@ == "InvalidInput"@,
            self matches BridgeError::SurfaceError { .. } ==> r@ == "SurfaceError"@,
            self is AuthorizationTimeout ==> r@ == "AuthorizationTimeout"@,
            self matches BridgeError::PersistenceError { .. } ==> r@ == "PersistenceError"@,
    {
        match self {
            BridgeError::InvalidInput { .. } => "InvalidInput".to_owned(),
            BridgeError::SurfaceError { .. } => "SurfaceError".to_owned(),
            BridgeError::AuthorizationTimeout => "AuthorizationTimeout".to_owned(),
            BridgeError::PersistenceError { .. } => "PersistenceError".to_owned(),
        }
    }

    /// The human-readable message carried by the error.
    pub fn detail(&self) -> (r: String)
        ensures
            self matches BridgeError::InvalidInput { message } ==> r@ == message@,
            self matches BridgeError::SurfaceError { message } ==> r@ == message@,
            self is AuthorizationTimeout ==> r@ == "authorization timed out"@,
            self matches BridgeError::PersistenceError { message } ==> r@ == message@,
    {
        match self {
            BridgeError::InvalidInput { message } => message.clone(),
            BridgeError::SurfaceError { message } => message.clone(),
            BridgeError::AuthorizationTimeout => "authorization timed out".to_owned(),
            BridgeError::PersistenceError { message } => message.clone(),
        }
    }

    /// The response handed to the surrounding application: the error's kind
    /// name and its message.
    pub fn response(&self) -> (r: ErrorResponse)
        ensures
            r.error@ == self.kind_name_view(),
            self matches BridgeError::InvalidInput { message } ==> r.message@ == message@,
            self matches BridgeError::SurfaceError { message } ==> r.message@ == message@,
            self is AuthorizationTimeout ==> r.message@ == "authorization timed out"@,
            self matches BridgeError::PersistenceError { message } ==> r.message@ == message@,
    {
        ErrorResponse { error: self.kind_name(), message: self.detail() }
    }

    /// The kind name as a character sequence.
    pub open spec fn kind_name_view(&self) -> Seq<char> {
        match self {
            BridgeError::InvalidInput { .. } => "InvalidInput"@,
            BridgeError::SurfaceError { .. } => "SurfaceError"@,
            BridgeError::AuthorizationTimeout => "AuthorizationTimeout"@,
            BridgeError::PersistenceError { .. } => "PersistenceError"@,
        }
    }
}

} // verus!
