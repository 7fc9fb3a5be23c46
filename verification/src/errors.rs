use vstd::prelude::*;

verus! {

/// The closed failure taxonomy of the core: every operation either succeeds
/// or ends in exactly one of these. Malformed key or signature encodings
/// collapse into `InvalidSignature`; persistence failures of any kind are
/// reported as the generic `StoreError` and never carry driver detail.
#[derive(Clone, Copy, Debug, PartialEq, Eq, Structural)]
pub enum AuthError {
    /// No binding exists for the given public key.
    NotFound,
    /// The signature fails the cryptographic check, or an input encoding is malformed.
    InvalidSignature,
    /// The persistence layer failed (connectivity, constraint violation, timeout).
    StoreError,
}

/// Status class owed to each error: not-found maps to 404, an invalid
/// signature to 400, and a store failure to 500.
pub open spec fn status_code_spec(e: AuthError) -> u16 {
    match e {
        AuthError::NotFound => 404,
        AuthError::InvalidSignature => 400,
        AuthError::StoreError => 500,
    }
}

/// Machine-readable label owed to each error in the response body.
pub open spec fn error_label_spec(e: AuthError) -> Seq<char> {
    match e {
        AuthError::NotFound => "not found"@,
        AuthError::InvalidSignature => "invalid signature"@,
        AuthError::StoreError => "database error"@,
    }
}

/// Total mapping from the error taxonomy to its status class.
pub fn status_code(e: AuthError) -> (code: u16)
    ensures
        code == status_code_spec(e),
{
    match e {
        AuthError::NotFound => 404,
        AuthError::InvalidSignature => 400,
        AuthError::StoreError => 500,
    }
}

/// Total mapping from the error taxonomy to its short machine-readable label.
pub fn error_label(e: AuthError) -> (label: String)
    ensures
        label@ == error_label_spec(e),
{
    match e {
        AuthError::NotFound => "not found".to_owned(),
        AuthError::InvalidSignature => "invalid signature".to_owned(),
        AuthError::StoreError => "database error".to_owned(),
    }
}

} // verus!
