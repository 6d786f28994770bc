use vstd::prelude::*;

verus! {

/// The answer of the credential store to a login attempt.
#[derive(PartialEq, Eq, Structural, Clone, Copy, Debug)]
pub enum CredentialCheck {
    /// A stored pair matches the name and secret.
    Match,
    /// No stored pair matches.
    NoMatch,
    /// The store could not answer.
    StoreError,
}

/// HTTP status: the request succeeded.
pub const STATUS_OK: u16 = 200;

/// HTTP status: a resource was created.
pub const STATUS_CREATED: u16 = 201;

/// HTTP status: the credentials were refused.
pub const STATUS_UNAUTHORIZED: u16 = 401;

/// HTTP status: the name is taken.
pub const STATUS_CONFLICT: u16 = 409;

/// HTTP status: the server failed.
pub const STATUS_INTERNAL_SERVER_ERROR: u16 = 500;

/// The status of a login request, from the store's answer.
pub fn login_status(check: CredentialCheck) -> (r: u16)
    ensures
        check == CredentialCheck::Match ==> r == STATUS_OK,
        check == CredentialCheck::NoMatch ==> r == STATUS_UNAUTHORIZED,
        check == CredentialCheck::StoreError ==> r == STATUS_INTERNAL_SERVER_ERROR,
{
    match check {
        CredentialCheck::Match => STATUS_OK,
        CredentialCheck::NoMatch => STATUS_UNAUTHORIZED,
        CredentialCheck::StoreError => STATUS_INTERNAL_SERVER_ERROR,
    }
}

/// The status of a registration request: created where the store took the
/// new pair, a conflict where it refused it.
pub fn register_status(stored: bool) -> (r: u16)
    ensures
        r == if stored {
            STATUS_CREATED
        } else {
            STATUS_CONFLICT
        },
{
    if stored {
        STATUS_CREATED
    } else {
        STATUS_CONFLICT
    }
}

} // verus!
