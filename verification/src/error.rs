//! The error type shared by every fallible operation of the vault.

use vstd::prelude::*;

verus! {

/// What can go wrong while a key is generated, vaulted, claimed or used.
#[derive(Debug)]
pub enum DatabaseError {
    /// No connection to the store could be had.
    DatabaseRunError(String),
    /// The store refused a statement or a transaction.
    DatabaseError(String),
    /// No row answers the lookup, or an insert produced no row.
    NotFound(String),
    /// A secret, a seed or a byte string of a keypair is malformed.
    SecretError(String),
    /// A sealed secret failed authentication: wrong seed or altered bytes.
    DecryptionError,
    /// The chain tag names no chain for which a keypair strategy exists.
    UnsupportedChain(String),
}

/// The kinds of error, without their messages.
#[derive(Clone, Copy, Debug, PartialEq, Eq, Structural)]
pub enum ErrorKind {
    /// The store itself failed.
    Store,
    /// Nothing was found.
    NotFound,
    /// A secret is malformed.
    Secret,
    /// A sealed secret did not open.
    Decryption,
    /// The chain is not served.
    UnsupportedChain,
}

impl DatabaseError {
    /// The kind of the error.
    pub open spec fn kind_spec(self) -> ErrorKind {
        match self {
            DatabaseError::DatabaseRunError(_) => ErrorKind::Store,
            DatabaseError::DatabaseError(_) => ErrorKind::Store,
            DatabaseError::NotFound(_) => ErrorKind::NotFound,
            DatabaseError::SecretError(_) => ErrorKind::Secret,
            DatabaseError::DecryptionError => ErrorKind::Decryption,
            DatabaseError::UnsupportedChain(_) => ErrorKind::UnsupportedChain,
        }
    }

    /// The error in words.
    pub open spec fn text(self) -> Seq<char> {
        match self {
            DatabaseError::DatabaseRunError(m) => "database is not available: no connection: "@ + m@,
            DatabaseError::DatabaseError(m) => "database is not available: "@ + m@,
            DatabaseError::NotFound(m) => "not found: "@ + m@,
            DatabaseError::SecretError(m) => "malformed secret: "@ + m@,
            DatabaseError::DecryptionError => "the secret does not open under the seed"@,
            DatabaseError::UnsupportedChain(m) => "unsupported chain: "@ + m@,
        }
    }

    /// The error in words.
    pub fn to_string(&self) -> (r: String)
        ensures
            r@ == self.text(),
    {
        match self {
            DatabaseError::DatabaseRunError(m) => "database is not available: no connection: ".to_owned().concat(
                m.as_str(),
            ),
            DatabaseError::DatabaseError(m) => "database is not available: ".to_owned().concat(
                m.as_str(),
            ),
            DatabaseError::NotFound(m) => "not found: ".to_owned().concat(m.as_str()),
            DatabaseError::SecretError(m) => "malformed secret: ".to_owned().concat(m.as_str()),
            DatabaseError::DecryptionError => "the secret does not open under the seed".to_owned(),
            DatabaseError::UnsupportedChain(m) => "unsupported chain: ".to_owned().concat(m.as_str()),
        }
    }

    /// The kind of the error.
    pub fn kind(&self) -> (r: ErrorKind)
        ensures
            r == self.kind_spec(),
    {
        match self {
            DatabaseError::DatabaseRunError(_) => ErrorKind::Store,
            DatabaseError::DatabaseError(_) => ErrorKind::Store,
            DatabaseError::NotFound(_) => ErrorKind::NotFound,
            DatabaseError::SecretError(_) => ErrorKind::Secret,
            DatabaseError::DecryptionError => ErrorKind::Decryption,
            DatabaseError::UnsupportedChain(_) => ErrorKind::UnsupportedChain,
        }
    }
}

} // verus!
