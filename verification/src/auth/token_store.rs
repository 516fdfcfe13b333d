//! Storage of the refresh token in the operating system's credential store.
use vstd::prelude::*;

verus! {

/// The credential store could not be used; the text says why.
#[derive(Clone, Debug, PartialEq, Eq)]
pub enum TokenStoreError {
    Unavailable(String),
}

/// Where the refresh token is kept.
pub trait TokenStore {
    fn load(&self) -> Result<Option<String>, TokenStoreError>;

    fn save(&self, refresh_token: &str) -> Result<(), TokenStoreError>;

    fn delete(&self) -> Result<(), TokenStoreError>;
}

/// How a credential-store operation failed.
#[derive(Clone, Debug, PartialEq, Eq)]
pub enum KeyringFailure {
    /// No credential is stored.
    NoEntry,
    /// Any other failure, described.
    Other(String),
}

#[verifier::external_type_specification]
#[verifier::external_body]
pub struct ExKeyringEntry(keyring::Entry);

/// `keyring::Entry::new`: the credential of `account` under `service`.
/// Whether it succeeds depends on the platform; nothing is claimed.
#[verifier::external_body]
fn keyring_entry(service: &str, account: &str) -> Result<keyring::Entry, String> {
    keyring::Entry::new(service, account).map_err(|error| error.to_string())
}

/// `keyring::Entry::get_password`, its `NoEntry` error told apart from the
/// others. What is stored depends on the system; nothing is claimed.
#[verifier::external_body]
fn entry_password(entry: &keyring::Entry) -> Result<String, KeyringFailure> {
    match entry.get_password() {
        Ok(password) => Ok(password),
        Err(keyring::Error::NoEntry) => Err(KeyringFailure::NoEntry),
        Err(error) => Err(KeyringFailure::Other(error.to_string())),
    }
}

/// `keyring::Entry::set_password`. Whether it succeeds depends on the
/// system; nothing is claimed.
#[verifier::external_body]
fn entry_set_password(entry: &keyring::Entry, password: &str) -> Result<(), String> {
    entry.set_password(password).map_err(|error| error.to_string())
}

/// `keyring::Entry::delete_credential`, its `NoEntry` error told apart from
/// the others. Whether it succeeds depends on the system; nothing is claimed.
#[verifier::external_body]
fn entry_delete(entry: &keyring::Entry) -> Result<(), KeyringFailure> {
    match entry.delete_credential() {
        Ok(()) => Ok(()),
        Err(keyring::Error::NoEntry) => Err(KeyringFailure::NoEntry),
        Err(error) => Err(KeyringFailure::Other(error.to_string())),
    }
}

/// The stored refresh token: a missing credential is no token, any other
/// failure makes the store unavailable.
pub fn loaded_token(read: Result<String, KeyringFailure>) -> (r: Result<Option<String>, TokenStoreError>)
    ensures
        match read {
            Ok(t) => r == Ok::<Option<String>, TokenStoreError>(Some(t)),
            Err(KeyringFailure::NoEntry) => r == Ok::<Option<String>, TokenStoreError>(None),
            Err(KeyringFailure::Other(m)) => r == Err::<Option<String>, TokenStoreError>(
                TokenStoreError::Unavailable(m),
            ),
        },
{
    match read {
        Ok(token) => Ok(Some(token)),
        Err(KeyringFailure::NoEntry) => Ok(None),
        Err(KeyringFailure::Other(message)) => Err(TokenStoreError::Unavailable(message)),
    }
}

/// The outcome of deleting the credential: deleting a missing credential succeeds.
pub fn deleted_token(result: Result<(), KeyringFailure>) -> (r: Result<(), TokenStoreError>)
    ensures
        match result {
            Ok(()) => r == Ok::<(), TokenStoreError>(()),
            Err(KeyringFailure::NoEntry) => r == Ok::<(), TokenStoreError>(()),
            Err(KeyringFailure::Other(m)) => r == Err::<(), TokenStoreError>(
                TokenStoreError::Unavailable(m),
            ),
        },
{
    match result {
        Ok(()) | Err(KeyringFailure::NoEntry) => Ok(()),
        Err(KeyringFailure::Other(message)) => Err(TokenStoreError::Unavailable(message)),
    }
}

/// The refresh token in the operating system's credential store.
#[derive(Clone, Copy, Debug, Default)]
pub struct KeyringTokenStore;

/// The service under which Companion's credential is kept.
pub open spec fn credential_service() -> Seq<char> {
    "com.yorunoken.hanami.companion"@
}

/// The account that holds the refresh token.
pub open spec fn credential_account() -> Seq<char> {
    "hanami-refresh-token"@
}

/// The service and account of the credential that holds the refresh token.
pub fn credential() -> (r: (String, String))
    ensures
        r.0@ == credential_service(),
        r.1@ == credential_account(),
{
    (
        crate::auth::client::text("com.yorunoken.hanami.companion"),
        crate::auth::client::text("hanami-refresh-token"),
    )
}

impl KeyringTokenStore {
    /// The credential-store entry of the refresh token: the account
    /// `credential_account()` under `credential_service()`.
    fn entry() -> (r: Result<keyring::Entry, TokenStoreError>) {
        let (service, account) = credential();
        match keyring_entry(service.as_str(), account.as_str()) {
            Ok(entry) => Ok(entry),
            Err(message) => Err(TokenStoreError::Unavailable(message)),
        }
    }
}

impl TokenStore for KeyringTokenStore {
    fn load(&self) -> Result<Option<String>, TokenStoreError> {
        let entry = Self::entry()?;
        loaded_token(entry_password(&entry))
    }

    fn save(&self, refresh_token: &str) -> Result<(), TokenStoreError> {
        let entry = Self::entry()?;
        match entry_set_password(&entry, refresh_token) {
            Ok(()) => Ok(()),
            Err(message) => Err(TokenStoreError::Unavailable(message)),
        }
    }

    fn delete(&self) -> Result<(), TokenStoreError> {
        let entry = Self::entry()?;
        deleted_token(entry_delete(&entry))
    }
}

} // verus!
