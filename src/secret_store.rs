use crate::config::StoreFailure;
use vstd::prelude::*;

verus! {

/// The application identifier under which secrets are kept in the OS vault.
pub const SERVICE: &'static str = "tech.stackable.chronos";

#[verifier::external_type_specification]
#[verifier::external_body]
pub struct ExEntry(keyring::Entry);

#[verifier::external_type_specification]
#[verifier::external_body]
pub struct ExKeyringError(keyring::Error);

/// Relies on keyring::Entry::new: a handle on the vault entry for a service
/// and user name, or the platform's reason why none can be made. What comes
/// back depends on the machine, so nothing is promised of it.
#[verifier::external_body]
fn entry_for(service: &str, user: &str) -> (r: Result<keyring::Entry, keyring::Error>) {
    keyring::Entry::new(service, user)
}

/// Relies on keyring::Entry::get_password: the stored secret, or why it could
/// not be had. What the vault holds is outside the program.
#[verifier::external_body]
fn read_entry(entry: &keyring::Entry) -> (r: Result<String, keyring::Error>) {
    entry.get_password()
}

/// Relies on keyring::Entry::set_password: stores the secret, or says why not.
#[verifier::external_body]
fn write_entry(entry: &keyring::Entry, password: &str) -> (r: Result<(), keyring::Error>) {
    entry.set_password(password)
}

/// Relies on keyring::Error's variants and its Display: `NoEntry` is the
/// vault's "nothing stored here"; any other variant is kept as its message.
#[verifier::external_body]
fn failure_of(e: keyring::Error) -> (r: StoreFailure) {
    match e {
        keyring::Error::NoEntry => StoreFailure::NoEntry,
        other => StoreFailure::Failed { message: format!("{}", other) },
    }
}

/// Reads the secret stored for `user_name` under this application's identifier.
pub fn get_secret(user_name: &str) -> (r: Result<String, StoreFailure>) {
    match entry_for(SERVICE, user_name) {
        Ok(entry) => match read_entry(&entry) {
            Ok(p) => Ok(p),
            Err(e) => Err(failure_of(e)),
        },
        Err(e) => Err(failure_of(e)),
    }
}

/// Stores `password` for `user_name` under this application's identifier.
pub fn set_secret(user_name: &str, password: &str) -> (r: Result<(), StoreFailure>) {
    match entry_for(SERVICE, user_name) {
        Ok(entry) => match write_entry(&entry, password) {
            Ok(()) => Ok(()),
            Err(e) => Err(failure_of(e)),
        },
        Err(e) => Err(failure_of(e)),
    }
}

} // verus!
