use crate::favorite::Favorite;
use crate::secret_store::{get_secret, set_secret};
use vstd::prelude::*;
use vstd::string::StringExecFns;

verus! {

/// How a secret-store operation failed.
#[derive(Debug, Clone, PartialEq, Eq)]
pub enum StoreFailure {
    /// The store holds no entry for the application and user name.
    NoEntry,
    /// Any other failure, rendered as text.
    Failed { message: String },
}

/// Failures of loading the configuration and of resolving or storing the secret.
#[derive(Debug, Clone, PartialEq, Eq)]
pub enum ConfigError {
    ReadConfigFile { path: String, source: String },
    ParseConfigFile { source: String },
    GetEnvVar { source: String },
    GetPassword { user: String, failure: StoreFailure },
    GetPasswordFromEntry { failure: StoreFailure },
    SetPasswordFromEntry { failure: StoreFailure },
    /// No secret from the environment, the file or the secret store.
    NoPassword,
}

/// The configuration in force for one invocation.
#[derive(Debug, Clone, PartialEq, Eq)]
pub struct Config {
    pub password: Option<String>,
    pub user_name: String,
    pub favorites: Option<Vec<Favorite>>,
}

/// What resolution yields once the secret store has answered `lookup`.
pub open spec fn store_outcome(
    user_name: String,
    favorites: Option<Vec<Favorite>>,
    lookup: Result<String, StoreFailure>,
) -> Result<Config, ConfigError> {
    match lookup {
        Ok(p) => Ok(Config { password: Some(p), user_name, favorites }),
        Err(StoreFailure::NoEntry) => Err(ConfigError::NoPassword),
        Err(f) => Err(ConfigError::GetPassword { user: user_name, failure: f }),
    }
}

/// When neither the environment nor the file gave a secret and the store has
/// no entry for the user name, resolution fails with `NoPassword`, whatever
/// the user name and favorites.
pub proof fn lemma_missing_entry_is_no_password(
    user_name: String,
    favorites: Option<Vec<Favorite>>,
)
    ensures
        store_outcome(user_name, favorites, Err(StoreFailure::NoEntry)) == Err::<Config, ConfigError>(
            ConfigError::NoPassword,
        ),
{
}

impl Config {
    /// Resolves the secret for a configuration read from the file (`password`,
    /// `user_name`, `favorites`), given the secret environment variable's value
    /// (`env_password`, present even when set to an empty value). The
    /// environment wins over the file, and the secret store is asked only when
    /// both are absent.
    pub fn new(
        password: Option<String>,
        user_name: String,
        favorites: Option<Vec<Favorite>>,
        env_password: Option<String>,
    ) -> (r: Result<Config, ConfigError>)
        ensures
            env_password is Some ==> r == Ok::<Config, ConfigError>(
                Config { password: env_password, user_name, favorites },
            ),
            env_password is None && password is Some ==> r == Ok::<Config, ConfigError>(
                Config { password, user_name, favorites },
            ),
            env_password is None && password is None ==> exists|lookup: Result<String, StoreFailure>|
                r == #[trigger] store_outcome(user_name, favorites, lookup),
    {
        match env_password {
            Some(p) => Ok(Config { password: Some(p), user_name, favorites }),
            None => match password {
                Some(p) => Ok(Config { password: Some(p), user_name, favorites }),
                None => {
                    let lookup = get_secret(user_name.as_str());
                    let ghost answered = lookup;
                    let ghost user = user_name;
                    let ghost favs = favorites;
                    let r = Config::from_secret_store(user_name, favorites, lookup);
                    assert(r == store_outcome(user, favs, answered));
                    r
                },
            },
        }
    }

    /// Writes `password` through to the secret store for this user name and,
    /// when the store accepted it, to this configuration.
    pub fn save_password(&mut self, password: &str) -> (r: Result<(), ConfigError>)
        ensures
            r is Ok ==> final(self).password is Some && final(self).password->0@ == password@
                && final(self).user_name == old(self).user_name
                && final(self).favorites == old(self).favorites,
            r is Err ==> *final(self) == *old(self) && r->Err_0 is SetPasswordFromEntry,
    {
        let outcome = set_secret(self.user_name.as_str(), password);
        self.record_saved(password, outcome)
    }

    /// Applies the secret store's answer to a write of `password`: the
    /// in-memory secret changes only when the write succeeded.
    pub fn record_saved(&mut self, password: &str, outcome: Result<(), StoreFailure>) -> (r: Result<
        (),
        ConfigError,
    >)
        ensures
            outcome is Ok ==> r is Ok && final(self).password is Some && final(self).password->0@
                == password@ && final(self).user_name == old(self).user_name
                && final(self).favorites == old(self).favorites,
            outcome is Err ==> *final(self) == *old(self) && r == Err::<(), ConfigError>(
                ConfigError::SetPasswordFromEntry { failure: outcome->Err_0 },
            ),
    {
        match outcome {
            Ok(()) => {
                self.password = Some(String::from_str(password));
                Ok(())
            },
            Err(f) => Err(ConfigError::SetPasswordFromEntry { failure: f }),
        }
    }

    /// Completes resolution with the secret store's answer for `user_name`.
    pub fn from_secret_store(
        user_name: String,
        favorites: Option<Vec<Favorite>>,
        lookup: Result<String, StoreFailure>,
    ) -> (r: Result<Config, ConfigError>)
        ensures
            r == store_outcome(user_name, favorites, lookup),
    {
        match lookup {
            Ok(p) => Ok(Config { password: Some(p), user_name, favorites }),
            Err(StoreFailure::NoEntry) => Err(ConfigError::NoPassword),
            Err(f) => Err(ConfigError::GetPassword { user: user_name, failure: f }),
        }
    }
}

} // verus!
