//! The login command, and the credentials that the other commands sign in
//! with.

use vstd::prelude::*;
use crate::text::text_of;

verus! {

/// What the login command is asked to do.
#[derive(Clone, Debug, PartialEq, Eq)]
pub struct Options {
    /// The user name.
    pub username: String,
    /// The password.
    pub password: String,
}

/// The stored credentials.
#[derive(Clone, Debug, PartialEq, Eq)]
pub struct Config {
    /// The user name.
    pub username: Option<String>,
    /// The password.
    pub password: Option<String>,
}

/// Which of the credentials are missing.
#[derive(Clone, Copy, Debug, PartialEq, Eq)]
pub enum MissingCredentials {
    /// There is a password, but no user name.
    Username,
    /// There is a user name, but no password.
    Password,
    /// There is neither.
    UsernameAndPassword,
}

impl Config {
    /// A configuration without credentials.
    pub fn new() -> (config: Self)
        ensures
            config.username is None,
            config.password is None,
    {
        Config { username: None, password: None }
    }

    /// This configuration with each credential of `newer` in place of its
    /// own, where `newer` has one.
    pub fn merged(self, newer: &Config) -> (merged: Config)
        ensures
            text_of(merged.username) == if newer.username is Some {
                text_of(newer.username)
            } else {
                text_of(self.username)
            },
            text_of(merged.password) == if newer.password is Some {
                text_of(newer.password)
            } else {
                text_of(self.password)
            },
    {
        Config {
            username: match &newer.username {
                Some(username) => Some(username.clone()),
                None => self.username,
            },
            password: match &newer.password {
                Some(password) => Some(password.clone()),
                None => self.password,
            },
        }
    }

    /// The credentials to sign in with, or which of them are missing.
    pub fn credentials(&self) -> (credentials: Result<(&String, &String), MissingCredentials>)
        ensures
            match (self.username, self.password) {
                (Some(username), Some(password)) => credentials == Ok::<
                    (&String, &String),
                    MissingCredentials,
                >((&username, &password)),
                (None, Some(_)) => credentials == Err::<(&String, &String), MissingCredentials>(
                    MissingCredentials::Username,
                ),
                (Some(_), None) => credentials == Err::<(&String, &String), MissingCredentials>(
                    MissingCredentials::Password,
                ),
                (None, None) => credentials == Err::<(&String, &String), MissingCredentials>(
                    MissingCredentials::UsernameAndPassword,
                ),
            },
    {
        match (&self.username, &self.password) {
            (Some(username), Some(password)) => Ok((username, password)),
            (None, Some(_)) => Err(MissingCredentials::Username),
            (Some(_), None) => Err(MissingCredentials::Password),
            (None, None) => Err(MissingCredentials::UsernameAndPassword),
        }
    }
}

} // verus!
