//! Connection profiles and their validation.

use vstd::prelude::*;
use vstd::string::*;
use crate::errors::ConnectError;

verus! {

/// How to reach and authenticate against one remote host.
#[derive(Debug, Clone)]
pub struct SshProfile {
    pub id: String,
    pub name: String,
    pub host: String,
    pub port: u16,
    pub username: String,
    /// `"password"` or `"key"`.
    pub auth_method: String,
    pub password: Option<String>,
    /// Path of a private key file.
    pub key_path: Option<String>,
}

/// The credential that a valid profile selects.
#[derive(Debug, Clone, PartialEq, Eq)]
pub enum Credential {
    Password(String),
    KeyFile(String),
}

impl SshProfile {
    /// The credential that the authentication method selects, or the
    /// validation error: the method must be `"password"` or `"key"`, and the
    /// field that goes with it must be there.
    pub open spec fn selected(self) -> Result<Credential, ConnectError> {
        if self.auth_method@ == "password"@ {
            match self.password {
                Some(password) => Ok(Credential::Password(password)),
                None => Err(ConnectError::MissingPassword),
            }
        } else if self.auth_method@ == "key"@ {
            match self.key_path {
                Some(path) => Ok(Credential::KeyFile(path)),
                None => Err(ConnectError::MissingKeyPath),
            }
        } else {
            Err(ConnectError::UnknownAuthMethod(self.auth_method))
        }
    }

    /// Validates the profile and picks its credential. Nothing is sent
    /// anywhere; the answer depends on the profile alone.
    pub fn credential(&self) -> (picked: Result<Credential, ConnectError>)
        ensures
            picked == self.selected(),
            picked matches Err(e) ==> e.validation(),
    {
        if self.auth_method == String::from_str("password") {
            match &self.password {
                Some(password) => Ok(Credential::Password(password.clone())),
                None => Err(ConnectError::MissingPassword),
            }
        } else if self.auth_method == String::from_str("key") {
            match &self.key_path {
                Some(path) => Ok(Credential::KeyFile(path.clone())),
                None => Err(ConnectError::MissingKeyPath),
            }
        } else {
            Err(ConnectError::UnknownAuthMethod(self.auth_method.clone()))
        }
    }
}

/// A profile that asks for password authentication and carries no password
/// is rejected as invalid, whatever else it holds.
pub proof fn law_password_method_needs_password(profile: SshProfile)
    requires
        profile.auth_method@ == "password"@,
        profile.password is None,
    ensures
        profile.selected() == Err::<Credential, ConnectError>(ConnectError::MissingPassword),
        ConnectError::MissingPassword.validation(),
{
}

/// A profile that asks for key authentication and carries no key path is
/// rejected as invalid.
pub proof fn law_key_method_needs_key_path(profile: SshProfile)
    requires
        profile.auth_method@ == "key"@,
        profile.key_path is None,
    ensures
        profile.selected() == Err::<Credential, ConnectError>(ConnectError::MissingKeyPath),
        ConnectError::MissingKeyPath.validation(),
{
    reveal_strlit("key");
    reveal_strlit("password");
    assert("key"@.len() != "password"@.len());
}

} // verus!
