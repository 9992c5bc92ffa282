use vstd::prelude::*;

verus! {

/// A credential field that the trust service must return.
#[derive(Clone, Copy, Debug, PartialEq, Eq, Structural)]
pub enum CredentialField {
    /// The whole credential bundle.
    Bundle,
    AccessKeyId,
    SecretAccessKey,
}

/// Everything that stops a session before its child process exits.
#[derive(Clone, Debug)]
pub enum LaunchError {
    /// A tag without a `=` separator; holds the tag as given.
    InvalidTag { tag: String },
    /// The inline policy file could not be read; holds its path.
    PolicyUnreadable { path: String },
    /// The inline policy file is not a YAML or JSON document that converts to JSON.
    PolicyMalformed { path: String },
    /// The role name could not be resolved to a canonical identifier.
    RoleUnresolved { name: String },
    /// The trust service failed or refused; holds its message as given.
    TrustService { message: String },
    /// The trust service response lacked a mandatory field.
    MissingCredential { field: CredentialField },
    /// No command was given and the invoking shell is unknown.
    MissingShell,
    /// The child process could not be started; holds the reason as given.
    Spawn { message: String },
}

impl LaunchError {
    /// Malformed local input: a tag or the inline policy.
    pub open spec fn spec_is_validation(&self) -> bool {
        self is InvalidTag || self is PolicyUnreadable || self is PolicyMalformed
    }

    #[verifier::when_used_as_spec(spec_is_validation)]
    pub fn is_validation(&self) -> (r: bool)
        ensures
            r == self.spec_is_validation(),
    {
        match self {
            LaunchError::InvalidTag { .. } => true,
            LaunchError::PolicyUnreadable { .. } => true,
            LaunchError::PolicyMalformed { .. } => true,
            _ => false,
        }
    }
}

} // verus!
