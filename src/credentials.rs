use vstd::prelude::*;

use crate::error::{CredentialField, LaunchError};

verus! {

#[verifier::external_type_specification]
#[verifier::external_body]
pub struct ExDateTimeFormatError(aws_smithy_types::date_time::DateTimeFormatError);

/// An instant as seconds and nanoseconds since the unix epoch.
#[derive(Clone, Copy, Debug, PartialEq, Eq, Structural)]
pub struct Expiration {
    pub seconds: i64,
    pub subsec_nanos: u32,
}

/// The credential part of a trust-service response, as received.
#[derive(Clone, Debug)]
pub struct IssuedCredentials {
    pub access_key_id: Option<String>,
    pub secret_access_key: Option<String>,
    pub session_token: Option<String>,
    pub expiration: Option<Expiration>,
}

/// Temporary credentials with both mandatory fields present.
#[derive(Clone, Debug)]
pub struct CredentialBundle {
    pub access_key_id: String,
    pub secret_access_key: String,
    pub session_token: Option<String>,
    pub expiration: Option<Expiration>,
}

impl CredentialBundle {
    /// The bundle that `issued` holds, where both mandatory fields are there.
    pub open spec fn of(issued: IssuedCredentials) -> CredentialBundle {
        CredentialBundle {
            access_key_id: issued.access_key_id->0,
            secret_access_key: issued.secret_access_key->0,
            session_token: issued.session_token,
            expiration: issued.expiration,
        }
    }
}

/// The mandatory field that `response` lacks first, if any.
pub open spec fn missing_field(response: Option<IssuedCredentials>) -> Option<CredentialField> {
    match response {
        None => Some(CredentialField::Bundle),
        Some(c) => if c.access_key_id is None {
            Some(CredentialField::AccessKeyId)
        } else if c.secret_access_key is None {
            Some(CredentialField::SecretAccessKey)
        } else {
            None
        },
    }
}

/// Takes the credential bundle out of a trust-service response; a missing
/// bundle, access key id or secret access key is an error naming it.
pub fn extract_credentials(response: Option<IssuedCredentials>) -> (r: Result<
    CredentialBundle,
    LaunchError,
>)
    ensures
        missing_field(response) matches Some(f) ==> r == Err::<CredentialBundle, LaunchError>(
            LaunchError::MissingCredential { field: f },
        ),
        missing_field(response) is None ==> r == Ok::<CredentialBundle, LaunchError>(
            CredentialBundle::of(response->0),
        ),
{
    match response {
        None => Err(LaunchError::MissingCredential { field: CredentialField::Bundle }),
        Some(c) => match c.access_key_id {
            None => Err(LaunchError::MissingCredential { field: CredentialField::AccessKeyId }),
            Some(access_key_id) => match c.secret_access_key {
                None => Err(
                    LaunchError::MissingCredential { field: CredentialField::SecretAccessKey },
                ),
                Some(secret_access_key) => Ok(
                    CredentialBundle {
                        access_key_id,
                        secret_access_key,
                        session_token: c.session_token,
                        expiration: c.expiration,
                    },
                ),
            },
        },
    }
}

/// The RFC 3339 text of the instant `seconds` + `nanos`, or `None` where
/// that format cannot write it.
pub uninterp spec fn rfc3339_text(seconds: int, nanos: int) -> Option<Seq<char>>;

/// Relies on `aws_smithy_types::DateTime::from_secs_and_nanos` and its `fmt`
/// with `Format::DateTime`: an RFC 3339 date-time that depends on the instant
/// alone. Construction panics on a nanosecond count of a second or more.
#[verifier::external_body]
fn format_date_time(seconds: i64, nanos: u32) -> (r: Result<
    String,
    aws_smithy_types::date_time::DateTimeFormatError,
>)
    requires
        nanos < 1_000_000_000,
    ensures
        r is Ok <==> rfc3339_text(seconds as int, nanos as int) is Some,
        r matches Ok(s) ==> rfc3339_text(seconds as int, nanos as int) == Some(s@),
{
    aws_smithy_types::DateTime::from_secs_and_nanos(seconds, nanos).fmt(
        aws_smithy_types::date_time::Format::DateTime,
    )
}

/// The sentence that reports an expiration already written as `when`.
pub open spec fn expiry_message_text(when: Seq<char>) -> Seq<char> {
    "Credentials will expire at "@ + when
}

/// Says when the credentials expire, given the formatted instant.
pub fn expiry_message(when: &str) -> (r: String)
    ensures
        r@ == expiry_message_text(when@),
{
    let mut out = "Credentials will expire at ".to_owned();
    out.append(when);
    out
}

/// The notice for `expiration`: `None` where the instant has no RFC 3339
/// form or its nanosecond part is out of range.
pub open spec fn expiration_notice_text(expiration: Expiration) -> Option<Seq<char>> {
    if expiration.subsec_nanos >= 1_000_000_000 {
        None
    } else {
        match rfc3339_text(expiration.seconds as int, expiration.subsec_nanos as int) {
            Some(when) => Some(expiry_message_text(when)),
            None => None,
        }
    }
}

/// Formats the expiration notice shown before the child starts.
pub fn expiration_notice(expiration: Expiration) -> (r: Option<String>)
    ensures
        r is Some <==> expiration_notice_text(expiration) is Some,
        r matches Some(m) ==> expiration_notice_text(expiration) == Some(m@),
{
    if expiration.subsec_nanos >= 1_000_000_000 {
        return None;
    }
    match format_date_time(expiration.seconds, expiration.subsec_nanos) {
        Ok(when) => Some(expiry_message(when.as_str())),
        Err(_) => None,
    }
}

} // verus!
