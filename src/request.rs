use vstd::prelude::*;

use crate::tag::SessionTag;

verus! {

/// What the caller asked for on the command line.
#[derive(Clone, Debug)]
pub struct LaunchInput {
    /// A role name, or a canonical identifier starting with `arn:`.
    pub role: String,
    pub role_session_name: Option<String>,
    pub policy_arns: Vec<String>,
    /// Path of an inline policy file.
    pub policy: Option<String>,
    pub duration_seconds: Option<i32>,
    /// Session tags as `KEY=VALUE`.
    pub tags: Vec<String>,
    pub transitive_tag_keys: Vec<String>,
    pub external_id: Option<String>,
    pub serial_number: Option<String>,
    pub token_code: Option<String>,
    pub source_identity: Option<String>,
    /// The command to run; the caller's shell when empty.
    pub command: Vec<String>,
}

/// The request's fields that are settled before the role and the inline
/// policy are known, and the command to run afterwards.
#[derive(Clone, Debug)]
pub struct RequestDraft {
    pub role_session_name: String,
    pub policy_arns: Vec<String>,
    pub policy_path: Option<String>,
    pub duration_seconds: Option<i32>,
    pub tags: Vec<SessionTag>,
    pub transitive_tag_keys: Vec<String>,
    pub external_id: Option<String>,
    pub serial_number: Option<String>,
    pub token_code: Option<String>,
    pub source_identity: Option<String>,
    pub command: Vec<String>,
}

/// A request to assume a role, sent once to the trust service.
#[derive(Clone, Debug)]
pub struct AssumeRoleRequest {
    pub role_arn: String,
    pub role_session_name: String,
    pub policy_arns: Vec<String>,
    pub policy: Option<String>,
    pub duration_seconds: Option<i32>,
    pub tags: Vec<SessionTag>,
    pub transitive_tag_keys: Vec<String>,
    pub external_id: Option<String>,
    pub serial_number: Option<String>,
    pub token_code: Option<String>,
    pub source_identity: Option<String>,
}

impl RequestDraft {
    /// `self` takes every field of `input` but the role, with `tags` parsed
    /// and `session_name` chosen.
    pub open spec fn drafted_from(
        &self,
        input: LaunchInput,
        tags: Seq<SessionTag>,
        session_name: Seq<char>,
    ) -> bool {
        &&& self.role_session_name@ == session_name
        &&& self.policy_arns == input.policy_arns
        &&& self.policy_path == input.policy
        &&& self.duration_seconds == input.duration_seconds
        &&& self.tags@ == tags
        &&& self.transitive_tag_keys == input.transitive_tag_keys
        &&& self.external_id == input.external_id
        &&& self.serial_number == input.serial_number
        &&& self.token_code == input.token_code
        &&& self.source_identity == input.source_identity
        &&& self.command == input.command
    }

    /// Sets aside everything of `input` that the request needs beside the role.
    pub fn new(input: LaunchInput, tags: Vec<SessionTag>, session_name: String) -> (r: (
        RequestDraft,
        String,
    ))
        ensures
            r.0.drafted_from(input, tags@, session_name@),
            r.1 == input.role,
    {
        let draft = RequestDraft {
            role_session_name: session_name,
            policy_arns: input.policy_arns,
            policy_path: input.policy,
            duration_seconds: input.duration_seconds,
            tags,
            transitive_tag_keys: input.transitive_tag_keys,
            external_id: input.external_id,
            serial_number: input.serial_number,
            token_code: input.token_code,
            source_identity: input.source_identity,
            command: input.command,
        };
        (draft, input.role)
    }

    /// Completes the request with the role identifier and the inline policy,
    /// and hands back the command.
    pub fn complete(self, role_arn: String, policy: Option<String>) -> (r: (
        AssumeRoleRequest,
        Vec<String>,
    ))
        ensures
            r.0.assembled(self, role_arn@, policy_view(policy)),
            r.1 == self.command,
    {
        let request = AssumeRoleRequest {
            role_arn,
            role_session_name: self.role_session_name,
            policy_arns: self.policy_arns,
            policy,
            duration_seconds: self.duration_seconds,
            tags: self.tags,
            transitive_tag_keys: self.transitive_tag_keys,
            external_id: self.external_id,
            serial_number: self.serial_number,
            token_code: self.token_code,
            source_identity: self.source_identity,
        };
        (request, self.command)
    }
}

/// The text of an optional policy.
pub open spec fn policy_view(policy: Option<String>) -> Option<Seq<char>> {
    match policy {
        Some(p) => Some(p@),
        None => None,
    }
}

impl AssumeRoleRequest {
    /// `self` is `draft` completed with `role_arn` and `policy`.
    pub open spec fn assembled(
        &self,
        draft: RequestDraft,
        role_arn: Seq<char>,
        policy: Option<Seq<char>>,
    ) -> bool {
        &&& self.role_arn@ == role_arn
        &&& self.role_session_name == draft.role_session_name
        &&& self.policy_arns == draft.policy_arns
        &&& policy_view(self.policy) == policy
        &&& self.duration_seconds == draft.duration_seconds
        &&& self.tags == draft.tags
        &&& self.transitive_tag_keys == draft.transitive_tag_keys
        &&& self.external_id == draft.external_id
        &&& self.serial_number == draft.serial_number
        &&& self.token_code == draft.token_code
        &&& self.source_identity == draft.source_identity
    }
}

} // verus!
