use vstd::prelude::*;

use crate::credentials::CredentialBundle;

verus! {

/// One variable set in the child's environment.
#[derive(Clone, Debug)]
pub struct EnvVar {
    pub name: String,
    pub value: String,
}

/// The process to start: program, arguments, and the variables laid over
/// the inherited environment.
#[derive(Clone, Debug)]
pub struct ChildProcessSpec {
    pub program: String,
    pub args: Vec<String>,
    pub env: Vec<EnvVar>,
}

/// The (name, value) pairs laid over the child's environment for `bundle`:
/// the access key id and secret always, the session token when present.
pub open spec fn credential_env(bundle: CredentialBundle) -> Seq<(Seq<char>, Seq<char>)> {
    let base = seq![
        ("AWS_ACCESS_KEY_ID"@, bundle.access_key_id@),
        ("AWS_SECRET_ACCESS_KEY"@, bundle.secret_access_key@),
    ];
    match bundle.session_token {
        Some(t) => base.push(("AWS_SESSION_TOKEN"@, t@)),
        None => base,
    }
}

/// The view of an environment overlay as (name, value) pairs.
pub open spec fn env_pairs(env: Seq<EnvVar>) -> Seq<(Seq<char>, Seq<char>)> {
    env.map_values(|v: EnvVar| (v.name@, v.value@))
}

fn env_var(name: &str, value: &String) -> (r: EnvVar)
    ensures
        r.name@ == name@,
        r.value@ == value@,
{
    EnvVar { name: name.to_owned(), value: value.clone() }
}

/// Builds the credential overlay for `bundle`.
pub fn credential_overlay(bundle: &CredentialBundle) -> (r: Vec<EnvVar>)
    ensures
        env_pairs(r@) == credential_env(*bundle),
{
    let mut env: Vec<EnvVar> = Vec::new();
    env.push(env_var("AWS_ACCESS_KEY_ID", &bundle.access_key_id));
    env.push(env_var("AWS_SECRET_ACCESS_KEY", &bundle.secret_access_key));
    match &bundle.session_token {
        Some(t) => {
            env.push(env_var("AWS_SESSION_TOKEN", t));
        },
        None => {},
    }
    assert(env_pairs(env@) =~= credential_env(*bundle));
    env
}

/// Runs `command` verbatim: its first word is the program, the rest its
/// arguments.
pub fn command_process(command: Vec<String>, bundle: &CredentialBundle) -> (r: ChildProcessSpec)
    requires
        command@.len() > 0,
    ensures
        r.program@ == command@[0]@,
        r.args@ == command@.subrange(1, command@.len() as int),
        env_pairs(r.env@) == credential_env(*bundle),
{
    let mut head = command;
    let args = head.split_off(1);
    let program = head[0].clone();
    ChildProcessSpec { program, args, env: credential_overlay(bundle) }
}

/// Runs the shell `shell` with no arguments.
pub fn shell_process(shell: String, bundle: &CredentialBundle) -> (r: ChildProcessSpec)
    ensures
        r.program@ == shell@,
        r.args@.len() == 0,
        env_pairs(r.env@) == credential_env(*bundle),
{
    ChildProcessSpec { program: shell, args: Vec::new(), env: credential_overlay(bundle) }
}

} // verus!
