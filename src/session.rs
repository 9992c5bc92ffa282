use vstd::prelude::*;

use crate::child::{
    command_process, credential_env, env_pairs, shell_process, ChildProcessSpec,
};
use crate::credentials::{
    expiration_notice, expiration_notice_text, extract_credentials, missing_field,
    CredentialBundle, IssuedCredentials,
};
use crate::error::{CredentialField, LaunchError};
use crate::naming::{default_session_name, default_session_name_text};
use crate::policy::{policy_document, policy_text, PolicyFormat};
use crate::request::{policy_view, AssumeRoleRequest, LaunchInput, RequestDraft};
use crate::role::{has_canonical_prefix, RoleReference};
use crate::tag::{has_separator, parse_tags, SessionTag};

verus! {

/// Where a session stands, with what it still needs.
#[derive(Clone, Debug)]
pub enum Stage {
    /// Waiting for the text of the inline policy file at `path`; `role` is
    /// the role as the caller gave it.
    LoadingPolicy { role: String, path: String, draft: RequestDraft },
    /// Waiting for the directory to resolve the role `name`; `policy` is the
    /// inline policy already settled.
    ResolvingRole { name: String, draft: RequestDraft, policy: Option<String> },
    /// Waiting for the trust service's answer.
    Issuing { command: Vec<String> },
    /// Waiting for the expiration notice to be shown.
    Announcing { bundle: CredentialBundle, command: Vec<String> },
    /// Waiting for the caller's shell to be looked up.
    FindingShell { bundle: CredentialBundle },
    /// Waiting for the child process to end.
    Running,
    /// Nothing is left to do.
    Finished,
}

/// What the outside world reports back to a session.
#[derive(Debug)]
pub enum Event {
    /// The directory lookup ended; `None` where it found no identifier.
    RoleLookedUp { role_arn: Option<String> },
    /// The policy file was read; `None` where it could not be.
    PolicyRead { text: Option<String> },
    /// The trust service answered: its credentials, if any, or its error message.
    Issued { outcome: Result<Option<IssuedCredentials>, String> },
    /// The expiration notice was shown.
    Announced,
    /// The `SHELL` lookup ended; `None` where it is unset.
    ShellFound { shell: Option<String> },
    /// The child process could not be started.
    SpawnFailed { message: String },
    /// The child process exited with `code`.
    Exited { code: i32 },
}

/// What a session asks the outside world to do next.
#[derive(Clone, Debug)]
pub enum Action {
    /// Resolve the role name through the directory.
    LookupRole { name: String },
    /// Read the inline policy file.
    ReadPolicy { path: String },
    /// Send the request to the trust service.
    AssumeRole { request: AssumeRoleRequest },
    /// Show `message` to the user.
    Announce { message: String },
    /// Look up the caller's shell.
    LookupShell,
    /// Start the child process and wait for it.
    Spawn { spec: ChildProcessSpec },
    /// Exit with the child's status.
    Exit { code: i32 },
    /// Stop with `error`.
    Fail { error: LaunchError },
    /// The event does not belong to the stage; nothing changes.
    Ignored,
}

/// One run of the tool, from command-line input to the child's exit.
#[derive(Clone, Debug)]
pub struct Session {
    pub stage: Stage,
    pub format: PolicyFormat,
}

/// `tags` are the parsed forms of `raw`, one for one.
pub open spec fn tags_parsed(tags: Seq<SessionTag>, raw: Seq<String>) -> bool {
    tags.len() == raw.len() && forall|k: int| 0 <= k < raw.len() ==> #[trigger] tags[k].splits(raw[k]@)
}

/// Every raw tag holds a separator.
pub open spec fn tags_valid(raw: Seq<String>) -> bool {
    forall|k: int| 0 <= k < raw.len() ==> has_separator(#[trigger] raw[k]@)
}

/// The session name used for `input` at unix time `now`.
pub open spec fn session_name_for(input: LaunchInput, now: int) -> Seq<char> {
    match input.role_session_name {
        Some(n) => n@,
        None => default_session_name_text(now),
    }
}

/// `r` is a finished session that stopped with `error`.
pub open spec fn fails_with(r: (Session, Action), format: PolicyFormat, error: LaunchError) -> bool {
    r.0.stage is Finished && r.0.format == format && r.1 == (Action::Fail { error })
}

/// `r` goes on once the inline policy is settled as `policy`: it sends the
/// request where `role` is a canonical identifier, else it asks for a lookup.
pub open spec fn continues_with_policy(
    r: (Session, Action),
    format: PolicyFormat,
    draft: RequestDraft,
    role: String,
    policy: Option<Seq<char>>,
) -> bool {
    &&& r.0.format == format
    &&& if has_canonical_prefix(role@) {
        &&& r.0.stage == (Stage::Issuing { command: draft.command })
        &&& r.1 matches Action::AssumeRole { request }
        &&& request.assembled(draft, role@, policy)
    } else {
        &&& r.0.stage matches Stage::ResolvingRole { name, draft: d, policy: p }
        &&& name == role && d == draft && policy_view(p) == policy
        &&& r.1 == (Action::LookupRole { name: role })
    }
}

/// `r` goes on once the request fields are drafted: it reads the policy file
/// where there is one, before any remote call.
pub open spec fn continues_with_draft(
    r: (Session, Action),
    format: PolicyFormat,
    draft: RequestDraft,
    role: String,
) -> bool {
    match draft.policy_path {
        Some(path) => {
            &&& r.0.format == format
            &&& r.0.stage == (Stage::LoadingPolicy { role, path, draft })
            &&& r.1 == (Action::ReadPolicy { path })
        },
        None => continues_with_policy(r, format, draft, role, None),
    }
}

/// `r` runs `command` with `bundle`, or looks up the shell where `command`
/// is empty.
pub open spec fn launches(
    r: (Session, Action),
    format: PolicyFormat,
    bundle: CredentialBundle,
    command: Seq<String>,
) -> bool {
    &&& r.0.format == format
    &&& if command.len() == 0 {
        r.0.stage == (Stage::FindingShell { bundle }) && r.1 is LookupShell
    } else {
        &&& r.0.stage is Running
        &&& r.1 matches Action::Spawn { spec }
        &&& spec.program@ == command[0]@
        &&& spec.args@ == command.subrange(1, command.len() as int)
        &&& env_pairs(spec.env@) == credential_env(bundle)
    }
}

/// `r` goes on once the credentials `bundle` are in hand: it shows when they
/// expire, where that can be written, else it launches.
pub open spec fn continues_with_credentials(
    r: (Session, Action),
    format: PolicyFormat,
    bundle: CredentialBundle,
    command: Vec<String>,
) -> bool {
    match bundle.expiration {
        Some(e) if expiration_notice_text(e) is Some => {
            &&& r.0.format == format
            &&& r.0.stage == (Stage::Announcing { bundle, command })
            &&& r.1 matches Action::Announce { message }
            &&& Some(message@) == expiration_notice_text(e)
        },
        _ => launches(r, format, bundle, command@),
    }
}

/// What `start` does with `input` at unix time `now`.
pub open spec fn started(
    r: (Session, Action),
    input: LaunchInput,
    now: int,
    format: PolicyFormat,
) -> bool {
    if !tags_valid(input.tags@) {
        exists|k: int|
            0 <= k < input.tags@.len() && !has_separator(#[trigger] input.tags@[k]@) && (forall|
                m: int,
            |
                0 <= m < k ==> has_separator(input.tags@[m]@)) && r.0.stage is Finished
                && r.0.format == format && (r.1 matches Action::Fail {
                error: LaunchError::InvalidTag { tag },
            } && tag@ == input.tags@[k]@)
    } else {
        exists|draft: RequestDraft, tags: Seq<SessionTag>|
            tags_parsed(tags, input.tags@) && #[trigger] draft.drafted_from(
                input,
                tags,
                session_name_for(input, now),
            ) && continues_with_draft(r, format, draft, input.role)
    }
}

/// What `step` does in `s` on `e`.
pub open spec fn stepped(r: (Session, Action), s: Session, e: Event) -> bool {
    let format = s.format;
    match (s.stage, e) {
        (Stage::LoadingPolicy { role, path, draft }, Event::PolicyRead { text }) => match text {
            None => fails_with(r, format, LaunchError::PolicyUnreadable { path }),
            Some(t) => match policy_text(format, t@) {
                None => {
                    &&& r.0.stage is Finished
                    &&& r.0.format == format
                    &&& r.1 matches Action::Fail { error }
                    &&& error matches LaunchError::PolicyMalformed { path: p }
                    &&& p@ == path@
                },
                Some(doc) => continues_with_policy(r, format, draft, role, Some(doc)),
            },
        },
        (Stage::ResolvingRole { name, draft, policy }, Event::RoleLookedUp { role_arn }) => match role_arn {
            None => fails_with(r, format, LaunchError::RoleUnresolved { name }),
            Some(a) => {
                &&& r.0.format == format
                &&& r.0.stage == (Stage::Issuing { command: draft.command })
                &&& r.1 matches Action::AssumeRole { request }
                &&& request.assembled(draft, a@, policy_view(policy))
            },
        },
        (Stage::Issuing { command }, Event::Issued { outcome }) => match outcome {
            Err(message) => fails_with(r, format, LaunchError::TrustService { message }),
            Ok(response) => match missing_field(response) {
                Some(field) => fails_with(r, format, LaunchError::MissingCredential { field }),
                None => continues_with_credentials(
                    r,
                    format,
                    CredentialBundle::of(response->0),
                    command,
                ),
            },
        },
        (Stage::Announcing { bundle, command }, Event::Announced) => launches(
            r,
            format,
            bundle,
            command@,
        ),
        (Stage::FindingShell { bundle }, Event::ShellFound { shell }) => match shell {
            None => fails_with(r, format, LaunchError::MissingShell),
            Some(sh) => {
                &&& r.0.format == format
                &&& r.0.stage is Running
                &&& r.1 matches Action::Spawn { spec }
                &&& spec.program@ == sh@
                &&& spec.args@.len() == 0
                &&& env_pairs(spec.env@) == credential_env(bundle)
            },
        },
        (Stage::Running, Event::SpawnFailed { message }) => fails_with(
            r,
            format,
            LaunchError::Spawn { message },
        ),
        (Stage::Running, Event::Exited { code }) => {
            &&& r.0.stage is Finished
            &&& r.0.format == format
            &&& r.1 == (Action::Exit { code })
        },
        _ => r.0 == s && r.1 is Ignored,
    }
}

/// Relies on chrono's `From<SystemTime> for DateTime<Utc>` and
/// `DateTime::timestamp`: the current unix time in seconds, about which
/// nothing is promised. A clock set before 1970 gives a negative value.
#[verifier::external_body]
fn unix_time_now() -> (r: i64) {
    chrono::DateTime::<chrono::Utc>::from(std::time::SystemTime::now()).timestamp()
}

impl Session {
    fn continue_with_policy(
        format: PolicyFormat,
        draft: RequestDraft,
        role: String,
        policy: Option<String>,
    ) -> (r: (Session, Action))
        ensures
            continues_with_policy(r, format, draft, role, policy_view(policy)),
    {
        match RoleReference::classify(role.as_str()) {
            RoleReference::CanonicalId(_) => {
                let (request, command) = draft.complete(role, policy);
                (Session { stage: Stage::Issuing { command }, format }, Action::AssumeRole { request })
            },
            RoleReference::Name(_) => {
                let name = role.clone();
                (
                    Session { stage: Stage::ResolvingRole { name, draft, policy }, format },
                    Action::LookupRole { name: role },
                )
            },
        }
    }

    fn continue_with_draft(format: PolicyFormat, draft: RequestDraft, role: String) -> (r: (
        Session,
        Action,
    ))
        ensures
            continues_with_draft(r, format, draft, role),
    {
        match &draft.policy_path {
            Some(given) => {
                let path = given.clone();
                let asked = given.clone();
                (
                    Session { stage: Stage::LoadingPolicy { role, path, draft }, format },
                    Action::ReadPolicy { path: asked },
                )
            },
            None => Session::continue_with_policy(format, draft, role, None),
        }
    }

    fn launch(format: PolicyFormat, bundle: CredentialBundle, command: Vec<String>) -> (r: (
        Session,
        Action,
    ))
        ensures
            launches(r, format, bundle, command@),
    {
        if command.len() == 0 {
            (Session { stage: Stage::FindingShell { bundle }, format }, Action::LookupShell)
        } else {
            let spec = command_process(command, &bundle);
            (Session { stage: Stage::Running, format }, Action::Spawn { spec })
        }
    }

    fn continue_with_credentials(
        format: PolicyFormat,
        bundle: CredentialBundle,
        command: Vec<String>,
    ) -> (r: (Session, Action))
        ensures
            continues_with_credentials(r, format, bundle, command),
    {
        let notice = match bundle.expiration {
            Some(e) => expiration_notice(e),
            None => None,
        };
        match notice {
            Some(message) => (
                Session { stage: Stage::Announcing { bundle, command }, format },
                Action::Announce { message },
            ),
            None => Session::launch(format, bundle, command),
        }
    }

    /// Starts a session for `input` at unix time `now`: tags are validated
    /// before anything else, then the policy file is read where there is one,
    /// and only then is the role looked up, unless it is already a canonical
    /// identifier.
    pub fn start(input: LaunchInput, now: i64, format: PolicyFormat) -> (r: (Session, Action))
        ensures
            started(r, input, now as int, format),
            r.1 is LookupRole <==> tags_valid(input.tags@) && input.policy is None
                && !has_canonical_prefix(input.role@),
    {
        let tags = match parse_tags(&input.tags) {
            Ok(tags) => tags,
            Err(error) => {
                return (Session { stage: Stage::Finished, format }, Action::Fail { error });
            },
        };
        let session_name = match &input.role_session_name {
            Some(n) => n.clone(),
            None => default_session_name(now),
        };
        let ghost tag_view = tags@;
        let (draft, role) = RequestDraft::new(input, tags, session_name);
        assert(tags_parsed(tag_view, input.tags@) && draft.drafted_from(
            input,
            tag_view,
            session_name_for(input, now as int),
        ));
        Session::continue_with_draft(format, draft, role)
    }

    /// Starts a session for `input`, reading the clock only where a session
    /// name must be made up.
    pub fn begin(input: LaunchInput, format: PolicyFormat) -> (r: (Session, Action))
        ensures
            exists|now: i64| started(r, input, now as int, format),
            input.role_session_name is Some ==> started(r, input, 0, format),
            r.1 is LookupRole <==> tags_valid(input.tags@) && input.policy is None
                && !has_canonical_prefix(input.role@),
    {
        let now = if input.role_session_name.is_some() {
            0
        } else {
            unix_time_now()
        };
        Session::start(input, now, format)
    }

    /// Advances the session on `event`. A role lookup is asked for only
    /// right after the policy file is read, and a finished session stays
    /// finished.
    pub fn step(self, event: Event) -> (r: (Session, Action))
        ensures
            stepped(r, self, event),
            r.1 is LookupRole ==> self.stage is LoadingPolicy,
            self.stage is Finished ==> r.0.stage is Finished && r.1 is Ignored,
    {
        let format = self.format;
        match (self.stage, event) {
            (Stage::LoadingPolicy { role, path, draft }, Event::PolicyRead { text }) => {
                match text {
                    None => (
                        Session { stage: Stage::Finished, format },
                        Action::Fail { error: LaunchError::PolicyUnreadable { path } },
                    ),
                    Some(t) => match policy_document(format, path.as_str(), t) {
                        Err(error) => (Session { stage: Stage::Finished, format }, Action::Fail { error }),
                        Ok(doc) => Session::continue_with_policy(format, draft, role, Some(doc)),
                    },
                }
            },
            (Stage::ResolvingRole { name, draft, policy }, Event::RoleLookedUp { role_arn }) => {
                match role_arn {
                    None => (
                        Session { stage: Stage::Finished, format },
                        Action::Fail { error: LaunchError::RoleUnresolved { name } },
                    ),
                    Some(a) => {
                        let (request, command) = draft.complete(a, policy);
                        (Session { stage: Stage::Issuing { command }, format }, Action::AssumeRole { request })
                    },
                }
            },
            (Stage::Issuing { command }, Event::Issued { outcome }) => match outcome {
                Err(message) => (
                    Session { stage: Stage::Finished, format },
                    Action::Fail { error: LaunchError::TrustService { message } },
                ),
                Ok(response) => match extract_credentials(response) {
                    Err(error) => (Session { stage: Stage::Finished, format }, Action::Fail { error }),
                    Ok(bundle) => Session::continue_with_credentials(format, bundle, command),
                },
            },
            (Stage::Announcing { bundle, command }, Event::Announced) => Session::launch(
                format,
                bundle,
                command,
            ),
            (Stage::FindingShell { bundle }, Event::ShellFound { shell }) => match shell {
                None => (
                    Session { stage: Stage::Finished, format },
                    Action::Fail { error: LaunchError::MissingShell },
                ),
                Some(sh) => {
                    let spec = shell_process(sh, &bundle);
                    (Session { stage: Stage::Running, format }, Action::Spawn { spec })
                },
            },
            (Stage::Running, Event::SpawnFailed { message }) => (
                Session { stage: Stage::Finished, format },
                Action::Fail { error: LaunchError::Spawn { message } },
            ),
            (Stage::Running, Event::Exited { code }) => (
                Session { stage: Stage::Finished, format },
                Action::Exit { code },
            ),
            (stage, _) => (Session { stage, format }, Action::Ignored),
        }
    }
}

/// A session asks for a directory lookup at its start exactly when its tags
/// are well formed, it has no policy file to read first, and its role is not
/// a canonical identifier.
pub proof fn lemma_lookup_at_start(
    r: (Session, Action),
    input: LaunchInput,
    now: int,
    format: PolicyFormat,
)
    requires
        started(r, input, now, format),
    ensures
        r.1 is LookupRole <==> tags_valid(input.tags@) && input.policy is None
            && !has_canonical_prefix(input.role@),
        r.1 is LookupRole ==> r.0.stage is ResolvingRole,
        r.0.stage matches Stage::LoadingPolicy { role, .. } ==> role == input.role,
{
}

/// A step asks for a lookup only right after the policy file is read, for
/// the role that was waiting, and a session only waits for the policy file
/// where it already did.
pub proof fn lemma_lookup_after_policy(r: (Session, Action), s: Session, e: Event)
    requires
        stepped(r, s, e),
    ensures
        r.1 is LookupRole ==> (s.stage matches Stage::LoadingPolicy { role, .. }
            && !has_canonical_prefix(role@) && r.1 == (Action::LookupRole { name: role })),
        r.1 is LookupRole ==> r.0.stage is ResolvingRole,
        r.0.stage is LoadingPolicy ==> r.0 == s,
{
}

/// `rs` are the (session, action) pairs of a run that starts on `input` and
/// takes the events `es` in turn.
pub open spec fn is_run(
    input: LaunchInput,
    now: int,
    format: PolicyFormat,
    rs: Seq<(Session, Action)>,
    es: Seq<Event>,
) -> bool {
    &&& rs.len() == es.len() + 1
    &&& started(rs[0], input, now, format)
    &&& forall|i: int| 0 <= i < es.len() ==> stepped(#[trigger] rs[i + 1], rs[i].0, es[i])
}

/// Up to a point where a run waits for the policy file, it has waited for
/// it all along, for the role it started with.
proof fn lemma_loading_from_start(
    input: LaunchInput,
    now: int,
    format: PolicyFormat,
    rs: Seq<(Session, Action)>,
    es: Seq<Event>,
    i: int,
)
    requires
        is_run(input, now, format, rs, es),
        0 <= i < rs.len(),
    ensures
        rs[i].0.stage matches Stage::LoadingPolicy { role, .. } ==> role == input.role,
        rs[i].0.stage is LoadingPolicy ==> forall|j: int|
            0 <= j <= i ==> (#[trigger] rs[j].0.stage) is LoadingPolicy,
    decreases i,
{
    lemma_lookup_at_start(rs[0], input, now, format);
    if i > 0 {
        let k = i - 1;
        assert(stepped(rs[k + 1], rs[k].0, es[k]));
        lemma_lookup_after_policy(rs[i], rs[k].0, es[k]);
        lemma_loading_from_start(input, now, format, rs, es, k);
    }
}

/// Over a whole run, a role given as a canonical identifier is never looked
/// up, and any other role is looked up at most once.
pub proof fn lemma_lookups_in_run(
    input: LaunchInput,
    now: int,
    format: PolicyFormat,
    rs: Seq<(Session, Action)>,
    es: Seq<Event>,
)
    requires
        is_run(input, now, format, rs, es),
    ensures
        has_canonical_prefix(input.role@) ==> forall|i: int|
            0 <= i < rs.len() ==> !(#[trigger] rs[i].1 is LookupRole),
        forall|i: int, j: int|
            0 <= i < j < rs.len() ==> !(#[trigger] rs[i].1 is LookupRole && #[trigger] rs[j].1 is LookupRole),
{
    lemma_lookup_at_start(rs[0], input, now, format);
    assert forall|j: int| 1 <= j < rs.len() && #[trigger] rs[j].1 is LookupRole implies (
    !has_canonical_prefix(input.role@) && forall|i: int| 0 <= i < j ==> (#[trigger] rs[i].0.stage) is LoadingPolicy) by {
        let k = j - 1;
        assert(stepped(rs[k + 1], rs[k].0, es[k]));
        lemma_lookup_after_policy(rs[j], rs[k].0, es[k]);
        lemma_loading_from_start(input, now, format, rs, es, k);
    }
    assert forall|i: int| 0 <= i < rs.len() && #[trigger] rs[i].1 is LookupRole implies !(rs[i].0.stage is LoadingPolicy) by {
        if i > 0 {
            let k = i - 1;
            assert(stepped(rs[k + 1], rs[k].0, es[k]));
            lemma_lookup_after_policy(rs[i], rs[k].0, es[k]);
        }
    }
}

/// A trust-service answer without credentials ends the session with a
/// missing-credential error, and a finished session never starts a process.
pub proof fn lemma_no_credentials_no_spawn(
    r: (Session, Action),
    s: Session,
    command: Vec<String>,
    r2: (Session, Action),
    e2: Event,
)
    requires
        s.stage == (Stage::Issuing { command }),
        stepped(r, s, Event::Issued { outcome: Ok(None) }),
        stepped(r2, r.0, e2),
    ensures
        r.1 == (Action::Fail {
            error: LaunchError::MissingCredential { field: CredentialField::Bundle },
        }),
        r.0.stage is Finished,
        !(r2.1 is Spawn),
        r2.0.stage is Finished,
{
}

} // verus!
