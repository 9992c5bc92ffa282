use assume_role::credentials::{Expiration, IssuedCredentials};
use assume_role::error::{CredentialField, LaunchError};
use assume_role::policy::PolicyFormat;
use assume_role::request::LaunchInput;
use assume_role::session::{Action, Event, Session, Stage};

fn input(role: &str, tags: &[&str], command: &[&str]) -> LaunchInput {
    LaunchInput {
        role: role.to_string(),
        role_session_name: Some("fixed".to_string()),
        policy_arns: vec!["arn:aws:iam::aws:policy/ReadOnlyAccess".to_string()],
        policy: None,
        duration_seconds: Some(900),
        tags: tags.iter().map(|s| s.to_string()).collect(),
        transitive_tag_keys: vec!["env".to_string()],
        external_id: Some("ext".to_string()),
        serial_number: None,
        token_code: None,
        source_identity: None,
        command: command.iter().map(|s| s.to_string()).collect(),
    }
}

fn credentials(expiration: Option<Expiration>) -> IssuedCredentials {
    IssuedCredentials {
        access_key_id: Some("AKID".to_string()),
        secret_access_key: Some("SECRET".to_string()),
        session_token: Some("TOKEN".to_string()),
        expiration,
    }
}

const ARN: &str = "arn:aws:iam::123456789012:role/admin";

#[test]
fn canonical_role_runs_command() {
    let (s, a) = Session::start(input(ARN, &[], &["echo", "hi"]), 0, PolicyFormat::YamlToJson);
    let mut trust_calls = 0;
    let request = match a {
        Action::AssumeRole { request } => {
            trust_calls += 1;
            request
        }
        other => panic!("unexpected {:?}", other),
    };
    assert_eq!(request.role_arn, ARN);
    assert_eq!(request.role_session_name, "fixed");
    assert_eq!(request.duration_seconds, Some(900));
    assert_eq!(request.external_id.as_deref(), Some("ext"));
    assert_eq!(request.transitive_tag_keys, vec!["env".to_string()]);
    assert!(request.policy.is_none());
    let (s, a) = s.step(Event::Issued { outcome: Ok(Some(credentials(None))) });
    let spec = match a {
        Action::Spawn { spec } => spec,
        other => panic!("unexpected {:?}", other),
    };
    assert_eq!(spec.program, "echo");
    assert_eq!(spec.args, vec!["hi".to_string()]);
    assert!(spec.env.iter().any(|v| v.name == "AWS_ACCESS_KEY_ID" && v.value == "AKID"));
    assert!(spec.env.iter().any(|v| v.name == "AWS_SECRET_ACCESS_KEY" && v.value == "SECRET"));
    let (s, a) = s.step(Event::Exited { code: 3 });
    assert!(matches!(a, Action::Exit { code: 3 }));
    assert!(matches!(s.stage, Stage::Finished));
    assert_eq!(trust_calls, 1);
}

#[test]
fn unresolved_name_stops_before_trust_service() {
    let (s, a) = Session::start(input("admin", &[], &["true"]), 0, PolicyFormat::YamlToJson);
    match a {
        Action::LookupRole { name } => assert_eq!(name, "admin"),
        other => panic!("unexpected {:?}", other),
    }
    let (s, a) = s.step(Event::RoleLookedUp { role_arn: None });
    match a {
        Action::Fail { error: LaunchError::RoleUnresolved { name } } => assert_eq!(name, "admin"),
        other => panic!("unexpected {:?}", other),
    }
    let (_, a) = s.step(Event::Issued { outcome: Ok(Some(credentials(None))) });
    assert!(matches!(a, Action::Ignored));
}

#[test]
fn resolved_name_is_used_as_role() {
    let (s, _) = Session::start(input("admin", &[], &["true"]), 0, PolicyFormat::YamlToJson);
    let (_, a) = s.step(Event::RoleLookedUp { role_arn: Some(ARN.to_string()) });
    match a {
        Action::AssumeRole { request } => assert_eq!(request.role_arn, ARN),
        other => panic!("unexpected {:?}", other),
    }
}

#[test]
fn bad_tag_stops_before_any_call() {
    let (s, a) = Session::start(input(ARN, &["env=prod", "bad-tag"], &["true"]), 0, PolicyFormat::YamlToJson);
    match a {
        Action::Fail { error: LaunchError::InvalidTag { tag } } => assert_eq!(tag, "bad-tag"),
        other => panic!("unexpected {:?}", other),
    }
    assert!(matches!(s.stage, Stage::Finished));
}

#[test]
fn missing_shell_stops_before_spawn() {
    let (s, a) = Session::start(input(ARN, &[], &[]), 0, PolicyFormat::YamlToJson);
    assert!(matches!(a, Action::AssumeRole { .. }));
    let (s, a) = s.step(Event::Issued { outcome: Ok(Some(credentials(None))) });
    assert!(matches!(a, Action::LookupShell));
    let (s, a) = s.step(Event::ShellFound { shell: None });
    assert!(matches!(a, Action::Fail { error: LaunchError::MissingShell }));
    let (_, a) = s.step(Event::ShellFound { shell: Some("/bin/sh".to_string()) });
    assert!(matches!(a, Action::Ignored));
}

#[test]
fn shell_runs_when_no_command() {
    let (s, _) = Session::start(input(ARN, &[], &[]), 0, PolicyFormat::YamlToJson);
    let (s, _) = s.step(Event::Issued { outcome: Ok(Some(credentials(None))) });
    let (_, a) = s.step(Event::ShellFound { shell: Some("/bin/bash".to_string()) });
    match a {
        Action::Spawn { spec } => {
            assert_eq!(spec.program, "/bin/bash");
            assert!(spec.args.is_empty());
            assert!(spec.env.iter().any(|v| v.name == "AWS_SESSION_TOKEN" && v.value == "TOKEN"));
        }
        other => panic!("unexpected {:?}", other),
    }
}

#[test]
fn no_credentials_means_no_spawn() {
    let (s, _) = Session::start(input(ARN, &[], &["echo"]), 0, PolicyFormat::YamlToJson);
    let (s, a) = s.step(Event::Issued { outcome: Ok(None) });
    assert!(matches!(
        a,
        Action::Fail { error: LaunchError::MissingCredential { field: CredentialField::Bundle } }
    ));
    let (_, a) = s.step(Event::Exited { code: 0 });
    assert!(matches!(a, Action::Ignored));
}

#[test]
fn trust_service_error_is_passed_on() {
    let (s, _) = Session::start(input(ARN, &[], &["echo"]), 0, PolicyFormat::YamlToJson);
    let (_, a) = s.step(Event::Issued { outcome: Err("AccessDenied".to_string()) });
    match a {
        Action::Fail { error: LaunchError::TrustService { message } } => assert_eq!(message, "AccessDenied"),
        other => panic!("unexpected {:?}", other),
    }
}

#[test]
fn expiration_is_announced_first() {
    let (s, _) = Session::start(input(ARN, &[], &["echo"]), 0, PolicyFormat::YamlToJson);
    let exp = Expiration { seconds: 1700000000, subsec_nanos: 0 };
    let (s, a) = s.step(Event::Issued { outcome: Ok(Some(credentials(Some(exp)))) });
    match a {
        Action::Announce { message } => {
            assert_eq!(message, "Credentials will expire at 2023-11-14T22:13:20Z")
        }
        other => panic!("unexpected {:?}", other),
    }
    let (_, a) = s.step(Event::Announced);
    assert!(matches!(a, Action::Spawn { .. }));
}

#[test]
fn spawn_failure_is_reported() {
    let (s, _) = Session::start(input(ARN, &[], &["nope"]), 0, PolicyFormat::YamlToJson);
    let (s, _) = s.step(Event::Issued { outcome: Ok(Some(credentials(None))) });
    let (_, a) = s.step(Event::SpawnFailed { message: "not found".to_string() });
    assert!(matches!(a, Action::Fail { error: LaunchError::Spawn { .. } }));
}

#[test]
fn policy_file_is_read_and_converted() {
    let mut i = input(ARN, &["env=prod"], &["echo"]);
    i.policy = Some("policy.yaml".to_string());
    let (s, a) = Session::start(i, 0, PolicyFormat::YamlToJson);
    match a {
        Action::ReadPolicy { ref path } => assert_eq!(path, "policy.yaml"),
        ref other => panic!("unexpected {:?}", other),
    }
    let (_, a) = s.step(Event::PolicyRead { text: Some("a: 1\n".to_string()) });
    match a {
        Action::AssumeRole { request } => {
            assert_eq!(request.policy.as_deref(), Some(r#"{"a":1}"#));
            assert_eq!(request.tags.len(), 1);
            assert_eq!(request.tags[0].key, "env");
        }
        other => panic!("unexpected {:?}", other),
    }
}

#[test]
fn unreadable_policy_is_reported() {
    let mut i = input(ARN, &[], &["echo"]);
    i.policy = Some("missing.yaml".to_string());
    let (s, _) = Session::start(i, 0, PolicyFormat::YamlToJson);
    let (_, a) = s.step(Event::PolicyRead { text: None });
    match a {
        Action::Fail { error } => {
            assert!(error.is_validation());
            assert!(matches!(error, LaunchError::PolicyUnreadable { ref path } if path == "missing.yaml"));
        }
        other => panic!("unexpected {:?}", other),
    }
}

#[test]
fn default_session_name_uses_time() {
    let mut i = input(ARN, &[], &["echo"]);
    i.role_session_name = None;
    let (_, a) = Session::start(i, 42, PolicyFormat::YamlToJson);
    match a {
        Action::AssumeRole { request } => assert_eq!(request.role_session_name, "assume-role@42"),
        other => panic!("unexpected {:?}", other),
    }
}

#[test]
fn begin_makes_up_a_session_name() {
    let mut i = input(ARN, &[], &["echo"]);
    i.role_session_name = None;
    let (_, a) = Session::begin(i, PolicyFormat::YamlToJson);
    match a {
        Action::AssumeRole { request } => assert!(request.role_session_name.starts_with("assume-role@")),
        other => panic!("unexpected {:?}", other),
    }
}

#[test]
fn policy_is_read_before_role_lookup() {
    let mut i = input("admin", &[], &["echo"]);
    i.policy = Some("policy.yaml".to_string());
    let (s, a) = Session::start(i, 0, PolicyFormat::YamlToJson);
    assert!(matches!(a, Action::ReadPolicy { .. }));
    let (s, a) = s.step(Event::PolicyRead { text: Some("Version: '2012-10-17'\n".to_string()) });
    match a {
        Action::LookupRole { name } => assert_eq!(name, "admin"),
        other => panic!("unexpected {:?}", other),
    }
    let (_, a) = s.step(Event::RoleLookedUp { role_arn: Some(ARN.to_string()) });
    match a {
        Action::AssumeRole { request } => {
            assert_eq!(request.role_arn, ARN);
            assert_eq!(request.policy.as_deref(), Some(r#"{"Version":"2012-10-17"}"#));
        }
        other => panic!("unexpected {:?}", other),
    }
}

#[test]
fn malformed_policy_stops_before_role_lookup() {
    let mut i = input("admin", &[], &["echo"]);
    i.policy = Some("bad.yaml".to_string());
    let (s, _) = Session::start(i, 0, PolicyFormat::YamlToJson);
    let (s, a) = s.step(Event::PolicyRead { text: Some("a: [1, 2".to_string()) });
    match a {
        Action::Fail { error: LaunchError::PolicyMalformed { path } } => assert_eq!(path, "bad.yaml"),
        other => panic!("unexpected {:?}", other),
    }
    let (_, a) = s.step(Event::RoleLookedUp { role_arn: Some(ARN.to_string()) });
    assert!(matches!(a, Action::Ignored));
}

#[test]
fn raw_json_policy_is_sent_verbatim() {
    let mut i = input(ARN, &[], &["echo"]);
    i.policy = Some("p.json".to_string());
    let (s, _) = Session::start(i, 0, PolicyFormat::RawJson);
    let (_, a) = s.step(Event::PolicyRead { text: Some("{ \"x\": 1 }".to_string()) });
    match a {
        Action::AssumeRole { request } => assert_eq!(request.policy.as_deref(), Some("{ \"x\": 1 }")),
        other => panic!("unexpected {:?}", other),
    }
}
