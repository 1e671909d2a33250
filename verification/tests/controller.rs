use kufefe::cluster::{select_cluster_url, Cluster, ClusterSpec, ClusterStatus,
    ClusterStatusApiEndpoints, ClusterUrlError, ProviderSpec, ProviderSpecValue};
use kufefe::crd::Request;
use kufefe::error::Error;
use kufefe::reaper::{annotation_expiry, delete_opt, select_expired, DeleteOutcome, ExpiryItem};
use kufefe::reconcile::{
    reconcile_init, reconcile_step, Action, ArtifactKind, Event, ReconcileInput, ReconcileState,
    Step,
};
use kufefe::token::Token;
use kufefe::watcher::{handle_event, should_bootstrap, WatchAction, WatchEvent};

fn request(role: &str) -> Request {
    let mut r = Request::mock();
    r.metadata.name = Some("r1".to_string());
    r.metadata.uid = Some("uid-1".to_string());
    r.spec.role = role.to_string();
    r
}

fn input() -> ReconcileInput {
    ReconcileInput {
        namespace: "default".to_string(),
        server_url: "https://api.example:6443".to_string(),
        expire_minutes: 60,
    }
}

fn eligible_annotations() -> Vec<(String, String)> {
    vec![("kufefe.io/role".to_string(), "true".to_string())]
}

const NOW: i64 = 1_700_000_000;

/// Walks the three collision probes, all free, up to the initial status
/// write.
fn start(owner: &Request, input: &ReconcileInput) -> (ReconcileState, Action) {
    let (state, action) = reconcile_init(owner, input, NOW);
    assert!(matches!(action, Action::ProbeName { kind: ArtifactKind::Identity, .. }));
    let (state, action) = reconcile_step(owner, input, state, Event::NameProbed(false));
    assert!(matches!(action, Action::ProbeName { kind: ArtifactKind::Token, .. }));
    let (state, action) = reconcile_step(owner, input, state, Event::NameProbed(false));
    assert!(matches!(action, Action::ProbeName { kind: ArtifactKind::Binding, .. }));
    reconcile_step(owner, input, state, Event::NameProbed(false))
}

#[test]
fn happy_path_reaches_ready() {
    let owner = request("reader");
    let input = input();
    let (state, action) = start(&owner, &input);

    // first write: the generated names and the expiry, neither ready nor failed
    let initial = match action {
        Action::UpdateStatus(st) => st,
        _ => panic!("expected a status write"),
    };
    assert!(!initial.ready && !initial.failed);
    assert!(initial.service_account_name.starts_with("kufefe-generated-"));
    assert!(initial.token_name.starts_with("kufefe-generated-"));
    assert!(initial.rolebinding_name.starts_with("kufefe-generated-"));
    // the stamp is the clock plus the sixty-minute time-to-live
    assert_eq!(initial.expires_at, Some(NOW + 3600));
    assert_eq!(initial.message, "Generated names for resources");
    let sa_name = initial.service_account_name.clone();
    let tk_name = initial.token_name.clone();
    let rb_name = initial.rolebinding_name.clone();

    // the role gate
    let (state, action) = reconcile_step(&owner, &input, state, Event::StatusWritten(Ok(())));
    match &action {
        Action::GetRole(r) => assert_eq!(r, "reader"),
        _ => panic!("expected the role fetch"),
    }

    // identity create, stamped and owned
    let (state, action) = reconcile_step(
        &owner,
        &input,
        state,
        Event::RoleFetched(Ok(Some(eligible_annotations()))),
    );
    let sa = match action {
        Action::CreateServiceAccount(sa) => sa,
        _ => panic!("expected the identity create"),
    };
    assert_eq!(sa.metadata.name, Some(sa_name.clone()));
    assert_eq!(sa.metadata.namespace, Some("default".to_string()));
    assert!(sa.automount_service_account_token);
    assert_eq!(sa.metadata.owner_references[0].name, "r1");
    assert_eq!(
        sa.metadata.labels[0],
        ("app.kubernetes.io/managed-by".to_string(), "kufefe".to_string())
    );

    // token create, annotated to its identity
    let (state, action) = reconcile_step(
        &owner,
        &input,
        state,
        Event::SaCreated(Ok(Some("sa-uid".to_string()))),
    );
    let tok = match action {
        Action::CreateToken(t) => t,
        _ => panic!("expected the token create"),
    };
    assert_eq!(tok.metadata.name, Some(tk_name.clone()));
    assert_eq!(tok.type_, "kubernetes.io/service-account-token");
    assert!(tok.metadata.annotations.contains(&(
        "kubernetes.io/service-account.name".to_string(),
        sa_name.clone()
    )));
    assert_eq!(tok.metadata.owner_references[0].kind, "ServiceAccount");
    assert_eq!(tok.metadata.owner_references[0].uid, "sa-uid");

    // binding create: the identity as subject, the role as reference
    let (state, action) = reconcile_step(&owner, &input, state, Event::TokenCreated(Ok(())));
    let rb = match action {
        Action::CreateRoleBinding(b) => b,
        _ => panic!("expected the binding create"),
    };
    assert_eq!(rb.metadata.name, Some(rb_name.clone()));
    assert_eq!(rb.metadata.namespace, None);
    assert_eq!(rb.subjects.len(), 1);
    assert_eq!(rb.subjects[0].kind, "ServiceAccount");
    assert_eq!(rb.subjects[0].name, sa_name);
    assert_eq!(rb.subjects[0].namespace, Some("default".to_string()));
    assert_eq!(rb.role_ref.kind, "ClusterRole");
    assert_eq!(rb.role_ref.name, "reader");

    // the two secret reads
    let (state, action) = reconcile_step(&owner, &input, state, Event::BindingCreated(Ok(())));
    match &action {
        Action::FetchSecretField { secret, key, after_ms } => {
            assert_eq!(secret, &tk_name);
            assert_eq!(key, "ca.crt");
            assert_eq!(*after_ms, 0);
        },
        _ => panic!("expected the certificate read"),
    }
    let (state, action) =
        reconcile_step(&owner, &input, state, Event::SecretField(Ok(b"abc".to_vec())));
    match &action {
        Action::FetchSecretField { key, .. } => assert_eq!(key, "token"),
        _ => panic!("expected the token read"),
    }

    // the ready write carries the rendered configuration
    let (state, action) =
        reconcile_step(&owner, &input, state, Event::SecretField(Ok(b"mytoken".to_vec())));
    let ready = match action {
        Action::UpdateStatus(st) => st,
        _ => panic!("expected the ready write"),
    };
    assert!(ready.ready && !ready.failed);
    assert_eq!(ready.message, "Completed");
    let yaml = ready.kubeconfig.unwrap();
    assert!(yaml.contains("certificate-authority-data: \"YWJj\""));
    assert!(yaml.contains("token: \"mytoken\""));
    assert!(yaml.contains(&format!("user: \"{}\"", sa_name)));
    assert!(yaml.contains("current-context: \"kubernetes\""));

    let (state, action) = reconcile_step(&owner, &input, state, Event::StatusWritten(Ok(())));
    assert!(matches!(state.step, Step::Done));
    assert!(matches!(action, Action::Finish));
    assert_eq!(state.artifacts, 3);
}

#[test]
fn ineligible_role_fails_with_no_artifacts() {
    let owner = request("reader");
    let input = input();
    let (state, _) = start(&owner, &input);
    let (state, _) = reconcile_step(&owner, &input, state, Event::StatusWritten(Ok(())));
    let no_marker = vec![("unrelated".to_string(), "true".to_string())];
    let (state, action) =
        reconcile_step(&owner, &input, state, Event::RoleFetched(Ok(Some(no_marker))));
    assert!(matches!(state.step, Step::Failed));
    assert_eq!(state.artifacts, 0);
    match action {
        Action::UpdateStatus(st) => {
            assert!(st.failed && !st.ready);
            assert_eq!(st.message, "Role lacks the annotation kufefe.io/role");
        },
        _ => panic!("expected one failed-status write"),
    }
}

#[test]
fn missing_role_fails_with_no_artifacts() {
    let owner = request("ghost");
    let input = input();
    let (state, _) = start(&owner, &input);
    let (state, _) = reconcile_step(&owner, &input, state, Event::StatusWritten(Ok(())));
    let (state, action) = reconcile_step(
        &owner,
        &input,
        state,
        Event::RoleFetched(Err("clusterroles \"ghost\" not found".to_string())),
    );
    assert!(matches!(state.step, Step::Failed));
    assert_eq!(state.artifacts, 0);
    match action {
        Action::UpdateStatus(st) => {
            assert!(st.failed);
            assert_eq!(st.message, "clusterroles \"ghost\" not found");
        },
        _ => panic!("expected one failed-status write"),
    }
}

#[test]
fn create_failure_keeps_earlier_artifacts() {
    let owner = request("reader");
    let input = input();
    let (state, _) = start(&owner, &input);
    let (state, _) = reconcile_step(&owner, &input, state, Event::StatusWritten(Ok(())));
    let (state, _) = reconcile_step(
        &owner,
        &input,
        state,
        Event::RoleFetched(Ok(Some(eligible_annotations()))),
    );
    let (state, _) = reconcile_step(&owner, &input, state, Event::SaCreated(Ok(None)));
    // the token create fails: the identity stays, nothing is rolled back
    let (state, action) =
        reconcile_step(&owner, &input, state, Event::TokenCreated(Err("boom".to_string())));
    assert!(matches!(state.step, Step::Failed));
    assert_eq!(state.artifacts, 1);
    match action {
        Action::UpdateStatus(st) => assert!(st.failed && !st.ready),
        _ => panic!("expected one failed-status write"),
    }
}

#[test]
fn token_never_populated_fails_after_the_budget() {
    let owner = request("reader");
    let input = input();
    let (state, _) = start(&owner, &input);
    let (state, _) = reconcile_step(&owner, &input, state, Event::StatusWritten(Ok(())));
    let (state, _) = reconcile_step(
        &owner,
        &input,
        state,
        Event::RoleFetched(Ok(Some(eligible_annotations()))),
    );
    let (state, _) = reconcile_step(&owner, &input, state, Event::SaCreated(Ok(None)));
    let (state, _) = reconcile_step(&owner, &input, state, Event::TokenCreated(Ok(())));
    let (mut state, _) = reconcile_step(&owner, &input, state, Event::BindingCreated(Ok(())));

    let mut delays: Vec<u64> = Vec::new();
    let mut failed_action = None;
    for attempt in 0..30 {
        let (next, action) = reconcile_step(
            &owner,
            &input,
            state,
            Event::SecretField(Err("Secret has no property ca.crt".to_string())),
        );
        state = next;
        match action {
            Action::FetchSecretField { after_ms, .. } => delays.push(after_ms),
            Action::UpdateStatus(st) => {
                failed_action = Some(st);
                assert_eq!(attempt, 29);
                break;
            },
            _ => panic!("unexpected action during the retry loop"),
        }
    }
    // 5 ms, then 5 s, then the 60 s cap for every later pause
    assert_eq!(delays.len(), 29);
    assert_eq!(delays[0], 5);
    assert_eq!(delays[1], 5000);
    assert!(delays[2..].iter().all(|d| *d == 60000));
    let st = failed_action.expect("the budget spent, the reconciliation fails");
    assert!(st.failed && !st.ready);
    assert_eq!(st.message, "Secret has no property ca.crt");
    // the three artifacts remain for the reaper
    assert!(matches!(state.step, Step::Failed));
    assert_eq!(state.artifacts, 3);
}

#[test]
fn binary_certificate_reaches_ready() {
    let owner = request("reader");
    let input = input();
    let (state, _) = start(&owner, &input);
    let (state, _) = reconcile_step(&owner, &input, state, Event::StatusWritten(Ok(())));
    let (state, _) = reconcile_step(
        &owner,
        &input,
        state,
        Event::RoleFetched(Ok(Some(eligible_annotations()))),
    );
    let (state, _) = reconcile_step(&owner, &input, state, Event::SaCreated(Ok(None)));
    let (state, _) = reconcile_step(&owner, &input, state, Event::TokenCreated(Ok(())));
    let (state, _) = reconcile_step(&owner, &input, state, Event::BindingCreated(Ok(())));
    // the certificate payload is not text — a DER certificate — and is
    // taken as it is
    let (state, action) =
        reconcile_step(&owner, &input, state, Event::SecretField(Ok(vec![0xff])));
    assert!(matches!(state.step, Step::AwaitTokenData));
    match action {
        Action::FetchSecretField { key, .. } => assert_eq!(key, "token"),
        _ => panic!("expected the token read"),
    }
    let (state, action) =
        reconcile_step(&owner, &input, state, Event::SecretField(Ok(b"tok".to_vec())));
    assert!(matches!(state.step, Step::AwaitReadyStatus));
    match action {
        Action::UpdateStatus(st) => {
            assert!(st.ready);
            assert!(st.kubeconfig.unwrap().contains("certificate-authority-data: \"/w==\""));
        },
        _ => panic!("expected the ready write"),
    }
}

#[test]
fn unreadable_token_fails_at_once() {
    let owner = request("reader");
    let input = input();
    let (state, _) = start(&owner, &input);
    let (state, _) = reconcile_step(&owner, &input, state, Event::StatusWritten(Ok(())));
    let (state, _) = reconcile_step(
        &owner,
        &input,
        state,
        Event::RoleFetched(Ok(Some(eligible_annotations()))),
    );
    let (state, _) = reconcile_step(&owner, &input, state, Event::SaCreated(Ok(None)));
    let (state, _) = reconcile_step(&owner, &input, state, Event::TokenCreated(Ok(())));
    let (state, _) = reconcile_step(&owner, &input, state, Event::BindingCreated(Ok(())));
    let (state, _) =
        reconcile_step(&owner, &input, state, Event::SecretField(Ok(b"ca".to_vec())));
    // a token that is not text is terminal: one failed write, no retry
    let (state, action) =
        reconcile_step(&owner, &input, state, Event::SecretField(Ok(vec![0xff])));
    assert!(matches!(state.step, Step::Failed));
    assert_eq!(state.artifacts, 3);
    match action {
        Action::UpdateStatus(st) => {
            assert!(st.failed && !st.ready);
            assert_eq!(st.message, "Could not parse token");
        },
        _ => panic!("expected one failed-status write"),
    }
}

#[test]
fn name_collision_is_regenerated_without_failure() {
    let owner = request("reader");
    let input = input();
    let (state, action) = reconcile_init(&owner, &input, NOW);
    let first = match action {
        Action::ProbeName { kind: ArtifactKind::Identity, name } => name,
        _ => panic!("expected the identity name probe"),
    };
    assert!(first.starts_with("kufefe-generated-"));
    // the candidate is taken: a fresh one is drawn and probed again
    let (state, action) = reconcile_step(&owner, &input, state, Event::NameProbed(true));
    let second = match action {
        Action::ProbeName { kind: ArtifactKind::Identity, name } => name,
        _ => panic!("expected the identity name to be probed again"),
    };
    assert!(second.starts_with("kufefe-generated-"));
    assert_eq!(second.len(), 23);
    // the fresh candidate is free: the probe moves on, nothing failed
    let (state, action) = reconcile_step(&owner, &input, state, Event::NameProbed(false));
    assert!(matches!(action, Action::ProbeName { kind: ArtifactKind::Token, .. }));
    assert!(!matches!(state.step, Step::Failed));
    assert_eq!(state.sa_name, second);
}

#[test]
fn ready_write_conflict_ends_the_pass_failed() {
    let owner = request("reader");
    let input = input();
    let (state, _) = start(&owner, &input);
    let (state, _) = reconcile_step(&owner, &input, state, Event::StatusWritten(Ok(())));
    let (state, _) = reconcile_step(
        &owner,
        &input,
        state,
        Event::RoleFetched(Ok(Some(eligible_annotations()))),
    );
    let (state, _) = reconcile_step(&owner, &input, state, Event::SaCreated(Ok(None)));
    let (state, _) = reconcile_step(&owner, &input, state, Event::TokenCreated(Ok(())));
    let (state, _) = reconcile_step(&owner, &input, state, Event::BindingCreated(Ok(())));
    let (state, _) =
        reconcile_step(&owner, &input, state, Event::SecretField(Ok(b"ca".to_vec())));
    let (state, _) =
        reconcile_step(&owner, &input, state, Event::SecretField(Ok(b"tok".to_vec())));
    // the ready write is rejected (a version conflict): the pass ends failed,
    // never ready and failed at once
    let (state, action) = reconcile_step(
        &owner,
        &input,
        state,
        Event::StatusWritten(Err("Operation cannot be fulfilled".to_string())),
    );
    assert!(matches!(state.step, Step::Failed));
    match action {
        Action::UpdateStatus(st) => {
            assert!(st.failed && !st.ready);
            assert_eq!(st.message, "Operation cannot be fulfilled");
        },
        _ => panic!("expected one failed-status write"),
    }
    // terminal afterwards
    let (state, action) = reconcile_step(&owner, &input, state, Event::StatusWritten(Ok(())));
    assert!(matches!(state.step, Step::Failed));
    assert!(matches!(action, Action::Finish));
}

#[test]
fn secret_payload_lookup() {
    let data = vec![
        ("ca.crt".to_string(), b"abc".to_vec()),
        ("token".to_string(), b"tok".to_vec()),
    ];
    assert_eq!(Token::data(Some(&data), "ca.crt").unwrap(), b"abc".to_vec());
    assert_eq!(Token::data(Some(&data), "token").unwrap(), b"tok".to_vec());
    let missing = Token::data(Some(&data), "namespace").unwrap_err();
    assert!(matches!(&missing, Error::MissingField(f) if f == "namespace"));
    assert_eq!(missing.message(), "Secret has no property namespace");
    let no_data = Token::data(None, "token").unwrap_err();
    assert!(matches!(no_data, Error::SecretNoData));
    assert_eq!(no_data.message(), "Secret has no data");
}

#[test]
fn reaper_selects_exactly_the_expired() {
    let items = vec![
        ExpiryItem { name: "a".to_string(), expires_at: Some(50) },
        ExpiryItem { name: "b".to_string(), expires_at: Some(150) },
        ExpiryItem { name: "c".to_string(), expires_at: None },
        ExpiryItem { name: "d".to_string(), expires_at: Some(99) },
        ExpiryItem { name: "e".to_string(), expires_at: Some(100) },
    ];
    let doomed = select_expired(&items, 100);
    assert_eq!(doomed, vec!["a".to_string(), "d".to_string()]);
}

#[test]
fn reaper_reads_the_expiry_annotation() {
    let anns = vec![
        ("other".to_string(), "x".to_string()),
        ("kufefe.io/expire-by".to_string(), "1700000000".to_string()),
    ];
    assert_eq!(annotation_expiry(&anns), Some(1700000000));
    let bad = vec![("kufefe.io/expire-by".to_string(), "soon".to_string())];
    assert_eq!(annotation_expiry(&bad), None);
    assert_eq!(annotation_expiry(&Vec::new()), None);
}

#[test]
fn reaper_stamp_round_trip() {
    // what the metadata factory stamps, the reaper reads back
    let anns = kufefe::meta::annotations(1700003600);
    assert_eq!(annotation_expiry(&anns), Some(1700003600));
}

#[test]
fn deletion_races_are_benign() {
    assert_eq!(delete_opt(DeleteOutcome::Deleted), Ok(true));
    assert_eq!(delete_opt(DeleteOutcome::Missing), Ok(false));
    assert_eq!(
        delete_opt(DeleteOutcome::Failed("denied".to_string())),
        Err("denied".to_string())
    );
}

#[test]
fn watcher_dispatch_rules() {
    let fresh = request("reader");
    assert!(should_bootstrap(&fresh));
    assert!(matches!(handle_event(&WatchEvent::Applied(fresh)), WatchAction::Reconcile));

    let mut terminal = request("reader");
    terminal.ready(true);
    assert!(!should_bootstrap(&terminal));
    assert!(matches!(handle_event(&WatchEvent::Applied(terminal)), WatchAction::Ignore));

    let mut unready = request("reader");
    unready.ready(false);
    assert!(should_bootstrap(&unready));

    assert!(matches!(
        handle_event(&WatchEvent::Deleted(request("reader"))),
        WatchAction::LogDeleted
    ));
    assert!(matches!(handle_event(&WatchEvent::Other), WatchAction::Ignore));
}

fn provider_cluster(name: Option<&str>, host: Option<&str>) -> Cluster {
    Cluster {
        name: name.map(|n| n.to_string()),
        spec: ClusterSpec {
            provider_spec: ProviderSpec {
                value: ProviderSpecValue { load_balancer_ip: "10.0.0.1".to_string() },
            },
        },
        status: host.map(|h| ClusterStatus {
            api_endpoints: vec![ClusterStatusApiEndpoints { host: h.to_string(), port: 443 }],
        }),
    }
}

#[test]
fn single_cluster_decides_the_url() {
    let clusters = vec![provider_cluster(Some("one"), Some("https://one.example"))];
    assert_eq!(select_cluster_url(&clusters, None).unwrap(), "https://one.example");
}

#[test]
fn several_clusters_need_a_name() {
    let clusters = vec![
        provider_cluster(Some("one"), Some("https://one.example")),
        provider_cluster(Some("two"), Some("https://two.example")),
    ];
    let e = select_cluster_url(&clusters, None).unwrap_err();
    assert!(matches!(e, ClusterUrlError::NameNeeded));
    let name = "two".to_string();
    assert_eq!(select_cluster_url(&clusters, Some(&name)).unwrap(), "https://two.example");
}

#[test]
fn no_usable_cluster_is_an_error() {
    let e = select_cluster_url(&Vec::new(), None).unwrap_err();
    assert!(matches!(e, ClusterUrlError::NoneFound));
    assert_eq!(e.message(), "Failed to find any cluster resources");
    let statusless = vec![provider_cluster(Some("one"), None)];
    assert!(select_cluster_url(&statusless, None).is_err());
}
