use base64::Engine;
use ecr_secret_sync::error::ErrorKind;
use ecr_secret_sync::reconcile::{CreateOutcome, DeleteOutcome, NamespaceReconciler, ReconcileAction, Stage};
use ecr_secret_sync::sync::{first_authorization_token, SyncAction, SyncConfig, SyncRun, SyncSummary};
use std::collections::BTreeMap;

/// A stand-in cluster: the manifests present, by namespace and name.
struct FakeCluster {
    secrets: BTreeMap<(String, String), String>,
    failing_create: Option<String>,
    failing_delete: Option<String>,
    calls: Vec<String>,
}

impl FakeCluster {
    fn new() -> FakeCluster {
        FakeCluster { secrets: BTreeMap::new(), failing_create: None, failing_delete: None, calls: Vec::new() }
    }

    fn drive(&mut self, run: &mut SyncRun) -> SyncSummary {
        loop {
            match run.next_action() {
                SyncAction::DeleteSecret { namespace, name } => {
                    self.calls.push(format!("delete {}", namespace));
                    let outcome = if self.failing_delete.as_deref() == Some(namespace.as_str()) {
                        DeleteOutcome::Failed
                    } else if self.secrets.remove(&(namespace, name)).is_some() {
                        DeleteOutcome::Deleted
                    } else {
                        DeleteOutcome::NotFound
                    };
                    run.on_delete(outcome);
                }
                SyncAction::CreateSecret { namespace, manifest } => {
                    self.calls.push(format!("create {}", namespace));
                    let v: serde_json::Value = serde_json::from_str(&manifest).unwrap();
                    let name = v["metadata"]["name"].as_str().unwrap().to_string();
                    let key = (namespace.clone(), name);
                    let outcome = if self.failing_create.as_deref() == Some(namespace.as_str()) {
                        CreateOutcome::Failed
                    } else if self.secrets.contains_key(&key) {
                        CreateOutcome::AlreadyExists
                    } else {
                        self.secrets.insert(key, manifest);
                        CreateOutcome::Created
                    };
                    run.on_create(outcome);
                }
                SyncAction::Finished => return run.summary(),
            }
        }
    }
}

fn config(namespaces: &[&str]) -> SyncConfig {
    SyncConfig::new(
        "111122223333".to_string(),
        "us-west-2".to_string(),
        "a@b.com".to_string(),
        namespaces.iter().map(|s| s.to_string()).collect(),
    )
}

fn aws_token() -> Option<String> {
    Some("QVdTOmFiY0RFRjEyMw==".to_string())
}

#[test]
fn end_to_end_two_namespaces() {
    let mut run = SyncRun::start(config(&["ns1", "ns2"]), aws_token()).unwrap();
    let mut cluster = FakeCluster::new();
    let summary = cluster.drive(&mut run);
    assert_eq!(summary.succeeded, vec!["ns1".to_string(), "ns2".to_string()]);
    assert!(summary.failed.is_empty());
    let name = "us-west-2-ecr-registry".to_string();
    let m1 = &cluster.secrets[&("ns1".to_string(), name.clone())];
    let m2 = &cluster.secrets[&("ns2".to_string(), name.clone())];
    let v1: serde_json::Value = serde_json::from_str(m1).unwrap();
    let v2: serde_json::Value = serde_json::from_str(m2).unwrap();
    assert_eq!(v1["metadata"]["namespace"], "ns1");
    assert_eq!(v2["metadata"]["namespace"], "ns2");
    assert_eq!(v1["data"][".dockerconfigjson"], v2["data"][".dockerconfigjson"]);
    let payload = v1["data"][".dockerconfigjson"].as_str().unwrap();
    let inner = base64::engine::general_purpose::STANDARD.decode(payload).unwrap();
    let inner: serde_json::Value = serde_json::from_slice(&inner).unwrap();
    assert_eq!(inner["auths"]["https://111122223333.dkr.ecr.us-west-2.amazonaws.com"]["username"], "AWS");
    assert_eq!(inner["auths"]["https://111122223333.dkr.ecr.us-west-2.amazonaws.com"]["password"], "abcDEF123");
    assert_eq!(cluster.calls, vec!["delete ns1", "create ns1", "delete ns2", "create ns2"]);
}

#[test]
fn second_create_failure_is_isolated() {
    let mut run = SyncRun::start(config(&["a", "b", "c"]), aws_token()).unwrap();
    let mut cluster = FakeCluster::new();
    cluster.failing_create = Some("b".to_string());
    let summary = cluster.drive(&mut run);
    assert_eq!(summary.succeeded, vec!["a".to_string(), "c".to_string()]);
    assert_eq!(summary.failed, vec![("b".to_string(), ErrorKind::CreateFailed)]);
    assert_eq!(cluster.calls, vec!["delete a", "create a", "delete b", "create b", "delete c", "create c"]);
}

#[test]
fn delete_failure_skips_create_and_continues() {
    let mut run = SyncRun::start(config(&["a", "b"]), aws_token()).unwrap();
    let mut cluster = FakeCluster::new();
    cluster.failing_delete = Some("a".to_string());
    let summary = cluster.drive(&mut run);
    assert_eq!(summary.succeeded, vec!["b".to_string()]);
    assert_eq!(summary.failed, vec![("a".to_string(), ErrorKind::DeleteFailed)]);
    assert_eq!(cluster.calls, vec!["delete a", "delete b", "create b"]);
    assert!(!run.results[0].deleted && !run.results[0].created);
}

#[test]
fn reconcile_twice_succeeds_both_times() {
    let mut cluster = FakeCluster::new();
    let mut first = SyncRun::start(config(&["ns"]), aws_token()).unwrap();
    let s1 = cluster.drive(&mut first);
    assert_eq!(s1.succeeded, vec!["ns".to_string()]);
    assert!(!first.results[0].deleted);
    let mut second = SyncRun::start(config(&["ns"]), aws_token()).unwrap();
    let s2 = cluster.drive(&mut second);
    assert_eq!(s2.succeeded, vec!["ns".to_string()]);
    assert!(second.results[0].deleted && second.results[0].created);
    assert_eq!(cluster.secrets.len(), 1);
}

#[test]
fn duplicate_namespaces_are_attempted_twice() {
    let mut run = SyncRun::start(config(&["x", "x"]), aws_token()).unwrap();
    let mut cluster = FakeCluster::new();
    let summary = cluster.drive(&mut run);
    assert_eq!(summary.succeeded, vec!["x".to_string(), "x".to_string()]);
    assert_eq!(cluster.calls.len(), 4);
}

#[test]
fn no_namespaces_finishes_at_once() {
    let run = SyncRun::start(config(&[]), aws_token()).unwrap();
    assert!(run.is_finished());
    assert!(matches!(run.next_action(), SyncAction::Finished));
    let s = run.summary();
    assert!(s.succeeded.is_empty() && s.failed.is_empty());
}

#[test]
fn fatal_errors_stop_the_run() {
    assert_eq!(SyncRun::start(config(&["a"]), None).unwrap_err(), ErrorKind::TokenFetchFailed);
    assert_eq!(SyncRun::start(config(&["a"]), Some("%%%".to_string())).unwrap_err(), ErrorKind::DecodeError);
    assert_eq!(
        SyncRun::start(config(&["a"]), Some("dXNlcnBhc3M=".to_string())).unwrap_err(),
        ErrorKind::MalformedTokenError
    );
}

#[test]
fn reconciler_steps() {
    let mut rc = NamespaceReconciler::new("ns".to_string());
    assert_eq!(rc.next_action(), ReconcileAction::DeleteSecret);
    rc.on_delete(DeleteOutcome::NotFound);
    assert_eq!(rc.stage, Stage::AwaitCreate);
    assert!(!rc.deleted);
    assert_eq!(rc.next_action(), ReconcileAction::CreateSecret);
    rc.on_create(CreateOutcome::AlreadyExists);
    assert_eq!(rc.next_action(), ReconcileAction::Done);
    let r = rc.into_result();
    assert_eq!(r.error, Some(ErrorKind::CreateFailed));
    assert!(!r.created);
}

#[test]
fn first_token_selection() {
    assert_eq!(first_authorization_token(None), None);
    assert_eq!(first_authorization_token(Some(vec![])), None);
    assert_eq!(first_authorization_token(Some(vec![None, Some("b".to_string())])), None);
    assert_eq!(
        first_authorization_token(Some(vec![Some("a".to_string()), Some("b".to_string())])),
        Some("a".to_string())
    );
}
