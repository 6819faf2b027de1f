use sdb_controller::api::{
    Action, ApiReply, ApiRequest, Flow, OwnedKind, Propagation, ReplyKind,
};
use sdb_controller::cluster::cleanup::CleanupStep;
use sdb_controller::cluster::crd::{Cluster, Phase, Status};
use sdb_controller::cluster::fixtures::{ApiServerVerifier, Scenario, Script};
use sdb_controller::cluster::reconcile::{check_ready, error_policy, ClusterStep, Rollout, Watched};
use sdb_controller::error::{Error, KubeError, SourceError};
use sdb_controller::mock::{Incoming, PatchOperation, PatchValue};
use sdb_controller::objects::{
    is_true, OwnerReference, SecretReference, TidbClusterSpec, TidbClusterStatus, TidbCondition,
};
use sdb_controller::text::TextMap;

fn failure(code: Option<u16>) -> KubeError {
    KubeError {
        code,
        source: SourceError { display: "closed".to_string(), debug: "Closed(())".to_string() },
    }
}

fn failed(code: Option<u16>) -> ApiReply {
    ApiReply::Failed { error: failure(code) }
}

fn in_phase(phase: Phase) -> Cluster {
    Cluster::test().finalized().with_status(Status { phase: Some(phase), ..Default::default() })
}

fn drive(cluster: &Cluster, script: &mut Script) -> Result<Action, Error> {
    let mut flow = cluster.reconcile();
    loop {
        match flow {
            Flow::Ask { step, request } => {
                let reply = script.handle(&Incoming::Call { request }).unwrap_or(failed(None));
                assert!(reply.fits(step.awaits()));
                flow = cluster.resume(step, reply);
            }
            Flow::Done { outcome } => return outcome,
        }
    }
}

fn drive_cleanup(cluster: &Cluster, script: &mut Script) -> Result<Action, Error> {
    let mut flow = cluster.cleanup();
    loop {
        match flow {
            Flow::Ask { step, request } => {
                let reply = script.handle(&Incoming::Call { request }).unwrap_or(failed(None));
                assert!(reply.fits(step.awaits()));
                flow = cluster.resume_cleanup(step, reply);
            }
            Flow::Done { outcome } => return outcome,
        }
    }
}

fn seconds(outcome: Result<Action, Error>) -> u64 {
    match outcome {
        Ok(Action::Requeue { seconds }) => seconds,
        other => panic!("unexpected end: {other:?}"),
    }
}

fn end(flow: Flow<ClusterStep>) -> Result<Action, Error> {
    match flow {
        Flow::Done { outcome } => outcome,
        Flow::Ask { step, .. } => panic!("goes on at {step:?}"),
    }
}

fn phase_set(flow: &Flow<ClusterStep>) -> Phase {
    match flow {
        Flow::Ask { request: ApiRequest::PatchClusterStatus { phase, .. }, .. } => *phase,
        other => panic!("sets no phase: {other:?}"),
    }
}

fn step_of(flow: &Flow<ClusterStep>) -> ClusterStep {
    match flow {
        Flow::Ask { step, .. } => *step,
        other => panic!("ended: {other:?}"),
    }
}

#[test]
fn new_phase_sets_in_creation_and_applies_dp_svc_with_unauthenticated_env() {
    let cluster = in_phase(Phase::New).needs_root_credentials().needs_tikv_secret_ref();
    let mut script = ApiServerVerifier
        .run(Scenario::StatusPatchThenDeploymentAndServiceCreation(cluster.clone()));
    assert_eq!(seconds(drive(&cluster, &mut script)), 20);
    assert!(script.finished());
}

#[test]
fn in_creation_when_ready_bootstraps_then_flips_to_auth_env_and_in_progress() {
    let cluster = in_phase(Phase::InCreation).needs_root_credentials().needs_tikv_secret_ref();
    let mut script =
        ApiServerVerifier.run(Scenario::InCreationReadyThenBootstrapThenAuth(cluster.clone()));
    assert_eq!(seconds(drive(&cluster, &mut script)), 20);
    assert!(script.finished());
}

#[test]
fn authenticated_mode_applies_dp_svc_with_auth_and_path_env() {
    let cluster = in_phase(Phase::InProgress).needs_tikv_secret_ref();
    let mut script =
        ApiServerVerifier.run(Scenario::DeploymentAndServiceWithAuthEnv(cluster.clone()));
    assert_eq!(seconds(drive(&cluster, &mut script)), 30);
    assert!(script.finished());
}

#[test]
fn finalized_cluster_with_delete_timestamp_causes_delete() {
    let cluster = Cluster::test().finalized().needs_delete();
    let mut script = ApiServerVerifier
        .run(Scenario::Cleanup("DeleteRequested".to_string(), cluster.clone()));
    assert_eq!(drive_cleanup(&cluster, &mut script).unwrap(), Action::AwaitChange);
    assert!(!script.finished());
    let removal = Incoming::Finalizers {
        namespace: "default".to_string(),
        name: "test".to_string(),
        operations: vec![
            PatchOperation {
                op: "test".to_string(),
                path: "/metadata/finalizers/0".to_string(),
                value: PatchValue::Text { text: "clusters.surrealdb.aexol.com".to_string() },
            },
            PatchOperation {
                op: "remove".to_string(),
                path: "/metadata/finalizers/0".to_string(),
                value: PatchValue::Absent,
            },
        ],
    };
    assert!(script.handle(&removal).is_some());
    assert!(script.finished());
}

#[test]
fn new_phase_enters_in_creation_flow_without_extra_calls() {
    let cluster = in_phase(Phase::New);
    let mut script = ApiServerVerifier.run(Scenario::RadioSilence);
    let _ = drive(&cluster, &mut script);
    assert!(script.finished());
}

#[test]
fn in_creation_phase_attempts_bootstrap_path() {
    let cluster = in_phase(Phase::InCreation);
    let mut script = ApiServerVerifier.run(Scenario::RadioSilence);
    let _ = drive(&cluster, &mut script);
    assert!(script.finished());
}

#[test]
fn in_progress_phase_runs_authenticated_reconcile() {
    let cluster = in_phase(Phase::InProgress);
    let mut script = ApiServerVerifier.run(Scenario::RadioSilence);
    let _ = drive(&cluster, &mut script);
    assert!(script.finished());
}

#[test]
fn ready_phase_runs_steady_state() {
    let cluster = in_phase(Phase::Ready);
    let mut script = ApiServerVerifier.run(Scenario::RadioSilence);
    let _ = drive(&cluster, &mut script);
    assert!(script.finished());
}

#[test]
fn new_phase_creates_root_secret_and_persists_reference() {
    let cluster = in_phase(Phase::New).needs_tikv_secret_ref();
    let mut script =
        ApiServerVerifier.run(Scenario::RootSecretCreationThenStatusAndDpSvc(cluster.clone()));
    assert_eq!(seconds(drive(&cluster, &mut script)), 20);
    assert!(script.finished());
}

#[test]
fn finalizer_patch_is_expected_of_a_cluster_without_one() {
    let cluster = Cluster::test();
    let mut script = ApiServerVerifier.run(Scenario::FinalizerCreation(cluster.clone()));
    let patch = |finalizer: &str| Incoming::Finalizers {
        namespace: "default".to_string(),
        name: "test".to_string(),
        operations: vec![
            PatchOperation {
                op: "test".to_string(),
                path: "/metadata/finalizers".to_string(),
                value: PatchValue::Null,
            },
            PatchOperation {
                op: "add".to_string(),
                path: "/metadata/finalizers".to_string(),
                value: PatchValue::Texts { texts: vec![finalizer.to_string()] },
            },
        ],
    };
    assert!(script.handle(&patch("another.finalizer")).is_none());
    assert!(!script.finished());
    match script.handle(&patch(sdb_controller::CLUSTER_FINALIZER)) {
        Some(ApiReply::Cluster { cluster }) => assert_eq!(
            cluster.metadata.finalizers,
            Some(vec!["clusters.surrealdb.aexol.com".to_string()])
        ),
        other => panic!("unexpected answer: {other:?}"),
    }
    assert!(script.finished());
}

#[test]
fn a_script_answers_only_what_it_expects() {
    let cluster = in_phase(Phase::New).needs_root_credentials().needs_tikv_secret_ref();
    let mut script =
        ApiServerVerifier.run(Scenario::DeploymentAndServiceWithAuthEnv(cluster.clone()));
    let open = cluster.reconcile_surrealdb_with_mode(Rollout::Create);
    match open {
        Flow::Ask { request, .. } => {
            assert!(script.handle(&Incoming::Call { request }).is_none())
        }
        other => panic!("{other:?}"),
    }
    let authenticated = cluster.reconcile_surrealdb_with_mode(Rollout::Heal);
    match authenticated {
        Flow::Ask { request, .. } => {
            assert!(script.handle(&Incoming::Call { request }).is_some())
        }
        other => panic!("{other:?}"),
    }
    assert!(!script.finished());
}

#[test]
fn a_cluster_without_backend_is_at_fault() {
    let cluster = in_phase(Phase::New);
    assert_eq!(
        cluster.tikv_backend_configured(),
        Err("No TiKV backend configured: set .spec.tidbCluster or .spec.tikvSecret".to_string())
    );
    let flow = cluster.reconcile();
    assert_eq!(phase_set(&flow), Phase::Error);
    let step = step_of(&flow);
    assert_eq!(step, ClusterStep::PreflightFailed);
    assert_eq!(seconds(end(cluster.resume(step, ApiReply::Accepted))), 30);
    match end(cluster.resume(step, failed(Some(500)))) {
        Err(Error::KubeError(e)) => assert_eq!(e.code, Some(500)),
        other => panic!("{other:?}"),
    }
}

#[test]
fn root_secret_conflicts_are_successes_and_other_failures_are_faults() {
    let cluster = in_phase(Phase::New).needs_tikv_secret_ref();
    let flow = cluster.reconcile();
    let step = step_of(&flow);
    assert_eq!(step, ClusterStep::RootSecretCreate);
    assert_eq!(step_of(&cluster.resume(step, failed(Some(409)))), ClusterStep::RootSecretPersist);
    assert_eq!(
        step_of(&cluster.resume(step, ApiReply::Accepted)),
        ClusterStep::RootSecretPersist
    );
    let fault = cluster.resume(step, failed(Some(403)));
    assert_eq!(phase_set(&fault), Phase::Error);
    assert_eq!(seconds(end(cluster.resume(step_of(&fault), failed(None)))), 30);
    let fault = cluster.resume(ClusterStep::RootSecretPersist, failed(None));
    assert_eq!(phase_set(&fault), Phase::Error);
}

#[test]
fn made_root_credentials_are_secure() {
    let cluster = in_phase(Phase::New).needs_tikv_secret_ref();
    match cluster.reconcile() {
        Flow::Ask { request: ApiRequest::CreateSecret { namespace, secret }, .. } => {
            assert_eq!(namespace, "default");
            assert_eq!(secret.metadata.name, Some("test-surrealdb-root".to_string()));
            assert_eq!(secret.secret_type, "Opaque");
            let data = secret.string_data.unwrap();
            assert_eq!(data.get("user"), Some(&"root".to_string()));
            assert_eq!(data.get("password").unwrap().len(), 32);
            let owners = secret.metadata.owner_references.unwrap();
            assert_eq!(owners.len(), 1);
            assert_eq!(owners[0].uid, "0000-00-00-00-000000");
            assert_eq!(owners[0].kind, "Cluster");
            assert_eq!(owners[0].api_version, "surrealdb.aexol.com/v1alpha1");
            assert_eq!(owners[0].controller, Some(true));
        }
        other => panic!("{other:?}"),
    }
    match cluster.reconcile_with_password("given") {
        Flow::Ask { request: ApiRequest::CreateSecret { secret, .. }, .. } => assert_eq!(
            secret.string_data.unwrap().get("password"),
            Some(&"given".to_string())
        ),
        other => panic!("{other:?}"),
    }
}

#[test]
fn persisted_reference_names_the_created_secret() {
    let cluster = in_phase(Phase::New).needs_tikv_secret_ref();
    match cluster.persist_root_secret_ref() {
        Some(ApiRequest::ReplaceRootSecret { namespace, name, path, root_secret }) => {
            assert_eq!(namespace, "default");
            assert_eq!(name, "test");
            assert_eq!(path, "/spec/rootSecret");
            assert_eq!(root_secret.name, Some("test-surrealdb-root".to_string()));
            assert_eq!(root_secret.namespace, Some("default".to_string()));
        }
        other => panic!("{other:?}"),
    }
    assert!(cluster.needs_root_credentials().persist_root_secret_ref().is_none());
}

fn managed(phase: Phase) -> Cluster {
    let mut cluster = in_phase(phase).needs_root_credentials();
    cluster.spec.tidb_cluster =
        Some(TidbClusterSpec { manifest: "{\"version\":\"v8.5.1\"}".to_string() });
    cluster
}

fn status(type_: &str, word: &str) -> ApiReply {
    ApiReply::TidbCluster {
        status: Some(TidbClusterStatus {
            conditions: Some(vec![TidbCondition {
                type_: type_.to_string(),
                status: word.to_string(),
            }]),
        }),
    }
}

#[test]
fn a_managed_cluster_is_prepared_before_it_is_created() {
    let cluster = managed(Phase::New);
    let flow = cluster.reconcile();
    assert_eq!(phase_set(&flow), Phase::Preparing);
    assert_eq!(seconds(end(cluster.resume(step_of(&flow), failed(None)))), 10);

    let cluster = managed(Phase::Preparing);
    let flow = cluster.reconcile();
    match &flow {
        Flow::Ask { request: ApiRequest::CreateTidbCluster { namespace, tidb_cluster }, .. } => {
            assert_eq!(namespace, "default");
            assert_eq!(tidb_cluster.metadata.name, Some("test".to_string()));
            assert_eq!(tidb_cluster.metadata.owner_references.as_ref().unwrap().len(), 1);
            assert_eq!(tidb_cluster.spec.manifest, "{\"version\":\"v8.5.1\"}");
        }
        other => panic!("{other:?}"),
    }
    let create = step_of(&flow);
    assert_eq!(seconds(end(cluster.resume(create, failed(Some(500))))), 20);
    assert_eq!(step_of(&cluster.resume(create, failed(Some(409)))), ClusterStep::TidbGet);
    assert_eq!(step_of(&cluster.resume(create, ApiReply::Accepted)), ClusterStep::TidbGet);

    let get = ClusterStep::TidbGet;
    assert_eq!(seconds(end(cluster.resume(get, ApiReply::NoTidbCluster))), 10);
    assert_eq!(seconds(end(cluster.resume(get, failed(None)))), 15);
    assert_eq!(seconds(end(cluster.resume(get, ApiReply::TidbCluster { status: None }))), 15);
    assert_eq!(seconds(end(cluster.resume(get, status("Ready", "False")))), 15);
    assert_eq!(seconds(end(cluster.resume(get, status("Progressing", "True")))), 15);
    assert_eq!(phase_set(&cluster.resume(get, status("Available", "TRUE"))), Phase::InCreation);
    let ready = cluster.resume(get, status("Ready", "true"));
    assert_eq!(phase_set(&ready), Phase::InCreation);
    // A failure to set the phase does not keep the servers from being started.
    let rollout = cluster.resume(step_of(&ready), failed(None));
    assert_eq!(step_of(&rollout), ClusterStep::ApplyDeployment { rollout: Rollout::Create });
    let service = cluster.resume(step_of(&rollout), ApiReply::Accepted);
    assert_eq!(seconds(end(cluster.resume(step_of(&service), ApiReply::Accepted))), 20);
}

#[test]
fn a_failure_to_enter_creation_from_new_ends_the_pass() {
    let cluster = in_phase(Phase::New).needs_root_credentials().needs_tikv_secret_ref();
    let flow = cluster.reconcile();
    assert!(matches!(
        end(cluster.resume(step_of(&flow), failed(None))),
        Err(Error::KubeError(_))
    ));
}

#[test]
fn bootstrap_waits_for_everything_it_needs() {
    let cluster = in_phase(Phase::InCreation).needs_root_credentials();
    let look = ClusterStep::CreationReadiness;
    let seen = |n: Option<i32>| ApiReply::Deployment { available_replicas: n };
    assert_eq!(seconds(end(cluster.resume(look, seen(None)))), 20);
    assert_eq!(seconds(end(cluster.resume(look, seen(Some(0))))), 20);
    assert_eq!(seconds(end(cluster.resume(look, failed(None)))), 20);
    match cluster.resume(look, seen(Some(2))) {
        Flow::Ask { request: ApiRequest::GetSecret { namespace, name }, .. } => {
            assert_eq!((namespace.as_str(), name.as_str()), ("default", "test"))
        }
        other => panic!("{other:?}"),
    }
    let mut nameless = in_phase(Phase::InCreation);
    assert_eq!(seconds(end(nameless.resume(look, seen(Some(1))))), 30);
    nameless.spec.root_secret = Some(SecretReference { name: None, namespace: None });
    assert_eq!(seconds(end(nameless.resume(look, seen(Some(1))))), 30);

    let secret = ClusterStep::BootstrapSecret;
    assert_eq!(seconds(end(cluster.resume(secret, failed(Some(404))))), 30);
    assert_eq!(seconds(end(cluster.resume(secret, ApiReply::Secret { data: None }))), 30);
    let half = TextMap::new().with("user", b"admin".to_vec());
    assert_eq!(seconds(end(cluster.resume(secret, ApiReply::Secret { data: Some(half) }))), 30);
    let whole =
        TextMap::new().with("user", b"admin".to_vec()).with("password", b"s3cret".to_vec());
    match cluster.resume(secret, ApiReply::Secret { data: Some(whole) }) {
        Flow::Ask { step, request: ApiRequest::PostSql { request } } => {
            assert_eq!(step, ClusterStep::BootstrapPost);
            assert_eq!(request.method, "POST");
            assert_eq!(
                request.uri,
                "/api/v1/namespaces/default/services/test-surrealdb:8000/proxy/sql"
            );
            assert_eq!(
                String::from_utf8(request.body).unwrap(),
                "DEFINE USER admin ON ROOT PASSWORD 's3cret' ROLES OWNER;"
            );
            assert_eq!(request.headers.len(), 2);
        }
        other => panic!("{other:?}"),
    }
    let post = ClusterStep::BootstrapPost;
    assert_eq!(seconds(end(cluster.resume(post, failed(Some(400))))), 30);
    assert_eq!(phase_set(&cluster.resume(post, ApiReply::Accepted)), Phase::InProgress);
}

#[test]
fn watched_clusters_settle() {
    let up = || ApiReply::Deployment { available_replicas: Some(1) };
    let down = || ApiReply::Deployment { available_replicas: Some(0) };
    let look = |watched: Watched| ClusterStep::Readiness { watched };
    let c = in_phase(Phase::InProgress);
    let ready = c.resume(look(Watched::InProgress), up());
    assert_eq!(phase_set(&ready), Phase::Ready);
    assert_eq!(seconds(end(c.resume(step_of(&ready), failed(None)))), 60);
    let not_ready = c.resume(look(Watched::InProgress), failed(None));
    assert_eq!(phase_set(&not_ready), Phase::NotReady);
    assert_eq!(seconds(end(c.resume(step_of(&not_ready), ApiReply::Accepted))), 30);
    assert_eq!(seconds(end(c.resume(look(Watched::Ready), up()))), 120);
    assert_eq!(phase_set(&c.resume(look(Watched::Ready), down())), Phase::NotReady);
    assert_eq!(phase_set(&c.resume(look(Watched::NotReady), up())), Phase::Ready);
    assert_eq!(seconds(end(c.resume(look(Watched::NotReady), down()))), 30);
    assert!(check_ready(Some(1)) && !check_ready(Some(-1)) && !check_ready(None));
}

#[test]
fn clusters_at_fault_are_healed_quietly() {
    let c = in_phase(Phase::Error);
    let flow = c.reconcile();
    let step = step_of(&flow);
    assert_eq!(step, ClusterStep::ApplyDeployment { rollout: Rollout::Heal });
    assert_eq!(seconds(end(c.resume(step, failed(Some(500))))), 45);
    let service = c.resume(step, ApiReply::Accepted);
    assert_eq!(seconds(end(c.resume(step_of(&service), failed(None)))), 45);
    assert_eq!(seconds(end(c.resume(step_of(&service), ApiReply::Accepted))), 45);
    let watched = ClusterStep::ApplyService { rollout: Rollout::Watch { watched: Watched::Ready } };
    assert!(matches!(end(c.resume(watched, failed(None))), Err(Error::KubeError(_))));
    assert_eq!(error_policy(&Error::MissingRootCredentials), Action::Requeue { seconds: 300 });
}

#[test]
fn passes_make_at_most_six_calls() {
    for phase in [
        Phase::New,
        Phase::Preparing,
        Phase::InCreation,
        Phase::NotReady,
        Phase::InProgress,
        Phase::Ready,
        Phase::Error,
    ] {
        let cluster = managed(phase);
        let mut calls = 0;
        let mut flow = cluster.reconcile();
        while let Flow::Ask { step, .. } = flow {
            calls += 1;
            let reply = match step.awaits() {
                ReplyKind::Deployment => ApiReply::Deployment { available_replicas: Some(1) },
                ReplyKind::Secret => ApiReply::Secret {
                    data: Some(
                        TextMap::new()
                            .with("user", b"root".to_vec())
                            .with("password", b"root".to_vec()),
                    ),
                },
                ReplyKind::TidbCluster => status("Ready", "True"),
                _ => ApiReply::Accepted,
            };
            flow = cluster.resume(step, reply);
        }
        assert!(calls <= 6, "{phase:?} made {calls} calls");
    }
}

#[test]
fn deployment_and_service_belong_together() {
    let mut cluster = in_phase(Phase::InProgress).needs_tikv_secret_ref();
    let deployment = cluster.build_surreal_deployment("test", false);
    let service = cluster.build_surreal_service("test");
    assert_eq!(deployment.metadata.name, Some("test-surrealdb".to_string()));
    assert_eq!(service.metadata.name, Some("test-surrealdb".to_string()));
    assert_eq!(deployment.replicas, 1);
    assert_eq!(deployment.container.name, "surrealdb");
    assert_eq!(deployment.container.image, "surrealdb/surrealdb:latest");
    assert_eq!(deployment.container.args, vec!["start", "--bind", "0.0.0.0:8000"]);
    assert_eq!(deployment.container.ports[0].container_port, 8000);
    assert_eq!(deployment.container.readiness_probe.path, "/health");
    assert_eq!(deployment.container.liveness_probe.period_seconds, 10);
    assert_eq!(service.ports[0].target_port, 8000);
    assert_eq!(service.service_type, "ClusterIP");
    assert_eq!(service.selector.len(), 3);
    for i in 0..service.selector.len() {
        let (key, value) = service.selector.entry(i);
        assert_eq!(deployment.template_labels.get(key), Some(value));
        assert_eq!(deployment.match_labels.get(key), Some(value));
    }
    assert_eq!(
        service.selector.get("surrealdb.aexol.com/name"),
        Some(&"test-surrealdb".to_string())
    );
    assert_eq!(cluster.labels("").len(), 2);
    cluster.spec.replicas = Some(3);
    cluster.spec.surrealdb_image = Some("surrealdb/surrealdb:v2".to_string());
    let deployment = cluster.build_surreal_deployment("test", true);
    assert_eq!(deployment.replicas, 3);
    assert_eq!(deployment.container.image, "surrealdb/surrealdb:v2");
}

#[test]
fn environments_differ_in_who_is_let_in() {
    let cluster = managed(Phase::InProgress).needs_tikv_secret_ref();
    let normal = cluster.env_normal();
    let names: Vec<&str> = normal.iter().map(|e| e.name.as_str()).collect();
    assert_eq!(names, vec!["SURREAL_AUTH", "SURREAL_PATH"]);
    assert_eq!(normal[0].value, Some("true".to_string()));
    assert_eq!(normal[1].value, Some("tikv://test-pd:2379".to_string()));
    assert_eq!(normal[1].secret_key_ref.as_ref().unwrap().key, "test");
    let creation = cluster.env_creation();
    let names: Vec<&str> = creation.iter().map(|e| e.name.as_str()).collect();
    assert_eq!(names, vec!["SURREAL_PATH", "SURREAL_UNAUTHENTICATED"]);
    assert_eq!(creation[1].value, Some("true".to_string()));
}

fn owner(uid: &str, kind: &str, name: &str, api_version: &str) -> OwnerReference {
    OwnerReference {
        api_version: api_version.to_string(),
        kind: kind.to_string(),
        name: name.to_string(),
        uid: uid.to_string(),
        controller: None,
    }
}

#[test]
fn ownership_goes_by_uid_or_by_name() {
    let cluster = Cluster::test();
    let version = "surrealdb.aexol.com/v1alpha1";
    assert!(!cluster.owns(&None));
    assert!(!cluster.owns(&Some(vec![])));
    assert!(cluster.owns(&Some(vec![owner("0000-00-00-00-000000", "Pod", "other", "v1")])));
    assert!(cluster.owns(&Some(vec![owner("other", "Cluster", "test", version)])));
    assert!(!cluster.owns(&Some(vec![owner("other", "Cluster", "test", "v1")])));
    assert!(!cluster.owns(&Some(vec![owner("other", "Cluster", "other", version)])));
    let mut nameless = Cluster::test();
    nameless.metadata.uid = None;
    assert!(!nameless.owns(&Some(vec![owner("", "Pod", "test", version)])));

    let one = cluster.add_owner(vec![owner("x", "Pod", "p", "v1")]);
    assert_eq!(one.len(), 2);
    assert_eq!(cluster.add_owner(one).len(), 2);
}

#[test]
fn cleanup_spares_what_it_does_not_own() {
    let cluster = Cluster::test();
    let mut flow = cluster.cleanup();
    let mut looked_at = Vec::new();
    loop {
        match flow {
            Flow::Ask { step: CleanupStep::Look { kind }, request } => {
                assert!(matches!(request, ApiRequest::GetOwners { .. }));
                looked_at.push(kind);
                let reply = match kind {
                    OwnedKind::Service => failed(Some(404)),
                    _ => ApiReply::Owners { owner_references: None },
                };
                flow = cluster.resume_cleanup(CleanupStep::Look { kind }, reply);
            }
            Flow::Ask { step: CleanupStep::Remove { .. }, .. } => panic!("deletes"),
            Flow::Ask { step, request: ApiRequest::PublishEvent { event } } => {
                assert_eq!(event.reason, "DeleteRequested");
                assert_eq!(event.note, "Delete `test`");
                assert_eq!(event.action, "Deleting");
                flow = cluster.resume_cleanup(step, ApiReply::Accepted);
            }
            Flow::Done { outcome } => {
                assert_eq!(outcome.unwrap(), Action::AwaitChange);
                break;
            }
            other => panic!("{other:?}"),
        }
    }
    assert_eq!(
        looked_at,
        vec![
            OwnedKind::Deployment,
            OwnedKind::Service,
            OwnedKind::Secret,
            OwnedKind::TidbCluster
        ]
    );
}

#[test]
fn cleanup_orphans_what_a_tidb_cluster_stores() {
    let cluster = Cluster::test();
    for (kind, name, propagation) in [
        (OwnedKind::Deployment, "test-surrealdb", Propagation::Background),
        (OwnedKind::Service, "test-surrealdb", Propagation::Background),
        (OwnedKind::Secret, "test-surrealdb-root", Propagation::Background),
        (OwnedKind::TidbCluster, "test", Propagation::Orphan),
    ] {
        let owned = ApiReply::Owners {
            owner_references: Some(vec![owner("0000-00-00-00-000000", "x", "x", "x")]),
        };
        match cluster.delete_if_exists(kind, owned) {
            Flow::Ask { request: ApiRequest::Delete { kind: k, name: n, propagation: p, .. }, .. } => {
                assert_eq!((k, n.as_str(), p), (kind, name, propagation))
            }
            other => panic!("{other:?}"),
        }
        let remove = CleanupStep::Remove { kind };
        assert!(matches!(
            cluster.resume_cleanup(remove, failed(Some(404))),
            Flow::Ask { .. }
        ));
        assert!(matches!(
            cluster.resume_cleanup(remove, failed(Some(500))),
            Flow::Done { outcome: Err(Error::KubeError(_)) }
        ));
        assert!(matches!(
            cluster.delete_if_exists(kind, failed(Some(500))),
            Flow::Done { outcome: Err(Error::KubeError(_)) }
        ));
    }
    assert!(matches!(
        cluster.resume_cleanup(CleanupStep::Report, failed(None)),
        Flow::Done { outcome: Err(Error::KubeError(_)) }
    ));
}

#[test]
fn test_clusters_are_as_described() {
    let cluster = Cluster::test().finalized().needs_delete();
    assert_eq!(cluster.metadata.name, Some("test".to_string()));
    assert_eq!(cluster.metadata.namespace, Some("default".to_string()));
    assert_eq!(cluster.metadata.deletion_timestamp, Some(1491137432));
    assert_eq!(
        cluster.metadata.finalizers,
        Some(vec!["clusters.surrealdb.aexol.com".to_string()])
    );
    assert!(cluster.status.is_none());
    assert_eq!(cluster.current_phase(), Phase::New);
    assert_eq!(Phase::default(), Phase::New);
    assert!(is_true("True") && is_true("true") && is_true("TRUE"));
    assert!(!is_true("tRUE") && !is_true("yes") && !is_true(""));
    let ok = ApiServerVerifier::proxy_bootstrap_post_ok("test", "default");
    assert_eq!((ok.status, ok.body.as_str()), (200, "{}"));
}

#[test]
fn clusters_named_by_prefix_are_called_by_it() {
    let mut cluster = Cluster::test();
    cluster.metadata.name = None;
    assert_eq!(cluster.name_any(), "");
    cluster.metadata.generate_name = Some("gen-".to_string());
    assert_eq!(cluster.name_any(), "gen-");
    assert!(cluster.metadata.controller_owner_ref("Cluster").is_none());
}
