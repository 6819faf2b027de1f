use sdb_controller::api::{Action, ApiReply, ApiRequest, Flow};
use sdb_controller::cluster::crd::Cluster;
use sdb_controller::database::crd::{Database, DbPhase, DbStatus};
use sdb_controller::database::fixtures::{DbContextMock, Scenario, Script};
use sdb_controller::database::reconcile::{error_policy, DbStep};
use sdb_controller::error::{Error, KubeError, SourceError};
use sdb_controller::mock::{Incoming, PatchOperation, PatchValue};
use sdb_controller::text::TextMap;

fn failed(code: Option<u16>) -> ApiReply {
    ApiReply::Failed {
        error: KubeError {
            code,
            source: SourceError { display: "closed".to_string(), debug: "Closed".to_string() },
        },
    }
}

fn in_phase(phase: DbPhase) -> Database {
    Database::test().finalized().with_status(DbStatus { phase: Some(phase), message: None })
}

fn drive(db: &Database, script: &mut Script) -> (Result<Action, Error>, Vec<ApiRequest>) {
    let mut unanswered = Vec::new();
    let mut flow = db.reconcile();
    loop {
        match flow {
            Flow::Ask { step, request } => {
                let incoming = Incoming::Call { request };
                let reply = match script.handle(&incoming) {
                    Some(reply) => reply,
                    None => {
                        if let Incoming::Call { request } = incoming {
                            unanswered.push(request);
                        }
                        failed(None)
                    }
                };
                assert!(reply.fits(step.awaits()));
                flow = db.resume(step, reply);
            }
            Flow::Done { outcome } => return (outcome, unanswered),
        }
    }
}

fn requeued(outcome: Result<Action, Error>, expected: u64) {
    assert_eq!(outcome.unwrap(), Action::Requeue { seconds: expected });
}

fn body(flow: &Flow<DbStep>) -> String {
    match flow {
        Flow::Ask { request: ApiRequest::PostSql { request }, .. } => {
            String::from_utf8(request.body.clone()).unwrap()
        }
        other => panic!("posts nothing: {other:?}"),
    }
}

#[test]
fn new_creates_ns_and_db_then_ready() {
    let db = in_phase(DbPhase::New);
    let mut script =
        DbContextMock::test().run(Scenario::NewEnsuresNamespaceAndDatabase(db.clone().finalized()));
    let (outcome, unanswered) = drive(&db, &mut script);
    requeued(outcome, 60);
    assert!(unanswered.is_empty());
    assert!(script.finished());
}

#[test]
fn cross_namespace_cluster_ref_uses_that_namespace() {
    let db = Database::test()
        .finalized()
        .with_cluster_ref_ns("other-ns")
        .with_status(DbStatus { phase: Some(DbPhase::New), message: None });
    let mut script = DbContextMock::test().run(Scenario::NewCrossNsEnsures(db.clone().finalized()));
    let (outcome, unanswered) = drive(&db, &mut script);
    requeued(outcome, 60);
    assert!(unanswered.is_empty());
    assert!(script.finished());
}

fn message_of(request: &ApiRequest) -> String {
    match request {
        ApiRequest::PatchDatabaseStatus { phase, message, .. } => {
            assert_eq!(*phase, DbPhase::Error);
            message.clone().unwrap()
        }
        other => panic!("{other:?}"),
    }
}

#[test]
fn namespace_define_error_sets_error_phase_and_requeues() {
    let db = in_phase(DbPhase::New);
    let mut script =
        DbContextMock::test().run(Scenario::NamespaceDefineError(db.clone().finalized()));
    let (outcome, unanswered) = drive(&db, &mut script);
    requeued(outcome, 20);
    assert!(script.finished());
    assert_eq!(unanswered.len(), 1);
    let message = message_of(&unanswered[0]);
    assert!(message.starts_with("namespace define failed: Kube Error: ApiError: "));
    assert!(message.contains("bad ns"));
}

#[test]
fn database_define_error_sets_error_phase_and_requeues() {
    let db = in_phase(DbPhase::New);
    let mut script =
        DbContextMock::test().run(Scenario::DatabaseDefineError(db.clone().finalized()));
    let (outcome, unanswered) = drive(&db, &mut script);
    requeued(outcome, 20);
    assert!(script.finished());
    assert_eq!(unanswered.len(), 1);
    let message = message_of(&unanswered[0]);
    assert!(message.starts_with("database define failed: Kube Error: ApiError: "));
    assert!(message.contains("bad db"));
}

#[test]
fn finalizer_patch_is_expected_of_a_database_without_one() {
    let db = Database::test();
    let mut script = DbContextMock::test().run(Scenario::FinalizerCreation(db));
    let patch = |op: &str| Incoming::Finalizers {
        namespace: "default".to_string(),
        name: "test-db".to_string(),
        operations: vec![PatchOperation {
            op: op.to_string(),
            path: "/metadata/finalizers".to_string(),
            value: PatchValue::Absent,
        }],
    };
    assert!(script.handle(&patch("test")).is_none());
    assert!(matches!(script.handle(&patch("add")), Some(ApiReply::Database { .. })));
    assert!(script.finished());
}

#[test]
fn settled_databases_are_left_alone() {
    for (phase, seconds) in [(DbPhase::Ready, 120), (DbPhase::Error, 30)] {
        match in_phase(phase).reconcile() {
            Flow::Done { outcome } => requeued(outcome, seconds),
            other => panic!("{other:?}"),
        }
    }
    assert!(matches!(in_phase(DbPhase::InProgress).reconcile(), Flow::Ask { .. }));
    assert!(matches!(Database::test().reconcile(), Flow::Ask { .. }));
    assert_eq!(Database::test().cleanup(), Action::AwaitChange);
    assert_eq!(error_policy(&Error::MissingRootCredentials), Action::Requeue { seconds: 60 });
    assert_eq!(DbPhase::default(), DbPhase::New);
}

#[test]
fn missing_credentials_end_the_pass() {
    let db = in_phase(DbPhase::New);
    let no_secret = ApiReply::Cluster { cluster: Cluster::test() };
    assert!(matches!(
        db.resume(DbStep::Cluster, no_secret),
        Flow::Done { outcome: Err(Error::MissingRootCredentials) }
    ));
    assert!(matches!(
        db.resume(DbStep::Cluster, failed(Some(404))),
        Flow::Done { outcome: Err(Error::KubeError(_)) }
    ));
    assert!(matches!(
        db.resume(DbStep::Secret, failed(Some(404))),
        Flow::Done { outcome: Err(Error::KubeError(_)) }
    ));
    let half = TextMap::new().with("password", b"x".to_vec());
    assert!(matches!(
        db.resume(DbStep::Secret, ApiReply::Secret { data: Some(half) }),
        Flow::Done { outcome: Err(Error::MissingRootCredentials) }
    ));
    match db.resume(DbStep::Cluster, ApiReply::Cluster {
        cluster: Cluster::test().needs_root_credentials(),
    }) {
        Flow::Ask { request: ApiRequest::GetSecret { namespace, name }, .. } => {
            assert_eq!((namespace.as_str(), name.as_str()), ("default", "test"))
        }
        other => panic!("{other:?}"),
    }
}

#[test]
fn definitions_quote_their_names() {
    let db = in_phase(DbPhase::New).with_db_namespace("a`b");
    let namespace = db.ensure_surreal_namespace("root".to_string(), "root".to_string());
    assert_eq!(body(&namespace), "DEFINE NAMESPACE `a``b`;");
    match &namespace {
        Flow::Ask { request: ApiRequest::PostSql { request }, .. } => {
            assert_eq!(request.headers.len(), 3);
            assert_eq!(request.headers[2].name, "authorization");
            assert_eq!(request.headers[2].value, "Basic cm9vdDpyb290");
        }
        other => panic!("{other:?}"),
    }
    let database = db.ensure_surreal_database("root", "root");
    assert_eq!(body(&database), "USE NS `a``b`; DEFINE DATABASE `app`;");
    let mut plain = in_phase(DbPhase::New);
    plain.spec.db_name = None;
    assert_eq!(
        body(&plain.ensure_surreal_database("root", "root")),
        "USE NS `default`; DEFINE DATABASE `test-db`;"
    );
}

#[test]
fn a_cluster_that_cannot_be_reached_is_a_fault() {
    let mut db = in_phase(DbPhase::New);
    db.spec.cluster_ref.name = "no such name".to_string();
    let flow = db.ensure_surreal_namespace("root".to_string(), "root".to_string());
    match flow {
        Flow::Ask { step: DbStep::Failed, request } => assert_eq!(
            message_of(&request),
            "namespace define failed: HTTP Error: invalid uri character"
        ),
        other => panic!("{other:?}"),
    }
}
