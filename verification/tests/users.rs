use sdb_controller::api::{Action, ApiReply, ApiRequest, Flow};
use sdb_controller::cluster::crd::Cluster;
use sdb_controller::database::crd::Database;
use sdb_controller::error::{Error, KubeError, SourceError};
use sdb_controller::mock::{Incoming, PatchOperation, PatchValue};
use sdb_controller::objects::HttpRequest;
use sdb_controller::text::TextMap;
use sdb_controller::user::crd::{User, UserPhase, UserStatus};
use sdb_controller::user::fixtures::{Scenario, UserContextMock};
use sdb_controller::user::reconcile::{error_policy, UserStep};

fn failed(code: Option<u16>) -> ApiReply {
    ApiReply::Failed {
        error: KubeError {
            code,
            source: SourceError { display: "closed".to_string(), debug: "Closed".to_string() },
        },
    }
}

fn in_phase(phase: UserPhase) -> User {
    User::test().finalized().with_status(UserStatus { phase: Some(phase), message: None })
}

fn root() -> ApiReply {
    ApiReply::Secret {
        data: Some(
            TextMap::new().with("user", b"root".to_vec()).with("password", b"pw".to_vec()),
        ),
    }
}

fn secret_step() -> UserStep {
    UserStep::Secret { surreal_ns: "default".to_string(), surreal_db: "app".to_string() }
}

fn posted(flow: &Flow<UserStep>) -> &HttpRequest {
    match flow {
        Flow::Ask { request: ApiRequest::PostSql { request }, .. } => request,
        other => panic!("posts nothing: {other:?}"),
    }
}

fn text(request: &HttpRequest) -> String {
    String::from_utf8(request.body.clone()).unwrap()
}

#[test]
fn new_creates_db_user_and_secret_then_ready() {
    let user = in_phase(UserPhase::New);
    let mut script = UserContextMock::test()
        .run(Scenario::NewCreatesUserAndSecretAndConfigMapDefaultNames(user.clone()));
    let mut flow = user.reconcile();
    let mut last = None;
    let outcome = loop {
        match flow {
            Flow::Ask { step, request } => {
                let incoming = Incoming::Call { request };
                let reply = script.handle(&incoming).unwrap_or(failed(None));
                assert!(reply.fits(step.awaits()));
                flow = user.resume(step, reply);
                last = Some(incoming);
            }
            Flow::Done { outcome } => break outcome,
        }
    };
    assert_eq!(outcome.unwrap(), Action::Requeue { seconds: 120 });
    assert!(script.finished());
    assert!(matches!(
        last,
        Some(Incoming::Call {
            request: ApiRequest::PatchUserStatus { phase: UserPhase::Ready, message: None, .. }
        })
    ));
}

#[test]
fn finalizer_patch_is_expected_of_a_user_without_one() {
    let mut script = UserContextMock::test().run(Scenario::FinalizerCreation(User::test()));
    let patch = |path: &str| Incoming::Finalizers {
        namespace: "default".to_string(),
        name: "test-user".to_string(),
        operations: vec![PatchOperation {
            op: "add".to_string(),
            path: path.to_string(),
            value: PatchValue::Absent,
        }],
    };
    assert!(script.handle(&patch("/metadata/labels")).is_none());
    assert!(script.handle(&patch("/metadata/finalizers")).is_some());
    assert!(script.finished());
}

#[test]
fn the_database_resource_says_where_the_user_goes() {
    let mut user = in_phase(UserPhase::Error);
    user.spec.database_ref.namespace = Some("data".to_string());
    match user.reconcile() {
        Flow::Ask { request: ApiRequest::GetDatabase { namespace, name }, .. } => {
            assert_eq!((namespace.as_str(), name.as_str()), ("data", "test-db"))
        }
        other => panic!("{other:?}"),
    }
    let mut database = Database::test();
    database.spec.db_name = None;
    match user.resume(UserStep::Database, ApiReply::Database { database }) {
        Flow::Ask { step: UserStep::Cluster { surreal_ns, surreal_db }, .. } => {
            assert_eq!((surreal_ns.as_str(), surreal_db.as_str()), ("data", "test-db"))
        }
        other => panic!("{other:?}"),
    }
    let database = Database::test().with_db_namespace("inner");
    match user.resume(UserStep::Database, ApiReply::Database { database }) {
        Flow::Ask { step: UserStep::Cluster { surreal_ns, surreal_db }, .. } => {
            assert_eq!((surreal_ns.as_str(), surreal_db.as_str()), ("inner", "app"))
        }
        other => panic!("{other:?}"),
    }
    assert!(matches!(
        user.resume(UserStep::Database, failed(Some(404))),
        Flow::Done { outcome: Err(Error::KubeError(_)) }
    ));
}

#[test]
fn given_passwords_are_kept_and_others_are_made() {
    let user = in_phase(UserPhase::New).with_password("it's").with_username("bo`b");
    let flow = user.resume(secret_step(), root());
    assert_eq!(
        text(posted(&flow)),
        "USE NS `default`; USE DB `app`; DEFINE USER `bo``b` ON DATABASE PASSWORD 'it''s' ROLES EDITOR;"
    );
    assert_eq!(posted(&flow).headers[2].value, "Basic cm9vdDpwdw==");
    match flow {
        Flow::Ask { step: UserStep::Provision { password }, .. } => assert_eq!(password, "it's"),
        other => panic!("{other:?}"),
    }
    let user = in_phase(UserPhase::New);
    match user.resume(secret_step(), root()) {
        Flow::Ask { step: UserStep::Provision { password }, .. } => {
            assert_eq!(password.chars().count(), 24);
            assert_eq!(password.chars().filter(|c| !c.is_ascii_alphanumeric()).count(), 4);
        }
        other => panic!("{other:?}"),
    }
    let flow = user.resume_with_password(secret_step(), root(), "made");
    assert_eq!(
        text(posted(&flow)),
        "USE NS `default`; USE DB `app`; DEFINE USER `test-user` ON DATABASE PASSWORD 'made' ROLES EDITOR;"
    );
}

#[test]
fn secret_and_config_map_hold_what_a_client_needs() {
    let mut user = in_phase(UserPhase::New);
    user.spec.cluster_ref.namespace = Some("far".to_string());
    let provision = UserStep::Provision { password: "pässword".to_string() };
    match user.resume(provision, ApiReply::Accepted) {
        Flow::Ask { request: ApiRequest::CreateSecret { namespace, secret }, .. } => {
            assert_eq!(namespace, "default");
            assert_eq!(secret.metadata.name, Some("test-user-credentials".to_string()));
            assert_eq!(secret.secret_type, "Opaque");
            assert!(secret.string_data.is_none());
            let data = secret.data.unwrap();
            assert_eq!(data.len(), 1);
            assert_eq!(data.get("password"), Some(&"pässword".as_bytes().to_vec()));
            let owners = secret.metadata.owner_references.unwrap();
            assert_eq!(owners[0].kind, "User");
            assert_eq!(owners[0].controller, Some(true));
        }
        other => panic!("{other:?}"),
    }
    match user.resume(UserStep::CreateSecret, failed(Some(409))) {
        Flow::Ask { request: ApiRequest::CreateConfigMap { namespace, config_map }, .. } => {
            assert_eq!(namespace, "default");
            assert_eq!(config_map.metadata.name, Some("test-user-config".to_string()));
            assert_eq!(config_map.data.get("username"), Some(&"test-user".to_string()));
            assert_eq!(
                config_map.data.get("url"),
                Some(&"http://test-surrealdb.far.svc:8000".to_string())
            );
        }
        other => panic!("{other:?}"),
    }
    user.spec.secret_name = Some("mine".to_string());
    user.metadata.uid = None;
    match user.ensure_secret("x") {
        ApiRequest::CreateSecret { secret, .. } => {
            assert_eq!(secret.metadata.name, Some("mine".to_string()));
            assert!(secret.metadata.owner_references.is_none());
        }
        other => panic!("{other:?}"),
    }
}

#[test]
fn failures_are_written_down() {
    let user = in_phase(UserPhase::New);
    for (step, attempt) in [
        (UserStep::Provision { password: "x".to_string() }, "provision failed"),
        (UserStep::CreateSecret, "secret failed"),
        (UserStep::CreateConfigMap, "configmap failed"),
    ] {
        match user.resume(step, failed(Some(500))) {
            Flow::Ask {
                step: UserStep::Failed,
                request: ApiRequest::PatchUserStatus { phase, message, .. },
            } => {
                assert_eq!(phase, UserPhase::Error);
                assert_eq!(message, Some(format!("{attempt}: Kube Error: closed")));
            }
            other => panic!("{other:?}"),
        }
    }
    match user.resume(UserStep::Failed, failed(None)) {
        Flow::Done { outcome } => assert_eq!(outcome.unwrap(), Action::Requeue { seconds: 20 }),
        other => panic!("{other:?}"),
    }
    match user.resume(UserStep::CreateConfigMap, failed(Some(409))) {
        Flow::Ask { request: ApiRequest::PatchUserStatus { phase, .. }, .. } => {
            assert_eq!(phase, UserPhase::Ready)
        }
        other => panic!("{other:?}"),
    }
    let mut lost = in_phase(UserPhase::New);
    lost.spec.cluster_ref.name = "a b".to_string();
    match lost.resume(secret_step(), root()) {
        Flow::Ask { request: ApiRequest::PatchUserStatus { message, .. }, .. } => assert_eq!(
            message,
            Some("provision failed: HTTP Error: invalid uri character".to_string())
        ),
        other => panic!("{other:?}"),
    }
}

#[test]
fn missing_credentials_end_a_pass_over_a_user() {
    let user = in_phase(UserPhase::New);
    let step = || UserStep::Cluster { surreal_ns: "n".to_string(), surreal_db: "d".to_string() };
    assert!(matches!(
        user.resume(step(), ApiReply::Cluster { cluster: Cluster::test() }),
        Flow::Done { outcome: Err(Error::MissingRootCredentials) }
    ));
    assert!(matches!(
        user.resume(secret_step(), ApiReply::Secret { data: None }),
        Flow::Done { outcome: Err(Error::MissingRootCredentials) }
    ));
    assert!(matches!(
        user.resume(secret_step(), failed(Some(403))),
        Flow::Done { outcome: Err(Error::KubeError(_)) }
    ));
}

#[test]
fn ready_users_are_left_alone() {
    match in_phase(UserPhase::Ready).reconcile() {
        Flow::Done { outcome } => assert_eq!(outcome.unwrap(), Action::Requeue { seconds: 180 }),
        other => panic!("{other:?}"),
    }
    let user = User::test();
    assert_eq!(user.cleanup(), Action::AwaitChange);
    assert_eq!(error_policy(&Error::MissingRootCredentials), Action::Requeue { seconds: 60 });
    assert_eq!(UserPhase::default(), UserPhase::New);
    assert_eq!(user.spec.effective_username("fallback"), "fallback");
    assert_eq!(user.with_username("named").spec.effective_username("fallback"), "named");
}
