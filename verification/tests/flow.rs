use sdb_controller::api::{Action, ApiReply, ApiRequest, Flow};
use sdb_controller::cluster::crd::{Cluster, Phase, Spec, Status};
use sdb_controller::database::crd::{ClusterRef, Database, DbPhase, DbSpec, DbStatus};
use sdb_controller::error::{KubeError, SourceError};
use sdb_controller::objects::{TidbClusterSpec, TidbClusterStatus, TidbCondition};
use sdb_controller::text::TextMap;
use sdb_controller::user::crd::{
    ClusterRef as UserClusterRef, DatabaseRef, User, UserPhase, UserSpec, UserStatus,
};

/// A small world that answers calls out of what it holds.
struct World {
    cluster: Cluster,
    database: Option<Database>,
    user: Option<User>,
    root_password: Option<String>,
    tidb_created: bool,
    open_deployment: Option<bool>,
    user_secret: Option<Vec<u8>>,
    statements: Vec<String>,
}

fn absent() -> ApiReply {
    ApiReply::Failed {
        error: KubeError {
            code: Some(404),
            source: SourceError { display: "absent".to_string(), debug: "Absent".to_string() },
        },
    }
}

impl World {
    fn answer(&mut self, request: ApiRequest) -> ApiReply {
        match request {
            ApiRequest::CreateSecret { secret, .. } => {
                match (secret.string_data, secret.data) {
                    (Some(text), _) => self.root_password = text.get("password").cloned(),
                    (_, Some(bytes)) => self.user_secret = bytes.get("password").cloned(),
                    _ => panic!("empty secret"),
                }
                ApiReply::Accepted
            }
            ApiRequest::ReplaceRootSecret { root_secret, .. } => {
                self.cluster.spec.root_secret = Some(root_secret);
                ApiReply::Accepted
            }
            ApiRequest::PatchClusterStatus { phase, .. } => {
                self.cluster.status = Some(Status { phase: Some(phase), tidb_cluster_ref: None });
                ApiReply::Accepted
            }
            ApiRequest::PatchDatabaseStatus { phase, message, .. } => {
                self.database.as_mut().unwrap().status =
                    Some(DbStatus { phase: Some(phase), message });
                ApiReply::Accepted
            }
            ApiRequest::PatchUserStatus { phase, message, .. } => {
                self.user.as_mut().unwrap().status =
                    Some(UserStatus { phase: Some(phase), message });
                ApiReply::Accepted
            }
            ApiRequest::CreateTidbCluster { .. } => {
                self.tidb_created = true;
                ApiReply::Accepted
            }
            ApiRequest::GetTidbCluster { .. } => {
                if self.tidb_created {
                    ApiReply::TidbCluster {
                        status: Some(TidbClusterStatus {
                            conditions: Some(vec![TidbCondition {
                                type_: "Ready".to_string(),
                                status: "True".to_string(),
                            }]),
                        }),
                    }
                } else {
                    ApiReply::NoTidbCluster
                }
            }
            ApiRequest::ApplyDeployment { deployment, .. } => {
                let open = deployment
                    .container
                    .env
                    .iter()
                    .any(|e| e.name == "SURREAL_UNAUTHENTICATED");
                self.open_deployment = Some(open);
                ApiReply::Accepted
            }
            ApiRequest::GetDeployment { .. } => match self.open_deployment {
                Some(_) => ApiReply::Deployment { available_replicas: Some(1) },
                None => absent(),
            },
            ApiRequest::GetSecret { name, .. } => match &self.root_password {
                Some(password) => {
                    assert_eq!(name, "test-surrealdb-root");
                    ApiReply::Secret {
                        data: Some(
                            TextMap::new()
                                .with("user", b"root".to_vec())
                                .with("password", password.as_bytes().to_vec()),
                        ),
                    }
                }
                None => absent(),
            },
            ApiRequest::GetCluster { .. } => ApiReply::Cluster { cluster: self.cluster.clone() },
            ApiRequest::GetDatabase { .. } => match &self.database {
                Some(database) => ApiReply::Database { database: database.clone() },
                None => absent(),
            },
            ApiRequest::PostSql { request } => {
                let authenticated = request.headers.iter().any(|h| h.name == "authorization");
                assert_eq!(self.open_deployment, Some(!authenticated));
                self.statements.push(String::from_utf8(request.body).unwrap());
                ApiReply::Accepted
            }
            _ => ApiReply::Accepted,
        }
    }

    fn pass_over_cluster(&mut self) {
        let cluster = self.cluster.clone();
        let mut flow = cluster.reconcile();
        loop {
            match flow {
                Flow::Ask { step, request } => flow = cluster.resume(step, self.answer(request)),
                Flow::Done { outcome } => {
                    assert!(matches!(outcome, Ok(Action::Requeue { .. })));
                    return;
                }
            }
        }
    }

    fn pass_over_database(&mut self) {
        let database = self.database.clone().unwrap();
        let mut flow = database.reconcile();
        loop {
            match flow {
                Flow::Ask { step, request } => flow = database.resume(step, self.answer(request)),
                Flow::Done { outcome } => {
                    assert!(outcome.is_ok());
                    return;
                }
            }
        }
    }

    fn pass_over_user(&mut self) {
        let user = self.user.clone().unwrap();
        let mut flow = user.reconcile();
        loop {
            match flow {
                Flow::Ask { step, request } => flow = user.resume(step, self.answer(request)),
                Flow::Done { outcome } => {
                    assert!(outcome.is_ok());
                    return;
                }
            }
        }
    }
}

#[test]
fn integration_cluster_database_user_flow() {
    let mut cluster = Cluster::new(
        "test",
        Spec {
            surrealdb_image: Some("surrealdb/surrealdb:latest".to_string()),
            tidb_cluster: Some(TidbClusterSpec {
                manifest: "{\"version\":\"v8.5.1\",\"timezone\":\"UTC\"}".to_string(),
            }),
            ..Default::default()
        },
    );
    cluster.metadata.namespace = Some("default".to_string());
    cluster.metadata.uid = Some("0000".to_string());
    cluster.status = Some(Status { phase: Some(Phase::New), ..Default::default() });
    let mut world = World {
        cluster,
        database: None,
        user: None,
        root_password: None,
        tidb_created: false,
        open_deployment: None,
        user_secret: None,
        statements: vec![],
    };
    let mut phases = vec![];
    for _ in 0..60 {
        world.pass_over_cluster();
        let phase = world.cluster.status.as_ref().and_then(|s| s.phase).unwrap();
        phases.push(phase);
        if phase == Phase::Ready {
            break;
        }
    }
    assert_eq!(
        phases,
        vec![Phase::Preparing, Phase::InCreation, Phase::InProgress, Phase::Ready]
    );
    assert_eq!(world.open_deployment, Some(false));
    let root_password = world.root_password.clone().unwrap();
    assert_eq!(
        world.statements,
        vec![format!("DEFINE USER root ON ROOT PASSWORD '{root_password}' ROLES OWNER;")]
    );

    let mut database = Database::new(
        "it-db",
        DbSpec {
            cluster_ref: ClusterRef { name: "test".to_string(), namespace: None },
            db_namespace: None,
            db_name: Some("app".to_string()),
        },
    );
    database.metadata.namespace = Some("default".to_string());
    world.database = Some(database);
    world.pass_over_database();
    let status = world.database.as_ref().unwrap().status.as_ref().unwrap();
    assert_eq!(status.phase, Some(DbPhase::Ready));
    assert_eq!(
        world.statements[1..],
        [
            "DEFINE NAMESPACE `default`;".to_string(),
            "USE NS `default`; DEFINE DATABASE `app`;".to_string()
        ]
    );

    let mut user = User::new(
        "it-user",
        UserSpec {
            cluster_ref: UserClusterRef { name: "test".to_string(), namespace: None },
            database_ref: DatabaseRef { name: "it-db".to_string(), namespace: None },
            username: None,
            password: Some("s3cret-P@ss".to_string()),
            secret_name: None,
        },
    );
    user.metadata.namespace = Some("default".to_string());
    world.user = Some(user);
    world.pass_over_user();
    let status = world.user.as_ref().unwrap().status.as_ref().unwrap();
    assert_eq!(status.phase, Some(UserPhase::Ready));
    assert_eq!(world.user_secret, Some(b"s3cret-P@ss".to_vec()));
    assert_eq!(
        world.statements[3],
        "USE NS `default`; USE DB `app`; DEFINE USER `it-user` ON DATABASE PASSWORD 's3cret-P@ss' ROLES EDITOR;"
    );
}
