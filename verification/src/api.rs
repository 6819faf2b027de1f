//! What the controllers ask of the Kubernetes API, what they are answered, and
//! how a pass over an object goes on.
use crate::cluster::crd::{Cluster, ClusterView, Phase};
use crate::database::crd::{Database, DatabaseView, DbPhase};
use crate::error::{Error, ErrorView, KubeError, KubeErrorView};
use crate::objects::{
    ConfigMap, ConfigMapView, Deployment, DeploymentView, Event, EventView, HttpRequest,
    HttpRequestView, OwnerReference, OwnerReferenceView, Secret, SecretReference,
    SecretReferenceView, SecretView, Service, ServiceView, TidbCluster, TidbClusterStatus,
    TidbClusterStatusView, TidbClusterView,
};
use crate::text::TextMap;
use crate::user::crd::UserPhase;
use vstd::prelude::*;

verus! {

/// The kinds of objects that a cluster leaves behind.
#[derive(Clone, Copy, Debug, PartialEq, Eq, Structural)]
pub enum OwnedKind {
    Deployment,
    Service,
    Secret,
    TidbCluster,
}

/// What becomes of the dependents of a deleted object.
#[derive(Clone, Copy, Debug, PartialEq, Eq, Structural)]
pub enum Propagation {
    /// They are deleted later on.
    Background,
    /// They are left alone.
    Orphan,
}

/// A call to the Kubernetes API.
#[allow(inconsistent_fields)]
#[derive(Debug)]
pub enum ApiRequest {
    /// Create a secret.
    CreateSecret { namespace: String, secret: Secret },
    /// Create a config map.
    CreateConfigMap { namespace: String, config_map: ConfigMap },
    /// Create a TiDB cluster.
    CreateTidbCluster { namespace: String, tidb_cluster: TidbCluster },
    /// Replace one value of a cluster, at a path, by a reference to a secret.
    ReplaceRootSecret { namespace: String, name: String, path: String, root_secret: SecretReference },
    /// Set the phase of a cluster.
    PatchClusterStatus { namespace: String, name: String, phase: Phase },
    /// Set the phase of a database, and its message where there is one.
    PatchDatabaseStatus { namespace: String, name: String, phase: DbPhase, message: Option<String> },
    /// Set the phase of a user, and its message where there is one.
    PatchUserStatus { namespace: String, name: String, phase: UserPhase, message: Option<String> },
    /// Apply a deployment on the server side, under the name of a field manager
    /// and over the fields of others.
    ApplyDeployment { namespace: String, name: String, manager: String, force: bool, deployment: Deployment },
    /// Apply a service on the server side, likewise.
    ApplyService { namespace: String, name: String, manager: String, force: bool, service: Service },
    /// Read a deployment.
    GetDeployment { namespace: String, name: String },
    /// Read a secret.
    GetSecret { namespace: String, name: String },
    /// Read a cluster.
    GetCluster { namespace: String, name: String },
    /// Read a database.
    GetDatabase { namespace: String, name: String },
    /// Read a TiDB cluster, if there is one.
    GetTidbCluster { namespace: String, name: String },
    /// Read who owns an object.
    GetOwners { kind: OwnedKind, namespace: String, name: String },
    /// Delete an object.
    Delete { kind: OwnedKind, namespace: String, name: String, propagation: Propagation },
    /// Post a statement to a SurrealDB server.
    PostSql { request: HttpRequest },
    /// Publish an event about the object of the pass.
    PublishEvent { event: Event },
}

/// What an `ApiRequest` holds.
#[allow(inconsistent_fields)]
#[verifier::ext_equal]
pub enum ApiRequestView {
    CreateSecret { namespace: Seq<char>, secret: SecretView },
    CreateConfigMap { namespace: Seq<char>, config_map: ConfigMapView },
    CreateTidbCluster { namespace: Seq<char>, tidb_cluster: TidbClusterView },
    ReplaceRootSecret { namespace: Seq<char>, name: Seq<char>, path: Seq<char>, root_secret: SecretReferenceView },
    PatchClusterStatus { namespace: Seq<char>, name: Seq<char>, phase: Phase },
    PatchDatabaseStatus { namespace: Seq<char>, name: Seq<char>, phase: DbPhase, message: Option<Seq<char>> },
    PatchUserStatus { namespace: Seq<char>, name: Seq<char>, phase: UserPhase, message: Option<Seq<char>> },
    ApplyDeployment { namespace: Seq<char>, name: Seq<char>, manager: Seq<char>, force: bool, deployment: DeploymentView },
    ApplyService { namespace: Seq<char>, name: Seq<char>, manager: Seq<char>, force: bool, service: ServiceView },
    GetDeployment { namespace: Seq<char>, name: Seq<char> },
    GetSecret { namespace: Seq<char>, name: Seq<char> },
    GetCluster { namespace: Seq<char>, name: Seq<char> },
    GetDatabase { namespace: Seq<char>, name: Seq<char> },
    GetTidbCluster { namespace: Seq<char>, name: Seq<char> },
    GetOwners { kind: OwnedKind, namespace: Seq<char>, name: Seq<char> },
    Delete { kind: OwnedKind, namespace: Seq<char>, name: Seq<char>, propagation: Propagation },
    PostSql { request: HttpRequestView },
    PublishEvent { event: EventView },
}

impl DeepView for ApiRequest {
    type V = ApiRequestView;

    open spec fn deep_view(&self) -> ApiRequestView {
        match self {
            ApiRequest::CreateSecret { namespace, secret } => ApiRequestView::CreateSecret {
                namespace: namespace@,
                secret: secret.deep_view(),
            },
            ApiRequest::CreateConfigMap { namespace, config_map } => ApiRequestView::CreateConfigMap {
                namespace: namespace@,
                config_map: config_map.deep_view(),
            },
            ApiRequest::CreateTidbCluster { namespace, tidb_cluster } => ApiRequestView::CreateTidbCluster {
                namespace: namespace@,
                tidb_cluster: tidb_cluster.deep_view(),
            },
            ApiRequest::ReplaceRootSecret { namespace, name, path, root_secret } => ApiRequestView::ReplaceRootSecret {
                namespace: namespace@,
                name: name@,
                path: path@,
                root_secret: root_secret.deep_view(),
            },
            ApiRequest::PatchClusterStatus { namespace, name, phase } => ApiRequestView::PatchClusterStatus {
                namespace: namespace@,
                name: name@,
                phase: *phase,
            },
            ApiRequest::PatchDatabaseStatus { namespace, name, phase, message } => ApiRequestView::PatchDatabaseStatus {
                namespace: namespace@,
                name: name@,
                phase: *phase,
                message: message.deep_view(),
            },
            ApiRequest::PatchUserStatus { namespace, name, phase, message } => ApiRequestView::PatchUserStatus {
                namespace: namespace@,
                name: name@,
                phase: *phase,
                message: message.deep_view(),
            },
            ApiRequest::ApplyDeployment { namespace, name, manager, force, deployment } => ApiRequestView::ApplyDeployment {
                namespace: namespace@,
                name: name@,
                manager: manager@,
                force: *force,
                deployment: deployment.deep_view(),
            },
            ApiRequest::ApplyService { namespace, name, manager, force, service } => ApiRequestView::ApplyService {
                namespace: namespace@,
                name: name@,
                manager: manager@,
                force: *force,
                service: service.deep_view(),
            },
            ApiRequest::GetDeployment { namespace, name } => ApiRequestView::GetDeployment {
                namespace: namespace@,
                name: name@,
            },
            ApiRequest::GetSecret { namespace, name } => ApiRequestView::GetSecret {
                namespace: namespace@,
                name: name@,
            },
            ApiRequest::GetCluster { namespace, name } => ApiRequestView::GetCluster {
                namespace: namespace@,
                name: name@,
            },
            ApiRequest::GetDatabase { namespace, name } => ApiRequestView::GetDatabase {
                namespace: namespace@,
                name: name@,
            },
            ApiRequest::GetTidbCluster { namespace, name } => ApiRequestView::GetTidbCluster {
                namespace: namespace@,
                name: name@,
            },
            ApiRequest::GetOwners { kind, namespace, name } => ApiRequestView::GetOwners {
                kind: *kind,
                namespace: namespace@,
                name: name@,
            },
            ApiRequest::Delete { kind, namespace, name, propagation } => ApiRequestView::Delete {
                kind: *kind,
                namespace: namespace@,
                name: name@,
                propagation: *propagation,
            },
            ApiRequest::PostSql { request } => ApiRequestView::PostSql {
                request: request.deep_view(),
            },
            ApiRequest::PublishEvent { event } => ApiRequestView::PublishEvent {
                event: event.deep_view(),
            },
        }
    }
}

/// The answer to a call.
#[allow(inconsistent_fields)]
#[derive(Debug)]
pub enum ApiReply {
    /// The call succeeded, and nothing of the answer is read.
    Accepted,
    /// A deployment, of which the number of available replicas is read.
    Deployment { available_replicas: Option<i32> },
    /// A secret, of which the data is read.
    Secret { data: Option<TextMap<Vec<u8>>> },
    /// A cluster.
    Cluster { cluster: Cluster },
    /// A database.
    Database { database: Database },
    /// A TiDB cluster, of which the status is read.
    TidbCluster { status: Option<TidbClusterStatus> },
    /// There is no such TiDB cluster.
    NoTidbCluster,
    /// An object, of which the owners are read.
    Owners { owner_references: Option<Vec<OwnerReference>> },
    /// The call failed.
    Failed { error: KubeError },
}

/// What an `ApiReply` holds.
#[allow(inconsistent_fields)]
#[verifier::ext_equal]
pub enum ApiReplyView {
    Accepted,
    Deployment { available_replicas: Option<i32> },
    Secret { data: Option<Map<Seq<char>, Seq<u8>>> },
    Cluster { cluster: ClusterView },
    Database { database: DatabaseView },
    TidbCluster { status: Option<TidbClusterStatusView> },
    NoTidbCluster,
    Owners { owner_references: Option<Seq<OwnerReferenceView>> },
    Failed { error: KubeErrorView },
}

impl DeepView for ApiReply {
    type V = ApiReplyView;

    open spec fn deep_view(&self) -> ApiReplyView {
        match self {
            ApiReply::Accepted => ApiReplyView::Accepted,
            ApiReply::Deployment { available_replicas } => ApiReplyView::Deployment {
                available_replicas: *available_replicas,
            },
            ApiReply::Secret { data } => ApiReplyView::Secret {
                data: data.deep_view(),
            },
            ApiReply::Cluster { cluster } => ApiReplyView::Cluster {
                cluster: cluster.deep_view(),
            },
            ApiReply::Database { database } => ApiReplyView::Database {
                database: database.deep_view(),
            },
            ApiReply::TidbCluster { status } => ApiReplyView::TidbCluster {
                status: status.deep_view(),
            },
            ApiReply::NoTidbCluster => ApiReplyView::NoTidbCluster,
            ApiReply::Owners { owner_references } => ApiReplyView::Owners {
                owner_references: owner_references.deep_view(),
            },
            ApiReply::Failed { error } => ApiReplyView::Failed {
                error: error.deep_view(),
            },
        }
    }
}

/// The kinds of answers that a controller can wait for.
#[derive(Clone, Copy, Debug, PartialEq, Eq, Structural)]
pub enum ReplyKind {
    Accepted,
    Deployment,
    Secret,
    Cluster,
    Database,
    TidbCluster,
    Owners,
}

impl ApiReplyView {
    /// The reply answers a call of the kind. A call of any kind can fail.
    pub open spec fn fits(self, kind: ReplyKind) -> bool {
        match self {
            ApiReplyView::Accepted => kind == ReplyKind::Accepted,
            ApiReplyView::Deployment { .. } => kind == ReplyKind::Deployment,
            ApiReplyView::Secret { .. } => kind == ReplyKind::Secret,
            ApiReplyView::Cluster { .. } => kind == ReplyKind::Cluster,
            ApiReplyView::Database { .. } => kind == ReplyKind::Database,
            ApiReplyView::TidbCluster { .. } => kind == ReplyKind::TidbCluster,
            ApiReplyView::NoTidbCluster => kind == ReplyKind::TidbCluster,
            ApiReplyView::Owners { .. } => kind == ReplyKind::Owners,
            ApiReplyView::Failed { .. } => true,
        }
    }

    /// The call was refused because the object is already there.
    pub open spec fn already_exists(self) -> bool {
        self matches ApiReplyView::Failed { error } && error.already_exists()
    }

    /// The call was refused because there is no such object.
    pub open spec fn not_found(self) -> bool {
        self matches ApiReplyView::Failed { error } && error.not_found()
    }
}

impl ApiReply {
    /// Whether the reply answers a call of the kind.
    pub fn fits(&self, kind: ReplyKind) -> (r: bool)
        ensures
            r == self.deep_view().fits(kind),
    {
        match self {
            ApiReply::Accepted => kind == ReplyKind::Accepted,
            ApiReply::Deployment { .. } => kind == ReplyKind::Deployment,
            ApiReply::Secret { .. } => kind == ReplyKind::Secret,
            ApiReply::Cluster { .. } => kind == ReplyKind::Cluster,
            ApiReply::Database { .. } => kind == ReplyKind::Database,
            ApiReply::TidbCluster { .. } => kind == ReplyKind::TidbCluster,
            ApiReply::NoTidbCluster => kind == ReplyKind::TidbCluster,
            ApiReply::Owners { .. } => kind == ReplyKind::Owners,
            ApiReply::Failed { .. } => true,
        }
    }
}

impl ApiRequestView {
    /// The kind of answer that the call asks for.
    pub open spec fn reply_kind(self) -> ReplyKind {
        match self {
            ApiRequestView::GetDeployment { .. } => ReplyKind::Deployment,
            ApiRequestView::GetSecret { .. } => ReplyKind::Secret,
            ApiRequestView::GetCluster { .. } => ReplyKind::Cluster,
            ApiRequestView::GetDatabase { .. } => ReplyKind::Database,
            ApiRequestView::GetTidbCluster { .. } => ReplyKind::TidbCluster,
            ApiRequestView::GetOwners { .. } => ReplyKind::Owners,
            _ => ReplyKind::Accepted,
        }
    }

    /// The namespace of the object that the call is about. Statements and
    /// events have none.
    pub open spec fn object_namespace(self) -> Option<Seq<char>> {
        match self {
            ApiRequestView::CreateSecret { namespace, .. } => Some(namespace),
            ApiRequestView::CreateConfigMap { namespace, .. } => Some(namespace),
            ApiRequestView::CreateTidbCluster { namespace, .. } => Some(namespace),
            ApiRequestView::ReplaceRootSecret { namespace, .. } => Some(namespace),
            ApiRequestView::PatchClusterStatus { namespace, .. } => Some(namespace),
            ApiRequestView::PatchDatabaseStatus { namespace, .. } => Some(namespace),
            ApiRequestView::PatchUserStatus { namespace, .. } => Some(namespace),
            ApiRequestView::ApplyDeployment { namespace, .. } => Some(namespace),
            ApiRequestView::ApplyService { namespace, .. } => Some(namespace),
            ApiRequestView::GetDeployment { namespace, .. } => Some(namespace),
            ApiRequestView::GetSecret { namespace, .. } => Some(namespace),
            ApiRequestView::GetCluster { namespace, .. } => Some(namespace),
            ApiRequestView::GetDatabase { namespace, .. } => Some(namespace),
            ApiRequestView::GetTidbCluster { namespace, .. } => Some(namespace),
            ApiRequestView::GetOwners { namespace, .. } => Some(namespace),
            ApiRequestView::Delete { namespace, .. } => Some(namespace),
            ApiRequestView::PostSql { .. } => None,
            ApiRequestView::PublishEvent { .. } => None,
        }
    }
}

/// When to look at an object again.
#[derive(Clone, Copy, Debug, PartialEq, Eq, Structural)]
pub enum Action {
    /// After some seconds.
    Requeue { seconds: u64 },
    /// When it changes.
    AwaitChange,
}

/// How a pass over an object goes on: with a call, whose answer is awaited at
/// a step, or with the end of the pass.
#[derive(Debug)]
pub enum Flow<S> {
    Ask { step: S, request: ApiRequest },
    Done { outcome: Result<Action, Error> },
}

/// What a `Flow` holds.
#[verifier::ext_equal]
pub enum FlowView<S> {
    Ask { step: S, request: ApiRequestView },
    Done { outcome: Result<Action, ErrorView> },
}

impl<S: DeepView> DeepView for Flow<S> {
    type V = FlowView<S::V>;

    open spec fn deep_view(&self) -> FlowView<S::V> {
        match self {
            Flow::Ask { step, request } => FlowView::Ask {
                step: step.deep_view(),
                request: request.deep_view(),
            },
            Flow::Done { outcome } => FlowView::Done {
                outcome: match outcome {
                    Ok(action) => Ok(*action),
                    Err(e) => Err(e.deep_view()),
                },
            },
        }
    }
}

impl<S> FlowView<S> {
    /// The end of a pass after which the object is looked at again after some
    /// seconds.
    pub open spec fn requeue(seconds: u64) -> FlowView<S> {
        FlowView::Done { outcome: Ok(Action::Requeue { seconds }) }
    }

    /// The end of a pass that a failed call brought about.
    pub open spec fn kube_failure(error: KubeErrorView) -> FlowView<S> {
        FlowView::Done { outcome: Err(ErrorView::KubeError(error)) }
    }
}

impl<S: DeepView> Flow<S> {
    /// Ends a pass, to look at the object again after some seconds.
    pub fn requeue(seconds: u64) -> (r: Flow<S>)
        ensures
            r.deep_view() == FlowView::<S::V>::requeue(seconds),
    {
        Flow::Done { outcome: Ok(Action::Requeue { seconds }) }
    }

    /// Ends a pass with a failed call.
    pub fn kube_failure(error: KubeError) -> (r: Flow<S>)
        ensures
            r.deep_view() == FlowView::<S::V>::kube_failure(error.deep_view()),
    {
        Flow::Done { outcome: Err(Error::KubeError(error)) }
    }
}

/// The view of an `ApiRequest` shows all that it holds.
pub proof fn law_view_shows_api_request(x: &ApiRequest)
    ensures
        match x {
            ApiRequest::CreateSecret { namespace, secret } => x.deep_view() == (
            ApiRequestView::CreateSecret {
                namespace: namespace@,
                secret: secret.deep_view(),
            }),
            ApiRequest::CreateConfigMap { namespace, config_map } => x.deep_view() == (
            ApiRequestView::CreateConfigMap {
                namespace: namespace@,
                config_map: config_map.deep_view(),
            }),
            ApiRequest::CreateTidbCluster { namespace, tidb_cluster } => x.deep_view() == (
            ApiRequestView::CreateTidbCluster {
                namespace: namespace@,
                tidb_cluster: tidb_cluster.deep_view(),
            }),
            ApiRequest::ReplaceRootSecret { namespace, name, path, root_secret } => x.deep_view() == (
            ApiRequestView::ReplaceRootSecret {
                namespace: namespace@,
                name: name@,
                path: path@,
                root_secret: root_secret.deep_view(),
            }),
            ApiRequest::PatchClusterStatus { namespace, name, phase } => x.deep_view() == (
            ApiRequestView::PatchClusterStatus {
                namespace: namespace@,
                name: name@,
                phase: *phase,
            }),
            ApiRequest::PatchDatabaseStatus { namespace, name, phase, message } => x.deep_view() == (
            ApiRequestView::PatchDatabaseStatus {
                namespace: namespace@,
                name: name@,
                phase: *phase,
                message: message.deep_view(),
            }),
            ApiRequest::PatchUserStatus { namespace, name, phase, message } => x.deep_view() == (
            ApiRequestView::PatchUserStatus {
                namespace: namespace@,
                name: name@,
                phase: *phase,
                message: message.deep_view(),
            }),
            ApiRequest::ApplyDeployment { namespace, name, manager, force, deployment } => x.deep_view() == (
            ApiRequestView::ApplyDeployment {
                namespace: namespace@,
                name: name@,
                manager: manager@,
                force: *force,
                deployment: deployment.deep_view(),
            }),
            ApiRequest::ApplyService { namespace, name, manager, force, service } => x.deep_view() == (
            ApiRequestView::ApplyService {
                namespace: namespace@,
                name: name@,
                manager: manager@,
                force: *force,
                service: service.deep_view(),
            }),
            ApiRequest::GetDeployment { namespace, name } => x.deep_view() == (
            ApiRequestView::GetDeployment {
                namespace: namespace@,
                name: name@,
            }),
            ApiRequest::GetSecret { namespace, name } => x.deep_view() == (
            ApiRequestView::GetSecret {
                namespace: namespace@,
                name: name@,
            }),
            ApiRequest::GetCluster { namespace, name } => x.deep_view() == (
            ApiRequestView::GetCluster {
                namespace: namespace@,
                name: name@,
            }),
            ApiRequest::GetDatabase { namespace, name } => x.deep_view() == (
            ApiRequestView::GetDatabase {
                namespace: namespace@,
                name: name@,
            }),
            ApiRequest::GetTidbCluster { namespace, name } => x.deep_view() == (
            ApiRequestView::GetTidbCluster {
                namespace: namespace@,
                name: name@,
            }),
            ApiRequest::GetOwners { kind, namespace, name } => x.deep_view() == (
            ApiRequestView::GetOwners {
                kind: *kind,
                namespace: namespace@,
                name: name@,
            }),
            ApiRequest::Delete { kind, namespace, name, propagation } => x.deep_view() == (
            ApiRequestView::Delete {
                kind: *kind,
                namespace: namespace@,
                name: name@,
                propagation: *propagation,
            }),
            ApiRequest::PostSql { request } => x.deep_view() == (ApiRequestView::PostSql {
                request: request.deep_view(),
            }),
            ApiRequest::PublishEvent { event } => x.deep_view() == (ApiRequestView::PublishEvent {
                event: event.deep_view(),
            }),
        },
{
}

/// The view of an `ApiReply` shows all that it holds.
pub proof fn law_view_shows_api_reply(x: &ApiReply)
    ensures
        match x {
            ApiReply::Accepted => x.deep_view() == (ApiReplyView::Accepted),
            ApiReply::Deployment { available_replicas } => x.deep_view() == (
            ApiReplyView::Deployment {
                available_replicas: *available_replicas,
            }),
            ApiReply::Secret { data } => x.deep_view() == (ApiReplyView::Secret {
                data: data.deep_view(),
            }),
            ApiReply::Cluster { cluster } => x.deep_view() == (ApiReplyView::Cluster {
                cluster: cluster.deep_view(),
            }),
            ApiReply::Database { database } => x.deep_view() == (ApiReplyView::Database {
                database: database.deep_view(),
            }),
            ApiReply::TidbCluster { status } => x.deep_view() == (ApiReplyView::TidbCluster {
                status: status.deep_view(),
            }),
            ApiReply::NoTidbCluster => x.deep_view() == (ApiReplyView::NoTidbCluster),
            ApiReply::Owners { owner_references } => x.deep_view() == (ApiReplyView::Owners {
                owner_references: owner_references.deep_view(),
            }),
            ApiReply::Failed { error } => x.deep_view() == (ApiReplyView::Failed {
                error: error.deep_view(),
            }),
        },
{
}

} // verus!
