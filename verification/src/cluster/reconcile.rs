//! How a cluster is brought from one phase to the next. A pass starts from the
//! phase of the cluster and goes from call to call: each step takes the answer
//! to the last call and says which call comes next, or how the pass ends.
use crate::api::{
    Action, ApiReply, ApiReplyView, ApiRequest, ApiRequestView, Flow, FlowView, ReplyKind,
};
use crate::cluster::crd::{Cluster, ClusterView, Phase};
use crate::cluster::resources;
use crate::error::{Error, KubeError};
use crate::objects::{SecretReference, SecretReferenceView};
use crate::password::{self, generate_secure_password};
use crate::sql::{self, define_root_user, root_credentials, sql_request};
use crate::text::joined;
use vstd::prelude::*;

verus! {

/// The name under which the controller applies objects.
pub const FIELD_MANAGER: &'static str = "sdb-controller";

/// The place of the reference to the root credentials in a cluster.
pub const ROOT_SECRET_PATH: &'static str = "/spec/rootSecret";

/// The phases in which the servers of a cluster run and are watched.
#[derive(Clone, Copy, Debug, PartialEq, Eq, Structural)]
pub enum Watched {
    InProgress,
    Ready,
    NotReady,
}

/// The occasions on which deployment and service are applied.
#[derive(Clone, Copy, Debug, PartialEq, Eq, Structural)]
pub enum Rollout {
    /// To let the root user be created.
    Create,
    /// To ask for credentials from now on.
    Authenticate,
    /// To keep running servers as they should be.
    Watch { watched: Watched },
    /// To get out of an error.
    Heal,
}

impl Rollout {
    /// Whether the servers let everyone in.
    pub open spec fn creation_mode(self) -> bool {
        self == Rollout::Create
    }

    /// Whether the servers let everyone in.
    pub fn lets_everyone_in(self) -> (r: bool)
        ensures
            r == self.creation_mode(),
    {
        match self {
            Rollout::Create => true,
            _ => false,
        }
    }
}

/// The call whose answer a pass over a cluster waits for.
#[derive(Clone, Copy, Debug, PartialEq, Eq, Structural)]
pub enum ClusterStep {
    /// The phase is set to `Error`, for want of a place for the data.
    PreflightFailed,
    /// The secret with the root credentials is created.
    RootSecretCreate,
    /// The reference to that secret is written down in the cluster.
    RootSecretPersist,
    /// The phase is set to `Error`, for want of root credentials.
    RootSecretFailed,
    /// The phase is set to `Preparing`.
    EnterPreparing,
    /// The phase is set to `InCreation`; whether a failure ends the pass.
    EnterCreation { strict: bool },
    /// The TiDB cluster is created.
    TidbCreate,
    /// The TiDB cluster is looked at.
    TidbGet,
    /// The deployment is looked at before the root user is created.
    CreationReadiness,
    /// The root credentials are read.
    BootstrapSecret,
    /// The root user is created.
    BootstrapPost,
    /// The phase is set to `InProgress`.
    EnterProgress,
    /// The deployment is applied.
    ApplyDeployment { rollout: Rollout },
    /// The service is applied.
    ApplyService { rollout: Rollout },
    /// The deployment is looked at while it is watched.
    Readiness { watched: Watched },
    /// A phase is set at the end of a pass.
    Settle { seconds: u64 },
}

impl DeepView for ClusterStep {
    type V = ClusterStep;

    open spec fn deep_view(&self) -> ClusterStep {
        *self
    }
}

impl ClusterStep {
    /// The kind of answer that is waited for.
    pub open spec fn awaited(self) -> ReplyKind {
        match self {
            ClusterStep::TidbGet => ReplyKind::TidbCluster,
            ClusterStep::CreationReadiness => ReplyKind::Deployment,
            ClusterStep::Readiness { .. } => ReplyKind::Deployment,
            ClusterStep::BootstrapSecret => ReplyKind::Secret,
            _ => ReplyKind::Accepted,
        }
    }

    /// The kind of answer that is waited for.
    pub fn awaits(self) -> (r: ReplyKind)
        ensures
            r == self.awaited(),
    {
        match self {
            ClusterStep::TidbGet => ReplyKind::TidbCluster,
            ClusterStep::CreationReadiness => ReplyKind::Deployment,
            ClusterStep::Readiness { .. } => ReplyKind::Deployment,
            ClusterStep::BootstrapSecret => ReplyKind::Secret,
            _ => ReplyKind::Accepted,
        }
    }
}

/// When to look again at a cluster whose pass failed.
pub fn error_policy(_error: &Error) -> (r: Action)
    ensures
        r == (Action::Requeue { seconds: 300 }),
{
    Action::Requeue { seconds: 300 }
}

/// A deployment with this many available replicas can be used.
pub open spec fn available(replicas: Option<i32>) -> bool {
    replicas matches Some(n) && n > 0
}

/// A reply shows a deployment that can be used.
pub open spec fn shows_ready(reply: ApiReplyView) -> bool {
    reply matches ApiReplyView::Deployment { available_replicas } && available(available_replicas)
}

/// Whether a deployment with this many available replicas can be used.
pub fn check_ready(available_replicas: Option<i32>) -> (r: bool)
    ensures
        r == available(available_replicas),
{
    match available_replicas {
        Some(n) => n > 0,
        None => false,
    }
}

/// A call that brings an object with the cluster as its owner.
pub open spec fn needs_owner(flow: FlowView<ClusterStep>) -> bool {
    match flow {
        FlowView::Ask { request, .. } => request is CreateSecret || request is CreateTidbCluster
            || request is ApplyDeployment || request is ApplyService,
        FlowView::Done { .. } => false,
    }
}

impl ClusterView {
    /// The phase of the cluster, `New` where there is none yet.
    pub open spec fn phase(self) -> Phase {
        match self.status {
            Some(status) => match status.phase {
                Some(phase) => phase,
                None => Phase::New,
            },
            None => Phase::New,
        }
    }

    /// The namespace of the cluster.
    pub open spec fn ns(self) -> Seq<char> {
        self.metadata.namespace->0
    }

    /// A pass makes root credentials: a new cluster with a place for its data
    /// names none.
    pub open spec fn makes_credentials(self) -> bool {
        self.phase() == Phase::New && self.backend_configured() && self.spec.root_secret is None
    }

    /// The call that sets the phase.
    pub open spec fn phase_request(self, phase: Phase) -> ApiRequestView {
        ApiRequestView::PatchClusterStatus { namespace: self.ns(), name: self.name_any(), phase }
    }

    /// The call that looks at the deployment.
    pub open spec fn readiness_request(self) -> ApiRequestView {
        ApiRequestView::GetDeployment {
            namespace: self.ns(),
            name: resources::surreal_name(self.name_any()),
        }
    }

    /// The call that creates the secret with the root credentials.
    pub open spec fn root_secret_request(self, password: Seq<char>) -> ApiRequestView {
        ApiRequestView::CreateSecret { namespace: self.ns(), secret: self.root_secret(password) }
    }

    /// The call that writes down which secret has the root credentials.
    pub open spec fn root_secret_ref_request(self) -> ApiRequestView {
        ApiRequestView::ReplaceRootSecret {
            namespace: self.ns(),
            name: self.name_any(),
            path: ROOT_SECRET_PATH@,
            root_secret: SecretReferenceView {
                name: Some(resources::root_secret_name(self.name_any())),
                namespace: Some(self.ns()),
            },
        }
    }

    /// The call that applies the deployment.
    pub open spec fn deployment_request(self, creation_mode: bool) -> ApiRequestView {
        ApiRequestView::ApplyDeployment {
            namespace: self.ns(),
            name: resources::surreal_name(self.name_any()),
            manager: FIELD_MANAGER@,
            force: true,
            deployment: self.surreal_deployment(self.name_any(), creation_mode),
        }
    }

    /// The call that applies the service.
    pub open spec fn service_request(self) -> ApiRequestView {
        ApiRequestView::ApplyService {
            namespace: self.ns(),
            name: resources::surreal_name(self.name_any()),
            manager: FIELD_MANAGER@,
            force: true,
            service: self.surreal_service(self.name_any()),
        }
    }

    /// The call that looks at the TiDB cluster.
    pub open spec fn tidb_request(self) -> ApiRequestView {
        ApiRequestView::GetTidbCluster { namespace: self.ns(), name: self.name_any() }
    }

    /// Deployment and service are applied, the deployment first.
    pub open spec fn roll_out(self, rollout: Rollout) -> FlowView<ClusterStep> {
        FlowView::Ask {
            step: ClusterStep::ApplyDeployment { rollout },
            request: self.deployment_request(rollout.creation_mode()),
        }
    }

    /// A new cluster with root credentials goes on: to wait for its TiDB
    /// cluster, or straight to the creation of its servers.
    pub open spec fn leave_new(self) -> FlowView<ClusterStep> {
        if self.spec.tidb_cluster is Some {
            FlowView::Ask {
                step: ClusterStep::EnterPreparing,
                request: self.phase_request(Phase::Preparing),
            }
        } else {
            FlowView::Ask {
                step: ClusterStep::EnterCreation { strict: true },
                request: self.phase_request(Phase::InCreation),
            }
        }
    }

    /// How a pass starts, with the password for new root credentials.
    pub open spec fn start(self, password: Seq<char>) -> FlowView<ClusterStep> {
        match self.phase() {
            Phase::New => {
                if !self.backend_configured() {
                    FlowView::Ask {
                        step: ClusterStep::PreflightFailed,
                        request: self.phase_request(Phase::Error),
                    }
                } else if self.spec.root_secret is None {
                    FlowView::Ask {
                        step: ClusterStep::RootSecretCreate,
                        request: self.root_secret_request(password),
                    }
                } else {
                    self.leave_new()
                }
            },
            Phase::Preparing => match self.spec.tidb_cluster {
                Some(spec) => FlowView::Ask {
                    step: ClusterStep::TidbCreate,
                    request: ApiRequestView::CreateTidbCluster {
                        namespace: self.ns(),
                        tidb_cluster: self.tidb_object(self.name_any(), spec),
                    },
                },
                None => FlowView::Ask { step: ClusterStep::TidbGet, request: self.tidb_request() },
            },
            Phase::InCreation => FlowView::Ask {
                step: ClusterStep::CreationReadiness,
                request: self.readiness_request(),
            },
            Phase::InProgress => self.roll_out(Rollout::Watch { watched: Watched::InProgress }),
            Phase::Ready => self.roll_out(Rollout::Watch { watched: Watched::Ready }),
            Phase::NotReady => self.roll_out(Rollout::Watch { watched: Watched::NotReady }),
            Phase::Error => self.roll_out(Rollout::Heal),
        }
    }

    /// What follows when the secret of the root credentials is there.
    pub open spec fn after_root_secret(self) -> FlowView<ClusterStep> {
        if self.spec.root_secret is Some {
            self.leave_new()
        } else {
            FlowView::Ask {
                step: ClusterStep::RootSecretPersist,
                request: self.root_secret_ref_request(),
            }
        }
    }

    /// What follows when there are no root credentials to be had.
    pub open spec fn root_secret_failure(self) -> FlowView<ClusterStep> {
        FlowView::Ask {
            step: ClusterStep::RootSecretFailed,
            request: self.phase_request(Phase::Error),
        }
    }

    /// The TiDB cluster was looked at.
    pub open spec fn after_tidb(self, reply: ApiReplyView) -> FlowView<ClusterStep> {
        match reply {
            ApiReplyView::TidbCluster { status } => {
                if status matches Some(status) && status.ready() {
                    FlowView::Ask {
                        step: ClusterStep::EnterCreation { strict: false },
                        request: self.phase_request(Phase::InCreation),
                    }
                } else {
                    FlowView::requeue(15)
                }
            },
            ApiReplyView::NoTidbCluster => FlowView::requeue(10),
            _ => FlowView::requeue(15),
        }
    }

    /// The servers run and let everyone in: the root credentials are read.
    pub open spec fn bootstrap(self) -> FlowView<ClusterStep> {
        match self.credentials_secret() {
            Some(name) => FlowView::Ask {
                step: ClusterStep::BootstrapSecret,
                request: ApiRequestView::GetSecret { namespace: self.ns(), name },
            },
            None => FlowView::requeue(30),
        }
    }

    /// The root credentials were read: the root user is created.
    pub open spec fn after_credentials(self, reply: ApiReplyView) -> FlowView<ClusterStep> {
        match reply {
            ApiReplyView::Secret { data } => match sql::credentials_in(data) {
                Some((user, password)) => {
                    match sql::sql_request_outcome(
                        self.ns(),
                        self.name_any(),
                        None,
                        sql::root_user_statement(user, password),
                    ) {
                        Ok(request) => FlowView::Ask {
                            step: ClusterStep::BootstrapPost,
                            request: ApiRequestView::PostSql { request },
                        },
                        Err(_) => FlowView::requeue(30),
                    }
                },
                None => FlowView::requeue(30),
            },
            _ => FlowView::requeue(30),
        }
    }

    /// Deployment or service could not be applied.
    pub open spec fn rollout_failure(
        self,
        rollout: Rollout,
        reply: ApiReplyView,
    ) -> FlowView<ClusterStep> {
        if rollout == Rollout::Heal {
            FlowView::requeue(45)
        } else {
            FlowView::kube_failure(reply->Failed_error)
        }
    }

    /// Deployment and service were applied.
    pub open spec fn after_rollout(self, rollout: Rollout) -> FlowView<ClusterStep> {
        match rollout {
            Rollout::Create => FlowView::requeue(20),
            Rollout::Authenticate => FlowView::requeue(20),
            Rollout::Watch { watched } => FlowView::Ask {
                step: ClusterStep::Readiness { watched },
                request: self.readiness_request(),
            },
            Rollout::Heal => FlowView::requeue(45),
        }
    }

    /// The watched servers were looked at.
    pub open spec fn settle(self, watched: Watched, ready: bool) -> FlowView<ClusterStep> {
        let to_ready = FlowView::Ask {
            step: ClusterStep::Settle { seconds: 60 },
            request: self.phase_request(Phase::Ready),
        };
        let to_not_ready = FlowView::Ask {
            step: ClusterStep::Settle { seconds: 30 },
            request: self.phase_request(Phase::NotReady),
        };
        match watched {
            Watched::InProgress => if ready { to_ready } else { to_not_ready },
            Watched::Ready => if ready { FlowView::requeue(120) } else { to_not_ready },
            Watched::NotReady => if ready { to_ready } else { FlowView::requeue(30) },
        }
    }

    /// How a pass goes on with the answer that a step waited for.
    pub open spec fn next(self, step: ClusterStep, reply: ApiReplyView) -> FlowView<ClusterStep> {
        match step {
            ClusterStep::PreflightFailed => {
                if reply is Failed {
                    FlowView::kube_failure(reply->Failed_error)
                } else {
                    FlowView::requeue(30)
                }
            },
            ClusterStep::RootSecretCreate => {
                if reply is Failed && !reply.already_exists() {
                    self.root_secret_failure()
                } else {
                    self.after_root_secret()
                }
            },
            ClusterStep::RootSecretPersist => {
                if reply is Failed {
                    self.root_secret_failure()
                } else {
                    self.leave_new()
                }
            },
            ClusterStep::RootSecretFailed => FlowView::requeue(30),
            ClusterStep::EnterPreparing => FlowView::requeue(10),
            ClusterStep::EnterCreation { strict } => {
                if strict && reply is Failed {
                    FlowView::kube_failure(reply->Failed_error)
                } else {
                    self.roll_out(Rollout::Create)
                }
            },
            ClusterStep::TidbCreate => {
                if reply is Failed && !reply.already_exists() {
                    FlowView::requeue(20)
                } else {
                    FlowView::Ask { step: ClusterStep::TidbGet, request: self.tidb_request() }
                }
            },
            ClusterStep::TidbGet => self.after_tidb(reply),
            ClusterStep::CreationReadiness => {
                if shows_ready(reply) {
                    self.bootstrap()
                } else {
                    FlowView::requeue(20)
                }
            },
            ClusterStep::BootstrapSecret => self.after_credentials(reply),
            ClusterStep::BootstrapPost => {
                if reply is Failed {
                    FlowView::requeue(30)
                } else {
                    FlowView::Ask {
                        step: ClusterStep::EnterProgress,
                        request: self.phase_request(Phase::InProgress),
                    }
                }
            },
            ClusterStep::EnterProgress => self.roll_out(Rollout::Authenticate),
            ClusterStep::ApplyDeployment { rollout } => {
                if reply is Failed {
                    self.rollout_failure(rollout, reply)
                } else {
                    FlowView::Ask {
                        step: ClusterStep::ApplyService { rollout },
                        request: self.service_request(),
                    }
                }
            },
            ClusterStep::ApplyService { rollout } => {
                if reply is Failed {
                    self.rollout_failure(rollout, reply)
                } else {
                    self.after_rollout(rollout)
                }
            },
            ClusterStep::Readiness { watched } => self.settle(watched, shows_ready(reply)),
            ClusterStep::Settle { seconds } => FlowView::requeue(seconds),
        }
    }
}

impl Cluster {
    /// The phase of the cluster, `New` where there is none yet.
    pub fn current_phase(&self) -> (r: Phase)
        ensures
            r == self.deep_view().phase(),
    {
        match &self.status {
            Some(status) => match status.phase {
                Some(phase) => phase,
                None => Phase::New,
            },
            None => Phase::New,
        }
    }

    /// The namespace of the cluster.
    pub fn namespace(&self) -> (r: String)
        requires
            self.metadata.namespace is Some,
        ensures
            r@ == self.deep_view().ns(),
    {
        self.metadata.namespace.as_ref().unwrap().clone()
    }

    /// The call that sets the phase.
    pub fn set_phase(&self, phase: Phase) -> (r: ApiRequest)
        requires
            self.metadata.namespace is Some,
        ensures
            r.deep_view() == self.deep_view().phase_request(phase),
    {
        ApiRequest::PatchClusterStatus { namespace: self.namespace(), name: self.name_any(), phase }
    }

    /// The call that creates the secret with new root credentials, for a
    /// cluster that names none.
    pub fn ensure_root_secret(&self, password: &str) -> (r: Option<ApiRequest>)
        requires
            self.metadata.namespace is Some,
            self.spec.root_secret is None ==> self.deep_view().owner_ref() is Some,
        ensures
            r.deep_view() == (if self.spec.root_secret is None {
                Some(self.deep_view().root_secret_request(password@))
            } else {
                None
            }),
    {
        if self.spec.root_secret.is_some() {
            return None;
        }
        Some(
            ApiRequest::CreateSecret {
                namespace: self.namespace(),
                secret: self.build_root_secret(password),
            },
        )
    }

    /// The call that writes down which secret has the root credentials, for a
    /// cluster that names none.
    pub fn persist_root_secret_ref(&self) -> (r: Option<ApiRequest>)
        requires
            self.metadata.namespace is Some,
        ensures
            r.deep_view() == (if self.spec.root_secret is None {
                Some(self.deep_view().root_secret_ref_request())
            } else {
                None
            }),
    {
        if self.spec.root_secret.is_some() {
            return None;
        }
        let own_name = self.name_any();
        Some(
            ApiRequest::ReplaceRootSecret {
                namespace: self.namespace(),
                path: ROOT_SECRET_PATH.to_string(),
                root_secret: SecretReference {
                    name: Some(joined(own_name.as_str(), "-surrealdb-root")),
                    namespace: Some(self.namespace()),
                },
                name: own_name,
            },
        )
    }

    /// The call that looks at the deployment.
    fn get_deployment(&self) -> (r: ApiRequest)
        requires
            self.metadata.namespace is Some,
        ensures
            r.deep_view() == self.deep_view().readiness_request(),
    {
        let own_name = self.name_any();
        ApiRequest::GetDeployment {
            namespace: self.namespace(),
            name: joined(own_name.as_str(), "-surrealdb"),
        }
    }

    /// The call that looks at the TiDB cluster.
    fn get_tidb_cluster(&self) -> (r: ApiRequest)
        requires
            self.metadata.namespace is Some,
        ensures
            r.deep_view() == self.deep_view().tidb_request(),
    {
        ApiRequest::GetTidbCluster { namespace: self.namespace(), name: self.name_any() }
    }

    /// Starts to apply deployment and service.
    pub fn reconcile_surrealdb_with_mode(&self, rollout: Rollout) -> (r: Flow<ClusterStep>)
        requires
            self.metadata.namespace is Some,
            self.deep_view().owner_ref() is Some,
        ensures
            r.deep_view() == self.deep_view().roll_out(rollout),
    {
        let own_name = self.name_any();
        Flow::Ask {
            step: ClusterStep::ApplyDeployment { rollout },
            request: ApiRequest::ApplyDeployment {
                namespace: self.namespace(),
                name: joined(own_name.as_str(), "-surrealdb"),
                manager: FIELD_MANAGER.to_string(),
                force: true,
                deployment: self.build_surreal_deployment(
                    own_name.as_str(),
                    rollout.lets_everyone_in(),
                ),
            },
        }
    }

    /// The call that applies the service.
    fn apply_service(&self) -> (r: ApiRequest)
        requires
            self.metadata.namespace is Some,
            self.deep_view().owner_ref() is Some,
        ensures
            r.deep_view() == self.deep_view().service_request(),
    {
        let own_name = self.name_any();
        ApiRequest::ApplyService {
            namespace: self.namespace(),
            name: joined(own_name.as_str(), "-surrealdb"),
            manager: FIELD_MANAGER.to_string(),
            force: true,
            service: self.build_surreal_service(own_name.as_str()),
        }
    }

    /// Goes on with a new cluster that has root credentials.
    fn leave_new(&self) -> (r: Flow<ClusterStep>)
        requires
            self.metadata.namespace is Some,
        ensures
            r.deep_view() == self.deep_view().leave_new(),
    {
        if self.spec.tidb_cluster.is_some() {
            Flow::Ask {
                step: ClusterStep::EnterPreparing,
                request: self.set_phase(Phase::Preparing),
            }
        } else {
            Flow::Ask {
                step: ClusterStep::EnterCreation { strict: true },
                request: self.set_phase(Phase::InCreation),
            }
        }
    }

    /// Makes sure that the TiDB cluster of the cluster exists, where it has
    /// one, and looks at it.
    pub fn reconcile_tidb_cluster(&self) -> (r: Flow<ClusterStep>)
        requires
            self.metadata.namespace is Some,
            self.spec.tidb_cluster is Some ==> self.deep_view().owner_ref() is Some,
        ensures
            r.deep_view() == (match self.deep_view().spec.tidb_cluster {
                Some(spec) => FlowView::Ask {
                    step: ClusterStep::TidbCreate,
                    request: ApiRequestView::CreateTidbCluster {
                        namespace: self.deep_view().ns(),
                        tidb_cluster: self.deep_view().tidb_object(
                            self.deep_view().name_any(),
                            spec,
                        ),
                    },
                },
                None => FlowView::Ask {
                    step: ClusterStep::TidbGet,
                    request: self.deep_view().tidb_request(),
                },
            }),
    {
        match &self.spec.tidb_cluster {
            Some(spec) => {
                let own_name = self.name_any();
                Flow::Ask {
                    step: ClusterStep::TidbCreate,
                    request: ApiRequest::CreateTidbCluster {
                        namespace: self.namespace(),
                        tidb_cluster: self.build_tidb_cluster(own_name.as_str(), spec),
                    },
                }
            },
            None => Flow::Ask { step: ClusterStep::TidbGet, request: self.get_tidb_cluster() },
        }
    }

    /// Starts a pass over the cluster, with the password for root credentials
    /// that may have to be made.
    pub fn reconcile_with_password(&self, password: &str) -> (r: Flow<ClusterStep>)
        requires
            self.metadata.namespace is Some,
            needs_owner(self.deep_view().start(password@)) ==> self.deep_view().owner_ref()
                is Some,
        ensures
            r.deep_view() == self.deep_view().start(password@),
    {
        match self.current_phase() {
            Phase::New => {
                match self.tikv_backend_configured() {
                    Err(_) => Flow::Ask {
                        step: ClusterStep::PreflightFailed,
                        request: self.set_phase(Phase::Error),
                    },
                    Ok(_) => match self.ensure_root_secret(password) {
                        Some(request) => Flow::Ask {
                            step: ClusterStep::RootSecretCreate,
                            request,
                        },
                        None => self.leave_new(),
                    },
                }
            },
            Phase::Preparing => self.reconcile_tidb_cluster(),
            Phase::InCreation => Flow::Ask {
                step: ClusterStep::CreationReadiness,
                request: self.get_deployment(),
            },
            Phase::InProgress => self.reconcile_surrealdb_with_mode(
                Rollout::Watch { watched: Watched::InProgress },
            ),
            Phase::Ready => self.reconcile_surrealdb_with_mode(
                Rollout::Watch { watched: Watched::Ready },
            ),
            Phase::NotReady => self.reconcile_surrealdb_with_mode(
                Rollout::Watch { watched: Watched::NotReady },
            ),
            Phase::Error => self.reconcile_surrealdb_with_mode(Rollout::Heal),
        }
    }

    /// Starts a pass over the cluster. Root credentials that have to be made
    /// get a new random password.
    pub fn reconcile(&self) -> (r: Flow<ClusterStep>)
        requires
            self.metadata.namespace is Some,
            needs_owner(self.deep_view().start(seq![])) ==> self.deep_view().owner_ref() is Some,
        ensures
            exists|password: Seq<char>|
                {
                    &&& r.deep_view() == #[trigger] self.deep_view().start(password)
                    &&& self.deep_view().makes_credentials() ==> password::secure_password(
                        password,
                        password::MIN_LENGTH as int,
                    )
                },
    {
        let makes_credentials = match self.current_phase() {
            Phase::New => self.tikv_backend_configured().is_ok() && self.spec.root_secret.is_none(),
            _ => false,
        };
        let password = if makes_credentials {
            generate_secure_password(32)
        } else {
            String::new()
        };
        self.reconcile_with_password(password.as_str())
    }

    /// Goes on when there are no root credentials to be had.
    fn root_secret_failed(&self) -> (r: Flow<ClusterStep>)
        requires
            self.metadata.namespace is Some,
        ensures
            r.deep_view() == self.deep_view().root_secret_failure(),
    {
        Flow::Ask { step: ClusterStep::RootSecretFailed, request: self.set_phase(Phase::Error) }
    }

    /// Starts to create the root user, with the root credentials to be read
    /// first.
    fn start_bootstrap(&self) -> (r: Flow<ClusterStep>)
        requires
            self.metadata.namespace is Some,
        ensures
            r.deep_view() == self.deep_view().bootstrap(),
    {
        match self.credentials_secret() {
            Some(name) => Flow::Ask {
                step: ClusterStep::BootstrapSecret,
                request: ApiRequest::GetSecret { namespace: self.namespace(), name },
            },
            None => Flow::requeue(30),
        }
    }

    /// Creates the root user with the credentials that were read.
    pub fn bootstrap_root_user(&self, reply: ApiReply) -> (r: Flow<ClusterStep>)
        requires
            self.metadata.namespace is Some,
        ensures
            r.deep_view() == self.deep_view().after_credentials(reply.deep_view()),
    {
        match reply {
            ApiReply::Secret { data } => match root_credentials(&data) {
                Some((user, password)) => {
                    let statement = define_root_user(user.as_str(), password.as_str());
                    let ns = self.namespace();
                    let own_name = self.name_any();
                    match sql_request(ns.as_str(), own_name.as_str(), None, statement.as_str()) {
                        Ok(request) => Flow::Ask {
                            step: ClusterStep::BootstrapPost,
                            request: ApiRequest::PostSql { request },
                        },
                        Err(_) => Flow::requeue(30),
                    }
                },
                None => Flow::requeue(30),
            },
            _ => Flow::requeue(30),
        }
    }

    /// Goes on with the TiDB cluster that was looked at.
    fn after_tidb(&self, reply: ApiReply) -> (r: Flow<ClusterStep>)
        requires
            self.metadata.namespace is Some,
        ensures
            r.deep_view() == self.deep_view().after_tidb(reply.deep_view()),
    {
        match reply {
            ApiReply::TidbCluster { status } => {
                let ready = match &status {
                    Some(status) => status.ready(),
                    None => false,
                };
                if ready {
                    Flow::Ask {
                        step: ClusterStep::EnterCreation { strict: false },
                        request: self.set_phase(Phase::InCreation),
                    }
                } else {
                    Flow::requeue(15)
                }
            },
            ApiReply::NoTidbCluster => Flow::requeue(10),
            _ => Flow::requeue(15),
        }
    }

    /// Ends a pass in which deployment or service could not be applied.
    fn rollout_failed(&self, rollout: Rollout, error: KubeError) -> (r: Flow<ClusterStep>)
        ensures
            r.deep_view() == self.deep_view().rollout_failure(
                rollout,
                ApiReplyView::Failed { error: error.deep_view() },
            ),
    {
        match rollout {
            Rollout::Heal => Flow::requeue(45),
            _ => Flow::kube_failure(error),
        }
    }

    /// Goes on when deployment and service were applied.
    fn after_rollout(&self, rollout: Rollout) -> (r: Flow<ClusterStep>)
        requires
            self.metadata.namespace is Some,
        ensures
            r.deep_view() == self.deep_view().after_rollout(rollout),
    {
        match rollout {
            Rollout::Create => Flow::requeue(20),
            Rollout::Authenticate => Flow::requeue(20),
            Rollout::Watch { watched } => Flow::Ask {
                step: ClusterStep::Readiness { watched },
                request: self.get_deployment(),
            },
            Rollout::Heal => Flow::requeue(45),
        }
    }

    /// Ends a pass over watched servers, with a new phase where they changed.
    pub fn settle(&self, watched: Watched, ready: bool) -> (r: Flow<ClusterStep>)
        requires
            self.metadata.namespace is Some,
        ensures
            r.deep_view() == self.deep_view().settle(watched, ready),
    {
        match (watched, ready) {
            (Watched::InProgress, true) | (Watched::NotReady, true) => Flow::Ask {
                step: ClusterStep::Settle { seconds: 60 },
                request: self.set_phase(Phase::Ready),
            },
            (Watched::InProgress, false) | (Watched::Ready, false) => Flow::Ask {
                step: ClusterStep::Settle { seconds: 30 },
                request: self.set_phase(Phase::NotReady),
            },
            (Watched::Ready, true) => Flow::requeue(120),
            (Watched::NotReady, false) => Flow::requeue(30),
        }
    }

    /// Goes on with a pass over the cluster, with the answer that a step
    /// waited for.
    pub fn resume(&self, step: ClusterStep, reply: ApiReply) -> (r: Flow<ClusterStep>)
        requires
            self.metadata.namespace is Some,
            reply.deep_view().fits(step.awaited()),
            needs_owner(self.deep_view().next(step, reply.deep_view()))
                ==> self.deep_view().owner_ref() is Some,
        ensures
            r.deep_view() == self.deep_view().next(step, reply.deep_view()),
    {
        match step {
            ClusterStep::PreflightFailed => match reply {
                ApiReply::Failed { error } => Flow::kube_failure(error),
                _ => Flow::requeue(30),
            },
            ClusterStep::RootSecretCreate => {
                let failed = match &reply {
                    ApiReply::Failed { error } => !error.already_exists(),
                    _ => false,
                };
                if failed {
                    return self.root_secret_failed();
                }
                match self.persist_root_secret_ref() {
                    Some(request) => Flow::Ask { step: ClusterStep::RootSecretPersist, request },
                    None => self.leave_new(),
                }
            },
            ClusterStep::RootSecretPersist => match reply {
                ApiReply::Failed { .. } => self.root_secret_failed(),
                _ => self.leave_new(),
            },
            ClusterStep::RootSecretFailed => Flow::requeue(30),
            ClusterStep::EnterPreparing => Flow::requeue(10),
            ClusterStep::EnterCreation { strict } => match (strict, reply) {
                (true, ApiReply::Failed { error }) => Flow::kube_failure(error),
                _ => self.reconcile_surrealdb_with_mode(Rollout::Create),
            },
            ClusterStep::TidbCreate => {
                let failed = match &reply {
                    ApiReply::Failed { error } => !error.already_exists(),
                    _ => false,
                };
                if failed {
                    return Flow::requeue(20);
                }
                Flow::Ask { step: ClusterStep::TidbGet, request: self.get_tidb_cluster() }
            },
            ClusterStep::TidbGet => self.after_tidb(reply),
            ClusterStep::CreationReadiness => match reply {
                ApiReply::Deployment { available_replicas } => {
                    if check_ready(available_replicas) {
                        self.start_bootstrap()
                    } else {
                        Flow::requeue(20)
                    }
                },
                _ => Flow::requeue(20),
            },
            ClusterStep::BootstrapSecret => self.bootstrap_root_user(reply),
            ClusterStep::BootstrapPost => match reply {
                ApiReply::Failed { .. } => Flow::requeue(30),
                _ => Flow::Ask {
                    step: ClusterStep::EnterProgress,
                    request: self.set_phase(Phase::InProgress),
                },
            },
            ClusterStep::EnterProgress => self.reconcile_surrealdb_with_mode(
                Rollout::Authenticate,
            ),
            ClusterStep::ApplyDeployment { rollout } => match reply {
                ApiReply::Failed { error } => self.rollout_failed(rollout, error),
                _ => Flow::Ask {
                    step: ClusterStep::ApplyService { rollout },
                    request: self.apply_service(),
                },
            },
            ClusterStep::ApplyService { rollout } => match reply {
                ApiReply::Failed { error } => self.rollout_failed(rollout, error),
                _ => self.after_rollout(rollout),
            },
            ClusterStep::Readiness { watched } => {
                let ready = match reply {
                    ApiReply::Deployment { available_replicas } => check_ready(available_replicas),
                    _ => false,
                };
                self.settle(watched, ready)
            },
            ClusterStep::Settle { seconds } => Flow::requeue(seconds),
        }
    }
}

} // verus!
