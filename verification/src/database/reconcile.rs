//! How a database is brought about: with the root credentials of its cluster,
//! first its namespace is defined there and then the database itself.
use crate::api::{
    Action, ApiReply, ApiReplyView, ApiRequest, ApiRequestView, Flow, FlowView, ReplyKind,
};
use crate::credentials::{self, ask_for_secret, read_credentials};
use crate::database::crd::{Database, DatabaseView, DbPhase};
use crate::error::{Error, ErrorView};
use crate::sql::{self, define_database, define_namespace, sql_request};
use crate::text::{self, joined, text_or_else};
use vstd::prelude::*;

verus! {

/// The finalizer that keeps a database until it is cleaned up.
pub const DATABASE_FINALIZER: &'static str = "databases.surrealdb.aexol.com";

/// The call whose answer a pass over a database waits for.
#[derive(Debug)]
pub enum DbStep {
    /// The cluster is read.
    Cluster,
    /// The secret with the root credentials is read.
    Secret,
    /// The namespace is defined, with credentials that serve for the database
    /// too.
    Namespace { user: String, password: String },
    /// The database is defined.
    Database,
    /// A failure is written down.
    Failed,
    /// The success is written down.
    Settled,
}

/// What a `DbStep` holds.
#[verifier::ext_equal]
pub enum DbStepView {
    Cluster,
    Secret,
    Namespace { user: Seq<char>, password: Seq<char> },
    Database,
    Failed,
    Settled,
}

impl DeepView for DbStep {
    type V = DbStepView;

    open spec fn deep_view(&self) -> DbStepView {
        match self {
            DbStep::Cluster => DbStepView::Cluster,
            DbStep::Secret => DbStepView::Secret,
            DbStep::Namespace { user, password } => DbStepView::Namespace {
                user: user@,
                password: password@,
            },
            DbStep::Database => DbStepView::Database,
            DbStep::Failed => DbStepView::Failed,
            DbStep::Settled => DbStepView::Settled,
        }
    }
}

impl DbStepView {
    /// The kind of answer that is waited for.
    pub open spec fn awaited(self) -> ReplyKind {
        match self {
            DbStepView::Cluster => ReplyKind::Cluster,
            DbStepView::Secret => ReplyKind::Secret,
            _ => ReplyKind::Accepted,
        }
    }
}

impl DbStep {
    /// The kind of answer that is waited for.
    pub fn awaits(&self) -> (r: ReplyKind)
        ensures
            r == self.deep_view().awaited(),
    {
        match self {
            DbStep::Cluster => ReplyKind::Cluster,
            DbStep::Secret => ReplyKind::Secret,
            _ => ReplyKind::Accepted,
        }
    }
}

impl DatabaseView {
    /// The name of the resource.
    pub open spec fn name_any(self) -> Seq<char> {
        self.metadata.name_any()
    }

    /// The phase of the database, `New` where there is none yet.
    pub open spec fn phase(self) -> DbPhase {
        match self.status {
            Some(status) => match status.phase {
                Some(phase) => phase,
                None => DbPhase::New,
            },
            None => DbPhase::New,
        }
    }

    /// The namespace of the resource.
    pub open spec fn ns(self) -> Seq<char> {
        self.metadata.namespace->0
    }

    /// The namespace of the cluster, that of the resource by default.
    pub open spec fn cluster_ns(self) -> Seq<char> {
        text::text_or(self.spec.cluster_ref.namespace, self.ns())
    }

    /// The namespace inside the cluster, called like that of the resource by
    /// default.
    pub open spec fn surreal_ns(self) -> Seq<char> {
        text::text_or(self.spec.db_namespace, self.ns())
    }

    /// The name of the database inside the cluster, that of the resource by
    /// default.
    pub open spec fn surreal_db(self) -> Seq<char> {
        text::text_or(self.spec.db_name, self.metadata.name->0)
    }

    /// The call that sets phase and message.
    pub open spec fn phase_request(self, phase: DbPhase, message: Option<Seq<char>>) -> ApiRequestView {
        ApiRequestView::PatchDatabaseStatus {
            namespace: self.ns(),
            name: self.name_any(),
            phase,
            message,
        }
    }

    /// A failure, with what was attempted.
    pub open spec fn failure(self, attempt: Seq<char>, error: ErrorView) -> FlowView<DbStepView> {
        FlowView::Ask {
            step: DbStepView::Failed,
            request: self.phase_request(DbPhase::Error, Some(attempt + error.message())),
        }
    }

    /// The namespace is defined.
    pub open spec fn namespace_definition(
        self,
        user: Seq<char>,
        password: Seq<char>,
    ) -> FlowView<DbStepView> {
        match sql::sql_request_outcome(
            self.cluster_ns(),
            self.spec.cluster_ref.name,
            Some((user, password)),
            sql::namespace_statement(self.surreal_ns()),
        ) {
            Ok(request) => FlowView::Ask {
                step: DbStepView::Namespace { user, password },
                request: ApiRequestView::PostSql { request },
            },
            Err(e) => self.failure("namespace define failed: "@, e),
        }
    }

    /// The database is defined.
    pub open spec fn database_definition(
        self,
        user: Seq<char>,
        password: Seq<char>,
    ) -> FlowView<DbStepView> {
        match sql::sql_request_outcome(
            self.cluster_ns(),
            self.spec.cluster_ref.name,
            Some((user, password)),
            sql::database_statement(self.surreal_ns(), self.surreal_db()),
        ) {
            Ok(request) => FlowView::Ask {
                step: DbStepView::Database,
                request: ApiRequestView::PostSql { request },
            },
            Err(e) => self.failure("database define failed: "@, e),
        }
    }

    /// How a pass starts.
    pub open spec fn start(self) -> FlowView<DbStepView> {
        match self.phase() {
            DbPhase::New | DbPhase::InProgress => FlowView::Ask {
                step: DbStepView::Cluster,
                request: ApiRequestView::GetCluster {
                    namespace: self.cluster_ns(),
                    name: self.spec.cluster_ref.name,
                },
            },
            DbPhase::Ready => FlowView::requeue(120),
            DbPhase::Error => FlowView::requeue(30),
        }
    }

    /// How a pass goes on with the answer that a step waited for.
    pub open spec fn next(self, step: DbStepView, reply: ApiReplyView) -> FlowView<DbStepView> {
        match step {
            DbStepView::Cluster => match credentials::secret_request(self.cluster_ns(), reply) {
                Ok(request) => FlowView::Ask { step: DbStepView::Secret, request },
                Err(e) => FlowView::Done { outcome: Err(e) },
            },
            DbStepView::Secret => match credentials::credentials_of(reply) {
                Ok((user, password)) => self.namespace_definition(user, password),
                Err(e) => FlowView::Done { outcome: Err(e) },
            },
            DbStepView::Namespace { user, password } => match reply {
                ApiReplyView::Failed { error } => self.failure(
                    "namespace define failed: "@,
                    ErrorView::KubeError(error),
                ),
                _ => self.database_definition(user, password),
            },
            DbStepView::Database => match reply {
                ApiReplyView::Failed { error } => self.failure(
                    "database define failed: "@,
                    ErrorView::KubeError(error),
                ),
                _ => FlowView::Ask {
                    step: DbStepView::Settled,
                    request: self.phase_request(DbPhase::Ready, None),
                },
            },
            DbStepView::Failed => FlowView::requeue(20),
            DbStepView::Settled => FlowView::requeue(60),
        }
    }
}

impl Database {
    /// The name of the resource.
    pub fn name_any(&self) -> (r: String)
        ensures
            r@ == self.deep_view().name_any(),
    {
        self.metadata.name_any()
    }

    /// The phase of the database, `New` where there is none yet.
    pub fn current_phase(&self) -> (r: DbPhase)
        ensures
            r == self.deep_view().phase(),
    {
        match &self.status {
            Some(status) => match status.phase {
                Some(phase) => phase,
                None => DbPhase::New,
            },
            None => DbPhase::New,
        }
    }

    /// The namespace of the resource.
    pub fn namespace(&self) -> (r: String)
        requires
            self.metadata.namespace is Some,
        ensures
            r@ == self.deep_view().ns(),
    {
        self.metadata.namespace.as_ref().unwrap().clone()
    }

    /// The namespace of the cluster.
    fn cluster_namespace(&self) -> (r: String)
        requires
            self.metadata.namespace is Some,
        ensures
            r@ == self.deep_view().cluster_ns(),
    {
        let ns = self.namespace();
        text_or_else(&self.spec.cluster_ref.namespace, ns.as_str())
    }

    /// The call that sets phase and message.
    pub fn set_phase_msg(&self, phase: DbPhase, message: Option<String>) -> (r: ApiRequest)
        requires
            self.metadata.namespace is Some,
        ensures
            r.deep_view() == self.deep_view().phase_request(phase, message.deep_view()),
    {
        ApiRequest::PatchDatabaseStatus {
            namespace: self.namespace(),
            name: self.name_any(),
            phase,
            message,
        }
    }

    /// Writes a failure down, with what was attempted.
    fn fail(&self, attempt: &str, error: Error) -> (r: Flow<DbStep>)
        requires
            self.metadata.namespace is Some,
        ensures
            r.deep_view() == self.deep_view().failure(attempt@, error.deep_view()),
    {
        let reason = error.message();
        Flow::Ask {
            step: DbStep::Failed,
            request: self.set_phase_msg(DbPhase::Error, Some(joined(attempt, reason.as_str()))),
        }
    }

    /// Reads the root credentials out of the secret, and defines the namespace
    /// with them.
    fn get_root_credentials(&self, reply: ApiReply) -> (r: Flow<DbStep>)
        requires
            self.metadata.namespace is Some,
        ensures
            r.deep_view() == self.deep_view().next(DbStepView::Secret, reply.deep_view()),
    {
        match read_credentials(reply) {
            Ok((user, password)) => self.ensure_surreal_namespace(user, password),
            Err(e) => Flow::Done { outcome: Err(e) },
        }
    }

    /// Defines the namespace.
    pub fn ensure_surreal_namespace(&self, user: String, password: String) -> (r: Flow<DbStep>)
        requires
            self.metadata.namespace is Some,
        ensures
            r.deep_view() == self.deep_view().namespace_definition(user@, password@),
    {
        let ns = self.namespace();
        let cluster_ns = self.cluster_namespace();
        let surreal_ns = text_or_else(&self.spec.db_namespace, ns.as_str());
        let statement = define_namespace(surreal_ns.as_str());
        match sql_request(
            cluster_ns.as_str(),
            self.spec.cluster_ref.name.as_str(),
            Some((user.as_str(), password.as_str())),
            statement.as_str(),
        ) {
            Ok(request) => Flow::Ask {
                step: DbStep::Namespace { user, password },
                request: ApiRequest::PostSql { request },
            },
            Err(e) => self.fail("namespace define failed: ", e),
        }
    }

    /// Defines the database.
    pub fn ensure_surreal_database(&self, user: &str, password: &str) -> (r: Flow<DbStep>)
        requires
            self.metadata.namespace is Some,
            self.metadata.name is Some,
        ensures
            r.deep_view() == self.deep_view().database_definition(user@, password@),
    {
        let ns = self.namespace();
        let cluster_ns = self.cluster_namespace();
        let surreal_ns = text_or_else(&self.spec.db_namespace, ns.as_str());
        let own_name = self.metadata.name.as_ref().unwrap();
        let surreal_db = text_or_else(&self.spec.db_name, own_name.as_str());
        let statement = define_database(surreal_ns.as_str(), surreal_db.as_str());
        match sql_request(
            cluster_ns.as_str(),
            self.spec.cluster_ref.name.as_str(),
            Some((user, password)),
            statement.as_str(),
        ) {
            Ok(request) => Flow::Ask {
                step: DbStep::Database,
                request: ApiRequest::PostSql { request },
            },
            Err(e) => self.fail("database define failed: ", e),
        }
    }

    /// Starts a pass over the database.
    pub fn reconcile(&self) -> (r: Flow<DbStep>)
        requires
            self.metadata.namespace is Some,
        ensures
            r.deep_view() == self.deep_view().start(),
    {
        match self.current_phase() {
            DbPhase::New | DbPhase::InProgress => Flow::Ask {
                step: DbStep::Cluster,
                request: ApiRequest::GetCluster {
                    namespace: self.cluster_namespace(),
                    name: self.spec.cluster_ref.name.clone(),
                },
            },
            DbPhase::Ready => Flow::requeue(120),
            DbPhase::Error => Flow::requeue(30),
        }
    }

    /// Goes on with a pass over the database, with the answer that a step
    /// waited for.
    pub fn resume(&self, step: DbStep, reply: ApiReply) -> (r: Flow<DbStep>)
        requires
            self.metadata.namespace is Some,
            reply.deep_view().fits(step.deep_view().awaited()),
            step is Namespace && !(reply is Failed) ==> self.metadata.name is Some,
        ensures
            r.deep_view() == self.deep_view().next(step.deep_view(), reply.deep_view()),
    {
        match step {
            DbStep::Cluster => {
                let cluster_ns = self.cluster_namespace();
                match ask_for_secret(cluster_ns.as_str(), reply) {
                    Ok(request) => Flow::Ask { step: DbStep::Secret, request },
                    Err(e) => Flow::Done { outcome: Err(e) },
                }
            },
            DbStep::Secret => self.get_root_credentials(reply),
            DbStep::Namespace { user, password } => match reply {
                ApiReply::Failed { error } => self.fail(
                    "namespace define failed: ",
                    Error::KubeError(error),
                ),
                _ => self.ensure_surreal_database(user.as_str(), password.as_str()),
            },
            DbStep::Database => match reply {
                ApiReply::Failed { error } => self.fail(
                    "database define failed: ",
                    Error::KubeError(error),
                ),
                _ => Flow::Ask {
                    step: DbStep::Settled,
                    request: self.set_phase_msg(DbPhase::Ready, None),
                },
            },
            DbStep::Failed => Flow::requeue(20),
            DbStep::Settled => Flow::requeue(60),
        }
    }

    /// Cleans up after a database, whose data is left alone.
    pub fn cleanup(&self) -> (r: Action)
        ensures
            r == Action::AwaitChange,
    {
        Action::AwaitChange
    }
}

/// When to look again at a database whose pass failed.
pub fn error_policy(_error: &Error) -> (r: Action)
    ensures
        r == (Action::Requeue { seconds: 60 }),
{
    Action::Requeue { seconds: 60 }
}

/// The view of a `DbStep` shows all that it holds.
pub proof fn law_view_shows_db_step(x: &DbStep)
    ensures
        match x {
            DbStep::Cluster => x.deep_view() == (DbStepView::Cluster),
            DbStep::Secret => x.deep_view() == (DbStepView::Secret),
            DbStep::Namespace { user, password } => x.deep_view() == (DbStepView::Namespace {
                user: user@,
                password: password@,
            }),
            DbStep::Database => x.deep_view() == (DbStepView::Database),
            DbStep::Failed => x.deep_view() == (DbStepView::Failed),
            DbStep::Settled => x.deep_view() == (DbStepView::Settled),
        },
{
}

} // verus!
