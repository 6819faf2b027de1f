//! Databases to try things out with, and a stand-in for the API server that
//! plays a scenario.
use crate::api::{ApiReply, ApiReplyView, ApiRequest, ApiRequestView};
use crate::cluster::crd::{Cluster, ClusterView, Spec, SpecView};
use crate::database::crd::{
    ClusterRef, ClusterRefView, Database, DatabaseView, DbPhase, DbSpec, DbSpecView, DbStatus,
};
use crate::database::reconcile::DATABASE_FINALIZER;
use crate::error::{KubeError, KubeErrorView, SourceError, SourceErrorView};
use crate::mock::{
    self, finalizers_added, is_plain_text, is_post_to, make_root_data, read_body, Incoming,
    IncomingView,
};
use crate::objects::{ObjectMetaView, SecretReference, SecretReferenceView};
use crate::sql::{self, proxy_sql_path};
use crate::text::{self, same_text, text_holds, text_or_else, text_starts_with};
use vstd::prelude::*;

verus! {

/// How the refusal of a namespace displays.
pub const NAMESPACE_REFUSED: &'static str = "ApiError: \"{\\\"err\\\":\\\"bad ns\\\"}\": Failed to parse error data (ErrorResponse { status: \"400 Bad Request\", message: \"\\\"{\\\\\\\"err\\\\\\\":\\\\\\\"bad ns\\\\\\\"}\\\"\", reason: \"Failed to parse error data\", code: 400 })";

/// How the refusal of a namespace prints for debugging.
pub const NAMESPACE_REFUSED_DEBUG: &'static str = "Api(ErrorResponse { status: \"400 Bad Request\", message: \"\\\"{\\\\\\\"err\\\\\\\":\\\\\\\"bad ns\\\\\\\"}\\\"\", reason: \"Failed to parse error data\", code: 400 })";

/// How the refusal of a database displays.
pub const DATABASE_REFUSED: &'static str = "ApiError: \"{\\\"err\\\":\\\"bad db\\\"}\": Failed to parse error data (ErrorResponse { status: \"400 Bad Request\", message: \"\\\"{\\\\\\\"err\\\\\\\":\\\\\\\"bad db\\\\\\\"}\\\"\", reason: \"Failed to parse error data\", code: 400 })";

/// How the refusal of a database prints for debugging.
pub const DATABASE_REFUSED_DEBUG: &'static str = "Api(ErrorResponse { status: \"400 Bad Request\", message: \"\\\"{\\\\\\\"err\\\\\\\":\\\\\\\"bad db\\\\\\\"}\\\"\", reason: \"Failed to parse error data\", code: 400 })";

impl DatabaseView {
    /// A database to try things out with.
    pub open spec fn test() -> DatabaseView {
        DatabaseView {
            metadata: ObjectMetaView {
                name: Some("test-db"@),
                namespace: Some("default"@),
                uid: Some("1111-11-11-11-111111"@),
                ..ObjectMetaView::empty()
            },
            spec: DbSpecView {
                cluster_ref: ClusterRefView { name: "test"@, namespace: None },
                db_namespace: None,
                db_name: Some("app"@),
            },
            status: None,
        }
    }
}

impl Database {
    /// The database with its finalizer.
    pub fn finalized(self) -> (r: Database)
        ensures
            r.deep_view() == (DatabaseView {
                metadata: self.deep_view().metadata.with_finalizer(DATABASE_FINALIZER@),
                ..self.deep_view()
            }),
    {
        Database { metadata: self.metadata.with_finalizer(DATABASE_FINALIZER), ..self }
    }

    /// A database to try things out with.
    pub fn test() -> (r: Database)
        ensures
            r.deep_view() == DatabaseView::test(),
    {
        let mut r = Database::new(
            "test-db",
            DbSpec {
                cluster_ref: ClusterRef { name: "test".to_string(), namespace: None },
                db_namespace: None,
                db_name: Some("app".to_string()),
            },
        );
        r.metadata.namespace = Some("default".to_string());
        r.metadata.uid = Some("1111-11-11-11-111111".to_string());
        r
    }

    /// The database with a status.
    pub fn with_status(self, status: DbStatus) -> (r: Database)
        ensures
            r.deep_view() == (DatabaseView {
                status: Some(status.deep_view()),
                ..self.deep_view()
            }),
    {
        Database { status: Some(status), ..self }
    }

    /// The database on a cluster in another namespace.
    pub fn with_cluster_ref_ns(self, ns: &str) -> (r: Database)
        ensures
            r.deep_view() == (DatabaseView {
                spec: DbSpecView {
                    cluster_ref: ClusterRefView {
                        namespace: Some(ns@),
                        ..self.deep_view().spec.cluster_ref
                    },
                    ..self.deep_view().spec
                },
                ..self.deep_view()
            }),
    {
        let mut r = self;
        r.spec.cluster_ref.namespace = Some(ns.to_string());
        r
    }

    /// The database in another namespace inside the cluster.
    pub fn with_db_namespace(self, ns: &str) -> (r: Database)
        ensures
            r.deep_view() == (DatabaseView {
                spec: DbSpecView { db_namespace: Some(ns@), ..self.deep_view().spec },
                ..self.deep_view()
            }),
    {
        let mut r = self;
        r.spec.db_namespace = Some(ns.to_string());
        r
    }
}

/// What can be played.
#[derive(Debug)]
pub enum Scenario {
    /// Namespace and database are defined, and the database is ready.
    NewEnsuresNamespaceAndDatabase(Database),
    /// The same, on a cluster in another namespace.
    NewCrossNsEnsures(Database),
    /// The namespace is refused.
    NamespaceDefineError(Database),
    /// The database is refused.
    DatabaseDefineError(Database),
    /// A database without finalizer gets one.
    FinalizerCreation(Database),
}

/// One call that a scenario expects. Calls for the cluster go to a namespace
/// that may be set apart.
#[allow(inconsistent_fields)]
#[derive(Debug)]
pub enum Handler {
    GetCluster,
    GetSecretRoot { cluster_ns: String },
    ProxyDefineNamespace { cluster_ns: Option<String> },
    ProxyDefineNamespaceError,
    ProxyDefineDatabase { cluster_ns: Option<String> },
    ProxyDefineDatabaseError,
    StatusPatchPhase { phase: DbPhase },
    FinalizerCreation,
}

/// What a `Handler` holds.
#[allow(inconsistent_fields)]
#[verifier::ext_equal]
pub enum HandlerView {
    GetCluster,
    GetSecretRoot { cluster_ns: Seq<char> },
    ProxyDefineNamespace { cluster_ns: Option<Seq<char>> },
    ProxyDefineNamespaceError,
    ProxyDefineDatabase { cluster_ns: Option<Seq<char>> },
    ProxyDefineDatabaseError,
    StatusPatchPhase { phase: DbPhase },
    FinalizerCreation,
}

impl DeepView for Handler {
    type V = HandlerView;

    open spec fn deep_view(&self) -> HandlerView {
        match self {
            Handler::GetCluster => HandlerView::GetCluster,
            Handler::GetSecretRoot { cluster_ns } => HandlerView::GetSecretRoot {
                cluster_ns: cluster_ns@,
            },
            Handler::ProxyDefineNamespace { cluster_ns } => HandlerView::ProxyDefineNamespace {
                cluster_ns: cluster_ns.deep_view(),
            },
            Handler::ProxyDefineNamespaceError => HandlerView::ProxyDefineNamespaceError,
            Handler::ProxyDefineDatabase { cluster_ns } => HandlerView::ProxyDefineDatabase {
                cluster_ns: cluster_ns.deep_view(),
            },
            Handler::ProxyDefineDatabaseError => HandlerView::ProxyDefineDatabaseError,
            Handler::StatusPatchPhase { phase } => HandlerView::StatusPatchPhase { phase: *phase },
            Handler::FinalizerCreation => HandlerView::FinalizerCreation,
        }
    }
}

/// The cluster that a database is on, as the stand-in gives it.
pub open spec fn given_cluster(name: Seq<char>, ns: Seq<char>) -> ClusterView {
    ClusterView {
        metadata: ObjectMetaView {
            name: Some(name),
            namespace: Some(ns),
            ..ObjectMetaView::empty()
        },
        spec: SpecView {
            root_secret: Some(
                SecretReferenceView { name: Some("surreal-root"@), namespace: Some(ns) },
            ),
            ..SpecView::empty()
        },
        status: None,
    }
}

/// Gives the cluster that something is on.
pub fn give_cluster(name: &str, ns: &str) -> (r: Cluster)
    ensures
        r.deep_view() == given_cluster(name@, ns@),
{
    let mut r = Cluster::new(name, Spec::default());
    r.metadata.namespace = Some(ns.to_string());
    r.spec.root_secret = Some(
        SecretReference { name: Some("surreal-root".to_string()), namespace: Some(ns.to_string()) },
    );
    r
}

impl HandlerView {
    /// The path of the endpoint that a statement is expected at.
    pub open spec fn endpoint(db: DatabaseView, cluster_ns: Option<Seq<char>>) -> Seq<char> {
        sql::sql_path(text::text_or(cluster_ns, db.cluster_ns()), db.spec.cluster_ref.name)
    }

    /// A call is the expected one.
    pub open spec fn accepts(self, db: DatabaseView, request: ApiRequestView) -> bool {
        match self {
            HandlerView::GetCluster => {
                &&& request matches ApiRequestView::GetCluster { namespace, name }
                &&& namespace == db.cluster_ns()
                &&& text::part_at(name, db.spec.cluster_ref.name, 0)
            },
            HandlerView::GetSecretRoot { cluster_ns } => {
                &&& request matches ApiRequestView::GetSecret { namespace, name }
                &&& namespace == cluster_ns
                &&& text::part_at(name, "surreal-root"@, 0)
            },
            HandlerView::ProxyDefineNamespace { cluster_ns } => {
                &&& request matches ApiRequestView::PostSql { request }
                &&& mock::posts_to(request, Self::endpoint(db, cluster_ns))
                &&& mock::says_plain_text(request)
                &&& mock::body_text(request) matches Some(body)
                &&& text::part_at(body, "DEFINE NAMESPACE "@, 0)
            },
            HandlerView::ProxyDefineNamespaceError => {
                &&& request matches ApiRequestView::PostSql { request }
                &&& mock::posts_to(request, Self::endpoint(db, None))
            },
            HandlerView::ProxyDefineDatabase { cluster_ns } => {
                &&& request matches ApiRequestView::PostSql { request }
                &&& mock::posts_to(request, Self::endpoint(db, cluster_ns))
                &&& mock::body_text(request) matches Some(body)
                &&& text::holds(body, "USE NS `"@)
                &&& text::holds(body, "DEFINE DATABASE `"@)
            },
            HandlerView::ProxyDefineDatabaseError => {
                &&& request matches ApiRequestView::PostSql { request }
                &&& mock::posts_to(request, Self::endpoint(db, None))
            },
            HandlerView::StatusPatchPhase { phase } => {
                &&& request matches ApiRequestView::PatchDatabaseStatus {
                    namespace,
                    name,
                    phase: set,
                    ..
                }
                &&& namespace == db.ns()
                &&& name == db.name_any()
                &&& set == phase
            },
            HandlerView::FinalizerCreation => false,
        }
    }

    /// The answer to the expected call.
    pub open spec fn reply(self, db: DatabaseView) -> ApiReplyView {
        match self {
            HandlerView::GetCluster => ApiReplyView::Cluster {
                cluster: given_cluster(db.spec.cluster_ref.name, db.cluster_ns()),
            },
            HandlerView::GetSecretRoot { .. } => ApiReplyView::Secret {
                data: Some(mock::root_data()),
            },
            HandlerView::ProxyDefineNamespaceError => ApiReplyView::Failed {
                error: KubeErrorView {
                    code: Some(400u16),
                    source: SourceErrorView {
                        display: NAMESPACE_REFUSED@,
                        debug: NAMESPACE_REFUSED_DEBUG@,
                    },
                },
            },
            HandlerView::ProxyDefineDatabaseError => ApiReplyView::Failed {
                error: KubeErrorView {
                    code: Some(400u16),
                    source: SourceErrorView {
                        display: DATABASE_REFUSED@,
                        debug: DATABASE_REFUSED_DEBUG@,
                    },
                },
            },
            HandlerView::FinalizerCreation => ApiReplyView::Database { database: db },
            _ => ApiReplyView::Accepted,
        }
    }

    /// What comes of something that is sent: the answer, or nothing where it is
    /// not what is expected.
    pub open spec fn answer(self, db: DatabaseView, incoming: IncomingView) -> Option<
        ApiReplyView,
    > {
        let fits = match incoming {
            IncomingView::Call { request } => self.accepts(db, request),
            IncomingView::Finalizers { namespace, name, operations } => self is FinalizerCreation
                && namespace == db.ns() && name == db.name_any() && mock::add_finalizers(
                operations,
            ),
        };
        if fits {
            Some(self.reply(db))
        } else {
            None
        }
    }
}

/// A scenario that is being played.
#[derive(Debug)]
pub struct Script {
    pub database: Database,
    pub handlers: Vec<Handler>,
}

/// What a `Script` holds.
#[verifier::ext_equal]
pub struct ScriptView {
    pub database: DatabaseView,
    pub handlers: Seq<HandlerView>,
}

impl DeepView for Script {
    type V = ScriptView;

    open spec fn deep_view(&self) -> ScriptView {
        ScriptView { database: self.database.deep_view(), handlers: self.handlers.deep_view() }
    }
}

/// The calls by which a database becomes ready.
pub open spec fn ready_script(secret_ns: Seq<char>, cluster_ns: Option<Seq<char>>) -> Seq<
    HandlerView,
> {
    seq![
        HandlerView::GetCluster,
        HandlerView::GetSecretRoot { cluster_ns: secret_ns },
        HandlerView::ProxyDefineNamespace { cluster_ns },
        HandlerView::ProxyDefineDatabase { cluster_ns },
        HandlerView::StatusPatchPhase { phase: DbPhase::Ready },
    ]
}

/// The script of a scenario.
pub open spec fn script_of(scenario: Scenario) -> ScriptView {
    match scenario {
        Scenario::NewEnsuresNamespaceAndDatabase(database) => ScriptView {
            database: database.deep_view(),
            handlers: ready_script("default"@, None),
        },
        Scenario::NewCrossNsEnsures(database) => {
            let cluster_ns = text::text_or(
                database.deep_view().spec.cluster_ref.namespace,
                "default"@,
            );
            ScriptView {
                database: database.deep_view(),
                handlers: ready_script(cluster_ns, Some(cluster_ns)),
            }
        },
        Scenario::NamespaceDefineError(database) => ScriptView {
            database: database.deep_view(),
            handlers: seq![
                HandlerView::GetCluster,
                HandlerView::GetSecretRoot { cluster_ns: "default"@ },
                HandlerView::ProxyDefineNamespaceError,
            ],
        },
        Scenario::DatabaseDefineError(database) => ScriptView {
            database: database.deep_view(),
            handlers: seq![
                HandlerView::GetCluster,
                HandlerView::GetSecretRoot { cluster_ns: "default"@ },
                HandlerView::ProxyDefineNamespace { cluster_ns: None },
                HandlerView::ProxyDefineDatabaseError,
            ],
        },
        Scenario::FinalizerCreation(database) => ScriptView {
            database: database.deep_view(),
            handlers: seq![HandlerView::FinalizerCreation],
        },
    }
}

/// A stand-in for the API server that has yet to be given a scenario.
#[derive(Debug)]
pub struct ApiServerVerifier;

/// Where the stand-ins come from.
#[derive(Debug)]
pub struct DbContextMock;

impl DbContextMock {
    /// A stand-in for the API server.
    pub fn test() -> (r: ApiServerVerifier)
        ensures
            r == ApiServerVerifier,
    {
        ApiServerVerifier
    }
}

impl ApiServerVerifier {
    /// Plays a scenario.
    pub fn run(self, scenario: Scenario) -> (r: Script)
        ensures
            r.deep_view() == script_of(scenario),
    {
        let mut handlers: Vec<Handler> = Vec::new();
        handlers.push(Handler::GetCluster);
        let database = match scenario {
            Scenario::NewEnsuresNamespaceAndDatabase(database) => {
                handlers.push(Handler::GetSecretRoot { cluster_ns: "default".to_string() });
                handlers.push(Handler::ProxyDefineNamespace { cluster_ns: None });
                handlers.push(Handler::ProxyDefineDatabase { cluster_ns: None });
                handlers.push(Handler::StatusPatchPhase { phase: DbPhase::Ready });
                database
            },
            Scenario::NewCrossNsEnsures(database) => {
                let ns = text_or_else(&database.spec.cluster_ref.namespace, "default");
                handlers.push(Handler::GetSecretRoot { cluster_ns: ns.clone() });
                handlers.push(Handler::ProxyDefineNamespace { cluster_ns: Some(ns.clone()) });
                handlers.push(Handler::ProxyDefineDatabase { cluster_ns: Some(ns) });
                handlers.push(Handler::StatusPatchPhase { phase: DbPhase::Ready });
                database
            },
            Scenario::NamespaceDefineError(database) => {
                handlers.push(Handler::GetSecretRoot { cluster_ns: "default".to_string() });
                handlers.push(Handler::ProxyDefineNamespaceError);
                database
            },
            Scenario::DatabaseDefineError(database) => {
                handlers.push(Handler::GetSecretRoot { cluster_ns: "default".to_string() });
                handlers.push(Handler::ProxyDefineNamespace { cluster_ns: None });
                handlers.push(Handler::ProxyDefineDatabaseError);
                database
            },
            Scenario::FinalizerCreation(database) => {
                handlers.clear();
                handlers.push(Handler::FinalizerCreation);
                database
            },
        };
        assert(handlers.deep_view() =~= script_of(scenario).handlers);
        Script { database, handlers }
    }
}

impl Script {
    /// The namespace of the cluster that a call is expected to go to.
    fn cluster_ns(&self, set_apart: &Option<String>) -> (r: String)
        requires
            self.database.metadata.namespace is Some,
        ensures
            r@ == text::text_or(set_apart.deep_view(), self.database.deep_view().cluster_ns()),
    {
        match set_apart {
            Some(ns) => ns.clone(),
            None => {
                let own_ns = self.database.namespace();
                text_or_else(&self.database.spec.cluster_ref.namespace, own_ns.as_str())
            },
        }
    }

    /// Whether a call is a post to the endpoint of the cluster.
    fn is_statement(&self, request: &ApiRequest, set_apart: &Option<String>) -> (r: bool)
        requires
            self.database.metadata.namespace is Some,
        ensures
            r == (request.deep_view() matches ApiRequestView::PostSql { request }
                && mock::posts_to(
                request,
                HandlerView::endpoint(self.database.deep_view(), set_apart.deep_view()),
            )),
    {
        let ns = self.cluster_ns(set_apart);
        let expected = proxy_sql_path(ns.as_str(), self.database.spec.cluster_ref.name.as_str());
        match request {
            ApiRequest::PostSql { request } => is_post_to(request, expected.as_str()),
            _ => false,
        }
    }

    /// Expects a question for the cluster.
    fn handle_get_cluster(&self, request: &ApiRequest) -> (r: bool)
        requires
            self.database.metadata.namespace is Some,
        ensures
            r == HandlerView::GetCluster.accepts(self.database.deep_view(), request.deep_view()),
    {
        let ns = self.cluster_ns(&None);
        match request {
            ApiRequest::GetCluster { namespace, name } => same_text(
                namespace.as_str(),
                ns.as_str(),
            ) && text_starts_with(name.as_str(), self.database.spec.cluster_ref.name.as_str()),
            _ => false,
        }
    }

    /// Expects a question for the root credentials.
    fn handle_get_secret_root(&self, request: &ApiRequest, cluster_ns: &str) -> (r: bool)
        ensures
            r == (HandlerView::GetSecretRoot { cluster_ns: cluster_ns@ }).accepts(
                self.database.deep_view(),
                request.deep_view(),
            ),
    {
        match request {
            ApiRequest::GetSecret { namespace, name } => same_text(namespace.as_str(), cluster_ns)
                && text_starts_with(name.as_str(), "surreal-root"),
            _ => false,
        }
    }

    /// Expects the definition of the namespace.
    fn handle_proxy_define_namespace(
        &self,
        request: &ApiRequest,
        cluster_ns: &Option<String>,
    ) -> (r: bool)
        requires
            self.database.metadata.namespace is Some,
        ensures
            r == (HandlerView::ProxyDefineNamespace { cluster_ns: cluster_ns.deep_view() }).accepts(
                self.database.deep_view(),
                request.deep_view(),
            ),
    {
        let at_endpoint = self.is_statement(request, cluster_ns);
        match request {
            ApiRequest::PostSql { request } => {
                let body_fits = match read_body(request) {
                    Some(body) => text_starts_with(body.as_str(), "DEFINE NAMESPACE "),
                    None => false,
                };
                at_endpoint && is_plain_text(request) && body_fits
            },
            _ => false,
        }
    }

    /// Expects the definition of the database.
    fn handle_proxy_define_database(
        &self,
        request: &ApiRequest,
        cluster_ns: &Option<String>,
    ) -> (r: bool)
        requires
            self.database.metadata.namespace is Some,
        ensures
            r == (HandlerView::ProxyDefineDatabase { cluster_ns: cluster_ns.deep_view() }).accepts(
                self.database.deep_view(),
                request.deep_view(),
            ),
    {
        let at_endpoint = self.is_statement(request, cluster_ns);
        match request {
            ApiRequest::PostSql { request } => {
                let body_fits = match read_body(request) {
                    Some(body) => text_holds(body.as_str(), "USE NS `") && text_holds(
                        body.as_str(),
                        "DEFINE DATABASE `",
                    ),
                    None => false,
                };
                at_endpoint && body_fits
            },
            _ => false,
        }
    }

    /// Expects a phase to be set.
    fn handle_status_patch_phase(&self, request: &ApiRequest, phase: DbPhase) -> (r: bool)
        requires
            self.database.metadata.namespace is Some,
        ensures
            r == (HandlerView::StatusPatchPhase { phase }).accepts(
                self.database.deep_view(),
                request.deep_view(),
            ),
    {
        let own_ns = self.database.namespace();
        let own_name = self.database.name_any();
        match request {
            ApiRequest::PatchDatabaseStatus { namespace, name, phase: set, .. } => *set == phase
                && same_text(namespace.as_str(), own_ns.as_str()) && same_text(
                name.as_str(),
                own_name.as_str(),
            ),
            _ => false,
        }
    }

    /// Whether a call is the one that a handler expects.
    fn expects(&self, handler: &Handler, request: &ApiRequest) -> (r: bool)
        requires
            self.database.metadata.namespace is Some,
        ensures
            r == handler.deep_view().accepts(self.database.deep_view(), request.deep_view()),
    {
        match handler {
            Handler::GetCluster => self.handle_get_cluster(request),
            Handler::GetSecretRoot { cluster_ns } => self.handle_get_secret_root(
                request,
                cluster_ns.as_str(),
            ),
            Handler::ProxyDefineNamespace { cluster_ns } => self.handle_proxy_define_namespace(
                request,
                cluster_ns,
            ),
            Handler::ProxyDefineNamespaceError => self.is_statement(request, &None),
            Handler::ProxyDefineDatabase { cluster_ns } => self.handle_proxy_define_database(
                request,
                cluster_ns,
            ),
            Handler::ProxyDefineDatabaseError => self.is_statement(request, &None),
            Handler::StatusPatchPhase { phase } => self.handle_status_patch_phase(request, *phase),
            Handler::FinalizerCreation => false,
        }
    }

    /// The answer of a handler to the call that it expects.
    fn reply(&self, handler: &Handler) -> (r: ApiReply)
        requires
            self.database.metadata.namespace is Some,
        ensures
            r.deep_view() == handler.deep_view().reply(self.database.deep_view()),
    {
        match handler {
            Handler::GetCluster => {
                let ns = self.cluster_ns(&None);
                ApiReply::Cluster {
                    cluster: give_cluster(
                        self.database.spec.cluster_ref.name.as_str(),
                        ns.as_str(),
                    ),
                }
            },
            Handler::GetSecretRoot { .. } => ApiReply::Secret { data: Some(make_root_data()) },
            Handler::ProxyDefineNamespaceError => ApiReply::Failed {
                error: KubeError {
                    code: Some(400),
                    source: SourceError {
                        display: NAMESPACE_REFUSED.to_string(),
                        debug: NAMESPACE_REFUSED_DEBUG.to_string(),
                    },
                },
            },
            Handler::ProxyDefineDatabaseError => ApiReply::Failed {
                error: KubeError {
                    code: Some(400),
                    source: SourceError {
                        display: DATABASE_REFUSED.to_string(),
                        debug: DATABASE_REFUSED_DEBUG.to_string(),
                    },
                },
            },
            Handler::FinalizerCreation => ApiReply::Database { database: self.database.clone() },
            _ => ApiReply::Accepted,
        }
    }

    /// Takes something that is sent: answers and goes on to the next call where
    /// it is what is expected, and does neither otherwise.
    pub fn handle(&mut self, incoming: &Incoming) -> (r: Option<ApiReply>)
        requires
            old(self).database.metadata.namespace is Some,
        ensures
            ({
                let before = old(self).deep_view();
                let answer = before.handlers[0].answer(before.database, incoming.deep_view());
                if before.handlers.len() > 0 && answer is Some {
                    &&& r.deep_view() == answer
                    &&& final(self).deep_view() == (ScriptView {
                        handlers: before.handlers.drop_first(),
                        ..before
                    })
                } else {
                    r is None && final(self).deep_view() == before
                }
            }),
    {
        if self.handlers.len() == 0 {
            return None;
        }
        let ghost before = self.deep_view();
        assert(before.handlers[0] == self.handlers@[0].deep_view());
        let answer = {
            let handler = &self.handlers[0];
            let fits = match incoming {
                Incoming::Call { request } => self.expects(handler, request),
                Incoming::Finalizers { namespace, name, operations } => match handler {
                    Handler::FinalizerCreation => {
                        let own_ns = self.database.namespace();
                        let own_name = self.database.name_any();
                        same_text(namespace.as_str(), own_ns.as_str()) && same_text(
                            name.as_str(),
                            own_name.as_str(),
                        ) && finalizers_added(operations)
                    },
                    _ => false,
                },
            };
            if fits {
                Some(self.reply(handler))
            } else {
                None
            }
        };
        assert(answer.deep_view() == before.handlers[0].answer(
            before.database,
            incoming.deep_view(),
        ));
        if answer.is_some() {
            self.handlers.remove(0);
            assert(self.handlers.deep_view() =~= before.handlers.drop_first());
        }
        answer
    }

    /// Whether all that was expected has come.
    pub fn finished(&self) -> (r: bool)
        ensures
            r == (self.deep_view().handlers.len() == 0),
    {
        self.handlers.len() == 0
    }
}

/// The view of a `Handler` shows all that it holds.
pub proof fn law_view_shows_handler(x: &Handler)
    ensures
        match x {
            Handler::GetCluster => x.deep_view() == (HandlerView::GetCluster),
            Handler::GetSecretRoot { cluster_ns } => x.deep_view() == (HandlerView::GetSecretRoot {
                cluster_ns: cluster_ns@,
            }),
            Handler::ProxyDefineNamespace { cluster_ns } => x.deep_view() == (
            HandlerView::ProxyDefineNamespace {
                cluster_ns: cluster_ns.deep_view(),
            }),
            Handler::ProxyDefineNamespaceError => x.deep_view() == (
            HandlerView::ProxyDefineNamespaceError),
            Handler::ProxyDefineDatabase { cluster_ns } => x.deep_view() == (
            HandlerView::ProxyDefineDatabase {
                cluster_ns: cluster_ns.deep_view(),
            }),
            Handler::ProxyDefineDatabaseError => x.deep_view() == (
            HandlerView::ProxyDefineDatabaseError),
            Handler::StatusPatchPhase { phase } => x.deep_view() == (
            HandlerView::StatusPatchPhase { phase: *phase }),
            Handler::FinalizerCreation => x.deep_view() == (HandlerView::FinalizerCreation),
        },
{
}

/// The view of a `Script` shows all that it holds.
pub proof fn law_view_shows_script(x: Script)
    ensures
        x.deep_view().database == x.database.deep_view(),
        x.deep_view().handlers == x.handlers.deep_view(),
{
}

} // verus!
