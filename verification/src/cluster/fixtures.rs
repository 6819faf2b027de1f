//! Clusters to try things out with, and a stand-in for the API server that
//! plays a scenario: it expects certain calls in a certain order, and answers
//! each of them.
use crate::api::{ApiReply, ApiReplyView, ApiRequest, ApiRequestView, OwnedKind};
use crate::cluster::crd::{Cluster, ClusterView, Phase, Spec, SpecView, Status};
use crate::cluster::laws;
use crate::cluster::resources::{self, CLUSTER_FINALIZER, CLUSTER_KIND};
use crate::mock::{
    self, is_plain_text, is_post_to, make_root_data, read_body, HttpResponse, Incoming,
    IncomingView, PatchOperation, PatchOperationView, PatchValue, PatchValueView,
};
use crate::objects::{
    EnvVar, EnvVarView, ObjectMetaView, OwnerReference, OwnerReferenceView,
    SecretKeySelector, SecretKeySelectorView, SecretReference, SecretReferenceView, API_VERSION,
};
use crate::outside::{self, utc_timestamp};
use crate::sql::{self, proxy_sql_path};
use crate::text::{
    self, joined, same_text, text_holds, text_or_else, text_starts_with,
};
use vstd::prelude::*;

verus! {

/// The uid of the clusters here.
pub const TEST_UID: &'static str = "0000-00-00-00-000000";

impl ClusterView {
    /// A normal cluster to try things out with.
    pub open spec fn test() -> ClusterView {
        ClusterView {
            metadata: ObjectMetaView {
                name: Some("test"@),
                namespace: Some("default"@),
                uid: Some(TEST_UID@),
                ..ObjectMetaView::empty()
            },
            spec: SpecView::empty(),
            status: None,
        }
    }
}

impl Cluster {
    /// A normal cluster to try things out with.
    pub fn test() -> (r: Cluster)
        ensures
            r.deep_view() == ClusterView::test(),
    {
        let mut r = Cluster::new("test", Spec::default());
        r.metadata.namespace = Some("default".to_string());
        r.metadata.uid = Some(TEST_UID.to_string());
        r
    }

    /// The cluster with a time of deletion.
    pub fn needs_delete(self) -> (r: Cluster)
        ensures
            r.deep_view() == (ClusterView {
                metadata: ObjectMetaView {
                    deletion_timestamp: outside::utc_seconds(2017, 4, 2, 12, 50, 32),
                    ..self.deep_view().metadata
                },
                ..self.deep_view()
            }),
            r.metadata.deletion_timestamp is Some,
    {
        let mut r = self;
        r.metadata.deletion_timestamp = utc_timestamp(2017, 4, 2, 12, 50, 32);
        r
    }

    /// The cluster with a reference to root credentials.
    pub fn needs_root_credentials(self) -> (r: Cluster)
        ensures
            r.deep_view() == (ClusterView {
                spec: SpecView {
                    root_secret: Some(SecretReferenceView { name: Some("test"@), namespace: None }),
                    ..self.deep_view().spec
                },
                ..self.deep_view()
            }),
    {
        let mut r = self;
        r.spec.root_secret = Some(
            SecretReference { name: Some("test".to_string()), namespace: None },
        );
        r
    }

    /// The cluster with a reference to where its data lies.
    pub fn needs_tikv_secret_ref(self) -> (r: Cluster)
        ensures
            r.deep_view() == (ClusterView {
                spec: SpecView {
                    tikv_secret_ref: Some(
                        SecretKeySelectorView { key: "test"@, name: "test"@, optional: None },
                    ),
                    ..self.deep_view().spec
                },
                ..self.deep_view()
            }),
    {
        let mut r = self;
        r.spec.tikv_secret_ref = Some(
            SecretKeySelector { key: "test".to_string(), name: "test".to_string(), optional: None },
        );
        r
    }

    /// The cluster with its finalizer.
    pub fn finalized(self) -> (r: Cluster)
        ensures
            r.deep_view() == (ClusterView {
                metadata: self.deep_view().metadata.with_finalizer(CLUSTER_FINALIZER@),
                ..self.deep_view()
            }),
    {
        Cluster { metadata: self.metadata.with_finalizer(CLUSTER_FINALIZER), ..self }
    }

    /// The cluster with a status.
    pub fn with_status(self, status: Status) -> (r: Cluster)
        ensures
            r.deep_view() == (ClusterView {
                status: Some(status.deep_view()),
                ..self.deep_view()
            }),
    {
        Cluster { status: Some(status), ..self }
    }
}

/// What can be played.
#[derive(Debug)]
pub enum Scenario {
    /// A cluster without finalizer gets one, and nothing else happens.
    FinalizerCreation(Cluster),
    /// Nothing is called.
    RadioSilence,
    /// A cluster with a time of deletion is cleaned up, an event with a reason
    /// is sent, and the finalizer goes.
    Cleanup(String, Cluster),
    /// A new cluster is set to be in creation, and open servers are started.
    StatusPatchThenDeploymentAndServiceCreation(Cluster),
    /// A cluster in creation gets its root user, and is put to work.
    InCreationReadyThenBootstrapThenAuth(Cluster),
    /// Servers are started that ask for credentials.
    DeploymentAndServiceWithAuthEnv(Cluster),
    /// A new cluster gets root credentials before it is created.
    RootSecretCreationThenStatusAndDpSvc(Cluster),
}

/// One call that a scenario expects.
#[derive(Debug)]
pub enum Handler {
    FinalizerCreation,
    FinalizerRemoval,
    EventCreate { reason: String },
    GetOwned { kind: OwnedKind },
    DeleteOwned { kind: OwnedKind },
    StatusPatchPhase { phase: Phase },
    DeploymentApplyWithEnv { creation_mode: bool },
    ServiceApply,
    DeploymentGetReady,
    SecretGetRoot,
    BootstrapSql,
    SecretCreateAuto,
    RootSecretSpecPatch,
}

/// What a `Handler` holds.
#[verifier::ext_equal]
pub enum HandlerView {
    FinalizerCreation,
    FinalizerRemoval,
    EventCreate { reason: Seq<char> },
    GetOwned { kind: OwnedKind },
    DeleteOwned { kind: OwnedKind },
    StatusPatchPhase { phase: Phase },
    DeploymentApplyWithEnv { creation_mode: bool },
    ServiceApply,
    DeploymentGetReady,
    SecretGetRoot,
    BootstrapSql,
    SecretCreateAuto,
    RootSecretSpecPatch,
}

impl DeepView for Handler {
    type V = HandlerView;

    open spec fn deep_view(&self) -> HandlerView {
        match self {
            Handler::FinalizerCreation => HandlerView::FinalizerCreation,
            Handler::FinalizerRemoval => HandlerView::FinalizerRemoval,
            Handler::EventCreate { reason } => HandlerView::EventCreate { reason: reason@ },
            Handler::GetOwned { kind } => HandlerView::GetOwned { kind: *kind },
            Handler::DeleteOwned { kind } => HandlerView::DeleteOwned { kind: *kind },
            Handler::StatusPatchPhase { phase } => HandlerView::StatusPatchPhase { phase: *phase },
            Handler::DeploymentApplyWithEnv { creation_mode } => {
                HandlerView::DeploymentApplyWithEnv { creation_mode: *creation_mode }
            },
            Handler::ServiceApply => HandlerView::ServiceApply,
            Handler::DeploymentGetReady => HandlerView::DeploymentGetReady,
            Handler::SecretGetRoot => HandlerView::SecretGetRoot,
            Handler::BootstrapSql => HandlerView::BootstrapSql,
            Handler::SecretCreateAuto => HandlerView::SecretCreateAuto,
            Handler::RootSecretSpecPatch => HandlerView::RootSecretSpecPatch,
        }
    }
}

/// The environment of servers that let everyone in, or of servers that ask for
/// credentials, as far as a scenario looks at it.
pub open spec fn env_fits(env: Seq<EnvVarView>, creation_mode: bool) -> bool {
    if creation_mode {
        laws::sets(env, "SURREAL_UNAUTHENTICATED"@, "true"@) && !laws::names(
            env,
            "SURREAL_AUTH"@,
        )
    } else {
        laws::sets(env, "SURREAL_AUTH"@, "true"@) && laws::names(env, "SURREAL_PATH"@)
            && !laws::names(env, "SURREAL_UNAUTHENTICATED"@)
    }
}

/// A reference to a cluster as the owner of an object, as the stand-in gives it.
pub open spec fn given_owner(c: ClusterView) -> OwnerReferenceView {
    OwnerReferenceView {
        api_version: API_VERSION@,
        kind: CLUSTER_KIND@,
        name: c.name_any(),
        uid: TEST_UID@,
        controller: None,
    }
}

impl HandlerView {
    /// A call is the expected one.
    pub open spec fn accepts(self, c: ClusterView, request: ApiRequestView) -> bool {
        match self {
            HandlerView::FinalizerCreation => false,
            HandlerView::FinalizerRemoval => false,
            HandlerView::EventCreate { reason } => {
                request matches ApiRequestView::PublishEvent { event } && event.reason == reason
            },
            HandlerView::GetOwned { kind } => {
                &&& request matches ApiRequestView::GetOwners { kind: asked, namespace, name }
                &&& asked == kind
                &&& namespace == "default"@
                &&& text::part_at(name, c.owned_name(kind), 0)
            },
            HandlerView::DeleteOwned { kind } => {
                &&& request matches ApiRequestView::Delete { kind: asked, namespace, name, .. }
                &&& asked == kind
                &&& namespace == "default"@
                &&& name == c.owned_name(kind)
            },
            HandlerView::StatusPatchPhase { phase } => {
                &&& request matches ApiRequestView::PatchClusterStatus {
                    namespace,
                    name,
                    phase: set,
                }
                &&& namespace == "default"@
                &&& name == c.name_any()
                &&& set == phase
            },
            HandlerView::DeploymentApplyWithEnv { creation_mode } => {
                &&& request matches ApiRequestView::ApplyDeployment {
                    namespace,
                    name,
                    deployment,
                    ..
                }
                &&& namespace == "default"@
                &&& name == resources::surreal_name(c.name_any())
                &&& env_fits(deployment.container.env, creation_mode)
            },
            HandlerView::ServiceApply => {
                &&& request matches ApiRequestView::ApplyService { namespace, name, .. }
                &&& namespace == "default"@
                &&& name == resources::surreal_name(c.name_any())
            },
            HandlerView::DeploymentGetReady => {
                &&& request matches ApiRequestView::GetDeployment { namespace, name }
                &&& namespace == "default"@
                &&& text::part_at(name, resources::surreal_name(c.name_any()), 0)
            },
            HandlerView::SecretGetRoot => {
                &&& request matches ApiRequestView::GetSecret { namespace, name }
                &&& namespace == "default"@
                &&& text::part_at(name, "test"@, 0)
            },
            HandlerView::BootstrapSql => {
                &&& request matches ApiRequestView::PostSql { request }
                &&& mock::posts_to(
                    request,
                    sql::sql_path(text::text_or(c.metadata.namespace, seq![]), c.name_any()),
                )
                &&& mock::says_plain_text(request)
                &&& mock::body_text(request) matches Some(body)
                &&& text::holds(body, "DEFINE USER"@)
                &&& text::holds(body, "PASSWORD"@)
            },
            HandlerView::SecretCreateAuto => {
                &&& request matches ApiRequestView::CreateSecret { namespace, secret }
                &&& namespace == "default"@
                &&& text::text_or(secret.metadata.name, seq![]) == "test-surrealdb-root"@
            },
            HandlerView::RootSecretSpecPatch => {
                &&& request matches ApiRequestView::ReplaceRootSecret {
                    namespace,
                    name,
                    path,
                    root_secret,
                }
                &&& namespace == "default"@
                &&& name == c.name_any()
                &&& path == "/spec/rootSecret"@
                &&& root_secret.name == Some("test-surrealdb-root"@)
                &&& root_secret.namespace == Some("default"@)
            },
        }
    }

    /// A patch of the finalizers is the expected one.
    pub open spec fn accepts_patch(
        self,
        c: ClusterView,
        namespace: Seq<char>,
        name: Seq<char>,
        operations: Seq<PatchOperationView>,
    ) -> bool {
        &&& namespace == "default"@
        &&& name == c.name_any()
        &&& operations.len() >= 2
        &&& match self {
            HandlerView::FinalizerCreation => {
                &&& operations[0] == (PatchOperationView {
                    op: "test"@,
                    path: "/metadata/finalizers"@,
                    value: PatchValueView::Null,
                })
                &&& operations[1].adds_finalizers()
                &&& operations[1].value matches PatchValueView::Texts { texts } && texts.len() > 0
                    && texts[0] == CLUSTER_FINALIZER@
            },
            HandlerView::FinalizerRemoval => {
                &&& operations[0] == (PatchOperationView {
                    op: "test"@,
                    path: "/metadata/finalizers/0"@,
                    value: PatchValueView::Text { text: CLUSTER_FINALIZER@ },
                })
                &&& operations[1].op == "remove"@
                &&& operations[1].path == "/metadata/finalizers/0"@
            },
            _ => false,
        }
    }

    /// The answer to the expected call.
    pub open spec fn reply(self, c: ClusterView) -> ApiReplyView {
        match self {
            HandlerView::FinalizerCreation => ApiReplyView::Cluster {
                cluster: ClusterView {
                    metadata: c.metadata.with_finalizer(CLUSTER_FINALIZER@),
                    ..c
                },
            },
            HandlerView::FinalizerRemoval => ApiReplyView::Cluster { cluster: c },
            HandlerView::GetOwned { .. } => ApiReplyView::Owners {
                owner_references: Some(seq![given_owner(c)]),
            },
            HandlerView::DeploymentGetReady => ApiReplyView::Deployment {
                available_replicas: Some(1),
            },
            HandlerView::SecretGetRoot => ApiReplyView::Secret { data: Some(mock::root_data()) },
            _ => ApiReplyView::Accepted,
        }
    }

    /// What comes of something that is sent: the answer, or nothing where it is
    /// not what is expected.
    pub open spec fn answer(self, c: ClusterView, incoming: IncomingView) -> Option<ApiReplyView> {
        let fits = match incoming {
            IncomingView::Call { request } => self.accepts(c, request),
            IncomingView::Finalizers { namespace, name, operations } => self.accepts_patch(
                c,
                namespace,
                name,
                operations,
            ),
        };
        if fits {
            Some(self.reply(c))
        } else {
            None
        }
    }
}

/// A scenario that is being played.
#[derive(Debug)]
pub struct Script {
    pub cluster: Cluster,
    pub handlers: Vec<Handler>,
}

/// What a `Script` holds.
#[verifier::ext_equal]
pub struct ScriptView {
    pub cluster: ClusterView,
    pub handlers: Seq<HandlerView>,
}

impl DeepView for Script {
    type V = ScriptView;

    open spec fn deep_view(&self) -> ScriptView {
        ScriptView { cluster: self.cluster.deep_view(), handlers: self.handlers.deep_view() }
    }
}

/// The calls that the cleanup of a cluster makes.
pub open spec fn cleanup_script(reason: Seq<char>) -> Seq<HandlerView> {
    seq![
        HandlerView::GetOwned { kind: OwnedKind::Deployment },
        HandlerView::DeleteOwned { kind: OwnedKind::Deployment },
        HandlerView::GetOwned { kind: OwnedKind::Service },
        HandlerView::DeleteOwned { kind: OwnedKind::Service },
        HandlerView::GetOwned { kind: OwnedKind::Secret },
        HandlerView::DeleteOwned { kind: OwnedKind::Secret },
        HandlerView::GetOwned { kind: OwnedKind::TidbCluster },
        HandlerView::DeleteOwned { kind: OwnedKind::TidbCluster },
        HandlerView::EventCreate { reason },
    ]
}

/// The script of a scenario.
pub open spec fn script_of(scenario: Scenario) -> ScriptView {
    match scenario {
        Scenario::FinalizerCreation(cluster) => ScriptView {
            cluster: cluster.deep_view(),
            handlers: seq![HandlerView::FinalizerCreation],
        },
        Scenario::RadioSilence => ScriptView { cluster: ClusterView::test(), handlers: seq![] },
        Scenario::Cleanup(reason, cluster) => ScriptView {
            cluster: cluster.deep_view(),
            handlers: cleanup_script(reason@).push(HandlerView::FinalizerRemoval),
        },
        Scenario::StatusPatchThenDeploymentAndServiceCreation(cluster) => ScriptView {
            cluster: cluster.deep_view(),
            handlers: seq![
                HandlerView::StatusPatchPhase { phase: Phase::InCreation },
                HandlerView::DeploymentApplyWithEnv { creation_mode: true },
                HandlerView::ServiceApply,
            ],
        },
        Scenario::InCreationReadyThenBootstrapThenAuth(cluster) => ScriptView {
            cluster: cluster.deep_view(),
            handlers: seq![
                HandlerView::DeploymentGetReady,
                HandlerView::SecretGetRoot,
                HandlerView::BootstrapSql,
                HandlerView::StatusPatchPhase { phase: Phase::InProgress },
                HandlerView::DeploymentApplyWithEnv { creation_mode: false },
                HandlerView::ServiceApply,
            ],
        },
        Scenario::DeploymentAndServiceWithAuthEnv(cluster) => ScriptView {
            cluster: cluster.deep_view(),
            handlers: seq![
                HandlerView::DeploymentApplyWithEnv { creation_mode: false },
                HandlerView::ServiceApply,
            ],
        },
        Scenario::RootSecretCreationThenStatusAndDpSvc(cluster) => ScriptView {
            cluster: cluster.deep_view(),
            handlers: seq![
                HandlerView::SecretCreateAuto,
                HandlerView::RootSecretSpecPatch,
                HandlerView::StatusPatchPhase { phase: Phase::InCreation },
                HandlerView::DeploymentApplyWithEnv { creation_mode: true },
                HandlerView::ServiceApply,
            ],
        },
    }
}

/// A stand-in for the API server that has yet to be given a scenario.
#[derive(Debug)]
pub struct ApiServerVerifier;

/// The calls of the cleanup of an object.
fn push_object(handlers: &mut Vec<Handler>, kind: OwnedKind)
    ensures
        final(handlers).deep_view() == old(handlers).deep_view().push(
            HandlerView::GetOwned { kind },
        ).push(HandlerView::DeleteOwned { kind }),
{
    let ghost before = handlers.deep_view();
    handlers.push(Handler::GetOwned { kind });
    handlers.push(Handler::DeleteOwned { kind });
    assert(handlers.deep_view() =~= before.push(HandlerView::GetOwned { kind }).push(
        HandlerView::DeleteOwned { kind },
    ));
}

impl ApiServerVerifier {
    /// Plays a scenario.
    pub fn run(self, scenario: Scenario) -> (r: Script)
        ensures
            r.deep_view() == script_of(scenario),
    {
        let mut handlers: Vec<Handler> = Vec::new();
        let cluster = match scenario {
            Scenario::FinalizerCreation(cluster) => {
                handlers.push(Handler::FinalizerCreation);
                cluster
            },
            Scenario::RadioSilence => Cluster::test(),
            Scenario::Cleanup(reason, cluster) => {
                assert(handlers.deep_view() =~= seq![]);
                push_object(&mut handlers, OwnedKind::Deployment);
                push_object(&mut handlers, OwnedKind::Service);
                push_object(&mut handlers, OwnedKind::Secret);
                push_object(&mut handlers, OwnedKind::TidbCluster);
                let ghost before = handlers.deep_view();
                let ghost report = HandlerView::EventCreate { reason: reason@ };
                handlers.push(Handler::EventCreate { reason });
                handlers.push(Handler::FinalizerRemoval);
                assert(handlers.deep_view() =~= before.push(report).push(
                    HandlerView::FinalizerRemoval,
                ));
                cluster
            },
            Scenario::StatusPatchThenDeploymentAndServiceCreation(cluster) => {
                handlers.push(Handler::StatusPatchPhase { phase: Phase::InCreation });
                handlers.push(Handler::DeploymentApplyWithEnv { creation_mode: true });
                handlers.push(Handler::ServiceApply);
                cluster
            },
            Scenario::InCreationReadyThenBootstrapThenAuth(cluster) => {
                handlers.push(Handler::DeploymentGetReady);
                handlers.push(Handler::SecretGetRoot);
                handlers.push(Handler::BootstrapSql);
                handlers.push(Handler::StatusPatchPhase { phase: Phase::InProgress });
                handlers.push(Handler::DeploymentApplyWithEnv { creation_mode: false });
                handlers.push(Handler::ServiceApply);
                cluster
            },
            Scenario::DeploymentAndServiceWithAuthEnv(cluster) => {
                handlers.push(Handler::DeploymentApplyWithEnv { creation_mode: false });
                handlers.push(Handler::ServiceApply);
                cluster
            },
            Scenario::RootSecretCreationThenStatusAndDpSvc(cluster) => {
                handlers.push(Handler::SecretCreateAuto);
                handlers.push(Handler::RootSecretSpecPatch);
                handlers.push(Handler::StatusPatchPhase { phase: Phase::InCreation });
                handlers.push(Handler::DeploymentApplyWithEnv { creation_mode: true });
                handlers.push(Handler::ServiceApply);
                cluster
            },
        };
        assert(handlers.deep_view() =~= script_of(scenario).handlers);
        Script { cluster, handlers }
    }

    /// The answer to a post that creates the root user.
    pub fn proxy_bootstrap_post_ok(_name: &str, _ns: &str) -> (r: HttpResponse)
        ensures
            r.status == 200,
            r.body@ == "{}"@,
    {
        HttpResponse { status: 200, body: "{}".to_string() }
    }
}

/// Whether a variable is among others.
fn env_has(env: &Vec<EnvVar>, name: &str) -> (r: bool)
    ensures
        r == laws::names(env.deep_view(), name@),
{
    let ghost view = env.deep_view();
    let mut i: usize = 0;
    while i < env.len()
        invariant
            i <= env@.len(),
            view == env.deep_view(),
            forall|j: int| 0 <= j < i ==> (#[trigger] view[j]).name != name@,
        decreases env@.len() - i,
    {
        assert(view[i as int] == env@[i as int].deep_view());
        if same_text(env[i].name.as_str(), name) {
            return true;
        }
        i += 1;
    }
    false
}

/// Whether a variable is among others, with a value.
fn env_has_value(env: &Vec<EnvVar>, name: &str, value: &str) -> (r: bool)
    ensures
        r == laws::sets(env.deep_view(), name@, value@),
{
    let ghost view = env.deep_view();
    let mut i: usize = 0;
    while i < env.len()
        invariant
            i <= env@.len(),
            view == env.deep_view(),
            forall|j: int|
                0 <= j < i ==> !((#[trigger] view[j]).name == name@ && view[j].value == Some(
                    value@,
                )),
        decreases env@.len() - i,
    {
        assert(view[i as int] == env@[i as int].deep_view());
        let same_value = match &env[i].value {
            Some(given) => same_text(given.as_str(), value),
            None => false,
        };
        if same_text(env[i].name.as_str(), name) && same_value {
            return true;
        }
        i += 1;
    }
    false
}

/// Whether an optional text is a given one.
fn is_text(text: &Option<String>, wanted: &str) -> (r: bool)
    ensures
        r == (text.deep_view() == Some(wanted@)),
{
    match text {
        Some(t) => same_text(t.as_str(), wanted),
        None => false,
    }
}

/// Whether an operation of a patch is of a kind and at a path.
fn operates(operation: &PatchOperation, op: &str, path: &str) -> (r: bool)
    ensures
        r == (operation.deep_view().op == op@ && operation.deep_view().path == path@),
{
    same_text(operation.op.as_str(), op) && same_text(operation.path.as_str(), path)
}

impl Script {
    /// Expects the patch that adds the finalizer.
    fn handle_finalizer_creation(
        &self,
        namespace: &str,
        name: &str,
        operations: &Vec<PatchOperation>,
    ) -> (r: Option<ApiReply>)
        ensures
            r.deep_view() == HandlerView::FinalizerCreation.answer(
                self.cluster.deep_view(),
                IncomingView::Finalizers {
                    namespace: namespace@,
                    name: name@,
                    operations: operations.deep_view(),
                },
            ),
    {
        let own_name = self.cluster.name_any();
        if !same_text(namespace, "default") || !same_text(name, own_name.as_str())
            || operations.len() < 2 {
            return None;
        }
        let first = &operations[0];
        let second = &operations[1];
        assert(operations.deep_view()[0] == first.deep_view());
        assert(operations.deep_view()[1] == second.deep_view());
        let untouched = match &first.value {
            PatchValue::Null => true,
            _ => false,
        };
        let adds_ours = match &second.value {
            PatchValue::Texts { texts } => {
                assert(texts@.len() > 0 ==> texts.deep_view()[0] == texts@[0]@);
                texts.len() > 0 && same_text(texts[0].as_str(), CLUSTER_FINALIZER)
            },
            _ => false,
        };
        if operates(first, "test", "/metadata/finalizers") && untouched && operates(
            second,
            "add",
            "/metadata/finalizers",
        ) && adds_ours {
            Some(ApiReply::Cluster { cluster: self.cluster.clone().finalized() })
        } else {
            None
        }
    }

    /// Expects the patch that removes the finalizer.
    fn handle_finalizer_removal(
        &self,
        namespace: &str,
        name: &str,
        operations: &Vec<PatchOperation>,
    ) -> (r: Option<ApiReply>)
        ensures
            r.deep_view() == HandlerView::FinalizerRemoval.answer(
                self.cluster.deep_view(),
                IncomingView::Finalizers {
                    namespace: namespace@,
                    name: name@,
                    operations: operations.deep_view(),
                },
            ),
    {
        let own_name = self.cluster.name_any();
        if !same_text(namespace, "default") || !same_text(name, own_name.as_str())
            || operations.len() < 2 {
            return None;
        }
        let first = &operations[0];
        let second = &operations[1];
        assert(operations.deep_view()[0] == first.deep_view());
        assert(operations.deep_view()[1] == second.deep_view());
        let ours = match &first.value {
            PatchValue::Text { text } => same_text(text.as_str(), CLUSTER_FINALIZER),
            _ => false,
        };
        if operates(first, "test", "/metadata/finalizers/0") && ours && operates(
            second,
            "remove",
            "/metadata/finalizers/0",
        ) {
            Some(ApiReply::Cluster { cluster: self.cluster.clone() })
        } else {
            None
        }
    }

    /// Expects a deployment to be applied, and looks at the environment of its
    /// servers.
    fn handle_deployment_apply_with_env(
        &self,
        request: &ApiRequest,
        creation_mode: bool,
    ) -> (r: bool)
        ensures
            r == (HandlerView::DeploymentApplyWithEnv { creation_mode }).accepts(
                self.cluster.deep_view(),
                request.deep_view(),
            ),
    {
        let own_name = self.cluster.name_any();
        let expected = joined(own_name.as_str(), "-surrealdb");
        match request {
            ApiRequest::ApplyDeployment { namespace, name, deployment, .. } => {
                let env = &deployment.container.env;
                let fits = if creation_mode {
                    env_has_value(env, "SURREAL_UNAUTHENTICATED", "true") && !env_has(
                        env,
                        "SURREAL_AUTH",
                    )
                } else {
                    env_has_value(env, "SURREAL_AUTH", "true") && env_has(env, "SURREAL_PATH")
                        && !env_has(env, "SURREAL_UNAUTHENTICATED")
                };
                same_text(namespace.as_str(), "default") && same_text(
                    name.as_str(),
                    expected.as_str(),
                ) && fits
            },
            _ => false,
        }
    }

    /// Expects the statement that defines the root user.
    fn handle_bootstrap_sql(&self, request: &ApiRequest) -> (r: bool)
        ensures
            r == HandlerView::BootstrapSql.accepts(self.cluster.deep_view(), request.deep_view()),
    {
        let own_name = self.cluster.name_any();
        let ns = text_or_else(&self.cluster.metadata.namespace, "");
        proof {
            reveal_strlit("");
            assert(""@ =~= seq![]);
        }
        let expected = proxy_sql_path(ns.as_str(), own_name.as_str());
        match request {
            ApiRequest::PostSql { request } => {
                let body_fits = match read_body(request) {
                    Some(body) => text_holds(body.as_str(), "DEFINE USER") && text_holds(
                        body.as_str(),
                        "PASSWORD",
                    ),
                    None => false,
                };
                is_post_to(request, expected.as_str()) && is_plain_text(request) && body_fits
            },
            _ => false,
        }
    }

    /// Expects a question for the owners of an object.
    fn handle_get_owned(&self, request: &ApiRequest, kind: OwnedKind) -> (r: bool)
        ensures
            r == (HandlerView::GetOwned { kind }).accepts(
                self.cluster.deep_view(),
                request.deep_view(),
            ),
    {
        let expected = self.cluster.name_of(kind);
        match request {
            ApiRequest::GetOwners { kind: asked, namespace, name } => *asked == kind && same_text(
                namespace.as_str(),
                "default",
            ) && text_starts_with(name.as_str(), expected.as_str()),
            _ => false,
        }
    }

    /// Expects an object to be deleted.
    fn handle_delete_owned(&self, request: &ApiRequest, kind: OwnedKind) -> (r: bool)
        ensures
            r == (HandlerView::DeleteOwned { kind }).accepts(
                self.cluster.deep_view(),
                request.deep_view(),
            ),
    {
        let expected = self.cluster.name_of(kind);
        match request {
            ApiRequest::Delete { kind: asked, namespace, name, .. } => *asked == kind && same_text(
                namespace.as_str(),
                "default",
            ) && same_text(name.as_str(), expected.as_str()),
            _ => false,
        }
    }

    /// Expects a phase to be set.
    fn handle_status_patch_phase(&self, request: &ApiRequest, phase: Phase) -> (r: bool)
        ensures
            r == (HandlerView::StatusPatchPhase { phase }).accepts(
                self.cluster.deep_view(),
                request.deep_view(),
            ),
    {
        let own_name = self.cluster.name_any();
        match request {
            ApiRequest::PatchClusterStatus { namespace, name, phase: set } => *set == phase
                && same_text(namespace.as_str(), "default") && same_text(
                name.as_str(),
                own_name.as_str(),
            ),
            _ => false,
        }
    }

    /// Expects the secret with generated root credentials to be created.
    fn handle_secret_create_auto(&self, request: &ApiRequest) -> (r: bool)
        ensures
            r == HandlerView::SecretCreateAuto.accepts(
                self.cluster.deep_view(),
                request.deep_view(),
            ),
    {
        match request {
            ApiRequest::CreateSecret { namespace, secret } => {
                proof {
                    reveal_strlit("");
                    assert(""@ =~= seq![]);
                }
                let name = text_or_else(&secret.metadata.name, "");
                same_text(namespace.as_str(), "default") && same_text(
                    name.as_str(),
                    "test-surrealdb-root",
                )
            },
            _ => false,
        }
    }

    /// Expects the reference to the root credentials to be written down.
    fn handle_root_secret_spec_patch(&self, request: &ApiRequest) -> (r: bool)
        ensures
            r == HandlerView::RootSecretSpecPatch.accepts(
                self.cluster.deep_view(),
                request.deep_view(),
            ),
    {
        let own_name = self.cluster.name_any();
        match request {
            ApiRequest::ReplaceRootSecret { namespace, name, path, root_secret } => same_text(
                namespace.as_str(),
                "default",
            ) && same_text(name.as_str(), own_name.as_str()) && same_text(
                path.as_str(),
                "/spec/rootSecret",
            ) && is_text(&root_secret.name, "test-surrealdb-root") && is_text(
                &root_secret.namespace,
                "default",
            ),
            _ => false,
        }
    }

    /// Expects a service to be applied.
    fn handle_service_apply(&self, request: &ApiRequest) -> (r: bool)
        ensures
            r == HandlerView::ServiceApply.accepts(self.cluster.deep_view(), request.deep_view()),
    {
        let own_name = self.cluster.name_any();
        let expected = joined(own_name.as_str(), "-surrealdb");
        match request {
            ApiRequest::ApplyService { namespace, name, .. } => same_text(
                namespace.as_str(),
                "default",
            ) && same_text(name.as_str(), expected.as_str()),
            _ => false,
        }
    }

    /// Expects a question for the deployment.
    fn handle_deployment_get_ready(&self, request: &ApiRequest) -> (r: bool)
        ensures
            r == HandlerView::DeploymentGetReady.accepts(
                self.cluster.deep_view(),
                request.deep_view(),
            ),
    {
        let own_name = self.cluster.name_any();
        let expected = joined(own_name.as_str(), "-surrealdb");
        match request {
            ApiRequest::GetDeployment { namespace, name } => same_text(
                namespace.as_str(),
                "default",
            ) && text_starts_with(name.as_str(), expected.as_str()),
            _ => false,
        }
    }

    /// Expects a question for the root credentials.
    fn handle_secret_get_root(&self, request: &ApiRequest) -> (r: bool)
        ensures
            r == HandlerView::SecretGetRoot.accepts(self.cluster.deep_view(), request.deep_view()),
    {
        match request {
            ApiRequest::GetSecret { namespace, name } => same_text(namespace.as_str(), "default")
                && text_starts_with(name.as_str(), "test"),
            _ => false,
        }
    }

    /// Expects the event about the deletion.
    fn handle_event_create(&self, request: &ApiRequest, reason: &str) -> (r: bool)
        ensures
            r == (HandlerView::EventCreate { reason: reason@ }).accepts(
                self.cluster.deep_view(),
                request.deep_view(),
            ),
    {
        match request {
            ApiRequest::PublishEvent { event } => same_text(event.reason.as_str(), reason),
            _ => false,
        }
    }

    /// Whether a call is the one that a handler expects.
    fn expects(&self, handler: &Handler, request: &ApiRequest) -> (r: bool)
        ensures
            r == handler.deep_view().accepts(self.cluster.deep_view(), request.deep_view()),
    {
        match handler {
            Handler::FinalizerCreation => false,
            Handler::FinalizerRemoval => false,
            Handler::EventCreate { reason } => self.handle_event_create(request, reason.as_str()),
            Handler::GetOwned { kind } => self.handle_get_owned(request, *kind),
            Handler::DeleteOwned { kind } => self.handle_delete_owned(request, *kind),
            Handler::StatusPatchPhase { phase } => self.handle_status_patch_phase(request, *phase),
            Handler::DeploymentApplyWithEnv { creation_mode } => {
                self.handle_deployment_apply_with_env(request, *creation_mode)
            },
            Handler::ServiceApply => self.handle_service_apply(request),
            Handler::DeploymentGetReady => self.handle_deployment_get_ready(request),
            Handler::SecretGetRoot => self.handle_secret_get_root(request),
            Handler::BootstrapSql => self.handle_bootstrap_sql(request),
            Handler::SecretCreateAuto => self.handle_secret_create_auto(request),
            Handler::RootSecretSpecPatch => self.handle_root_secret_spec_patch(request),
        }
    }

    /// The answer of a handler to the call that it expects.
    fn reply(&self, handler: &Handler) -> (r: ApiReply)
        ensures
            r.deep_view() == handler.deep_view().reply(self.cluster.deep_view()),
    {
        match handler {
            Handler::FinalizerCreation => ApiReply::Cluster {
                cluster: self.cluster.clone().finalized(),
            },
            Handler::FinalizerRemoval => ApiReply::Cluster { cluster: self.cluster.clone() },
            Handler::GetOwned { .. } => {
                let mut owners: Vec<OwnerReference> = Vec::new();
                owners.push(
                    OwnerReference {
                        api_version: API_VERSION.to_string(),
                        kind: CLUSTER_KIND.to_string(),
                        name: self.cluster.name_any(),
                        uid: TEST_UID.to_string(),
                        controller: None,
                    },
                );
                assert(owners.deep_view() =~= seq![given_owner(self.cluster.deep_view())]);
                ApiReply::Owners { owner_references: Some(owners) }
            },
            Handler::DeploymentGetReady => ApiReply::Deployment { available_replicas: Some(1) },
            Handler::SecretGetRoot => ApiReply::Secret { data: Some(make_root_data()) },
            _ => ApiReply::Accepted,
        }
    }

    /// Takes something that is sent: answers and goes on to the next call where
    /// it is what is expected, and does neither otherwise.
    pub fn handle(&mut self, incoming: &Incoming) -> (r: Option<ApiReply>)
        ensures
            ({
                let before = old(self).deep_view();
                let answer = before.handlers[0].answer(before.cluster, incoming.deep_view());
                if before.handlers.len() > 0 && answer is Some {
                    &&& r.deep_view() == answer
                    &&& final(self).deep_view() == (ScriptView {
                        handlers: before.handlers.drop_first(),
                        ..before
                    })
                } else {
                    r is None && final(self).deep_view() == before
                }
            }),
    {
        if self.handlers.len() == 0 {
            return None;
        }
        let ghost before = self.deep_view();
        assert(before.handlers[0] == self.handlers@[0].deep_view());
        let answer = {
            let handler = &self.handlers[0];
            match incoming {
                Incoming::Call { request } => {
                    if self.expects(handler, request) {
                        Some(self.reply(handler))
                    } else {
                        None
                    }
                },
                Incoming::Finalizers { namespace, name, operations } => match handler {
                    Handler::FinalizerCreation => self.handle_finalizer_creation(
                        namespace.as_str(),
                        name.as_str(),
                        operations,
                    ),
                    Handler::FinalizerRemoval => self.handle_finalizer_removal(
                        namespace.as_str(),
                        name.as_str(),
                        operations,
                    ),
                    _ => None,
                },
            }
        };
        assert(answer.deep_view() == before.handlers[0].answer(
            before.cluster,
            incoming.deep_view(),
        ));
        if answer.is_some() {
            self.handlers.remove(0);
            assert(self.handlers.deep_view() =~= before.handlers.drop_first());
        }
        answer
    }

    /// Whether all that was expected has come.
    pub fn finished(&self) -> (r: bool)
        ensures
            r == (self.deep_view().handlers.len() == 0),
    {
        self.handlers.len() == 0
    }
}

/// The view of a `Handler` shows all that it holds.
pub proof fn law_view_shows_handler(x: &Handler)
    ensures
        match x {
            Handler::FinalizerCreation => x.deep_view() == (HandlerView::FinalizerCreation),
            Handler::FinalizerRemoval => x.deep_view() == (HandlerView::FinalizerRemoval),
            Handler::EventCreate { reason } => x.deep_view() == (
            HandlerView::EventCreate { reason: reason@ }),
            Handler::GetOwned { kind } => x.deep_view() == (HandlerView::GetOwned { kind: *kind }),
            Handler::DeleteOwned { kind } => x.deep_view() == (
            HandlerView::DeleteOwned { kind: *kind }),
            Handler::StatusPatchPhase { phase } => x.deep_view() == (
            HandlerView::StatusPatchPhase { phase: *phase }),
            Handler::DeploymentApplyWithEnv { creation_mode } => {
                x.deep_view() == (
                HandlerView::DeploymentApplyWithEnv { creation_mode: *creation_mode })
            },
            Handler::ServiceApply => x.deep_view() == (HandlerView::ServiceApply),
            Handler::DeploymentGetReady => x.deep_view() == (HandlerView::DeploymentGetReady),
            Handler::SecretGetRoot => x.deep_view() == (HandlerView::SecretGetRoot),
            Handler::BootstrapSql => x.deep_view() == (HandlerView::BootstrapSql),
            Handler::SecretCreateAuto => x.deep_view() == (HandlerView::SecretCreateAuto),
            Handler::RootSecretSpecPatch => x.deep_view() == (HandlerView::RootSecretSpecPatch),
        },
{
}

/// The view of a `Script` shows all that it holds.
pub proof fn law_view_shows_script(x: Script)
    ensures
        x.deep_view().cluster == x.cluster.deep_view(),
        x.deep_view().handlers == x.handlers.deep_view(),
{
}

} // verus!
