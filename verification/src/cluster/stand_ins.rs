//! What the stand-in for the API server takes and gives in passes over a cluster.
use crate::api::{ApiReplyView, ApiRequestView, OwnedKind};
use crate::cluster::crd::{Cluster, ClusterView, Phase, Status};
use crate::cluster::fixtures::{
    self, ApiServerVerifier, HandlerView, Scenario, Script,
};
use crate::cluster::promises;
use crate::mock::{
    self, HttpResponse, IncomingView, PatchOperationView, PatchValueView,
};
use crate::objects::EnvVarView;
use crate::outside;
use crate::promise;
use crate::text;
use vstd::prelude::*;

verus! {

/// A variable is among others.
pub open spec fn is_there(env: Seq<EnvVarView>, name: Seq<char>) -> bool {
    exists|i: int| 0 <= i < env.len() && (#[trigger] env[i]).name == name
}

/// A variable is among others and set to `true`.
pub open spec fn is_set(env: Seq<EnvVarView>, name: Seq<char>) -> bool {
    exists|i: int|
        0 <= i < env.len() && (#[trigger] env[i]).name == name && env[i].value == Some("true"@)
}

/// The call that a handler waits for.
pub open spec fn waits_for(h: HandlerView, c: ClusterView, request: ApiRequestView) -> bool {
    match (h, request) {
        (HandlerView::EventCreate { reason }, ApiRequestView::PublishEvent { event }) => {
            event.reason == reason
        },
        (
            HandlerView::GetOwned { kind },
            ApiRequestView::GetOwners { kind: asked, namespace, name },
        ) => asked == kind && namespace == "default"@ && text::part_at(
            name,
            promises::object_name(c, kind),
            0,
        ),
        (
            HandlerView::DeleteOwned { kind },
            ApiRequestView::Delete { kind: asked, namespace, name, .. },
        ) => asked == kind && namespace == "default"@ && name == promises::object_name(c, kind),
        (
            HandlerView::StatusPatchPhase { phase },
            ApiRequestView::PatchClusterStatus { namespace, name, phase: set },
        ) => set == phase && namespace == "default"@ && name == promise::called(c.metadata),
        (
            HandlerView::DeploymentApplyWithEnv { creation_mode },
            ApiRequestView::ApplyDeployment { namespace, name, deployment, .. },
        ) => {
            let env = deployment.container.env;
            &&& namespace == "default"@
            &&& name == promises::server_name(c)
            &&& creation_mode ==> is_set(env, "SURREAL_UNAUTHENTICATED"@) && !is_there(
                env,
                "SURREAL_AUTH"@,
            )
            &&& !creation_mode ==> is_set(env, "SURREAL_AUTH"@) && is_there(env, "SURREAL_PATH"@)
                && !is_there(env, "SURREAL_UNAUTHENTICATED"@)
        },
        (HandlerView::ServiceApply, ApiRequestView::ApplyService { namespace, name, .. }) => {
            namespace == "default"@ && name == promises::server_name(c)
        },
        (HandlerView::DeploymentGetReady, ApiRequestView::GetDeployment { namespace, name }) => {
            namespace == "default"@ && text::part_at(name, promises::server_name(c), 0)
        },
        (HandlerView::SecretGetRoot, ApiRequestView::GetSecret { namespace, name }) => {
            namespace == "default"@ && text::part_at(name, "test"@, 0)
        },
        (HandlerView::BootstrapSql, ApiRequestView::PostSql { request }) => {
            &&& mock::posts_to(
                request,
                promise::statement_path(
                    promise::given_or(c.metadata.namespace, seq![]),
                    promise::called(c.metadata),
                ),
            )
            &&& mock::says_plain_text(request)
            &&& vstd::utf8::valid_utf8(request.body)
            &&& text::holds(vstd::utf8::decode_utf8(request.body), "DEFINE USER"@)
            &&& text::holds(vstd::utf8::decode_utf8(request.body), "PASSWORD"@)
        },
        (HandlerView::SecretCreateAuto, ApiRequestView::CreateSecret { namespace, secret }) => {
            namespace == "default"@ && promise::given_or(secret.metadata.name, seq![])
                == "test-surrealdb-root"@
        },
        (
            HandlerView::RootSecretSpecPatch,
            ApiRequestView::ReplaceRootSecret { namespace, name, path, root_secret },
        ) => {
            &&& namespace == "default"@
            &&& name == promise::called(c.metadata)
            &&& path == "/spec/rootSecret"@
            &&& root_secret.name == Some("test-surrealdb-root"@)
            &&& root_secret.namespace == Some("default"@)
        },
        _ => false,
    }
}

/// A handler takes the call that it waits for, and no other.
pub proof fn law_what_handlers_take(h: HandlerView, c: ClusterView, request: ApiRequestView)
    ensures
        h.accepts(c, request) <==> waits_for(h, c, request),
{
    if request is ApplyDeployment {
        let env = request->ApplyDeployment_deployment.container.env;
        lemma_variables(env, "SURREAL_UNAUTHENTICATED"@);
        lemma_variables(env, "SURREAL_AUTH"@);
        lemma_variables(env, "SURREAL_PATH"@);
    }
}

proof fn lemma_variables(env: Seq<EnvVarView>, name: Seq<char>)
    ensures
        crate::cluster::laws::names(env, name) <==> is_there(env, name),
        crate::cluster::laws::sets(env, name, "true"@) <==> is_set(env, name),
{
    if is_set(env, name) {
        let i = choose|i: int|
            0 <= i < env.len() && (#[trigger] env[i]).name == name && env[i].value == Some("true"@);
        assert(env[i].name == name);
    }
    if is_there(env, name) {
        let i = choose|i: int| 0 <= i < env.len() && (#[trigger] env[i]).name == name;
        assert(env[i].name == name);
    }
}

/// The finalizer is added to a cluster without finalizers, and taken away where
/// it is the first.
pub proof fn law_what_patches_are_taken(
    h: HandlerView,
    c: ClusterView,
    namespace: Seq<char>,
    name: Seq<char>,
    operations: Seq<PatchOperationView>,
)
    ensures
        h.accepts_patch(c, namespace, name, operations) ==> {
            &&& namespace == "default"@
            &&& name == promise::called(c.metadata)
            &&& operations.len() >= 2
            &&& operations[0].op == "test"@
            &&& h is FinalizerCreation || h is FinalizerRemoval
            &&& h is FinalizerCreation ==> operations[0].path == "/metadata/finalizers"@
                && operations[0].value is Null && operations[1].op == "add"@
                && operations[1].path == "/metadata/finalizers"@ && operations[1].value is Texts
                && operations[1].value->texts.len() > 0 && operations[1].value->texts[0]
                == "clusters.surrealdb.aexol.com"@
            &&& h is FinalizerRemoval ==> operations[0].path == "/metadata/finalizers/0"@
                && operations[0].value == (PatchValueView::Text {
                text: "clusters.surrealdb.aexol.com"@,
            }) && operations[1].op == "remove"@ && operations[1].path
                == "/metadata/finalizers/0"@
        },
{
}

/// What a handler answers: the owner that a cluster is, a replica that is
/// available, credentials whose name and password are `root`, the cluster with
/// its finalizer, and an acceptance otherwise.
pub proof fn law_what_handlers_answer(h: HandlerView, c: ClusterView)
    ensures
        match (h, h.reply(c)) {
            (HandlerView::FinalizerCreation, ApiReplyView::Cluster { cluster }) => {
                &&& cluster.spec == c.spec
                &&& cluster.status == c.status
                &&& cluster.metadata.name == c.metadata.name
                &&& cluster.metadata.finalizers is Some
                &&& cluster.metadata.finalizers->0.last() == "clusters.surrealdb.aexol.com"@
            },
            (HandlerView::FinalizerRemoval, ApiReplyView::Cluster { cluster }) => cluster == c,
            (HandlerView::GetOwned { .. }, ApiReplyView::Owners { owner_references }) => {
                &&& owner_references matches Some(owners)
                &&& owners.len() == 1
                &&& owners[0].api_version == "surrealdb.aexol.com/v1alpha1"@
                &&& owners[0].kind == "Cluster"@
                &&& owners[0].name == promise::called(c.metadata)
                &&& owners[0].uid == "0000-00-00-00-000000"@
                &&& promises::is_among(c, owner_references)
            },
            (HandlerView::DeploymentGetReady, reply) => promises::up(reply),
            (HandlerView::SecretGetRoot, reply) => {
                &&& promise::has_credentials(reply)
                &&& promise::readable(reply->Secret_data->0["user"@]) == "root"@
                &&& promise::readable(reply->Secret_data->0["password"@]) == "root"@
            },
            (HandlerView::FinalizerCreation, _) => false,
            (HandlerView::FinalizerRemoval, _) => false,
            (HandlerView::GetOwned { .. }, _) => false,
            (_, reply) => reply is Accepted,
        },
{
    mock::law_root_is_root();
    promise::law_finalizers_are_added_at_the_end(c.metadata, "clusters.surrealdb.aexol.com"@);
    assert(mock::root_data().dom().contains("user"@));
    assert(mock::root_data().dom().contains("password"@));
    if h is GetOwned {
        let owners = h.reply(c)->owner_references->0;
        assert(owners[0].name == promise::called(c.metadata));
    }
}

/// The scenarios, call by call.
pub proof fn law_what_scenarios_expect(scenario: Scenario)
    ensures
        ({
            let handlers = fixtures::script_of(scenario).handlers;
            let open = HandlerView::DeploymentApplyWithEnv { creation_mode: true };
            let closed = HandlerView::DeploymentApplyWithEnv { creation_mode: false };
            let created = HandlerView::StatusPatchPhase { phase: Phase::InCreation };
            let working = HandlerView::StatusPatchPhase { phase: Phase::InProgress };
            match scenario {
                Scenario::FinalizerCreation(_) => handlers =~= seq![HandlerView::FinalizerCreation],
                Scenario::RadioSilence => handlers.len() == 0,
                Scenario::Cleanup(reason, _) => {
                    &&& handlers.len() == 10
                    &&& handlers[8] == (HandlerView::EventCreate { reason: reason@ })
                    &&& handlers[9] is FinalizerRemoval
                    &&& handlers[0] == (HandlerView::GetOwned { kind: OwnedKind::Deployment })
                    &&& handlers[2] == (HandlerView::GetOwned { kind: OwnedKind::Service })
                    &&& handlers[4] == (HandlerView::GetOwned { kind: OwnedKind::Secret })
                    &&& handlers[6] == (HandlerView::GetOwned { kind: OwnedKind::TidbCluster })
                    &&& handlers[1] == (HandlerView::DeleteOwned { kind: OwnedKind::Deployment })
                    &&& handlers[3] == (HandlerView::DeleteOwned { kind: OwnedKind::Service })
                    &&& handlers[5] == (HandlerView::DeleteOwned { kind: OwnedKind::Secret })
                    &&& handlers[7] == (HandlerView::DeleteOwned { kind: OwnedKind::TidbCluster })
                },
                Scenario::StatusPatchThenDeploymentAndServiceCreation(_) => handlers =~= seq![
                    created,
                    open,
                    HandlerView::ServiceApply,
                ],
                Scenario::InCreationReadyThenBootstrapThenAuth(_) => handlers =~= seq![
                    HandlerView::DeploymentGetReady,
                    HandlerView::SecretGetRoot,
                    HandlerView::BootstrapSql,
                    working,
                    closed,
                    HandlerView::ServiceApply,
                ],
                Scenario::DeploymentAndServiceWithAuthEnv(_) => handlers =~= seq![
                    closed,
                    HandlerView::ServiceApply,
                ],
                Scenario::RootSecretCreationThenStatusAndDpSvc(_) => handlers =~= seq![
                    HandlerView::SecretCreateAuto,
                    HandlerView::RootSecretSpecPatch,
                    created,
                    open,
                    HandlerView::ServiceApply,
                ],
            }
        }),
        match scenario {
            Scenario::RadioSilence => true,
            Scenario::FinalizerCreation(c) => fixtures::script_of(scenario).cluster
                == c.deep_view(),
            Scenario::Cleanup(_, c) => fixtures::script_of(scenario).cluster == c.deep_view(),
            Scenario::StatusPatchThenDeploymentAndServiceCreation(c) => {
                fixtures::script_of(scenario).cluster == c.deep_view()
            },
            Scenario::InCreationReadyThenBootstrapThenAuth(c) => {
                fixtures::script_of(scenario).cluster == c.deep_view()
            },
            Scenario::DeploymentAndServiceWithAuthEnv(c) => fixtures::script_of(scenario).cluster
                == c.deep_view(),
            Scenario::RootSecretCreationThenStatusAndDpSvc(c) => {
                fixtures::script_of(scenario).cluster == c.deep_view()
            },
        },
{
}

/// A scenario is played as it is written down.
pub proof fn law_run(verifier: ApiServerVerifier, scenario: Scenario, r: Script)
    requires
        call_ensures(ApiServerVerifier::run, (verifier, scenario), r),
    ensures
        r.deep_view() == fixtures::script_of(scenario),
{
}

/// A script is finished when nothing is expected any more.
pub proof fn law_finished(script: &Script, r: bool)
    requires
        call_ensures(Script::finished, (script,), r),
    ensures
        r <==> script.handlers@.len() == 0,
{
    assert(script.deep_view().handlers.len() == script.handlers@.len());
}

/// What is sent is answered exactly if the handler takes it, with its answer.
pub proof fn law_what_is_answered(h: HandlerView, c: ClusterView, incoming: IncomingView)
    ensures
        h.answer(c, incoming) is Some <==> match incoming {
            IncomingView::Call { request } => h.accepts(c, request),
            IncomingView::Finalizers { namespace, name, operations } => h.accepts_patch(
                c,
                namespace,
                name,
                operations,
            ),
        },
        h.answer(c, incoming) matches Some(reply) ==> reply == h.reply(c),
{
}

/// A post that creates the root user is answered with success.
pub proof fn law_proxy_bootstrap_post_ok(name: &str, ns: &str, r: HttpResponse)
    requires
        call_ensures(ApiServerVerifier::proxy_bootstrap_post_ok, (name, ns), r),
    ensures
        r.status == 200,
        r.body@ == "{}"@,
{
}

/// Clusters to try things out with differ from others in what their makers say,
/// and in nothing else.
pub proof fn law_changed_clusters(
    c: Cluster,
    status: Status,
    deleted: Cluster,
    with_root: Cluster,
    with_tikv: Cluster,
    finalized: Cluster,
    seen: Cluster,
)
    requires
        call_ensures(Cluster::needs_delete, (c,), deleted),
        call_ensures(Cluster::needs_root_credentials, (c,), with_root),
        call_ensures(Cluster::needs_tikv_secret_ref, (c,), with_tikv),
        call_ensures(Cluster::finalized, (c,), finalized),
        call_ensures(Cluster::with_status, (c, status), seen),
    ensures
        deleted.metadata.deletion_timestamp is Some,
        deleted.metadata.deletion_timestamp == outside::utc_seconds(2017, 4, 2, 12, 50, 32),
        deleted.metadata.name.deep_view() == c.metadata.name.deep_view(),
        deleted.spec.deep_view() == c.spec.deep_view(),
        deleted.status.deep_view() == c.status.deep_view(),
        with_root.spec.root_secret matches Some(reference) && reference.name.deep_view() == Some(
            "test"@,
        ) && reference.namespace is None,
        with_root.metadata.deep_view() == c.metadata.deep_view(),
        with_root.spec.tikv_secret_ref.deep_view() == c.spec.tikv_secret_ref.deep_view(),
        with_root.status.deep_view() == c.status.deep_view(),
        with_tikv.spec.tikv_secret_ref matches Some(key) && key.key@ == "test"@ && key.name@
            == "test"@ && key.optional is None,
        with_tikv.metadata.deep_view() == c.metadata.deep_view(),
        with_tikv.spec.root_secret.deep_view() == c.spec.root_secret.deep_view(),
        with_tikv.status.deep_view() == c.status.deep_view(),
        finalized.metadata.finalizers.deep_view() is Some,
        finalized.metadata.finalizers.deep_view()->0.last() == "clusters.surrealdb.aexol.com"@,
        finalized.spec.deep_view() == c.spec.deep_view(),
        finalized.status.deep_view() == c.status.deep_view(),
        seen.status.deep_view() == Some(status.deep_view()),
        seen.metadata.deep_view() == c.metadata.deep_view(),
        seen.spec.deep_view() == c.spec.deep_view(),
{
    promise::law_finalizers_are_added_at_the_end(
        c.deep_view().metadata,
        "clusters.surrealdb.aexol.com"@,
    );
}

/// The cluster to try things out with.
pub proof fn law_test(r: Cluster)
    requires
        call_ensures(Cluster::test, (), r),
    ensures
        r.metadata.name.deep_view() == Some("test"@),
        r.metadata.namespace.deep_view() == Some("default"@),
        r.metadata.uid.deep_view() == Some("0000-00-00-00-000000"@),
        r.metadata.finalizers is None,
        r.metadata.deletion_timestamp is None,
        r.spec.replicas is None,
        r.spec.surrealdb_image is None,
        r.spec.root_secret is None,
        r.spec.tikv_secret_ref is None,
        r.spec.tidb_cluster is None,
        r.status is None,
{
}

} // verus!
