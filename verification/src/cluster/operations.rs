//! What the operations on a cluster return, for whoever calls them.
use crate::api::{Action, ApiReply, ApiRequest, ApiRequestView, Flow, FlowView, OwnedKind};
use crate::cluster::cleanup::CleanupStep;
use crate::cluster::crd::{Cluster, Phase, Spec};
use crate::cluster::promises;
use crate::cluster::reconcile::{self, ClusterStep, Rollout, Watched};
use crate::error::Error;
use crate::objects::{
    Deployment, EnvVar, OwnerReference, Secret, Service, TidbCluster, TidbClusterSpec,
};
use crate::password;
use crate::promise;
use crate::text::TextMap;
use vstd::prelude::*;

verus! {

/// The deployment that is built runs the image that the cluster asks for in
/// either mode, as often as it asks for, and finds its data.
pub proof fn law_build_surreal_deployment(c: &Cluster, name: &str, open: bool, r: Deployment)
    requires
        call_ensures(Cluster::build_surreal_deployment, (c, name, open), r),
    ensures
        c.spec.surrealdb_image matches Some(image) ==> r.container.image@ == image@,
        c.spec.surrealdb_image is None ==> r.container.image@ == "surrealdb/surrealdb:latest"@,
        c.spec.replicas matches Some(n) ==> r.replicas == n,
        c.spec.replicas is None ==> r.replicas == 1,
        promises::starts_servers(c.deep_view(), name@ + "-surrealdb"@, r.deep_view(), open),
{
    promises::law_deployment_starts_the_servers(c.deep_view(), name@, open);
}

/// The service that is built stands in front of the servers, at the port 8000.
pub proof fn law_build_surreal_service(c: &Cluster, name: &str, r: Service)
    requires
        call_ensures(Cluster::build_surreal_service, (c, name), r),
    ensures
        r.ports@.len() == 1,
        r.ports@[0].port == 8000,
        r.ports@[0].target_port == 8000,
        promises::fronts_servers(c.deep_view(), name@ + "-surrealdb"@, r.deep_view()),
{
    promises::law_service_fronts_the_servers(c.deep_view(), name@);
    assert(r.deep_view().ports[0] == r.ports@[0].deep_view());
}

/// Servers that ask for credentials find the data of the cluster.
pub proof fn law_env_normal(c: &Cluster, r: Vec<EnvVar>)
    requires
        call_ensures(Cluster::env_normal, (c,), r),
    ensures
        r@.len() == 2,
        promises::is_on(r@[0].deep_view(), "SURREAL_AUTH"@),
        promises::leads_to_the_data(c.deep_view(), r@[1].deep_view()),
{
    promises::law_servers_find_the_data(c.deep_view(), false);
    assert(r.deep_view()[0] == r@[0].deep_view());
    assert(r.deep_view()[1] == r@[1].deep_view());
}

/// Servers that let everyone in find the data of the cluster too.
pub proof fn law_env_creation(c: &Cluster, r: Vec<EnvVar>)
    requires
        call_ensures(Cluster::env_creation, (c,), r),
    ensures
        r@.len() == 2,
        promises::leads_to_the_data(c.deep_view(), r@[0].deep_view()),
        promises::is_on(r@[1].deep_view(), "SURREAL_UNAUTHENTICATED"@),
{
    promises::law_servers_find_the_data(c.deep_view(), true);
    assert(r.deep_view()[0] == r@[0].deep_view());
    assert(r.deep_view()[1] == r@[1].deep_view());
}

/// The secret that is built keeps the credentials.
pub proof fn law_build_root_secret(c: &Cluster, password: &str, r: Secret)
    requires
        call_ensures(Cluster::build_root_secret, (c, password), r),
    ensures
        promises::keeps_credentials(c.deep_view(), r.deep_view(), password@),
{
    promises::law_secret_keeps_the_credentials(c.deep_view(), password@);
}

/// The TiDB cluster that is built has the manifest that was asked for.
pub proof fn law_build_tidb_cluster(
    c: &Cluster,
    name: &str,
    spec: &TidbClusterSpec,
    r: TidbCluster,
)
    requires
        call_ensures(Cluster::build_tidb_cluster, (c, name, spec), r),
    ensures
        promises::belongs(c.deep_view(), r.metadata.deep_view(), name@, None),
        r.spec.manifest@ == spec.manifest@,
{
    promises::law_tidb_cluster_is_as_asked(c.deep_view(), name@, spec.deep_view());
}

/// Labels name the cluster.
pub proof fn law_labels(c: &Cluster, suffix: &str, r: TextMap<String>)
    requires
        call_ensures(Cluster::labels, (c, suffix), r),
    ensures
        suffix@.len() > 0 ==> r.deep_view() == promises::server_labels(c.deep_view(), suffix@),
        suffix@.len() == 0 ==> r.deep_view() == map![
            "app.kubernetes.io/name"@ => "surrealdb"@,
            "surrealdb.aexol.com/cluster"@ => promise::called(c.deep_view().metadata),
        ],
{
    promises::law_labels_name_the_cluster(c.deep_view(), suffix@);
}

/// A cluster refers to itself as the controller of its objects.
pub proof fn law_owner_ref(c: &Cluster, r: OwnerReference)
    requires
        call_ensures(Cluster::owner_ref, (c,), r),
        c.metadata.name is Some,
        c.metadata.uid is Some,
    ensures
        r.api_version@ == "surrealdb.aexol.com/v1alpha1"@,
        r.kind@ == "Cluster"@,
        r.name@ == c.metadata.name->0@,
        r.uid@ == c.metadata.uid->0@,
        r.controller == Some(true),
{
    promises::law_what_a_cluster_asks_for(c.deep_view());
}

/// Owners stay, and the cluster joins them unless it is among them.
pub proof fn law_add_owner(c: &Cluster, owners: Vec<OwnerReference>, r: Vec<OwnerReference>)
    requires
        call_ensures(Cluster::add_owner, (c, owners), r),
        c.metadata.name is Some,
        c.metadata.uid is Some,
    ensures
        ({
            let before = owners.deep_view();
            let after = r.deep_view();
            ||| after == before && exists|i: int|
                0 <= i < before.len() && Some((#[trigger] before[i]).uid)
                    == c.deep_view().metadata.uid && Some(before[i].name)
                    == c.deep_view().metadata.name
            ||| after.len() == before.len() + 1 && after.drop_last() == before
                && promise::refers_to(after.last(), c.deep_view().metadata, "Cluster"@)
        }),
{
    promises::law_owners_are_kept(c.deep_view(), owners.deep_view());
}

/// An object belongs to the cluster if the cluster is among its owners.
pub proof fn law_owns(c: &Cluster, owners: &Option<Vec<OwnerReference>>, r: bool)
    requires
        call_ensures(Cluster::owns, (c, owners), r),
    ensures
        r <==> promises::is_among(c.deep_view(), owners.deep_view()),
{
    promises::law_who_owns_what(c.deep_view(), owners.deep_view());
}

/// There is a place for the data if a TiDB cluster is asked for or a secret is
/// named.
pub proof fn law_tikv_backend_configured(c: &Cluster, r: Result<(), String>)
    requires
        call_ensures(Cluster::tikv_backend_configured, (c,), r),
    ensures
        r is Ok <==> c.spec.tidb_cluster is Some || c.spec.tikv_secret_ref is Some,
        r matches Err(text) ==> text@
            == "No TiKV backend configured: set .spec.tidbCluster or .spec.tikvSecret"@,
{
}

/// The root credentials are in the secret that the cluster names.
pub proof fn law_credentials_secret(c: &Cluster, r: Option<String>)
    requires
        call_ensures(Cluster::credentials_secret, (c,), r),
    ensures
        r.deep_view() == (match c.spec.root_secret {
            Some(reference) => reference.name.deep_view(),
            None => None,
        }),
{
}

/// The phase is the one that the status holds, `New` where it holds none.
pub proof fn law_current_phase(c: &Cluster, r: Phase)
    requires
        call_ensures(Cluster::current_phase, (c,), r),
    ensures
        r == (match c.status {
            Some(status) if status.phase is Some => status.phase->0,
            _ => Phase::New,
        }),
{
}

/// Name and namespace are those of the metadata.
pub proof fn law_name_and_namespace(c: &Cluster, name: String, namespace: String)
    requires
        call_ensures(Cluster::name_any, (c,), name),
        call_ensures(Cluster::namespace, (c,), namespace),
        c.metadata.namespace is Some,
    ensures
        name@ == promise::called(c.metadata.deep_view()),
        namespace@ == c.metadata.namespace->0@,
{
}

/// A phase is set on the cluster itself.
pub proof fn law_set_phase(c: &Cluster, phase: Phase, r: ApiRequest)
    requires
        call_ensures(Cluster::set_phase, (c, phase), r),
        c.metadata.namespace is Some,
    ensures
        r matches ApiRequest::PatchClusterStatus { namespace, name, phase: p } && namespace@
            == c.metadata.namespace->0@ && name@ == promise::called(c.metadata.deep_view()) && p
            == phase,
{
}

/// Root credentials are created and named only where the cluster names none.
pub proof fn law_root_credentials(
    c: &Cluster,
    password: &str,
    step: ClusterStep,
    secret: Option<ApiRequest>,
    reference: Option<ApiRequest>,
)
    requires
        call_ensures(Cluster::ensure_root_secret, (c, password), secret),
        call_ensures(Cluster::persist_root_secret_ref, (c,), reference),
    ensures
        c.spec.root_secret is Some ==> secret is None && reference is None,
        c.spec.root_secret is None ==> secret is Some && reference is Some
            && promises::creates_credentials(
            c.deep_view(),
            FlowView::Ask { step, request: secret->0.deep_view() },
            password@,
        ) && promises::names_credentials(
            c.deep_view(),
            FlowView::Ask { step, request: reference->0.deep_view() },
        ),
{
    promises::law_credentials_are_created_and_named(c.deep_view(), step, password@);
}

/// A rollout applies the deployment, open to everyone only to create the root
/// user.
pub proof fn law_reconcile_surrealdb_with_mode(
    c: &Cluster,
    rollout: Rollout,
    r: Flow<ClusterStep>,
)
    requires
        call_ensures(Cluster::reconcile_surrealdb_with_mode, (c, rollout), r),
    ensures
        promises::applies_deployment(c.deep_view(), r.deep_view(), rollout is Create),
{
    promises::law_rollouts_apply_the_deployment(c.deep_view(), rollout);
}

/// A TiDB cluster that is asked for is created, and looked at otherwise.
pub proof fn law_reconcile_tidb_cluster(c: &Cluster, r: Flow<ClusterStep>)
    requires
        call_ensures(Cluster::reconcile_tidb_cluster, (c,), r),
    ensures
        c.spec.tidb_cluster is Some ==> promises::creates_tidb(c.deep_view(), r.deep_view()),
        c.spec.tidb_cluster is None ==> promises::looks_at_tidb(c.deep_view(), r.deep_view()),
{
    if c.spec.tidb_cluster is Some {
        promises::law_tidb_cluster_is_as_asked(
            c.deep_view(),
            c.deep_view().name_any(),
            c.deep_view().spec.tidb_cluster->0,
        );
    }
}

/// A pass starts with what the phase and the wishes of the cluster ask for.
pub proof fn law_reconcile_with_password(c: &Cluster, password: &str, r: Flow<ClusterStep>)
    requires
        call_ensures(Cluster::reconcile_with_password, (c, password), r),
    ensures
        promises::starts(c.deep_view(), password@, r.deep_view()),
{
    promises::law_how_passes_start(c.deep_view(), password@);
}

/// A pass starts likewise where a password is made up for it, which has 32
/// characters where it goes into a secret.
pub proof fn law_reconcile(c: &Cluster, r: Flow<ClusterStep>)
    requires
        call_ensures(Cluster::reconcile, (c,), r),
    ensures
        exists|password: Seq<char>| #[trigger]
            promises::starts(c.deep_view(), password, r.deep_view()) && (r.deep_view()
                matches FlowView::Ask { request: ApiRequestView::CreateSecret { .. }, .. }
                ==> password::secure_password(password, 32)),
{
    let password = choose|password: Seq<char>|
        {
            &&& r.deep_view() == #[trigger] c.deep_view().start(password)
            &&& c.deep_view().makes_credentials() ==> password::secure_password(
                password,
                password::MIN_LENGTH as int,
            )
        };
    promises::law_how_passes_start(c.deep_view(), password);
    promises::law_when_credentials_are_made(c.deep_view());
    assert(promises::starts(c.deep_view(), password, r.deep_view()));
}

/// A pass goes on as the step and the answer ask for.
pub proof fn law_resume(c: &Cluster, step: ClusterStep, reply: ApiReply, r: Flow<ClusterStep>)
    requires
        call_ensures(Cluster::resume, (c, step, reply), r),
    ensures
        promises::step_follows(c.deep_view(), step, reply.deep_view(), r.deep_view()),
{
    promises::law_what_follows_a_step(c.deep_view(), step, reply.deep_view());
}

/// The root user gets the credentials that were read.
pub proof fn law_bootstrap_root_user(c: &Cluster, reply: ApiReply, r: Flow<ClusterStep>)
    requires
        call_ensures(Cluster::bootstrap_root_user, (c, reply), r),
    ensures
        promises::step_follows(
            c.deep_view(),
            ClusterStep::BootstrapSecret,
            reply.deep_view(),
            r.deep_view(),
        ),
{
    promises::law_root_user_has_the_credentials(c.deep_view(), reply.deep_view());
}

/// Watched servers settle, and nothing is written down that is so already.
pub proof fn law_settle(c: &Cluster, watched: Watched, ready: bool, r: Flow<ClusterStep>)
    requires
        call_ensures(Cluster::settle, (c, watched, ready), r),
    ensures
        ready && watched is Ready ==> promise::waits(r.deep_view(), 120),
        ready && !(watched is Ready) ==> promises::sets_phase(
            c.deep_view(),
            r.deep_view(),
            Phase::Ready,
        ),
        !ready && watched is NotReady ==> promise::waits(r.deep_view(), 30),
        !ready && !(watched is NotReady) ==> promises::sets_phase(
            c.deep_view(),
            r.deep_view(),
            Phase::NotReady,
        ),
{
    promises::law_watched_servers_settle(c.deep_view(), watched, ready);
}

/// One available replica is enough.
pub proof fn law_check_ready(available_replicas: Option<i32>, r: bool)
    requires
        call_ensures(reconcile::check_ready, (available_replicas,), r),
    ensures
        r <==> available_replicas is Some && available_replicas->0 >= 1,
{
}

/// After a failure, whatever it was, a cluster is looked at again in five
/// minutes.
pub proof fn law_error_policy(e: &Error, r: Action)
    requires
        call_ensures(reconcile::error_policy, (e,), r),
    ensures
        r == (Action::Requeue { seconds: 300 }),
{
}

/// The cleanup starts with the deployment.
pub proof fn law_cleanup(c: &Cluster, r: Flow<CleanupStep>)
    requires
        call_ensures(Cluster::cleanup, (c,), r),
    ensures
        promises::asks_about(c.deep_view(), r.deep_view(), OwnedKind::Deployment),
{
}

/// The cleanup goes on as the step and the answer ask for.
pub proof fn law_resume_cleanup(
    c: &Cluster,
    step: CleanupStep,
    reply: ApiReply,
    r: Flow<CleanupStep>,
)
    requires
        call_ensures(Cluster::resume_cleanup, (c, step, reply), r),
    ensures
        promises::cleanup_follows(c.deep_view(), step, reply.deep_view(), r.deep_view()),
{
    promises::law_what_follows_a_cleanup_step(c.deep_view(), step, reply.deep_view());
}

/// An object that was looked at is deleted if it belongs to the cluster.
pub proof fn law_delete_if_exists(
    c: &Cluster,
    kind: OwnedKind,
    reply: ApiReply,
    r: Flow<CleanupStep>,
)
    requires
        call_ensures(Cluster::delete_if_exists, (c, kind, reply), r),
    ensures
        promises::cleanup_follows(
            c.deep_view(),
            CleanupStep::Look { kind },
            reply.deep_view(),
            r.deep_view(),
        ),
{
    promises::law_what_follows_a_cleanup_step(
        c.deep_view(),
        CleanupStep::Look { kind },
        reply.deep_view(),
    );
}

/// The objects of a cluster are looked for under the names that they have.
pub proof fn law_name_of(c: &Cluster, kind: OwnedKind, r: String)
    requires
        call_ensures(Cluster::name_of, (c, kind), r),
    ensures
        r@ == promises::object_name(c.deep_view(), kind),
{
}

/// A new cluster has a name and what it was asked for, and nothing else.
pub proof fn law_new(name: &str, spec: Spec, r: Cluster)
    requires
        call_ensures(Cluster::new, (name, spec), r),
    ensures
        promise::is_bare(r.metadata.deep_view(), name@),
        r.spec.deep_view() == spec.deep_view(),
        r.status is None,
{
}

} // verus!
