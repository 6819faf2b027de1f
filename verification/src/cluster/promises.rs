//! What a pass over a cluster comes to, in terms of what stands in the cluster
//! and in the answers.
use crate::api::{
    Action, ApiReplyView, ApiRequestView, FlowView, OwnedKind, Propagation,
};
use crate::cluster::cleanup::CleanupStep;
use crate::cluster::crd::{ClusterView, Phase, SpecView};
use crate::cluster::laws;
use crate::cluster::reconcile::{self, ClusterStep, Rollout, Watched};
use crate::cluster::resources::{BOOTSTRAP_HTTP_SERVER_URL_ANNOTATION, CLUSTER_FINALIZER};
use crate::objects::{
    DeploymentView, EnvVarView, ObjectMetaView, OwnerReferenceView, SecretView, ServiceView,
    TidbClusterSpecView, TidbClusterStatusView,
};
use crate::password;
use crate::promise;
use crate::sql;
use crate::text;
use crate::user::reconcile as user_reconcile;
use vstd::prelude::*;

verus! {

/// The phase that a cluster is in, `New` as long as nothing is said of it.
pub open spec fn stage(c: ClusterView) -> Phase {
    match c.status {
        Some(status) if status.phase is Some => status.phase->0,
        _ => Phase::New,
    }
}

/// What the deployment and the service of a cluster are called.
pub open spec fn server_name(c: ClusterView) -> Seq<char> {
    promise::called(c.metadata) + "-surrealdb"@
}

/// The labels of the deployment, of its servers and of the service, which go by
/// a name.
pub open spec fn server_labels(c: ClusterView, name: Seq<char>) -> Map<Seq<char>, Seq<char>> {
    map![
        "app.kubernetes.io/name"@ => "surrealdb"@,
        "surrealdb.aexol.com/cluster"@ => promise::called(c.metadata),
        "surrealdb.aexol.com/name"@ => name,
    ]
}

/// The metadata of an object of a cluster: a name, the namespace of the cluster,
/// labels, the cluster for an owner, and nothing else.
pub open spec fn belongs(
    c: ClusterView,
    meta: ObjectMetaView,
    name: Seq<char>,
    labels: Option<Map<Seq<char>, Seq<char>>>,
) -> bool {
    &&& meta.name == Some(name)
    &&& meta.namespace == c.metadata.namespace
    &&& meta.labels == labels
    &&& meta.owner_references matches Some(owners) && owners.len() == 1
    &&& c.metadata.name is Some && c.metadata.uid is Some ==> promise::refers_to(
        meta.owner_references->0[0],
        c.metadata,
        "Cluster"@,
    )
    &&& meta.generate_name is None
    &&& meta.uid is None
    &&& meta.finalizers is None
    &&& meta.deletion_timestamp is None
}

/// A variable says where the data of a cluster lies: with the TiDB cluster that
/// is managed for it, if there is one, and where a secret says, if one is named.
pub open spec fn leads_to_the_data(c: ClusterView, path: EnvVarView) -> bool {
    &&& path.name == "SURREAL_PATH"@
    &&& c.spec.tidb_cluster is Some ==> path.value == Some(
        "tikv://"@ + promise::called(c.metadata) + "-pd:2379"@,
    )
    &&& c.spec.tidb_cluster is None ==> path.value is None
    &&& path.secret_key_ref == c.spec.tikv_secret_ref
}

/// A variable is set to `true`.
pub open spec fn is_on(variable: EnvVarView, name: Seq<char>) -> bool {
    variable.name == name && variable.value == Some("true"@) && variable.secret_key_ref is None
}

/// The servers of a cluster find its data, whether they let everyone in or not:
/// with its managed TiDB cluster whatever secret is named, and through the key
/// of a secret whatever is managed.
pub proof fn law_servers_find_the_data(c: ClusterView, open: bool)
    ensures
        ({
            let env = c.env(open);
            let at: int = if open {
                0
            } else {
                1
            };
            &&& env.len() == 2
            &&& leads_to_the_data(c, env[at])
            &&& is_on(
                env[1 - at],
                if open {
                    "SURREAL_UNAUTHENTICATED"@
                } else {
                    "SURREAL_AUTH"@
                },
            )
        }),
{
}

/// Both modes read the data of a cluster from the same place.
pub proof fn law_modes_share_the_data(c: ClusterView, i: int, j: int)
    requires
        0 <= i < c.env(true).len(),
        0 <= j < c.env(false).len(),
        c.env(true)[i].name == "SURREAL_PATH"@,
        c.env(false)[j].name == "SURREAL_PATH"@,
    ensures
        c.env(true)[i] == c.env(false)[j],
        leads_to_the_data(c, c.env(true)[i]),
{
    reveal_strlit("SURREAL_PATH");
    reveal_strlit("SURREAL_AUTH");
    reveal_strlit("SURREAL_UNAUTHENTICATED");
    law_servers_find_the_data(c, true);
    law_servers_find_the_data(c, false);
    assert("SURREAL_PATH"@[8] != "SURREAL_AUTH"@[8]);
    assert("SURREAL_PATH"@.len() != "SURREAL_UNAUTHENTICATED"@.len());
}

/// A deployment starts the servers of a cluster as the cluster wants them.
pub open spec fn starts_servers(
    c: ClusterView,
    name: Seq<char>,
    d: DeploymentView,
    open: bool,
) -> bool {
    let labels = server_labels(c, name);
    &&& belongs(c, d.metadata, name, Some(labels))
    &&& d.match_labels == labels
    &&& d.template_labels == labels
    &&& c.spec.replicas matches Some(n) ==> d.replicas == n
    &&& c.spec.replicas is None ==> d.replicas == 1
    &&& d.container.name == "surrealdb"@
    &&& c.spec.surrealdb_image matches Some(image) ==> d.container.image == image
    &&& c.spec.surrealdb_image is None ==> d.container.image == "surrealdb/surrealdb:latest"@
    &&& d.container.args == seq!["start"@, "--bind"@, "0.0.0.0:8000"@]
    &&& d.container.env.len() == 2
    &&& open ==> leads_to_the_data(c, d.container.env[0]) && is_on(
        d.container.env[1],
        "SURREAL_UNAUTHENTICATED"@,
    )
    &&& !open ==> leads_to_the_data(c, d.container.env[1]) && is_on(
        d.container.env[0],
        "SURREAL_AUTH"@,
    )
    &&& d.container.ports.len() == 1
    &&& d.container.ports[0].container_port == 8000
    &&& d.container.ports[0].name == "http"@
    &&& d.container.ports[0].protocol == "TCP"@
    &&& d.container.readiness_probe.path == "/health"@
    &&& d.container.readiness_probe.port == 8000
    &&& d.container.readiness_probe.scheme == "HTTP"@
    &&& d.container.readiness_probe.initial_delay_seconds == 5
    &&& d.container.readiness_probe.period_seconds == 10
    &&& d.container.liveness_probe == d.container.readiness_probe
}

/// A service stands in front of the servers of a cluster.
pub open spec fn fronts_servers(c: ClusterView, name: Seq<char>, s: ServiceView) -> bool {
    let labels = server_labels(c, name);
    &&& belongs(c, s.metadata, name, Some(labels))
    &&& s.selector == labels
    &&& s.service_type == "ClusterIP"@
    &&& s.ports.len() == 1
    &&& s.ports[0].port == 8000
    &&& s.ports[0].target_port == 8000
    &&& s.ports[0].name == "http"@
    &&& s.ports[0].protocol == "TCP"@
}

/// A secret holds root credentials that were made for a cluster.
pub open spec fn keeps_credentials(c: ClusterView, s: SecretView, password: Seq<char>) -> bool {
    &&& belongs(c, s.metadata, promise::called(c.metadata) + "-surrealdb-root"@, None)
    &&& s.secret_type == "Opaque"@
    &&& s.data is None
    &&& s.string_data == Some(map!["user"@ => "root"@, "password"@ => password])
}

/// What is labelled for a cluster says which cluster it is, and which name it
/// goes by, if any.
pub proof fn law_labels_name_the_cluster(c: ClusterView, suffix: Seq<char>)
    ensures
        suffix.len() > 0 ==> c.labels(suffix) == server_labels(c, suffix),
        suffix.len() == 0 ==> c.labels(suffix) == map![
            "app.kubernetes.io/name"@ => "surrealdb"@,
            "surrealdb.aexol.com/cluster"@ => promise::called(c.metadata),
        ],
{
    assert(suffix.len() > 0 ==> c.labels(suffix) =~= server_labels(c, suffix));
}

/// The deployment that is built for a cluster starts its servers with the image,
/// in the number and on the data that the cluster asks for, in either mode.
pub proof fn law_deployment_starts_the_servers(c: ClusterView, name: Seq<char>, open: bool)
    ensures
        starts_servers(c, name + "-surrealdb"@, c.surreal_deployment(name, open), open),
{
    reveal_strlit("-surrealdb");
    law_labels_name_the_cluster(c, name + "-surrealdb"@);
    law_servers_find_the_data(c, open);
}

/// The deployments of the two modes differ in the environment of the servers
/// only.
pub proof fn law_modes_differ_in_the_environment(c: ClusterView, name: Seq<char>)
    ensures
        ({
            let open = c.surreal_deployment(name, true);
            let closed = c.surreal_deployment(name, false);
            &&& open.metadata == closed.metadata
            &&& open.replicas == closed.replicas
            &&& open.match_labels == closed.match_labels
            &&& open.template_labels == closed.template_labels
            &&& open.container.name == closed.container.name
            &&& open.container.image == closed.container.image
            &&& open.container.args == closed.container.args
            &&& open.container.ports == closed.container.ports
            &&& open.container.readiness_probe == closed.container.readiness_probe
            &&& open.container.liveness_probe == closed.container.liveness_probe
            &&& open.container.env != closed.container.env
        }),
{
    reveal_strlit("SURREAL_UNAUTHENTICATED");
    reveal_strlit("SURREAL_AUTH");
    law_servers_find_the_data(c, true);
    law_servers_find_the_data(c, false);
    reveal_strlit("SURREAL_PATH");
    assert("SURREAL_PATH"@[8] != "SURREAL_AUTH"@[8]);
    assert(c.env(true)[0].name != c.env(false)[0].name);
}

/// The service that is built for a cluster stands in front of its servers.
pub proof fn law_service_fronts_the_servers(c: ClusterView, name: Seq<char>)
    ensures
        fronts_servers(c, name + "-surrealdb"@, c.surreal_service(name)),
{
    reveal_strlit("-surrealdb");
    law_labels_name_the_cluster(c, name + "-surrealdb"@);
}

/// The port of the service is the one that statements are posted to and that
/// users are told of, and leads to the one that the servers listen on and are
/// probed at.
pub proof fn law_service_is_called_at_its_port(c: ClusterView, name: Seq<char>, open: bool)
    ensures
        ({
            let service = c.surreal_service(name);
            let container = c.surreal_deployment(name, open).container;
            let host = service.metadata.name->0;
            let port = text::decimal_text(service.ports[0].port as nat);
            &&& service.ports[0].port == 8000
            &&& sql::sql_path(c.ns(), name) == "/api/v1/namespaces/"@ + c.ns() + "/services/"@
                + host + ":"@ + port + "/proxy/sql"@
            &&& user_reconcile::server_url(c.ns(), name) == "http://"@ + host + "."@ + c.ns()
                + ".svc:"@ + port
            &&& service.ports[0].target_port == container.ports[0].container_port
            &&& container.args.last() == "0.0.0.0:"@ + text::decimal_text(
                service.ports[0].target_port as nat,
            )
            &&& container.readiness_probe.port == service.ports[0].target_port
            &&& container.liveness_probe.port == service.ports[0].target_port
        }),
{
    law_service_fronts_the_servers(c, name);
    law_deployment_starts_the_servers(c, name, open);
    assert(text::decimal_text(8000) =~= seq!['8', '0', '0', '0']) by {
        reveal_with_fuel(text::decimal_text, 5);
        assert(text::decimal_text(8) =~= seq!['8']);
        assert(text::decimal_text(80) =~= seq!['8', '0']);
        assert(text::decimal_text(800) =~= seq!['8', '0', '0']);
    }
    reveal_strlit("-surrealdb");
    reveal_strlit("-surrealdb:8000/proxy/sql");
    reveal_strlit("/proxy/sql");
    reveal_strlit(":");
    reveal_strlit("-surrealdb.");
    reveal_strlit(".");
    reveal_strlit(".svc:8000");
    reveal_strlit(".svc:");
    reveal_strlit("0.0.0.0:8000");
    reveal_strlit("0.0.0.0:");
    let host = name + "-surrealdb"@;
    let port = text::decimal_text(8000);
    assert(sql::sql_path(c.ns(), name) =~= "/api/v1/namespaces/"@ + c.ns() + "/services/"@ + host
        + ":"@ + port + "/proxy/sql"@);
    assert(user_reconcile::server_url(c.ns(), name) =~= "http://"@ + host + "."@ + c.ns()
        + ".svc:"@ + port);
    assert("0.0.0.0:8000"@ =~= "0.0.0.0:"@ + port);
}

/// The secret with made root credentials belongs to the cluster, and holds the
/// name `root` and the password.
pub proof fn law_secret_keeps_the_credentials(c: ClusterView, password: Seq<char>)
    ensures
        keeps_credentials(c, c.root_secret(password), password),
{
    assert(c.root_secret(password).string_data->0 =~= map![
        "user"@ => "root"@,
        "password"@ => password,
    ]);
}

/// A TiDB cluster is ready if one of its conditions says so.
pub open spec fn tidb_is_ready(status: Option<TidbClusterStatusView>) -> bool {
    &&& status matches Some(s)
    &&& s.conditions matches Some(conditions)
    &&& exists|i: int|
        {
            &&& 0 <= i < conditions.len()
            &&& (#[trigger] conditions[i]).type_ == "Ready"@ || conditions[i].type_
                == "Available"@
            &&& conditions[i].status == "True"@ || conditions[i].status == "true"@
                || conditions[i].status == "TRUE"@
        }
}

/// A TiDB cluster counts as ready exactly if one of its conditions says so.
pub proof fn law_when_tidb_is_ready(status: Option<TidbClusterStatusView>)
    ensures
        tidb_is_ready(status) <==> (status matches Some(s) && s.ready()),
{
    if status matches Some(s) && s.conditions is Some {
        let conditions = status->0.conditions->0;
        if status->0.ready() {
            let i = choose|i: int| 0 <= i < conditions.len() && (#[trigger] conditions[i]).usable();
            assert(conditions[i].usable());
        }
        if tidb_is_ready(status) {
            let i = choose|i: int|
                {
                    &&& 0 <= i < conditions.len()
                    &&& (#[trigger] conditions[i]).type_ == "Ready"@ || conditions[i].type_
                        == "Available"@
                    &&& conditions[i].status == "True"@ || conditions[i].status == "true"@
                        || conditions[i].status == "TRUE"@
                };
            assert(conditions[i].usable());
        }
    }
}

/// The servers are up: the deployment has an available replica.
pub open spec fn up(reply: ApiReplyView) -> bool {
    reply matches ApiReplyView::Deployment { available_replicas: Some(n) } && n > 0
}

/// A pass sets the phase of its cluster.
pub open spec fn sets_phase(c: ClusterView, flow: FlowView<ClusterStep>, phase: Phase) -> bool {
    flow matches FlowView::Ask { request, .. } && request == (ApiRequestView::PatchClusterStatus {
        namespace: c.metadata.namespace->0,
        name: promise::called(c.metadata),
        phase,
    })
}

/// A pass applies the deployment of its cluster, as the sole manager of what is
/// in it.
pub open spec fn applies_deployment(
    c: ClusterView,
    flow: FlowView<ClusterStep>,
    open: bool,
) -> bool {
    &&& flow matches FlowView::Ask {
        request: ApiRequestView::ApplyDeployment { namespace, name, manager, force, deployment },
        ..
    }
    &&& namespace == c.metadata.namespace->0
    &&& name == server_name(c)
    &&& manager == "sdb-controller"@
    &&& force
    &&& starts_servers(c, server_name(c), deployment, open)
}

/// A pass applies the service of its cluster, likewise.
pub open spec fn applies_service(c: ClusterView, flow: FlowView<ClusterStep>) -> bool {
    &&& flow matches FlowView::Ask {
        request: ApiRequestView::ApplyService { namespace, name, manager, force, service },
        ..
    }
    &&& namespace == c.metadata.namespace->0
    &&& name == server_name(c)
    &&& manager == "sdb-controller"@
    &&& force
    &&& fronts_servers(c, server_name(c), service)
}

/// A pass looks at the deployment of its cluster.
pub open spec fn looks_at_servers(c: ClusterView, flow: FlowView<ClusterStep>) -> bool {
    flow matches FlowView::Ask { request, .. } && request == (ApiRequestView::GetDeployment {
        namespace: c.metadata.namespace->0,
        name: server_name(c),
    })
}

/// A pass looks at the TiDB cluster of its cluster.
pub open spec fn looks_at_tidb(c: ClusterView, flow: FlowView<ClusterStep>) -> bool {
    flow matches FlowView::Ask { request, .. } && request == (ApiRequestView::GetTidbCluster {
        namespace: c.metadata.namespace->0,
        name: promise::called(c.metadata),
    })
}

/// A pass creates the TiDB cluster of its cluster, with the manifest that the
/// cluster gives.
pub open spec fn creates_tidb(c: ClusterView, flow: FlowView<ClusterStep>) -> bool {
    &&& flow matches FlowView::Ask {
        request: ApiRequestView::CreateTidbCluster { namespace, tidb_cluster },
        ..
    }
    &&& namespace == c.metadata.namespace->0
    &&& belongs(c, tidb_cluster.metadata, promise::called(c.metadata), None)
    &&& c.spec.tidb_cluster == Some(tidb_cluster.spec)
}

/// A pass creates root credentials for its cluster.
pub open spec fn creates_credentials(
    c: ClusterView,
    flow: FlowView<ClusterStep>,
    password: Seq<char>,
) -> bool {
    &&& flow matches FlowView::Ask {
        request: ApiRequestView::CreateSecret { namespace, secret },
        ..
    }
    &&& namespace == c.metadata.namespace->0
    &&& keeps_credentials(c, secret, password)
}

/// A pass writes down which secret has the root credentials that it made.
pub open spec fn names_credentials(c: ClusterView, flow: FlowView<ClusterStep>) -> bool {
    &&& flow matches FlowView::Ask {
        request: ApiRequestView::ReplaceRootSecret { namespace, name, path, root_secret },
        ..
    }
    &&& namespace == c.metadata.namespace->0
    &&& name == promise::called(c.metadata)
    &&& path == "/spec/rootSecret"@
    &&& root_secret.name == Some(promise::called(c.metadata) + "-surrealdb-root"@)
    &&& root_secret.namespace == Some(c.metadata.namespace->0)
}

/// A pass reads the root credentials of its cluster.
pub open spec fn reads_credentials(c: ClusterView, flow: FlowView<ClusterStep>) -> bool {
    &&& flow matches FlowView::Ask { request: ApiRequestView::GetSecret { namespace, name }, .. }
    &&& namespace == c.metadata.namespace->0
    &&& c.spec.root_secret matches Some(reference)
    &&& reference.name == Some(name)
}

/// A pass creates the root user of its cluster, with the credentials that an
/// answer held, through servers that ask for none.
pub open spec fn creates_root_user(
    c: ClusterView,
    flow: FlowView<ClusterStep>,
    reply: ApiReplyView,
) -> bool {
    &&& flow matches FlowView::Ask { request: ApiRequestView::PostSql { request }, .. }
    &&& reply matches ApiReplyView::Secret { data: Some(data) }
    &&& promise::posts_statement(
        request,
        c.metadata.namespace->0,
        promise::called(c.metadata),
        None,
        "DEFINE USER "@ + promise::readable(data["user"@]) + " ON ROOT PASSWORD '"@
            + promise::readable(data["password"@]) + "' ROLES OWNER;"@,
    )
}

/// A new cluster goes on once it has root credentials: to be prepared, where a
/// TiDB cluster is managed for it, and to be created otherwise.
pub open spec fn leaves_new(c: ClusterView, flow: FlowView<ClusterStep>) -> bool {
    if c.spec.tidb_cluster is Some {
        sets_phase(c, flow, Phase::Preparing)
    } else {
        sets_phase(c, flow, Phase::InCreation)
    }
}

/// How a pass over a cluster starts, by its phase and by what is asked of it.
pub open spec fn starts(c: ClusterView, password: Seq<char>, flow: FlowView<ClusterStep>) -> bool {
    match stage(c) {
        Phase::New => {
            if c.spec.tidb_cluster is None && c.spec.tikv_secret_ref is None {
                sets_phase(c, flow, Phase::Error)
            } else if c.spec.root_secret is None {
                creates_credentials(c, flow, password)
            } else {
                leaves_new(c, flow)
            }
        },
        Phase::Preparing => {
            if c.spec.tidb_cluster is Some {
                creates_tidb(c, flow)
            } else {
                looks_at_tidb(c, flow)
            }
        },
        Phase::InCreation => looks_at_servers(c, flow),
        Phase::InProgress | Phase::Ready | Phase::NotReady | Phase::Error => {
            applies_deployment(c, flow, false)
        },
    }
}

/// A pass over a cluster starts with what its phase and its wishes ask for.
pub proof fn law_how_passes_start(c: ClusterView, password: Seq<char>)
    ensures
        starts(c, password, c.run(password, seq![])),
{
    law_deployment_starts_the_servers(c, promise::called(c.metadata), false);
    law_secret_keeps_the_credentials(c, password);
    if c.spec.tidb_cluster is Some {
        let owners = c.tidb_object(c.name_any(), c.spec.tidb_cluster->0).metadata.owner_references;
        assert(owners->0 =~= seq![c.owner_ref()->0]);
    }
}

/// What follows the answer to a call of a pass over a cluster, by the call, by
/// the answer, and by what stands in the cluster.
pub open spec fn follows(
    c: ClusterView,
    request: ApiRequestView,
    reply: ApiReplyView,
    flow: FlowView<ClusterStep>,
) -> bool {
    let failed = reply is Failed;
    match request {
        ApiRequestView::PatchClusterStatus { phase, .. } => match phase {
            Phase::Error => {
                if failed && c.spec.tidb_cluster is None && c.spec.tikv_secret_ref is None {
                    promise::fails(flow, reply)
                } else {
                    promise::waits(flow, 30)
                }
            },
            Phase::Preparing => promise::waits(flow, 10),
            Phase::InCreation => {
                if failed && stage(c) == Phase::New {
                    promise::fails(flow, reply)
                } else {
                    applies_deployment(c, flow, true)
                }
            },
            Phase::InProgress => applies_deployment(c, flow, false),
            Phase::Ready => promise::waits(flow, 60),
            Phase::NotReady => promise::waits(flow, 30),
            Phase::New => false,
        },
        ApiRequestView::CreateSecret { .. } => {
            if failed && !promise::refused(reply, 409) {
                sets_phase(c, flow, Phase::Error)
            } else {
                names_credentials(c, flow)
            }
        },
        ApiRequestView::ReplaceRootSecret { .. } => {
            if failed {
                sets_phase(c, flow, Phase::Error)
            } else {
                leaves_new(c, flow)
            }
        },
        ApiRequestView::CreateTidbCluster { .. } => {
            if failed && !promise::refused(reply, 409) {
                promise::waits(flow, 20)
            } else {
                looks_at_tidb(c, flow)
            }
        },
        ApiRequestView::GetTidbCluster { .. } => match reply {
            ApiReplyView::TidbCluster { status } => {
                if tidb_is_ready(status) {
                    sets_phase(c, flow, Phase::InCreation)
                } else {
                    promise::waits(flow, 15)
                }
            },
            ApiReplyView::NoTidbCluster => promise::waits(flow, 10),
            _ => promise::waits(flow, 15),
        },
        ApiRequestView::GetDeployment { .. } => match stage(c) {
            Phase::InCreation => {
                if !up(reply) {
                    promise::waits(flow, 20)
                } else if c.spec.root_secret matches Some(reference) && reference.name is Some {
                    reads_credentials(c, flow)
                } else {
                    promise::waits(flow, 30)
                }
            },
            Phase::InProgress => {
                if up(reply) {
                    sets_phase(c, flow, Phase::Ready)
                } else {
                    sets_phase(c, flow, Phase::NotReady)
                }
            },
            Phase::Ready => {
                if up(reply) {
                    promise::waits(flow, 120)
                } else {
                    sets_phase(c, flow, Phase::NotReady)
                }
            },
            Phase::NotReady => {
                if up(reply) {
                    sets_phase(c, flow, Phase::Ready)
                } else {
                    promise::waits(flow, 30)
                }
            },
            _ => false,
        },
        ApiRequestView::GetSecret { .. } => {
            if promise::has_credentials(reply) && crate::outside::built_uri(
                promise::statement_path(c.metadata.namespace->0, promise::called(c.metadata)),
            ) is Ok {
                creates_root_user(c, flow, reply)
            } else {
                promise::waits(flow, 30)
            }
        },
        ApiRequestView::PostSql { .. } => {
            if failed {
                promise::waits(flow, 30)
            } else {
                sets_phase(c, flow, Phase::InProgress)
            }
        },
        ApiRequestView::ApplyDeployment { .. } => {
            if !failed {
                applies_service(c, flow)
            } else if stage(c) == Phase::Error {
                promise::waits(flow, 45)
            } else {
                promise::fails(flow, reply)
            }
        },
        ApiRequestView::ApplyService { .. } => {
            if failed && stage(c) != Phase::Error {
                promise::fails(flow, reply)
            } else {
                match stage(c) {
                    Phase::New | Phase::Preparing | Phase::InCreation => promise::waits(flow, 20),
                    Phase::InProgress | Phase::Ready | Phase::NotReady => looks_at_servers(c, flow),
                    Phase::Error => promise::waits(flow, 45),
                }
            }
        },
        _ => false,
    }
}

/// Whatever answers a pass has had, the next one leads to what follows from the
/// call that it answers. A pass that has ended has ended.
pub proof fn law_what_follows_a_call(
    c: ClusterView,
    password: Seq<char>,
    replies: Seq<ApiReplyView>,
    reply: ApiReplyView,
)
    ensures
        match c.run(password, replies) {
            FlowView::Ask { request, .. } => follows(
                c,
                request,
                reply,
                c.run(password, replies.push(reply)),
            ),
            FlowView::Done { .. } => c.run(password, replies.push(reply)) == c.run(
                password,
                replies,
            ),
        },
{
    laws::law_one_more_answer(c, password, replies, reply);
    if c.run(password, replies) is Ask {
        laws::law_calls_belong_to_the_phase(c, password, replies);
        lemma_next_follows(
            c,
            c.run(password, replies)->step,
            c.run(password, replies)->request,
            reply,
        );
    }
}

proof fn lemma_next_follows(
    c: ClusterView,
    step: ClusterStep,
    request: ApiRequestView,
    reply: ApiReplyView,
)
    requires
        c.request_at(step, request),
    ensures
        follows(c, request, reply, c.next(step, reply)),
{
    let name = promise::called(c.metadata);
    law_deployment_starts_the_servers(c, name, true);
    law_deployment_starts_the_servers(c, name, false);
    law_service_fronts_the_servers(c, name);
    if reply is TidbCluster {
        law_when_tidb_is_ready(reply->status);
    }
    if step is BootstrapSecret && promise::has_credentials(reply) {
        let data = reply->Secret_data->0;
        let user = promise::readable(data["user"@]);
        let pw = promise::readable(data["password"@]);
        promise::law_what_statements_say(seq![], seq![], user, pw);
        promise::law_statements_are_posted(
            c.metadata.namespace->0,
            name,
            None,
            sql::root_user_statement(user, pw),
        );
        assert(sql::credentials_in(reply->Secret_data) == Some((user, pw)));
    }
}

/// A cluster has a place for its data if it asks for a TiDB cluster or names a
/// secret that leads to one. Its root credentials are in the secret that it
/// names.
pub proof fn law_what_a_cluster_asks_for(c: ClusterView)
    ensures
        c.backend_configured() <==> !(c.spec.tidb_cluster is None && c.spec.tikv_secret_ref
            is None),
        c.spec.root_secret is None ==> c.credentials_secret() is None,
        c.spec.root_secret matches Some(reference) ==> c.credentials_secret() == reference.name,
        c.phase() == stage(c),
        c.name_any() == promise::called(c.metadata),
        c.owner_ref() is Some <==> c.metadata.name is Some && c.metadata.uid is Some,
        c.owner_ref() matches Some(owner) ==> promise::refers_to(owner, c.metadata, "Cluster"@),
{
}

/// Root credentials are made exactly for a new cluster with a place for its data
/// that names none, and have 32 characters.
pub proof fn law_when_credentials_are_made(c: ClusterView)
    ensures
        c.makes_credentials() <==> (stage(c) == Phase::New && c.spec.root_secret is None && (
        c.spec.tidb_cluster is Some || c.spec.tikv_secret_ref is Some)),
        password::MIN_LENGTH == 32,
{
}

/// The servers can be used as soon as one replica is available.
pub proof fn law_one_replica_is_enough(replicas: Option<i32>, reply: ApiReplyView)
    ensures
        reconcile::available(replicas) <==> (replicas is Some && replicas->0 >= 1),
        reconcile::shows_ready(reply) <==> up(reply),
{
}

/// The call that sets a phase goes to the cluster itself.
pub proof fn law_phases_are_set_at_home(c: ClusterView, phase: Phase)
    ensures
        match c.phase_request(phase) {
            ApiRequestView::PatchClusterStatus { namespace, name, phase: p } => {
                &&& Some(namespace) == c.metadata.namespace || c.metadata.namespace is None
                &&& name == promise::called(c.metadata)
                &&& p == phase
            },
            _ => false,
        },
{
}

/// The calls for root credentials create the secret and name it in the cluster,
/// whatever the phase.
pub proof fn law_credentials_are_created_and_named(
    c: ClusterView,
    step: ClusterStep,
    password: Seq<char>,
)
    ensures
        creates_credentials(
            c,
            FlowView::Ask { step, request: c.root_secret_request(password) },
            password,
        ),
        names_credentials(c, FlowView::Ask { step, request: c.root_secret_ref_request() }),
{
    law_secret_keeps_the_credentials(c, password);
}

/// The servers let everyone in on one occasion only: while the root user is
/// created.
pub proof fn law_rollouts_apply_the_deployment(c: ClusterView, rollout: Rollout)
    ensures
        applies_deployment(c, c.roll_out(rollout), rollout is Create),
        rollout.creation_mode() <==> rollout is Create,
{
    law_deployment_starts_the_servers(c, promise::called(c.metadata), true);
    law_deployment_starts_the_servers(c, promise::called(c.metadata), false);
}

/// What becomes of a cluster whose servers were looked at: one that is up is
/// ready, one that is not is not, and nothing is written down that is so already.
pub proof fn law_watched_servers_settle(c: ClusterView, watched: Watched, up: bool)
    ensures
        ({
            let flow = c.settle(watched, up);
            &&& up && watched is Ready ==> promise::waits(flow, 120)
            &&& up && !(watched is Ready) ==> sets_phase(c, flow, Phase::Ready)
            &&& !up && watched is NotReady ==> promise::waits(flow, 30)
            &&& !up && !(watched is NotReady) ==> sets_phase(c, flow, Phase::NotReady)
        }),
{
}

/// The root user is created with the credentials that were read, whatever the
/// phase, and the cluster is looked at again later where there are none or no
/// way to post a statement.
pub proof fn law_root_user_has_the_credentials(c: ClusterView, reply: ApiReplyView)
    ensures
        follows(
            c,
            ApiRequestView::GetSecret { namespace: seq![], name: seq![] },
            reply,
            c.after_credentials(reply),
        ),
{
    if promise::has_credentials(reply) {
        let data = reply->Secret_data->0;
        let user = promise::readable(data["user"@]);
        let pw = promise::readable(data["password"@]);
        promise::law_what_statements_say(seq![], seq![], user, pw);
        promise::law_statements_are_posted(
            c.metadata.namespace->0,
            promise::called(c.metadata),
            None,
            sql::root_user_statement(user, pw),
        );
        assert(sql::credentials_in(reply->Secret_data) == Some((user, pw)));
    }
}

/// The TiDB cluster that is built for a cluster belongs to it, and has the
/// manifest that was asked for.
pub proof fn law_tidb_cluster_is_as_asked(
    c: ClusterView,
    name: Seq<char>,
    spec: TidbClusterSpecView,
)
    ensures
        belongs(c, c.tidb_object(name, spec).metadata, name, None),
        c.tidb_object(name, spec).spec == spec,
{
    let owners = c.tidb_object(name, spec).metadata.owner_references;
    assert(owners->0 =~= seq![c.owner_ref()->0]);
}

/// A cluster becomes the last owner of an object, unless an owner has its uid
/// and its name already. Those that are there stay.
pub proof fn law_owners_are_kept(c: ClusterView, owners: Seq<OwnerReferenceView>)
    ensures
        ({
            let after = c.among_owners(owners);
            if exists|i: int|
                0 <= i < owners.len() && Some((#[trigger] owners[i]).uid) == c.metadata.uid
                    && owners[i].name == promise::called(c.metadata) {
                after == owners
            } else {
                &&& after.drop_last() == owners
                &&& c.metadata.name is Some && c.metadata.uid is Some ==> promise::refers_to(
                    after.last(),
                    c.metadata,
                    "Cluster"@,
                )
            }
        }),
{
    let after = c.among_owners(owners);
    if exists|i: int|
        0 <= i < owners.len() && Some((#[trigger] owners[i]).uid) == c.metadata.uid
            && owners[i].name == promise::called(c.metadata) {
        let i = choose|i: int|
            0 <= i < owners.len() && Some((#[trigger] owners[i]).uid) == c.metadata.uid
                && owners[i].name == promise::called(c.metadata);
        assert(c.named_by(owners[i]));
    } else {
        assert forall|i: int| 0 <= i < owners.len() implies !c.named_by(#[trigger] owners[i]) by {
            assert(!(Some(owners[i].uid) == c.metadata.uid && owners[i].name == promise::called(
                c.metadata,
            )));
        }
        assert(after.drop_last() =~= owners);
    }
}

/// A new cluster has a name and what it was asked for, and nothing else. Where
/// nothing is asked for, every choice is open.
pub proof fn law_new_clusters_are_bare(name: Seq<char>, spec: SpecView)
    ensures
        ({
            let c = ClusterView::new(name, spec);
            &&& promise::is_bare(c.metadata, name)
            &&& c.spec == spec
            &&& c.status is None
        }),
        ({
            let open = SpecView::empty();
            &&& open.replicas is None
            &&& open.surrealdb_image is None
            &&& open.root_secret is None
            &&& open.tikv_secret_ref is None
            &&& open.tidb_cluster is None
        }),
{
}

/// The finalizer and the annotation of clusters.
pub proof fn law_marks_are_those_of_clusters()
    ensures
        CLUSTER_FINALIZER@ == "clusters.surrealdb.aexol.com"@,
        BOOTSTRAP_HTTP_SERVER_URL_ANNOTATION@ == "surrealdb.aexol.com/bootstrap-url"@,
{
}

/// What follows the answer that a step waited for, by the step, by the answer and
/// by what stands in the cluster.
pub open spec fn step_follows(
    c: ClusterView,
    step: ClusterStep,
    reply: ApiReplyView,
    flow: FlowView<ClusterStep>,
) -> bool {
    let failed = reply is Failed;
    match step {
        ClusterStep::PreflightFailed => if failed {
            promise::fails(flow, reply)
        } else {
            promise::waits(flow, 30)
        },
        ClusterStep::RootSecretCreate => {
            if failed && !promise::refused(reply, 409) {
                sets_phase(c, flow, Phase::Error)
            } else if c.spec.root_secret is None {
                names_credentials(c, flow)
            } else {
                leaves_new(c, flow)
            }
        },
        ClusterStep::RootSecretPersist => {
            if failed {
                sets_phase(c, flow, Phase::Error)
            } else {
                leaves_new(c, flow)
            }
        },
        ClusterStep::RootSecretFailed => promise::waits(flow, 30),
        ClusterStep::EnterPreparing => promise::waits(flow, 10),
        ClusterStep::EnterCreation { strict } => {
            if failed && strict {
                promise::fails(flow, reply)
            } else {
                applies_deployment(c, flow, true)
            }
        },
        ClusterStep::TidbCreate => {
            if failed && !promise::refused(reply, 409) {
                promise::waits(flow, 20)
            } else {
                looks_at_tidb(c, flow)
            }
        },
        ClusterStep::TidbGet => {
            if reply matches ApiReplyView::TidbCluster { status } && tidb_is_ready(status) {
                sets_phase(c, flow, Phase::InCreation)
            } else if reply is NoTidbCluster {
                promise::waits(flow, 10)
            } else {
                promise::waits(flow, 15)
            }
        },
        ClusterStep::CreationReadiness => {
            if !up(reply) {
                promise::waits(flow, 20)
            } else if c.spec.root_secret matches Some(reference) && reference.name is Some {
                reads_credentials(c, flow)
            } else {
                promise::waits(flow, 30)
            }
        },
        ClusterStep::BootstrapSecret => follows(
            c,
            ApiRequestView::GetSecret { namespace: seq![], name: seq![] },
            reply,
            flow,
        ),
        ClusterStep::BootstrapPost => {
            if failed {
                promise::waits(flow, 30)
            } else {
                sets_phase(c, flow, Phase::InProgress)
            }
        },
        ClusterStep::EnterProgress => applies_deployment(c, flow, false),
        ClusterStep::ApplyDeployment { rollout } => {
            if !failed {
                applies_service(c, flow)
            } else if rollout is Heal {
                promise::waits(flow, 45)
            } else {
                promise::fails(flow, reply)
            }
        },
        ClusterStep::ApplyService { rollout } => match rollout {
            Rollout::Heal => promise::waits(flow, 45),
            Rollout::Create | Rollout::Authenticate => if failed {
                promise::fails(flow, reply)
            } else {
                promise::waits(flow, 20)
            },
            Rollout::Watch { .. } => if failed {
                promise::fails(flow, reply)
            } else {
                looks_at_servers(c, flow)
            },
        },
        ClusterStep::Readiness { watched } => {
            &&& up(reply) && watched is Ready ==> promise::waits(flow, 120)
            &&& up(reply) && !(watched is Ready) ==> sets_phase(c, flow, Phase::Ready)
            &&& !up(reply) && watched is NotReady ==> promise::waits(flow, 30)
            &&& !up(reply) && !(watched is NotReady) ==> sets_phase(c, flow, Phase::NotReady)
        },
        ClusterStep::Settle { seconds } => promise::waits(flow, seconds),
    }
}

/// What follows a step depends on what stands in the cluster and in the answer,
/// and not on the phase in which the pass began.
pub proof fn law_what_follows_a_step(c: ClusterView, step: ClusterStep, reply: ApiReplyView)
    ensures
        step_follows(c, step, reply, c.next(step, reply)),
{
    let name = promise::called(c.metadata);
    law_deployment_starts_the_servers(c, name, true);
    law_deployment_starts_the_servers(c, name, false);
    law_service_fronts_the_servers(c, name);
    if reply is TidbCluster {
        law_when_tidb_is_ready(reply->status);
    }
    law_root_user_has_the_credentials(c, reply);
}

/// Two clusters with the same metadata and the same wishes take the same steps
/// on the same answers: what their status says decides where a pass begins, and
/// nothing else.
pub proof fn law_status_says_where_to_begin_only(
    a: ClusterView,
    b: ClusterView,
    step: ClusterStep,
    reply: ApiReplyView,
)
    requires
        a.metadata == b.metadata,
        a.spec == b.spec,
    ensures
        a.next(step, reply) == b.next(step, reply),
{
}

/// What an object of a cluster is called.
pub open spec fn object_name(c: ClusterView, kind: OwnedKind) -> Seq<char> {
    match kind {
        OwnedKind::Deployment | OwnedKind::Service => server_name(c),
        OwnedKind::Secret => promise::called(c.metadata) + "-surrealdb-root"@,
        OwnedKind::TidbCluster => promise::called(c.metadata),
    }
}

/// The objects of a cluster are called as they are built.
pub proof fn law_objects_are_found_by_name(c: ClusterView, kind: OwnedKind, password: Seq<char>)
    ensures
        c.owned_name(kind) == object_name(c, kind),
        Some(c.owned_name(OwnedKind::Deployment)) == c.surreal_deployment(
            promise::called(c.metadata),
            true,
        ).metadata.name,
        Some(c.owned_name(OwnedKind::Service)) == c.surreal_service(
            promise::called(c.metadata),
        ).metadata.name,
        Some(c.owned_name(OwnedKind::Secret)) == c.root_secret(password).metadata.name,
{
}

/// Somebody among the owners of an object is the cluster: it has its uid, or it
/// is of its kind, version and name.
pub open spec fn is_among(c: ClusterView, owners: Option<Seq<OwnerReferenceView>>) -> bool {
    &&& owners matches Some(all)
    &&& exists|i: int|
        0 <= i < all.len() && (Some((#[trigger] all[i]).uid) == c.metadata.uid || (all[i].kind
            == "Cluster"@ && all[i].api_version == "surrealdb.aexol.com/v1alpha1"@ && all[i].name
            == promise::called(c.metadata)))
}

/// An object belongs to a cluster exactly if the cluster is among its owners.
pub proof fn law_who_owns_what(c: ClusterView, owners: Option<Seq<OwnerReferenceView>>)
    ensures
        c.owns(owners) <==> is_among(c, owners),
{
    if owners is Some {
        let all = owners->0;
        if c.owns(owners) {
            let i = choose|i: int| 0 <= i < all.len() && c.owned_through(#[trigger] all[i]);
            assert(Some(all[i].uid) == c.metadata.uid || all[i].kind == "Cluster"@);
        }
        if is_among(c, owners) {
            let i = choose|i: int|
                0 <= i < all.len() && (Some((#[trigger] all[i]).uid) == c.metadata.uid || (
                all[i].kind == "Cluster"@ && all[i].api_version == "surrealdb.aexol.com/v1alpha1"@
                    && all[i].name == promise::called(c.metadata)));
            assert(c.owned_through(all[i]));
        }
    }
}

/// The cleanup asks who owns an object of its cluster.
pub open spec fn asks_about(
    c: ClusterView,
    flow: FlowView<CleanupStep>,
    kind: OwnedKind,
) -> bool {
    flow matches FlowView::Ask { request, .. } && request == (ApiRequestView::GetOwners {
        kind,
        namespace: c.metadata.namespace->0,
        name: object_name(c, kind),
    })
}

/// The cleanup deletes an object of its cluster: a TiDB cluster without what
/// depends on it, and any other object with it.
pub open spec fn deletes(c: ClusterView, flow: FlowView<CleanupStep>, kind: OwnedKind) -> bool {
    flow matches FlowView::Ask { request, .. } && request == (ApiRequestView::Delete {
        kind,
        namespace: c.metadata.namespace->0,
        name: object_name(c, kind),
        propagation: if kind == OwnedKind::TidbCluster {
            Propagation::Orphan
        } else {
            Propagation::Background
        },
    })
}

/// The cleanup reports that its cluster is deleted.
pub open spec fn reports(c: ClusterView, flow: FlowView<CleanupStep>) -> bool {
    &&& flow matches FlowView::Ask { request: ApiRequestView::PublishEvent { event }, .. }
    &&& event.reason == "DeleteRequested"@
    &&& event.note == "Delete `"@ + promise::called(c.metadata) + "`"@
    &&& event.action == "Deleting"@
}

/// The cleanup turns from one object to the next, and to the report after the
/// last.
pub open spec fn turns_from(c: ClusterView, flow: FlowView<CleanupStep>, kind: OwnedKind) -> bool {
    match kind {
        OwnedKind::Deployment => asks_about(c, flow, OwnedKind::Service),
        OwnedKind::Service => asks_about(c, flow, OwnedKind::Secret),
        OwnedKind::Secret => asks_about(c, flow, OwnedKind::TidbCluster),
        OwnedKind::TidbCluster => reports(c, flow),
    }
}

/// What follows the answer that a step of the cleanup waited for.
pub open spec fn cleanup_follows(
    c: ClusterView,
    step: CleanupStep,
    reply: ApiReplyView,
    flow: FlowView<CleanupStep>,
) -> bool {
    let failed = reply is Failed && !promise::refused(reply, 404);
    match step {
        CleanupStep::Look { kind } => {
            if failed {
                promise::fails(flow, reply)
            } else if reply matches ApiReplyView::Owners { owner_references } && is_among(
                c,
                owner_references,
            ) {
                deletes(c, flow, kind)
            } else {
                turns_from(c, flow, kind)
            }
        },
        CleanupStep::Remove { kind } => {
            if failed {
                promise::fails(flow, reply)
            } else {
                turns_from(c, flow, kind)
            }
        },
        CleanupStep::Report => {
            if reply is Failed {
                promise::fails(flow, reply)
            } else {
                flow matches FlowView::Done { outcome: Ok(Action::AwaitChange) }
            }
        },
    }
}

/// The cleanup goes on from any step as the answer asks for.
pub proof fn law_what_follows_a_cleanup_step(
    c: ClusterView,
    step: CleanupStep,
    reply: ApiReplyView,
)
    ensures
        cleanup_follows(c, step, reply, c.cleanup_next(step, reply)),
{
    if reply is Owners {
        law_who_owns_what(c, reply->owner_references);
    }
}

/// The cleanup starts with the deployment. It deletes what belongs to the
/// cluster, passes over what does not and what is gone, stops at any other
/// refusal, and ends with the report.
pub proof fn law_what_the_cleanup_does(
    c: ClusterView,
    replies: Seq<ApiReplyView>,
    reply: ApiReplyView,
)
    ensures
        asks_about(c, c.cleanup_run(seq![]), OwnedKind::Deployment),
        ({
            let after = c.cleanup_run(replies.push(reply));
            match c.cleanup_run(replies) {
                FlowView::Ask { request: ApiRequestView::GetOwners { kind, .. }, .. } => {
                    match reply {
                        ApiReplyView::Owners { owner_references } => {
                            if is_among(c, owner_references) {
                                deletes(c, after, kind)
                            } else {
                                turns_from(c, after, kind)
                            }
                        },
                        ApiReplyView::Failed { .. } => {
                            if promise::refused(reply, 404) {
                                turns_from(c, after, kind)
                            } else {
                                promise::fails(after, reply)
                            }
                        },
                        _ => turns_from(c, after, kind),
                    }
                },
                FlowView::Ask { request: ApiRequestView::Delete { kind, .. }, .. } => {
                    if reply is Failed && !promise::refused(reply, 404) {
                        promise::fails(after, reply)
                    } else {
                        turns_from(c, after, kind)
                    }
                },
                FlowView::Ask { request: ApiRequestView::PublishEvent { .. }, .. } => {
                    if reply is Failed {
                        promise::fails(after, reply)
                    } else {
                        after matches FlowView::Done { outcome: Ok(Action::AwaitChange) }
                    }
                },
                FlowView::Ask { .. } => false,
                FlowView::Done { .. } => after == c.cleanup_run(replies),
            }
        }),
{
    assert(replies.push(reply).drop_last() =~= replies);
    laws::law_cleanup_calls(c, replies);
    if reply is Owners {
        law_who_owns_what(c, reply->owner_references);
    }
}

} // verus!
