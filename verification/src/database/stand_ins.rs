//! What the stand-in for the API server takes and gives in passes over a
//! database.
use crate::api::{ApiReplyView, ApiRequestView};
use crate::cluster::crd::Cluster;
use crate::database::crd::{Database, DatabaseView, DbPhase, DbStatus};
use crate::database::fixtures::{self, ApiServerVerifier, HandlerView, Scenario, Script};
use crate::database::promises;
use crate::mock::{self, IncomingView};
use crate::promise;
use crate::text;
use vstd::prelude::*;

verus! {

/// Where a statement for a database is waited for: in a namespace that is given,
/// else in that of the cluster.
pub open spec fn endpoint(db: DatabaseView, ns: Option<Seq<char>>) -> Seq<char> {
    promise::statement_path(
        promise::given_or(ns, promises::cluster_home(db)),
        db.spec.cluster_ref.name,
    )
}

/// The call that a handler waits for.
pub open spec fn waits_for(h: HandlerView, db: DatabaseView, request: ApiRequestView) -> bool {
    match (h, request) {
        (HandlerView::GetCluster, ApiRequestView::GetCluster { namespace, name }) => {
            namespace == promises::cluster_home(db) && text::part_at(
                name,
                db.spec.cluster_ref.name,
                0,
            )
        },
        (
            HandlerView::GetSecretRoot { cluster_ns },
            ApiRequestView::GetSecret { namespace, name },
        ) => namespace == cluster_ns && text::part_at(name, "surreal-root"@, 0),
        (
            HandlerView::ProxyDefineNamespace { cluster_ns },
            ApiRequestView::PostSql { request },
        ) => {
            &&& mock::posts_to(request, endpoint(db, cluster_ns))
            &&& mock::says_plain_text(request)
            &&& vstd::utf8::valid_utf8(request.body)
            &&& text::part_at(vstd::utf8::decode_utf8(request.body), "DEFINE NAMESPACE "@, 0)
        },
        (
            HandlerView::ProxyDefineDatabase { cluster_ns },
            ApiRequestView::PostSql { request },
        ) => {
            &&& mock::posts_to(request, endpoint(db, cluster_ns))
            &&& vstd::utf8::valid_utf8(request.body)
            &&& text::holds(vstd::utf8::decode_utf8(request.body), "USE NS `"@)
            &&& text::holds(vstd::utf8::decode_utf8(request.body), "DEFINE DATABASE `"@)
        },
        (HandlerView::ProxyDefineNamespaceError, ApiRequestView::PostSql { request }) => {
            mock::posts_to(request, endpoint(db, None))
        },
        (HandlerView::ProxyDefineDatabaseError, ApiRequestView::PostSql { request }) => {
            mock::posts_to(request, endpoint(db, None))
        },
        (
            HandlerView::StatusPatchPhase { phase },
            ApiRequestView::PatchDatabaseStatus { namespace, name, phase: set, .. },
        ) => set == phase && namespace == db.metadata.namespace->0 && name == promise::called(
            db.metadata,
        ),
        _ => false,
    }
}

/// A handler takes the call that it waits for, and no other.
pub proof fn law_what_handlers_take(h: HandlerView, db: DatabaseView, request: ApiRequestView)
    ensures
        h.accepts(db, request) <==> waits_for(h, db, request),
{
}

/// What a handler answers: a cluster that names the secret `surreal-root`,
/// credentials whose name and password are `root`, a refusal where one is
/// played, and an acceptance otherwise.
pub proof fn law_what_handlers_answer(h: HandlerView, db: DatabaseView)
    ensures
        match (h, h.reply(db)) {
            (HandlerView::GetCluster, ApiReplyView::Cluster { cluster }) => {
                &&& cluster.metadata.name == Some(db.spec.cluster_ref.name)
                &&& cluster.metadata.namespace == Some(promises::cluster_home(db))
                &&& cluster.spec.root_secret matches Some(reference)
                &&& reference.name == Some("surreal-root"@)
                &&& reference.namespace == Some(promises::cluster_home(db))
            },
            (HandlerView::GetCluster, _) => false,
            (HandlerView::GetSecretRoot { .. }, reply) => {
                &&& promise::has_credentials(reply)
                &&& promise::readable(reply->Secret_data->0["user"@]) == "root"@
                &&& promise::readable(reply->Secret_data->0["password"@]) == "root"@
            },
            (HandlerView::ProxyDefineNamespaceError, reply) => promise::refused(reply, 400),
            (HandlerView::ProxyDefineDatabaseError, reply) => promise::refused(reply, 400),
            (HandlerView::FinalizerCreation, reply) => reply matches ApiReplyView::Database {
                database,
            } && database == db,
            (_, reply) => reply is Accepted,
        },
{
    mock::law_root_is_root();
    assert(mock::root_data().dom().contains("user"@));
    assert(mock::root_data().dom().contains("password"@));
}

/// What is sent is answered exactly if the handler takes it, with its answer.
pub proof fn law_what_is_answered(h: HandlerView, db: DatabaseView, incoming: IncomingView)
    ensures
        h.answer(db, incoming) is Some <==> match incoming {
            IncomingView::Call { request } => h.accepts(db, request),
            IncomingView::Finalizers { namespace, name, operations } => {
                &&& h is FinalizerCreation
                &&& namespace == db.metadata.namespace->0
                &&& name == promise::called(db.metadata)
                &&& mock::add_finalizers(operations)
            },
        },
        h.answer(db, incoming) matches Some(reply) ==> reply == h.reply(db),
{
}

/// The scenarios, call by call.
pub proof fn law_what_scenarios_expect(scenario: Scenario)
    ensures
        ({
            let script = fixtures::script_of(scenario);
            let at_home = HandlerView::GetSecretRoot { cluster_ns: "default"@ };
            let done = HandlerView::StatusPatchPhase { phase: DbPhase::Ready };
            match scenario {
                Scenario::NewEnsuresNamespaceAndDatabase(db) => {
                    &&& script.database == db.deep_view()
                    &&& script.handlers =~= seq![
                        HandlerView::GetCluster,
                        at_home,
                        HandlerView::ProxyDefineNamespace { cluster_ns: None },
                        HandlerView::ProxyDefineDatabase { cluster_ns: None },
                        done,
                    ]
                },
                Scenario::NewCrossNsEnsures(db) => {
                    let ns = promise::given_or(
                        db.deep_view().spec.cluster_ref.namespace,
                        "default"@,
                    );
                    &&& script.database == db.deep_view()
                    &&& script.handlers =~= seq![
                        HandlerView::GetCluster,
                        HandlerView::GetSecretRoot { cluster_ns: ns },
                        HandlerView::ProxyDefineNamespace { cluster_ns: Some(ns) },
                        HandlerView::ProxyDefineDatabase { cluster_ns: Some(ns) },
                        done,
                    ]
                },
                Scenario::NamespaceDefineError(db) => {
                    &&& script.database == db.deep_view()
                    &&& script.handlers =~= seq![
                        HandlerView::GetCluster,
                        at_home,
                        HandlerView::ProxyDefineNamespaceError,
                    ]
                },
                Scenario::DatabaseDefineError(db) => {
                    &&& script.database == db.deep_view()
                    &&& script.handlers =~= seq![
                        HandlerView::GetCluster,
                        at_home,
                        HandlerView::ProxyDefineNamespace { cluster_ns: None },
                        HandlerView::ProxyDefineDatabaseError,
                    ]
                },
                Scenario::FinalizerCreation(db) => {
                    &&& script.database == db.deep_view()
                    &&& script.handlers =~= seq![HandlerView::FinalizerCreation]
                },
            }
        }),
{
}

/// A scenario is played as it is written down.
pub proof fn law_run(verifier: ApiServerVerifier, scenario: Scenario, r: Script)
    requires
        call_ensures(ApiServerVerifier::run, (verifier, scenario), r),
    ensures
        r.deep_view() == fixtures::script_of(scenario),
{
}

/// A script is finished when nothing is expected any more.
pub proof fn law_finished(script: &Script, r: bool)
    requires
        call_ensures(Script::finished, (script,), r),
    ensures
        r <==> script.handlers@.len() == 0,
{
    assert(script.deep_view().handlers.len() == script.handlers@.len());
}

/// The cluster that is given has the name and the namespace that were asked for,
/// and names the secret `surreal-root` beside it.
pub proof fn law_give_cluster(name: &str, ns: &str, r: Cluster)
    requires
        call_ensures(fixtures::give_cluster, (name, ns), r),
    ensures
        r.metadata.name.deep_view() == Some(name@),
        r.metadata.namespace.deep_view() == Some(ns@),
        r.spec.root_secret.deep_view() is Some,
        r.spec.root_secret.deep_view()->0.name == Some("surreal-root"@),
        r.spec.root_secret.deep_view()->0.namespace == Some(ns@),
        r.spec.tidb_cluster is None,
        r.status is None,
{
}

/// Databases to try things out with differ from others in what their makers say,
/// and in nothing else.
pub proof fn law_changed_databases(
    db: Database,
    ns: &str,
    status: DbStatus,
    finalized: Database,
    seen: Database,
    elsewhere: Database,
    inside: Database,
)
    requires
        call_ensures(Database::finalized, (db,), finalized),
        call_ensures(Database::with_status, (db, status), seen),
        call_ensures(Database::with_cluster_ref_ns, (db, ns), elsewhere),
        call_ensures(Database::with_db_namespace, (db, ns), inside),
    ensures
        finalized.metadata.finalizers.deep_view() is Some,
        finalized.metadata.finalizers.deep_view()->0.last() == "databases.surrealdb.aexol.com"@,
        finalized.spec.deep_view() == db.spec.deep_view(),
        finalized.status.deep_view() == db.status.deep_view(),
        seen.status.deep_view() == Some(status.deep_view()),
        seen.metadata.deep_view() == db.metadata.deep_view(),
        seen.spec.deep_view() == db.spec.deep_view(),
        elsewhere.spec.cluster_ref.namespace.deep_view() == Some(ns@),
        elsewhere.spec.cluster_ref.name@ == db.spec.cluster_ref.name@,
        elsewhere.spec.db_namespace.deep_view() == db.spec.db_namespace.deep_view(),
        elsewhere.spec.db_name.deep_view() == db.spec.db_name.deep_view(),
        elsewhere.metadata.deep_view() == db.metadata.deep_view(),
        elsewhere.status.deep_view() == db.status.deep_view(),
        inside.spec.db_namespace.deep_view() == Some(ns@),
        inside.spec.cluster_ref.deep_view() == db.spec.cluster_ref.deep_view(),
        inside.spec.db_name.deep_view() == db.spec.db_name.deep_view(),
        inside.metadata.deep_view() == db.metadata.deep_view(),
        inside.status.deep_view() == db.status.deep_view(),
{
    promise::law_finalizers_are_added_at_the_end(
        db.deep_view().metadata,
        "databases.surrealdb.aexol.com"@,
    );
}

/// The database to try things out with.
pub proof fn law_test(r: Database)
    requires
        call_ensures(Database::test, (), r),
    ensures
        r.metadata.name.deep_view() == Some("test-db"@),
        r.metadata.namespace.deep_view() == Some("default"@),
        r.metadata.uid.deep_view() == Some("1111-11-11-11-111111"@),
        r.spec.cluster_ref.name@ == "test"@,
        r.spec.cluster_ref.namespace is None,
        r.spec.db_namespace is None,
        r.spec.db_name.deep_view() == Some("app"@),
        r.status is None,
{
}

} // verus!
