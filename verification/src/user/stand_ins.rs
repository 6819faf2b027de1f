//! What the stand-in for the API server takes and gives in passes over a user.
use crate::api::{ApiReplyView, ApiRequestView};
use crate::mock::{self, IncomingView};
use crate::promise;
use crate::text;
use crate::user::crd::{User, UserStatus, UserView};
use crate::user::fixtures::{self, ApiServerVerifier, HandlerView, Scenario, Script};
use crate::user::promises;
use vstd::prelude::*;

verus! {

/// The call that a handler waits for.
pub open spec fn waits_for(h: HandlerView, u: UserView, request: ApiRequestView) -> bool {
    match (h, request) {
        (HandlerView::GetDatabase, ApiRequestView::GetDatabase { namespace, name }) => {
            namespace == u.metadata.namespace->0 && text::part_at(
                name,
                u.spec.database_ref.name,
                0,
            )
        },
        (HandlerView::GetCluster, ApiRequestView::GetCluster { namespace, name }) => {
            namespace == promises::cluster_home(u) && text::part_at(
                name,
                u.spec.cluster_ref.name,
                0,
            )
        },
        (
            HandlerView::GetSecretRoot { cluster_ns },
            ApiRequestView::GetSecret { namespace, name },
        ) => namespace == cluster_ns && text::part_at(name, "surreal-root"@, 0),
        (HandlerView::ProxyDefineUser, ApiRequestView::PostSql { request }) => {
            let body = vstd::utf8::decode_utf8(request.body);
            &&& mock::posts_to(
                request,
                promise::statement_path(promises::cluster_home(u), u.spec.cluster_ref.name),
            )
            &&& mock::says_plain_text(request)
            &&& vstd::utf8::valid_utf8(request.body)
            &&& text::holds(body, "DEFINE USER "@)
            &&& text::holds(body, "ON DATABASE"@)
            &&& !text::holds(body, "GRANT ALL ON DB"@)
        },
        (HandlerView::CreateSecret, ApiRequestView::CreateSecret { namespace, secret }) => {
            let name = promise::given_or(secret.metadata.name, seq![]);
            &&& namespace == u.metadata.namespace->0
            &&& text::part_at(name, "-credentials"@, name.len() - "-credentials"@.len())
        },
        (
            HandlerView::CreateConfigmap,
            ApiRequestView::CreateConfigMap { namespace, config_map },
        ) => {
            let name = promise::given_or(config_map.metadata.name, seq![]);
            &&& namespace == u.metadata.namespace->0
            &&& text::part_at(name, "-config"@, name.len() - "-config"@.len())
            &&& config_map.data.contains_key("username"@)
            &&& config_map.data.contains_key("url"@)
        },
        _ => false,
    }
}

/// A handler takes the call that it waits for, and no other.
pub proof fn law_what_handlers_take(h: HandlerView, u: UserView, request: ApiRequestView)
    ensures
        h.accepts(u, request) <==> waits_for(h, u, request),
{
}

/// What a handler answers: a database that is called `app` inside its cluster, a
/// cluster that names the secret `surreal-root`, credentials whose name and
/// password are `root`, and an acceptance otherwise.
pub proof fn law_what_handlers_answer(h: HandlerView, u: UserView)
    ensures
        match (h, h.reply(u)) {
            (HandlerView::GetDatabase, ApiReplyView::Database { database }) => {
                &&& database.metadata.name == Some(u.spec.database_ref.name)
                &&& database.metadata.namespace == u.metadata.namespace
                &&& database.spec.cluster_ref.name == u.spec.cluster_ref.name
                &&& database.spec.cluster_ref.namespace is None
                &&& database.spec.db_namespace is None
                &&& database.spec.db_name == Some("app"@)
                &&& database.status is None
            },
            (HandlerView::GetDatabase, _) => false,
            (HandlerView::GetCluster, ApiReplyView::Cluster { cluster }) => {
                &&& cluster.metadata.name == Some(u.spec.cluster_ref.name)
                &&& cluster.metadata.namespace == Some(promises::cluster_home(u))
                &&& cluster.spec.root_secret matches Some(reference)
                &&& reference.name == Some("surreal-root"@)
                &&& reference.namespace == Some(promises::cluster_home(u))
            },
            (HandlerView::GetCluster, _) => false,
            (HandlerView::GetSecretRoot { .. }, reply) => {
                &&& promise::has_credentials(reply)
                &&& promise::readable(reply->Secret_data->0["user"@]) == "root"@
                &&& promise::readable(reply->Secret_data->0["password"@]) == "root"@
            },
            (_, reply) => reply is Accepted,
        },
{
    mock::law_root_is_root();
    assert(mock::root_data().dom().contains("user"@));
    assert(mock::root_data().dom().contains("password"@));
}

/// What is sent is answered exactly if the handler takes it, with its answer.
pub proof fn law_what_is_answered(h: HandlerView, u: UserView, incoming: IncomingView)
    ensures
        h.answer(u, incoming) is Some <==> match incoming {
            IncomingView::Call { request } => h.accepts(u, request),
            IncomingView::Finalizers { namespace, name, operations } => {
                &&& h is FinalizerCreation
                &&& namespace == u.metadata.namespace->0
                &&& name == promise::called(u.metadata)
                &&& mock::add_finalizers(operations)
            },
        },
        h.answer(u, incoming) matches Some(reply) ==> reply == h.reply(u),
{
}

/// The scenarios, call by call.
pub proof fn law_what_scenarios_expect(scenario: Scenario)
    ensures
        ({
            let script = fixtures::script_of(scenario);
            match scenario {
                Scenario::FinalizerCreation(u) => {
                    &&& script.user == u.deep_view()
                    &&& script.handlers =~= seq![HandlerView::FinalizerCreation]
                },
                Scenario::NewCreatesUserAndSecretAndConfigMapDefaultNames(u) => {
                    &&& script.user == u.deep_view()
                    &&& script.handlers =~= seq![
                        HandlerView::GetDatabase,
                        HandlerView::GetCluster,
                        HandlerView::GetSecretRoot { cluster_ns: "default"@ },
                        HandlerView::ProxyDefineUser,
                        HandlerView::CreateSecret,
                        HandlerView::CreateConfigmap,
                    ]
                },
            }
        }),
{
}

/// A scenario is played as it is written down.
pub proof fn law_run(verifier: ApiServerVerifier, scenario: Scenario, r: Script)
    requires
        call_ensures(ApiServerVerifier::run, (verifier, scenario), r),
    ensures
        r.deep_view() == fixtures::script_of(scenario),
{
}

/// A script is finished when nothing is expected any more.
pub proof fn law_finished(script: &Script, r: bool)
    requires
        call_ensures(Script::finished, (script,), r),
    ensures
        r <==> script.handlers@.len() == 0,
{
    assert(script.deep_view().handlers.len() == script.handlers@.len());
}

/// Users to try things out with differ from others in what their makers say, and
/// in nothing else.
pub proof fn law_changed_users(
    u: User,
    status: UserStatus,
    given: &str,
    finalized: User,
    seen: User,
    renamed: User,
    with_password: User,
)
    requires
        call_ensures(User::finalized, (u,), finalized),
        call_ensures(User::with_status, (u, status), seen),
        call_ensures(User::with_username, (u, given), renamed),
        call_ensures(User::with_password, (u, given), with_password),
    ensures
        renamed.spec.username.deep_view() == Some(given@),
        renamed.spec.password.deep_view() == u.spec.password.deep_view(),
        renamed.spec.cluster_ref.deep_view() == u.spec.cluster_ref.deep_view(),
        renamed.spec.database_ref.deep_view() == u.spec.database_ref.deep_view(),
        renamed.spec.secret_name.deep_view() == u.spec.secret_name.deep_view(),
        renamed.metadata.deep_view() == u.metadata.deep_view(),
        renamed.status.deep_view() == u.status.deep_view(),
        with_password.spec.password.deep_view() == Some(given@),
        with_password.spec.username.deep_view() == u.spec.username.deep_view(),
        with_password.spec.cluster_ref.deep_view() == u.spec.cluster_ref.deep_view(),
        with_password.spec.database_ref.deep_view() == u.spec.database_ref.deep_view(),
        with_password.spec.secret_name.deep_view() == u.spec.secret_name.deep_view(),
        with_password.metadata.deep_view() == u.metadata.deep_view(),
        with_password.status.deep_view() == u.status.deep_view(),
        finalized.metadata.finalizers.deep_view() is Some,
        finalized.metadata.finalizers.deep_view()->0.last() == "users.surrealdb.aexol.com"@,
        finalized.spec.deep_view() == u.spec.deep_view(),
        finalized.status.deep_view() == u.status.deep_view(),
        seen.status.deep_view() == Some(status.deep_view()),
        seen.metadata.deep_view() == u.metadata.deep_view(),
        seen.spec.deep_view() == u.spec.deep_view(),
{
    promise::law_finalizers_are_added_at_the_end(
        u.deep_view().metadata,
        "users.surrealdb.aexol.com"@,
    );
}

/// The user to try things out with.
pub proof fn law_test(r: User)
    requires
        call_ensures(User::test, (), r),
    ensures
        r.metadata.name.deep_view() == Some("test-user"@),
        r.metadata.namespace.deep_view() == Some("default"@),
        r.metadata.uid.deep_view() == Some("2222-22-22-22-222222"@),
        r.spec.cluster_ref.name@ == "test"@,
        r.spec.cluster_ref.namespace is None,
        r.spec.database_ref.name@ == "test-db"@,
        r.spec.database_ref.namespace is None,
        r.spec.username is None,
        r.spec.password is None,
        r.spec.secret_name is None,
        r.status is None,
{
}

} // verus!
