//! What a pass over a user comes to, in terms of what stands in the user and in
//! the answers.
use crate::api::{ApiReplyView, ApiRequestView, FlowView};
use crate::objects::{ConfigMapView, ObjectMetaView, SecretView};
use crate::outside;
use crate::promise;
use crate::sql;
use crate::text;
use crate::user::crd::{UserPhase, UserSpecView, UserView};
use crate::user::laws;
use crate::user::reconcile::{UserStepView, USER_FINALIZER};
use vstd::prelude::*;

verus! {

/// The phase that a user is in, `New` as long as nothing is said of it.
pub open spec fn stage(u: UserView) -> UserPhase {
    match u.status {
        Some(status) if status.phase is Some => status.phase->0,
        _ => UserPhase::New,
    }
}

/// The namespace in which the cluster of a user is: the one that the reference
/// to the cluster names, else that of the user.
pub open spec fn cluster_home(u: UserView) -> Seq<char> {
    promise::given_or(u.spec.cluster_ref.namespace, u.metadata.namespace->0)
}

/// The namespace in which the database of a user is: the one that the reference
/// to the database names, else that of the user.
pub open spec fn database_home(u: UserView) -> Seq<char> {
    promise::given_or(u.spec.database_ref.namespace, u.metadata.namespace->0)
}

/// Statements can be posted to the cluster of a user.
pub open spec fn is_reachable(u: UserView) -> bool {
    outside::built_uri(promise::statement_path(cluster_home(u), u.spec.cluster_ref.name)) is Ok
}

/// The statement that defines a user in a database: under the name that the user
/// asks for, else under its own, and with a password.
pub open spec fn user_text(
    u: UserView,
    ns: Seq<char>,
    db: Seq<char>,
    password: Seq<char>,
) -> Seq<char> {
    "USE NS "@ + promise::in_backticks(ns) + "; USE DB "@ + promise::in_backticks(db)
        + "; DEFINE USER "@ + promise::in_backticks(
        promise::given_or(u.spec.username, u.metadata.name->0),
    ) + " ON DATABASE PASSWORD '"@ + text::doubled(password, '\'') + "' ROLES EDITOR;"@
}

/// A pass posts a statement to the cluster of its user.
pub open spec fn posts(
    u: UserView,
    flow: FlowView<UserStepView>,
    root: (Seq<char>, Seq<char>),
    statement: Seq<char>,
) -> bool {
    &&& flow matches FlowView::Ask { request: ApiRequestView::PostSql { request }, .. }
    &&& promise::posts_statement(
        request,
        cluster_home(u),
        u.spec.cluster_ref.name,
        Some(root),
        statement,
    )
}

/// A pass sets phase and message of its user.
pub open spec fn sets_phase(
    u: UserView,
    flow: FlowView<UserStepView>,
    phase: UserPhase,
    message: Option<Seq<char>>,
) -> bool {
    flow matches FlowView::Ask { request, .. } && request == (ApiRequestView::PatchUserStatus {
        namespace: u.metadata.namespace->0,
        name: promise::called(u.metadata),
        phase,
        message,
    })
}

/// A pass writes down that an attempt failed, and why.
pub open spec fn notes_failure(
    u: UserView,
    flow: FlowView<UserStepView>,
    attempt: Seq<char>,
    reply: ApiReplyView,
) -> bool {
    &&& reply matches ApiReplyView::Failed { error }
    &&& sets_phase(
        u,
        flow,
        UserPhase::Error,
        Some(attempt + ("Kube Error: "@ + error.source.display)),
    )
}

/// A pass writes down that a statement cannot be posted to its cluster.
pub open spec fn notes_no_path(u: UserView, flow: FlowView<UserStepView>) -> bool {
    let reason = outside::built_uri(
        promise::statement_path(cluster_home(u), u.spec.cluster_ref.name),
    );
    &&& reason matches Err((display, _))
    &&& sets_phase(
        u,
        flow,
        UserPhase::Error,
        Some("provision failed: "@ + ("HTTP Error: "@ + display)),
    )
}

/// The metadata of an object of a user: a name, the namespace of the user, the
/// user for an owner as far as it can be one, and nothing else.
pub open spec fn belongs(u: UserView, meta: ObjectMetaView, name: Seq<char>) -> bool {
    &&& meta.name == Some(name)
    &&& meta.namespace == Some(u.metadata.namespace->0)
    &&& if u.metadata.name is Some && u.metadata.uid is Some {
        &&& meta.owner_references matches Some(owners)
        &&& owners.len() == 1
        &&& promise::refers_to(owners[0], u.metadata, "User"@)
    } else {
        meta.owner_references is None
    }
    &&& meta.generate_name is None
    &&& meta.uid is None
    &&& meta.labels is None
    &&& meta.finalizers is None
    &&& meta.deletion_timestamp is None
}

/// A secret keeps the password of a user, under the name that the user asks for,
/// else under one that is made of its own.
pub open spec fn keeps_password(u: UserView, secret: SecretView, password: Seq<char>) -> bool {
    &&& belongs(
        u,
        secret.metadata,
        promise::given_or(u.spec.secret_name, promise::called(u.metadata) + "-credentials"@),
    )
    &&& secret.secret_type == "Opaque"@
    &&& secret.string_data is None
    &&& secret.data == Some(map!["password"@ => vstd::utf8::encode_utf8(password)])
}

/// A config map tells a user its name and the way to its cluster.
pub open spec fn tells_the_way(u: UserView, config_map: ConfigMapView) -> bool {
    &&& belongs(u, config_map.metadata, promise::called(u.metadata) + "-config"@)
    &&& config_map.data == map![
        "username"@ => promise::given_or(u.spec.username, u.metadata.name->0),
        "url"@ => "http://"@ + u.spec.cluster_ref.name + "-surrealdb."@ + cluster_home(u)
            + ".svc:8000"@,
    ]
}

/// The call that sets phase and message goes to the user itself.
pub proof fn law_phases_are_set_at_home(
    u: UserView,
    phase: UserPhase,
    message: Option<Seq<char>>,
)
    ensures
        match u.phase_request(phase, message) {
            ApiRequestView::PatchUserStatus { namespace, name, phase: p, message: m } => {
                &&& Some(namespace) == u.metadata.namespace || u.metadata.namespace is None
                &&& name == promise::called(u.metadata)
                &&& p == phase
                &&& m == message
            },
            _ => false,
        },
{
}

/// The secret of a user keeps its password.
pub proof fn law_secret_keeps_the_password(u: UserView, password: Seq<char>)
    ensures
        keeps_password(u, u.secret(password), password),
{
    assert(u.secret(password).data->0 =~= map![
        "password"@ => vstd::utf8::encode_utf8(password),
    ]);
}

/// The config map of a user tells it the way.
pub proof fn law_config_map_tells_the_way(u: UserView)
    ensures
        tells_the_way(u, u.config_map()),
{
    assert(u.config_map().data =~= map![
        "username"@ => promise::given_or(u.spec.username, u.metadata.name->0),
        "url"@ => "http://"@ + u.spec.cluster_ref.name + "-surrealdb."@ + cluster_home(u)
            + ".svc:8000"@,
    ]);
}

/// A user is defined in the database that is asked for, with the password that
/// is asked for.
pub proof fn law_users_are_defined_as_asked(
    u: UserView,
    ns: Seq<char>,
    db: Seq<char>,
    password: Seq<char>,
    root: (Seq<char>, Seq<char>),
)
    ensures
        is_reachable(u) ==> posts(
            u,
            u.provision(ns, db, password, root),
            root,
            user_text(u, ns, db, password),
        ),
        !is_reachable(u) ==> notes_no_path(u, u.provision(ns, db, password, root)),
{
    let username = promise::given_or(u.spec.username, u.metadata.name->0);
    promise::law_what_statements_say(ns, db, username, password);
    promise::law_statements_are_posted(
        cluster_home(u),
        u.spec.cluster_ref.name,
        Some(root),
        sql::user_statement(ns, db, username, password),
    );
}

/// The first thing that is asked for a user that is not ready is its database: in
/// the namespace that the reference to the database names, else in that of the
/// user, wherever the cluster is.
pub proof fn law_how_passes_start(u: UserView, generated: Seq<char>)
    ensures
        match stage(u) {
            UserPhase::New | UserPhase::Error => {
                u.run(generated, seq![]) matches FlowView::Ask { request, .. } && request == (
                ApiRequestView::GetDatabase {
                    namespace: match u.spec.database_ref.namespace {
                        Some(namespace) => namespace,
                        None => u.metadata.namespace->0,
                    },
                    name: u.spec.database_ref.name,
                })
            },
            UserPhase::Ready => promise::waits(u.run(generated, seq![]), 180),
        },
{
}

/// Two users that differ in their cluster only ask for the same database.
pub proof fn law_cluster_does_not_move_the_database(
    a: UserView,
    b: UserView,
    generated: Seq<char>,
)
    requires
        a.metadata.namespace == b.metadata.namespace,
        a.spec.database_ref == b.spec.database_ref,
        a.status == b.status,
    ensures
        a.run(generated, seq![]) == b.run(generated, seq![]),
{
}

/// A password is made up exactly where the user asks for none and is about to be
/// defined.
pub proof fn law_when_passwords_are_made(u: UserView, step: UserStepView, reply: ApiReplyView)
    ensures
        u.makes_password(step, reply) <==> (step is Secret && u.spec.password is None
            && promise::has_credentials(reply)),
        crate::password::USER_LETTERS + crate::password::SYMBOL_COUNT == 24,
{
}

/// What follows the answer to a call of a pass over a user, by the answers so
/// far, by the call and by the answer.
pub open spec fn follows(
    u: UserView,
    generated: Seq<char>,
    replies: Seq<ApiReplyView>,
    request: ApiRequestView,
    reply: ApiReplyView,
    flow: FlowView<UserStepView>,
) -> bool {
    let password = promise::given_or(u.spec.password, generated);
    match request {
        ApiRequestView::GetDatabase { .. } => {
            if reply is Failed {
                promise::fails(flow, reply)
            } else {
                flow matches FlowView::Ask { request, .. } && request == (
                ApiRequestView::GetCluster {
                    namespace: cluster_home(u),
                    name: u.spec.cluster_ref.name,
                })
            }
        },
        ApiRequestView::GetCluster { .. } => match reply {
            ApiReplyView::Failed { .. } => promise::fails(flow, reply),
            ApiReplyView::Cluster { cluster } => {
                if cluster.spec.root_secret matches Some(reference) && reference.name is Some {
                    flow matches FlowView::Ask { request, .. } && request == (
                    ApiRequestView::GetSecret {
                        namespace: cluster_home(u),
                        name: cluster.spec.root_secret->0.name->0,
                    })
                } else {
                    promise::lacks_credentials(flow)
                }
            },
            _ => promise::lacks_credentials(flow),
        },
        ApiRequestView::GetSecret { .. } => {
            if reply is Failed {
                promise::fails(flow, reply)
            } else if !promise::has_credentials(reply) {
                promise::lacks_credentials(flow)
            } else if is_reachable(u) {
                let data = reply->Secret_data->0;
                replies[0] matches ApiReplyView::Database { database } ==> posts(
                    u,
                    flow,
                    (promise::readable(data["user"@]), promise::readable(data["password"@])),
                    user_text(
                        u,
                        promise::given_or(database.spec.db_namespace, database_home(u)),
                        promise::given_or(
                            database.spec.db_name,
                            promise::called(database.metadata),
                        ),
                        password,
                    ),
                )
            } else {
                notes_no_path(u, flow)
            }
        },
        ApiRequestView::PostSql { .. } => {
            if reply is Failed {
                notes_failure(u, flow, "provision failed: "@, reply)
            } else {
                &&& flow matches FlowView::Ask {
                    request: ApiRequestView::CreateSecret { namespace, secret },
                    ..
                }
                &&& namespace == u.metadata.namespace->0
                &&& keeps_password(u, secret, password)
            }
        },
        ApiRequestView::CreateSecret { .. } => {
            if reply is Failed && !promise::refused(reply, 409) {
                notes_failure(u, flow, "secret failed: "@, reply)
            } else {
                &&& flow matches FlowView::Ask {
                    request: ApiRequestView::CreateConfigMap { namespace, config_map },
                    ..
                }
                &&& namespace == u.metadata.namespace->0
                &&& tells_the_way(u, config_map)
            }
        },
        ApiRequestView::CreateConfigMap { .. } => {
            if reply is Failed && !promise::refused(reply, 409) {
                notes_failure(u, flow, "configmap failed: "@, reply)
            } else {
                sets_phase(u, flow, UserPhase::Ready, None)
            }
        },
        ApiRequestView::PatchUserStatus { phase, .. } => match phase {
            UserPhase::Ready => promise::waits(flow, 120),
            UserPhase::Error => promise::waits(flow, 20),
            _ => false,
        },
        _ => false,
    }
}

/// Whatever answers a pass has had, the next one leads to what follows from the
/// call that it answers. A pass that has ended has ended.
pub proof fn law_what_follows_a_call(
    u: UserView,
    generated: Seq<char>,
    replies: Seq<ApiReplyView>,
    reply: ApiReplyView,
)
    ensures
        match u.run(generated, replies) {
            FlowView::Ask { request, .. } => follows(
                u,
                generated,
                replies,
                request,
                reply,
                u.run(generated, replies.push(reply)),
            ),
            FlowView::Done { .. } => u.run(generated, replies.push(reply)) == u.run(
                generated,
                replies,
            ),
        },
{
    laws::law_one_more_answer(u, generated, replies, reply);
    laws::law_calls_follow_the_answers(u, generated, replies);
    law_config_map_tells_the_way(u);
    law_secret_keeps_the_password(u, promise::given_or(u.spec.password, generated));
    if u.run(generated, replies) is Ask {
        let step = u.run(generated, replies)->step;
        if step is Secret && promise::has_credentials(reply) {
            let data = reply->Secret_data->0;
            let root = (promise::readable(data["user"@]), promise::readable(data["password"@]));
            assert(sql::credentials_in(reply->Secret_data) == Some(root));
            law_users_are_defined_as_asked(
                u,
                step->Secret_surreal_ns,
                step->Secret_surreal_db,
                promise::given_or(u.spec.password, generated),
                root,
            );
        }
    }
}

/// What follows the answer that a step waited for, by the step and by the answer.
pub open spec fn step_follows(
    u: UserView,
    generated: Seq<char>,
    step: UserStepView,
    reply: ApiReplyView,
    flow: FlowView<UserStepView>,
) -> bool {
    match step {
        UserStepView::Database => {
            &&& follows(
                u,
                generated,
                seq![],
                ApiRequestView::GetDatabase { namespace: seq![], name: seq![] },
                reply,
                flow,
            )
            &&& reply matches ApiReplyView::Database { database } ==> flow matches FlowView::Ask {
                step: UserStepView::Cluster { surreal_ns, surreal_db },
                ..
            } && surreal_ns == promise::given_or(database.spec.db_namespace, database_home(u))
                && surreal_db == promise::given_or(
                database.spec.db_name,
                promise::called(database.metadata),
            )
        },
        UserStepView::Cluster { surreal_ns, surreal_db } => {
            &&& follows(
                u,
                generated,
                seq![],
                ApiRequestView::GetCluster { namespace: seq![], name: seq![] },
                reply,
                flow,
            )
            &&& flow matches FlowView::Ask { step, .. } ==> step == (UserStepView::Secret {
                surreal_ns,
                surreal_db,
            })
        },
        UserStepView::Secret { surreal_ns, surreal_db } => {
            let password = promise::given_or(u.spec.password, generated);
            if reply is Failed {
                promise::fails(flow, reply)
            } else if !promise::has_credentials(reply) {
                promise::lacks_credentials(flow)
            } else if is_reachable(u) {
                let data = reply->Secret_data->0;
                &&& posts(
                    u,
                    flow,
                    (promise::readable(data["user"@]), promise::readable(data["password"@])),
                    user_text(u, surreal_ns, surreal_db, password),
                )
                &&& flow->step == (UserStepView::Provision { password })
            } else {
                notes_no_path(u, flow)
            }
        },
        UserStepView::Provision { password } => {
            if reply is Failed {
                notes_failure(u, flow, "provision failed: "@, reply)
            } else {
                &&& flow matches FlowView::Ask {
                    request: ApiRequestView::CreateSecret { namespace, secret },
                    ..
                }
                &&& namespace == u.metadata.namespace->0
                &&& keeps_password(u, secret, password)
            }
        },
        UserStepView::CreateSecret => {
            if reply is Failed && !promise::refused(reply, 409) {
                notes_failure(u, flow, "secret failed: "@, reply)
            } else {
                &&& flow matches FlowView::Ask {
                    request: ApiRequestView::CreateConfigMap { namespace, config_map },
                    ..
                }
                &&& namespace == u.metadata.namespace->0
                &&& tells_the_way(u, config_map)
            }
        },
        UserStepView::CreateConfigMap => {
            if reply is Failed && !promise::refused(reply, 409) {
                notes_failure(u, flow, "configmap failed: "@, reply)
            } else {
                sets_phase(u, flow, UserPhase::Ready, None)
            }
        },
        UserStepView::Failed => promise::waits(flow, 20),
        UserStepView::Settled => promise::waits(flow, 120),
    }
}

/// What follows a step does not depend on how the pass got there.
pub proof fn law_what_follows_a_step(
    u: UserView,
    generated: Seq<char>,
    step: UserStepView,
    reply: ApiReplyView,
)
    ensures
        step_follows(u, generated, step, reply, u.next(step, reply, generated)),
{
    law_config_map_tells_the_way(u);
    if step is Provision {
        law_secret_keeps_the_password(u, step->Provision_password);
    }
    if step is Secret && promise::has_credentials(reply) {
        let data = reply->Secret_data->0;
        let root = (promise::readable(data["user"@]), promise::readable(data["password"@]));
        assert(sql::credentials_in(reply->Secret_data) == Some(root));
        law_users_are_defined_as_asked(
            u,
            step->Secret_surreal_ns,
            step->Secret_surreal_db,
            promise::given_or(u.spec.password, generated),
            root,
        );
    }
}

/// A new user has a name and what it was asked for, and nothing else.
pub proof fn law_new_users_are_bare(name: Seq<char>, spec: UserSpecView)
    ensures
        ({
            let u = UserView::new(name, spec);
            &&& promise::is_bare(u.metadata, name)
            &&& u.spec == spec
            &&& u.status is None
        }),
{
}

/// The finalizer of users.
pub proof fn law_finalizer_is_that_of_users()
    ensures
        USER_FINALIZER@ == "users.surrealdb.aexol.com"@,
{
}

} // verus!
