//! What a pass over a database comes to, in terms of what stands in the database
//! and in the answers.
use crate::api::{ApiReplyView, ApiRequestView, FlowView};
use crate::database::crd::{DatabaseView, DbPhase, DbSpecView};
use crate::database::laws;
use crate::database::reconcile::{DbStepView, DATABASE_FINALIZER};
use crate::outside;
use crate::promise;
use crate::sql;
use vstd::prelude::*;

verus! {

/// The phase that a database is in, `New` as long as nothing is said of it.
pub open spec fn stage(db: DatabaseView) -> DbPhase {
    match db.status {
        Some(status) if status.phase is Some => status.phase->0,
        _ => DbPhase::New,
    }
}

/// The namespace in which the cluster of a database is: the one that the
/// reference to the cluster names, else that of the database.
pub open spec fn cluster_home(db: DatabaseView) -> Seq<char> {
    promise::given_or(db.spec.cluster_ref.namespace, db.metadata.namespace->0)
}

/// A pass posts a statement to the cluster of its database.
pub open spec fn posts(
    db: DatabaseView,
    flow: FlowView<DbStepView>,
    user: Seq<char>,
    password: Seq<char>,
    statement: Seq<char>,
) -> bool {
    &&& flow matches FlowView::Ask { request: ApiRequestView::PostSql { request }, .. }
    &&& promise::posts_statement(
        request,
        cluster_home(db),
        db.spec.cluster_ref.name,
        Some((user, password)),
        statement,
    )
}

/// Statements can be posted to the cluster of a database.
pub open spec fn is_reachable(db: DatabaseView) -> bool {
    outside::built_uri(promise::statement_path(cluster_home(db), db.spec.cluster_ref.name)) is Ok
}

/// The statement that defines the namespace of a database: the one that the
/// database asks for, else one that is called like its own.
pub open spec fn namespace_text(db: DatabaseView) -> Seq<char> {
    match db.spec.db_namespace {
        Some(name) => "DEFINE NAMESPACE "@ + promise::in_backticks(name) + ";"@,
        None => "DEFINE NAMESPACE "@ + promise::in_backticks(db.metadata.namespace->0) + ";"@,
    }
}

/// The statement that defines a database: in its namespace, and under the name
/// that it asks for, else under its own.
pub open spec fn database_text(db: DatabaseView) -> Seq<char> {
    let ns = promise::given_or(db.spec.db_namespace, db.metadata.namespace->0);
    let name = promise::given_or(db.spec.db_name, db.metadata.name->0);
    "USE NS "@ + promise::in_backticks(ns) + "; DEFINE DATABASE "@ + promise::in_backticks(name)
        + ";"@
}

/// A pass sets phase and message of its database.
pub open spec fn sets_phase(
    db: DatabaseView,
    flow: FlowView<DbStepView>,
    phase: DbPhase,
    message: Option<Seq<char>>,
) -> bool {
    flow matches FlowView::Ask { request, .. } && request == (ApiRequestView::PatchDatabaseStatus {
        namespace: db.metadata.namespace->0,
        name: promise::called(db.metadata),
        phase,
        message,
    })
}

/// A pass writes down that an attempt failed, and why.
pub open spec fn notes_failure(
    db: DatabaseView,
    flow: FlowView<DbStepView>,
    attempt: Seq<char>,
    reply: ApiReplyView,
) -> bool {
    &&& reply matches ApiReplyView::Failed { error }
    &&& sets_phase(
        db,
        flow,
        DbPhase::Error,
        Some(attempt + ("Kube Error: "@ + error.source.display)),
    )
}

/// A pass writes down that a statement cannot be posted to its cluster.
pub open spec fn notes_no_path(
    db: DatabaseView,
    flow: FlowView<DbStepView>,
    attempt: Seq<char>,
) -> bool {
    let reason = outside::built_uri(
        promise::statement_path(cluster_home(db), db.spec.cluster_ref.name),
    );
    &&& reason matches Err((display, _))
    &&& sets_phase(db, flow, DbPhase::Error, Some(attempt + ("HTTP Error: "@ + display)))
}

/// The call that sets phase and message goes to the database itself.
pub proof fn law_phases_are_set_at_home(
    db: DatabaseView,
    phase: DbPhase,
    message: Option<Seq<char>>,
)
    ensures
        match db.phase_request(phase, message) {
            ApiRequestView::PatchDatabaseStatus { namespace, name, phase: p, message: m } => {
                &&& Some(namespace) == db.metadata.namespace || db.metadata.namespace is None
                &&& name == promise::called(db.metadata)
                &&& p == phase
                &&& m == message
            },
            _ => false,
        },
{
}

/// The two statements name the namespace that the database asks for. Without
/// one, they name that of the database itself, wherever its cluster is.
pub proof fn law_statements_name_the_namespace(
    db: DatabaseView,
    user: Seq<char>,
    password: Seq<char>,
)
    ensures
        is_reachable(db) ==> posts(
            db,
            db.namespace_definition(user, password),
            user,
            password,
            namespace_text(db),
        ),
        is_reachable(db) ==> posts(
            db,
            db.database_definition(user, password),
            user,
            password,
            database_text(db),
        ),
        !is_reachable(db) ==> notes_no_path(
            db,
            db.namespace_definition(user, password),
            "namespace define failed: "@,
        ),
        !is_reachable(db) ==> notes_no_path(
            db,
            db.database_definition(user, password),
            "database define failed: "@,
        ),
{
    let ns = promise::given_or(db.spec.db_namespace, db.metadata.namespace->0);
    let name = promise::given_or(db.spec.db_name, db.metadata.name->0);
    promise::law_what_statements_say(ns, name, user, password);
    promise::law_statements_are_posted(
        cluster_home(db),
        db.spec.cluster_ref.name,
        Some((user, password)),
        sql::namespace_statement(ns),
    );
    promise::law_statements_are_posted(
        cluster_home(db),
        db.spec.cluster_ref.name,
        Some((user, password)),
        sql::database_statement(ns, name),
    );
}

/// What is defined for a database does not depend on where its cluster is: two
/// databases that differ in their cluster only have the same statements.
pub proof fn law_cluster_says_where_only(
    a: DatabaseView,
    b: DatabaseView,
    user: Seq<char>,
    password: Seq<char>,
)
    requires
        a.metadata == b.metadata,
        a.spec.db_namespace == b.spec.db_namespace,
        a.spec.db_name == b.spec.db_name,
    ensures
        match (a.namespace_definition(user, password), b.namespace_definition(user, password)) {
            (
                FlowView::Ask { request: ApiRequestView::PostSql { request: p }, .. },
                FlowView::Ask { request: ApiRequestView::PostSql { request: q }, .. },
            ) => p.body == q.body && p.headers == q.headers,
            _ => true,
        },
        match (a.database_definition(user, password), b.database_definition(user, password)) {
            (
                FlowView::Ask { request: ApiRequestView::PostSql { request: p }, .. },
                FlowView::Ask { request: ApiRequestView::PostSql { request: q }, .. },
            ) => p.body == q.body && p.headers == q.headers,
            _ => true,
        },
{
}

/// How a pass over a database starts, by its phase.
pub proof fn law_how_passes_start(db: DatabaseView)
    ensures
        match stage(db) {
            DbPhase::New | DbPhase::InProgress => {
                db.run(seq![]) matches FlowView::Ask { request, .. } && request == (
                ApiRequestView::GetCluster {
                    namespace: cluster_home(db),
                    name: db.spec.cluster_ref.name,
                })
            },
            DbPhase::Ready => promise::waits(db.run(seq![]), 120),
            DbPhase::Error => promise::waits(db.run(seq![]), 30),
        },
{
}

/// What follows the answer to a call of a pass over a database, by the answers
/// so far, by the call and by the answer.
pub open spec fn follows(
    db: DatabaseView,
    replies: Seq<ApiReplyView>,
    request: ApiRequestView,
    reply: ApiReplyView,
    flow: FlowView<DbStepView>,
) -> bool {
    match request {
        ApiRequestView::GetCluster { .. } => match reply {
            ApiReplyView::Failed { .. } => promise::fails(flow, reply),
            ApiReplyView::Cluster { cluster } => {
                if cluster.spec.root_secret matches Some(reference) && reference.name is Some {
                    flow matches FlowView::Ask { request, .. } && request == (
                    ApiRequestView::GetSecret {
                        namespace: cluster_home(db),
                        name: cluster.spec.root_secret->0.name->0,
                    })
                } else {
                    promise::lacks_credentials(flow)
                }
            },
            _ => promise::lacks_credentials(flow),
        },
        ApiRequestView::GetSecret { .. } => {
            if reply is Failed {
                promise::fails(flow, reply)
            } else if !promise::has_credentials(reply) {
                promise::lacks_credentials(flow)
            } else if is_reachable(db) {
                let data = reply->Secret_data->0;
                posts(
                    db,
                    flow,
                    promise::readable(data["user"@]),
                    promise::readable(data["password"@]),
                    namespace_text(db),
                )
            } else {
                notes_no_path(db, flow, "namespace define failed: "@)
            }
        },
        ApiRequestView::PostSql { .. } => {
            if replies.len() == 2 {
                if reply is Failed {
                    notes_failure(db, flow, "namespace define failed: "@, reply)
                } else {
                    let data = replies[1]->Secret_data->0;
                    &&& promise::has_credentials(replies[1])
                    &&& posts(
                        db,
                        flow,
                        promise::readable(data["user"@]),
                        promise::readable(data["password"@]),
                        database_text(db),
                    )
                }
            } else {
                &&& replies.len() == 3
                &&& if reply is Failed {
                    notes_failure(db, flow, "database define failed: "@, reply)
                } else {
                    sets_phase(db, flow, DbPhase::Ready, None)
                }
            }
        },
        ApiRequestView::PatchDatabaseStatus { phase, .. } => match phase {
            DbPhase::Ready => promise::waits(flow, 60),
            DbPhase::Error => promise::waits(flow, 20),
            _ => false,
        },
        _ => false,
    }
}

/// Whatever answers a pass has had, the next one leads to what follows from the
/// call that it answers. A pass that has ended has ended.
pub proof fn law_what_follows_a_call(
    db: DatabaseView,
    replies: Seq<ApiReplyView>,
    reply: ApiReplyView,
)
    ensures
        match db.run(replies) {
            FlowView::Ask { request, .. } => follows(
                db,
                replies,
                request,
                reply,
                db.run(replies.push(reply)),
            ),
            FlowView::Done { .. } => db.run(replies.push(reply)) == db.run(replies),
        },
{
    laws::law_one_more_answer(db, replies, reply);
    laws::law_calls_follow_the_answers(db, replies);
    if db.run(replies) is Ask {
        let step = db.run(replies)->step;
        if step is Secret && promise::has_credentials(reply) {
            let data = reply->Secret_data->0;
            let user = promise::readable(data["user"@]);
            let password = promise::readable(data["password"@]);
            assert(sql::credentials_in(reply->Secret_data) == Some((user, password)));
            law_statements_name_the_namespace(db, user, password);
        }
        if step is Namespace {
            let data = replies[1]->Secret_data->0;
            assert(promise::has_credentials(replies[1]));
            let user = promise::readable(data["user"@]);
            let password = promise::readable(data["password"@]);
            assert(sql::credentials_in(replies[1]->Secret_data) == Some((user, password)));
            promise::law_statements_are_posted(
                cluster_home(db),
                db.spec.cluster_ref.name,
                Some((user, password)),
                sql::namespace_statement(
                    promise::given_or(db.spec.db_namespace, db.metadata.namespace->0),
                ),
            );
            law_statements_name_the_namespace(db, user, password);
        }
    }
}

/// What follows the answer that a step waited for, by the step and by the answer.
pub open spec fn step_follows(
    db: DatabaseView,
    step: DbStepView,
    reply: ApiReplyView,
    flow: FlowView<DbStepView>,
) -> bool {
    match step {
        DbStepView::Cluster => follows(
            db,
            seq![],
            ApiRequestView::GetCluster { namespace: seq![], name: seq![] },
            reply,
            flow,
        ),
        DbStepView::Secret => follows(
            db,
            seq![],
            ApiRequestView::GetSecret { namespace: seq![], name: seq![] },
            reply,
            flow,
        ),
        DbStepView::Namespace { user, password } => {
            if reply is Failed {
                notes_failure(db, flow, "namespace define failed: "@, reply)
            } else if is_reachable(db) {
                posts(db, flow, user, password, database_text(db))
            } else {
                notes_no_path(db, flow, "database define failed: "@)
            }
        },
        DbStepView::Database => {
            if reply is Failed {
                notes_failure(db, flow, "database define failed: "@, reply)
            } else {
                sets_phase(db, flow, DbPhase::Ready, None)
            }
        },
        DbStepView::Failed => promise::waits(flow, 20),
        DbStepView::Settled => promise::waits(flow, 60),
    }
}

/// What follows a step does not depend on how the pass got there.
pub proof fn law_what_follows_a_step(db: DatabaseView, step: DbStepView, reply: ApiReplyView)
    ensures
        step_follows(db, step, reply, db.next(step, reply)),
{
    if promise::has_credentials(reply) {
        let data = reply->Secret_data->0;
        let user = promise::readable(data["user"@]);
        let password = promise::readable(data["password"@]);
        assert(sql::credentials_in(reply->Secret_data) == Some((user, password)));
        law_statements_name_the_namespace(db, user, password);
    }
    if step is Namespace {
        law_statements_name_the_namespace(db, step->user, step->password);
    }
}

/// A new database has a name and what it was asked for, and nothing else.
pub proof fn law_new_databases_are_bare(name: Seq<char>, spec: DbSpecView)
    ensures
        ({
            let db = DatabaseView::new(name, spec);
            &&& promise::is_bare(db.metadata, name)
            &&& db.spec == spec
            &&& db.status is None
        }),
{
}

/// The finalizer of databases.
pub proof fn law_finalizer_is_that_of_databases()
    ensures
        DATABASE_FINALIZER@ == "databases.surrealdb.aexol.com"@,
{
}

} // verus!
