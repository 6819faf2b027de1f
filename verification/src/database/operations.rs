//! What the operations on a database return, for whoever calls them.
use crate::api::{Action, ApiReply, ApiRequest, ApiRequestView, Flow, FlowView};
use crate::database::crd::{Database, DbPhase, DbSpec};
use crate::database::promises;
use crate::database::reconcile::{self, DbStep};
use crate::error::Error;
use crate::promise;
use vstd::prelude::*;

verus! {

/// The namespace is defined under the name that the database asks for, else
/// under that of the namespace of the database, wherever its cluster is.
pub proof fn law_ensure_surreal_namespace(
    db: &Database,
    user: String,
    password: String,
    r: Flow<DbStep>,
)
    requires
        call_ensures(Database::ensure_surreal_namespace, (db, user, password), r),
        db.metadata.namespace is Some,
    ensures
        r matches Flow::Ask { request: ApiRequest::PostSql { request }, .. } ==> request.body@
            == vstd::utf8::encode_utf8(
            "DEFINE NAMESPACE "@ + promise::in_backticks(
                match db.spec.db_namespace {
                    Some(name) => name@,
                    None => db.metadata.namespace->0@,
                },
            ) + ";"@,
        ),
        promises::is_reachable(db.deep_view()) ==> promises::posts(
            db.deep_view(),
            r.deep_view(),
            user@,
            password@,
            promises::namespace_text(db.deep_view()),
        ),
        !promises::is_reachable(db.deep_view()) ==> promises::notes_no_path(
            db.deep_view(),
            r.deep_view(),
            "namespace define failed: "@,
        ),
{
    promises::law_statements_name_the_namespace(db.deep_view(), user@, password@);
}

/// The database is defined in that namespace, under the name that it asks for,
/// else under its own.
pub proof fn law_ensure_surreal_database(
    db: &Database,
    user: &str,
    password: &str,
    r: Flow<DbStep>,
)
    requires
        call_ensures(Database::ensure_surreal_database, (db, user, password), r),
        db.metadata.namespace is Some,
        db.metadata.name is Some,
    ensures
        r matches Flow::Ask { request: ApiRequest::PostSql { request }, .. } ==> request.body@
            == vstd::utf8::encode_utf8(
            "USE NS "@ + promise::in_backticks(
                match db.spec.db_namespace {
                    Some(name) => name@,
                    None => db.metadata.namespace->0@,
                },
            ) + "; DEFINE DATABASE "@ + promise::in_backticks(
                match db.spec.db_name {
                    Some(name) => name@,
                    None => db.metadata.name->0@,
                },
            ) + ";"@,
        ),
        promises::is_reachable(db.deep_view()) ==> promises::posts(
            db.deep_view(),
            r.deep_view(),
            user@,
            password@,
            promises::database_text(db.deep_view()),
        ),
        !promises::is_reachable(db.deep_view()) ==> promises::notes_no_path(
            db.deep_view(),
            r.deep_view(),
            "database define failed: "@,
        ),
{
    promises::law_statements_name_the_namespace(db.deep_view(), user@, password@);
}

/// A pass starts by the phase.
pub proof fn law_reconcile(db: &Database, r: Flow<DbStep>)
    requires
        call_ensures(Database::reconcile, (db,), r),
    ensures
        match promises::stage(db.deep_view()) {
            DbPhase::New | DbPhase::InProgress => {
                r.deep_view() matches FlowView::Ask { request, .. } && request == (
                ApiRequestView::GetCluster {
                    namespace: promises::cluster_home(db.deep_view()),
                    name: db.spec.cluster_ref.name@,
                })
            },
            DbPhase::Ready => promise::waits(r.deep_view(), 120),
            DbPhase::Error => promise::waits(r.deep_view(), 30),
        },
{
    promises::law_how_passes_start(db.deep_view());
}

/// A pass goes on as the step and the answer ask for.
pub proof fn law_resume(db: &Database, step: DbStep, reply: ApiReply, r: Flow<DbStep>)
    requires
        call_ensures(Database::resume, (db, step, reply), r),
    ensures
        promises::step_follows(
            db.deep_view(),
            step.deep_view(),
            reply.deep_view(),
            r.deep_view(),
        ),
{
    promises::law_what_follows_a_step(db.deep_view(), step.deep_view(), reply.deep_view());
}

/// The phase is the one that the status holds, `New` where it holds none.
pub proof fn law_current_phase(db: &Database, r: DbPhase)
    requires
        call_ensures(Database::current_phase, (db,), r),
    ensures
        r == (match db.status {
            Some(status) if status.phase is Some => status.phase->0,
            _ => DbPhase::New,
        }),
{
}

/// Name and namespace are those of the metadata.
pub proof fn law_name_and_namespace(db: &Database, name: String, namespace: String)
    requires
        call_ensures(Database::name_any, (db,), name),
        call_ensures(Database::namespace, (db,), namespace),
        db.metadata.namespace is Some,
    ensures
        name@ == promise::called(db.metadata.deep_view()),
        namespace@ == db.metadata.namespace->0@,
{
}

/// Phase and message are set on the database itself.
pub proof fn law_set_phase_msg(
    db: &Database,
    phase: DbPhase,
    message: Option<String>,
    r: ApiRequest,
)
    requires
        call_ensures(Database::set_phase_msg, (db, phase, message), r),
        db.metadata.namespace is Some,
    ensures
        r matches ApiRequest::PatchDatabaseStatus { namespace, name, phase: p, message: m }
            && namespace@ == db.metadata.namespace->0@ && name@ == promise::called(
            db.metadata.deep_view(),
        ) && p == phase && m.deep_view() == message.deep_view(),
{
}

/// Nothing is done when a database goes.
pub proof fn law_cleanup(db: &Database, r: Action)
    requires
        call_ensures(Database::cleanup, (db,), r),
    ensures
        r == Action::AwaitChange,
{
}

/// After a failure, whatever it was, a database is looked at again in a minute.
pub proof fn law_error_policy(e: &Error, r: Action)
    requires
        call_ensures(reconcile::error_policy, (e,), r),
    ensures
        r == (Action::Requeue { seconds: 60 }),
{
}

/// A new database has a name and what it was asked for, and nothing else.
pub proof fn law_new(name: &str, spec: DbSpec, r: Database)
    requires
        call_ensures(Database::new, (name, spec), r),
    ensures
        promise::is_bare(r.metadata.deep_view(), name@),
        r.spec.deep_view() == spec.deep_view(),
        r.status is None,
{
}

} // verus!
