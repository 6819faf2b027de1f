//! Every scenario is what a pass over any new database does: the calls come as
//! they are expected, and the answers lead to the end of the pass.
use crate::api::{ApiReplyView, FlowView};
use crate::database::crd::{DatabaseView, DbPhase};
use crate::database::fixtures::{self, HandlerView};
use crate::database::laws;
use crate::database::reconcile::DbStepView;
use crate::error::ErrorView;
use crate::mock;
use crate::outside;
use crate::sql;
use crate::text;
use vstd::prelude::*;

verus! {

/// The answers of a script, one after the other.
pub open spec fn replies_of(db: DatabaseView, handlers: Seq<HandlerView>) -> Seq<ApiReplyView>
    decreases handlers.len(),
{
    if handlers.len() == 0 {
        seq![]
    } else {
        replies_of(db, handlers.drop_last()).push(handlers.last().reply(db))
    }
}

/// A pass makes the calls of a script, one after the other.
pub open spec fn plays(db: DatabaseView, handlers: Seq<HandlerView>) -> bool
    decreases handlers.len(),
{
    handlers.len() == 0 || {
        &&& plays(db, handlers.drop_last())
        &&& db.run(replies_of(db, handlers.drop_last())) matches FlowView::Ask { request, .. }
            && handlers.last().accepts(db, request)
    }
}

/// The endpoint of the cluster can be called at its path.
pub open spec fn reachable(db: DatabaseView) -> bool {
    let path = sql::sql_path(db.cluster_ns(), db.spec.cluster_ref.name);
    outside::built_uri(path) == Ok::<_, (Seq<char>, Seq<char>)>(path)
}

proof fn lemma_one_more_call(db: DatabaseView, handlers: Seq<HandlerView>, handler: HandlerView)
    requires
        plays(db, handlers),
        db.run(replies_of(db, handlers)) is Ask,
        handler.accepts(db, db.run(replies_of(db, handlers))->request),
    ensures
        plays(db, handlers.push(handler)),
        db.run(replies_of(db, handlers.push(handler))) == db.next(
            db.run(replies_of(db, handlers))->step,
            handler.reply(db),
        ),
{
    assert(handlers.push(handler).drop_last() =~= handlers);
    laws::law_one_more_answer(db, replies_of(db, handlers), handler.reply(db));
}

proof fn lemma_namespace_statement(ns: Seq<char>)
    ensures
        text::part_at(sql::namespace_statement(ns), "DEFINE NAMESPACE "@, 0),
{
    let statement = sql::namespace_statement(ns);
    let part = "DEFINE NAMESPACE "@;
    assert(statement.subrange(0, part.len() as int) =~= part);
}

proof fn lemma_database_statement(ns: Seq<char>, db: Seq<char>)
    ensures
        text::holds(sql::database_statement(ns, db), "USE NS `"@),
        text::holds(sql::database_statement(ns, db), "DEFINE DATABASE `"@),
{
    reveal_strlit("USE NS ");
    reveal_strlit("USE NS `");
    reveal_strlit("`");
    reveal_strlit("; DEFINE DATABASE ");
    reveal_strlit("DEFINE DATABASE `");
    let statement = sql::database_statement(ns, db);
    assert(statement.subrange(0, 8) =~= "USE NS `"@);
    assert(text::part_at(statement, "USE NS `"@, 0));
    let at = 9 + text::quoted_ident(ns).len() as int;
    assert(statement.subrange(at, at + 17) =~= "DEFINE DATABASE `"@);
    assert(text::part_at(statement, "DEFINE DATABASE `"@, at));
}

proof fn lemma_start(db: DatabaseView, secret_ns: Seq<char>)
    requires
        db.phase() == DbPhase::New || db.phase() == DbPhase::InProgress,
        secret_ns == db.cluster_ns(),
    ensures
        ({
            let two = Seq::<HandlerView>::empty().push(HandlerView::GetCluster).push(
                HandlerView::GetSecretRoot { cluster_ns: secret_ns },
            );
            plays(db, two) && db.run(replies_of(db, two)) == db.namespace_definition(
                "root"@,
                "root"@,
            )
        }),
{
    let none = Seq::<HandlerView>::empty();
    let one = none.push(HandlerView::GetCluster);
    assert(replies_of(db, none) =~= seq![]);
    text::law_text_starts_with_itself(db.spec.cluster_ref.name);
    text::law_text_starts_with_itself("surreal-root"@);
    lemma_one_more_call(db, none, one.last());
    lemma_one_more_call(db, one, HandlerView::GetSecretRoot { cluster_ns: secret_ns });
    sql::law_secrets_read_back("root"@, "root"@);
}

/// A new database gets its namespace and is defined there, and is ready then,
/// on whichever cluster it is.
pub proof fn law_new_database_plays(db: DatabaseView)
    requires
        db.phase() == DbPhase::New || db.phase() == DbPhase::InProgress,
        sql::plain_names(db.cluster_ns(), db.spec.cluster_ref.name),
    ensures
        reachable(db) ==> {
            let here = fixtures::ready_script(db.cluster_ns(), None);
            let there = fixtures::ready_script(db.cluster_ns(), Some(db.cluster_ns()));
            &&& plays(db, here)
            &&& plays(db, there)
            &&& db.run(replies_of(db, here)) == FlowView::<DbStepView>::requeue(60)
            &&& db.run(replies_of(db, there)) == FlowView::<DbStepView>::requeue(60)
        },
{
    if reachable(db) {
        lemma_ready(db, None);
        lemma_ready(db, Some(db.cluster_ns()));
    }
}

proof fn lemma_ready(db: DatabaseView, cluster_ns: Option<Seq<char>>)
    requires
        db.phase() == DbPhase::New || db.phase() == DbPhase::InProgress,
        sql::plain_names(db.cluster_ns(), db.spec.cluster_ref.name),
        reachable(db),
        cluster_ns is Some ==> cluster_ns == Some(db.cluster_ns()),
    ensures
        plays(db, fixtures::ready_script(db.cluster_ns(), cluster_ns)),
        db.run(replies_of(db, fixtures::ready_script(db.cluster_ns(), cluster_ns))) == FlowView::<
            DbStepView,
        >::requeue(60),
{
    let one = Seq::<HandlerView>::empty().push(HandlerView::GetCluster);
    let two = one.push(HandlerView::GetSecretRoot { cluster_ns: db.cluster_ns() });
    let three = two.push(HandlerView::ProxyDefineNamespace { cluster_ns });
    let four = three.push(HandlerView::ProxyDefineDatabase { cluster_ns });
    let five = four.push(HandlerView::StatusPatchPhase { phase: DbPhase::Ready });
    lemma_start(db, db.cluster_ns());
    lemma_namespace_statement(db.surreal_ns());
    lemma_database_statement(db.surreal_ns(), db.surreal_db());
    mock::law_statements_arrive(
        db.cluster_ns(),
        db.spec.cluster_ref.name,
        Some(("root"@, "root"@)),
        sql::namespace_statement(db.surreal_ns()),
    );
    mock::law_statements_arrive(
        db.cluster_ns(),
        db.spec.cluster_ref.name,
        Some(("root"@, "root"@)),
        sql::database_statement(db.surreal_ns(), db.surreal_db()),
    );
    lemma_one_more_call(db, two, three.last());
    lemma_one_more_call(db, three, four.last());
    lemma_one_more_call(db, four, five.last());
    assert(five =~= fixtures::ready_script(db.cluster_ns(), cluster_ns));
}

/// A database whose namespace is refused is set to be at fault, with the
/// refusal for a message, and looked at again after 20 seconds.
pub proof fn law_refused_namespace_plays(db: DatabaseView, any: ApiReplyView)
    requires
        db.phase() == DbPhase::New || db.phase() == DbPhase::InProgress,
        db.cluster_ns() == "default"@,
        sql::plain_names(db.cluster_ns(), db.spec.cluster_ref.name),
    ensures
        reachable(db) ==> {
            let handlers = seq![
                HandlerView::GetCluster,
                HandlerView::GetSecretRoot { cluster_ns: "default"@ },
                HandlerView::ProxyDefineNamespaceError,
            ];
            let replies = replies_of(db, handlers);
            let refusal = handlers[2].reply(db)->Failed_error;
            &&& plays(db, handlers)
            &&& db.run(replies) == db.failure(
                "namespace define failed: "@,
                ErrorView::KubeError(refusal),
            )
            &&& db.run(replies.push(any)) == FlowView::<DbStepView>::requeue(20)
        },
{
    if reachable(db) {
        let one = Seq::<HandlerView>::empty().push(HandlerView::GetCluster);
        let two = one.push(HandlerView::GetSecretRoot { cluster_ns: "default"@ });
        let three = two.push(HandlerView::ProxyDefineNamespaceError);
        lemma_start(db, "default"@);
        mock::law_statements_arrive(
            db.cluster_ns(),
            db.spec.cluster_ref.name,
            Some(("root"@, "root"@)),
            sql::namespace_statement(db.surreal_ns()),
        );
        lemma_one_more_call(db, two, three.last());
        laws::law_one_more_answer(db, replies_of(db, three), any);
        assert(three =~= seq![one.last(), two.last(), three.last()]);
    }
}

/// A database that is refused is set to be at fault, with the refusal for a
/// message, and looked at again after 20 seconds.
pub proof fn law_refused_database_plays(db: DatabaseView, any: ApiReplyView)
    requires
        db.phase() == DbPhase::New || db.phase() == DbPhase::InProgress,
        db.cluster_ns() == "default"@,
        sql::plain_names(db.cluster_ns(), db.spec.cluster_ref.name),
    ensures
        reachable(db) ==> {
            let handlers = seq![
                HandlerView::GetCluster,
                HandlerView::GetSecretRoot { cluster_ns: "default"@ },
                HandlerView::ProxyDefineNamespace { cluster_ns: None },
                HandlerView::ProxyDefineDatabaseError,
            ];
            let replies = replies_of(db, handlers);
            let refusal = handlers[3].reply(db)->Failed_error;
            &&& plays(db, handlers)
            &&& db.run(replies) == db.failure(
                "database define failed: "@,
                ErrorView::KubeError(refusal),
            )
            &&& db.run(replies.push(any)) == FlowView::<DbStepView>::requeue(20)
        },
{
    if reachable(db) {
        let one = Seq::<HandlerView>::empty().push(HandlerView::GetCluster);
        let two = one.push(HandlerView::GetSecretRoot { cluster_ns: "default"@ });
        let three = two.push(HandlerView::ProxyDefineNamespace { cluster_ns: None });
        let four = three.push(HandlerView::ProxyDefineDatabaseError);
        lemma_start(db, "default"@);
        lemma_namespace_statement(db.surreal_ns());
        mock::law_statements_arrive(
            db.cluster_ns(),
            db.spec.cluster_ref.name,
            Some(("root"@, "root"@)),
            sql::namespace_statement(db.surreal_ns()),
        );
        mock::law_statements_arrive(
            db.cluster_ns(),
            db.spec.cluster_ref.name,
            Some(("root"@, "root"@)),
            sql::database_statement(db.surreal_ns(), db.surreal_db()),
        );
        lemma_one_more_call(db, two, three.last());
        lemma_one_more_call(db, three, four.last());
        laws::law_one_more_answer(db, replies_of(db, four), any);
        assert(four =~= seq![one.last(), two.last(), three.last(), four.last()]);
    }
}

} // verus!
