//! Every scenario is what a pass over any cluster of its kind does: the calls
//! come as they are expected, and the answers lead to the end of the pass.
use crate::api::{Action, ApiReplyView, FlowView, OwnedKind};
use crate::cluster::cleanup::CleanupStep;
use crate::cluster::crd::{ClusterView, Phase};
use crate::cluster::fixtures::{self, HandlerView};
use crate::cluster::laws;
use crate::cluster::reconcile::ClusterStep;
use crate::error::ErrorView;
use crate::mock;
use crate::outside;
use crate::sql;
use crate::text;
use vstd::prelude::*;

verus! {

/// The answers of a script, one after the other.
pub open spec fn replies_of(c: ClusterView, handlers: Seq<HandlerView>) -> Seq<ApiReplyView>
    decreases handlers.len(),
{
    if handlers.len() == 0 {
        seq![]
    } else {
        replies_of(c, handlers.drop_last()).push(handlers.last().reply(c))
    }
}

/// A pass makes the calls of a script, one after the other.
pub open spec fn plays(c: ClusterView, password: Seq<char>, handlers: Seq<HandlerView>) -> bool
    decreases handlers.len(),
{
    handlers.len() == 0 || {
        &&& plays(c, password, handlers.drop_last())
        &&& c.run(password, replies_of(c, handlers.drop_last())) matches FlowView::Ask {
            request,
            ..
        } && handlers.last().accepts(c, request)
    }
}

/// A cleanup makes the calls of a script, one after the other.
pub open spec fn cleanup_plays(c: ClusterView, handlers: Seq<HandlerView>) -> bool
    decreases handlers.len(),
{
    handlers.len() == 0 || {
        &&& cleanup_plays(c, handlers.drop_last())
        &&& c.cleanup_run(replies_of(c, handlers.drop_last())) matches FlowView::Ask {
            request,
            ..
        } && handlers.last().accepts(c, request)
    }
}

proof fn lemma_one_more_call(
    c: ClusterView,
    password: Seq<char>,
    handlers: Seq<HandlerView>,
    handler: HandlerView,
)
    requires
        plays(c, password, handlers),
        c.run(password, replies_of(c, handlers)) is Ask,
        handler.accepts(c, c.run(password, replies_of(c, handlers))->request),
    ensures
        plays(c, password, handlers.push(handler)),
        c.run(password, replies_of(c, handlers.push(handler))) == c.next(
            c.run(password, replies_of(c, handlers))->step,
            handler.reply(c),
        ),
{
    assert(handlers.push(handler).drop_last() =~= handlers);
    laws::law_one_more_answer(c, password, replies_of(c, handlers), handler.reply(c));
}

proof fn lemma_one_more_cleanup_call(
    c: ClusterView,
    handlers: Seq<HandlerView>,
    handler: HandlerView,
)
    requires
        cleanup_plays(c, handlers),
        c.cleanup_run(replies_of(c, handlers)) is Ask,
        handler.accepts(c, c.cleanup_run(replies_of(c, handlers))->request),
    ensures
        cleanup_plays(c, handlers.push(handler)),
        c.cleanup_run(replies_of(c, handlers.push(handler))) == c.cleanup_next(
            c.cleanup_run(replies_of(c, handlers))->step,
            handler.reply(c),
        ),
{
    assert(handlers.push(handler).drop_last() =~= handlers);
    assert(replies_of(c, handlers).push(handler.reply(c)).drop_last() =~= replies_of(c, handlers));
}

/// A new cluster with root credentials and a place for its data is set to be in
/// creation, and open servers are started.
pub proof fn law_new_cluster_plays(c: ClusterView, password: Seq<char>)
    requires
        c.ns() == "default"@,
        c.phase() == Phase::New,
        c.spec.root_secret is Some,
        c.spec.tikv_secret_ref is Some,
        c.spec.tidb_cluster is None,
    ensures
        ({
            let handlers = seq![
                HandlerView::StatusPatchPhase { phase: Phase::InCreation },
                HandlerView::DeploymentApplyWithEnv { creation_mode: true },
                HandlerView::ServiceApply,
            ];
            &&& plays(c, password, handlers)
            &&& c.run(password, replies_of(c, handlers)) == FlowView::<ClusterStep>::requeue(20)
        }),
{
    let none = Seq::<HandlerView>::empty();
    let one = none.push(HandlerView::StatusPatchPhase { phase: Phase::InCreation });
    let two = one.push(HandlerView::DeploymentApplyWithEnv { creation_mode: true });
    let three = two.push(HandlerView::ServiceApply);
    assert(replies_of(c, none) =~= seq![]);
    laws::law_environments(c);
    lemma_one_more_call(c, password, none, one.last());
    lemma_one_more_call(c, password, one, two.last());
    lemma_one_more_call(c, password, two, three.last());
    assert(three =~= seq![one.last(), two.last(), three.last()]);
}

/// A new cluster `test` without root credentials gets some, and is created all
/// the same.
pub proof fn law_new_cluster_without_credentials_plays(c: ClusterView, password: Seq<char>)
    requires
        c.ns() == "default"@,
        c.name_any() == "test"@,
        c.phase() == Phase::New,
        c.spec.root_secret is None,
        c.spec.tikv_secret_ref is Some,
        c.spec.tidb_cluster is None,
    ensures
        ({
            let handlers = seq![
                HandlerView::SecretCreateAuto,
                HandlerView::RootSecretSpecPatch,
                HandlerView::StatusPatchPhase { phase: Phase::InCreation },
                HandlerView::DeploymentApplyWithEnv { creation_mode: true },
                HandlerView::ServiceApply,
            ];
            &&& plays(c, password, handlers)
            &&& c.run(password, replies_of(c, handlers)) == FlowView::<ClusterStep>::requeue(20)
        }),
{
    reveal_strlit("test");
    reveal_strlit("-surrealdb-root");
    reveal_strlit("test-surrealdb-root");
    assert("test"@ + "-surrealdb-root"@ =~= "test-surrealdb-root"@);
    let none = Seq::<HandlerView>::empty();
    let one = none.push(HandlerView::SecretCreateAuto);
    let two = one.push(HandlerView::RootSecretSpecPatch);
    let three = two.push(HandlerView::StatusPatchPhase { phase: Phase::InCreation });
    let four = three.push(HandlerView::DeploymentApplyWithEnv { creation_mode: true });
    let five = four.push(HandlerView::ServiceApply);
    assert(replies_of(c, none) =~= seq![]);
    laws::law_environments(c);
    lemma_one_more_call(c, password, none, one.last());
    lemma_one_more_call(c, password, one, two.last());
    lemma_one_more_call(c, password, two, three.last());
    lemma_one_more_call(c, password, three, four.last());
    lemma_one_more_call(c, password, four, five.last());
    assert(five =~= seq![one.last(), two.last(), three.last(), four.last(), five.last()]);
}

/// A cluster in creation gets its root user through servers that are up, and is
/// put to work, with servers that ask for credentials.
pub proof fn law_created_cluster_plays(c: ClusterView, password: Seq<char>)
    requires
        c.metadata.namespace == Some("default"@),
        c.phase() == Phase::InCreation,
        c.credentials_secret() == Some("test"@),
        sql::plain_names(c.ns(), c.name_any()),
    ensures
        outside::built_uri(sql::sql_path(c.ns(), c.name_any())) == Ok::<
            _,
            (Seq<char>, Seq<char>),
        >(sql::sql_path(c.ns(), c.name_any())) ==> {
            let handlers = seq![
                HandlerView::DeploymentGetReady,
                HandlerView::SecretGetRoot,
                HandlerView::BootstrapSql,
                HandlerView::StatusPatchPhase { phase: Phase::InProgress },
                HandlerView::DeploymentApplyWithEnv { creation_mode: false },
                HandlerView::ServiceApply,
            ];
            &&& plays(c, password, handlers)
            &&& c.run(password, replies_of(c, handlers)) == FlowView::<ClusterStep>::requeue(20)
        },
{
    let path = sql::sql_path(c.ns(), c.name_any());
    if outside::built_uri(path) == Ok::<_, (Seq<char>, Seq<char>)>(path) {
        let none = Seq::<HandlerView>::empty();
        let one = none.push(HandlerView::DeploymentGetReady);
        let two = one.push(HandlerView::SecretGetRoot);
        let three = two.push(HandlerView::BootstrapSql);
        let four = three.push(HandlerView::StatusPatchPhase { phase: Phase::InProgress });
        let five = four.push(HandlerView::DeploymentApplyWithEnv { creation_mode: false });
        let six = five.push(HandlerView::ServiceApply);
        assert(replies_of(c, none) =~= seq![]);
        laws::law_environments(c);
        text::law_text_starts_with_itself(c.readiness_request()->GetDeployment_name);
        text::law_text_starts_with_itself("test"@);
        lemma_one_more_call(c, password, none, one.last());
        lemma_one_more_call(c, password, one, two.last());
        sql::law_secrets_read_back("root"@, "root"@);
        let statement = sql::root_user_statement("root"@, "root"@);
        lemma_root_user_statement("root"@, "root"@);
        mock::law_statements_arrive(c.ns(), c.name_any(), None, statement);
        lemma_one_more_call(c, password, two, three.last());
        lemma_one_more_call(c, password, three, four.last());
        lemma_one_more_call(c, password, four, five.last());
        lemma_one_more_call(c, password, five, six.last());
        assert(six =~= seq![
            one.last(),
            two.last(),
            three.last(),
            four.last(),
            five.last(),
            six.last(),
        ]);
    }
}

proof fn lemma_root_user_statement(user: Seq<char>, password: Seq<char>)
    ensures
        text::holds(sql::root_user_statement(user, password), "DEFINE USER"@),
        text::holds(sql::root_user_statement(user, password), "PASSWORD"@),
{
    reveal_strlit("DEFINE USER ");
    reveal_strlit("DEFINE USER");
    reveal_strlit(" ON ROOT PASSWORD '");
    reveal_strlit("PASSWORD");
    let statement = sql::root_user_statement(user, password);
    assert(statement.subrange(0, 11) =~= "DEFINE USER"@);
    assert(text::part_at(statement, "DEFINE USER"@, 0));
    let at = user.len() as int + 21;
    assert(statement.subrange(at, at + 8) =~= "PASSWORD"@);
    assert(text::part_at(statement, "PASSWORD"@, at));
}

/// A cluster at work is kept that way, with servers that ask for credentials.
/// If nothing more is heard of it, it is looked at again after half a minute.
pub proof fn law_working_cluster_plays(
    c: ClusterView,
    password: Seq<char>,
    closed: ApiReplyView,
)
    requires
        c.ns() == "default"@,
        c.phase() == Phase::InProgress,
        closed is Failed,
    ensures
        ({
            let handlers = seq![
                HandlerView::DeploymentApplyWithEnv { creation_mode: false },
                HandlerView::ServiceApply,
            ];
            &&& plays(c, password, handlers)
            &&& c.run(password, replies_of(c, handlers).push(closed).push(closed)) == FlowView::<
                ClusterStep,
            >::requeue(30)
        }),
{
    let none = Seq::<HandlerView>::empty();
    let one = none.push(HandlerView::DeploymentApplyWithEnv { creation_mode: false });
    let two = one.push(HandlerView::ServiceApply);
    assert(replies_of(c, none) =~= seq![]);
    laws::law_environments(c);
    lemma_one_more_call(c, password, none, one.last());
    lemma_one_more_call(c, password, one, two.last());
    assert(two =~= seq![one.last(), two.last()]);
    laws::law_one_more_answer(c, password, replies_of(c, two), closed);
    laws::law_one_more_answer(c, password, replies_of(c, two).push(closed), closed);
}

/// The cleanup of a cluster that owns all its objects deletes them all, and
/// reports it.
pub proof fn law_cleanup_plays(c: ClusterView)
    requires
        c.ns() == "default"@,
    ensures
        cleanup_plays(c, fixtures::cleanup_script("DeleteRequested"@)),
        c.cleanup_run(replies_of(c, fixtures::cleanup_script("DeleteRequested"@)))
            == (FlowView::<CleanupStep>::Done {
            outcome: Ok::<_, ErrorView>(Action::AwaitChange),
        }),
{
    let owners = seq![fixtures::given_owner(c)];
    assert(c.owned_through(Some(owners)->0[0]));
    assert(c.owns(Some(owners)));
    text::law_text_starts_with_itself(c.owned_name(OwnedKind::Deployment));
    text::law_text_starts_with_itself(c.owned_name(OwnedKind::Service));
    text::law_text_starts_with_itself(c.owned_name(OwnedKind::Secret));
    text::law_text_starts_with_itself(c.owned_name(OwnedKind::TidbCluster));
    let none = Seq::<HandlerView>::empty();
    let a = none.push(HandlerView::GetOwned { kind: OwnedKind::Deployment });
    let b = a.push(HandlerView::DeleteOwned { kind: OwnedKind::Deployment });
    let d = b.push(HandlerView::GetOwned { kind: OwnedKind::Service });
    let e = d.push(HandlerView::DeleteOwned { kind: OwnedKind::Service });
    let f = e.push(HandlerView::GetOwned { kind: OwnedKind::Secret });
    let g = f.push(HandlerView::DeleteOwned { kind: OwnedKind::Secret });
    let h = g.push(HandlerView::GetOwned { kind: OwnedKind::TidbCluster });
    let i = h.push(HandlerView::DeleteOwned { kind: OwnedKind::TidbCluster });
    let j = i.push(HandlerView::EventCreate { reason: "DeleteRequested"@ });
    assert(replies_of(c, none) =~= seq![]);
    lemma_one_more_cleanup_call(c, none, a.last());
    lemma_one_more_cleanup_call(c, a, b.last());
    lemma_one_more_cleanup_call(c, b, d.last());
    lemma_one_more_cleanup_call(c, d, e.last());
    lemma_one_more_cleanup_call(c, e, f.last());
    lemma_one_more_cleanup_call(c, f, g.last());
    lemma_one_more_cleanup_call(c, g, h.last());
    lemma_one_more_cleanup_call(c, h, i.last());
    lemma_one_more_cleanup_call(c, i, j.last());
    assert(j =~= fixtures::cleanup_script("DeleteRequested"@));
}

} // verus!
