//! What holds of every pass over a database, whatever the answers.
use crate::api::{Action, ApiReplyView, ApiRequestView, FlowView};
use crate::cluster::crd::ClusterView;
use crate::credentials;
use crate::database::crd::{DatabaseView, DbPhase};
use crate::database::reconcile::DbStepView;
use crate::error::ErrorView;
use crate::objects::HttpRequestView;
use crate::outside;
use crate::sql;
use vstd::prelude::*;

verus! {

impl DatabaseView {
    /// Where a pass stands after some answers.
    pub open spec fn run(self, replies: Seq<ApiReplyView>) -> FlowView<DbStepView>
        decreases replies.len(),
    {
        if replies.len() == 0 {
            self.start()
        } else {
            match self.run(replies.drop_last()) {
                FlowView::Ask { step, .. } => self.next(step, replies.last()),
                FlowView::Done { outcome } => FlowView::Done { outcome },
            }
        }
    }

    /// A request carries a statement to the cluster of the database, under the
    /// name of a user.
    pub open spec fn carries(
        self,
        request: HttpRequestView,
        user: Seq<char>,
        password: Seq<char>,
        statement: Seq<char>,
    ) -> bool {
        sql::sql_request_outcome(
            self.cluster_ns(),
            self.spec.cluster_ref.name,
            Some((user, password)),
            statement,
        ) == Ok::<_, ErrorView>(request)
    }

    /// What stands behind a step that a pass has reached: the answers so far,
    /// and the call whose answer is awaited.
    pub open spec fn story(
        self,
        replies: Seq<ApiReplyView>,
        step: DbStepView,
        request: ApiRequestView,
    ) -> bool {
        match step {
            DbStepView::Cluster => replies.len() == 0 && request == (ApiRequestView::GetCluster {
                namespace: self.cluster_ns(),
                name: self.spec.cluster_ref.name,
            }),
            DbStepView::Secret => replies.len() == 1 && Ok::<_, ErrorView>(request)
                == credentials::secret_request(self.cluster_ns(), replies[0]),
            DbStepView::Namespace { user, password } => {
                &&& replies.len() == 2
                &&& credentials::credentials_of(replies[1]) == Ok::<_, ErrorView>((user, password))
                &&& request matches ApiRequestView::PostSql { request } && self.carries(
                    request,
                    user,
                    password,
                    sql::namespace_statement(self.surreal_ns()),
                )
            },
            DbStepView::Database => {
                &&& replies.len() == 3
                &&& !(replies[2] is Failed)
                &&& credentials::credentials_of(replies[1]) matches Ok((user, password))
                &&& request matches ApiRequestView::PostSql { request }
                &&& self.carries(
                    request,
                    user,
                    password,
                    sql::database_statement(self.surreal_ns(), self.surreal_db()),
                )
            },
            DbStepView::Failed => {
                &&& 2 <= replies.len() <= 4
                &&& request matches ApiRequestView::PatchDatabaseStatus { namespace, name, phase, message }
                &&& namespace == self.ns()
                &&& name == self.name_any()
                &&& phase == DbPhase::Error
                &&& message is Some
            },
            DbStepView::Settled => {
                &&& replies.len() == 4
                &&& !(replies[2] is Failed)
                &&& !(replies[3] is Failed)
                &&& request == self.phase_request(DbPhase::Ready, None)
            },
        }
    }
}

proof fn lemma_prefix(replies: Seq<ApiReplyView>)
    requires
        replies.len() > 0,
    ensures
        forall|i: int| 0 <= i < replies.len() - 1 ==> #[trigger] replies[i]
            == replies.drop_last()[i],
{
}

/// Every call of a pass belongs to the step at which its answer is awaited,
/// and the answers so far are those that lead there.
pub proof fn law_calls_follow_the_answers(db: DatabaseView, replies: Seq<ApiReplyView>)
    ensures
        db.run(replies) matches FlowView::Ask { step, request } ==> db.story(
            replies,
            step,
            request,
        ) && request.reply_kind() == step.awaited(),
    decreases replies.len(),
{
    if replies.len() > 0 {
        law_calls_follow_the_answers(db, replies.drop_last());
        lemma_prefix(replies);
    }
}

/// A pass over a database makes at most five calls.
pub proof fn law_pass_ends(db: DatabaseView, replies: Seq<ApiReplyView>)
    ensures
        replies.len() >= 5 ==> db.run(replies) is Done,
    decreases replies.len(),
{
    if replies.len() > 0 {
        law_pass_ends(db, replies.drop_last());
        law_calls_follow_the_answers(db, replies.drop_last());
    }
}

/// A database is called ready only if the cluster accepted the definition of
/// its namespace and then that of the database, both under the name of the
/// root user.
pub proof fn law_ready_means_defined(db: DatabaseView, replies: Seq<ApiReplyView>)
    ensures
        db.run(replies) matches FlowView::Ask {
            request: ApiRequestView::PatchDatabaseStatus { phase: DbPhase::Ready, message, .. },
            ..
        } ==> {
            &&& message is None
            &&& replies.len() == 4
            &&& credentials::credentials_of(replies[1]) matches Ok((user, password))
            &&& db.run(replies.take(2)) matches FlowView::Ask {
                request: ApiRequestView::PostSql { request: first },
                ..
            }
            &&& db.carries(first, user, password, sql::namespace_statement(db.surreal_ns()))
            &&& !(replies[2] is Failed)
            &&& db.run(replies.take(3)) matches FlowView::Ask {
                request: ApiRequestView::PostSql { request: second },
                ..
            }
            &&& db.carries(
                second,
                user,
                password,
                sql::database_statement(db.surreal_ns(), db.surreal_db()),
            )
            &&& !(replies[3] is Failed)
        },
{
    law_calls_follow_the_answers(db, replies);
    if db.run(replies) matches FlowView::Ask { step, .. } && step is Settled {
        let three = replies.drop_last();
        let two = three.drop_last();
        assert(replies.take(3) =~= three);
        assert(replies.take(2) =~= two);
        law_calls_follow_the_answers(db, three);
        law_calls_follow_the_answers(db, two);
    }
}

/// The message of a database at fault says what was attempted and why it
/// failed: the refusal of the last call, or that the call could not be put
/// together.
pub proof fn law_failures_are_explained(db: DatabaseView, replies: Seq<ApiReplyView>)
    ensures
        db.run(replies) matches FlowView::Ask {
            request: ApiRequestView::PatchDatabaseStatus { phase: DbPhase::Error, message, .. },
            ..
        } ==> exists|e: ErrorView|
            {
                &&& message == Some("namespace define failed: "@ + #[trigger] e.message())
                    || message == Some("database define failed: "@ + e.message())
                &&& (replies.last() matches ApiReplyView::Failed { error } && e
                    == ErrorView::KubeError(error)) || e is HTTPError
            },
{
    law_calls_follow_the_answers(db, replies);
    if replies.len() > 0 {
        let before = replies.drop_last();
        law_calls_follow_the_answers(db, before);
        if db.run(replies) is Ask && db.run(replies)->step is Failed {
            let step = db.run(before)->step;
            let e = match replies.last() {
                ApiReplyView::Failed { error } => ErrorView::KubeError(error),
                _ => {
                    let credentials = credentials::credentials_of(before.push(replies.last())[1]);
                    match step {
                        DbStepView::Secret => sql::sql_request_outcome(
                            db.cluster_ns(),
                            db.spec.cluster_ref.name,
                            Some(credentials->Ok_0),
                            sql::namespace_statement(db.surreal_ns()),
                        )->Err_0,
                        _ => sql::sql_request_outcome(
                            db.cluster_ns(),
                            db.spec.cluster_ref.name,
                            Some((step->Namespace_user, step->Namespace_password)),
                            sql::database_statement(db.surreal_ns(), db.surreal_db()),
                        )->Err_0,
                    }
                },
            };
            assert(before.push(replies.last()) =~= replies);
            assert(db.run(replies)->request == db.phase_request(
                DbPhase::Error,
                Some("namespace define failed: "@ + e.message()),
            ) || db.run(replies)->request == db.phase_request(
                DbPhase::Error,
                Some("database define failed: "@ + e.message()),
            ));
        }
    }
}

/// A pass leaves a database alone that is ready or at fault.
pub proof fn law_settled_databases_are_left_alone(db: DatabaseView, replies: Seq<ApiReplyView>)
    requires
        db.phase() == DbPhase::Ready || db.phase() == DbPhase::Error,
    ensures
        db.run(replies) == FlowView::<DbStepView>::requeue(
            if db.phase() == DbPhase::Ready {
                120
            } else {
                30
            },
        ),
    decreases replies.len(),
{
    if replies.len() > 0 {
        law_settled_databases_are_left_alone(db, replies.drop_last());
    }
}

/// A pass reads only in the namespace of the cluster, and writes only the
/// status of its own database.
pub proof fn law_reads_there_writes_here(db: DatabaseView, replies: Seq<ApiReplyView>)
    ensures
        db.run(replies) matches FlowView::Ask { request, .. } ==> match request {
            ApiRequestView::GetCluster { namespace, name } => namespace == db.cluster_ns() && name
                == db.spec.cluster_ref.name,
            ApiRequestView::GetSecret { namespace, .. } => namespace == db.cluster_ns(),
            ApiRequestView::PostSql { .. } => true,
            ApiRequestView::PatchDatabaseStatus { namespace, name, .. } => namespace == db.ns()
                && name == db.name_any(),
            _ => false,
        },
{
    law_calls_follow_the_answers(db, replies);
}

/// A pass fails only for want of root credentials, or with a refused call for
/// the cluster or its secret. Otherwise the database is looked at again, after
/// between 20 seconds and two minutes.
pub proof fn law_how_passes_end(db: DatabaseView, replies: Seq<ApiReplyView>)
    ensures
        db.run(replies) matches FlowView::Done { outcome } ==> match outcome {
            Ok(action) => action matches Action::Requeue { seconds } && 20 <= seconds <= 120,
            Err(e) => exists|i: int|
                {
                    &&& 0 <= i < replies.len()
                    &&& db.run(#[trigger] replies.take(i)) matches FlowView::Ask { step, .. }
                    &&& step is Cluster || step is Secret
                    &&& match replies[i] {
                        ApiReplyView::Failed { error } => e == ErrorView::KubeError(error),
                        _ => e == ErrorView::MissingRootCredentials,
                    }
                },
        },
    decreases replies.len(),
{
    if replies.len() > 0 {
        let before = replies.drop_last();
        let last = replies.len() - 1;
        assert(replies.take(last) =~= before);
        law_how_passes_end(db, before);
        law_calls_follow_the_answers(db, before);
        if db.run(before) is Done {
            assert forall|i: int| 0 <= i < before.len() implies #[trigger] before.take(i)
                == replies.take(i) by {
                assert(before.take(i) =~= replies.take(i));
            }
            assert forall|i: int| 0 <= i < before.len() implies #[trigger] before[i]
                == replies[i] by {}
        }
    }
}

/// That a phase cannot be written down does not change how a pass ends.
pub proof fn law_phases_are_written_at_best(db: DatabaseView, any: ApiReplyView)
    ensures
        db.next(DbStepView::Failed, any) == FlowView::<DbStepView>::requeue(20),
        db.next(DbStepView::Settled, any) == FlowView::<DbStepView>::requeue(60),
{
}

/// One more answer takes a pass one step further.
pub proof fn law_one_more_answer(
    db: DatabaseView,
    replies: Seq<ApiReplyView>,
    reply: ApiReplyView,
)
    ensures
        db.run(replies.push(reply)) == match db.run(replies) {
            FlowView::Ask { step, .. } => db.next(step, reply),
            FlowView::Done { outcome } => FlowView::Done { outcome },
        },
{
    assert(replies.push(reply).drop_last() =~= replies);
}

/// A new database, or one under way, becomes ready if its cluster has root
/// credentials and accepts both definitions.
pub proof fn law_new_database_gets_ready(
    db: DatabaseView,
    cluster: ClusterView,
    data: Option<Map<Seq<char>, Seq<u8>>>,
    any: ApiReplyView,
)
    requires
        db.phase() == DbPhase::New || db.phase() == DbPhase::InProgress,
        cluster.credentials_secret() is Some,
        sql::credentials_in(data) is Some,
    ensures
        outside::built_uri(sql::sql_path(db.cluster_ns(), db.spec.cluster_ref.name)) is Ok ==> {
            let found = ApiReplyView::Cluster { cluster };
            let secret = ApiReplyView::Secret { data };
            let yes = ApiReplyView::Accepted;
            &&& db.run(seq![found, secret, yes, yes]) == (FlowView::Ask {
                step: DbStepView::Settled,
                request: db.phase_request(DbPhase::Ready, None),
            })
            &&& db.run(seq![found, secret, yes, yes, any]) == FlowView::<DbStepView>::requeue(60)
        },
{
    let found = ApiReplyView::Cluster { cluster };
    let secret = ApiReplyView::Secret { data };
    let yes = ApiReplyView::Accepted;
    let none = Seq::<ApiReplyView>::empty();
    law_one_more_answer(db, none, found);
    law_one_more_answer(db, none.push(found), secret);
    let two = none.push(found).push(secret);
    law_one_more_answer(db, two, yes);
    law_one_more_answer(db, two.push(yes), yes);
    law_one_more_answer(db, two.push(yes).push(yes), any);
    assert(seq![found, secret, yes, yes] =~= two.push(yes).push(yes));
    assert(seq![found, secret, yes, yes, any] =~= two.push(yes).push(yes).push(any));
}

} // verus!
