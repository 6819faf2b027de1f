//! What holds of every pass over a user, whatever the answers.
use crate::api::{Action, ApiReplyView, ApiRequestView, FlowView};
use crate::cluster::crd::ClusterView;
use crate::credentials;
use crate::database::crd::DatabaseView;
use crate::error::{ErrorView, KubeErrorView};
use crate::objects::HttpRequestView;
use crate::outside;
use crate::sql;
use crate::text;
use crate::user::crd::{UserPhase, UserView};
use crate::user::reconcile::{self, UserStepView};
use vstd::prelude::*;

verus! {

impl UserView {
    /// Where a pass stands after some answers, should a password have to be
    /// generated.
    pub open spec fn run(self, generated: Seq<char>, replies: Seq<ApiReplyView>) -> FlowView<
        UserStepView,
    >
        decreases replies.len(),
    {
        if replies.len() == 0 {
            self.start()
        } else {
            match self.run(generated, replies.drop_last()) {
                FlowView::Ask { step, .. } => self.next(step, replies.last(), generated),
                FlowView::Done { outcome } => FlowView::Done { outcome },
            }
        }
    }

    /// The namespace, inside the cluster, of the database that an answer
    /// describes.
    pub open spec fn surreal_ns(self, reply: ApiReplyView) -> Seq<char> {
        text::text_or(reply->Database_database.spec.db_namespace, self.database_ns())
    }

    /// The name, inside the cluster, of the database that an answer describes.
    pub open spec fn surreal_db(self, reply: ApiReplyView) -> Seq<char> {
        text::text_or(
            reply->Database_database.spec.db_name,
            reply->Database_database.metadata.name_any(),
        )
    }

    /// A request defines the user in the database that the first answer
    /// described, under the root name that the third one held.
    pub open spec fn defines_user(
        self,
        request: HttpRequestView,
        password: Seq<char>,
        replies: Seq<ApiReplyView>,
    ) -> bool {
        &&& credentials::credentials_of(replies[2]) matches Ok(root)
        &&& sql::sql_request_outcome(
            self.cluster_ns(),
            self.spec.cluster_ref.name,
            Some(root),
            sql::user_statement(
                self.surreal_ns(replies[0]),
                self.surreal_db(replies[0]),
                self.username(),
                password,
            ),
        ) == Ok::<_, ErrorView>(request)
    }

    /// What stands behind a step that a pass has reached: the answers so far,
    /// and the call whose answer is awaited.
    pub open spec fn story(
        self,
        generated: Seq<char>,
        replies: Seq<ApiReplyView>,
        step: UserStepView,
        request: ApiRequestView,
    ) -> bool {
        match step {
            UserStepView::Database => replies.len() == 0 && request == (
            ApiRequestView::GetDatabase {
                namespace: self.database_ns(),
                name: self.spec.database_ref.name,
            }),
            UserStepView::Cluster { surreal_ns, surreal_db } => {
                &&& replies.len() == 1
                &&& !(replies[0] is Failed)
                &&& surreal_ns == self.surreal_ns(replies[0])
                &&& surreal_db == self.surreal_db(replies[0])
                &&& request == (ApiRequestView::GetCluster {
                    namespace: self.cluster_ns(),
                    name: self.spec.cluster_ref.name,
                })
            },
            UserStepView::Secret { surreal_ns, surreal_db } => {
                &&& replies.len() == 2
                &&& !(replies[0] is Failed)
                &&& surreal_ns == self.surreal_ns(replies[0])
                &&& surreal_db == self.surreal_db(replies[0])
                &&& Ok::<_, ErrorView>(request) == credentials::secret_request(
                    self.cluster_ns(),
                    replies[1],
                )
            },
            UserStepView::Provision { password } => {
                &&& replies.len() == 3
                &&& password == self.password(generated)
                &&& request matches ApiRequestView::PostSql { request } && self.defines_user(
                    request,
                    password,
                    replies,
                )
            },
            UserStepView::CreateSecret => {
                &&& replies.len() == 4
                &&& !(replies[3] is Failed)
                &&& request == (ApiRequestView::CreateSecret {
                    namespace: self.ns(),
                    secret: self.secret(self.password(generated)),
                })
            },
            UserStepView::CreateConfigMap => {
                &&& replies.len() == 5
                &&& !(replies[3] is Failed)
                &&& replies[4] is Failed ==> replies[4].already_exists()
                &&& request == (ApiRequestView::CreateConfigMap {
                    namespace: self.ns(),
                    config_map: self.config_map(),
                })
            },
            UserStepView::Failed => {
                &&& 3 <= replies.len() <= 6
                &&& request matches ApiRequestView::PatchUserStatus { namespace, name, phase, message }
                &&& namespace == self.ns()
                &&& name == self.name_any()
                &&& phase == UserPhase::Error
                &&& message is Some
            },
            UserStepView::Settled => {
                &&& replies.len() == 6
                &&& !(replies[3] is Failed)
                &&& replies[4] is Failed ==> replies[4].already_exists()
                &&& replies[5] is Failed ==> replies[5].already_exists()
                &&& request == self.phase_request(UserPhase::Ready, None)
            },
        }
    }
}

/// Every call of a pass belongs to the step at which its answer is awaited,
/// and the answers so far are those that lead there.
pub proof fn law_calls_follow_the_answers(
    u: UserView,
    generated: Seq<char>,
    replies: Seq<ApiReplyView>,
)
    ensures
        u.run(generated, replies) matches FlowView::Ask { step, request } ==> u.story(
            generated,
            replies,
            step,
            request,
        ) && request.reply_kind() == step.awaited(),
    decreases replies.len(),
{
    if replies.len() > 0 {
        let before = replies.drop_last();
        law_calls_follow_the_answers(u, generated, before);
        assert forall|i: int| 0 <= i < before.len() implies #[trigger] replies[i]
            == before[i] by {}
    }
}

/// A pass over a user makes at most seven calls.
pub proof fn law_pass_ends(u: UserView, generated: Seq<char>, replies: Seq<ApiReplyView>)
    ensures
        replies.len() >= 7 ==> u.run(generated, replies) is Done,
    decreases replies.len(),
{
    if replies.len() > 0 {
        law_pass_ends(u, generated, replies.drop_last());
        law_calls_follow_the_answers(u, generated, replies.drop_last());
    }
}

/// The secret of a user holds the password that the user was defined with:
/// the one asked for, or the generated one.
pub proof fn law_secret_holds_the_password(
    u: UserView,
    generated: Seq<char>,
    replies: Seq<ApiReplyView>,
)
    ensures
        u.run(generated, replies) matches FlowView::Ask {
            request: ApiRequestView::CreateSecret { namespace, secret },
            ..
        } ==> {
            let password = u.password(generated);
            &&& namespace == u.ns()
            &&& secret.metadata.name == Some(u.secret_name())
            &&& secret.data->0["password"@] == vstd::utf8::encode_utf8(password)
            &&& replies.len() == 4
            &&& !(replies[3] is Failed)
            &&& u.run(generated, replies.take(3)) matches FlowView::Ask {
                request: ApiRequestView::PostSql { request },
                ..
            } && u.defines_user(request, password, replies)
        },
{
    law_calls_follow_the_answers(u, generated, replies);
    if u.run(generated, replies) matches FlowView::Ask { step, .. } && step is CreateSecret {
        assert(replies.take(3) =~= replies.drop_last());
        law_calls_follow_the_answers(u, generated, replies.drop_last());
    }
}

/// The config map of a user holds the name that the user was defined with, and
/// the address of the service of the cluster.
pub proof fn law_config_map_leads_to_the_cluster(u: UserView)
    ensures
        u.config_map().data["username"@] == u.username(),
        u.config_map().data["url"@] == reconcile::server_url(
            u.cluster_ns(),
            u.spec.cluster_ref.name,
        ),
{
    reveal_strlit("username");
    reveal_strlit("url");
    assert("username"@.len() != "url"@.len());
}

/// A user is called ready only if the cluster accepted its definition, and
/// secret and config map were created or already there.
pub proof fn law_ready_means_provisioned(
    u: UserView,
    generated: Seq<char>,
    replies: Seq<ApiReplyView>,
)
    ensures
        u.run(generated, replies) matches FlowView::Ask {
            request: ApiRequestView::PatchUserStatus { phase: UserPhase::Ready, message, .. },
            ..
        } ==> {
            &&& message is None
            &&& replies.len() == 6
            &&& u.run(generated, replies.take(3)) matches FlowView::Ask {
                request: ApiRequestView::PostSql { request },
                ..
            } && u.defines_user(request, u.password(generated), replies)
            &&& !(replies[3] is Failed)
            &&& u.run(generated, replies.take(4)) is Ask
            &&& u.run(generated, replies.take(4))->request is CreateSecret
            &&& replies[4] is Failed ==> replies[4].already_exists()
            &&& u.run(generated, replies.take(5)) is Ask
            &&& u.run(generated, replies.take(5))->request is CreateConfigMap
            &&& replies[5] is Failed ==> replies[5].already_exists()
        },
{
    law_calls_follow_the_answers(u, generated, replies);
    if u.run(generated, replies) matches FlowView::Ask { step, .. } && step is Settled {
        let five = replies.drop_last();
        let four = five.drop_last();
        let three = four.drop_last();
        assert(replies.take(5) =~= five);
        assert(replies.take(4) =~= four);
        assert(replies.take(3) =~= three);
        law_calls_follow_the_answers(u, generated, five);
        law_calls_follow_the_answers(u, generated, four);
        law_calls_follow_the_answers(u, generated, three);
    }
}

/// A password that the user asks for is never replaced by a generated one.
pub proof fn law_given_password_is_kept(
    u: UserView,
    generated: Seq<char>,
    other: Seq<char>,
    replies: Seq<ApiReplyView>,
)
    requires
        u.spec.password is Some,
    ensures
        u.run(generated, replies) == u.run(other, replies),
    decreases replies.len(),
{
    if replies.len() > 0 {
        law_given_password_is_kept(u, generated, other, replies.drop_last());
    }
}

/// That secret or config map is already there is as good as having created it.
pub proof fn law_already_there_is_created(u: UserView, generated: Seq<char>, error: KubeErrorView)
    requires
        error.already_exists(),
    ensures
        u.next(UserStepView::CreateSecret, ApiReplyView::Failed { error }, generated) == u.next(
            UserStepView::CreateSecret,
            ApiReplyView::Accepted,
            generated,
        ),
        u.next(UserStepView::CreateConfigMap, ApiReplyView::Failed { error }, generated) == u.next(
            UserStepView::CreateConfigMap,
            ApiReplyView::Accepted,
            generated,
        ),
{
}

/// A pass leaves a user alone that is ready.
pub proof fn law_ready_users_are_left_alone(
    u: UserView,
    generated: Seq<char>,
    replies: Seq<ApiReplyView>,
)
    requires
        u.phase() == UserPhase::Ready,
    ensures
        u.run(generated, replies) == FlowView::<UserStepView>::requeue(180),
    decreases replies.len(),
{
    if replies.len() > 0 {
        law_ready_users_are_left_alone(u, generated, replies.drop_last());
    }
}

/// A pass writes only in the namespace of the user, and reads only the
/// database that it names and the cluster that it names with its secret.
pub proof fn law_reads_there_writes_here(
    u: UserView,
    generated: Seq<char>,
    replies: Seq<ApiReplyView>,
)
    ensures
        u.run(generated, replies) matches FlowView::Ask { request, .. } ==> match request {
            ApiRequestView::GetDatabase { namespace, name } => namespace == u.database_ns()
                && name == u.spec.database_ref.name,
            ApiRequestView::GetCluster { namespace, name } => namespace == u.cluster_ns() && name
                == u.spec.cluster_ref.name,
            ApiRequestView::GetSecret { namespace, .. } => namespace == u.cluster_ns(),
            ApiRequestView::PostSql { .. } => true,
            ApiRequestView::CreateSecret { namespace, secret } => namespace == u.ns()
                && secret.metadata.namespace == Some(u.ns()),
            ApiRequestView::CreateConfigMap { namespace, config_map } => namespace == u.ns()
                && config_map.metadata.namespace == Some(u.ns()),
            ApiRequestView::PatchUserStatus { namespace, name, .. } => namespace == u.ns() && name
                == u.name_any(),
            _ => false,
        },
{
    law_calls_follow_the_answers(u, generated, replies);
}

/// A pass fails only for want of root credentials, or with a refused call for
/// the database, the cluster or its secret. Otherwise the user is looked at
/// again, after between 20 seconds and three minutes.
pub proof fn law_how_passes_end(u: UserView, generated: Seq<char>, replies: Seq<ApiReplyView>)
    ensures
        u.run(generated, replies) matches FlowView::Done { outcome } ==> match outcome {
            Ok(action) => action matches Action::Requeue { seconds } && 20 <= seconds <= 180,
            Err(e) => exists|i: int|
                {
                    &&& 0 <= i < replies.len()
                    &&& u.run(generated, #[trigger] replies.take(i)) matches FlowView::Ask { step, .. }
                    &&& step is Database || step is Cluster || step is Secret
                    &&& match replies[i] {
                        ApiReplyView::Failed { error } => e == ErrorView::KubeError(error),
                        _ => e == ErrorView::MissingRootCredentials,
                    }
                },
        },
    decreases replies.len(),
{
    if replies.len() > 0 {
        let before = replies.drop_last();
        let last = replies.len() - 1;
        assert(replies.take(last) =~= before);
        law_how_passes_end(u, generated, before);
        law_calls_follow_the_answers(u, generated, before);
        if u.run(generated, before) is Done {
            assert forall|i: int| 0 <= i < before.len() implies #[trigger] before.take(i)
                == replies.take(i) by {
                assert(before.take(i) =~= replies.take(i));
            }
            assert forall|i: int| 0 <= i < before.len() implies #[trigger] before[i]
                == replies[i] by {}
        }
    }
}

/// That a phase cannot be written down does not change how a pass ends.
pub proof fn law_phases_are_written_at_best(u: UserView, generated: Seq<char>, any: ApiReplyView)
    ensures
        u.next(UserStepView::Failed, any, generated) == FlowView::<UserStepView>::requeue(20),
        u.next(UserStepView::Settled, any, generated) == FlowView::<UserStepView>::requeue(120),
{
}

/// One more answer takes a pass one step further.
pub proof fn law_one_more_answer(
    u: UserView,
    generated: Seq<char>,
    replies: Seq<ApiReplyView>,
    reply: ApiReplyView,
)
    ensures
        u.run(generated, replies.push(reply)) == match u.run(generated, replies) {
            FlowView::Ask { step, .. } => u.next(step, reply, generated),
            FlowView::Done { outcome } => FlowView::Done { outcome },
        },
{
    assert(replies.push(reply).drop_last() =~= replies);
}

/// A new user, or one at fault, becomes ready if its database exists, its
/// cluster has root credentials, and nothing that is asked of them is refused.
pub proof fn law_new_user_gets_ready(
    u: UserView,
    generated: Seq<char>,
    database: DatabaseView,
    cluster: ClusterView,
    data: Option<Map<Seq<char>, Seq<u8>>>,
    any: ApiReplyView,
)
    requires
        u.phase() == UserPhase::New || u.phase() == UserPhase::Error,
        cluster.credentials_secret() is Some,
        sql::credentials_in(data) is Some,
    ensures
        outside::built_uri(sql::sql_path(u.cluster_ns(), u.spec.cluster_ref.name)) is Ok ==> {
            let db = ApiReplyView::Database { database };
            let found = ApiReplyView::Cluster { cluster };
            let secret = ApiReplyView::Secret { data };
            let yes = ApiReplyView::Accepted;
            &&& u.run(generated, seq![db, found, secret, yes, yes, yes]) == (FlowView::Ask {
                step: UserStepView::Settled,
                request: u.phase_request(UserPhase::Ready, None),
            })
            &&& u.run(generated, seq![db, found, secret, yes, yes, yes, any]) == FlowView::<
                UserStepView,
            >::requeue(120)
        },
{
    let db = ApiReplyView::Database { database };
    let found = ApiReplyView::Cluster { cluster };
    let secret = ApiReplyView::Secret { data };
    let yes = ApiReplyView::Accepted;
    let none = Seq::<ApiReplyView>::empty();
    law_one_more_answer(u, generated, none, db);
    law_one_more_answer(u, generated, none.push(db), found);
    law_one_more_answer(u, generated, none.push(db).push(found), secret);
    let three = none.push(db).push(found).push(secret);
    law_one_more_answer(u, generated, three, yes);
    law_one_more_answer(u, generated, three.push(yes), yes);
    law_one_more_answer(u, generated, three.push(yes).push(yes), yes);
    let six = three.push(yes).push(yes).push(yes);
    law_one_more_answer(u, generated, six, any);
    assert(seq![db, found, secret, yes, yes, yes] =~= six);
    assert(seq![db, found, secret, yes, yes, yes, any] =~= six.push(any));
}

} // verus!
