//! What holds of every pass over a cluster, whatever the answers.
use crate::api::{Action, ApiReplyView, ApiRequestView, FlowView, OwnedKind, Propagation};
use crate::cluster::cleanup::CleanupStep;
use crate::cluster::crd::{ClusterView, Phase};
use crate::cluster::reconcile::{self, ClusterStep, Rollout, Watched};
use crate::cluster::resources;
use crate::error::{ErrorView, KubeErrorView};
use crate::objects::{
    EnvVarView, OwnerReferenceView, SecretReferenceView, TidbClusterStatusView,
};
use crate::outside;
use crate::sql;
use vstd::prelude::*;

verus! {

impl ClusterView {
    /// Where a pass stands after some answers.
    pub open spec fn run(self, password: Seq<char>, replies: Seq<ApiReplyView>) -> FlowView<
        ClusterStep,
    >
        decreases replies.len(),
    {
        if replies.len() == 0 {
            self.start(password)
        } else {
            match self.run(password, replies.drop_last()) {
                FlowView::Ask { step, .. } => self.next(step, replies.last()),
                FlowView::Done { outcome } => FlowView::Done { outcome },
            }
        }
    }

    /// Where the cleanup stands after some answers.
    pub open spec fn cleanup_run(self, replies: Seq<ApiReplyView>) -> FlowView<CleanupStep>
        decreases replies.len(),
    {
        if replies.len() == 0 {
            self.cleanup_start()
        } else {
            match self.cleanup_run(replies.drop_last()) {
                FlowView::Ask { step, .. } => self.cleanup_next(step, replies.last()),
                FlowView::Done { outcome } => FlowView::Done { outcome },
            }
        }
    }

    /// The cluster is in a phase before the one in which its root user is
    /// created.
    pub open spec fn before_bootstrap(self) -> bool {
        self.phase() == Phase::New || self.phase() == Phase::Preparing
    }

    /// The call that a step waits for, as far as it is the same whenever the
    /// step is reached.
    pub open spec fn request_at(self, step: ClusterStep, request: ApiRequestView) -> bool {
        match step {
            ClusterStep::PreflightFailed => self.phase() == Phase::New
                && !self.backend_configured() && request == self.phase_request(Phase::Error),
            ClusterStep::RootSecretCreate => self.makes_credentials() && exists|password: Seq<char>|
                request == #[trigger] self.root_secret_request(password),
            ClusterStep::RootSecretPersist => self.makes_credentials() && request
                == self.root_secret_ref_request(),
            ClusterStep::RootSecretFailed => self.makes_credentials() && request
                == self.phase_request(Phase::Error),
            ClusterStep::EnterPreparing => self.phase() == Phase::New && self.spec.tidb_cluster
                is Some && request == self.phase_request(Phase::Preparing),
            ClusterStep::EnterCreation { strict } => self.phase() == (if strict {
                Phase::New
            } else {
                Phase::Preparing
            }) && (strict ==> self.backend_configured()) && request == self.phase_request(
                Phase::InCreation,
            ),
            ClusterStep::TidbCreate => self.phase() == Phase::Preparing && self.spec.tidb_cluster
                is Some && request == (ApiRequestView::CreateTidbCluster {
                namespace: self.ns(),
                tidb_cluster: self.tidb_object(self.name_any(), self.spec.tidb_cluster->0),
            }),
            ClusterStep::TidbGet => self.phase() == Phase::Preparing && request
                == self.tidb_request(),
            ClusterStep::CreationReadiness => self.phase() == Phase::InCreation && request
                == self.readiness_request(),
            ClusterStep::BootstrapSecret => self.phase() == Phase::InCreation
                && self.credentials_secret() is Some && request == (ApiRequestView::GetSecret {
                namespace: self.ns(),
                name: self.credentials_secret()->0,
            }),
            ClusterStep::BootstrapPost => self.phase() == Phase::InCreation && request is PostSql,
            ClusterStep::EnterProgress => self.phase() == Phase::InCreation && request
                == self.phase_request(Phase::InProgress),
            ClusterStep::ApplyDeployment { rollout } => self.occasion(rollout) && request
                == self.deployment_request(rollout.creation_mode()),
            ClusterStep::ApplyService { rollout } => self.occasion(rollout) && request
                == self.service_request(),
            ClusterStep::Readiness { watched } => self.occasion(Rollout::Watch { watched })
                && request == self.readiness_request(),
            ClusterStep::Settle { seconds } => {
                ||| seconds == 60 && request == self.phase_request(Phase::Ready) && (self.phase()
                    == Phase::InProgress || self.phase() == Phase::NotReady)
                ||| seconds == 30 && request == self.phase_request(Phase::NotReady) && (
                self.phase() == Phase::InProgress || self.phase() == Phase::Ready)
            },
        }
    }

    /// The phase on whose occasion deployment and service are applied.
    pub open spec fn occasion(self, rollout: Rollout) -> bool {
        match rollout {
            Rollout::Create => self.before_bootstrap(),
            Rollout::Authenticate => self.phase() == Phase::InCreation,
            Rollout::Watch { watched: Watched::InProgress } => self.phase() == Phase::InProgress,
            Rollout::Watch { watched: Watched::Ready } => self.phase() == Phase::Ready,
            Rollout::Watch { watched: Watched::NotReady } => self.phase() == Phase::NotReady,
            Rollout::Heal => self.phase() == Phase::Error,
        }
    }
}

/// How many answers a pass can still wait for at a step.
pub open spec fn answers_left(step: ClusterStep) -> nat {
    match step {
        ClusterStep::PreflightFailed => 1,
        ClusterStep::RootSecretCreate => 5,
        ClusterStep::RootSecretPersist => 4,
        ClusterStep::RootSecretFailed => 1,
        ClusterStep::EnterPreparing => 1,
        ClusterStep::EnterCreation { .. } => 3,
        ClusterStep::TidbCreate => 5,
        ClusterStep::TidbGet => 4,
        ClusterStep::CreationReadiness => 6,
        ClusterStep::BootstrapSecret => 5,
        ClusterStep::BootstrapPost => 4,
        ClusterStep::EnterProgress => 3,
        ClusterStep::ApplyDeployment { rollout } => if rollout is Watch { 4 } else { 2 },
        ClusterStep::ApplyService { rollout } => if rollout is Watch { 3 } else { 1 },
        ClusterStep::Readiness { .. } => 2,
        ClusterStep::Settle { .. } => 1,
    }
}

/// Every call that a pass makes belongs to the step at which its answer is
/// awaited, and to the phase that the cluster is in.
pub proof fn law_calls_belong_to_the_phase(
    c: ClusterView,
    password: Seq<char>,
    replies: Seq<ApiReplyView>,
)
    ensures
        c.run(password, replies) matches FlowView::Ask { step, request } ==> c.request_at(
            step,
            request,
        ) && request.reply_kind() == step.awaited(),
    decreases replies.len(),
{
    if replies.len() == 0 {
        assert(c.makes_credentials() ==> c.start(password)->request == c.root_secret_request(
            password,
        ));
    } else {
        law_calls_belong_to_the_phase(c, password, replies.drop_last());
    }
}

/// A pass over a cluster makes at most six calls.
pub proof fn law_pass_ends(c: ClusterView, password: Seq<char>, replies: Seq<ApiReplyView>)
    ensures
        c.run(password, replies) matches FlowView::Ask { step, .. } ==> replies.len()
            + answers_left(step) <= 6,
        replies.len() >= 6 ==> c.run(password, replies) is Done,
    decreases replies.len(),
{
    if replies.len() > 0 {
        law_pass_ends(c, password, replies.drop_last());
    }
}

/// Each phase leads only to certain others: a new cluster is prepared, created
/// or found at fault, a prepared one is created, a created one is put to work,
/// and from then on it goes to and fro between ready and not ready.
pub open spec fn may_become(from: Phase, to: Phase) -> bool {
    match from {
        Phase::New => to == Phase::Error || to == Phase::Preparing || to == Phase::InCreation,
        Phase::Preparing => to == Phase::InCreation,
        Phase::InCreation => to == Phase::InProgress,
        Phase::InProgress => to == Phase::Ready || to == Phase::NotReady,
        Phase::Ready => to == Phase::NotReady,
        Phase::NotReady => to == Phase::Ready,
        Phase::Error => false,
    }
}

/// A pass sets no phase but its own cluster's, and only to one that may follow
/// the phase that the cluster is in.
pub proof fn law_phases_follow_each_other(
    c: ClusterView,
    password: Seq<char>,
    replies: Seq<ApiReplyView>,
)
    ensures
        c.run(password, replies) matches FlowView::Ask {
            request: ApiRequestView::PatchClusterStatus { namespace, name, phase },
            ..
        } ==> may_become(c.phase(), phase) && namespace == c.ns() && name == c.name_any(),
{
    law_calls_belong_to_the_phase(c, password, replies);
}

/// Once its servers ask for credentials, a cluster does not come back to a phase
/// in which they do not, and no cluster becomes new again.
pub proof fn law_no_way_back(from: Phase, to: Phase)
    requires
        may_become(from, to),
    ensures
        to != Phase::New,
        from == Phase::InProgress || from == Phase::Ready || from == Phase::NotReady ==> to
            == Phase::Ready || to == Phase::NotReady,
        from == Phase::InCreation ==> to == Phase::InProgress,
{
}

/// A pass touches no object outside of the namespace of its cluster.
pub proof fn law_passes_stay_in_the_namespace(
    c: ClusterView,
    password: Seq<char>,
    replies: Seq<ApiReplyView>,
)
    ensures
        c.run(password, replies) matches FlowView::Ask { request, .. }
            ==> request.object_namespace() == Some(c.ns()) || request is PostSql,
{
    law_calls_belong_to_the_phase(c, password, replies);
}

/// The servers let everyone in only until the root user is created: a pass
/// applies a deployment without authentication exactly in the phases before.
pub proof fn law_servers_open_only_before_bootstrap(
    c: ClusterView,
    password: Seq<char>,
    replies: Seq<ApiReplyView>,
)
    ensures
        c.run(password, replies) matches FlowView::Ask { request, .. } ==> request
            is ApplyDeployment ==> request == c.deployment_request(c.before_bootstrap()),
{
    law_calls_belong_to_the_phase(c, password, replies);
}

/// A cluster is called ready only if the deployment was just seen with an
/// available replica, and not ready only if it was not.
pub proof fn law_ready_means_available(
    c: ClusterView,
    password: Seq<char>,
    replies: Seq<ApiReplyView>,
)
    ensures
        c.run(password, replies) matches FlowView::Ask {
            request: ApiRequestView::PatchClusterStatus { phase, .. },
            ..
        } ==> {
            &&& phase == Phase::Ready ==> replies.len() > 0 && reconcile::shows_ready(
                replies.last(),
            )
            &&& phase == Phase::NotReady ==> replies.len() > 0 && !reconcile::shows_ready(
                replies.last(),
            )
        },
{
    if replies.len() > 0 {
        law_calls_belong_to_the_phase(c, password, replies.drop_last());
    }
}

/// Root credentials are made, and written down in the cluster, only for a
/// cluster that names none. What is written down names the secret that was
/// created.
pub proof fn law_given_credentials_are_kept(
    c: ClusterView,
    password: Seq<char>,
    replies: Seq<ApiReplyView>,
)
    ensures
        c.run(password, replies) matches FlowView::Ask { request, .. } ==> {
            &&& request is CreateSecret || request is ReplaceRootSecret ==> c.makes_credentials()
            &&& request matches ApiRequestView::CreateSecret { namespace, secret } ==> namespace
                == c.ns() && secret.metadata.name == Some(
                resources::root_secret_name(c.name_any()),
            )
            &&& request matches ApiRequestView::ReplaceRootSecret { root_secret, .. }
                ==> root_secret == (SecretReferenceView {
                name: Some(resources::root_secret_name(c.name_any())),
                namespace: Some(c.ns()),
            })
        },
{
    law_calls_belong_to_the_phase(c, password, replies);
}

/// The secret that is created holds the password that was made for it.
pub proof fn law_created_secret_holds_the_password(c: ClusterView, password: Seq<char>)
    ensures
        c.makes_credentials() ==> c.run(password, seq![]) == (FlowView::Ask {
            step: ClusterStep::RootSecretCreate,
            request: ApiRequestView::CreateSecret {
                namespace: c.ns(),
                secret: c.root_secret(password),
            },
        }),
        c.root_secret(password).string_data->0["user"@] == "root"@,
        c.root_secret(password).string_data->0["password"@] == password,
{
    reveal_strlit("user");
    reveal_strlit("password");
    assert("user"@.len() != "password"@.len());
}

/// The root user is created only in a cluster in creation, through servers
/// that were seen available, and with the credentials that its secret held.
pub proof fn law_bootstrap_uses_the_secret(
    c: ClusterView,
    password: Seq<char>,
    replies: Seq<ApiReplyView>,
)
    ensures
        c.run(password, replies) matches FlowView::Ask {
            request: ApiRequestView::PostSql { request },
            ..
        } ==> {
            &&& c.phase() == Phase::InCreation
            &&& replies.len() == 2
            &&& reconcile::shows_ready(replies[0])
            &&& replies[1] matches ApiReplyView::Secret { data } && sql::credentials_in(
                data,
            ) matches Some((user, pw)) && sql::sql_request_outcome(
                c.ns(),
                c.name_any(),
                None,
                sql::root_user_statement(user, pw),
            ) == Ok::<_, ErrorView>(request)
        },
{
    law_calls_belong_to_the_phase(c, password, replies);
    if c.run(password, replies) matches FlowView::Ask { request, .. } && request is PostSql {
        let once = replies.drop_last();
        law_calls_belong_to_the_phase(c, password, once);
        let never = once.drop_last();
        law_calls_belong_to_the_phase(c, password, never);
        assert(c.run(password, once)->step == ClusterStep::BootstrapSecret);
        assert(c.run(password, never)->step == ClusterStep::CreationReadiness);
        if never.len() > 0 {
            law_calls_belong_to_the_phase(c, password, never.drop_last());
        }
    }
}

/// That a secret or a TiDB cluster is already there is as good as having
/// created it.
pub proof fn law_already_there_is_created(c: ClusterView, error: KubeErrorView)
    requires
        error.already_exists(),
    ensures
        c.next(ClusterStep::RootSecretCreate, ApiReplyView::Failed { error }) == c.next(
            ClusterStep::RootSecretCreate,
            ApiReplyView::Accepted,
        ),
        c.next(ClusterStep::TidbCreate, ApiReplyView::Failed { error }) == c.next(
            ClusterStep::TidbCreate,
            ApiReplyView::Accepted,
        ),
{
}

/// A pass fails only with the failure of its last call, and not at all for a
/// cluster at fault. A pass that does not fail asks to be repeated after ten
/// seconds at the earliest and two minutes at the latest.
pub proof fn law_how_passes_end(c: ClusterView, password: Seq<char>, replies: Seq<ApiReplyView>)
    ensures
        c.run(password, replies) matches FlowView::Done { outcome } ==> exists|i: int|
            {
                &&& 0 <= i < replies.len()
                &&& c.run(password, #[trigger] replies.take(i)) matches FlowView::Ask { step, .. }
                &&& c.next(step, replies[i]) == c.run(password, replies)
                &&& match outcome {
                    Ok(action) => action matches Action::Requeue { seconds } && 10 <= seconds
                        <= 120,
                    Err(e) => replies[i] matches ApiReplyView::Failed { error } && e
                        == ErrorView::KubeError(error),
                }
                &&& c.phase() == Phase::Error ==> outcome == Ok::<_, ErrorView>(
                    Action::Requeue { seconds: 45 },
                )
            },
    decreases replies.len(),
{
    if replies.len() > 0 {
        let before = replies.drop_last();
        let last = replies.len() - 1;
        assert(replies.take(last) =~= before);
        law_how_passes_end(c, password, before);
        law_calls_belong_to_the_phase(c, password, before);
        if c.run(password, before) is Done {
            assert forall|i: int| 0 <= i < before.len() implies #[trigger] before.take(i)
                == replies.take(i) by {
                assert(before.take(i) =~= replies.take(i));
            }
            assert forall|i: int| 0 <= i < before.len() implies #[trigger] before[i]
                == replies[i] by {}
        }
    }
}

/// That a phase cannot be written down does not stop a pass. The two exceptions
/// are on the way out of `New`: without a place for the data, and straight to
/// the creation of servers.
pub proof fn law_phases_are_written_at_best(c: ClusterView, error: KubeErrorView, seconds: u64)
    ensures
        ({
            let no = ApiReplyView::Failed { error };
            let yes = ApiReplyView::Accepted;
            &&& c.next(ClusterStep::RootSecretFailed, no) == c.next(
                ClusterStep::RootSecretFailed,
                yes,
            )
            &&& c.next(ClusterStep::EnterPreparing, no) == c.next(ClusterStep::EnterPreparing, yes)
            &&& c.next(ClusterStep::EnterCreation { strict: false }, no) == c.next(
                ClusterStep::EnterCreation { strict: false },
                yes,
            )
            &&& c.next(ClusterStep::EnterProgress, no) == c.next(ClusterStep::EnterProgress, yes)
            &&& c.next(ClusterStep::Settle { seconds }, no) == c.next(
                ClusterStep::Settle { seconds },
                yes,
            )
            &&& c.next(ClusterStep::PreflightFailed, no) == FlowView::<ClusterStep>::kube_failure(
                error,
            )
            &&& c.next(ClusterStep::EnterCreation { strict: true }, no) == FlowView::<
                ClusterStep,
            >::kube_failure(error)
        }),
{
}

/// One more answer takes a pass one step further.
pub proof fn law_one_more_answer(
    c: ClusterView,
    password: Seq<char>,
    replies: Seq<ApiReplyView>,
    reply: ApiReplyView,
)
    ensures
        c.run(password, replies.push(reply)) == match c.run(password, replies) {
            FlowView::Ask { step, .. } => c.next(step, reply),
            FlowView::Done { outcome } => FlowView::Done { outcome },
        },
{
    assert(replies.push(reply).drop_last() =~= replies);
}

/// A new cluster that keeps its data where a secret says is created as soon as
/// it has root credentials: its phase is set, and servers that let everyone in
/// are started.
pub proof fn law_new_cluster_is_created(c: ClusterView, password: Seq<char>)
    requires
        c.phase() == Phase::New,
        c.spec.tikv_secret_ref is Some,
        c.spec.tidb_cluster is None,
    ensures
        ({
            let yes = ApiReplyView::Accepted;
            let credentials = if c.spec.root_secret is Some {
                seq![]
            } else {
                seq![yes, yes]
            };
            &&& c.run(password, credentials) == (FlowView::Ask {
                step: ClusterStep::EnterCreation { strict: true },
                request: c.phase_request(Phase::InCreation),
            })
            &&& c.run(password, credentials.push(yes)) == c.roll_out(Rollout::Create)
            &&& c.run(password, credentials.push(yes).push(yes)) == (FlowView::Ask {
                step: ClusterStep::ApplyService { rollout: Rollout::Create },
                request: c.service_request(),
            })
            &&& c.run(password, credentials.push(yes).push(yes).push(yes)) == FlowView::<
                ClusterStep,
            >::requeue(20)
        }),
{
    let yes = ApiReplyView::Accepted;
    let none = Seq::<ApiReplyView>::empty();
    law_one_more_answer(c, password, none, yes);
    law_one_more_answer(c, password, none.push(yes), yes);
    assert(seq![yes, yes] =~= none.push(yes).push(yes));
    let credentials = if c.spec.root_secret is Some {
        seq![]
    } else {
        seq![yes, yes]
    };
    law_one_more_answer(c, password, credentials, yes);
    law_one_more_answer(c, password, credentials.push(yes), yes);
    law_one_more_answer(c, password, credentials.push(yes).push(yes), yes);
}

/// A new cluster with a TiDB cluster to manage is prepared as soon as it has
/// root credentials, and created as soon as the TiDB cluster is ready.
pub proof fn law_managed_cluster_is_prepared_and_created(
    c: ClusterView,
    password: Seq<char>,
    status: TidbClusterStatusView,
    any: ApiReplyView,
)
    requires
        c.spec.tidb_cluster is Some,
        status.ready(),
    ensures
        c.phase() == Phase::New ==> {
            let yes = ApiReplyView::Accepted;
            let credentials = if c.spec.root_secret is Some {
                seq![]
            } else {
                seq![yes, yes]
            };
            &&& c.run(password, credentials) == (FlowView::Ask {
                step: ClusterStep::EnterPreparing,
                request: c.phase_request(Phase::Preparing),
            })
            &&& c.run(password, credentials.push(any)) == FlowView::<ClusterStep>::requeue(10)
        },
        c.phase() == Phase::Preparing ==> {
            let seen = ApiReplyView::TidbCluster { status: Some(status) };
            let yes = ApiReplyView::Accepted;
            &&& c.run(password, seq![yes, seen]) == (FlowView::Ask {
                step: ClusterStep::EnterCreation { strict: false },
                request: c.phase_request(Phase::InCreation),
            })
            &&& c.run(password, seq![yes, seen, any]) == c.roll_out(Rollout::Create)
            &&& c.run(password, seq![yes, seen, any, yes, yes]) == FlowView::<
                ClusterStep,
            >::requeue(20)
        },
{
    let seen = ApiReplyView::TidbCluster { status: Some(status) };
    let yes = ApiReplyView::Accepted;
    let none = Seq::<ApiReplyView>::empty();
    law_one_more_answer(c, password, none, yes);
    law_one_more_answer(c, password, none.push(yes), yes);
    assert(seq![yes, yes] =~= none.push(yes).push(yes));
    law_one_more_answer(c, password, none, any);
    law_one_more_answer(c, password, seq![yes, yes], any);
    assert(none =~= seq![]);
    law_one_more_answer(c, password, none.push(yes), seen);
    let two = none.push(yes).push(seen);
    assert(seq![yes, seen] =~= two);
    law_one_more_answer(c, password, two, any);
    assert(seq![yes, seen, any] =~= two.push(any));
    law_one_more_answer(c, password, two.push(any), yes);
    law_one_more_answer(c, password, two.push(any).push(yes), yes);
    assert(seq![yes, seen, any, yes, yes] =~= two.push(any).push(yes).push(yes));
}

/// A cluster in creation whose servers are available gets its root user, is put
/// to work, and its servers ask for credentials from then on.
pub proof fn law_created_cluster_is_put_to_work(
    c: ClusterView,
    password: Seq<char>,
    replicas: i32,
    data: Option<Map<Seq<char>, Seq<u8>>>,
    any: ApiReplyView,
)
    requires
        c.phase() == Phase::InCreation,
        c.credentials_secret() is Some,
        sql::credentials_in(data) is Some,
        replicas > 0,
    ensures
        outside::built_uri(sql::sql_path(c.ns(), c.name_any())) is Ok ==> {
            let up = ApiReplyView::Deployment { available_replicas: Some(replicas) };
            let secret = ApiReplyView::Secret { data };
            let yes = ApiReplyView::Accepted;
            &&& c.run(password, seq![up, secret]) is Ask
            &&& c.run(password, seq![up, secret])->request is PostSql
            &&& c.run(password, seq![up, secret, yes]) == (FlowView::Ask {
                step: ClusterStep::EnterProgress,
                request: c.phase_request(Phase::InProgress),
            })
            &&& c.run(password, seq![up, secret, yes, any]) == c.roll_out(Rollout::Authenticate)
            &&& c.run(password, seq![up, secret, yes, any, yes, yes]) == FlowView::<
                ClusterStep,
            >::requeue(20)
        },
{
    let up = ApiReplyView::Deployment { available_replicas: Some(replicas) };
    let secret = ApiReplyView::Secret { data };
    let yes = ApiReplyView::Accepted;
    let none = Seq::<ApiReplyView>::empty();
    law_one_more_answer(c, password, none, up);
    law_one_more_answer(c, password, none.push(up), secret);
    let two = none.push(up).push(secret);
    law_one_more_answer(c, password, two, yes);
    let three = two.push(yes);
    law_one_more_answer(c, password, three, any);
    law_one_more_answer(c, password, three.push(any), yes);
    law_one_more_answer(c, password, three.push(any).push(yes), yes);
    assert(seq![up, secret] =~= two);
    assert(seq![up, secret, yes] =~= three);
    assert(seq![up, secret, yes, any] =~= three.push(any));
    assert(seq![up, secret, yes, any, yes, yes] =~= three.push(any).push(yes).push(yes));
}

/// A cluster at work, or one that is not ready, becomes ready once its servers
/// are available. A ready one stays so, and stops being ready otherwise.
pub proof fn law_working_cluster_gets_ready(
    c: ClusterView,
    password: Seq<char>,
    look: ApiReplyView,
)
    ensures
        ({
            let yes = ApiReplyView::Accepted;
            let end = c.run(password, seq![yes, yes, look]);
            let ready = reconcile::shows_ready(look);
            &&& (c.phase() == Phase::InProgress || c.phase() == Phase::NotReady) && ready ==> end
                == (FlowView::Ask {
                step: ClusterStep::Settle { seconds: 60 },
                request: c.phase_request(Phase::Ready),
            })
            &&& (c.phase() == Phase::InProgress || c.phase() == Phase::Ready) && !ready ==> end
                == (FlowView::Ask {
                step: ClusterStep::Settle { seconds: 30 },
                request: c.phase_request(Phase::NotReady),
            })
            &&& c.phase() == Phase::Ready && ready ==> end == FlowView::<ClusterStep>::requeue(120)
            &&& c.phase() == Phase::NotReady && !ready ==> end == FlowView::<
                ClusterStep,
            >::requeue(30)
        }),
{
    let yes = ApiReplyView::Accepted;
    let none = Seq::<ApiReplyView>::empty();
    law_one_more_answer(c, password, none, yes);
    law_one_more_answer(c, password, none.push(yes), yes);
    law_one_more_answer(c, password, none.push(yes).push(yes), look);
    assert(seq![yes, yes, look] =~= none.push(yes).push(yes).push(look));
}

/// The servers that let everyone in say so and ask for no credentials. Those
/// that ask for credentials say so, and where their data lies.
pub proof fn law_environments(c: ClusterView)
    ensures
        sets(c.env(true), "SURREAL_UNAUTHENTICATED"@, "true"@),
        !names(c.env(true), "SURREAL_AUTH"@),
        sets(c.env(false), "SURREAL_AUTH"@, "true"@),
        names(c.env(false), "SURREAL_PATH"@),
        !names(c.env(false), "SURREAL_UNAUTHENTICATED"@),
        c.env(true) == c.env(false).filter(|e: EnvVarView| e.name != "SURREAL_AUTH"@).push(
            resources::switched_on("SURREAL_UNAUTHENTICATED"@),
        ),
{
    reveal_strlit("SURREAL_UNAUTHENTICATED");
    reveal_strlit("SURREAL_AUTH");
    reveal_strlit("SURREAL_PATH");
    let other = |e: EnvVarView| e.name != "SURREAL_AUTH"@;
    let normal = c.env(false);
    let creation = c.env(true);
    assert(creation[1].name == "SURREAL_UNAUTHENTICATED"@);
    assert(normal[0].name == "SURREAL_AUTH"@);
    assert(normal[1].name == "SURREAL_PATH"@);
    assert("SURREAL_UNAUTHENTICATED"@.len() != "SURREAL_AUTH"@.len());
    assert("SURREAL_PATH"@[8] != "SURREAL_AUTH"@[8]);
    assert("SURREAL_UNAUTHENTICATED"@.len() != "SURREAL_PATH"@.len());
    assert(normal.filter(other) =~= seq![c.path_env()]) by {
        reveal(Seq::filter);
        assert(normal.drop_last() =~= seq![normal[0]]);
        assert(normal.drop_last().drop_last() =~= Seq::<EnvVarView>::empty());
        assert(Seq::<EnvVarView>::empty().filter(other) =~= Seq::<EnvVarView>::empty());
        assert(normal.drop_last().filter(other) =~= Seq::<EnvVarView>::empty());
    }
    assert(creation =~= seq![c.path_env()].push(creation[1]));
}

/// A variable is among others.
pub open spec fn names(env: Seq<EnvVarView>, name: Seq<char>) -> bool {
    exists|i: int| 0 <= i < env.len() && (#[trigger] env[i]).name == name
}

/// A variable is among others, with a value.
pub open spec fn sets(env: Seq<EnvVarView>, name: Seq<char>, value: Seq<char>) -> bool {
    exists|i: int|
        0 <= i < env.len() && (#[trigger] env[i]).name == name && env[i].value == Some(value)
}

/// The service sends its clients to the servers that the deployment starts, at
/// the port that they listen on, whether they let everyone in or not.
pub proof fn law_service_reaches_the_servers(c: ClusterView, name: Seq<char>, creation_mode: bool)
    ensures
        c.surreal_service(name).selector == c.surreal_deployment(
            name,
            creation_mode,
        ).template_labels,
        c.surreal_deployment(name, creation_mode).match_labels == c.surreal_deployment(
            name,
            creation_mode,
        ).template_labels,
        c.surreal_service(name).ports[0].target_port == c.surreal_deployment(
            name,
            creation_mode,
        ).container.ports[0].container_port,
{
}

/// An object that the cluster builds belongs to it, and the cleanup knows it
/// again.
pub proof fn law_built_objects_are_owned(c: ClusterView, password: Seq<char>, creation_mode: bool)
    requires
        c.owner_ref() is Some,
    ensures
        c.owns(c.surreal_deployment(c.name_any(), creation_mode).metadata.owner_references),
        c.owns(c.surreal_service(c.name_any()).metadata.owner_references),
        c.owns(c.root_secret(password).metadata.owner_references),
        c.spec.tidb_cluster matches Some(spec) ==> c.owns(
            c.tidb_object(c.name_any(), spec).metadata.owner_references,
        ),
        c.surreal_deployment(c.name_any(), creation_mode).metadata.name == Some(
            c.owned_name(OwnedKind::Deployment),
        ),
        c.surreal_service(c.name_any()).metadata.name == Some(c.owned_name(OwnedKind::Service)),
        c.root_secret(password).metadata.name == Some(c.owned_name(OwnedKind::Secret)),
        c.spec.tidb_cluster matches Some(spec) ==> c.tidb_object(
            c.name_any(),
            spec,
        ).metadata.name == Some(c.owned_name(OwnedKind::TidbCluster)),
{
    let owners = seq![c.owner_ref()->0];
    assert(c.owned_through(owners[0]));
    assert(c.owns(Some(owners)));
    assert(c.among_owners(seq![]) =~= owners);
}

/// Putting the cluster among the owners of an object makes the object belong
/// to it, keeps the other owners, and does nothing the second time.
pub proof fn law_owner_is_added_once(
    c: ClusterView,
    owners: Seq<OwnerReferenceView>,
)
    requires
        c.owner_ref() is Some,
    ensures
        c.owns(Some(c.among_owners(owners))),
        owners.is_prefix_of(c.among_owners(owners)),
        c.among_owners(owners).len() <= owners.len() + 1,
        c.among_owners(c.among_owners(owners)) == c.among_owners(owners),
{
    let all = c.among_owners(owners);
    if exists|i: int| 0 <= i < owners.len() && c.named_by(#[trigger] owners[i]) {
        let i = choose|i: int| 0 <= i < owners.len() && c.named_by(#[trigger] owners[i]);
        assert(c.owned_through(Some(all)->0[i]));
    } else {
        assert(all == owners.push(c.owner_ref()->0));
        assert(all[owners.len() as int] == c.owner_ref()->0);
        assert(c.owned_through(Some(all)->0[owners.len() as int]));
        assert(c.named_by(all[owners.len() as int]));
    }
}

/// The call that a step of the cleanup waits for.
pub open spec fn cleanup_request_at(
    c: ClusterView,
    step: CleanupStep,
    request: ApiRequestView,
) -> bool {
    match step {
        CleanupStep::Look { kind } => request == (ApiRequestView::GetOwners {
            kind,
            namespace: c.ns(),
            name: c.owned_name(kind),
        }),
        CleanupStep::Remove { kind } => request == c.delete_request(kind),
        CleanupStep::Report => request == (ApiRequestView::PublishEvent {
            event: c.delete_event(),
        }),
    }
}

/// How many objects come before one in the cleanup.
pub open spec fn turn(kind: OwnedKind) -> nat {
    match kind {
        OwnedKind::Deployment => 0,
        OwnedKind::Service => 1,
        OwnedKind::Secret => 2,
        OwnedKind::TidbCluster => 3,
    }
}

/// How many objects the cleanup is done with at a step.
pub open spec fn objects_done(step: CleanupStep) -> nat {
    match step {
        CleanupStep::Look { kind } => turn(kind),
        CleanupStep::Remove { kind } => turn(kind),
        CleanupStep::Report => 4,
    }
}

/// Every call of the cleanup belongs to the step at which its answer is
/// awaited.
pub proof fn law_cleanup_calls(c: ClusterView, replies: Seq<ApiReplyView>)
    ensures
        c.cleanup_run(replies) matches FlowView::Ask { step, request } ==> cleanup_request_at(
            c,
            step,
            request,
        ) && request.reply_kind() == step.awaited(),
    decreases replies.len(),
{
    if replies.len() > 0 {
        law_cleanup_calls(c, replies.drop_last());
    }
}

/// The cleanup makes at most nine calls: two for each object, and the report.
pub proof fn law_cleanup_ends(c: ClusterView, replies: Seq<ApiReplyView>)
    ensures
        c.cleanup_run(replies) matches FlowView::Ask { step, .. } ==> replies.len() <= 2
            * objects_done(step) + (if step is Remove {
            1nat
        } else {
            0nat
        }),
        replies.len() >= 9 ==> c.cleanup_run(replies) is Done,
    decreases replies.len(),
{
    if replies.len() > 0 {
        law_cleanup_ends(c, replies.drop_last());
    }
}

/// The cleanup deletes an object only if it was just seen to belong to the
/// cluster. The TiDB cluster goes without what depends on it, the other objects
/// go with it.
pub proof fn law_cleanup_deletes_only_its_own(c: ClusterView, replies: Seq<ApiReplyView>)
    ensures
        c.cleanup_run(replies) matches FlowView::Ask {
            request: ApiRequestView::Delete { kind, namespace, name, propagation },
            ..
        } ==> {
            &&& replies.len() > 0
            &&& replies.last() matches ApiReplyView::Owners { owner_references } && c.owns(
                owner_references,
            )
            &&& c.cleanup_run(replies.drop_last()) == c.look_at(kind)
            &&& namespace == c.ns()
            &&& name == c.owned_name(kind)
            &&& propagation == Propagation::Orphan <==> kind == OwnedKind::TidbCluster
        },
{
    law_cleanup_calls(c, replies);
    if replies.len() > 0 {
        law_cleanup_calls(c, replies.drop_last());
    }
}

/// The cleanup came to look at an object, and the answer was that it is gone or
/// not the cluster's, or else it was deleted or gone by then.
pub open spec fn disposed_of(c: ClusterView, replies: Seq<ApiReplyView>, kind: OwnedKind) -> bool {
    exists|i: int|
        {
            &&& 0 <= i < replies.len()
            &&& c.cleanup_run(#[trigger] replies.take(i)) == c.look_at(kind)
            &&& {
                ||| replies[i].not_found()
                ||| replies[i] matches ApiReplyView::Owners { owner_references } && !c.owns(
                    owner_references,
                )
                ||| i + 1 < replies.len() && (replies[i + 1].not_found() || !(replies[i + 1]
                    is Failed))
            }
        }
}

/// A cleanup that succeeds has disposed of the deployment, the service, the
/// secret and the TiDB cluster.
pub proof fn law_cleanup_disposes_of_everything(
    c: ClusterView,
    replies: Seq<ApiReplyView>,
    kind: OwnedKind,
)
    requires
        forall|i: int|
            0 <= i < replies.len() && c.cleanup_run(replies.take(i)) is Ask ==> (
            #[trigger] replies[i]).fits(c.cleanup_run(replies.take(i))->step.awaited()),
    ensures
        c.cleanup_run(replies) matches FlowView::Ask { step, .. } ==> turn(kind) < objects_done(
            step,
        ) ==> disposed_of(c, replies, kind),
        c.cleanup_run(replies) matches FlowView::Done { outcome: Ok(_) } ==> disposed_of(
            c,
            replies,
            kind,
        ),
    decreases replies.len(),
{
    if replies.len() > 0 {
        let before = replies.drop_last();
        let last = replies.len() - 1;
        assert(replies.take(last) =~= before);
        assert forall|i: int|
            0 <= i < before.len() && c.cleanup_run(before.take(i)) is Ask implies (
        #[trigger] before[i]).fits(c.cleanup_run(before.take(i))->step.awaited()) by {
            assert(before.take(i) =~= replies.take(i));
            assert(replies[i] == before[i]);
        }
        law_cleanup_disposes_of_everything(c, before, kind);
        law_cleanup_calls(c, before);
        if disposed_of(c, before, kind) {
            let i = choose|i: int|
                {
                    &&& 0 <= i < before.len()
                    &&& c.cleanup_run(#[trigger] before.take(i)) == c.look_at(kind)
                    &&& {
                        ||| before[i].not_found()
                        ||| before[i] matches ApiReplyView::Owners { owner_references }
                            && !c.owns(owner_references)
                        ||| i + 1 < before.len() && (before[i + 1].not_found() || !(before[i + 1]
                            is Failed))
                    }
                };
            assert(before.take(i) =~= replies.take(i));
            assert(replies[i] == before[i]);
        }
        if c.cleanup_run(before) is Ask {
            let step = c.cleanup_run(before)->step;
            assert(replies[last].fits(step.awaited()));
            if step == (CleanupStep::Look { kind }) {
                assert(c.cleanup_run(replies.take(last)) == c.look_at(kind));
            } else if step == (CleanupStep::Remove { kind }) {
                law_cleanup_deletes_only_its_own(c, before);
                assert(before.drop_last() =~= replies.take(last - 1));
                assert(c.cleanup_run(replies.take(last - 1)) == c.look_at(kind));
            }
        }
    }
}

/// A cleanup that succeeds ended with the report of the deletion, and waits for
/// the cluster to change. One that fails does so with the failure of its last
/// call.
pub proof fn law_how_cleanups_end(c: ClusterView, replies: Seq<ApiReplyView>)
    ensures
        c.cleanup_run(replies) matches FlowView::Done { outcome } ==> exists|i: int|
            {
                &&& 0 <= i < replies.len()
                &&& c.cleanup_run(#[trigger] replies.take(i)) matches FlowView::Ask { step, .. }
                &&& match outcome {
                    Ok(action) => action == Action::AwaitChange && step == CleanupStep::Report
                        && !(replies[i] is Failed),
                    Err(e) => replies[i] matches ApiReplyView::Failed { error } && e
                        == ErrorView::KubeError(error),
                }
            },
    decreases replies.len(),
{
    if replies.len() > 0 {
        let before = replies.drop_last();
        let last = replies.len() - 1;
        assert(replies.take(last) =~= before);
        law_how_cleanups_end(c, before);
        if c.cleanup_run(before) is Done {
            assert forall|i: int| 0 <= i < before.len() implies #[trigger] before.take(i)
                == replies.take(i) by {
                assert(before.take(i) =~= replies.take(i));
            }
            assert forall|i: int| 0 <= i < before.len() implies #[trigger] before[i]
                == replies[i] by {}
        }
    }
}

/// That an object is gone is as good as having deleted it.
pub proof fn law_gone_is_deleted(c: ClusterView, kind: OwnedKind, error: KubeErrorView)
    requires
        error.not_found(),
    ensures
        c.cleanup_next(CleanupStep::Remove { kind }, ApiReplyView::Failed { error })
            == c.cleanup_next(CleanupStep::Remove { kind }, ApiReplyView::Accepted),
        c.cleanup_next(CleanupStep::Look { kind }, ApiReplyView::Failed { error }) == c.done_with(
            kind,
        ),
{
}

} // verus!
