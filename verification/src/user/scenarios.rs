//! The scenario of a new user is what a pass over any new user does: the calls
//! come as they are expected, and the answers lead to the end of the pass.
use crate::api::{ApiReplyView, ApiRequestView, FlowView};
use crate::mock;
use crate::outside;
use crate::sql;
use crate::text;
use crate::user::crd::{UserPhase, UserView};
use crate::user::fixtures::{self, HandlerView};
use crate::user::laws;
use crate::user::reconcile::UserStepView;
use vstd::prelude::*;

verus! {

/// The answers of a script, one after the other.
pub open spec fn replies_of(u: UserView, handlers: Seq<HandlerView>) -> Seq<ApiReplyView>
    decreases handlers.len(),
{
    if handlers.len() == 0 {
        seq![]
    } else {
        replies_of(u, handlers.drop_last()).push(handlers.last().reply(u))
    }
}

/// A pass makes the calls of a script, one after the other.
pub open spec fn plays(u: UserView, generated: Seq<char>, handlers: Seq<HandlerView>) -> bool
    decreases handlers.len(),
{
    handlers.len() == 0 || {
        &&& plays(u, generated, handlers.drop_last())
        &&& u.run(generated, replies_of(u, handlers.drop_last())) matches FlowView::Ask {
            request,
            ..
        } && handlers.last().accepts(u, request)
    }
}

proof fn lemma_one_more_call(
    u: UserView,
    generated: Seq<char>,
    handlers: Seq<HandlerView>,
    handler: HandlerView,
)
    requires
        plays(u, generated, handlers),
        u.run(generated, replies_of(u, handlers)) is Ask,
        handler.accepts(u, u.run(generated, replies_of(u, handlers))->request),
    ensures
        plays(u, generated, handlers.push(handler)),
        u.run(generated, replies_of(u, handlers.push(handler))) == u.next(
            u.run(generated, replies_of(u, handlers))->step,
            handler.reply(u),
            generated,
        ),
{
    assert(handlers.push(handler).drop_last() =~= handlers);
    laws::law_one_more_answer(u, generated, replies_of(u, handlers), handler.reply(u));
}

proof fn lemma_ends_with(text: Seq<char>, part: Seq<char>)
    ensures
        fixtures::ends_with(text + part, part),
{
    let whole = text + part;
    assert(whole.subrange(whole.len() - part.len(), whole.len() as int) =~= part);
}

/// The statement that defines the user in the database of the scenario.
pub open spec fn statement(u: UserView, generated: Seq<char>) -> Seq<char> {
    sql::user_statement(u.ns(), "app"@, u.username(), u.password(generated))
}

proof fn lemma_user_statement(
    ns: Seq<char>,
    db: Seq<char>,
    user: Seq<char>,
    password: Seq<char>,
)
    ensures
        text::holds(sql::user_statement(ns, db, user, password), "DEFINE USER "@),
        text::holds(sql::user_statement(ns, db, user, password), "ON DATABASE"@),
{
    reveal_strlit("USE NS ");
    reveal_strlit("; USE DB ");
    reveal_strlit("; DEFINE USER ");
    reveal_strlit("DEFINE USER ");
    reveal_strlit(" ON DATABASE PASSWORD '");
    reveal_strlit("ON DATABASE");
    let whole = sql::user_statement(ns, db, user, password);
    let q_ns = text::quoted_ident(ns);
    let q_db = text::quoted_ident(db);
    let q_user = text::quoted_ident(user);
    let at = 7 + q_ns.len() as int + 9 + q_db.len() as int + 2;
    assert(whole.subrange(at, at + 12) =~= "DEFINE USER "@);
    assert(text::part_at(whole, "DEFINE USER "@, at));
    let then = at + 12 + q_user.len() as int + 1;
    assert(whole.subrange(then, then + 11) =~= "ON DATABASE"@);
    assert(text::part_at(whole, "ON DATABASE"@, then));
}

proof fn lemma_questions(u: UserView, generated: Seq<char>)
    requires
        u.phase() == UserPhase::New || u.phase() == UserPhase::Error,
        u.database_ns() == u.ns(),
        u.cluster_ns() == "default"@,
    ensures
        ({
            let three = Seq::<HandlerView>::empty().push(HandlerView::GetDatabase).push(
                HandlerView::GetCluster,
            ).push(HandlerView::GetSecretRoot { cluster_ns: "default"@ });
            &&& plays(u, generated, three)
            &&& u.run(generated, replies_of(u, three)) == u.provision(
                u.ns(),
                "app"@,
                u.password(generated),
                ("root"@, "root"@),
            )
        }),
{
    let none = Seq::<HandlerView>::empty();
    let one = none.push(HandlerView::GetDatabase);
    let two = one.push(HandlerView::GetCluster);
    assert(replies_of(u, none) =~= seq![]);
    text::law_text_starts_with_itself(u.spec.database_ref.name);
    text::law_text_starts_with_itself(u.spec.cluster_ref.name);
    text::law_text_starts_with_itself("surreal-root"@);
    lemma_one_more_call(u, generated, none, one.last());
    lemma_one_more_call(u, generated, one, two.last());
    lemma_one_more_call(u, generated, two, HandlerView::GetSecretRoot { cluster_ns: "default"@ });
    sql::law_secrets_read_back("root"@, "root"@);
}

proof fn lemma_definition_is_expected(u: UserView, generated: Seq<char>)
    requires
        sql::plain_names(u.cluster_ns(), u.spec.cluster_ref.name),
        !text::holds(statement(u, generated), "GRANT ALL ON DB"@),
    ensures
        ({
            let request = sql::sql_request_to(
                sql::sql_path(u.cluster_ns(), u.spec.cluster_ref.name),
                Some(("root"@, "root"@)),
                statement(u, generated),
            );
            HandlerView::ProxyDefineUser.accepts(u, ApiRequestView::PostSql { request })
        }),
{
    lemma_user_statement(u.ns(), "app"@, u.username(), u.password(generated));
    mock::law_statements_arrive(
        u.cluster_ns(),
        u.spec.cluster_ref.name,
        Some(("root"@, "root"@)),
        statement(u, generated),
    );
}

proof fn lemma_objects_are_expected(u: UserView, password: Seq<char>)
    requires
        u.spec.secret_name is None,
    ensures
        HandlerView::CreateSecret.accepts(
            u,
            ApiRequestView::CreateSecret { namespace: u.ns(), secret: u.secret(password) },
        ),
        HandlerView::CreateConfigmap.accepts(
            u,
            ApiRequestView::CreateConfigMap { namespace: u.ns(), config_map: u.config_map() },
        ),
{
    lemma_ends_with(u.name_any(), "-credentials"@);
    lemma_ends_with(u.name_any(), "-config"@);
}

proof fn lemma_steps(u: UserView, generated: Seq<char>)
    requires
        u.cluster_ns() == "default"@,
    ensures
        ({
            let path = sql::sql_path(u.cluster_ns(), u.spec.cluster_ref.name);
            let password = u.password(generated);
            let request = sql::sql_request_to(
                path,
                Some(("root"@, "root"@)),
                statement(u, generated),
            );
            outside::built_uri(path) == Ok::<_, (Seq<char>, Seq<char>)>(path) ==> {
                &&& u.provision(u.ns(), "app"@, password, ("root"@, "root"@)) == (FlowView::Ask {
                    step: UserStepView::Provision { password },
                    request: ApiRequestView::PostSql { request },
                })
                &&& u.next(
                    UserStepView::Provision { password },
                    ApiReplyView::Accepted,
                    generated,
                ) == (FlowView::Ask {
                    step: UserStepView::CreateSecret,
                    request: ApiRequestView::CreateSecret {
                        namespace: u.ns(),
                        secret: u.secret(password),
                    },
                })
                &&& u.next(UserStepView::CreateSecret, ApiReplyView::Accepted, generated) == (
                FlowView::Ask {
                    step: UserStepView::CreateConfigMap,
                    request: ApiRequestView::CreateConfigMap {
                        namespace: u.ns(),
                        config_map: u.config_map(),
                    },
                })
                &&& u.next(UserStepView::CreateConfigMap, ApiReplyView::Accepted, generated) == (
                FlowView::Ask {
                    step: UserStepView::Settled,
                    request: u.phase_request(UserPhase::Ready, None),
                })
            }
        }),
{
}

/// A new user is defined in its database, and its secret and its config map are
/// created under the names that they have by default. Whatever becomes of the
/// status then, the user is looked at again after two minutes.
#[verifier::rlimit(60)]
#[verifier::spinoff_prover]
pub proof fn law_new_user_plays(u: UserView, generated: Seq<char>, any: ApiReplyView)
    requires
        u.phase() == UserPhase::New || u.phase() == UserPhase::Error,
        u.database_ns() == u.ns(),
        u.cluster_ns() == "default"@,
        u.spec.secret_name is None,
        sql::plain_names(u.cluster_ns(), u.spec.cluster_ref.name),
        !text::holds(statement(u, generated), "GRANT ALL ON DB"@),
    ensures
        ({
            let path = sql::sql_path(u.cluster_ns(), u.spec.cluster_ref.name);
            outside::built_uri(path) == Ok::<_, (Seq<char>, Seq<char>)>(path) ==> {
                let replies = replies_of(u, fixtures::new_script());
                &&& plays(u, generated, fixtures::new_script())
                &&& u.run(generated, replies) == (FlowView::Ask {
                    step: UserStepView::Settled,
                    request: u.phase_request(UserPhase::Ready, None),
                })
                &&& u.run(generated, replies.push(any)) == FlowView::<UserStepView>::requeue(120)
            }
        }),
{
    let path = sql::sql_path(u.cluster_ns(), u.spec.cluster_ref.name);
    if outside::built_uri(path) == Ok::<_, (Seq<char>, Seq<char>)>(path) {
        let three = Seq::<HandlerView>::empty().push(HandlerView::GetDatabase).push(
            HandlerView::GetCluster,
        ).push(HandlerView::GetSecretRoot { cluster_ns: "default"@ });
        let four = three.push(HandlerView::ProxyDefineUser);
        let five = four.push(HandlerView::CreateSecret);
        let six = five.push(HandlerView::CreateConfigmap);
        lemma_questions(u, generated);
        lemma_steps(u, generated);
        lemma_definition_is_expected(u, generated);
        lemma_objects_are_expected(u, u.password(generated));
        lemma_one_more_call(u, generated, three, four.last());
        lemma_one_more_call(u, generated, four, five.last());
        lemma_one_more_call(u, generated, five, six.last());
        laws::law_one_more_answer(u, generated, replies_of(u, six), any);
        assert(six =~= fixtures::new_script());
    }
}

} // verus!
