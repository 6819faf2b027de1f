//! What the operations on a user return, for whoever calls them.
use crate::api::{Action, ApiReply, ApiRequest, ApiRequestView, Flow, FlowView};
use crate::error::Error;
use crate::password;
use crate::promise;
use crate::user::crd::{User, UserPhase, UserSpec};
use crate::user::promises;
use crate::user::reconcile::{self, UserStep};
use vstd::prelude::*;

verus! {

/// A pass over a user that is not ready starts with its database: in the
/// namespace that the reference to the database names, else in that of the user,
/// wherever the cluster is.
pub proof fn law_reconcile(u: &User, r: Flow<UserStep>)
    requires
        call_ensures(User::reconcile, (u,), r),
        u.metadata.namespace is Some,
    ensures
        match promises::stage(u.deep_view()) {
            UserPhase::New | UserPhase::Error => {
                r matches Flow::Ask { request: ApiRequest::GetDatabase { namespace, name }, .. }
                    && namespace@ == (match u.spec.database_ref.namespace {
                    Some(given) => given@,
                    None => u.metadata.namespace->0@,
                }) && name@ == u.spec.database_ref.name@
            },
            UserPhase::Ready => promise::waits(r.deep_view(), 180),
        },
{
    promises::law_how_passes_start(u.deep_view(), seq![]);
}

/// A pass goes on as the step and the answer ask for, with the password that the
/// user asks for, else with a generated one.
pub proof fn law_resume_with_password(
    u: &User,
    step: UserStep,
    reply: ApiReply,
    generated: &str,
    r: Flow<UserStep>,
)
    requires
        call_ensures(User::resume_with_password, (u, step, reply, generated), r),
    ensures
        promises::step_follows(
            u.deep_view(),
            generated@,
            step.deep_view(),
            reply.deep_view(),
            r.deep_view(),
        ),
{
    promises::law_what_follows_a_step(
        u.deep_view(),
        generated@,
        step.deep_view(),
        reply.deep_view(),
    );
}

/// A pass goes on likewise where a password has to be made up, which has 24
/// characters where the user is defined with it.
pub proof fn law_resume(u: &User, step: UserStep, reply: ApiReply, r: Flow<UserStep>)
    requires
        call_ensures(User::resume, (u, step, reply), r),
    ensures
        exists|generated: Seq<char>| #[trigger]
            promises::step_follows(
                u.deep_view(),
                generated,
                step.deep_view(),
                reply.deep_view(),
                r.deep_view(),
            ) && (u.spec.password is None && step is Secret && promise::has_credentials(
                reply.deep_view(),
            ) ==> password::secure_password(generated, 24)),
{
    let generated = choose|generated: Seq<char>|
        {
            &&& r.deep_view() == #[trigger] u.deep_view().next(
                step.deep_view(),
                reply.deep_view(),
                generated,
            )
            &&& u.deep_view().makes_password(step.deep_view(), reply.deep_view())
                ==> password::secure_password(
                generated,
                password::USER_LETTERS + password::SYMBOL_COUNT,
            )
        };
    promises::law_what_follows_a_step(
        u.deep_view(),
        generated,
        step.deep_view(),
        reply.deep_view(),
    );
    promises::law_when_passwords_are_made(u.deep_view(), step.deep_view(), reply.deep_view());
    assert(promises::step_follows(
        u.deep_view(),
        generated,
        step.deep_view(),
        reply.deep_view(),
        r.deep_view(),
    ));
}

/// The secret keeps the password.
pub proof fn law_ensure_secret(u: &User, password: &str, r: ApiRequest)
    requires
        call_ensures(User::ensure_secret, (u, password), r),
    ensures
        r.deep_view() matches ApiRequestView::CreateSecret { namespace, secret } && namespace
            == u.deep_view().metadata.namespace->0 && promises::keeps_password(
            u.deep_view(),
            secret,
            password@,
        ),
{
    promises::law_secret_keeps_the_password(u.deep_view(), password@);
}

/// The config map tells the user its name and the way to its cluster.
pub proof fn law_ensure_configmap(u: &User, r: ApiRequest)
    requires
        call_ensures(User::ensure_configmap, (u,), r),
    ensures
        r.deep_view() matches ApiRequestView::CreateConfigMap { namespace, config_map }
            && namespace == u.deep_view().metadata.namespace->0 && promises::tells_the_way(
            u.deep_view(),
            config_map,
        ),
{
    promises::law_config_map_tells_the_way(u.deep_view());
}

/// A user is defined in the database that is asked for, with the password that
/// is asked for, in the name of the root user.
pub proof fn law_provision_user(
    u: &User,
    ns: &str,
    db: &str,
    password: String,
    root_user: &str,
    root_password: &str,
    r: Flow<UserStep>,
)
    requires
        call_ensures(User::provision_user, (u, ns, db, password, root_user, root_password), r),
    ensures
        promises::is_reachable(u.deep_view()) ==> promises::posts(
            u.deep_view(),
            r.deep_view(),
            (root_user@, root_password@),
            promises::user_text(u.deep_view(), ns@, db@, password@),
        ),
        !promises::is_reachable(u.deep_view()) ==> promises::notes_no_path(
            u.deep_view(),
            r.deep_view(),
        ),
{
    promises::law_users_are_defined_as_asked(
        u.deep_view(),
        ns@,
        db@,
        password@,
        (root_user@, root_password@),
    );
}

/// The phase is the one that the status holds, `New` where it holds none.
pub proof fn law_current_phase(u: &User, r: UserPhase)
    requires
        call_ensures(User::current_phase, (u,), r),
    ensures
        r == (match u.status {
            Some(status) if status.phase is Some => status.phase->0,
            _ => UserPhase::New,
        }),
{
}

/// Name and namespace are those of the metadata.
pub proof fn law_name_and_namespace(u: &User, name: String, namespace: String)
    requires
        call_ensures(User::name_any, (u,), name),
        call_ensures(User::namespace, (u,), namespace),
        u.metadata.namespace is Some,
    ensures
        name@ == promise::called(u.metadata.deep_view()),
        namespace@ == u.metadata.namespace->0@,
{
}

/// Phase and message are set on the user itself.
pub proof fn law_set_phase_msg(u: &User, phase: UserPhase, message: Option<String>, r: ApiRequest)
    requires
        call_ensures(User::set_phase_msg, (u, phase, message), r),
        u.metadata.namespace is Some,
    ensures
        r matches ApiRequest::PatchUserStatus { namespace, name, phase: p, message: m }
            && namespace@ == u.metadata.namespace->0@ && name@ == promise::called(
            u.metadata.deep_view(),
        ) && p == phase && m.deep_view() == message.deep_view(),
{
}

/// A user is called by the name that it asks for, else by another one.
pub proof fn law_effective_username(spec: &UserSpec, name: &str, r: &str)
    requires
        call_ensures(UserSpec::effective_username, (spec, name), r),
    ensures
        spec.username matches Some(username) ==> r@ == username@,
        spec.username is None ==> r@ == name@,
{
}

/// Nothing is done when a user goes.
pub proof fn law_cleanup(u: &User, r: Action)
    requires
        call_ensures(User::cleanup, (u,), r),
    ensures
        r == Action::AwaitChange,
{
}

/// After a failure, whatever it was, a user is looked at again in a minute.
pub proof fn law_error_policy(e: &Error, r: Action)
    requires
        call_ensures(reconcile::error_policy, (e,), r),
    ensures
        r == (Action::Requeue { seconds: 60 }),
{
}

/// A new user has a name and what it was asked for, and nothing else.
pub proof fn law_new(name: &str, spec: UserSpec, r: User)
    requires
        call_ensures(User::new, (name, spec), r),
    ensures
        promise::is_bare(r.metadata.deep_view(), name@),
        r.spec.deep_view() == spec.deep_view(),
        r.status is None,
{
}

} // verus!
