//! Users to try things out with, and a stand-in for the API server that plays
//! a scenario.
use crate::api::{ApiReply, ApiReplyView, ApiRequest, ApiRequestView};
use crate::database::crd::{
    ClusterRef as DbClusterRef, ClusterRefView as DbClusterRefView, Database, DatabaseView, DbSpec,
    DbSpecView,
};
use crate::database::fixtures::{self, give_cluster};
use crate::mock::{
    self, finalizers_added, is_plain_text, is_post_to, make_root_data, read_body, Incoming,
    IncomingView,
};
use crate::objects::ObjectMetaView;
use crate::sql::{self, proxy_sql_path};
use crate::text::{
    self, copy_text, same_text, text_ends_with, text_holds, text_or_else, text_starts_with,
};
use crate::user::crd::{
    ClusterRef, ClusterRefView, DatabaseRef, DatabaseRefView, User, UserSpec, UserSpecView,
    UserStatus, UserView,
};
use crate::user::reconcile::USER_FINALIZER;
use vstd::prelude::*;

verus! {

impl UserView {
    /// A user to try things out with.
    pub open spec fn test() -> UserView {
        UserView {
            metadata: ObjectMetaView {
                name: Some("test-user"@),
                namespace: Some("default"@),
                uid: Some("2222-22-22-22-222222"@),
                ..ObjectMetaView::empty()
            },
            spec: UserSpecView {
                cluster_ref: ClusterRefView { name: "test"@, namespace: None },
                database_ref: DatabaseRefView { name: "test-db"@, namespace: None },
                username: None,
                password: None,
                secret_name: None,
            },
            status: None,
        }
    }
}

impl User {
    /// The user with its finalizer.
    pub fn finalized(self) -> (r: User)
        ensures
            r.deep_view() == (UserView {
                metadata: self.deep_view().metadata.with_finalizer(USER_FINALIZER@),
                ..self.deep_view()
            }),
    {
        User { metadata: self.metadata.with_finalizer(USER_FINALIZER), ..self }
    }

    /// A user to try things out with.
    pub fn test() -> (r: User)
        ensures
            r.deep_view() == UserView::test(),
    {
        let mut r = User::new(
            "test-user",
            UserSpec {
                cluster_ref: ClusterRef { name: "test".to_string(), namespace: None },
                database_ref: DatabaseRef { name: "test-db".to_string(), namespace: None },
                username: None,
                password: None,
                secret_name: None,
            },
        );
        r.metadata.namespace = Some("default".to_string());
        r.metadata.uid = Some("2222-22-22-22-222222".to_string());
        r
    }

    /// The user with a status.
    pub fn with_status(self, status: UserStatus) -> (r: User)
        ensures
            r.deep_view() == (UserView { status: Some(status.deep_view()), ..self.deep_view() }),
    {
        User { status: Some(status), ..self }
    }

    /// The user under another name in the database.
    pub fn with_username(self, name: &str) -> (r: User)
        ensures
            r.deep_view() == (UserView {
                spec: UserSpecView { username: Some(name@), ..self.deep_view().spec },
                ..self.deep_view()
            }),
    {
        let mut r = self;
        r.spec.username = Some(name.to_string());
        r
    }

    /// The user with a password.
    pub fn with_password(self, pw: &str) -> (r: User)
        ensures
            r.deep_view() == (UserView {
                spec: UserSpecView { password: Some(pw@), ..self.deep_view().spec },
                ..self.deep_view()
            }),
    {
        let mut r = self;
        r.spec.password = Some(pw.to_string());
        r
    }
}

/// What can be played.
#[derive(Debug)]
pub enum Scenario {
    /// A user without finalizer gets one.
    FinalizerCreation(User),
    /// A new user is defined, and its secret and its config map are created
    /// under the names that they have by default.
    NewCreatesUserAndSecretAndConfigMapDefaultNames(User),
}

/// One call that a scenario expects.
#[derive(Debug)]
pub enum Handler {
    GetDatabase,
    GetCluster,
    GetSecretRoot { cluster_ns: String },
    ProxyDefineUser,
    CreateSecret,
    CreateConfigmap,
    FinalizerCreation,
}

/// What a `Handler` holds.
#[verifier::ext_equal]
pub enum HandlerView {
    GetDatabase,
    GetCluster,
    GetSecretRoot { cluster_ns: Seq<char> },
    ProxyDefineUser,
    CreateSecret,
    CreateConfigmap,
    FinalizerCreation,
}

impl DeepView for Handler {
    type V = HandlerView;

    open spec fn deep_view(&self) -> HandlerView {
        match self {
            Handler::GetDatabase => HandlerView::GetDatabase,
            Handler::GetCluster => HandlerView::GetCluster,
            Handler::GetSecretRoot { cluster_ns } => HandlerView::GetSecretRoot {
                cluster_ns: cluster_ns@,
            },
            Handler::ProxyDefineUser => HandlerView::ProxyDefineUser,
            Handler::CreateSecret => HandlerView::CreateSecret,
            Handler::CreateConfigmap => HandlerView::CreateConfigmap,
            Handler::FinalizerCreation => HandlerView::FinalizerCreation,
        }
    }
}

/// The database of a user, as the stand-in gives it.
pub open spec fn given_database(u: UserView) -> DatabaseView {
    DatabaseView {
        metadata: ObjectMetaView {
            name: Some(u.spec.database_ref.name),
            namespace: u.metadata.namespace,
            ..ObjectMetaView::empty()
        },
        spec: DbSpecView {
            cluster_ref: DbClusterRefView { name: u.spec.cluster_ref.name, namespace: None },
            db_namespace: None,
            db_name: Some("app"@),
        },
        status: None,
    }
}

impl HandlerView {
    /// A call is the expected one.
    pub open spec fn accepts(self, u: UserView, request: ApiRequestView) -> bool {
        match self {
            HandlerView::GetDatabase => {
                &&& request matches ApiRequestView::GetDatabase { namespace, name }
                &&& namespace == u.ns()
                &&& text::part_at(name, u.spec.database_ref.name, 0)
            },
            HandlerView::GetCluster => {
                &&& request matches ApiRequestView::GetCluster { namespace, name }
                &&& namespace == u.cluster_ns()
                &&& text::part_at(name, u.spec.cluster_ref.name, 0)
            },
            HandlerView::GetSecretRoot { cluster_ns } => {
                &&& request matches ApiRequestView::GetSecret { namespace, name }
                &&& namespace == cluster_ns
                &&& text::part_at(name, "surreal-root"@, 0)
            },
            HandlerView::ProxyDefineUser => {
                &&& request matches ApiRequestView::PostSql { request }
                &&& mock::posts_to(
                    request,
                    sql::sql_path(u.cluster_ns(), u.spec.cluster_ref.name),
                )
                &&& mock::says_plain_text(request)
                &&& mock::body_text(request) matches Some(body)
                &&& text::holds(body, "DEFINE USER "@)
                &&& text::holds(body, "ON DATABASE"@)
                &&& !text::holds(body, "GRANT ALL ON DB"@)
            },
            HandlerView::CreateSecret => {
                &&& request matches ApiRequestView::CreateSecret { namespace, secret }
                &&& namespace == u.ns()
                &&& ends_with(text::text_or(secret.metadata.name, seq![]), "-credentials"@)
            },
            HandlerView::CreateConfigmap => {
                &&& request matches ApiRequestView::CreateConfigMap { namespace, config_map }
                &&& namespace == u.ns()
                &&& ends_with(text::text_or(config_map.metadata.name, seq![]), "-config"@)
                &&& config_map.data.contains_key("username"@)
                &&& config_map.data.contains_key("url"@)
            },
            HandlerView::FinalizerCreation => false,
        }
    }

    /// The answer to the expected call.
    pub open spec fn reply(self, u: UserView) -> ApiReplyView {
        match self {
            HandlerView::GetDatabase => ApiReplyView::Database { database: given_database(u) },
            HandlerView::GetCluster => ApiReplyView::Cluster {
                cluster: fixtures::given_cluster(u.spec.cluster_ref.name, u.cluster_ns()),
            },
            HandlerView::GetSecretRoot { .. } => ApiReplyView::Secret {
                data: Some(mock::root_data()),
            },
            _ => ApiReplyView::Accepted,
        }
    }

    /// What comes of something that is sent: the answer, or nothing where it is
    /// not what is expected.
    pub open spec fn answer(self, u: UserView, incoming: IncomingView) -> Option<ApiReplyView> {
        let fits = match incoming {
            IncomingView::Call { request } => self.accepts(u, request),
            IncomingView::Finalizers { namespace, name, operations } => self is FinalizerCreation
                && namespace == u.ns() && name == u.name_any() && mock::add_finalizers(
                operations,
            ),
        };
        if fits {
            Some(self.reply(u))
        } else {
            None
        }
    }
}

/// A text ends with a part.
pub open spec fn ends_with(text: Seq<char>, part: Seq<char>) -> bool {
    text::part_at(text, part, text.len() - part.len())
}

/// A scenario that is being played.
#[derive(Debug)]
pub struct Script {
    pub user: User,
    pub handlers: Vec<Handler>,
}

/// What a `Script` holds.
#[verifier::ext_equal]
pub struct ScriptView {
    pub user: UserView,
    pub handlers: Seq<HandlerView>,
}

impl DeepView for Script {
    type V = ScriptView;

    open spec fn deep_view(&self) -> ScriptView {
        ScriptView { user: self.user.deep_view(), handlers: self.handlers.deep_view() }
    }
}

/// The calls by which a user comes about.
pub open spec fn new_script() -> Seq<HandlerView> {
    seq![
        HandlerView::GetDatabase,
        HandlerView::GetCluster,
        HandlerView::GetSecretRoot { cluster_ns: "default"@ },
        HandlerView::ProxyDefineUser,
        HandlerView::CreateSecret,
        HandlerView::CreateConfigmap,
    ]
}

/// The script of a scenario.
pub open spec fn script_of(scenario: Scenario) -> ScriptView {
    match scenario {
        Scenario::FinalizerCreation(user) => ScriptView {
            user: user.deep_view(),
            handlers: seq![HandlerView::FinalizerCreation],
        },
        Scenario::NewCreatesUserAndSecretAndConfigMapDefaultNames(user) => ScriptView {
            user: user.deep_view(),
            handlers: new_script(),
        },
    }
}

/// A stand-in for the API server that has yet to be given a scenario.
#[derive(Debug)]
pub struct ApiServerVerifier;

/// Where the stand-ins come from.
#[derive(Debug)]
pub struct UserContextMock;

impl UserContextMock {
    /// A stand-in for the API server.
    pub fn test() -> (r: ApiServerVerifier)
        ensures
            r == ApiServerVerifier,
    {
        ApiServerVerifier
    }
}

impl ApiServerVerifier {
    /// Plays a scenario.
    pub fn run(self, scenario: Scenario) -> (r: Script)
        ensures
            r.deep_view() == script_of(scenario),
    {
        let mut handlers: Vec<Handler> = Vec::new();
        let user = match scenario {
            Scenario::FinalizerCreation(user) => {
                handlers.push(Handler::FinalizerCreation);
                user
            },
            Scenario::NewCreatesUserAndSecretAndConfigMapDefaultNames(user) => {
                handlers.push(Handler::GetDatabase);
                handlers.push(Handler::GetCluster);
                handlers.push(Handler::GetSecretRoot { cluster_ns: "default".to_string() });
                handlers.push(Handler::ProxyDefineUser);
                handlers.push(Handler::CreateSecret);
                handlers.push(Handler::CreateConfigmap);
                user
            },
        };
        assert(handlers.deep_view() =~= script_of(scenario).handlers);
        Script { user, handlers }
    }
}

impl Script {
    /// The namespace of the cluster.
    fn cluster_ns(&self) -> (r: String)
        requires
            self.user.metadata.namespace is Some,
        ensures
            r@ == self.user.deep_view().cluster_ns(),
    {
        let own_ns = self.user.namespace();
        text_or_else(&self.user.spec.cluster_ref.namespace, own_ns.as_str())
    }

    /// Expects a question for the database.
    fn handle_get_database(&self, request: &ApiRequest) -> (r: bool)
        requires
            self.user.metadata.namespace is Some,
        ensures
            r == HandlerView::GetDatabase.accepts(self.user.deep_view(), request.deep_view()),
    {
        let own_ns = self.user.namespace();
        match request {
            ApiRequest::GetDatabase { namespace, name } => same_text(
                namespace.as_str(),
                own_ns.as_str(),
            ) && text_starts_with(name.as_str(), self.user.spec.database_ref.name.as_str()),
            _ => false,
        }
    }

    /// Expects a question for the cluster.
    fn handle_get_cluster(&self, request: &ApiRequest) -> (r: bool)
        requires
            self.user.metadata.namespace is Some,
        ensures
            r == HandlerView::GetCluster.accepts(self.user.deep_view(), request.deep_view()),
    {
        let ns = self.cluster_ns();
        match request {
            ApiRequest::GetCluster { namespace, name } => same_text(
                namespace.as_str(),
                ns.as_str(),
            ) && text_starts_with(name.as_str(), self.user.spec.cluster_ref.name.as_str()),
            _ => false,
        }
    }

    /// Expects a question for the root credentials.
    fn handle_get_secret_root(&self, request: &ApiRequest, cluster_ns: &str) -> (r: bool)
        ensures
            r == (HandlerView::GetSecretRoot { cluster_ns: cluster_ns@ }).accepts(
                self.user.deep_view(),
                request.deep_view(),
            ),
    {
        match request {
            ApiRequest::GetSecret { namespace, name } => same_text(namespace.as_str(), cluster_ns)
                && text_starts_with(name.as_str(), "surreal-root"),
            _ => false,
        }
    }

    /// Expects the definition of the user.
    fn handle_proxy_define_user(&self, request: &ApiRequest) -> (r: bool)
        requires
            self.user.metadata.namespace is Some,
        ensures
            r == HandlerView::ProxyDefineUser.accepts(self.user.deep_view(), request.deep_view()),
    {
        let ns = self.cluster_ns();
        let expected = proxy_sql_path(ns.as_str(), self.user.spec.cluster_ref.name.as_str());
        match request {
            ApiRequest::PostSql { request } => {
                let body_fits = match read_body(request) {
                    Some(body) => text_holds(body.as_str(), "DEFINE USER ") && text_holds(
                        body.as_str(),
                        "ON DATABASE",
                    ) && !text_holds(body.as_str(), "GRANT ALL ON DB"),
                    None => false,
                };
                is_post_to(request, expected.as_str()) && is_plain_text(request) && body_fits
            },
            _ => false,
        }
    }

    /// Expects the secret to be created.
    fn handle_create_secret(&self, request: &ApiRequest) -> (r: bool)
        requires
            self.user.metadata.namespace is Some,
        ensures
            r == HandlerView::CreateSecret.accepts(self.user.deep_view(), request.deep_view()),
    {
        let own_ns = self.user.namespace();
        match request {
            ApiRequest::CreateSecret { namespace, secret } => {
                proof {
                    reveal_strlit("");
                    assert(""@ =~= seq![]);
                }
                let name = text_or_else(&secret.metadata.name, "");
                same_text(namespace.as_str(), own_ns.as_str()) && text_ends_with(
                    name.as_str(),
                    "-credentials",
                )
            },
            _ => false,
        }
    }

    /// Expects the config map to be created.
    fn handle_create_configmap(&self, request: &ApiRequest) -> (r: bool)
        requires
            self.user.metadata.namespace is Some,
        ensures
            r == HandlerView::CreateConfigmap.accepts(self.user.deep_view(), request.deep_view()),
    {
        let own_ns = self.user.namespace();
        match request {
            ApiRequest::CreateConfigMap { namespace, config_map } => {
                proof {
                    reveal_strlit("");
                    assert(""@ =~= seq![]);
                }
                let name = text_or_else(&config_map.metadata.name, "");
                same_text(namespace.as_str(), own_ns.as_str()) && text_ends_with(
                    name.as_str(),
                    "-config",
                ) && config_map.data.get("username").is_some() && config_map.data.get(
                    "url",
                ).is_some()
            },
            _ => false,
        }
    }

    /// Whether a call is the one that a handler expects.
    fn expects(&self, handler: &Handler, request: &ApiRequest) -> (r: bool)
        requires
            self.user.metadata.namespace is Some,
        ensures
            r == handler.deep_view().accepts(self.user.deep_view(), request.deep_view()),
    {
        match handler {
            Handler::GetDatabase => self.handle_get_database(request),
            Handler::GetCluster => self.handle_get_cluster(request),
            Handler::GetSecretRoot { cluster_ns } => self.handle_get_secret_root(
                request,
                cluster_ns.as_str(),
            ),
            Handler::ProxyDefineUser => self.handle_proxy_define_user(request),
            Handler::CreateSecret => self.handle_create_secret(request),
            Handler::CreateConfigmap => self.handle_create_configmap(request),
            Handler::FinalizerCreation => false,
        }
    }

    /// Gives the database of the user.
    fn give_database(&self) -> (r: Database)
        ensures
            r.deep_view() == given_database(self.user.deep_view()),
    {
        let mut r = Database::new(
            self.user.spec.database_ref.name.as_str(),
            DbSpec {
                cluster_ref: DbClusterRef {
                    name: self.user.spec.cluster_ref.name.clone(),
                    namespace: None,
                },
                db_namespace: None,
                db_name: Some("app".to_string()),
            },
        );
        r.metadata.namespace = copy_text(&self.user.metadata.namespace);
        r
    }

    /// The answer of a handler to the call that it expects.
    fn reply(&self, handler: &Handler) -> (r: ApiReply)
        requires
            self.user.metadata.namespace is Some,
        ensures
            r.deep_view() == handler.deep_view().reply(self.user.deep_view()),
    {
        match handler {
            Handler::GetDatabase => ApiReply::Database { database: self.give_database() },
            Handler::GetCluster => {
                let ns = self.cluster_ns();
                ApiReply::Cluster {
                    cluster: give_cluster(self.user.spec.cluster_ref.name.as_str(), ns.as_str()),
                }
            },
            Handler::GetSecretRoot { .. } => ApiReply::Secret { data: Some(make_root_data()) },
            _ => ApiReply::Accepted,
        }
    }

    /// Takes something that is sent: answers and goes on to the next call where
    /// it is what is expected, and does neither otherwise.
    pub fn handle(&mut self, incoming: &Incoming) -> (r: Option<ApiReply>)
        requires
            old(self).user.metadata.namespace is Some,
        ensures
            ({
                let before = old(self).deep_view();
                let answer = before.handlers[0].answer(before.user, incoming.deep_view());
                if before.handlers.len() > 0 && answer is Some {
                    &&& r.deep_view() == answer
                    &&& final(self).deep_view() == (ScriptView {
                        handlers: before.handlers.drop_first(),
                        ..before
                    })
                } else {
                    r is None && final(self).deep_view() == before
                }
            }),
    {
        if self.handlers.len() == 0 {
            return None;
        }
        let ghost before = self.deep_view();
        assert(before.handlers[0] == self.handlers@[0].deep_view());
        let answer = {
            let handler = &self.handlers[0];
            let fits = match incoming {
                Incoming::Call { request } => self.expects(handler, request),
                Incoming::Finalizers { namespace, name, operations } => match handler {
                    Handler::FinalizerCreation => {
                        let own_ns = self.user.namespace();
                        let own_name = self.user.name_any();
                        same_text(namespace.as_str(), own_ns.as_str()) && same_text(
                            name.as_str(),
                            own_name.as_str(),
                        ) && finalizers_added(operations)
                    },
                    _ => false,
                },
            };
            if fits {
                Some(self.reply(handler))
            } else {
                None
            }
        };
        assert(answer.deep_view() == before.handlers[0].answer(before.user, incoming.deep_view()));
        if answer.is_some() {
            self.handlers.remove(0);
            assert(self.handlers.deep_view() =~= before.handlers.drop_first());
        }
        answer
    }

    /// Whether all that was expected has come.
    pub fn finished(&self) -> (r: bool)
        ensures
            r == (self.deep_view().handlers.len() == 0),
    {
        self.handlers.len() == 0
    }
}

/// The view of a `Handler` shows all that it holds.
pub proof fn law_view_shows_handler(x: &Handler)
    ensures
        match x {
            Handler::GetDatabase => x.deep_view() == (HandlerView::GetDatabase),
            Handler::GetCluster => x.deep_view() == (HandlerView::GetCluster),
            Handler::GetSecretRoot { cluster_ns } => x.deep_view() == (HandlerView::GetSecretRoot {
                cluster_ns: cluster_ns@,
            }),
            Handler::ProxyDefineUser => x.deep_view() == (HandlerView::ProxyDefineUser),
            Handler::CreateSecret => x.deep_view() == (HandlerView::CreateSecret),
            Handler::CreateConfigmap => x.deep_view() == (HandlerView::CreateConfigmap),
            Handler::FinalizerCreation => x.deep_view() == (HandlerView::FinalizerCreation),
        },
{
}

/// The view of a `Script` shows all that it holds.
pub proof fn law_view_shows_script(x: Script)
    ensures
        x.deep_view().user == x.user.deep_view(),
        x.deep_view().handlers == x.handlers.deep_view(),
{
}

} // verus!
