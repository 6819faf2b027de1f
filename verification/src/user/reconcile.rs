//! How a user is brought about: it is defined in its database with the root
//! credentials of the cluster, then its password goes into a secret and the way
//! to the cluster into a config map.
use crate::api::{
    Action, ApiReply, ApiReplyView, ApiRequest, ApiRequestView, Flow, FlowView, ReplyKind,
};
use crate::credentials::{self, ask_for_secret, read_credentials};
use crate::database::crd::DatabaseView;
use crate::error::{Error, ErrorView};
use crate::objects::{
    ConfigMap, ConfigMapView, ObjectMeta, ObjectMetaView, OwnerReference, OwnerReferenceView,
    Secret, SecretView,
};
use crate::password::{self, random_password};
use crate::sql::{self, define_user, sql_request};
use crate::text::{self, joined, joined3, text_or_else, TextMap};
use crate::user::crd::{User, UserPhase, UserSpec, UserView};
use vstd::prelude::*;

verus! {

/// The finalizer that keeps a user until it is cleaned up.
pub const USER_FINALIZER: &'static str = "users.surrealdb.aexol.com";

/// The kind of a user.
pub const USER_KIND: &'static str = "User";

/// The call whose answer a pass over a user waits for.
#[allow(inconsistent_fields)]
#[derive(Debug)]
pub enum UserStep {
    /// The database resource is read.
    Database,
    /// The cluster is read, for a user of a database in a namespace.
    Cluster { surreal_ns: String, surreal_db: String },
    /// The secret with the root credentials is read, likewise.
    Secret { surreal_ns: String, surreal_db: String },
    /// The user is defined with a password.
    Provision { password: String },
    /// The secret with the password is created.
    CreateSecret,
    /// The config map is created.
    CreateConfigMap,
    /// A failure is written down.
    Failed,
    /// The success is written down.
    Settled,
}

/// What a `UserStep` holds.
#[allow(inconsistent_fields)]
#[verifier::ext_equal]
pub enum UserStepView {
    Database,
    Cluster { surreal_ns: Seq<char>, surreal_db: Seq<char> },
    Secret { surreal_ns: Seq<char>, surreal_db: Seq<char> },
    Provision { password: Seq<char> },
    CreateSecret,
    CreateConfigMap,
    Failed,
    Settled,
}

impl DeepView for UserStep {
    type V = UserStepView;

    open spec fn deep_view(&self) -> UserStepView {
        match self {
            UserStep::Database => UserStepView::Database,
            UserStep::Cluster { surreal_ns, surreal_db } => UserStepView::Cluster {
                surreal_ns: surreal_ns@,
                surreal_db: surreal_db@,
            },
            UserStep::Secret { surreal_ns, surreal_db } => UserStepView::Secret {
                surreal_ns: surreal_ns@,
                surreal_db: surreal_db@,
            },
            UserStep::Provision { password } => UserStepView::Provision { password: password@ },
            UserStep::CreateSecret => UserStepView::CreateSecret,
            UserStep::CreateConfigMap => UserStepView::CreateConfigMap,
            UserStep::Failed => UserStepView::Failed,
            UserStep::Settled => UserStepView::Settled,
        }
    }
}

impl UserStepView {
    /// The kind of answer that is waited for.
    pub open spec fn awaited(self) -> ReplyKind {
        match self {
            UserStepView::Database => ReplyKind::Database,
            UserStepView::Cluster { .. } => ReplyKind::Cluster,
            UserStepView::Secret { .. } => ReplyKind::Secret,
            _ => ReplyKind::Accepted,
        }
    }
}

impl UserStep {
    /// The kind of answer that is waited for.
    pub fn awaits(&self) -> (r: ReplyKind)
        ensures
            r == self.deep_view().awaited(),
    {
        match self {
            UserStep::Database => ReplyKind::Database,
            UserStep::Cluster { .. } => ReplyKind::Cluster,
            UserStep::Secret { .. } => ReplyKind::Secret,
            _ => ReplyKind::Accepted,
        }
    }
}

/// The address of the servers of a cluster inside the Kubernetes cluster.
pub open spec fn server_url(cluster_ns: Seq<char>, cluster_name: Seq<char>) -> Seq<char> {
    "http://"@ + cluster_name + "-surrealdb."@ + cluster_ns + ".svc:8000"@
}

impl UserView {
    /// The name of the resource.
    pub open spec fn name_any(self) -> Seq<char> {
        self.metadata.name_any()
    }

    /// The phase of the user, `New` where there is none yet.
    pub open spec fn phase(self) -> UserPhase {
        match self.status {
            Some(status) => match status.phase {
                Some(phase) => phase,
                None => UserPhase::New,
            },
            None => UserPhase::New,
        }
    }

    /// The namespace of the resource.
    pub open spec fn ns(self) -> Seq<char> {
        self.metadata.namespace->0
    }

    /// The namespace of the cluster, that of the resource by default.
    pub open spec fn cluster_ns(self) -> Seq<char> {
        text::text_or(self.spec.cluster_ref.namespace, self.ns())
    }

    /// The namespace of the database resource, that of the user by default.
    pub open spec fn database_ns(self) -> Seq<char> {
        text::text_or(self.spec.database_ref.namespace, self.ns())
    }

    /// The name of the user in the database, that of the resource by default.
    pub open spec fn username(self) -> Seq<char> {
        text::text_or(self.spec.username, self.metadata.name->0)
    }

    /// The password that the user asks for, or a generated one.
    pub open spec fn password(self, generated: Seq<char>) -> Seq<char> {
        text::text_or(self.spec.password, generated)
    }

    /// A step of the user makes up a password.
    pub open spec fn makes_password(self, step: UserStepView, reply: ApiReplyView) -> bool {
        step is Secret && credentials::credentials_of(reply) is Ok && self.spec.password is None
    }

    /// The name of the secret with the password.
    pub open spec fn secret_name(self) -> Seq<char> {
        text::text_or(self.spec.secret_name, self.name_any() + "-credentials"@)
    }

    /// The metadata of an object that the user owns, as far as it can be an
    /// owner.
    pub open spec fn owned_meta(self, name: Seq<char>) -> ObjectMetaView {
        ObjectMetaView {
            name: Some(name),
            namespace: Some(self.ns()),
            owner_references: match self.metadata.controller_owner_ref(USER_KIND@) {
                Some(owner) => Some(seq![owner]),
                None => None,
            },
            ..ObjectMetaView::empty()
        }
    }

    /// The secret with the password.
    pub open spec fn secret(self, password: Seq<char>) -> SecretView {
        SecretView {
            metadata: self.owned_meta(self.secret_name()),
            secret_type: "Opaque"@,
            string_data: None,
            data: Some(
                Map::<Seq<char>, Seq<u8>>::empty().insert(
                    "password"@,
                    vstd::utf8::encode_utf8(password),
                ),
            ),
        }
    }

    /// The config map with the name of the user and the way to the cluster.
    pub open spec fn config_map(self) -> ConfigMapView {
        ConfigMapView {
            metadata: self.owned_meta(self.name_any() + "-config"@),
            data: Map::<Seq<char>, Seq<char>>::empty().insert("username"@, self.username()).insert(
                "url"@,
                server_url(self.cluster_ns(), self.spec.cluster_ref.name),
            ),
        }
    }

    /// The call that sets phase and message.
    pub open spec fn phase_request(
        self,
        phase: UserPhase,
        message: Option<Seq<char>>,
    ) -> ApiRequestView {
        ApiRequestView::PatchUserStatus {
            namespace: self.ns(),
            name: self.name_any(),
            phase,
            message,
        }
    }

    /// A failure, with what was attempted.
    pub open spec fn failure(self, attempt: Seq<char>, error: ErrorView) -> FlowView<UserStepView> {
        FlowView::Ask {
            step: UserStepView::Failed,
            request: self.phase_request(UserPhase::Error, Some(attempt + error.message())),
        }
    }

    /// The database resource says which database the user is defined in.
    pub open spec fn with_database(self, database: DatabaseView) -> FlowView<UserStepView> {
        FlowView::Ask {
            step: UserStepView::Cluster {
                surreal_ns: text::text_or(database.spec.db_namespace, self.database_ns()),
                surreal_db: text::text_or(database.spec.db_name, database.metadata.name_any()),
            },
            request: ApiRequestView::GetCluster {
                namespace: self.cluster_ns(),
                name: self.spec.cluster_ref.name,
            },
        }
    }

    /// The user is defined.
    pub open spec fn provision(
        self,
        surreal_ns: Seq<char>,
        surreal_db: Seq<char>,
        password: Seq<char>,
        root: (Seq<char>, Seq<char>),
    ) -> FlowView<UserStepView> {
        match sql::sql_request_outcome(
            self.cluster_ns(),
            self.spec.cluster_ref.name,
            Some(root),
            sql::user_statement(surreal_ns, surreal_db, self.username(), password),
        ) {
            Ok(request) => FlowView::Ask {
                step: UserStepView::Provision { password },
                request: ApiRequestView::PostSql { request },
            },
            Err(e) => self.failure("provision failed: "@, e),
        }
    }

    /// How a pass starts.
    pub open spec fn start(self) -> FlowView<UserStepView> {
        match self.phase() {
            UserPhase::New | UserPhase::Error => FlowView::Ask {
                step: UserStepView::Database,
                request: ApiRequestView::GetDatabase {
                    namespace: self.database_ns(),
                    name: self.spec.database_ref.name,
                },
            },
            UserPhase::Ready => FlowView::requeue(180),
        }
    }

    /// How a pass goes on with the answer that a step waited for, and with a
    /// generated password should the step need one.
    pub open spec fn next(
        self,
        step: UserStepView,
        reply: ApiReplyView,
        generated: Seq<char>,
    ) -> FlowView<UserStepView> {
        match step {
            UserStepView::Database => match reply {
                ApiReplyView::Failed { error } => FlowView::kube_failure(error),
                _ => self.with_database(reply->Database_database),
            },
            UserStepView::Cluster { surreal_ns, surreal_db } => {
                match credentials::secret_request(self.cluster_ns(), reply) {
                    Ok(request) => FlowView::Ask {
                        step: UserStepView::Secret { surreal_ns, surreal_db },
                        request,
                    },
                    Err(e) => FlowView::Done { outcome: Err(e) },
                }
            },
            UserStepView::Secret { surreal_ns, surreal_db } => {
                match credentials::credentials_of(reply) {
                    Ok(root) => self.provision(
                        surreal_ns,
                        surreal_db,
                        self.password(generated),
                        root,
                    ),
                    Err(e) => FlowView::Done { outcome: Err(e) },
                }
            },
            UserStepView::Provision { password } => match reply {
                ApiReplyView::Failed { error } => self.failure(
                    "provision failed: "@,
                    ErrorView::KubeError(error),
                ),
                _ => FlowView::Ask {
                    step: UserStepView::CreateSecret,
                    request: ApiRequestView::CreateSecret {
                        namespace: self.ns(),
                        secret: self.secret(password),
                    },
                },
            },
            UserStepView::CreateSecret => {
                if reply is Failed && !reply.already_exists() {
                    self.failure("secret failed: "@, ErrorView::KubeError(reply->Failed_error))
                } else {
                    FlowView::Ask {
                        step: UserStepView::CreateConfigMap,
                        request: ApiRequestView::CreateConfigMap {
                            namespace: self.ns(),
                            config_map: self.config_map(),
                        },
                    }
                }
            },
            UserStepView::CreateConfigMap => {
                if reply is Failed && !reply.already_exists() {
                    self.failure("configmap failed: "@, ErrorView::KubeError(reply->Failed_error))
                } else {
                    FlowView::Ask {
                        step: UserStepView::Settled,
                        request: self.phase_request(UserPhase::Ready, None),
                    }
                }
            },
            UserStepView::Failed => FlowView::requeue(20),
            UserStepView::Settled => FlowView::requeue(120),
        }
    }

    /// A step that calls the user by its name goes on.
    pub open spec fn needs_name(self, step: UserStepView, reply: ApiReplyView) -> bool {
        match step {
            UserStepView::Secret { .. } => credentials::credentials_of(reply) is Ok,
            UserStepView::CreateSecret => !(reply is Failed) || reply.already_exists(),
            _ => false,
        }
    }
}

impl UserSpec {
    /// The name of the user in the database, `name` by default.
    pub fn effective_username<'a>(&'a self, name: &'a str) -> (r: &'a str)
        ensures
            r@ == text::text_or(self.deep_view().username, name@),
    {
        match &self.username {
            Some(username) => username.as_str(),
            None => name,
        }
    }
}

impl User {
    /// The name of the resource.
    pub fn name_any(&self) -> (r: String)
        ensures
            r@ == self.deep_view().name_any(),
    {
        self.metadata.name_any()
    }

    /// The phase of the user, `New` where there is none yet.
    pub fn current_phase(&self) -> (r: UserPhase)
        ensures
            r == self.deep_view().phase(),
    {
        match &self.status {
            Some(status) => match status.phase {
                Some(phase) => phase,
                None => UserPhase::New,
            },
            None => UserPhase::New,
        }
    }

    /// The namespace of the resource.
    pub fn namespace(&self) -> (r: String)
        requires
            self.metadata.namespace is Some,
        ensures
            r@ == self.deep_view().ns(),
    {
        self.metadata.namespace.as_ref().unwrap().clone()
    }

    /// The namespace of the cluster.
    fn cluster_namespace(&self) -> (r: String)
        requires
            self.metadata.namespace is Some,
        ensures
            r@ == self.deep_view().cluster_ns(),
    {
        let ns = self.namespace();
        text_or_else(&self.spec.cluster_ref.namespace, ns.as_str())
    }

    /// The namespace of the database resource.
    fn database_namespace(&self) -> (r: String)
        requires
            self.metadata.namespace is Some,
        ensures
            r@ == self.deep_view().database_ns(),
    {
        let ns = self.namespace();
        text_or_else(&self.spec.database_ref.namespace, ns.as_str())
    }

    /// The metadata of an object that the user owns.
    fn owned_meta(&self, name: String) -> (r: ObjectMeta)
        requires
            self.metadata.namespace is Some,
        ensures
            r.deep_view() == self.deep_view().owned_meta(name@),
    {
        let owner_references = match self.metadata.controller_owner_ref(USER_KIND) {
            Some(owner) => {
                let mut owners: Vec<OwnerReference> = Vec::new();
                let ghost view: OwnerReferenceView = owner.deep_view();
                owners.push(owner);
                assert(owners.deep_view() =~= seq![view]);
                Some(owners)
            },
            None => None,
        };
        ObjectMeta {
            name: Some(name),
            generate_name: None,
            namespace: Some(self.namespace()),
            uid: None,
            labels: None,
            owner_references,
            finalizers: None,
            deletion_timestamp: None,
        }
    }

    /// The call that sets phase and message.
    pub fn set_phase_msg(&self, phase: UserPhase, message: Option<String>) -> (r: ApiRequest)
        requires
            self.metadata.namespace is Some,
        ensures
            r.deep_view() == self.deep_view().phase_request(phase, message.deep_view()),
    {
        ApiRequest::PatchUserStatus {
            namespace: self.namespace(),
            name: self.name_any(),
            phase,
            message,
        }
    }

    /// Writes a failure down, with what was attempted.
    fn fail(&self, attempt: &str, error: Error) -> (r: Flow<UserStep>)
        requires
            self.metadata.namespace is Some,
        ensures
            r.deep_view() == self.deep_view().failure(attempt@, error.deep_view()),
    {
        let reason = error.message();
        Flow::Ask {
            step: UserStep::Failed,
            request: self.set_phase_msg(UserPhase::Error, Some(joined(attempt, reason.as_str()))),
        }
    }

    /// The call that creates the secret with the password.
    pub fn ensure_secret(&self, password: &str) -> (r: ApiRequest)
        requires
            self.metadata.namespace is Some,
        ensures
            r.deep_view() == (ApiRequestView::CreateSecret {
                namespace: self.deep_view().ns(),
                secret: self.deep_view().secret(password@),
            }),
    {
        let own_name = self.name_any();
        let by_default = joined(own_name.as_str(), "-credentials");
        let name = text_or_else(&self.spec.secret_name, by_default.as_str());
        let bytes = password.as_bytes_vec();
        assert(bytes.deep_view() =~= bytes@);
        ApiRequest::CreateSecret {
            namespace: self.namespace(),
            secret: Secret {
                metadata: self.owned_meta(name),
                secret_type: "Opaque".to_string(),
                string_data: None,
                data: Some(TextMap::new().with("password", bytes)),
            },
        }
    }

    /// The call that creates the config map.
    pub fn ensure_configmap(&self) -> (r: ApiRequest)
        requires
            self.metadata.namespace is Some,
            self.metadata.name is Some,
        ensures
            r.deep_view() == (ApiRequestView::CreateConfigMap {
                namespace: self.deep_view().ns(),
                config_map: self.deep_view().config_map(),
            }),
    {
        let own_name = self.name_any();
        let cluster_ns = self.cluster_namespace();
        let mut url = joined3("http://", self.spec.cluster_ref.name.as_str(), "-surrealdb.");
        url.append(cluster_ns.as_str());
        url.append(".svc:8000");
        let username = self.spec.effective_username(self.metadata.name.as_ref().unwrap().as_str());
        ApiRequest::CreateConfigMap {
            namespace: self.namespace(),
            config_map: ConfigMap {
                metadata: self.owned_meta(joined(own_name.as_str(), "-config")),
                data: TextMap::new().with("username", username.to_string()).with("url", url),
            },
        }
    }

    /// Defines the user.
    pub fn provision_user(
        &self,
        surreal_ns: &str,
        surreal_db: &str,
        password: String,
        root_user: &str,
        root_password: &str,
    ) -> (r: Flow<UserStep>)
        requires
            self.metadata.namespace is Some,
            self.metadata.name is Some,
        ensures
            r.deep_view() == self.deep_view().provision(
                surreal_ns@,
                surreal_db@,
                password@,
                (root_user@, root_password@),
            ),
    {
        let username = self.spec.effective_username(self.metadata.name.as_ref().unwrap().as_str());
        let statement = define_user(surreal_ns, surreal_db, username, password.as_str());
        let cluster_ns = self.cluster_namespace();
        match sql_request(
            cluster_ns.as_str(),
            self.spec.cluster_ref.name.as_str(),
            Some((root_user, root_password)),
            statement.as_str(),
        ) {
            Ok(request) => Flow::Ask {
                step: UserStep::Provision { password },
                request: ApiRequest::PostSql { request },
            },
            Err(e) => self.fail("provision failed: ", e),
        }
    }

    /// Starts a pass over the user.
    pub fn reconcile(&self) -> (r: Flow<UserStep>)
        requires
            self.metadata.namespace is Some,
        ensures
            r.deep_view() == self.deep_view().start(),
    {
        match self.current_phase() {
            UserPhase::New | UserPhase::Error => Flow::Ask {
                step: UserStep::Database,
                request: ApiRequest::GetDatabase {
                    namespace: self.database_namespace(),
                    name: self.spec.database_ref.name.clone(),
                },
            },
            UserPhase::Ready => Flow::requeue(180),
        }
    }

    /// Goes on with the database resource that was read.
    fn with_database(&self, reply: ApiReply) -> (r: Flow<UserStep>)
        requires
            self.metadata.namespace is Some,
            reply.deep_view().fits(ReplyKind::Database),
        ensures
            r.deep_view() == self.deep_view().next(
                UserStepView::Database,
                reply.deep_view(),
                seq![],
            ),
    {
        match reply {
            ApiReply::Database { database } => {
                let database_ns = self.database_namespace();
                let database_name = database.metadata.name_any();
                Flow::Ask {
                    step: UserStep::Cluster {
                        surreal_ns: text_or_else(
                            &database.spec.db_namespace,
                            database_ns.as_str(),
                        ),
                        surreal_db: text_or_else(&database.spec.db_name, database_name.as_str()),
                    },
                    request: ApiRequest::GetCluster {
                        namespace: self.cluster_namespace(),
                        name: self.spec.cluster_ref.name.clone(),
                    },
                }
            },
            ApiReply::Failed { error } => Flow::kube_failure(error),
            _ => Flow::requeue(20),
        }
    }

    /// Reads the root credentials out of the secret, and defines the user with
    /// them.
    fn get_root_credentials_for_cluster(
        &self,
        surreal_ns: &str,
        surreal_db: &str,
        reply: ApiReply,
        generated: &str,
    ) -> (r: Flow<UserStep>)
        requires
            self.metadata.namespace is Some,
            credentials::credentials_of(reply.deep_view()) is Ok ==> self.metadata.name is Some,
        ensures
            r.deep_view() == self.deep_view().next(
                UserStepView::Secret { surreal_ns: surreal_ns@, surreal_db: surreal_db@ },
                reply.deep_view(),
                generated@,
            ),
    {
        match read_credentials(reply) {
            Ok((root_user, root_password)) => {
                let password = text_or_else(&self.spec.password, generated);
                self.provision_user(
                    surreal_ns,
                    surreal_db,
                    password,
                    root_user.as_str(),
                    root_password.as_str(),
                )
            },
            Err(e) => Flow::Done { outcome: Err(e) },
        }
    }

    /// Goes on with a pass over the user, with the answer that a step waited
    /// for, and with a generated password should the step need one.
    pub fn resume_with_password(
        &self,
        step: UserStep,
        reply: ApiReply,
        generated: &str,
    ) -> (r: Flow<UserStep>)
        requires
            self.metadata.namespace is Some,
            reply.deep_view().fits(step.deep_view().awaited()),
            self.deep_view().needs_name(step.deep_view(), reply.deep_view())
                ==> self.metadata.name is Some,
        ensures
            r.deep_view() == self.deep_view().next(
                step.deep_view(),
                reply.deep_view(),
                generated@,
            ),
    {
        match step {
            UserStep::Database => self.with_database(reply),
            UserStep::Cluster { surreal_ns, surreal_db } => {
                let cluster_ns = self.cluster_namespace();
                match ask_for_secret(cluster_ns.as_str(), reply) {
                    Ok(request) => Flow::Ask {
                        step: UserStep::Secret { surreal_ns, surreal_db },
                        request,
                    },
                    Err(e) => Flow::Done { outcome: Err(e) },
                }
            },
            UserStep::Secret { surreal_ns, surreal_db } => self.get_root_credentials_for_cluster(
                surreal_ns.as_str(),
                surreal_db.as_str(),
                reply,
                generated,
            ),
            UserStep::Provision { password } => match reply {
                ApiReply::Failed { error } => self.fail(
                    "provision failed: ",
                    Error::KubeError(error),
                ),
                _ => Flow::Ask {
                    step: UserStep::CreateSecret,
                    request: self.ensure_secret(password.as_str()),
                },
            },
            UserStep::CreateSecret => match reply {
                ApiReply::Failed { error } if !error.already_exists() => self.fail(
                    "secret failed: ",
                    Error::KubeError(error),
                ),
                _ => Flow::Ask {
                    step: UserStep::CreateConfigMap,
                    request: self.ensure_configmap(),
                },
            },
            UserStep::CreateConfigMap => match reply {
                ApiReply::Failed { error } if !error.already_exists() => self.fail(
                    "configmap failed: ",
                    Error::KubeError(error),
                ),
                _ => Flow::Ask {
                    step: UserStep::Settled,
                    request: self.set_phase_msg(UserPhase::Ready, None),
                },
            },
            UserStep::Failed => Flow::requeue(20),
            UserStep::Settled => Flow::requeue(120),
        }
    }

    /// Goes on with a pass over the user, with the answer that a step waited
    /// for. A password that has to be made up is random.
    pub fn resume(&self, step: UserStep, reply: ApiReply) -> (r: Flow<UserStep>)
        requires
            self.metadata.namespace is Some,
            reply.deep_view().fits(step.deep_view().awaited()),
            self.deep_view().needs_name(step.deep_view(), reply.deep_view())
                ==> self.metadata.name is Some,
        ensures
            exists|generated: Seq<char>|
                {
                    &&& r.deep_view() == #[trigger] self.deep_view().next(
                        step.deep_view(),
                        reply.deep_view(),
                        generated,
                    )
                    &&& self.deep_view().makes_password(step.deep_view(), reply.deep_view())
                        ==> password::secure_password(
                        generated,
                        password::USER_LETTERS + password::SYMBOL_COUNT,
                    )
                },
    {
        let makes_password = match &step {
            UserStep::Secret { .. } => self.spec.password.is_none(),
            _ => false,
        };
        let generated = if makes_password {
            random_password(password::USER_LETTERS)
        } else {
            String::new()
        };
        self.resume_with_password(step, reply, generated.as_str())
    }

    /// Cleans up after a user, who stays in the database.
    pub fn cleanup(&self) -> (r: Action)
        ensures
            r == Action::AwaitChange,
    {
        Action::AwaitChange
    }
}

/// When to look again at a user whose pass failed.
pub fn error_policy(_error: &Error) -> (r: Action)
    ensures
        r == (Action::Requeue { seconds: 60 }),
{
    Action::Requeue { seconds: 60 }
}

/// The view of a `UserStep` shows all that it holds.
pub proof fn law_view_shows_user_step(x: &UserStep)
    ensures
        match x {
            UserStep::Database => x.deep_view() == (UserStepView::Database),
            UserStep::Cluster { surreal_ns, surreal_db } => x.deep_view() == (
            UserStepView::Cluster {
                surreal_ns: surreal_ns@,
                surreal_db: surreal_db@,
            }),
            UserStep::Secret { surreal_ns, surreal_db } => x.deep_view() == (UserStepView::Secret {
                surreal_ns: surreal_ns@,
                surreal_db: surreal_db@,
            }),
            UserStep::Provision { password } => x.deep_view() == (
            UserStepView::Provision { password: password@ }),
            UserStep::CreateSecret => x.deep_view() == (UserStepView::CreateSecret),
            UserStep::CreateConfigMap => x.deep_view() == (UserStepView::CreateConfigMap),
            UserStep::Failed => x.deep_view() == (UserStepView::Failed),
            UserStep::Settled => x.deep_view() == (UserStepView::Settled),
        },
{
}

} // verus!
