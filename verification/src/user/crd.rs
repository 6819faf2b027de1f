//! The `User` resource.
use crate::objects::{ObjectMeta, ObjectMetaView};
use crate::text::copy_text;
use vstd::prelude::*;

verus! {

/// The phase of a user.
#[derive(Clone, Copy, Debug, PartialEq, Eq, Structural)]
pub enum UserPhase {
    New,
    Ready,
    Error,
}

impl Default for UserPhase {
    fn default() -> (r: UserPhase)
        ensures
            r == UserPhase::New,
    {
        UserPhase::New
    }
}

/// A reference to a cluster, by default in the namespace of the user.
#[derive(Debug)]
pub struct ClusterRef {
    pub name: String,
    pub namespace: Option<String>,
}

/// What a `ClusterRef` holds.
#[verifier::ext_equal]
pub struct ClusterRefView {
    pub name: Seq<char>,
    pub namespace: Option<Seq<char>>,
}

impl DeepView for ClusterRef {
    type V = ClusterRefView;

    open spec fn deep_view(&self) -> ClusterRefView {
        ClusterRefView {
            name: self.name@,
            namespace: self.namespace.deep_view(),
        }
    }
}

/// A reference to a database, by default in the namespace of the user.
#[derive(Debug)]
pub struct DatabaseRef {
    pub name: String,
    pub namespace: Option<String>,
}

/// What a `DatabaseRef` holds.
#[verifier::ext_equal]
pub struct DatabaseRefView {
    pub name: Seq<char>,
    pub namespace: Option<Seq<char>>,
}

impl DeepView for DatabaseRef {
    type V = DatabaseRefView;

    open spec fn deep_view(&self) -> DatabaseRefView {
        DatabaseRefView {
            name: self.name@,
            namespace: self.namespace.deep_view(),
        }
    }
}

/// The desired state of a user: the cluster and the database that it belongs
/// to, and, where they are not to be made up, its name there, its password and
/// the name of the secret that keeps the password.
#[derive(Debug)]
pub struct UserSpec {
    pub cluster_ref: ClusterRef,
    pub database_ref: DatabaseRef,
    pub username: Option<String>,
    pub password: Option<String>,
    pub secret_name: Option<String>,
}

/// What an `UserSpec` holds.
#[verifier::ext_equal]
pub struct UserSpecView {
    pub cluster_ref: ClusterRefView,
    pub database_ref: DatabaseRefView,
    pub username: Option<Seq<char>>,
    pub password: Option<Seq<char>>,
    pub secret_name: Option<Seq<char>>,
}

impl DeepView for UserSpec {
    type V = UserSpecView;

    open spec fn deep_view(&self) -> UserSpecView {
        UserSpecView {
            cluster_ref: self.cluster_ref.deep_view(),
            database_ref: self.database_ref.deep_view(),
            username: self.username.deep_view(),
            password: self.password.deep_view(),
            secret_name: self.secret_name.deep_view(),
        }
    }
}

/// The observed state of a user.
#[derive(Debug)]
pub struct UserStatus {
    pub phase: Option<UserPhase>,
    pub message: Option<String>,
}

/// What an `UserStatus` holds.
#[verifier::ext_equal]
pub struct UserStatusView {
    pub phase: Option<UserPhase>,
    pub message: Option<Seq<char>>,
}

impl DeepView for UserStatus {
    type V = UserStatusView;

    open spec fn deep_view(&self) -> UserStatusView {
        UserStatusView {
            phase: self.phase,
            message: self.message.deep_view(),
        }
    }
}

/// A user of a database on a SurrealDB cluster.
#[derive(Debug)]
pub struct User {
    pub metadata: ObjectMeta,
    pub spec: UserSpec,
    pub status: Option<UserStatus>,
}

/// What an `User` holds.
#[verifier::ext_equal]
pub struct UserView {
    pub metadata: ObjectMetaView,
    pub spec: UserSpecView,
    pub status: Option<UserStatusView>,
}

impl DeepView for User {
    type V = UserView;

    open spec fn deep_view(&self) -> UserView {
        UserView {
            metadata: self.metadata.deep_view(),
            spec: self.spec.deep_view(),
            status: self.status.deep_view(),
        }
    }
}

impl Clone for ClusterRef {
    fn clone(&self) -> (r: ClusterRef)
        ensures
            r.deep_view() == self.deep_view(),
    {
        ClusterRef {
            name: self.name.clone(),
            namespace: copy_text(&self.namespace),
        }
    }
}

impl Clone for DatabaseRef {
    fn clone(&self) -> (r: DatabaseRef)
        ensures
            r.deep_view() == self.deep_view(),
    {
        DatabaseRef {
            name: self.name.clone(),
            namespace: copy_text(&self.namespace),
        }
    }
}

impl Clone for UserSpec {
    fn clone(&self) -> (r: UserSpec)
        ensures
            r.deep_view() == self.deep_view(),
    {
        UserSpec {
            cluster_ref: self.cluster_ref.clone(),
            database_ref: self.database_ref.clone(),
            username: copy_text(&self.username),
            password: copy_text(&self.password),
            secret_name: copy_text(&self.secret_name),
        }
    }
}

impl Clone for UserStatus {
    fn clone(&self) -> (r: UserStatus)
        ensures
            r.deep_view() == self.deep_view(),
    {
        UserStatus {
            phase: self.phase,
            message: copy_text(&self.message),
        }
    }
}

impl Clone for User {
    fn clone(&self) -> (r: User)
        ensures
            r.deep_view() == self.deep_view(),
    {
        User {
            metadata: self.metadata.clone(),
            spec: self.spec.clone(),
            status: match &self.status {
                Some(value) => Some(value.clone()),
                None => None,
            },
        }
    }
}

impl UserView {
    /// A user with a name and nothing more in its metadata.
    pub open spec fn new(name: Seq<char>, spec: UserSpecView) -> UserView {
        UserView {
            metadata: ObjectMetaView { name: Some(name), ..ObjectMetaView::empty() },
            spec,
            status: None,
        }
    }
}

impl User {
    /// A user with a name and nothing more in its metadata.
    pub fn new(name: &str, spec: UserSpec) -> (r: User)
        ensures
            r.deep_view() == UserView::new(name@, spec.deep_view()),
    {
        User {
            metadata: ObjectMeta { name: Some(name.to_string()), ..ObjectMeta::empty() },
            spec,
            status: None,
        }
    }
}

/// The view of a `ClusterRef` shows all that it holds.
pub proof fn law_view_shows_cluster_ref(x: ClusterRef)
    ensures
        x.deep_view().name == x.name@,
        x.deep_view().namespace == x.namespace.deep_view(),
{
}

/// The view of a `DatabaseRef` shows all that it holds.
pub proof fn law_view_shows_database_ref(x: DatabaseRef)
    ensures
        x.deep_view().name == x.name@,
        x.deep_view().namespace == x.namespace.deep_view(),
{
}

/// The view of a `UserSpec` shows all that it holds.
pub proof fn law_view_shows_user_spec(x: UserSpec)
    ensures
        x.deep_view().cluster_ref == x.cluster_ref.deep_view(),
        x.deep_view().database_ref == x.database_ref.deep_view(),
        x.deep_view().username == x.username.deep_view(),
        x.deep_view().password == x.password.deep_view(),
        x.deep_view().secret_name == x.secret_name.deep_view(),
{
}

/// The view of a `UserStatus` shows all that it holds.
pub proof fn law_view_shows_user_status(x: UserStatus)
    ensures
        x.deep_view().phase == x.phase,
        x.deep_view().message == x.message.deep_view(),
{
}

/// The view of a `User` shows all that it holds.
pub proof fn law_view_shows_user(x: User)
    ensures
        x.deep_view().metadata == x.metadata.deep_view(),
        x.deep_view().spec == x.spec.deep_view(),
        x.deep_view().status == x.status.deep_view(),
{
}

} // verus!
