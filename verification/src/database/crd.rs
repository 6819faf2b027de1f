//! The `Database` resource.
use crate::objects::{ObjectMeta, ObjectMetaView};
use crate::text::copy_text;
use vstd::prelude::*;

verus! {

/// The phase of a database.
#[derive(Clone, Copy, Debug, PartialEq, Eq, Structural)]
pub enum DbPhase {
    New,
    InProgress,
    Ready,
    Error,
}

impl Default for DbPhase {
    fn default() -> (r: DbPhase)
        ensures
            r == DbPhase::New,
    {
        DbPhase::New
    }
}

/// A reference to a cluster, by default in the namespace of the database.
#[derive(Debug)]
pub struct ClusterRef {
    pub name: String,
    pub namespace: Option<String>,
}

/// What a `ClusterRef` holds.
#[verifier::ext_equal]
pub struct ClusterRefView {
    pub name: Seq<char>,
    pub namespace: Option<Seq<char>>,
}

impl DeepView for ClusterRef {
    type V = ClusterRefView;

    open spec fn deep_view(&self) -> ClusterRefView {
        ClusterRefView {
            name: self.name@,
            namespace: self.namespace.deep_view(),
        }
    }
}

/// The desired state of a database: the cluster that it lives on, and its
/// namespace and name there.
#[derive(Debug)]
pub struct DbSpec {
    pub cluster_ref: ClusterRef,
    pub db_namespace: Option<String>,
    pub db_name: Option<String>,
}

/// What a `DbSpec` holds.
#[verifier::ext_equal]
pub struct DbSpecView {
    pub cluster_ref: ClusterRefView,
    pub db_namespace: Option<Seq<char>>,
    pub db_name: Option<Seq<char>>,
}

impl DeepView for DbSpec {
    type V = DbSpecView;

    open spec fn deep_view(&self) -> DbSpecView {
        DbSpecView {
            cluster_ref: self.cluster_ref.deep_view(),
            db_namespace: self.db_namespace.deep_view(),
            db_name: self.db_name.deep_view(),
        }
    }
}

/// The observed state of a database.
#[derive(Debug)]
pub struct DbStatus {
    pub phase: Option<DbPhase>,
    pub message: Option<String>,
}

/// What a `DbStatus` holds.
#[verifier::ext_equal]
pub struct DbStatusView {
    pub phase: Option<DbPhase>,
    pub message: Option<Seq<char>>,
}

impl DeepView for DbStatus {
    type V = DbStatusView;

    open spec fn deep_view(&self) -> DbStatusView {
        DbStatusView {
            phase: self.phase,
            message: self.message.deep_view(),
        }
    }
}

/// A database on a SurrealDB cluster.
#[derive(Debug)]
pub struct Database {
    pub metadata: ObjectMeta,
    pub spec: DbSpec,
    pub status: Option<DbStatus>,
}

/// What a `Database` holds.
#[verifier::ext_equal]
pub struct DatabaseView {
    pub metadata: ObjectMetaView,
    pub spec: DbSpecView,
    pub status: Option<DbStatusView>,
}

impl DeepView for Database {
    type V = DatabaseView;

    open spec fn deep_view(&self) -> DatabaseView {
        DatabaseView {
            metadata: self.metadata.deep_view(),
            spec: self.spec.deep_view(),
            status: self.status.deep_view(),
        }
    }
}

impl Clone for ClusterRef {
    fn clone(&self) -> (r: ClusterRef)
        ensures
            r.deep_view() == self.deep_view(),
    {
        ClusterRef {
            name: self.name.clone(),
            namespace: copy_text(&self.namespace),
        }
    }
}

impl Clone for DbSpec {
    fn clone(&self) -> (r: DbSpec)
        ensures
            r.deep_view() == self.deep_view(),
    {
        DbSpec {
            cluster_ref: self.cluster_ref.clone(),
            db_namespace: copy_text(&self.db_namespace),
            db_name: copy_text(&self.db_name),
        }
    }
}

impl Clone for DbStatus {
    fn clone(&self) -> (r: DbStatus)
        ensures
            r.deep_view() == self.deep_view(),
    {
        DbStatus {
            phase: self.phase,
            message: copy_text(&self.message),
        }
    }
}

impl Clone for Database {
    fn clone(&self) -> (r: Database)
        ensures
            r.deep_view() == self.deep_view(),
    {
        Database {
            metadata: self.metadata.clone(),
            spec: self.spec.clone(),
            status: match &self.status {
                Some(value) => Some(value.clone()),
                None => None,
            },
        }
    }
}

impl DatabaseView {
    /// A database with a name and nothing more in its metadata.
    pub open spec fn new(name: Seq<char>, spec: DbSpecView) -> DatabaseView {
        DatabaseView {
            metadata: ObjectMetaView { name: Some(name), ..ObjectMetaView::empty() },
            spec,
            status: None,
        }
    }
}

impl Database {
    /// A database with a name and nothing more in its metadata.
    pub fn new(name: &str, spec: DbSpec) -> (r: Database)
        ensures
            r.deep_view() == DatabaseView::new(name@, spec.deep_view()),
    {
        Database {
            metadata: ObjectMeta { name: Some(name.to_string()), ..ObjectMeta::empty() },
            spec,
            status: None,
        }
    }
}

/// The view of a `ClusterRef` shows all that it holds.
pub proof fn law_view_shows_cluster_ref(x: ClusterRef)
    ensures
        x.deep_view().name == x.name@,
        x.deep_view().namespace == x.namespace.deep_view(),
{
}

/// The view of a `DbSpec` shows all that it holds.
pub proof fn law_view_shows_db_spec(x: DbSpec)
    ensures
        x.deep_view().cluster_ref == x.cluster_ref.deep_view(),
        x.deep_view().db_namespace == x.db_namespace.deep_view(),
        x.deep_view().db_name == x.db_name.deep_view(),
{
}

/// The view of a `DbStatus` shows all that it holds.
pub proof fn law_view_shows_db_status(x: DbStatus)
    ensures
        x.deep_view().phase == x.phase,
        x.deep_view().message == x.message.deep_view(),
{
}

/// The view of a `Database` shows all that it holds.
pub proof fn law_view_shows_database(x: Database)
    ensures
        x.deep_view().metadata == x.metadata.deep_view(),
        x.deep_view().spec == x.spec.deep_view(),
        x.deep_view().status == x.status.deep_view(),
{
}

} // verus!
