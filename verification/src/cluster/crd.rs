//! The `Cluster` resource.
use crate::objects::{
    ObjectMeta, ObjectMetaView, SecretKeySelector, SecretKeySelectorView, SecretReference,
    SecretReferenceView, TidbClusterSpec, TidbClusterSpecView,
};
use crate::text::copy_text;
use vstd::prelude::*;

verus! {

/// The phase of a cluster.
#[derive(Clone, Copy, Debug, PartialEq, Eq, Structural)]
pub enum Phase {
    New,
    Preparing,
    InCreation,
    NotReady,
    InProgress,
    Ready,
    Error,
}

impl Default for Phase {
    fn default() -> (r: Phase)
        ensures
            r == Phase::New,
    {
        Phase::New
    }
}

/// The desired state of a cluster.
#[derive(Debug)]
pub struct Spec {
    pub replicas: Option<u8>,
    pub surrealdb_image: Option<String>,
    pub root_secret: Option<SecretReference>,
    pub tikv_secret_ref: Option<SecretKeySelector>,
    pub tidb_cluster: Option<TidbClusterSpec>,
}

/// What a `Spec` holds.
#[verifier::ext_equal]
pub struct SpecView {
    pub replicas: Option<u8>,
    pub surrealdb_image: Option<Seq<char>>,
    pub root_secret: Option<SecretReferenceView>,
    pub tikv_secret_ref: Option<SecretKeySelectorView>,
    pub tidb_cluster: Option<TidbClusterSpecView>,
}

impl DeepView for Spec {
    type V = SpecView;

    open spec fn deep_view(&self) -> SpecView {
        SpecView {
            replicas: self.replicas,
            surrealdb_image: self.surrealdb_image.deep_view(),
            root_secret: self.root_secret.deep_view(),
            tikv_secret_ref: self.tikv_secret_ref.deep_view(),
            tidb_cluster: self.tidb_cluster.deep_view(),
        }
    }
}

/// A reference to a TiDB cluster.
#[derive(Debug)]
pub struct TidbClusterRef {
    pub name: String,
    pub namespace: Option<String>,
}

/// What a `TidbClusterRef` holds.
#[verifier::ext_equal]
pub struct TidbClusterRefView {
    pub name: Seq<char>,
    pub namespace: Option<Seq<char>>,
}

impl DeepView for TidbClusterRef {
    type V = TidbClusterRefView;

    open spec fn deep_view(&self) -> TidbClusterRefView {
        TidbClusterRefView {
            name: self.name@,
            namespace: self.namespace.deep_view(),
        }
    }
}

/// The observed state of a cluster.
#[derive(Debug)]
pub struct Status {
    pub phase: Option<Phase>,
    pub tidb_cluster_ref: Option<TidbClusterRef>,
}

/// What a `Status` holds.
#[verifier::ext_equal]
pub struct StatusView {
    pub phase: Option<Phase>,
    pub tidb_cluster_ref: Option<TidbClusterRefView>,
}

impl DeepView for Status {
    type V = StatusView;

    open spec fn deep_view(&self) -> StatusView {
        StatusView {
            phase: self.phase,
            tidb_cluster_ref: self.tidb_cluster_ref.deep_view(),
        }
    }
}

/// A SurrealDB cluster.
#[derive(Debug)]
pub struct Cluster {
    pub metadata: ObjectMeta,
    pub spec: Spec,
    pub status: Option<Status>,
}

/// What a `Cluster` holds.
#[verifier::ext_equal]
pub struct ClusterView {
    pub metadata: ObjectMetaView,
    pub spec: SpecView,
    pub status: Option<StatusView>,
}

impl DeepView for Cluster {
    type V = ClusterView;

    open spec fn deep_view(&self) -> ClusterView {
        ClusterView {
            metadata: self.metadata.deep_view(),
            spec: self.spec.deep_view(),
            status: self.status.deep_view(),
        }
    }
}

impl Clone for TidbClusterRef {
    fn clone(&self) -> (r: TidbClusterRef)
        ensures
            r.deep_view() == self.deep_view(),
    {
        TidbClusterRef {
            name: self.name.clone(),
            namespace: copy_text(&self.namespace),
        }
    }
}

impl Clone for Status {
    fn clone(&self) -> (r: Status)
        ensures
            r.deep_view() == self.deep_view(),
    {
        Status {
            phase: self.phase,
            tidb_cluster_ref: match &self.tidb_cluster_ref {
                Some(value) => Some(value.clone()),
                None => None,
            },
        }
    }
}

impl Clone for Spec {
    fn clone(&self) -> (r: Spec)
        ensures
            r.deep_view() == self.deep_view(),
    {
        Spec {
            replicas: self.replicas,
            surrealdb_image: copy_text(&self.surrealdb_image),
            root_secret: match &self.root_secret {
                Some(value) => Some(value.clone()),
                None => None,
            },
            tikv_secret_ref: match &self.tikv_secret_ref {
                Some(value) => Some(value.clone()),
                None => None,
            },
            tidb_cluster: match &self.tidb_cluster {
                Some(value) => Some(value.clone()),
                None => None,
            },
        }
    }
}

impl Clone for Cluster {
    fn clone(&self) -> (r: Cluster)
        ensures
            r.deep_view() == self.deep_view(),
    {
        Cluster {
            metadata: self.metadata.clone(),
            spec: self.spec.clone(),
            status: match &self.status {
                Some(value) => Some(value.clone()),
                None => None,
            },
        }
    }
}

impl SpecView {
    /// A desired state in which nothing is said.
    pub open spec fn empty() -> SpecView {
        SpecView {
            replicas: None,
            surrealdb_image: None,
            root_secret: None,
            tikv_secret_ref: None,
            tidb_cluster: None,
        }
    }
}

impl Default for Spec {
    fn default() -> (r: Spec)
        ensures
            r.deep_view() == SpecView::empty(),
    {
        Spec {
            replicas: None,
            surrealdb_image: None,
            root_secret: None,
            tikv_secret_ref: None,
            tidb_cluster: None,
        }
    }
}

impl Default for Status {
    fn default() -> (r: Status)
        ensures
            r.deep_view() == (StatusView { phase: None, tidb_cluster_ref: None }),
    {
        Status { phase: None, tidb_cluster_ref: None }
    }
}

impl ClusterView {
    /// A cluster with a name and nothing more in its metadata.
    pub open spec fn new(name: Seq<char>, spec: SpecView) -> ClusterView {
        ClusterView {
            metadata: ObjectMetaView { name: Some(name), ..ObjectMetaView::empty() },
            spec,
            status: None,
        }
    }
}

impl Cluster {
    /// A cluster with a name and nothing more in its metadata.
    pub fn new(name: &str, spec: Spec) -> (r: Cluster)
        ensures
            r.deep_view() == ClusterView::new(name@, spec.deep_view()),
    {
        Cluster {
            metadata: ObjectMeta { name: Some(name.to_string()), ..ObjectMeta::empty() },
            spec,
            status: None,
        }
    }
}

/// The view of a `Spec` shows all that it holds.
pub proof fn law_view_shows_spec(x: Spec)
    ensures
        x.deep_view().replicas == x.replicas,
        x.deep_view().surrealdb_image == x.surrealdb_image.deep_view(),
        x.deep_view().root_secret == x.root_secret.deep_view(),
        x.deep_view().tikv_secret_ref == x.tikv_secret_ref.deep_view(),
        x.deep_view().tidb_cluster == x.tidb_cluster.deep_view(),
{
}

/// The view of a `TidbClusterRef` shows all that it holds.
pub proof fn law_view_shows_tidb_cluster_ref(x: TidbClusterRef)
    ensures
        x.deep_view().name == x.name@,
        x.deep_view().namespace == x.namespace.deep_view(),
{
}

/// The view of a `Status` shows all that it holds.
pub proof fn law_view_shows_status(x: Status)
    ensures
        x.deep_view().phase == x.phase,
        x.deep_view().tidb_cluster_ref == x.tidb_cluster_ref.deep_view(),
{
}

/// The view of a `Cluster` shows all that it holds.
pub proof fn law_view_shows_cluster(x: Cluster)
    ensures
        x.deep_view().metadata == x.metadata.deep_view(),
        x.deep_view().spec == x.spec.deep_view(),
        x.deep_view().status == x.status.deep_view(),
{
}

} // verus!
