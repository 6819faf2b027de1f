//! The logic of a Kubernetes operator for SurrealDB: what becomes of clusters,
//! databases and users, call by call.
pub mod api;
pub mod cluster;
pub mod credentials;
pub mod database;
pub mod error;
pub mod mock;
pub mod objects;
pub mod operations;
pub mod outside;
pub mod password;
pub mod promise;
pub mod schema;
pub mod service;
pub mod sql;
pub mod text;
pub mod tidb;
pub mod user;

pub use crate::cluster::crd::{Cluster, Phase, Spec, Status, TidbClusterRef};
pub use crate::cluster::resources::{BOOTSTRAP_HTTP_SERVER_URL_ANNOTATION, CLUSTER_FINALIZER};
pub use crate::database::crd::{ClusterRef, Database, DbPhase, DbSpec, DbStatus};
pub use crate::error::Error;
pub use crate::password::generate_secure_password;
