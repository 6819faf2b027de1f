//! The way from a cluster to the credentials of its root user: the cluster
//! names a secret, and the secret has the credentials.
use crate::api::{ApiReply, ApiReplyView, ApiRequest, ApiRequestView};
use crate::error::{Error, ErrorView};
use crate::sql::{self, root_credentials};
use vstd::prelude::*;

verus! {

/// The call for the secret of a cluster that was asked for, or why there is
/// none to call for.
pub open spec fn secret_request(
    cluster_ns: Seq<char>,
    reply: ApiReplyView,
) -> Result<ApiRequestView, ErrorView> {
    match reply {
        ApiReplyView::Failed { error } => Err(ErrorView::KubeError(error)),
        ApiReplyView::Cluster { cluster } => match cluster.credentials_secret() {
            Some(name) => Ok(ApiRequestView::GetSecret { namespace: cluster_ns, name }),
            None => Err(ErrorView::MissingRootCredentials),
        },
        _ => Err(ErrorView::MissingRootCredentials),
    }
}

/// Name and password out of a secret that was asked for, or why they are not
/// to be had.
pub open spec fn credentials_of(reply: ApiReplyView) -> Result<(Seq<char>, Seq<char>), ErrorView> {
    match reply {
        ApiReplyView::Failed { error } => Err(ErrorView::KubeError(error)),
        ApiReplyView::Secret { data } => match sql::credentials_in(data) {
            Some(credentials) => Ok(credentials),
            None => Err(ErrorView::MissingRootCredentials),
        },
        _ => Err(ErrorView::MissingRootCredentials),
    }
}

/// Asks for the secret of a cluster.
pub fn ask_for_secret(cluster_ns: &str, reply: ApiReply) -> (r: Result<ApiRequest, Error>)
    ensures
        match r {
            Ok(request) => secret_request(cluster_ns@, reply.deep_view()) == Ok::<_, ErrorView>(
                request.deep_view(),
            ),
            Err(e) => secret_request(cluster_ns@, reply.deep_view()) == Err::<ApiRequestView, _>(
                e.deep_view(),
            ),
        },
{
    match reply {
        ApiReply::Failed { error } => Err(Error::KubeError(error)),
        ApiReply::Cluster { cluster } => match cluster.credentials_secret() {
            Some(name) => Ok(ApiRequest::GetSecret { namespace: cluster_ns.to_string(), name }),
            None => Err(Error::MissingRootCredentials),
        },
        _ => Err(Error::MissingRootCredentials),
    }
}

/// Reads name and password out of a secret.
pub fn read_credentials(reply: ApiReply) -> (r: Result<(String, String), Error>)
    ensures
        match r {
            Ok((user, password)) => credentials_of(reply.deep_view()) == Ok::<_, ErrorView>(
                (user@, password@),
            ),
            Err(e) => credentials_of(reply.deep_view()) == Err::<(Seq<char>, Seq<char>), _>(
                e.deep_view(),
            ),
        },
{
    match reply {
        ApiReply::Failed { error } => Err(Error::KubeError(error)),
        ApiReply::Secret { data } => match root_credentials(&data) {
            Some((user, password)) => Ok((user, password)),
            None => Err(Error::MissingRootCredentials),
        },
        _ => Err(Error::MissingRootCredentials),
    }
}

} // verus!
