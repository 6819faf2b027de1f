//! Words for what the passes come to, in terms of what stands in the resources
//! and in the answers alone.
use crate::api::{Action, ApiReplyView, ApiRequestView, FlowView};
use crate::error::{ErrorView, KubeErrorView};
use crate::objects::{HeaderView, HttpRequestView, ObjectMetaView, OwnerReferenceView};
use crate::outside;
use crate::sql;
use vstd::prelude::*;

verus! {

/// What an object is called: by its name, by the prefix of a name that is still
/// to be generated, or not at all.
pub open spec fn called(meta: ObjectMetaView) -> Seq<char> {
    match (meta.name, meta.generate_name) {
        (Some(name), _) => name,
        (None, Some(prefix)) => prefix,
        (None, None) => seq![],
    }
}

/// A text, or another one where there is none.
pub open spec fn given_or(text: Option<Seq<char>>, other: Seq<char>) -> Seq<char> {
    if text is Some {
        text->0
    } else {
        other
    }
}

/// An object is referred to as the controller of another one.
pub open spec fn refers_to(
    owner: OwnerReferenceView,
    meta: ObjectMetaView,
    kind: Seq<char>,
) -> bool {
    &&& owner.api_version == "surrealdb.aexol.com/v1alpha1"@
    &&& owner.kind == kind
    &&& Some(owner.name) == meta.name
    &&& Some(owner.uid) == meta.uid
    &&& owner.controller == Some(true)
}

/// Metadata holds a name and nothing else.
pub open spec fn is_bare(meta: ObjectMetaView, name: Seq<char>) -> bool {
    &&& meta.name == Some(name)
    &&& meta.generate_name is None
    &&& meta.namespace is None
    &&& meta.uid is None
    &&& meta.labels is None
    &&& meta.owner_references is None
    &&& meta.finalizers is None
    &&& meta.deletion_timestamp is None
}

/// Objects are called as they are named, and refer to others only with a name
/// and a uid of their own.
pub proof fn law_objects_go_by_their_names(meta: ObjectMetaView, kind: Seq<char>)
    ensures
        meta.name_any() == called(meta),
        meta.controller_owner_ref(kind) is Some <==> meta.name is Some && meta.uid is Some,
        meta.controller_owner_ref(kind) matches Some(owner) ==> refers_to(owner, meta, kind),
{
}

/// A finalizer goes to the end of the others, and nothing else changes.
pub proof fn law_finalizers_are_added_at_the_end(meta: ObjectMetaView, finalizer: Seq<char>)
    ensures
        ({
            let after = meta.with_finalizer(finalizer);
            &&& after.finalizers is Some
            &&& after.finalizers->0.last() == finalizer
            &&& after.finalizers->0.drop_last() == (if meta.finalizers is Some {
                meta.finalizers->0
            } else {
                seq![]
            })
            &&& after.name == meta.name
            &&& after.generate_name == meta.generate_name
            &&& after.namespace == meta.namespace
            &&& after.uid == meta.uid
            &&& after.labels == meta.labels
            &&& after.owner_references == meta.owner_references
            &&& after.deletion_timestamp == meta.deletion_timestamp
        }),
{
    let after = meta.with_finalizer(finalizer).finalizers->0;
    if meta.finalizers is Some {
        assert(after.drop_last() =~= meta.finalizers->0);
    } else {
        assert(after.drop_last() =~= seq![]);
    }
}

/// A call was refused with a code.
pub open spec fn refused(reply: ApiReplyView, code: u16) -> bool {
    reply matches ApiReplyView::Failed { error } && error.code == Some(code)
}

/// A pass ends, to be repeated after some seconds.
pub open spec fn waits<S>(flow: FlowView<S>, seconds: u64) -> bool {
    flow matches FlowView::Done { outcome: Ok(Action::Requeue { seconds: s }) } && s == seconds
}

/// A pass ends with the failure of a call.
pub open spec fn fails<S>(flow: FlowView<S>, reply: ApiReplyView) -> bool {
    &&& flow matches FlowView::Done { outcome: Err(ErrorView::KubeError(e)) }
    &&& reply matches ApiReplyView::Failed { error }
    &&& e == error
}

/// A pass ends for want of root credentials.
pub open spec fn lacks_credentials<S>(flow: FlowView<S>) -> bool {
    flow matches FlowView::Done { outcome: Err(ErrorView::MissingRootCredentials) }
}

/// Bytes as text: nothing where they are none.
pub open spec fn readable(bytes: Seq<u8>) -> Seq<char> {
    if vstd::utf8::valid_utf8(bytes) {
        vstd::utf8::decode_utf8(bytes)
    } else {
        seq![]
    }
}

/// An answer holds a name and a password.
pub open spec fn has_credentials(reply: ApiReplyView) -> bool {
    reply matches ApiReplyView::Secret { data: Some(data) } && data.contains_key("user"@)
        && data.contains_key("password"@)
}

/// The path below the API server at which the servers of a cluster take
/// statements.
pub open spec fn statement_path(ns: Seq<char>, name: Seq<char>) -> Seq<char> {
    "/api/v1/namespaces/"@ + ns + "/services/"@ + name + "-surrealdb:8000/proxy/sql"@
}

/// There is a header among others.
pub open spec fn has_header(headers: Seq<HeaderView>, name: Seq<char>, value: Seq<char>) -> bool {
    exists|i: int|
        0 <= i < headers.len() && (#[trigger] headers[i]).name == name && headers[i].value == value
}

/// A request posts a statement to the servers of a cluster, under a name and a
/// password where there are any.
pub open spec fn posts_statement(
    request: HttpRequestView,
    ns: Seq<char>,
    name: Seq<char>,
    auth: Option<(Seq<char>, Seq<char>)>,
    statement: Seq<char>,
) -> bool {
    &&& request.method == "POST"@
    &&& outside::built_uri(statement_path(ns, name)) == Ok::<_, (Seq<char>, Seq<char>)>(
        request.uri,
    )
    &&& request.body == vstd::utf8::encode_utf8(statement)
    &&& request.headers.len() == (if auth is Some {
        3nat
    } else {
        2nat
    })
    &&& has_header(request.headers, "accept"@, "application/json"@)
    &&& has_header(request.headers, "content-type"@, "text/plain"@)
    &&& auth matches Some((user, password)) ==> has_header(
        request.headers,
        "authorization"@,
        "Basic "@ + outside::base64_standard(vstd::utf8::encode_utf8(user + ":"@ + password)),
    )
}

/// Why a statement cannot be posted to a cluster.
pub open spec fn unpostable(ns: Seq<char>, name: Seq<char>, e: ErrorView) -> bool {
    &&& e matches ErrorView::HTTPError(texts)
    &&& outside::built_uri(statement_path(ns, name)) == Err::<Seq<char>, _>(
        (texts.display, texts.debug),
    )
}

/// A statement goes to the servers of its cluster as it is, and under the name
/// and password that were given. Only a path that is none stands in its way.
pub proof fn law_statements_are_posted(
    ns: Seq<char>,
    name: Seq<char>,
    auth: Option<(Seq<char>, Seq<char>)>,
    statement: Seq<char>,
)
    ensures
        match sql::sql_request_outcome(ns, name, auth, statement) {
            Ok(request) => posts_statement(request, ns, name, auth, statement),
            Err(e) => unpostable(ns, name, e),
        },
{
    if sql::sql_request_outcome(ns, name, auth, statement) is Ok {
        let headers = sql::sql_request_outcome(ns, name, auth, statement)->Ok_0.headers;
        assert(headers[0].name == "accept"@ && headers[0].value == "application/json"@);
        assert(headers[1].name == "content-type"@ && headers[1].value == "text/plain"@);
        if auth is Some {
            assert(headers[2].name == "authorization"@);
        }
    }
}

/// What the statements say.
pub proof fn law_what_statements_say(
    ns: Seq<char>,
    db: Seq<char>,
    user: Seq<char>,
    password: Seq<char>,
)
    ensures
        crate::text::quoted_ident(ns) == in_backticks(ns),
        sql::root_user_statement(user, password) == "DEFINE USER "@ + user
            + " ON ROOT PASSWORD '"@ + password + "' ROLES OWNER;"@,
        sql::namespace_statement(ns) == "DEFINE NAMESPACE "@ + in_backticks(ns) + ";"@,
        sql::database_statement(ns, db) == "USE NS "@ + in_backticks(ns) + "; DEFINE DATABASE "@
            + in_backticks(db) + ";"@,
        sql::user_statement(ns, db, user, password) == "USE NS "@ + in_backticks(ns)
            + "; USE DB "@ + in_backticks(db) + "; DEFINE USER "@ + in_backticks(user)
            + " ON DATABASE PASSWORD '"@ + crate::text::doubled(password, '\'')
            + "' ROLES EDITOR;"@,
{
    reveal_strlit("`");
    assert("`"@ =~= seq!['`']);
}

/// A name between backticks, with its own backticks written twice.
pub open spec fn in_backticks(name: Seq<char>) -> Seq<char> {
    seq!['`'] + crate::text::doubled(name, '`') + seq!['`']
}

/// Which replies answer which calls.
pub proof fn law_replies_answer_calls(request: ApiRequestView, reply: ApiReplyView)
    ensures
        reply is Failed ==> reply.fits(request.reply_kind()),
        !(reply is Failed) ==> (reply.fits(request.reply_kind()) <==> match request {
            ApiRequestView::GetDeployment { .. } => reply is Deployment,
            ApiRequestView::GetSecret { .. } => reply is Secret,
            ApiRequestView::GetCluster { .. } => reply is Cluster,
            ApiRequestView::GetDatabase { .. } => reply is Database,
            ApiRequestView::GetTidbCluster { .. } => reply is TidbCluster
                || reply is NoTidbCluster,
            ApiRequestView::GetOwners { .. } => reply is Owners,
            _ => reply is Accepted,
        }),
{
}

/// Refusals are told apart by their codes.
pub proof fn law_refusals_go_by_code(error: KubeErrorView)
    ensures
        error.already_exists() <==> error.code == Some(409u16),
        error.not_found() <==> error.code == Some(404u16),
{
}

/// What errors display: what went wrong, and what the cause displays.
pub proof fn law_errors_display_their_cause(e: ErrorView)
    ensures
        match e {
            ErrorView::SerializationError(s) => e.message() == "SerializationError: "@ + s.display
                && e.debug() == "SerializationError("@ + s.debug + ")"@,
            ErrorView::KubeError(k) => e.message() == "Kube Error: "@ + k.source.display
                && e.debug() == "KubeError("@ + k.source.debug + ")"@,
            ErrorView::StdError(s) => e.message() == "Unknown error: "@ + s.display && e.debug()
                == "StdError("@ + s.debug + ")"@,
            ErrorView::HTTPError(s) => e.message() == "HTTP Error: "@ + s.display && e.debug()
                == "HTTPError("@ + s.debug + ")"@,
            ErrorView::RetryableKubeError(k) => e.message() == "Retryable Kube Error: "@
                + k.source.display && e.debug() == "RetryableKubeError("@ + k.source.debug + ")"@,
            ErrorView::FinalizerError(s) => e.message() == "Finalizer Error: "@ + s.display
                && e.debug() == "FinalizerError("@ + s.debug + ")"@,
            ErrorView::MissingRootCredentials => e.message() == "MissingRootCredentials"@
                && e.debug() == "MissingRootCredentials"@,
            ErrorView::ReqwestError(s) => e.message() == "Reqwest Error: "@ + s.display
                && e.debug() == "ReqwestError("@ + s.debug + ")"@,
            ErrorView::URLParseError(s) => e.message() == "URL Parse Error: "@ + s.display
                && e.debug() == "URLParseError("@ + s.debug + ")"@,
            ErrorView::ServiceRequestError(t) => e.message() == "Service Request Error: "@ + t
                && e.debug() == "ServiceRequestError("@ + outside::text_debug(t) + ")"@,
        },
{
}

} // verus!
