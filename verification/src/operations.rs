//! What the shared operations return, for whoever calls them.
use crate::api::{Action, ApiReply, ApiRequest, Flow, ReplyKind};
use crate::cluster::cleanup::CleanupStep;
use crate::cluster::crd::Cluster;
use crate::cluster::reconcile::ClusterStep;
use crate::credentials;
use crate::database::crd::Database;
use crate::database::reconcile::DbStep;
use crate::error::{Error, ErrorView, KubeError};
use crate::mock::{self, PatchOperation};
use crate::objects::{self, HttpRequest, ObjectMeta, OwnerReference, TidbClusterStatus};
use crate::outside::{self, UrlParts};
use crate::password;
use crate::promise;
use crate::schema::{self, Component};
use crate::service::{self, Builder, Client, Request};
use crate::sql;
use crate::text::{self, TextMap};
use crate::user::crd::User;
use crate::user::reconcile::UserStep;
use vstd::prelude::*;

verus! {

/// The statement for a root user names it and its password as they are.
pub proof fn law_define_root_user(user: &str, password: &str, r: String)
    requires
        call_ensures(sql::define_root_user, (user, password), r),
    ensures
        r@ == "DEFINE USER "@ + user@ + " ON ROOT PASSWORD '"@ + password@ + "' ROLES OWNER;"@,
{
}

/// The statement for a namespace names it between backticks.
pub proof fn law_define_namespace(ns: &str, r: String)
    requires
        call_ensures(sql::define_namespace, (ns,), r),
    ensures
        r@ == "DEFINE NAMESPACE "@ + promise::in_backticks(ns@) + ";"@,
{
    promise::law_what_statements_say(ns@, seq![], seq![], seq![]);
}

/// The statement for a database names it in its namespace.
pub proof fn law_define_database(ns: &str, db: &str, r: String)
    requires
        call_ensures(sql::define_database, (ns, db), r),
    ensures
        r@ == "USE NS "@ + promise::in_backticks(ns@) + "; DEFINE DATABASE "@
            + promise::in_backticks(db@) + ";"@,
{
    promise::law_what_statements_say(ns@, db@, seq![], seq![]);
}

/// The statement for a user names it in its database, with a password whose
/// quotes are written twice.
pub proof fn law_define_user(ns: &str, db: &str, user: &str, password: &str, r: String)
    requires
        call_ensures(sql::define_user, (ns, db, user, password), r),
    ensures
        r@ == "USE NS "@ + promise::in_backticks(ns@) + "; USE DB "@ + promise::in_backticks(db@)
            + "; DEFINE USER "@ + promise::in_backticks(user@) + " ON DATABASE PASSWORD '"@
            + text::doubled(password@, '\'') + "' ROLES EDITOR;"@,
{
    promise::law_what_statements_say(ns@, db@, user@, password@);
}

/// Statements go to the service of a cluster, at the port 8000.
pub proof fn law_proxy_sql_path(ns: &str, name: &str, r: String)
    requires
        call_ensures(sql::proxy_sql_path, (ns, name), r),
    ensures
        r@ == promise::statement_path(ns@, name@),
{
}

/// Name and password go into a header in the basic scheme.
pub proof fn law_basic_auth_header(user: &str, password: &str, r: String)
    requires
        call_ensures(sql::basic_auth_header, (user, password), r),
    ensures
        r@ == "Basic "@ + outside::base64_standard(
            vstd::utf8::encode_utf8(user@ + ":"@ + password@),
        ),
{
}

/// A statement is posted as it is, or the path is in its way.
pub proof fn law_sql_request(
    ns: &str,
    name: &str,
    auth: Option<(&str, &str)>,
    statement: &str,
    r: Result<HttpRequest, Error>,
)
    requires
        call_ensures(sql::sql_request, (ns, name, auth, statement), r),
    ensures
        match r {
            Ok(request) => promise::posts_statement(
                request.deep_view(),
                ns@,
                name@,
                match auth {
                    None => None,
                    Some((user, password)) => Some((user@, password@)),
                },
                statement@,
            ),
            Err(e) => promise::unpostable(ns@, name@, e.deep_view()),
        },
{
    promise::law_statements_are_posted(
        ns@,
        name@,
        match auth {
            None => None,
            Some((user, password)) => Some((user@, password@)),
        },
        statement@,
    );
}

/// Bytes of a secret are read as text.
pub proof fn law_read_secret_text(bytes: &Vec<u8>, r: String)
    requires
        call_ensures(sql::read_secret_text, (bytes,), r),
    ensures
        r@ == promise::readable(bytes@),
{
}

/// The root credentials of a cluster are looked for in the secret that it names,
/// in a namespace that the caller knows.
pub proof fn law_ask_for_secret(ns: &str, reply: ApiReply, r: Result<ApiRequest, Error>)
    requires
        call_ensures(credentials::ask_for_secret, (ns, reply), r),
    ensures
        match reply {
            ApiReply::Failed { error } => r matches Err(e) && e.deep_view()
                == ErrorView::KubeError(error.deep_view()),
            ApiReply::Cluster { cluster } => match cluster.spec.root_secret {
                Some(reference) if reference.name is Some => r matches Ok(
                    ApiRequest::GetSecret { namespace, name },
                ) && namespace@ == ns@ && name@ == reference.name->0@,
                _ => r matches Err(e) && e is MissingRootCredentials,
            },
            _ => r matches Err(e) && e is MissingRootCredentials,
        },
{
}

/// Name and password are read out of a secret that has both.
pub proof fn law_read_credentials(reply: ApiReply, r: Result<(String, String), Error>)
    requires
        call_ensures(credentials::read_credentials, (reply,), r),
    ensures
        match r {
            Ok((user, password)) => {
                &&& promise::has_credentials(reply.deep_view())
                &&& user@ == promise::readable(reply.deep_view()->Secret_data->0["user"@])
                &&& password@ == promise::readable(reply.deep_view()->Secret_data->0["password"@])
            },
            Err(e) => {
                &&& !promise::has_credentials(reply.deep_view())
                &&& if reply is Failed {
                    e.deep_view() == ErrorView::KubeError(reply.deep_view()->Failed_error)
                } else {
                    e is MissingRootCredentials
                }
            },
        },
{
}

/// Refusals are told apart by their codes.
pub proof fn law_refusals(error: &KubeError, exists_already: bool, is_missing: bool)
    requires
        call_ensures(KubeError::already_exists, (error,), exists_already),
        call_ensures(KubeError::not_found, (error,), is_missing),
    ensures
        exists_already <==> error.code == Some(409u16),
        is_missing <==> error.code == Some(404u16),
{
}

/// Errors display what went wrong and what the cause displays, and are counted
/// by their debug text in lower case.
pub proof fn law_error_texts(e: &Error, message: String, debug: String, label: String)
    requires
        call_ensures(Error::message, (e,), message),
        call_ensures(Error::debug, (e,), debug),
        call_ensures(Error::metric_label, (e,), label),
    ensures
        label@ == outside::lowercase(debug@),
        match e {
            Error::SerializationError(s) => message@ == "SerializationError: "@ + s.display@
                && debug@ == "SerializationError("@ + s.debug@ + ")"@,
            Error::KubeError(k) => message@ == "Kube Error: "@ + k.source.display@ && debug@
                == "KubeError("@ + k.source.debug@ + ")"@,
            Error::StdError(s) => message@ == "Unknown error: "@ + s.display@ && debug@
                == "StdError("@ + s.debug@ + ")"@,
            Error::HTTPError(s) => message@ == "HTTP Error: "@ + s.display@ && debug@
                == "HTTPError("@ + s.debug@ + ")"@,
            Error::RetryableKubeError(k) => message@ == "Retryable Kube Error: "@
                + k.source.display@ && debug@ == "RetryableKubeError("@ + k.source.debug@ + ")"@,
            Error::FinalizerError(s) => message@ == "Finalizer Error: "@ + s.display@ && debug@
                == "FinalizerError("@ + s.debug@ + ")"@,
            Error::MissingRootCredentials => message@ == "MissingRootCredentials"@ && debug@
                == "MissingRootCredentials"@,
            Error::ReqwestError(s) => message@ == "Reqwest Error: "@ + s.display@ && debug@
                == "ReqwestError("@ + s.debug@ + ")"@,
            Error::URLParseError(s) => message@ == "URL Parse Error: "@ + s.display@ && debug@
                == "URLParseError("@ + s.debug@ + ")"@,
            Error::ServiceRequestError(t) => message@ == "Service Request Error: "@ + t@ && debug@
                == "ServiceRequestError("@ + outside::text_debug(t@) + ")"@,
        },
{
}

/// A client posts through the API server where Kubernetes is configured, and
/// directly otherwise.
pub proof fn law_clients(
    configured: Option<Result<(), KubeError>>,
    by_default: Result<Client, Error>,
    new: Client,
)
    requires
        call_ensures(Client::try_default, (configured,), by_default),
        call_ensures(Client::new, (), new),
    ensures
        new is Kube,
        configured is None ==> (by_default matches Ok(client) && client is Reqwest),
        configured matches Some(Ok(_)) ==> (by_default matches Ok(client) && client is Kube),
        configured matches Some(Err(e)) ==> by_default == Err::<Client, _>(Error::KubeError(e)),
{
}

/// What a client was given to post arrives in the request: through the API
/// server at the target that the URL leads to, and directly at the URL.
pub proof fn law_requests_are_put_together(
    client: &Client,
    url: &str,
    key: &str,
    value: &str,
    body: Vec<u8>,
    started: Result<Builder, Error>,
    with_header: Builder,
    finished: Result<Request, Error>,
)
    requires
        call_ensures(Client::post, (client, url), started),
        started is Ok,
        call_ensures(Builder::header, (started->Ok_0, key, value), with_header),
        call_ensures(Builder::body, (with_header, body), finished),
        finished is Ok,
    ensures
        match finished->Ok_0 {
            Request::Kube(request) => {
                &&& client is Kube
                &&& request.method@ == "POST"@
                &&& request.body@ == body@
                &&& request.headers.deep_view().len() == 1
                &&& request.headers.deep_view()[0].name == key@
                &&& request.headers.deep_view()[0].value == value@
                &&& outside::parsed_url(url@) matches Ok((host, port, path))
                &&& service::proxy_target(host, port, path) matches Ok(target)
                &&& outside::built_uri(target) == Ok::<_, (Seq<char>, Seq<char>)>(request.uri@)
            },
            Request::Reqwest(request) => {
                &&& client is Reqwest
                &&& request.method@ == "POST"@
                &&& request.body@ == body@
                &&& outside::posted_url(url@) matches Ok((uri, authorization))
                &&& request.uri@ == uri
                &&& request.headers.deep_view().len() == (if authorization is Some {
                    2nat
                } else {
                    1nat
                })
                &&& request.headers.deep_view().last().name == key@
                &&& request.headers.deep_view().last().value == value@
                &&& authorization matches Some(credentials)
                    ==> request.headers.deep_view()[0].name == "authorization"@
                    && request.headers.deep_view()[0].value == credentials
            },
        },
{
}

/// A request passes to a client of its own kind as it is, and to no other.
pub proof fn law_send(client: &Client, request: Request, r: Result<Request, Error>)
    requires
        call_ensures(Client::send, (client, request), r),
    ensures
        r is Ok <==> (client is Kube <==> request is Kube),
        r matches Ok(sent) ==> sent == request,
        r matches Err(e) ==> (e matches Error::ServiceRequestError(t) && t@
            == "invalid request type for client"@),
{
}

/// Where a service is reached below the API server.
pub proof fn law_find_proxy_target(parts: &UrlParts, r: Result<String, Error>)
    requires
        call_ensures(service::find_proxy_target, (parts,), r),
    ensures
        r is Ok <==> parts.host is Some && parts.port is Some && text::pieces(
            parts.host->0@,
            '.',
        ).len() >= 5,
        r matches Ok(target) ==> target@ == "/api/v1/namespaces/"@ + text::pieces(
            parts.host->0@,
            '.',
        )[1] + "/services/"@ + text::pieces(parts.host->0@, '.')[0] + ":"@ + text::decimal_text(
            parts.port->0 as nat,
        ) + "/proxy"@ + parts.path@,
        r matches Err(e) ==> (e matches Error::ServiceRequestError(t) && t@ == (
        if parts.host is Some {
            parts.host->0@
                + " is not valid host, expected <svc>.<ns>.svc.<any-cluster-domain>:<port>"@
        } else {
            "missing host in url"@
        })),
{
}

/// The configuration of a component becomes free, by its name.
pub proof fn law_free_component(name: &str, component: &Component, r: Component)
    requires
        call_ensures(schema::free_component, (name, component), r),
    ensures
        name@ == "pd"@ || name@ == "pump"@ || name@ == "ticdc"@ || name@ == "tidb"@ || name@
            == "tikv"@ || name@ == "tiproxy"@ ==> schema::opens_field(
            component.properties.deep_view(),
            r.properties.deep_view(),
            "config"@,
        ) && r.items.deep_view() == component.items.deep_view(),
        r.deep_view() == schema::freed(name@, component.deep_view()),
{
    schema::law_what_becomes_free(name@, component.deep_view());
}

/// Every component is freed by its name, and none is lost.
pub proof fn law_free_components(
    components: &TextMap<Component>,
    r: TextMap<Component>,
    name: Seq<char>,
)
    requires
        call_ensures(schema::free_components, (components,), r),
    ensures
        r.deep_view().contains_key(name) <==> components.deep_view().contains_key(name),
        components.deep_view().contains_key(name) ==> r.deep_view()[name] == schema::freed(
            name,
            components.deep_view()[name],
        ),
{
    schema::law_every_component_is_freed(components.deep_view(), name);
}

/// A password of a root user is as long as asked for, but has 32 characters at
/// least, four of which are symbols.
pub proof fn law_generate_secure_password(len: usize, r: String)
    requires
        call_ensures(password::generate_secure_password, (len,), r),
    ensures
        r@.len() >= 32,
        len >= 32 ==> r@.len() == len,
        len < 32 ==> r@.len() == 32,
        r@.filter(|c: char| !password::letter_or_digit(c)).len() == 4,
        password::letter_or_digit(r@.last()),
        forall|i: int|
            0 <= i < r@.len() ==> password::letter_or_digit(#[trigger] r@[i])
                || "!@#$%^&*()-_=+[]{};:,.?~"@.contains(r@[i]),
{
    password::law_what_passwords_hold(r@, password::password_length(len));
}

/// A random password has the letters and digits that were asked for, and four
/// symbols.
pub proof fn law_random_password(letters: usize, r: String)
    requires
        call_ensures(password::random_password, (letters,), r),
    ensures
        r@.len() == letters + 4,
        r@.filter(|c: char| !password::letter_or_digit(c)).len() == 4,
        password::letter_or_digit(r@.last()),
{
    password::law_what_passwords_hold(r@, letters + 4);
}

/// Objects are called as they are named, and refer to others as their
/// controllers.
pub proof fn law_object_names(
    meta: &ObjectMeta,
    kind: &str,
    name: String,
    owner: Option<OwnerReference>,
)
    requires
        call_ensures(ObjectMeta::name_any, (meta,), name),
        call_ensures(ObjectMeta::controller_owner_ref, (meta, kind), owner),
    ensures
        meta.name is Some ==> name@ == meta.name->0@,
        meta.name is None && meta.generate_name is Some ==> name@ == meta.generate_name->0@,
        meta.name is None && meta.generate_name is None ==> name@.len() == 0,
        owner is Some <==> meta.name is Some && meta.uid is Some,
        owner matches Some(o) ==> promise::refers_to(o.deep_view(), meta.deep_view(), kind@),
{
}

/// A finalizer goes to the end of the others, and nothing else changes.
pub proof fn law_with_finalizer(meta: ObjectMeta, finalizer: &str, r: ObjectMeta)
    requires
        call_ensures(ObjectMeta::with_finalizer, (meta, finalizer), r),
    ensures
        r.finalizers.deep_view() is Some,
        r.finalizers.deep_view()->0 == (if meta.finalizers is Some {
            meta.finalizers.deep_view()->0.push(finalizer@)
        } else {
            seq![finalizer@]
        }),
        r.name.deep_view() == meta.name.deep_view(),
        r.namespace.deep_view() == meta.namespace.deep_view(),
        r.uid.deep_view() == meta.uid.deep_view(),
        r.labels.deep_view() == meta.labels.deep_view(),
        r.owner_references.deep_view() == meta.owner_references.deep_view(),
{
    promise::law_finalizers_are_added_at_the_end(meta.deep_view(), finalizer@);
    let after = r.finalizers.deep_view()->0;
    assert(after =~= after.drop_last().push(after.last()));
    assert(seq![].push(finalizer@) =~= seq![finalizer@]);
}

/// A TiDB cluster is ready if a condition says so, in one of the words that
/// count as true.
pub proof fn law_tidb_ready(status: &TidbClusterStatus, s: &str, ready: bool, word: bool)
    requires
        call_ensures(TidbClusterStatus::ready, (status,), ready),
        call_ensures(objects::is_true, (s,), word),
    ensures
        ready <==> crate::cluster::promises::tidb_is_ready(Some(status.deep_view())),
        word <==> s@ == "True"@ || s@ == "true"@ || s@ == "TRUE"@,
{
    crate::cluster::promises::law_when_tidb_is_ready(Some(status.deep_view()));
}

/// Texts: a given one wins over a fallback, joined ones follow each other, and
/// numbers read back.
pub proof fn law_texts(
    given: &Option<String>,
    fallback: &str,
    chosen: String,
    copied: Option<String>,
    b: &str,
    pair: String,
    n: u16,
    number: String,
    quoted: String,
)
    requires
        call_ensures(text::text_or_else, (given, fallback), chosen),
        call_ensures(text::copy_text, (given,), copied),
        call_ensures(text::joined, (fallback, b), pair),
        call_ensures(text::decimal, (n,), number),
        call_ensures(text::quote_ident, (b,), quoted),
    ensures
        given matches Some(t) ==> chosen@ == t@,
        given is None ==> chosen@ == fallback@,
        copied.deep_view() == given.deep_view(),
        pair@ == fallback@ + b@,
        text::read_digits(number@) == n,
        quoted@ == promise::in_backticks(b@),
{
    text::law_decimals_read_back(n as nat);
    promise::law_what_statements_say(b@, seq![], seq![], seq![]);
}

/// Texts are compared, joined, searched and split by their characters.
pub proof fn law_searches(
    a: &str,
    b: &str,
    c: &str,
    mark: char,
    same: bool,
    three: String,
    chars: Vec<char>,
    holds: bool,
    starts: bool,
    ends: bool,
    twice: String,
    parts: Vec<String>,
)
    requires
        call_ensures(text::same_text, (a, b), same),
        call_ensures(text::joined3, (a, b, c), three),
        call_ensures(text::chars_of, (a,), chars),
        call_ensures(text::text_holds, (a, b), holds),
        call_ensures(text::text_starts_with, (a, b), starts),
        call_ensures(text::text_ends_with, (a, b), ends),
        call_ensures(text::double_mark, (a, mark), twice),
        call_ensures(text::split_text, (a, mark), parts),
    ensures
        same <==> a@ == b@,
        three@ == a@ + b@ + c@,
        chars@ == a@,
        holds <==> exists|i: int|
            #![trigger a@.take(i)]
            0 <= i && i + b@.len() <= a@.len() && a@ == a@.take(i) + b@ + a@.skip(i + b@.len()),
        starts <==> b@.len() <= a@.len() && a@.take(b@.len() as int) == b@,
        ends <==> b@.len() <= a@.len() && a@.skip(a@.len() - b@.len()) == b@,
        text::undoubled(twice@, mark) == a@,
        text::rejoined(parts.deep_view(), mark) == a@,
{
    text::law_parts_make_up_the_text(seq![], b@, seq![], a@, 0);
    text::law_parts_make_up_the_text(seq![], b@, seq![], a@, a@.len() - b@.len());
    assert forall|i: int|
        #![trigger a@.take(i)]
        0 <= i && i + b@.len() <= a@.len() && a@ == a@.take(i) + b@ + a@.skip(
            i + b@.len(),
        ) implies text::holds(a@, b@) by {
        text::law_parts_make_up_the_text(a@.take(i), b@, a@.skip(i + b@.len()), a@, i);
    }
    if b@.len() <= a@.len() {
        assert(a@.take(b@.len() as int) =~= a@.subrange(0, b@.len() as int));
        assert(a@.skip(a@.len() - b@.len()) =~= a@.subrange(
            a@.len() - b@.len(),
            a@.len() - b@.len() + b@.len(),
        ));
    }
    text::law_quoting_is_undone(a@, mark);
    text::law_pieces_make_up_the_text(a@, mark);
}

/// Maps keep their entries in the order in which the keys came, and give back
/// what was put in last under a key.
pub proof fn law_text_maps(
    map: TextMap<String>,
    key: &str,
    value: String,
    other: &str,
    empty: TextMap<String>,
    more: TextMap<String>,
    found: Option<&String>,
)
    requires
        call_ensures(TextMap::<String>::new, (), empty),
        call_ensures(TextMap::<String>::with, (map, key, value), more),
        call_ensures(TextMap::<String>::get, (&more, other), found),
    ensures
        empty.keys().len() == 0,
        forall|k: Seq<char>| !(#[trigger] empty.deep_view().contains_key(k)),
        other@ == key@ ==> found is Some && found->0@ == value@,
        other@ != key@ ==> (found is Some <==> map.deep_view().contains_key(other@)),
        other@ != key@ && found is Some ==> found->0@ == map.deep_view()[other@],
        map.deep_view().contains_key(key@) ==> more.keys() == map.keys(),
        !map.deep_view().contains_key(key@) ==> more.keys().drop_last() == map.keys()
            && more.keys().last() == key@,
{
    if !map.deep_view().contains_key(key@) {
        assert(more.keys().drop_last() =~= map.keys());
    }
}

/// What the stand-ins look for in what they are sent.
pub proof fn law_stand_ins_look(
    request: &HttpRequest,
    path: &str,
    name: &str,
    operations: &Vec<PatchOperation>,
    posts: bool,
    plain: bool,
    body: Option<String>,
    header: String,
    added: bool,
    root: TextMap<Vec<u8>>,
)
    requires
        call_ensures(mock::is_post_to, (request, path), posts),
        call_ensures(mock::is_plain_text, (request,), plain),
        call_ensures(mock::read_body, (request,), body),
        call_ensures(mock::header_or_empty, (&request.headers, name), header),
        call_ensures(mock::finalizers_added, (operations,), added),
        call_ensures(mock::make_root_data, (), root),
    ensures
        posts <==> request.method@ == "POST"@ && text::pieces(request.uri@, '?')[0] == path@,
        plain <==> mock::says_plain_text(request.deep_view()),
        body is Some <==> vstd::utf8::valid_utf8(request.body@),
        body matches Some(t) ==> t@ == vstd::utf8::decode_utf8(request.body@),
        header@ == promise::given_or(
            mock::first_header(request.headers.deep_view(), name@),
            seq![],
        ),
        added <==> exists|i: int|
            0 <= i < operations.deep_view().len() && (#[trigger] operations.deep_view()[i]).op
                == "add"@ && operations.deep_view()[i].path == "/metadata/finalizers"@,
        sql::credentials_in(Some(root.deep_view())) == Some(("root"@, "root"@)),
{
    mock::law_how_finalizers_are_added(operations.deep_view());
    mock::law_root_is_root();
}

/// A symbol goes in front of the character at a place.
pub proof fn law_insert_symbol(chars: Vec<char>, at: usize, pick: usize, r: Vec<char>)
    requires
        call_ensures(password::insert_symbol, (chars, at, pick), r),
        at <= chars@.len(),
        pick < "!@#$%^&*()-_=+[]{};:,.?~"@.len(),
    ensures
        r@.len() == chars@.len() + 1,
        r@[at as int] == "!@#$%^&*()-_=+[]{};:,.?~"@[pick as int],
        r@.remove(at as int) == chars@,
{
    assert(r@.remove(at as int) =~= chars@);
}

/// A statement that has its target becomes a post of plain text.
pub proof fn law_assemble_sql_request(
    uri: String,
    auth: Option<(&str, &str)>,
    statement: &str,
    r: HttpRequest,
)
    requires
        call_ensures(sql::assemble_sql_request, (uri, auth, statement), r),
    ensures
        r.method@ == "POST"@,
        r.uri@ == uri@,
        r.body@ == vstd::utf8::encode_utf8(statement@),
        promise::has_header(r.headers.deep_view(), "accept"@, "application/json"@),
        promise::has_header(r.headers.deep_view(), "content-type"@, "text/plain"@),
        auth is None ==> r.headers.deep_view().len() == 2,
        auth matches Some((user, password)) ==> r.headers.deep_view().len() == 3
            && promise::has_header(
            r.headers.deep_view(),
            "authorization"@,
            "Basic "@ + outside::base64_standard(
                vstd::utf8::encode_utf8(user@ + ":"@ + password@),
            ),
        ),
{
    let headers = r.headers.deep_view();
    assert(headers[0].name == "accept"@ && headers[0].value == "application/json"@);
    assert(headers[1].name == "content-type"@ && headers[1].value == "text/plain"@);
    if auth is Some {
        assert(headers[2].name == "authorization"@);
    }
}

/// Name and password are read out of data that has both.
pub proof fn law_root_credentials(
    data: &Option<TextMap<Vec<u8>>>,
    r: Option<(String, String)>,
)
    requires
        call_ensures(sql::root_credentials, (data,), r),
    ensures
        r is Some <==> data is Some && data.deep_view()->0.contains_key("user"@)
            && data.deep_view()->0.contains_key("password"@),
        r matches Some((user, password)) ==> user@ == promise::readable(
            data.deep_view()->0["user"@],
        ) && password@ == promise::readable(data.deep_view()->0["password"@]),
{
    assert(r.deep_view() is Some <==> r is Some);
}

/// A pass ends to be repeated, or with the failure of a call.
pub proof fn law_ends(
    seconds: u64,
    error: KubeError,
    repeated: Flow<ClusterStep>,
    failed: Flow<ClusterStep>,
)
    requires
        call_ensures(Flow::<ClusterStep>::requeue, (seconds,), repeated),
        call_ensures(Flow::<ClusterStep>::kube_failure, (error,), failed),
    ensures
        repeated matches Flow::Done { outcome: Ok(Action::Requeue { seconds: s }) } && s == seconds,
        failed matches Flow::Done { outcome: Err(Error::KubeError(e)) } && e.deep_view()
            == error.deep_view(),
{
}

/// An answer fits a call of its kind, and a failure fits every call.
pub proof fn law_fits(reply: &ApiReply, kind: ReplyKind, r: bool)
    requires
        call_ensures(ApiReply::fits, (reply, kind), r),
    ensures
        reply is Failed ==> r,
        !(reply is Failed) && r ==> match kind {
            ReplyKind::Accepted => reply is Accepted,
            ReplyKind::Deployment => reply is Deployment,
            ReplyKind::Secret => reply is Secret,
            ReplyKind::Cluster => reply is Cluster,
            ReplyKind::Database => reply is Database,
            ReplyKind::TidbCluster => reply is TidbCluster || reply is NoTidbCluster,
            ReplyKind::Owners => reply is Owners,
        },
        !r ==> match kind {
            ReplyKind::Accepted => !(reply is Accepted),
            ReplyKind::Deployment => !(reply is Deployment),
            ReplyKind::Secret => !(reply is Secret),
            ReplyKind::Cluster => !(reply is Cluster),
            ReplyKind::Database => !(reply is Database),
            ReplyKind::TidbCluster => !(reply is TidbCluster) && !(reply is NoTidbCluster),
            ReplyKind::Owners => !(reply is Owners),
        },
{
}

/// Steps wait for answers of the kind that their calls have.
pub proof fn law_awaits(
    step: ClusterStep,
    cleanup: CleanupStep,
    db: &DbStep,
    user: &UserStep,
    a: ReplyKind,
    b: ReplyKind,
    c: ReplyKind,
    d: ReplyKind,
)
    requires
        call_ensures(ClusterStep::awaits, (step,), a),
        call_ensures(CleanupStep::awaits, (cleanup,), b),
        call_ensures(DbStep::awaits, (db,), c),
        call_ensures(UserStep::awaits, (user,), d),
    ensures
        a == (match step {
            ClusterStep::TidbGet => ReplyKind::TidbCluster,
            ClusterStep::CreationReadiness | ClusterStep::Readiness { .. } => {
                ReplyKind::Deployment
            },
            ClusterStep::BootstrapSecret => ReplyKind::Secret,
            _ => ReplyKind::Accepted,
        }),
        b == (if cleanup is Look {
            ReplyKind::Owners
        } else {
            ReplyKind::Accepted
        }),
        c == (match db {
            DbStep::Cluster => ReplyKind::Cluster,
            DbStep::Secret => ReplyKind::Secret,
            _ => ReplyKind::Accepted,
        }),
        d == (match user {
            UserStep::Database => ReplyKind::Database,
            UserStep::Cluster { .. } => ReplyKind::Cluster,
            UserStep::Secret { .. } => ReplyKind::Secret,
            _ => ReplyKind::Accepted,
        }),
{
}

/// Copies hold what the resources hold.
pub proof fn law_copies(
    cluster: &Cluster,
    db: &Database,
    user: &User,
    meta: &ObjectMeta,
    a: Cluster,
    b: Database,
    c: User,
    d: ObjectMeta,
)
    requires
        call_ensures(Cluster::clone, (cluster,), a),
        call_ensures(Database::clone, (db,), b),
        call_ensures(User::clone, (user,), c),
        call_ensures(ObjectMeta::clone, (meta,), d),
    ensures
        a.deep_view() == cluster.deep_view(),
        b.deep_view() == db.deep_view(),
        c.deep_view() == user.deep_view(),
        d.deep_view() == meta.deep_view(),
{
}

} // verus!
