//! Statements for a SurrealDB server, and the requests that carry them there
//! through the proxy of the Kubernetes API server.
use crate::error::{Error, ErrorView, SourceErrorView};
use crate::objects::{Header, HeaderView, HttpRequest, HttpRequestView};
use crate::outside::{self, base64_encode, header_value, request_uri, utf8_text};
use crate::text::{self, double_mark, joined, joined3, quote_ident, TextMap};
use vstd::prelude::*;

verus! {

/// The statement that makes a user the owner of the whole server.
pub open spec fn root_user_statement(user: Seq<char>, password: Seq<char>) -> Seq<char> {
    "DEFINE USER "@ + user + " ON ROOT PASSWORD '"@ + password + "' ROLES OWNER;"@
}

/// Writes the statement that makes a user the owner of the whole server. Name
/// and password stand in it as they are.
pub fn define_root_user(user: &str, password: &str) -> (r: String)
    ensures
        r@ == root_user_statement(user@, password@),
{
    let mut r = joined3("DEFINE USER ", user, " ON ROOT PASSWORD '");
    r.append(password);
    r.append("' ROLES OWNER;");
    r
}

/// The statement that defines a namespace.
pub open spec fn namespace_statement(ns: Seq<char>) -> Seq<char> {
    "DEFINE NAMESPACE "@ + text::quoted_ident(ns) + ";"@
}

/// Writes the statement that defines a namespace.
pub fn define_namespace(ns: &str) -> (r: String)
    ensures
        r@ == namespace_statement(ns@),
{
    let quoted = quote_ident(ns);
    joined3("DEFINE NAMESPACE ", quoted.as_str(), ";")
}

/// The statement that defines a database in a namespace.
pub open spec fn database_statement(ns: Seq<char>, db: Seq<char>) -> Seq<char> {
    "USE NS "@ + text::quoted_ident(ns) + "; DEFINE DATABASE "@ + text::quoted_ident(db) + ";"@
}

/// Writes the statement that defines a database in a namespace.
pub fn define_database(ns: &str, db: &str) -> (r: String)
    ensures
        r@ == database_statement(ns@, db@),
{
    let ns_quoted = quote_ident(ns);
    let db_quoted = quote_ident(db);
    let mut r = joined3("USE NS ", ns_quoted.as_str(), "; DEFINE DATABASE ");
    r.append(db_quoted.as_str());
    r.append(";");
    r
}

/// The statement that defines an editor of one database.
pub open spec fn user_statement(
    ns: Seq<char>,
    db: Seq<char>,
    user: Seq<char>,
    password: Seq<char>,
) -> Seq<char> {
    "USE NS "@ + text::quoted_ident(ns) + "; USE DB "@ + text::quoted_ident(db) + "; DEFINE USER "@
        + text::quoted_ident(user) + " ON DATABASE PASSWORD '"@ + text::doubled(password, '\'')
        + "' ROLES EDITOR;"@
}

/// Writes the statement that defines an editor of one database.
pub fn define_user(ns: &str, db: &str, user: &str, password: &str) -> (r: String)
    ensures
        r@ == user_statement(ns@, db@, user@, password@),
{
    let ns_quoted = quote_ident(ns);
    let db_quoted = quote_ident(db);
    let user_quoted = quote_ident(user);
    let password_escaped = double_mark(password, '\'');
    let mut r = joined3("USE NS ", ns_quoted.as_str(), "; USE DB ");
    r.append(db_quoted.as_str());
    r.append("; DEFINE USER ");
    r.append(user_quoted.as_str());
    r.append(" ON DATABASE PASSWORD '");
    r.append(password_escaped.as_str());
    r.append("' ROLES EDITOR;");
    r
}

/// Whatever a namespace is called, the name in its statement ends right before
/// the final semicolon.
pub proof fn law_namespace_statement_holds_one_name(ns: Seq<char>)
    ensures
        ({
            let statement = namespace_statement(ns);
            let inside = statement.skip("DEFINE NAMESPACE `"@.len() as int);
            text::closing_mark(inside, '`') == inside.len() - 2
        }),
{
    reveal_strlit("DEFINE NAMESPACE ");
    reveal_strlit("DEFINE NAMESPACE `");
    reveal_strlit("`");
    reveal_strlit(";");
    let inside = namespace_statement(ns).skip("DEFINE NAMESPACE `"@.len() as int);
    text::law_quoted_text_stays_inside(ns, '`', seq![';']);
    assert(inside =~= text::doubled(ns, '`') + seq!['`'] + seq![';']);
}

/// Whatever the password of a user, it ends in the statement right before the
/// roles are named.
pub proof fn law_user_statement_holds_one_password(
    ns: Seq<char>,
    db: Seq<char>,
    user: Seq<char>,
    password: Seq<char>,
)
    ensures
        ({
            let statement = user_statement(ns, db, user, password);
            let start = statement.len() - "' ROLES EDITOR;"@.len() - text::doubled(
                password,
                '\'',
            ).len();
            let inside = statement.skip(start);
            text::closing_mark(inside, '\'') == inside.len() - "' ROLES EDITOR;"@.len()
        }),
{
    reveal_strlit("' ROLES EDITOR;");
    let statement = user_statement(ns, db, user, password);
    let escaped = text::doubled(password, '\'');
    let end = "' ROLES EDITOR;"@;
    let start = statement.len() - end.len() - escaped.len();
    text::law_quoted_text_stays_inside(password, '\'', end.drop_first());
    assert(statement.skip(start) =~= escaped + seq!['\''] + end.drop_first());
}

/// A statement that defines a namespace says which one: no two namespaces share
/// a statement.
pub proof fn law_namespace_statements_differ(a: Seq<char>, b: Seq<char>)
    requires
        namespace_statement(a) == namespace_statement(b),
    ensures
        a == b,
{
    reveal_strlit("DEFINE NAMESPACE ");
    reveal_strlit("`");
    reveal_strlit(";");
    let end = ";"@;
    assert(namespace_statement(a).skip(18) =~= text::doubled(a, '`') + seq!['`'] + end);
    assert(namespace_statement(b).skip(18) =~= text::doubled(b, '`') + seq!['`'] + end);
    text::law_quoted_text_can_be_told_apart(a, end, b, end, '`');
}

/// A statement that defines a database says which one, and where: no two
/// databases share a statement.
pub proof fn law_database_statements_differ(
    ns_a: Seq<char>,
    a: Seq<char>,
    ns_b: Seq<char>,
    b: Seq<char>,
)
    requires
        database_statement(ns_a, a) == database_statement(ns_b, b),
    ensures
        ns_a == ns_b,
        a == b,
{
    reveal_strlit("USE NS ");
    reveal_strlit("; DEFINE DATABASE ");
    reveal_strlit("`");
    reveal_strlit(";");
    let rest_a = "; DEFINE DATABASE "@ + text::quoted_ident(a) + ";"@;
    let rest_b = "; DEFINE DATABASE "@ + text::quoted_ident(b) + ";"@;
    assert(database_statement(ns_a, a).skip(8) =~= text::doubled(ns_a, '`') + seq!['`'] + rest_a);
    assert(database_statement(ns_b, b).skip(8) =~= text::doubled(ns_b, '`') + seq!['`'] + rest_b);
    text::law_quoted_text_can_be_told_apart(ns_a, rest_a, ns_b, rest_b, '`');
    assert(rest_a.skip(19) =~= text::doubled(a, '`') + seq!['`'] + ";"@);
    assert(rest_b.skip(19) =~= text::doubled(b, '`') + seq!['`'] + ";"@);
    text::law_quoted_text_can_be_told_apart(a, ";"@, b, ";"@, '`');
}

/// What a statement that defines a user says after the database is named.
pub open spec fn user_clause(user: Seq<char>, password: Seq<char>) -> Seq<char> {
    "; DEFINE USER "@ + text::quoted_ident(user) + " ON DATABASE PASSWORD '"@ + text::doubled(
        password,
        '\'',
    ) + "' ROLES EDITOR;"@
}

proof fn lemma_user_clauses_differ(
    user_a: Seq<char>,
    password_a: Seq<char>,
    user_b: Seq<char>,
    password_b: Seq<char>,
)
    requires
        user_clause(user_a, password_a) == user_clause(user_b, password_b),
    ensures
        user_a == user_b,
        password_a == password_b,
{
    reveal_strlit("; DEFINE USER ");
    reveal_strlit("`");
    reveal_strlit(" ON DATABASE PASSWORD '");
    reveal_strlit("' ROLES EDITOR;");
    let end = "' ROLES EDITOR;"@;
    let roles = end.drop_first();
    let rest_a = " ON DATABASE PASSWORD '"@ + text::doubled(password_a, '\'') + end;
    let rest_b = " ON DATABASE PASSWORD '"@ + text::doubled(password_b, '\'') + end;
    let whole_a = user_clause(user_a, password_a);
    let whole_b = user_clause(user_b, password_b);
    assert(whole_a.skip(15) =~= text::doubled(user_a, '`') + seq!['`'] + rest_a);
    assert(whole_b.skip(15) =~= text::doubled(user_b, '`') + seq!['`'] + rest_b);
    text::law_quoted_text_can_be_told_apart(user_a, rest_a, user_b, rest_b, '`');
    assert(rest_a.skip(23) =~= text::doubled(password_a, '\'') + seq!['\''] + roles);
    assert(rest_b.skip(23) =~= text::doubled(password_b, '\'') + seq!['\''] + roles);
    text::law_quoted_text_can_be_told_apart(password_a, roles, password_b, roles, '\'');
}

/// A statement that defines a user says who it is, with which password, and
/// where: whatever stands in the names and the password, no two users share a
/// statement.
pub proof fn law_user_statements_differ(
    ns_a: Seq<char>,
    db_a: Seq<char>,
    user_a: Seq<char>,
    password_a: Seq<char>,
    ns_b: Seq<char>,
    db_b: Seq<char>,
    user_b: Seq<char>,
    password_b: Seq<char>,
)
    requires
        user_statement(ns_a, db_a, user_a, password_a) == user_statement(
            ns_b,
            db_b,
            user_b,
            password_b,
        ),
    ensures
        ns_a == ns_b,
        db_a == db_b,
        user_a == user_b,
        password_a == password_b,
{
    reveal_strlit("USE NS ");
    reveal_strlit("; USE DB ");
    reveal_strlit("; DEFINE USER ");
    reveal_strlit("`");
    let clause_a = user_clause(user_a, password_a);
    let clause_b = user_clause(user_b, password_b);
    let rest_a = "; USE DB "@ + text::quoted_ident(db_a) + clause_a;
    let rest_b = "; USE DB "@ + text::quoted_ident(db_b) + clause_b;
    let whole_a = user_statement(ns_a, db_a, user_a, password_a);
    let whole_b = user_statement(ns_b, db_b, user_b, password_b);
    assert(whole_a.skip(8) =~= text::doubled(ns_a, '`') + seq!['`'] + rest_a);
    assert(whole_b.skip(8) =~= text::doubled(ns_b, '`') + seq!['`'] + rest_b);
    text::law_quoted_text_can_be_told_apart(ns_a, rest_a, ns_b, rest_b, '`');
    assert(rest_a.skip(10) =~= text::doubled(db_a, '`') + seq!['`'] + clause_a);
    assert(rest_b.skip(10) =~= text::doubled(db_b, '`') + seq!['`'] + clause_b);
    text::law_quoted_text_can_be_told_apart(db_a, clause_a, db_b, clause_b, '`');
    lemma_user_clauses_differ(user_a, password_a, user_b, password_b);
}

/// The path of the SQL endpoint of a cluster below the API server.
pub open spec fn sql_path(cluster_ns: Seq<char>, cluster_name: Seq<char>) -> Seq<char> {
    "/api/v1/namespaces/"@ + cluster_ns + "/services/"@ + cluster_name
        + "-surrealdb:8000/proxy/sql"@
}

/// Namespace and name of a cluster that a path can hold as they are, as all
/// names in Kubernetes can be.
pub open spec fn plain_names(cluster_ns: Seq<char>, cluster_name: Seq<char>) -> bool {
    &&& cluster_ns.len() + cluster_name.len() <= 65000
    &&& forall|i: int| 0 <= i < cluster_ns.len() ==> outside::path_char(#[trigger] cluster_ns[i])
    &&& forall|i: int|
        0 <= i < cluster_name.len() ==> outside::path_char(#[trigger] cluster_name[i])
}

/// Plain names make a plain path.
pub proof fn law_plain_names_make_a_plain_path(cluster_ns: Seq<char>, cluster_name: Seq<char>)
    requires
        plain_names(cluster_ns, cluster_name),
    ensures
        outside::plain_path(sql_path(cluster_ns, cluster_name)),
{
    reveal_strlit("/api/v1/namespaces/");
    reveal_strlit("/services/");
    reveal_strlit("-surrealdb:8000/proxy/sql");
    let path = sql_path(cluster_ns, cluster_name);
    let a = "/api/v1/namespaces/"@;
    let b = "/services/"@;
    let c = "-surrealdb:8000/proxy/sql"@;
    let n = cluster_ns.len();
    let m = cluster_name.len();
    assert forall|i: int| 0 <= i < path.len() implies outside::path_char(#[trigger] path[i]) by {
        if i < 19 {
            assert(path[i] == a[i]);
        } else if i < 19 + n {
            assert(path[i] == cluster_ns[i - 19]);
        } else if i < 29 + n {
            assert(path[i] == b[i - 19 - n]);
        } else if i < 29 + n + m {
            assert(path[i] == cluster_name[i - 29 - n]);
        } else {
            assert(path[i] == c[i - 29 - n - m]);
        }
    }
}

/// Writes the path of the SQL endpoint of a cluster below the API server.
pub fn proxy_sql_path(cluster_ns: &str, cluster_name: &str) -> (r: String)
    ensures
        r@ == sql_path(cluster_ns@, cluster_name@),
{
    let mut r = joined3("/api/v1/namespaces/", cluster_ns, "/services/");
    r.append(cluster_name);
    r.append("-surrealdb:8000/proxy/sql");
    r
}

/// The value of the header that identifies a user by name and password.
pub open spec fn basic_auth(user: Seq<char>, password: Seq<char>) -> Seq<char> {
    "Basic "@ + outside::base64_standard(
        vstd::utf8::encode_utf8(user + ":"@ + password),
    )
}

/// Writes the value of the header that identifies a user by name and password.
pub fn basic_auth_header(user: &str, password: &str) -> (r: String)
    ensures
        r@ == basic_auth(user@, password@),
{
    let pair = joined3(user, ":", password);
    let token = base64_encode(pair.as_str().as_bytes());
    let value = joined("Basic ", token.as_str());
    proof {
        reveal_strlit("Basic ");
        assert forall|i: int| 0 <= i < value@.len() implies outside::header_char(
            #[trigger] value@[i],
        ) by {
            if i >= 6 {
                assert(outside::base64_char(token@[i - 6]));
            }
        }
    }
    header_value(value.as_str()).unwrap()
}

/// The request that carries a statement to a cluster, given what the request
/// target came out as.
pub open spec fn sql_request_to(
    uri: Seq<char>,
    auth: Option<(Seq<char>, Seq<char>)>,
    statement: Seq<char>,
) -> HttpRequestView {
    let accept = HeaderView { name: "accept"@, value: "application/json"@ };
    let content_type = HeaderView { name: "content-type"@, value: "text/plain"@ };
    HttpRequestView {
        method: "POST"@,
        uri,
        headers: match auth {
            None => seq![accept, content_type],
            Some((user, password)) => seq![
                accept,
                content_type,
                HeaderView { name: "authorization"@, value: basic_auth(user, password) },
            ],
        },
        body: vstd::utf8::encode_utf8(statement),
    }
}

/// The request that carries a statement to a cluster, or the error of building
/// it.
pub open spec fn sql_request_outcome(
    cluster_ns: Seq<char>,
    cluster_name: Seq<char>,
    auth: Option<(Seq<char>, Seq<char>)>,
    statement: Seq<char>,
) -> Result<HttpRequestView, ErrorView> {
    match outside::built_uri(sql_path(cluster_ns, cluster_name)) {
        Ok(uri) => Ok(sql_request_to(uri, auth, statement)),
        Err((display, debug)) => Err(ErrorView::HTTPError(SourceErrorView { display, debug })),
    }
}

/// Assembles the request that carries a statement to a request target.
pub fn assemble_sql_request(
    uri: String,
    auth: Option<(&str, &str)>,
    statement: &str,
) -> (r: HttpRequest)
    ensures
        r.deep_view() == sql_request_to(
            uri@,
            match auth {
                None => None,
                Some((user, password)) => Some((user@, password@)),
            },
            statement@,
        ),
{
    let mut headers: Vec<Header> = Vec::new();
    headers.push(Header { name: "accept".to_string(), value: "application/json".to_string() });
    headers.push(Header { name: "content-type".to_string(), value: "text/plain".to_string() });
    match auth {
        None => {},
        Some((user, password)) => {
            headers.push(
                Header {
                    name: "authorization".to_string(),
                    value: basic_auth_header(user, password),
                },
            );
        },
    }
    HttpRequest { method: "POST".to_string(), uri, headers, body: statement.as_bytes_vec() }
}

/// Builds the request that carries a statement to a cluster.
pub fn sql_request(
    cluster_ns: &str,
    cluster_name: &str,
    auth: Option<(&str, &str)>,
    statement: &str,
) -> (r: Result<HttpRequest, Error>)
    ensures
        ({
            let outcome = sql_request_outcome(
                cluster_ns@,
                cluster_name@,
                match auth {
                    None => None,
                    Some((user, password)) => Some((user@, password@)),
                },
                statement@,
            );
            match r {
                Ok(request) => outcome == Ok::<_, ErrorView>(request.deep_view()),
                Err(e) => outcome == Err::<HttpRequestView, _>(e.deep_view()),
            }
        }),
        plain_names(cluster_ns@, cluster_name@) ==> r is Ok && r->Ok_0.uri@ == sql_path(
            cluster_ns@,
            cluster_name@,
        ),
{
    proof {
        if plain_names(cluster_ns@, cluster_name@) {
            law_plain_names_make_a_plain_path(cluster_ns@, cluster_name@);
        }
    }
    let path = proxy_sql_path(cluster_ns, cluster_name);
    match request_uri(path.as_str()) {
        Ok(uri) => Ok(assemble_sql_request(uri, auth, statement)),
        Err(e) => Err(Error::HTTPError(e)),
    }
}

/// What some bytes of a secret read as: nothing where they are no UTF-8.
pub open spec fn secret_text(bytes: Seq<u8>) -> Seq<char> {
    if vstd::utf8::valid_utf8(bytes) {
        vstd::utf8::decode_utf8(bytes)
    } else {
        seq![]
    }
}

/// Name and password of the root user, out of the data of a secret that has
/// both.
pub open spec fn credentials_in(data: Option<Map<Seq<char>, Seq<u8>>>) -> Option<
    (Seq<char>, Seq<char>),
> {
    match data {
        Some(data) if data.contains_key("user"@) && data.contains_key("password"@) => Some(
            (secret_text(data["user"@]), secret_text(data["password"@])),
        ),
        _ => None,
    }
}

/// Reads some bytes of a secret as text.
pub fn read_secret_text(bytes: &Vec<u8>) -> (r: String)
    ensures
        r@ == secret_text(bytes@),
{
    match utf8_text(bytes) {
        Some(text) => text,
        None => String::new(),
    }
}

/// Reads name and password of the root user out of the data of a secret.
pub fn root_credentials(data: &Option<TextMap<Vec<u8>>>) -> (r: Option<(String, String)>)
    ensures
        r.deep_view() == credentials_in(data.deep_view()),
{
    match data {
        None => None,
        Some(data) => match (data.get("user"), data.get("password")) {
            (Some(user), Some(password)) => {
                assert(user.deep_view() =~= user@);
                assert(password.deep_view() =~= password@);
                Some((read_secret_text(user), read_secret_text(password)))
            },
            _ => None,
        },
    }
}

/// A text that is kept as bytes of a secret reads back as it was. So do the
/// name and the password of a root user.
pub proof fn law_secrets_read_back(user: Seq<char>, password: Seq<char>)
    ensures
        secret_text(vstd::utf8::encode_utf8(password)) == password,
        credentials_in(
            Some(
                Map::<Seq<char>, Seq<u8>>::empty().insert(
                    "user"@,
                    vstd::utf8::encode_utf8(user),
                ).insert("password"@, vstd::utf8::encode_utf8(password)),
            ),
        ) == Some((user, password)),
{
    reveal_strlit("user");
    reveal_strlit("password");
    assert("user"@.len() != "password"@.len());
    vstd::utf8::encode_utf8_valid_utf8(user);
    vstd::utf8::encode_utf8_valid_utf8(password);
    vstd::utf8::encode_utf8_decode_utf8(user);
    vstd::utf8::encode_utf8_decode_utf8(password);
}

/// The request that carries a statement carries exactly that: its body reads
/// back as the statement.
pub proof fn law_statements_read_back(
    uri: Seq<char>,
    auth: Option<(Seq<char>, Seq<char>)>,
    statement: Seq<char>,
)
    ensures
        secret_text(sql_request_to(uri, auth, statement).body) == statement,
{
    law_secrets_read_back(seq![], statement);
}

} // verus!
