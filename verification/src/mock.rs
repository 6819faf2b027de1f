//! What the stand-ins for the API server have in common, with which passes are
//! tried out: what they are sent, and what they look for in it.
use crate::api::{ApiRequest, ApiRequestView};
use crate::objects::{Header, HeaderView, HttpRequest, HttpRequestView};
use crate::outside::{self, utf8_text};
use crate::sql;
use crate::text::{self, same_text, split_text, TextMap};
use vstd::prelude::*;

verus! {

/// The value of an operation of a JSON patch.
#[derive(Debug)]
pub enum PatchValue {
    Absent,
    Null,
    Text { text: String },
    Texts { texts: Vec<String> },
}

/// What a `PatchValue` holds.
#[verifier::ext_equal]
pub enum PatchValueView {
    Absent,
    Null,
    Text { text: Seq<char> },
    Texts { texts: Seq<Seq<char>> },
}

impl DeepView for PatchValue {
    type V = PatchValueView;

    open spec fn deep_view(&self) -> PatchValueView {
        match self {
            PatchValue::Absent => PatchValueView::Absent,
            PatchValue::Null => PatchValueView::Null,
            PatchValue::Text { text } => PatchValueView::Text { text: text@ },
            PatchValue::Texts { texts } => PatchValueView::Texts { texts: texts.deep_view() },
        }
    }
}

/// An operation of a JSON patch.
#[derive(Debug)]
pub struct PatchOperation {
    pub op: String,
    pub path: String,
    pub value: PatchValue,
}

/// What a `PatchOperation` holds.
#[verifier::ext_equal]
pub struct PatchOperationView {
    pub op: Seq<char>,
    pub path: Seq<char>,
    pub value: PatchValueView,
}

impl DeepView for PatchOperation {
    type V = PatchOperationView;

    open spec fn deep_view(&self) -> PatchOperationView {
        PatchOperationView {
            op: self.op@,
            path: self.path@,
            value: self.value.deep_view(),
        }
    }
}

/// What a stand-in is sent: a call of a controller, or a patch of the
/// finalizers of the object that it is about.
#[derive(Debug)]
pub enum Incoming {
    Call { request: ApiRequest },
    Finalizers { namespace: String, name: String, operations: Vec<PatchOperation> },
}

/// What an `Incoming` holds.
#[verifier::ext_equal]
pub enum IncomingView {
    Call { request: ApiRequestView },
    Finalizers { namespace: Seq<char>, name: Seq<char>, operations: Seq<PatchOperationView> },
}

impl DeepView for Incoming {
    type V = IncomingView;

    open spec fn deep_view(&self) -> IncomingView {
        match self {
            Incoming::Call { request } => IncomingView::Call { request: request.deep_view() },
            Incoming::Finalizers { namespace, name, operations } => IncomingView::Finalizers {
                namespace: namespace@,
                name: name@,
                operations: operations.deep_view(),
            },
        }
    }
}

impl PatchOperationView {
    /// The operation adds the list of finalizers.
    pub open spec fn adds_finalizers(self) -> bool {
        self.op == "add"@ && self.path == "/metadata/finalizers"@
    }
}

/// Some operation adds the list of finalizers.
pub open spec fn add_finalizers(operations: Seq<PatchOperationView>) -> bool {
    exists|i: int| 0 <= i < operations.len() && (#[trigger] operations[i]).adds_finalizers()
}

/// Whether some operation adds the list of finalizers.
pub fn finalizers_added(operations: &Vec<PatchOperation>) -> (r: bool)
    ensures
        r == add_finalizers(operations.deep_view()),
{
    let ghost view = operations.deep_view();
    let mut i: usize = 0;
    while i < operations.len()
        invariant
            i <= operations@.len(),
            view == operations.deep_view(),
            forall|j: int| 0 <= j < i ==> !(#[trigger] view[j]).adds_finalizers(),
        decreases operations@.len() - i,
    {
        let operation = &operations[i];
        assert(view[i as int] == operation.deep_view());
        if same_text(operation.op.as_str(), "add") && same_text(
            operation.path.as_str(),
            "/metadata/finalizers",
        ) {
            assert(view[i as int].adds_finalizers());
            return true;
        }
        i += 1;
    }
    false
}

/// The value of the first header of a name.
pub open spec fn first_header(headers: Seq<HeaderView>, name: Seq<char>) -> Option<Seq<char>>
    decreases headers.len(),
{
    if headers.len() == 0 {
        None
    } else if headers[0].name == name {
        Some(headers[0].value)
    } else {
        first_header(headers.drop_first(), name)
    }
}

proof fn lemma_first_header(headers: Seq<HeaderView>, name: Seq<char>, at: int)
    requires
        0 <= at <= headers.len(),
        forall|j: int| 0 <= j < at ==> (#[trigger] headers[j]).name != name,
    ensures
        at < headers.len() && headers[at].name == name ==> first_header(headers, name) == Some(
            headers[at].value,
        ),
        at == headers.len() ==> first_header(headers, name) is None,
    decreases headers.len(),
{
    if at > 0 {
        let rest = headers.drop_first();
        assert forall|j: int| 0 <= j < at - 1 implies (#[trigger] rest[j]).name != name by {
            assert(rest[j] == headers[j + 1]);
        }
        lemma_first_header(rest, name, at - 1);
    }
}

/// The value of the first header of a name, or the empty text.
pub fn header_or_empty(headers: &Vec<Header>, name: &str) -> (r: String)
    ensures
        r@ == text::text_or(first_header(headers.deep_view(), name@), seq![]),
{
    let ghost view = headers.deep_view();
    let mut i: usize = 0;
    while i < headers.len()
        invariant
            i <= headers@.len(),
            view == headers.deep_view(),
            forall|j: int| 0 <= j < i ==> (#[trigger] view[j]).name != name@,
        decreases headers@.len() - i,
    {
        assert(view[i as int] == headers@[i as int].deep_view());
        if same_text(headers[i].name.as_str(), name) {
            proof {
                lemma_first_header(view, name@, i as int);
            }
            return headers[i].value.clone();
        }
        i += 1;
    }
    proof {
        lemma_first_header(view, name@, view.len() as int);
    }
    String::new()
}

/// A request posts to a path, whatever the query behind it.
pub open spec fn posts_to(request: HttpRequestView, path: Seq<char>) -> bool {
    request.method == "POST"@ && text::pieces(request.uri, '?')[0] == path
}

/// Whether a request posts to a path, whatever the query behind it.
pub fn is_post_to(request: &HttpRequest, path: &str) -> (r: bool)
    ensures
        r == posts_to(request.deep_view(), path@),
{
    let parts = split_text(request.uri.as_str(), '?');
    proof {
        text::law_pieces_of_every_text(request.uri@, '?');
        assert(parts.deep_view()[0] == parts@[0]@);
    }
    same_text(request.method.as_str(), "POST") && same_text(parts[0].as_str(), path)
}

/// A request says that its body is plain text.
pub open spec fn says_plain_text(request: HttpRequestView) -> bool {
    text::text_or(first_header(request.headers, "content-type"@), seq![]) == "text/plain"@
}

/// Whether a request says that its body is plain text.
pub fn is_plain_text(request: &HttpRequest) -> (r: bool)
    ensures
        r == says_plain_text(request.deep_view()),
{
    let value = header_or_empty(&request.headers, "content-type");
    same_text(value.as_str(), "text/plain")
}

/// The text of the body of a request, where it is text.
pub open spec fn body_text(request: HttpRequestView) -> Option<Seq<char>> {
    if vstd::utf8::valid_utf8(request.body) {
        Some(vstd::utf8::decode_utf8(request.body))
    } else {
        None
    }
}

/// Reads the body of a request as text.
pub fn read_body(request: &HttpRequest) -> (r: Option<String>)
    ensures
        r.deep_view() == body_text(request.deep_view()),
{
    utf8_text(&request.body)
}

/// The data of a secret with the root credentials: name and password are
/// `root`.
pub open spec fn root_data() -> Map<Seq<char>, Seq<u8>> {
    Map::<Seq<char>, Seq<u8>>::empty().insert(
        "user"@,
        vstd::utf8::encode_utf8("root"@),
    ).insert("password"@, vstd::utf8::encode_utf8("root"@))
}

/// Makes the data of a secret with the root credentials.
pub fn make_root_data() -> (r: TextMap<Vec<u8>>)
    ensures
        r.deep_view() == root_data(),
{
    let user = "root".as_bytes_vec();
    let password = "root".as_bytes_vec();
    assert(user.deep_view() =~= user@);
    assert(password.deep_view() =~= password@);
    TextMap::new().with("user", user).with("password", password)
}

/// A request that carries a statement to a cluster with plain names is a post
/// of plain text to the endpoint of the cluster, and its body is the statement.
pub proof fn law_statements_arrive(
    ns: Seq<char>,
    name: Seq<char>,
    auth: Option<(Seq<char>, Seq<char>)>,
    statement: Seq<char>,
)
    requires
        sql::plain_names(ns, name),
    ensures
        ({
            let request = sql::sql_request_to(sql::sql_path(ns, name), auth, statement);
            &&& posts_to(request, sql::sql_path(ns, name))
            &&& says_plain_text(request)
            &&& body_text(request) == Some(statement)
        }),
{
    let path = sql::sql_path(ns, name);
    let request = sql::sql_request_to(path, auth, statement);
    sql::law_plain_names_make_a_plain_path(ns, name);
    assert(!path.contains('?')) by {
        assert forall|i: int| 0 <= i < path.len() implies path[i] != '?' by {
            assert(outside::path_char(path[i]));
        }
    }
    text::law_text_without_marks_is_one_piece(path, '?');
    reveal_strlit("accept");
    reveal_strlit("content-type");
    assert("accept"@.len() != "content-type"@.len());
    let rest = request.headers.drop_first();
    assert(rest[0] == request.headers[1]);
    assert(first_header(rest, "content-type"@) == Some("text/plain"@));
    assert(first_header(request.headers, "content-type"@) == Some("text/plain"@));
    vstd::utf8::encode_utf8_valid_utf8(statement);
    vstd::utf8::encode_utf8_decode_utf8(statement);
}

/// A request posts to a path also where a query follows. By another method, or
/// to another path, it does not.
pub proof fn law_queries_do_not_matter(
    request: HttpRequestView,
    path: Seq<char>,
    query: Seq<char>,
)
    requires
        !path.contains('?'),
    ensures
        request.uri == path ==> (posts_to(request, path) <==> request.method == "POST"@),
        request.uri == path + seq!['?'] + query && !query.contains('?') ==> (posts_to(
            request,
            path,
        ) <==> request.method == "POST"@),
        posts_to(request, path) ==> request.method == "POST"@ && text::part_at(
            request.uri,
            path,
            0,
        ) && (request.uri.len() == path.len() || request.uri[path.len() as int] == '?'),
{
    if request.uri == path {
        text::law_text_without_marks_is_one_piece(path, '?');
    }
    if request.uri == path + seq!['?'] + query && !query.contains('?') {
        let parts = seq![path, query];
        assert forall|i: int| 0 <= i < parts.len() implies !(#[trigger] parts[i]).contains('?') by {
        }
        text::law_splitting_undoes_joining(parts, '?');
        assert(parts.drop_last() =~= seq![path]);
        assert(seq![path].drop_last() =~= seq![]);
        reveal_with_fuel(text::rejoined, 3);
        assert(text::rejoined(parts, '?') =~= path + seq!['?'] + query);
    }
    if posts_to(request, path) {
        text::law_pieces_of_every_text(request.uri, '?');
        text::law_pieces_make_up_the_text(request.uri, '?');
        text::law_joined_text_starts_with_its_first_part(text::pieces(request.uri, '?'), '?');
    }
}

/// The first header of a name counts, and no other.
pub proof fn law_first_header_counts(headers: Seq<HeaderView>, name: Seq<char>, at: int)
    requires
        0 <= at <= headers.len(),
        forall|j: int| 0 <= j < at ==> (#[trigger] headers[j]).name != name,
    ensures
        at < headers.len() && headers[at].name == name ==> first_header(headers, name) == Some(
            headers[at].value,
        ),
        at == headers.len() ==> first_header(headers, name) is None,
{
    lemma_first_header(headers, name, at);
}

/// A body is plain text if its first content type says so.
pub proof fn law_what_plain_text_is(request: HttpRequestView)
    ensures
        says_plain_text(request) ==> exists|i: int|
            0 <= i < request.headers.len() && (#[trigger] request.headers[i]).name
                == "content-type"@ && request.headers[i].value == "text/plain"@,
    decreases request.headers.len(),
{
    reveal_strlit("text/plain");
    assert("text/plain"@.len() > 0);
    if request.headers.len() > 0 && request.headers[0].name != "content-type"@ {
        let rest = HttpRequestView { headers: request.headers.drop_first(), ..request };
        law_what_plain_text_is(rest);
        if says_plain_text(rest) {
            let i = choose|i: int|
                0 <= i < rest.headers.len() && (#[trigger] rest.headers[i]).name
                    == "content-type"@ && rest.headers[i].value == "text/plain"@;
            assert(request.headers[i + 1] == rest.headers[i]);
        }
    }
}

/// Finalizers are added by an operation that says so.
pub proof fn law_how_finalizers_are_added(operations: Seq<PatchOperationView>)
    ensures
        add_finalizers(operations) <==> exists|i: int|
            0 <= i < operations.len() && (#[trigger] operations[i]).op == "add"@
                && operations[i].path == "/metadata/finalizers"@,
{
    if exists|i: int|
        0 <= i < operations.len() && (#[trigger] operations[i]).op == "add"@ && operations[i].path
            == "/metadata/finalizers"@ {
        let i = choose|i: int|
            0 <= i < operations.len() && (#[trigger] operations[i]).op == "add"@
                && operations[i].path == "/metadata/finalizers"@;
        assert(operations[i].adds_finalizers());
    }
    if add_finalizers(operations) {
        let i = choose|i: int|
            0 <= i < operations.len() && (#[trigger] operations[i]).adds_finalizers();
        assert(operations[i].op == "add"@);
    }
}

/// The data of a secret of a stand-in reads as the name and the password `root`.
pub proof fn law_root_is_root()
    ensures
        sql::credentials_in(Some(root_data())) == Some(("root"@, "root"@)),
        root_data().dom() == set!["user"@, "password"@],
{
    sql::law_secrets_read_back("root"@, "root"@);
    assert(root_data().dom() =~= set!["user"@, "password"@]);
}

/// An answer over HTTP.
#[derive(Debug)]
pub struct HttpResponse {
    pub status: u16,
    pub body: String,
}

/// The view of a `PatchValue` shows all that it holds.
pub proof fn law_view_shows_patch_value(x: &PatchValue)
    ensures
        match x {
            PatchValue::Absent => x.deep_view() == (PatchValueView::Absent),
            PatchValue::Null => x.deep_view() == (PatchValueView::Null),
            PatchValue::Text { text } => x.deep_view() == (PatchValueView::Text { text: text@ }),
            PatchValue::Texts { texts } => x.deep_view() == (
            PatchValueView::Texts { texts: texts.deep_view() }),
        },
{
}

/// The view of a `PatchOperation` shows all that it holds.
pub proof fn law_view_shows_patch_operation(x: PatchOperation)
    ensures
        x.deep_view().op == x.op@,
        x.deep_view().path == x.path@,
        x.deep_view().value == x.value.deep_view(),
{
}

/// The view of an `Incoming` shows all that it holds.
pub proof fn law_view_shows_incoming(x: &Incoming)
    ensures
        match x {
            Incoming::Call { request } => x.deep_view() == (
            IncomingView::Call { request: request.deep_view() }),
            Incoming::Finalizers { namespace, name, operations } => x.deep_view() == (
            IncomingView::Finalizers {
                namespace: namespace@,
                name: name@,
                operations: operations.deep_view(),
            }),
        },
{
}

} // verus!
