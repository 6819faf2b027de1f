//! A client that posts to services inside a Kubernetes cluster: through the
//! proxy of the API server where there is one to talk to, and directly
//! otherwise.
use crate::error::{Error, ErrorView, KubeError, SourceError, SourceErrorView};
use crate::objects::{Header, HeaderView, HttpRequest, HttpRequestView};
use crate::outside::{self, parse_url, post_target, request_uri, PostTarget, UrlParts};
use crate::text::{self, decimal, joined, joined3, split_text};
use vstd::prelude::*;

verus! {

/// A request that is being put together.
#[derive(Debug)]
pub enum Builder {
    /// For the API server: the target as it was written down.
    Kube { target: String, headers: Vec<Header> },
    /// For the service itself: the target, or why it cannot be one.
    Reqwest { target: Result<PostTarget, SourceError>, headers: Vec<Header> },
}

/// What a `Builder` holds.
#[verifier::ext_equal]
pub enum BuilderView {
    Kube { target: Seq<char>, headers: Seq<HeaderView> },
    Reqwest {
        target: Result<(Seq<char>, Option<Seq<char>>), SourceErrorView>,
        headers: Seq<HeaderView>,
    },
}

impl DeepView for Builder {
    type V = BuilderView;

    open spec fn deep_view(&self) -> BuilderView {
        match self {
            Builder::Kube { target, headers } => BuilderView::Kube {
                target: target@,
                headers: headers.deep_view(),
            },
            Builder::Reqwest { target, headers } => BuilderView::Reqwest {
                target: match target {
                    Ok(t) => Ok((t.url@, t.authorization.deep_view())),
                    Err(e) => Err(e.deep_view()),
                },
                headers: headers.deep_view(),
            },
        }
    }
}

/// A request that is ready to be sent.
#[derive(Debug)]
pub enum Request {
    Kube(HttpRequest),
    Reqwest(HttpRequest),
}

/// What a `Request` holds.
#[verifier::ext_equal]
pub enum RequestView {
    Kube(HttpRequestView),
    Reqwest(HttpRequestView),
}

impl DeepView for Request {
    type V = RequestView;

    open spec fn deep_view(&self) -> RequestView {
        match self {
            Request::Kube(request) => RequestView::Kube(request.deep_view()),
            Request::Reqwest(request) => RequestView::Reqwest(request.deep_view()),
        }
    }
}

impl BuilderView {
    /// The request with one more header.
    pub open spec fn with_header(self, header: HeaderView) -> BuilderView {
        match self {
            BuilderView::Kube { target, headers } => BuilderView::Kube {
                target,
                headers: headers.push(header),
            },
            BuilderView::Reqwest { target, headers } => BuilderView::Reqwest {
                target,
                headers: headers.push(header),
            },
        }
    }

    /// The request with a body, or why there can be none.
    pub open spec fn finished(self, body: Seq<u8>) -> Result<RequestView, ErrorView> {
        match self {
            BuilderView::Kube { target, headers } => match outside::built_uri(target) {
                Ok(uri) => Ok(
                    RequestView::Kube(HttpRequestView { method: "POST"@, uri, headers, body }),
                ),
                Err((display, debug)) => Err(
                    ErrorView::HTTPError(SourceErrorView { display, debug }),
                ),
            },
            BuilderView::Reqwest { target, headers } => match target {
                Ok((uri, authorization)) => Ok(
                    RequestView::Reqwest(
                        HttpRequestView {
                            method: "POST"@,
                            uri,
                            headers: authorization_header(authorization) + headers,
                            body,
                        },
                    ),
                ),
                Err(e) => Err(ErrorView::ReqwestError(e)),
            },
        }
    }
}

/// The header for credentials that stood in a URL.
pub open spec fn authorization_header(authorization: Option<Seq<char>>) -> Seq<HeaderView> {
    match authorization {
        Some(value) => seq![HeaderView { name: "authorization"@, value }],
        None => seq![],
    }
}

impl Builder {
    /// Adds a header.
    pub fn header(self, key: &str, value: &str) -> (r: Builder)
        ensures
            r.deep_view() == self.deep_view().with_header(HeaderView { name: key@, value: value@ }),
    {
        let header = Header { name: key.to_string(), value: value.to_string() };
        match self {
            Builder::Kube { target, headers } => {
                let ghost before = headers.deep_view();
                let mut all = headers;
                all.push(header);
                assert(all.deep_view() =~= before.push(HeaderView { name: key@, value: value@ }));
                Builder::Kube { target, headers: all }
            },
            Builder::Reqwest { target, headers } => {
                let ghost before = headers.deep_view();
                let mut all = headers;
                all.push(header);
                assert(all.deep_view() =~= before.push(HeaderView { name: key@, value: value@ }));
                Builder::Reqwest { target, headers: all }
            },
        }
    }

    /// Finishes the request with a body.
    pub fn body(self, body: Vec<u8>) -> (r: Result<Request, Error>)
        ensures
            match r {
                Ok(request) => self.deep_view().finished(body@) == Ok::<_, ErrorView>(
                    request.deep_view(),
                ),
                Err(e) => self.deep_view().finished(body@) == Err::<RequestView, _>(
                    e.deep_view(),
                ),
            },
    {
        match self {
            Builder::Kube { target, headers } => match request_uri(target.as_str()) {
                Ok(uri) => Ok(
                    Request::Kube(HttpRequest { method: "POST".to_string(), uri, headers, body }),
                ),
                Err(e) => Err(Error::HTTPError(e)),
            },
            Builder::Reqwest { target, headers } => match target {
                Ok(target) => {
                    let ghost given = headers.deep_view();
                    let ghost authorization = authorization_header(
                        target.authorization.deep_view(),
                    );
                    let mut headers = headers;
                    match target.authorization {
                        Some(value) => {
                            headers.insert(
                                0,
                                Header { name: "authorization".to_string(), value },
                            );
                        },
                        None => {},
                    }
                    assert(headers.deep_view() =~= authorization + given);
                    Ok(
                        Request::Reqwest(
                            HttpRequest {
                                method: "POST".to_string(),
                                uri: target.url,
                                headers,
                                body,
                            },
                        ),
                    )
                },
                Err(e) => Err(Error::ReqwestError(e)),
            },
        }
    }
}

/// The target below the API server of a path of a service, given host, port
/// and path of its URL: the host names service and namespace, and goes on
/// beyond them by at least three more labels.
pub open spec fn proxy_target(
    host: Option<Seq<char>>,
    port: Option<u16>,
    path: Seq<char>,
) -> Result<Seq<char>, ErrorView> {
    match host {
        None => Err(ErrorView::ServiceRequestError("missing host in url"@)),
        Some(host) => {
            let labels = text::pieces(host, '.');
            if labels.len() > 4 && port is Some {
                Ok(
                    "/api/v1/namespaces/"@ + labels[1] + "/services/"@ + labels[0] + ":"@
                        + text::decimal_text(port->0 as nat) + "/proxy"@ + path,
                )
            } else {
                Err(
                    ErrorView::ServiceRequestError(
                        host
                            + " is not valid host, expected <svc>.<ns>.svc.<any-cluster-domain>:<port>"@,
                    ),
                )
            }
        },
    }
}

/// The target below the API server of a URL of a service.
pub open spec fn proxy_target_of(url: Seq<char>) -> Result<Seq<char>, ErrorView> {
    match outside::parsed_url(url) {
        Ok((host, port, path)) => proxy_target(host, port, path),
        Err((display, debug)) => Err(
            ErrorView::URLParseError(SourceErrorView { display, debug }),
        ),
    }
}

/// Finds the target below the API server of a path of a service.
pub fn find_proxy_target(parts: &UrlParts) -> (r: Result<String, Error>)
    ensures
        match r {
            Ok(target) => proxy_target(parts.host.deep_view(), parts.port, parts.path@) == Ok::<
                _,
                ErrorView,
            >(target@),
            Err(e) => proxy_target(parts.host.deep_view(), parts.port, parts.path@) == Err::<
                Seq<char>,
                _,
            >(e.deep_view()),
        },
{
    match &parts.host {
        None => Err(Error::ServiceRequestError("missing host in url".to_string())),
        Some(host) => {
            let labels = split_text(host.as_str(), '.');
            match parts.port {
                Some(port) if labels.len() > 4 => {
                    assert(labels.deep_view()[0] == labels@[0]@);
                    assert(labels.deep_view()[1] == labels@[1]@);
                    let number = decimal(port);
                    let mut target = joined3(
                        "/api/v1/namespaces/",
                        labels[1].as_str(),
                        "/services/",
                    );
                    target.append(labels[0].as_str());
                    target.append(":");
                    target.append(number.as_str());
                    target.append("/proxy");
                    target.append(parts.path.as_str());
                    Ok(target)
                },
                _ => Err(
                    Error::ServiceRequestError(
                        joined(
                            host.as_str(),
                            " is not valid host, expected <svc>.<ns>.svc.<any-cluster-domain>:<port>",
                        ),
                    ),
                ),
            }
        },
    }
}

/// The way in which a client posts to services.
#[derive(Clone, Copy, Debug, PartialEq, Eq, Structural)]
pub enum Client {
    /// Through the API server.
    Kube,
    /// Directly.
    Reqwest,
}

impl Client {
    /// A client that posts through the API server.
    pub fn new() -> (r: Client)
        ensures
            r == Client::Kube,
    {
        Client::Kube
    }

    /// The client for what was found of a configuration for Kubernetes:
    /// nothing, or one that a connection could or could not be made of.
    pub fn try_default(configured: Option<Result<(), KubeError>>) -> (r: Result<Client, Error>)
        ensures
            match configured {
                Some(Ok(_)) => r == Ok::<_, Error>(Client::Kube),
                Some(Err(e)) => r == Err::<Client, _>(Error::KubeError(e)),
                None => r == Ok::<_, Error>(Client::Reqwest),
            },
    {
        match configured {
            Some(Ok(_)) => Ok(Client::Kube),
            Some(Err(e)) => Err(Error::KubeError(e)),
            None => Ok(Client::Reqwest),
        }
    }

    /// What a request to a URL starts out as.
    pub open spec fn posted(self, url: Seq<char>) -> Result<BuilderView, ErrorView> {
        match self {
            Client::Kube => match proxy_target_of(url) {
                Ok(target) => Ok(BuilderView::Kube { target, headers: seq![] }),
                Err(e) => Err(e),
            },
            Client::Reqwest => Ok(
                BuilderView::Reqwest {
                    target: match outside::posted_url(url) {
                        Ok(target) => Ok(target),
                        Err((display, debug)) => Err(SourceErrorView { display, debug }),
                    },
                    headers: seq![],
                },
            ),
        }
    }

    /// Starts a request to a URL.
    pub fn post(&self, url: &str) -> (r: Result<Builder, Error>)
        ensures
            match r {
                Ok(builder) => self.posted(url@) == Ok::<_, ErrorView>(builder.deep_view()),
                Err(e) => self.posted(url@) == Err::<BuilderView, _>(e.deep_view()),
            },
    {
        let headers: Vec<Header> = Vec::new();
        assert(headers.deep_view() =~= seq![]);
        match self {
            Client::Kube => match parse_url(url) {
                Ok(parts) => match find_proxy_target(&parts) {
                    Ok(target) => Ok(Builder::Kube { target, headers }),
                    Err(e) => Err(e),
                },
                Err(e) => Err(Error::URLParseError(e)),
            },
            Client::Reqwest => Ok(
                Builder::Reqwest { target: post_target(url), headers },
            ),
        }
    }

    /// Lets a request pass to the client that it was put together for, as it
    /// is.
    pub fn send(&self, request: Request) -> (r: Result<Request, Error>)
        ensures
            (self is Kube <==> request is Kube) ==> r == Ok::<_, Error>(request),
            !(self is Kube <==> request is Kube) ==> r is Err && r->Err_0.deep_view()
                == ErrorView::ServiceRequestError("invalid request type for client"@),
    {
        match (self, &request) {
            (Client::Kube, Request::Kube(_)) => Ok(request),
            (Client::Reqwest, Request::Reqwest(_)) => Ok(request),
            _ => Err(Error::ServiceRequestError("invalid request type for client".to_string())),
        }
    }
}

/// The host `<svc>.<ns>.<...>`, with at least three labels after the namespace,
/// leads to the service in the namespace.
pub proof fn law_host_names_service_and_namespace(
    svc: Seq<char>,
    ns: Seq<char>,
    domain: Seq<Seq<char>>,
    port: u16,
    path: Seq<char>,
)
    requires
        !svc.contains('.'),
        !ns.contains('.'),
        forall|i: int| 0 <= i < domain.len() ==> !(#[trigger] domain[i]).contains('.'),
    ensures
        ({
            let host = text::rejoined(seq![svc, ns] + domain, '.');
            let target = proxy_target(Some(host), Some(port), path);
            &&& domain.len() >= 3 ==> target == Ok::<_, ErrorView>(
                "/api/v1/namespaces/"@ + ns + "/services/"@ + svc + ":"@ + text::decimal_text(
                    port as nat,
                ) + "/proxy"@ + path,
            )
            &&& domain.len() < 3 ==> target is Err
        }),
{
    let labels = seq![svc, ns] + domain;
    assert forall|i: int| 0 <= i < labels.len() implies !(#[trigger] labels[i]).contains('.') by {
        if i >= 2 {
            assert(labels[i] == domain[i - 2]);
        }
    }
    text::law_splitting_undoes_joining(labels, '.');
}

/// Without a host, without a port, or with fewer than five labels in the host,
/// nothing is reached, and the error says why.
pub proof fn law_what_is_not_reached(host: Option<Seq<char>>, port: Option<u16>, path: Seq<char>)
    ensures
        host is None ==> proxy_target(host, port, path) == Err::<Seq<char>, _>(
            ErrorView::ServiceRequestError("missing host in url"@),
        ),
        host is Some && (port is None || text::pieces(host->0, '.').len() < 5) ==> proxy_target(
            host,
            port,
            path,
        ) == Err::<Seq<char>, _>(
            ErrorView::ServiceRequestError(
                host->0
                    + " is not valid host, expected <svc>.<ns>.svc.<any-cluster-domain>:<port>"@,
            ),
        ),
        host is Some && port is Some && text::pieces(host->0, '.').len() >= 5 ==> proxy_target(
            host,
            port,
            path,
        ) is Ok,
{
}

/// Headers are added one after the other, and nothing else changes.
proof fn lemma_headers_pile_up(builder: BuilderView, headers: Seq<HeaderView>)
    ensures
        match (builder, with_headers(builder, headers)) {
            (
                BuilderView::Kube { target: a, headers: h },
                BuilderView::Kube { target: b, headers: all },
            ) => a == b && all == h + headers,
            (
                BuilderView::Reqwest { target: a, headers: h },
                BuilderView::Reqwest { target: b, headers: all },
            ) => a == b && all == h + headers,
            _ => false,
        },
    decreases headers.len(),
{
    let given = match builder {
        BuilderView::Kube { headers, .. } => headers,
        BuilderView::Reqwest { headers, .. } => headers,
    };
    if headers.len() == 0 {
        assert(given + headers =~= given);
    } else {
        lemma_headers_pile_up(builder, headers.drop_last());
        assert((given + headers.drop_last()).push(headers.last()) =~= given + headers);
    }
}

/// A request through the API server goes by POST to the target that its URL
/// leads to, with the headers and the body that it was given.
pub proof fn law_what_goes_through_the_api_server(
    url: Seq<char>,
    headers: Seq<HeaderView>,
    body: Seq<u8>,
)
    ensures
        match outside::parsed_url(url) {
            Err((display, debug)) => Client::Kube.posted(url) == Err::<BuilderView, _>(
                ErrorView::URLParseError(SourceErrorView { display, debug }),
            ),
            Ok((host, port, path)) => match proxy_target(host, port, path) {
                Err(e) => Client::Kube.posted(url) == Err::<BuilderView, _>(e),
                Ok(target) => {
                    &&& Client::Kube.posted(url) matches Ok(builder)
                    &&& match outside::built_uri(target) {
                        Err((display, debug)) => with_headers(builder, headers).finished(body)
                            == Err::<RequestView, _>(
                            ErrorView::HTTPError(SourceErrorView { display, debug }),
                        ),
                        Ok(uri) => {
                            &&& with_headers(builder, headers).finished(body) matches Ok(
                                RequestView::Kube(request),
                            )
                            &&& request.method == "POST"@
                            &&& request.uri == uri
                            &&& request.headers == headers
                            &&& request.body == body
                        },
                    }
                },
            },
        },
{
    if Client::Kube.posted(url) is Ok {
        lemma_headers_pile_up(Client::Kube.posted(url)->Ok_0, headers);
        assert(seq![] + headers =~= headers);
    }
}

/// A direct request goes by POST to its URL, with the credentials that stood in
/// the URL, and with the headers and the body that it was given.
pub proof fn law_what_goes_directly(url: Seq<char>, headers: Seq<HeaderView>, body: Seq<u8>)
    ensures
        ({
            &&& Client::Reqwest.posted(url) matches Ok(builder)
            &&& match outside::posted_url(url) {
                Err((display, debug)) => with_headers(builder, headers).finished(body) == Err::<
                    RequestView,
                    _,
                >(ErrorView::ReqwestError(SourceErrorView { display, debug })),
                Ok((uri, credentials)) => {
                    &&& with_headers(builder, headers).finished(body) matches Ok(
                        RequestView::Reqwest(request),
                    )
                    &&& request.method == "POST"@
                    &&& request.uri == uri
                    &&& request.body == body
                    &&& credentials is None ==> request.headers == headers
                    &&& credentials matches Some(value) ==> request.headers.drop_first() == headers
                        && request.headers[0].name == "authorization"@ && request.headers[0].value
                        == value
                },
            }
        }),
{
    lemma_headers_pile_up(Client::Reqwest.posted(url)->Ok_0, headers);
    assert(seq![] + headers =~= headers);
    if outside::posted_url(url) is Ok {
        let credentials = outside::posted_url(url)->Ok_0.1;
        let all = authorization_header(credentials) + headers;
        if credentials is Some {
            assert(all.drop_first() =~= headers);
        } else {
            assert(all =~= headers);
        }
    }
}

/// A request is of the kind of the client that it was put together with, so
/// that this client sends it.
pub proof fn law_own_requests_are_sent(
    client: Client,
    url: Seq<char>,
    headers: Seq<HeaderView>,
    body: Seq<u8>,
)
    ensures
        client.posted(url) matches Ok(builder) ==> with_headers(builder, headers).finished(
            body,
        ) matches Ok(request) ==> (client is Kube <==> request is Kube),
{
    if client.posted(url) is Ok {
        lemma_headers_keep_the_kind(client.posted(url)->Ok_0, headers);
    }
}

/// The request with more headers, one after the other.
pub open spec fn with_headers(builder: BuilderView, headers: Seq<HeaderView>) -> BuilderView
    decreases headers.len(),
{
    if headers.len() == 0 {
        builder
    } else {
        with_headers(builder, headers.drop_last()).with_header(headers.last())
    }
}

proof fn lemma_headers_keep_the_kind(builder: BuilderView, headers: Seq<HeaderView>)
    ensures
        with_headers(builder, headers) is Kube <==> builder is Kube,
    decreases headers.len(),
{
    if headers.len() > 0 {
        lemma_headers_keep_the_kind(builder, headers.drop_last());
    }
}

/// The view of a `Builder` shows all that it holds.
pub proof fn law_view_shows_builder(x: &Builder)
    ensures
        match x {
            Builder::Kube { target, headers } => x.deep_view() == (BuilderView::Kube {
                target: target@,
                headers: headers.deep_view(),
            }),
            Builder::Reqwest { target, headers } => x.deep_view() == (BuilderView::Reqwest {
                target: match target {
                    Ok(t) => Ok((t.url@, t.authorization.deep_view())),
                    Err(e) => Err(e.deep_view()),
                },
                headers: headers.deep_view(),
            }),
        },
{
}

/// The view of a `Request` shows all that it holds.
pub proof fn law_view_shows_request(x: &Request)
    ensures
        match x {
            Request::Kube(request) => x.deep_view() == (RequestView::Kube(request.deep_view())),
            Request::Reqwest(request) => x.deep_view() == (
            RequestView::Reqwest(request.deep_view())),
        },
{
}

} // verus!
