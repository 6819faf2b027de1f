use sdb_controller::error::{Error, KubeError, SourceError};
use sdb_controller::generate_secure_password;
use sdb_controller::objects::Header;
use sdb_controller::outside::UrlParts;
use sdb_controller::password::{insert_symbol, random_password};
use sdb_controller::schema::{free_components, Component, Items, FREE_FIELD};
use sdb_controller::service::{find_proxy_target, Builder, Client, Request};
use sdb_controller::sql::{
    basic_auth_header, define_database, define_namespace, define_root_user, define_user,
    proxy_sql_path, read_secret_text, root_credentials, sql_request,
};
use sdb_controller::text::{
    decimal, double_mark, joined, joined3, quote_ident, same_text, split_text, text_ends_with,
    text_holds, text_starts_with, TextMap,
};
use sdb_controller::tidb::{
    TidbClusterDiscoveryLivenessProbeType, TidbClusterDiscoveryReadinessProbeType,
    TidbClusterPdMode, TidbClusterPdReadinessProbeType, TidbClusterPdStartUpScriptVersion,
    TidbClusterPdmsName, TidbClusterPdmsReadinessProbeType, TidbClusterPdmsStartUpScriptVersion,
    TidbClusterPumpReadinessProbeType,
};

fn source() -> SourceError {
    SourceError { display: "It Broke".to_string(), debug: "Broken { At: 7 }".to_string() }
}

fn kube(code: Option<u16>) -> KubeError {
    KubeError { code, source: source() }
}

#[test]
fn errors_display_debug_and_label() {
    let cases = vec![
        (
            Error::SerializationError(source()),
            "SerializationError: It Broke",
            "SerializationError(Broken { At: 7 })",
        ),
        (Error::KubeError(kube(None)), "Kube Error: It Broke", "KubeError(Broken { At: 7 })"),
        (Error::StdError(source()), "Unknown error: It Broke", "StdError(Broken { At: 7 })"),
        (Error::HTTPError(source()), "HTTP Error: It Broke", "HTTPError(Broken { At: 7 })"),
        (
            Error::RetryableKubeError(kube(Some(503))),
            "Retryable Kube Error: It Broke",
            "RetryableKubeError(Broken { At: 7 })",
        ),
        (
            Error::FinalizerError(source()),
            "Finalizer Error: It Broke",
            "FinalizerError(Broken { At: 7 })",
        ),
        (Error::MissingRootCredentials, "MissingRootCredentials", "MissingRootCredentials"),
        (
            Error::ReqwestError(source()),
            "Reqwest Error: It Broke",
            "ReqwestError(Broken { At: 7 })",
        ),
        (
            Error::URLParseError(source()),
            "URL Parse Error: It Broke",
            "URLParseError(Broken { At: 7 })",
        ),
        (
            Error::ServiceRequestError("a \"B\"".to_string()),
            "Service Request Error: a \"B\"",
            "ServiceRequestError(\"a \\\"B\\\"\")",
        ),
    ];
    for (error, message, debug) in cases {
        assert_eq!(error.message(), message);
        assert_eq!(error.debug(), debug);
        assert_eq!(error.metric_label(), debug.to_lowercase());
    }
    assert_eq!(Error::MissingRootCredentials.metric_label(), "missingrootcredentials");
    assert!(kube(Some(409)).already_exists() && !kube(Some(404)).already_exists());
    assert!(kube(Some(404)).not_found() && !kube(None).not_found());
}

#[test]
fn passwords_are_long_and_mixed() {
    let symbols = "!@#$%^&*()-_=+[]{};:,.?~";
    for (asked, given) in [(0, 32), (31, 32), (32, 32), (40, 40)] {
        let password = generate_secure_password(asked);
        assert_eq!(password.chars().count(), given);
        assert_eq!(password.chars().filter(|c| symbols.contains(*c)).count(), 4);
        assert!(password
            .chars()
            .all(|c| symbols.contains(c) || c.is_ascii_alphanumeric()));
        assert!(password.chars().last().unwrap().is_ascii_alphanumeric());
    }
    assert_ne!(generate_secure_password(32), generate_secure_password(32));
    assert_eq!(random_password(1).chars().count(), 5);
    assert_eq!(insert_symbol(vec!['a', 'b'], 1, 0), vec!['a', '!', 'b']);
    assert_eq!(insert_symbol(vec!['a', 'b'], 0, 23), vec!['~', 'a', 'b']);
}

#[test]
fn statements_are_written_as_expected() {
    assert_eq!(
        define_root_user("root", "pw"),
        "DEFINE USER root ON ROOT PASSWORD 'pw' ROLES OWNER;"
    );
    assert_eq!(define_namespace("x"), "DEFINE NAMESPACE `x`;");
    assert_eq!(define_database("n", "d"), "USE NS `n`; DEFINE DATABASE `d`;");
    assert_eq!(
        define_user("n", "d", "u", "p'q"),
        "USE NS `n`; USE DB `d`; DEFINE USER `u` ON DATABASE PASSWORD 'p''q' ROLES EDITOR;"
    );
    assert_eq!(quote_ident("a`; REMOVE NAMESPACE x; `"), "`a``; REMOVE NAMESPACE x; ```");
    assert_eq!(double_mark("''", '\''), "''''");
    assert_eq!(double_mark("", '`'), "");
}

#[test]
fn requests_carry_statements() {
    assert_eq!(
        proxy_sql_path("ns", "db"),
        "/api/v1/namespaces/ns/services/db-surrealdb:8000/proxy/sql"
    );
    assert_eq!(basic_auth_header("root", "root"), "Basic cm9vdDpyb290");
    assert_eq!(basic_auth_header("", ""), "Basic Og==");
    let request = sql_request("ns", "db", Some(("u", "p")), "INFO;").unwrap();
    assert_eq!(request.method, "POST");
    assert_eq!(request.uri, "/api/v1/namespaces/ns/services/db-surrealdb:8000/proxy/sql");
    let headers: Vec<(&str, &str)> =
        request.headers.iter().map(|h| (h.name.as_str(), h.value.as_str())).collect();
    assert_eq!(
        headers,
        vec![
            ("accept", "application/json"),
            ("content-type", "text/plain"),
            ("authorization", "Basic dTpw")
        ]
    );
    assert_eq!(request.body, b"INFO;".to_vec());
    match sql_request("n s", "db", None, "INFO;") {
        Err(Error::HTTPError(e)) => assert_eq!(e.display, "invalid uri character"),
        other => panic!("{other:?}"),
    }
    // A number sign starts what is no part of a target.
    let request = sql_request("ns#", "db", None, "INFO;").unwrap();
    assert_eq!(request.uri, "/api/v1/namespaces/ns");
}

#[test]
fn secrets_are_read_as_text() {
    assert_eq!(read_secret_text(&"café".as_bytes().to_vec()), "café");
    assert_eq!(read_secret_text(&vec![0xff, 0xfe]), "");
    let data = TextMap::new().with("user", b"root".to_vec()).with("password", vec![0xff]);
    assert_eq!(
        root_credentials(&Some(data)),
        Some(("root".to_string(), "".to_string()))
    );
    assert_eq!(root_credentials(&None), None);
    assert_eq!(root_credentials(&Some(TextMap::new())), None);
}

#[test]
fn text_maps_keep_one_value_for_each_key() {
    let map = TextMap::new()
        .with("b", "1".to_string())
        .with("a", "2".to_string())
        .with("b", "3".to_string());
    assert_eq!(map.len(), 2);
    assert_eq!(map.get("b"), Some(&"3".to_string()));
    assert_eq!(map.get("c"), None);
    assert_eq!(map.entry(0), (&"b".to_string(), &"3".to_string()));
    assert_eq!(map.entry(1), (&"a".to_string(), &"2".to_string()));
    assert_eq!(map.clone().get("a"), Some(&"2".to_string()));
}

#[test]
fn texts_are_searched_and_split() {
    assert!(text_holds("DEFINE USER x", "USER") && text_holds("abc", "") && text_holds("", ""));
    assert!(!text_holds("abc", "abcd") && !text_holds("abc", "ca"));
    assert!(text_starts_with("abc", "ab") && !text_starts_with("abc", "bc"));
    assert!(text_ends_with("abc", "bc") && !text_ends_with("abc", "ab"));
    assert!(!text_ends_with("c", "bc"));
    assert_eq!(split_text("a.b..c", '.'), vec!["a", "b", "", "c"]);
    assert_eq!(split_text("", '.'), vec![""]);
    assert_eq!(split_text(".", '.'), vec!["", ""]);
    assert_eq!(joined("a", "b"), "ab");
    assert_eq!(joined3("a", "b", "c"), "abc");
    assert!(same_text("ä", "ä") && !same_text("a", "A"));
    assert_eq!(decimal(0), "0");
    assert_eq!(decimal(8000), "8000");
    assert_eq!(decimal(65535), "65535");
}

fn kube_target(url: &str) -> Result<String, Error> {
    match Client::new().post(url) {
        Ok(Builder::Kube { target, .. }) => Ok(target),
        Ok(other) => panic!("{other:?}"),
        Err(e) => Err(e),
    }
}

#[test]
fn services_are_reached_through_the_api_server() {
    assert_eq!(
        kube_target("http://db.ns.svc.cluster.local:8000/sql?x=1").unwrap(),
        "/api/v1/namespaces/ns/services/db:8000/proxy/sql"
    );
    assert_eq!(
        kube_target("http://db.ns.svc.cluster.local:8000").unwrap(),
        "/api/v1/namespaces/ns/services/db:8000/proxy/"
    );
    let refused = " is not valid host, expected <svc>.<ns>.svc.<any-cluster-domain>:<port>";
    for (url, host) in [
        ("http://db.ns.svc.local:8000/sql", "db.ns.svc.local"),
        ("http://db.ns.svc.cluster.local/sql", "db.ns.svc.cluster.local"),
        ("http://db.ns.svc.cluster.local:80/sql", "db.ns.svc.cluster.local"),
        ("http://db:8000/sql", "db"),
    ] {
        match kube_target(url) {
            Err(Error::ServiceRequestError(text)) => assert_eq!(text, format!("{host}{refused}")),
            other => panic!("{other:?}"),
        }
    }
    match kube_target("mailto:root") {
        Err(Error::ServiceRequestError(text)) => assert_eq!(text, "missing host in url"),
        other => panic!("{other:?}"),
    }
    match kube_target("no url") {
        Err(Error::URLParseError(e)) => assert_eq!(e.display, "relative URL without a base"),
        other => panic!("{other:?}"),
    }
    let parts = UrlParts {
        host: Some("a.b.c.d.e.f".to_string()),
        port: Some(1),
        path: "".to_string(),
    };
    assert_eq!(
        find_proxy_target(&parts).unwrap(),
        "/api/v1/namespaces/b/services/a:1/proxy"
    );
}

fn header_names(headers: &Vec<Header>) -> Vec<&str> {
    headers.iter().map(|h| h.name.as_str()).collect()
}

#[test]
fn requests_to_services_are_put_together() {
    let client = Client::new();
    let request = client
        .post("http://db.ns.svc.cluster.local:8000/sql")
        .unwrap()
        .header("accept", "application/json")
        .header("content-type", "text/plain")
        .body(b"INFO;".to_vec())
        .unwrap();
    match client.send(request).unwrap() {
        Request::Kube(request) => {
            assert_eq!(request.uri, "/api/v1/namespaces/ns/services/db:8000/proxy/sql");
            assert_eq!(request.method, "POST");
            assert_eq!(header_names(&request.headers), vec!["accept", "content-type"]);
            assert_eq!(request.body, b"INFO;".to_vec());
        }
        other => panic!("{other:?}"),
    }
    let direct = Client::Reqwest;
    let request = direct
        .post("http://u:p@db.example:8000/sql")
        .unwrap()
        .header("accept", "application/json")
        .body(b"INFO;".to_vec())
        .unwrap();
    match direct.send(request).unwrap() {
        Request::Reqwest(request) => {
            assert_eq!(request.uri, "http://db.example:8000/sql");
            assert_eq!(header_names(&request.headers), vec!["authorization", "accept"]);
            assert_eq!(request.headers[0].value, "Basic dTpw");
        }
        other => panic!("{other:?}"),
    }
    match direct.post("no url").unwrap().body(vec![]) {
        Err(Error::ReqwestError(e)) => assert_eq!(e.display, "builder error"),
        other => panic!("{other:?}"),
    }
    let request = direct.post("http://db.example/").unwrap().body(vec![]).unwrap();
    match client.send(request) {
        Err(Error::ServiceRequestError(text)) => {
            assert_eq!(text, "invalid request type for client")
        }
        other => panic!("{other:?}"),
    }
    let bad = Builder::Kube { target: "/a b".to_string(), headers: vec![] };
    assert!(matches!(bad.body(vec![]), Err(Error::HTTPError(_))));
}

#[test]
fn clients_go_by_what_is_configured() {
    assert_eq!(Client::try_default(Some(Ok(()))).unwrap(), Client::Kube);
    assert_eq!(Client::try_default(None).unwrap(), Client::Reqwest);
    assert!(matches!(
        Client::try_default(Some(Err(kube(None)))),
        Err(Error::KubeError(_))
    ));
}

#[test]
fn configurations_keep_unknown_fields() {
    let plain = || Component {
        properties: Some(TextMap::new().with("replicas", "{}".to_string())),
        items: Items::Unset,
    };
    let bare = || Component { properties: None, items: Items::Unset };
    let given = TextMap::new()
        .with("pd", plain())
        .with("tikv", bare())
        .with("tiflash", plain())
        .with("pdms", bare())
        .with("helper", plain());
    let freed = free_components(&given);
    assert_eq!(freed.len(), 5);
    let free = FREE_FIELD.to_string();
    let pd = freed.get("pd").unwrap().properties.as_ref().unwrap();
    assert_eq!(pd.get("config"), Some(&free));
    assert_eq!(pd.get("replicas"), Some(&"{}".to_string()));
    let tikv = freed.get("tikv").unwrap().properties.as_ref().unwrap();
    assert_eq!(tikv.get("config"), Some(&free));
    let tiflash = freed.get("tiflash").unwrap().properties.as_ref().unwrap();
    assert_eq!(tiflash.get("config"), Some(&free));
    assert_eq!(tiflash.get("proxy"), Some(&free));
    match &freed.get("pdms").unwrap().items {
        Items::One { properties } => {
            assert_eq!(properties.as_ref().unwrap().get("config"), Some(&free))
        }
        other => panic!("{other:?}"),
    }
    assert!(freed.get("pdms").unwrap().properties.is_none());
    assert_eq!(freed.get("helper").unwrap().properties.as_ref().unwrap().len(), 1);
    let several = Component { properties: None, items: Items::Several };
    let freed = free_components(&TextMap::new().with("pdms", several));
    assert!(matches!(freed.get("pdms").unwrap().items, Items::Several));
    assert_eq!(FREE_FIELD, "{\"x-kubernetes-preserve-unknown-fields\":true}");
}

#[test]
fn choices_have_defaults() {
    assert_eq!(
        TidbClusterDiscoveryLivenessProbeType::default(),
        TidbClusterDiscoveryLivenessProbeType::Tcp
    );
    assert_eq!(
        TidbClusterDiscoveryReadinessProbeType::default(),
        TidbClusterDiscoveryReadinessProbeType::Tcp
    );
    assert_eq!(TidbClusterPdMode::default(), TidbClusterPdMode::KopiumEmpty);
    assert_eq!(
        TidbClusterPdReadinessProbeType::default(),
        TidbClusterPdReadinessProbeType::Tcp
    );
    assert_eq!(
        TidbClusterPdStartUpScriptVersion::default(),
        TidbClusterPdStartUpScriptVersion::KopiumEmpty
    );
    assert_eq!(TidbClusterPdmsName::default(), TidbClusterPdmsName::Tso);
    assert_eq!(
        TidbClusterPdmsReadinessProbeType::default(),
        TidbClusterPdmsReadinessProbeType::Tcp
    );
    assert_eq!(
        TidbClusterPdmsStartUpScriptVersion::default(),
        TidbClusterPdmsStartUpScriptVersion::KopiumEmpty
    );
    assert_eq!(
        TidbClusterPumpReadinessProbeType::default(),
        TidbClusterPumpReadinessProbeType::Tcp
    );
}
