//! Errors of the controllers and of the services they talk to.
use crate::outside::{self, debug_text, lowercased};
use crate::text::{joined, joined3};
use vstd::prelude::*;

verus! {

/// An error of another crate: how it displays and how it prints for
/// debugging.
#[derive(Clone, Debug)]
pub struct SourceError {
    pub display: String,
    pub debug: String,
}

/// What a `SourceError` holds.
pub struct SourceErrorView {
    pub display: Seq<char>,
    pub debug: Seq<char>,
}

impl DeepView for SourceError {
    type V = SourceErrorView;

    open spec fn deep_view(&self) -> SourceErrorView {
        SourceErrorView { display: self.display@, debug: self.debug@ }
    }
}

/// A failed call to the Kubernetes API. There is a code where the API server
/// itself refused the call.
#[derive(Clone, Debug)]
pub struct KubeError {
    pub code: Option<u16>,
    pub source: SourceError,
}

/// What a `KubeError` holds.
pub struct KubeErrorView {
    pub code: Option<u16>,
    pub source: SourceErrorView,
}

impl DeepView for KubeError {
    type V = KubeErrorView;

    open spec fn deep_view(&self) -> KubeErrorView {
        KubeErrorView { code: self.code, source: self.source.deep_view() }
    }
}

impl KubeErrorView {
    /// The API server refused to create an object that is already there.
    pub open spec fn already_exists(self) -> bool {
        self.code == Some(409u16)
    }

    /// The API server has no such object.
    pub open spec fn not_found(self) -> bool {
        self.code == Some(404u16)
    }
}

impl KubeError {
    /// Whether the API server refused to create an object that is already
    /// there.
    pub fn already_exists(&self) -> (r: bool)
        ensures
            r == self.deep_view().already_exists(),
    {
        match self.code {
            Some(code) => code == 409,
            None => false,
        }
    }

    /// Whether the API server has no such object.
    pub fn not_found(&self) -> (r: bool)
        ensures
            r == self.deep_view().not_found(),
    {
        match self.code {
            Some(code) => code == 404,
            None => false,
        }
    }
}

/// What can go wrong in a controller.
#[derive(Clone, Debug)]
pub enum Error {
    SerializationError(SourceError),
    KubeError(KubeError),
    StdError(SourceError),
    HTTPError(SourceError),
    RetryableKubeError(KubeError),
    FinalizerError(SourceError),
    MissingRootCredentials,
    ReqwestError(SourceError),
    URLParseError(SourceError),
    ServiceRequestError(String),
}

/// What an `Error` holds.
pub enum ErrorView {
    SerializationError(SourceErrorView),
    KubeError(KubeErrorView),
    StdError(SourceErrorView),
    HTTPError(SourceErrorView),
    RetryableKubeError(KubeErrorView),
    FinalizerError(SourceErrorView),
    MissingRootCredentials,
    ReqwestError(SourceErrorView),
    URLParseError(SourceErrorView),
    ServiceRequestError(Seq<char>),
}

impl DeepView for Error {
    type V = ErrorView;

    open spec fn deep_view(&self) -> ErrorView {
        match self {
            Error::SerializationError(e) => ErrorView::SerializationError(e.deep_view()),
            Error::KubeError(e) => ErrorView::KubeError(e.deep_view()),
            Error::StdError(e) => ErrorView::StdError(e.deep_view()),
            Error::HTTPError(e) => ErrorView::HTTPError(e.deep_view()),
            Error::RetryableKubeError(e) => ErrorView::RetryableKubeError(e.deep_view()),
            Error::FinalizerError(e) => ErrorView::FinalizerError(e.deep_view()),
            Error::MissingRootCredentials => ErrorView::MissingRootCredentials,
            Error::ReqwestError(e) => ErrorView::ReqwestError(e.deep_view()),
            Error::URLParseError(e) => ErrorView::URLParseError(e.deep_view()),
            Error::ServiceRequestError(text) => ErrorView::ServiceRequestError(text@),
        }
    }
}

impl ErrorView {
    /// How the error displays.
    pub open spec fn message(self) -> Seq<char> {
        match self {
            ErrorView::SerializationError(e) => "SerializationError: "@ + e.display,
            ErrorView::KubeError(e) => "Kube Error: "@ + e.source.display,
            ErrorView::StdError(e) => "Unknown error: "@ + e.display,
            ErrorView::HTTPError(e) => "HTTP Error: "@ + e.display,
            ErrorView::RetryableKubeError(e) => "Retryable Kube Error: "@ + e.source.display,
            ErrorView::FinalizerError(e) => "Finalizer Error: "@ + e.display,
            ErrorView::MissingRootCredentials => "MissingRootCredentials"@,
            ErrorView::ReqwestError(e) => "Reqwest Error: "@ + e.display,
            ErrorView::URLParseError(e) => "URL Parse Error: "@ + e.display,
            ErrorView::ServiceRequestError(text) => "Service Request Error: "@ + text,
        }
    }

    /// How the error prints for debugging: its kind, with the error that it
    /// comes from between brackets.
    pub open spec fn debug(self) -> Seq<char> {
        match self {
            ErrorView::SerializationError(e) => "SerializationError("@ + e.debug + ")"@,
            ErrorView::KubeError(e) => "KubeError("@ + e.source.debug + ")"@,
            ErrorView::StdError(e) => "StdError("@ + e.debug + ")"@,
            ErrorView::HTTPError(e) => "HTTPError("@ + e.debug + ")"@,
            ErrorView::RetryableKubeError(e) => "RetryableKubeError("@ + e.source.debug + ")"@,
            ErrorView::FinalizerError(e) => "FinalizerError("@ + e.debug + ")"@,
            ErrorView::MissingRootCredentials => "MissingRootCredentials"@,
            ErrorView::ReqwestError(e) => "ReqwestError("@ + e.debug + ")"@,
            ErrorView::URLParseError(e) => "URLParseError("@ + e.debug + ")"@,
            ErrorView::ServiceRequestError(text) => "ServiceRequestError("@ + outside::text_debug(
                text,
            ) + ")"@,
        }
    }
}

impl Error {
    /// How the error displays.
    pub fn message(&self) -> (r: String)
        ensures
            r@ == self.deep_view().message(),
    {
        match self {
            Error::SerializationError(e) => joined("SerializationError: ", e.display.as_str()),
            Error::KubeError(e) => joined("Kube Error: ", e.source.display.as_str()),
            Error::StdError(e) => joined("Unknown error: ", e.display.as_str()),
            Error::HTTPError(e) => joined("HTTP Error: ", e.display.as_str()),
            Error::RetryableKubeError(e) => joined(
                "Retryable Kube Error: ",
                e.source.display.as_str(),
            ),
            Error::FinalizerError(e) => joined("Finalizer Error: ", e.display.as_str()),
            Error::MissingRootCredentials => "MissingRootCredentials".to_string(),
            Error::ReqwestError(e) => joined("Reqwest Error: ", e.display.as_str()),
            Error::URLParseError(e) => joined("URL Parse Error: ", e.display.as_str()),
            Error::ServiceRequestError(text) => joined("Service Request Error: ", text.as_str()),
        }
    }

    /// How the error prints for debugging.
    pub fn debug(&self) -> (r: String)
        ensures
            r@ == self.deep_view().debug(),
    {
        match self {
            Error::SerializationError(e) => joined3("SerializationError(", e.debug.as_str(), ")"),
            Error::KubeError(e) => joined3("KubeError(", e.source.debug.as_str(), ")"),
            Error::StdError(e) => joined3("StdError(", e.debug.as_str(), ")"),
            Error::HTTPError(e) => joined3("HTTPError(", e.debug.as_str(), ")"),
            Error::RetryableKubeError(e) => joined3(
                "RetryableKubeError(",
                e.source.debug.as_str(),
                ")",
            ),
            Error::FinalizerError(e) => joined3("FinalizerError(", e.debug.as_str(), ")"),
            Error::MissingRootCredentials => "MissingRootCredentials".to_string(),
            Error::ReqwestError(e) => joined3("ReqwestError(", e.debug.as_str(), ")"),
            Error::URLParseError(e) => joined3("URLParseError(", e.debug.as_str(), ")"),
            Error::ServiceRequestError(text) => {
                let inner = debug_text(text.as_str());
                joined3("ServiceRequestError(", inner.as_str(), ")")
            },
        }
    }

    /// The label under which failures of this kind are counted: the debug
    /// text in lower case.
    pub fn metric_label(&self) -> (r: String)
        ensures
            r@ == outside::lowercase(self.deep_view().debug()),
    {
        let text = self.debug();
        lowercased(text.as_str())
    }
}

/// The view of a `SourceError` shows all that it holds.
pub proof fn law_view_shows_source_error(x: SourceError)
    ensures
        x.deep_view().display == x.display@,
        x.deep_view().debug == x.debug@,
{
}

/// The view of a `KubeError` shows all that it holds.
pub proof fn law_view_shows_kube_error(x: KubeError)
    ensures
        x.deep_view().code == x.code,
        x.deep_view().source == x.source.deep_view(),
{
}

/// The view of an `Error` shows all that it holds.
pub proof fn law_view_shows_error(x: &Error)
    ensures
        match x {
            Error::SerializationError(e) => x.deep_view() == (
            ErrorView::SerializationError(e.deep_view())),
            Error::KubeError(e) => x.deep_view() == (ErrorView::KubeError(e.deep_view())),
            Error::StdError(e) => x.deep_view() == (ErrorView::StdError(e.deep_view())),
            Error::HTTPError(e) => x.deep_view() == (ErrorView::HTTPError(e.deep_view())),
            Error::RetryableKubeError(e) => x.deep_view() == (
            ErrorView::RetryableKubeError(e.deep_view())),
            Error::FinalizerError(e) => x.deep_view() == (ErrorView::FinalizerError(e.deep_view())),
            Error::MissingRootCredentials => x.deep_view() == (ErrorView::MissingRootCredentials),
            Error::ReqwestError(e) => x.deep_view() == (ErrorView::ReqwestError(e.deep_view())),
            Error::URLParseError(e) => x.deep_view() == (ErrorView::URLParseError(e.deep_view())),
            Error::ServiceRequestError(text) => x.deep_view() == (
            ErrorView::ServiceRequestError(text@)),
        },
{
}

} // verus!
