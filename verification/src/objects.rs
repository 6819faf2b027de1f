//! The Kubernetes objects that the controllers read and write, with the fields
//! that they set or look at.
use crate::text::{self, copy_text, TextMap};
use vstd::prelude::*;

verus! {

/// Group and version of the custom resources.
pub const API_VERSION: &'static str = "surrealdb.aexol.com/v1alpha1";

/// A reference to the object that owns another one.
#[derive(Debug)]
pub struct OwnerReference {
    pub api_version: String,
    pub kind: String,
    pub name: String,
    pub uid: String,
    pub controller: Option<bool>,
}

/// What an `OwnerReference` holds.
#[verifier::ext_equal]
pub struct OwnerReferenceView {
    pub api_version: Seq<char>,
    pub kind: Seq<char>,
    pub name: Seq<char>,
    pub uid: Seq<char>,
    pub controller: Option<bool>,
}

impl DeepView for OwnerReference {
    type V = OwnerReferenceView;

    open spec fn deep_view(&self) -> OwnerReferenceView {
        OwnerReferenceView {
            api_version: self.api_version@,
            kind: self.kind@,
            name: self.name@,
            uid: self.uid@,
            controller: self.controller,
        }
    }
}

/// The metadata of an object.
#[derive(Debug)]
pub struct ObjectMeta {
    pub name: Option<String>,
    pub generate_name: Option<String>,
    pub namespace: Option<String>,
    pub uid: Option<String>,
    pub labels: Option<TextMap<String>>,
    pub owner_references: Option<Vec<OwnerReference>>,
    pub finalizers: Option<Vec<String>>,
    pub deletion_timestamp: Option<i64>,
}

/// What an `ObjectMeta` holds.
#[verifier::ext_equal]
pub struct ObjectMetaView {
    pub name: Option<Seq<char>>,
    pub generate_name: Option<Seq<char>>,
    pub namespace: Option<Seq<char>>,
    pub uid: Option<Seq<char>>,
    pub labels: Option<Map<Seq<char>, Seq<char>>>,
    pub owner_references: Option<Seq<OwnerReferenceView>>,
    pub finalizers: Option<Seq<Seq<char>>>,
    pub deletion_timestamp: Option<i64>,
}

impl DeepView for ObjectMeta {
    type V = ObjectMetaView;

    open spec fn deep_view(&self) -> ObjectMetaView {
        ObjectMetaView {
            name: self.name.deep_view(),
            generate_name: self.generate_name.deep_view(),
            namespace: self.namespace.deep_view(),
            uid: self.uid.deep_view(),
            labels: self.labels.deep_view(),
            owner_references: self.owner_references.deep_view(),
            finalizers: self.finalizers.deep_view(),
            deletion_timestamp: self.deletion_timestamp,
        }
    }
}

/// A reference to a secret.
#[derive(Debug)]
pub struct SecretReference {
    pub name: Option<String>,
    pub namespace: Option<String>,
}

/// What a `SecretReference` holds.
#[verifier::ext_equal]
pub struct SecretReferenceView {
    pub name: Option<Seq<char>>,
    pub namespace: Option<Seq<char>>,
}

impl DeepView for SecretReference {
    type V = SecretReferenceView;

    open spec fn deep_view(&self) -> SecretReferenceView {
        SecretReferenceView {
            name: self.name.deep_view(),
            namespace: self.namespace.deep_view(),
        }
    }
}

/// A reference to one key of a secret.
#[derive(Debug)]
pub struct SecretKeySelector {
    pub key: String,
    pub name: String,
    pub optional: Option<bool>,
}

/// What a `SecretKeySelector` holds.
#[verifier::ext_equal]
pub struct SecretKeySelectorView {
    pub key: Seq<char>,
    pub name: Seq<char>,
    pub optional: Option<bool>,
}

impl DeepView for SecretKeySelector {
    type V = SecretKeySelectorView;

    open spec fn deep_view(&self) -> SecretKeySelectorView {
        SecretKeySelectorView {
            key: self.key@,
            name: self.name@,
            optional: self.optional,
        }
    }
}

/// A variable of the environment of a container: a value, or the key of a
/// secret to take it from.
#[derive(Debug)]
pub struct EnvVar {
    pub name: String,
    pub value: Option<String>,
    pub secret_key_ref: Option<SecretKeySelector>,
}

/// What an `EnvVar` holds.
#[verifier::ext_equal]
pub struct EnvVarView {
    pub name: Seq<char>,
    pub value: Option<Seq<char>>,
    pub secret_key_ref: Option<SecretKeySelectorView>,
}

impl DeepView for EnvVar {
    type V = EnvVarView;

    open spec fn deep_view(&self) -> EnvVarView {
        EnvVarView {
            name: self.name@,
            value: self.value.deep_view(),
            secret_key_ref: self.secret_key_ref.deep_view(),
        }
    }
}

/// A port of a service.
#[derive(Debug)]
pub struct ServicePort {
    pub name: String,
    pub port: i32,
    pub target_port: i32,
    pub protocol: String,
}

/// What a `ServicePort` holds.
#[verifier::ext_equal]
pub struct ServicePortView {
    pub name: Seq<char>,
    pub port: i32,
    pub target_port: i32,
    pub protocol: Seq<char>,
}

impl DeepView for ServicePort {
    type V = ServicePortView;

    open spec fn deep_view(&self) -> ServicePortView {
        ServicePortView {
            name: self.name@,
            port: self.port,
            target_port: self.target_port,
            protocol: self.protocol@,
        }
    }
}

/// A service.
#[derive(Debug)]
pub struct Service {
    pub metadata: ObjectMeta,
    pub selector: TextMap<String>,
    pub ports: Vec<ServicePort>,
    pub service_type: String,
}

/// What a `Service` holds.
#[verifier::ext_equal]
pub struct ServiceView {
    pub metadata: ObjectMetaView,
    pub selector: Map<Seq<char>, Seq<char>>,
    pub ports: Seq<ServicePortView>,
    pub service_type: Seq<char>,
}

impl DeepView for Service {
    type V = ServiceView;

    open spec fn deep_view(&self) -> ServiceView {
        ServiceView {
            metadata: self.metadata.deep_view(),
            selector: self.selector.deep_view(),
            ports: self.ports.deep_view(),
            service_type: self.service_type@,
        }
    }
}

/// A port of a container.
#[derive(Debug)]
pub struct ContainerPort {
    pub container_port: i32,
    pub name: String,
    pub protocol: String,
}

/// What a `ContainerPort` holds.
#[verifier::ext_equal]
pub struct ContainerPortView {
    pub container_port: i32,
    pub name: Seq<char>,
    pub protocol: Seq<char>,
}

impl DeepView for ContainerPort {
    type V = ContainerPortView;

    open spec fn deep_view(&self) -> ContainerPortView {
        ContainerPortView {
            container_port: self.container_port,
            name: self.name@,
            protocol: self.protocol@,
        }
    }
}

/// A probe that asks a container over HTTP how it is.
#[derive(Debug)]
pub struct HttpProbe {
    pub path: String,
    pub port: i32,
    pub scheme: String,
    pub initial_delay_seconds: i32,
    pub period_seconds: i32,
}

/// What a `HttpProbe` holds.
#[verifier::ext_equal]
pub struct HttpProbeView {
    pub path: Seq<char>,
    pub port: i32,
    pub scheme: Seq<char>,
    pub initial_delay_seconds: i32,
    pub period_seconds: i32,
}

impl DeepView for HttpProbe {
    type V = HttpProbeView;

    open spec fn deep_view(&self) -> HttpProbeView {
        HttpProbeView {
            path: self.path@,
            port: self.port,
            scheme: self.scheme@,
            initial_delay_seconds: self.initial_delay_seconds,
            period_seconds: self.period_seconds,
        }
    }
}

/// A container.
#[derive(Debug)]
pub struct Container {
    pub name: String,
    pub image: String,
    pub args: Vec<String>,
    pub env: Vec<EnvVar>,
    pub ports: Vec<ContainerPort>,
    pub readiness_probe: HttpProbe,
    pub liveness_probe: HttpProbe,
}

/// What a `Container` holds.
#[verifier::ext_equal]
pub struct ContainerView {
    pub name: Seq<char>,
    pub image: Seq<char>,
    pub args: Seq<Seq<char>>,
    pub env: Seq<EnvVarView>,
    pub ports: Seq<ContainerPortView>,
    pub readiness_probe: HttpProbeView,
    pub liveness_probe: HttpProbeView,
}

impl DeepView for Container {
    type V = ContainerView;

    open spec fn deep_view(&self) -> ContainerView {
        ContainerView {
            name: self.name@,
            image: self.image@,
            args: self.args.deep_view(),
            env: self.env.deep_view(),
            ports: self.ports.deep_view(),
            readiness_probe: self.readiness_probe.deep_view(),
            liveness_probe: self.liveness_probe.deep_view(),
        }
    }
}

/// A deployment of pods with one container each.
#[derive(Debug)]
pub struct Deployment {
    pub metadata: ObjectMeta,
    pub replicas: i32,
    pub match_labels: TextMap<String>,
    pub template_labels: TextMap<String>,
    pub container: Container,
}

/// What a `Deployment` holds.
#[verifier::ext_equal]
pub struct DeploymentView {
    pub metadata: ObjectMetaView,
    pub replicas: i32,
    pub match_labels: Map<Seq<char>, Seq<char>>,
    pub template_labels: Map<Seq<char>, Seq<char>>,
    pub container: ContainerView,
}

impl DeepView for Deployment {
    type V = DeploymentView;

    open spec fn deep_view(&self) -> DeploymentView {
        DeploymentView {
            metadata: self.metadata.deep_view(),
            replicas: self.replicas,
            match_labels: self.match_labels.deep_view(),
            template_labels: self.template_labels.deep_view(),
            container: self.container.deep_view(),
        }
    }
}

/// A secret.
#[derive(Debug)]
pub struct Secret {
    pub metadata: ObjectMeta,
    pub secret_type: String,
    pub string_data: Option<TextMap<String>>,
    pub data: Option<TextMap<Vec<u8>>>,
}

/// What a `Secret` holds.
#[verifier::ext_equal]
pub struct SecretView {
    pub metadata: ObjectMetaView,
    pub secret_type: Seq<char>,
    pub string_data: Option<Map<Seq<char>, Seq<char>>>,
    pub data: Option<Map<Seq<char>, Seq<u8>>>,
}

impl DeepView for Secret {
    type V = SecretView;

    open spec fn deep_view(&self) -> SecretView {
        SecretView {
            metadata: self.metadata.deep_view(),
            secret_type: self.secret_type@,
            string_data: self.string_data.deep_view(),
            data: self.data.deep_view(),
        }
    }
}

/// A config map.
#[derive(Debug)]
pub struct ConfigMap {
    pub metadata: ObjectMeta,
    pub data: TextMap<String>,
}

/// What a `ConfigMap` holds.
#[verifier::ext_equal]
pub struct ConfigMapView {
    pub metadata: ObjectMetaView,
    pub data: Map<Seq<char>, Seq<char>>,
}

impl DeepView for ConfigMap {
    type V = ConfigMapView;

    open spec fn deep_view(&self) -> ConfigMapView {
        ConfigMapView {
            metadata: self.metadata.deep_view(),
            data: self.data.deep_view(),
        }
    }
}

/// The desired state of a TiDB cluster, as the JSON text in which it was
/// written down.
#[derive(Debug)]
pub struct TidbClusterSpec {
    pub manifest: String,
}

/// What a `TidbClusterSpec` holds.
#[verifier::ext_equal]
pub struct TidbClusterSpecView {
    pub manifest: Seq<char>,
}

impl DeepView for TidbClusterSpec {
    type V = TidbClusterSpecView;

    open spec fn deep_view(&self) -> TidbClusterSpecView {
        TidbClusterSpecView {
            manifest: self.manifest@,
        }
    }
}

/// A TiDB cluster to be created.
#[derive(Debug)]
pub struct TidbCluster {
    pub metadata: ObjectMeta,
    pub spec: TidbClusterSpec,
}

/// What a `TidbCluster` holds.
#[verifier::ext_equal]
pub struct TidbClusterView {
    pub metadata: ObjectMetaView,
    pub spec: TidbClusterSpecView,
}

impl DeepView for TidbCluster {
    type V = TidbClusterView;

    open spec fn deep_view(&self) -> TidbClusterView {
        TidbClusterView {
            metadata: self.metadata.deep_view(),
            spec: self.spec.deep_view(),
        }
    }
}

/// One condition in the status of a TiDB cluster.
#[derive(Debug)]
pub struct TidbCondition {
    pub type_: String,
    pub status: String,
}

/// What a `TidbCondition` holds.
#[verifier::ext_equal]
pub struct TidbConditionView {
    pub type_: Seq<char>,
    pub status: Seq<char>,
}

impl DeepView for TidbCondition {
    type V = TidbConditionView;

    open spec fn deep_view(&self) -> TidbConditionView {
        TidbConditionView {
            type_: self.type_@,
            status: self.status@,
        }
    }
}

/// The status of a TiDB cluster.
#[derive(Debug)]
pub struct TidbClusterStatus {
    pub conditions: Option<Vec<TidbCondition>>,
}

/// What a `TidbClusterStatus` holds.
#[verifier::ext_equal]
pub struct TidbClusterStatusView {
    pub conditions: Option<Seq<TidbConditionView>>,
}

impl DeepView for TidbClusterStatus {
    type V = TidbClusterStatusView;

    open spec fn deep_view(&self) -> TidbClusterStatusView {
        TidbClusterStatusView {
            conditions: self.conditions.deep_view(),
        }
    }
}

/// An event that the controller publishes about an object.
#[derive(Debug)]
pub struct Event {
    pub reason: String,
    pub note: String,
    pub action: String,
}

/// What an `Event` holds.
#[verifier::ext_equal]
pub struct EventView {
    pub reason: Seq<char>,
    pub note: Seq<char>,
    pub action: Seq<char>,
}

impl DeepView for Event {
    type V = EventView;

    open spec fn deep_view(&self) -> EventView {
        EventView {
            reason: self.reason@,
            note: self.note@,
            action: self.action@,
        }
    }
}

/// A header of an HTTP request.
#[derive(Debug)]
pub struct Header {
    pub name: String,
    pub value: String,
}

/// What a `Header` holds.
#[verifier::ext_equal]
pub struct HeaderView {
    pub name: Seq<char>,
    pub value: Seq<char>,
}

impl DeepView for Header {
    type V = HeaderView;

    open spec fn deep_view(&self) -> HeaderView {
        HeaderView {
            name: self.name@,
            value: self.value@,
        }
    }
}

/// An HTTP request.
#[derive(Debug)]
pub struct HttpRequest {
    pub method: String,
    pub uri: String,
    pub headers: Vec<Header>,
    pub body: Vec<u8>,
}

/// What a `HttpRequest` holds.
#[verifier::ext_equal]
pub struct HttpRequestView {
    pub method: Seq<char>,
    pub uri: Seq<char>,
    pub headers: Seq<HeaderView>,
    pub body: Seq<u8>,
}

impl DeepView for HttpRequest {
    type V = HttpRequestView;

    open spec fn deep_view(&self) -> HttpRequestView {
        HttpRequestView {
            method: self.method@,
            uri: self.uri@,
            headers: self.headers.deep_view(),
            body: self.body@,
        }
    }
}

impl ObjectMetaView {
    /// Metadata without any field set.
    pub open spec fn empty() -> ObjectMetaView {
        ObjectMetaView {
            name: None,
            generate_name: None,
            namespace: None,
            uid: None,
            labels: None,
            owner_references: None,
            finalizers: None,
            deletion_timestamp: None,
        }
    }

    /// The name of the object, the prefix of its name where that is still to
    /// be generated, or the empty text.
    pub open spec fn name_any(self) -> Seq<char> {
        text::text_or(self.name, text::text_or(self.generate_name, seq![]))
    }

    /// A reference to the object as the controller of others. Only an object
    /// with a name and a uid can be referred to.
    pub open spec fn controller_owner_ref(self, kind: Seq<char>) -> Option<OwnerReferenceView> {
        if self.name is Some && self.uid is Some {
            Some(
                OwnerReferenceView {
                    api_version: API_VERSION@,
                    kind,
                    name: self.name->0,
                    uid: self.uid->0,
                    controller: Some(true),
                },
            )
        } else {
            None
        }
    }
}

impl ObjectMeta {
    /// Metadata without any field set.
    pub fn empty() -> (r: ObjectMeta)
        ensures
            r.deep_view() == ObjectMetaView::empty(),
    {
        ObjectMeta {
            name: None,
            generate_name: None,
            namespace: None,
            uid: None,
            labels: None,
            owner_references: None,
            finalizers: None,
            deletion_timestamp: None,
        }
    }

    /// The name of the object, the prefix of its name where that is still to
    /// be generated, or the empty text.
    pub fn name_any(&self) -> (r: String)
        ensures
            r@ == self.deep_view().name_any(),
    {
        match &self.name {
            Some(name) => name.clone(),
            None => match &self.generate_name {
                Some(prefix) => prefix.clone(),
                None => String::new(),
            },
        }
    }

    /// A reference to the object as the controller of others.
    pub fn controller_owner_ref(&self, kind: &str) -> (r: Option<OwnerReference>)
        ensures
            r.deep_view() == self.deep_view().controller_owner_ref(kind@),
    {
        match (&self.name, &self.uid) {
            (Some(name), Some(uid)) => Some(
                OwnerReference {
                    api_version: API_VERSION.to_string(),
                    kind: kind.to_string(),
                    name: name.clone(),
                    uid: uid.clone(),
                    controller: Some(true),
                },
            ),
            _ => None,
        }
    }
}

impl Clone for OwnerReference {
    fn clone(&self) -> (r: OwnerReference)
        ensures
            r.deep_view() == self.deep_view(),
    {
        OwnerReference {
            api_version: self.api_version.clone(),
            kind: self.kind.clone(),
            name: self.name.clone(),
            uid: self.uid.clone(),
            controller: self.controller,
        }
    }
}

/// A copy of optional owners.
fn copy_owners(owners: &Option<Vec<OwnerReference>>) -> (r: Option<Vec<OwnerReference>>)
    ensures
        r.deep_view() == owners.deep_view(),
{
    match owners {
        None => None,
        Some(list) => {
            let mut copy: Vec<OwnerReference> = Vec::new();
            let mut i: usize = 0;
            while i < list.len()
                invariant
                    i <= list@.len(),
                    copy@.len() == i,
                    forall|j: int|
                        0 <= j < i ==> (#[trigger] copy@[j]).deep_view() == list@[j].deep_view(),
                decreases list@.len() - i,
            {
                copy.push(list[i].clone());
                i += 1;
            }
            assert(copy.deep_view() =~= list.deep_view());
            Some(copy)
        },
    }
}

/// A copy of an optional list of texts.
fn copy_texts(texts: &Option<Vec<String>>) -> (r: Option<Vec<String>>)
    ensures
        r.deep_view() == texts.deep_view(),
{
    match texts {
        None => None,
        Some(list) => {
            let mut copy: Vec<String> = Vec::new();
            let mut i: usize = 0;
            while i < list.len()
                invariant
                    i <= list@.len(),
                    copy@.len() == i,
                    forall|j: int| 0 <= j < i ==> (#[trigger] copy@[j])@ == list@[j]@,
                decreases list@.len() - i,
            {
                copy.push(list[i].clone());
                i += 1;
            }
            assert(copy.deep_view() =~= list.deep_view());
            Some(copy)
        },
    }
}

impl Clone for ObjectMeta {
    fn clone(&self) -> (r: ObjectMeta)
        ensures
            r.deep_view() == self.deep_view(),
    {
        ObjectMeta {
            name: copy_text(&self.name),
            generate_name: copy_text(&self.generate_name),
            namespace: copy_text(&self.namespace),
            uid: copy_text(&self.uid),
            labels: match &self.labels {
                Some(labels) => Some(labels.clone()),
                None => None,
            },
            owner_references: copy_owners(&self.owner_references),
            finalizers: copy_texts(&self.finalizers),
            deletion_timestamp: self.deletion_timestamp,
        }
    }
}

impl ObjectMetaView {
    /// The metadata with one more finalizer.
    pub open spec fn with_finalizer(self, finalizer: Seq<char>) -> ObjectMetaView {
        ObjectMetaView {
            finalizers: Some(
                match self.finalizers {
                    Some(list) => list.push(finalizer),
                    None => seq![finalizer],
                },
            ),
            ..self
        }
    }
}

impl ObjectMeta {
    /// The metadata with one more finalizer.
    pub fn with_finalizer(self, finalizer: &str) -> (r: ObjectMeta)
        ensures
            r.deep_view() == self.deep_view().with_finalizer(finalizer@),
    {
        let mut list = match self.finalizers {
            Some(list) => list,
            None => Vec::new(),
        };
        let ghost before = list.deep_view();
        list.push(finalizer.to_string());
        assert(list.deep_view() =~= before.push(finalizer@));
        ObjectMeta { finalizers: Some(list), ..self }
    }
}

impl Clone for SecretReference {
    fn clone(&self) -> (r: SecretReference)
        ensures
            r.deep_view() == self.deep_view(),
    {
        SecretReference { name: copy_text(&self.name), namespace: copy_text(&self.namespace) }
    }
}

impl Clone for SecretKeySelector {
    fn clone(&self) -> (r: SecretKeySelector)
        ensures
            r.deep_view() == self.deep_view(),
    {
        SecretKeySelector {
            key: self.key.clone(),
            name: self.name.clone(),
            optional: self.optional,
        }
    }
}

impl Clone for TidbClusterSpec {
    fn clone(&self) -> (r: TidbClusterSpec)
        ensures
            r.deep_view() == self.deep_view(),
    {
        TidbClusterSpec { manifest: self.manifest.clone() }
    }
}

impl Clone for HttpProbe {
    fn clone(&self) -> (r: HttpProbe)
        ensures
            r.deep_view() == self.deep_view(),
    {
        HttpProbe {
            path: self.path.clone(),
            port: self.port,
            scheme: self.scheme.clone(),
            initial_delay_seconds: self.initial_delay_seconds,
            period_seconds: self.period_seconds,
        }
    }
}

/// Whether a condition is met: the words that count as true.
pub open spec fn true_word(s: Seq<char>) -> bool {
    s == "True"@ || s == "true"@ || s == "TRUE"@
}

/// Whether a word counts as true.
pub fn is_true(s: &str) -> (r: bool)
    ensures
        r == true_word(s@),
{
    text::same_text(s, "True") || text::same_text(s, "true") || text::same_text(s, "TRUE")
}

impl TidbConditionView {
    /// The condition says that the cluster can be used.
    pub open spec fn usable(self) -> bool {
        (self.type_ == "Ready"@ || self.type_ == "Available"@) && true_word(self.status)
    }
}

impl TidbClusterStatusView {
    /// Some condition says that the cluster can be used.
    pub open spec fn ready(self) -> bool {
        self.conditions matches Some(conditions) && exists|i: int|
            0 <= i < conditions.len() && (#[trigger] conditions[i]).usable()
    }
}

impl TidbClusterStatus {
    /// Whether some condition says that the cluster can be used.
    pub fn ready(&self) -> (r: bool)
        ensures
            r == self.deep_view().ready(),
    {
        let ghost view = self.deep_view();
        match &self.conditions {
            None => false,
            Some(conditions) => {
                let mut i: usize = 0;
                while i < conditions.len()
                    invariant
                        i <= conditions@.len(),
                        view == self.deep_view(),
                        view.conditions == Some(conditions.deep_view()),
                        forall|j: int|
                            0 <= j < i ==> !(#[trigger] conditions.deep_view()[j]).usable(),
                    decreases conditions@.len() - i,
                {
                    let c = &conditions[i];
                    assert(conditions.deep_view()[i as int] == c.deep_view());
                    if (text::same_text(c.type_.as_str(), "Ready") || text::same_text(
                        c.type_.as_str(),
                        "Available",
                    )) && is_true(c.status.as_str()) {
                        assert(view.conditions->0[i as int].usable());
                        return true;
                    }
                    i += 1;
                }
                false
            },
        }
    }
}

/// The view of an `OwnerReference` shows all that it holds.
pub proof fn law_view_shows_owner_reference(x: OwnerReference)
    ensures
        x.deep_view().api_version == x.api_version@,
        x.deep_view().kind == x.kind@,
        x.deep_view().name == x.name@,
        x.deep_view().uid == x.uid@,
        x.deep_view().controller == x.controller,
{
}

/// The view of an `ObjectMeta` shows all that it holds.
pub proof fn law_view_shows_object_meta(x: ObjectMeta)
    ensures
        x.deep_view().name == x.name.deep_view(),
        x.deep_view().generate_name == x.generate_name.deep_view(),
        x.deep_view().namespace == x.namespace.deep_view(),
        x.deep_view().uid == x.uid.deep_view(),
        x.deep_view().labels == x.labels.deep_view(),
        x.deep_view().owner_references == x.owner_references.deep_view(),
        x.deep_view().finalizers == x.finalizers.deep_view(),
        x.deep_view().deletion_timestamp == x.deletion_timestamp,
{
}

/// The view of a `SecretReference` shows all that it holds.
pub proof fn law_view_shows_secret_reference(x: SecretReference)
    ensures
        x.deep_view().name == x.name.deep_view(),
        x.deep_view().namespace == x.namespace.deep_view(),
{
}

/// The view of a `SecretKeySelector` shows all that it holds.
pub proof fn law_view_shows_secret_key_selector(x: SecretKeySelector)
    ensures
        x.deep_view().key == x.key@,
        x.deep_view().name == x.name@,
        x.deep_view().optional == x.optional,
{
}

/// The view of an `EnvVar` shows all that it holds.
pub proof fn law_view_shows_env_var(x: EnvVar)
    ensures
        x.deep_view().name == x.name@,
        x.deep_view().value == x.value.deep_view(),
        x.deep_view().secret_key_ref == x.secret_key_ref.deep_view(),
{
}

/// The view of a `ServicePort` shows all that it holds.
pub proof fn law_view_shows_service_port(x: ServicePort)
    ensures
        x.deep_view().name == x.name@,
        x.deep_view().port == x.port,
        x.deep_view().target_port == x.target_port,
        x.deep_view().protocol == x.protocol@,
{
}

/// The view of a `Service` shows all that it holds.
pub proof fn law_view_shows_service(x: Service)
    ensures
        x.deep_view().metadata == x.metadata.deep_view(),
        x.deep_view().selector == x.selector.deep_view(),
        x.deep_view().ports == x.ports.deep_view(),
        x.deep_view().service_type == x.service_type@,
{
}

/// The view of a `ContainerPort` shows all that it holds.
pub proof fn law_view_shows_container_port(x: ContainerPort)
    ensures
        x.deep_view().container_port == x.container_port,
        x.deep_view().name == x.name@,
        x.deep_view().protocol == x.protocol@,
{
}

/// The view of a `HttpProbe` shows all that it holds.
pub proof fn law_view_shows_http_probe(x: HttpProbe)
    ensures
        x.deep_view().path == x.path@,
        x.deep_view().port == x.port,
        x.deep_view().scheme == x.scheme@,
        x.deep_view().initial_delay_seconds == x.initial_delay_seconds,
        x.deep_view().period_seconds == x.period_seconds,
{
}

/// The view of a `Container` shows all that it holds.
pub proof fn law_view_shows_container(x: Container)
    ensures
        x.deep_view().name == x.name@,
        x.deep_view().image == x.image@,
        x.deep_view().args == x.args.deep_view(),
        x.deep_view().env == x.env.deep_view(),
        x.deep_view().ports == x.ports.deep_view(),
        x.deep_view().readiness_probe == x.readiness_probe.deep_view(),
        x.deep_view().liveness_probe == x.liveness_probe.deep_view(),
{
}

/// The view of a `Deployment` shows all that it holds.
pub proof fn law_view_shows_deployment(x: Deployment)
    ensures
        x.deep_view().metadata == x.metadata.deep_view(),
        x.deep_view().replicas == x.replicas,
        x.deep_view().match_labels == x.match_labels.deep_view(),
        x.deep_view().template_labels == x.template_labels.deep_view(),
        x.deep_view().container == x.container.deep_view(),
{
}

/// The view of a `Secret` shows all that it holds.
pub proof fn law_view_shows_secret(x: Secret)
    ensures
        x.deep_view().metadata == x.metadata.deep_view(),
        x.deep_view().secret_type == x.secret_type@,
        x.deep_view().string_data == x.string_data.deep_view(),
        x.deep_view().data == x.data.deep_view(),
{
}

/// The view of a `ConfigMap` shows all that it holds.
pub proof fn law_view_shows_config_map(x: ConfigMap)
    ensures
        x.deep_view().metadata == x.metadata.deep_view(),
        x.deep_view().data == x.data.deep_view(),
{
}

/// The view of a `TidbClusterSpec` shows all that it holds.
pub proof fn law_view_shows_tidb_cluster_spec(x: TidbClusterSpec)
    ensures
        x.deep_view().manifest == x.manifest@,
{
}

/// The view of a `TidbCluster` shows all that it holds.
pub proof fn law_view_shows_tidb_cluster(x: TidbCluster)
    ensures
        x.deep_view().metadata == x.metadata.deep_view(),
        x.deep_view().spec == x.spec.deep_view(),
{
}

/// The view of a `TidbCondition` shows all that it holds.
pub proof fn law_view_shows_tidb_condition(x: TidbCondition)
    ensures
        x.deep_view().type_ == x.type_@,
        x.deep_view().status == x.status@,
{
}

/// The view of a `TidbClusterStatus` shows all that it holds.
pub proof fn law_view_shows_tidb_cluster_status(x: TidbClusterStatus)
    ensures
        x.deep_view().conditions == x.conditions.deep_view(),
{
}

/// The view of an `Event` shows all that it holds.
pub proof fn law_view_shows_event(x: Event)
    ensures
        x.deep_view().reason == x.reason@,
        x.deep_view().note == x.note@,
        x.deep_view().action == x.action@,
{
}

/// The view of a `Header` shows all that it holds.
pub proof fn law_view_shows_header(x: Header)
    ensures
        x.deep_view().name == x.name@,
        x.deep_view().value == x.value@,
{
}

/// The view of a `HttpRequest` shows all that it holds.
pub proof fn law_view_shows_http_request(x: HttpRequest)
    ensures
        x.deep_view().method == x.method@,
        x.deep_view().uri == x.uri@,
        x.deep_view().headers == x.headers.deep_view(),
        x.deep_view().body == x.body@,
{
}

} // verus!
