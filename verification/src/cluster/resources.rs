//! The objects that are built for a cluster.
use crate::cluster::crd::{Cluster, ClusterView};
use crate::objects::{
    Container, ContainerPort, ContainerPortView, ContainerView, Deployment, DeploymentView, EnvVar,
    EnvVarView, HttpProbe, HttpProbeView, ObjectMeta, ObjectMetaView, OwnerReference,
    OwnerReferenceView, Secret, SecretView, Service, ServicePort, ServicePortView, ServiceView,
    TidbCluster, TidbClusterSpec, TidbClusterSpecView, TidbClusterView, API_VERSION,
};
use crate::text::{self, copy_text, joined, joined3, same_text, text_or_else, TextMap};
use vstd::prelude::*;

verus! {

/// The finalizer that keeps a cluster until it is cleaned up.
pub const CLUSTER_FINALIZER: &'static str = "clusters.surrealdb.aexol.com";

/// The annotation that names the server to bootstrap a cluster through.
pub const BOOTSTRAP_HTTP_SERVER_URL_ANNOTATION: &'static str = "surrealdb.aexol.com/bootstrap-url";

/// The kind of a cluster.
pub const CLUSTER_KIND: &'static str = "Cluster";

/// The port that a SurrealDB server listens on.
pub const SURREAL_PORT: i32 = 8000;

/// The name of the deployment and of the service of a cluster.
pub open spec fn surreal_name(name: Seq<char>) -> Seq<char> {
    name + "-surrealdb"@
}

/// The name of the secret that keeps the generated root credentials.
pub open spec fn root_secret_name(name: Seq<char>) -> Seq<char> {
    name + "-surrealdb-root"@
}

impl ClusterView {
    /// The name by which the objects of the cluster are called.
    pub open spec fn name_any(self) -> Seq<char> {
        self.metadata.name_any()
    }

    /// A reference to the cluster as the controller of its objects.
    pub open spec fn owner_ref(self) -> Option<OwnerReferenceView> {
        self.metadata.controller_owner_ref(CLUSTER_KIND@)
    }

    /// There is a place for the data.
    pub open spec fn backend_configured(self) -> bool {
        self.spec.tidb_cluster is Some || self.spec.tikv_secret_ref is Some
    }

    /// The secret that the root credentials are in.
    pub open spec fn credentials_secret(self) -> Option<Seq<char>> {
        match self.spec.root_secret {
            Some(reference) => reference.name,
            None => None,
        }
    }

    /// The labels of an object of the cluster.
    pub open spec fn labels(self, suffix: Seq<char>) -> Map<Seq<char>, Seq<char>> {
        let common = Map::<Seq<char>, Seq<char>>::empty().insert(
            "app.kubernetes.io/name"@,
            "surrealdb"@,
        ).insert("surrealdb.aexol.com/cluster"@, self.name_any());
        if suffix.len() == 0 {
            common
        } else {
            common.insert("surrealdb.aexol.com/name"@, suffix)
        }
    }

    /// The metadata of an object that the cluster owns.
    pub open spec fn owned_meta(
        self,
        name: Seq<char>,
        labels: Option<Map<Seq<char>, Seq<char>>>,
    ) -> ObjectMetaView {
        ObjectMetaView {
            name: Some(name),
            namespace: self.metadata.namespace,
            labels,
            owner_references: Some(seq![self.owner_ref()->0]),
            ..ObjectMetaView::empty()
        }
    }

    /// The secret that keeps the generated root credentials.
    pub open spec fn root_secret(self, password: Seq<char>) -> SecretView {
        SecretView {
            metadata: self.owned_meta(root_secret_name(self.name_any()), None),
            secret_type: "Opaque"@,
            string_data: Some(
                Map::<Seq<char>, Seq<char>>::empty().insert("user"@, "root"@).insert(
                    "password"@,
                    password,
                ),
            ),
            data: None,
        }
    }

    /// The service in front of the SurrealDB servers.
    pub open spec fn surreal_service(self, name: Seq<char>) -> ServiceView {
        let labels = self.labels(surreal_name(name));
        ServiceView {
            metadata: self.owned_meta(surreal_name(name), Some(labels)),
            selector: labels,
            ports: seq![
                ServicePortView {
                    name: "http"@,
                    port: SURREAL_PORT,
                    target_port: SURREAL_PORT,
                    protocol: "TCP"@,
                },
            ],
            service_type: "ClusterIP"@,
        }
    }

    /// The variable that says where the data lies: with the managed TiDB
    /// cluster, or where a key of a secret says.
    pub open spec fn path_env(self) -> EnvVarView {
        EnvVarView {
            name: "SURREAL_PATH"@,
            value: match self.spec.tidb_cluster {
                Some(_) => Some("tikv://"@ + self.name_any() + "-pd:2379"@),
                None => None,
            },
            secret_key_ref: self.spec.tikv_secret_ref,
        }
    }

    /// The environment of a server that asks for credentials.
    pub open spec fn env_normal(self) -> Seq<EnvVarView> {
        seq![switched_on("SURREAL_AUTH"@), self.path_env()]
    }

    /// The environment of a server that lets everyone in, for the time in
    /// which the root user is created.
    pub open spec fn env_creation(self) -> Seq<EnvVarView> {
        seq![self.path_env(), switched_on("SURREAL_UNAUTHENTICATED"@)]
    }

    /// The environment of the servers in a mode.
    pub open spec fn env(self, creation_mode: bool) -> Seq<EnvVarView> {
        if creation_mode {
            self.env_creation()
        } else {
            self.env_normal()
        }
    }

    /// The container of a SurrealDB server.
    pub open spec fn surreal_container(self, creation_mode: bool) -> ContainerView {
        let probe = HttpProbeView {
            path: "/health"@,
            port: SURREAL_PORT,
            scheme: "HTTP"@,
            initial_delay_seconds: 5,
            period_seconds: 10,
        };
        ContainerView {
            name: "surrealdb"@,
            image: text::text_or(self.spec.surrealdb_image, "surrealdb/surrealdb:latest"@),
            args: seq!["start"@, "--bind"@, "0.0.0.0:8000"@],
            env: self.env(creation_mode),
            ports: seq![
                ContainerPortView {
                    container_port: SURREAL_PORT,
                    name: "http"@,
                    protocol: "TCP"@,
                },
            ],
            readiness_probe: probe,
            liveness_probe: probe,
        }
    }

    /// The deployment of the SurrealDB servers.
    pub open spec fn surreal_deployment(
        self,
        name: Seq<char>,
        creation_mode: bool,
    ) -> DeploymentView {
        let labels = self.labels(surreal_name(name));
        DeploymentView {
            metadata: self.owned_meta(surreal_name(name), Some(labels)),
            replicas: match self.spec.replicas {
                Some(n) => n as i32,
                None => 1,
            },
            match_labels: labels,
            template_labels: labels,
            container: self.surreal_container(creation_mode),
        }
    }

    /// An owner reference that names this cluster.
    pub open spec fn named_by(self, owner: OwnerReferenceView) -> bool {
        self.metadata.uid == Some(owner.uid) && owner.name == self.name_any()
    }

    /// The owners with the cluster among them.
    pub open spec fn among_owners(self, owners: Seq<OwnerReferenceView>) -> Seq<
        OwnerReferenceView,
    > {
        if exists|i: int| 0 <= i < owners.len() && self.named_by(#[trigger] owners[i]) {
            owners
        } else {
            owners.push(self.owner_ref()->0)
        }
    }

    /// The TiDB cluster that stores the data of the cluster.
    pub open spec fn tidb_object(self, name: Seq<char>, spec: TidbClusterSpecView) -> TidbClusterView {
        TidbClusterView {
            metadata: ObjectMetaView {
                name: Some(name),
                namespace: self.metadata.namespace,
                owner_references: Some(self.among_owners(seq![])),
                ..ObjectMetaView::empty()
            },
            spec,
        }
    }

    /// An object with these owners belongs to the cluster: an owner has its
    /// uid, or its kind, name and version.
    pub open spec fn owns(self, owners: Option<Seq<OwnerReferenceView>>) -> bool {
        owners matches Some(owners) && exists|i: int|
            0 <= i < owners.len() && self.owned_through(#[trigger] owners[i])
    }

    /// An owner reference makes an object belong to the cluster.
    pub open spec fn owned_through(self, owner: OwnerReferenceView) -> bool {
        ||| self.metadata.uid == Some(owner.uid)
        ||| (owner.kind == CLUSTER_KIND@ && owner.name == self.name_any() && owner.api_version
            == API_VERSION@)
    }
}

/// A variable that is set to `true`.
pub open spec fn switched_on(name: Seq<char>) -> EnvVarView {
    EnvVarView { name, value: Some("true"@), secret_key_ref: None }
}

fn switch_on(name: &str) -> (r: EnvVar)
    ensures
        r.deep_view() == switched_on(name@),
{
    EnvVar { name: name.to_string(), value: Some("true".to_string()), secret_key_ref: None }
}

impl Cluster {
    /// The name by which the objects of the cluster are called.
    pub fn name_any(&self) -> (r: String)
        ensures
            r@ == self.deep_view().name_any(),
    {
        self.metadata.name_any()
    }

    /// A reference to the cluster as the controller of its objects.
    pub fn owner_ref(&self) -> (r: OwnerReference)
        requires
            self.deep_view().owner_ref() is Some,
        ensures
            self.deep_view().owner_ref() == Some(r.deep_view()),
    {
        self.metadata.controller_owner_ref(CLUSTER_KIND).unwrap()
    }

    /// The secret that the root credentials are in.
    pub fn credentials_secret(&self) -> (r: Option<String>)
        ensures
            r.deep_view() == self.deep_view().credentials_secret(),
    {
        match &self.spec.root_secret {
            Some(reference) => copy_text(&reference.name),
            None => None,
        }
    }

    /// The labels of an object of the cluster.
    pub fn labels(&self, suffix: &str) -> (r: TextMap<String>)
        ensures
            r.deep_view() == self.deep_view().labels(suffix@),
    {
        let common = TextMap::new().with("app.kubernetes.io/name", "surrealdb".to_string()).with(
            "surrealdb.aexol.com/cluster",
            self.name_any(),
        );
        if suffix.is_empty() {
            common
        } else {
            common.with("surrealdb.aexol.com/name", suffix.to_string())
        }
    }

    /// The metadata of an object that the cluster owns.
    fn owned_meta(&self, name: String, labels: Option<TextMap<String>>) -> (r: ObjectMeta)
        requires
            self.deep_view().owner_ref() is Some,
        ensures
            r.deep_view() == self.deep_view().owned_meta(name@, labels.deep_view()),
    {
        let mut owners: Vec<OwnerReference> = Vec::new();
        owners.push(self.owner_ref());
        assert(owners.deep_view() =~= seq![self.deep_view().owner_ref()->0]);
        ObjectMeta {
            name: Some(name),
            generate_name: None,
            namespace: copy_text(&self.metadata.namespace),
            uid: None,
            labels,
            owner_references: Some(owners),
            finalizers: None,
            deletion_timestamp: None,
        }
    }

    /// Builds the secret that keeps the generated root credentials.
    pub fn build_root_secret(&self, password: &str) -> (r: Secret)
        requires
            self.deep_view().owner_ref() is Some,
        ensures
            r.deep_view() == self.deep_view().root_secret(password@),
    {
        let own_name = self.name_any();
        Secret {
            metadata: self.owned_meta(joined(own_name.as_str(), "-surrealdb-root"), None),
            secret_type: "Opaque".to_string(),
            string_data: Some(
                TextMap::new().with("user", "root".to_string()).with(
                    "password",
                    password.to_string(),
                ),
            ),
            data: None,
        }
    }

    /// Builds the service in front of the SurrealDB servers.
    pub fn build_surreal_service(&self, name: &str) -> (r: Service)
        requires
            self.deep_view().owner_ref() is Some,
        ensures
            r.deep_view() == self.deep_view().surreal_service(name@),
    {
        let svc_name = joined(name, "-surrealdb");
        let labels = self.labels(svc_name.as_str());
        let mut ports: Vec<ServicePort> = Vec::new();
        ports.push(
            ServicePort {
                name: "http".to_string(),
                port: SURREAL_PORT,
                target_port: SURREAL_PORT,
                protocol: "TCP".to_string(),
            },
        );
        Service {
            metadata: self.owned_meta(svc_name, Some(labels.clone())),
            selector: labels,
            ports,
            service_type: "ClusterIP".to_string(),
        }
    }

    /// The variable that says where the data lies.
    fn build_path_env(&self) -> (r: EnvVar)
        ensures
            r.deep_view() == self.deep_view().path_env(),
    {
        let name = self.name_any();
        EnvVar {
            name: "SURREAL_PATH".to_string(),
            value: match &self.spec.tidb_cluster {
                Some(_) => Some(joined3("tikv://", name.as_str(), "-pd:2379")),
                None => None,
            },
            secret_key_ref: match &self.spec.tikv_secret_ref {
                Some(selector) => Some(selector.clone()),
                None => None,
            },
        }
    }

    /// Builds the environment of a server that asks for credentials.
    pub fn env_normal(&self) -> (r: Vec<EnvVar>)
        ensures
            r.deep_view() == self.deep_view().env_normal(),
    {
        let mut env: Vec<EnvVar> = Vec::new();
        env.push(switch_on("SURREAL_AUTH"));
        env.push(self.build_path_env());
        assert(env.deep_view() =~= self.deep_view().env_normal());
        env
    }

    /// Builds the environment of a server that lets everyone in.
    pub fn env_creation(&self) -> (r: Vec<EnvVar>)
        ensures
            r.deep_view() == self.deep_view().env_creation(),
    {
        let mut env: Vec<EnvVar> = Vec::new();
        env.push(self.build_path_env());
        env.push(switch_on("SURREAL_UNAUTHENTICATED"));
        assert(env.deep_view() =~= self.deep_view().env_creation());
        env
    }

    /// Builds the deployment of the SurrealDB servers.
    pub fn build_surreal_deployment(&self, name: &str, creation_mode: bool) -> (r: Deployment)
        requires
            self.deep_view().owner_ref() is Some,
        ensures
            r.deep_view() == self.deep_view().surreal_deployment(name@, creation_mode),
    {
        let deploy_name = joined(name, "-surrealdb");
        let labels = self.labels(deploy_name.as_str());
        let image = text_or_else(&self.spec.surrealdb_image, "surrealdb/surrealdb:latest");
        let replicas: i32 = match self.spec.replicas {
            Some(n) => n as i32,
            None => 1,
        };
        let env = if creation_mode {
            self.env_creation()
        } else {
            self.env_normal()
        };
        let mut args: Vec<String> = Vec::new();
        args.push("start".to_string());
        args.push("--bind".to_string());
        args.push("0.0.0.0:8000".to_string());
        let mut ports: Vec<ContainerPort> = Vec::new();
        ports.push(
            ContainerPort {
                container_port: SURREAL_PORT,
                name: "http".to_string(),
                protocol: "TCP".to_string(),
            },
        );
        let probe = HttpProbe {
            path: "/health".to_string(),
            port: SURREAL_PORT,
            scheme: "HTTP".to_string(),
            initial_delay_seconds: 5,
            period_seconds: 10,
        };
        let container = Container {
            name: "surrealdb".to_string(),
            image,
            args,
            env,
            ports,
            readiness_probe: probe.clone(),
            liveness_probe: probe,
        };
        assert(container.deep_view() =~= self.deep_view().surreal_container(creation_mode));
        Deployment {
            metadata: self.owned_meta(deploy_name, Some(labels.clone())),
            replicas,
            match_labels: labels.clone(),
            template_labels: labels,
            container,
        }
    }

    /// Puts the cluster among the owners of an object, once.
    pub fn add_owner(&self, owners: Vec<OwnerReference>) -> (r: Vec<OwnerReference>)
        requires
            self.deep_view().owner_ref() is Some,
        ensures
            r.deep_view() == self.deep_view().among_owners(owners.deep_view()),
    {
        let own_name = self.name_any();
        let ghost view = self.deep_view();
        let ghost before = owners.deep_view();
        let mut i: usize = 0;
        while i < owners.len()
            invariant
                i <= owners@.len(),
                view == self.deep_view(),
                own_name@ == view.name_any(),
                before == owners.deep_view(),
                forall|j: int| 0 <= j < i ==> !view.named_by(#[trigger] before[j]),
            decreases owners@.len() - i,
        {
            let owner = &owners[i];
            assert(before[i as int] == owner.deep_view());
            let same_uid = match &self.metadata.uid {
                Some(uid) => same_text(uid.as_str(), owner.uid.as_str()),
                None => false,
            };
            if same_uid && same_text(owner.name.as_str(), own_name.as_str()) {
                assert(view.named_by(before[i as int]));
                return owners;
            }
            i += 1;
        }
        let mut all = owners;
        all.push(self.owner_ref());
        assert(all.deep_view() =~= before.push(view.owner_ref()->0));
        all
    }

    /// Builds the TiDB cluster that stores the data of the cluster.
    pub fn build_tidb_cluster(&self, name: &str, spec: &TidbClusterSpec) -> (r: TidbCluster)
        requires
            self.deep_view().owner_ref() is Some,
        ensures
            r.deep_view() == self.deep_view().tidb_object(name@, spec.deep_view()),
    {
        let none: Vec<OwnerReference> = Vec::new();
        assert(none.deep_view() =~= seq![]);
        TidbCluster {
            metadata: ObjectMeta {
                name: Some(name.to_string()),
                generate_name: None,
                namespace: copy_text(&self.metadata.namespace),
                uid: None,
                labels: None,
                owner_references: Some(self.add_owner(none)),
                finalizers: None,
                deletion_timestamp: None,
            },
            spec: spec.clone(),
        }
    }

    /// Whether an object with these owners belongs to the cluster.
    pub fn owns(&self, owners: &Option<Vec<OwnerReference>>) -> (r: bool)
        ensures
            r == self.deep_view().owns(owners.deep_view()),
    {
        let own_name = self.name_any();
        let ghost view = self.deep_view();
        match owners {
            None => false,
            Some(list) => {
                let mut i: usize = 0;
                while i < list.len()
                    invariant
                        i <= list@.len(),
                        view == self.deep_view(),
                        own_name@ == view.name_any(),
                        owners.deep_view() == Some(list.deep_view()),
                        forall|j: int|
                            0 <= j < i ==> !view.owned_through(#[trigger] list.deep_view()[j]),
                    decreases list@.len() - i,
                {
                    let owner = &list[i];
                    assert(list.deep_view()[i as int] == owner.deep_view());
                    let same_uid = match &self.metadata.uid {
                        Some(uid) => same_text(uid.as_str(), owner.uid.as_str()),
                        None => false,
                    };
                    if same_uid || (same_text(owner.kind.as_str(), CLUSTER_KIND) && same_text(
                        owner.name.as_str(),
                        own_name.as_str(),
                    ) && same_text(owner.api_version.as_str(), API_VERSION)) {
                        assert(view.owned_through(owners.deep_view()->0[i as int]));
                        return true;
                    }
                    i += 1;
                }
                false
            },
        }
    }

    /// Whether there is a place for the data: a TiDB cluster to manage, or a
    /// secret that names one.
    pub fn tikv_backend_configured(&self) -> (r: Result<(), String>)
        ensures
            r is Ok <==> self.deep_view().backend_configured(),
            r matches Err(text) ==> text@
                == "No TiKV backend configured: set .spec.tidbCluster or .spec.tikvSecret"@,
    {
        if self.spec.tidb_cluster.is_some() || self.spec.tikv_secret_ref.is_some() {
            Ok(())
        } else {
            Err(
                "No TiKV backend configured: set .spec.tidbCluster or .spec.tikvSecret".to_string(),
            )
        }
    }
}

} // verus!
