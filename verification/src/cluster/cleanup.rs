//! What becomes of the objects of a cluster that is deleted: those that belong
//! to it are deleted one after the other, and the deletion is reported.
use crate::api::{
    Action, ApiReply, ApiReplyView, ApiRequest, ApiRequestView, Flow, FlowView, OwnedKind,
    Propagation, ReplyKind,
};
use crate::cluster::crd::{Cluster, ClusterView};
use crate::cluster::resources;
use crate::objects::{Event, EventView};
use crate::text::{joined, joined3};
use vstd::prelude::*;

verus! {

/// The call whose answer the cleanup of a cluster waits for.
#[derive(Clone, Copy, Debug, PartialEq, Eq, Structural)]
pub enum CleanupStep {
    /// The owners of an object are looked at.
    Look { kind: OwnedKind },
    /// An object is deleted.
    Remove { kind: OwnedKind },
    /// The deletion is reported.
    Report,
}

impl DeepView for CleanupStep {
    type V = CleanupStep;

    open spec fn deep_view(&self) -> CleanupStep {
        *self
    }
}

impl CleanupStep {
    /// The kind of answer that is waited for.
    pub open spec fn awaited(self) -> ReplyKind {
        match self {
            CleanupStep::Look { .. } => ReplyKind::Owners,
            _ => ReplyKind::Accepted,
        }
    }

    /// The kind of answer that is waited for.
    pub fn awaits(self) -> (r: ReplyKind)
        ensures
            r == self.awaited(),
    {
        match self {
            CleanupStep::Look { .. } => ReplyKind::Owners,
            _ => ReplyKind::Accepted,
        }
    }
}

impl ClusterView {
    /// The name of an object of the cluster.
    pub open spec fn owned_name(self, kind: OwnedKind) -> Seq<char> {
        match kind {
            OwnedKind::Deployment => resources::surreal_name(self.name_any()),
            OwnedKind::Service => resources::surreal_name(self.name_any()),
            OwnedKind::Secret => resources::root_secret_name(self.name_any()),
            OwnedKind::TidbCluster => self.name_any(),
        }
    }

    /// The call that deletes an object of the cluster. What a TiDB cluster
    /// stores outlives it.
    pub open spec fn delete_request(self, kind: OwnedKind) -> ApiRequestView {
        ApiRequestView::Delete {
            kind,
            namespace: self.ns(),
            name: self.owned_name(kind),
            propagation: if kind == OwnedKind::TidbCluster {
                Propagation::Orphan
            } else {
                Propagation::Background
            },
        }
    }

    /// The cleanup turns to an object.
    pub open spec fn look_at(self, kind: OwnedKind) -> FlowView<CleanupStep> {
        FlowView::Ask {
            step: CleanupStep::Look { kind },
            request: ApiRequestView::GetOwners {
                kind,
                namespace: self.ns(),
                name: self.owned_name(kind),
            },
        }
    }

    /// The event that reports the deletion.
    pub open spec fn delete_event(self) -> EventView {
        EventView {
            reason: "DeleteRequested"@,
            note: "Delete `"@ + self.name_any() + "`"@,
            action: "Deleting"@,
        }
    }

    /// What follows when the cleanup is done with an object.
    pub open spec fn done_with(self, kind: OwnedKind) -> FlowView<CleanupStep> {
        match kind {
            OwnedKind::Deployment => self.look_at(OwnedKind::Service),
            OwnedKind::Service => self.look_at(OwnedKind::Secret),
            OwnedKind::Secret => self.look_at(OwnedKind::TidbCluster),
            OwnedKind::TidbCluster => FlowView::Ask {
                step: CleanupStep::Report,
                request: ApiRequestView::PublishEvent { event: self.delete_event() },
            },
        }
    }

    /// How the cleanup starts.
    pub open spec fn cleanup_start(self) -> FlowView<CleanupStep> {
        self.look_at(OwnedKind::Deployment)
    }

    /// How the cleanup goes on with the answer that a step waited for.
    pub open spec fn cleanup_next(
        self,
        step: CleanupStep,
        reply: ApiReplyView,
    ) -> FlowView<CleanupStep> {
        match step {
            CleanupStep::Look { kind } => match reply {
                ApiReplyView::Owners { owner_references } => {
                    if self.owns(owner_references) {
                        FlowView::Ask {
                            step: CleanupStep::Remove { kind },
                            request: self.delete_request(kind),
                        }
                    } else {
                        self.done_with(kind)
                    }
                },
                ApiReplyView::Failed { error } => {
                    if error.not_found() {
                        self.done_with(kind)
                    } else {
                        FlowView::kube_failure(error)
                    }
                },
                _ => self.done_with(kind),
            },
            CleanupStep::Remove { kind } => {
                if reply is Failed && !reply.not_found() {
                    FlowView::kube_failure(reply->Failed_error)
                } else {
                    self.done_with(kind)
                }
            },
            CleanupStep::Report => {
                if reply is Failed {
                    FlowView::kube_failure(reply->Failed_error)
                } else {
                    FlowView::Done { outcome: Ok(Action::AwaitChange) }
                }
            },
        }
    }
}

impl Cluster {
    /// The name of an object of the cluster.
    pub fn name_of(&self, kind: OwnedKind) -> (r: String)
        ensures
            r@ == self.deep_view().owned_name(kind),
    {
        let own_name = self.name_any();
        match kind {
            OwnedKind::Deployment => joined(own_name.as_str(), "-surrealdb"),
            OwnedKind::Service => joined(own_name.as_str(), "-surrealdb"),
            OwnedKind::Secret => joined(own_name.as_str(), "-surrealdb-root"),
            OwnedKind::TidbCluster => own_name,
        }
    }

    /// Looks at who owns an object.
    fn look_at(&self, kind: OwnedKind) -> (r: Flow<CleanupStep>)
        requires
            self.metadata.namespace is Some,
        ensures
            r.deep_view() == self.deep_view().look_at(kind),
    {
        Flow::Ask {
            step: CleanupStep::Look { kind },
            request: ApiRequest::GetOwners {
                kind,
                namespace: self.namespace(),
                name: self.name_of(kind),
            },
        }
    }

    /// Goes on when the cleanup is done with an object.
    fn done_with(&self, kind: OwnedKind) -> (r: Flow<CleanupStep>)
        requires
            self.metadata.namespace is Some,
        ensures
            r.deep_view() == self.deep_view().done_with(kind),
    {
        match kind {
            OwnedKind::Deployment => self.look_at(OwnedKind::Service),
            OwnedKind::Service => self.look_at(OwnedKind::Secret),
            OwnedKind::Secret => self.look_at(OwnedKind::TidbCluster),
            OwnedKind::TidbCluster => {
                let own_name = self.name_any();
                Flow::Ask {
                    step: CleanupStep::Report,
                    request: ApiRequest::PublishEvent {
                        event: Event {
                            reason: "DeleteRequested".to_string(),
                            note: joined3("Delete `", own_name.as_str(), "`"),
                            action: "Deleting".to_string(),
                        },
                    },
                }
            },
        }
    }

    /// Deletes an object whose owners were looked at, if it is there and
    /// belongs to the cluster.
    pub fn delete_if_exists(&self, kind: OwnedKind, reply: ApiReply) -> (r: Flow<CleanupStep>)
        requires
            self.metadata.namespace is Some,
        ensures
            r.deep_view() == self.deep_view().cleanup_next(
                CleanupStep::Look { kind },
                reply.deep_view(),
            ),
    {
        match reply {
            ApiReply::Owners { owner_references } => {
                if self.owns(&owner_references) {
                    Flow::Ask {
                        step: CleanupStep::Remove { kind },
                        request: ApiRequest::Delete {
                            kind,
                            namespace: self.namespace(),
                            name: self.name_of(kind),
                            propagation: match kind {
                                OwnedKind::TidbCluster => Propagation::Orphan,
                                _ => Propagation::Background,
                            },
                        },
                    }
                } else {
                    self.done_with(kind)
                }
            },
            ApiReply::Failed { error } => {
                if error.not_found() {
                    self.done_with(kind)
                } else {
                    Flow::kube_failure(error)
                }
            },
            _ => self.done_with(kind),
        }
    }

    /// Starts the cleanup of the cluster.
    pub fn cleanup(&self) -> (r: Flow<CleanupStep>)
        requires
            self.metadata.namespace is Some,
        ensures
            r.deep_view() == self.deep_view().cleanup_start(),
    {
        self.look_at(OwnedKind::Deployment)
    }

    /// Goes on with the cleanup of the cluster, with the answer that a step
    /// waited for.
    pub fn resume_cleanup(&self, step: CleanupStep, reply: ApiReply) -> (r: Flow<CleanupStep>)
        requires
            self.metadata.namespace is Some,
            reply.deep_view().fits(step.awaited()),
        ensures
            r.deep_view() == self.deep_view().cleanup_next(step, reply.deep_view()),
    {
        match step {
            CleanupStep::Look { kind } => self.delete_if_exists(kind, reply),
            CleanupStep::Remove { kind } => match reply {
                ApiReply::Failed { error } => {
                    if error.not_found() {
                        self.done_with(kind)
                    } else {
                        Flow::kube_failure(error)
                    }
                },
                _ => self.done_with(kind),
            },
            CleanupStep::Report => match reply {
                ApiReply::Failed { error } => Flow::kube_failure(error),
                _ => Flow::Done { outcome: Ok(Action::AwaitChange) },
            },
        }
    }
}

} // verus!
