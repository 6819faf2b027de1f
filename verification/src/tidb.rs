//! Choices in the manifest of a TiDB cluster, with what holds where none is
//! made.
use vstd::prelude::*;

verus! {

/// How the liveness of the discovery service is probed.
#[derive(Clone, Copy, Debug, PartialEq, Eq, Structural)]
pub enum TidbClusterDiscoveryLivenessProbeType {
    Tcp,
    Command,
}

impl Default for TidbClusterDiscoveryLivenessProbeType {
    fn default() -> (r: TidbClusterDiscoveryLivenessProbeType)
        ensures
            r == TidbClusterDiscoveryLivenessProbeType::Tcp,
    {
        TidbClusterDiscoveryLivenessProbeType::Tcp
    }
}

/// How the readiness of the discovery service is probed.
#[derive(Clone, Copy, Debug, PartialEq, Eq, Structural)]
pub enum TidbClusterDiscoveryReadinessProbeType {
    Tcp,
    Command,
}

impl Default for TidbClusterDiscoveryReadinessProbeType {
    fn default() -> (r: TidbClusterDiscoveryReadinessProbeType)
        ensures
            r == TidbClusterDiscoveryReadinessProbeType::Tcp,
    {
        TidbClusterDiscoveryReadinessProbeType::Tcp
    }
}

/// How the placement driver is run.
#[derive(Clone, Copy, Debug, PartialEq, Eq, Structural)]
pub enum TidbClusterPdMode {
    KopiumEmpty,
    Ms,
}

impl Default for TidbClusterPdMode {
    fn default() -> (r: TidbClusterPdMode)
        ensures
            r == TidbClusterPdMode::KopiumEmpty,
    {
        TidbClusterPdMode::KopiumEmpty
    }
}

/// How the readiness of the placement driver is probed.
#[derive(Clone, Copy, Debug, PartialEq, Eq, Structural)]
pub enum TidbClusterPdReadinessProbeType {
    Tcp,
    Command,
}

impl Default for TidbClusterPdReadinessProbeType {
    fn default() -> (r: TidbClusterPdReadinessProbeType)
        ensures
            r == TidbClusterPdReadinessProbeType::Tcp,
    {
        TidbClusterPdReadinessProbeType::Tcp
    }
}

/// The version of the script that starts the placement driver.
#[derive(Clone, Copy, Debug, PartialEq, Eq, Structural)]
pub enum TidbClusterPdStartUpScriptVersion {
    KopiumEmpty,
    V1,
}

impl Default for TidbClusterPdStartUpScriptVersion {
    fn default() -> (r: TidbClusterPdStartUpScriptVersion)
        ensures
            r == TidbClusterPdStartUpScriptVersion::KopiumEmpty,
    {
        TidbClusterPdStartUpScriptVersion::KopiumEmpty
    }
}

/// A microservice of the placement driver.
#[derive(Clone, Copy, Debug, PartialEq, Eq, Structural)]
pub enum TidbClusterPdmsName {
    Tso,
    Scheduling,
}

impl Default for TidbClusterPdmsName {
    fn default() -> (r: TidbClusterPdmsName)
        ensures
            r == TidbClusterPdmsName::Tso,
    {
        TidbClusterPdmsName::Tso
    }
}

/// How the readiness of a microservice is probed.
#[derive(Clone, Copy, Debug, PartialEq, Eq, Structural)]
pub enum TidbClusterPdmsReadinessProbeType {
    Tcp,
    Command,
}

impl Default for TidbClusterPdmsReadinessProbeType {
    fn default() -> (r: TidbClusterPdmsReadinessProbeType)
        ensures
            r == TidbClusterPdmsReadinessProbeType::Tcp,
    {
        TidbClusterPdmsReadinessProbeType::Tcp
    }
}

/// The version of the script that starts a microservice.
#[derive(Clone, Copy, Debug, PartialEq, Eq, Structural)]
pub enum TidbClusterPdmsStartUpScriptVersion {
    KopiumEmpty,
    V1,
}

impl Default for TidbClusterPdmsStartUpScriptVersion {
    fn default() -> (r: TidbClusterPdmsStartUpScriptVersion)
        ensures
            r == TidbClusterPdmsStartUpScriptVersion::KopiumEmpty,
    {
        TidbClusterPdmsStartUpScriptVersion::KopiumEmpty
    }
}

/// How the readiness of a pump is probed.
#[derive(Clone, Copy, Debug, PartialEq, Eq, Structural)]
pub enum TidbClusterPumpReadinessProbeType {
    Tcp,
    Command,
}

impl Default for TidbClusterPumpReadinessProbeType {
    fn default() -> (r: TidbClusterPumpReadinessProbeType)
        ensures
            r == TidbClusterPumpReadinessProbeType::Tcp,
    {
        TidbClusterPumpReadinessProbeType::Tcp
    }
}

} // verus!
