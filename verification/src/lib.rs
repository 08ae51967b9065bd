//! Provisioning of a Java runtime artifact: cache lookup, catalog
//! negotiation, download staging, checksum verification and extraction
//! planning, orchestrated by a state machine.

use vstd::prelude::*;

pub mod cache;
pub mod catalog;
pub mod digest;
pub mod endpoints;
pub mod extract;
pub mod hex;
pub mod naming;
pub mod integrity;
pub mod pipeline;

verus! {

/// The failure taxonomy of the provisioning pipeline. Every component
/// surfaces a typed failure to its caller; none is retried internally.
#[derive(Clone, Copy, Debug, PartialEq, Eq, Structural)]
pub enum ProvisioningError {
    /// The remote release registry could not be reached.
    CatalogUnreachable,
    /// The registry response could not be parsed in the expected shape.
    CatalogMalformed,
    /// The requested version is absent from the registry's offerings.
    VersionNotOffered,
    /// The transport failed while fetching the artifact.
    DownloadFailed,
    /// The download exceeded its configured timeout.
    DownloadTimedOut,
    /// The staged artifact's digest matched none of the published checksums.
    ChecksumMismatch,
    /// The extraction target directory does not exist.
    TargetMissing,
    /// The archive could not be unpacked.
    ExtractionFailed,
    /// The cache root itself could not be inspected.
    IOUnavailable,
}

} // verus!
