//! Extraction of a verified archive into a target directory. The unpacking
//! itself is an external utility invoked by the driving layer; what is
//! verified here is the rule around it: the target directory must already
//! exist — extraction never creates directory structures, as a safety
//! measure against path confusion — and the utility's exit status is the
//! sole success signal. Checksum verification is not this component's job
//! and must have run first.

use vstd::prelude::*;
use crate::ProvisioningError;

verus! {

/// The outcome of one extraction.
pub struct ExtractResult {
    pub unpacked: bool,
}

/// Whether an extraction may start: the target directory must already
/// exist, else the result is exactly `TargetMissing`.
pub fn plan_extraction(target_exists: bool) -> (r: Result<(), ProvisioningError>)
    ensures
        target_exists ==> r is Ok,
        !target_exists ==> r == Result::<(), ProvisioningError>::Err(
            ProvisioningError::TargetMissing,
        ),
{
    if target_exists {
        Ok(())
    } else {
        Err(ProvisioningError::TargetMissing)
    }
}

/// Reads the unpacking utility's success signal: a failed exit is exactly
/// `ExtractionFailed`, a clean one is the successful result.
pub fn interpret_unpack(status_ok: bool) -> (r: Result<ExtractResult, ProvisioningError>)
    ensures
        status_ok ==> (r matches Ok(x) && x.unpacked),
        !status_ok ==> r == Result::<ExtractResult, ProvisioningError>::Err(
            ProvisioningError::ExtractionFailed,
        ),
{
    if status_ok {
        Ok(ExtractResult { unpacked: true })
    } else {
        Err(ProvisioningError::ExtractionFailed)
    }
}

} // verus!
