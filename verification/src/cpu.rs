//! The presence probe on the processor this code actually runs on: the one
//! place where the protocol leaves the simulated machine and executes the
//! real feature-query instruction.

use vstd::prelude::*;

use crate::signature::HV_CPUID_VENDOR_AND_MAX_FUNCTIONS;
use crate::signature::LeafResponse;
use crate::signature::is_signature_response;
use crate::signature::signature_matches;

verus! {

/// Relies on x86::cpuid::native_cpuid::cpuid_count: executes the CPUID
/// instruction for the given leaf (subleaf 0) and returns the four result
/// registers.  What they hold depends on the processor and on whatever
/// hypervisor answers the leaf there, so nothing is promised about the
/// values.
#[verifier::external_body]
fn cpuid_leaf(leaf: u32) -> (r: LeafResponse)
{
    let raw = x86::cpuid::native_cpuid::cpuid_count(leaf, 0);
    LeafResponse { eax: raw.eax, ebx: raw.ebx, ecx: raw.ecx, edx: raw.edx }
}

/// Queries the reserved vendor leaf on the current processor and decides
/// presence from the answer: the result is true exactly when the returned
/// response carries the signature, whatever the hardware answered.
pub fn probe_current_processor() -> (r: (LeafResponse, bool))
    ensures
        r.1 == signature_matches(r.0),
{
    let response = cpuid_leaf(HV_CPUID_VENDOR_AND_MAX_FUNCTIONS);
    let present = is_signature_response(&response);
    (response, present)
}

/// Whether this hypervisor is active on the processor executing this call.
/// The answer is the hardware's; only the comparison against the signature
/// is pinned down, through `probe_current_processor`.
pub fn is_our_hypervisor_present() -> (present: bool)
{
    let (_, present) = probe_current_processor();
    present
}

} // verus!
