//! The presence signature: a fixed 12-byte vendor identifier that an
//! already-activated processor answers when the reserved feature-query leaf
//! is queried, and the comparison that decides presence.

use vstd::prelude::*;

verus! {

/// The lowest hypervisor-reserved feature-query leaf: vendor and maximum
/// supported function.  Querying it on an activated guest must return the
/// presence signature in the EBX, ECX and EDX result registers.
pub const HV_CPUID_VENDOR_AND_MAX_FUNCTIONS: u32 = 0x4000_0000;

/// The adjacent reserved leaf, set aside for interface-version queries; its
/// answer is owed by the VM-exit handler collaborator.
pub const HV_CPUID_INTERFACE: u32 = 0x4000_0001;

/// First signature word, the bytes `"Bare"` in little-endian order.
pub const OUR_HV_VENDOR_NAME_EBX: u32 = 0x6572_6142;

/// Second signature word, the bytes `"viso"` in little-endian order.
pub const OUR_HV_VENDOR_NAME_ECX: u32 = 0x6f73_6976;

/// Third signature word, the bytes `"r!  "` in little-endian order.
pub const OUR_HV_VENDOR_NAME_EDX: u32 = 0x2020_2172;

/// The four 32-bit result registers of one feature-query instruction.
#[derive(Clone, Copy, Debug, PartialEq, Eq, Structural)]
pub struct LeafResponse {
    pub eax: u32,
    pub ebx: u32,
    pub ecx: u32,
    pub edx: u32,
}

/// A response carries the presence signature exactly when all three
/// signature words match; the EAX register plays no part in the decision.
pub open spec fn signature_matches(r: LeafResponse) -> bool {
    &&& r.ebx == OUR_HV_VENDOR_NAME_EBX
    &&& r.ecx == OUR_HV_VENDOR_NAME_ECX
    &&& r.edx == OUR_HV_VENDOR_NAME_EDX
}

/// The Presence Detector's comparison: true iff all three signature words
/// match exactly.  A corrupted or absent word in any of the three registers
/// makes it false.
pub fn is_signature_response(r: &LeafResponse) -> (present: bool)
    ensures
        present == signature_matches(*r),
{
    r.ebx == OUR_HV_VENDOR_NAME_EBX && r.ecx == OUR_HV_VENDOR_NAME_ECX
        && r.edx == OUR_HV_VENDOR_NAME_EDX
}

/// The response that an activated guest's feature-query handler must give on
/// the vendor leaf: the signature words, with the interface leaf number as
/// the maximum supported function.
pub open spec fn signature_response_spec() -> LeafResponse {
    LeafResponse {
        eax: HV_CPUID_INTERFACE,
        ebx: OUR_HV_VENDOR_NAME_EBX,
        ecx: OUR_HV_VENDOR_NAME_ECX,
        edx: OUR_HV_VENDOR_NAME_EDX,
    }
}

/// Builds the signature response; it satisfies the Presence Detector by
/// construction.
pub fn signature_response() -> (r: LeafResponse)
    ensures
        r == signature_response_spec(),
        signature_matches(r),
{
    LeafResponse {
        eax: HV_CPUID_INTERFACE,
        ebx: OUR_HV_VENDOR_NAME_EBX,
        ecx: OUR_HV_VENDOR_NAME_ECX,
        edx: OUR_HV_VENDOR_NAME_EDX,
    }
}

} // verus!
