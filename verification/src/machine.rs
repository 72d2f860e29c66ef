//! The simulated logical processor that the activation protocol runs
//! against: a register file, the to-be-guest stack, the hypervisor's own
//! isolated stack, and the answer the reserved feature-query leaf gives on
//! this processor.  Unit-level reasoning substitutes this model for real
//! hardware; the protocol's invariants are stated and proved over it.

use vstd::prelude::*;

use crate::config::HostResources;
use crate::signature::LeafResponse;
use crate::signature::signature_matches;
use crate::signature::signature_response;
use crate::signature::signature_response_spec;
use crate::signature::is_signature_response;

verus! {

/// One logical processor's architectural register state: general-purpose
/// registers, flags, instruction pointer, stack pointer and the two stack
/// and code segment selectors.
#[derive(Clone, Copy, Debug, PartialEq, Eq, Structural)]
pub struct RegisterFile {
    pub rax: u64,
    pub rbx: u64,
    pub rcx: u64,
    pub rdx: u64,
    pub rsi: u64,
    pub rdi: u64,
    pub rbp: u64,
    /// Byte index into the guest stack; the stack grows downwards, so the
    /// caller's live state occupies the bytes at `rsp` and above.
    pub rsp: u64,
    pub r8: u64,
    pub r9: u64,
    pub r10: u64,
    pub r11: u64,
    pub r12: u64,
    pub r13: u64,
    pub r14: u64,
    pub r15: u64,
    pub rflags: u64,
    /// The address at which execution resumes when this state is restored.
    pub rip: u64,
    pub cs: u16,
    pub ss: u16,
}

/// A Processor Context Snapshot: the complete, restorable record of one
/// processor's state at a single instruction boundary.  Restoring it is
/// behaviourally identical to the capture call simply returning — provided
/// the stack bytes at and above the recorded stack pointer are untouched in
/// between.
#[derive(Clone, Copy, Debug, PartialEq, Eq, Structural)]
pub struct ContextSnapshot {
    pub regs: RegisterFile,
}

/// One simulated logical processor.
#[derive(Clone, Debug, PartialEq, Eq)]
pub struct Machine {
    pub regs: RegisterFile,
    /// The memory of the stack the processor currently runs on and will keep
    /// as the guest; `regs.rsp` indexes into it.
    pub guest_stack: Vec<u8>,
    /// The hypervisor-owned isolated stack, as a push-down stack of 8-byte
    /// slots.  Host-side activation may only ever write here.
    pub host_stack: Vec<u64>,
    /// Whether execution currently runs on the isolated stack.
    pub on_host_stack: bool,
    /// What the reserved vendor feature-query leaf answers on this
    /// processor.
    pub leaf_response: LeafResponse,
    /// The host resources installed by activation, if it ran here.
    pub installed: Option<HostResources>,
}

/// This hypervisor is active on the processor exactly when the processor's
/// feature-query answer carries the presence signature.
pub open spec fn hypervisor_present(m: Machine) -> bool {
    signature_matches(m.leaf_response)
}

impl Machine {
    /// Well-formedness: the stack pointer stays within the guest stack
    /// memory.
    pub open spec fn wf(&self) -> bool {
        self.regs.rsp as int <= self.guest_stack@.len() as int
    }

    /// Decides well-formedness.
    pub fn is_wf(&self) -> (r: bool)
        ensures
            r == self.wf(),
    {
        self.regs.rsp <= self.guest_stack.len() as u64
    }
}

/// Captures the calling processor's state as a Processor Context Snapshot.
/// A pure read: the machine is untouched, no control transfer occurs, and
/// the recorded instruction pointer is the machine's own — the point right
/// after the capture, where a restore will resume.
pub fn capture_context(m: &Machine) -> (s: ContextSnapshot)
    ensures
        s.regs == m.regs,
{
    ContextSnapshot { regs: m.regs }
}

/// Queries the reserved vendor feature-query leaf on the simulated
/// processor.
pub fn query_vendor_leaf(m: &Machine) -> (r: LeafResponse)
    ensures
        r == m.leaf_response,
{
    m.leaf_response
}

/// The Presence Detector: queries the reserved vendor leaf and compares the
/// three result words against the presence signature.  True iff all three
/// match exactly; no side effects, and safe where no hypervisor answers the
/// leaf at all.
pub fn check_presence(m: &Machine) -> (present: bool)
    ensures
        present == hypervisor_present(*m),
{
    let r = query_vendor_leaf(m);
    is_signature_response(&r)
}

/// The simulated Host Activation Entry: stands in for the
/// architecture-specific collaborator that builds control structures,
/// enables the virtualization extension and triggers the hardware fork.
/// It must run on the isolated stack; its writes land there and nowhere
/// else.  It installs the given host resources, makes the feature-query
/// leaf answer with the presence signature, and "returns" by resuming at
/// the snapshot — the guest re-emerges with the captured register state and
/// its stack memory byte-for-byte intact.
pub fn host_activation_entry(m: &mut Machine, snapshot: ContextSnapshot, resources: HostResources)
    requires
        old(m).on_host_stack,
    ensures
        final(m).leaf_response == signature_response_spec(),
        final(m).installed == Some(resources),
        final(m).regs == snapshot.regs,
        final(m).on_host_stack == false,
        final(m).guest_stack@ == old(m).guest_stack@,
        final(m).host_stack@ == old(m).host_stack@.push(snapshot.regs.rip),
{
    // Host-side setup works exclusively on the isolated stack: the frame it
    // needs (here, the resume address it was handed) is pushed there.
    m.host_stack.push(snapshot.regs.rip);
    m.installed = Some(resources);
    // From now on the reserved leaf answers with the signature.
    m.leaf_response = signature_response();
    // The hardware fork: execution re-emerges at the snapshot's recorded
    // instruction pointer, as the guest, back on the original stack.
    m.regs = snapshot.regs;
    m.on_host_stack = false;
}

/// The Stack Isolation Switch: moves execution onto the hypervisor-owned
/// stack and only then runs the activation entry, handing the captured
/// context along.  Control never returns onto the original stack directly;
/// it re-emerges there only through the snapshot restore, after activation,
/// with every byte of the guest stack unchanged.
pub fn jump_with_new_stack(m: &mut Machine, snapshot: ContextSnapshot, resources: HostResources)
    requires
        !old(m).on_host_stack,
    ensures
        final(m).leaf_response == signature_response_spec(),
        final(m).installed == Some(resources),
        final(m).regs == snapshot.regs,
        final(m).on_host_stack == false,
        final(m).guest_stack@ == old(m).guest_stack@,
        final(m).host_stack@ == old(m).host_stack@.push(snapshot.regs.rip),
{
    m.on_host_stack = true;
    host_activation_entry(m, snapshot, resources);
}

} // verus!
