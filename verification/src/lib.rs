//! Bring-up core of a type-1 hypervisor that takes over an already-running
//! machine: the per-processor virtualization activation protocol.
//!
//! The protocol, per logical processor: capture the processor's
//! architectural state as the future guest's initial context, detect
//! through a reserved CPU feature-query leaf whether this hypervisor is
//! already active on the processor, and, if it is not, move execution onto
//! a private hypervisor stack and run host-side activation so that
//! execution later re-emerges at the captured instruction pointer as the
//! guest.  Running the sequence on a processor that is already a guest is a
//! no-op, which makes activation idempotent.
//!
//! Architecture-specific work (control-structure construction, the VM-exit
//! handler, processor enumeration) belongs to external collaborators; the
//! protocol is modelled over an explicit simulated processor so that its
//! invariants — idempotency, stack isolation, state-capture fidelity, the
//! single-initialization configuration lifecycle — are stated and proved.

mod activation;
mod config;
mod cpu;
mod machine;
mod signature;

pub use activation::ActivationError;
pub use activation::ActivationState;
pub use activation::ProcessorOutcome;
pub use activation::activation_post;
pub use activation::activation_trace;
pub use activation::lemma_activation_idempotent;
pub use activation::lemma_guest_stack_preserved;
pub use activation::lemma_system_idempotent;
pub use activation::lemma_trace_valid;
pub use activation::lemma_trace_unique;
pub use activation::run_activation;
pub use activation::virtualize_system;
pub use activation::state_transition;
pub use config::ConfigCell;
pub use config::HostResources;
pub use config::select_host_resources;
pub use config::select_resources_spec;
pub use config::GdtTss;
pub use config::PagingStructures;
pub use config::SharedData;
pub use config::lemma_first_publisher_wins;
pub use config::retained_after;
pub use config::shape_ok;
pub use config::shape_ok_spec;
pub use cpu::is_our_hypervisor_present;
pub use cpu::probe_current_processor;
pub use machine::ContextSnapshot;
pub use machine::Machine;
pub use machine::RegisterFile;
pub use machine::capture_context;
pub use machine::check_presence;
pub use machine::host_activation_entry;
pub use machine::hypervisor_present;
pub use machine::jump_with_new_stack;
pub use machine::query_vendor_leaf;
pub use signature::HV_CPUID_INTERFACE;
pub use signature::HV_CPUID_VENDOR_AND_MAX_FUNCTIONS;
pub use signature::LeafResponse;
pub use signature::OUR_HV_VENDOR_NAME_EBX;
pub use signature::OUR_HV_VENDOR_NAME_ECX;
pub use signature::OUR_HV_VENDOR_NAME_EDX;
pub use signature::is_signature_response;
pub use signature::signature_matches;
pub use signature::signature_response;
pub use signature::signature_response_spec;
