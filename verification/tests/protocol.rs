//! Tests of the activation protocol over the simulated processor: presence
//! detection, stack-capture fidelity, the single-initialization guard,
//! idempotency, the configuration-shape check, and the end-to-end runs.

use hvcore::ActivationError;
use hvcore::ConfigCell;
use hvcore::ContextSnapshot;
use hvcore::GdtTss;
use hvcore::LeafResponse;
use hvcore::Machine;
use hvcore::PagingStructures;
use hvcore::ProcessorOutcome;
use hvcore::RegisterFile;
use hvcore::SharedData;
use hvcore::HV_CPUID_INTERFACE;
use hvcore::HV_CPUID_VENDOR_AND_MAX_FUNCTIONS;
use hvcore::OUR_HV_VENDOR_NAME_EBX;
use hvcore::OUR_HV_VENDOR_NAME_ECX;
use hvcore::OUR_HV_VENDOR_NAME_EDX;
use hvcore::capture_context;
use hvcore::check_presence;
use hvcore::is_our_hypervisor_present;
use hvcore::is_signature_response;
use hvcore::jump_with_new_stack;
use hvcore::probe_current_processor;
use hvcore::run_activation;
use hvcore::select_host_resources;
use hvcore::shape_ok;
use hvcore::signature_response;
use hvcore::virtualize_system;

fn sample_regs() -> RegisterFile {
    RegisterFile {
        rax: 0x11,
        rbx: 0x22,
        rcx: 0x33,
        rdx: 0x44,
        rsi: 0x55,
        rdi: 0x66,
        rbp: 0x77,
        rsp: 8,
        r8: 0x88,
        r9: 0x99,
        r10: 0xaa,
        r11: 0xbb,
        r12: 0xcc,
        r13: 0xdd,
        r14: 0xee,
        r15: 0xff,
        rflags: 0x202,
        rip: 0x4010,
        cs: 0x08,
        ss: 0x10,
    }
}

fn fresh_machine() -> Machine {
    Machine {
        regs: sample_regs(),
        guest_stack: vec![0xde, 0xad, 0xbe, 0xef, 0x01, 0x02, 0x03, 0x04, 0x51, 0x52, 0x53, 0x54],
        host_stack: Vec::new(),
        on_host_stack: false,
        leaf_response: LeafResponse { eax: 0, ebx: 0, ecx: 0, edx: 0 },
        installed: None,
    }
}

fn default_config() -> SharedData {
    SharedData { host_pt: None, host_idt: None, host_gdt_and_tss: None }
}

#[test]
fn detector_rejects_corrupt_or_missing_words() {
    // All three words zeroed, as on hardware with no hypervisor present.
    let zeroed = LeafResponse { eax: 0, ebx: 0, ecx: 0, edx: 0 };
    assert!(!is_signature_response(&zeroed));

    // Each signature word corrupted on its own.
    let good = signature_response();
    let bad_ebx = LeafResponse { ebx: good.ebx ^ 1, ..good };
    let bad_ecx = LeafResponse { ecx: good.ecx ^ 1, ..good };
    let bad_edx = LeafResponse { edx: good.edx ^ 1, ..good };
    assert!(!is_signature_response(&bad_ebx));
    assert!(!is_signature_response(&bad_ecx));
    assert!(!is_signature_response(&bad_edx));

    // Each signature word omitted on its own.
    let no_ebx = LeafResponse { ebx: 0, ..good };
    let no_ecx = LeafResponse { ecx: 0, ..good };
    let no_edx = LeafResponse { edx: 0, ..good };
    assert!(!is_signature_response(&no_ebx));
    assert!(!is_signature_response(&no_ecx));
    assert!(!is_signature_response(&no_edx));

    // True iff all three match exactly; EAX plays no part.
    assert!(is_signature_response(&good));
    let other_eax = LeafResponse { eax: 0x1234_5678, ..good };
    assert!(is_signature_response(&other_eax));
}

#[test]
fn signature_words_spell_the_vendor_string() {
    let mut bytes = Vec::new();
    bytes.extend_from_slice(&OUR_HV_VENDOR_NAME_EBX.to_le_bytes());
    bytes.extend_from_slice(&OUR_HV_VENDOR_NAME_ECX.to_le_bytes());
    bytes.extend_from_slice(&OUR_HV_VENDOR_NAME_EDX.to_le_bytes());
    assert_eq!(bytes, b"Barevisor!  ".to_vec());
    assert_eq!(HV_CPUID_VENDOR_AND_MAX_FUNCTIONS, 0x4000_0000);
    assert_eq!(HV_CPUID_INTERFACE, 0x4000_0001);
}

#[test]
fn switch_and_activate_preserves_stack_and_installs_presence() {
    let mut m = fresh_machine();
    let stack_before = m.guest_stack.clone();
    let snapshot: ContextSnapshot = capture_context(&m);
    assert_eq!(snapshot.regs, m.regs);
    assert!(!check_presence(&m));

    let cfg = default_config();
    let resources = select_host_resources(&cfg, 0, 1);
    jump_with_new_stack(&mut m, snapshot, resources);

    // The Presence Detector now reports true.
    assert!(check_presence(&m));
    // Execution re-emerged at the snapshot: registers restored exactly.
    assert_eq!(m.regs, snapshot.regs);
    assert_eq!(m.regs.rip, 0x4010);
    // The caller's local state at and above the captured stack pointer is
    // byte-for-byte unmodified (as is the whole guest stack).
    assert_eq!(&m.guest_stack[8..], &stack_before[8..]);
    assert_eq!(m.guest_stack, stack_before);
    // Host-side setup wrote only to the isolated stack.
    assert_eq!(m.host_stack, vec![0x4010]);
    assert!(!m.on_host_stack);
}

#[test]
fn first_publisher_wins_on_the_config_cell() {
    let a = SharedData { host_pt: Some(PagingStructures { root: 0x1000 }), host_idt: None, host_gdt_and_tss: None };
    let b = SharedData { host_pt: Some(PagingStructures { root: 0x2000 }), host_idt: None, host_gdt_and_tss: None };

    // Two publish attempts with different configurations: exactly one is
    // retained by all subsequent readers.
    let mut cell = ConfigCell::new();
    assert!(cell.get().is_none());
    assert!(cell.publish(a.clone()));
    assert!(!cell.publish(b.clone()));
    let seen = cell.get().as_ref().expect("published");
    assert_eq!(seen.host_pt, Some(PagingStructures { root: 0x1000 }));

    // The discarded configuration has no observable effect: the cell reads
    // the same as one that never saw it.
    let mut cell_without_loser = ConfigCell::new();
    assert!(cell_without_loser.publish(a));
    assert_eq!(
        cell_without_loser.get().as_ref().unwrap().host_pt,
        cell.get().as_ref().unwrap().host_pt
    );

    // In the opposite order the other configuration wins.
    let mut cell2 = ConfigCell::new();
    assert!(cell2.publish(b));
    assert_eq!(cell2.get().as_ref().unwrap().host_pt, Some(PagingStructures { root: 0x2000 }));
}

#[test]
fn mismatched_vectors_are_rejected_before_fanout() {
    // Two processors, but only one IDT entry.
    let bad = SharedData {
        host_pt: None,
        host_idt: Some(vec![0x5000]),
        host_gdt_and_tss: None,
    };
    assert!(!shape_ok(&bad, 2));

    let mut cell = ConfigCell::new();
    let mut machines = vec![fresh_machine(), fresh_machine()];
    let before = machines.clone();
    let r = virtualize_system(bad, &mut cell, &mut machines);
    assert_eq!(r, Err(ActivationError::ConfigShapeMismatch));
    // Rejected before any processor began: machines untouched, nothing
    // published.
    assert_eq!(machines, before);
    assert!(cell.get().is_none());

    // A GDT/TSS vector of the wrong length is rejected the same way.
    let bad_gdt = SharedData {
        host_pt: None,
        host_idt: None,
        host_gdt_and_tss: Some(vec![GdtTss { gdt_base: 0x6000, gdt_limit: 0x7f, tss_base: 0x7000 }]),
    };
    assert!(!shape_ok(&bad_gdt, 2));
    let r2 = virtualize_system(bad_gdt, &mut cell, &mut machines);
    assert_eq!(r2, Err(ActivationError::ConfigShapeMismatch));

    // With one entry per processor the same shapes pass.
    let good = SharedData {
        host_pt: None,
        host_idt: Some(vec![0x5000, 0x5010]),
        host_gdt_and_tss: None,
    };
    assert!(shape_ok(&good, 2));
}

#[test]
fn end_to_end_single_processor_first_run() {
    let mut cell = ConfigCell::new();
    let mut machines = vec![fresh_machine()];
    let stack_before = machines[0].guest_stack.clone();

    assert!(!check_presence(&machines[0]));
    let r = virtualize_system(SharedData::default(), &mut cell, &mut machines);

    // capture -> presence=false -> switch -> activate -> (simulated fork)
    // -> presence=true; exactly one "virtualized" outcome for the
    // processor.
    let outcomes = r.expect("default configuration is well-shaped");
    assert_eq!(outcomes, vec![ProcessorOutcome::Virtualized]);
    assert!(check_presence(&machines[0]));
    assert_eq!(machines[0].guest_stack, stack_before);
    assert_eq!(machines[0].regs, sample_regs());
    assert_eq!(machines[0].host_stack.len(), 1);
}

#[test]
fn end_to_end_second_invocation_is_a_no_op() {
    let mut cell = ConfigCell::new();
    let mut machines = vec![fresh_machine()];
    let r1 = virtualize_system(SharedData::default(), &mut cell, &mut machines);
    assert_eq!(r1.unwrap(), vec![ProcessorOutcome::Virtualized]);
    let after_first = machines.clone();

    // Same processor, sequence invoked again: presence is true on the first
    // check, zero activation attempts, zero additional structures
    // allocated.
    let r2 = virtualize_system(SharedData::default(), &mut cell, &mut machines);
    assert_eq!(r2.unwrap(), vec![ProcessorOutcome::AlreadyActive]);
    assert_eq!(machines, after_first);
    assert_eq!(machines[0].host_stack.len(), 1);
}

#[test]
fn per_processor_run_is_idempotent() {
    let cfg = default_config();
    let mut m = fresh_machine();
    let o1 = run_activation(&mut m, &cfg, 0, 1);
    assert_eq!(o1, ProcessorOutcome::Virtualized);
    let after_first = m.clone();

    let o2 = run_activation(&mut m, &cfg, 0, 1);
    assert_eq!(o2, ProcessorOutcome::AlreadyActive);
    assert_eq!(m, after_first);
}

#[test]
fn fanout_selects_each_processors_resources() {
    let cfg = SharedData {
        host_pt: Some(PagingStructures { root: 0x9000 }),
        host_idt: Some(vec![0x5000, 0x5010]),
        host_gdt_and_tss: Some(vec![
            GdtTss { gdt_base: 0x6000, gdt_limit: 0x7f, tss_base: 0x7000 },
            GdtTss { gdt_base: 0x6080, gdt_limit: 0x7f, tss_base: 0x7068 },
        ]),
    };
    let mut cell = ConfigCell::new();
    let mut machines = vec![fresh_machine(), fresh_machine()];
    let outcomes = virtualize_system(cfg, &mut cell, &mut machines).unwrap();
    assert_eq!(outcomes, vec![ProcessorOutcome::Virtualized, ProcessorOutcome::Virtualized]);

    let r0 = machines[0].installed.as_ref().unwrap();
    let r1 = machines[1].installed.as_ref().unwrap();
    assert_eq!(r0.host_pt, Some(PagingStructures { root: 0x9000 }));
    assert_eq!(r1.host_pt, Some(PagingStructures { root: 0x9000 }));
    assert_eq!(r0.host_idt_base, Some(0x5000));
    assert_eq!(r1.host_idt_base, Some(0x5010));
    assert_eq!(r0.host_gdt_and_tss.unwrap().tss_base, 0x7000);
    assert_eq!(r1.host_gdt_and_tss.unwrap().tss_base, 0x7068);
}

#[test]
fn mixed_fresh_and_active_processors() {
    let mut cell = ConfigCell::new();
    let fresh = fresh_machine();
    let mut active = fresh_machine();
    // Activate the second processor ahead of the fan-out.
    let cfg = default_config();
    run_activation(&mut active, &cfg, 1, 2);
    let active_before = active.clone();

    let mut machines = vec![fresh, active];
    let outcomes = virtualize_system(default_config(), &mut cell, &mut machines).unwrap();
    assert_eq!(outcomes, vec![ProcessorOutcome::Virtualized, ProcessorOutcome::AlreadyActive]);
    assert!(check_presence(&machines[0]));
    assert_eq!(machines[1], active_before);
}

#[test]
fn probing_the_real_processor_is_consistent() {
    // Whatever hypervisor (if any) this host runs under, the probe's
    // answer must go through the signature comparison on the hardware's
    // answer.
    let (response, present) = probe_current_processor();
    assert_eq!(present, is_signature_response(&response));
    assert_eq!(present, is_our_hypervisor_present());
}
