//! The Processor Virtualization Activation Protocol: the per-processor
//! state machine (capture, presence check, stack switch, host activation)
//! and the top-level sequence that publishes the shared configuration once
//! and fans the per-processor run out to every logical processor.

use vstd::prelude::*;

use crate::config::ConfigCell;
use crate::config::SharedData;
use crate::config::retained_after;
use crate::config::select_host_resources;
use crate::config::select_resources_spec;
use crate::config::shape_ok;
use crate::config::shape_ok_spec;
use crate::machine::ContextSnapshot;
use crate::machine::Machine;
use crate::machine::capture_context;
use crate::machine::check_presence;
use crate::machine::hypervisor_present;
use crate::machine::jump_with_new_stack;
use crate::signature::signature_response_spec;

verus! {

/// How one processor's run of the activation sequence ended.  Both are
/// success: `AlreadyActive` is the defined idempotency outcome, not an
/// error.
#[derive(Clone, Copy, Debug, PartialEq, Eq, Structural)]
pub enum ProcessorOutcome {
    /// The processor was fresh; host activation ran here, exactly once.
    Virtualized,
    /// The processor was already a guest of this hypervisor; nothing ran.
    AlreadyActive,
}

/// The fatal errors of the top-level sequence.
#[derive(Clone, Copy, Debug, PartialEq, Eq, Structural)]
pub enum ActivationError {
    /// A per-processor vector of the configuration does not have one entry
    /// per logical processor.  Detected before any processor begins
    /// activation, never lazily through an out-of-bounds access.
    ConfigShapeMismatch,
}

/// The per-processor activation states.
#[derive(Clone, Copy, Debug, PartialEq, Eq, Structural)]
pub enum ActivationState {
    /// No activation attempted yet.
    Fresh,
    /// A Processor Context Snapshot was taken.
    ContextCaptured,
    /// The Presence Detector was evaluated.
    PresenceChecked,
    /// Execution moved onto the isolated hypervisor stack.
    StackSwitched,
    /// Host-side activation is running; from here nothing can be rolled
    /// back.
    HostActivating,
    /// Terminal: the processor runs as a guest of this hypervisor.
    AlreadyActive,
}

/// The transition relation of the per-processor state machine, where
/// `present` is the Presence Detector's answer on this processor.
pub open spec fn state_transition(s: ActivationState, t: ActivationState, present: bool) -> bool {
    match (s, t) {
        (ActivationState::Fresh, ActivationState::ContextCaptured) => true,
        (ActivationState::ContextCaptured, ActivationState::PresenceChecked) => true,
        (ActivationState::PresenceChecked, ActivationState::AlreadyActive) => present,
        (ActivationState::PresenceChecked, ActivationState::StackSwitched) => !present,
        (ActivationState::StackSwitched, ActivationState::HostActivating) => true,
        (ActivationState::HostActivating, ActivationState::AlreadyActive) => true,
        _ => false,
    }
}

/// The states one processor traverses, decided entirely by the presence
/// answer: an already-active processor stops after the presence query; a fresh one
/// goes through stack switch and host activation, whose hardware fork
/// re-emerges in the terminal state.
pub open spec fn activation_trace(present: bool) -> Seq<ActivationState> {
    if present {
        seq![
            ActivationState::Fresh,
            ActivationState::ContextCaptured,
            ActivationState::PresenceChecked,
            ActivationState::AlreadyActive,
        ]
    } else {
        seq![
            ActivationState::Fresh,
            ActivationState::ContextCaptured,
            ActivationState::PresenceChecked,
            ActivationState::StackSwitched,
            ActivationState::HostActivating,
            ActivationState::AlreadyActive,
        ]
    }
}

/// Both traces start fresh, end in the terminal state, and every step is a
/// transition of the state machine.
pub proof fn lemma_trace_valid(present: bool)
    ensures
        activation_trace(present).first() == ActivationState::Fresh,
        activation_trace(present).last() == ActivationState::AlreadyActive,
        forall|i: int|
            0 <= i < activation_trace(present).len() - 1 ==> state_transition(
                #[trigger] activation_trace(present)[i],
                activation_trace(present)[i + 1],
                present,
            ),
{
    let t = activation_trace(present);
    assert forall|i: int| 0 <= i < t.len() - 1 implies state_transition(
        #[trigger] t[i],
        t[i + 1],
        present,
    ) by {
        if present {
            assert(t.len() == 4);
        } else {
            assert(t.len() == 6);
        }
    }
}

/// The presence answer decides the run completely: any state sequence that
/// starts fresh, ends in the terminal state and steps only through the
/// transition relation is exactly the trace above — the state machine
/// allows no other run, and no run continues past the terminal state.
pub proof fn lemma_trace_unique(present: bool, t: Seq<ActivationState>)
    requires
        t.len() >= 1,
        t.first() == ActivationState::Fresh,
        t.last() == ActivationState::AlreadyActive,
        forall|i: int|
            0 <= i < t.len() - 1 ==> state_transition(#[trigger] t[i], t[i + 1], present),
    ensures
        t == activation_trace(present),
{
    assert(t.len() >= 2) by {
        if t.len() == 1 {
            assert(t.last() == t[0]);
        }
    }
    assert(state_transition(t[0], t[1], present));
    assert(t.len() >= 3) by {
        if t.len() == 2 {
            assert(t.last() == t[1]);
        }
    }
    assert(state_transition(t[1], t[2], present));
    assert(t.len() >= 4) by {
        if t.len() == 3 {
            assert(t.last() == t[2]);
        }
    }
    assert(state_transition(t[2], t[3], present));
    if present {
        assert(t.len() == 4) by {
            if t.len() > 4 {
                assert(state_transition(t[3], t[4], present));
            }
        }
        assert(t =~= activation_trace(present));
    } else {
        assert(t.len() >= 5) by {
            if t.len() == 4 {
                assert(t.last() == t[3]);
            }
        }
        assert(state_transition(t[3], t[4], present));
        assert(t.len() >= 6) by {
            if t.len() == 5 {
                assert(t.last() == t[4]);
            }
        }
        assert(state_transition(t[4], t[5], present));
        assert(t.len() == 6) by {
            if t.len() > 6 {
                assert(state_transition(t[5], t[6], present));
            }
        }
        assert(t =~= activation_trace(present));
    }
}

/// How one processor's run relates its pre-state, post-state and outcome,
/// for a given configuration and processor ordinal.
///
/// Afterwards the hypervisor is present either way.  A processor that was
/// already a guest is left completely untouched and reports
/// `AlreadyActive`; a fresh one reports `Virtualized` and re-emerges with
/// its captured registers restored, its stack memory byte-for-byte
/// unchanged, its ordinal's host resources installed, the signature
/// answered on the reserved leaf, and exactly one frame pushed onto the
/// isolated stack.
pub open spec fn activation_post(
    pre: Machine,
    post: Machine,
    o: ProcessorOutcome,
    config: SharedData,
    idx: int,
) -> bool {
    &&& hypervisor_present(post)
    &&& (o == ProcessorOutcome::AlreadyActive <==> hypervisor_present(pre))
    &&& (hypervisor_present(pre) ==> post == pre)
    &&& (!hypervisor_present(pre) ==> {
        &&& o == ProcessorOutcome::Virtualized
        &&& post.regs == pre.regs
        &&& post.guest_stack@ == pre.guest_stack@
        &&& post.host_stack@ == pre.host_stack@.push(pre.regs.rip)
        &&& post.leaf_response == signature_response_spec()
        &&& post.installed == Some(select_resources_spec(config, idx))
        &&& post.on_host_stack == false
    })
}

/// Runs the activation sequence on one logical processor: capture the
/// context, check presence, and — only on a fresh processor — switch to the
/// isolated stack and run host activation, resuming as the guest at the
/// captured context.  On an already-active processor this performs no call
/// to the activation entry and changes nothing.
pub fn run_activation(m: &mut Machine, config: &SharedData, idx: usize, nproc: usize) -> (o:
    ProcessorOutcome)
    requires
        old(m).wf(),
        !old(m).on_host_stack,
        shape_ok_spec(*config, nproc as nat),
        idx < nproc,
    ensures
        activation_post(*old(m), *final(m), o, *config, idx as int),
        final(m).wf(),
        !final(m).on_host_stack,
{
    // The snapshot is the guest's initial state, its instruction pointer the
    // point right after this capture.
    let snapshot: ContextSnapshot = capture_context(m);

    // On the first run the hypervisor is absent and the branch is taken; on
    // a run as guest it is present and the sequence bails out untouched.
    if !check_presence(m) {
        let resources = select_host_resources(config, idx, nproc);
        // Host-side setup must not run on the current stack: the guest will
        // resume on it and every byte above the captured stack pointer has
        // to survive.
        jump_with_new_stack(m, snapshot, resources);
        ProcessorOutcome::Virtualized
    } else {
        ProcessorOutcome::AlreadyActive
    }
}

/// Hands out one machine of the fan-out's vector for its processor's run.
fn machine_at(machines: &mut Vec<Machine>, i: usize) -> (m: &mut Machine)
    requires
        i < old(machines)@.len(),
    ensures
        *m == old(machines)@[i as int],
        final(machines)@ == old(machines)@.update(i as int, *final(m)),
{
    &mut machines[i]
}

/// Hyperjacks the simulated system: publishes the shared configuration
/// through the single-initialization cell, rejects a mis-shaped
/// configuration before any processor begins, and then runs the activation
/// sequence on every logical processor — the fan-out with barrier
/// semantics, returning only once each machine's run completed.
///
/// On success the returned vector reports, per processor ordinal, whether
/// host activation ran there or the processor was already active; either
/// way every processor answers the presence query afterwards.  The one
/// error is a shape mismatch, of the submitted configuration or of one
/// retained from an earlier publish; it leaves every machine untouched,
/// and when the submitted configuration itself is mis-shaped, nothing is
/// published either.
pub fn virtualize_system(
    hv_data: SharedData,
    cell: &mut ConfigCell,
    machines: &mut Vec<Machine>,
) -> (r: Result<Vec<ProcessorOutcome>, ActivationError>)
    requires
        forall|i: int|
            0 <= i < old(machines)@.len() ==> (#[trigger] old(machines)@[i]).wf() && !old(
                machines,
            )@[i].on_host_stack,
    ensures
        ({
            let n = old(machines)@.len();
            let cfg = retained_after(old(cell).stored(), hv_data);
            let submitted_ok = shape_ok_spec(hv_data, n as nat);
            let retained_ok = shape_ok_spec(cfg, n as nat);
            &&& (r is Err <==> !(submitted_ok && retained_ok))
            &&& (r matches Err(e) ==> e == ActivationError::ConfigShapeMismatch)
            &&& (!submitted_ok ==> *final(cell) == *old(cell))
            &&& (submitted_ok ==> final(cell).stored() == Some(cfg))
            &&& (r is Err ==> final(machines)@ == old(machines)@)
            &&& (r matches Ok(outcomes) ==> {
                &&& final(machines)@.len() == n
                &&& outcomes@.len() == n
                &&& forall|i: int|
                    0 <= i < n ==> activation_post(
                        old(machines)@[i],
                        final(machines)@[i],
                        #[trigger] outcomes@[i],
                        cfg,
                        i,
                    )
            })
        }),
{
    let n = machines.len();

    // A mis-shaped submission is a fatal configuration error: reject it
    // before publishing and before any processor begins.
    if !shape_ok(&hv_data, n) {
        return Err(ActivationError::ConfigShapeMismatch);
    }

    // Publish exactly once, strictly before the fan-out; a later caller's
    // configuration is discarded here and the retained one is read back.
    let _won = cell.publish(hv_data);
    match cell.get() {
        None => {
            // The cell retains a value from the publish just above.
            assert(false);
            Err(ActivationError::ConfigShapeMismatch)
        },
        Some(cfg) => {
            // The retained configuration may come from an earlier publish;
            // its shape too must hold for this processor count before any
            // indexed access.
            if !shape_ok(cfg, n) {
                return Err(ActivationError::ConfigShapeMismatch);
            }

            let ghost pre = machines@;
            let mut outcomes: Vec<ProcessorOutcome> = Vec::new();
            let mut i: usize = 0;
            while i < n
                invariant
                    i <= n,
                    machines@.len() == n,
                    outcomes@.len() == i as int,
                    pre.len() == n,
                    shape_ok_spec(*cfg, n as nat),
                    forall|j: int|
                        i <= j < n ==> (#[trigger] machines@[j]) == pre[j] && machines@[j].wf()
                            && !machines@[j].on_host_stack,
                    forall|j: int|
                        0 <= j < i ==> activation_post(
                            pre[j],
                            machines@[j],
                            #[trigger] outcomes@[j],
                            *cfg,
                            j,
                        ),
                decreases n - i,
            {
                let m = machine_at(machines, i);
                let o = run_activation(m, cfg, i, n);
                outcomes.push(o);
                i = i + 1;
            }
            Ok(outcomes)
        },
    }
}

/// Idempotency of the per-processor sequence: a second run on a processor
/// that a first run left activated performs zero calls to the Host
/// Activation Entry — it reports `AlreadyActive` and leaves the machine,
/// including the isolated stack and the installed resources, exactly as the
/// first run left it.
pub proof fn lemma_activation_idempotent(
    m0: Machine,
    m1: Machine,
    m2: Machine,
    o1: ProcessorOutcome,
    o2: ProcessorOutcome,
    config: SharedData,
    idx: int,
)
    requires
        activation_post(m0, m1, o1, config, idx),
        activation_post(m1, m2, o2, config, idx),
    ensures
        o2 == ProcessorOutcome::AlreadyActive,
        m2 == m1,
{
}

/// Idempotency of the whole fan-out: when a first invocation of the
/// top-level sequence completed on every processor, a second invocation —
/// under whichever configuration it reads — performs zero calls to the Host
/// Activation Entry: every processor reports `AlreadyActive` and no machine
/// changes at all.
pub proof fn lemma_system_idempotent(
    pre: Seq<Machine>,
    mid: Seq<Machine>,
    post: Seq<Machine>,
    o1: Seq<ProcessorOutcome>,
    o2: Seq<ProcessorOutcome>,
    cfg1: SharedData,
    cfg2: SharedData,
)
    requires
        pre.len() == mid.len(),
        mid.len() == post.len(),
        forall|i: int|
            0 <= i < pre.len() ==> activation_post(pre[i], mid[i], #[trigger] o1[i], cfg1, i),
        forall|i: int|
            0 <= i < pre.len() ==> activation_post(mid[i], post[i], #[trigger] o2[i], cfg2, i),
    ensures
        forall|i: int|
            0 <= i < pre.len() ==> #[trigger] o2[i] == ProcessorOutcome::AlreadyActive && post[i]
                == mid[i],
{
    assert forall|i: int|
        0 <= i < pre.len() implies #[trigger] o2[i] == ProcessorOutcome::AlreadyActive && post[i]
        == mid[i] by {
        assert(activation_post(pre[i], mid[i], o1[i], cfg1, i));
        assert(activation_post(mid[i], post[i], o2[i], cfg2, i));
    }
}

/// Stack-capture fidelity: whatever one run of the sequence did, every byte
/// of the caller's state at or above the captured stack pointer is
/// unmodified afterwards, and the hypervisor answers the presence query.
pub proof fn lemma_guest_stack_preserved(
    pre: Machine,
    post: Machine,
    o: ProcessorOutcome,
    config: SharedData,
    idx: int,
    addr: int,
)
    requires
        activation_post(pre, post, o, config, idx),
        pre.regs.rsp <= addr < pre.guest_stack@.len(),
    ensures
        post.guest_stack@[addr] == pre.guest_stack@[addr],
        hypervisor_present(post),
{
}

} // verus!
