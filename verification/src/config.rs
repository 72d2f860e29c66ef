//! The Shared Hypervisor Configuration: optional host-side paging and
//! descriptor resources, its per-processor shape invariant, and the
//! single-initialization cell through which it is published once and read
//! for the rest of the session.

use vstd::prelude::*;

verus! {

/// Host paging structures, reduced to the physical address of the root
/// table.  Construction of the tables themselves belongs to an external
/// collaborator; the protocol only carries and selects them.
#[derive(Clone, Copy, Debug, PartialEq, Eq, Structural)]
pub struct PagingStructures {
    pub root: u64,
}

/// One processor's host descriptor-table/task-state pair, reduced to the
/// table base addresses and limit that activation installs.
#[derive(Clone, Copy, Debug, PartialEq, Eq, Structural)]
pub struct GdtTss {
    pub gdt_base: u64,
    pub gdt_limit: u16,
    pub tss_base: u64,
}

/// A collection of data that the hypervisor depends on for its entire
/// lifespan.  `None` for a field means host and guest share the currently
/// installed structures for that resource; `Some` means the hypervisor
/// privately owns copies — one per logical processor for the two vectors,
/// indexed by processor ordinal.
#[derive(Clone, Debug)]
pub struct SharedData {
    /// The paging structures for the hypervisor.
    pub host_pt: Option<PagingStructures>,
    /// The IDT base for the hypervisor, one per logical processor.
    pub host_idt: Option<Vec<u64>>,
    /// The GDT and TSS for the hypervisor, one per logical processor.
    pub host_gdt_and_tss: Option<Vec<GdtTss>>,
}

impl Default for SharedData {
    /// The default configuration: every resource shared with the guest.
    fn default() -> (d: SharedData)
        ensures
            d.host_pt is None,
            d.host_idt is None,
            d.host_gdt_and_tss is None,
    {
        SharedData { host_pt: None, host_idt: None, host_gdt_and_tss: None }
    }
}

/// The configuration's shape invariant: each per-processor vector that is
/// present has exactly one entry per logical processor.
pub open spec fn shape_ok_spec(d: SharedData, nproc: nat) -> bool {
    &&& (d.host_idt matches Some(v) ==> v@.len() == nproc)
    &&& (d.host_gdt_and_tss matches Some(v) ==> v@.len() == nproc)
}

/// Decides the shape invariant for a given logical-processor count.
pub fn shape_ok(d: &SharedData, nproc: usize) -> (r: bool)
    ensures
        r == shape_ok_spec(*d, nproc as nat),
{
    let idt_ok = match &d.host_idt {
        Some(v) => v.len() == nproc,
        None => true,
    };
    let gdt_ok = match &d.host_gdt_and_tss {
        Some(v) => v.len() == nproc,
        None => true,
    };
    idt_ok && gdt_ok
}

/// What a single-initialization cell retains after a publish attempt of `v`:
/// the value already stored if there is one, otherwise `v`.  The first
/// publisher wins; later attempts are no-ops.
pub open spec fn retained_after(stored: Option<SharedData>, v: SharedData) -> SharedData {
    match stored {
        Some(c) => c,
        None => v,
    }
}

/// The single-initialization guard for the Shared Hypervisor Configuration:
/// accepts exactly one value; every later publish attempt is discarded
/// without effect, and every read sees the retained value.
pub struct ConfigCell {
    data: Option<SharedData>,
}

impl ConfigCell {
    /// The value the cell retains, if one was published.
    pub closed spec fn stored(&self) -> Option<SharedData> {
        self.data
    }

    /// A fresh, unpublished cell.
    pub fn new() -> (c: ConfigCell)
        ensures
            c.stored() is None,
    {
        ConfigCell { data: None }
    }

    /// One publish attempt.  Returns whether this attempt won; either way
    /// the cell afterwards holds the first value ever published to it.
    pub fn publish(&mut self, v: SharedData) -> (won: bool)
        ensures
            won == (old(self).stored() is None),
            final(self).stored() == Some(retained_after(old(self).stored(), v)),
            !won ==> final(self).stored() == old(self).stored(),
    {
        match &self.data {
            Some(_) => false,
            None => {
                self.data = Some(v);
                true
            },
        }
    }

    /// Reads the retained configuration, if any was published yet.
    pub fn get(&self) -> (r: &Option<SharedData>)
        ensures
            *r == self.stored(),
    {
        &self.data
    }
}

/// The host-side resources selected for one logical processor out of the
/// shared configuration: the shared paging root and that processor's own
/// entries of the per-processor vectors.
#[derive(Clone, Copy, Debug, PartialEq, Eq)]
pub struct HostResources {
    pub host_pt: Option<PagingStructures>,
    pub host_idt_base: Option<u64>,
    pub host_gdt_and_tss: Option<GdtTss>,
}

/// Which resources activation on processor `idx` installs: the paging root
/// as published, and entry `idx` of each per-processor vector that is
/// present.
pub open spec fn select_resources_spec(c: SharedData, idx: int) -> HostResources {
    HostResources {
        host_pt: c.host_pt,
        host_idt_base: match c.host_idt {
            Some(v) => Some(v@[idx]),
            None => None,
        },
        host_gdt_and_tss: match c.host_gdt_and_tss {
            Some(v) => Some(v@[idx]),
            None => None,
        },
    }
}

/// Selects processor `idx`'s host resources.  The shape invariant is what
/// makes the indexed accesses in-bounds; without it they would be contract
/// violations.
pub fn select_host_resources(c: &SharedData, idx: usize, nproc: usize) -> (r: HostResources)
    requires
        shape_ok_spec(*c, nproc as nat),
        idx < nproc,
    ensures
        r == select_resources_spec(*c, idx as int),
{
    let host_pt = c.host_pt;
    let host_idt_base = match &c.host_idt {
        Some(v) => Some(v[idx]),
        None => None,
    };
    let host_gdt_and_tss = match &c.host_gdt_and_tss {
        Some(v) => Some(v[idx]),
        None => None,
    };
    HostResources { host_pt, host_idt_base, host_gdt_and_tss }
}

/// First publisher wins.  Starting from an empty cell, a publish of `a`
/// followed by a publish of `b` retains `a` for all subsequent readers, and
/// the discarded `b` has no effect on the cell at all.
pub proof fn lemma_first_publisher_wins(a: SharedData, b: SharedData)
    ensures
        ({
            let s1 = Some(retained_after(None::<SharedData>, a));
            let s2 = Some(retained_after(s1, b));
            s1 == Some(a) && s2 == s1
        }),
{
}

} // verus!
