//! Hook installer bookkeeping: binary detours over the three intercepted
//! entry points (present, execute-command-lists, resize-buffers).
//!
//! The hooking engine itself is an external capability that patches a
//! target function's entry and returns a trampoline still running the
//! original code. This module owns the engine-independent rules: hooks are
//! installed all-or-nothing (a single failure aborts the whole set, no
//! partial install), uninstalling is idempotent, and the trampoline table
//! is fully populated before any detour may forward through it.

use vstd::prelude::*;

verus! {

/// One entry point to intercept: the function to patch and the detour that
/// should receive control.
#[derive(Clone, Copy, PartialEq, Eq, Structural, Debug)]
pub struct HookRequest {
    pub target: u64,
    pub detour: u64,
}

/// One installed detour and the trampoline that still executes the original
/// function. The trampoline outlives every invocation of the detour; it is
/// released only at uninstall.
#[derive(Clone, Copy, PartialEq, Eq, Structural, Debug)]
pub struct HookRecord {
    pub target: u64,
    pub detour: u64,
    pub trampoline: u64,
    pub installed: bool,
}

/// The process-wide table of original-function pointers, written once at
/// install time and only read afterwards. Every detour forwards through its
/// entry here.
#[derive(Clone, Copy, PartialEq, Eq, Structural, Debug)]
pub struct TrampolineTable {
    pub present: u64,
    pub execute: u64,
    pub resize: u64,
}

/// Why an installation was aborted: the hooking engine produced no
/// trampoline for the request at `index`.
#[derive(Clone, Copy, PartialEq, Eq, Structural, Debug)]
pub struct InstallError {
    /// Position of the first request whose hook could not be created.
    pub index: usize,
    /// The target address of that request.
    pub target: u64,
}

/// The three hook requests of the interception engine, pairing the resolved
/// entry-point addresses with their detours: present, execute-command-lists
/// and resize-buffers, in that order.
pub fn hook_requests(
    present_addr: u64,
    execute_addr: u64,
    resize_addr: u64,
    present_detour: u64,
    execute_detour: u64,
    resize_detour: u64,
) -> (r: Vec<HookRequest>)
    ensures
        r@.len() == 3,
        r@[0] == (HookRequest { target: present_addr, detour: present_detour }),
        r@[1] == (HookRequest { target: execute_addr, detour: execute_detour }),
        r@[2] == (HookRequest { target: resize_addr, detour: resize_detour }),
{
    let mut r: Vec<HookRequest> = Vec::new();
    r.push(HookRequest { target: present_addr, detour: present_detour });
    r.push(HookRequest { target: execute_addr, detour: execute_detour });
    r.push(HookRequest { target: resize_addr, detour: resize_detour });
    r
}

/// Turns the hooking engine's per-request outcomes into hook records,
/// all-or-nothing: `engine_trampolines[k]` is the trampoline the engine
/// returned for `requests[k]`, or nothing where hook creation failed.
/// A single failure aborts the whole set — partial hook states are not
/// supported — and the error names the first request that failed.
pub fn install(requests: &Vec<HookRequest>, engine_trampolines: &Vec<Option<u64>>) -> (r: Result<
    Vec<HookRecord>,
    InstallError,
>)
    requires
        requests@.len() == engine_trampolines@.len(),
    ensures
        (r is Ok) <==> (forall|k: int|
            0 <= k < engine_trampolines@.len() ==> (#[trigger] engine_trampolines@[k]) is Some),
        r matches Ok(records) ==> {
            &&& records@.len() == requests@.len()
            &&& forall|k: int|
                0 <= k < records@.len() ==> (#[trigger] records@[k]) == (HookRecord {
                    target: requests@[k].target,
                    detour: requests@[k].detour,
                    trampoline: engine_trampolines@[k]->0,
                    installed: true,
                })
        },
        r matches Err(e) ==> {
            &&& 0 <= e.index < engine_trampolines@.len()
            &&& engine_trampolines@[e.index as int] is None
            &&& e.target == requests@[e.index as int].target
            &&& forall|k: int|
                0 <= k < e.index ==> (#[trigger] engine_trampolines@[k]) is Some
        },
{
    let mut records: Vec<HookRecord> = Vec::new();
    let mut i: usize = 0;
    while i < requests.len()
        invariant
            requests@.len() == engine_trampolines@.len(),
            i <= requests@.len(),
            records@.len() == i,
            forall|k: int| 0 <= k < i ==> (#[trigger] engine_trampolines@[k]) is Some,
            forall|k: int|
                0 <= k < i ==> (#[trigger] records@[k]) == (HookRecord {
                    target: requests@[k].target,
                    detour: requests@[k].detour,
                    trampoline: engine_trampolines@[k]->0,
                    installed: true,
                }),
        decreases requests@.len() - i,
    {
        match engine_trampolines[i] {
            Some(trampoline) => {
                records.push(
                    HookRecord {
                        target: requests[i].target,
                        detour: requests[i].detour,
                        trampoline,
                        installed: true,
                    },
                );
            },
            None => {
                return Err(InstallError { index: i, target: requests[i].target });
            },
        }
        i = i + 1;
    }
    Ok(records)
}

/// What a set of hook records looks like after uninstalling: every record
/// keeps its addresses and loses its installed mark.
pub open spec fn uninstalled(records: Seq<HookRecord>) -> Seq<HookRecord> {
    records.map(|k: int, h: HookRecord| HookRecord { installed: false, ..h })
}

/// Reverses an installation: marks every record uninstalled. Running it on
/// an already-uninstalled set changes nothing (see
/// [`lemma_uninstall_idempotent`]).
pub fn uninstall(records: &mut Vec<HookRecord>)
    ensures
        final(records)@ == uninstalled(old(records)@),
{
    let ghost orig = records@;
    let mut i: usize = 0;
    while i < records.len()
        invariant
            records@.len() == orig.len(),
            i <= orig.len(),
            forall|k: int|
                0 <= k < i ==> (#[trigger] records@[k]) == (HookRecord {
                    installed: false,
                    ..orig[k]
                }),
            forall|k: int| i <= k < orig.len() ==> (#[trigger] records@[k]) == orig[k],
        decreases orig.len() - i,
    {
        let h = records[i];
        records[i] = HookRecord { installed: false, ..h };
        i = i + 1;
    }
    proof {
        assert(records@ =~= uninstalled(orig));
    }
}

/// Uninstalling is idempotent: a second pass leaves the records exactly as
/// the first left them.
pub proof fn lemma_uninstall_idempotent(records: Seq<HookRecord>)
    ensures
        uninstalled(uninstalled(records)) == uninstalled(records),
{
    assert(uninstalled(uninstalled(records)) =~= uninstalled(records));
}

/// The trampoline table read out of a freshly installed hook set, in the
/// order [`hook_requests`] lays the set out.
pub fn trampoline_table(records: &Vec<HookRecord>) -> (t: TrampolineTable)
    requires
        records@.len() == 3,
    ensures
        t.present == records@[0].trampoline,
        t.execute == records@[1].trampoline,
        t.resize == records@[2].trampoline,
{
    TrampolineTable {
        present: records[0].trampoline,
        execute: records[1].trampoline,
        resize: records[2].trampoline,
    }
}

} // verus!
