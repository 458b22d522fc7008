//! Frame-context ring: one context per swap-chain back buffer.
//!
//! Each context owns the per-buffer GPU resources (render-target-view
//! descriptor, command allocator, fence) of one back-buffer index. The ring
//! models those resources by their index: the unverified shell keeps the
//! real device objects in arrays indexed the same way. Fence values come
//! from a single counter shared by the whole ring, so a value handed out by
//! `advance` is never reused even when back-buffer indices cycle out of
//! order.

use vstd::prelude::*;

verus! {

/// Per-back-buffer frame resources.
///
/// The back buffer, the command allocator, the fence and its OS wait handle
/// are device objects owned by the unverified shell; all four are identified
/// by `index`. `desc_handle` is the address of this context's
/// render-target-view descriptor inside the ring's descriptor heap.
pub struct FrameContext {
    /// Back-buffer index this context serves; also names the context's
    /// allocator and fence in the shell's object arrays.
    pub index: u32,
    /// Render-target-view descriptor address: heap base plus
    /// `index` times the device's descriptor increment.
    pub desc_handle: u64,
    /// The fence value most recently scheduled to be signaled on this
    /// context's fence; zero before the first frame on this index.
    pub last_signaled_value: u64,
}

/// The ring of frame contexts plus the shared fence-value counter.
pub struct FrameRing {
    /// One context per back-buffer index, in index order.
    pub contexts: Vec<FrameContext>,
    /// Next fence value to hand out; strictly greater than every value
    /// handed out so far.
    pub next_fence_value: u64,
    /// Address of the first render-target-view descriptor in the heap.
    pub rtv_base: u64,
    /// Device-reported distance between consecutive descriptors.
    pub rtv_increment: u64,
}

impl FrameRing {
    /// Well-formedness: contexts sit at their own index, descriptors follow
    /// the heap layout, and no handed-out fence value reaches the counter.
    pub open spec fn wf(self) -> bool {
        &&& self.rtv_increment >= 1
        &&& self.contexts@.len() >= 1
        &&& self.contexts@.len() <= u32::MAX
        &&& forall|i: int|
            0 <= i < self.contexts@.len() ==> (#[trigger] self.contexts@[i]).index == i as u32
        &&& forall|i: int|
            0 <= i < self.contexts@.len() ==> (#[trigger] self.contexts@[i]).desc_handle
                == self.rtv_base + i * self.rtv_increment
        &&& forall|i: int|
            0 <= i < self.contexts@.len() ==> (#[trigger] self.contexts@[i]).last_signaled_value
                < self.next_fence_value
    }

    /// Builds one context per back-buffer index, each with its own
    /// render-target-view descriptor at `rtv_base + index * rtv_increment`
    /// and an unsignaled fence slot. The fence counter starts at one so
    /// value zero means "nothing in flight yet".
    pub fn build(rtv_base: u64, rtv_increment: u64, buffer_count: u32) -> (r: FrameRing)
        requires
            rtv_increment >= 1,
            buffer_count >= 1,
            rtv_base + buffer_count * rtv_increment <= u64::MAX,
        ensures
            r.wf(),
            r.rtv_base == rtv_base,
            r.rtv_increment == rtv_increment,
            r.next_fence_value == 1,
            r.contexts@.len() == buffer_count,
            forall|i: int|
                0 <= i < buffer_count ==> (#[trigger] r.contexts@[i]).last_signaled_value == 0,
    {
        let mut contexts: Vec<FrameContext> = Vec::new();
        let mut i: u32 = 0;
        while i < buffer_count
            invariant
                i <= buffer_count,
                rtv_increment >= 1,
                rtv_base + buffer_count * rtv_increment <= u64::MAX,
                contexts@.len() == i,
                forall|k: int| 0 <= k < i ==> (#[trigger] contexts@[k]).index == k as u32,
                forall|k: int|
                    0 <= k < i ==> (#[trigger] contexts@[k]).desc_handle
                        == rtv_base + k * rtv_increment,
                forall|k: int| 0 <= k < i ==> (#[trigger] contexts@[k]).last_signaled_value == 0,
            decreases buffer_count - i,
        {
            proof {
                assert(i as int * rtv_increment as int
                    <= buffer_count as int * rtv_increment as int) by (nonlinear_arith)
                    requires
                        i < buffer_count,
                        rtv_increment >= 1,
                ;
            }
            let desc_handle: u64 = rtv_base + i as u64 * rtv_increment;
            contexts.push(FrameContext { index: i, desc_handle, last_signaled_value: 0 });
            i = i + 1;
        }
        FrameRing { contexts, next_fence_value: 1, rtv_base, rtv_increment }
    }

    /// The context serving the just-acquired back-buffer index.
    pub fn current(&self, index: u32) -> (r: &FrameContext)
        requires
            index < self.contexts@.len(),
        ensures
            *r == self.contexts@[index as int],
    {
        &self.contexts[index as usize]
    }

    /// Whether the command allocator of `index` may be reset: its fence must
    /// have reported completion of the value last scheduled on it.
    pub fn ready_to_reset(&self, index: u32, completed_value: u64) -> (r: bool)
        requires
            index < self.contexts@.len(),
        ensures
            r == (completed_value >= self.contexts@[index as int].last_signaled_value),
    {
        completed_value >= self.contexts[index as usize].last_signaled_value
    }

    /// Hands out the next fence value from the ring-wide counter and records
    /// it as the value to be signaled on the fence of `index`.
    pub fn advance(&mut self, index: u32) -> (v: u64)
        requires
            old(self).wf(),
            index < old(self).contexts@.len(),
            old(self).next_fence_value < u64::MAX,
        ensures
            final(self).wf(),
            advance_rel(*old(self), *final(self), index as int, v),
            v >= 1,
            forall|k: int|
                0 <= k < old(self).contexts@.len() ==> v
                    > (#[trigger] old(self).contexts@[k]).last_signaled_value,
    {
        let v = self.next_fence_value;
        let index_us = index as usize;
        let ctx = FrameContext { last_signaled_value: v, ..self.contexts[index_us] };
        self.contexts[index_us] = ctx;
        self.next_fence_value = v + 1;
        v
    }

    /// Fence values that must be confirmed signaled before the ring's GPU
    /// objects may be released: one per context, in index order.
    pub fn teardown_waits(&self) -> (r: Vec<u64>)
        ensures
            r@.len() == self.contexts@.len(),
            forall|k: int|
                0 <= k < self.contexts@.len() ==> r@[k]
                    == (#[trigger] self.contexts@[k]).last_signaled_value,
    {
        let mut waits: Vec<u64> = Vec::new();
        let mut i: usize = 0;
        while i < self.contexts.len()
            invariant
                i <= self.contexts@.len(),
                waits@.len() == i,
                forall|k: int|
                    0 <= k < i ==> waits@[k]
                        == (#[trigger] self.contexts@[k]).last_signaled_value,
            decreases self.contexts@.len() - i,
        {
            waits.push(self.contexts[i].last_signaled_value);
            i = i + 1;
        }
        waits
    }
}

/// How one `advance` call relates the ring before it to the ring after it:
/// the handed-out value `v` is the old counter, the counter moved up by one,
/// and only the advanced context's last-signaled value changed, to `v`.
pub open spec fn advance_rel(pre: FrameRing, post: FrameRing, index: int, v: u64) -> bool {
    &&& 0 <= index < pre.contexts@.len()
    &&& v == pre.next_fence_value
    &&& post.next_fence_value == pre.next_fence_value + 1
    &&& post.contexts@ == pre.contexts@.update(
        index,
        FrameContext { last_signaled_value: v, ..pre.contexts@[index] },
    )
    &&& post.rtv_base == pre.rtv_base
    &&& post.rtv_increment == pre.rtv_increment
}

/// In a well-formed ring, distinct back-buffer indices own distinct
/// render-target-view descriptors (the heap increment is nonzero) and
/// distinct fence slots.
pub proof fn lemma_ring_slots_distinct(r: FrameRing, i: int, j: int)
    requires
        r.wf(),
        0 <= i < r.contexts@.len(),
        0 <= j < r.contexts@.len(),
        i != j,
    ensures
        r.contexts@[i].desc_handle != r.contexts@[j].desc_handle,
        r.contexts@[i].index != r.contexts@[j].index,
{
    assert(i * r.rtv_increment != j * r.rtv_increment) by (nonlinear_arith)
        requires
            i != j,
            r.rtv_increment >= 1,
    ;
}

/// Fence values handed out by two successive `advance` calls are strictly
/// increasing, whatever back-buffer indices the calls served.
pub proof fn lemma_advance_values_strictly_increase(
    a: FrameRing,
    b: FrameRing,
    c: FrameRing,
    i: int,
    j: int,
    v1: u64,
    v2: u64,
)
    requires
        advance_rel(a, b, i, v1),
        advance_rel(b, c, j, v2),
    ensures
        v2 > v1,
{
}

/// A run of the ring: `states` linked by one `advance` call per step, where
/// step `k` served back-buffer index `indices[k]` and handed out
/// `values[k]`.
pub open spec fn advance_trace(states: Seq<FrameRing>, indices: Seq<int>, values: Seq<u64>) -> bool {
    &&& states.len() == values.len() + 1
    &&& indices.len() == values.len()
    &&& forall|k: int|
        0 <= k < values.len() ==> advance_rel(
            states[k],
            states[k + 1],
            indices[k],
            #[trigger] values[k],
        )
}

/// Across the lifetime of the ring, the fence values handed out by `advance`
/// form a strictly increasing sequence, regardless of the order in which
/// back-buffer indices are acquired.
pub proof fn lemma_fence_values_monotonic(
    states: Seq<FrameRing>,
    indices: Seq<int>,
    values: Seq<u64>,
    k: int,
    l: int,
)
    requires
        advance_trace(states, indices, values),
        0 <= k < l < values.len(),
    ensures
        values[k] < values[l],
    decreases l - k,
{
    assert(advance_rel(states[l - 1], states[l], indices[l - 1], values[l - 1]));
    assert(advance_rel(states[l], states[l + 1], indices[l], values[l]));
    if k < l - 1 {
        lemma_fence_values_monotonic(states, indices, values, k, l - 1);
    }
}

} // verus!
