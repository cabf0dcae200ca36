use std::collections::HashMap;
use vstd::prelude::*;

use crate::layout::{QXRResearchData, QXRSocialPost};

verus! {

broadcast use vstd::std_specs::hash::group_hash_axioms;

/// The library's version string, terminator included.
pub const VERSION: &'static str = "QXR Bridge v0.1.0\0";

/// A session of bridge work: an optional current research record, the posts
/// produced so far, and the string buffers this context has handed out and
/// not yet taken back.
pub struct QXRBridge {
    pub research_data: Option<QXRResearchData>,
    pub social_posts: Vec<QXRSocialPost>,
    pub memory_allocations: HashMap<u64, Vec<u8>>,
    pub next_handle: u64,
}

/// A freshly allocated string buffer of `len` bytes plus its terminator.
pub open spec fn zeroed(len: nat) -> Seq<u8> {
    Seq::new(len + 1, |i: int| 0u8)
}

impl QXRBridge {
    /// The outstanding allocations, by handle, with their bytes.
    pub open spec fn outstanding(&self) -> Map<u64, Seq<u8>> {
        self.memory_allocations@.map_values(|v: Vec<u8>| v@)
    }

    /// The handle the next allocation would receive.
    pub open spec fn next_handle(&self) -> u64 {
        self.next_handle
    }

    /// Handles are non-zero (zero is the null handle) and below the next one.
    pub open spec fn wf(&self) -> bool {
        &&& self.next_handle >= 1
        &&& forall|h: u64| #[trigger]
            self.memory_allocations@.contains_key(h) ==> 1 <= h < self.next_handle
    }

    /// The number of buffers that destroying this context releases.
    pub open spec fn release_count(&self) -> nat {
        self.outstanding().len()
    }

    /// An empty context: no current record, no posts, no allocations.
    pub fn new() -> (r: Self)
        ensures
            r.wf(),
            r.research_data is None,
            r.social_posts@.len() == 0,
            r.outstanding() == Map::<u64, Seq<u8>>::empty(),
            r.next_handle() == 1,
    {
        let r = QXRBridge {
            research_data: None,
            social_posts: Vec::new(),
            memory_allocations: HashMap::new(),
            next_handle: 1,
        };
        assert(r.outstanding() =~= Map::<u64, Seq<u8>>::empty());
        r
    }

    /// The bytes of the outstanding buffer `handle`, if there is one.
    pub fn string_buffer(&self, handle: u64) -> (r: Option<&Vec<u8>>)
        ensures
            match r {
                Some(b) => self.outstanding().contains_key(handle) && b@ == self.outstanding()[handle],
                None => !self.outstanding().contains_key(handle),
            },
    {
        self.memory_allocations.get(&handle)
    }

    /// The number of outstanding buffers.
    pub fn outstanding_count(&self) -> (r: usize)
        ensures
            r == self.release_count(),
    {
        proof {
            assert(self.outstanding().dom() =~= self.memory_allocations@.dom());
        }
        self.memory_allocations.len()
    }
}

/// What `qxr_bridge_alloc_string` does to a context: the handle is null
/// exactly when `len + 1` bytes cannot be laid out or handles ran out, and
/// otherwise a fresh handle is tracked with a zeroed buffer whose last byte
/// is the terminator.
pub open spec fn alloc_effect(pre: QXRBridge, post: QXRBridge, len: usize, r: u64) -> bool {
    &&& post.wf()
    &&& post.research_data == pre.research_data
    &&& post.social_posts == pre.social_posts
    &&& post.next_handle() == if r == 0 {
        pre.next_handle()
    } else {
        (r + 1) as u64
    }
    &&& (r == 0 <==> (len >= isize::MAX as usize || pre.next_handle() == u64::MAX))
    &&& r == 0 ==> post.outstanding() == pre.outstanding()
    &&& r != 0 ==> {
        &&& r == pre.next_handle()
        &&& !pre.outstanding().contains_key(r)
        &&& post.outstanding() == pre.outstanding().insert(r, zeroed(len as nat))
    }
}

/// What `qxr_bridge_free_string` does to a context: the handle leaves the
/// bookkeeping, and the result says whether it was outstanding.
pub open spec fn free_effect(pre: QXRBridge, post: QXRBridge, handle: u64, r: bool) -> bool {
    &&& post.wf()
    &&& post.research_data == pre.research_data
    &&& post.social_posts == pre.social_posts
    &&& post.next_handle() == pre.next_handle()
    &&& r == pre.outstanding().contains_key(handle)
    &&& post.outstanding() == pre.outstanding().remove(handle)
}

/// A zeroed buffer of `n` bytes.
fn zero_buffer(n: usize) -> (r: Vec<u8>)
    ensures
        r@ == Seq::new(n as nat, |i: int| 0u8),
{
    let mut v: Vec<u8> = Vec::new();
    let mut i: usize = 0;
    while i < n
        invariant
            i <= n,
            v@ == Seq::new(i as nat, |j: int| 0u8),
        decreases n - i,
    {
        v.push(0u8);
        i = i + 1;
        assert(v@ =~= Seq::new(i as nat, |j: int| 0u8));
    }
    v
}

/// Creates a context on the heap.
pub fn qxr_bridge_create() -> (r: Box<QXRBridge>)
    ensures
        r.wf(),
        r.research_data is None,
        r.social_posts@.len() == 0,
        r.outstanding() == Map::<u64, Seq<u8>>::empty(),
        r.next_handle() == 1,
{
    Box::new(QXRBridge::new())
}

/// Destroys a context and every buffer it still tracks; returns how many
/// buffers were released. A null context is left alone.
pub fn qxr_bridge_destroy(bridge: Option<Box<QXRBridge>>) -> (r: usize)
    requires
        bridge matches Some(b) ==> b.wf(),
    ensures
        r == match bridge {
            Some(b) => b.release_count(),
            None => 0,
        },
{
    match bridge {
        Some(b) => b.outstanding_count(),
        None => 0,
    }
}

/// Allocates a string buffer of `len + 1` bytes tracked by `bridge`, the last
/// byte the terminator. Returns its handle, or the null handle 0 when the
/// buffer cannot be laid out or the context has no handle left.
pub fn qxr_bridge_alloc_string(bridge: &mut QXRBridge, len: usize) -> (r: u64)
    requires
        old(bridge).wf(),
    ensures
        alloc_effect(*old(bridge), *final(bridge), len, r),
{
    if len >= isize::MAX as usize || bridge.next_handle == u64::MAX {
        return 0;
    }
    let handle = bridge.next_handle;
    let buffer = zero_buffer(len + 1);
    assert(buffer@ =~= zeroed(len as nat));
    bridge.memory_allocations.insert(handle, buffer);
    bridge.next_handle = handle + 1;
    proof {
        assert(bridge.outstanding() =~= old(bridge).outstanding().insert(handle, zeroed(len as nat)));
    }
    handle
}

/// Releases the buffer `handle` of `bridge`. The null handle, and any handle
/// the context does not track, are left alone; the result says whether a
/// buffer was released.
pub fn qxr_bridge_free_string(bridge: &mut QXRBridge, handle: u64) -> (r: bool)
    requires
        old(bridge).wf(),
    ensures
        free_effect(*old(bridge), *final(bridge), handle, r),
        handle == 0 ==> !r,
{
    let removed = bridge.memory_allocations.remove(&handle);
    proof {
        assert(bridge.outstanding() =~= old(bridge).outstanding().remove(handle));
    }
    removed.is_some()
}

/// The version string, terminator included; it is never freed.
pub fn qxr_bridge_version() -> (r: &'static str)
    ensures
        r@ == VERSION@,
{
    VERSION
}

/// An allocation that was not freed is released when its context is
/// destroyed: allocating adds its handle to the bookkeeping and one buffer to
/// what destruction releases.
pub proof fn lemma_alloc_is_released_on_destroy(pre: QXRBridge, post: QXRBridge, len: usize, h: u64)
    requires
        pre.wf(),
        alloc_effect(pre, post, len, h),
        h != 0,
    ensures
        post.outstanding().contains_key(h),
        post.release_count() == pre.release_count() + 1,
{
    reveal_outstanding_finite(pre);
}

/// Freeing the buffer just allocated restores the bookkeeping exactly, so a
/// matched allocate and free leave nothing for destruction to release.
pub proof fn lemma_alloc_free_round_trip(
    b0: QXRBridge,
    b1: QXRBridge,
    b2: QXRBridge,
    len: usize,
    h: u64,
    freed: bool,
)
    requires
        b0.wf(),
        alloc_effect(b0, b1, len, h),
        h != 0,
        free_effect(b1, b2, h, freed),
    ensures
        freed,
        b2.outstanding() == b0.outstanding(),
        b2.release_count() == b0.release_count(),
{
    assert(b2.outstanding() =~= b0.outstanding());
}

proof fn reveal_outstanding_finite(b: QXRBridge)
    ensures
        b.outstanding().dom().finite(),
{
    assert(b.outstanding().dom() =~= b.memory_allocations@.dom());
}

} // verus!
