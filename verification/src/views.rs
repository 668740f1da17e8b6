//! The render-target descriptor table: one view per swapchain buffer.
//!
//! Descriptor handles are plain addresses: slot `i` lives at the heap's base
//! address plus `i` times the device-reported increment size. The table
//! pairs each buffer index with its computed handle; it is rebuilt only if
//! the backing buffers change, which the steady-state loop never does.

use vstd::prelude::*;

verus! {

/// One render-target view: the descriptor handle and the index of the
/// swapchain buffer it refers to.
#[derive(Clone, Copy, PartialEq, Eq, Structural, Debug)]
pub struct RenderTargetView {
    /// The descriptor's address inside the heap.
    pub handle: u64,
    /// The swapchain buffer the view was created over.
    pub buffer_index: usize,
}

/// The per-buffer view table.
pub struct ViewTable {
    views: Vec<RenderTargetView>,
}

impl ViewTable {
    /// Number of views, one per swapchain buffer.
    pub closed spec fn len(self) -> nat {
        self.views@.len()
    }

    /// The view recorded for buffer `i`.
    pub closed spec fn view_at(self, i: int) -> RenderTargetView {
        self.views@[i]
    }

    /// Build the table for `count` buffers over a heap starting at `base`
    /// with the given per-descriptor `increment`: view `i` refers to buffer
    /// `i` through the handle at `base + i * increment`.
    pub fn build(base: u64, increment: u64, count: usize) -> (r: ViewTable)
        requires
            base + count * increment <= u64::MAX,
        ensures
            r.len() == count,
            forall|i: int|
                0 <= i < count ==> #[trigger] r.view_at(i) == (RenderTargetView {
                    handle: (base + i * increment) as u64,
                    buffer_index: i as usize,
                }),
    {
        let mut views: Vec<RenderTargetView> = Vec::new();
        let mut handle: u64 = base;
        let mut i: usize = 0;
        while i < count
            invariant
                i <= count,
                views@.len() == i,
                handle == base + i * increment,
                base + count * increment <= u64::MAX,
                forall|j: int|
                    0 <= j < i ==> #[trigger] views@[j] == (RenderTargetView {
                        handle: (base + j * increment) as u64,
                        buffer_index: j as usize,
                    }),
            decreases count - i,
        {
            views.push(RenderTargetView { handle, buffer_index: i });
            proof {
                assert((i + 1) * increment <= count * increment) by (nonlinear_arith)
                    requires
                        i + 1 <= count,
                        increment >= 0,
                ;
                assert((i + 1) * increment == i * increment + increment) by (nonlinear_arith);
            }
            handle = handle + increment;
            i = i + 1;
        }
        ViewTable { views }
    }

    /// Number of views in the table.
    pub fn count(&self) -> (n: usize)
        ensures
            n == self.len(),
    {
        self.views.len()
    }

    /// The handle recorded for buffer `i`.
    pub fn handle_of(&self, i: usize) -> (h: u64)
        requires
            i < self.len(),
        ensures
            h == self.view_at(i as int).handle,
    {
        self.views[i].handle
    }

    /// The buffer index recorded for view `i`; always `i` itself in a table
    /// built by [`Self::build`].
    pub fn buffer_of(&self, i: usize) -> (b: usize)
        requires
            i < self.len(),
        ensures
            b == self.view_at(i as int).buffer_index,
    {
        self.views[i].buffer_index
    }
}

} // verus!
