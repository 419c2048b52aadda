//! The shared cancellation flag.
//!
//! One atomic boolean cell, shared by exactly two endpoints: the owner's
//! [`Stopper`], which can set it, and the worker's [`Flag`], which can only
//! read it. The cell starts unset and is only ever written `true`, so it moves
//! at most once and never resets. All accesses are atomic with relaxed
//! ordering: the flag is a liveness hint, not a synchronization barrier, and a
//! set becomes visible to the reader eventually, with no bound on when.
//!
//! Because another thread may write the cell between any two moments, no
//! contract here can pin the value a read returns; the guarantees that can be
//! stated ahead of time live in [`crate::task`], which gives the protocol's
//! lifecycle as plain data.

use vstd::prelude::*;

verus! {

use core::sync::atomic::AtomicBool;
use core::sync::atomic::Ordering;
use std::sync::Arc;

/// Relies on `Arc::clone`: the returned handle refers to the same shared
/// allocation as the argument, so it carries the same value.
#[verifier::external_body]
fn share_cell(cell: &Arc<AtomicBool>) -> (r: Arc<AtomicBool>)
    ensures
        r == *cell,
{
    Arc::clone(cell)
}

/// The owner's endpoint of a cancellation flag: the only holder that can set
/// it. Created by [`Stopper::new`] together with the worker's [`Flag`];
/// neither endpoint can be duplicated, so the cell has exactly two holders.
pub struct Stopper {
    cell: Arc<AtomicBool>,
}

/// The worker's endpoint of a cancellation flag: read-only. A worker that
/// wants to honour cancellation polls [`Flag::read`] at its own pace and
/// returns promptly once it reads `true`; nothing forces it to look.
pub struct Flag {
    cell: Arc<AtomicBool>,
}

impl Stopper {
    /// The shared cell this endpoint holds.
    pub closed spec fn cell_view(self) -> Arc<AtomicBool> {
        self.cell
    }

    /// A fresh flag cell, initially unset, with its two endpoints: the
    /// owner's and the worker's. Both endpoints hold the one cell — that is
    /// what lets a stop request reach the worker — and the cell is freed when
    /// the last of the two is dropped.
    pub fn new() -> (r: (Stopper, Flag))
        ensures
            r.0.cell_view() == r.1.cell_view(),
    {
        let cell = Arc::new(AtomicBool::new(false));
        let reader = share_cell(&cell);
        (Stopper { cell }, Flag { cell: reader })
    }

    /// Request a stop: set the shared cell and return at once.
    ///
    /// The write is relaxed and the cell is only ever written `true`, so
    /// calling this again changes nothing, and the request never resets.
    /// It is a hint: it does not wait for the worker, confirm anything about
    /// it, or affect what the worker will hand back.
    pub fn signal_stop(&self) {
        self.cell.store(true, Ordering::Relaxed);
    }
}

impl Flag {
    /// The shared cell this endpoint holds.
    pub closed spec fn cell_view(self) -> Arc<AtomicBool> {
        self.cell
    }

    /// The flag's current state: `true` once a stop has been requested.
    ///
    /// The read is a racy snapshot of a cell another thread may set at any
    /// moment, so no value can be promised here; once it returns `true` it
    /// keeps returning `true`, the cell being write-once.
    pub fn read(&self) -> bool {
        self.cell.load(Ordering::Relaxed)
    }
}

} // verus!
