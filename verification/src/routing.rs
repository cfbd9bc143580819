//! The currently active tab, shared between the UI and the capture worker.
//!
//! The capture worker reads it once at each rising edge and never again for
//! that utterance. `0` stands for "no tab": tab ids start at 1.
use vstd::prelude::*;
use std::sync::Arc;
use std::sync::atomic::{AtomicI64, Ordering};

verus! {

/// A raw stored value as a tab: `0` is no tab.
pub open spec fn tab_of(raw: i64) -> Option<i64> {
    if raw == 0 {
        None
    } else {
        Some(raw)
    }
}

/// Decode a stored value.
pub fn tab_from_raw(raw: i64) -> (r: Option<i64>)
    ensures
        r == tab_of(raw),
{
    if raw == 0 {
        None
    } else {
        Some(raw)
    }
}

/// Shared, cloneable carrier of the active tab id. Clones share the value.
#[derive(Debug, Clone)]
pub struct ActiveTab {
    inner: Arc<AtomicI64>,
}

impl ActiveTab {
    /// No tab active.
    pub fn new() -> (r: Self) {
        ActiveTab { inner: Arc::new(AtomicI64::new(0)) }
    }

    /// Set the active tab id; `0` clears it.
    pub fn set(&self, tab_id: i64) {
        self.inner.store(tab_id, Ordering::Release);
    }

    /// Read the current value: `None` when no tab is active. The value read
    /// is whatever the last store left, which another clone may write at
    /// any time; it is never `Some(0)`.
    pub fn snapshot(&self) -> (r: Option<i64>)
        ensures
            r != Some(0i64),
    {
        let raw = self.inner.load(Ordering::Acquire);
        tab_from_raw(raw)
    }
}

impl Default for ActiveTab {
    fn default() -> (r: Self) {
        ActiveTab::new()
    }
}

} // verus!
