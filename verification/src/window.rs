//! The observation window of a session.
//!
//! A session watches the stream for a bounded stretch of slots. The first
//! slot it sees arms the window; the window closes with the first
//! notification whose slot lies `limit` slots or more after that one. Slots
//! never run backwards on a healthy stream, but they may repeat and they
//! may skip.

use vstd::prelude::*;

verus! {

/// The number of slots a session observes.
pub const WINDOW_LIMIT: u64 = 100;

/// The state of the window: unarmed until the first slot has been seen,
/// armed with that slot ever after.
#[derive(Clone, Copy, Debug, PartialEq, Eq, Structural)]
pub struct SessionWindow {
    pub initial_slot: Option<u64>,
    pub limit: u64,
}

/// What the window says of a notification.
#[derive(Clone, Copy, Debug, PartialEq, Eq, Structural)]
pub enum WindowSignal {
    /// The window is still open after this notification.
    Continue,
    /// This notification closes the window: it is the last to be handled.
    Terminal,
}

impl SessionWindow {
    /// The slot that the window counts from once it has seen `slot`: the one
    /// it was armed with, or `slot` itself if it was not armed yet.
    pub open spec fn origin(&self, slot: u64) -> u64 {
        match self.initial_slot {
            Some(first) => first,
            None => slot,
        }
    }

    /// How far `slot` lies after the origin; negative if it lies before.
    pub open spec fn distance(&self, slot: u64) -> int {
        slot as int - self.origin(slot) as int
    }

    /// Whether a notification for `slot` closes the window.
    pub open spec fn closes_at(&self, slot: u64) -> bool {
        self.distance(slot) >= self.limit as int
    }

    /// An unarmed window of `WINDOW_LIMIT` slots.
    pub fn new() -> (window: SessionWindow)
        ensures
            window.initial_slot is None,
            window.limit == WINDOW_LIMIT,
    {
        SessionWindow { initial_slot: None, limit: WINDOW_LIMIT }
    }

    /// Takes note of a notification for `slot`.
    ///
    /// The first call arms the window with `slot`; later calls leave the
    /// state as it is. The signal is `Terminal` exactly when `slot` lies
    /// `limit` slots or more after the slot the window was armed with.
    pub fn observe(&mut self, slot: u64) -> (signal: WindowSignal)
        ensures
            final(self).limit == old(self).limit,
            final(self).initial_slot == Some(old(self).origin(slot)),
            signal == WindowSignal::Terminal <==> old(self).closes_at(slot),
            signal == WindowSignal::Continue <==> !old(self).closes_at(slot),
    {
        let first: u64 = match self.initial_slot {
            Some(first) => first,
            None => {
                self.initial_slot = Some(slot);
                slot
            },
        };
        if slot >= first && slot - first >= self.limit {
            WindowSignal::Terminal
        } else {
            WindowSignal::Continue
        }
    }
}

} // verus!
