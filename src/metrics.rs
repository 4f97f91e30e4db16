//! Per-kind, per-outcome counts of publish calls.
//!
//! An outcome is the local enqueue result, not a delivery confirmation from
//! the broker.

use vstd::prelude::*;
use crate::error::BrokerError;

verus! {

/// The kind of a forwarded event.
#[derive(Clone, Copy, Debug, PartialEq, Eq)]
pub enum EventKind {
    Account,
    SlotStatus,
    Transaction,
}

/// Publish calls of one kind, by outcome.
#[derive(Clone, Copy, Debug, PartialEq, Eq)]
pub struct OutcomeCounts {
    pub success: u64,
    pub failed: u64,
}

/// Publish calls of each kind, by outcome.
#[derive(Clone, Copy, Debug, PartialEq, Eq)]
pub struct UploadMetrics {
    pub accounts: OutcomeCounts,
    pub slots: OutcomeCounts,
    pub transactions: OutcomeCounts,
}

/// One more, except that a counter at its maximum stays there.
pub open spec fn bump(n: u64) -> u64 {
    if n < u64::MAX {
        (n + 1) as u64
    } else {
        n
    }
}

/// The counts after one more call with outcome `ok`.
pub open spec fn counted(c: OutcomeCounts, ok: bool) -> OutcomeCounts {
    if ok {
        OutcomeCounts { success: bump(c.success), failed: c.failed }
    } else {
        OutcomeCounts { success: c.success, failed: bump(c.failed) }
    }
}

/// The counts of one kind.
pub open spec fn counts_of(m: UploadMetrics, kind: EventKind) -> OutcomeCounts {
    match kind {
        EventKind::Account => m.accounts,
        EventKind::SlotStatus => m.slots,
        EventKind::Transaction => m.transactions,
    }
}

/// The metrics after one more call of `kind` with outcome `ok`: that kind's
/// counts move, the others stay.
pub open spec fn recorded(m: UploadMetrics, kind: EventKind, ok: bool) -> UploadMetrics {
    match kind {
        EventKind::Account => UploadMetrics { accounts: counted(m.accounts, ok), ..m },
        EventKind::SlotStatus => UploadMetrics { slots: counted(m.slots, ok), ..m },
        EventKind::Transaction => UploadMetrics { transactions: counted(m.transactions, ok), ..m },
    }
}

fn bump_exec(n: u64) -> (r: u64)
    ensures
        r == bump(n),
{
    if n < u64::MAX {
        n + 1
    } else {
        n
    }
}

impl OutcomeCounts {
    /// No calls yet.
    pub fn new() -> (r: OutcomeCounts)
        ensures
            r.success == 0,
            r.failed == 0,
    {
        OutcomeCounts { success: 0, failed: 0 }
    }

    /// Counts one more call with outcome `ok`.
    pub fn count(&mut self, ok: bool)
        ensures
            *final(self) == counted(*old(self), ok),
    {
        if ok {
            self.success = bump_exec(self.success);
        } else {
            self.failed = bump_exec(self.failed);
        }
    }
}

impl UploadMetrics {
    /// All counts zero.
    pub open spec fn spec_zero() -> UploadMetrics {
        UploadMetrics {
            accounts: OutcomeCounts { success: 0, failed: 0 },
            slots: OutcomeCounts { success: 0, failed: 0 },
            transactions: OutcomeCounts { success: 0, failed: 0 },
        }
    }

    /// All counts zero.
    pub fn new() -> (r: UploadMetrics)
        ensures
            r == UploadMetrics::spec_zero(),
    {
        UploadMetrics {
            accounts: OutcomeCounts::new(),
            slots: OutcomeCounts::new(),
            transactions: OutcomeCounts::new(),
        }
    }

    /// The counts of one kind.
    pub fn counts(&self, kind: EventKind) -> (r: OutcomeCounts)
        ensures
            r == counts_of(*self, kind),
    {
        match kind {
            EventKind::Account => self.accounts,
            EventKind::SlotStatus => self.slots,
            EventKind::Transaction => self.transactions,
        }
    }

    /// Counts one more call of `kind` with outcome `ok`.
    pub fn record(&mut self, kind: EventKind, ok: bool)
        ensures
            *final(self) == recorded(*old(self), kind, ok),
    {
        match kind {
            EventKind::Account => self.accounts.count(ok),
            EventKind::SlotStatus => self.slots.count(ok),
            EventKind::Transaction => self.transactions.count(ok),
        }
    }

    /// Counts the enqueue outcome of a publish call of `kind` and hands it
    /// back unchanged.
    pub fn settle(&mut self, kind: EventKind, outcome: Result<(), BrokerError>) -> (r: Result<(), BrokerError>)
        ensures
            r == outcome,
            *final(self) == recorded(*old(self), kind, outcome is Ok),
    {
        self.record(kind, outcome.is_ok());
        outcome
    }
}

} // verus!
