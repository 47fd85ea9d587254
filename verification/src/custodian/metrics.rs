//! What the custodian counts of its snapshots.

use vstd::prelude::*;

use crate::raft::network::gauge_size;

verus! {

/// Counters and the last size of snapshots.
#[derive(Debug, Clone, Copy, PartialEq, Eq, Structural)]
pub struct SnapshotMetrics {
    pub created_total: u64,
    pub install_started_total: u64,
    pub install_completed_total: u64,
    pub last_size_bytes: i64,
}

/// The size of a snapshot on a gauge.
pub open spec fn gauge_of(len: usize) -> i64 {
    if len <= i64::MAX {
        len as i64
    } else {
        i64::MAX
    }
}

/// A counter on a gauge.
pub open spec fn gauge_of_count(n: u64) -> i64 {
    if n <= i64::MAX {
        n as i64
    } else {
        i64::MAX
    }
}

/// The counters before anything was counted.
pub fn init_metrics() -> (out: SnapshotMetrics)
    ensures
        out == (SnapshotMetrics {
            created_total: 0,
            install_started_total: 0,
            install_completed_total: 0,
            last_size_bytes: 0,
        }),
{
    SnapshotMetrics {
        created_total: 0,
        install_started_total: 0,
        install_completed_total: 0,
        last_size_bytes: 0,
    }
}

/// A counter as it is reported.
pub fn count_gauge(n: u64) -> (out: i64)
    ensures
        out == gauge_of_count(n),
{
    if n <= 0x7fff_ffff_ffff_ffff {
        n as i64
    } else {
        i64::MAX
    }
}

impl SnapshotMetrics {
    /// Counts a snapshot of `len` bytes that was built.
    pub fn built(&mut self, len: usize)
        ensures
            *final(self) == (SnapshotMetrics {
                created_total: vstd::wrapping::u64_specs::wrapping_add(
                    old(self).created_total,
                    1,
                ),
                last_size_bytes: gauge_of(len),
                ..*old(self)
            }),
    {
        self.created_total = self.created_total.wrapping_add(1);
        self.last_size_bytes = gauge_size(len);
    }

    /// Counts the start of the installation of a snapshot of `len` bytes.
    pub fn install_started(&mut self, len: usize)
        ensures
            *final(self) == (SnapshotMetrics {
                install_started_total: vstd::wrapping::u64_specs::wrapping_add(
                    old(self).install_started_total,
                    1,
                ),
                last_size_bytes: gauge_of(len),
                ..*old(self)
            }),
    {
        self.install_started_total = self.install_started_total.wrapping_add(1);
        self.last_size_bytes = gauge_size(len);
    }

    /// Counts an installation that was completed.
    pub fn install_completed(&mut self)
        ensures
            *final(self) == (SnapshotMetrics {
                install_completed_total: vstd::wrapping::u64_specs::wrapping_add(
                    old(self).install_completed_total,
                    1,
                ),
                ..*old(self)
            }),
    {
        self.install_completed_total = self.install_completed_total.wrapping_add(1);
    }
}

} // verus!
