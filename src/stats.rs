//! Per-category counters of completed requests.
use vstd::prelude::*;

verus! {

/// Adds one, staying at the maximum once there.
pub open spec fn bump(c: u64) -> u64 {
    if c < u64::MAX { (c + 1) as u64 } else { c }
}

fn bumped(c: u64) -> (r: u64)
    ensures
        r == bump(c),
{
    if c < u64::MAX { c + 1 } else { c }
}

/// How many solves of each kind have completed.
#[derive(Clone, Copy, Debug)]
pub struct EngineStats {
    pub total_ik_solves: u64,
    pub total_fk_solves: u64,
    pub total_compressions: u64,
    pub total_trajectories: u64,
}

impl EngineStats {
    /// All counters at zero.
    pub fn new() -> (r: EngineStats)
        ensures
            r.total_ik_solves == 0,
            r.total_fk_solves == 0,
            r.total_compressions == 0,
            r.total_trajectories == 0,
    {
        EngineStats { total_ik_solves: 0, total_fk_solves: 0, total_compressions: 0, total_trajectories: 0 }
    }

    /// Counts one inverse-kinematics solve.
    pub fn record_ik_solve(&mut self)
        ensures
            *final(self) == (EngineStats { total_ik_solves: bump(old(self).total_ik_solves), ..*old(self) }),
    {
        self.total_ik_solves = bumped(self.total_ik_solves);
    }

    /// Counts one forward-kinematics solve.
    pub fn record_fk_solve(&mut self)
        ensures
            *final(self) == (EngineStats { total_fk_solves: bump(old(self).total_fk_solves), ..*old(self) }),
    {
        self.total_fk_solves = bumped(self.total_fk_solves);
    }

    /// Counts one intent compression.
    pub fn record_compression(&mut self)
        ensures
            *final(self) == (EngineStats { total_compressions: bump(old(self).total_compressions), ..*old(self) }),
    {
        self.total_compressions = bumped(self.total_compressions);
    }

    /// Counts one trajectory optimisation.
    pub fn record_trajectory(&mut self)
        ensures
            *final(self) == (EngineStats { total_trajectories: bump(old(self).total_trajectories), ..*old(self) }),
    {
        self.total_trajectories = bumped(self.total_trajectories);
    }

    /// Solves of both kinematics kinds together, capped at the largest count.
    pub fn total_solves(&self) -> (r: u64)
        ensures
            r as int == if self.total_ik_solves + self.total_fk_solves <= u64::MAX {
                self.total_ik_solves + self.total_fk_solves
            } else {
                u64::MAX as int
            },
    {
        if self.total_ik_solves <= u64::MAX - self.total_fk_solves {
            self.total_ik_solves + self.total_fk_solves
        } else {
            u64::MAX
        }
    }
}

} // verus!
