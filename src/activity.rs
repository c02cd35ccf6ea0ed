//! The activity and risk refresh as a state machine: pull the hourly kills and
//! write them, pull the hourly jumps and write them, then write every system's
//! jump risk against the galaxy baseline of those totals.
use vstd::prelude::*;

use crate::esi::{SystemJumps, SystemKills};
use crate::risk::{baseline_jump_risk, baseline_spec, Fraction};
use crate::sync::{galaxy_jumps, galaxy_kills, total_jumps, total_kills, ReplicationError};

verus! {

/// What the runtime is to do next.
#[derive(Debug)]
pub enum RiskCommand {
    /// Fetch the hourly kill listing.
    FetchKills,
    /// Overwrite the kill counter of each listed system (a fan-out).
    WriteKills(Vec<SystemKills>),
    /// Fetch the hourly jump listing.
    FetchJumps,
    /// Overwrite the jump counter of each listed system (a fan-out).
    WriteJumps(Vec<SystemJumps>),
    /// Read the keys of every stored system.
    ReadSystemIds,
    /// For each key, write the risk of its system on every jump into it (a fan-out).
    WriteRisks(Vec<i64>, Fraction),
    /// The refresh is over, with this outcome.
    Finish(Result<(), ReplicationError>),
}

/// What the last command produced.
#[derive(Debug)]
pub enum RiskEvent {
    Kills(Vec<SystemKills>),
    Jumps(Vec<SystemJumps>),
    SystemIds(Vec<i64>),
    /// A write fan-out completed.
    Completed,
    Failed(ReplicationError),
}

#[derive(Clone, Copy, Debug, PartialEq, Eq, Structural)]
pub enum RiskPhase {
    AwaitKills,
    AwaitKillWrites,
    AwaitJumps,
    AwaitJumpWrites,
    AwaitSystemIds,
    AwaitRiskWrites,
    Finished,
}

/// A risk refresh in progress.
pub struct RiskRefresh {
    pub phase: RiskPhase,
    /// Sum of the ship kills of the pulled listing.
    pub galaxy_kills: u128,
    /// Sum of the ship jumps of the pulled listing.
    pub galaxy_jumps: u128,
}

impl RiskRefresh {
    /// The baseline that the refresh writes with.
    pub open spec fn baseline(self) -> Fraction {
        baseline_spec(self.galaxy_kills, self.galaxy_jumps)
    }

    /// A new refresh, with the command that starts it.
    pub fn new() -> (r: (RiskRefresh, RiskCommand))
        ensures
            r.0.phase == RiskPhase::AwaitKills,
            r.1 is FetchKills,
    {
        (RiskRefresh { phase: RiskPhase::AwaitKills, galaxy_kills: 0, galaxy_jumps: 0 }, RiskCommand::FetchKills)
    }

    /// Whether the refresh is over.
    pub fn is_finished(&self) -> (r: bool)
        ensures
            r == (self.phase == RiskPhase::Finished),
    {
        match self.phase {
            RiskPhase::Finished => true,
            _ => false,
        }
    }

    /// Takes the outcome of the last command and returns the next one. A failure
    /// ends the refresh with that error; an outcome of another command than the
    /// one awaited ends it with a process error.
    pub fn step(&mut self, event: RiskEvent) -> (cmd: RiskCommand)
        requires
            old(self).phase != RiskPhase::Finished,
        ensures
            match event {
                RiskEvent::Failed(e) => final(self).phase == RiskPhase::Finished && cmd
                    == RiskCommand::Finish(Err(e)),
                RiskEvent::Kills(listing) => if old(self).phase == RiskPhase::AwaitKills {
                    &&& final(self).phase == RiskPhase::AwaitKillWrites
                    &&& final(self).galaxy_kills == total_kills(listing@)
                    &&& cmd == RiskCommand::WriteKills(listing)
                } else {
                    final(self).phase == RiskPhase::Finished && cmd.is_process_failure()
                },
                RiskEvent::Jumps(listing) => if old(self).phase == RiskPhase::AwaitJumps {
                    &&& final(self).phase == RiskPhase::AwaitJumpWrites
                    &&& final(self).galaxy_kills == old(self).galaxy_kills
                    &&& final(self).galaxy_jumps == total_jumps(listing@)
                    &&& cmd == RiskCommand::WriteJumps(listing)
                } else {
                    final(self).phase == RiskPhase::Finished && cmd.is_process_failure()
                },
                RiskEvent::SystemIds(ids) => if old(self).phase == RiskPhase::AwaitSystemIds {
                    &&& final(self).phase == RiskPhase::AwaitRiskWrites
                    &&& cmd == RiskCommand::WriteRisks(ids, old(self).baseline())
                } else {
                    final(self).phase == RiskPhase::Finished && cmd.is_process_failure()
                },
                RiskEvent::Completed => match old(self).phase {
                    RiskPhase::AwaitKillWrites => {
                        &&& final(self).phase == RiskPhase::AwaitJumps
                        &&& final(self).galaxy_kills == old(self).galaxy_kills
                        &&& cmd is FetchJumps
                    },
                    RiskPhase::AwaitJumpWrites => {
                        &&& final(self).phase == RiskPhase::AwaitSystemIds
                        &&& final(self).galaxy_kills == old(self).galaxy_kills
                        &&& final(self).galaxy_jumps == old(self).galaxy_jumps
                        &&& cmd is ReadSystemIds
                    },
                    RiskPhase::AwaitRiskWrites => {
                        &&& final(self).phase == RiskPhase::Finished
                        &&& cmd == RiskCommand::Finish(Ok(()))
                    },
                    _ => final(self).phase == RiskPhase::Finished && cmd.is_process_failure(),
                },
            },
    {
        let phase = self.phase;
        match event {
            RiskEvent::Failed(e) => {
                self.phase = RiskPhase::Finished;
                RiskCommand::Finish(Err(e))
            },
            RiskEvent::Kills(listing) => {
                if phase == RiskPhase::AwaitKills {
                    self.galaxy_kills = galaxy_kills(&listing);
                    self.phase = RiskPhase::AwaitKillWrites;
                    RiskCommand::WriteKills(listing)
                } else {
                    self.abort()
                }
            },
            RiskEvent::Jumps(listing) => {
                if phase == RiskPhase::AwaitJumps {
                    self.galaxy_jumps = galaxy_jumps(&listing);
                    self.phase = RiskPhase::AwaitJumpWrites;
                    RiskCommand::WriteJumps(listing)
                } else {
                    self.abort()
                }
            },
            RiskEvent::SystemIds(ids) => {
                if phase == RiskPhase::AwaitSystemIds {
                    let baseline = baseline_jump_risk(self.galaxy_kills, self.galaxy_jumps);
                    self.phase = RiskPhase::AwaitRiskWrites;
                    RiskCommand::WriteRisks(ids, baseline)
                } else {
                    self.abort()
                }
            },
            RiskEvent::Completed => {
                match phase {
                    RiskPhase::AwaitKillWrites => {
                        self.phase = RiskPhase::AwaitJumps;
                        RiskCommand::FetchJumps
                    },
                    RiskPhase::AwaitJumpWrites => {
                        self.phase = RiskPhase::AwaitSystemIds;
                        RiskCommand::ReadSystemIds
                    },
                    RiskPhase::AwaitRiskWrites => {
                        self.phase = RiskPhase::Finished;
                        RiskCommand::Finish(Ok(()))
                    },
                    _ => self.abort(),
                }
            },
        }
    }

    fn abort(&mut self) -> (cmd: RiskCommand)
        ensures
            final(self).phase == RiskPhase::Finished,
            cmd.is_process_failure(),
    {
        self.phase = RiskPhase::Finished;
        RiskCommand::Finish(Err(crate::reconciler::out_of_order()))
    }
}

impl RiskCommand {
    /// This command ends the refresh because an outcome came out of order.
    pub open spec fn is_process_failure(self) -> bool {
        match self {
            RiskCommand::Finish(Err(ReplicationError::Process(_))) => true,
            _ => false,
        }
    }
}

} // verus!
