//! Startup: connecting to the graph store with a bounded number of attempts at
//! a fixed backoff, then the bootstrap phases in their strict order.
use vstd::prelude::*;

use crate::database::Error;
use crate::sync::ReplicationError;

verus! {

/// Seconds to wait before each attempt after the first.
pub const RETRY_BACKOFF_SECONDS: u64 = 5;

/// What the runtime is to do next while connecting.
#[derive(Debug)]
pub enum ConnectCommand {
    /// Wait this many seconds, then make connection attempt number `attempt` (from 1).
    Connect { attempt: usize, wait_seconds: u64 },
    /// The last attempt succeeded.
    Ready,
    /// Every attempt failed: the last attempt's error, or a connection error when none was made.
    GiveUp(Error),
}

/// How the last connection attempt went.
#[derive(Debug)]
pub enum ConnectEvent {
    Connected,
    Refused(String),
}

/// Connection attempts in progress.
pub struct ConnectRetry {
    pub max_retries: usize,
    /// The number of the attempt under way.
    pub attempt: usize,
    pub finished: bool,
}

impl ConnectRetry {
    /// Starts connecting with at most `max_retries` attempts.
    pub fn new(max_retries: usize) -> (r: (ConnectRetry, ConnectCommand))
        ensures
            r.0.max_retries == max_retries,
            max_retries > 0 ==> !r.0.finished && r.0.attempt == 1 && r.1 == (ConnectCommand::Connect {
                attempt: 1,
                wait_seconds: 0,
            }),
            max_retries == 0 ==> r.0.finished && r.1 matches ConnectCommand::GiveUp(Error::Client(_)),
    {
        if max_retries > 0 {
            (ConnectRetry { max_retries, attempt: 1, finished: false }, ConnectCommand::Connect { attempt: 1, wait_seconds: 0 })
        } else {
            (ConnectRetry { max_retries, attempt: 0, finished: true }, ConnectCommand::GiveUp(Error::Client(String::from_str("connection error"))))
        }
    }

    pub open spec fn wf(self) -> bool {
        !self.finished ==> 1 <= self.attempt <= self.max_retries
    }

    /// Takes how the last attempt went: success is final; a failure is retried
    /// after the backoff until the attempts are spent, then given up with it.
    pub fn step(&mut self, event: ConnectEvent) -> (cmd: ConnectCommand)
        requires
            old(self).wf(),
            !old(self).finished,
        ensures
            final(self).wf(),
            final(self).max_retries == old(self).max_retries,
            match event {
                ConnectEvent::Connected => final(self).finished && cmd is Ready,
                ConnectEvent::Refused(msg) => if old(self).attempt < old(self).max_retries {
                    &&& !final(self).finished
                    &&& final(self).attempt == old(self).attempt + 1
                    &&& cmd == (ConnectCommand::Connect {
                        attempt: (old(self).attempt + 1) as usize,
                        wait_seconds: RETRY_BACKOFF_SECONDS,
                    })
                } else {
                    final(self).finished && cmd == ConnectCommand::GiveUp(Error::Client(msg))
                },
            },
    {
        match event {
            ConnectEvent::Connected => {
                self.finished = true;
                ConnectCommand::Ready
            },
            ConnectEvent::Refused(msg) => {
                if self.attempt < self.max_retries {
                    self.attempt = self.attempt + 1;
                    ConnectCommand::Connect { attempt: self.attempt, wait_seconds: RETRY_BACKOFF_SECONDS }
                } else {
                    self.finished = true;
                    ConnectCommand::GiveUp(Error::Client(msg))
                }
            },
        }
    }
}

/// One phase of the bootstrap.
#[derive(Clone, Copy, Debug, PartialEq, Eq, Structural)]
pub enum BootstrapStage {
    SyncSystems,
    SyncStargates,
    RefreshRisks,
    RefreshRiskProjection,
    RefreshWormholes,
    RefreshCostProjection,
}

/// The bootstrap phases, each after the ones it depends on.
pub open spec fn stage_order() -> Seq<BootstrapStage> {
    seq![
        BootstrapStage::SyncSystems,
        BootstrapStage::SyncStargates,
        BootstrapStage::RefreshRisks,
        BootstrapStage::RefreshRiskProjection,
        BootstrapStage::RefreshWormholes,
        BootstrapStage::RefreshCostProjection,
    ]
}

/// What the runtime is to do next during the bootstrap.
#[derive(Debug)]
pub enum BootstrapCommand {
    Run(BootstrapStage),
    Finish(Result<(), ReplicationError>),
}

/// The bootstrap in progress.
pub struct Bootstrap {
    /// The index in `stage_order()` of the phase under way.
    pub current: usize,
    pub finished: bool,
}

fn stage_at(i: usize) -> (r: BootstrapStage)
    requires
        i < stage_order().len(),
    ensures
        r == stage_order()[i as int],
{
    if i == 0 {
        BootstrapStage::SyncSystems
    } else if i == 1 {
        BootstrapStage::SyncStargates
    } else if i == 2 {
        BootstrapStage::RefreshRisks
    } else if i == 3 {
        BootstrapStage::RefreshRiskProjection
    } else if i == 4 {
        BootstrapStage::RefreshWormholes
    } else {
        BootstrapStage::RefreshCostProjection
    }
}

impl Bootstrap {
    pub open spec fn wf(self) -> bool {
        self.current < stage_order().len()
    }

    /// Starts the bootstrap with its first phase.
    pub fn new() -> (r: (Bootstrap, BootstrapCommand))
        ensures
            r.0.wf(),
            !r.0.finished,
            r.0.current == 0,
            r.1 == BootstrapCommand::Run(stage_order()[0]),
    {
        (Bootstrap { current: 0, finished: false }, BootstrapCommand::Run(BootstrapStage::SyncSystems))
    }

    /// Takes the outcome of the phase under way: the first error ends the
    /// bootstrap; a success runs the next phase, or ends it after the last.
    pub fn step(&mut self, outcome: Result<(), ReplicationError>) -> (cmd: BootstrapCommand)
        requires
            old(self).wf(),
            !old(self).finished,
        ensures
            final(self).wf(),
            match outcome {
                Err(e) => final(self).finished && cmd == BootstrapCommand::Finish(Err(e)),
                Ok(_) => if old(self).current + 1 < stage_order().len() {
                    &&& !final(self).finished
                    &&& final(self).current == old(self).current + 1
                    &&& cmd == BootstrapCommand::Run(stage_order()[old(self).current + 1])
                } else {
                    final(self).finished && cmd == BootstrapCommand::Finish(Ok(()))
                },
            },
    {
        match outcome {
            Err(e) => {
                self.finished = true;
                BootstrapCommand::Finish(Err(e))
            },
            Ok(_) => {
                if self.current + 1 < 6 {
                    self.current = self.current + 1;
                    BootstrapCommand::Run(stage_at(self.current))
                } else {
                    self.finished = true;
                    BootstrapCommand::Finish(Ok(()))
                }
            },
        }
    }
}

} // verus!
