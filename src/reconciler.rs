//! The reconcile procedure, shared by systems and stargates, as a state machine:
//! each step takes what the last command produced and says what to do next.
//! The runtime performs the commands against the catalog and the graph store.
use vstd::prelude::*;

use crate::database::{dedupe, without_ids, System};
use crate::sync::{
    is_plan_for, lemma_partial_reconcile_within_catalog, lemma_reconcile_matches_catalog,
    listed_by_some_system, reconcile, stargate_catalog_ids, ReconcilePlan, ReplicationError,
};

verus! {

/// The kind of node that a reconcile pass brings in line with its catalog.
#[derive(Clone, Copy, Debug, PartialEq, Eq, Structural)]
pub enum EntityKind {
    /// Catalog: the service's system listing.
    Systems,
    /// Catalog: the union of the stargate lists of the stored systems.
    Stargates,
}

/// What the runtime is to do next.
#[derive(Debug)]
pub enum SyncCommand {
    /// Systems: list the catalog's system ids. Stargates: read every stored system.
    FetchCatalog,
    /// Read the keys of the stored nodes.
    ReadStoredIds,
    /// Detach-delete the nodes with these keys.
    RemoveByIds(Vec<i64>),
    /// Fetch the details of each key and save the node (a fan-out, joined by first error).
    FetchAndSave(Vec<i64>),
    /// Run the dedupe pass.
    RemoveDuplicates,
    /// Count the stored nodes.
    CountSaved,
    /// The pass is over, with this outcome.
    Finish(Result<(), ReplicationError>),
}

/// What the last command produced.
#[derive(Debug)]
pub enum SyncEvent {
    /// The catalog's system ids.
    CatalogIds(Vec<i64>),
    /// Every stored system, for the stargate catalog.
    CatalogSystems(Vec<System>),
    /// The keys of the stored nodes.
    StoredIds(Vec<i64>),
    /// A removal, fan-out or dedupe pass completed.
    Completed,
    /// The number of stored nodes.
    Counted(i64),
    /// The last command failed.
    Failed(ReplicationError),
}

/// Which command's outcome the machine waits for.
#[derive(Clone, Copy, Debug, PartialEq, Eq, Structural)]
pub enum SyncPhase {
    AwaitCatalog,
    AwaitStored,
    AwaitRemoval,
    AwaitAdditions,
    AwaitDedupe,
    AwaitCount,
    Finished,
}

/// A reconcile pass in progress.
pub struct Reconciler {
    pub entity: EntityKind,
    pub phase: SyncPhase,
    /// The keys that should exist, once the catalog has been read.
    pub catalog_ids: Vec<i64>,
    /// What the pass removes and adds, once the stored keys have been read.
    pub plan: ReconcilePlan,
    /// The stored keys that the plan was made against.
    pub stored: Ghost<Seq<i64>>,
    /// The node count reported at the end.
    pub final_count: Option<i64>,
}

/// The phase that follows the removal step of a plan: the fan-out if there is
/// anything to add, else the dedupe pass.
pub open spec fn phase_after_removal(to_add: Seq<i64>) -> SyncPhase {
    if to_add.len() > 0 {
        SyncPhase::AwaitAdditions
    } else {
        SyncPhase::AwaitDedupe
    }
}

/// The phase that follows reading the stored keys: removal if anything is stale,
/// else as after removal.
pub open spec fn phase_after_plan(to_remove: Seq<i64>, to_add: Seq<i64>) -> SyncPhase {
    if to_remove.len() > 0 {
        SyncPhase::AwaitRemoval
    } else {
        phase_after_removal(to_add)
    }
}

impl Reconciler {
    /// `cmd` is the command that a machine in this state waits on.
    pub open spec fn issues(self, cmd: SyncCommand) -> bool {
        match self.phase {
            SyncPhase::AwaitCatalog => cmd is FetchCatalog,
            SyncPhase::AwaitStored => cmd is ReadStoredIds,
            SyncPhase::AwaitRemoval => match cmd {
                SyncCommand::RemoveByIds(ids) => ids@ == self.plan.to_remove@,
                _ => false,
            },
            SyncPhase::AwaitAdditions => match cmd {
                SyncCommand::FetchAndSave(ids) => ids@ == self.plan.to_add@,
                _ => false,
            },
            SyncPhase::AwaitDedupe => cmd is RemoveDuplicates,
            SyncPhase::AwaitCount => cmd is CountSaved,
            SyncPhase::Finished => cmd is Finish,
        }
    }

    /// Once the stored keys are read, the plan is the set difference against the catalog.
    pub open spec fn wf(self) -> bool {
        &&& (self.phase is AwaitRemoval || self.phase is AwaitAdditions || self.phase is AwaitDedupe
            || self.phase is AwaitCount) ==> is_plan_for(
            self.catalog_ids@,
            self.stored@,
            self.plan.to_remove@,
            self.plan.to_add@,
        )
        &&& self.phase is AwaitRemoval ==> self.plan.to_remove@.len() > 0
        &&& self.phase is AwaitAdditions ==> self.plan.to_add@.len() > 0
    }

    /// A new pass over `entity`, with the command that starts it.
    pub fn new(entity: EntityKind) -> (r: (Reconciler, SyncCommand))
        ensures
            r.0.entity == entity,
            r.0.phase == SyncPhase::AwaitCatalog,
            r.0.wf(),
            r.0.issues(r.1),
    {
        let m = Reconciler {
            entity,
            phase: SyncPhase::AwaitCatalog,
            catalog_ids: Vec::new(),
            plan: ReconcilePlan { to_remove: Vec::new(), to_add: Vec::new() },
            stored: Ghost(Seq::empty()),
            final_count: None,
        };
        (m, SyncCommand::FetchCatalog)
    }

    /// Whether the pass is over.
    pub fn is_finished(&self) -> (r: bool)
        ensures
            r == (self.phase == SyncPhase::Finished),
    {
        match self.phase {
            SyncPhase::Finished => true,
            _ => false,
        }
    }

    fn finish(&mut self, outcome: Result<(), ReplicationError>) -> (cmd: SyncCommand)
        ensures
            final(self).phase == SyncPhase::Finished,
            final(self).entity == old(self).entity,
            final(self).plan == old(self).plan,
            final(self).catalog_ids == old(self).catalog_ids,
            final(self).stored == old(self).stored,
            final(self).final_count == old(self).final_count,
            cmd == SyncCommand::Finish(outcome),
    {
        self.phase = SyncPhase::Finished;
        SyncCommand::Finish(outcome)
    }

    fn after_removal(&mut self) -> (cmd: SyncCommand)
        requires
            old(self).wf(),
            old(self).phase is AwaitRemoval || old(self).phase is AwaitStored,
            old(self).phase is AwaitStored ==> is_plan_for(
                old(self).catalog_ids@,
                old(self).stored@,
                old(self).plan.to_remove@,
                old(self).plan.to_add@,
            ),
        ensures
            final(self).phase == phase_after_removal(old(self).plan.to_add@),
            final(self).plan == old(self).plan,
            final(self).catalog_ids == old(self).catalog_ids,
            final(self).stored == old(self).stored,
            final(self).entity == old(self).entity,
            final(self).wf(),
            final(self).issues(cmd),
    {
        if self.plan.to_add.len() > 0 {
            self.phase = SyncPhase::AwaitAdditions;
            SyncCommand::FetchAndSave(self.plan.to_add.clone())
        } else {
            self.phase = SyncPhase::AwaitDedupe;
            SyncCommand::RemoveDuplicates
        }
    }

    /// Takes the outcome of the last command and returns the next one. A failure
    /// ends the pass with that error; an outcome of another command than the one
    /// awaited ends it with a process error.
    pub fn step(&mut self, event: SyncEvent) -> (cmd: SyncCommand)
        requires
            old(self).wf(),
            old(self).phase != SyncPhase::Finished,
        ensures
            final(self).wf(),
            final(self).issues(cmd),
            final(self).entity == old(self).entity,
            match event {
                SyncEvent::Failed(e) => final(self).phase == SyncPhase::Finished && cmd
                    == SyncCommand::Finish(Err(e)),
                SyncEvent::CatalogIds(ids) => if old(self).phase == SyncPhase::AwaitCatalog
                    && old(self).entity == EntityKind::Systems {
                    final(self).phase == SyncPhase::AwaitStored && final(self).catalog_ids == ids
                } else {
                    final(self).phase == SyncPhase::Finished && cmd.is_process_failure()
                },
                SyncEvent::CatalogSystems(systems) => if old(self).phase
                    == SyncPhase::AwaitCatalog && old(self).entity == EntityKind::Stargates {
                    &&& final(self).phase == SyncPhase::AwaitStored
                    &&& final(self).catalog_ids@.no_duplicates()
                    &&& forall|k: i64|
                        final(self).catalog_ids@.contains(k) <==> listed_by_some_system(
                            systems@,
                            k,
                        )
                } else {
                    final(self).phase == SyncPhase::Finished && cmd.is_process_failure()
                },
                SyncEvent::StoredIds(ids) => if old(self).phase == SyncPhase::AwaitStored {
                    &&& final(self).catalog_ids == old(self).catalog_ids
                    &&& final(self).stored@ == ids@
                    &&& is_plan_for(
                        old(self).catalog_ids@,
                        ids@,
                        final(self).plan.to_remove@,
                        final(self).plan.to_add@,
                    )
                    &&& final(self).phase == phase_after_plan(
                        final(self).plan.to_remove@,
                        final(self).plan.to_add@,
                    )
                } else {
                    final(self).phase == SyncPhase::Finished && cmd.is_process_failure()
                },
                SyncEvent::Completed => {
                    &&& final(self).plan == old(self).plan
                    &&& final(self).catalog_ids == old(self).catalog_ids
                    &&& final(self).stored == old(self).stored
                    &&& final(self).phase == match old(self).phase {
                        SyncPhase::AwaitRemoval => phase_after_removal(old(self).plan.to_add@),
                        SyncPhase::AwaitAdditions => SyncPhase::AwaitDedupe,
                        SyncPhase::AwaitDedupe => SyncPhase::AwaitCount,
                        _ => SyncPhase::Finished,
                    }
                    &&& final(self).phase == SyncPhase::Finished ==> cmd.is_process_failure()
                },
                SyncEvent::Counted(n) => if old(self).phase == SyncPhase::AwaitCount {
                    &&& final(self).phase == SyncPhase::Finished
                    &&& final(self).final_count == Some(n)
                    &&& cmd == SyncCommand::Finish(Ok(()))
                } else {
                    final(self).phase == SyncPhase::Finished && cmd.is_process_failure()
                },
            },
    {
        let phase = self.phase;
        match event {
            SyncEvent::Failed(e) => self.finish(Err(e)),
            SyncEvent::CatalogIds(ids) => {
                if phase == SyncPhase::AwaitCatalog && self.entity == EntityKind::Systems {
                    self.catalog_ids = ids;
                    self.phase = SyncPhase::AwaitStored;
                    SyncCommand::ReadStoredIds
                } else {
                    self.finish(Err(out_of_order()))
                }
            },
            SyncEvent::CatalogSystems(systems) => {
                if phase == SyncPhase::AwaitCatalog && self.entity == EntityKind::Stargates {
                    self.catalog_ids = stargate_catalog_ids(&systems);
                    self.phase = SyncPhase::AwaitStored;
                    SyncCommand::ReadStoredIds
                } else {
                    self.finish(Err(out_of_order()))
                }
            },
            SyncEvent::StoredIds(ids) => {
                if phase == SyncPhase::AwaitStored {
                    self.plan = reconcile(&self.catalog_ids, &ids);
                    self.stored = Ghost(ids@);
                    if self.plan.to_remove.len() > 0 {
                        self.phase = SyncPhase::AwaitRemoval;
                        SyncCommand::RemoveByIds(self.plan.to_remove.clone())
                    } else {
                        self.after_removal()
                    }
                } else {
                    self.finish(Err(out_of_order()))
                }
            },
            SyncEvent::Completed => {
                match phase {
                    SyncPhase::AwaitRemoval => self.after_removal(),
                    SyncPhase::AwaitAdditions => {
                        self.phase = SyncPhase::AwaitDedupe;
                        SyncCommand::RemoveDuplicates
                    },
                    SyncPhase::AwaitDedupe => {
                        self.phase = SyncPhase::AwaitCount;
                        SyncCommand::CountSaved
                    },
                    _ => self.finish(Err(out_of_order())),
                }
            },
            SyncEvent::Counted(n) => {
                if phase == SyncPhase::AwaitCount {
                    self.final_count = Some(n);
                    self.finish(Ok(()))
                } else {
                    self.finish(Err(out_of_order()))
                }
            },
        }
    }
}

impl SyncCommand {
    /// This command ends the pass because an outcome came out of order.
    pub open spec fn is_process_failure(self) -> bool {
        match self {
            SyncCommand::Finish(Err(ReplicationError::Process(_))) => true,
            _ => false,
        }
    }
}

/// The error for an outcome that does not answer the awaited command.
pub fn out_of_order() -> (e: ReplicationError)
    ensures
        e is Process,
{
    ReplicationError::Process(String::from_str("an outcome arrived for a command that was not awaited"))
}

/// A pass that has run its dedupe step (it waits for the count) has left the
/// store with exactly the catalog's keys, each once, when every planned key
/// was added; when only some were (stargates skip the ones the catalog could
/// not give), with no key outside the catalog and each key once.
pub proof fn lemma_completed_pass_matches_catalog(m: Reconciler, added: Seq<i64>)
    requires
        m.wf(),
        m.phase == SyncPhase::AwaitCount,
        forall|k: i64| added.contains(k) ==> m.plan.to_add@.contains(k),
    ensures
        forall|k: i64|
            dedupe(without_ids(m.stored@, m.plan.to_remove@) + m.plan.to_add@).contains(k)
                <==> m.catalog_ids@.contains(k),
        dedupe(without_ids(m.stored@, m.plan.to_remove@) + m.plan.to_add@).no_duplicates(),
        forall|k: i64|
            dedupe(without_ids(m.stored@, m.plan.to_remove@) + added).contains(k)
                ==> m.catalog_ids@.contains(k),
        dedupe(without_ids(m.stored@, m.plan.to_remove@) + added).no_duplicates(),
{
    lemma_reconcile_matches_catalog(m.catalog_ids@, m.stored@, m.plan.to_remove@, m.plan.to_add@);
    lemma_partial_reconcile_within_catalog(
        m.catalog_ids@,
        m.stored@,
        m.plan.to_remove@,
        m.plan.to_add@,
        added,
    );
}

} // verus!
