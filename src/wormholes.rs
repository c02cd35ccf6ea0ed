//! The wormhole refresh as a state machine: drop every jump of the hub systems,
//! fetch the public signatures, and save both directions of each wormhole.
//! Beside it, a model of the jump edges over which the refresh is idempotent.
use vstd::prelude::*;

use crate::eve_scout::{wormhole_links, wormhole_pairs, EveScoutSignature};
use crate::sync::ReplicationError;

verus! {

/// What the runtime is to do next.
#[derive(Debug)]
pub enum WormholeCommand {
    /// Delete every jump, in either direction, of the system with this name.
    DropConnections(String),
    /// Fetch the public signature list.
    FetchSignatures,
    /// Create a jump `in -> out` and a jump `out -> in` for each pair (a fan-out).
    SaveWormholes(Vec<(i64, i64)>),
    /// The refresh is over, with this outcome.
    Finish(Result<(), ReplicationError>),
}

/// What the last command produced.
#[derive(Debug)]
pub enum WormholeEvent {
    /// A drop or the save fan-out completed.
    Completed,
    Signatures(Vec<EveScoutSignature>),
    Failed(ReplicationError),
}

#[derive(Clone, Copy, Debug, PartialEq, Eq, Structural)]
pub enum WormholePhase {
    /// Waiting for the drop of the hub at this index.
    AwaitDrop(usize),
    AwaitSignatures,
    AwaitSaves,
    Finished,
}

/// The names of the hub systems whose jumps are all transient.
pub open spec fn hub_names() -> Seq<Seq<char>> {
    seq![seq!['T', 'h', 'e', 'r', 'a'], seq!['T', 'u', 'r', 'n', 'u', 'r']]
}

/// The hub system names, in the order their jumps are dropped.
pub fn hub_system_names() -> (r: Vec<String>)
    ensures
        r@.len() == hub_names().len(),
        forall|i: int| 0 <= i < r@.len() ==> r@[i]@ == hub_names()[i],
{
    let thera = String::from_str("Thera");
    let turnur = String::from_str("Turnur");
    proof {
        reveal_strlit("Thera");
        reveal_strlit("Turnur");
        assert(thera@ =~= hub_names()[0]);
        assert(turnur@ =~= hub_names()[1]);
    }
    let mut r: Vec<String> = Vec::new();
    r.push(thera);
    r.push(turnur);
    r
}

/// A wormhole refresh in progress.
pub struct WormholeRefresh {
    pub phase: WormholePhase,
    pub hubs: Vec<String>,
}

impl WormholeRefresh {
    pub open spec fn wf(self) -> bool {
        &&& self.hubs@.len() == hub_names().len()
        &&& forall|i: int| 0 <= i < self.hubs@.len() ==> self.hubs@[i]@ == hub_names()[i]
        &&& self.phase matches WormholePhase::AwaitDrop(i) ==> i < self.hubs@.len()
    }

    /// A new refresh, with the command that starts it: the drop of the first hub.
    pub fn new() -> (r: (WormholeRefresh, WormholeCommand))
        ensures
            r.0.wf(),
            r.0.phase == WormholePhase::AwaitDrop(0),
            r.1 matches WormholeCommand::DropConnections(name) && name@ == hub_names()[0],
    {
        let hubs = hub_system_names();
        let first = hubs[0].clone();
        (WormholeRefresh { phase: WormholePhase::AwaitDrop(0), hubs }, WormholeCommand::DropConnections(first))
    }

    /// Whether the refresh is over.
    pub fn is_finished(&self) -> (r: bool)
        ensures
            r == (self.phase == WormholePhase::Finished),
    {
        match self.phase {
            WormholePhase::Finished => true,
            _ => false,
        }
    }

    /// Takes the outcome of the last command and returns the next one. A failure
    /// ends the refresh with that error; an outcome of another command than the
    /// one awaited ends it with a process error.
    pub fn step(&mut self, event: WormholeEvent) -> (cmd: WormholeCommand)
        requires
            old(self).wf(),
            old(self).phase != WormholePhase::Finished,
        ensures
            final(self).wf(),
            match event {
                WormholeEvent::Failed(e) => final(self).phase == WormholePhase::Finished && cmd
                    == WormholeCommand::Finish(Err(e)),
                WormholeEvent::Completed => match old(self).phase {
                    WormholePhase::AwaitDrop(i) => if i + 1 < hub_names().len() {
                        &&& final(self).phase == WormholePhase::AwaitDrop((i + 1) as usize)
                        &&& cmd matches WormholeCommand::DropConnections(name) && name@
                            == hub_names()[i + 1]
                    } else {
                        final(self).phase == WormholePhase::AwaitSignatures
                            && cmd is FetchSignatures
                    },
                    WormholePhase::AwaitSaves => final(self).phase == WormholePhase::Finished
                        && cmd == WormholeCommand::Finish(Ok(())),
                    _ => final(self).phase == WormholePhase::Finished && cmd.is_process_failure(),
                },
                WormholeEvent::Signatures(signatures) => if old(self).phase
                    == WormholePhase::AwaitSignatures {
                    &&& final(self).phase == WormholePhase::AwaitSaves
                    &&& cmd matches WormholeCommand::SaveWormholes(pairs) && pairs@
                        == wormhole_pairs(signatures@)
                } else {
                    final(self).phase == WormholePhase::Finished && cmd.is_process_failure()
                },
            },
    {
        match event {
            WormholeEvent::Failed(e) => {
                self.phase = WormholePhase::Finished;
                WormholeCommand::Finish(Err(e))
            },
            WormholeEvent::Completed => {
                match self.phase {
                    WormholePhase::AwaitDrop(i) => {
                        if i + 1 < self.hubs.len() {
                            self.phase = WormholePhase::AwaitDrop(i + 1);
                            WormholeCommand::DropConnections(self.hubs[i + 1].clone())
                        } else {
                            self.phase = WormholePhase::AwaitSignatures;
                            WormholeCommand::FetchSignatures
                        }
                    },
                    WormholePhase::AwaitSaves => {
                        self.phase = WormholePhase::Finished;
                        WormholeCommand::Finish(Ok(()))
                    },
                    _ => self.abort(),
                }
            },
            WormholeEvent::Signatures(signatures) => {
                if self.phase == WormholePhase::AwaitSignatures {
                    self.phase = WormholePhase::AwaitSaves;
                    WormholeCommand::SaveWormholes(wormhole_links(&signatures))
                } else {
                    self.abort()
                }
            },
        }
    }

    fn abort(&mut self) -> (cmd: WormholeCommand)
        requires
            old(self).wf(),
        ensures
            final(self).wf(),
            final(self).phase == WormholePhase::Finished,
            cmd.is_process_failure(),
    {
        self.phase = WormholePhase::Finished;
        WormholeCommand::Finish(Err(crate::reconciler::out_of_order()))
    }
}

impl WormholeCommand {
    /// This command ends the refresh because an outcome came out of order.
    pub open spec fn is_process_failure(self) -> bool {
        match self {
            WormholeCommand::Finish(Err(ReplicationError::Process(_))) => true,
            _ => false,
        }
    }
}

// ----- Model of the jump edges -----

/// The edge touches none of the hub systems.
pub open spec fn clear_of_hubs(hubs: Set<i64>) -> spec_fn((i64, i64)) -> bool {
    |e: (i64, i64)| !hubs.contains(e.0) && !hubs.contains(e.1)
}

/// The edges left after every jump of the hub systems is dropped.
pub open spec fn without_hub_jumps(edges: Seq<(i64, i64)>, hubs: Set<i64>) -> Seq<(i64, i64)> {
    edges.filter(clear_of_hubs(hubs))
}

/// The edges that saving the wormhole pairs creates: both directions of each.
pub open spec fn wormhole_edges(pairs: Seq<(i64, i64)>) -> Seq<(i64, i64)>
    decreases pairs.len(),
{
    if pairs.len() == 0 {
        Seq::empty()
    } else {
        let p = pairs.last();
        wormhole_edges(pairs.drop_last()).push((p.0, p.1)).push((p.1, p.0))
    }
}

/// The edges after a wormhole refresh, where `hubs` are the keys of the hub
/// systems and `signatures` the feed's list.
pub open spec fn after_wormhole_refresh(
    edges: Seq<(i64, i64)>,
    hubs: Set<i64>,
    signatures: Seq<EveScoutSignature>,
) -> Seq<(i64, i64)> {
    without_hub_jumps(edges, hubs) + wormhole_edges(wormhole_pairs(signatures))
}

/// Each wormhole of the list has a hub system at one end.
pub open spec fn every_wormhole_touches_a_hub(
    hubs: Set<i64>,
    signatures: Seq<EveScoutSignature>,
) -> bool {
    forall|i: int|
        0 <= i < wormhole_pairs(signatures).len() ==> (hubs.contains(wormhole_pairs(signatures)[i].0)
            || hubs.contains(wormhole_pairs(signatures)[i].1))
}

proof fn lemma_filter_all_kept(s: Seq<(i64, i64)>, pred: spec_fn((i64, i64)) -> bool)
    requires
        forall|i: int| 0 <= i < s.len() ==> pred(s[i]),
    ensures
        s.filter(pred) == s,
    decreases s.len(),
{
    reveal(Seq::filter);
    if s.len() > 0 {
        let init = s.drop_last();
        assert forall|i: int| 0 <= i < init.len() implies pred(init[i]) by {
            assert(init[i] == s[i]);
        }
        lemma_filter_all_kept(init, pred);
        assert(init.push(s.last()) =~= s);
    }
}

proof fn lemma_filter_none_kept(s: Seq<(i64, i64)>, pred: spec_fn((i64, i64)) -> bool)
    requires
        forall|i: int| 0 <= i < s.len() ==> !pred(s[i]),
    ensures
        s.filter(pred) == Seq::<(i64, i64)>::empty(),
    decreases s.len(),
{
    reveal(Seq::filter);
    if s.len() > 0 {
        let init = s.drop_last();
        assert forall|i: int| 0 <= i < init.len() implies !pred(init[i]) by {
            assert(init[i] == s[i]);
        }
        lemma_filter_none_kept(init, pred);
    } else {
        assert(s =~= Seq::<(i64, i64)>::empty());
    }
}

proof fn lemma_wormhole_edges_touch_hubs(pairs: Seq<(i64, i64)>, hubs: Set<i64>)
    requires
        forall|i: int| 0 <= i < pairs.len() ==> (hubs.contains(pairs[i].0) || hubs.contains(pairs[i].1)),
    ensures
        forall|i: int|
            0 <= i < wormhole_edges(pairs).len() ==> !clear_of_hubs(hubs)(wormhole_edges(pairs)[i]),
    decreases pairs.len(),
{
    if pairs.len() > 0 {
        let init = pairs.drop_last();
        assert forall|i: int| 0 <= i < init.len() implies (hubs.contains(init[i].0) || hubs.contains(
            init[i].1,
        )) by {
            assert(init[i] == pairs[i]);
        }
        lemma_wormhole_edges_touch_hubs(init, hubs);
        let prev = wormhole_edges(init);
        let all = wormhole_edges(pairs);
        assert forall|i: int| 0 <= i < all.len() implies !clear_of_hubs(hubs)(all[i]) by {
            if i < prev.len() {
                assert(all[i] == prev[i]);
            }
        }
    }
}

/// A wormhole refresh is idempotent against a frozen signature list, provided
/// each wormhole has a hub system at one end (so that the next refresh drops
/// the jumps that this one created).
pub proof fn lemma_wormhole_refresh_idempotent(
    edges: Seq<(i64, i64)>,
    hubs: Set<i64>,
    signatures: Seq<EveScoutSignature>,
)
    requires
        every_wormhole_touches_a_hub(hubs, signatures),
    ensures
        after_wormhole_refresh(after_wormhole_refresh(edges, hubs, signatures), hubs, signatures)
            == after_wormhole_refresh(edges, hubs, signatures),
{
    let pred = clear_of_hubs(hubs);
    let kept = without_hub_jumps(edges, hubs);
    let added = wormhole_edges(wormhole_pairs(signatures));
    broadcast use Seq::filter_distributes_over_add;
    broadcast use vstd::seq_lib::group_filter_ensures;

    assert forall|i: int| 0 <= i < kept.len() implies pred(kept[i]) by {
        edges.lemma_filter_pred(pred, i);
    }
    lemma_filter_all_kept(kept, pred);
    lemma_wormhole_edges_touch_hubs(wormhole_pairs(signatures), hubs);
    lemma_filter_none_kept(added, pred);
    assert((kept + added).filter(pred) == kept.filter(pred) + added.filter(pred));
    assert(kept + Seq::<(i64, i64)>::empty() =~= kept);
}

} // verus!
