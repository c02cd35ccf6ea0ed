//! Reconciliation of the graph store against the catalogs: set-difference
//! planning, the per-item fetch policy, first-error joining of a fan-out, and
//! the activity totals that the risk refresh needs.
use vstd::prelude::*;

use std::collections::HashSet;

use crate::database::{
    dedupe, lemma_concat_contains, lemma_dedupe_keeps_keys, lemma_dedupe_unique,
    lemma_without_ids_contains, without_ids, Error as StoreError, Stargate, System,
};
use crate::esi::{RequestError, StargateResponse, StatusKind, SystemJumps, SystemKills};
use crate::eve_scout::Error as SignatureError;

verus! {

broadcast use vstd::std_specs::hash::group_hash_axioms;

/// Why a replication run failed.
#[derive(Debug)]
pub enum ReplicationError {
    /// A catalog request failed.
    Source(RequestError),
    /// The wormhole signature feed failed.
    Signatures(SignatureError),
    /// A spawned task panicked or was cancelled; the message says how.
    Process(String),
    /// The graph store failed.
    Target(StoreError),
}

/// What a reconcile pass removes from the store and adds to it.
#[derive(Clone, Debug)]
pub struct ReconcilePlan {
    pub to_remove: Vec<i64>,
    pub to_add: Vec<i64>,
}

/// `to_remove` and `to_add` are the two set differences between `stored` and
/// `catalog`, each without repeats.
pub open spec fn is_plan_for(
    catalog: Seq<i64>,
    stored: Seq<i64>,
    to_remove: Seq<i64>,
    to_add: Seq<i64>,
) -> bool {
    &&& to_remove.no_duplicates()
    &&& to_add.no_duplicates()
    &&& forall|k: i64| to_remove.contains(k) <==> (stored.contains(k) && !catalog.contains(k))
    &&& forall|k: i64| to_add.contains(k) <==> (catalog.contains(k) && !stored.contains(k))
}

proof fn lemma_prefix_step_at(s: Seq<i64>, i: int, x: i64)
    requires
        0 <= i < s.len(),
    ensures
        s.subrange(0, i + 1).contains(x) <==> (s.subrange(0, i).contains(x) || x == s[i]),
{
    let pre = s.subrange(0, i);
    let next = s.subrange(0, i + 1);
    if next.contains(x) {
        let j = choose|j: int| 0 <= j < next.len() && next[j] == x;
        assert(next[j] == s[j]);
        if j < i {
            assert(pre[j] == x);
        }
    }
    if pre.contains(x) {
        let j = choose|j: int| 0 <= j < pre.len() && pre[j] == x;
        assert(next[j] == x);
    }
    if x == s[i] {
        assert(next[i] == x);
    }
}

/// Each key of `s[..i + 1]` is a key of `s[..i]` or `s[i]`.
proof fn lemma_prefix_step(s: Seq<i64>, i: int)
    requires
        0 <= i < s.len(),
    ensures
        forall|x: i64|
            s.subrange(0, i + 1).contains(x) <==> (s.subrange(0, i).contains(x) || x == s[i]),
{
    assert forall|x: i64|
        s.subrange(0, i + 1).contains(x) <==> (s.subrange(0, i).contains(x) || x == s[i]) by {
        lemma_prefix_step_at(s, i, x);
    }
}

/// Appends `k` to `out` unless `seen`, which mirrors `out`, already has it.
fn push_unseen(out: &mut Vec<i64>, seen: &mut HashSet<i64>, k: i64)
    requires
        old(out)@.no_duplicates(),
        forall|x: i64| old(seen)@.contains(x) <==> old(out)@.contains(x),
    ensures
        final(out)@.no_duplicates(),
        forall|x: i64| final(seen)@.contains(x) <==> final(out)@.contains(x),
        forall|x: i64| final(out)@.contains(x) <==> (old(out)@.contains(x) || x == k),
{
    if !seen.contains(&k) {
        let ghost before = out@;
        out.push(k);
        seen.insert(k);
        proof {
            assert forall|x: i64| out@.contains(x) <==> (before.contains(x) || x == k) by {
                if out@.contains(x) {
                    let j = choose|j: int| 0 <= j < out@.len() && out@[j] == x;
                    if j < before.len() {
                        assert(before[j] == x);
                    }
                }
                if before.contains(x) {
                    let j = choose|j: int| 0 <= j < before.len() && before[j] == x;
                    assert(out@[j] == x);
                }
                if x == k {
                    assert(out@[before.len() as int] == x);
                }
            }
            assert forall|a: int, b: int|
                0 <= a < out@.len() && 0 <= b < out@.len() && a != b implies out@[a] != out@[b] by {
                if a == before.len() {
                    assert(before[b] == out@[b]);
                    assert(before.contains(before[b]));
                } else if b == before.len() {
                    assert(before[a] == out@[a]);
                    assert(before.contains(before[a]));
                } else {
                    assert(before[a] == out@[a]);
                    assert(before[b] == out@[b]);
                }
            }
        }
    }
}

/// The keys of `source` that `other` lacks, each once, in order of first occurrence.
fn keys_missing_from(source: &Vec<i64>, other: &HashSet<i64>) -> (r: Vec<i64>)
    ensures
        r@.no_duplicates(),
        forall|k: i64| r@.contains(k) <==> (source@.contains(k) && !other@.contains(k)),
{
    let mut seen: HashSet<i64> = HashSet::new();
    let mut out: Vec<i64> = Vec::new();
    let mut i: usize = 0;
    while i < source.len()
        invariant
            i <= source@.len(),
            out@.no_duplicates(),
            forall|k: i64| seen@.contains(k) <==> out@.contains(k),
            forall|k: i64|
                out@.contains(k) <==> (source@.subrange(0, i as int).contains(k)
                    && !other@.contains(k)),
        decreases source@.len() - i,
    {
        let k = source[i];
        proof {
            lemma_prefix_step(source@, i as int);
        }
        if !other.contains(&k) {
            push_unseen(&mut out, &mut seen, k);
        }
        i = i + 1;
    }
    proof {
        assert(source@.subrange(0, i as int) =~= source@);
    }
    out
}

fn key_set(keys: &Vec<i64>) -> (r: HashSet<i64>)
    ensures
        forall|k: i64| r@.contains(k) <==> keys@.contains(k),
{
    let mut set: HashSet<i64> = HashSet::new();
    let mut i: usize = 0;
    while i < keys.len()
        invariant
            i <= keys@.len(),
            forall|k: i64| set@.contains(k) <==> keys@.subrange(0, i as int).contains(k),
        decreases keys@.len() - i,
    {
        proof {
            lemma_prefix_step(keys@, i as int);
        }
        set.insert(keys[i]);
        i = i + 1;
    }
    proof {
        assert(keys@.subrange(0, i as int) =~= keys@);
    }
    set
}

/// The set-difference plan that brings `stored` to `catalog`.
pub fn reconcile(catalog_ids: &Vec<i64>, stored_ids: &Vec<i64>) -> (r: ReconcilePlan)
    ensures
        is_plan_for(catalog_ids@, stored_ids@, r.to_remove@, r.to_add@),
{
    let catalog = key_set(catalog_ids);
    let stored = key_set(stored_ids);
    let to_remove = keys_missing_from(stored_ids, &catalog);
    let to_add = keys_missing_from(catalog_ids, &stored);
    ReconcilePlan { to_remove, to_add }
}

/// After a reconcile pass whose plan was carried out in full (the stale keys
/// removed, every missing key added, then a dedupe pass), the store holds
/// exactly the catalog's keys, each once.
pub proof fn lemma_reconcile_matches_catalog(
    catalog: Seq<i64>,
    stored: Seq<i64>,
    to_remove: Seq<i64>,
    to_add: Seq<i64>,
)
    requires
        is_plan_for(catalog, stored, to_remove, to_add),
    ensures
        forall|k: i64|
            dedupe(without_ids(stored, to_remove) + to_add).contains(k) <==> catalog.contains(k),
        dedupe(without_ids(stored, to_remove) + to_add).no_duplicates(),
{
    let kept = without_ids(stored, to_remove);
    lemma_without_ids_contains(stored, to_remove);
    lemma_concat_contains(kept, to_add);
    lemma_dedupe_keeps_keys(kept + to_add);
    lemma_dedupe_unique(kept + to_add);
}

/// After a reconcile pass in which only some of the missing keys could be added
/// (the others were skipped), the store holds no key outside the catalog, each
/// key once, and every catalog key that was already stored.
pub proof fn lemma_partial_reconcile_within_catalog(
    catalog: Seq<i64>,
    stored: Seq<i64>,
    to_remove: Seq<i64>,
    to_add: Seq<i64>,
    added: Seq<i64>,
)
    requires
        is_plan_for(catalog, stored, to_remove, to_add),
        forall|k: i64| added.contains(k) ==> to_add.contains(k),
    ensures
        forall|k: i64|
            dedupe(without_ids(stored, to_remove) + added).contains(k) ==> catalog.contains(k),
        forall|k: i64|
            stored.contains(k) && catalog.contains(k) ==> dedupe(
                without_ids(stored, to_remove) + added,
            ).contains(k),
        dedupe(without_ids(stored, to_remove) + added).no_duplicates(),
{
    let kept = without_ids(stored, to_remove);
    lemma_without_ids_contains(stored, to_remove);
    lemma_concat_contains(kept, added);
    lemma_dedupe_keeps_keys(kept + added);
    lemma_dedupe_unique(kept + added);
}

/// Some stored system lists stargate `k`.
pub open spec fn listed_by_some_system(systems: Seq<System>, k: i64) -> bool {
    exists|i: int| 0 <= i < systems.len() && systems[i].stargates@.contains(k)
}

/// The stargate keys that should exist: the union of every system's stargate
/// list, each key once.
pub fn stargate_catalog_ids(systems: &Vec<System>) -> (r: Vec<i64>)
    ensures
        r@.no_duplicates(),
        forall|k: i64| r@.contains(k) <==> listed_by_some_system(systems@, k),
{
    let mut seen: HashSet<i64> = HashSet::new();
    let mut out: Vec<i64> = Vec::new();
    let mut i: usize = 0;
    while i < systems.len()
        invariant
            i <= systems@.len(),
            out@.no_duplicates(),
            forall|k: i64| seen@.contains(k) <==> out@.contains(k),
            forall|k: i64| out@.contains(k) <==> listed_by_some_system(systems@.subrange(0, i as int), k),
        decreases systems@.len() - i,
    {
        let gates = &systems[i].stargates;
        let ghost done = out@;
        let mut j: usize = 0;
        while j < gates.len()
            invariant
                i < systems@.len(),
                gates == systems@[i as int].stargates,
                j <= gates@.len(),
                forall|k: i64|
                    done.contains(k) <==> listed_by_some_system(systems@.subrange(0, i as int), k),
                out@.no_duplicates(),
                forall|k: i64| seen@.contains(k) <==> out@.contains(k),
                forall|k: i64|
                    #![all_triggers]
                    out@.contains(k) <==> (done.contains(k) || gates@.subrange(0, j as int).contains(k)),
            decreases gates@.len() - j,
        {
            let ghost mid = out@;
            push_unseen(&mut out, &mut seen, gates[j]);
            j = j + 1;
            proof {
                assert forall|x: i64|
                    out@.contains(x) <==> (done.contains(x) || gates@.subrange(0, j as int).contains(
                        x,
                    )) by {
                    lemma_prefix_step_at(gates@, j - 1, x);
                    assert(mid.contains(x) <==> (done.contains(x) || gates@.subrange(
                        0,
                        j - 1,
                    ).contains(x)));
                }
            }
        }
        proof {
            assert(gates@.subrange(0, j as int) =~= gates@);
            let pre = systems@.subrange(0, i as int);
            let next = systems@.subrange(0, i + 1);
            assert forall|k: i64|
                out@.contains(k) <==> listed_by_some_system(next, k) by {
                if listed_by_some_system(next, k) {
                    let t = choose|t: int| 0 <= t < next.len() && next[t].stargates@.contains(k);
                    if t < i {
                        assert(pre[t] == next[t]);
                        assert(listed_by_some_system(pre, k));
                    } else {
                        assert(next[t] == systems@[i as int]);
                    }
                }
                if listed_by_some_system(pre, k) {
                    let t = choose|t: int| 0 <= t < pre.len() && pre[t].stargates@.contains(k);
                    assert(next[t] == pre[t]);
                    assert(next[t].stargates@.contains(k));
                }
                if gates@.contains(k) {
                    assert(next[i as int] == systems@[i as int]);
                    assert(next[i as int].stargates@.contains(k));
                }
            }
        }
        i = i + 1;
    }
    proof {
        assert(systems@.subrange(0, i as int) =~= systems@);
    }
    out
}

/// The first error of a joined fan-out, in the order given, or success.
pub open spec fn first_error_spec(results: Seq<Result<(), ReplicationError>>) -> Result<
    (),
    ReplicationError,
>
    decreases results.len(),
{
    if results.len() == 0 {
        Ok(())
    } else if results[0] is Err {
        results[0]
    } else {
        first_error_spec(results.drop_first())
    }
}

/// Joins the results of a fan-out: the first error in the order given, or
/// success when every task succeeded.
pub fn error_if_any_member_has_error(results: Vec<Result<(), ReplicationError>>) -> (r: Result<
    (),
    ReplicationError,
>)
    ensures
        r == first_error_spec(results@),
        r is Ok <==> forall|i: int| 0 <= i < results@.len() ==> results@[i] is Ok,
{
    let ghost all = results@;
    let mut rest = results;
    let mut found: Result<(), ReplicationError> = Ok(());
    proof {
        assert(all.subrange(all.len() as int, all.len() as int) =~= Seq::<
            Result<(), ReplicationError>,
        >::empty());
    }
    while rest.len() > 0
        invariant
            rest@.len() <= all.len(),
            rest@ == all.subrange(0, rest@.len() as int),
            found == first_error_spec(all.subrange(rest@.len() as int, all.len() as int)),
        decreases rest@.len(),
    {
        let ghost m = rest@.len() - 1;
        let item = rest.pop().unwrap();
        proof {
            assert(all.subrange(m, all.len() as int).drop_first() =~= all.subrange(
                m + 1,
                all.len() as int,
            ));
            assert(all.subrange(m, all.len() as int)[0] == item);
            assert(rest@ =~= all.subrange(0, m));
        }
        if item.is_err() {
            found = item;
        }
    }
    proof {
        assert(all.subrange(0, all.len() as int) =~= all);
        lemma_first_error_ok(all);
    }
    found
}

proof fn lemma_first_error_ok(results: Seq<Result<(), ReplicationError>>)
    ensures
        first_error_spec(results) is Ok <==> forall|i: int|
            0 <= i < results.len() ==> results[i] is Ok,
    decreases results.len(),
{
    if results.len() > 0 {
        lemma_first_error_ok(results.drop_first());
        if results[0] is Ok {
            assert forall|i: int| 0 <= i < results.len() && i > 0 implies (results[i] is Ok
                <==> results.drop_first()[i - 1] is Ok) by {}
            if !(forall|i: int| 0 <= i < results.len() ==> results[i] is Ok) {
                let i = choose|i: int| 0 <= i < results.len() && !(results[i] is Ok);
                assert(!(results.drop_first()[i - 1] is Ok));
            }
        }
    }
}

/// The per-item policy of a stargate detail fetch: a fetched stargate is to be
/// saved; a rate limit aborts the batch; any other failure skips the item.
pub fn pull_stargate_outcome(fetched: Result<StargateResponse, RequestError>) -> (r: Result<
    Option<Stargate>,
    ReplicationError,
>)
    ensures
        match fetched {
            Ok(response) => r == Ok::<Option<Stargate>, ReplicationError>(
                Some(Stargate::of_response(response)),
            ),
            Err(e) => if e.kind() == Some(StatusKind::RateLimited) {
                r == Err::<Option<Stargate>, ReplicationError>(ReplicationError::Source(e))
            } else {
                r == Ok::<Option<Stargate>, ReplicationError>(None)
            },
        },
{
    match fetched {
        Ok(response) => Ok(Some(Stargate::from_response(response))),
        Err(e) => {
            if e.is_rate_limited() {
                Err(ReplicationError::Source(e))
            } else {
                Ok(None)
            }
        },
    }
}

/// The galaxy-wide kill total of an hourly listing.
pub open spec fn total_kills(listing: Seq<SystemKills>) -> int
    decreases listing.len(),
{
    if listing.len() == 0 {
        0
    } else {
        total_kills(listing.drop_last()) + listing.last().ship_kills
    }
}

/// The galaxy-wide jump total of an hourly listing.
pub open spec fn total_jumps(listing: Seq<SystemJumps>) -> int
    decreases listing.len(),
{
    if listing.len() == 0 {
        0
    } else {
        total_jumps(listing.drop_last()) + listing.last().ship_jumps
    }
}

/// Sums the ship kills of an hourly listing.
pub fn galaxy_kills(listing: &Vec<SystemKills>) -> (r: u128)
    ensures
        r == total_kills(listing@),
{
    let mut total: u128 = 0;
    let mut i: usize = 0;
    while i < listing.len()
        invariant
            i <= listing@.len(),
            total == total_kills(listing@.subrange(0, i as int)),
            total <= i * 0xffff_ffffu128,
        decreases listing@.len() - i,
    {
        proof {
            assert(listing@.subrange(0, i + 1).drop_last() =~= listing@.subrange(0, i as int));
            assert((i + 1) * 0xffff_ffffu128 <= 0x1_0000_0000_0000_0000u128 * 0xffff_ffffu128) by (nonlinear_arith)
                requires i < 0x1_0000_0000_0000_0000u128;
        }
        total = total + listing[i].ship_kills as u128;
        i = i + 1;
    }
    proof {
        assert(listing@.subrange(0, i as int) =~= listing@);
    }
    total
}

/// Sums the ship jumps of an hourly listing.
pub fn galaxy_jumps(listing: &Vec<SystemJumps>) -> (r: u128)
    ensures
        r == total_jumps(listing@),
{
    let mut total: u128 = 0;
    let mut i: usize = 0;
    while i < listing.len()
        invariant
            i <= listing@.len(),
            total == total_jumps(listing@.subrange(0, i as int)),
            total <= i * 0xffff_ffffu128,
        decreases listing@.len() - i,
    {
        proof {
            assert(listing@.subrange(0, i + 1).drop_last() =~= listing@.subrange(0, i as int));
            assert((i + 1) * 0xffff_ffffu128 <= 0x1_0000_0000_0000_0000u128 * 0xffff_ffffu128) by (nonlinear_arith)
                requires i < 0x1_0000_0000_0000_0000u128;
        }
        total = total + listing[i].ship_jumps as u128;
        i = i + 1;
    }
    proof {
        assert(listing@.subrange(0, i as int) =~= listing@);
    }
    total
}

} // verus!
