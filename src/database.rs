//! The records that the graph store holds, the store's error kinds, and a model
//! of what the store's writes do to it, over which the reconciler's guarantees
//! are stated.
use vstd::prelude::*;

use crate::esi::{Planet, StargateResponse, SystemResponse};
use crate::risk::{calculate_total_risk, total_risk, Fraction, JumpRisk};

verus! {

/// A graph-data-science procedure returned no row where one was expected;
/// holds the procedure's description.
#[derive(Clone, Debug)]
pub struct GdsProcedureError(pub String);

/// Why a graph store operation failed.
#[derive(Clone, Debug)]
pub enum Error {
    /// Connection, protocol or query failure, described by the message.
    Client(String),
    /// A stored value could not be read back as the expected shape.
    Deserialization(String),
    /// A projection procedure returned nothing.
    Gds(GdsProcedureError),
}

/// A star system node. Coordinates and security status are the bit patterns
/// of IEEE-754 doubles, carried through untouched.
#[derive(Clone, Debug)]
pub struct System {
    pub constellation_id: i64,
    pub name: String,
    pub planets: Vec<i64>,
    pub x: u64,
    pub y: u64,
    pub z: u64,
    pub security_class: String,
    pub security_status: u64,
    pub star_id: i64,
    pub stargates: Vec<i64>,
    pub system_id: i64,
    pub kills: u32,
    pub jumps: u32,
}

/// A stargate node; it implies a jump from `system_id` to `destination_system_id`.
#[derive(Clone, Debug)]
pub struct Stargate {
    pub destination_stargate_id: i64,
    pub destination_system_id: i64,
    pub name: String,
    pub x: u64,
    pub y: u64,
    pub z: u64,
    pub stargate_id: i64,
    pub system_id: i64,
    pub type_id: i64,
}

/// The ids of the listed planets, in order.
pub open spec fn planet_ids(planets: Seq<Planet>) -> Seq<i64> {
    planets.map_values(|p: Planet| p.planet_id)
}

/// The text that stands for a missing name or security class.
pub open spec fn undefined_text() -> Seq<char> {
    seq!['u', 'n', 'd', 'e', 'f', 'i', 'n', 'e', 'd']
}

fn undefined() -> (r: String)
    ensures
        r@ == undefined_text(),
{
    let r = String::from_str("undefined");
    proof {
        reveal_strlit("undefined");
        assert(r@ =~= undefined_text());
    }
    r
}

impl System {
    /// A fresh system from its catalog details: a missing constellation or star
    /// becomes -1, a missing name or security class "undefined", missing lists
    /// empty, and both activity counters start at 0.
    pub fn from_response(s: SystemResponse) -> (r: System)
        ensures
            r.system_id == s.system_id,
            r.constellation_id == (match s.constellation_id {
                Some(c) => c as int,
                None => -1,
            }),
            r.star_id == (match s.star_id {
                Some(c) => c as int,
                None => -1,
            }),
            r.name@ == (match s.name {
                Some(n) => n@,
                None => undefined_text(),
            }),
            r.security_class@ == (match s.security_class {
                Some(n) => n@,
                None => undefined_text(),
            }),
            r.planets@ == (match s.planets {
                Some(p) => planet_ids(p@),
                None => Seq::empty(),
            }),
            r.stargates@ == (match s.stargates {
                Some(g) => g@,
                None => Seq::empty(),
            }),
            r.x == s.position.x,
            r.y == s.position.y,
            r.z == s.position.z,
            r.security_status == s.security_status,
            r.kills == 0,
            r.jumps == 0,
    {
        let mut planets: Vec<i64> = Vec::new();
        match &s.planets {
            Some(listed) => {
                let mut i: usize = 0;
                while i < listed.len()
                    invariant
                        i <= listed@.len(),
                        planets@ == planet_ids(listed@.subrange(0, i as int)),
                    decreases listed@.len() - i,
                {
                    proof {
                        assert(listed@.subrange(0, i + 1) =~= listed@.subrange(0, i as int).push(
                            listed@[i as int],
                        ));
                    }
                    planets.push(listed[i].planet_id);
                    i = i + 1;
                }
                proof {
                    assert(listed@.subrange(0, i as int) =~= listed@);
                }
            },
            None => {},
        }
        let name = match s.name {
            Some(n) => n,
            None => undefined(),
        };
        let security_class = match s.security_class {
            Some(c) => c,
            None => undefined(),
        };
        let stargates = match s.stargates {
            Some(g) => g,
            None => Vec::new(),
        };
        System {
            constellation_id: match s.constellation_id {
                Some(c) => c,
                None => -1,
            },
            name,
            planets,
            x: s.position.x,
            y: s.position.y,
            z: s.position.z,
            security_class,
            security_status: s.security_status,
            star_id: match s.star_id {
                Some(c) => c,
                None => -1,
            },
            stargates,
            system_id: s.system_id,
            kills: 0,
            jumps: 0,
        }
    }
}

impl Stargate {
    /// The stargate record that catalog details describe.
    pub open spec fn of_response(value: StargateResponse) -> Stargate {
        Stargate {
            destination_stargate_id: value.destination.stargate_id,
            destination_system_id: value.destination.system_id,
            name: value.name,
            x: value.position.x,
            y: value.position.y,
            z: value.position.z,
            stargate_id: value.stargate_id,
            system_id: value.system_id,
            type_id: value.type_id,
        }
    }

    /// A stargate record from its catalog details.
    pub fn from_response(value: StargateResponse) -> (r: Stargate)
        ensures
            r == Stargate::of_response(value),
    {
        Stargate {
            destination_stargate_id: value.destination.stargate_id,
            destination_system_id: value.destination.system_id,
            name: value.name,
            x: value.position.x,
            y: value.position.y,
            z: value.position.z,
            stargate_id: value.stargate_id,
            system_id: value.system_id,
            type_id: value.type_id,
        }
    }
}

/// The risk to write on every jump into `system`, as read from the store:
/// nothing when the system is absent, else the risk of its counters.
pub fn system_jump_risk(system: &Option<System>, baseline_jump_risk: Fraction) -> (r: Option<
    JumpRisk,
>)
    requires
        baseline_jump_risk.wf(),
    ensures
        r == (match system {
            Some(s) => Some(total_risk(s.kills, s.jumps, baseline_jump_risk)),
            None => None,
        }),
{
    match system {
        Some(s) => Some(calculate_total_risk(s.kills, s.jumps, baseline_jump_risk)),
        None => None,
    }
}

// ----- Model of the store's writes -----
//
// The nodes of one label are modelled by the sequence of their keys, in the order
// they were created; a key may occur twice until a dedupe pass runs.

/// The nodes left after a detach-delete of every node whose key is in `ids`.
pub open spec fn without_ids(nodes: Seq<i64>, ids: Seq<i64>) -> Seq<i64> {
    nodes.filter(|k: i64| !ids.contains(k))
}

/// The nodes left after a dedupe pass: the first node of each key stays.
pub open spec fn dedupe(nodes: Seq<i64>) -> Seq<i64>
    decreases nodes.len(),
{
    if nodes.len() == 0 {
        nodes
    } else {
        let kept = dedupe(nodes.drop_last());
        if nodes.drop_last().contains(nodes.last()) {
            kept
        } else {
            kept.push(nodes.last())
        }
    }
}

proof fn lemma_push_contains(s: Seq<i64>, a: i64, k: i64)
    ensures
        s.push(a).contains(k) <==> (s.contains(k) || k == a),
{
    let t = s.push(a);
    if s.contains(k) {
        let i = choose|i: int| 0 <= i < s.len() && s[i] == k;
        assert(t[i] == k);
    }
    if k == a {
        assert(t[s.len() as int] == k);
    }
    if t.contains(k) {
        let i = choose|i: int| 0 <= i < t.len() && t[i] == k;
        if i < s.len() {
            assert(s[i] == k);
        }
    }
}

/// A dedupe pass keeps every key that was present, and only those.
pub proof fn lemma_dedupe_keeps_keys(nodes: Seq<i64>)
    ensures
        forall|k: i64| dedupe(nodes).contains(k) <==> nodes.contains(k),
    decreases nodes.len(),
{
    if nodes.len() > 0 {
        let init = nodes.drop_last();
        let last = nodes.last();
        lemma_dedupe_keeps_keys(init);
        assert(nodes =~= init.push(last));
        assert forall|k: i64| dedupe(nodes).contains(k) <==> nodes.contains(k) by {
            lemma_push_contains(init, last, k);
            lemma_push_contains(dedupe(init), last, k);
        }
    }
}

/// After a dedupe pass no key occurs twice.
pub proof fn lemma_dedupe_unique(nodes: Seq<i64>)
    ensures
        dedupe(nodes).no_duplicates(),
    decreases nodes.len(),
{
    if nodes.len() > 0 {
        let init = nodes.drop_last();
        lemma_dedupe_unique(init);
        lemma_dedupe_keeps_keys(init);
        let kept = dedupe(init);
        if !init.contains(nodes.last()) {
            assert(!kept.contains(nodes.last()));
            let d = kept.push(nodes.last());
            assert forall|i: int, j: int| 0 <= i < d.len() && 0 <= j < d.len() && i != j implies d[i]
                != d[j] by {
                if i == kept.len() {
                    assert(kept[j] == d[j]);
                } else if j == kept.len() {
                    assert(kept[i] == d[i]);
                } else {
                }
            }
        }
    }
}

/// A dedupe pass leaves a store without duplicate keys as it is.
pub proof fn lemma_dedupe_of_unique(nodes: Seq<i64>)
    requires
        nodes.no_duplicates(),
    ensures
        dedupe(nodes) == nodes,
    decreases nodes.len(),
{
    if nodes.len() > 0 {
        let init = nodes.drop_last();
        assert(init.no_duplicates());
        lemma_dedupe_of_unique(init);
        assert(!init.contains(nodes.last())) by {
            if init.contains(nodes.last()) {
                let i = choose|i: int| 0 <= i < init.len() && init[i] == nodes.last();
                assert(nodes[i] == nodes[nodes.len() - 1]);
            }
        }
        assert(init.push(nodes.last()) =~= nodes);
    }
}

/// A key survives a detach-delete by ids exactly when it was present and not named.
pub proof fn lemma_without_ids_contains(nodes: Seq<i64>, ids: Seq<i64>)
    ensures
        forall|k: i64| without_ids(nodes, ids).contains(k) <==> (nodes.contains(k) && !ids.contains(k)),
{
    let pred = |k: i64| !ids.contains(k);
    assert forall|k: i64| without_ids(nodes, ids).contains(k) <==> (nodes.contains(k) && !ids.contains(k)) by {
        let f = nodes.filter(pred);
        if f.contains(k) {
            nodes.lemma_filter_contains_rev(pred, k);
            let j = choose|j: int| 0 <= j < f.len() && f[j] == k;
            nodes.lemma_filter_pred(pred, j);
        }
        if nodes.contains(k) && !ids.contains(k) {
            let i = choose|i: int| 0 <= i < nodes.len() && nodes[i] == k;
            nodes.lemma_filter_contains(pred, i);
        }
    }
}

/// A key occurs in `a + b` exactly when it occurs in `a` or in `b`.
pub proof fn lemma_concat_contains(a: Seq<i64>, b: Seq<i64>)
    ensures
        forall|k: i64| (a + b).contains(k) <==> (a.contains(k) || b.contains(k)),
{
    assert forall|k: i64| (a + b).contains(k) <==> (a.contains(k) || b.contains(k)) by {
        let c = a + b;
        if c.contains(k) {
            let i = choose|i: int| 0 <= i < c.len() && c[i] == k;
            if i < a.len() {
                assert(a[i] == k);
            } else {
                assert(b[i - a.len()] == k);
            }
        }
        if a.contains(k) {
            let i = choose|i: int| 0 <= i < a.len() && a[i] == k;
            assert(c[i] == k);
        }
        if b.contains(k) {
            let i = choose|i: int| 0 <= i < b.len() && b[i] == k;
            assert(c[i + a.len()] == k);
        }
    }
}

/// The jump edges after a stargate from `from` to `to` is saved: its jump is
/// created unless one already exists.
pub open spec fn with_jump(edges: Seq<(i64, i64)>, from: i64, to: i64) -> Seq<(i64, i64)> {
    if edges.contains((from, to)) {
        edges
    } else {
        edges.push((from, to))
    }
}

/// Every saved stargate induces a jump from its system to its destination system,
/// and saving one removes no jump.
pub proof fn lemma_saved_stargate_has_jump(edges: Seq<(i64, i64)>, stargate: Stargate)
    ensures
        with_jump(edges, stargate.system_id, stargate.destination_system_id).contains(
            (stargate.system_id, stargate.destination_system_id),
        ),
        forall|e: (i64, i64)|
            edges.contains(e) ==> with_jump(
                edges,
                stargate.system_id,
                stargate.destination_system_id,
            ).contains(e),
{
    let from = stargate.system_id;
    let to = stargate.destination_system_id;
    let after = with_jump(edges, from, to);
    if !edges.contains((from, to)) {
        assert(after[edges.len() as int] == (from, to));
    }
    assert forall|e: (i64, i64)| edges.contains(e) implies after.contains(e) by {
        let i = choose|i: int| 0 <= i < edges.len() && edges[i] == e;
        assert(after[i] == e);
    }
}

/// A dedupe pass is a fixpoint: a second pass changes nothing.
pub proof fn lemma_dedupe_fixpoint(nodes: Seq<i64>)
    ensures
        dedupe(dedupe(nodes)) == dedupe(nodes),
{
    lemma_dedupe_unique(nodes);
    lemma_dedupe_of_unique(dedupe(nodes));
}

} // verus!
