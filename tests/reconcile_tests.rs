use eve_graph::database::System;
use eve_graph::esi::{classify_status, Position, RequestError, StargateResponse, Destination, SystemResponse};
use eve_graph::reconciler::{EntityKind, Reconciler, SyncCommand, SyncEvent};
use eve_graph::sync::{
    error_if_any_member_has_error, pull_stargate_outcome, reconcile, stargate_catalog_ids,
    ReplicationError,
};

/// A store of node keys in creation order, as the graph store keeps them.
struct FakeStore {
    nodes: Vec<i64>,
    removal_calls: Vec<Vec<i64>>,
    fetched: Vec<i64>,
}

impl FakeStore {
    fn new(nodes: Vec<i64>) -> Self {
        FakeStore { nodes, removal_calls: Vec::new(), fetched: Vec::new() }
    }

    fn dedupe(&mut self) {
        let mut kept: Vec<i64> = Vec::new();
        for k in &self.nodes {
            if !kept.contains(k) {
                kept.push(*k);
            }
        }
        self.nodes = kept;
    }
}

/// Runs a system pass against the fake store; `fetch` gives each detail fetch's outcome.
fn run_systems(
    store: &mut FakeStore,
    catalog: Vec<i64>,
    fetch: &dyn Fn(i64) -> Result<(), ReplicationError>,
) -> Result<(), ReplicationError> {
    let (mut machine, mut cmd) = Reconciler::new(EntityKind::Systems);
    loop {
        let event = match cmd {
            SyncCommand::FetchCatalog => SyncEvent::CatalogIds(catalog.clone()),
            SyncCommand::ReadStoredIds => SyncEvent::StoredIds(store.nodes.clone()),
            SyncCommand::RemoveByIds(ids) => {
                store.nodes.retain(|k| !ids.contains(k));
                store.removal_calls.push(ids);
                SyncEvent::Completed
            }
            SyncCommand::FetchAndSave(ids) => {
                let mut results = Vec::new();
                for id in ids {
                    store.fetched.push(id);
                    let r = fetch(id);
                    if r.is_ok() {
                        store.nodes.push(id);
                    }
                    results.push(r);
                }
                match error_if_any_member_has_error(results) {
                    Ok(()) => SyncEvent::Completed,
                    Err(e) => SyncEvent::Failed(e),
                }
            }
            SyncCommand::RemoveDuplicates => {
                store.dedupe();
                SyncEvent::Completed
            }
            SyncCommand::CountSaved => SyncEvent::Counted(store.nodes.len() as i64),
            SyncCommand::Finish(outcome) => return outcome,
        };
        assert!(!machine.is_finished());
        cmd = machine.step(event);
    }
}

fn sorted(mut v: Vec<i64>) -> Vec<i64> {
    v.sort();
    v
}

#[test]
fn reconcile_adds_and_removes() {
    let mut store = FakeStore::new(vec![1, 2, 3]);
    let outcome = run_systems(&mut store, vec![2, 3, 4], &|_| Ok(()));
    assert!(outcome.is_ok());
    assert_eq!(sorted(store.nodes.clone()), vec![2, 3, 4]);
    assert_eq!(store.removal_calls, vec![vec![1]]);
    assert_eq!(store.fetched, vec![4]);
}

#[test]
fn reconcile_plan_is_the_two_differences() {
    let plan = reconcile(&vec![2, 3, 4, 4], &vec![1, 2, 3, 1]);
    assert_eq!(plan.to_remove, vec![1]);
    assert_eq!(plan.to_add, vec![4]);
    let none = reconcile(&vec![5, 6], &vec![6, 5]);
    assert!(none.to_remove.is_empty());
    assert!(none.to_add.is_empty());
    let empty = reconcile(&vec![], &vec![]);
    assert!(empty.to_remove.is_empty() && empty.to_add.is_empty());
}

#[test]
fn duplicate_systems_collapse_to_one() {
    let mut store = FakeStore::new(vec![5, 5]);
    let outcome = run_systems(&mut store, vec![5], &|_| Ok(()));
    assert!(outcome.is_ok());
    assert_eq!(store.nodes, vec![5]);
    assert!(store.removal_calls.is_empty());
    assert!(store.fetched.is_empty());
}

#[test]
fn second_pass_after_convergence_changes_nothing() {
    let mut store = FakeStore::new(vec![1, 2, 2, 9]);
    run_systems(&mut store, vec![2, 3, 9], &|_| Ok(())).unwrap();
    let after_first = store.nodes.clone();
    assert_eq!(sorted(after_first.clone()), vec![2, 3, 9]);
    store.removal_calls.clear();
    store.fetched.clear();
    run_systems(&mut store, vec![2, 3, 9], &|_| Ok(())).unwrap();
    assert_eq!(store.nodes, after_first);
    assert!(store.removal_calls.is_empty());
    assert!(store.fetched.is_empty());
}

#[test]
fn catalog_failure_aborts_the_pass() {
    let (mut machine, cmd) = Reconciler::new(EntityKind::Systems);
    assert!(matches!(cmd, SyncCommand::FetchCatalog));
    let err = classify_status(503, "down".to_string()).unwrap_err();
    let next = machine.step(SyncEvent::Failed(ReplicationError::Source(err)));
    assert!(matches!(
        next,
        SyncCommand::Finish(Err(ReplicationError::Source(RequestError::ServerError { status: 503, .. })))
    ));
    assert!(machine.is_finished());
}

#[test]
fn out_of_order_outcome_is_a_process_error() {
    let (mut machine, _) = Reconciler::new(EntityKind::Systems);
    let next = machine.step(SyncEvent::Counted(3));
    assert!(matches!(next, SyncCommand::Finish(Err(ReplicationError::Process(_)))));
    let (mut gates, _) = Reconciler::new(EntityKind::Stargates);
    let next = gates.step(SyncEvent::CatalogIds(vec![1]));
    assert!(matches!(next, SyncCommand::Finish(Err(ReplicationError::Process(_)))));
}

fn system_with_gates(id: i64, gates: Vec<i64>) -> System {
    System::from_response(SystemResponse {
        system_id: id,
        name: None,
        constellation_id: None,
        security_status: 0,
        star_id: None,
        security_class: None,
        position: Position { x: 0, y: 0, z: 0 },
        planets: None,
        stargates: Some(gates),
    })
}

#[test]
fn stargate_catalog_is_union_of_system_lists() {
    let systems = vec![
        system_with_gates(1, vec![10, 11]),
        system_with_gates(2, vec![11, 12]),
        system_with_gates(3, vec![]),
    ];
    assert_eq!(stargate_catalog_ids(&systems), vec![10, 11, 12]);
    assert!(stargate_catalog_ids(&vec![]).is_empty());
}

fn gate_response(id: i64) -> StargateResponse {
    StargateResponse {
        destination: Destination { stargate_id: id + 1, system_id: 2 },
        name: format!("gate {id}"),
        position: Position { x: 0, y: 0, z: 0 },
        stargate_id: id,
        system_id: 1,
        type_id: 16,
    }
}

#[test]
fn stargate_item_policy() {
    let saved = pull_stargate_outcome(Ok(gate_response(50)));
    assert_eq!(saved.unwrap().unwrap().stargate_id, 50);
    let limited = pull_stargate_outcome(classify_status(429, "slow".to_string()).map(|_| gate_response(1)));
    assert!(matches!(limited, Err(ReplicationError::Source(RequestError::RateLimited { .. }))));
    let limited_420 = pull_stargate_outcome(classify_status(420, "calm".to_string()).map(|_| gate_response(1)));
    assert!(matches!(limited_420, Err(ReplicationError::Source(RequestError::RateLimited { .. }))));
    for status in [404u16, 500, 502, 403] {
        let skipped = pull_stargate_outcome(classify_status(status, String::new()).map(|_| gate_response(1)));
        assert!(matches!(skipped, Ok(None)));
    }
    let transport = pull_stargate_outcome(Err(RequestError::HttpError("reset".to_string())));
    assert!(matches!(transport, Ok(None)));
}

/// Runs a stargate pass in which every detail fetch answers with `status`.
fn stargate_pass_with_status(status: u16) -> Result<(), ReplicationError> {
    let systems = vec![system_with_gates(1, vec![10]), system_with_gates(2, vec![20])];
    let (mut machine, mut cmd) = Reconciler::new(EntityKind::Stargates);
    let mut stored: Vec<i64> = Vec::new();
    loop {
        let event = match cmd {
            SyncCommand::FetchCatalog => SyncEvent::CatalogSystems(systems.clone()),
            SyncCommand::ReadStoredIds => SyncEvent::StoredIds(stored.clone()),
            SyncCommand::RemoveByIds(_) => SyncEvent::Completed,
            SyncCommand::FetchAndSave(ids) => {
                let mut results = Vec::new();
                for id in ids {
                    let fetched = classify_status(status, String::new()).map(|_| gate_response(id));
                    results.push(match pull_stargate_outcome(fetched) {
                        Ok(Some(gate)) => {
                            stored.push(gate.stargate_id);
                            Ok(())
                        }
                        Ok(None) => Ok(()),
                        Err(e) => Err(e),
                    });
                }
                match error_if_any_member_has_error(results) {
                    Ok(()) => SyncEvent::Completed,
                    Err(e) => SyncEvent::Failed(e),
                }
            }
            SyncCommand::RemoveDuplicates => SyncEvent::Completed,
            SyncCommand::CountSaved => SyncEvent::Counted(stored.len() as i64),
            SyncCommand::Finish(outcome) => return outcome,
        };
        cmd = machine.step(event);
    }
}

#[test]
fn rate_limited_stargate_fails_the_sync() {
    let outcome = stargate_pass_with_status(429);
    assert!(matches!(outcome, Err(ReplicationError::Source(RequestError::RateLimited { .. }))));
}

#[test]
fn server_error_on_stargate_is_skipped() {
    assert!(stargate_pass_with_status(500).is_ok());
    assert!(stargate_pass_with_status(404).is_ok());
    assert!(stargate_pass_with_status(200).is_ok());
}

#[test]
fn first_error_wins() {
    let results = vec![
        Ok(()),
        Err(ReplicationError::Process("first".to_string())),
        Err(ReplicationError::Process("second".to_string())),
    ];
    match error_if_any_member_has_error(results) {
        Err(ReplicationError::Process(m)) => assert_eq!(m, "first"),
        _ => panic!("expected the first error"),
    }
    assert!(error_if_any_member_has_error(vec![Ok(()), Ok(())]).is_ok());
    assert!(error_if_any_member_has_error(vec![]).is_ok());
}
