use eve_graph::activity::{RiskCommand, RiskEvent, RiskRefresh};
use eve_graph::database::Error;
use eve_graph::esi::{SystemJumps, SystemKills};
use eve_graph::eve_scout::EveScoutSignature;
use eve_graph::projection::{Projection, ProjectionCommand, ProjectionEvent, ProjectionTask};
use eve_graph::risk::Fraction;
use eve_graph::startup::{Bootstrap, BootstrapCommand, BootstrapStage, ConnectCommand, ConnectEvent, ConnectRetry};
use eve_graph::sync::ReplicationError;
use eve_graph::wormholes::{hub_system_names, WormholeCommand, WormholeEvent, WormholeRefresh};

#[test]
fn risk_refresh_runs_phases_in_order() {
    let kills = vec![SystemKills { ship_kills: 3, system_id: 1 }, SystemKills { ship_kills: 1, system_id: 2 }];
    let jumps = vec![SystemJumps { ship_jumps: 40, system_id: 1 }];
    let (mut refresh, cmd) = RiskRefresh::new();
    assert!(matches!(cmd, RiskCommand::FetchKills));
    let cmd = refresh.step(RiskEvent::Kills(kills));
    assert!(matches!(cmd, RiskCommand::WriteKills(ref l) if l.len() == 2));
    let cmd = refresh.step(RiskEvent::Completed);
    assert!(matches!(cmd, RiskCommand::FetchJumps));
    let cmd = refresh.step(RiskEvent::Jumps(jumps));
    assert!(matches!(cmd, RiskCommand::WriteJumps(ref l) if l.len() == 1));
    let cmd = refresh.step(RiskEvent::Completed);
    assert!(matches!(cmd, RiskCommand::ReadSystemIds));
    let cmd = refresh.step(RiskEvent::SystemIds(vec![1, 2, 3]));
    match cmd {
        RiskCommand::WriteRisks(ids, baseline) => {
            assert_eq!(ids, vec![1, 2, 3]);
            assert_eq!(baseline, Fraction::new(4, 40));
        }
        other => panic!("unexpected {other:?}"),
    }
    let cmd = refresh.step(RiskEvent::Completed);
    assert!(matches!(cmd, RiskCommand::Finish(Ok(()))));
    assert!(refresh.is_finished());
}

#[test]
fn risk_refresh_without_jumps_uses_floor_baseline() {
    let (mut refresh, _) = RiskRefresh::new();
    refresh.step(RiskEvent::Kills(vec![SystemKills { ship_kills: 8, system_id: 1 }]));
    refresh.step(RiskEvent::Completed);
    refresh.step(RiskEvent::Jumps(vec![]));
    refresh.step(RiskEvent::Completed);
    match refresh.step(RiskEvent::SystemIds(vec![1])) {
        RiskCommand::WriteRisks(_, baseline) => assert_eq!(baseline, Fraction::new(1, 100)),
        other => panic!("unexpected {other:?}"),
    }
}

#[test]
fn risk_refresh_stops_on_failure() {
    let (mut refresh, _) = RiskRefresh::new();
    refresh.step(RiskEvent::Kills(vec![]));
    let cmd = refresh.step(RiskEvent::Failed(ReplicationError::Target(Error::Client("down".to_string()))));
    assert!(matches!(cmd, RiskCommand::Finish(Err(ReplicationError::Target(Error::Client(_))))));
    assert!(refresh.is_finished());
}

fn wormhole(in_system: i64, out_system: i64) -> EveScoutSignature {
    let mut s = blank_signature();
    s.signature_type = "wormhole".to_string();
    s.in_system_id = in_system;
    s.out_system_id = out_system;
    s
}

fn blank_signature() -> EveScoutSignature {
    EveScoutSignature {
        id: String::new(),
        created_at: String::new(),
        created_by_id: 0,
        created_by_name: String::new(),
        updated_at: String::new(),
        updated_by_id: 0,
        updated_by_name: String::new(),
        completed_at: String::new(),
        completed_by_id: 0,
        completed_by_name: String::new(),
        completed: false,
        wh_exits_outward: false,
        wh_type: String::new(),
        max_ship_size: String::new(),
        expires_at: String::new(),
        remaining_hours: 0,
        signature_type: String::new(),
        out_system_id: 0,
        out_system_name: String::new(),
        out_signature: String::new(),
        in_system_id: 0,
        in_system_class: String::new(),
        in_system_name: String::new(),
        in_region_id: 0,
        in_region_name: String::new(),
        in_signature: String::new(),
        comment: None,
    }
}

const THERA: i64 = 31000005;
const TURNUR: i64 = 30002086;

/// Runs a wormhole refresh over jump edges; `names` maps a system name to its key.
fn run_wormhole_refresh(edges: &mut Vec<(i64, i64)>, signatures: &[EveScoutSignature]) -> Vec<String> {
    let key_of = |name: &str| if name == "Thera" { THERA } else { TURNUR };
    let mut dropped = Vec::new();
    let (mut refresh, mut cmd) = WormholeRefresh::new();
    loop {
        let event = match cmd {
            WormholeCommand::DropConnections(name) => {
                let hub = key_of(&name);
                edges.retain(|e| e.0 != hub && e.1 != hub);
                dropped.push(name);
                WormholeEvent::Completed
            }
            WormholeCommand::FetchSignatures => WormholeEvent::Signatures(signatures.to_vec()),
            WormholeCommand::SaveWormholes(pairs) => {
                for (a, b) in pairs {
                    edges.push((a, b));
                    edges.push((b, a));
                }
                WormholeEvent::Completed
            }
            WormholeCommand::Finish(outcome) => {
                assert!(outcome.is_ok());
                return dropped;
            }
        };
        cmd = refresh.step(event);
    }
}

#[test]
fn hubs_are_thera_and_turnur() {
    assert_eq!(hub_system_names(), vec!["Thera".to_string(), "Turnur".to_string()]);
}

#[test]
fn wormhole_swap_replaces_hub_edges() {
    let a = 30000142;
    let mut edges = vec![(THERA, 1), (2, THERA), (3, 4), (TURNUR, 5)];
    let mut signatures = vec![wormhole(THERA, a)];
    let mut other = blank_signature();
    other.signature_type = "combat".to_string();
    signatures.push(other);
    let dropped = run_wormhole_refresh(&mut edges, &signatures);
    assert_eq!(dropped, vec!["Thera".to_string(), "Turnur".to_string()]);
    assert_eq!(edges, vec![(3, 4), (THERA, a), (a, THERA)]);
    let thera_edges: Vec<_> = edges.iter().filter(|e| e.0 == THERA || e.1 == THERA).collect();
    assert_eq!(thera_edges, vec![&(THERA, a), &(a, THERA)]);
}

#[test]
fn wormhole_refresh_is_idempotent() {
    let mut edges = vec![(THERA, 1), (7, 8)];
    let signatures = vec![wormhole(THERA, 9), wormhole(10, TURNUR)];
    run_wormhole_refresh(&mut edges, &signatures);
    let once = edges.clone();
    run_wormhole_refresh(&mut edges, &signatures);
    assert_eq!(edges, once);
}

#[test]
fn wormhole_feed_failure_ends_refresh() {
    let (mut refresh, _) = WormholeRefresh::new();
    refresh.step(WormholeEvent::Completed);
    let cmd = refresh.step(WormholeEvent::Completed);
    assert!(matches!(cmd, WormholeCommand::FetchSignatures));
    let err = eve_graph::eve_scout::Error::ServerError { status: 502, body: String::new() };
    let cmd = refresh.step(WormholeEvent::Failed(ReplicationError::Signatures(err)));
    assert!(matches!(cmd, WormholeCommand::Finish(Err(ReplicationError::Signatures(_)))));
}

#[test]
fn projection_names_and_weights() {
    assert_eq!(Projection::SystemMap.name(), "system-map");
    assert_eq!(Projection::SystemMap.weight_property(), "cost");
    assert_eq!(Projection::JumpRisk.name(), "jump-risk");
    assert_eq!(Projection::JumpRisk.weight_property(), "risk");
}

/// Runs a projection task against a store holding the names of existing projections.
fn run_task(
    store: &mut Vec<String>,
    (mut task, mut cmd): (ProjectionTask, ProjectionCommand),
    log: &mut Vec<String>,
) -> ProjectionCommand {
    loop {
        let event = match cmd {
            ProjectionCommand::CheckExists(p) => ProjectionEvent::Exists(store.contains(&p.name())),
            ProjectionCommand::Drop(p) => {
                log.push(format!("drop {}", p.name()));
                store.retain(|n| *n != p.name());
                ProjectionEvent::Dropped
            }
            ProjectionCommand::Build(p) => {
                log.push(format!("build {} by {}", p.name(), p.weight_property()));
                store.push(p.name());
                ProjectionEvent::Built(p.name())
            }
            ProjectionCommand::FindRoute(p, from, to) => {
                log.push(format!("route {} {from} {to}", p.name()));
                if store.contains(&p.name()) {
                    ProjectionEvent::Route(Some(vec![from, "Perimeter".to_string(), to]))
                } else {
                    ProjectionEvent::Failed(Error::Client("no such graph".to_string()))
                }
            }
            done => return done,
        };
        cmd = task.step(event);
    }
}

#[test]
fn refreshing_twice_yields_same_graph_name() {
    let mut store = Vec::new();
    let mut log = Vec::new();
    let first = run_task(&mut store, ProjectionTask::refresh(Projection::JumpRisk), &mut log);
    let second = run_task(&mut store, ProjectionTask::refresh(Projection::JumpRisk), &mut log);
    assert!(matches!(first, ProjectionCommand::FinishRefresh(Ok(ref n)) if n == "jump-risk"));
    assert!(matches!(second, ProjectionCommand::FinishRefresh(Ok(ref n)) if n == "jump-risk"));
    assert_eq!(log, vec!["build jump-risk by risk", "drop jump-risk", "build jump-risk by risk"]);
    assert_eq!(store, vec!["jump-risk".to_string()]);
}

#[test]
fn safest_route_builds_missing_projection() {
    let mut store = vec!["system-map".to_string()];
    let mut log = Vec::new();
    let done = run_task(&mut store, ProjectionTask::safest_route("Jita".to_string(), "Amarr".to_string()), &mut log);
    match done {
        ProjectionCommand::FinishRoute(Ok(Some(route))) => {
            assert_eq!(route, vec!["Jita", "Perimeter", "Amarr"]);
        }
        other => panic!("unexpected {other:?}"),
    }
    assert_eq!(log, vec!["build jump-risk by risk", "route jump-risk Jita Amarr"]);
    log.clear();
    run_task(&mut store, ProjectionTask::safest_route("Jita".to_string(), "Amarr".to_string()), &mut log);
    assert_eq!(log, vec!["route jump-risk Jita Amarr"]);
}

#[test]
fn shortest_route_queries_same_inputs_alike() {
    let (_, first) = ProjectionTask::shortest_route("A".to_string(), "B".to_string());
    let (_, second) = ProjectionTask::shortest_route("A".to_string(), "B".to_string());
    match (first, second) {
        (ProjectionCommand::FindRoute(pa, fa, ta), ProjectionCommand::FindRoute(pb, fb, tb)) => {
            assert_eq!(pa, Projection::SystemMap);
            assert_eq!((pa, fa, ta), (pb, fb, tb));
        }
        _ => panic!("expected route queries"),
    }
}

#[test]
fn missing_route_is_none() {
    let (mut task, _) = ProjectionTask::shortest_route("A".to_string(), "Nowhere".to_string());
    let done = task.step(ProjectionEvent::Route(None));
    assert!(matches!(done, ProjectionCommand::FinishRoute(Ok(None))));
}

#[test]
fn refresh_failure_is_reported() {
    let (mut task, _) = ProjectionTask::refresh(Projection::SystemMap);
    let done = task.step(ProjectionEvent::Failed(Error::Client("gone".to_string())));
    assert!(matches!(done, ProjectionCommand::FinishRefresh(Err(Error::Client(_)))));
}

#[test]
fn connection_retries_with_backoff_then_gives_up() {
    let (mut retry, cmd) = ConnectRetry::new(3);
    assert!(matches!(cmd, ConnectCommand::Connect { attempt: 1, wait_seconds: 0 }));
    let cmd = retry.step(ConnectEvent::Refused("refused".to_string()));
    assert!(matches!(cmd, ConnectCommand::Connect { attempt: 2, wait_seconds: 5 }));
    let cmd = retry.step(ConnectEvent::Refused("refused".to_string()));
    assert!(matches!(cmd, ConnectCommand::Connect { attempt: 3, wait_seconds: 5 }));
    let cmd = retry.step(ConnectEvent::Refused("last".to_string()));
    assert!(matches!(cmd, ConnectCommand::GiveUp(Error::Client(ref m)) if m == "last"));
}

#[test]
fn connection_ready_on_success() {
    let (mut retry, _) = ConnectRetry::new(10);
    retry.step(ConnectEvent::Refused("x".to_string()));
    assert!(matches!(retry.step(ConnectEvent::Connected), ConnectCommand::Ready));
}

#[test]
fn connection_without_attempts_gives_up() {
    let (_, cmd) = ConnectRetry::new(0);
    assert!(matches!(cmd, ConnectCommand::GiveUp(Error::Client(_))));
}

#[test]
fn bootstrap_runs_stages_in_strict_order() {
    let (mut boot, mut cmd) = Bootstrap::new();
    let mut ran = Vec::new();
    loop {
        match cmd {
            BootstrapCommand::Run(stage) => {
                ran.push(stage);
                cmd = boot.step(Ok(()));
            }
            BootstrapCommand::Finish(outcome) => {
                assert!(outcome.is_ok());
                break;
            }
        }
    }
    assert_eq!(
        ran,
        vec![
            BootstrapStage::SyncSystems,
            BootstrapStage::SyncStargates,
            BootstrapStage::RefreshRisks,
            BootstrapStage::RefreshRiskProjection,
            BootstrapStage::RefreshWormholes,
            BootstrapStage::RefreshCostProjection,
        ]
    );
}

#[test]
fn bootstrap_aborts_on_first_error() {
    let (mut boot, _) = Bootstrap::new();
    let cmd = boot.step(Ok(()));
    assert!(matches!(cmd, BootstrapCommand::Run(BootstrapStage::SyncStargates)));
    let cmd = boot.step(Err(ReplicationError::Process("boom".to_string())));
    assert!(matches!(cmd, BootstrapCommand::Finish(Err(ReplicationError::Process(_)))));
}
