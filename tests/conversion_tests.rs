use eve_graph::database::{system_jump_risk, Stargate, System};
use eve_graph::esi::{Destination, Planet, Position, StargateResponse, SystemResponse};
use eve_graph::risk::Fraction;

fn position(x: f64, y: f64, z: f64) -> Position {
    Position { x: x.to_bits(), y: y.to_bits(), z: z.to_bits() }
}

#[test]
fn test_system_from_esi_response() {
    let esi_response = SystemResponse {
        system_id: 30000142,
        name: Some("Jita".to_string()),
        constellation_id: Some(20000020),
        security_status: 0.9f64.to_bits(),
        star_id: Some(40000849),
        security_class: Some("A".to_string()),
        position: position(1.0, 2.0, 3.0),
        planets: Some(vec![Planet { planet_id: 40000855, asteroid_belts: None, moons: None }]),
        stargates: Some(vec![50000056]),
    };

    let system = System::from_response(esi_response);

    assert_eq!(system.system_id, 30000142);
    assert_eq!(system.name, "Jita");
    assert_eq!(system.stargates, vec![50000056]);
    assert_eq!(system.planets, vec![40000855]);
    assert_eq!(system.kills, 0); // Default value
}

#[test]
fn system_from_sparse_response_uses_defaults() {
    let response = SystemResponse {
        system_id: 7,
        name: None,
        constellation_id: None,
        security_status: (-0.5f64).to_bits(),
        star_id: None,
        security_class: None,
        position: position(-1.5, 0.0, 9.25),
        planets: None,
        stargates: None,
    };
    let system = System::from_response(response);
    assert_eq!(system.constellation_id, -1);
    assert_eq!(system.star_id, -1);
    assert_eq!(system.name, "undefined");
    assert_eq!(system.security_class, "undefined");
    assert!(system.planets.is_empty());
    assert!(system.stargates.is_empty());
    assert_eq!(f64::from_bits(system.x), -1.5);
    assert_eq!(f64::from_bits(system.z), 9.25);
    assert_eq!(f64::from_bits(system.security_status), -0.5);
    assert_eq!(system.jumps, 0);
}

#[test]
fn system_keeps_planet_order() {
    let planet = |id| Planet { planet_id: id, asteroid_belts: Some(vec![1]), moons: None };
    let response = SystemResponse {
        system_id: 1,
        name: Some("A".to_string()),
        constellation_id: Some(2),
        security_status: 0,
        star_id: Some(3),
        security_class: Some("B".to_string()),
        position: position(0.0, 0.0, 0.0),
        planets: Some(vec![planet(30), planet(10), planet(20)]),
        stargates: Some(vec![5, 6]),
    };
    let system = System::from_response(response);
    assert_eq!(system.planets, vec![30, 10, 20]);
    assert_eq!(system.constellation_id, 2);
    assert_eq!(system.star_id, 3);
}

#[test]
fn stargate_from_response_takes_destination() {
    let response = StargateResponse {
        destination: Destination { stargate_id: 50011906, system_id: 30000001 },
        name: "Stargate (Vouskiaho)".to_string(),
        position: position(4.0, 5.0, 6.0),
        stargate_id: 50011905,
        system_id: 30000002,
        type_id: 16,
    };
    let gate = Stargate::from_response(response);
    assert_eq!(gate.stargate_id, 50011905);
    assert_eq!(gate.name, "Stargate (Vouskiaho)");
    assert_eq!(gate.system_id, 30000002);
    assert_eq!(gate.destination_system_id, 30000001);
    assert_eq!(gate.destination_stargate_id, 50011906);
    assert_eq!(gate.type_id, 16);
    assert_eq!(f64::from_bits(gate.y), 5.0);
}

#[test]
fn risk_of_missing_system_is_nothing() {
    assert!(system_jump_risk(&None, Fraction::new(1, 100)).is_none());
}

#[test]
fn risk_of_stored_system_uses_its_counters() {
    let response = SystemResponse {
        system_id: 9,
        name: None,
        constellation_id: None,
        security_status: 0,
        star_id: None,
        security_class: None,
        position: position(0.0, 0.0, 0.0),
        planets: None,
        stargates: None,
    };
    let mut system = System::from_response(response);
    system.kills = 3;
    system.jumps = 4;
    let risk = system_jump_risk(&Some(system), Fraction::new(1, 2)).unwrap();
    assert_eq!(risk.per_edge, Fraction::new(9, 4));
    assert_eq!(risk.baseline, Fraction::new(1, 2));
}
