use editoast::core_client::CoreClient;
use editoast::primitives::{OSRDIdentified, OSRDObject, OSRDTyped, ObjectType};
use editoast::route::{Direction, Route, Waypoint};
use editoast::simulation::{get_first_from_core_vec, SingleSimulationError};
use std::collections::HashMap;

fn route() -> Route {
    Route {
        id: "rt.a-b".to_string(),
        entry_point: Waypoint::BufferStop { id: "bs.a".to_string() },
        entry_point_direction: Direction::StartToStop,
        exit_point: Waypoint::Detector { id: "d.b".to_string() },
        release_detectors: vec![],
        switches_directions: HashMap::new(),
    }
}

#[test]
fn route_is_typed_and_identified() {
    let r = route();
    assert_eq!(<Route as OSRDTyped>::get_type(), ObjectType::Route);
    assert_eq!(r.get_id(), "rt.a-b");
    let reference = r.get_ref();
    assert_eq!(reference.obj_type, ObjectType::Route);
    assert_eq!(reference.obj_id, "rt.a-b");
}

#[test]
fn first_of_core_vec() {
    assert_eq!(get_first_from_core_vec(vec![3, 4]), Ok(3));
    assert_eq!(
        get_first_from_core_vec(Vec::<u8>::new()),
        Err(SingleSimulationError::WrongCoreResponseFormat)
    );
}

#[test]
fn direct_client_carries_bearer_token() {
    let CoreClient::Direct(config) =
        CoreClient::new_direct("http://localhost:8080".to_string(), "SECRET-REDACTED".to_string());
    assert_eq!(config.base_url, "http://localhost:8080");
    assert_eq!(config.authorization, "Bearer SECRET-REDACTED");
}
