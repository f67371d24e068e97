//! Routes: the one object kind of an infrastructure that this library
//! describes field by field.
use crate::primitives::{OSRDIdentified, OSRDTyped, ObjectType};
use std::collections::HashMap;
use vstd::prelude::*;

verus! {

/// The direction in which a track section is travelled.
#[derive(Clone, Copy, Debug, PartialEq, Eq, Structural, Hash)]
pub enum Direction {
    StartToStop,
    StopToStart,
}

/// Where a route starts or ends.
#[derive(Clone, Debug, PartialEq, Eq, Hash)]
pub enum Waypoint {
    BufferStop { id: String },
    Detector { id: String },
}

/// A route from one waypoint to another.
#[derive(Debug)]
pub struct Route {
    pub id: String,
    pub entry_point: Waypoint,
    pub entry_point_direction: Direction,
    pub exit_point: Waypoint,
    pub release_detectors: Vec<String>,
    /// The direction each switch on the route is set to, by switch identifier.
    pub switches_directions: HashMap<String, String>,
}

impl OSRDTyped for Route {
    open spec fn object_type() -> ObjectType {
        ObjectType::Route
    }

    fn get_type() -> (r: ObjectType) {
        ObjectType::Route
    }
}

impl OSRDIdentified for Route {
    open spec fn id_view(&self) -> Seq<char> {
        self.id@
    }

    fn get_id(&self) -> (r: &String) {
        &self.id
    }
}

} // verus!
