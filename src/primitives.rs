//! Object kinds of an infrastructure and the traits that identify objects.
use vstd::prelude::*;

verus! {

/// The kinds of objects an infrastructure is made of.
#[derive(Clone, Copy, Debug, PartialEq, Eq, Structural, Hash)]
pub enum ObjectType {
    TrackSection,
    Signal,
    SpeedSection,
    Detector,
    TrackSectionLink,
    Switch,
    SwitchType,
    BufferStop,
    Route,
    OperationalPoint,
    Catenary,
}

/// A typed reference to an object of an infrastructure.
#[derive(Clone, Debug)]
pub struct ObjectRef {
    pub obj_type: ObjectType,
    pub obj_id: String,
}

impl ObjectRef {
    pub fn new(obj_type: ObjectType, obj_id: &String) -> (r: ObjectRef)
        ensures
            r.obj_type == obj_type,
            r.obj_id@ == obj_id@,
    {
        ObjectRef { obj_type, obj_id: obj_id.clone() }
    }
}

/// Implemented by every struct that represents an object type.
pub trait OSRDTyped {
    spec fn object_type() -> ObjectType;

    fn get_type() -> (r: ObjectType)
        ensures
            r == Self::object_type(),
    ;
}

/// Implemented by every object that can be identified.
pub trait OSRDIdentified {
    spec fn id_view(&self) -> Seq<char>;

    fn get_id(&self) -> (r: &String)
        ensures
            r@ == self.id_view(),
    ;
}

/// An object that is both typed and identified, and can therefore be referenced.
pub trait OSRDObject: OSRDIdentified {
    spec fn type_of(&self) -> ObjectType;

    fn get_type(&self) -> (r: ObjectType)
        ensures
            r == self.type_of(),
    ;

    fn get_ref(&self) -> (r: ObjectRef)
        ensures
            r.obj_type == self.type_of(),
            r.obj_id@ == self.id_view(),
    {
        ObjectRef::new(self.get_type(), self.get_id())
    }
}

impl<T: OSRDIdentified + OSRDTyped> OSRDObject for T {
    open spec fn type_of(&self) -> ObjectType {
        T::object_type()
    }

    fn get_type(&self) -> (r: ObjectType) {
        <T as OSRDTyped>::get_type()
    }
}

} // verus!
