//! What the placement hands to the patcher about a check.

use vstd::prelude::*;

verus! {

/// The part of the game world that a check lies in.
#[derive(Clone, Copy, Debug, PartialEq, Eq, Hash, Structural)]
pub enum World {
    Hyrule,
    Lorule,
    Dungeons,
}

/// The handle by which the patcher addresses a check in the game's files:
/// the world and the region that the check lies in, and its name there.
#[derive(Debug, PartialEq, Eq, Hash)]
pub struct LocationInfo {
    pub world: World,
    pub region: String,
    pub name: String,
}

impl LocationInfo {
    pub fn new(world: World, region: &str, name: &str) -> (r: LocationInfo)
        ensures
            r.world == world,
            r.region@ == region@,
            r.name@ == name@,
    {
        LocationInfo { world, region: region.to_owned(), name: name.to_owned() }
    }

    pub fn world(&self) -> (r: World)
        ensures
            r == self.world,
    {
        self.world
    }

    pub fn region(&self) -> (r: &str)
        ensures
            r@ == self.region@,
    {
        self.region.as_str()
    }

    pub fn name(&self) -> (r: &str)
        ensures
            r@ == self.name@,
    {
        self.name.as_str()
    }
}

impl Clone for LocationInfo {
    fn clone(&self) -> (r: LocationInfo)
        ensures
            r == *self,
    {
        LocationInfo { world: self.world, region: self.region.clone(), name: self.name.clone() }
    }
}

} // verus!
