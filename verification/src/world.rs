//! The world graph: locations, the paths between them and the checks that
//! each location owns.
//!
//! Locations and checks are known by their position in the graph, in the
//! order in which they were declared. A path stores the position of its
//! destination, never the location itself.

use crate::guard::Guard;
use crate::item::FillerItem;
use crate::progress::Progress;
use crate::regions::LocationInfo;
use crate::settings::Logic;
use vstd::prelude::*;

verus! {

/// A slot of the game that hands out one item.
pub struct Check {
    pub name: String,
    /// The item that the check always holds, if the world fixes one.
    pub quest: Option<FillerItem>,
    pub guard: Guard,
    /// How the patcher addresses the check, where it has to be patched.
    pub location_info: Option<LocationInfo>,
    /// The position of the location that owns the check.
    pub location: usize,
}

impl Check {
    pub fn get_name(&self) -> (r: &str)
        ensures
            r@ == self.name@,
    {
        self.name.as_str()
    }

    pub fn get_quest(&self) -> (r: Option<FillerItem>)
        ensures
            r == self.quest,
    {
        self.quest
    }

    pub fn get_location_info(&self) -> (r: Option<LocationInfo>)
        ensures
            r == self.location_info,
    {
        match &self.location_info {
            Some(info) => Some(info.clone()),
            None => None,
        }
    }

    /// Whether the check's guard is open to the inventory.
    pub fn can_access(&self, progress: &Progress) -> (r: bool)
        requires
            progress.wf(),
        ensures
            r == self.guard.accepts(progress@, progress.logic()),
    {
        self.guard.can_access(progress)
    }
}

/// A way from one location to another.
pub struct Path {
    /// The position of the location that the path leads to.
    pub destination: usize,
    pub guard: Guard,
}

impl Path {
    pub fn get_destination(&self) -> (r: usize)
        ensures
            r == self.destination,
    {
        self.destination
    }

    /// Whether the path's guard is open to the inventory.
    pub fn can_access(&self, progress: &Progress) -> (r: bool)
        requires
            progress.wf(),
        ensures
            r == self.guard.accepts(progress@, progress.logic()),
    {
        self.guard.can_access(progress)
    }
}

/// A location: the positions of its checks, in order, and its outgoing paths.
pub struct LocationNode {
    pub name: String,
    pub checks: Vec<usize>,
    pub paths: Vec<Path>,
}

impl LocationNode {
    pub fn get_checks(&self) -> (r: &Vec<usize>)
        ensures
            r == &self.checks,
    {
        &self.checks
    }

    pub fn get_paths(&self) -> (r: &Vec<Path>)
        ensures
            r == &self.paths,
    {
        &self.paths
    }
}

/// The world: its locations, its checks and the location where the player
/// begins.
pub struct WorldGraph {
    pub nodes: Vec<LocationNode>,
    pub checks: Vec<Check>,
    pub start: usize,
}

impl WorldGraph {
    /// Every path leads to a location of the graph, and every check is owned
    /// by exactly one location, which lists it once.
    pub open spec fn wf(&self) -> bool {
        &&& self.start < self.nodes@.len()
        &&& forall|n: int, p: int|
            0 <= n < self.nodes@.len() && 0 <= p < self.nodes@[n].paths@.len() ==> (
            #[trigger] self.nodes@[n].paths@[p]).destination < self.nodes@.len()
        &&& forall|n: int, k: int|
            0 <= n < self.nodes@.len() && 0 <= k < self.nodes@[n].checks@.len() ==> {
                &&& (#[trigger] self.nodes@[n].checks@[k]) < self.checks@.len()
                &&& self.checks@[self.nodes@[n].checks@[k] as int].location == n
            }
        &&& forall|n: int| 0 <= n < self.nodes@.len() ==> (#[trigger] self.nodes@[n]).checks@.no_duplicates()
        &&& forall|c: int|
            0 <= c < self.checks@.len() ==> {
                &&& (#[trigger] self.checks@[c]).location < self.nodes@.len()
                &&& self.nodes@[self.checks@[c].location as int].checks@.contains(c as usize)
            }
    }

    /// No two checks have the same name.
    pub open spec fn names_distinct(&self) -> bool {
        forall|i: int, j: int|
            0 <= i < j < self.checks@.len() ==> (#[trigger] self.checks@[i]).name@ != (
            #[trigger] self.checks@[j]).name@
    }

    /// Whether a check of the graph has the name.
    pub open spec fn has_name(&self, name: Seq<char>) -> bool {
        exists|c: int| 0 <= c < self.checks@.len() && (#[trigger] self.checks@[c]).name@ == name
    }

    /// The first check with the name.
    pub open spec fn named(&self, name: Seq<char>) -> int {
        choose|c: int|
            0 <= c < self.checks@.len() && (#[trigger] self.checks@[c]).name@ == name && forall|
                b: int,
            |
                0 <= b < c ==> (#[trigger] self.checks@[b]).name@ != name
    }

    /// Whether an open path leads from one location to another.
    pub open spec fn step(&self, from: int, to: int, held: Set<FillerItem>, logic: Logic) -> bool {
        &&& 0 <= from < self.nodes@.len()
        &&& exists|p: int|
            0 <= p < self.nodes@[from].paths@.len() && (#[trigger] self.nodes@[from].paths@[p]).destination
                == to && self.nodes@[from].paths@[p].guard.accepts(held, logic)
    }

    /// Whether the locations are a walk from the start along open paths.
    pub open spec fn walk(&self, way: Seq<int>, held: Set<FillerItem>, logic: Logic) -> bool {
        &&& way.len() > 0
        &&& way[0] == self.start
        &&& forall|i: int|
            0 <= i < way.len() - 1 ==> #[trigger] self.step(way[i], way[i + 1], held, logic)
    }

    /// Whether a walk from the start along open paths ends at the location.
    pub open spec fn reaches(&self, location: int, held: Set<FillerItem>, logic: Logic) -> bool {
        exists|way: Seq<int>| #[trigger] self.walk(way, held, logic) && way.last() == location
    }

    /// Whether the check can be taken: its location is reached and its own
    /// guard is open.
    pub open spec fn opens(&self, check: int, held: Set<FillerItem>, logic: Logic) -> bool {
        &&& 0 <= check < self.checks@.len()
        &&& self.reaches(self.checks@[check].location as int, held, logic)
        &&& self.checks@[check].guard.accepts(held, logic)
    }

    /// Whether every check can be taken.
    pub open spec fn opens_all(&self, held: Set<FillerItem>, logic: Logic) -> bool {
        forall|c: int| 0 <= c < self.checks@.len() ==> #[trigger] self.opens(c, held, logic)
    }

    /// A step that a smaller inventory can take is open to a larger one.
    pub proof fn lemma_step_monotone(
        &self,
        from: int,
        to: int,
        a: Set<FillerItem>,
        b: Set<FillerItem>,
        logic: Logic,
    )
        requires
            a.subset_of(b),
            self.step(from, to, a, logic),
        ensures
            self.step(from, to, b, logic),
    {
        let p = choose|p: int|
            0 <= p < self.nodes@[from].paths@.len() && (#[trigger] self.nodes@[from].paths@[p]).destination
                == to && self.nodes@[from].paths@[p].guard.accepts(a, logic);
        self.nodes@[from].paths@[p].guard.lemma_monotone(a, b, logic);
    }

    /// A location that a smaller inventory reaches is reached by a larger one.
    pub proof fn lemma_reaches_monotone(
        &self,
        location: int,
        a: Set<FillerItem>,
        b: Set<FillerItem>,
        logic: Logic,
    )
        requires
            a.subset_of(b),
            self.reaches(location, a, logic),
        ensures
            self.reaches(location, b, logic),
    {
        let way = choose|way: Seq<int>| #[trigger] self.walk(way, a, logic) && way.last() == location;
        assert forall|i: int| 0 <= i < way.len() - 1 implies #[trigger] self.step(
            way[i],
            way[i + 1],
            b,
            logic,
        ) by {
            self.lemma_step_monotone(way[i], way[i + 1], a, b, logic);
        }
        assert(self.walk(way, b, logic));
    }

    /// A check that a smaller inventory can take can be taken with a larger one.
    pub proof fn lemma_opens_monotone(
        &self,
        check: int,
        a: Set<FillerItem>,
        b: Set<FillerItem>,
        logic: Logic,
    )
        requires
            a.subset_of(b),
            self.opens(check, a, logic),
        ensures
            self.opens(check, b, logic),
    {
        self.lemma_reaches_monotone(self.checks@[check].location as int, a, b, logic);
        self.checks@[check].guard.lemma_monotone(a, b, logic);
    }

    /// A world of one location, where the player begins, without checks.
    pub fn new(start_name: &str) -> (r: WorldGraph)
        ensures
            r.wf(),
            r.nodes@.len() == 1,
            r.checks@.len() == 0,
            r.start == 0,
            r.nodes@[0].name@ == start_name@,
    {
        let mut nodes: Vec<LocationNode> = Vec::new();
        nodes.push(LocationNode { name: start_name.to_owned(), checks: Vec::new(), paths: Vec::new() });
        WorldGraph { nodes, checks: Vec::new(), start: 0 }
    }

    /// The number of locations.
    pub fn location_count(&self) -> (r: usize)
        ensures
            r == self.nodes@.len(),
    {
        self.nodes.len()
    }

    /// The number of checks.
    pub fn check_count(&self) -> (r: usize)
        ensures
            r == self.checks@.len(),
    {
        self.checks.len()
    }

    /// Declares a location without checks or paths and gives its position.
    pub fn add_location(&mut self, name: &str) -> (r: usize)
        requires
            old(self).wf(),
        ensures
            final(self).wf(),
            r == old(self).nodes@.len(),
            final(self).nodes@.len() == r + 1,
            final(self).nodes@[r as int].name@ == name@,
            final(self).nodes@[r as int].checks@.len() == 0,
            final(self).nodes@[r as int].paths@.len() == 0,
            forall|n: int| 0 <= n < r ==> final(self).nodes@[n] == old(self).nodes@[n],
            final(self).checks == old(self).checks,
            final(self).start == old(self).start,
    {
        let r = self.nodes.len();
        self.nodes.push(LocationNode { name: name.to_owned(), checks: Vec::new(), paths: Vec::new() });
        proof {
            assert forall|c: int| 0 <= c < self.checks@.len() implies self.nodes@[(
            #[trigger] self.checks@[c]).location as int].checks@.contains(c as usize) by {
                assert(old(self).checks@[c].location < old(self).nodes@.len());
            }
        }
        r
    }

    /// Declares a path. Where one of the two positions is no location of
    /// the graph, nothing changes and the answer is `false`.
    pub fn add_path(&mut self, from: usize, to: usize, guard: Guard) -> (r: bool)
        requires
            old(self).wf(),
        ensures
            final(self).wf(),
            r == (from < old(self).nodes@.len() && to < old(self).nodes@.len()),
            !r ==> *final(self) == *old(self),
            final(self).nodes@.len() == old(self).nodes@.len(),
            final(self).checks == old(self).checks,
            final(self).start == old(self).start,
            forall|n: int|
                0 <= n < old(self).nodes@.len() && n != from ==> final(self).nodes@[n] == old(
                    self,
                ).nodes@[n],
            r ==> {
                &&& final(self).nodes@[from as int].name == old(self).nodes@[from as int].name
                &&& final(self).nodes@[from as int].checks == old(self).nodes@[from as int].checks
                &&& final(self).nodes@[from as int].paths@ == old(self).nodes@[from as int].paths@.push(
                    Path { destination: to, guard },
                )
            },
    {
        if from >= self.nodes.len() || to >= self.nodes.len() {
            return false;
        }
        self.nodes[from].paths.push(Path { destination: to, guard });
        true
    }

    /// Declares a check of a location and gives its position. Where the
    /// position is no location of the graph, nothing changes.
    pub fn add_check(
        &mut self,
        location: usize,
        name: &str,
        quest: Option<FillerItem>,
        guard: Guard,
        location_info: Option<LocationInfo>,
    ) -> (r: Option<usize>)
        requires
            old(self).wf(),
        ensures
            final(self).wf(),
            r is Some <==> location < old(self).nodes@.len(),
            r is None ==> *final(self) == *old(self),
            final(self).nodes@.len() == old(self).nodes@.len(),
            final(self).start == old(self).start,
            forall|n: int|
                0 <= n < old(self).nodes@.len() && n != location ==> final(self).nodes@[n] == old(
                    self,
                ).nodes@[n],
            r matches Some(c) ==> {
                &&& c == old(self).checks@.len()
                &&& final(self).checks@.len() == c + 1
                &&& forall|b: int| 0 <= b < c ==> final(self).checks@[b] == old(self).checks@[b]
                &&& final(self).checks@[c as int].name@ == name@
                &&& final(self).checks@[c as int].quest == quest
                &&& final(self).checks@[c as int].guard == guard
                &&& final(self).checks@[c as int].location_info == location_info
                &&& final(self).checks@[c as int].location == location
                &&& final(self).nodes@[location as int].name == old(self).nodes@[location as int].name
                &&& final(self).nodes@[location as int].paths == old(self).nodes@[location as int].paths
                &&& final(self).nodes@[location as int].checks@ == old(
                    self,
                ).nodes@[location as int].checks@.push(c)
            },
    {
        if location >= self.nodes.len() {
            return None;
        }
        let c = self.checks.len();
        self.checks.push(Check { name: name.to_owned(), quest, guard, location_info, location });
        self.nodes[location].checks.push(c);
        proof {
            let before = old(self).nodes@[location as int].checks@;
            assert forall|k: int| 0 <= k < before.len() implies before[k] != c by {
                assert(old(self).nodes@[location as int].checks@[k] < old(self).checks@.len());
            }
            assert(self.nodes@[location as int].checks@.no_duplicates());
            assert forall|n: int|
                0 <= n < self.nodes@.len() implies (#[trigger] self.nodes@[n]).checks@.no_duplicates() by {
                if n != location {
                    assert(self.nodes@[n] == old(self).nodes@[n]);
                }
            }
            assert forall|b: int| 0 <= b < self.checks@.len() implies {
                &&& (#[trigger] self.checks@[b]).location < self.nodes@.len()
                &&& self.nodes@[self.checks@[b].location as int].checks@.contains(b as usize)
            } by {
                if b < c {
                    let owner = old(self).checks@[b].location as int;
                    let k = choose|k: int|
                        0 <= k < old(self).nodes@[owner].checks@.len() && old(
                            self,
                        ).nodes@[owner].checks@[k] == b as usize;
                    assert(self.nodes@[owner].checks@[k] == b as usize);
                } else {
                    assert(self.nodes@[location as int].checks@[before.len() as int] == c);
                }
            }
            assert forall|n: int, k: int|
                0 <= n < self.nodes@.len() && 0 <= k < self.nodes@[n].checks@.len() implies {
                &&& (#[trigger] self.nodes@[n].checks@[k]) < self.checks@.len()
                &&& self.checks@[self.nodes@[n].checks@[k] as int].location == n
            } by {
                if n != location {
                    assert(self.nodes@[n] == old(self).nodes@[n]);
                    assert(old(self).nodes@[n].checks@[k] < old(self).checks@.len());
                } else if k < before.len() {
                    assert(old(self).nodes@[n].checks@[k] < old(self).checks@.len());
                }
            }
            assert forall|n: int, p: int|
                0 <= n < self.nodes@.len() && 0 <= p < self.nodes@[n].paths@.len() implies (
            #[trigger] self.nodes@[n].paths@[p]).destination < self.nodes@.len() by {
                assert(self.nodes@[n].paths == old(self).nodes@[n].paths);
                assert(old(self).nodes@[n].paths@[p].destination < old(self).nodes@.len());
            }
        }
        Some(c)
    }

    /// The position of the first check with the name.
    pub fn find_check(&self, name: &str) -> (r: Option<usize>)
        ensures
            r is Some <==> self.has_name(name@),
            r matches Some(c) ==> c < self.checks@.len() && self.checks@[c as int].name@ == name@
                && c == self.named(name@),
    {
        let wanted = name.to_owned();
        let mut c: usize = 0;
        while c < self.checks.len()
            invariant
                wanted@ == name@,
                c <= self.checks@.len(),
                forall|b: int| 0 <= b < c ==> (#[trigger] self.checks@[b]).name@ != name@,
            decreases self.checks@.len() - c,
        {
            if self.checks[c].name == wanted {
                return Some(c);
            }
            c += 1;
        }
        None
    }
}

} // verus!
