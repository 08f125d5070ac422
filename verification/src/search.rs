//! The search for the checks that an inventory can take.

use crate::fifo::{dequeue, enqueue, queue_is_empty, queue_items, queue_limit, queue_of};
use crate::check_map::CheckMap;
use crate::item::{FillerItem, ITEM_COUNT};
use crate::progress::Progress;
use crate::settings::{Logic, Settings};
use crate::world::WorldGraph;
use queue::Queue;
use std::collections::HashSet;
use vstd::prelude::*;
use vstd::set_lib::{lemma_int_range, lemma_len_subset, set_int_range};

verus! {

broadcast use vstd::std_specs::hash::group_hash_axioms;

/// Whether the check is owned by one of the locations and open.
pub open spec fn wanted(
    graph: &WorldGraph,
    check: int,
    done: Set<int>,
    held: Set<FillerItem>,
    logic: Logic,
) -> bool {
    &&& 0 <= check < graph.checks@.len()
    &&& done.contains(graph.checks@[check].location as int)
    &&& graph.checks@[check].guard.accepts(held, logic)
}

/// Whether the list holds, each once, the open checks of the locations.
pub open spec fn gathered(
    graph: &WorldGraph,
    out: Seq<usize>,
    done: Set<int>,
    held: Set<FillerItem>,
    logic: Logic,
) -> bool {
    &&& out.no_duplicates()
    &&& forall|i: int| 0 <= i < out.len() ==> wanted(graph, (#[trigger] out[i]) as int, done, held, logic)
    &&& forall|c: usize| #[trigger] wanted(graph, c as int, done, held, logic) ==> out.contains(c)
}

/// The checks whose own guard is open.
pub open spec fn is_open(graph: &WorldGraph, held: Set<FillerItem>, logic: Logic) -> spec_fn(usize) -> bool {
    |check: usize| check < graph.checks@.len() && graph.checks@[check as int].guard.accepts(held, logic)
}

/// The checks of a location whose own guard is open, in the location's
/// order.
pub open spec fn open_checks(graph: &WorldGraph, location: int, held: Set<FillerItem>, logic: Logic) -> Seq<
    usize,
> {
    graph.nodes@[location].checks@.filter(is_open(graph, held, logic))
}

/// The locations that the first `count` paths of a location bring into
/// the queue: the destinations of its open paths, in the order of the
/// paths, but for those that were seen before.
pub open spec fn next_stops(
    graph: &WorldGraph,
    location: int,
    held: Set<FillerItem>,
    logic: Logic,
    seen: Set<usize>,
    count: int,
) -> Seq<usize>
    decreases count,
{
    if count <= 0 {
        Seq::empty()
    } else {
        let before = next_stops(graph, location, held, logic, seen, count - 1);
        let path = graph.nodes@[location].paths@[count - 1];
        if !seen.contains(path.destination) && !before.contains(path.destination) && path.guard.accepts(
            held,
            logic,
        ) {
            before.push(path.destination)
        } else {
            before
        }
    }
}

/// The order in which the search lists the checks: the open checks of the
/// location that waits first, then what the search lists once that
/// location has left the queue and the locations that its paths bring in
/// have joined it at the end. The search looks at no more locations than
/// `fuel` says.
pub open spec fn search_order(
    graph: &WorldGraph,
    waiting: Seq<usize>,
    seen: Set<usize>,
    held: Set<FillerItem>,
    logic: Logic,
    fuel: nat,
) -> Seq<usize>
    decreases fuel,
{
    if fuel == 0 || waiting.len() == 0 {
        Seq::empty()
    } else {
        let location = waiting[0] as int;
        let stops = next_stops(
            graph,
            location,
            held,
            logic,
            seen,
            graph.nodes@[location].paths@.len() as int,
        );
        open_checks(graph, location, held, logic) + search_order(
            graph,
            waiting.drop_first() + stops,
            seen.union(stops.to_set()),
            held,
            logic,
            (fuel - 1) as nat,
        )
    }
}

/// The checks that the search lists from the start of the world, in its
/// order.
pub open spec fn searched(graph: &WorldGraph, held: Set<FillerItem>, logic: Logic) -> Seq<usize> {
    search_order(graph, seq![graph.start], set![graph.start], held, logic, graph.nodes@.len())
}

/// Whether the list holds, each once, the checks that the inventory can take.
pub open spec fn lists_open(graph: &WorldGraph, list: Seq<usize>, held: Set<FillerItem>, logic: Logic) -> bool {
    &&& list.no_duplicates()
    &&& forall|i: int| 0 <= i < list.len() ==> graph.opens((#[trigger] list[i]) as int, held, logic)
    &&& forall|c: usize| #[trigger] graph.opens(c as int, held, logic) ==> list.contains(c)
}

/// A location one open step away from a reached one is reached.
proof fn lemma_reaches_step(graph: &WorldGraph, from: int, to: int, held: Set<FillerItem>, logic: Logic)
    requires
        graph.reaches(from, held, logic),
        graph.step(from, to, held, logic),
    ensures
        graph.reaches(to, held, logic),
{
    let way = choose|way: Seq<int>| #[trigger] graph.walk(way, held, logic) && way.last() == from;
    let longer = way.push(to);
    assert forall|i: int| 0 <= i < longer.len() - 1 implies #[trigger] graph.step(
        longer[i],
        longer[i + 1],
        held,
        logic,
    ) by {
        if i < way.len() - 1 {
            assert(graph.step(way[i], way[i + 1], held, logic));
        }
    }
    assert(graph.walk(longer, held, logic));
    assert(longer.last() == to);
}

/// The start is reached.
proof fn lemma_reaches_start(graph: &WorldGraph, held: Set<FillerItem>, logic: Logic)
    ensures
        graph.reaches(graph.start as int, held, logic),
{
    let way = seq![graph.start as int];
    assert(graph.walk(way, held, logic));
    assert(way.last() == graph.start);
}

/// A set of locations that holds the start and every location one open step
/// away from its own holds the end of every walk.
proof fn lemma_closed_holds_walk(
    graph: &WorldGraph,
    done: Set<int>,
    way: Seq<int>,
    held: Set<FillerItem>,
    logic: Logic,
)
    requires
        done.contains(graph.start as int),
        forall|v: int, t: int| done.contains(v) && #[trigger] graph.step(v, t, held, logic) ==> done.contains(t),
        graph.walk(way, held, logic),
    ensures
        done.contains(way.last()),
    decreases way.len(),
{
    if way.len() > 1 {
        let shorter = way.drop_last();
        assert forall|i: int| 0 <= i < shorter.len() - 1 implies #[trigger] graph.step(
            shorter[i],
            shorter[i + 1],
            held,
            logic,
        ) by {
            assert(graph.step(way[i], way[i + 1], held, logic));
        }
        lemma_closed_holds_walk(graph, done, shorter, held, logic);
        assert(graph.step(way[way.len() - 2], way[way.len() - 2 + 1], held, logic));
    }
}

/// Appends the open checks of one location, in the location's order.
fn collect_checks(
    graph: &WorldGraph,
    progress: &Progress,
    location: usize,
    out: &mut Vec<usize>,
    Ghost(done): Ghost<Set<int>>,
)
    requires
        graph.wf(),
        progress.wf(),
        location < graph.nodes@.len(),
        !done.contains(location as int),
        gathered(graph, old(out)@, done, progress@, progress.logic()),
    ensures
        gathered(graph, final(out)@, done.insert(location as int), progress@, progress.logic()),
        final(out)@ == old(out)@ + open_checks(graph, location as int, progress@, progress.logic()),
{
    let ghost held = progress@;
    let ghost logic = progress.logic();
    let ghost first = out@;
    let ghost keep = is_open(graph, held, logic);
    let node = &graph.nodes[location];
    let mut k: usize = 0;
    proof {
        reveal(Seq::filter);
        assert(node.checks@.subrange(0, 0) =~= Seq::<usize>::empty());
        assert(first + Seq::<usize>::empty() =~= first);
    }
    while k < node.checks.len()
        invariant
            graph.wf(),
            progress.wf(),
            held == progress@,
            logic == progress.logic(),
            location < graph.nodes@.len(),
            *node == graph.nodes@[location as int],
            !done.contains(location as int),
            k <= node.checks@.len(),
            keep == is_open(graph, held, logic),
            out@ == first + node.checks@.subrange(0, k as int).filter(keep),
            out@.no_duplicates(),
            forall|i: int|
                0 <= i < out@.len() ==> wanted(
                    graph,
                    (#[trigger] out@[i]) as int,
                    done.insert(location as int),
                    held,
                    logic,
                ),
            forall|i: int|
                0 <= i < out@.len() && graph.checks@[out@[i] as int].location == location
                    ==> exists|j: int| 0 <= j < k && #[trigger] node.checks@[j] == #[trigger] out@[i],
            forall|c: usize| #[trigger] wanted(graph, c as int, done, held, logic) ==> out@.contains(c),
            forall|j: int|
                0 <= j < k && graph.checks@[(#[trigger] node.checks@[j]) as int].guard.accepts(held, logic)
                    ==> out@.contains(node.checks@[j]),
        decreases node.checks@.len() - k,
    {
        let c = node.checks[k];
        assert(node.checks@[k as int] < graph.checks@.len());
        proof {
            node.checks@.subrange(0, k as int).lemma_filter_push(c, keep);
            assert(node.checks@.subrange(0, k as int).push(c) =~= node.checks@.subrange(0, k + 1));
        }
        if graph.checks[c].can_access(progress) {
            let ghost before = out@;
            proof {
                if before.contains(c) {
                    let i = choose|i: int| 0 <= i < before.len() && before[i] == c;
                    let j = choose|j: int| 0 <= j < k && #[trigger] node.checks@[j] == before[i];
                    assert(node.checks@[j] == node.checks@[k as int]);
                }
            }
            out.push(c);
            proof {
                assert(out@ =~= first + node.checks@.subrange(0, k + 1).filter(keep));
                assert forall|c2: usize| #[trigger]
                    wanted(graph, c2 as int, done, held, logic) implies out@.contains(c2) by {
                    let i = choose|i: int| 0 <= i < before.len() && before[i] == c2;
                    assert(out@[i] == c2);
                }
                assert forall|j: int|
                    0 <= j < k + 1 && graph.checks@[(#[trigger] node.checks@[j]) as int].guard.accepts(
                        held,
                        logic,
                    ) implies out@.contains(node.checks@[j]) by {
                    if j < k {
                        let i = choose|i: int| 0 <= i < before.len() && before[i] == node.checks@[j];
                        assert(out@[i] == node.checks@[j]);
                    } else {
                        assert(out@[before.len() as int] == c);
                    }
                }
                assert forall|i: int|
                    0 <= i < out@.len() && graph.checks@[out@[i] as int].location
                        == location implies exists|j: int|
                    0 <= j < k + 1 && #[trigger] node.checks@[j] == #[trigger] out@[i] by {
                    if i < before.len() {
                        assert(out@[i] == before[i]);
                        let j = choose|j: int| 0 <= j < k && #[trigger] node.checks@[j] == before[i];
                        assert(node.checks@[j] == out@[i]);
                    } else {
                        assert(node.checks@[k as int] == out@[i]);
                    }
                }
            }
        }
        k += 1;
    }
    proof {
        assert(node.checks@.subrange(0, node.checks@.len() as int) =~= node.checks@);
        let all = done.insert(location as int);
        assert forall|c: usize| #[trigger] wanted(graph, c as int, all, held, logic) implies out@.contains(
            c,
        ) by {
            if done.contains(graph.checks@[c as int].location as int) {
                assert(wanted(graph, c as int, done, held, logic));
            } else {
                assert(graph.nodes@[graph.checks@[c as int].location as int].checks@.contains(c));
                let j = choose|j: int| 0 <= j < node.checks@.len() && node.checks@[j] == c;
                assert(graph.checks@[node.checks@[j] as int].guard.accepts(held, logic));
            }
        }
    }
}

/// Puts the locations that lie one open step from `location` and were not
/// seen before at the end of the queue, and notes them as seen.
fn queue_paths(
    graph: &WorldGraph,
    progress: &Progress,
    location: usize,
    queue: &mut Queue<usize>,
    visited: &mut HashSet<usize>,
) -> (added: Ghost<Seq<usize>>)
    requires
        graph.wf(),
        progress.wf(),
        location < graph.nodes@.len(),
        queue_limit(*old(queue)) is None,
    ensures
        queue_limit(*final(queue)) is None,
        queue_items(*final(queue)) == queue_items(*old(queue)) + added@,
        added@.no_duplicates(),
        forall|v: usize| #[trigger] old(visited)@.contains(v) ==> final(visited)@.contains(v),
        forall|v: usize|
            #[trigger] final(visited)@.contains(v) ==> old(visited)@.contains(v) || added@.contains(v),
        forall|i: int|
            0 <= i < added@.len() ==> {
                &&& (#[trigger] added@[i]) < graph.nodes@.len()
                &&& final(visited)@.contains(added@[i])
                &&& !old(visited)@.contains(added@[i])
                &&& graph.step(location as int, added@[i] as int, progress@, progress.logic())
            },
        forall|t: usize| #[trigger]
            graph.step(location as int, t as int, progress@, progress.logic())
                ==> final(visited)@.contains(t),
        added@ == next_stops(
            graph,
            location as int,
            progress@,
            progress.logic(),
            old(visited)@,
            graph.nodes@[location as int].paths@.len() as int,
        ),
        final(visited)@ == old(visited)@.union(added@.to_set()),
{
    let ghost held = progress@;
    let ghost logic = progress.logic();
    let ghost mut added: Seq<usize> = Seq::empty();
    let ghost queued = queue_items(*queue);
    let ghost seen = visited@;
    let node = &graph.nodes[location];
    let mut p: usize = 0;
    assert(queued + added =~= queued);
    while p < node.paths.len()
        invariant
            graph.wf(),
            progress.wf(),
            held == progress@,
            logic == progress.logic(),
            location < graph.nodes@.len(),
            *node == graph.nodes@[location as int],
            p <= node.paths@.len(),
            queue_limit(*queue) is None,
            queue_items(*queue) == queued + added,
            added == next_stops(graph, location as int, held, logic, seen, p as int),
            added.no_duplicates(),
            forall|v: usize| #[trigger] seen.contains(v) ==> visited@.contains(v),
            forall|v: usize| #[trigger] visited@.contains(v) ==> seen.contains(v) || added.contains(v),
            forall|i: int|
                0 <= i < added.len() ==> {
                    &&& (#[trigger] added[i]) < graph.nodes@.len()
                    &&& visited@.contains(added[i])
                    &&& !seen.contains(added[i])
                    &&& graph.step(location as int, added[i] as int, held, logic)
                },
            forall|j: int|
                0 <= j < p && (#[trigger] node.paths@[j]).guard.accepts(held, logic) ==> visited@.contains(
                    node.paths@[j].destination,
                ),
        decreases node.paths@.len() - p,
    {
        let path = &node.paths[p];
        let destination = path.get_destination();
        if !visited.contains(&destination) && path.can_access(progress) {
            let ghost seen_before = visited@;
            let ghost before = added;
            let sent = enqueue(queue, destination);
            assert(sent is Ok);
            visited.insert(destination);
            proof {
                added = before.push(destination);
                assert(visited@ == seen_before.insert(destination));
                assert(queue_items(*queue) =~= queued + added);
                assert(node.paths@[p as int].destination == destination);
                assert(graph.step(location as int, destination as int, held, logic));
                assert forall|v: usize| #[trigger] visited@.contains(v) implies seen.contains(v)
                    || added.contains(v) by {
                    if before.contains(v) {
                        let i = choose|i: int| 0 <= i < before.len() && before[i] == v;
                        assert(added[i] == v);
                    }
                    if v == destination {
                        assert(added[before.len() as int] == v);
                    }
                }
                if before.contains(destination) {
                    let i = choose|i: int| 0 <= i < before.len() && before[i] == destination;
                    assert(visited@.contains(before[i]));
                }
            }
        }
        p += 1;
    }
    proof {
        assert(visited@ =~= seen.union(added.to_set()));
        assert forall|t: usize| #[trigger]
            graph.step(location as int, t as int, held, logic) implies visited@.contains(t) by {
            let j = choose|j: int|
                0 <= j < graph.nodes@[location as int].paths@.len() && (
                #[trigger] graph.nodes@[location as int].paths@[j]).destination == t as int
                    && graph.nodes@[location as int].paths@[j].guard.accepts(held, logic);
            assert(node.paths@[j].guard.accepts(held, logic));
        }
    }
    Ghost(added)
}

/// The checks that the inventory can take: those whose location a walk
/// from the start along open paths reaches, and whose own guard is open.
/// Each is listed once, location by location in the order in which the
/// search comes to them.
pub fn find_reachable_checks(graph: &WorldGraph, progress: &Progress) -> (r: Vec<usize>)
    requires
        graph.wf(),
        progress.wf(),
    ensures
        lists_open(graph, r@, progress@, progress.logic()),
        r@ == searched(graph, progress@, progress.logic()),
{
    let ghost held = progress@;
    let ghost logic = progress.logic();
    let ghost n = graph.nodes@.len() as int;
    let start = graph.start;
    let mut first: Vec<usize> = Vec::new();
    first.push(start);
    let mut loc_queue = queue_of(first);
    let mut visited: HashSet<usize> = HashSet::new();
    let mut reachable_checks: Vec<usize> = Vec::new();
    let ghost mut done: Set<int> = Set::empty();
    visited.insert(start);
    proof {
        lemma_reaches_start(graph, held, logic);
        lemma_int_range(0, n);
        assert(queue_items(loc_queue)[0] == start);
        assert(queue_items(loc_queue) =~= seq![start]);
        assert(visited@ =~= set![start]);
        assert(reachable_checks@ + searched(graph, held, logic) =~= searched(graph, held, logic));
    }
    while !queue_is_empty(&loc_queue)
        invariant
            graph.wf(),
            progress.wf(),
            held == progress@,
            logic == progress.logic(),
            n == graph.nodes@.len(),
            start == graph.start,
            queue_limit(loc_queue) is None,
            queue_items(loc_queue).no_duplicates(),
            forall|i: int|
                0 <= i < queue_items(loc_queue).len() ==> {
                    &&& (#[trigger] queue_items(loc_queue)[i]) < n
                    &&& visited@.contains(queue_items(loc_queue)[i])
                    &&& !done.contains(queue_items(loc_queue)[i] as int)
                },
            forall|v: usize|
                visited@.contains(v) ==> done.contains(v as int) || queue_items(loc_queue).contains(v),
            forall|v: usize| done.contains(v as int) ==> visited@.contains(v),
            forall|v: usize| visited@.contains(v) ==> graph.reaches(v as int, held, logic),
            forall|v: int, t: usize|
                done.contains(v) && #[trigger] graph.step(v, t as int, held, logic) ==> visited@.contains(
                    t,
                ),
            gathered(graph, reachable_checks@, done, held, logic),
            visited@.contains(start),
            done.finite(),
            done.subset_of(set_int_range(0, n)),
            set_int_range(0, n).finite(),
            set_int_range(0, n).len() == n,
            reachable_checks@ + search_order(
                graph,
                queue_items(loc_queue),
                visited@,
                held,
                logic,
                (n - done.len()) as nat,
            ) == searched(graph, held, logic),
        decreases n - done.len(),
    {
        let ghost waiting = queue_items(loc_queue);
        let ghost seen = visited@;
        let ghost listed = reachable_checks@;
        proof {
            assert(!done.contains(waiting[0] as int));
            lemma_len_subset(done.insert(waiting[0] as int), set_int_range(0, n));
        }
        let next = dequeue(&mut loc_queue);
        let location = next.unwrap();
        collect_checks(graph, progress, location, &mut reachable_checks, Ghost(done));
        let added = queue_paths(graph, progress, location, &mut loc_queue, &mut visited);
        proof {
            let rest = waiting.drop_first();
            let now = queue_items(loc_queue);
            let all = done.insert(location as int);
            assert(now == rest + added@);
            assert forall|i: int| 0 <= i < now.len() implies {
                &&& (#[trigger] now[i]) < n
                &&& visited@.contains(now[i])
                &&& !all.contains(now[i] as int)
            } by {
                if i < rest.len() {
                    assert(now[i] == waiting[i + 1]);
                } else {
                    assert(now[i] == added@[i - rest.len()]);
                    assert(added@.contains(now[i]));
                }
            }
            assert(now.no_duplicates()) by {
                assert forall|i: int, j: int| 0 <= i < now.len() && 0 <= j < now.len() && i != j implies now[i]
                    != now[j] by {
                    if i < rest.len() && j < rest.len() {
                        assert(now[i] == waiting[i + 1] && now[j] == waiting[j + 1]);
                    } else if i >= rest.len() && j >= rest.len() {
                        assert(now[i] == added@[i - rest.len()] && now[j] == added@[j - rest.len()]);
                    } else if i < rest.len() {
                        assert(now[i] == waiting[i + 1] && now[j] == added@[j - rest.len()]);
                    } else {
                        assert(now[j] == waiting[j + 1] && now[i] == added@[i - rest.len()]);
                    }
                }
            }
            assert forall|v: usize| visited@.contains(v) implies all.contains(v as int) || now.contains(
                v,
            ) by {
                if added@.contains(v) {
                    let i = choose|i: int| 0 <= i < added@.len() && added@[i] == v;
                    assert(now[rest.len() + i] == v);
                } else if !done.contains(v as int) && v != location {
                    let i = choose|i: int| 0 <= i < waiting.len() && waiting[i] == v;
                    assert(now[i - 1] == v);
                }
            }
            assert forall|v: usize| visited@.contains(v) implies graph.reaches(v as int, held, logic) by {
                if added@.contains(v) {
                    let i = choose|i: int| 0 <= i < added@.len() && added@[i] == v;
                    lemma_reaches_step(graph, location as int, v as int, held, logic);
                }
            }
            lemma_len_subset(all, set_int_range(0, n));
            let fuel = (n - done.len()) as nat;
            assert(search_order(graph, waiting, seen, held, logic, fuel) == open_checks(
                graph,
                location as int,
                held,
                logic,
            ) + search_order(graph, now, visited@, held, logic, (fuel - 1) as nat));
            assert(reachable_checks@ + search_order(graph, now, visited@, held, logic, (fuel - 1) as nat)
                =~= listed + search_order(graph, waiting, seen, held, logic, fuel));
            done = all;
        }
    }
    assert(reachable_checks@ + Seq::<usize>::empty() =~= reachable_checks@);
    proof {
        assert(done.contains(start as int));
        assert forall|v: int, t: int| done.contains(v) && #[trigger] graph.step(v, t, held, logic) implies done.contains(t) by {
            let p = choose|p: int|
                0 <= p < graph.nodes@[v].paths@.len() && (#[trigger] graph.nodes@[v].paths@[p]).destination
                    == t && graph.nodes@[v].paths@[p].guard.accepts(held, logic);
            let d: usize = graph.nodes@[v].paths@[p].destination;
            assert(graph.step(v, d as int, held, logic));
            assert(visited@.contains(d));
        }
        assert forall|c: usize| #[trigger] graph.opens(c as int, held, logic) implies reachable_checks@.contains(
            c,
        ) by {
            let target = graph.checks@[c as int].location as int;
            let way = choose|way: Seq<int>| #[trigger] graph.walk(way, held, logic) && way.last() == target;
            lemma_closed_holds_walk(graph, done, way, held, logic);
            assert(wanted(graph, c as int, done, held, logic));
        }
        assert forall|i: int| 0 <= i < reachable_checks@.len() implies graph.opens(
            (#[trigger] reachable_checks@[i]) as int,
            held,
            logic,
        ) by {
            assert(wanted(graph, reachable_checks@[i] as int, done, held, logic));
        }
    }
    reachable_checks
}

/// The items that the world fixes at its checks.
pub open spec fn quest_items(graph: &WorldGraph) -> Set<FillerItem> {
    Set::new(
        |item: FillerItem|
            exists|c: int| 0 <= c < graph.checks@.len() && (#[trigger] graph.checks@[c]).quest == Some(item),
    )
}

/// Whether the check hands out the item: it is bound to the check, or the
/// world fixes it there.
pub open spec fn gives(graph: &WorldGraph, slots: Seq<Option<FillerItem>>, check: int, item: FillerItem) -> bool {
    &&& 0 <= check < graph.checks@.len()
    &&& check < slots.len()
    &&& (slots[check] == Some(item) || graph.checks@[check].quest == Some(item))
}

/// Whether the inventory holds every item that is bound to a check it can
/// take: taking checks brings it nothing new.
pub open spec fn settled(
    graph: &WorldGraph,
    slots: Seq<Option<FillerItem>>,
    held: Set<FillerItem>,
    logic: Logic,
) -> bool {
    forall|c: int|
        0 <= c < slots.len() && #[trigger] graph.opens(c, held, logic) && slots[c] is Some ==> held.contains(
            slots[c]->0,
        )
}

/// What can be held in the end by one who starts with `base` and takes
/// every check that opens: the items that every settled inventory above
/// `base` holds.
pub open spec fn assumed(
    graph: &WorldGraph,
    slots: Seq<Option<FillerItem>>,
    base: Set<FillerItem>,
    logic: Logic,
) -> Set<FillerItem> {
    Set::new(
        |item: FillerItem|
            forall|held: Set<FillerItem>|
                base.subset_of(held) && #[trigger] settled(graph, slots, held, logic) ==> held.contains(item),
    )
}

/// What one starts with when the items of `pool` are still to be placed:
/// those items, and the items that the world fixes at its checks.
pub open spec fn assumed_base(graph: &WorldGraph, pool: Seq<FillerItem>) -> Set<FillerItem> {
    pool.to_set().union(quest_items(graph))
}

/// The assumed inventory holds what one starts with, and is settled.
pub proof fn lemma_assumed_settled(
    graph: &WorldGraph,
    slots: Seq<Option<FillerItem>>,
    base: Set<FillerItem>,
    logic: Logic,
)
    ensures
        base.subset_of(assumed(graph, slots, base, logic)),
        settled(graph, slots, assumed(graph, slots, base, logic), logic),
{
    let goal = assumed(graph, slots, base, logic);
    assert forall|c: int|
        0 <= c < slots.len() && #[trigger] graph.opens(c, goal, logic) && slots[c] is Some implies goal.contains(
        slots[c]->0,
    ) by {
        assert forall|held: Set<FillerItem>|
            base.subset_of(held) && #[trigger] settled(graph, slots, held, logic) implies held.contains(
            slots[c]->0,
        ) by {
            assert(goal.subset_of(held));
            graph.lemma_opens_monotone(c, goal, held, logic);
        }
    }
}

/// The inventory that holds the items of the list.
pub fn build_progress_from_items(items: &Vec<FillerItem>, settings: &Settings) -> (r: Progress)
    ensures
        r.wf(),
        r@ == items@.to_set(),
        r.logic() == settings.logic,
{
    let mut progress = Progress::new(settings.logic);
    let mut i: usize = 0;
    while i < items.len()
        invariant
            progress.wf(),
            progress.logic() == settings.logic,
            i <= items@.len(),
            progress@ == items@.subrange(0, i as int).to_set(),
        decreases items@.len() - i,
    {
        progress.add_item(items[i]);
        proof {
            let shorter = items@.subrange(0, i as int);
            let longer = items@.subrange(0, i + 1);
            assert(longer =~= shorter.push(items@[i as int]));
            assert forall|x: FillerItem| longer.to_set().contains(x) <==> shorter.to_set().insert(
                items@[i as int],
            ).contains(x) by {
                if shorter.contains(x) {
                    let k = choose|k: int| 0 <= k < shorter.len() && shorter[k] == x;
                    assert(longer[k] == x);
                }
                if x == items@[i as int] {
                    assert(longer[i as int] == x);
                }
            }
            assert(longer.to_set() =~= shorter.to_set().insert(items@[i as int]));
        }
        i += 1;
    }
    proof {
        assert(items@.subrange(0, items@.len() as int) =~= items@);
    }
    progress
}

/// The inventory of what the listed checks hand out: the items bound to
/// them, and the items that the world fixes at them.
pub fn get_items_from_reachable_checks(
    graph: &WorldGraph,
    reachable_checks: &Vec<usize>,
    check_map: &CheckMap,
    settings: &Settings,
) -> (r: Progress)
    requires
        check_map@.len() == graph.checks@.len(),
        forall|i: int| 0 <= i < reachable_checks@.len() ==> (#[trigger] reachable_checks@[i]) < graph.checks@.len(),
    ensures
        r.wf(),
        r.logic() == settings.logic,
        forall|item: FillerItem|
            r@.contains(item) <==> exists|i: int|
                0 <= i < reachable_checks@.len() && gives(
                    graph,
                    check_map@,
                    (#[trigger] reachable_checks@[i]) as int,
                    item,
                ),
{
    let mut progress = Progress::new(settings.logic);
    let mut k: usize = 0;
    while k < reachable_checks.len()
        invariant
            progress.wf(),
            progress.logic() == settings.logic,
            check_map@.len() == graph.checks@.len(),
            forall|i: int|
                0 <= i < reachable_checks@.len() ==> (#[trigger] reachable_checks@[i]) < graph.checks@.len(),
            k <= reachable_checks@.len(),
            forall|item: FillerItem|
                progress@.contains(item) <==> exists|i: int|
                    0 <= i < k && gives(graph, check_map@, (#[trigger] reachable_checks@[i]) as int, item),
        decreases reachable_checks@.len() - k,
    {
        let check = reachable_checks[k];
        let ghost before = progress@;
        let placed_item = check_map.get(check);
        match placed_item {
            None => {},
            Some(item) => {
                progress.add_item(item);
            },
        }
        let ghost between = progress@;
        match graph.checks[check].get_quest() {
            None => {},
            Some(quest) => {
                progress.add_item(quest);
            },
        }
        proof {
            assert forall|item: FillerItem|
                progress@.contains(item) <==> exists|i: int|
                    0 <= i < k + 1 && gives(graph, check_map@, (#[trigger] reachable_checks@[i]) as int, item) by {
                if progress@.contains(item) {
                    if before.contains(item) {
                        let i = choose|i: int|
                            0 <= i < k && gives(graph, check_map@, (#[trigger] reachable_checks@[i]) as int, item);
                        assert(gives(graph, check_map@, reachable_checks@[i] as int, item));
                    } else {
                        assert(gives(graph, check_map@, reachable_checks@[k as int] as int, item));
                    }
                }
                if exists|i: int|
                    0 <= i < k + 1 && gives(graph, check_map@, (#[trigger] reachable_checks@[i]) as int, item) {
                    let i = choose|i: int|
                        0 <= i < k + 1 && gives(graph, check_map@, (#[trigger] reachable_checks@[i]) as int, item);
                    if i < k {
                        assert(before.contains(item));
                    }
                }
            }
        }
        k += 1;
    }
    progress
}

/// The checks that can be taken while the items of `items_owned` are still
/// to be placed: the search starts with those items and the items that the
/// world fixes at its checks, takes what the check map binds to the checks
/// it reaches, and goes on until that brings nothing new.
pub fn assumed_search(
    graph: &WorldGraph,
    items_owned: &Vec<FillerItem>,
    check_map: &CheckMap,
    settings: &Settings,
) -> (r: Vec<usize>)
    requires
        graph.wf(),
        check_map@.len() == graph.checks@.len(),
    ensures
        lists_open(
            graph,
            r@,
            assumed(graph, check_map@, assumed_base(graph, items_owned@), settings.logic),
            settings.logic,
        ),
        r@ == searched(
            graph,
            assumed(graph, check_map@, assumed_base(graph, items_owned@), settings.logic),
            settings.logic,
        ),
{
    let ghost logic = settings.logic;
    let ghost base = assumed_base(graph, items_owned@);
    let ghost goal = assumed(graph, check_map@, base, logic);
    let mut considered_items = build_progress_from_items(items_owned, settings);
    let mut c: usize = 0;
    while c < graph.checks.len()
        invariant
            considered_items.wf(),
            considered_items.logic() == logic,
            c <= graph.checks@.len(),
            items_owned@.to_set().subset_of(considered_items@),
            considered_items@.subset_of(base),
            forall|b: int|
                0 <= b < c && (#[trigger] graph.checks@[b]).quest is Some ==> considered_items@.contains(
                    graph.checks@[b].quest->0,
                ),
            base == assumed_base(graph, items_owned@),
        decreases graph.checks@.len() - c,
    {
        match graph.checks[c].get_quest() {
            None => {},
            Some(quest) => {
                considered_items.add_item(quest);
            },
        }
        c += 1;
    }
    assert(considered_items@ =~= base);
    proof {
        lemma_assumed_settled(graph, check_map@, base, logic);
    }
    let mut reachable_checks: Vec<usize> = Vec::new();
    loop
        invariant_except_break
            graph.wf(),
            check_map@.len() == graph.checks@.len(),
            considered_items.wf(),
            considered_items.logic() == logic,
            logic == settings.logic,
            base.subset_of(considered_items@),
            considered_items@.subset_of(goal),
            base == assumed_base(graph, items_owned@),
            goal == assumed(graph, check_map@, base, logic),
            settled(graph, check_map@, goal, logic),
        ensures
            lists_open(graph, reachable_checks@, goal, logic),
            reachable_checks@ == searched(graph, goal, logic),
        decreases ITEM_COUNT - considered_items.size(),
    {
        reachable_checks = find_reachable_checks(graph, &considered_items);
        let reachable_items = get_items_from_reachable_checks(
            graph,
            &reachable_checks,
            check_map,
            settings,
        );
        let new_items = reachable_items.difference(&considered_items);
        let ghost before = considered_items@;
        let ghost size = considered_items.size();
        proof {
            considered_items.lemma_size_bound();
            assert forall|k: int| 0 <= k < new_items@.len() implies goal.contains(#[trigger] new_items@[k]) by {
                let item = new_items@[k];
                assert(new_items@.contains(item));
                let i = choose|i: int|
                    0 <= i < reachable_checks@.len() && gives(
                        graph,
                        check_map@,
                        (#[trigger] reachable_checks@[i]) as int,
                        item,
                    );
                let check = reachable_checks@[i] as int;
                if check_map@[check] == Some(item) {
                    graph.lemma_opens_monotone(check, before, goal, logic);
                } else {
                    assert(graph.checks@[check].quest == Some(item));
                    assert(quest_items(graph).contains(item));
                    assert(base.contains(item));
                }
            }
        }
        if new_items.len() == 0 {
            proof {
                assert forall|c: int|
                    0 <= c < check_map@.len() && #[trigger] graph.opens(c, before, logic)
                        && check_map@[c] is Some implies before.contains(check_map@[c]->0) by {
                    let item = check_map@[c]->0;
                    assert(graph.checks@.len() == graph.checks.len());
                    assert(graph.opens((c as usize) as int, before, logic));
                    assert(reachable_checks@.contains(c as usize));
                    let i = choose|i: int| 0 <= i < reachable_checks@.len() && reachable_checks@[i] == c as usize;
                    assert(gives(graph, check_map@, reachable_checks@[i] as int, item));
                    assert(reachable_items@.contains(item));
                    if !before.contains(item) {
                        assert(new_items@.contains(item));
                    }
                }
                assert(settled(graph, check_map@, before, logic));
                assert(goal =~= before);
            }
            break ;
        }
        let mut i: usize = 0;
        while i < new_items.len()
            invariant
                considered_items.wf(),
                considered_items.logic() == logic,
                before.subset_of(considered_items@),
                considered_items@.subset_of(goal),
                i <= new_items@.len(),
                forall|k: int| 0 <= k < new_items@.len() ==> goal.contains(#[trigger] new_items@[k]),
                new_items@.len() > 0,
                !before.contains(new_items@[0]),
                i == 0 ==> considered_items@ == before && considered_items.size() == size,
                i > 0 ==> considered_items.size() > size,
            decreases new_items@.len() - i,
        {
            considered_items.add_item(new_items[i]);
            i += 1;
        }
        proof {
            considered_items.lemma_size_bound();
        }
    }
    reachable_checks
}

} // verus!
