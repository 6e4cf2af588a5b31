//! What holds of saving and loading taken together.

use crate::codec::{decoded, encoded, lemma_decode_inverts_encode};
use crate::error::ErrorView;
use crate::hierarchy::{is_default_name, resolved, tracked_parent};
use crate::paths::{
    allocation, candidate_text, lemma_allocation_cases, lemma_first_vacant, path_text, probed,
    Probe, PROBE_LIMIT,
};
use crate::persistence::{planned_load, planned_save, ReadOutcomeView, SavePlanView};
use crate::scene::{
    request_of, ObjectView, RecordView, SceneObjectKind, SpawnRequestView, Transform,
};
use vstd::prelude::*;

verus! {

/// What is saved of an object whatever its parent is: kind, transform (the
/// identity where it has none) and name.
pub open spec fn object_payload(object: ObjectView) -> (
    SceneObjectKind,
    Transform,
    Option<Seq<char>>,
) {
    (
        object.kind,
        match object.transform {
            Some(t) => t,
            None => Transform::identity_spec(),
        },
        Some(object.name),
    )
}

/// Kind, transform and name of a spawn request.
pub open spec fn request_payload(request: SpawnRequestView) -> (
    SceneObjectKind,
    Transform,
    Option<Seq<char>>,
) {
    (request.kind, request.transform, request.name)
}

/// The spawn mechanism may make request `parent` the parent of request
/// `child`: the child asks for a parent by the name that `parent` has.
pub open spec fn may_bind(requests: Seq<SpawnRequestView>, child: int, parent: int) -> bool {
    &&& 0 <= child < requests.len()
    &&& 0 <= parent < requests.len()
    &&& requests[child].parent is Some
    &&& requests[parent].name == requests[child].parent
}

/// No two objects have the same name.
pub open spec fn distinct_names(objects: Seq<ObjectView>) -> bool {
    forall|i: int, j: int|
        0 <= i < objects.len() && 0 <= j < objects.len() && (#[trigger] objects[i]).name == (
        #[trigger] objects[j]).name ==> i == j
}

/// The rank of every object is above the rank of its tracked parent.
pub open spec fn ranks_objects(objects: Seq<ObjectView>, rank: spec_fn(int) -> nat) -> bool {
    forall|i: int, p: int|
        0 <= i < objects.len() && tracked_parent(objects, i) == Some(p) ==> #[trigger] rank(p)
            < #[trigger] rank(i)
}

/// The parents of the tracked objects form no cycle: the objects can be
/// ranked so that each stands above its tracked parent.
pub open spec fn is_forest(objects: Seq<ObjectView>) -> bool {
    exists|rank: spec_fn(int) -> nat| #[trigger] ranks_objects(objects, rank)
}

/// The rank of every request is above the rank of each request that may be
/// made its parent.
pub open spec fn ranks_requests(
    requests: Seq<SpawnRequestView>,
    rank: spec_fn(int) -> nat,
) -> bool {
    forall|child: int, parent: int|
        may_bind(requests, child, parent) ==> #[trigger] rank(parent) < #[trigger] rank(child)
}

/// Whatever parents the spawn mechanism binds, they form no cycle.
pub open spec fn binds_forest(requests: Seq<SpawnRequestView>) -> bool {
    exists|rank: spec_fn(int) -> nat| #[trigger] ranks_requests(requests, rank)
}

/// The requests that the records of a scene turn into.
pub open spec fn respawned(objects: Seq<ObjectView>) -> Seq<SpawnRequestView> {
    resolved(objects).map_values(|r: RecordView| request_of(r))
}

/// The requests of a scene carry kind, transform and name of its objects:
/// one request for each object, in the same order, and so the same
/// multiset.
pub proof fn lemma_objects_are_kept(objects: Seq<ObjectView>)
    ensures
        respawned(objects).len() == objects.len(),
        forall|i: int|
            0 <= i < objects.len() ==> request_payload(#[trigger] respawned(objects)[i])
                == object_payload(objects[i]),
        respawned(objects).map_values(|r: SpawnRequestView| request_payload(r)).to_multiset()
            == objects.map_values(|o: ObjectView| object_payload(o)).to_multiset(),
{
    assert(respawned(objects).map_values(|r: SpawnRequestView| request_payload(r))
        =~= objects.map_values(|o: ObjectView| object_payload(o)));
}

/// The requests of a scene ask for the parents that the objects have. An
/// object whose tracked parent has a name of its own asks for that name, and
/// the parent's request answers to it; any other object asks for no parent.
/// A request that answers to the name asked for has the name of the object's
/// parent; where no two objects share a name, it is the parent's request.
pub proof fn lemma_parents_are_kept(objects: Seq<ObjectView>)
    ensures
        forall|child: int, parent: int|
            0 <= child < objects.len() && tracked_parent(objects, child) == Some(parent)
                && !is_default_name(objects[parent]) ==> #[trigger] may_bind(
                respawned(objects),
                child,
                parent,
            ),
        forall|child: int|
            0 <= child < objects.len() ==> ((#[trigger] respawned(objects)[child]).parent is None
                <==> (tracked_parent(objects, child) matches Some(p) ==> is_default_name(
                objects[p],
            ))),
        forall|child: int, other: int| #[trigger]
            may_bind(respawned(objects), child, other) ==> (tracked_parent(objects, child)
                matches Some(p) && objects[other].name == objects[p].name),
        distinct_names(objects) ==> forall|child: int, other: int| #[trigger]
            may_bind(respawned(objects), child, other) ==> tracked_parent(objects, child) == Some(
                other,
            ),
{
}

/// Where the objects form a forest and no two share a name, the parents
/// that the requests ask for form a forest too.
pub proof fn lemma_forest_is_kept(objects: Seq<ObjectView>)
    requires
        is_forest(objects),
        distinct_names(objects),
    ensures
        binds_forest(respawned(objects)),
{
    let rank = choose|rank: spec_fn(int) -> nat| #[trigger] ranks_objects(objects, rank);
    lemma_parents_are_kept(objects);
    assert(ranks_requests(respawned(objects), rank));
}

/// The round trip. Whatever text the encoding of a scene's records gives,
/// decoding it gives one request for each object, in the order of the
/// scene, so that:
/// - the requests carry the kinds, transforms and names of the objects, as
///   the same multiset;
/// - a request asks for a parent exactly where the object has a tracked
///   parent whose name is not the default one, and then by that parent's
///   name, which the parent's own request bears;
/// - where no two objects share a name, only the parent's request bears that
///   name, and if the objects form a forest, so do the requests with the
///   parents they ask for.
pub proof fn lemma_round_trip(objects: Seq<ObjectView>, text: Seq<char>)
    ensures
        encoded(resolved(objects)) == Some(text) ==> {
            &&& decoded(text) matches Some(requests)
            &&& requests == respawned(objects)
            &&& requests.len() == objects.len()
            &&& requests.map_values(|r: SpawnRequestView| request_payload(r)).to_multiset()
                == objects.map_values(|o: ObjectView| object_payload(o)).to_multiset()
            &&& forall|child: int, parent: int|
                0 <= child < objects.len() && tracked_parent(objects, child) == Some(parent)
                    && !is_default_name(objects[parent]) ==> #[trigger] may_bind(
                    requests,
                    child,
                    parent,
                )
            &&& forall|child: int|
                0 <= child < objects.len() ==> ((#[trigger] requests[child]).parent is None <==> (
                tracked_parent(objects, child) matches Some(p) ==> is_default_name(objects[p])))
            &&& distinct_names(objects) ==> forall|child: int, other: int| #[trigger]
                may_bind(requests, child, other) ==> tracked_parent(objects, child) == Some(other)
            &&& distinct_names(objects) && is_forest(objects) ==> binds_forest(requests)
        },
{
    lemma_decode_inverts_encode(resolved(objects), text);
    lemma_objects_are_kept(objects);
    lemma_parents_are_kept(objects);
    if distinct_names(objects) && is_forest(objects) {
        lemma_forest_is_kept(objects);
    }
}

/// What a save writes, a load of it spawns: the requests of the scene that
/// was saved, after every object tracked at the time of the load has been
/// removed.
pub proof fn lemma_save_then_load(
    objects: Seq<ObjectView>,
    save_name: Seq<char>,
    probes: Seq<Probe>,
    live: Seq<u64>,
    load_name: Seq<char>,
)
    ensures
        planned_save(save_name, objects, probes) matches SavePlanView::Write { contents, .. } ==> {
            let plan = planned_load(load_name, live, ReadOutcomeView::Contents { text: contents });
            &&& plan.spawn == respawned(objects)
            &&& plan.despawn == live
            &&& !plan.report.is_failure()
        },
{
    match planned_save(save_name, objects, probes) {
        SavePlanView::Write { contents, .. } => {
            lemma_round_trip(objects, contents);
        },
        _ => {},
    }
}

/// The probes are those of a directory that holds exactly the files in
/// `existing`, every candidate being testable.
pub open spec fn probes_show(base: Seq<char>, probes: Seq<Probe>, existing: Set<Seq<char>>) -> bool {
    &&& probes.len() >= PROBE_LIMIT
    &&& forall|i: int|
        0 <= i < PROBE_LIMIT ==> #[trigger] probes[i] == (if existing.contains(
            path_text(candidate_text(base, i as nat)),
        ) {
            Probe::Occupied
        } else {
            Probe::Vacant
        })
}

/// The last candidate. Where the files of `base` and of `base-1` to `base-8`
/// exist, a save is given the file of `base-9` if that does not exist, and
/// fails for too many collisions if it does.
pub proof fn lemma_last_candidate(base: Seq<char>, probes: Seq<Probe>, existing: Set<Seq<char>>)
    requires
        probes_show(base, probes, existing),
        forall|i: int|
            0 <= i < 9 ==> existing.contains(#[trigger] path_text(candidate_text(base, i as nat))),
    ensures
        candidate_text(base, 9) == base + seq!['-', '9'],
        !existing.contains(path_text(candidate_text(base, 9))) ==> allocation(base, probes) == Ok::<
            Seq<char>,
            ErrorView,
        >(path_text(candidate_text(base, 9))),
        existing.contains(path_text(candidate_text(base, 9))) ==> allocation(base, probes) == Err::<
            Seq<char>,
            ErrorView,
        >(ErrorView::TooManyCollisions),
{
    if !existing.contains(path_text(candidate_text(base, 9))) {
        assert(probes[9] is Vacant);
        lemma_first_vacant(probes, 9);
    }
    lemma_allocation_cases(base, probes);
}

/// The probes tell the truth about the files in `existing`: a candidate that
/// was found vacant is not among them.
pub open spec fn vacant_means_absent(
    base: Seq<char>,
    probes: Seq<Probe>,
    existing: Set<Seq<char>>,
) -> bool {
    forall|i: int|
        0 <= i < probed(probes) && (#[trigger] probes[i]) is Vacant ==> !existing.contains(
            path_text(candidate_text(base, i as nat)),
        )
}

/// A save never writes to a file that existed when its probes were made.
pub proof fn lemma_save_overwrites_nothing(
    name: Seq<char>,
    objects: Seq<ObjectView>,
    probes: Seq<Probe>,
    existing: Set<Seq<char>>,
)
    requires
        vacant_means_absent(name, probes, existing),
    ensures
        planned_save(name, objects, probes) matches SavePlanView::Write { path, .. }
            ==> !existing.contains(path),
{
}

/// A load that fails leaves the live scene alone: it removes no object and
/// spawns none. A load fails exactly where the file was not read or its
/// text is not a list of records. A load that succeeds removes every
/// tracked object.
pub proof fn lemma_failed_load_changes_nothing(
    name: Seq<char>,
    live: Seq<u64>,
    outcome: ReadOutcomeView,
)
    ensures
        planned_load(name, live, outcome).report.is_failure() <==> !(outcome
            matches ReadOutcomeView::Contents { text } && decoded(text) is Some),
        planned_load(name, live, outcome).report.is_failure() ==> {
            &&& planned_load(name, live, outcome).despawn.len() == 0
            &&& planned_load(name, live, outcome).spawn.len() == 0
        },
        !planned_load(name, live, outcome).report.is_failure() ==> planned_load(
            name,
            live,
            outcome,
        ).despawn == live,
{
}

} // verus!
