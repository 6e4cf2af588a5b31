//! From the live scene to the records that are saved: each object with the
//! name of its parent, where it has a tracked parent whose name means
//! something.

use crate::live_scene::{position_of, LiveScene};
use crate::scene::{
    text_of, ObjectView, RecordView, SceneObjectRecord, TrackedObject, Transform,
};
use vstd::prelude::*;

verus! {

/// The object still has the name that its kind gives by default. Such a name
/// is no handle to find the object by.
pub open spec fn is_default_name(object: ObjectView) -> bool {
    object.name == object.default_name
}

/// The position of the parent of object `i`, where the parent is tracked. A
/// parent that is not tracked counts as none.
pub open spec fn tracked_parent(objects: Seq<ObjectView>, i: int) -> Option<int> {
    match objects[i].parent {
        Some(id) => position_of(objects, id),
        None => None,
    }
}

/// The parent's name as it is recorded for object `i`: present only where
/// the parent is tracked and its name is not the default one.
pub open spec fn parent_name_of(objects: Seq<ObjectView>, i: int) -> Option<Seq<char>> {
    match tracked_parent(objects, i) {
        Some(p) => if is_default_name(objects[p]) {
            None
        } else {
            Some(objects[p].name)
        },
        None => None,
    }
}

/// The record of object `i`.
pub open spec fn record_of(objects: Seq<ObjectView>, i: int) -> RecordView {
    RecordView {
        kind: objects[i].kind,
        transform: match objects[i].transform {
            Some(t) => t,
            None => Transform::identity_spec(),
        },
        name: Some(objects[i].name),
        parent_name: parent_name_of(objects, i),
    }
}

/// The records of a scene: one for each object, in the order of the scene.
pub open spec fn resolved(objects: Seq<ObjectView>) -> Seq<RecordView> {
    Seq::new(objects.len(), |i: int| record_of(objects, i))
}

/// Whether the object still has the default name of its kind.
pub fn has_default_name(object: &TrackedObject) -> (default: bool)
    ensures
        default == is_default_name(object@),
{
    object.name == object.default_name
}

/// The name under which object `i` records its parent, found through the
/// scene's index.
fn parent_name(scene: &LiveScene, i: usize) -> (name: Option<String>)
    requires
        i < scene@.len(),
    ensures
        text_of(name) == parent_name_of(scene@, i as int),
{
    match scene.object(i).parent {
        Some(id) => match scene.lookup(id) {
            Some(parent) => if has_default_name(parent) {
                None
            } else {
                Some(parent.name.clone())
            },
            None => None,
        },
        None => None,
    }
}

/// Writes down every tracked object of the scene, in one pass. An object
/// without a transform is recorded with the identity transform. The parent
/// is recorded by name, and only where it is tracked itself and its name
/// differs from the default name of its kind.
pub fn resolve(scene: &LiveScene) -> (records: Vec<SceneObjectRecord>)
    ensures
        records.deep_view() == resolved(scene@),
{
    let mut records: Vec<SceneObjectRecord> = Vec::new();
    let n = scene.len();
    let mut i: usize = 0;
    while i < n
        invariant
            n == scene@.len(),
            i <= n,
            records.len() == i,
            forall|k: int| 0 <= k < i ==> (#[trigger] records[k])@ == record_of(scene@, k),
        decreases n - i,
    {
        let object = scene.object(i);
        let transform = match object.transform {
            Some(t) => t,
            None => Transform::identity(),
        };
        let record = SceneObjectRecord {
            kind: object.kind,
            transform,
            name: Some(object.name.clone()),
            parent_name: parent_name(scene, i),
        };
        records.push(record);
        i = i + 1;
    }
    records
}

} // verus!
