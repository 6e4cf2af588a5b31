//! The live scene as the persistence layer sees it: the tracked objects in
//! the order in which they were listed, and an index from identifier to
//! position.

use crate::scene::{ObjectView, TrackedObject};
use std::collections::HashMap;
use vstd::prelude::*;

verus! {

broadcast use vstd::std_specs::hash::group_hash_axioms;

/// No two objects have the same identifier.
pub open spec fn distinct_ids(objects: Seq<ObjectView>) -> bool {
    forall|i: int, j: int|
        0 <= i < objects.len() && 0 <= j < objects.len() && (#[trigger] objects[i]).id == (
        #[trigger] objects[j]).id ==> i == j
}

/// An object with this identifier is among the objects.
pub open spec fn is_tracked(objects: Seq<ObjectView>, id: u64) -> bool {
    exists|j: int| 0 <= j < objects.len() && (#[trigger] objects[j]).id == id
}

/// Where the object with this identifier stands, if it is tracked.
pub open spec fn position_of(objects: Seq<ObjectView>, id: u64) -> Option<int> {
    if is_tracked(objects, id) {
        Some(choose|j: int| 0 <= j < objects.len() && (#[trigger] objects[j]).id == id)
    } else {
        None
    }
}

/// With distinct identifiers, an object stands where `position_of` says.
pub proof fn lemma_position_of(objects: Seq<ObjectView>, j: int)
    requires
        distinct_ids(objects),
        0 <= j < objects.len(),
    ensures
        position_of(objects, objects[j].id) == Some(j),
{
}

/// A snapshot of the tracked objects of the live scene. Parents are referred
/// to by identifier and looked up, never owned. No identifier occurs twice.
pub struct LiveScene {
    objects: Vec<TrackedObject>,
    index: HashMap<u64, usize>,
}

impl View for LiveScene {
    type V = Seq<ObjectView>;

    closed spec fn view(&self) -> Seq<ObjectView> {
        self.objects.deep_view()
    }
}

impl LiveScene {
    /// The index knows exactly the objects, each at its position.
    #[verifier::type_invariant]
    closed spec fn indexed(&self) -> bool {
        &&& forall|i: int|
            0 <= i < self.objects.len() ==> self.index@.contains_key(
                (#[trigger] self.objects[i]).id,
            ) && self.index@[self.objects[i].id] == i
        &&& forall|id: u64| #[trigger]
            self.index@.contains_key(id) ==> self.index@[id] < self.objects.len()
                && self.objects[self.index@[id] as int].id == id
    }

    /// A scene without objects.
    pub fn new() -> (scene: LiveScene)
        ensures
            scene@ == Seq::<ObjectView>::empty(),
    {
        LiveScene { objects: Vec::new(), index: HashMap::new() }
    }

    /// The number of tracked objects.
    pub fn len(&self) -> (n: usize)
        ensures
            n == self@.len(),
    {
        self.objects.len()
    }

    /// Adds an object at the end, unless one with the same identifier is
    /// tracked already: then the scene stays as it is. Says whether the
    /// object was added.
    pub fn track(&mut self, object: TrackedObject) -> (added: bool)
        ensures
            added == !is_tracked(old(self)@, object.id),
            added ==> final(self)@ == old(self)@.push(object@),
            !added ==> final(self)@ == old(self)@,
    {
        proof {
            use_type_invariant(&*self);
        }
        let id = object.id;
        if self.index.contains_key(&id) {
            proof {
                let j = self.index@[id] as int;
                assert(self@[j].id == id);
            }
            return false;
        }
        // The list and the index change together: the scene is taken apart
        // and put together again.
        let mut taken = LiveScene::new();
        std::mem::swap(self, &mut taken);
        proof {
            use_type_invariant(&taken);
        }
        let LiveScene { mut objects, mut index } = taken;
        let at = objects.len();
        assert(forall|j: int| 0 <= j < objects.len() ==> (#[trigger] objects[j]).id != id);
        index.insert(id, at);
        objects.push(object);
        *self = LiveScene { objects, index };
        true
    }

    /// The object at a position.
    pub fn object(&self, i: usize) -> (object: &TrackedObject)
        requires
            i < self@.len(),
        ensures
            object@ == self@[i as int],
    {
        &self.objects[i]
    }

    /// The position of the object with the given identifier, if it is
    /// tracked.
    pub fn position(&self, id: u64) -> (at: Option<usize>)
        ensures
            match at {
                Some(i) => position_of(self@, id) == Some(i as int),
                None => position_of(self@, id) is None,
            },
    {
        proof {
            use_type_invariant(self);
        }
        match self.index.get(&id) {
            Some(i) => {
                proof {
                    lemma_position_of(self@, *i as int);
                }
                Some(*i)
            },
            None => {
                assert(forall|j: int| 0 <= j < self@.len() ==> (#[trigger] self@[j]).id != id);
                None
            },
        }
    }

    /// The tracked object with the given identifier, if there is one.
    pub fn lookup(&self, id: u64) -> (found: Option<&TrackedObject>)
        ensures
            match found {
                Some(object) => position_of(self@, id) matches Some(i) && object@ == self@[i],
                None => position_of(self@, id) is None,
            },
    {
        match self.position(id) {
            Some(i) => Some(&self.objects[i]),
            None => None,
        }
    }

    /// The identifiers of all tracked objects, in the order of the scene. No
    /// identifier occurs twice.
    pub fn ids(&self) -> (ids: Vec<u64>)
        ensures
            ids@ == self@.map_values(|object: ObjectView| object.id),
            distinct_ids(self@),
            ids@.no_duplicates(),
    {
        proof {
            use_type_invariant(self);
        }
        let mut ids: Vec<u64> = Vec::new();
        let mut i: usize = 0;
        while i < self.objects.len()
            invariant
                i <= self.objects.len(),
                ids.len() == i,
                forall|k: int| 0 <= k < i ==> #[trigger] ids[k] == self.objects[k].id,
            decreases self.objects.len() - i,
        {
            ids.push(self.objects[i].id);
            i = i + 1;
        }
        ids
    }
}

} // verus!
