//! The data model: kinds, transforms, tracked objects, records and spawn
//! requests.

use vstd::prelude::*;

verus! {

/// The bit pattern of the single-precision number 1.
pub const ONE_BITS: u32 = 0x3F80_0000;

/// What to spawn. The spawn mechanism enumerates the kinds; here a kind is a
/// number that is carried through unchanged.
#[derive(Clone, Copy, Debug, PartialEq, Eq, Structural, Hash)]
pub struct SceneObjectKind(pub u32);

/// Three single-precision numbers, each held as its IEEE-754 bit pattern so
/// that it is stored and compared exactly.
#[derive(Clone, Copy, Debug, PartialEq, Eq, Structural)]
pub struct Vector3 {
    pub x: u32,
    pub y: u32,
    pub z: u32,
}

/// A rotation quaternion, each component held as its IEEE-754 bit pattern.
#[derive(Clone, Copy, Debug, PartialEq, Eq, Structural)]
pub struct Quaternion {
    pub x: u32,
    pub y: u32,
    pub z: u32,
    pub w: u32,
}

/// Position, rotation and scale of an object.
#[derive(Clone, Copy, Debug, PartialEq, Eq, Structural)]
pub struct Transform {
    pub translation: Vector3,
    pub rotation: Quaternion,
    pub scale: Vector3,
}

impl Transform {
    /// The transform that moves, turns and scales nothing.
    pub open spec fn identity_spec() -> Transform {
        Transform {
            translation: Vector3 { x: 0, y: 0, z: 0 },
            rotation: Quaternion { x: 0, y: 0, z: 0, w: ONE_BITS },
            scale: Vector3 { x: ONE_BITS, y: ONE_BITS, z: ONE_BITS },
        }
    }

    /// The identity transform: no translation, the unit rotation, scale one.
    #[verifier::when_used_as_spec(identity_spec)]
    pub fn identity() -> (t: Transform)
        ensures
            t == Transform::identity_spec(),
    {
        Transform {
            translation: Vector3 { x: 0, y: 0, z: 0 },
            rotation: Quaternion { x: 0, y: 0, z: 0, w: ONE_BITS },
            scale: Vector3 { x: ONE_BITS, y: ONE_BITS, z: ONE_BITS },
        }
    }
}

impl Default for Transform {
    fn default() -> (t: Transform)
        ensures
            t == Transform::identity_spec(),
    {
        Transform::identity()
    }
}

/// The view of an optional text.
pub open spec fn text_of(text: Option<String>) -> Option<Seq<char>> {
    match text {
        Some(t) => Some(t@),
        None => None,
    }
}

/// One object of the live scene that takes part in saving and loading.
#[derive(Clone, Debug, PartialEq, Eq)]
pub struct TrackedObject {
    /// The identifier by which the live scene knows the object.
    pub id: u64,
    /// The kind that the object was spawned as.
    pub kind: SceneObjectKind,
    /// The name that the spawn mechanism gives an object of this kind when
    /// nobody chooses one.
    pub default_name: String,
    /// The name that the object has now.
    pub name: String,
    /// The identifier of the parent, which need not be tracked itself.
    pub parent: Option<u64>,
    /// Where the object stands, if it has a transform at all.
    pub transform: Option<Transform>,
}

/// A tracked object as contracts see it.
pub struct ObjectView {
    pub id: u64,
    pub kind: SceneObjectKind,
    pub default_name: Seq<char>,
    pub name: Seq<char>,
    pub parent: Option<u64>,
    pub transform: Option<Transform>,
}

impl View for TrackedObject {
    type V = ObjectView;

    open spec fn view(&self) -> ObjectView {
        ObjectView {
            id: self.id,
            kind: self.kind,
            default_name: self.default_name@,
            name: self.name@,
            parent: self.parent,
            transform: self.transform,
        }
    }
}

impl DeepView for TrackedObject {
    type V = ObjectView;

    open spec fn deep_view(&self) -> ObjectView {
        self@
    }
}

/// What is written down of one object when a scene is saved.
#[derive(Clone, Debug, PartialEq, Eq)]
pub struct SceneObjectRecord {
    pub kind: SceneObjectKind,
    pub transform: Transform,
    /// The object's name when it was saved.
    pub name: Option<String>,
    /// The name of the parent, where the object has a tracked parent whose
    /// name is not the default name of the parent's kind.
    pub parent_name: Option<String>,
}

/// A record as contracts see it.
pub struct RecordView {
    pub kind: SceneObjectKind,
    pub transform: Transform,
    pub name: Option<Seq<char>>,
    pub parent_name: Option<Seq<char>>,
}

impl View for SceneObjectRecord {
    type V = RecordView;

    open spec fn view(&self) -> RecordView {
        RecordView {
            kind: self.kind,
            transform: self.transform,
            name: text_of(self.name),
            parent_name: text_of(self.parent_name),
        }
    }
}

impl DeepView for SceneObjectRecord {
    type V = RecordView;

    open spec fn deep_view(&self) -> RecordView {
        self@
    }
}

/// An instruction to create one object. The spawn mechanism finds the parent
/// by its name when it carries the instruction out.
#[derive(Clone, Debug, PartialEq, Eq)]
pub struct SpawnRequest {
    pub kind: SceneObjectKind,
    pub transform: Transform,
    pub name: Option<String>,
    pub parent: Option<String>,
}

/// A spawn request as contracts see it.
pub struct SpawnRequestView {
    pub kind: SceneObjectKind,
    pub transform: Transform,
    pub name: Option<Seq<char>>,
    pub parent: Option<Seq<char>>,
}

impl View for SpawnRequest {
    type V = SpawnRequestView;

    open spec fn view(&self) -> SpawnRequestView {
        SpawnRequestView {
            kind: self.kind,
            transform: self.transform,
            name: text_of(self.name),
            parent: text_of(self.parent),
        }
    }
}

impl DeepView for SpawnRequest {
    type V = SpawnRequestView;

    open spec fn deep_view(&self) -> SpawnRequestView {
        self@
    }
}

/// The request that a record turns into when it is loaded again.
pub open spec fn request_of(record: RecordView) -> SpawnRequestView {
    SpawnRequestView {
        kind: record.kind,
        transform: record.transform,
        name: record.name,
        parent: record.parent_name,
    }
}

/// A request to save the live scene under a name.
#[derive(Clone, Debug, PartialEq, Eq, Default)]
pub struct SaveRequest {
    pub filename: String,
}

/// A request to replace the live scene by the one saved under a name.
#[derive(Clone, Debug, PartialEq, Eq, Default)]
pub struct LoadRequest {
    pub filename: String,
}

} // verus!
