//! Records as text and text as spawn requests. The text is RON: a list with
//! one tuple for each record, which holds the kind, the transform, the name
//! and the parent's name. The transform is written as translation, rotation
//! and scale; where a text leaves it out (`None`), the identity is meant.

use crate::error::PersistenceError;
use crate::scene::{
    request_of, text_of, Quaternion, RecordView, SceneObjectKind, SceneObjectRecord, SpawnRequest,
    SpawnRequestView, Transform, Vector3,
};
use vstd::prelude::*;

verus! {

/// A transform in the shape in which it is written: translation, rotation,
/// scale.
pub type TransformRow = ((u32, u32, u32), (u32, u32, u32, u32), (u32, u32, u32));

/// One record in the shape in which it is written: kind, transform, name,
/// parent's name.
pub type Row = (u32, Option<TransformRow>, Option<String>, Option<String>);

/// A row as contracts see it.
pub type RowView = (u32, Option<TransformRow>, Option<Seq<char>>, Option<Seq<char>>);

/// The error that `ron::to_string` gives. Nothing is said of what it holds.
#[verifier::external_type_specification]
#[verifier::external_body]
pub struct ExRonError(ron::error::Error);

/// The error that `ron::from_str` gives. Nothing is said of what it holds.
#[verifier::external_type_specification]
#[verifier::external_body]
pub struct ExRonSpannedError(ron::error::SpannedError);

/// The text that `ron::to_string` gives for a list of rows, or `None` where
/// it gives an error.
pub uninterp spec fn ron_text(rows: Seq<RowView>) -> Option<Seq<char>>;

/// The rows that `ron::from_str` reads out of a text, or `None` where it
/// gives an error.
pub uninterp spec fn ron_rows(text: Seq<char>) -> Option<Seq<RowView>>;

/// Calls `ron::to_string` on the rows. Nothing is claimed of the text but
/// that it depends on the rows alone: it is `ron_text` of them.
#[verifier::external_body]
fn ron_write(rows: &Vec<Row>) -> (out: Result<String, ron::error::Error>)
    ensures
        match out {
            Ok(text) => ron_text(rows.deep_view()) == Some(text@),
            Err(_) => ron_text(rows.deep_view()) is None,
        },
{
    ron::to_string(rows)
}

/// Calls `ron::from_str` for a list of rows. Nothing is claimed of which
/// texts are read or what comes out but that it depends on the text alone:
/// it is `ron_rows` of the text.
#[verifier::external_body]
fn ron_read(text: &str) -> (out: Result<Vec<Row>, ron::error::SpannedError>)
    ensures
        match out {
            Ok(rows) => ron_rows(text@) == Some(rows.deep_view()),
            Err(_) => ron_rows(text@) is None,
        },
{
    ron::from_str(text)
}

/// A transform as it is written.
pub open spec fn transform_row(transform: Transform) -> TransformRow {
    (
        (transform.translation.x, transform.translation.y, transform.translation.z),
        (transform.rotation.x, transform.rotation.y, transform.rotation.z, transform.rotation.w),
        (transform.scale.x, transform.scale.y, transform.scale.z),
    )
}

/// The transform that was written.
pub open spec fn transform_of_row(row: TransformRow) -> Transform {
    Transform {
        translation: Vector3 { x: row.0.0, y: row.0.1, z: row.0.2 },
        rotation: Quaternion { x: row.1.0, y: row.1.1, z: row.1.2, w: row.1.3 },
        scale: Vector3 { x: row.2.0, y: row.2.1, z: row.2.2 },
    }
}

/// The row that is written for a record. The transform is always written
/// out.
pub open spec fn row_of(record: RecordView) -> RowView {
    (record.kind.0, Some(transform_row(record.transform)), record.name, record.parent_name)
}

/// The spawn request that a row stands for. A row without a transform stands
/// for the identity.
pub open spec fn request_of_row(row: RowView) -> SpawnRequestView {
    SpawnRequestView {
        kind: SceneObjectKind(row.0),
        transform: match row.1 {
            Some(t) => transform_of_row(t),
            None => Transform::identity_spec(),
        },
        name: row.2,
        parent: row.3,
    }
}

/// The rows of a list of records, in the same order.
pub open spec fn rows_of(records: Seq<RecordView>) -> Seq<RowView> {
    records.map_values(|record: RecordView| row_of(record))
}

/// The spawn requests of a list of rows, in the same order.
pub open spec fn requests_of(rows: Seq<RowView>) -> Seq<SpawnRequestView> {
    rows.map_values(|row: RowView| request_of_row(row))
}

/// The text of a list of records: what RON writes for their rows, provided
/// that RON reads the same rows out of it again.
pub open spec fn encoded(records: Seq<RecordView>) -> Option<Seq<char>> {
    match ron_text(rows_of(records)) {
        Some(text) => if ron_rows(text) == Some(rows_of(records)) {
            Some(text)
        } else {
            None
        },
        None => None,
    }
}

/// The spawn requests of a text: those of the rows that RON reads out of it.
pub open spec fn decoded(text: Seq<char>) -> Option<Seq<SpawnRequestView>> {
    match ron_rows(text) {
        Some(rows) => Some(requests_of(rows)),
        None => None,
    }
}

/// Turning records into rows and rows into requests gives the request of
/// each record.
pub proof fn lemma_rows_round_trip(records: Seq<RecordView>)
    ensures
        requests_of(rows_of(records)) == records.map_values(|r: RecordView| request_of(r)),
{
}

/// A text that encoding gives decodes to the requests of the records that
/// were encoded, one for each record and in the same order.
pub proof fn lemma_decode_inverts_encode(records: Seq<RecordView>, text: Seq<char>)
    ensures
        encoded(records) == Some(text) ==> decoded(text) == Some(
            records.map_values(|r: RecordView| request_of(r)),
        ),
{
    lemma_rows_round_trip(records);
}

/// The rows that are written for the records.
pub fn rows_from_records(records: &Vec<SceneObjectRecord>) -> (rows: Vec<Row>)
    ensures
        rows.deep_view() == rows_of(records.deep_view()),
{
    let mut rows: Vec<Row> = Vec::new();
    let mut i: usize = 0;
    while i < records.len()
        invariant
            i <= records.len(),
            rows.len() == i,
            forall|k: int| 0 <= k < i ==> (#[trigger] rows[k]).deep_view() == row_of(records[k]@),
        decreases records.len() - i,
    {
        let record = &records[i];
        let t = record.transform;
        let transform: TransformRow = (
            (t.translation.x, t.translation.y, t.translation.z),
            (t.rotation.x, t.rotation.y, t.rotation.z, t.rotation.w),
            (t.scale.x, t.scale.y, t.scale.z),
        );
        let row: Row = (
            record.kind.0,
            Some(transform),
            record.name.clone(),
            record.parent_name.clone(),
        );
        rows.push(row);
        i = i + 1;
    }
    rows
}

/// The spawn requests that the rows stand for.
pub fn requests_from_rows(rows: Vec<Row>) -> (requests: Vec<SpawnRequest>)
    ensures
        requests.deep_view() == requests_of(rows.deep_view()),
{
    let mut requests: Vec<SpawnRequest> = Vec::new();
    let mut i: usize = 0;
    while i < rows.len()
        invariant
            i <= rows.len(),
            requests.len() == i,
            forall|k: int|
                0 <= k < i ==> (#[trigger] requests[k])@ == request_of_row(rows[k].deep_view()),
        decreases rows.len() - i,
    {
        let row = &rows[i];
        let transform = match row.1 {
            Some(t) => Transform {
                translation: Vector3 { x: t.0.0, y: t.0.1, z: t.0.2 },
                rotation: Quaternion { x: t.1.0, y: t.1.1, z: t.1.2, w: t.1.3 },
                scale: Vector3 { x: t.2.0, y: t.2.1, z: t.2.2 },
            },
            None => Transform::identity(),
        };
        let request = SpawnRequest {
            kind: SceneObjectKind(row.0),
            transform,
            name: row.2.clone(),
            parent: row.3.clone(),
        };
        requests.push(request);
        i = i + 1;
    }
    requests
}

fn same_text(a: &Option<String>, b: &Option<String>) -> (same: bool)
    ensures
        same == (text_of(*a) == text_of(*b)),
{
    match a {
        Some(x) => match b {
            Some(y) => *x == *y,
            None => false,
        },
        None => b.is_none(),
    }
}

fn same_transform(a: &Option<TransformRow>, b: &Option<TransformRow>) -> (same: bool)
    ensures
        same == (*a == *b),
{
    match a {
        Some(x) => match b {
            Some(y) => x.0.0 == y.0.0 && x.0.1 == y.0.1 && x.0.2 == y.0.2 && x.1.0 == y.1.0
                && x.1.1 == y.1.1 && x.1.2 == y.1.2 && x.1.3 == y.1.3 && x.2.0 == y.2.0 && x.2.1
                == y.2.1 && x.2.2 == y.2.2,
            None => false,
        },
        None => b.is_none(),
    }
}

fn same_row(a: &Row, b: &Row) -> (same: bool)
    ensures
        same == (a.deep_view() == b.deep_view()),
{
    a.0 == b.0 && same_transform(&a.1, &b.1) && same_text(&a.2, &b.2) && same_text(&a.3, &b.3)
}

/// Whether two lists hold the same rows in the same order.
pub fn same_rows(a: &Vec<Row>, b: &Vec<Row>) -> (same: bool)
    ensures
        same == (a.deep_view() == b.deep_view()),
{
    if a.len() != b.len() {
        assert(a.deep_view().len() != b.deep_view().len());
        return false;
    }
    let mut i: usize = 0;
    while i < a.len()
        invariant
            i <= a.len(),
            a.len() == b.len(),
            forall|k: int| 0 <= k < i ==> (#[trigger] a[k]).deep_view() == b[k].deep_view(),
        decreases a.len() - i,
    {
        if !same_row(&a[i], &b[i]) {
            assert(a.deep_view()[i as int] != b.deep_view()[i as int]);
            return false;
        }
        i = i + 1;
    }
    assert(a.deep_view() =~= b.deep_view());
    true
}

/// Decides whether a text may be handed out as the encoding of the rows:
/// only if reading it back gave the same rows.
pub fn confirm_encoding(rows: &Vec<Row>, text: String, read_back: Option<Vec<Row>>) -> (out: Result<
    String,
    PersistenceError,
>)
    ensures
        match out {
            Ok(confirmed) => confirmed@ == text@ && read_back.deep_view() == Some(
                rows.deep_view(),
            ),
            Err(e) => e == PersistenceError::EncodingFailed && read_back.deep_view() != Some(
                rows.deep_view(),
            ),
        },
{
    match read_back {
        Some(back) => if same_rows(&back, rows) {
            Ok(text)
        } else {
            Err(PersistenceError::EncodingFailed)
        },
        None => Err(PersistenceError::EncodingFailed),
    }
}

/// Writes the records as text. The text is handed out only after it has
/// been read back and found to hold the same rows, so whatever comes out
/// decodes to the requests of the records that went in.
pub fn encode(records: &Vec<SceneObjectRecord>) -> (out: Result<String, PersistenceError>)
    ensures
        match out {
            Ok(text) => encoded(records.deep_view()) == Some(text@) && decoded(text@) == Some(
                records.deep_view().map_values(|r: RecordView| request_of(r)),
            ),
            Err(e) => e == PersistenceError::EncodingFailed && encoded(records.deep_view())
                is None,
        },
{
    let rows = rows_from_records(records);
    match ron_write(&rows) {
        Ok(text) => {
            let read_back = match ron_read(text.as_str()) {
                Ok(back) => Some(back),
                Err(_) => None,
            };
            proof {
                lemma_decode_inverts_encode(records.deep_view(), text@);
            }
            confirm_encoding(&rows, text, read_back)
        },
        Err(_) => Err(PersistenceError::EncodingFailed),
    }
}

/// Reads spawn requests out of a text, one for each record and in the order
/// of the text. A text that is not a list of records is refused as
/// malformed, whatever it holds.
pub fn decode(text: &str) -> (out: Result<Vec<SpawnRequest>, PersistenceError>)
    ensures
        match out {
            Ok(requests) => decoded(text@) == Some(requests.deep_view()),
            Err(e) => e == PersistenceError::MalformedData && decoded(text@) is None,
        },
{
    match ron_read(text) {
        Ok(rows) => Ok(requests_from_rows(rows)),
        Err(_) => Err(PersistenceError::MalformedData),
    }
}

} // verus!
