use scene_persistence::codec::{
    confirm_encoding, decode, encode, requests_from_rows, rows_from_records, same_rows, Row,
};
use scene_persistence::error::PersistenceError;
use scene_persistence::scene::{
    Quaternion, SceneObjectKind, SceneObjectRecord, SpawnRequest, Transform, Vector3,
};

fn record(kind: u32, transform: Transform, name: Option<&str>, parent: Option<&str>) -> SceneObjectRecord {
    SceneObjectRecord {
        kind: SceneObjectKind(kind),
        transform,
        name: name.map(str::to_string),
        parent_name: parent.map(str::to_string),
    }
}

fn request(kind: u32, transform: Transform, name: Option<&str>, parent: Option<&str>) -> SpawnRequest {
    SpawnRequest {
        kind: SceneObjectKind(kind),
        transform,
        name: name.map(str::to_string),
        parent: parent.map(str::to_string),
    }
}

fn as_request(record: &SceneObjectRecord) -> SpawnRequest {
    SpawnRequest {
        kind: record.kind,
        transform: record.transform,
        name: record.name.clone(),
        parent: record.parent_name.clone(),
    }
}

fn numbered() -> Transform {
    Transform {
        translation: Vector3 { x: 1, y: 2, z: 3 },
        rotation: Quaternion { x: 4, y: 5, z: 6, w: 7 },
        scale: Vector3 { x: 8, y: 9, z: 10 },
    }
}

#[test]
fn rows_hold_the_fields_in_order() {
    let rows = rows_from_records(&vec![record(11, numbered(), Some("n"), Some("p"))]);
    let expected: Vec<Row> = vec![(
        11,
        Some(((1, 2, 3), (4, 5, 6, 7), (8, 9, 10))),
        Some("n".to_string()),
        Some("p".to_string()),
    )];
    assert_eq!(rows, expected);
}

#[test]
fn rows_always_write_the_transform_out() {
    let rows = rows_from_records(&vec![record(1, Transform::identity(), None, None)]);
    let one = 1.0f32.to_bits();
    let expected: Vec<Row> = vec![(1, Some(((0, 0, 0), (0, 0, 0, one), (one, one, one))), None, None)];
    assert_eq!(rows, expected);
}

#[test]
fn requests_take_the_fields_of_their_rows() {
    let rows: Vec<Row> = vec![
        (11, Some(((1, 2, 3), (4, 5, 6, 7), (8, 9, 10))), None, Some("p".to_string())),
        (12, Some(((0, 0, 0), (0, 0, 0, 0), (0, 0, 0))), Some("n".to_string()), None),
    ];
    let requests = requests_from_rows(rows);
    let zero = Transform {
        translation: Vector3 { x: 0, y: 0, z: 0 },
        rotation: Quaternion { x: 0, y: 0, z: 0, w: 0 },
        scale: Vector3 { x: 0, y: 0, z: 0 },
    };
    assert_eq!(
        requests,
        vec![request(11, numbered(), None, Some("p")), request(12, zero, Some("n"), None)]
    );
}

#[test]
fn row_without_transform_stands_for_the_identity() {
    let rows: Vec<Row> = vec![(5, None, Some("n".to_string()), None)];
    assert_eq!(requests_from_rows(rows), vec![request(5, Transform::identity(), Some("n"), None)]);
}

#[test]
fn same_rows_compares_every_field() {
    let base: Row = (1, Some(((1, 2, 3), (4, 5, 6, 7), (8, 9, 10))), Some("a".to_string()), None);
    assert!(same_rows(&vec![base.clone()], &vec![base.clone()]));
    assert!(same_rows(&Vec::new(), &Vec::new()));
    assert!(!same_rows(&vec![base.clone()], &Vec::new()));
    assert!(!same_rows(&vec![base.clone()], &vec![base.clone(), base.clone()]));
    let mut other = base.clone();
    other.0 = 2;
    assert!(!same_rows(&vec![base.clone()], &vec![other]));
    for place in 0..10 {
        let mut numbers = [1u32, 2, 3, 4, 5, 6, 7, 8, 9, 10];
        numbers[place] = 0;
        let n = numbers;
        let mut other = base.clone();
        other.1 = Some(((n[0], n[1], n[2]), (n[3], n[4], n[5], n[6]), (n[7], n[8], n[9])));
        assert!(!same_rows(&vec![base.clone()], &vec![other]), "place {}", place);
    }
    let mut other = base.clone();
    other.1 = None;
    assert!(!same_rows(&vec![base.clone()], &vec![other.clone()]));
    assert!(same_rows(&vec![other.clone()], &vec![other]));
    let mut other = base.clone();
    other.2 = Some("b".to_string());
    assert!(!same_rows(&vec![base.clone()], &vec![other]));
    let mut other = base.clone();
    other.2 = None;
    assert!(!same_rows(&vec![base.clone()], &vec![other]));
    let mut other = base.clone();
    other.3 = Some(String::new());
    assert!(!same_rows(&vec![base.clone()], &vec![other]));
    let first: Row = (1, None, None, None);
    let second: Row = (2, None, None, None);
    assert!(!same_rows(&vec![first.clone(), second.clone()], &vec![second, first]));
}

#[test]
fn encoding_is_confirmed_only_by_the_same_rows() {
    let rows: Vec<Row> = vec![(1, None, None, None)];
    let other: Vec<Row> = vec![(2, None, None, None)];
    assert_eq!(confirm_encoding(&rows, "text".to_string(), Some(rows.clone())), Ok("text".to_string()));
    assert_eq!(
        confirm_encoding(&rows, "text".to_string(), Some(other)),
        Err(PersistenceError::EncodingFailed)
    );
    assert_eq!(
        confirm_encoding(&rows, "text".to_string(), None),
        Err(PersistenceError::EncodingFailed)
    );
}

#[test]
fn empty_list_is_written_as_empty_brackets() {
    assert_eq!(encode(&Vec::new()), Ok("[]".to_string()));
    assert_eq!(decode("[]"), Ok(Vec::new()));
}

#[test]
fn table_and_lamp_are_written_as_two_tuples() {
    let one = 1.0f32.to_bits();
    assert_eq!(one, 1065353216);
    let lamp = Transform {
        translation: Vector3 { x: 0, y: one, z: 0 },
        ..Transform::identity()
    };
    let records = vec![
        record(7, Transform::identity(), Some("Table"), None),
        record(8, lamp, Some("Lamp"), Some("Table")),
    ];
    let text = encode(&records).unwrap();
    assert_eq!(
        text,
        "[(7,Some(((0,0,0),(0,0,0,1065353216),(1065353216,1065353216,1065353216))),Some(\"Table\"),None),\
         (8,Some(((0,1065353216,0),(0,0,0,1065353216),(1065353216,1065353216,1065353216))),Some(\"Lamp\"),Some(\"Table\"))]"
    );
    let requests = decode(&text).unwrap();
    assert_eq!(requests, vec![as_request(&records[0]), as_request(&records[1])]);
    assert_eq!(requests[1].parent, Some("Table".to_string()));
}

#[test]
fn decoding_reads_hand_written_text() {
    let text = "// a scene\n[\n  (3, Some(((1, 2, 3), (4, 5, 6, 7), (8, 9, 10))), Some(\"Chair\"), None),\n]\n";
    assert_eq!(decode(text), Ok(vec![request(3, numbered(), Some("Chair"), None)]));
}

#[test]
fn decoding_takes_a_missing_transform_for_the_identity() {
    let text = "[(3,None,Some(\"Chair\"),Some(\"Room\"))]";
    assert_eq!(decode(text), Ok(vec![request(3, Transform::identity(), Some("Chair"), Some("Room"))]));
}

#[test]
fn decoding_keeps_the_order_of_the_text() {
    let text = "[(2,None,Some(\"b\"),None),(1,None,Some(\"a\"),None)]";
    let requests = decode(text).unwrap();
    let kinds: Vec<u32> = requests.iter().map(|r| r.kind.0).collect();
    assert_eq!(kinds, vec![2, 1]);
}

#[test]
fn names_with_special_characters_come_back_unchanged() {
    let names = [
        "",
        " ",
        "plain",
        "with \"quotes\"",
        "with 'apostrophes'",
        "back\\slash",
        "line\nbreak\r\n\ttab",
        "nul\0char",
        "caf\u{e9} \u{1F600} \u{301}",
        "Some(\"x\")",
        "],)",
        "\u{7f}\u{1b}",
    ];
    for name in names {
        for parent in [None, Some(name), Some("other")] {
            let records = vec![record(1, numbered(), Some(name), parent), record(2, numbered(), None, parent)];
            let text = encode(&records).unwrap();
            let requests = decode(&text).unwrap();
            assert_eq!(requests, vec![as_request(&records[0]), as_request(&records[1])]);
        }
    }
}

#[test]
fn every_bit_pattern_of_a_number_comes_back_unchanged() {
    let patterns = [
        0u32,
        1,
        u32::MAX,
        0x8000_0000,
        f32::NAN.to_bits(),
        f32::INFINITY.to_bits(),
        f32::NEG_INFINITY.to_bits(),
        (-0.0f32).to_bits(),
        0.1f32.to_bits(),
        0x7FC0_0001,
    ];
    for p in patterns {
        let t = Transform {
            translation: Vector3 { x: p, y: 0, z: p },
            rotation: Quaternion { x: 0, y: p, z: 0, w: p },
            scale: Vector3 { x: p, y: p, z: 0 },
        };
        let records = vec![record(p, t, None, None)];
        let text = encode(&records).unwrap();
        assert_eq!(decode(&text), Ok(vec![as_request(&records[0])]));
    }
}

#[test]
fn many_records_come_back_in_order() {
    let records: Vec<SceneObjectRecord> = (0..200u32)
        .map(|i| {
            let name = format!("object {}", i);
            let parent = format!("object {}", i / 2);
            record(i, numbered(), Some(name.as_str()), if i == 0 { None } else { Some(parent.as_str()) })
        })
        .collect();
    let text = encode(&records).unwrap();
    let expected: Vec<SpawnRequest> = records.iter().map(as_request).collect();
    assert_eq!(decode(&text), Ok(expected));
}

#[test]
fn empty_text_is_malformed() {
    assert_eq!(decode(""), Err(PersistenceError::MalformedData));
    assert_eq!(decode("   \n"), Err(PersistenceError::MalformedData));
}

#[test]
fn truncated_text_is_malformed() {
    let whole = "[(7,Some(((0,0,0),(0,0,0,1),(1,1,1))),Some(\"Table\"),None)]";
    assert!(decode(whole).is_ok());
    for end in 0..whole.len() {
        assert_eq!(decode(&whole[..end]), Err(PersistenceError::MalformedData), "cut at {}", end);
    }
}

#[test]
fn fields_of_the_wrong_type_are_malformed() {
    let texts = [
        "[(\"seven\",None,Some(\"Table\"),None)]",
        "[(7,None,Some(5),None)]",
        "[(7,None,\"Table\",None)]",
        "[(7,None,None,\"Table\")]",
        "[(7,Some(((0.0,0.0,0.0),(0,0,0,1),(1,1,1))),None,None)]",
        "[(7,((0,0,0),(0,0,0,1),(1,1,1)),None,None)]",
        "[(-7,None,None,None)]",
        "[(4294967296,None,None,None)]",
        "[(7,Some(((0,0,0),(0,0,0,4294967296),(1,1,1))),None,None)]",
        "[(7,Some(((0,0),(0,0,0,1),(1,1,1))),None,None)]",
        "[(7,Some(((0,0,0),(0,0,0),(1,1,1))),None,None)]",
        "[(7,Some(((0,0,0),(0,0,0,1),(1,1,1,1))),None,None)]",
        "[(7,Some(((0,0,0),(0,0,0,1))),None,None)]",
        "[(7,None,None)]",
        "[(7,None,None,None,None)]",
        "[7]",
        "(7,None,None,None)",
        "{}",
        "None",
        "42",
        "\"text\"",
    ];
    for text in texts {
        assert_eq!(decode(text), Err(PersistenceError::MalformedData), "{}", text);
    }
}

#[test]
fn text_after_the_list_is_malformed() {
    assert_eq!(decode("[] []"), Err(PersistenceError::MalformedData));
    assert_eq!(decode("[]x"), Err(PersistenceError::MalformedData));
    assert_eq!(decode("[] // a comment"), Ok(Vec::new()));
}

#[test]
fn broken_strings_and_comments_are_malformed() {
    let texts = [
        "[(7,None,Some(\"Table),None)]",
        "[(7,None,Some(\"\\q\"),None)]",
        "[(7,None,Some(\"\\u{110000}\"),None)]",
        "/* open [(7,None,None,None)]",
        "#![enable(nothing)] []",
    ];
    for text in texts {
        assert_eq!(decode(text), Err(PersistenceError::MalformedData), "{}", text);
    }
}

#[test]
fn arbitrary_text_is_read_or_refused() {
    let alphabet: Vec<char> = "[](),.\"\\'#!/* \n\t-+_rxunSomeNone0123456789abcdefE{}:;\u{e9}\u{1F600}\0"
        .chars()
        .collect();
    let mut state: u64 = 0x9E37_79B9_7F4A_7C15;
    let mut next = move || {
        state = state.wrapping_mul(6364136223846793005).wrapping_add(1442695040888963407);
        (state >> 33) as usize
    };
    let mut read = 0;
    for round in 0..30000 {
        let len = next() % 40;
        let mut text = String::new();
        if round % 3 == 0 {
            text.push_str("[(7,Some(((0,0,0),(0,0,0,1),(1,1,1))),Some(\"");
        }
        for _ in 0..len {
            text.push(alphabet[next() % alphabet.len()]);
        }
        if round % 6 == 0 {
            text.push_str("\"),None)]");
        }
        match decode(&text) {
            Ok(requests) => {
                read += 1;
                for request in requests {
                    assert_eq!(request.kind.0, 7);
                }
            }
            Err(error) => assert_eq!(error, PersistenceError::MalformedData),
        }
    }
    assert!(read > 0);
}
