use scene_persistence::error::PersistenceError;
use scene_persistence::paths::{allocate, candidate_name, candidates, scene_path, Probe, PROBE_LIMIT};

fn probes(occupied: usize, then: &[Probe]) -> Vec<Probe> {
    let mut all = vec![Probe::Occupied; occupied];
    all.extend_from_slice(then);
    all
}

#[test]
fn probe_limit_is_ten() {
    assert_eq!(PROBE_LIMIT, 10);
}

#[test]
fn candidate_names_count_up_from_the_base() {
    assert_eq!(candidate_name("room", 0), "room");
    assert_eq!(candidate_name("room", 1), "room-1");
    assert_eq!(candidate_name("room", 9), "room-9");
    assert_eq!(candidate_name("room", 10), "room-10");
    assert_eq!(candidate_name("room", 407), "room-407");
    assert_eq!(candidate_name("", 3), "-3");
}

#[test]
fn candidate_name_of_the_largest_index() {
    assert_eq!(candidate_name("a", usize::MAX), format!("a-{}", usize::MAX));
}

#[test]
fn scene_path_lies_in_the_scene_directory() {
    assert_eq!(scene_path("room"), "assets/scenes/room.scn.ron");
    assert_eq!(scene_path("room-1"), "assets/scenes/room-1.scn.ron");
    assert_eq!(scene_path(""), "assets/scenes/.scn.ron");
}

#[test]
fn candidates_are_ten_paths_in_order() {
    let paths = candidates("room");
    assert_eq!(paths.len(), 10);
    assert_eq!(paths[0], "assets/scenes/room.scn.ron");
    for i in 1..10 {
        assert_eq!(paths[i], format!("assets/scenes/room-{}.scn.ron", i));
    }
}

#[test]
fn empty_directory_gives_the_base_itself() {
    let all = vec![Probe::Vacant; 10];
    assert_eq!(allocate("room", &all), Ok("assets/scenes/room.scn.ron".to_string()));
}

#[test]
fn nine_existing_files_give_the_tenth_candidate() {
    let all = probes(9, &[Probe::Vacant]);
    assert_eq!(allocate("base", &all), Ok("assets/scenes/base-9.scn.ron".to_string()));
}

#[test]
fn ten_existing_files_are_too_many_collisions() {
    let all = probes(10, &[]);
    assert_eq!(allocate("base", &all), Err(PersistenceError::TooManyCollisions));
}

#[test]
fn first_vacant_candidate_wins_over_later_ones() {
    let all = probes(2, &[Probe::Vacant, Probe::Occupied, Probe::Vacant]);
    assert_eq!(allocate("room", &all), Ok("assets/scenes/room-2.scn.ron".to_string()));
}

#[test]
fn untestable_candidates_are_passed_over() {
    let all = vec![Probe::Untestable, Probe::Occupied, Probe::Untestable, Probe::Vacant];
    assert_eq!(allocate("room", &all), Ok("assets/scenes/room-3.scn.ron".to_string()));
}

#[test]
fn no_testable_candidate_is_an_invalid_path() {
    let all = vec![Probe::Untestable; 10];
    assert_eq!(allocate("room", &all), Err(PersistenceError::InvalidPath));
}

#[test]
fn no_probe_at_all_is_an_invalid_path() {
    assert_eq!(allocate("room", &Vec::new()), Err(PersistenceError::InvalidPath));
}

#[test]
fn occupied_and_untestable_candidates_are_too_many_collisions() {
    let mut all = vec![Probe::Untestable; 9];
    all.push(Probe::Occupied);
    assert_eq!(allocate("room", &all), Err(PersistenceError::TooManyCollisions));
}

#[test]
fn probes_past_the_limit_are_not_looked_at() {
    let all = probes(10, &[Probe::Vacant]);
    assert_eq!(allocate("room", &all), Err(PersistenceError::TooManyCollisions));
    let mut untestable = vec![Probe::Untestable; 10];
    untestable.push(Probe::Occupied);
    assert_eq!(allocate("room", &untestable), Err(PersistenceError::InvalidPath));
}

#[test]
fn fewer_probes_than_the_limit_are_taken_as_they_are() {
    let all = probes(3, &[]);
    assert_eq!(allocate("room", &all), Err(PersistenceError::TooManyCollisions));
    let all = probes(3, &[Probe::Vacant]);
    assert_eq!(allocate("room", &all), Ok("assets/scenes/room-3.scn.ron".to_string()));
}
