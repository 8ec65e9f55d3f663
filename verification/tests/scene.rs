use hue_control::scene::scene;
use hue_control::{SceneEntry, SceneError, SceneRecall, StateTransform};

fn entry(id: &str, name: &str, group: Option<&str>) -> SceneEntry {
    SceneEntry { id: id.to_string(), name: name.to_string(), group: group.map(|g| g.to_string()) }
}

fn recall(group: &str, id: &str) -> SceneRecall {
    SceneRecall {
        group: group.to_string(),
        transform: StateTransform {
            power: Some(true),
            brightness: None,
            chromaticity: None,
            scene: Some(id.to_string()),
        },
    }
}

#[test]
fn scene_is_recalled_on_its_own_group() {
    let scenes = vec![entry("s1", "Relax", Some("4")), entry("s2", "Read", Some("7"))];
    assert_eq!(scene("Read", &scenes), Ok(recall("7", "s2")));
    assert_eq!(scene("Relax", &scenes), Ok(recall("4", "s1")));
}

#[test]
fn scene_without_a_group_is_passed_over() {
    let scenes = vec![entry("s1", "Relax", None), entry("s2", "Relax", Some("7"))];
    assert_eq!(scene("Relax", &scenes), Ok(recall("7", "s2")));
    let scenes = vec![entry("s1", "Relax", None)];
    assert_eq!(scene("Relax", &scenes), Err(SceneError::NotFound));
}

#[test]
fn the_first_of_several_scenes_with_one_name_is_taken() {
    let scenes = vec![
        entry("s0", "Other", Some("1")),
        entry("s1", "Relax", Some("4")),
        entry("s2", "Relax", Some("7")),
    ];
    assert_eq!(scene("Relax", &scenes), Ok(recall("4", "s1")));
}

#[test]
fn scene_that_is_not_listed_is_not_found() {
    let scenes = vec![entry("s1", "Relax", Some("4"))];
    assert_eq!(scene("relax", &scenes), Err(SceneError::NotFound));
    assert_eq!(scene("", &scenes), Err(SceneError::NotFound));
    assert_eq!(scene("Relax", &Vec::new()), Err(SceneError::NotFound));
    assert_eq!(SceneError::NotFound.message(), "No scene with that name found.");
}
