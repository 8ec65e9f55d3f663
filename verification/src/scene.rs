//! Recalling a scene by its name.

use crate::transform::StateTransform;
use vstd::prelude::*;

verus! {

/// A scene as the bridge lists it: what the lookup reads of it.
#[derive(Clone, Debug, PartialEq, Eq)]
pub struct SceneEntry {
    /// The identifier by which the bridge recalls the scene.
    pub id: String,
    /// The name the operator knows the scene by.
    pub name: String,
    /// The group the scene belongs to, where it belongs to one.
    pub group: Option<String>,
}

/// One update of a whole group: the group to address and the change to ask of it.
#[derive(Clone, Debug, PartialEq, Eq)]
pub struct SceneRecall {
    pub group: String,
    pub transform: StateTransform,
}

/// Why no scene could be recalled.
#[derive(Clone, Copy, Debug, PartialEq, Eq, Structural)]
pub enum SceneError {
    /// No scene that belongs to a group has the name.
    NotFound,
}

impl SceneError {
    /// The line shown to the operator.
    pub fn message(&self) -> (m: &'static str)
        ensures
            m@ == "No scene with that name found."@,
    {
        "No scene with that name found."
    }
}

/// A scene can be recalled under `name` when it has exactly that name and belongs
/// to a group.
pub open spec fn is_candidate(s: SceneEntry, name: Seq<char>) -> bool {
    s.name@ == name && s.group is Some
}

/// `i` is the position of the first scene of the listing that can be recalled
/// under `name`.
pub open spec fn first_candidate(scenes: Seq<SceneEntry>, name: Seq<char>, i: int) -> bool {
    &&& 0 <= i < scenes.len()
    &&& is_candidate(scenes[i], name)
    &&& forall|k: int| 0 <= k < i ==> !is_candidate(#[trigger] scenes[k], name)
}

/// The transform of a scene command: the group is switched on and the scene
/// recalled.
pub open spec fn scene_transform(id: String) -> StateTransform {
    StateTransform { power: Some(true), brightness: None, chromaticity: None, scene: Some(id) }
}

/// Finds the scene to recall under `name`. Where several scenes qualify the one
/// that the listing holds first is taken.
pub fn scene(name: &str, scenes: &Vec<SceneEntry>) -> (r: Result<SceneRecall, SceneError>)
    ensures
        r is Err <==> forall|i: int|
            0 <= i < scenes@.len() ==> !is_candidate(#[trigger] scenes@[i], name@),
        r matches Ok(recall) ==> exists|i: int|
            first_candidate(scenes@, name@, i) && Some(recall.group) == (#[trigger] scenes@[i]).group
                && recall.transform == scene_transform(scenes@[i].id),
        r matches Err(e) ==> e == SceneError::NotFound,
{
    let wanted: String = name.to_owned();
    let mut i: usize = 0;
    while i < scenes.len()
        invariant
            0 <= i <= scenes.len(),
            wanted@ == name@,
            forall|k: int| 0 <= k < i ==> !is_candidate(#[trigger] scenes@[k], name@),
        decreases scenes.len() - i,
    {
        let entry = &scenes[i];
        if entry.name == wanted {
            match &entry.group {
                Some(group) => {
                    proof {
                        assert(first_candidate(scenes@, name@, i as int));
                    }
                    return Ok(
                        SceneRecall {
                            group: group.clone(),
                            transform: StateTransform {
                                power: Some(true),
                                brightness: None,
                                chromaticity: None,
                                scene: Some(entry.id.clone()),
                            },
                        },
                    );
                },
                None => {},
            }
        }
        i = i + 1;
    }
    Err(SceneError::NotFound)
}

/// The listing decides which scene is recalled: two positions that both hold the
/// first scene to qualify are one position.
pub proof fn lemma_first_candidate_unique(scenes: Seq<SceneEntry>, name: Seq<char>, i: int, j: int)
    requires
        first_candidate(scenes, name, i),
        first_candidate(scenes, name, j),
    ensures
        i == j,
{
}

} // verus!
