//! Labels for the cameras the system enumerates.

use vstd::prelude::*;
use vstd::string::*;

verus! {

/// What the listing shows of one enumerated camera.
#[derive(Clone, Debug, PartialEq, Eq)]
pub struct CameraEntry {
    pub name: String,
    pub description: String,
}

/// The label of a camera: its name, a colon and a space, its description.
pub open spec fn label_of(name: Seq<char>, description: Seq<char>) -> Seq<char> {
    name + seq![':', ' '] + description
}

/// Builds the label of one camera.
pub fn camera_label(name: &str, description: &str) -> (label: String)
    ensures
        label@ == label_of(name@, description@),
{
    proof {
        reveal_strlit(": ");
    }
    let mut label = String::from_str(name);
    label.append(": ");
    label.append(description);
    assert(": "@ =~= seq![':', ' ']);
    label
}

/// Labels the enumerated cameras, one label per camera, in the order of
/// enumeration.
pub fn list_cameras(cameras: &Vec<CameraEntry>) -> (labels: Vec<String>)
    ensures
        labels@.len() == cameras@.len(),
        forall|i: int|
            0 <= i < cameras@.len() ==> (#[trigger] labels@[i])@ == label_of(
                cameras@[i].name@,
                cameras@[i].description@,
            ),
{
    let mut labels: Vec<String> = Vec::new();
    let mut i: usize = 0;
    while i < cameras.len()
        invariant
            i <= cameras.len(),
            labels@.len() == i,
            forall|j: int|
                0 <= j < i ==> (#[trigger] labels@[j])@ == label_of(
                    cameras@[j].name@,
                    cameras@[j].description@,
                ),
        decreases cameras.len() - i,
    {
        let camera = &cameras[i];
        labels.push(camera_label(camera.name.as_str(), camera.description.as_str()));
        i += 1;
    }
    labels
}

} // verus!
