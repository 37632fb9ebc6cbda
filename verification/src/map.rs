//! What a map file holds, and what follows from it before anything is
//! loaded: the kind of ground collider and the names of its files.
//!
//! Positions count millionths of a unit, rotations millionths of a degree.

use vstd::prelude::*;
use vstd::string::{StrSliceExecFns, StringExecFns};
use crate::vector::Vec3;

verus! {

/// How the collider of the ground is made from its mesh.
#[derive(Clone, Copy, Debug, PartialEq, Eq, Structural)]
pub enum ComputedCollider {
    /// Convex pieces that together fill the mesh.
    ConvexDecomposition,
    /// The one convex hull of the mesh.
    ConvexHull,
    /// The triangles of the mesh as they are.
    TriMesh,
}

/// A checkpoint as the map file gives it.
#[derive(Clone, Copy, Debug, PartialEq, Eq, Structural)]
pub struct Checkpoint {
    pub pos: Vec3,
    pub rot: i64,
}

/// A jump pad as the map file gives it.
#[derive(Clone, Copy, Debug, PartialEq, Eq, Structural)]
pub struct Jumppad {
    pub pos: Vec3,
    pub strength: i64,
}

/// One map.
#[derive(Clone, Debug, PartialEq, Eq)]
pub struct MapData {
    pub name: String,
    pub scene: Option<String>,
    pub file: String,
    pub start_pos: Vec3,
    pub end_pos: Vec3,
    pub end_rotation: i64,
    pub start_rotation: i64,
    pub checkpoints: Vec<Checkpoint>,
    pub pads: Option<Vec<Jumppad>>,
    pub collidertype: Option<u32>,
}

/// The kind of collider that a map file asks for with `collidertype`.
pub open spec fn collider_of(collidertype: Option<u32>) -> ComputedCollider {
    match collidertype {
        Some(n) => if n == 1 {
            ComputedCollider::ConvexHull
        } else if n == 2 {
            ComputedCollider::TriMesh
        } else {
            ComputedCollider::ConvexDecomposition
        },
        None => ComputedCollider::ConvexDecomposition,
    }
}

/// Whether `name` ends in `replay`, as the files of stored ghosts do.
pub open spec fn is_replay_name(name: Seq<char>) -> bool {
    name.len() >= 6 && name.subrange(name.len() - 6, name.len() as int) == "replay"@
}

/// The names among `files` that do not end in `replay`, in their order.
pub open spec fn map_names(files: Seq<String>) -> Seq<String>
    decreases files.len(),
{
    if files.len() == 0 {
        Seq::<String>::empty()
    } else if is_replay_name(files.last()@) {
        map_names(files.drop_last())
    } else {
        map_names(files.drop_last()).push(files.last())
    }
}

impl MapData {
    /// The kind of ground collider: 1 asks for the convex hull, 2 for the
    /// triangle mesh, and 0, any other number or none for convex pieces.
    pub fn collider_type(&self) -> (kind: ComputedCollider)
        ensures
            kind == collider_of(self.collidertype),
    {
        match self.collidertype {
            Some(1) => ComputedCollider::ConvexHull,
            Some(2) => ComputedCollider::TriMesh,
            _ => ComputedCollider::ConvexDecomposition,
        }
    }

    /// The scene to load: the map's file with `.glb#` and the name of the
    /// scene, which is `Scene0` where the map names none.
    pub fn scene_path(&self) -> (path: String)
        ensures
            path@ == self.file@ + ".glb#"@ + (match self.scene {
                Some(scene) => scene@,
                None => "Scene0"@,
            }),
    {
        let path = self.file.clone().concat(".glb#");
        match &self.scene {
            Some(scene) => path.concat(scene.as_str()),
            None => path.concat("Scene0"),
        }
    }

    /// The file in which the ghost of the map is stored: `maps/`, the name
    /// of the map and `.replay`.
    pub fn replay_path(&self) -> (path: String)
        ensures
            path@ == "maps/"@ + self.name@ + ".replay"@,
    {
        String::from_str("maps/").concat(self.name.as_str()).concat(".replay")
    }
}

/// Tells whether `name` ends in `replay`.
pub fn is_replay(name: &str) -> (r: bool)
    ensures
        r == is_replay_name(name@),
{
    let n = name.unicode_len();
    if n < 6 {
        return false;
    }
    let tail = String::from_str(name.substring_char(n - 6, n));
    let replay = String::from_str("replay");
    tail == replay
}

/// The maps among the files of the map directory: every name that does not
/// end in `replay`, in the order given.
pub fn all_maps(files: &Vec<String>) -> (maps: Vec<String>)
    ensures
        maps@ == map_names(files@),
{
    let mut maps: Vec<String> = Vec::new();
    let mut i: usize = 0;
    while i < files.len()
        invariant
            i <= files.len(),
            maps@ == map_names(files@.take(i as int)),
        decreases files.len() - i,
    {
        proof {
            assert(files@.take(i + 1).drop_last() =~= files@.take(i as int));
        }
        if !is_replay(files[i].as_str()) {
            maps.push(files[i].clone());
        }
        i += 1;
    }
    proof {
        assert(files@.take(files.len() as int) =~= files@);
    }
    maps
}

} // verus!
