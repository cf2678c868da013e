//! What the game is drawn with.

use crate::tower::TowerAssets;
use vstd::prelude::*;

verus! {

/// Records the handles of the loaded meshes and of the material that towers
/// are drawn with.
pub fn load_assets(tower_assets: &mut TowerAssets, cannon_mesh: u64, body_mesh: u64, material: u64)
    ensures
        *final(tower_assets) == (TowerAssets { cannon_mesh, body_mesh, material }),
{
    tower_assets.cannon_mesh = cannon_mesh;
    tower_assets.body_mesh = body_mesh;
    tower_assets.material = material;
}

} // verus!
