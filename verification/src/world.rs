//! The world: everything that exists in the game at one time.

use crate::camera::CameraBundle;
use crate::map::ChunkBundle;
use crate::start_menu::Menu;
use crate::tower::TowerAssets;
use vstd::prelude::*;

verus! {

/// All that lives in the game. There is at most one camera, one chunk and
/// one menu; a chunk owns its blocks, and a block owns the tower on it, so
/// that what is taken away takes with it all that stands on it.
#[derive(PartialEq, Eq, Debug)]
pub struct World {
    pub camera: Option<CameraBundle>,
    pub chunk: Option<ChunkBundle>,
    pub menu: Option<Menu>,
    pub tower_assets: TowerAssets,
    /// How many chunks have been made so far; the next chunk's generation.
    pub chunks_spawned: u32,
}

impl World {
    /// An empty world.
    pub fn new() -> (world: World)
        ensures
            world.camera is None,
            world.chunk is None,
            world.menu is None,
            world.tower_assets == (TowerAssets { cannon_mesh: 0, body_mesh: 0, material: 0 }),
            world.chunks_spawned == 0,
    {
        World {
            camera: None,
            chunk: None,
            menu: None,
            tower_assets: TowerAssets::default(),
            chunks_spawned: 0,
        }
    }
}

} // verus!
