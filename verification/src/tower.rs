//! Towers: what is built on a block, and how its turret turns.

use crate::game_state::GameState;
use crate::map::{BlockBundle, ChunkBundle};
use crate::world::World;
use crate::space::{Transform, Vec3};
use vstd::prelude::*;

verus! {

/// Ties the towers to a phase of the game.
#[derive(Copy, Clone, PartialEq, Eq, Structural, Debug)]
pub struct TowerPlugin {
    pub desired_state: Option<GameState>,
}

impl TowerPlugin {
    /// Towers that are tied to no phase yet.
    pub fn new() -> (plugin: Self)
        ensures
            plugin.desired_state is None,
    {
        Self { desired_state: None }
    }

    /// Towers that live while the game is in `state`.
    pub fn run_in_state(state: GameState) -> (plugin: Self)
        ensures
            plugin.desired_state == Some(state),
    {
        Self { desired_state: Some(state) }
    }
}

impl Default for TowerPlugin {
    fn default() -> (plugin: Self)
        ensures
            plugin.desired_state is None,
    {
        Self { desired_state: None }
    }
}

/// Handles of the meshes and the material that towers are drawn with.
#[derive(Copy, Clone, PartialEq, Eq, Structural, Debug)]
pub struct TowerAssets {
    pub cannon_mesh: u64,
    pub body_mesh: u64,
    pub material: u64,
}

impl Default for TowerAssets {
    fn default() -> (assets: Self)
        ensures
            assets == (TowerAssets { cannon_mesh: 0, body_mesh: 0, material: 0 }),
    {
        TowerAssets { cannon_mesh: 0, body_mesh: 0, material: 0 }
    }
}

/// The kinds of tower.
#[derive(Copy, Clone, PartialEq, Eq, Structural, Debug)]
pub enum TowerKind {
    Cannon,
}

impl Default for TowerKind {
    fn default() -> (kind: Self)
        ensures
            kind == TowerKind::Cannon,
    {
        TowerKind::Cannon
    }
}

/// What a tower is, apart from where it stands.
#[derive(Copy, Clone, PartialEq, Eq, Structural, Debug)]
pub struct Tower {
    pub kind: TowerKind,
}

impl Default for Tower {
    fn default() -> (tower: Self)
        ensures
            tower == (Tower { kind: TowerKind::Cannon }),
    {
        Tower { kind: TowerKind::Cannon }
    }
}

/// The part of a tower that stands still. Its transform is relative to the
/// tower.
#[derive(Copy, Clone, PartialEq, Eq, Structural, Debug)]
pub struct TowerBody {
    pub mesh: u64,
    pub material: u64,
    pub transform: Transform,
}

/// The part of a tower that turns. Its transform is relative to the tower;
/// `angle` is how far it has turned about the vertical axis, in millionths of
/// a radian. A cannon is built with an angle of less than a full turn and
/// keeps it so: see [`TowerCannon::well_formed`].
#[derive(Copy, Clone, PartialEq, Eq, Structural, Debug)]
pub struct TowerCannon {
    pub mesh: u64,
    pub material: u64,
    pub transform: Transform,
    pub angle: u32,
}

/// A tower with its two parts.
#[derive(Copy, Clone, PartialEq, Eq, Structural, Debug)]
pub struct TowerBundle {
    pub transform: Transform,
    pub properties: Tower,
    pub cannon: TowerCannon,
    pub body: TowerBody,
}

/// How much larger than life both parts of a tower are drawn, in ticks: 1.8.
pub const TOWER_SCALE: i64 = 1_800_000;

/// How far above the tower's position its body stands, in ticks: 3.5.
pub const TOWER_OFFSET: i64 = 3_500_000;

/// Height of the body above the tower's position: the offset.
pub const BODY_HEIGHT: i64 = TOWER_OFFSET;

/// Height of the cannon above the tower's position: one unit at the tower's
/// scale above the body.
pub const CANNON_HEIGHT: i64 = BODY_HEIGHT + TOWER_SCALE;

/// A full turn, in millionths of a radian.
pub const FULL_TURN: u32 = 6_283_185;

/// Millionths of a radian that a cannon turns in a millisecond.
pub const TURN_RATE: u32 = 1_000;

/// The tower that [`spawn_tower`] builds at `position`.
pub open spec fn spec_spawn_tower(position: Vec3, tower_assets: TowerAssets) -> TowerBundle {
    let scale = Vec3 { x: TOWER_SCALE, y: TOWER_SCALE, z: TOWER_SCALE };
    TowerBundle {
        transform: Transform::spec_from_translation(position),
        properties: Tower { kind: TowerKind::Cannon },
        cannon: TowerCannon {
            mesh: tower_assets.cannon_mesh,
            material: tower_assets.material,
            transform: Transform { translation: Vec3 { x: 0, y: CANNON_HEIGHT, z: 0 }, scale },
            angle: 0,
        },
        body: TowerBody {
            mesh: tower_assets.body_mesh,
            material: tower_assets.material,
            transform: Transform { translation: Vec3 { x: 0, y: BODY_HEIGHT, z: 0 }, scale },
        },
    }
}

/// Builds a cannon tower that stands at `position`: a body, raised by the
/// tower's offset, and a cannon one unit of the tower's scale above the body
/// that has not turned yet, both drawn at the tower's scale with the given
/// assets. The same position and assets always give the same tower.
pub fn spawn_tower(position: Vec3, tower_assets: &TowerAssets) -> (tower: TowerBundle)
    ensures
        tower == spec_spawn_tower(position, *tower_assets),
        tower.cannon.well_formed(),
{
    let scale: Vec3 = Vec3::splat(TOWER_SCALE);
    TowerBundle {
        transform: Transform::from_translation(position),
        properties: Tower::default(),
        cannon: TowerCannon {
            mesh: tower_assets.cannon_mesh,
            material: tower_assets.material,
            transform: Transform::from_translation(Vec3::new(0, CANNON_HEIGHT, 0)).with_scale(
                scale,
            ),
            angle: 0,
        },
        body: TowerBody {
            mesh: tower_assets.body_mesh,
            material: tower_assets.material,
            transform: Transform::from_translation(Vec3::new(0, BODY_HEIGHT, 0)).with_scale(scale),
        },
    }
}

/// The angle of a cannon that stood at `angle` and has turned for `delta_ms`
/// milliseconds: a radian a second, wrapping at the full turn.
pub open spec fn spec_turned(angle: u32, delta_ms: u32) -> u32 {
    ((angle + delta_ms * TURN_RATE) % (FULL_TURN as int)) as u32
}

impl TowerCannon {
    /// Whether the angle is less than a full turn.
    pub open spec fn well_formed(self) -> bool {
        self.angle < FULL_TURN
    }

    /// The cannon after it has turned for `delta_ms` milliseconds.
    pub open spec fn spec_rotated(self, delta_ms: u32) -> TowerCannon {
        TowerCannon { angle: spec_turned(self.angle, delta_ms), ..self }
    }

    /// Turns the cannon for `delta_ms` milliseconds.
    pub fn rotate(&mut self, delta_ms: u32)
        ensures
            *final(self) == old(self).spec_rotated(delta_ms),
            final(self).well_formed(),
    {
        assert(delta_ms * TURN_RATE <= 0xFFFF_FFFF * 1_000) by (nonlinear_arith)
            requires
                0 <= delta_ms <= 0xFFFF_FFFF,
                TURN_RATE == 1_000,
        ;
        let turned: u64 = (self.angle as u64) + (delta_ms as u64) * (TURN_RATE as u64);
        self.angle = (turned % (FULL_TURN as u64)) as u32;
    }
}

impl TowerBundle {
    /// The tower after its cannon has turned for `delta_ms` milliseconds.
    pub open spec fn spec_aimed(self, delta_ms: u32) -> TowerBundle {
        TowerBundle { cannon: self.cannon.spec_rotated(delta_ms), ..self }
    }
}

/// What a frame of `delta_ms` milliseconds makes of a block: the cannon of
/// its tower, if it has one, turns.
pub open spec fn spec_aim(block: BlockBundle, delta_ms: u32) -> BlockBundle {
    match block.tower {
        Some(tower) => BlockBundle { tower: Some(tower.spec_aimed(delta_ms)), ..block },
        None => block,
    }
}

/// Turns the cannon of every tower that stands on `blocks` for a frame that
/// lasted `delta_ms` milliseconds: a radian a second about the vertical axis,
/// whatever else goes on. Nothing but the cannons' angles changes.
pub fn aim_towers(delta_ms: u32, blocks: &mut Vec<BlockBundle>)
    ensures
        final(blocks)@ == old(blocks)@.map_values(|block: BlockBundle| spec_aim(block, delta_ms)),
{
    let mut i: usize = 0;
    while i < blocks.len()
        invariant
            i <= blocks.len(),
            blocks.len() == old(blocks).len(),
            forall|j: int| 0 <= j < i ==> blocks@[j] == spec_aim(old(blocks)@[j], delta_ms),
            forall|j: int| i <= j < blocks.len() ==> blocks@[j] == old(blocks)@[j],
        decreases blocks.len() - i,
    {
        let mut block: BlockBundle = blocks[i];
        match block.tower {
            Some(mut tower) => {
                tower.cannon.rotate(delta_ms);
                block.tower = Some(tower);
                blocks.set(i, block);
            },
            None => {},
        }
        i = i + 1;
    }
    assert(blocks@ == old(blocks)@.map_values(|block: BlockBundle| spec_aim(block, delta_ms)));
}

/// A block with the tower on it, if there was one, taken away. The block
/// stays marked as it was.
pub open spec fn spec_cleared(block: BlockBundle) -> BlockBundle {
    BlockBundle { tower: None, ..block }
}

/// Takes away every tower that stands on `blocks`.
pub fn clear_towers(blocks: &mut Vec<BlockBundle>)
    ensures
        final(blocks)@ == old(blocks)@.map_values(|block: BlockBundle| spec_cleared(block)),
{
    let mut i: usize = 0;
    while i < blocks.len()
        invariant
            i <= blocks.len(),
            blocks.len() == old(blocks).len(),
            forall|j: int| 0 <= j < i ==> blocks@[j] == spec_cleared(old(blocks)@[j]),
            forall|j: int| i <= j < blocks.len() ==> blocks@[j] == old(blocks)@[j],
        decreases blocks.len() - i,
    {
        let mut block: BlockBundle = blocks[i];
        block.tower = None;
        blocks.set(i, block);
        i = i + 1;
    }
    assert(blocks@ == old(blocks)@.map_values(|block: BlockBundle| spec_cleared(block)));
}

/// Neither turning the cannons nor taking the towers away breaks the
/// agreement between a block's marks and what stands on it.
pub proof fn lemma_aim_and_clear_keep_blocks_consistent(block: BlockBundle, delta_ms: u32)
    requires
        block.consistent(),
    ensures
        spec_aim(block, delta_ms).consistent(),
        spec_cleared(block).consistent(),
        spec_aim(block, delta_ms).properties == block.properties,
        spec_cleared(block).properties == block.properties,
        spec_aim(block, delta_ms).tower is Some <==> block.tower is Some,
{
}

/// Whether `after` is `before` with every tower taken away.
pub open spec fn spec_towers_cleared(before: Option<ChunkBundle>, after: Option<ChunkBundle>) -> bool {
    match before {
        Some(chunk) => {
            &&& after matches Some(cleared)
            &&& cleared.blocks@ == chunk.blocks@.map_values(|block: BlockBundle| spec_cleared(block))
            &&& cleared.transform == chunk.transform
            &&& cleared.properties == chunk.properties
            &&& cleared.generation == chunk.generation
        },
        None => after is None,
    }
}

/// Takes every tower out of the world. The blocks they stood on stay, and
/// stay marked as occupied.
pub fn destroy(world: &mut World)
    ensures
        spec_towers_cleared(old(world).chunk, final(world).chunk),
        final(world).camera == old(world).camera,
        final(world).menu == old(world).menu,
        final(world).tower_assets == old(world).tower_assets,
        final(world).chunks_spawned == old(world).chunks_spawned,
{
    match &mut world.chunk {
        Some(chunk) => {
            clear_towers(&mut chunk.blocks);
        },
        None => {},
    }
}

} // verus!
