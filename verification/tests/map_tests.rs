use yatd::game_state::GameState;
use yatd::map::{
    column_height, pick_block, spawn_chunk, spawn_column, spawn_tower_on_block, Block, BlockBundle,
    BlockKind, Chunk, ChunkBundle, Entity, MapError, MapPlugin, PickingEvent,
};
use yatd::space::{Transform, Vec3, UNIT};
use yatd::tower::{spawn_tower, TowerAssets};
use yatd::world::World;

fn assets() -> TowerAssets {
    TowerAssets { cannon_mesh: 11, body_mesh: 22, material: 33 }
}

fn towers_on(chunk: &ChunkBundle) -> usize {
    chunk.blocks.iter().filter(|block| block.tower.is_some()).count()
}

fn top_of(chunk: &ChunkBundle, x: usize, z: usize) -> usize {
    chunk
        .blocks
        .iter()
        .position(|block| block.properties.x == x && block.properties.z == z && block.pickable)
        .unwrap()
}

fn click(chunk: &ChunkBundle, index: usize) -> PickingEvent {
    PickingEvent::Clicked(Entity { generation: chunk.generation, index })
}

/// A chunk of two columns built from given draws: column (0, 0) with two
/// blocks and column (0, 1) with one.
fn small_chunk() -> ChunkBundle {
    let mut blocks = Vec::new();
    spawn_column(&mut blocks, 0, 0, 1, 4, 5 * UNIT);
    spawn_column(&mut blocks, 0, 1, 3, 4, 5 * UNIT);
    ChunkBundle {
        transform: Transform::default(),
        properties: Chunk { length: 1, width: 2, height: 4 },
        generation: 7,
        blocks,
    }
}

#[test]
fn map_plugin_new_is_tied_to_no_phase() {
    assert_eq!(MapPlugin::new().desired_state, None);
    assert_eq!(MapPlugin::default().desired_state, None);
}

#[test]
fn map_plugin_run_in_state_keeps_the_phase() {
    assert_eq!(MapPlugin::run_in_state(GameState::Defense).desired_state, Some(GameState::Defense));
}

#[test]
fn default_chunk_is_empty() {
    assert_eq!(Chunk::default(), Chunk { length: 0, width: 0, height: 0 });
    let bundle = ChunkBundle::default();
    assert_eq!(bundle.properties, Chunk { length: 0, width: 0, height: 0 });
    assert_eq!(bundle.transform, Transform::default());
    assert_eq!(bundle.generation, 0);
    assert!(bundle.blocks.is_empty());
}

#[test]
fn column_height_is_the_draw_folded_into_the_range() {
    assert_eq!(column_height(0, 4), 1);
    assert_eq!(column_height(1, 4), 2);
    assert_eq!(column_height(2, 4), 3);
    assert_eq!(column_height(3, 4), 1);
    assert_eq!(column_height(7, 5), 4);
    assert_eq!(column_height(usize::MAX, 2), 1);
    assert_eq!(column_height(12345, 2), 1);
    assert_eq!(column_height(usize::MAX, usize::MAX), 2);
    assert_eq!(column_height(usize::MAX - 2, usize::MAX), usize::MAX - 1);
}

#[test]
fn spawn_column_stacks_blocks_from_the_ground() {
    let mut blocks = Vec::new();
    spawn_column(&mut blocks, 2, 3, 4, 4, 5 * UNIT);
    let stone = |y: usize| Block { x: 2, y, z: 3, kind: BlockKind::Stone, has_tower: false };
    assert_eq!(
        blocks,
        vec![
            BlockBundle {
                properties: stone(0),
                transform: Transform::from_translation(Vec3::new(10_000_000, 0, 15_000_000)),
                pickable: false,
                tower: None,
            },
            BlockBundle {
                properties: stone(1),
                transform: Transform::from_translation(Vec3::new(10_000_000, 5_000_000, 15_000_000)),
                pickable: true,
                tower: None,
            },
        ]
    );
}

#[test]
fn spawn_column_adds_to_what_is_there() {
    let mut blocks = Vec::new();
    spawn_column(&mut blocks, 0, 0, 2, 4, UNIT);
    let first = blocks.clone();
    assert_eq!(first.len(), 3);
    spawn_column(&mut blocks, 0, 1, 0, 4, UNIT);
    assert_eq!(blocks.len(), 4);
    assert_eq!(&blocks[..3], &first[..]);
    assert_eq!(blocks[3].properties, Block { x: 0, y: 0, z: 1, kind: BlockKind::Stone, has_tower: false });
    assert_eq!(blocks[3].transform.translation, Vec3::new(0, 0, UNIT));
    assert!(blocks[3].pickable);
    assert_eq!(
        first.iter().map(|block| block.pickable).collect::<Vec<bool>>(),
        vec![false, false, true]
    );
}

#[test]
fn spawn_column_takes_a_negative_block_size() {
    let mut blocks = Vec::new();
    spawn_column(&mut blocks, 3, 2, 1, 3, -4);
    assert_eq!(blocks.len(), 2);
    assert_eq!(blocks[0].transform.translation, Vec3::new(-12, 0, -8));
    assert_eq!(blocks[1].transform.translation, Vec3::new(-12, -4, -8));
}

#[test]
fn spawn_chunk_refuses_a_height_below_two() {
    assert_eq!(spawn_chunk(10, 10, 0, 5 * UNIT), Err(MapError::HeightTooSmall));
    assert_eq!(spawn_chunk(10, 10, 1, 5 * UNIT), Err(MapError::HeightTooSmall));
    assert_eq!(spawn_chunk(0, 0, 1, 0), Err(MapError::HeightTooSmall));
    assert_eq!(spawn_chunk(3, 3, 1, i64::MAX), Err(MapError::HeightTooSmall));
}

#[test]
fn spawn_chunk_refuses_blocks_without_a_position() {
    assert_eq!(spawn_chunk(3, 1, 2, i64::MAX), Err(MapError::TooLarge));
    assert_eq!(spawn_chunk(1, 3, 2, i64::MAX), Err(MapError::TooLarge));
    assert_eq!(spawn_chunk(1, 1, 4, i64::MAX), Err(MapError::TooLarge));
    assert_eq!(spawn_chunk(1, 1, 4, i64::MIN), Err(MapError::TooLarge));
    assert_eq!(spawn_chunk(usize::MAX, 0, 2, 2), Err(MapError::TooLarge));
}

#[test]
fn spawn_chunk_takes_the_widest_extents_that_fit() {
    let chunk = spawn_chunk(2, 2, 2, i64::MAX).unwrap();
    assert_eq!(chunk.blocks.len(), 4);
    assert_eq!(chunk.blocks[3].transform.translation, Vec3::new(i64::MAX, 0, i64::MAX));
    let chunk = spawn_chunk(2, 1, 3, i64::MIN).unwrap();
    assert_eq!(chunk.blocks.last().unwrap().transform.translation.x, i64::MIN);
}

#[test]
fn spawn_chunk_without_columns_has_no_blocks() {
    for (length, width) in [(0, 0), (0, 5), (5, 0)] {
        let chunk = spawn_chunk(length, width, 4, 5 * UNIT).unwrap();
        assert!(chunk.blocks.is_empty());
        assert_eq!(chunk.properties, Chunk { length, width, height: 4 });
    }
}

#[test]
fn spawn_chunk_of_height_two_is_flat() {
    let chunk = spawn_chunk(3, 2, 2, 10).unwrap();
    let places: Vec<(usize, usize, usize)> = chunk
        .blocks
        .iter()
        .map(|block| (block.properties.x, block.properties.y, block.properties.z))
        .collect();
    assert_eq!(places, vec![(0, 0, 0), (0, 0, 1), (1, 0, 0), (1, 0, 1), (2, 0, 0), (2, 0, 1)]);
    assert!(chunk.blocks.iter().all(|block| block.pickable));
    assert_eq!(chunk.blocks[5].transform.translation, Vec3::new(20, 0, 10));
}

#[test]
fn spawn_chunk_ten_by_ten() {
    for _ in 0..20 {
        let chunk = spawn_chunk(10, 10, 4, 5 * UNIT).unwrap();
        assert_eq!(chunk.properties, Chunk { length: 10, width: 10, height: 4 });
        assert_eq!(chunk.transform, Transform::default());
        assert_eq!(chunk.generation, 0);
        let total = chunk.blocks.len();
        assert!((100..=300).contains(&total));
        assert_eq!(chunk.blocks.iter().filter(|block| block.pickable).count(), 100);
        assert_eq!(towers_on(&chunk), 0);
        for l in 0..10 {
            let row = chunk.blocks.iter().filter(|block| block.properties.x == l).count();
            assert!((10..=30).contains(&row));
        }
    }
}

#[test]
fn every_column_is_a_stack_with_a_pickable_top() {
    for _ in 0..20 {
        let chunk = spawn_chunk(6, 7, 5, 3 * UNIT).unwrap();
        let mut seen = 0;
        for l in 0..6 {
            for w in 0..7 {
                let column: Vec<&BlockBundle> = chunk
                    .blocks
                    .iter()
                    .filter(|block| block.properties.x == l && block.properties.z == w)
                    .collect();
                assert!((1..=4).contains(&column.len()));
                for (h, block) in column.iter().enumerate() {
                    assert_eq!(
                        block.properties,
                        Block { x: l, y: h, z: w, kind: BlockKind::Stone, has_tower: false }
                    );
                    assert_eq!(
                        block.transform,
                        Transform::from_translation(Vec3::new(
                            l as i64 * 3 * UNIT,
                            h as i64 * 3 * UNIT,
                            w as i64 * 3 * UNIT,
                        ))
                    );
                    assert_eq!(block.pickable, h == column.len() - 1);
                    assert_eq!(block.tower, None);
                }
                seen += column.len();
            }
        }
        assert_eq!(seen, chunk.blocks.len());
    }
}

#[test]
fn columns_come_row_after_row() {
    let chunk = spawn_chunk(4, 3, 4, UNIT).unwrap();
    let mut order: Vec<(usize, usize)> =
        chunk.blocks.iter().map(|block| (block.properties.x, block.properties.z)).collect();
    order.dedup();
    let mut expected = Vec::new();
    for l in 0..4 {
        for w in 0..3 {
            expected.push((l, w));
        }
    }
    assert_eq!(order, expected);
}

#[test]
fn column_heights_vary_between_chunks() {
    let mut sizes = Vec::new();
    for _ in 0..50 {
        sizes.push(spawn_chunk(10, 10, 4, 5 * UNIT).unwrap().blocks.len());
    }
    sizes.sort();
    sizes.dedup();
    assert!(sizes.len() > 1);
}

#[test]
fn setup_puts_a_fresh_chunk_into_the_world() {
    let mut world = World::new();
    yatd::map::setup(&mut world);
    let chunk = world.chunk.as_ref().unwrap();
    assert_eq!(chunk.properties, Chunk { length: 10, width: 10, height: 4 });
    assert_eq!(chunk.generation, 0);
    assert_eq!(chunk.blocks.iter().filter(|block| block.pickable).count(), 100);
    assert_eq!(chunk.blocks.last().unwrap().transform.translation.x, 45 * UNIT);
    assert_eq!(world.chunks_spawned, 1);
    yatd::map::setup(&mut world);
    assert_eq!(world.chunk.as_ref().unwrap().generation, 1);
    assert_eq!(world.chunks_spawned, 2);
    assert!(world.camera.is_none());
    assert!(world.menu.is_none());
}

#[test]
fn setup_wraps_the_generation() {
    let mut world = World::new();
    world.chunks_spawned = u32::MAX;
    yatd::map::setup(&mut world);
    assert_eq!(world.chunk.as_ref().unwrap().generation, u32::MAX);
    assert_eq!(world.chunks_spawned, 0);
}

#[test]
fn destroy_takes_the_chunk_away() {
    let mut world = World::new();
    yatd::map::setup(&mut world);
    yatd::map::destroy(&mut world);
    assert!(world.chunk.is_none());
    assert_eq!(world.chunks_spawned, 1);
}

#[test]
fn spawn_tower_on_block_occupies_the_block() {
    let mut block = small_chunk().blocks[1];
    assert!(block.is_free());
    spawn_tower_on_block(&mut block, &assets());
    assert!(!block.is_free());
    assert!(block.properties.has_tower);
    assert!(!block.pickable);
    assert_eq!(block.tower, Some(spawn_tower(Vec3::new(0, 5 * UNIT, 0), &assets())));
    assert_eq!(block.transform, small_chunk().blocks[1].transform);
    assert_eq!(block.properties.y, 1);
}

#[test]
fn a_click_builds_a_tower_on_a_free_block() {
    let mut chunk = small_chunk();
    let before = chunk.clone();
    let events = vec![click(&chunk, 1)];
    pick_block(&assets(), &events, &mut chunk);
    assert_eq!(towers_on(&chunk), 1);
    let mut expected = before.blocks[1];
    spawn_tower_on_block(&mut expected, &assets());
    assert_eq!(chunk.blocks[1], expected);
    assert_eq!(chunk.blocks[0], before.blocks[0]);
    assert_eq!(chunk.blocks[2], before.blocks[2]);
    assert_eq!(chunk.properties, before.properties);
    assert_eq!(chunk.generation, before.generation);
    assert_eq!(chunk.transform, before.transform);
}

#[test]
fn two_clicks_on_one_block_in_a_batch_build_one_tower() {
    let mut chunk = spawn_chunk(10, 10, 4, 5 * UNIT).unwrap();
    let index = top_of(&chunk, 3, 7);
    let block = chunk.blocks[index];
    assert_eq!(block.properties.y + 1, chunk.blocks.iter().filter(|b| b.properties.x == 3 && b.properties.z == 7).count());
    let events = vec![click(&chunk, index), click(&chunk, index)];
    pick_block(&assets(), &events, &mut chunk);
    assert_eq!(towers_on(&chunk), 1);
    let placed = chunk.blocks[index];
    assert!(placed.properties.has_tower);
    assert!(!placed.pickable);
    let tower = placed.tower.unwrap();
    assert_eq!(tower.transform.translation, block.transform.translation);
    assert_eq!(
        tower.transform.translation,
        Vec3::new(15 * UNIT, block.properties.y as i64 * 5 * UNIT, 35 * UNIT)
    );
    assert_eq!(tower, spawn_tower(block.transform.translation, &assets()));
}

#[test]
fn any_number_of_clicks_on_one_block_builds_one_tower() {
    for repeats in [1usize, 2, 3, 50] {
        let mut chunk = small_chunk();
        let mut once = small_chunk();
        pick_block(&assets(), &vec![click(&once, 2)], &mut once);
        let events = vec![click(&chunk, 2); repeats];
        pick_block(&assets(), &events, &mut chunk);
        assert_eq!(chunk, once);
        assert_eq!(towers_on(&chunk), 1);
        // Later batches change nothing either.
        pick_block(&assets(), &events, &mut chunk);
        assert_eq!(chunk, once);
    }
}

#[test]
fn clicks_on_different_blocks_build_a_tower_each() {
    let mut chunk = small_chunk();
    let events = vec![click(&chunk, 2), click(&chunk, 1), click(&chunk, 2), click(&chunk, 1)];
    pick_block(&assets(), &events, &mut chunk);
    assert_eq!(towers_on(&chunk), 2);
    assert!(chunk.blocks[1].properties.has_tower);
    assert!(chunk.blocks[2].properties.has_tower);
    assert!(!chunk.blocks[0].properties.has_tower);
}

#[test]
fn events_that_are_no_clicks_are_dropped() {
    let mut chunk = small_chunk();
    let before = chunk.clone();
    let entity = Entity { generation: 7, index: 1 };
    let events = vec![PickingEvent::Hover(entity), PickingEvent::Selection(entity)];
    pick_block(&assets(), &events, &mut chunk);
    assert_eq!(chunk, before);
}

#[test]
fn clicks_on_blocks_that_are_not_there_are_dropped() {
    let mut chunk = small_chunk();
    let before = chunk.clone();
    let events = vec![
        PickingEvent::Clicked(Entity { generation: 7, index: 3 }),
        PickingEvent::Clicked(Entity { generation: 7, index: usize::MAX }),
        PickingEvent::Clicked(Entity { generation: 6, index: 1 }),
        PickingEvent::Clicked(Entity { generation: 8, index: 2 }),
    ];
    pick_block(&assets(), &events, &mut chunk);
    assert_eq!(chunk, before);
}

#[test]
fn clicks_on_blocks_that_cannot_be_picked_are_dropped() {
    let mut chunk = small_chunk();
    let before = chunk.clone();
    assert!(!chunk.blocks[0].pickable);
    pick_block(&assets(), &vec![click(&chunk, 0)], &mut chunk);
    assert_eq!(chunk, before);
}

#[test]
fn clicks_on_an_occupied_block_are_dropped() {
    let mut chunk = small_chunk();
    chunk.blocks[1].properties.has_tower = true;
    let before = chunk.clone();
    pick_block(&assets(), &vec![click(&chunk, 1)], &mut chunk);
    assert_eq!(chunk, before);
    assert_eq!(towers_on(&chunk), 0);
}

#[test]
fn an_empty_batch_changes_nothing() {
    let mut chunk = small_chunk();
    let before = chunk.clone();
    pick_block(&assets(), &Vec::new(), &mut chunk);
    assert_eq!(chunk, before);
}

#[test]
fn a_dropped_event_does_not_stop_the_batch() {
    let mut chunk = small_chunk();
    let events = vec![
        PickingEvent::Clicked(Entity { generation: 0, index: 1 }),
        PickingEvent::Hover(Entity { generation: 7, index: 1 }),
        click(&chunk, 0),
        click(&chunk, 1),
    ];
    pick_block(&assets(), &events, &mut chunk);
    assert_eq!(towers_on(&chunk), 1);
    assert!(chunk.blocks[1].tower.is_some());
}
