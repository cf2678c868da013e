//! The map: a chunk of stacked blocks with columns of random height, and the
//! rule by which a picked block gets its tower.

use crate::game_state::GameState;
use crate::space::{fits_i64, Transform, Vec3, UNIT};
use crate::tower::{spawn_tower, spec_spawn_tower, TowerAssets, TowerBundle};
use crate::world::World;
use vstd::prelude::*;

verus! {

/// Ties the map to a phase of the game.
#[derive(Copy, Clone, PartialEq, Eq, Structural, Debug)]
pub struct MapPlugin {
    pub desired_state: Option<GameState>,
}

impl MapPlugin {
    /// A map that is tied to no phase yet.
    pub fn new() -> (plugin: Self)
        ensures
            plugin.desired_state is None,
    {
        Self { desired_state: None }
    }

    /// A map that lives while the game is in `state`.
    pub fn run_in_state(state: GameState) -> (plugin: Self)
        ensures
            plugin.desired_state == Some(state),
    {
        Self { desired_state: Some(state) }
    }
}

impl Default for MapPlugin {
    fn default() -> (plugin: Self)
        ensures
            plugin.desired_state is None,
    {
        Self { desired_state: None }
    }
}

/// What a block is made of.
#[derive(Copy, Clone, PartialEq, Eq, Structural, Debug)]
pub enum BlockKind {
    Dirt,
    Stone,
}

/// A block's place in the grid, its kind, and whether a tower has ever been
/// built on it.
#[derive(Copy, Clone, PartialEq, Eq, Structural, Debug)]
pub struct Block {
    pub x: usize,
    pub y: usize,
    pub z: usize,
    pub kind: BlockKind,
    pub has_tower: bool,
}

/// A block in the world: where it stands, whether the pointer can pick it,
/// and the tower on it, if one stands there.
#[derive(Copy, Clone, PartialEq, Eq, Debug)]
pub struct BlockBundle {
    pub properties: Block,
    pub transform: Transform,
    pub pickable: bool,
    pub tower: Option<TowerBundle>,
}

/// The extents of a chunk: `length` by `width` columns, each lower than
/// `height`.
#[derive(Copy, Clone, PartialEq, Eq, Structural, Debug)]
pub struct Chunk {
    pub length: usize,
    pub width: usize,
    pub height: usize,
}

impl Default for Chunk {
    fn default() -> (chunk: Self)
        ensures
            chunk == (Chunk { length: 0, width: 0, height: 0 }),
    {
        Chunk { length: 0, width: 0, height: 0 }
    }
}

/// A chunk with the blocks it owns. `generation` tells this chunk from those
/// that were there before it.
#[derive(PartialEq, Eq, Debug)]
pub struct ChunkBundle {
    pub transform: Transform,
    pub properties: Chunk,
    pub generation: u32,
    pub blocks: Vec<BlockBundle>,
}

impl Clone for ChunkBundle {
    fn clone(&self) -> (copy: Self)
        ensures
            copy.transform == self.transform,
            copy.properties == self.properties,
            copy.generation == self.generation,
            copy.blocks@ == self.blocks@,
    {
        let mut blocks: Vec<BlockBundle> = Vec::new();
        let mut i: usize = 0;
        while i < self.blocks.len()
            invariant
                i <= self.blocks.len(),
                blocks@ == self.blocks@.take(i as int),
            decreases self.blocks.len() - i,
        {
            blocks.push(self.blocks[i]);
            i = i + 1;
        }
        ChunkBundle {
            transform: self.transform,
            properties: self.properties,
            generation: self.generation,
            blocks,
        }
    }
}

impl Default for ChunkBundle {
    fn default() -> (chunk: Self)
        ensures
            chunk.transform == Transform::spec_from_translation(Vec3 { x: 0, y: 0, z: 0 }),
            chunk.properties == (Chunk { length: 0, width: 0, height: 0 }),
            chunk.generation == 0,
            chunk.blocks@ == Seq::<BlockBundle>::empty(),
    {
        ChunkBundle {
            transform: Transform::default(),
            properties: Chunk::default(),
            generation: 0,
            blocks: Vec::new(),
        }
    }
}

/// Names a block: the generation of the chunk it belongs to and its index
/// among that chunk's blocks.
#[derive(Copy, Clone, PartialEq, Eq, Structural, Hash, Debug)]
pub struct Entity {
    pub generation: u32,
    pub index: usize,
}

/// What the pointer did to a block.
#[derive(Copy, Clone, PartialEq, Eq, Structural, Debug)]
pub enum PickingEvent {
    Selection(Entity),
    Hover(Entity),
    Clicked(Entity),
}

/// Why a chunk cannot be made.
#[derive(Copy, Clone, PartialEq, Eq, Structural, Debug)]
pub enum MapError {
    /// The height is less than two, so that no column could have a block.
    HeightTooSmall,
    /// A block of the chunk would stand where no position can be written.
    TooLarge,
}

/// Whether `n` blocks of size `block_size` in a row can all be given a
/// position.
pub open spec fn extent_fits(n: usize, block_size: i64) -> bool {
    n == 0 || fits_i64((n - 1) * block_size)
}

/// The reason for which a chunk of these extents is refused, if it is.
pub open spec fn spec_refusal(length: usize, width: usize, height: usize, block_size: i64) -> Option<
    MapError,
> {
    if height < 2 {
        Some(MapError::HeightTooSmall)
    } else if !(extent_fits(length, block_size) && extent_fits(width, block_size) && extent_fits(
        (height - 1) as usize,
        block_size,
    )) {
        Some(MapError::TooLarge)
    } else {
        None
    }
}

/// The height of a column for which `draw` was drawn: between one and
/// `height - 1`.
pub open spec fn spec_column_height(draw: usize, height: usize) -> usize {
    ((draw as int) % (height - 1) + 1) as usize
}

/// The stone block at grid place `(l, h, w)`; `top` says whether it is the
/// highest of its column.
pub open spec fn spec_block(l: usize, h: usize, w: usize, top: bool, block_size: i64) -> BlockBundle {
    BlockBundle {
        properties: Block { x: l, y: h, z: w, kind: BlockKind::Stone, has_tower: false },
        transform: Transform::spec_from_translation(
            Vec3 {
                x: (l * block_size) as i64,
                y: (h * block_size) as i64,
                z: (w * block_size) as i64,
            },
        ),
        pickable: top,
        tower: None,
    }
}

/// The column at `(l, w)` with `height` blocks, from the ground up. Only the
/// highest can be picked.
pub open spec fn spec_column(l: usize, w: usize, height: usize, block_size: i64) -> Seq<
    BlockBundle,
> {
    Seq::new(
        height as nat,
        |h: int| spec_block(l, h as usize, w, h == height - 1, block_size),
    )
}

/// The first `columns` columns of row `l`, whose heights are `heights`.
pub open spec fn spec_row(l: usize, heights: Seq<usize>, block_size: i64, columns: nat) -> Seq<
    BlockBundle,
>
    decreases columns,
{
    if columns == 0 {
        Seq::empty()
    } else {
        spec_row(l, heights, block_size, (columns - 1) as nat) + spec_column(
            l,
            (columns - 1) as usize,
            heights[columns - 1],
            block_size,
        )
    }
}

/// The first `rows` rows of the grid whose column at `(l, w)` has the height
/// `heights[l][w]`.
pub open spec fn spec_grid(heights: Seq<Seq<usize>>, block_size: i64, rows: nat) -> Seq<
    BlockBundle,
>
    decreases rows,
{
    if rows == 0 {
        Seq::empty()
    } else {
        spec_grid(heights, block_size, (rows - 1) as nat) + spec_row(
            (rows - 1) as usize,
            heights[rows - 1],
            block_size,
            heights[rows - 1].len(),
        )
    }
}

/// Whether `heights` gives every column of a `length` by `width` grid a
/// height between one and `height - 1`.
pub open spec fn heights_allowed(
    heights: Seq<Seq<usize>>,
    length: usize,
    width: usize,
    height: usize,
) -> bool {
    &&& heights.len() == length
    &&& forall|l: int| 0 <= l < length ==> (#[trigger] heights[l]).len() == width
    &&& forall|l: int, w: int|
        0 <= l < length && 0 <= w < width ==> 1 <= #[trigger] heights[l][w] <= height - 1
}

/// Whether `blocks` is a grid of `length` by `width` columns, row after row
/// and in each row column after column, for some choice of heights that the
/// extents allow.
pub open spec fn is_generated(
    blocks: Seq<BlockBundle>,
    length: usize,
    width: usize,
    height: usize,
    block_size: i64,
) -> bool {
    exists|heights: Seq<Seq<usize>>|
        heights_allowed(heights, length, width, height) && blocks == spec_grid(
            heights,
            block_size,
            length as nat,
        )
}

/// The blocks of `blocks` that stand in column `(l, w)`, in the order in
/// which they come.
pub open spec fn column_of(blocks: Seq<BlockBundle>, l: usize, w: usize) -> Seq<BlockBundle> {
    blocks.filter(|block: BlockBundle| block.properties.x == l && block.properties.z == w)
}

/// The blocks of `blocks` that can be picked.
pub open spec fn pickable_of(blocks: Seq<BlockBundle>) -> Seq<BlockBundle> {
    blocks.filter(|block: BlockBundle| block.pickable)
}

/// The number of towers that stand on `blocks`.
pub open spec fn tower_count(blocks: Seq<BlockBundle>) -> nat
    decreases blocks.len(),
{
    if blocks.len() == 0 {
        0
    } else {
        tower_count(blocks.drop_last()) + if blocks.last().tower is Some {
            1nat
        } else {
            0nat
        }
    }
}

/// Whether `column` is the column at `(l, w)` of a chunk: a stack of between
/// one and `height - 1` stone blocks, block `h` of it standing `h` blocks
/// above the ground, of which the highest, and no other, can be picked.
pub open spec fn is_stack(
    column: Seq<BlockBundle>,
    l: usize,
    w: usize,
    height: usize,
    block_size: i64,
) -> bool {
    &&& 1 <= column.len() <= height - 1
    &&& forall|h: int|
        0 <= h < column.len() ==> #[trigger] column[h] == spec_block(
            l,
            h as usize,
            w,
            h == column.len() - 1,
            block_size,
        )
}

/// Whether each of the `length` by `width` columns is a stack in `blocks`:
/// see [`is_stack`].
pub open spec fn columns_are_stacks(
    blocks: Seq<BlockBundle>,
    length: usize,
    width: usize,
    height: usize,
    block_size: i64,
) -> bool {
    forall|l: usize, w: usize|
        l < length && w < width ==> is_stack(
            #[trigger] column_of(blocks, l, w),
            l,
            w,
            height,
            block_size,
        )
}

/// Calls `rand::random::<usize>()`, which draws from the thread's generator
/// and fails only where the system cannot seed that generator. Nothing is
/// claimed of the number that comes back.
#[verifier::external_body]
fn random_usize() -> usize {
    rand::random::<usize>()
}

/// Whether `n` rows of blocks can be given a position.
fn check_extent(n: usize, block_size: i64) -> (fits: bool)
    ensures
        fits == extent_fits(n, block_size),
{
    if n == 0 {
        true
    } else {
        assert(-0x8000_0000_0000_0000 * 0xFFFF_FFFF_FFFF_FFFF <= (n - 1) * block_size
            <= 0x7FFF_FFFF_FFFF_FFFF * 0xFFFF_FFFF_FFFF_FFFF) by (nonlinear_arith)
            requires
                -0x8000_0000_0000_0000 <= block_size <= 0x7FFF_FFFF_FFFF_FFFF,
                0 <= n - 1 <= 0xFFFF_FFFF_FFFF_FFFF,
        ;
        let far: i128 = ((n - 1) as i128) * (block_size as i128);
        (i64::MIN as i128) <= far && far <= (i64::MAX as i128)
    }
}

/// `n * block_size`, the distance from the first block of a row to block `n`.
fn scaled(n: usize, block_size: i64) -> (distance: i64)
    requires
        fits_i64(n * block_size),
    ensures
        distance == n * block_size,
{
    let far: i128 = (n as i128) * (block_size as i128);
    far as i64
}

/// The height of a column for which `draw` was drawn.
pub fn column_height(draw: usize, height: usize) -> (column: usize)
    requires
        height >= 2,
    ensures
        column == spec_column_height(draw, height),
        1 <= column <= height - 1,
{
    draw % (height - 1) + 1
}

/// Adds to `blocks` the column that stands at `(l, w)` when `draw` was drawn
/// for it: stone blocks from the ground up, each a block's size above the one
/// below, the highest one pickable.
pub fn spawn_column(
    blocks: &mut Vec<BlockBundle>,
    l: usize,
    w: usize,
    draw: usize,
    height: usize,
    block_size: i64,
)
    requires
        height >= 2,
        fits_i64(l * block_size),
        fits_i64(w * block_size),
        extent_fits((height - 1) as usize, block_size),
    ensures
        final(blocks)@ == old(blocks)@ + spec_column(
            l,
            w,
            spec_column_height(draw, height),
            block_size,
        ),
{
    let column: usize = column_height(draw, height);
    let x: i64 = scaled(l, block_size);
    let z: i64 = scaled(w, block_size);
    let mut h: usize = 0;
    while h < column
        invariant
            h <= column <= height - 1,
            x == l * block_size,
            z == w * block_size,
            extent_fits((height - 1) as usize, block_size),
            blocks@ == old(blocks)@ + spec_column(l, w, column, block_size).take(h as int),
        decreases column - h,
    {
        proof {
            lemma_inside_extent(h as int, (height - 1) as usize, block_size);
        }
        let y: i64 = scaled(h, block_size);
        blocks.push(
            BlockBundle {
                properties: Block { x: l, y: h, z: w, kind: BlockKind::Stone, has_tower: false },
                transform: Transform::from_translation(Vec3::new(x, y, z)),
                pickable: h == column - 1,
                tower: None,
            },
        );
        h = h + 1;
        assert(blocks@ == old(blocks)@ + spec_column(l, w, column, block_size).take(h as int));
    }
    assert(spec_column(l, w, column, block_size).take(column as int) == spec_column(
        l,
        w,
        column,
        block_size,
    ));
}

/// Makes a chunk of `length` by `width` columns of stone. The height of each
/// column is drawn at random between one and `height - 1`; its blocks stand
/// at whole multiples of `block_size` and its highest block alone can be
/// picked. The columns come row after row. No tower stands anywhere yet.
///
/// A `height` below two is refused, and so are extents whose farthest block
/// would have no position; everything else is made.
pub fn spawn_chunk(length: usize, width: usize, height: usize, block_size: i64) -> (made: Result<
    ChunkBundle,
    MapError,
>)
    ensures
        match made {
            Ok(chunk) => {
                &&& spec_refusal(length, width, height, block_size) is None
                &&& chunk.transform == Transform::spec_from_translation(Vec3 { x: 0, y: 0, z: 0 })
                &&& chunk.properties == (Chunk { length, width, height })
                &&& chunk.generation == 0
                &&& is_generated(chunk.blocks@, length, width, height, block_size)
                &&& columns_are_stacks(chunk.blocks@, length, width, height, block_size)
                &&& pickable_of(chunk.blocks@).len() == length * width
                &&& length * width <= chunk.blocks@.len() <= length * width * (height - 1)
                &&& tower_count(chunk.blocks@) == 0
                &&& forall|i: int|
                    0 <= i < chunk.blocks@.len() ==> (#[trigger] chunk.blocks@[i]).is_untouched()
            },
            Err(error) => spec_refusal(length, width, height, block_size) == Some(error),
        },
{
    if height < 2 {
        return Err(MapError::HeightTooSmall);
    }
    if !(check_extent(length, block_size) && check_extent(width, block_size) && check_extent(
        height - 1,
        block_size,
    )) {
        return Err(MapError::TooLarge);
    }
    let mut blocks: Vec<BlockBundle> = Vec::new();
    let ghost mut heights: Seq<Seq<usize>> = Seq::empty();
    let mut l: usize = 0;
    while l < length
        invariant
            l <= length,
            height >= 2,
            extent_fits(length, block_size),
            extent_fits(width, block_size),
            extent_fits((height - 1) as usize, block_size),
            heights_allowed(heights, l, width, height),
            blocks@ == spec_grid(heights, block_size, l as nat),
        decreases length - l,
    {
        let ghost row_start = blocks@;
        let ghost mut row: Seq<usize> = Seq::empty();
        let mut w: usize = 0;
        while w < width
            invariant
                w <= width,
                l < length,
                height >= 2,
                extent_fits(length, block_size),
                extent_fits(width, block_size),
                extent_fits((height - 1) as usize, block_size),
                row.len() == w,
                forall|i: int| 0 <= i < w ==> 1 <= #[trigger] row[i] <= height - 1,
                blocks@ == row_start + spec_row(l, row, block_size, w as nat),
            decreases width - w,
        {
            proof {
                lemma_inside_extent(l as int, length, block_size);
                lemma_inside_extent(w as int, width, block_size);
            }
            let draw: usize = random_usize();
            spawn_column(&mut blocks, l, w, draw, height, block_size);
            proof {
                let column = spec_column_height(draw, height);
                lemma_row_prefix(l, row, row.push(column), block_size, w as nat);
                row = row.push(column);
            }
            w = w + 1;
        }
        proof {
            lemma_grid_prefix(heights, heights.push(row), block_size, l as nat);
            heights = heights.push(row);
        }
        l = l + 1;
    }
    proof {
        lemma_generated_columns(blocks@, length, width, height, block_size);
        lemma_generated_counts(blocks@, length, width, height, block_size);
        lemma_generated_has_no_towers(blocks@, length, width, height, block_size);
        lemma_generated_is_untouched(blocks@, length, width, height, block_size);
    }
    Ok(
        ChunkBundle {
            transform: Transform::default(),
            properties: Chunk { length, width, height },
            generation: 0,
            blocks,
        },
    )
}

/// Rows of columns in the map that a game is played on.
pub const MAP_LENGTH: usize = 10;

/// Columns in each row of the map that a game is played on.
pub const MAP_WIDTH: usize = 10;

/// The height that every column of the map stays below.
pub const MAP_HEIGHT: usize = 4;

/// The size of a block of the map, in ticks: five units.
pub const BLOCK_SIZE: i64 = 5 * UNIT;

/// Whether `chunk` is a map that a game is played on, made as the chunk of
/// the given generation: ten by ten columns of blocks five units wide, each
/// column between one and three blocks high, with no tower on it.
pub open spec fn is_initial_chunk(chunk: ChunkBundle, generation: u32) -> bool {
    &&& chunk.transform == Transform::spec_from_translation(Vec3 { x: 0, y: 0, z: 0 })
    &&& chunk.properties == (Chunk { length: MAP_LENGTH, width: MAP_WIDTH, height: MAP_HEIGHT })
    &&& chunk.generation == generation
    &&& is_generated(chunk.blocks@, MAP_LENGTH, MAP_WIDTH, MAP_HEIGHT, BLOCK_SIZE)
    &&& columns_are_stacks(chunk.blocks@, MAP_LENGTH, MAP_WIDTH, MAP_HEIGHT, BLOCK_SIZE)
    &&& pickable_of(chunk.blocks@).len() == 100
    &&& 100 <= chunk.blocks@.len() <= 300
    &&& tower_count(chunk.blocks@) == 0
    &&& forall|i: int| 0 <= i < chunk.blocks@.len() ==> (#[trigger] chunk.blocks@[i]).is_untouched()
}

/// Puts a freshly made map into the world: see [`is_initial_chunk`]. The
/// chunk's generation is the number of chunks made before it, counted
/// modulo 2^32. A chunk that was there is replaced, with all that stood on
/// it.
pub fn setup(world: &mut World)
    ensures
        final(world).chunk matches Some(chunk) && is_initial_chunk(
            chunk,
            old(world).chunks_spawned,
        ),
        final(world).chunks_spawned == old(world).chunks_spawned.wrapping_add(1),
        final(world).camera == old(world).camera,
        final(world).menu == old(world).menu,
        final(world).tower_assets == old(world).tower_assets,
{
    assert(spec_refusal(MAP_LENGTH, MAP_WIDTH, MAP_HEIGHT, BLOCK_SIZE) is None);
    match spawn_chunk(MAP_LENGTH, MAP_WIDTH, MAP_HEIGHT, BLOCK_SIZE) {
        Ok(mut chunk) => {
            chunk.generation = world.chunks_spawned;
            world.chunks_spawned = world.chunks_spawned.wrapping_add(1);
            world.chunk = Some(chunk);
        },
        Err(_) => vstd::pervasive::unreached(),
    }
}

/// Takes the chunk out of the world, and with it its blocks and the towers on
/// them.
pub fn destroy(world: &mut World)
    ensures
        *final(world) == (World { chunk: None, ..*old(world) }),
{
    world.chunk = None;
}

/// Between the first and the last block of a row that fits, every block fits.
proof fn lemma_inside_extent(i: int, n: usize, block_size: i64)
    requires
        0 <= i < n,
        extent_fits(n, block_size),
    ensures
        fits_i64(i * block_size),
{
    assert(fits_i64(i * block_size)) by (nonlinear_arith)
        requires
            0 <= i <= n - 1,
            i64::MIN <= (n - 1) * block_size <= i64::MAX,
            i64::MIN <= block_size <= i64::MAX,
    {
        if block_size >= 0 {
            assert(0 <= i * block_size <= (n - 1) * block_size);
        } else {
            assert((n - 1) * block_size <= i * block_size <= 0);
        }
    }
}

/// The blocks of a row's first columns depend on the heights of those columns
/// alone.
proof fn lemma_row_prefix(
    l: usize,
    short: Seq<usize>,
    long: Seq<usize>,
    block_size: i64,
    columns: nat,
)
    requires
        columns <= short.len() <= long.len(),
        forall|i: int| 0 <= i < columns ==> short[i] == long[i],
    ensures
        spec_row(l, short, block_size, columns) == spec_row(l, long, block_size, columns),
    decreases columns,
{
    if columns != 0 {
        lemma_row_prefix(l, short, long, block_size, (columns - 1) as nat);
    }
}

/// The blocks of a grid's first rows depend on the heights in those rows
/// alone.
proof fn lemma_grid_prefix(
    short: Seq<Seq<usize>>,
    long: Seq<Seq<usize>>,
    block_size: i64,
    rows: nat,
)
    requires
        rows <= short.len() <= long.len(),
        forall|i: int| 0 <= i < rows ==> short[i] == long[i],
    ensures
        spec_grid(short, block_size, rows) == spec_grid(long, block_size, rows),
    decreases rows,
{
    if rows != 0 {
        lemma_grid_prefix(short, long, block_size, (rows - 1) as nat);
    }
}

proof fn lemma_filter_all<A>(s: Seq<A>, pred: spec_fn(A) -> bool)
    requires
        forall|i: int| 0 <= i < s.len() ==> pred(#[trigger] s[i]),
    ensures
        s.filter(pred) == s,
    decreases s.len(),
{
    reveal(Seq::filter);
    if s.len() != 0 {
        lemma_filter_all(s.drop_last(), pred);
        assert(s.drop_last().push(s.last()) == s);
    }
}

proof fn lemma_filter_none<A>(s: Seq<A>, pred: spec_fn(A) -> bool)
    requires
        forall|i: int| 0 <= i < s.len() ==> !pred(#[trigger] s[i]),
    ensures
        s.filter(pred) == Seq::<A>::empty(),
    decreases s.len(),
{
    reveal(Seq::filter);
    if s.len() != 0 {
        lemma_filter_none(s.drop_last(), pred);
    }
}

/// What a row holds of column `(l, w)`: the whole column if the row is row
/// `l` and has got as far as `w`, else nothing.
proof fn lemma_column_of_row(
    row: usize,
    heights: Seq<usize>,
    block_size: i64,
    columns: nat,
    l: usize,
    w: usize,
)
    requires
        columns <= heights.len(),
        columns <= usize::MAX,
    ensures
        column_of(spec_row(row, heights, block_size, columns), l, w) == if row == l && w
            < columns {
            spec_column(l, w, heights[w as int], block_size)
        } else {
            Seq::<BlockBundle>::empty()
        },
    decreases columns,
{
    let pred = |block: BlockBundle| block.properties.x == l && block.properties.z == w;
    if columns == 0 {
        lemma_filter_none(spec_row(row, heights, block_size, columns), pred);
    } else {
        let before = spec_row(row, heights, block_size, (columns - 1) as nat);
        let last = spec_column(row, (columns - 1) as usize, heights[columns - 1], block_size);
        lemma_column_of_row(row, heights, block_size, (columns - 1) as nat, l, w);
        Seq::filter_distributes_over_add(before, last, pred);
        if row == l && w == columns - 1 {
            lemma_filter_all(last, pred);
        } else {
            lemma_filter_none(last, pred);
        }
    }
}

/// What a grid holds of column `(l, w)`: the whole column if the grid has got
/// as far as row `l`, else nothing.
proof fn lemma_column_of_grid(
    heights: Seq<Seq<usize>>,
    block_size: i64,
    rows: nat,
    width: usize,
    l: usize,
    w: usize,
)
    requires
        rows <= heights.len(),
        rows <= usize::MAX,
        w < width,
        forall|r: int| 0 <= r < rows ==> (#[trigger] heights[r]).len() == width,
    ensures
        column_of(spec_grid(heights, block_size, rows), l, w) == if l < rows {
            spec_column(l, w, heights[l as int][w as int], block_size)
        } else {
            Seq::<BlockBundle>::empty()
        },
    decreases rows,
{
    let pred = |block: BlockBundle| block.properties.x == l && block.properties.z == w;
    if rows == 0 {
        lemma_filter_none(spec_grid(heights, block_size, rows), pred);
    } else {
        let before = spec_grid(heights, block_size, (rows - 1) as nat);
        let row = heights[rows - 1];
        let last = spec_row((rows - 1) as usize, row, block_size, row.len());
        lemma_column_of_grid(heights, block_size, (rows - 1) as nat, width, l, w);
        lemma_column_of_row((rows - 1) as usize, row, block_size, row.len(), l, w);
        Seq::filter_distributes_over_add(before, last, pred);
    }
}

/// In a generated chunk every column is a stack of between one and
/// `height - 1` blocks, and the highest block of each, and no other, can be
/// picked.
pub proof fn lemma_generated_columns(
    blocks: Seq<BlockBundle>,
    length: usize,
    width: usize,
    height: usize,
    block_size: i64,
)
    requires
        is_generated(blocks, length, width, height, block_size),
    ensures
        columns_are_stacks(blocks, length, width, height, block_size),
{
    let heights = choose|heights: Seq<Seq<usize>>|
        heights_allowed(heights, length, width, height) && blocks == spec_grid(
            heights,
            block_size,
            length as nat,
        );
    assert forall|l: usize, w: usize| l < length && w < width implies is_stack(
        #[trigger] column_of(blocks, l, w),
        l,
        w,
        height,
        block_size,
    ) by {
        lemma_column_of_grid(heights, block_size, length as nat, width, l, w);
        assert(1 <= heights[l as int][w as int] <= height - 1);
    }
}

/// The pickable blocks of a row's first columns are as many as the columns,
/// and the row has at least one block and at most `height - 1` blocks for
/// each of them.
proof fn lemma_row_counts(
    row: usize,
    heights: Seq<usize>,
    block_size: i64,
    columns: nat,
    height: usize,
)
    requires
        columns <= heights.len(),
        forall|i: int| 0 <= i < columns ==> 1 <= #[trigger] heights[i] <= height - 1,
    ensures
        pickable_of(spec_row(row, heights, block_size, columns)).len() == columns,
        columns <= spec_row(row, heights, block_size, columns).len() <= columns * (height - 1),
    decreases columns,
{
    let pred = |block: BlockBundle| block.pickable;
    if columns == 0 {
        lemma_filter_none(spec_row(row, heights, block_size, columns), pred);
    } else {
        let before = spec_row(row, heights, block_size, (columns - 1) as nat);
        let h = heights[columns - 1];
        let last = spec_column(row, (columns - 1) as usize, h, block_size);
        lemma_row_counts(row, heights, block_size, (columns - 1) as nat, height);
        Seq::filter_distributes_over_add(before, last, pred);
        lemma_filter_none(last.drop_last(), pred);
        assert(last.drop_last().push(last.last()) == last);
        assert(pickable_of(last) == seq![last.last()]) by {
            reveal(Seq::filter);
        }
        assert(columns * (height - 1) == (columns - 1) * (height - 1) + (height - 1))
            by (nonlinear_arith);
    }
}

/// The pickable blocks of a grid's first rows are as many as the columns in
/// those rows, and the grid has at least one block and at most `height - 1`
/// blocks for each of them.
proof fn lemma_grid_counts(
    heights: Seq<Seq<usize>>,
    block_size: i64,
    rows: nat,
    width: usize,
    height: usize,
)
    requires
        rows <= heights.len(),
        forall|r: int| 0 <= r < rows ==> (#[trigger] heights[r]).len() == width,
        forall|r: int, w: int|
            0 <= r < rows && 0 <= w < width ==> 1 <= #[trigger] heights[r][w] <= height - 1,
    ensures
        pickable_of(spec_grid(heights, block_size, rows)).len() == rows * width,
        rows * width <= spec_grid(heights, block_size, rows).len() <= rows * width * (height
            - 1),
    decreases rows,
{
    let pred = |block: BlockBundle| block.pickable;
    if rows == 0 {
        lemma_filter_none(spec_grid(heights, block_size, rows), pred);
        assert(rows * width == 0 && rows * width * (height - 1) == 0) by (nonlinear_arith)
            requires
                rows == 0,
        ;
    } else {
        let before = spec_grid(heights, block_size, (rows - 1) as nat);
        let row = heights[rows - 1];
        let last = spec_row((rows - 1) as usize, row, block_size, row.len());
        lemma_grid_counts(heights, block_size, (rows - 1) as nat, width, height);
        assert forall|i: int| 0 <= i < row.len() implies 1 <= #[trigger] row[i] <= height - 1 by {
            assert(1 <= heights[rows - 1][i] <= height - 1);
        }
        lemma_row_counts((rows - 1) as usize, row, block_size, row.len(), height);
        Seq::filter_distributes_over_add(before, last, pred);
        assert(rows * width == (rows - 1) * width + width) by (nonlinear_arith);
        assert(rows * width * (height - 1) == (rows - 1) * width * (height - 1) + width * (height
            - 1)) by (nonlinear_arith);
    }
}

/// A generated chunk has exactly one pickable block for each of its columns,
/// and at least one block and at most `height - 1` blocks for each of them.
pub proof fn lemma_generated_counts(
    blocks: Seq<BlockBundle>,
    length: usize,
    width: usize,
    height: usize,
    block_size: i64,
)
    requires
        is_generated(blocks, length, width, height, block_size),
    ensures
        pickable_of(blocks).len() == length * width,
        length * width <= blocks.len() <= length * width * (height - 1),
{
    let heights = choose|heights: Seq<Seq<usize>>|
        heights_allowed(heights, length, width, height) && blocks == spec_grid(
            heights,
            block_size,
            length as nat,
        );
    lemma_grid_counts(heights, block_size, length as nat, width, height);
}

/// Blocks none of which has a tower have no towers.
proof fn lemma_no_towers(blocks: Seq<BlockBundle>)
    requires
        forall|i: int| 0 <= i < blocks.len() ==> (#[trigger] blocks[i]).tower is None,
    ensures
        tower_count(blocks) == 0,
    decreases blocks.len(),
{
    if blocks.len() != 0 {
        lemma_no_towers(blocks.drop_last());
    }
}

proof fn lemma_row_is_untouched(row: usize, heights: Seq<usize>, block_size: i64, columns: nat)
    ensures
        forall|i: int|
            0 <= i < spec_row(row, heights, block_size, columns).len() ==> (#[trigger] spec_row(
                row,
                heights,
                block_size,
                columns,
            )[i]).is_untouched(),
    decreases columns,
{
    if columns != 0 {
        let before = spec_row(row, heights, block_size, (columns - 1) as nat);
        let last = spec_column(row, (columns - 1) as usize, heights[columns - 1], block_size);
        lemma_row_is_untouched(row, heights, block_size, (columns - 1) as nat);
        assert forall|i: int| 0 <= i < (before + last).len() implies (#[trigger] (before
            + last)[i]).is_untouched() by {
            if i < before.len() {
                assert(before[i].is_untouched());
            } else {
                assert(last[i - before.len()].is_untouched());
            }
        }
    }
}

proof fn lemma_grid_is_untouched(heights: Seq<Seq<usize>>, block_size: i64, rows: nat)
    ensures
        forall|i: int|
            0 <= i < spec_grid(heights, block_size, rows).len() ==> (#[trigger] spec_grid(
                heights,
                block_size,
                rows,
            )[i]).is_untouched(),
    decreases rows,
{
    if rows != 0 {
        let row = heights[rows - 1];
        let before = spec_grid(heights, block_size, (rows - 1) as nat);
        let last = spec_row((rows - 1) as usize, row, block_size, row.len());
        lemma_grid_is_untouched(heights, block_size, (rows - 1) as nat);
        lemma_row_is_untouched((rows - 1) as usize, row, block_size, row.len());
        assert forall|i: int| 0 <= i < (before + last).len() implies (#[trigger] (before
            + last)[i]).is_untouched() by {
            if i < before.len() {
                assert(before[i].is_untouched());
            } else {
                assert(last[i - before.len()].is_untouched());
            }
        }
    }
}

/// No tower stands on a chunk that has just been generated, and no block of
/// it is marked as occupied.
pub proof fn lemma_generated_is_untouched(
    blocks: Seq<BlockBundle>,
    length: usize,
    width: usize,
    height: usize,
    block_size: i64,
)
    requires
        is_generated(blocks, length, width, height, block_size),
    ensures
        forall|i: int| 0 <= i < blocks.len() ==> (#[trigger] blocks[i]).is_untouched(),
{
    let heights = choose|heights: Seq<Seq<usize>>|
        heights_allowed(heights, length, width, height) && blocks == spec_grid(
            heights,
            block_size,
            length as nat,
        );
    lemma_grid_is_untouched(heights, block_size, length as nat);
}

/// No tower stands on a chunk that has just been generated.
pub proof fn lemma_generated_has_no_towers(
    blocks: Seq<BlockBundle>,
    length: usize,
    width: usize,
    height: usize,
    block_size: i64,
)
    requires
        is_generated(blocks, length, width, height, block_size),
    ensures
        tower_count(blocks) == 0,
{
    lemma_generated_is_untouched(blocks, length, width, height, block_size);
    lemma_no_towers(blocks);
}



impl BlockBundle {
    /// Whether the block's marks agree with what stands on it: a block with
    /// a tower is marked as occupied, and an occupied block cannot be picked.
    pub open spec fn consistent(self) -> bool {
        &&& self.tower is Some ==> self.properties.has_tower
        &&& self.properties.has_tower ==> !self.pickable
    }

    /// Whether the block is as it was made: stone, with no tower on it and
    /// not marked as occupied.
    pub open spec fn is_untouched(self) -> bool {
        &&& self.properties.kind == BlockKind::Stone
        &&& !self.properties.has_tower
        &&& self.tower is None
    }

    /// The block once a tower has been built on it: occupied, no longer
    /// pickable, the tower standing at the block's own position.
    pub open spec fn spec_with_tower(self, tower_assets: TowerAssets) -> BlockBundle {
        BlockBundle {
            properties: Block { has_tower: true, ..self.properties },
            transform: self.transform,
            pickable: false,
            tower: Some(spec_spawn_tower(self.transform.translation, tower_assets)),
        }
    }

    /// Whether a click on the block builds a tower: it can be picked and none
    /// has been built on it.
    pub open spec fn spec_is_free(&self) -> bool {
        self.pickable && !self.properties.has_tower
    }

    #[verifier::when_used_as_spec(spec_is_free)]
    pub fn is_free(&self) -> (free: bool)
        ensures
            free == self.spec_is_free(),
    {
        self.pickable && !self.properties.has_tower
    }
}

/// Builds a tower on `block`, at the block's position, and marks the block
/// as occupied and no longer pickable.
pub fn spawn_tower_on_block(block: &mut BlockBundle, tower_assets: &TowerAssets)
    ensures
        *final(block) == old(block).spec_with_tower(*tower_assets),
{
    block.pickable = false;
    block.tower = Some(spawn_tower(block.transform.translation, tower_assets));
    block.properties.has_tower = true;
}

/// Whether `event` is a click on a free block of the chunk with this
/// generation and these blocks.
pub open spec fn spec_places(blocks: Seq<BlockBundle>, generation: u32, event: PickingEvent) -> bool {
    &&& event matches PickingEvent::Clicked(entity)
    &&& entity.generation == generation
    &&& entity.index < blocks.len()
    &&& blocks[entity.index as int].is_free()
}

/// The blocks after one event: a click on a free block of this chunk builds
/// a tower on it; any other event changes nothing.
pub open spec fn spec_pick(
    blocks: Seq<BlockBundle>,
    generation: u32,
    event: PickingEvent,
    tower_assets: TowerAssets,
) -> Seq<BlockBundle> {
    if spec_places(blocks, generation, event) {
        let index = event->Clicked_0.index as int;
        blocks.update(index, blocks[index].spec_with_tower(tower_assets))
    } else {
        blocks
    }
}

/// The blocks after a batch of events, each applied to what the events before
/// it left.
pub open spec fn spec_pick_all(
    blocks: Seq<BlockBundle>,
    generation: u32,
    events: Seq<PickingEvent>,
    tower_assets: TowerAssets,
) -> Seq<BlockBundle>
    decreases events.len(),
{
    if events.len() == 0 {
        blocks
    } else {
        spec_pick(
            spec_pick_all(blocks, generation, events.drop_last(), tower_assets),
            generation,
            events.last(),
            tower_assets,
        )
    }
}

/// Works through the frame's pointer events in the order they came. A click
/// on a block of this chunk that can be picked and has no tower builds one at
/// the block's position, marks the block as occupied and takes it out of
/// picking. Every other event is dropped: one that is no click, one that
/// names a block of another chunk or no block at all, and one on a block that
/// is occupied or cannot be picked.
pub fn pick_block(tower_assets: &TowerAssets, events: &Vec<PickingEvent>, chunk: &mut ChunkBundle)
    ensures
        final(chunk).blocks@ == spec_pick_all(
            old(chunk).blocks@,
            old(chunk).generation,
            events@,
            *tower_assets,
        ),
        final(chunk).transform == old(chunk).transform,
        final(chunk).properties == old(chunk).properties,
        final(chunk).generation == old(chunk).generation,
{
    let mut i: usize = 0;
    assert(events@.take(0) == Seq::<PickingEvent>::empty());
    while i < events.len()
        invariant
            i <= events.len(),
            chunk.transform == old(chunk).transform,
            chunk.properties == old(chunk).properties,
            chunk.generation == old(chunk).generation,
            chunk.blocks@ == spec_pick_all(
                old(chunk).blocks@,
                old(chunk).generation,
                events@.take(i as int),
                *tower_assets,
            ),
        decreases events.len() - i,
    {
        assert(events@.take(i + 1).drop_last() == events@.take(i as int));
        assert(events@.take(i + 1).last() == events@[i as int]);
        match events[i] {
            PickingEvent::Clicked(entity) => {
                if entity.generation == chunk.generation && entity.index < chunk.blocks.len() {
                    let mut block: BlockBundle = chunk.blocks[entity.index];
                    if block.is_free() {
                        spawn_tower_on_block(&mut block, tower_assets);
                        chunk.blocks.set(entity.index, block);
                    }
                }
            },
            _ => {},
        }
        i = i + 1;
    }
    assert(events@.take(events@.len() as int) == events@);
}

/// A batch of `repeats` clicks on the block at `index` of the chunk with this
/// generation.
pub open spec fn spec_clicks(generation: u32, index: usize, repeats: nat) -> Seq<PickingEvent> {
    Seq::new(repeats, |i: int| PickingEvent::Clicked(Entity { generation, index }))
}

/// Replacing one block changes the number of towers by what the block gains
/// or loses.
proof fn lemma_tower_count_update(blocks: Seq<BlockBundle>, index: int, block: BlockBundle)
    requires
        0 <= index < blocks.len(),
    ensures
        tower_count(blocks.update(index, block)) + (if blocks[index].tower is Some {
            1nat
        } else {
            0nat
        }) == tower_count(blocks) + (if block.tower is Some {
            1nat
        } else {
            0nat
        }),
    decreases blocks.len(),
{
    let updated = blocks.update(index, block);
    if index == blocks.len() - 1 {
        assert(updated.drop_last() == blocks.drop_last());
    } else {
        assert(updated.drop_last() == blocks.drop_last().update(index, block));
        lemma_tower_count_update(blocks.drop_last(), index, block);
    }
}

/// An event on a block that is occupied, that cannot be picked or that is not
/// there changes nothing.
pub proof fn lemma_event_on_taken_block_is_dropped(
    blocks: Seq<BlockBundle>,
    generation: u32,
    entity: Entity,
    tower_assets: TowerAssets,
)
    requires
        entity.generation != generation || entity.index >= blocks.len() || !blocks[entity.index as int].is_free(),
    ensures
        spec_pick(blocks, generation, PickingEvent::Clicked(entity), tower_assets) == blocks,
        spec_pick(blocks, generation, PickingEvent::Selection(entity), tower_assets) == blocks,
        spec_pick(blocks, generation, PickingEvent::Hover(entity), tower_assets) == blocks,
{
}

/// However often a free block is clicked in one batch, once or many times,
/// the batch builds exactly one tower: the first click builds it, at the
/// block's position, and marks the block as occupied; the clicks after it
/// change nothing. No other block is touched.
pub proof fn lemma_repeated_clicks_build_once(
    blocks: Seq<BlockBundle>,
    generation: u32,
    index: usize,
    repeats: nat,
    tower_assets: TowerAssets,
)
    requires
        repeats >= 1,
        index < blocks.len(),
        blocks[index as int].is_free(),
    ensures
        spec_pick_all(blocks, generation, spec_clicks(generation, index, repeats), tower_assets)
            == blocks.update(index as int, blocks[index as int].spec_with_tower(tower_assets)),
        blocks[index as int].tower is None ==> tower_count(
            spec_pick_all(blocks, generation, spec_clicks(generation, index, repeats), tower_assets),
        ) == tower_count(blocks) + 1,
    decreases repeats,
{
    let clicks = spec_clicks(generation, index, repeats);
    let placed = blocks.update(index as int, blocks[index as int].spec_with_tower(tower_assets));
    assert(clicks.drop_last() == spec_clicks(generation, index, (repeats - 1) as nat));
    if repeats == 1 {
        assert(spec_pick_all(blocks, generation, clicks.drop_last(), tower_assets) == blocks);
    } else {
        lemma_repeated_clicks_build_once(
            blocks,
            generation,
            index,
            (repeats - 1) as nat,
            tower_assets,
        );
        assert(!placed[index as int].is_free());
    }
    lemma_tower_count_update(
        blocks,
        index as int,
        blocks[index as int].spec_with_tower(tower_assets),
    );
}

/// Whatever a batch of events holds, it leaves the number of blocks as it
/// was, and each block either as it was or, if it was free, with the one
/// tower that a click on it builds. So a block that is occupied stays
/// occupied, no batch builds twice on one block, no block moves, and a block
/// whose marks agreed with what stood on it still has them agree.
pub proof fn lemma_pick_all_builds_at_most_once(
    blocks: Seq<BlockBundle>,
    generation: u32,
    events: Seq<PickingEvent>,
    tower_assets: TowerAssets,
)
    ensures
        spec_pick_all(blocks, generation, events, tower_assets).len() == blocks.len(),
        forall|i: int|
            0 <= i < blocks.len() ==> {
                let after = #[trigger] spec_pick_all(blocks, generation, events, tower_assets)[i];
                &&& after == blocks[i] || (blocks[i].is_free() && after
                    == blocks[i].spec_with_tower(tower_assets))
                &&& blocks[i].properties.has_tower ==> after.properties.has_tower
                &&& blocks[i].consistent() ==> after.consistent()
                &&& after.transform == blocks[i].transform
            },
    decreases events.len(),
{
    if events.len() != 0 {
        lemma_pick_all_builds_at_most_once(blocks, generation, events.drop_last(), tower_assets);
    }
}

} // verus!
