//! The game: the phase machine, the parts that are tied to its phases, and
//! the world they work on.
//!
//! A part is tied to a phase by its plugin. When the game leaves a phase, the
//! parts tied to it take what they own out of the world; when it enters one,
//! the parts tied to it put theirs in. Between two changes each frame runs the
//! parts of the current phase: the menu, then the camera, then picking, then
//! the towers' aim.

use crate::camera::{
    camera_controller, lemma_frame_keeps_eye_in_bounds, spec_camera_controller, ActionState,
    CameraBundle, CameraPlugin,
};
use crate::game_state::{GameState, GameStatePlugin, State};
use crate::map::{
    is_initial_chunk, lemma_pick_all_builds_at_most_once, pick_block, spec_pick_all, BlockBundle,
    MapPlugin, PickingEvent,
};
use crate::start_menu::{
    button_selection, lemma_selection_keeps_phase, spec_button_selection, spec_buttons,
    Interaction, MenuOutcome, StartMenuPlugin,
};
use crate::tower::{
    aim_towers, lemma_aim_and_clear_keep_blocks_consistent, spec_aim, spec_cleared,
    spec_towers_cleared,
    TowerAssets, TowerPlugin,
};
use crate::world::World;
use vstd::prelude::*;

verus! {

/// What the outside hands the game for one frame: how long the frame lasted,
/// which directions are held down, what the pointer did to blocks, and what it
/// did to buttons of the menu, each as the index of a button and its new
/// interaction.
#[derive(PartialEq, Eq, Debug)]
pub struct FrameInput {
    pub delta_ms: u32,
    pub actions: ActionState,
    pub picks: Vec<PickingEvent>,
    pub interactions: Vec<(usize, Interaction)>,
}

/// The machine itself: the phase, the plugins that were added, and the world.
#[derive(PartialEq, Eq, Debug)]
pub struct Game {
    pub state: State,
    pub start_menu: Option<StartMenuPlugin>,
    pub camera: Option<CameraPlugin>,
    pub map: Option<MapPlugin>,
    pub tower: Option<TowerPlugin>,
    pub world: World,
}

/// Whether a part that is tied to `desired` belongs to `phase`.
fn tied_to(desired: Option<GameState>, phase: GameState) -> (tied: bool)
    ensures
        tied == (desired == Some(phase)),
{
    match desired {
        Some(state) => state == phase,
        None => false,
    }
}

/// The blocks after the frame's picking and aiming, as far as each of the two
/// runs.
pub open spec fn spec_frame_blocks(
    blocks: Seq<BlockBundle>,
    generation: u32,
    input: FrameInput,
    tower_assets: TowerAssets,
    picking: bool,
    aiming: bool,
) -> Seq<BlockBundle> {
    let picked = if picking {
        spec_pick_all(blocks, generation, input.picks@, tower_assets)
    } else {
        blocks
    };
    if aiming {
        picked.map_values(|block: BlockBundle| spec_aim(block, input.delta_ms))
    } else {
        picked
    }
}

impl Game {
    /// Whether the menu is tied to `phase`.
    pub open spec fn spec_menu_in(&self, phase: GameState) -> bool {
        self.start_menu matches Some(plugin) && plugin.desired_state == Some(phase)
    }

    /// Whether the camera is made when `phase` is entered and taken away
    /// when it is left.
    pub open spec fn spec_camera_in(&self, phase: GameState) -> bool {
        self.camera matches Some(plugin) && plugin.desired_state == Some(phase)
    }

    /// Whether the camera is moved during `phase`: it is tied to the phase,
    /// or to none and so lives in all.
    pub open spec fn spec_camera_moves_in(&self, phase: GameState) -> bool {
        self.camera matches Some(plugin) && (plugin.desired_state is None || plugin.desired_state
            == Some(phase))
    }

    /// Whether the map is tied to `phase`.
    pub open spec fn spec_map_in(&self, phase: GameState) -> bool {
        self.map matches Some(plugin) && plugin.desired_state == Some(phase)
    }

    /// Whether the towers are tied to `phase`.
    pub open spec fn spec_tower_in(&self, phase: GameState) -> bool {
        self.tower matches Some(plugin) && plugin.desired_state == Some(phase)
    }

    #[verifier::when_used_as_spec(spec_menu_in)]
    pub fn menu_in(&self, phase: GameState) -> (tied: bool)
        ensures
            tied == self.spec_menu_in(phase),
    {
        match self.start_menu {
            Some(plugin) => tied_to(plugin.desired_state, phase),
            None => false,
        }
    }

    #[verifier::when_used_as_spec(spec_camera_in)]
    pub fn camera_in(&self, phase: GameState) -> (tied: bool)
        ensures
            tied == self.spec_camera_in(phase),
    {
        match self.camera {
            Some(plugin) => tied_to(plugin.desired_state, phase),
            None => false,
        }
    }

    #[verifier::when_used_as_spec(spec_camera_moves_in)]
    pub fn camera_moves_in(&self, phase: GameState) -> (moves: bool)
        ensures
            moves == self.spec_camera_moves_in(phase),
    {
        match self.camera {
            Some(plugin) => plugin.desired_state.is_none() || tied_to(plugin.desired_state, phase),
            None => false,
        }
    }

    #[verifier::when_used_as_spec(spec_map_in)]
    pub fn map_in(&self, phase: GameState) -> (tied: bool)
        ensures
            tied == self.spec_map_in(phase),
    {
        match self.map {
            Some(plugin) => tied_to(plugin.desired_state, phase),
            None => false,
        }
    }

    #[verifier::when_used_as_spec(spec_tower_in)]
    pub fn tower_in(&self, phase: GameState) -> (tied: bool)
        ensures
            tied == self.spec_tower_in(phase),
    {
        match self.tower {
            Some(plugin) => tied_to(plugin.desired_state, phase),
            None => false,
        }
    }

    /// A game with no plugins and an empty world, about to enter the start
    /// menu.
    pub fn new() -> (game: Game)
        ensures
            game.state == (State { current: GameState::StartMenu, next: Some(GameState::StartMenu) }),
            game.start_menu is None,
            game.camera is None,
            game.map is None,
            game.tower is None,
            game.world.camera is None,
            game.world.chunk is None,
            game.world.menu is None,
            game.world.tower_assets == (TowerAssets { cannon_mesh: 0, body_mesh: 0, material: 0 }),
            game.world.chunks_spawned == 0,
    {
        Game {
            state: State::new(GameState::StartMenu),
            start_menu: None,
            camera: None,
            map: None,
            tower: None,
            world: World::new(),
        }
    }

    /// Whether the plugins are those of the game as it is played: the menu
    /// tied to the start menu; the camera, the map and the towers tied to the
    /// defense.
    pub open spec fn is_standard(&self) -> bool {
        &&& self.start_menu == Some(StartMenuPlugin { desired_state: Some(GameState::StartMenu) })
        &&& self.camera == Some(CameraPlugin { desired_state: Some(GameState::Defense) })
        &&& self.map == Some(MapPlugin { desired_state: Some(GameState::Defense) })
        &&& self.tower == Some(TowerPlugin { desired_state: Some(GameState::Defense) })
    }

    /// The game as it is played, about to enter the start menu, its world
    /// still empty.
    pub fn standard() -> (game: Game)
        ensures
            game.is_standard(),
            game.state == (State { current: GameState::StartMenu, next: Some(GameState::StartMenu) }),
            game.world.camera is None,
            game.world.chunk is None,
            game.world.menu is None,
            game.world.tower_assets == (TowerAssets { cannon_mesh: 0, body_mesh: 0, material: 0 }),
            game.world.chunks_spawned == 0,
    {
        let mut game: Game = Game::new();
        GameStatePlugin.build(&mut game);
        StartMenuPlugin::run_in_state(GameState::StartMenu).build(&mut game);
        CameraPlugin::run_in_state(GameState::Defense).build(&mut game);
        MapPlugin::run_in_state(GameState::Defense).build(&mut game);
        TowerPlugin::run_in_state(GameState::Defense).build(&mut game);
        game
    }

    /// Whether `after` is what a change to `new_phase` makes of `before`.
    ///
    /// Each part that is tied to the phase that is left takes what it owns out
    /// of the world: the menu its buttons, the camera itself, the map its
    /// chunk with all that stands on it, the towers themselves. Then the
    /// phase is `new_phase`, and each part that is tied to it puts its own in:
    /// a fresh menu, the camera where a game starts with it, a freshly made
    /// chunk. A request for a further change stays as it is.
    pub open spec fn spec_transitioned(before: Game, new_phase: GameState, after: Game) -> bool {
        let old_phase = before.state.current;
        &&& after.state == (State { current: new_phase, next: before.state.next })
        &&& after.start_menu == before.start_menu
        &&& after.camera == before.camera
        &&& after.map == before.map
        &&& after.tower == before.tower
        &&& after.world.tower_assets == before.world.tower_assets
        &&& if before.menu_in(new_phase) {
            after.world.menu matches Some(menu) && menu.buttons@ == spec_buttons()
        } else if before.menu_in(old_phase) {
            after.world.menu is None
        } else {
            after.world.menu == before.world.menu
        }
        &&& after.world.camera == if before.camera_in(new_phase) {
            Some(CameraBundle::spec_initial())
        } else if before.camera_in(old_phase) {
            None
        } else {
            before.world.camera
        }
        &&& if before.map_in(new_phase) {
            &&& after.world.chunk matches Some(chunk)
            &&& is_initial_chunk(chunk, before.world.chunks_spawned)
            &&& after.world.chunks_spawned == before.world.chunks_spawned.wrapping_add(1)
        } else {
            &&& after.world.chunks_spawned == before.world.chunks_spawned
            &&& if before.map_in(old_phase) {
                after.world.chunk is None
            } else if before.tower_in(old_phase) {
                spec_towers_cleared(before.world.chunk, after.world.chunk)
            } else {
                after.world.chunk == before.world.chunk
            }
        }
    }

    /// Changes the phase to `new_phase`, at once: the parts of the phase that
    /// is left are torn down, then those of the new phase are set up. A
    /// change to the phase that the game is in tears down and sets up again.
    pub fn transition(&mut self, new_phase: GameState)
        ensures
            Game::spec_transitioned(*old(self), new_phase, *final(self)),
    {
        let old_phase: GameState = self.state.current;
        if self.menu_in(old_phase) {
            crate::start_menu::destroy(&mut self.world);
        }
        if self.camera_in(old_phase) {
            crate::camera::destroy(&mut self.world);
        }
        if self.map_in(old_phase) {
            crate::map::destroy(&mut self.world);
        }
        if self.tower_in(old_phase) {
            crate::tower::destroy(&mut self.world);
        }
        self.state.current = new_phase;
        if self.menu_in(new_phase) {
            crate::start_menu::setup(&mut self.world);
        }
        if self.camera_in(new_phase) {
            crate::camera::setup(&mut self.world);
        }
        if self.map_in(new_phase) {
            crate::map::setup(&mut self.world);
        }
    }

    /// Whether `after` and `exit` are what a frame's updates make of
    /// `before`, with no change of phase.
    ///
    /// If the menu belongs to the phase and is there, it takes the frame's
    /// changes of interaction; should one of them end the game, `exit` is the
    /// code and nothing else runs. Otherwise the camera moves if it belongs to
    /// the phase, then the pointer's events are worked through if the map
    /// belongs to the phase, then the cannons turn if the towers do. Events
    /// that come while the map does not belong to the phase are dropped. In
    /// the end phase nothing belongs to the phase, and nothing changes.
    pub open spec fn spec_framed(
        before: Game,
        input: FrameInput,
        after: Game,
        exit: Option<i32>,
    ) -> bool {
        let phase = before.state.current;
        let menu_runs = before.menu_in(phase) && before.world.menu is Some;
        let selection = if menu_runs {
            spec_button_selection(
                before.world.menu->0.buttons@,
                before.state,
                input.interactions@,
            )
        } else {
            MenuOutcome { buttons: Seq::empty(), game_state: before.state, exit: None }
        };
        let running = selection.exit is None;
        &&& exit == selection.exit
        &&& after.state == selection.game_state
        &&& after.start_menu == before.start_menu
        &&& after.camera == before.camera
        &&& after.map == before.map
        &&& after.tower == before.tower
        &&& after.world.tower_assets == before.world.tower_assets
        &&& after.world.chunks_spawned == before.world.chunks_spawned
        &&& if menu_runs {
            after.world.menu matches Some(menu) && menu.buttons@ == selection.buttons
        } else {
            after.world.menu == before.world.menu
        }
        &&& after.world.camera == if running && before.camera_moves_in(phase) {
            match before.world.camera {
                Some(bundle) => Some(spec_camera_controller(bundle, input.delta_ms, input.actions)),
                None => None,
            }
        } else {
            before.world.camera
        }
        &&& match before.world.chunk {
            Some(chunk) => if running && (before.map_in(phase) || before.tower_in(phase)) {
                &&& after.world.chunk matches Some(worked)
                &&& worked.transform == chunk.transform
                &&& worked.properties == chunk.properties
                &&& worked.generation == chunk.generation
                &&& worked.blocks@ == spec_frame_blocks(
                    chunk.blocks@,
                    chunk.generation,
                    input,
                    before.world.tower_assets,
                    before.map_in(phase),
                    before.tower_in(phase),
                )
            } else {
                after.world.chunk == before.world.chunk
            },
            None => after.world.chunk is None,
        }
    }

    /// Whether `after` and `exit` are what a frame makes of `before`: first
    /// the change of phase that was asked for, if one was, then the updates
    /// of the phase the game is then in.
    pub open spec fn spec_updated(
        before: Game,
        input: FrameInput,
        after: Game,
        exit: Option<i32>,
    ) -> bool {
        match before.state.next {
            Some(next) => exists|entered: Game|
                Game::spec_transitioned(
                    Game {
                        state: State { current: before.state.current, next: None },
                        ..before
                    },
                    next,
                    entered,
                ) && Game::spec_framed(entered, input, after, exit),
            None => Game::spec_framed(before, input, after, exit),
        }
    }

    /// Runs one frame. A change of phase that was asked for is carried out
    /// first; then the parts of the current phase are updated with `input`.
    /// Hands back the exit code if the frame ended the game: the caller is
    /// then to end the process with it.
    pub fn update(&mut self, input: &FrameInput) -> (exit: Option<i32>)
        ensures
            Game::spec_updated(*old(self), *input, *final(self), exit),
    {
        match self.state.next {
            Some(next) => {
                self.state.next = None;
                self.transition(next);
            },
            None => {},
        }
        let ghost entered = *self;
        let phase: GameState = self.state.current;
        let mut exit: Option<i32> = None;
        if self.menu_in(phase) {
            match &mut self.world.menu {
                Some(menu) => {
                    exit = button_selection(&mut self.state, menu, &input.interactions);
                },
                None => {},
            }
        }
        if exit.is_some() {
            assert(Game::spec_framed(entered, *input, *self, exit));
            return exit;
        }
        if self.camera_moves_in(phase) {
            camera_controller(input.delta_ms, &mut self.world.camera, &input.actions);
        }
        if self.map_in(phase) {
            match &mut self.world.chunk {
                Some(chunk) => {
                    pick_block(&self.world.tower_assets, &input.picks, chunk);
                },
                None => {},
            }
        }
        if self.tower_in(phase) {
            match &mut self.world.chunk {
                Some(chunk) => {
                    aim_towers(input.delta_ms, &mut chunk.blocks);
                },
                None => {},
            }
        }
        assert(Game::spec_framed(entered, *input, *self, None));
        None
    }
}

impl Game {
    /// Whether nothing is in the world that belongs to another phase than
    /// the one the game is in: a menu only in the start menu, a camera and a
    /// chunk only in the defense.
    pub open spec fn parts_in_phase(&self) -> bool {
        &&& self.world.menu is Some ==> self.state.current == GameState::StartMenu
        &&& self.world.camera is Some ==> self.state.current == GameState::Defense
        &&& self.world.chunk is Some ==> self.state.current == GameState::Defense
    }

    /// Whether the marks of every block agree with what stands on it: see
    /// [`BlockBundle::consistent`].
    pub open spec fn blocks_consistent(&self) -> bool {
        self.world.chunk matches Some(chunk) ==> forall|i: int|
            0 <= i < chunk.blocks@.len() ==> (#[trigger] chunk.blocks@[i]).consistent()
    }

    /// Whether the camera, if there is one, is drawn with a frame whose axes
    /// are at right angles and has its eye inside its bounds.
    pub open spec fn camera_in_bounds(&self) -> bool {
        self.world.camera matches Some(bundle) ==> bundle.transform.orthogonal()
            && bundle.eye_in_bounds()
    }
}

/// In the game as it is played, a change of phase leaves in the world what
/// belongs to the new phase and nothing else: the menu is there exactly in
/// the start menu, the camera and the chunk exactly in the defense, and in
/// the end phase there is nothing.
pub proof fn lemma_transition_keeps_parts_in_phase(before: Game, new_phase: GameState, after: Game)
    requires
        before.is_standard(),
        before.parts_in_phase(),
        Game::spec_transitioned(before, new_phase, after),
    ensures
        after.is_standard(),
        after.parts_in_phase(),
        after.state.current == new_phase,
        after.world.menu is Some <==> new_phase == GameState::StartMenu,
        after.world.camera is Some <==> new_phase == GameState::Defense,
        after.world.chunk is Some <==> new_phase == GameState::Defense,
{
}

/// In the game as it is played, a frame's updates neither put anything into
/// the world nor take anything out of it.
pub proof fn lemma_frame_keeps_parts_in_phase(
    before: Game,
    input: FrameInput,
    after: Game,
    exit: Option<i32>,
)
    requires
        before.is_standard(),
        before.parts_in_phase(),
        Game::spec_framed(before, input, after, exit),
    ensures
        after.is_standard(),
        after.parts_in_phase(),
        after.state.current == before.state.current,
        after.world.menu is Some <==> before.world.menu is Some,
        after.world.camera is Some <==> before.world.camera is Some,
        after.world.chunk is Some <==> before.world.chunk is Some,
{
    if before.world.menu is Some {
        lemma_selection_keeps_phase(
            before.world.menu->0.buttons@,
            before.state,
            input.interactions@,
        );
    }
}

/// In the game as it is played, whatever a frame is handed, nothing is in the
/// world after it that belongs to another phase than the one the game is then
/// in.
pub proof fn lemma_update_keeps_parts_in_phase(
    before: Game,
    input: FrameInput,
    after: Game,
    exit: Option<i32>,
)
    requires
        before.is_standard(),
        before.parts_in_phase(),
        Game::spec_updated(before, input, after, exit),
    ensures
        after.is_standard(),
        after.parts_in_phase(),
{
    match before.state.next {
        Some(next) => {
            let waiting = Game {
                state: State { current: before.state.current, next: None },
                ..before
            };
            let entered = choose|entered: Game|
                Game::spec_transitioned(waiting, next, entered) && Game::spec_framed(
                    entered,
                    input,
                    after,
                    exit,
                );
            lemma_transition_keeps_parts_in_phase(waiting, next, entered);
            lemma_frame_keeps_parts_in_phase(entered, input, after, exit);
        },
        None => {
            lemma_frame_keeps_parts_in_phase(before, input, after, exit);
        },
    }
}

/// Whatever the plugins and whatever a frame is handed, a camera whose eye is
/// inside its bounds before the frame has its eye inside its bounds after it:
/// the camera that a change of phase puts into the world starts inside, and
/// no update takes it out.
pub proof fn lemma_update_keeps_camera_in_bounds(
    before: Game,
    input: FrameInput,
    after: Game,
    exit: Option<i32>,
)
    requires
        before.camera_in_bounds(),
        Game::spec_updated(before, input, after, exit),
    ensures
        after.camera_in_bounds(),
{
    let entered = match before.state.next {
        Some(next) => choose|entered: Game|
            Game::spec_transitioned(
                Game { state: State { current: before.state.current, next: None }, ..before },
                next,
                entered,
            ) && Game::spec_framed(entered, input, after, exit),
        None => before,
    };
    assert(entered.camera_in_bounds());
    if entered.world.camera is Some {
        lemma_frame_keeps_eye_in_bounds(entered.world.camera->0, input.delta_ms, input.actions);
    }
}

/// Whatever the plugins and whatever a frame is handed, the marks of every
/// block agree with what stands on it after the frame if they did before: a
/// block with a tower is marked as occupied and cannot be picked.
pub proof fn lemma_update_keeps_blocks_consistent(
    before: Game,
    input: FrameInput,
    after: Game,
    exit: Option<i32>,
)
    requires
        before.blocks_consistent(),
        Game::spec_updated(before, input, after, exit),
    ensures
        after.blocks_consistent(),
{
    let entered = match before.state.next {
        Some(next) => choose|entered: Game|
            Game::spec_transitioned(
                Game { state: State { current: before.state.current, next: None }, ..before },
                next,
                entered,
            ) && Game::spec_framed(entered, input, after, exit),
        None => before,
    };
    assert(entered.blocks_consistent()) by {
        if before.world.chunk is Some {
            let blocks = before.world.chunk->0.blocks@;
            assert forall|i: int| 0 <= i < blocks.len() implies #[trigger] spec_cleared(
                blocks[i],
            ).consistent() by {
                lemma_aim_and_clear_keep_blocks_consistent(blocks[i], 0);
            }
        }
    }
    if entered.world.chunk is Some && after.world.chunk is Some {
        let chunk = entered.world.chunk->0;
        let picked = if entered.map_in(entered.state.current) {
            spec_pick_all(chunk.blocks@, chunk.generation, input.picks@, entered.world.tower_assets)
        } else {
            chunk.blocks@
        };
        lemma_pick_all_builds_at_most_once(
            chunk.blocks@,
            chunk.generation,
            input.picks@,
            entered.world.tower_assets,
        );
        assert forall|i: int| 0 <= i < picked.len() implies (#[trigger] picked[i]).consistent()
            && spec_aim(picked[i], input.delta_ms).consistent() by {
            assert(chunk.blocks@[i].consistent());
            lemma_aim_and_clear_keep_blocks_consistent(picked[i], input.delta_ms);
        }
    }
}

/// In the game as it is played, the end phase is idle: whatever a frame is
/// handed there, it changes nothing and does not end the game.
pub proof fn lemma_end_phase_is_idle(
    before: Game,
    input: FrameInput,
    after: Game,
    exit: Option<i32>,
)
    requires
        before.is_standard(),
        before.state.current == GameState::End,
        Game::spec_framed(before, input, after, exit),
    ensures
        exit is None,
        after.state == before.state,
        after.world.menu == before.world.menu,
        after.world.camera == before.world.camera,
        after.world.chunk == before.world.chunk,
        after.world.tower_assets == before.world.tower_assets,
        after.world.chunks_spawned == before.world.chunks_spawned,
{
}

/// In the game as it is played, going from the start menu to the defense
/// takes the menu away and makes one camera, where a game starts with it, and
/// one chunk, freshly generated, with no tower on it. Going back to the start
/// menu takes camera and chunk away again, with all blocks and towers, and
/// leaves a fresh menu and nothing else.
pub proof fn lemma_defense_is_set_up_and_torn_down(before: Game, entered: Game, left: Game)
    requires
        before.is_standard(),
        before.state.current == GameState::StartMenu,
        Game::spec_transitioned(before, GameState::Defense, entered),
        Game::spec_transitioned(entered, GameState::StartMenu, left),
    ensures
        entered.world.menu is None,
        entered.world.camera == Some(CameraBundle::spec_initial()),
        entered.world.chunk matches Some(chunk) && is_initial_chunk(
            chunk,
            before.world.chunks_spawned,
        ),
        left.world.camera is None,
        left.world.chunk is None,
        left.world.menu matches Some(menu) && menu.buttons@ == spec_buttons(),
{
}

impl CameraPlugin {
    /// Adds the camera to the game. A camera that is tied to no phase is put
    /// into the world at once and lives in every phase.
    pub fn build(&self, game: &mut Game)
        ensures
            final(game).camera == Some(*self),
            final(game).state == old(game).state,
            final(game).start_menu == old(game).start_menu,
            final(game).map == old(game).map,
            final(game).tower == old(game).tower,
            final(game).world == if self.desired_state is None {
                World { camera: Some(CameraBundle::spec_initial()), ..old(game).world }
            } else {
                old(game).world
            },
    {
        game.camera = Some(*self);
        if self.desired_state.is_none() {
            crate::camera::setup(&mut game.world);
        }
    }
}

impl MapPlugin {
    /// Adds the map to the game. The plugin has to be tied to a phase.
    pub fn build(&self, game: &mut Game)
        requires
            self.desired_state is Some,
        ensures
            *final(game) == (Game { map: Some(*self), ..*old(game) }),
    {
        game.map = Some(*self);
    }
}

impl TowerPlugin {
    /// Adds the towers to the game. The plugin has to be tied to a phase.
    pub fn build(&self, game: &mut Game)
        requires
            self.desired_state is Some,
        ensures
            *final(game) == (Game { tower: Some(*self), ..*old(game) }),
    {
        game.tower = Some(*self);
    }
}

impl StartMenuPlugin {
    /// Adds the start menu to the game. The plugin has to be tied to a
    /// phase.
    pub fn build(&self, game: &mut Game)
        requires
            self.desired_state is Some,
        ensures
            *final(game) == (Game { start_menu: Some(*self), ..*old(game) }),
    {
        game.start_menu = Some(*self);
    }
}

} // verus!
