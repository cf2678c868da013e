use yatd::camera::{ActionState, CameraAction, CameraPlugin};
use yatd::game::{FrameInput, Game};
use yatd::game_state::{GameState, GameStatePlugin, State};
use yatd::map::{Entity, MapPlugin, PickingEvent};
use yatd::space::Vec3;
use yatd::start_menu::{Interaction, Menu, StartMenuPlugin};
use yatd::tower::{TowerAssets, TowerPlugin};

fn quiet(delta_ms: u32) -> FrameInput {
    FrameInput {
        delta_ms,
        actions: ActionState::default(),
        picks: Vec::new(),
        interactions: Vec::new(),
    }
}

fn clicking(button: usize) -> FrameInput {
    FrameInput { interactions: vec![(button, Interaction::Clicked)], ..quiet(16) }
}

fn picking(picks: Vec<PickingEvent>, delta_ms: u32) -> FrameInput {
    FrameInput { picks, ..quiet(delta_ms) }
}

fn towers_in(game: &Game) -> usize {
    match &game.world.chunk {
        Some(chunk) => chunk.blocks.iter().filter(|block| block.tower.is_some()).count(),
        None => 0,
    }
}

fn first_top(game: &Game) -> Entity {
    let chunk = game.world.chunk.as_ref().unwrap();
    let index = chunk.blocks.iter().position(|block| block.pickable).unwrap();
    Entity { generation: chunk.generation, index }
}

/// A game that has gone from the start menu into the defense.
fn in_defense() -> Game {
    let mut game = Game::standard();
    assert_eq!(game.update(&quiet(16)), None);
    assert_eq!(game.update(&clicking(1)), None);
    assert_eq!(game.update(&quiet(0)), None);
    assert_eq!(game.state.current(), GameState::Defense);
    game
}

#[test]
fn a_new_game_has_nothing_in_it() {
    let game = Game::new();
    assert_eq!(game.state, State { current: GameState::StartMenu, next: Some(GameState::StartMenu) });
    assert_eq!(game.start_menu, None);
    assert_eq!(game.camera, None);
    assert_eq!(game.map, None);
    assert_eq!(game.tower, None);
    assert!(game.world.camera.is_none());
    assert!(game.world.chunk.is_none());
    assert!(game.world.menu.is_none());
    assert_eq!(game.world.tower_assets, TowerAssets::default());
    assert_eq!(game.world.chunks_spawned, 0);
}

#[test]
fn the_standard_game_ties_each_part_to_its_phase() {
    let game = Game::standard();
    assert_eq!(game.state, State { current: GameState::StartMenu, next: Some(GameState::StartMenu) });
    assert_eq!(game.start_menu, Some(StartMenuPlugin::run_in_state(GameState::StartMenu)));
    assert_eq!(game.camera, Some(CameraPlugin::run_in_state(GameState::Defense)));
    assert_eq!(game.map, Some(MapPlugin::run_in_state(GameState::Defense)));
    assert_eq!(game.tower, Some(TowerPlugin::run_in_state(GameState::Defense)));
    assert!(game.menu_in(GameState::StartMenu));
    assert!(!game.menu_in(GameState::Defense));
    assert!(game.camera_in(GameState::Defense));
    assert!(game.camera_moves_in(GameState::Defense));
    assert!(!game.camera_moves_in(GameState::End));
    assert!(game.map_in(GameState::Defense));
    assert!(game.tower_in(GameState::Defense));
    assert!(!game.tower_in(GameState::StartMenu));
    assert!(game.world.menu.is_none());
}

#[test]
fn game_state_plugin_makes_the_start_menu_the_first_phase() {
    let mut game = Game::new();
    game.state = State { current: GameState::End, next: None };
    GameStatePlugin.build(&mut game);
    assert_eq!(game.state, State { current: GameState::StartMenu, next: Some(GameState::StartMenu) });
}

#[test]
fn the_first_frame_enters_the_start_menu() {
    let mut game = Game::standard();
    assert_eq!(game.update(&quiet(16)), None);
    assert_eq!(game.state, State { current: GameState::StartMenu, next: None });
    assert_eq!(game.world.menu, Some(Menu::new()));
    assert!(game.world.camera.is_none());
    assert!(game.world.chunk.is_none());
}

#[test]
fn entering_the_defense_makes_camera_and_chunk_and_no_tower() {
    let game = in_defense();
    assert!(game.world.menu.is_none());
    let camera = game.world.camera.unwrap();
    assert_eq!(camera.look_transform.eye, Vec3::new(-50_000_000, 150_000_000, 50_000_000));
    let chunk = game.world.chunk.as_ref().unwrap();
    assert_eq!(chunk.generation, 0);
    assert_eq!(chunk.blocks.iter().filter(|block| block.pickable).count(), 100);
    assert!((100..=300).contains(&chunk.blocks.len()));
    assert_eq!(towers_in(&game), 0);
    assert_eq!(game.world.chunks_spawned, 1);
}

#[test]
fn going_back_to_the_start_menu_leaves_nothing_of_the_defense() {
    let mut game = in_defense();
    let top = first_top(&game);
    game.update(&picking(vec![PickingEvent::Clicked(top)], 16));
    assert_eq!(towers_in(&game), 1);
    game.state.set(GameState::StartMenu);
    assert_eq!(game.update(&quiet(16)), None);
    assert_eq!(game.state, State { current: GameState::StartMenu, next: None });
    assert!(game.world.camera.is_none());
    assert!(game.world.chunk.is_none());
    assert_eq!(towers_in(&game), 0);
    assert_eq!(game.world.menu, Some(Menu::new()));
}

#[test]
fn a_second_defense_gets_a_new_chunk() {
    let mut game = in_defense();
    let stale = first_top(&game);
    game.transition(GameState::StartMenu);
    game.transition(GameState::Defense);
    let chunk = game.world.chunk.as_ref().unwrap();
    assert_eq!(chunk.generation, 1);
    assert_eq!(game.world.chunks_spawned, 2);
    // An event that names a block of the chunk that is gone is dropped.
    game.update(&picking(vec![PickingEvent::Clicked(stale)], 16));
    assert_eq!(towers_in(&game), 0);
    let fresh = first_top(&game);
    game.update(&picking(vec![PickingEvent::Clicked(fresh)], 16));
    assert_eq!(towers_in(&game), 1);
}

#[test]
fn quit_ends_the_game_with_code_zero() {
    let mut game = Game::standard();
    game.update(&quiet(16));
    assert_eq!(game.update(&clicking(2)), Some(0));
    assert_eq!(game.state, State { current: GameState::StartMenu, next: None });
    assert!(game.world.camera.is_none());
    assert!(game.world.chunk.is_none());
}

#[test]
fn continue_changes_nothing() {
    let mut game = Game::standard();
    game.update(&quiet(16));
    assert_eq!(game.update(&clicking(0)), None);
    assert_eq!(game.state, State { current: GameState::StartMenu, next: None });
    assert_eq!(game.world.menu.as_ref().unwrap().buttons[0].interaction, Interaction::Clicked);
}

#[test]
fn new_game_is_entered_with_the_next_frame() {
    let mut game = Game::standard();
    game.update(&quiet(16));
    assert_eq!(game.update(&clicking(1)), None);
    assert_eq!(game.state, State { current: GameState::StartMenu, next: Some(GameState::Defense) });
    assert!(game.world.menu.is_some());
    assert!(game.world.camera.is_none());
    game.update(&quiet(16));
    assert_eq!(game.state, State { current: GameState::Defense, next: None });
}

#[test]
fn a_frame_of_the_defense_moves_builds_and_aims() {
    let mut game = in_defense();
    let top = first_top(&game);
    let place = game.world.chunk.as_ref().unwrap().blocks[top.index].transform.translation;
    let mut actions = ActionState::default();
    actions.press(CameraAction::ZoomOut);
    let input = FrameInput {
        delta_ms: 100,
        actions,
        picks: vec![PickingEvent::Clicked(top), PickingEvent::Clicked(top)],
        interactions: vec![(1, Interaction::Clicked)],
    };
    assert_eq!(game.update(&input), None);
    assert_eq!(
        game.world.camera.unwrap().look_transform.eye,
        Vec3::new(-57_550_000, 172_650_000, 57_550_000)
    );
    assert_eq!(towers_in(&game), 1);
    let block = game.world.chunk.as_ref().unwrap().blocks[top.index];
    assert!(block.properties.has_tower);
    let tower = block.tower.unwrap();
    assert_eq!(tower.transform.translation, place);
    // The tower is built before the cannons turn, so it turns in this frame.
    assert_eq!(tower.cannon.angle, 100_000);
    // No menu is there in the defense to take the click.
    assert_eq!(game.state, State { current: GameState::Defense, next: None });
    game.update(&quiet(50));
    let block = game.world.chunk.as_ref().unwrap().blocks[top.index];
    assert_eq!(block.tower.unwrap().cannon.angle, 150_000);
}

#[test]
fn the_start_menu_drops_keys_and_picks() {
    let mut game = Game::standard();
    game.update(&quiet(16));
    let mut actions = ActionState::default();
    actions.press(CameraAction::MoveUp);
    let input = FrameInput {
        delta_ms: 16,
        actions,
        picks: vec![PickingEvent::Clicked(Entity { generation: 0, index: 0 })],
        interactions: Vec::new(),
    };
    assert_eq!(game.update(&input), None);
    assert!(game.world.camera.is_none());
    assert!(game.world.chunk.is_none());
    assert_eq!(game.world.menu, Some(Menu::new()));
    // The events are not kept for the defense either.
    game.update(&clicking(1));
    game.update(&quiet(16));
    assert_eq!(towers_in(&game), 0);
}

#[test]
fn the_end_phase_is_idle() {
    let mut game = in_defense();
    game.state.set(GameState::End);
    assert_eq!(game.update(&quiet(16)), None);
    assert_eq!(game.state, State { current: GameState::End, next: None });
    assert!(game.world.camera.is_none());
    assert!(game.world.chunk.is_none());
    assert!(game.world.menu.is_none());
    let mut actions = ActionState::default();
    actions.press(CameraAction::ZoomIn);
    let input = FrameInput {
        delta_ms: 1000,
        actions,
        picks: vec![PickingEvent::Clicked(Entity { generation: 0, index: 0 })],
        interactions: vec![(2, Interaction::Clicked), (1, Interaction::Clicked)],
    };
    for _ in 0..3 {
        assert_eq!(game.update(&input), None);
        assert_eq!(game.state, State { current: GameState::End, next: None });
        assert!(game.world.camera.is_none());
        assert!(game.world.chunk.is_none());
        assert!(game.world.menu.is_none());
    }
}

#[test]
fn transition_to_the_same_phase_sets_up_again() {
    let mut game = in_defense();
    let top = first_top(&game);
    game.update(&picking(vec![PickingEvent::Clicked(top)], 16));
    let mut actions = ActionState::default();
    actions.press(CameraAction::ZoomOut);
    game.update(&FrameInput { actions, ..quiet(100) });
    game.transition(GameState::Defense);
    assert_eq!(game.state.current(), GameState::Defense);
    assert_eq!(towers_in(&game), 0);
    assert_eq!(game.world.chunk.as_ref().unwrap().generation, 1);
    assert_eq!(
        game.world.camera.unwrap().look_transform.eye,
        Vec3::new(-50_000_000, 150_000_000, 50_000_000)
    );
}

#[test]
fn transition_keeps_a_pending_request() {
    let mut game = Game::standard();
    game.state = State { current: GameState::StartMenu, next: Some(GameState::End) };
    game.transition(GameState::Defense);
    assert_eq!(game.state, State { current: GameState::Defense, next: Some(GameState::End) });
}

#[test]
fn a_game_without_plugins_only_changes_phase() {
    let mut game = Game::new();
    game.update(&quiet(16));
    game.transition(GameState::Defense);
    assert_eq!(game.state, State { current: GameState::Defense, next: None });
    assert!(game.world.camera.is_none());
    assert!(game.world.chunk.is_none());
    assert!(game.world.menu.is_none());
}

#[test]
fn a_camera_tied_to_no_phase_lives_in_all() {
    let mut game = Game::new();
    CameraPlugin::new().build(&mut game);
    assert!(game.world.camera.is_some());
    assert!(!game.camera_in(GameState::StartMenu));
    assert!(game.camera_moves_in(GameState::StartMenu));
    assert!(game.camera_moves_in(GameState::End));
    let mut actions = ActionState::default();
    actions.press(CameraAction::ZoomOut);
    game.update(&FrameInput { actions, ..quiet(100) });
    assert_eq!(
        game.world.camera.unwrap().look_transform.eye,
        Vec3::new(-57_550_000, 172_650_000, 57_550_000)
    );
    game.transition(GameState::End);
    game.transition(GameState::Defense);
    assert_eq!(
        game.world.camera.unwrap().look_transform.eye,
        Vec3::new(-57_550_000, 172_650_000, 57_550_000)
    );
}

#[test]
fn plugins_can_be_tied_to_other_phases() {
    let mut game = Game::new();
    StartMenuPlugin::run_in_state(GameState::End).build(&mut game);
    MapPlugin::run_in_state(GameState::StartMenu).build(&mut game);
    TowerPlugin::run_in_state(GameState::StartMenu).build(&mut game);
    CameraPlugin::run_in_state(GameState::StartMenu).build(&mut game);
    assert!(game.world.camera.is_none());
    game.update(&quiet(16));
    assert!(game.world.camera.is_some());
    assert!(game.world.chunk.is_some());
    assert!(game.world.menu.is_none());
    game.transition(GameState::End);
    assert!(game.world.camera.is_none());
    assert!(game.world.chunk.is_none());
    assert_eq!(game.world.menu, Some(Menu::new()));
    assert_eq!(game.update(&clicking(2)), Some(0));
}

#[test]
fn towers_leave_with_their_phase_and_blocks_stay_with_theirs() {
    let mut game = Game::new();
    MapPlugin::run_in_state(GameState::StartMenu).build(&mut game);
    TowerPlugin::run_in_state(GameState::Defense).build(&mut game);
    game.update(&quiet(16));
    let top = first_top(&game);
    // Picking belongs to the map, so a tower can be built here.
    game.update(&picking(vec![PickingEvent::Clicked(top)], 500));
    assert_eq!(towers_in(&game), 1);
    let block = game.world.chunk.as_ref().unwrap().blocks[top.index];
    // Aiming belongs to the towers, which are not of this phase.
    assert_eq!(block.tower.unwrap().cannon.angle, 0);
    game.map = Some(MapPlugin::run_in_state(GameState::End));
    game.state.current = GameState::Defense;
    game.update(&quiet(500));
    let block = game.world.chunk.as_ref().unwrap().blocks[top.index];
    assert_eq!(block.tower.unwrap().cannon.angle, 500_000);
    game.transition(GameState::StartMenu);
    assert_eq!(towers_in(&game), 0);
    let block = game.world.chunk.as_ref().unwrap().blocks[top.index];
    assert!(block.properties.has_tower);
    assert!(!block.pickable);
}
