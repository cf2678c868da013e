//! The start menu: three buttons and what a click on each asks for.

use crate::game_state::{GameState, State};
use crate::world::World;
use vstd::prelude::*;

verus! {

/// Ties the start menu to a phase of the game.
#[derive(Copy, Clone, PartialEq, Eq, Structural, Debug)]
pub struct StartMenuPlugin {
    pub desired_state: Option<GameState>,
}

impl StartMenuPlugin {
    /// A menu that is tied to no phase yet.
    pub fn new() -> (plugin: Self)
        ensures
            plugin.desired_state is None,
    {
        Self { desired_state: None }
    }

    /// A menu that is shown while the game is in `state`.
    pub fn run_in_state(state: GameState) -> (plugin: Self)
        ensures
            plugin.desired_state == Some(state),
    {
        Self { desired_state: Some(state) }
    }
}

impl Default for StartMenuPlugin {
    fn default() -> (plugin: Self)
        ensures
            plugin.desired_state is None,
    {
        Self { desired_state: None }
    }
}

/// What a button of the menu asks for when it is clicked.
#[derive(Copy, Clone, PartialEq, Eq, Structural, Debug)]
pub enum ButtonAction {
    Continue,
    NewGame,
    Quit,
}

/// What the pointer is doing to a button.
#[derive(Copy, Clone, PartialEq, Eq, Structural, Debug)]
pub enum Interaction {
    Clicked,
    Hovered,
    Idle,
}

/// A button of the menu: what it asks for, and what the pointer last did to
/// it, which decides how it is drawn.
#[derive(Copy, Clone, PartialEq, Eq, Structural, Debug)]
pub struct MenuButton {
    pub action: ButtonAction,
    pub interaction: Interaction,
}

/// The menu with the buttons it owns, from top to bottom.
#[derive(PartialEq, Eq, Debug)]
pub struct Menu {
    pub buttons: Vec<MenuButton>,
}

/// The exit code with which the game ends when it is quit.
pub const EXIT_CODE: i32 = 0;

impl ButtonAction {
    pub open spec fn spec_text(&self) -> &'static str {
        match self {
            ButtonAction::Continue => "Continue",
            ButtonAction::NewGame => "New Game",
            ButtonAction::Quit => "Quit",
        }
    }

    /// What is written on the button that asks for this.
    #[verifier::when_used_as_spec(spec_text)]
    pub fn text(&self) -> (text: &'static str)
        ensures
            text == self.spec_text(),
    {
        match self {
            ButtonAction::Continue => "Continue",
            ButtonAction::NewGame => "New Game",
            ButtonAction::Quit => "Quit",
        }
    }

    /// The request for a change of phase after a click on the button:
    /// `NewGame` asks for the defense; the other two ask for nothing.
    pub open spec fn spec_requested(self, game_state: State) -> State {
        match self {
            ButtonAction::NewGame => State {
                current: game_state.current,
                next: Some(GameState::Defense),
            },
            _ => game_state,
        }
    }

    /// The exit code with which the game is to end after a click on the
    /// button, if it is to end: `Quit` ends it.
    pub open spec fn spec_exit(self) -> Option<i32> {
        match self {
            ButtonAction::Quit => Some(EXIT_CODE),
            _ => None,
        }
    }

    /// Carries out a click on the button. `NewGame` asks for the defense
    /// phase. `Quit` hands back the code with which the caller is to end the
    /// process, at once and without a change of phase. `Continue` does
    /// nothing as yet.
    pub fn run(&self, game_state: &mut State) -> (exit: Option<i32>)
        ensures
            *final(game_state) == self.spec_requested(*old(game_state)),
            exit == self.spec_exit(),
    {
        match self {
            ButtonAction::Continue => None,
            ButtonAction::NewGame => {
                game_state.set(GameState::Defense);
                None
            },
            ButtonAction::Quit => Some(EXIT_CODE),
        }
    }
}

/// The buttons of a fresh menu: continue, new game and quit, none of them
/// touched.
pub open spec fn spec_buttons() -> Seq<MenuButton> {
    seq![
        MenuButton { action: ButtonAction::Continue, interaction: Interaction::Idle },
        MenuButton { action: ButtonAction::NewGame, interaction: Interaction::Idle },
        MenuButton { action: ButtonAction::Quit, interaction: Interaction::Idle },
    ]
}

impl Menu {
    /// A fresh menu.
    pub fn new() -> (menu: Menu)
        ensures
            menu.buttons@ == spec_buttons(),
    {
        let mut buttons: Vec<MenuButton> = Vec::new();
        buttons.push(MenuButton { action: ButtonAction::Continue, interaction: Interaction::Idle });
        buttons.push(MenuButton { action: ButtonAction::NewGame, interaction: Interaction::Idle });
        buttons.push(MenuButton { action: ButtonAction::Quit, interaction: Interaction::Idle });
        Menu { buttons }
    }
}

/// Puts a fresh menu into the world, with its three buttons: continue, new
/// game and quit. A menu that was there is replaced.
pub fn setup(world: &mut World)
    ensures
        final(world).menu matches Some(menu) && menu.buttons@ == spec_buttons(),
        final(world).camera == old(world).camera,
        final(world).chunk == old(world).chunk,
        final(world).tower_assets == old(world).tower_assets,
        final(world).chunks_spawned == old(world).chunks_spawned,
{
    world.menu = Some(Menu::new());
}

/// Takes the menu and its buttons out of the world. They are taken away, not
/// hidden: nothing of the menu is left.
pub fn destroy(world: &mut World)
    ensures
        *final(world) == (World { menu: None, ..*old(world) }),
{
    world.menu = None;
}

/// The menu, the request for a change of phase and the exit code after a
/// frame's changes of interaction.
pub struct MenuOutcome {
    pub buttons: Seq<MenuButton>,
    pub game_state: State,
    pub exit: Option<i32>,
}

/// What one change of interaction does: the button at `change.0`, if there is
/// one, remembers the interaction, and a click carries out its action.
pub open spec fn spec_select(
    buttons: Seq<MenuButton>,
    game_state: State,
    change: (usize, Interaction),
) -> MenuOutcome {
    if change.0 < buttons.len() {
        let button = buttons[change.0 as int];
        let touched = buttons.update(
            change.0 as int,
            MenuButton { action: button.action, interaction: change.1 },
        );
        if change.1 == Interaction::Clicked {
            MenuOutcome {
                buttons: touched,
                game_state: button.action.spec_requested(game_state),
                exit: button.action.spec_exit(),
            }
        } else {
            MenuOutcome { buttons: touched, game_state, exit: None }
        }
    } else {
        MenuOutcome { buttons, game_state, exit: None }
    }
}

/// What a frame's changes of interaction do, taken in order up to and
/// including the first that ends the game.
pub open spec fn spec_button_selection(
    buttons: Seq<MenuButton>,
    game_state: State,
    changes: Seq<(usize, Interaction)>,
) -> MenuOutcome
    decreases changes.len(),
{
    if changes.len() == 0 {
        MenuOutcome { buttons, game_state, exit: None }
    } else {
        let before = spec_button_selection(buttons, game_state, changes.drop_last());
        if before.exit is Some {
            before
        } else {
            spec_select(before.buttons, before.game_state, changes.last())
        }
    }
}

/// Takes the frame's changes of interaction, each the index of a button and
/// what the pointer now does to it, in order. Each button remembers its new
/// interaction. A click on `NewGame` asks for the defense phase; a click on
/// `Quit` stops the work at once and hands back the code with which the
/// caller is to end the process; a click on `Continue` does nothing more. A
/// change that names no button of the menu is dropped.
pub fn button_selection(
    game_state: &mut State,
    menu: &mut Menu,
    changes: &Vec<(usize, Interaction)>,
) -> (exit: Option<i32>)
    ensures
        final(menu).buttons@ == spec_button_selection(
            old(menu).buttons@,
            *old(game_state),
            changes@,
        ).buttons,
        *final(game_state) == spec_button_selection(
            old(menu).buttons@,
            *old(game_state),
            changes@,
        ).game_state,
        exit == spec_button_selection(old(menu).buttons@, *old(game_state), changes@).exit,
{
    let mut i: usize = 0;
    assert(changes@.take(0) == Seq::<(usize, Interaction)>::empty());
    while i < changes.len()
        invariant
            i <= changes.len(),
            spec_button_selection(
                old(menu).buttons@,
                *old(game_state),
                changes@.take(i as int),
            ) == (MenuOutcome { buttons: menu.buttons@, game_state: *game_state, exit: None }),
        decreases changes.len() - i,
    {
        assert(changes@.take(i + 1).drop_last() == changes@.take(i as int));
        assert(changes@.take(i + 1).last() == changes@[i as int]);
        let (index, interaction): (usize, Interaction) = changes[i];
        if index < menu.buttons.len() {
            let action: ButtonAction = menu.buttons[index].action;
            menu.buttons.set(index, MenuButton { action, interaction });
            if interaction == Interaction::Clicked {
                let exit: Option<i32> = action.run(game_state);
                if exit.is_some() {
                    proof {
                        lemma_selection_stops(
                            old(menu).buttons@,
                            *old(game_state),
                            changes@,
                            i + 1,
                        );
                    }
                    return exit;
                }
            }
        }
        i = i + 1;
    }
    assert(changes@.take(changes@.len() as int) == changes@);
    None
}

/// Whatever the pointer does to the menu, the game stays in the phase it is
/// in for the rest of the frame: at most a change is asked for. The menu
/// keeps its buttons and what each of them asks for.
pub proof fn lemma_selection_keeps_phase(
    buttons: Seq<MenuButton>,
    game_state: State,
    changes: Seq<(usize, Interaction)>,
)
    ensures
        spec_button_selection(buttons, game_state, changes).game_state.current
            == game_state.current,
        spec_button_selection(buttons, game_state, changes).buttons.len() == buttons.len(),
        forall|i: int|
            0 <= i < buttons.len() ==> (#[trigger] spec_button_selection(
                buttons,
                game_state,
                changes,
            ).buttons[i]).action == buttons[i].action,
    decreases changes.len(),
{
    if changes.len() != 0 {
        lemma_selection_keeps_phase(buttons, game_state, changes.drop_last());
    }
}

/// Once a change has ended the game, the changes after it do nothing.
proof fn lemma_selection_stops(
    buttons: Seq<MenuButton>,
    game_state: State,
    changes: Seq<(usize, Interaction)>,
    done: int,
)
    requires
        0 <= done <= changes.len(),
        spec_button_selection(buttons, game_state, changes.take(done)).exit is Some,
    ensures
        spec_button_selection(buttons, game_state, changes) == spec_button_selection(
            buttons,
            game_state,
            changes.take(done),
        ),
    decreases changes.len() - done,
{
    if done < changes.len() {
        assert(changes.take(done + 1).drop_last() == changes.take(done));
        lemma_selection_stops(buttons, game_state, changes, done + 1);
    } else {
        assert(changes.take(done) == changes);
    }
}

} // verus!
