use vstd::prelude::*;
use crate::config::{GameState, MenuAction, MenuState};

verus! {

/// What the pressed menu buttons ask for: a menu screen, a game state, and
/// how many requests to leave the application to send, one per pressed exit
/// button. `None` leaves the state as it is.
#[derive(Clone, Copy, Debug, PartialEq, Eq, Structural)]
pub struct MenuEffect {
    pub menu_state: Option<MenuState>,
    pub game_state: Option<GameState>,
    pub exit_messages: usize,
}

/// Nothing asked.
pub open spec fn no_menu_effect() -> MenuEffect {
    MenuEffect { menu_state: None, game_state: None, exit_messages: 0 }
}

/// A pressed button on top of what earlier buttons asked: the main-menu and
/// about buttons open their screen, going back opens the screen named and,
/// when that is no menu at all, resumes the game, and exit sends one more
/// request to leave.
pub open spec fn apply_menu_action(effect: MenuEffect, action: MenuAction) -> MenuEffect {
    match action {
        MenuAction::MainMenu => MenuEffect { menu_state: Some(MenuState::ManMenu), ..effect },
        MenuAction::About => MenuEffect { menu_state: Some(MenuState::AboutMenu), ..effect },
        MenuAction::Back(state) => MenuEffect {
            menu_state: Some(state),
            game_state: if state == MenuState::NoMenu { Some(GameState::InGame) } else { effect.game_state },
            ..effect
        },
        MenuAction::Exit => MenuEffect { exit_messages: (effect.exit_messages + 1) as usize, ..effect },
    }
}

/// What a sequence of pressed buttons asks for, the later overriding the
/// earlier.
pub open spec fn menu_effect(actions: Seq<MenuAction>) -> MenuEffect
    decreases actions.len(),
{
    if actions.len() == 0 {
        no_menu_effect()
    } else {
        apply_menu_action(menu_effect(actions.drop_last()), actions.last())
    }
}

/// Handles the menu buttons pressed in a frame, in order.
pub fn menu_action(pressed_actions: &Vec<MenuAction>) -> (effect: MenuEffect)
    ensures
        effect == menu_effect(pressed_actions@),
        effect.exit_messages == exit_presses(pressed_actions@),
        effect.game_state is Some <==> pressed_actions@.contains(MenuAction::Back(MenuState::NoMenu)),
        effect.game_state is Some ==> effect.game_state == Some(GameState::InGame),
        effect.menu_state is None <==> (forall|i: int| 0 <= i < pressed_actions@.len() ==> pressed_actions@[i] == MenuAction::Exit),
        pressed_actions@.len() > 0 && pressed_actions@.last() == MenuAction::MainMenu ==> effect.menu_state == Some(MenuState::ManMenu),
        pressed_actions@.len() > 0 && pressed_actions@.last() == MenuAction::About ==> effect.menu_state == Some(MenuState::AboutMenu),
        forall|s: MenuState| pressed_actions@.len() > 0 && pressed_actions@.last() == MenuAction::Back(s) ==> effect.menu_state == Some(s),
{
    let pressed_count = pressed_actions.len();
    proof {
        assert(pressed_actions@.len() == pressed_count);
        lemma_exit_messages_count(pressed_actions@);
        lemma_resume_iff_back_to_no_menu(pressed_actions@);
        lemma_screen_iff_not_only_exits(pressed_actions@);
        if pressed_actions@.len() > 0 {
            lemma_menu_push(pressed_actions@.drop_last(), pressed_actions@.last());
            assert(pressed_actions@.drop_last().push(pressed_actions@.last()) =~= pressed_actions@);
        }
    }
    let mut effect = MenuEffect { menu_state: None, game_state: None, exit_messages: 0 };
    let mut i: usize = 0;
    while i < pressed_actions.len()
        invariant
            i <= pressed_actions@.len(),
            effect == menu_effect(pressed_actions@.subrange(0, i as int)),
            effect.exit_messages <= i,
        decreases pressed_actions@.len() - i,
    {
        let action = pressed_actions[i];
        assert(pressed_actions@.subrange(0, i + 1).drop_last() =~= pressed_actions@.subrange(0, i as int));
        match action {
            MenuAction::MainMenu => {
                effect.menu_state = Some(MenuState::ManMenu);
            },
            MenuAction::About => {
                effect.menu_state = Some(MenuState::AboutMenu);
            },
            MenuAction::Back(state) => {
                effect.menu_state = Some(state);
                if state == MenuState::NoMenu {
                    effect.game_state = Some(GameState::InGame);
                }
            },
            MenuAction::Exit => {
                effect.exit_messages = effect.exit_messages + 1;
            },
        }
        i = i + 1;
    }
    assert(pressed_actions@.subrange(0, i as int) =~= pressed_actions@);
    effect
}

/// The menu button in the corner opens the menu state of the game when it is
/// pressed.
pub fn man_menu_action(pressed: bool) -> (game_state: Option<GameState>)
    ensures
        game_state == (if pressed { Some(GameState::Menu) } else { None::<GameState> }),
{
    if pressed { Some(GameState::Menu) } else { None }
}

/// Leaving the menu resumes the game.
pub fn on_back_menu() -> (game_state: GameState)
    ensures
        game_state == GameState::InGame,
{
    GameState::InGame
}

/// The number of exit buttons among the pressed buttons.
pub open spec fn exit_presses(actions: Seq<MenuAction>) -> nat
    decreases actions.len(),
{
    if actions.len() == 0 {
        0
    } else {
        exit_presses(actions.drop_last()) + if actions.last() == MenuAction::Exit { 1nat } else { 0nat }
    }
}

/// The last screen-changing button decides the menu screen; going back to no
/// menu at the end resumes the game; one request to leave is sent per
/// pressed exit button.
pub proof fn lemma_menu_last_choice(actions: Seq<MenuAction>, action: MenuAction)
    requires
        actions.len() < usize::MAX,
    ensures
        action != MenuAction::Exit ==> menu_effect(actions.push(action)).menu_state is Some,
        menu_effect(actions.push(MenuAction::Back(MenuState::NoMenu))).menu_state == Some(MenuState::NoMenu),
        menu_effect(actions.push(MenuAction::Back(MenuState::NoMenu))).game_state == Some(GameState::InGame),
        menu_effect(actions).exit_messages == exit_presses(actions),
        menu_effect(actions.push(action)).exit_messages == exit_presses(actions.push(action)),
{
    assert(actions.push(action).drop_last() =~= actions);
    assert(actions.push(MenuAction::Back(MenuState::NoMenu)).drop_last() =~= actions);
    lemma_exit_messages_count(actions.push(action));
    lemma_exit_messages_count(actions);
}

/// What one more pressed button changes: the main-menu and about buttons open
/// their screen, going back opens the screen named, exit adds one request to
/// leave; only going back to no menu asks for the game to resume, and every
/// other button leaves the requested game state as the earlier ones left it.
pub proof fn lemma_menu_push(actions: Seq<MenuAction>, action: MenuAction)
    requires
        actions.len() < usize::MAX,
    ensures
        action == MenuAction::MainMenu ==> menu_effect(actions.push(action)).menu_state == Some(MenuState::ManMenu),
        action == MenuAction::About ==> menu_effect(actions.push(action)).menu_state == Some(MenuState::AboutMenu),
        forall|s: MenuState| action == MenuAction::Back(s) ==> menu_effect(actions.push(action)).menu_state == Some(s),
        action == MenuAction::Exit ==> menu_effect(actions.push(action)).menu_state == menu_effect(actions).menu_state,
        action == MenuAction::Back(MenuState::NoMenu) ==> menu_effect(actions.push(action)).game_state == Some(
            GameState::InGame,
        ),
        action != MenuAction::Back(MenuState::NoMenu) ==> menu_effect(actions.push(action)).game_state == menu_effect(
            actions,
        ).game_state,
        action == MenuAction::Exit ==> menu_effect(actions.push(action)).exit_messages == menu_effect(actions).exit_messages
            + 1,
        action != MenuAction::Exit ==> menu_effect(actions.push(action)).exit_messages == menu_effect(actions).exit_messages,
{
    assert(actions.push(action).drop_last() =~= actions);
    lemma_exit_messages_count(actions);
}

/// The game is asked to resume exactly when some pressed button goes back to
/// no menu, and then it is asked to resume play.
pub proof fn lemma_resume_iff_back_to_no_menu(actions: Seq<MenuAction>)
    ensures
        menu_effect(actions).game_state == (if actions.contains(MenuAction::Back(MenuState::NoMenu)) {
            Some(GameState::InGame)
        } else {
            None::<GameState>
        }),
    decreases actions.len(),
{
    if actions.len() > 0 {
        let prev = actions.drop_last();
        lemma_resume_iff_back_to_no_menu(prev);
        assert(prev.push(actions.last()) =~= actions);
        if prev.contains(MenuAction::Back(MenuState::NoMenu)) {
            let j = choose|j: int| 0 <= j < prev.len() && prev[j] == MenuAction::Back(MenuState::NoMenu);
            assert(actions[j] == prev[j]);
        }
        if actions.contains(MenuAction::Back(MenuState::NoMenu)) && actions.last() != MenuAction::Back(MenuState::NoMenu) {
            let j = choose|j: int| 0 <= j < actions.len() && actions[j] == MenuAction::Back(MenuState::NoMenu);
            assert(prev[j] == actions[j]);
        }
        if actions.last() == MenuAction::Back(MenuState::NoMenu) {
            assert(actions[actions.len() - 1] == MenuAction::Back(MenuState::NoMenu));
        }
    }
}

/// A menu screen is asked for exactly when some pressed button is not exit.
pub proof fn lemma_screen_iff_not_only_exits(actions: Seq<MenuAction>)
    ensures
        menu_effect(actions).menu_state is None <==> (forall|i: int| 0 <= i < actions.len() ==> actions[i] == MenuAction::Exit),
    decreases actions.len(),
{
    if actions.len() > 0 {
        let prev = actions.drop_last();
        lemma_screen_iff_not_only_exits(prev);
        assert(prev.push(actions.last()) =~= actions);
        if actions.last() == MenuAction::Exit {
            if forall|i: int| 0 <= i < prev.len() ==> prev[i] == MenuAction::Exit {
                assert forall|i: int| 0 <= i < actions.len() implies actions[i] == MenuAction::Exit by {
                    if i < prev.len() {
                        assert(actions[i] == prev[i]);
                    }
                }
            } else {
                let k = choose|k: int| 0 <= k < prev.len() && prev[k] != MenuAction::Exit;
                assert(actions[k] == prev[k]);
            }
        } else {
            assert(actions[actions.len() - 1] != MenuAction::Exit);
        }
    }
}

/// The requests to leave are the pressed exit buttons, one each.
pub proof fn lemma_exit_messages_count(actions: Seq<MenuAction>)
    requires
        actions.len() <= usize::MAX,
    ensures
        menu_effect(actions).exit_messages == exit_presses(actions),
        exit_presses(actions) <= actions.len(),
    decreases actions.len(),
{
    if actions.len() > 0 {
        lemma_exit_messages_count(actions.drop_last());
    }
}


/// A button of a menu screen: its text and what it does.
pub struct MenuButton {
    pub label: String,
    pub action: MenuAction,
}

/// The buttons of the main menu, top to bottom: about, back to the game, exit.
pub open spec fn man_menu_buttons() -> Seq<(Seq<char>, MenuAction)> {
    seq![
        ("About"@, MenuAction::About),
        ("Back"@, MenuAction::Back(MenuState::NoMenu)),
        ("Exit"@, MenuAction::Exit),
    ]
}

/// The labels and actions of a list of buttons.
pub open spec fn buttons_view(buttons: Seq<MenuButton>) -> Seq<(Seq<char>, MenuAction)> {
    buttons.map_values(|b: MenuButton| (b.label@, b.action))
}

/// A menu screen: the menu state whose end removes it, and its buttons.
pub struct MenuScreen {
    pub despawn_on_exit: MenuState,
    pub buttons: Vec<MenuButton>,
}

/// The main menu screen: removed when the main menu is left, showing its
/// three buttons in order.
pub fn create_man_menu() -> (screen: MenuScreen)
    ensures
        screen.despawn_on_exit == MenuState::ManMenu,
        buttons_view(screen.buttons@) == man_menu_buttons(),
{
    let mut buttons: Vec<MenuButton> = Vec::new();
    buttons.push(MenuButton { label: String::from_str("About"), action: MenuAction::About });
    buttons.push(MenuButton { label: String::from_str("Back"), action: MenuAction::Back(MenuState::NoMenu) });
    buttons.push(MenuButton { label: String::from_str("Exit"), action: MenuAction::Exit });
    assert(buttons_view(buttons@) =~= man_menu_buttons());
    MenuScreen { despawn_on_exit: MenuState::ManMenu, buttons }
}

/// The text shown by the about screen.
pub const ABOUT_STR: &'static str = "
Fly_Strike
Version 0.1

A fast-paced arcade challenge.

Destroy all floating bubbles as quickly as possible.
The faster you finish, the higher your score.

Developed by Orc

Contact:
Email: zheng.yanan84@gmail.com
GitHub: https://github.com/Yanatei
";

/// The about screen: the menu state whose end removes it, its title, its
/// close button, and its text.
pub struct AboutMenu {
    pub despawn_on_exit: MenuState,
    pub title: String,
    pub close: MenuButton,
    pub content: String,
}

/// The about screen: removed when the about menu is left, titled "About",
/// closed by an "X" button that goes back to the main menu, showing the about
/// text.
pub fn create_about_menu() -> (menu: AboutMenu)
    ensures
        menu.despawn_on_exit == MenuState::AboutMenu,
        menu.title@ == "About"@,
        menu.close.label@ == "X"@,
        menu.close.action == MenuAction::Back(MenuState::ManMenu),
        menu.content@ == ABOUT_STR@,
{
    AboutMenu {
        despawn_on_exit: MenuState::AboutMenu,
        title: String::from_str("About"),
        close: MenuButton { label: String::from_str("X"), action: MenuAction::Back(MenuState::ManMenu) },
        content: String::from_str(ABOUT_STR),
    }
}

/// Every menu screen offers a way back: the main menu's back button resumes
/// the game, and the about screen's close button returns to the main menu.
pub proof fn lemma_menus_lead_back()
    ensures
        menu_effect(seq![man_menu_buttons()[1].1]).menu_state == Some(MenuState::NoMenu),
        menu_effect(seq![man_menu_buttons()[1].1]).game_state == Some(GameState::InGame),
        menu_effect(seq![MenuAction::Back(MenuState::ManMenu)]).menu_state == Some(MenuState::ManMenu),
        menu_effect(seq![MenuAction::Back(MenuState::ManMenu)]).game_state is None,
{
    let empty = Seq::<MenuAction>::empty();
    assert(man_menu_buttons()[1].1 == MenuAction::Back(MenuState::NoMenu));
    assert(seq![man_menu_buttons()[1].1] =~= empty.push(MenuAction::Back(MenuState::NoMenu)));
    assert(seq![MenuAction::Back(MenuState::ManMenu)] =~= empty.push(MenuAction::Back(MenuState::ManMenu)));
    assert(empty.push(MenuAction::Back(MenuState::ManMenu)).drop_last() =~= empty);
    assert(menu_effect(empty) == no_menu_effect());
    lemma_menu_last_choice(empty, MenuAction::Back(MenuState::ManMenu));
}

}
