use fly_strike::cannon_plug::{cannon_move_system_player, execute_cannon_animations, AnimationConfig};
use fly_strike::config::{BulletTimer, GameState, MenuAction, MenuState};
use fly_strike::cutscene_mobile_plug::{execute_fireworks_animations, on_in_cutscene, FrameStep};
use fly_strike::custscene_public::CutSceneTimers;
use fly_strike::menu_plug::{create_about_menu, create_man_menu, man_menu_action, menu_action, on_back_menu, ABOUT_STR};
use fly_strike::player_plug::{mobile_touch_input_system, PlayerAction, PlayerActions};
use bevy::time::{Timer, TimerMode};
use std::time::Duration;

fn frame_timer(millis: u64) -> Timer {
    Timer::new(Duration::from_millis(millis), TimerMode::Once)
}

#[test]
fn cannon_fires_once_per_interval() {
    let mut bullet_timer = BulletTimer(frame_timer(1000));
    let fire = PlayerActions { move_left: false, move_right: true, fire: true };
    let c = cannon_move_system_player(&mut bullet_timer, Duration::from_millis(500), Some(fire)).unwrap();
    assert!(!c.fire);
    assert_eq!(c.direction, 1);
    let c = cannon_move_system_player(&mut bullet_timer, Duration::from_millis(500), Some(fire)).unwrap();
    assert!(c.fire);
    let c = cannon_move_system_player(&mut bullet_timer, Duration::from_millis(16), Some(fire)).unwrap();
    assert!(!c.fire);
    let left = PlayerActions { move_left: true, move_right: false, fire: false };
    let c = cannon_move_system_player(&mut bullet_timer, Duration::from_millis(2000), Some(left)).unwrap();
    assert!(!c.fire);
    assert_eq!(c.direction, -1);
    let both = PlayerActions { move_left: true, move_right: true, fire: false };
    assert_eq!(cannon_move_system_player(&mut bullet_timer, Duration::ZERO, Some(both)).unwrap().direction, 0);
    assert_eq!(cannon_move_system_player(&mut bullet_timer, Duration::ZERO, None), None);
}

#[test]
fn cannon_animation_loops_while_moving() {
    let mut anim = AnimationConfig::new(0, 2, 9, frame_timer(100));
    let mut index = 0;
    let mut seen = Vec::new();
    for _ in 0..4 {
        index = execute_cannon_animations(&mut anim, Duration::from_millis(100), true, Some(index)).unwrap();
        seen.push(index);
    }
    assert_eq!(seen, vec![1, 2, 0, 1]);
    assert_eq!(execute_cannon_animations(&mut anim, Duration::from_millis(100), false, Some(1)), None);
    assert_eq!(execute_cannon_animations(&mut anim, Duration::from_millis(10), true, Some(1)), None);
    // a sprite without a frame lets the timer run out without restarting it
    assert_eq!(execute_cannon_animations(&mut anim, Duration::from_millis(100), true, None), None);
    assert_eq!(execute_cannon_animations(&mut anim, Duration::from_millis(1), true, Some(1)), Some(2));
}

#[test]
fn fireworks_animation_climbs_and_holds() {
    let mut anim = AnimationConfig::new(0, 3, 30, frame_timer(10));
    assert_eq!(execute_fireworks_animations(&mut anim, Duration::from_millis(5), Some(0)), FrameStep::Wait);
    assert_eq!(execute_fireworks_animations(&mut anim, Duration::from_millis(5), Some(0)), FrameStep::Advance(1));
    assert_eq!(execute_fireworks_animations(&mut anim, Duration::from_millis(10), Some(1)), FrameStep::Advance(2));
    assert_eq!(execute_fireworks_animations(&mut anim, Duration::from_millis(10), Some(2)), FrameStep::Hold);
    assert_eq!(execute_fireworks_animations(&mut anim, Duration::from_millis(10), None), FrameStep::Wait);
    assert_eq!(execute_fireworks_animations(&mut anim, Duration::from_millis(10), Some(usize::MAX)), FrameStep::Hold);
    let mut empty = AnimationConfig::new(0, 0, 30, frame_timer(10));
    assert_eq!(execute_fireworks_animations(&mut empty, Duration::from_millis(10), Some(0)), FrameStep::Hold);
    let mut timers = CutSceneTimers::default();
    assert_eq!(on_in_cutscene(&mut timers, &mut anim), 0);
}

#[test]
fn menu_buttons() {
    let e = menu_action(&vec![MenuAction::MainMenu]);
    assert_eq!(e.menu_state, Some(MenuState::ManMenu));
    assert_eq!(e.game_state, None);
    assert_eq!(e.exit_messages, 0);
    let e = menu_action(&vec![MenuAction::About]);
    assert_eq!(e.menu_state, Some(MenuState::AboutMenu));
    let e = menu_action(&vec![MenuAction::Back(MenuState::ManMenu)]);
    assert_eq!(e.menu_state, Some(MenuState::ManMenu));
    assert_eq!(e.game_state, None);
    let e = menu_action(&vec![MenuAction::About, MenuAction::Back(MenuState::NoMenu)]);
    assert_eq!(e.menu_state, Some(MenuState::NoMenu));
    assert_eq!(e.game_state, Some(GameState::InGame));
    let e = menu_action(&vec![MenuAction::Exit, MenuAction::About, MenuAction::Exit]);
    assert_eq!(e.exit_messages, 2);
    assert_eq!(e.menu_state, Some(MenuState::AboutMenu));
    let e = menu_action(&vec![]);
    assert_eq!((e.menu_state, e.game_state, e.exit_messages), (None, None, 0));
    assert_eq!(man_menu_action(true), Some(GameState::Menu));
    assert_eq!(man_menu_action(false), None);
    assert_eq!(on_back_menu(), GameState::InGame);
}

#[test]
fn phone_touches_only_fire() {
    let a = mobile_touch_input_system(0);
    assert!(!a.fire && !a.move_left && !a.move_right);
    let a = mobile_touch_input_system(3);
    assert!(a.fire && !a.move_left && !a.move_right);
    assert!(a.pressed(PlayerAction::Fire));
    assert!(!a.pressed(PlayerAction::MoveLeft));
}

#[test]
fn menu_screens() {
    let screen = create_man_menu();
    assert_eq!(screen.despawn_on_exit, MenuState::ManMenu);
    let buttons = screen.buttons;
    let labels: Vec<&str> = buttons.iter().map(|b| b.label.as_str()).collect();
    assert_eq!(labels, vec!["About", "Back", "Exit"]);
    assert_eq!(buttons[0].action, MenuAction::About);
    assert_eq!(buttons[1].action, MenuAction::Back(MenuState::NoMenu));
    assert_eq!(buttons[2].action, MenuAction::Exit);
    let back = menu_action(&vec![buttons[1].action]);
    assert_eq!(back.game_state, Some(GameState::InGame));
    let about = create_about_menu();
    assert_eq!(about.despawn_on_exit, MenuState::AboutMenu);
    assert_eq!(about.title, "About");
    assert_eq!(about.close.label, "X");
    assert_eq!(about.close.action, MenuAction::Back(MenuState::ManMenu));
    assert_eq!(about.content, ABOUT_STR);
    assert!(about.content.contains("Fly_Strike"));
}
