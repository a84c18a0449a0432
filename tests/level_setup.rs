use minigolf::ball::BallConfig;
use minigolf::level::{check_level_roles, classify_node, colliders_to_build, NodeRole, SetupError};
use minigolf::round::{GameState, LevelIndex, RoundController};
use minigolf::screens::{animate_dots, button_shade, go_to_menu, play_button, ButtonInteraction, ButtonShade};

#[test]
fn scene_nodes_by_name() {
    assert_eq!(classify_node(Some("ball"), true), NodeRole::Ball);
    assert_eq!(classify_node(Some("hole"), false), NodeRole::Hole);
    assert_eq!(classify_node(Some("speed"), true), NodeRole::Booster);
    assert_eq!(classify_node(Some("wall"), true), NodeRole::Collider);
    assert_eq!(classify_node(Some("Ball"), false), NodeRole::Ignored);
    assert_eq!(classify_node(None, true), NodeRole::Collider);
    assert_eq!(classify_node(None, false), NodeRole::Ignored);
}

#[test]
fn level_needs_one_ball_and_one_hole() {
    assert_eq!(check_level_roles(&vec![NodeRole::Ball, NodeRole::Collider, NodeRole::Hole]), Ok(()));
    assert_eq!(check_level_roles(&vec![]), Err(SetupError::NoBall));
    assert_eq!(check_level_roles(&vec![NodeRole::Hole]), Err(SetupError::NoBall));
    assert_eq!(check_level_roles(&vec![NodeRole::Ball, NodeRole::Ball, NodeRole::Hole]), Err(SetupError::SeveralBalls));
    assert_eq!(check_level_roles(&vec![NodeRole::Ball, NodeRole::Booster]), Err(SetupError::NoHole));
    assert_eq!(check_level_roles(&vec![NodeRole::Hole, NodeRole::Ball, NodeRole::Hole]), Err(SetupError::SeveralHoles));
}

#[test]
fn colliders_only_where_owner_has_none() {
    let r = colliders_to_build(&vec![(1, 10), (2, 11), (3, 10)], &vec![11]);
    assert_eq!(r, vec![1, 3]);
    assert_eq!(colliders_to_build(&vec![(1, 10)], &vec![10]), Vec::<u64>::new());
}

#[test]
fn loading_dots_cycle() {
    assert_eq!(animate_dots("."), "..");
    assert_eq!(animate_dots(".."), "...");
    assert_eq!(animate_dots("..."), ".");
    assert_eq!(animate_dots("Loading "), "Loading ");
}

#[test]
fn button_feedback() {
    assert_eq!(button_shade(ButtonInteraction::Hovered), Some(ButtonShade::Hovered));
    assert_eq!(button_shade(ButtonInteraction::Idle), Some(ButtonShade::Normal));
    assert_eq!(button_shade(ButtonInteraction::Pressed), None);
}

#[test]
fn menu_and_win_buttons() {
    let mut round = RoundController::new(BallConfig::default(), 3);
    round.level_index = LevelIndex(2);
    assert_eq!(play_button(&vec![ButtonInteraction::Hovered], &mut round), None);
    assert_eq!(round.level_index, LevelIndex(2));
    assert_eq!(play_button(&vec![ButtonInteraction::Hovered, ButtonInteraction::Pressed], &mut round), Some(GameState::LoadLevel));
    assert_eq!(round.level_index, LevelIndex(0));
    assert_eq!(go_to_menu(&vec![ButtonInteraction::Pressed]), Some(GameState::Menu));
    assert_eq!(go_to_menu(&vec![ButtonInteraction::Idle]), None);
}
