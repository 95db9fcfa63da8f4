use snake_core::game::{Game, PauseState};
use snake_core::input::{ButtonInteraction, InputFrame};
use snake_core::menu::{GameOverMenuSelectedButton, PauseMenuSelectedButton};
use snake_core::upgrades::{upgrade_purchased, CoreError, Upgrades};
use snake_core::game::SnakeSpeed;
use snake_core::tail::SnakeTailNode;
use snake_core::vec2::Vec2;
use snake_core::world::{tick, World};

fn all_game_over_states() -> [GameOverMenuSelectedButton; 3] {
    [
        GameOverMenuSelectedButton::Restart,
        GameOverMenuSelectedButton::Quit,
        GameOverMenuSelectedButton::NoSelection,
    ]
}

fn all_pause_states() -> [PauseMenuSelectedButton; 3] {
    [
        PauseMenuSelectedButton::NoSelection,
        PauseMenuSelectedButton::Upgrades,
        PauseMenuSelectedButton::Quit,
    ]
}

#[test]
fn game_over_menu_moves_invert_each_other() {
    for s in all_game_over_states() {
        assert_eq!(s.prev().next(), s);
        assert_eq!(s.next().prev(), s);
    }
}

#[test]
fn pause_menu_moves_invert_each_other() {
    for s in all_pause_states() {
        let mut a = s;
        a.prev();
        a.next();
        assert_eq!(a, s);
        let mut b = s;
        b.next();
        b.prev();
        assert_eq!(b, s);
    }
}

#[test]
fn menus_are_closed_under_their_moves() {
    // Three steps in either direction walk the full cycle and return.
    for s in all_game_over_states() {
        assert_eq!(s.next().next().next(), s);
        assert_eq!(s.prev().prev().prev(), s);
    }
    for s in all_pause_states() {
        let mut a = s;
        a.next();
        a.next();
        a.next();
        assert_eq!(a, s);
    }
}

#[test]
fn purchase_subtracts_exactly_the_price_and_splits_once() {
    let upgrades = Upgrades::catalog();
    let mut game = Game::new();
    game.coins = 150_000;
    let mut tail: Vec<SnakeTailNode> = (0..6)
        .map(|i| SnakeTailNode {
            pos: Vec2 { x: i as i64 * 50_000, y: 0 },
            ignore_collision: i == 0,
            creation_index: i,
        })
        .collect();
    let mut max_health = 100_000i64;
    let mut speed = SnakeSpeed::default_speed();
    upgrade_purchased(&mut game, &upgrades, 0, &mut tail, &mut max_health, &mut speed);
    assert_eq!(game.coins, 50_000);
    // The newer half of six nodes is destroyed; the older three stay,
    // nearest the head.
    assert_eq!(tail.len(), 3);
    assert_eq!(tail[0].creation_index, 0);
    assert_eq!(tail[2].creation_index, 2);
}

#[test]
fn unaffordable_purchase_changes_nothing() {
    let upgrades = Upgrades::catalog();
    let mut game = Game::new();
    // Exactly the price is not enough: the check is strict.
    game.coins = 100_000;
    let mut tail: Vec<SnakeTailNode> = (0..6)
        .map(|i| SnakeTailNode {
            pos: Vec2 { x: i as i64 * 50_000, y: 0 },
            ignore_collision: false,
            creation_index: i,
        })
        .collect();
    let mut max_health = 100_000i64;
    let mut speed = SnakeSpeed::default_speed();
    upgrade_purchased(&mut game, &upgrades, 0, &mut tail, &mut max_health, &mut speed);
    assert_eq!(game.coins, 100_000);
    assert_eq!(tail.len(), 6);
}

#[test]
fn split_on_empty_tail_is_a_no_op() {
    let mut tail: Vec<SnakeTailNode> = Vec::new();
    snake_core::tail::split_snake(&mut tail);
    assert_eq!(tail.len(), 0);
    snake_core::tail::halve_snake_length(&mut tail);
    assert_eq!(tail.len(), 0);
}

#[test]
fn split_keeps_the_older_half_rounded_up() {
    // length -> kept: 1 -> 1, 2 -> 1, 5 -> 3, 6 -> 3.
    for (len, kept) in [(1usize, 1usize), (2, 1), (5, 3), (6, 3)] {
        let mut tail: Vec<SnakeTailNode> = (0..len)
            .map(|i| SnakeTailNode {
                pos: Vec2 { x: i as i64 * 50_000, y: 0 },
                ignore_collision: i == 0,
                creation_index: i,
            })
            .collect();
        snake_core::tail::split_snake(&mut tail);
        assert_eq!(tail.len(), kept);
        for (i, node) in tail.iter().enumerate() {
            assert_eq!(node.creation_index, i);
        }
    }
}

#[test]
fn the_catalog_identifies_an_upgrade_by_its_id() {
    let upgrades = Upgrades::catalog();
    let entry = upgrades.upgrades[0];
    assert_eq!(upgrades.index_of(&entry), Some(0));
    // An unknown id is not found.
    let mut foreign = entry;
    foreign.id = 99;
    assert_eq!(upgrades.index_of(&foreign), None);
    // Ids are unique and externally assigned, so a record carrying a
    // known id stands for that catalog entry whatever else it says.
    let mut discounted = entry;
    discounted.price = 1;
    assert_eq!(upgrades.index_of(&discounted), Some(0));
}

#[test]
fn pause_key_is_context_sensitive() {
    let mut w = World::start();
    let mut pause_input = InputFrame::idle();
    pause_input.pause_pressed = true;
    // Unpaused -> pause menu shown.
    tick(&mut w, &pause_input, 16, 0).unwrap();
    assert_eq!(w.pause, PauseState::PauseMenuShown);
    // While paused the simulation is frozen.
    let head_before = (w.head_pos.x, w.head_pos.y);
    let mut move_input = InputFrame::idle();
    move_input.right_held = true;
    tick(&mut w, &move_input, 16, 0).unwrap();
    assert_eq!((w.head_pos.x, w.head_pos.y), head_before);
    assert_eq!(w.pause, PauseState::PauseMenuShown);
    // Up from the default Quit highlights Upgrades; confirm opens the
    // submenu and hides the pause panel.
    let mut open_upgrades = InputFrame::idle();
    open_upgrades.menu_up = true;
    open_upgrades.confirm_pressed = true;
    tick(&mut w, &open_upgrades, 16, 0).unwrap();
    assert_eq!(w.pause, PauseState::UpgradesMenuShown);
    assert!(w.upgrades_menu_spawned);
    // The pause key closes the submenu back to the pause panel, not the
    // game.
    tick(&mut w, &pause_input, 16, 0).unwrap();
    assert_eq!(w.pause, PauseState::PauseMenuShown);
    // And once more resumes the game.
    tick(&mut w, &pause_input, 16, 0).unwrap();
    assert_eq!(w.pause, PauseState::Unpaused);
}

#[test]
fn confirming_quit_in_the_pause_menu_requests_termination() {
    let mut w = World::start();
    let mut pause_input = InputFrame::idle();
    pause_input.pause_pressed = true;
    tick(&mut w, &pause_input, 16, 0).unwrap();
    assert_eq!(w.pause, PauseState::PauseMenuShown);
    assert!(!w.quit_requested);
    // The cursor starts on Quit.
    let mut confirm = InputFrame::idle();
    confirm.confirm_pressed = true;
    tick(&mut w, &confirm, 16, 0).unwrap();
    assert!(w.quit_requested);
}

#[test]
fn unknown_upgrade_icon_fails_fast() {
    let mut w = World::start();
    w.pause = PauseState::UpgradesMenuShown;
    let coins_before = w.game.coins;
    let selected_before = w.upgrades.selected_index;
    let mut input = InputFrame::idle();
    input.upgrade_icons = vec![(99, ButtonInteraction::Hovered)];
    let r = tick(&mut w, &input, 16, 0);
    assert_eq!(r, Err(CoreError::UnknownUpgrade));
    assert_eq!(w.game.coins, coins_before);
    assert_eq!(w.upgrades.selected_index, selected_before);
    assert_eq!(w.pause, PauseState::UpgradesMenuShown);
}

#[test]
fn hovering_an_icon_moves_the_highlight_and_clicking_buys() {
    let mut w = World::start();
    w.pause = PauseState::UpgradesMenuShown;
    w.game.coins = 250_000;
    for i in 0..6 {
        w.tail.push(SnakeTailNode {
            pos: Vec2 { x: i as i64 * 50_000, y: 0 },
            ignore_collision: i == 0,
            creation_index: i,
        });
    }
    let mut input = InputFrame::idle();
    input.upgrade_icons = vec![
        (0, ButtonInteraction::Hovered),
        (0, ButtonInteraction::Pressed),
    ];
    tick(&mut w, &input, 16, 0).unwrap();
    assert_eq!(w.upgrades.selected_index, 0);
    assert_eq!(w.game.coins, 150_000);
    assert_eq!(w.tail.len(), 3);
}
