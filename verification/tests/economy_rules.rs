use snake_core::constants::{FOOD_HEALTH, MAX_HEALTH_DEFAULT, TAIL_NODE_GAP};
use snake_core::economy::{coinbag_leak, consume_items, CoinBag, Food};
use snake_core::events::Events;
use snake_core::game::{Game, HungerRate};
use snake_core::locomotion::{Snake, Velocity};
use snake_core::economy::update_health;
use snake_core::tail::SnakeTailNode;
use snake_core::vec2::Vec2;

fn eat(
    head: (i64, i64),
    food_at: (i64, i64),
    health: i64,
    tail: &mut Vec<SnakeTailNode>,
) -> (Game, Snake, Option<Food>) {
    let head_pos = Vec2 { x: head.0, y: head.1 };
    let mut snake = Snake { health };
    let mut food = Some(Food {
        pos: Vec2 { x: food_at.0, y: food_at.1 },
        velocity: Velocity(Vec2 { x: 0, y: 0 }),
    });
    let mut coin_bag: Option<CoinBag> = None;
    let mut game = Game::new();
    consume_items(
        &head_pos,
        &mut snake,
        MAX_HEALTH_DEFAULT,
        &mut food,
        &mut coin_bag,
        &mut game,
        tail,
    );
    (game, snake, food)
}

#[test]
fn eating_with_empty_tail_anchors_one_node_at_the_head() {
    let mut tail: Vec<SnakeTailNode> = Vec::new();
    let (game, _, food) = eat((0, 0), (10_000, 0), 50_000, &mut tail);
    assert!(food.is_none());
    assert_eq!(game.score, 1);
    assert_eq!(tail.len(), 1);
    let node = &tail[0];
    // The very first node ignores self-collision and sits exactly one
    // trailing gap from the head.
    assert!(node.ignore_collision);
    assert_eq!(node.creation_index, 0);
    let d2 = node.pos.x * node.pos.x + node.pos.y * node.pos.y;
    assert_eq!(d2, TAIL_NODE_GAP * TAIL_NODE_GAP);
}

#[test]
fn eating_with_two_nodes_continues_the_curvature() {
    // Second-newest at origin, newest one 3-4-5 step away: the new node
    // continues in exactly that direction at exactly the gap's length.
    let mut tail = vec![
        SnakeTailNode {
            pos: Vec2 { x: 0, y: 0 },
            ignore_collision: true,
            creation_index: 0,
        },
        SnakeTailNode {
            pos: Vec2 { x: 30_000, y: 40_000 },
            ignore_collision: false,
            creation_index: 1,
        },
    ];
    let (game, _, _) = eat((0, 0), (10_000, 0), 50_000, &mut tail);
    assert_eq!(game.score, 1);
    assert_eq!(tail.len(), 3);
    let node = &tail[2];
    assert!(!node.ignore_collision);
    assert_eq!(node.creation_index, 2);
    assert_eq!((node.pos.x, node.pos.y), (60_000, 80_000));
}

#[test]
fn food_replenishes_health_up_to_the_ceiling() {
    let mut tail: Vec<SnakeTailNode> = Vec::new();
    let (_, snake, _) = eat((0, 0), (10_000, 0), 50_000, &mut tail);
    assert_eq!(snake.health, 50_000 + FOOD_HEALTH);
    let mut tail2: Vec<SnakeTailNode> = Vec::new();
    let (_, snake2, _) = eat((0, 0), (10_000, 0), 90_000, &mut tail2);
    assert_eq!(snake2.health, MAX_HEALTH_DEFAULT);
}

#[test]
fn distant_food_is_left_alone() {
    let mut tail: Vec<SnakeTailNode> = Vec::new();
    let (game, snake, food) = eat((0, 0), (48_000, 0), 50_000, &mut tail);
    // 48_000 is exactly the pickup radius: strictly-less means no pickup.
    assert!(food.is_some());
    assert_eq!(game.score, 0);
    assert_eq!(snake.health, 50_000);
    assert_eq!(tail.len(), 0);
}

#[test]
fn coin_bag_leaks_and_self_destroys() {
    let mut bag = Some(CoinBag { pos: Vec2 { x: 0, y: 0 }, value: 25 });
    coinbag_leak(&mut bag);
    assert_eq!(bag.as_ref().unwrap().value, 15);
    coinbag_leak(&mut bag);
    assert_eq!(bag.as_ref().unwrap().value, 5);
    // 5 - 10 <= 0: the bag is destroyed the tick its value first runs out.
    coinbag_leak(&mut bag);
    assert!(bag.is_none());
    // And stays gone.
    coinbag_leak(&mut bag);
    assert!(bag.is_none());
}

#[test]
fn no_collection_after_self_destruction() {
    let head_pos = Vec2 { x: 0, y: 0 };
    let mut snake = Snake { health: 50_000 };
    let mut food: Option<Food> = None;
    let mut bag: Option<CoinBag> = None;
    let mut game = Game::new();
    let mut tail: Vec<SnakeTailNode> = Vec::new();
    consume_items(
        &head_pos,
        &mut snake,
        MAX_HEALTH_DEFAULT,
        &mut food,
        &mut bag,
        &mut game,
        &mut tail,
    );
    assert_eq!(game.coins, 0);
    assert_eq!(game.score, 0);
}

#[test]
fn coin_collection_adds_the_decayed_value() {
    let head_pos = Vec2 { x: 0, y: 0 };
    let mut snake = Snake { health: 50_000 };
    let mut food: Option<Food> = None;
    let mut bag = Some(CoinBag { pos: Vec2 { x: 1_000, y: 0 }, value: 8_370 });
    let mut game = Game::new();
    let mut tail: Vec<SnakeTailNode> = Vec::new();
    consume_items(
        &head_pos,
        &mut snake,
        MAX_HEALTH_DEFAULT,
        &mut food,
        &mut bag,
        &mut game,
        &mut tail,
    );
    assert!(bag.is_none());
    assert_eq!(game.coins, 8_370);
}

#[test]
fn hunger_decays_health_and_zero_emits_game_over() {
    let mut snake = Snake { health: 300 };
    let rate = HungerRate(2_000);
    let mut events = Events::empty();
    update_health(&mut snake, &rate, 100, &mut events);
    // 2_000 * 100 / 1000 = 200 drained.
    assert_eq!(snake.health, 100);
    assert_eq!(events.game_over, 0);
    update_health(&mut snake, &rate, 100, &mut events);
    assert_eq!(snake.health, -100);
    assert_eq!(events.game_over, 1);
}
