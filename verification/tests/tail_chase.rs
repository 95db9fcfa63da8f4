use snake_core::events::Events;
use snake_core::tail::{collide_with_self, move_tail, snake_is_big_enough, SnakeTailNode};
use snake_core::vec2::Vec2;

fn node(x: i64, y: i64, ignore: bool, idx: usize) -> SnakeTailNode {
    SnakeTailNode { pos: Vec2 { x, y }, ignore_collision: ignore, creation_index: idx }
}

#[test]
fn nodes_chase_their_leader_by_the_catchup_fraction() {
    // dt 100 ms at catch-up 7 moves a node 70% of the way to its leader.
    let mut tail = vec![node(100_000, 0, true, 0), node(200_000, 0, false, 1)];
    let head = Vec2 { x: 0, y: 0 };
    move_tail(&mut tail, &head, 100);
    assert_eq!((tail[0].pos.x, tail[0].pos.y), (30_000, 0));
    // The second node chases the first node's just-moved position:
    // 200_000 + (30_000 - 200_000) * 7 * 100 / 1000 = 81_000.
    assert_eq!((tail[1].pos.x, tail[1].pos.y), (81_000, 0));
    assert!(tail[0].ignore_collision);
    assert_eq!(tail[1].creation_index, 1);
}

#[test]
fn nodes_within_the_gap_stay_put() {
    let mut tail = vec![node(40_000, 0, true, 0)];
    let head = Vec2 { x: 0, y: 0 };
    move_tail(&mut tail, &head, 100);
    assert_eq!((tail[0].pos.x, tail[0].pos.y), (40_000, 0));
}

#[test]
fn self_collision_ignores_marked_nodes() {
    let head = Vec2 { x: 0, y: 0 };
    let tail = vec![
        node(0, 0, true, 0),        // on top of the head but marked
        node(10_000, 0, false, 1),  // colliding
        node(500_000, 0, false, 2), // far away
        node(20_000, 0, false, 3),  // colliding
    ];
    let mut events = Events::empty();
    collide_with_self(&head, &tail, &mut events);
    assert_eq!(events.game_over, 2);
}

#[test]
fn self_collision_needs_a_long_enough_tail() {
    let three = vec![node(0, 0, false, 0), node(1, 0, false, 1), node(2, 0, false, 2)];
    assert!(!snake_is_big_enough(&three));
    let mut four = three.clone();
    four.push(node(3, 0, false, 3));
    assert!(snake_is_big_enough(&four));
}
