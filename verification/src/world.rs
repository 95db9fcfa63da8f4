//! The whole simulation state and the per-tick event handlers that read
//! the single-tick queues: game-over menu updates, restart, the pause
//! and upgrades screens, and the quit request.

use vstd::prelude::*;
use crate::constants::{
    COIN_SPAWN_CHANCE_PERMILLE, COORD_LIMIT, DT_MAX, MAX_HEALTH_DEFAULT, SNAKE_HEAD_RADIUS,
    TAIL_LIMIT, VEL_LIMIT,
};
use crate::economy::{
    coinbag_leak, consume_items, move_food, spawn_coins, spawn_food, update_health, CoinBag, Food,
};
use crate::events::Events;
use crate::game::{DebugSettings, Game, GameFieldSize, HungerRate, PauseState, SnakeSpeed};
use crate::input::{ButtonInteraction, InputFrame};
use crate::locomotion::{
    clamped, drag, drag_step, exits_field, field_bound_x, field_bound_y, integrated_x,
    integrated_y, lemma_drag_step_decreases, player_input, vel_after_input_x, vel_after_input_y,
    Snake, Velocity,
};
use crate::menu::{
    go_next, go_prev, pause_next, pause_prev, GameOverMenuSelectedButton, PauseMenuSelectedButton,
};
use crate::rng::{random_chance, random_coord_in};
use crate::score::update_high_score;
use crate::tail::{
    collide_with_self, colliding_count, move_tail, snake_is_big_enough, tail_wf, SnakeTailNode,
};
use crate::upgrades::{on_upgrade_clicked, upgrade_menu_event_handler, CoreError, Upgrades};
use crate::vec2::{in_box, muldiv, Vec2};

verus! {

/// Every cell of the simulation the core owns, one instance per session.
pub struct World {
    pub head_pos: Vec2,
    pub head_vel: Velocity,
    pub snake: Snake,
    pub max_health: i64,
    pub hunger_rate: HungerRate,
    pub snake_speed: SnakeSpeed,
    pub tail: Vec<SnakeTailNode>,
    pub food: Option<Food>,
    pub coin_bag: Option<CoinBag>,
    pub game: Game,
    pub field: GameFieldSize,
    pub pause: PauseState,
    pub pause_menu_selection: PauseMenuSelectedButton,
    pub game_over_menu_selection: GameOverMenuSelectedButton,
    pub upgrades: Upgrades,
    pub upgrades_menu_spawned: bool,
    pub game_over_panel_visible: bool,
    pub debug_settings: DebugSettings,
    pub quit_requested: bool,
}

impl World {
    /// The session invariant: every cell within its range, the head
    /// contained in the field, and health positive while the game runs.
    pub open spec fn wf(self) -> bool {
        &&& self.field.wf()
        &&& self.snake_speed.wf()
        &&& self.upgrades.wf()
        &&& self.game.wf()
        &&& MAX_HEALTH_DEFAULT <= self.max_health <= 1_000_000_000
        &&& 0 <= self.hunger_rate.0 <= 1_000_000
        &&& -field_bound_x(self.field) <= self.head_pos.x <= field_bound_x(self.field)
        &&& -field_bound_y(self.field) <= self.head_pos.y <= field_bound_y(self.field)
        &&& in_box(self.head_vel.0, VEL_LIMIT as int)
        &&& -200_000 < self.snake.health <= self.max_health
        &&& (!self.game.game_over ==> self.snake.health > 0)
        &&& tail_wf(self.tail@)
        &&& self.tail@.len() <= TAIL_LIMIT
        &&& (match self.food {
            Option::Some(f) => {
                &&& f.wf()
                &&& -(self.field.x / 2 - crate::constants::FOOD_RADIUS) <= f.pos.x <= self.field.x
                    / 2 - crate::constants::FOOD_RADIUS
                &&& -(self.field.y / 2 - crate::constants::FOOD_RADIUS) <= f.pos.y <= self.field.y
                    / 2 - crate::constants::FOOD_RADIUS
            },
            Option::None => true,
        })
        &&& (match self.coin_bag {
            Option::Some(b) => b.wf(),
            Option::None => true,
        })
    }

    /// The state the session starts in: head at the center and at rest,
    /// full health, empty tail, nothing spawned, nothing shown, every
    /// tunable at its default, and the one-entry upgrade catalog built.
    pub fn start() -> (w: World)
        ensures
            w.wf(),
            w.game.game_over == false,
            w.game.score == 0,
            w.game.coins == 0,
            w.pause == PauseState::Unpaused,
            w.tail@.len() == 0,
            w.snake.health == MAX_HEALTH_DEFAULT,
            w.max_health == MAX_HEALTH_DEFAULT,
            w.hunger_rate.0 == crate::constants::HUNGER_RATE_DEFAULT,
            w.snake_speed.analog == crate::constants::ACCEL_ANALOG,
            w.snake_speed.discrete == crate::constants::ACCEL_DIGITAL,
            w.field.x == crate::constants::FIELD_WIDTH_DEFAULT,
            w.field.y == crate::constants::FIELD_HEIGHT_DEFAULT,
            w.head_pos.x == 0 && w.head_pos.y == 0,
            w.head_vel.0.x == 0 && w.head_vel.0.y == 0,
            w.food is None,
            w.coin_bag is None,
            w.upgrades.upgrades@.len() == 1,
            w.upgrades.upgrades@[0].id == 0,
            w.upgrades.upgrades@[0].price == 100_000,
            w.upgrades.upgrades@[0].effect == crate::upgrades::UpgradeEffect::SplitTail,
            w.upgrades.selected_index == 0,
            w.pause_menu_selection == PauseMenuSelectedButton::Quit,
            w.game_over_menu_selection == GameOverMenuSelectedButton::Restart,
            w.upgrades_menu_spawned == false,
            w.game_over_panel_visible == false,
            w.debug_settings.output_shown == false,
            w.quit_requested == false,
    {
        World {
            head_pos: Vec2 { x: 0, y: 0 },
            head_vel: Velocity(Vec2 { x: 0, y: 0 }),
            snake: Snake { health: MAX_HEALTH_DEFAULT },
            max_health: MAX_HEALTH_DEFAULT,
            hunger_rate: crate::game::default_hunger_rate(),
            snake_speed: SnakeSpeed::default_speed(),
            tail: Vec::new(),
            food: Option::None,
            coin_bag: Option::None,
            game: Game::new(),
            field: GameFieldSize::default_size(),
            pause: PauseState::Unpaused,
            pause_menu_selection: PauseMenuSelectedButton::Quit,
            game_over_menu_selection: GameOverMenuSelectedButton::Restart,
            upgrades: Upgrades::catalog(),
            upgrades_menu_spawned: false,
            game_over_panel_visible: false,
            debug_settings: DebugSettings { output_shown: false },
            quit_requested: false,
        }
    }
}

/// Keyboard or gamepad navigation of the game-over menu: direction edges
/// queue a highlight move, confirm triggers the highlighted action.
pub fn menu_navigation(
    selected: &GameOverMenuSelectedButton,
    input: &InputFrame,
    events: &mut Events,
)
    requires
        old(events).wf(),
    ensures
        final(events).highlighted@ == old(events).highlighted@ + (if input.menu_right {
            seq![go_next(*selected)]
        } else {
            Seq::<GameOverMenuSelectedButton>::empty()
        }) + (if input.menu_left {
            seq![go_prev(*selected)]
        } else {
            Seq::<GameOverMenuSelectedButton>::empty()
        }),
        final(events).restart == old(events).restart + (if input.confirm_pressed && *selected
            is Restart {
            1int
        } else {
            0int
        }),
        final(events).quit == old(events).quit + (if input.confirm_pressed && *selected is Quit {
            1int
        } else {
            0int
        }),
        *final(events) == (Events {
            highlighted: final(events).highlighted,
            restart: final(events).restart,
            quit: final(events).quit,
            ..*old(events)
        }),
{
    if input.menu_right {
        events.highlighted.push(selected.next());
    }
    if input.menu_left {
        events.highlighted.push(selected.prev());
    }
    if input.confirm_pressed {
        match selected {
            GameOverMenuSelectedButton::Quit => {
                events.quit = events.quit + 1;
            },
            GameOverMenuSelectedButton::Restart => {
                events.restart = events.restart + 1;
            },
            GameOverMenuSelectedButton::NoSelection => {},
        }
    }
}

/// Pointer interaction with the restart button: a press requests the
/// restart, a hover highlights the button, leaving clears the highlight.
pub fn on_restart_clicked(button: &Option<ButtonInteraction>, events: &mut Events)
    requires
        old(events).wf(),
    ensures
        final(events).restart == old(events).restart + (if *button == Option::Some(
            ButtonInteraction::Pressed,
        ) {
            1int
        } else {
            0int
        }),
        final(events).highlighted@ == old(events).highlighted@ + (match *button {
            Option::Some(ButtonInteraction::Hovered) => seq![GameOverMenuSelectedButton::Restart],
            Option::Some(ButtonInteraction::Idle) => seq![GameOverMenuSelectedButton::NoSelection],
            _ => Seq::<GameOverMenuSelectedButton>::empty(),
        }),
        *final(events) == (Events {
            highlighted: final(events).highlighted,
            restart: final(events).restart,
            ..*old(events)
        }),
{
    match button {
        Option::Some(ButtonInteraction::Pressed) => {
            events.restart = events.restart + 1;
        },
        Option::Some(ButtonInteraction::Hovered) => {
            events.highlighted.push(GameOverMenuSelectedButton::Restart);
        },
        Option::Some(ButtonInteraction::Idle) => {
            events.highlighted.push(GameOverMenuSelectedButton::NoSelection);
        },
        Option::None => {},
    }
}

/// Pointer interaction with a quit button, in either menu.
pub fn on_quit_clicked(button: &Option<ButtonInteraction>, events: &mut Events)
    requires
        old(events).wf(),
    ensures
        final(events).quit == old(events).quit + (if *button == Option::Some(
            ButtonInteraction::Pressed,
        ) {
            1int
        } else {
            0int
        }),
        final(events).highlighted@ == old(events).highlighted@ + (match *button {
            Option::Some(ButtonInteraction::Hovered) => seq![GameOverMenuSelectedButton::Quit],
            Option::Some(ButtonInteraction::Idle) => seq![GameOverMenuSelectedButton::NoSelection],
            _ => Seq::<GameOverMenuSelectedButton>::empty(),
        }),
        *final(events) == (Events {
            highlighted: final(events).highlighted,
            quit: final(events).quit,
            ..*old(events)
        }),
{
    match button {
        Option::Some(ButtonInteraction::Pressed) => {
            events.quit = events.quit + 1;
        },
        Option::Some(ButtonInteraction::Hovered) => {
            events.highlighted.push(GameOverMenuSelectedButton::Quit);
        },
        Option::Some(ButtonInteraction::Idle) => {
            events.highlighted.push(GameOverMenuSelectedButton::NoSelection);
        },
        Option::None => {},
    }
}

/// Apply this tick's queued highlight changes to the game-over menu
/// cursor, in order; the last one wins, and the queue is drained.
pub fn game_over_menu_selected_button_update(
    highlighted_button: &mut GameOverMenuSelectedButton,
    events: &mut Events,
)
    ensures
        *final(highlighted_button) == if old(events).highlighted@.len() > 0 {
            old(events).highlighted@.last()
        } else {
            *old(highlighted_button)
        },
        final(events).highlighted@ =~= Seq::<GameOverMenuSelectedButton>::empty(),
        *final(events) == (Events { highlighted: final(events).highlighted, ..*old(events) }),
{
    let n = events.highlighted.len();
    if n > 0 {
        *highlighted_button = events.highlighted[n - 1];
    }
    events.highlighted = Vec::new();
}

/// Drain the game-over notifications: any at all flips the game-over
/// flag and shows the game-over panel.
pub fn show_game_over(
    game: &mut Game,
    game_over_panel_visible: &mut bool,
    events: &mut Events,
)
    ensures
        final(game).game_over == (old(game).game_over || old(events).game_over > 0),
        final(game).score == old(game).score,
        final(game).coins == old(game).coins,
        *final(game_over_panel_visible) == (*old(game_over_panel_visible) || old(events).game_over
            > 0),
        final(events).game_over == 0,
        *final(events) == (Events { game_over: 0, ..*old(events) }),
{
    if events.game_over > 0 {
        events.game_over = 0;
        game.game_over = true;
        *game_over_panel_visible = true;
    }
}

/// Drain the restart requests: reset the scoreboard, destroy the tail
/// and any food or coin bag, hide the game-over panel, reposition the
/// head at a random interior point and stop it, and restore health.
pub fn restart(
    game: &mut Game,
    tail: &mut Vec<SnakeTailNode>,
    game_over_panel_visible: &mut bool,
    head_pos: &mut Vec2,
    head_vel: &mut Velocity,
    snake: &mut Snake,
    food: &mut Option<Food>,
    coin_bag: &mut Option<CoinBag>,
    field: &GameFieldSize,
    events: &mut Events,
)
    requires
        field.wf(),
    ensures
        old(events).restart > 0 ==> {
            &&& final(game).game_over == false
            &&& final(game).score == 0
            &&& final(game).coins == 0
            &&& final(tail)@.len() == 0
            &&& *final(game_over_panel_visible) == false
            &&& final(snake).health == MAX_HEALTH_DEFAULT
            &&& final(head_vel).0.x == 0 && final(head_vel).0.y == 0
            &&& -field_bound_x(*field) < final(head_pos).x < field_bound_x(*field)
            &&& -field_bound_y(*field) < final(head_pos).y < field_bound_y(*field)
            &&& *final(food) == Option::<Food>::None
            &&& *final(coin_bag) == Option::<CoinBag>::None
        },
        old(events).restart == 0 ==> {
            &&& *final(game) == *old(game)
            &&& final(tail)@ == old(tail)@
            &&& *final(game_over_panel_visible) == *old(game_over_panel_visible)
            &&& *final(snake) == *old(snake)
            &&& *final(head_pos) == *old(head_pos)
            &&& *final(head_vel) == *old(head_vel)
            &&& *final(food) == *old(food)
            &&& *final(coin_bag) == *old(coin_bag)
        },
        final(events).restart == 0,
        *final(events) == (Events { restart: 0, ..*old(events) }),
{
    if events.restart > 0 {
        events.restart = 0;
        game.restart();
        tail.clear();
        *game_over_panel_visible = false;
        let half_x: i64 = ((field.x as u64) / 2) as i64;
        let half_y: i64 = ((field.y as u64) / 2) as i64;
        proof {
            vstd::arithmetic::div_mod::lemma_div_is_ordered(256_002int, field.x as int, 2);
            vstd::arithmetic::div_mod::lemma_div_is_ordered(256_002int, field.y as int, 2);
            vstd::arithmetic::div_mod::lemma_div_is_ordered(
                field.x as int,
                COORD_LIMIT as int,
                2,
            );
            vstd::arithmetic::div_mod::lemma_div_is_ordered(
                field.y as int,
                COORD_LIMIT as int,
                2,
            );
        }
        let bx = half_x - SNAKE_HEAD_RADIUS;
        let by = half_y - SNAKE_HEAD_RADIUS;
        let px = random_coord_in(-(bx - 1), bx);
        let py = random_coord_in(-(by - 1), by);
        *head_pos = Vec2 { x: px, y: py };
        head_vel.0 = Vec2 { x: 0, y: 0 };
        snake.health = MAX_HEALTH_DEFAULT;
        *food = Option::None;
        *coin_bag = Option::None;
    }
}

/// The pause key and pause-menu navigation. A pause request from the
/// running game shows the pause panel; while paused, the pause key is
/// context-sensitive: it closes the upgrades submenu back to the pause
/// panel, or closes the pause panel and resumes. Up and down move the
/// highlight; confirm triggers the highlighted entry.
pub fn pause_menu_event_handler(
    pause: &mut PauseState,
    selected_button: &mut PauseMenuSelectedButton,
    input: &InputFrame,
    events: &mut Events,
)
    requires
        old(events).wf(),
    ensures
        ({
            let paused_now = !(*old(pause) is Unpaused);
            let became_paused = old(events).pause > 0 && *old(pause) is Unpaused;
            let cancel = paused_now && input.pause_pressed;
            &&& *final(pause) == (if became_paused {
                PauseState::PauseMenuShown
            } else if cancel && *old(pause) is UpgradesMenuShown {
                PauseState::PauseMenuShown
            } else if cancel && *old(pause) is PauseMenuShown {
                PauseState::Unpaused
            } else {
                *old(pause)
            })
            &&& *final(selected_button) == (if paused_now {
                let after_up = if input.menu_up {
                    pause_prev(*old(selected_button))
                } else {
                    *old(selected_button)
                };
                if input.menu_down {
                    pause_next(after_up)
                } else {
                    after_up
                }
            } else {
                *old(selected_button)
            })
            &&& final(events).upgrade_menu_clicked == old(events).upgrade_menu_clicked + (
            if paused_now && input.confirm_pressed && *final(selected_button) is Upgrades {
                1int
            } else {
                0int
            })
            &&& final(events).quit == old(events).quit + (if paused_now && input.confirm_pressed
                && *final(selected_button) is Quit {
                1int
            } else {
                0int
            })
        }),
        final(events).pause == 0,
        *final(events) == (Events {
            pause: 0,
            upgrade_menu_clicked: final(events).upgrade_menu_clicked,
            quit: final(events).quit,
            ..*old(events)
        }),
{
    let was_paused = match pause {
        PauseState::Unpaused => false,
        _ => true,
    };
    if events.pause > 0 && !was_paused {
        *pause = PauseState::PauseMenuShown;
    }
    events.pause = 0;
    if was_paused {
        if input.pause_pressed {
            match *pause {
                PauseState::UpgradesMenuShown => {
                    *pause = PauseState::PauseMenuShown;
                },
                PauseState::PauseMenuShown => {
                    *pause = PauseState::Unpaused;
                },
                PauseState::Unpaused => {},
            }
        }
        if input.menu_up {
            selected_button.prev();
        }
        if input.menu_down {
            selected_button.next();
        }
        if input.confirm_pressed {
            match selected_button {
                PauseMenuSelectedButton::Upgrades => {
                    events.upgrade_menu_clicked = events.upgrade_menu_clicked + 1;
                },
                PauseMenuSelectedButton::Quit => {
                    events.quit = events.quit + 1;
                },
                PauseMenuSelectedButton::NoSelection => {},
            }
        }
    }
}

/// Drain the requests to open the upgrades submenu: spawn it on first
/// use, show it, and hide the pause panel.
pub fn upgrade_menu_handler(
    pause: &mut PauseState,
    upgrades_menu_spawned: &mut bool,
    events: &mut Events,
)
    ensures
        old(events).upgrade_menu_clicked > 0 ==> {
            &&& *final(pause) == PauseState::UpgradesMenuShown
            &&& *final(upgrades_menu_spawned) == true
        },
        old(events).upgrade_menu_clicked == 0 ==> {
            &&& *final(pause) == *old(pause)
            &&& *final(upgrades_menu_spawned) == *old(upgrades_menu_spawned)
        },
        final(events).upgrade_menu_clicked == 0,
        *final(events) == (Events { upgrade_menu_clicked: 0, ..*old(events) }),
{
    if events.upgrade_menu_clicked > 0 {
        events.upgrade_menu_clicked = 0;
        *upgrades_menu_spawned = true;
        *pause = PauseState::UpgradesMenuShown;
    }
}

/// Whether this tick's input confirms a restart, given the menu cursor
/// it is read against.
pub open spec fn restart_fired(input: InputFrame, selected: GameOverMenuSelectedButton) -> bool {
    ||| input.restart_button == Option::Some(ButtonInteraction::Pressed)
    ||| (input.confirm_pressed && (selected is Restart))
}

/// The cells the simulation owns (as opposed to menu state) are equal.
pub open spec fn sim_unchanged(a: World, b: World) -> bool {
    &&& a.head_pos == b.head_pos
    &&& a.head_vel == b.head_vel
    &&& a.snake == b.snake
    &&& a.tail@ == b.tail@
    &&& a.food == b.food
    &&& a.coin_bag == b.coin_bag
    &&& a.game == b.game
}

/// Every cell of the world is equal.
pub open spec fn unchanged_world(a: World, b: World) -> bool {
    &&& sim_unchanged(a, b)
    &&& a.max_health == b.max_health
    &&& a.hunger_rate == b.hunger_rate
    &&& a.snake_speed == b.snake_speed
    &&& a.field == b.field
    &&& a.pause == b.pause
    &&& a.pause_menu_selection == b.pause_menu_selection
    &&& a.game_over_menu_selection == b.game_over_menu_selection
    &&& a.upgrades.upgrades@ == b.upgrades.upgrades@
    &&& a.upgrades.selected_index == b.upgrades.selected_index
    &&& a.upgrades_menu_spawned == b.upgrades_menu_spawned
    &&& a.game_over_panel_visible == b.game_over_panel_visible
    &&& a.debug_settings == b.debug_settings
    &&& a.quit_requested == b.quit_requested
}

/// One simulation tick. Gating follows the session state read at the
/// start of the tick: while the game is over only the game-over menu,
/// the high-score check and restart run; while it is paused only the
/// menus run (with purchases when the upgrades submenu is shown); only
/// a running game simulates locomotion, hunger, collisions and the
/// economy. Every event queue is drained before the tick ends; whatever
/// was not consumed is dropped. Returns the score to persist when the
/// running score beats the stored one, or the invariant violation the
/// tick refused to process.
#[verifier::rlimit(100)]
pub fn tick(w: &mut World, input: &InputFrame, dt_ms: i64, stored_high_score: usize) -> (r:
    Result<Option<usize>, CoreError>)
    requires
        old(w).wf(),
        input.wf(),
        0 <= dt_ms <= DT_MAX,
    ensures
        (r matches Result::Err(e) ==> unchanged_world(*old(w), *final(w))),
        // The tick fails exactly when the upgrades submenu is shown and
        // some hover or un-hover names an upgrade the catalog lacks; on
        // every other input it succeeds.
        (r is Err) == (!old(w).game.game_over && old(w).pause is UpgradesMenuShown && (exists|
            k: int,
        |
            0 <= k < input.upgrade_icons@.len() && !((#[trigger] input.upgrade_icons@[k]).1
                is Pressed) && crate::upgrades::find_index(
                old(w).upgrades.upgrades@,
                input.upgrade_icons@[k].0 as int,
                0,
            ) < 0)),
        (r matches Result::Ok(high) ==> {
            &&& final(w).wf()
            &&& high == (if old(w).game.game_over && old(w).game.score > stored_high_score {
                Option::Some(old(w).game.score)
            } else {
                Option::<usize>::None
            })
            &&& (old(w).game.game_over ==> (if restart_fired(
                *input,
                old(w).game_over_menu_selection,
            ) {
                &&& final(w).game.game_over == false
                &&& final(w).game.score == 0
                &&& final(w).game.coins == 0
                &&& final(w).tail@.len() == 0
                &&& final(w).snake.health == MAX_HEALTH_DEFAULT
                &&& final(w).head_vel.0.x == 0 && final(w).head_vel.0.y == 0
                &&& -field_bound_x(final(w).field) < final(w).head_pos.x < field_bound_x(
                    final(w).field,
                )
                &&& -field_bound_y(final(w).field) < final(w).head_pos.y < field_bound_y(
                    final(w).field,
                )
                &&& (final(w).food is None)
                &&& (final(w).coin_bag is None)
                &&& final(w).game_over_panel_visible == false
            } else {
                sim_unchanged(*old(w), *final(w))
            }))
            &&& (!old(w).game.game_over && old(w).pause is PauseMenuShown ==> sim_unchanged(
                *old(w),
                *final(w),
            ))
            &&& (!old(w).game.game_over && old(w).pause is Unpaused ==> ({
                let vx = vel_after_input_x(
                    old(w).head_vel.0,
                    *input,
                    old(w).snake_speed,
                    dt_ms as int,
                );
                let vy = vel_after_input_y(
                    old(w).head_vel.0,
                    *input,
                    old(w).snake_speed,
                    dt_ms as int,
                );
                let px = integrated_x(old(w).head_pos, vx, dt_ms as int);
                let py = integrated_y(old(w).head_pos, vy, dt_ms as int);
                let decay = muldiv(old(w).hunger_rate.0 as int, dt_ms as int, 1000);
                &&& final(w).head_pos.x == clamped(
                    px,
                    -field_bound_x(old(w).field),
                    field_bound_x(old(w).field),
                )
                &&& final(w).head_pos.y == clamped(
                    py,
                    -field_bound_y(old(w).field),
                    field_bound_y(old(w).field),
                )
                &&& (final(w).head_vel.0.x as int, final(w).head_vel.0.y as int) == drag_step(
                    vx,
                    vy,
                )
                &&& final(w).snake.health >= old(w).snake.health - decay
                &&& final(w).game.game_over == (exits_field(px, py, old(w).field) || (
                old(w).tail@.len() >= 4 && colliding_count(
                    old(w).tail@,
                    final(w).head_pos,
                    old(w).tail@.len() as int,
                ) > 0) || (old(w).snake.health - decay <= 0))
                &&& old(w).game.score <= final(w).game.score <= old(w).game.score + 1
                &&& final(w).game.coins >= old(w).game.coins
            }))
            &&& (old(w).quit_requested ==> final(w).quit_requested)
            &&& final(w).field == old(w).field
            &&& final(w).upgrades.upgrades@ == old(w).upgrades.upgrades@
            &&& final(w).max_health >= old(w).max_health
        }),
{
    let mut events = Events::empty();
    // The upgrades submenu first: an invariant violation in its input
    // fails fast, before anything else has run.
    if !w.game.game_over {
        let upgrades_shown = match w.pause {
            PauseState::UpgradesMenuShown => true,
            _ => false,
        };
        if upgrades_shown {
            let handled = upgrade_menu_event_handler(
                &input.upgrade_icons,
                &mut w.upgrades,
                &mut events,
                &w.game,
            );
            match handled {
                Result::Err(e) => {
                    return Result::Err(e);
                },
                Result::Ok(u) => {},
            }
            let ghost ids = events.upgrade_icon_clicked@;
            let ghost st0 = crate::upgrades::purchase_view(
                w.game,
                w.tail@,
                w.max_health as int,
                w.snake_speed,
            );
            on_upgrade_clicked(
                &mut w.game,
                &w.upgrades,
                &mut w.tail,
                &mut w.max_health,
                &mut w.snake_speed,
                &mut events,
            );
            proof {
                crate::upgrades::lemma_apply_purchases_frame(w.upgrades.upgrades@, ids, st0);
                assert forall|i: int| 0 <= i < w.tail@.len() implies in_box(
                    #[trigger] w.tail@[i].pos,
                    COORD_LIMIT as int,
                ) by {
                    assert(w.tail@[i] == st0.1[i]);
                    assert(in_box(old(w).tail@[i].pos, COORD_LIMIT as int));
                };
            }
        }
    }
    // Pointer interaction with the quit buttons applies in every state.
    on_quit_clicked(&input.quit_button, &mut events);
    let mut high: Option<usize> = Option::None;
    if w.game.game_over {
        // Game-over screen: menu navigation, high-score check, restart.
        on_restart_clicked(&input.restart_button, &mut events);
        menu_navigation(&w.game_over_menu_selection, input, &mut events);
        high = update_high_score(&w.game, stored_high_score);
        game_over_menu_selected_button_update(&mut w.game_over_menu_selection, &mut events);
        restart(
            &mut w.game,
            &mut w.tail,
            &mut w.game_over_panel_visible,
            &mut w.head_pos,
            &mut w.head_vel,
            &mut w.snake,
            &mut w.food,
            &mut w.coin_bag,
            &w.field,
            &mut events,
        );
    } else {
        let running = match w.pause {
            PauseState::Unpaused => true,
            _ => false,
        };
        if running {
            // The running game: locomotion before the checks that read
            // the just-updated position; tail growth reads this tick's
            // node positions before move_tail shifts them.
            player_input(
                &mut w.head_pos,
                &mut w.head_vel,
                &w.snake_speed,
                input,
                dt_ms,
                &w.field,
                &mut w.debug_settings,
                &mut events,
            );
            update_health(&mut w.snake, &w.hunger_rate, dt_ms, &mut events);
            match &mut w.food {
                Option::Some(f) => {
                    move_food(f, &w.head_pos, dt_ms, &w.field);
                },
                Option::None => {},
            }
            if snake_is_big_enough(&w.tail) {
                collide_with_self(&w.head_pos, &w.tail, &mut events);
            }
            drag(&mut w.head_vel);
            match &mut w.food {
                Option::Some(f) => {
                    let ghost pre = f.velocity.0;
                    drag(&mut f.velocity);
                    proof {
                        lemma_drag_step_decreases(pre.x as int, pre.y as int);
                    }
                },
                Option::None => {},
            }
            coinbag_leak(&mut w.coin_bag);
            if w.coin_bag.is_none() && random_chance(COIN_SPAWN_CHANCE_PERMILLE) {
                w.coin_bag = Option::Some(spawn_coins(&w.field));
            }
            if w.food.is_none() {
                w.food = Option::Some(spawn_food(&w.field));
            }
            consume_items(
                &w.head_pos,
                &mut w.snake,
                w.max_health,
                &mut w.food,
                &mut w.coin_bag,
                &mut w.game,
                &mut w.tail,
            );
            move_tail(&mut w.tail, &w.head_pos, dt_ms);
        }
    }
    // Always: game-over display, the pause screens, and quit requests.
    show_game_over(&mut w.game, &mut w.game_over_panel_visible, &mut events);
    pause_menu_event_handler(&mut w.pause, &mut w.pause_menu_selection, input, &mut events);
    upgrade_menu_handler(&mut w.pause, &mut w.upgrades_menu_spawned, &mut events);
    if events.quit > 0 {
        w.quit_requested = true;
    }
    Result::Ok(high)
}

} // verus!
