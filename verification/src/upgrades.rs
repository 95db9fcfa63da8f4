//! The upgrade catalog and purchase flow: a fixed list of priced,
//! idempotent effects. A purchase goes through only when the coins
//! strictly exceed the price; it then subtracts exactly the price and
//! invokes the effect exactly once. An unaffordable purchase changes
//! nothing.

use vstd::prelude::*;
use crate::events::Events;
use crate::game::{Game, SnakeSpeed};
use crate::input::ButtonInteraction;
use crate::tail::{split_keep_len, split_snake, SnakeTailNode};

verus! {

/// The closed set of effect kinds an upgrade can invoke.
#[derive(Clone, Copy, PartialEq, Eq, Structural, Debug)]
pub enum UpgradeEffect {
    /// Destroy the newer half of the tail chain.
    SplitTail,
    /// Raise the health ceiling.
    RaiseMaxHealth,
    /// Raise both acceleration tunables.
    RaiseSpeed,
}

/// The core's error for invariant violations: loud and fail-fast,
/// distinguished from recoverable gameplay outcomes.
#[derive(Clone, Copy, PartialEq, Eq, Structural, Debug)]
pub enum CoreError {
    /// An icon referred to an upgrade id absent from the catalog.
    UnknownUpgrade,
}

/// One catalog entry. Ids are unique, stable and externally assigned.
#[derive(Clone, Copy, PartialEq, Eq, Debug)]
pub struct Upgrade {
    pub id: usize,
    pub price: i64,
    pub icon: &'static str,
    pub name: &'static str,
    pub description: &'static str,
    pub effect: UpgradeEffect,
}

/// The catalog, immutable after startup but for the highlight cursor.
#[derive(Clone, Debug)]
pub struct Upgrades {
    pub upgrades: Vec<Upgrade>,
    pub selected_index: usize,
}

/// Index of the first catalog entry with this id, or -1.
pub open spec fn find_index(cat: Seq<Upgrade>, id: int, i: int) -> int
    decreases cat.len() - i,
{
    if i < 0 || i >= cat.len() {
        -1
    } else if cat[i].id == id {
        i
    } else {
        find_index(cat, id, i + 1)
    }
}

impl Upgrades {
    /// Ids are unique, prices are in range, and the cursor points into
    /// the catalog whenever it is nonempty.
    pub open spec fn wf(self) -> bool {
        &&& forall|i: int, j: int|
            0 <= i < j < self.upgrades@.len() ==> #[trigger] self.upgrades@[i].id
                != #[trigger] self.upgrades@[j].id
        &&& forall|i: int|
            0 <= i < self.upgrades@.len() ==> 0 <= (#[trigger] self.upgrades@[i]).price
                <= 1_000_000_000
        &&& (self.upgrades@.len() > 0 ==> self.selected_index < self.upgrades@.len())
        &&& self.upgrades@.len() <= 1000
    }

    /// The catalog the game starts with: the one split-tail upgrade.
    pub fn catalog() -> (r: Upgrades)
        ensures
            r.wf(),
            r.upgrades@.len() == 1,
            r.upgrades@[0].id == 0,
            r.upgrades@[0].price == 100_000,
            r.upgrades@[0].effect == UpgradeEffect::SplitTail,
            r.selected_index == 0,
    {
        let mut upgrades: Vec<Upgrade> = Vec::new();
        upgrades.push(
            Upgrade {
                id: 0,
                price: 100_000,
                icon: "split.png",
                name: "Split Snake",
                description: "Splits your snake in half, reducing the length of your tail by 50%",
                effect: UpgradeEffect::SplitTail,
            },
        );
        Upgrades { upgrades, selected_index: 0 }
    }

    /// Position of this upgrade's entry in the catalog. Ids are unique,
    /// stable and externally assigned, so the catalog identifies an
    /// entry by its id alone: the match is deliberately on the id, and
    /// a record sharing a catalog id is taken as that entry whatever
    /// its other fields say.
    pub fn index_of(&self, upgrade: &Upgrade) -> (r: Option<usize>)
        ensures
            r == (if find_index(self.upgrades@, upgrade.id as int, 0) >= 0 {
                Option::Some(find_index(self.upgrades@, upgrade.id as int, 0) as usize)
            } else {
                Option::<usize>::None
            }),
    {
        self.index_of_id(upgrade.id)
    }

    /// Position of the entry with this id in the catalog.
    pub fn index_of_id(&self, id: usize) -> (r: Option<usize>)
        ensures
            r == (if find_index(self.upgrades@, id as int, 0) >= 0 {
                Option::Some(find_index(self.upgrades@, id as int, 0) as usize)
            } else {
                Option::<usize>::None
            }),
    {
        let mut i: usize = 0;
        while i < self.upgrades.len()
            invariant
                0 <= i <= self.upgrades@.len(),
                find_index(self.upgrades@, id as int, 0) == find_index(
                    self.upgrades@,
                    id as int,
                    i as int,
                ),
            decreases self.upgrades@.len() - i,
        {
            if self.upgrades[i].id == id {
                return Option::Some(i);
            }
            i = i + 1;
        }
        Option::None
    }
}

/// Raise the health ceiling by half a hundred units, within the core's
/// numeric range.
pub fn increase_hunger(max_health: &mut i64)
    requires
        0 <= *old(max_health) <= 1_000_000_000,
    ensures
        *final(max_health) == if *old(max_health) + 50_000 <= 1_000_000_000 {
            *old(max_health) + 50_000
        } else {
            *old(max_health) as int
        },
        0 <= *final(max_health) <= 1_000_000_000,
{
    if *max_health <= 1_000_000_000 - 50_000 {
        *max_health = *max_health + 50_000;
    }
}

/// Raise both acceleration tunables, within their range.
pub fn increase_speed(speed: &mut SnakeSpeed)
    requires
        old(speed).wf(),
    ensures
        final(speed).analog == if old(speed).analog + 50_000 <= 100_000_000 {
            old(speed).analog + 50_000
        } else {
            old(speed).analog as int
        },
        final(speed).discrete == if old(speed).discrete + 1_000 <= 100_000_000 {
            old(speed).discrete + 1_000
        } else {
            old(speed).discrete as int
        },
        final(speed).wf(),
{
    if speed.analog <= 100_000_000 - 50_000 {
        speed.analog = speed.analog + 50_000;
    }
    if speed.discrete <= 100_000_000 - 1_000 {
        speed.discrete = speed.discrete + 1_000;
    }
}

/// Everything a purchase can touch, as one mathematical state.
pub open spec fn purchase_view(
    game: Game,
    tail: Seq<SnakeTailNode>,
    max_health: int,
    speed: SnakeSpeed,
) -> (int, Seq<SnakeTailNode>, int, int, int) {
    (game.coins as int, tail, max_health, speed.analog as int, speed.discrete as int)
}

/// What one effect does to the purchase state.
pub open spec fn apply_effect(
    effect: UpgradeEffect,
    st: (int, Seq<SnakeTailNode>, int, int, int),
) -> (int, Seq<SnakeTailNode>, int, int, int) {
    match effect {
        UpgradeEffect::SplitTail => (st.0, st.1.take(split_keep_len(st.1.len() as int)), st.2, st.3, st.4),
        UpgradeEffect::RaiseMaxHealth => (
            st.0,
            st.1,
            if st.2 + 50_000 <= 1_000_000_000 {
                st.2 + 50_000
            } else {
                st.2
            },
            st.3,
            st.4,
        ),
        UpgradeEffect::RaiseSpeed => (
            st.0,
            st.1,
            st.2,
            if st.3 + 50_000 <= 100_000_000 {
                st.3 + 50_000
            } else {
                st.3
            },
            if st.4 + 1_000 <= 100_000_000 {
                st.4 + 1_000
            } else {
                st.4
            },
        ),
    }
}

/// One attempted purchase by id: affordable means the coins strictly
/// exceed the price; then the price is subtracted and the effect
/// applied once. Anything else changes nothing.
pub open spec fn apply_purchase(
    cat: Seq<Upgrade>,
    id: int,
    st: (int, Seq<SnakeTailNode>, int, int, int),
) -> (int, Seq<SnakeTailNode>, int, int, int) {
    let idx = find_index(cat, id, 0);
    if idx >= 0 {
        let u = cat[idx];
        if st.0 > u.price {
            let applied = apply_effect(u.effect, st);
            (st.0 - u.price, applied.1, applied.2, applied.3, applied.4)
        } else {
            st
        }
    } else {
        st
    }
}

/// All queued purchases, applied in click order.
pub open spec fn apply_purchases(
    cat: Seq<Upgrade>,
    ids: Seq<usize>,
    st: (int, Seq<SnakeTailNode>, int, int, int),
) -> (int, Seq<SnakeTailNode>, int, int, int)
    decreases ids.len(),
{
    if ids.len() == 0 {
        st
    } else {
        apply_purchases(cat, ids.drop_first(), apply_purchase(cat, ids[0] as int, st))
    }
}

/// One purchase only ever truncates the tail and moves the tunables
/// within their ranges.
pub proof fn lemma_apply_purchase_frame(
    cat: Seq<Upgrade>,
    id: int,
    st: (int, Seq<SnakeTailNode>, int, int, int),
)
    requires
        forall|i: int| 0 <= i < cat.len() ==> 0 <= (#[trigger] cat[i]).price,
    ensures
        ({
            let r = apply_purchase(cat, id, st);
            &&& r.1.len() <= st.1.len()
            &&& (forall|i: int| 0 <= i < r.1.len() ==> #[trigger] r.1[i] == st.1[i])
            &&& (st.0 >= 0 ==> r.0 >= 0)
            &&& r.2 >= st.2
            &&& (st.2 <= 1_000_000_000 ==> r.2 <= 1_000_000_000)
            &&& (0 <= st.3 <= 100_000_000 ==> 0 <= r.3 <= 100_000_000)
            &&& (0 <= st.4 <= 100_000_000 ==> 0 <= r.4 <= 100_000_000)
        }),
{
    let idx = find_index(cat, id, 0);
    if idx >= 0 {
        lemma_find_index_from(cat, id, 0);
    }
}

/// A chain of purchases only ever truncates the tail and moves the
/// tunables within their ranges.
pub proof fn lemma_apply_purchases_frame(
    cat: Seq<Upgrade>,
    ids: Seq<usize>,
    st: (int, Seq<SnakeTailNode>, int, int, int),
)
    requires
        forall|i: int| 0 <= i < cat.len() ==> 0 <= (#[trigger] cat[i]).price,
    ensures
        ({
            let r = apply_purchases(cat, ids, st);
            &&& r.1.len() <= st.1.len()
            &&& (forall|i: int| 0 <= i < r.1.len() ==> #[trigger] r.1[i] == st.1[i])
            &&& (st.0 >= 0 ==> r.0 >= 0)
            &&& r.2 >= st.2
            &&& (st.2 <= 1_000_000_000 ==> r.2 <= 1_000_000_000)
            &&& (0 <= st.3 <= 100_000_000 ==> 0 <= r.3 <= 100_000_000)
            &&& (0 <= st.4 <= 100_000_000 ==> 0 <= r.4 <= 100_000_000)
        }),
    decreases ids.len(),
{
    if ids.len() > 0 {
        let st1 = apply_purchase(cat, ids[0] as int, st);
        lemma_apply_purchase_frame(cat, ids[0] as int, st);
        lemma_apply_purchases_frame(cat, ids.drop_first(), st1);
    }
}

/// Apply one purchase attempt to the live state.
pub fn upgrade_purchased(
    game: &mut Game,
    upgrades: &Upgrades,
    id: usize,
    tail: &mut Vec<SnakeTailNode>,
    max_health: &mut i64,
    speed: &mut SnakeSpeed,
)
    requires
        old(game).wf(),
        upgrades.wf(),
        0 <= *old(max_health) <= 1_000_000_000,
        old(speed).wf(),
    ensures
        purchase_view(*final(game), final(tail)@, *final(max_health) as int, *final(speed))
            == apply_purchase(
            upgrades.upgrades@,
            id as int,
            purchase_view(*old(game), old(tail)@, *old(max_health) as int, *old(speed)),
        ),
        final(game).score == old(game).score,
        final(game).game_over == old(game).game_over,
        final(game).wf(),
        0 <= *final(max_health) <= 1_000_000_000,
        final(speed).wf(),
{
    let found = upgrades.index_of_id(id);
    match found {
        Option::Some(idx) => {
            proof {
                lemma_find_index_hit(upgrades.upgrades@, id as int);
            }
            let u = upgrades.upgrades[idx];
            if game.coins > u.price {
                game.coins = game.coins - u.price;
                match u.effect {
                    UpgradeEffect::SplitTail => {
                        split_snake(tail);
                    },
                    UpgradeEffect::RaiseMaxHealth => {
                        increase_hunger(max_health);
                    },
                    UpgradeEffect::RaiseSpeed => {
                        increase_speed(speed);
                    },
                }
            }
        },
        Option::None => {},
    }
}

/// A found index really carries the id searched for.
proof fn lemma_find_index_hit(cat: Seq<Upgrade>, id: int)
    ensures
        find_index(cat, id, 0) >= 0 ==> {
            let idx = find_index(cat, id, 0);
            0 <= idx < cat.len() && cat[idx].id == id
        },
{
    lemma_find_index_from(cat, id, 0);
}

/// Search from any start behaves as expected.
proof fn lemma_find_index_from(cat: Seq<Upgrade>, id: int, i: int)
    ensures
        find_index(cat, id, i) >= 0 ==> {
            let idx = find_index(cat, id, i);
            i <= idx < cat.len() && cat[idx].id == id
        },
    decreases cat.len() - i,
{
    if 0 <= i < cat.len() {
        if cat[i].id == id {
        } else {
            lemma_find_index_from(cat, id, i + 1);
        }
    }
}

/// Drain the queue of clicked upgrade icons, attempting each purchase
/// in click order.
pub fn on_upgrade_clicked(
    game: &mut Game,
    upgrades: &Upgrades,
    tail: &mut Vec<SnakeTailNode>,
    max_health: &mut i64,
    speed: &mut SnakeSpeed,
    events: &mut Events,
)
    requires
        old(game).wf(),
        upgrades.wf(),
        0 <= *old(max_health) <= 1_000_000_000,
        old(speed).wf(),
    ensures
        purchase_view(*final(game), final(tail)@, *final(max_health) as int, *final(speed))
            == apply_purchases(
            upgrades.upgrades@,
            old(events).upgrade_icon_clicked@,
            purchase_view(*old(game), old(tail)@, *old(max_health) as int, *old(speed)),
        ),
        final(events).upgrade_icon_clicked@ =~= Seq::<usize>::empty(),
        *final(events) == (Events {
            upgrade_icon_clicked: final(events).upgrade_icon_clicked,
            ..*old(events)
        }),
        final(game).score == old(game).score,
        final(game).game_over == old(game).game_over,
        final(game).wf(),
        0 <= *final(max_health) <= 1_000_000_000,
        final(speed).wf(),
{
    let ghost cat = upgrades.upgrades@;
    let ghost ids = events.upgrade_icon_clicked@;
    let ghost init = purchase_view(*game, tail@, *max_health as int, *speed);
    let mut i: usize = 0;
    let n = events.upgrade_icon_clicked.len();
    proof {
        assert(ids.subrange(0, n as int) =~= ids);
    }
    while i < n
        invariant
            0 <= i <= n,
            n == ids.len(),
            events.upgrade_icon_clicked@ == ids,
            cat == upgrades.upgrades@,
            game.wf(),
            upgrades.wf(),
            0 <= *max_health <= 1_000_000_000,
            speed.wf(),
            game.score == old(game).score,
            game.game_over == old(game).game_over,
            apply_purchases(cat, ids.subrange(i as int, n as int), purchase_view(*game, tail@, *max_health as int, *speed)) == apply_purchases(cat, ids, init),
            *events == (Events {
                upgrade_icon_clicked: events.upgrade_icon_clicked,
                ..*old(events)
            }),
            init == purchase_view(*old(game), old(tail)@, *old(max_health) as int, *old(speed)),
        decreases n - i,
    {
        let id = events.upgrade_icon_clicked[i];
        proof {
            assert(ids.subrange(i as int, n as int).drop_first() =~= ids.subrange(
                i as int + 1,
                n as int,
            ));
            assert(ids.subrange(i as int, n as int)[0] == ids[i as int]);
        }
        upgrade_purchased(game, upgrades, id, tail, max_health, speed);
        i = i + 1;
    }
    proof {
        assert(ids.subrange(n as int, n as int) =~= Seq::<usize>::empty());
    }
    events.upgrade_icon_clicked = Vec::new();
}

/// How the hover handler moves the highlight cursor: pressed icons leave
/// it alone; a hover or un-hover moves it to that icon's catalog index.
pub open spec fn sel_after_icons(
    cat: Seq<Upgrade>,
    icons: Seq<(usize, ButtonInteraction)>,
    sel: int,
) -> int
    decreases icons.len(),
{
    if icons.len() == 0 {
        sel
    } else {
        let next = if icons[0].1 is Pressed {
            sel
        } else {
            find_index(cat, icons[0].0 as int, 0)
        };
        sel_after_icons(cat, icons.drop_first(), next)
    }
}

/// The clicked ids among the icon interactions, in order.
pub open spec fn pressed_ids(icons: Seq<(usize, ButtonInteraction)>) -> Seq<usize> {
    icons.filter(|p: (usize, ButtonInteraction)| p.1 is Pressed).map_values(
        |p: (usize, ButtonInteraction)| p.0,
    )
}

/// Process this tick's pointer interactions with the upgrade icons:
/// every pressed icon queues one click event; every hover or un-hover
/// moves the highlight cursor to that icon. An icon with an id the
/// catalog does not know is an invariant violation: the call fails
/// fast and changes nothing.
pub fn upgrade_menu_event_handler(
    icons: &Vec<(usize, ButtonInteraction)>,
    upgrades: &mut Upgrades,
    events: &mut Events,
    game: &Game,
) -> (r: Result<(), CoreError>)
    requires
        old(upgrades).wf(),
        old(events).wf(),
        icons@.len() <= 1000,
    ensures
        (r matches Result::Err(e) ==> {
            &&& e == CoreError::UnknownUpgrade
            &&& *final(upgrades) == *old(upgrades)
            &&& *final(events) == *old(events)
            &&& exists|k: int|
                0 <= k < icons@.len() && !((#[trigger] icons@[k]).1 is Pressed) && find_index(
                    old(upgrades).upgrades@,
                    icons@[k].0 as int,
                    0,
                ) < 0
        }),
        (r matches Result::Ok(u) ==> {
            &&& forall|k: int|
                0 <= k < icons@.len() ==> ((#[trigger] icons@[k]).1 is Pressed) || find_index(
                    old(upgrades).upgrades@,
                    icons@[k].0 as int,
                    0,
                ) >= 0
            &&& final(upgrades).upgrades@ == old(upgrades).upgrades@
            &&& final(upgrades).selected_index == sel_after_icons(
                old(upgrades).upgrades@,
                icons@,
                old(upgrades).selected_index as int,
            )
            &&& final(events).upgrade_icon_clicked@ == old(events).upgrade_icon_clicked@
                + pressed_ids(icons@)
            &&& *final(events) == (Events {
                upgrade_icon_clicked: final(events).upgrade_icon_clicked,
                ..*old(events)
            })
            &&& final(upgrades).wf()
        }),
{
    // Validate first: fail fast without any partial mutation.
    let mut i: usize = 0;
    while i < icons.len()
        invariant
            0 <= i <= icons@.len(),
            forall|k: int|
                0 <= k < i ==> ((#[trigger] icons@[k]).1 is Pressed) || find_index(
                    upgrades.upgrades@,
                    icons@[k].0 as int,
                    0,
                ) >= 0,
            *upgrades == *old(upgrades),
            *events == *old(events),
        decreases icons@.len() - i,
    {
        let (id, interaction) = icons[i];
        let pressed = match interaction {
            ButtonInteraction::Pressed => true,
            _ => false,
        };
        if !pressed {
            let found = upgrades.index_of_id(id);
            if found.is_none() {
                return Result::Err(CoreError::UnknownUpgrade);
            }
        }
        i = i + 1;
    }
    // Apply.
    let ghost cat = upgrades.upgrades@;
    let ghost icseq = icons@;
    let ghost sel0 = upgrades.selected_index as int;
    let ghost queue0 = events.upgrade_icon_clicked@;
    let mut j: usize = 0;
    proof {
        assert(icseq.subrange(0, icseq.len() as int) =~= icseq);
        assert(icseq.subrange(0, 0) =~= Seq::<(usize, ButtonInteraction)>::empty());
        assert(pressed_ids(Seq::<(usize, ButtonInteraction)>::empty()) =~= Seq::<usize>::empty()) by {
            reveal(Seq::filter);
        };
        assert(queue0 + pressed_ids(icseq.subrange(0, 0)) =~= queue0);
    }
    while j < icons.len()
        invariant
            0 <= j <= icseq.len(),
            icons@ == icseq,
            icseq.len() <= 1000,
            upgrades.upgrades@ == cat,
            upgrades.wf(),
            old(events).wf(),
            forall|k: int|
                0 <= k < icseq.len() ==> ((#[trigger] icseq[k]).1 is Pressed) || find_index(
                    cat,
                    icseq[k].0 as int,
                    0,
                ) >= 0,
            sel_after_icons(cat, icseq.subrange(j as int, icseq.len() as int), upgrades.selected_index as int) == sel_after_icons(cat, icseq, sel0),
            events.upgrade_icon_clicked@ == queue0 + pressed_ids(icseq.subrange(0, j as int)),
            *events == (Events {
                upgrade_icon_clicked: events.upgrade_icon_clicked,
                ..*old(events)
            }),
            queue0 == old(events).upgrade_icon_clicked@,
            sel0 == old(upgrades).selected_index as int,
        decreases icseq.len() - j,
    {
        proof {
            assert(icseq.subrange(j as int, icseq.len() as int).drop_first() =~= icseq.subrange(
                j as int + 1,
                icseq.len() as int,
            ));
            assert(icseq.subrange(j as int, icseq.len() as int)[0] == icseq[j as int]);
            assert(icseq.subrange(0, j as int + 1) =~= icseq.subrange(0, j as int).push(
                icseq[j as int],
            ));
            lemma_pressed_ids_push(icseq.subrange(0, j as int), icseq[j as int]);
        }
        let (id, interaction) = icons[j];
        let pressed = match interaction {
            ButtonInteraction::Pressed => true,
            _ => false,
        };
        if pressed {
            events.upgrade_icon_clicked.push(id);
        } else {
            let found = upgrades.index_of_id(id);
            match found {
                Option::Some(idx) => {
                    proof {
                        lemma_find_index_hit(cat, id as int);
                    }
                    upgrades.selected_index = idx;
                },
                Option::None => {
                    proof {
                        assert(false);
                    }
                },
            }
        }
        j = j + 1;
    }
    proof {
        assert(icseq.subrange(icseq.len() as int, icseq.len() as int) =~= Seq::<(
            usize,
            ButtonInteraction,
        )>::empty());
        assert(icseq.subrange(0, icseq.len() as int) =~= icseq);
    }
    Result::Ok(())
}

/// Appending one interaction appends its id exactly when it is a press.
proof fn lemma_pressed_ids_push(icons: Seq<(usize, ButtonInteraction)>, p: (usize, ButtonInteraction))
    ensures
        pressed_ids(icons.push(p)) == if p.1 is Pressed {
            pressed_ids(icons).push(p.0)
        } else {
            pressed_ids(icons)
        },
{
    reveal(Seq::filter);
    assert(icons.push(p).drop_last() =~= icons);
    assert(icons.push(p).last() == p);
    if p.1 is Pressed {
        assert(pressed_ids(icons.push(p)) =~= pressed_ids(icons).push(p.0));
    } else {
        assert(pressed_ids(icons.push(p)) =~= pressed_ids(icons));
    }
}

} // verus!
