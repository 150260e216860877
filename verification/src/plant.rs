//! Plants: bought for money, grown for a fixed time, then paid out.

use crate::chance::random_index;
use crate::countdown::{
    fresh_timer, ticked, timer_elapsed_ns, timer_finished, timer_new, timer_state, timer_tick,
    TimerState,
};
use crate::player::Money;
use crate::position::Position;
use bevy::time::Timer;
use vstd::prelude::*;

verus! {

/// What a plant costs, in hundredths of a currency unit.
pub const PLANT_PRICE: i64 = 1_000;

/// What a grown plant pays, in hundredths of a currency unit.
pub const PLANT_REWARD: i64 = 1_500;

/// How long a plant grows, in nanoseconds.
pub const PLANT_LIFETIME_NS: u64 = 10_000_000_000;

/// How many plant textures there are to choose from.
pub const PLANT_TEXTURE_COUNT: usize = 2;

/// Marks a plant among the entities.
#[derive(Clone, Copy, Debug, PartialEq, Eq, Structural)]
pub struct PlantMarker;

/// The countdown of one plant: a one-shot timer over the plant's lifetime.
pub struct PlantAge(Timer);

impl View for PlantAge {
    type V = TimerState;

    closed spec fn view(&self) -> TimerState {
        timer_state(self.0)
    }
}

/// Whether a timer state is that of a plant's countdown: one shot over the
/// plant's lifetime, running, and no further than that lifetime.
pub open spec fn is_plant_age(age: TimerState) -> bool {
    &&& !age.repeating
    &&& !age.paused
    &&& age.duration == PLANT_LIFETIME_NS
    &&& age.elapsed <= PLANT_LIFETIME_NS
}

impl PlantAge {
    #[verifier::type_invariant]
    spec fn inv(self) -> bool {
        is_plant_age(self@)
    }

    /// The time that the plant has grown, in nanoseconds.
    pub fn elapsed_ns(&self) -> (elapsed_ns: u64)
        ensures
            elapsed_ns == self@.elapsed,
            elapsed_ns <= PLANT_LIFETIME_NS,
    {
        proof {
            use_type_invariant(self);
        }
        timer_elapsed_ns(&self.0)
    }

    /// Whether the plant's countdown is over.
    pub fn finished(&self) -> (finished: bool)
        ensures
            finished == self@.finished,
    {
        timer_finished(&self.0)
    }
}

/// What is drawn for a plant: which texture, and where.
#[derive(Clone, Copy, Debug, PartialEq, Eq, Structural)]
pub struct PlantSprite {
    pub texture: usize,
    pub transform: Position,
}

/// Everything a plant consists of.
pub struct PlantBundle {
    /// The name under which the plant is listed.
    pub name: &'static str,
    pub marker: PlantMarker,
    pub sprite_bundle: PlantSprite,
    pub age: PlantAge,
}

/// A `PlantBundle` as contracts see it.
pub struct PlantView {
    pub name: Seq<char>,
    pub sprite_bundle: PlantSprite,
    pub age: TimerState,
}

impl View for PlantBundle {
    type V = PlantView;

    open spec fn view(&self) -> PlantView {
        PlantView { name: self.name@, sprite_bundle: self.sprite_bundle, age: self.age@ }
    }
}

/// A plant as it is made: at the given place with the given texture, its
/// countdown not yet started.
pub open spec fn new_plant(texture: usize, transform: Position) -> PlantView {
    PlantView {
        name: "Plant"@,
        sprite_bundle: PlantSprite { texture, transform },
        age: fresh_timer(PLANT_LIFETIME_NS as nat, false),
    }
}

impl PlantBundle {
    /// A new plant with the given texture at the given place.
    pub fn new(texture: usize, transform: Position) -> (plant: PlantBundle)
        ensures
            plant@ == new_plant(texture, transform),
    {
        PlantBundle {
            name: "Plant",
            marker: PlantMarker,
            sprite_bundle: PlantSprite { texture, transform },
            age: PlantAge(timer_new(PLANT_LIFETIME_NS, false)),
        }
    }
}

/// The files that hold the plant textures.
pub open spec fn plant_texture_files() -> Seq<Seq<char>> {
    seq!["plants/plant1.png"@, "plants/plant2.png"@]
}

/// The file that holds the plant texture of the given index.
pub fn plant_texture_file(index: usize) -> (file: &'static str)
    requires
        index < PLANT_TEXTURE_COUNT,
    ensures
        file@ == plant_texture_files()[index as int],
{
    if index == 0 {
        "plants/plant1.png"
    } else {
        "plants/plant2.png"
    }
}

// ---------------------------------------------------------------------------
// The table of plants
// ---------------------------------------------------------------------------

/// One live plant and the identifier it keeps for life.
pub struct PlantRow {
    pub id: u64,
    pub plant: PlantBundle,
}

/// A `PlantRow` as contracts see it.
pub struct RowView {
    pub id: u64,
    pub plant: PlantView,
}

impl View for PlantRow {
    type V = RowView;

    open spec fn view(&self) -> RowView {
        RowView { id: self.id, plant: self.plant@ }
    }
}

/// Whether the identifiers grow along the rows and stay below `bound`.
pub open spec fn ids_grow(rows: Seq<RowView>, bound: u64) -> bool {
    &&& forall|i: int, j: int| 0 <= i < j < rows.len() ==> rows[i].id < rows[j].id
    &&& forall|i: int| 0 <= i < rows.len() ==> rows[i].id < bound
}

/// The live plants, oldest first, each under an identifier that no other
/// plant of this table ever had.
pub struct Garden {
    rows: Vec<PlantRow>,
    next_id: u64,
}

impl View for Garden {
    type V = Seq<RowView>;

    closed spec fn view(&self) -> Seq<RowView> {
        Seq::new(self.rows@.len(), |i: int| self.rows@[i]@)
    }
}

impl Garden {
    /// The identifier that the next plant gets.
    pub closed spec fn upcoming_id(self) -> u64 {
        self.next_id
    }

    /// Identifiers grow along the table and stay below the upcoming one, so
    /// no two rows share one.
    pub open spec fn wf(self) -> bool {
        ids_grow(self@, self.upcoming_id())
    }

    /// A table without plants.
    pub fn new() -> (garden: Garden)
        ensures
            garden@ == Seq::<RowView>::empty(),
            garden.upcoming_id() == 0,
            garden.wf(),
    {
        let garden = Garden { rows: Vec::new(), next_id: 0 };
        assert(garden@ =~= Seq::<RowView>::empty());
        garden
    }

    /// How many plants live.
    pub fn len(&self) -> (len: usize)
        ensures
            len == self@.len(),
    {
        self.rows.len()
    }

    /// The identifier that the next plant gets.
    pub fn next_id(&self) -> (id: u64)
        ensures
            id == self.upcoming_id(),
    {
        self.next_id
    }

    /// The plant at the given place in the table, counted from the oldest.
    pub fn row(&self, index: usize) -> (row: &PlantRow)
        requires
            index < self@.len(),
        ensures
            row@ == self@[index as int],
    {
        &self.rows[index]
    }

    /// Puts a new plant with the given texture at the given place, and
    /// returns its identifier. The table must have an identifier left.
    pub fn plant(&mut self, texture: usize, transform: Position) -> (id: u64)
        requires
            old(self).upcoming_id() < u64::MAX,
        ensures
            id == old(self).upcoming_id(),
            final(self).upcoming_id() == id + 1,
            final(self)@ == old(self)@.push(RowView { id, plant: new_plant(texture, transform) }),
            old(self).wf() ==> final(self).wf(),
    {
        let id = self.next_id;
        self.rows.push(PlantRow { id, plant: PlantBundle::new(texture, transform) });
        self.next_id = id + 1;
        assert(self@ =~= old(self)@.push(RowView { id, plant: new_plant(texture, transform) }));
        id
    }
}

// ---------------------------------------------------------------------------
// Buying
// ---------------------------------------------------------------------------

/// Whether a request to plant is granted: it was made on this tick, and the
/// money covers the price.
pub open spec fn purchase_granted(just_pressed: bool, money: Money) -> bool {
    just_pressed && money.0 >= PLANT_PRICE
}

/// Buys a plant if one was asked for on this tick and the money covers the
/// price: takes the price, and puts a new plant with a texture chosen at
/// random at the player's place. Returns the new plant's identifier.
/// Otherwise nothing changes.
///
/// To take a plant, the table must have an identifier left.
pub fn spawn_plant(
    garden: &mut Garden,
    just_pressed: bool,
    money: &mut Money,
    player_transform: &Position,
) -> (spawned: Option<u64>)
    requires
        purchase_granted(just_pressed, *old(money)) ==> old(garden).upcoming_id() < u64::MAX,
    ensures
        spawned.is_some() == purchase_granted(just_pressed, *old(money)),
        !purchase_granted(just_pressed, *old(money)) ==> {
            &&& *final(money) == *old(money)
            &&& *final(garden) == *old(garden)
        },
        purchase_granted(just_pressed, *old(money)) ==> {
            &&& spawned == Some(old(garden).upcoming_id())
            &&& final(money).0 == old(money).0 - PLANT_PRICE
            &&& final(garden).upcoming_id() == old(garden).upcoming_id() + 1
            &&& final(garden)@.last().plant.sprite_bundle.texture < PLANT_TEXTURE_COUNT
            &&& final(garden)@ == old(garden)@.push(
                RowView {
                    id: old(garden).upcoming_id(),
                    plant: new_plant(
                        final(garden)@.last().plant.sprite_bundle.texture,
                        *player_transform,
                    ),
                },
            )
        },
        old(garden).wf() ==> final(garden).wf(),
{
    if !just_pressed {
        return None;
    }
    if money.0 >= PLANT_PRICE {
        let texture_index: usize = random_index(PLANT_TEXTURE_COUNT);
        money.0 -= PLANT_PRICE;
        let id = garden.plant(texture_index, *player_transform);
        Some(id)
    } else {
        None
    }
}

// ---------------------------------------------------------------------------
// Growing and paying out
// ---------------------------------------------------------------------------

/// Whether a plant's countdown is over after a tick of `delta_ns`.
pub open spec fn expires(row: RowView, delta_ns: u64) -> bool {
    ticked(row.plant.age, delta_ns as nat).finished
}

/// A plant after a tick of `delta_ns`.
pub open spec fn aged(row: RowView, delta_ns: u64) -> RowView {
    RowView {
        id: row.id,
        plant: PlantView { age: ticked(row.plant.age, delta_ns as nat), ..row.plant },
    }
}

/// The plants that still live after a tick of `delta_ns`, each that much
/// older, in their old order.
pub open spec fn survivors(rows: Seq<RowView>, delta_ns: u64) -> Seq<RowView> {
    rows.filter(|row: RowView| !expires(row, delta_ns)).map_values(
        |row: RowView| aged(row, delta_ns),
    )
}

/// The identifiers of the plants whose countdown ends with a tick of
/// `delta_ns`, in the order of the table.
pub open spec fn expired_ids(rows: Seq<RowView>, delta_ns: u64) -> Seq<u64> {
    rows.filter(|row: RowView| expires(row, delta_ns)).map_values(|row: RowView| row.id)
}

/// The money after `plants` plants paid out. The ledger stops at the most an
/// `i64` holds.
pub open spec fn credited(money: int, plants: nat) -> int {
    if money + plants * PLANT_REWARD <= i64::MAX {
        money + plants * PLANT_REWARD
    } else {
        i64::MAX as int
    }
}

/// Pays one plant's reward into the ledger.
fn credit_reward(money: &mut Money)
    ensures
        final(money).0 == credited(old(money).0 as int, 1),
{
    if money.0 <= i64::MAX - PLANT_REWARD {
        money.0 += PLANT_REWARD;
    } else {
        money.0 = i64::MAX;
    }
}

/// Filtering one row more either appends that row or changes nothing.
proof fn filter_take_next<A>(rows: Seq<A>, pred: spec_fn(A) -> bool, done: int)
    requires
        0 <= done < rows.len(),
    ensures
        rows.take(done + 1).filter(pred) == if pred(rows[done]) {
            rows.take(done).filter(pred).push(rows[done])
        } else {
            rows.take(done).filter(pred)
        },
{
    reveal(Seq::filter);
    assert(rows.take(done + 1).drop_last() =~= rows.take(done));
}

/// One tick in the life of every plant, `delta_ns` after the last one: each
/// countdown moves on; each plant whose countdown is over pays its reward and
/// leaves the table. Returns the identifiers of the plants that left.
pub fn plant_lifecycle(garden: &mut Garden, money: &mut Money, delta_ns: u64) -> (expired: Vec<u64>)
    ensures
        final(garden)@ == survivors(old(garden)@, delta_ns),
        expired@ == expired_ids(old(garden)@, delta_ns),
        final(money).0 == credited(old(money).0 as int, expired@.len()),
        final(garden).upcoming_id() == old(garden).upcoming_id(),
        old(garden).wf() ==> final(garden).wf(),
{
    let ghost rows = garden@;
    let ghost alive = |row: RowView| !expires(row, delta_ns);
    let ghost dead = |row: RowView| expires(row, delta_ns);
    let ghost older = |row: RowView| aged(row, delta_ns);
    let ghost id_of = |row: RowView| row.id;
    let ghost mut done: int = 0;
    let mut expired: Vec<u64> = Vec::new();
    let mut i: usize = 0;
    proof {
        reveal(Seq::filter);
        assert(rows.take(0).filter(alive).map_values(older) =~= garden@.take(0));
        assert(rows.take(0).filter(dead).map_values(id_of) =~= expired@);
        assert(garden@.skip(0) =~= rows.skip(0));
    }
    while i < garden.rows.len()
        invariant
            0 <= done <= rows.len(),
            i <= garden.rows.len(),
            garden.rows.len() - i == rows.len() - done,
            garden@.take(i as int) == rows.take(done).filter(alive).map_values(older),
            garden@.skip(i as int) == rows.skip(done),
            expired@ == rows.take(done).filter(dead).map_values(id_of),
            money.0 == credited(old(money).0 as int, expired@.len()),
            garden.next_id == old(garden).next_id,
            old(garden).wf() ==> garden.wf(),
            alive == |row: RowView| !expires(row, delta_ns),
            dead == |row: RowView| expires(row, delta_ns),
            older == |row: RowView| aged(row, delta_ns),
            id_of == |row: RowView| row.id,
        decreases garden.rows.len() - i,
    {
        let ghost table = garden@;
        let age = &garden.rows[i].plant.age;
        proof {
            use_type_invariant(age);
            filter_take_next(rows, alive, done);
            filter_take_next(rows, dead, done);
            assert(table[i as int] == table.skip(i as int)[0]);
            assert(rows[done] == rows.skip(done)[0]);
        }
        timer_tick(&mut garden.rows[i].plant.age.0, delta_ns);
        let ghost ticked_table = garden@;
        proof {
            assert(ticked_table.len() == table.len());
            assert(ticked_table[i as int] == aged(rows[done], delta_ns));
            assert forall|k: int| 0 <= k < table.len() && k != i implies ticked_table[k]
                == table[k] by {}
            assert forall|k: int| i < k < table.len() implies ticked_table[k] == rows[done + (k
                - i)] by {
                assert(table[k] == table.skip(i as int)[k - i]);
                assert(rows[done + (k - i)] == rows.skip(done)[k - i]);
            }
            assert(ticked_table.take(i as int) =~= table.take(i as int));
            assert(ids_grow(table, garden.next_id) ==> ids_grow(ticked_table, garden.next_id)) by {
                assert forall|k: int| 0 <= k < table.len() implies ticked_table[k].id
                    == table[k].id by {}
            }
        }
        if timer_finished(&garden.rows[i].plant.age.0) {
            let row = garden.rows.remove(i);
            credit_reward(money);
            proof {
                payouts_add_up(old(money).0 as int, expired@.len(), 1);
            }
            expired.push(row.id);
            proof {
                assert(dead(rows[done]));
                assert(garden@.take(i as int) =~= ticked_table.take(i as int));
                assert forall|k: int| i <= k < garden@.len() implies garden@[k] == rows[done + 1
                    + (k - i)] by {
                    assert(garden@[k] == ticked_table[k + 1]);
                }
                assert(garden@ =~= ticked_table.remove(i as int));
                assert(garden@.skip(i as int) =~= rows.skip(done + 1));
                assert(expired@ =~= rows.take(done + 1).filter(dead).map_values(id_of));
                done = done + 1;
            }
        } else {
            proof {
                assert(alive(rows[done]));
                assert(garden@.take(i + 1) =~= ticked_table.take(i as int).push(
                    aged(rows[done], delta_ns),
                ));
                assert(rows.take(done + 1).filter(alive).map_values(older) =~= rows.take(
                    done,
                ).filter(alive).map_values(older).push(older(rows[done])));
                assert(garden@.skip(i + 1) =~= rows.skip(done + 1));
                done = done + 1;
            }
            i += 1;
        }
    }
    proof {
        assert(garden@.take(i as int) =~= garden@);
        assert(rows.take(done) =~= rows);
    }
    expired
}

// ---------------------------------------------------------------------------
// What holds of a plant's life
// ---------------------------------------------------------------------------

/// The time that a run of ticks covers, in nanoseconds.
pub open spec fn total_ns(deltas: Seq<u64>) -> nat
    decreases deltas.len(),
{
    if deltas.len() == 0 {
        0
    } else {
        total_ns(deltas.drop_last()) + deltas.last() as nat
    }
}

/// The table after a run of ticks, one round of growing and paying out for
/// each.
pub open spec fn after_ticks(rows: Seq<RowView>, deltas: Seq<u64>) -> Seq<RowView>
    decreases deltas.len(),
{
    if deltas.len() == 0 {
        rows
    } else {
        survivors(after_ticks(rows, deltas.drop_last()), deltas.last())
    }
}

/// A plant whose countdown runs and is not over stays for a tick exactly if
/// the tick does not bring the time counted up to its lifetime; it then is
/// older by the length of the tick.
pub proof fn plant_expires_when_lifetime_is_reached(row: RowView, delta_ns: u64)
    requires
        !row.plant.age.repeating,
        !row.plant.age.paused,
        !row.plant.age.finished,
    ensures
        expires(row, delta_ns) <==> row.plant.age.elapsed + delta_ns >= row.plant.age.duration,
        !expires(row, delta_ns) ==> aged(row, delta_ns).plant.age == (TimerState {
            elapsed: row.plant.age.elapsed + delta_ns as nat,
            times_finished: 0,
            ..row.plant.age
        }),
{
}

/// A new plant is still in the table after a run of ticks that together are
/// shorter than its lifetime, older by their sum; it is gone after a run
/// that reaches its lifetime; and it leaves, and pays, on the one tick that
/// reaches it.
pub proof fn plant_lives_for_its_lifetime(
    id: u64,
    texture: usize,
    transform: Position,
    deltas: Seq<u64>,
)
    ensures
        ({
            let planted = seq![RowView { id, plant: new_plant(texture, transform) }];
            let grown = RowView {
                id,
                plant: PlantView {
                    age: TimerState {
                        elapsed: total_ns(deltas),
                        ..fresh_timer(PLANT_LIFETIME_NS as nat, false)
                    },
                    ..new_plant(texture, transform)
                },
            };
            &&& total_ns(deltas) < PLANT_LIFETIME_NS ==> after_ticks(planted, deltas) == seq![grown]
            &&& total_ns(deltas) >= PLANT_LIFETIME_NS ==> after_ticks(planted, deltas)
                == Seq::<RowView>::empty()
            &&& deltas.len() > 0 && total_ns(deltas.drop_last()) < PLANT_LIFETIME_NS <= total_ns(
                deltas,
            ) ==> expired_ids(after_ticks(planted, deltas.drop_last()), deltas.last()) == seq![id]
        }),
    decreases deltas.len(),
{
    reveal_with_fuel(Seq::filter, 2);
    let planted = seq![RowView { id, plant: new_plant(texture, transform) }];
    if deltas.len() == 0 {
        assert(planted[0].plant.age == fresh_timer(PLANT_LIFETIME_NS as nat, false));
    } else {
        let earlier = deltas.drop_last();
        let delta = deltas.last();
        plant_lives_for_its_lifetime(id, texture, transform, earlier);
        let before = after_ticks(planted, earlier);
        let stays = |row: RowView| !expires(row, delta);
        let leaves = |row: RowView| expires(row, delta);
        if total_ns(earlier) < PLANT_LIFETIME_NS {
            let row = before[0];
            assert(before.drop_last() =~= Seq::<RowView>::empty());
            assert(before.last() == row);
            if total_ns(deltas) < PLANT_LIFETIME_NS {
                assert(stays(row));
                assert(before.filter(stays) =~= seq![row]);
                assert(survivors(before, delta) =~= seq![aged(row, delta)]);
            } else {
                assert(leaves(row));
                assert(before.filter(stays) =~= Seq::<RowView>::empty());
                assert(before.filter(leaves) =~= seq![row]);
                assert(survivors(before, delta) =~= Seq::<RowView>::empty());
                assert(expired_ids(before, delta) =~= seq![id]);
            }
        } else {
            assert(before.filter(stays) =~= Seq::<RowView>::empty());
            assert(survivors(before, delta) =~= Seq::<RowView>::empty());
        }
    }
}

/// A plant that pays out raises the money by exactly the reward, which is
/// the price and half as much again, unless the ledger is full.
pub proof fn payout_is_the_reward(money: int)
    requires
        money + PLANT_REWARD <= i64::MAX,
    ensures
        credited(money, 1) == money + PLANT_REWARD,
        credited(money - PLANT_PRICE, 1) == money + (PLANT_REWARD - PLANT_PRICE),
        PLANT_REWARD - PLANT_PRICE == 500,
{
}

/// Paying out plant after plant comes to the same as paying them out at
/// once, so the order in which plants expire within a tick does not matter.
pub proof fn payouts_add_up(money: int, first: nat, second: nat)
    ensures
        credited(credited(money, first), second) == credited(money, first + second),
{
    assert((first + second) * PLANT_REWARD == first * PLANT_REWARD + second * PLANT_REWARD)
        by (nonlinear_arith);
}

} // verus!
