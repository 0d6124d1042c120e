//! The closed entity model: identifiers, the deferred command vocabulary and
//! the tagged union over all entity kinds, with one exhaustive dispatch per
//! shared operation.

use vstd::prelude::*;

use crate::beam::{spec_beam_collide, spec_beam_step, Beam};
use crate::draw::DrawCommand;
use crate::ferris::{spec_ferris_collide, spec_ferris_step, Ferris, SPAWN_BEAM_THRESHOLD};
use crate::geometry::Rect;
use crate::missile::{spec_missile_collide, spec_missile_step, Missile, MISSILE_VELOCITY_MPX};
use crate::shield::{spec_shield_collide, ShieldElement};
use crate::ship::{spec_missile_spawn_point, spec_ship_collide, spec_ship_step, Ship};
use crate::turbo_fish::{spec_turbo_fish_collide, spec_turbo_fish_step, TurboFish};
use crate::wall::Wall;

verus! {

/// An opaque entity identifier, generated at construction and compared only
/// for equality.
#[derive(Clone, Copy, PartialEq, Eq, Structural, Debug)]
pub struct Id(pub u128);

impl Id {
    /// A freshly generated identifier.
    /// Relies on uuid::Uuid::new_v4 for the value; nothing is assumed of
    /// which value comes back.
    #[verifier::external_body]
    pub fn new() -> (r: Id) {
        Id(uuid::Uuid::new_v4().as_u128())
    }
}

/// Constructors and ticks mint identifiers only while the counter is below
/// this bound, which leaves more headroom than any run can spend: a tick
/// mints at most one identifier per roster entry plus two.
pub const ID_SPAN_LIMIT: u128 = u128::MAX - 0x20000000000000000;

/// The allocator of entity identifiers: a counter, so that every identifier
/// minted in a run is distinct from every earlier one. The counter's base is
/// drawn from the host's entropy, echoing the random identifiers a host
/// would otherwise use; within a run, freshness is proved, not assumed.
#[derive(Clone, Copy, PartialEq, Eq, Structural, Debug)]
pub struct IdGen {
    pub next: u128,
}

impl IdGen {
    /// A generator minting identifiers upward from `base`.
    pub fn new(base: u128) -> (r: IdGen)
        ensures
            r.next == base,
    {
        IdGen { next: base }
    }

    /// A generator based at a random point of the lower half of the
    /// identifier space, so a fresh run's identifiers are unlikely to repeat
    /// an earlier run's.
    pub fn from_entropy() -> (r: IdGen)
        ensures
            r.next < 0x10000000000000000u128,
    {
        IdGen { next: Id::new().0 % 0x10000000000000000u128 }
    }

    /// Mint the next identifier; every later mint of this generator differs
    /// from it.
    pub fn fresh(&mut self) -> (r: Id)
        requires
            old(self).next < u128::MAX,
        ensures
            r == Id(old(self).next),
            final(self).next == old(self).next + 1,
    {
        let id = Id(self.next);
        self.next = self.next + 1;
        id
    }
}

/// How minting relates an update's command to the generator: a spawn carries
/// the minted identifier and advances the counter by one; anything else
/// leaves the generator alone.
pub open spec fn spec_minted_opt(cmd: Option<GameCommand>, g0: IdGen, g1: IdGen) -> bool {
    match cmd {
        Some(GameCommand::SpawnCharacter(c)) => char_id(c) == Id(g0.next) && g1.next == g0.next
            + 1,
        _ => g1 == g0,
    }
}

/// Some roster entity carries the identifier.
pub open spec fn spec_roster_has_id(roster: Seq<GameCharacter>, id: Id) -> bool {
    exists|i: int| 0 <= i < roster.len() && char_id(#[trigger] roster[i]) == id
}

/// The identifiers of the roster and the player are pairwise distinct.
pub open spec fn spec_ids_ok(roster: Seq<GameCharacter>, player_id: Id) -> bool {
    &&& forall|i: int, j: int|
        0 <= i < j < roster.len() ==> char_id(#[trigger] roster[i]) != char_id(
            #[trigger] roster[j],
        )
    &&& forall|i: int| 0 <= i < roster.len() ==> char_id(#[trigger] roster[i]) != player_id
}

/// Every identifier of the roster and the player lies below the bound, so
/// anything minted at or above it is fresh.
pub open spec fn spec_ids_below(roster: Seq<GameCharacter>, player_id: Id, bound: u128) -> bool {
    &&& forall|i: int| 0 <= i < roster.len() ==> char_id(#[trigger] roster[i]).0 < bound
    &&& player_id.0 < bound
}

/// A deferred mutation emitted during a tick and applied only after the full
/// entity-and-collision scan.
#[derive(Clone, Copy, Debug)]
pub enum GameCommand {
    SpawnCharacter(GameCharacter),
    DestroyCharacter(Id),
    DestroyPlayer,
    TurnFerris,
}

/// One roster entity of any kind.
#[derive(Clone, Copy, Debug)]
pub enum GameCharacter {
    Ferris(Ferris),
    Ship(Ship),
    TurboFish(TurboFish),
    Missile(Missile),
    Beam(Beam),
    ShieldElement(ShieldElement),
    Wall(Wall),
}

/// The identifier of an entity of any kind.
pub open spec fn char_id(c: GameCharacter) -> Id {
    match c {
        GameCharacter::Ferris(x) => x.id,
        GameCharacter::Ship(x) => x.id,
        GameCharacter::TurboFish(x) => x.id,
        GameCharacter::Missile(x) => x.id,
        GameCharacter::Beam(x) => x.id,
        GameCharacter::ShieldElement(x) => x.id,
        GameCharacter::Wall(x) => x.id,
    }
}

/// The identifier used in specifications for an entity whose real
/// identifier is freshly generated: specifications pin a spawned entity up
/// to its identifier.
pub open spec fn spec_placeholder_id() -> Id {
    Id(0)
}

/// The same entity carrying the given identifier.
pub open spec fn spec_with_char_id(c: GameCharacter, id: Id) -> GameCharacter {
    match c {
        GameCharacter::Ferris(x) => GameCharacter::Ferris(Ferris { id, ..x }),
        GameCharacter::Ship(x) => GameCharacter::Ship(Ship { id, ..x }),
        GameCharacter::TurboFish(x) => GameCharacter::TurboFish(TurboFish { id, ..x }),
        GameCharacter::Missile(x) => GameCharacter::Missile(Missile { id, ..x }),
        GameCharacter::Beam(x) => GameCharacter::Beam(Beam { id, ..x }),
        GameCharacter::ShieldElement(x) => GameCharacter::ShieldElement(
            ShieldElement { id, ..x },
        ),
        GameCharacter::Wall(x) => GameCharacter::Wall(Wall { id, ..x }),
    }
}

/// Well-formedness of an entity of any kind.
pub open spec fn char_wf(c: GameCharacter) -> bool {
    match c {
        GameCharacter::Ferris(x) => x.wf(),
        GameCharacter::Ship(x) => x.wf(),
        GameCharacter::TurboFish(x) => x.wf(),
        GameCharacter::Missile(x) => x.wf(),
        GameCharacter::Beam(x) => x.wf(),
        GameCharacter::ShieldElement(x) => x.wf(),
        GameCharacter::Wall(_) => true,
    }
}

/// The bounding box of an entity of any kind, derived from its position and
/// its current frame.
pub open spec fn char_bbox(c: GameCharacter) -> Rect {
    match c {
        GameCharacter::Ferris(x) => x.spec_bbox(),
        GameCharacter::Ship(x) => x.spec_bbox(),
        GameCharacter::TurboFish(x) => x.spec_bbox(),
        GameCharacter::Missile(x) => x.spec_bbox(),
        GameCharacter::Beam(x) => x.spec_bbox(),
        GameCharacter::ShieldElement(x) => x.spec_bbox(),
        GameCharacter::Wall(x) => x.bounding_box,
    }
}

/// The entity one tick of motion later; commands it emits are described by
/// `spec_char_update_cmd`.
pub open spec fn spec_char_step(c: GameCharacter, delta_ms: u32) -> GameCharacter {
    match c {
        GameCharacter::Ferris(x) => GameCharacter::Ferris(spec_ferris_step(x, delta_ms)),
        GameCharacter::Ship(x) => GameCharacter::Ship(spec_ship_step(x, delta_ms)),
        GameCharacter::TurboFish(x) => GameCharacter::TurboFish(
            spec_turbo_fish_step(x, delta_ms),
        ),
        GameCharacter::Missile(x) => GameCharacter::Missile(spec_missile_step(x, delta_ms)),
        GameCharacter::Beam(x) => GameCharacter::Beam(spec_beam_step(x, delta_ms)),
        GameCharacter::ShieldElement(x) => GameCharacter::ShieldElement(x),
        GameCharacter::Wall(x) => GameCharacter::Wall(x),
    }
}

/// What command an entity's own update emits. Only a fleet member (beam
/// fire, decided by the tick's random draw) and the player ship (pending
/// missile) emit anything; the spawned entity is pinned up to its fresh
/// identifier.
pub open spec fn spec_char_update_cmd(
    c: GameCharacter,
    delta_ms: u32,
    spawn_draw: u32,
    cmd: Option<GameCommand>,
) -> bool {
    match c {
        GameCharacter::Ferris(x) => if spawn_draw < SPAWN_BEAM_THRESHOLD {
            cmd matches Some(GameCommand::SpawnCharacter(GameCharacter::Beam(b))) && b == (Beam {
                id: b.id,
                position: crate::ferris::spec_beam_spawn_point(spec_ferris_step(x, delta_ms)),
                cell: x.beam_cell,
                velocity: crate::beam::BEAM_VELOCITY_MPX,
            })
        } else {
            cmd is None
        },
        GameCharacter::Ship(x) => if x.need_shot {
            cmd matches Some(GameCommand::SpawnCharacter(GameCharacter::Missile(m))) && m == (
            Missile {
                id: m.id,
                position: spec_missile_spawn_point(spec_ship_step(x, delta_ms)),
                cell: x.missile_cell,
                velocity: MISSILE_VELOCITY_MPX,
            })
        } else {
            cmd is None
        },
        _ => cmd is None,
    }
}

/// The command emitted when an entity leaves the screen: every kind destroys
/// itself except a wall.
pub open spec fn spec_on_exit_cmd(c: GameCharacter) -> Option<GameCommand> {
    match c {
        GameCharacter::Wall(_) => None,
        _ => Some(GameCommand::DestroyCharacter(char_id(c))),
    }
}

/// The collision table: what command `c` emits on overlapping `other`. Both
/// sides of a physical overlap are evaluated independently.
pub open spec fn spec_on_collide(c: GameCharacter, other: GameCharacter) -> Option<GameCommand> {
    match c {
        GameCharacter::Ferris(x) => spec_ferris_collide(x, other),
        GameCharacter::Ship(x) => spec_ship_collide(x, other),
        GameCharacter::TurboFish(x) => spec_turbo_fish_collide(x, other),
        GameCharacter::Missile(x) => spec_missile_collide(x, other),
        GameCharacter::Beam(x) => spec_beam_collide(x, other),
        GameCharacter::ShieldElement(x) => spec_shield_collide(x, other),
        GameCharacter::Wall(_) => None,
    }
}

/// The draw command an entity contributes: its current cell at its position
/// on its kind's layer; a wall contributes nothing.
pub open spec fn spec_char_draw(c: GameCharacter) -> Option<DrawCommand> {
    match c {
        GameCharacter::Ferris(x) => Some(
            DrawCommand {
                layer: crate::layers::ENEMY,
                cell: x.animation.spec_current_frame().cell,
                position: x.position,
            },
        ),
        GameCharacter::Ship(x) => Some(
            DrawCommand { layer: crate::layers::SHIP, cell: x.cell, position: x.position },
        ),
        GameCharacter::TurboFish(x) => Some(
            DrawCommand {
                layer: crate::layers::ENEMY,
                cell: x.animation.spec_current_frame().cell,
                position: x.position,
            },
        ),
        GameCharacter::Missile(x) => Some(
            DrawCommand { layer: crate::layers::MISSILE, cell: x.cell, position: x.position },
        ),
        GameCharacter::Beam(x) => Some(
            DrawCommand { layer: crate::layers::BEAM, cell: x.cell, position: x.position },
        ),
        GameCharacter::ShieldElement(x) => Some(
            DrawCommand { layer: crate::layers::SHIELD, cell: x.cell, position: x.position },
        ),
        GameCharacter::Wall(_) => None,
    }
}

impl From<Ferris> for GameCharacter {
    fn from(character: Ferris) -> Self {
        GameCharacter::Ferris(character)
    }
}

impl vstd::std_specs::convert::FromSpecImpl<Ferris> for GameCharacter {
    open spec fn obeys_from_spec() -> bool {
        true
    }

    open spec fn from_spec(v: Ferris) -> GameCharacter {
        GameCharacter::Ferris(v)
    }
}

impl From<Ship> for GameCharacter {
    fn from(character: Ship) -> Self {
        GameCharacter::Ship(character)
    }
}

impl vstd::std_specs::convert::FromSpecImpl<Ship> for GameCharacter {
    open spec fn obeys_from_spec() -> bool {
        true
    }

    open spec fn from_spec(v: Ship) -> GameCharacter {
        GameCharacter::Ship(v)
    }
}

impl From<TurboFish> for GameCharacter {
    fn from(character: TurboFish) -> Self {
        GameCharacter::TurboFish(character)
    }
}

impl vstd::std_specs::convert::FromSpecImpl<TurboFish> for GameCharacter {
    open spec fn obeys_from_spec() -> bool {
        true
    }

    open spec fn from_spec(v: TurboFish) -> GameCharacter {
        GameCharacter::TurboFish(v)
    }
}

impl From<Missile> for GameCharacter {
    fn from(character: Missile) -> Self {
        GameCharacter::Missile(character)
    }
}

impl vstd::std_specs::convert::FromSpecImpl<Missile> for GameCharacter {
    open spec fn obeys_from_spec() -> bool {
        true
    }

    open spec fn from_spec(v: Missile) -> GameCharacter {
        GameCharacter::Missile(v)
    }
}

impl From<Beam> for GameCharacter {
    fn from(character: Beam) -> Self {
        GameCharacter::Beam(character)
    }
}

impl vstd::std_specs::convert::FromSpecImpl<Beam> for GameCharacter {
    open spec fn obeys_from_spec() -> bool {
        true
    }

    open spec fn from_spec(v: Beam) -> GameCharacter {
        GameCharacter::Beam(v)
    }
}

impl From<ShieldElement> for GameCharacter {
    fn from(character: ShieldElement) -> Self {
        GameCharacter::ShieldElement(character)
    }
}

impl vstd::std_specs::convert::FromSpecImpl<ShieldElement> for GameCharacter {
    open spec fn obeys_from_spec() -> bool {
        true
    }

    open spec fn from_spec(v: ShieldElement) -> GameCharacter {
        GameCharacter::ShieldElement(v)
    }
}

impl From<Wall> for GameCharacter {
    fn from(character: Wall) -> Self {
        GameCharacter::Wall(character)
    }
}

impl vstd::std_specs::convert::FromSpecImpl<Wall> for GameCharacter {
    open spec fn obeys_from_spec() -> bool {
        true
    }

    open spec fn from_spec(v: Wall) -> GameCharacter {
        GameCharacter::Wall(v)
    }
}

/// A singleton or empty draw sequence from an optional draw command.
pub open spec fn opt_draw_seq(o: Option<DrawCommand>) -> Seq<DrawCommand> {
    match o {
        Some(d) => seq![d],
        None => Seq::empty(),
    }
}

/// The draw commands a roster contributes, in roster order.
pub open spec fn spec_roster_draws(roster: Seq<GameCharacter>) -> Seq<DrawCommand>
    decreases roster.len(),
{
    if roster.len() <= 0 {
        Seq::empty()
    } else {
        opt_draw_seq(spec_char_draw(roster[0])) + spec_roster_draws(roster.drop_first())
    }
}

/// Collect the draw commands of a roster, in roster order.
pub fn roster_draws(roster: &Vec<GameCharacter>) -> (r: Vec<DrawCommand>)
    requires
        forall|i: int| 0 <= i < roster@.len() ==> char_wf(#[trigger] roster@[i]),
    ensures
        r@ == spec_roster_draws(roster@),
{
    let n = roster.len();
    let mut out: Vec<DrawCommand> = Vec::new();
    let mut i: usize = 0;
    proof {
        assert(roster@.skip(0) =~= roster@);
        assert(Seq::<DrawCommand>::empty() + spec_roster_draws(roster@) =~= spec_roster_draws(
            roster@,
        ));
    }
    while i < n
        invariant
            n == roster@.len(),
            0 <= i <= n,
            forall|j: int| 0 <= j < n ==> char_wf(#[trigger] roster@[j]),
            spec_roster_draws(roster@) == out@ + spec_roster_draws(roster@.skip(i as int)),
        decreases n - i,
    {
        proof {
            assert(roster@.skip(i as int)[0] == roster@[i as int]);
            assert(roster@.skip(i as int).drop_first() =~= roster@.skip(i as int + 1));
        }
        let ghost out_prev = out@;
        if let Some(d) = roster[i].draw() {
            out.push(d);
        }
        proof {
            assert(out@ =~= out_prev + opt_draw_seq(spec_char_draw(roster@[i as int])));
            assert((out_prev + opt_draw_seq(spec_char_draw(roster@[i as int])))
                + spec_roster_draws(roster@.skip(i as int + 1)) =~= out_prev + (opt_draw_seq(
                spec_char_draw(roster@[i as int]),
            ) + spec_roster_draws(roster@.skip(i as int + 1))));
        }
        i = i + 1;
    }
    proof {
        assert(roster@.skip(n as int) =~= Seq::<GameCharacter>::empty());
        assert(out@ + Seq::<DrawCommand>::empty() =~= out@);
    }
    out
}

impl GameCharacter {
    pub fn id(&self) -> (r: Id)
        ensures
            r == char_id(*self),
    {
        match self {
            GameCharacter::Ferris(x) => x.id(),
            GameCharacter::Ship(x) => x.id(),
            GameCharacter::TurboFish(x) => x.id(),
            GameCharacter::Missile(x) => x.id(),
            GameCharacter::Beam(x) => x.id(),
            GameCharacter::ShieldElement(x) => x.id(),
            GameCharacter::Wall(x) => x.id(),
        }
    }

    pub fn bounding_box(&self) -> (r: Rect)
        requires
            char_wf(*self),
        ensures
            r == char_bbox(*self),
    {
        match self {
            GameCharacter::Ferris(x) => x.bounding_box(),
            GameCharacter::Ship(x) => x.bounding_box(),
            GameCharacter::TurboFish(x) => x.bounding_box(),
            GameCharacter::Missile(x) => x.bounding_box(),
            GameCharacter::Beam(x) => x.bounding_box(),
            GameCharacter::ShieldElement(x) => x.bounding_box(),
            GameCharacter::Wall(x) => x.bounding_box(),
        }
    }

    /// One tick of motion for an entity of any kind; `spawn_draw` is the
    /// tick's random draw for this entity, read only by a fleet member, and
    /// `id_gen` mints the identifier of anything the entity spawns.
    pub fn update(&mut self, delta_ms: u32, spawn_draw: u32, id_gen: &mut IdGen) -> (cmd: Option<
        GameCommand,
    >)
        requires
            char_wf(*old(self)),
            old(id_gen).next < u128::MAX,
        ensures
            *final(self) == spec_char_step(*old(self), delta_ms),
            char_wf(*final(self)),
            spec_char_update_cmd(*old(self), delta_ms, spawn_draw, cmd),
            spec_minted_opt(cmd, *old(id_gen), *final(id_gen)),
    {
        match self {
            GameCharacter::Ferris(x) => x.update(delta_ms, spawn_draw, id_gen),
            GameCharacter::Ship(x) => x.update(delta_ms, id_gen),
            GameCharacter::TurboFish(x) => x.update(delta_ms),
            GameCharacter::Missile(x) => x.update(delta_ms),
            GameCharacter::Beam(x) => x.update(delta_ms),
            GameCharacter::ShieldElement(x) => x.update(delta_ms),
            GameCharacter::Wall(x) => x.update(delta_ms),
        }
    }

    /// The reaction to leaving the screen; the entity itself is unchanged,
    /// destruction flows through the returned command.
    pub fn on_exit_screen(&mut self) -> (cmd: Option<GameCommand>)
        ensures
            *final(self) == *old(self),
            cmd == spec_on_exit_cmd(*old(self)),
    {
        match self {
            GameCharacter::Ferris(x) => x.on_exit_screen(),
            GameCharacter::Ship(x) => x.on_exit_screen(),
            GameCharacter::TurboFish(x) => x.on_exit_screen(),
            GameCharacter::Missile(x) => x.on_exit_screen(),
            GameCharacter::Beam(x) => x.on_exit_screen(),
            GameCharacter::ShieldElement(x) => x.on_exit_screen(),
            GameCharacter::Wall(x) => x.on_exit_screen(),
        }
    }

    pub fn on_collide(&self, other: &GameCharacter) -> (cmd: Option<GameCommand>)
        ensures
            cmd == spec_on_collide(*self, *other),
    {
        match self {
            GameCharacter::Ferris(x) => x.on_collide(other),
            GameCharacter::Ship(x) => x.on_collide(other),
            GameCharacter::TurboFish(x) => x.on_collide(other),
            GameCharacter::Missile(x) => x.on_collide(other),
            GameCharacter::Beam(x) => x.on_collide(other),
            GameCharacter::ShieldElement(x) => x.on_collide(other),
            GameCharacter::Wall(x) => x.on_collide(other),
        }
    }

    pub fn draw(&self) -> (r: Option<DrawCommand>)
        requires
            char_wf(*self),
        ensures
            r == spec_char_draw(*self),
    {
        match self {
            GameCharacter::Ferris(x) => x.draw(),
            GameCharacter::Ship(x) => x.draw(),
            GameCharacter::TurboFish(x) => x.draw(),
            GameCharacter::Missile(x) => x.draw(),
            GameCharacter::Beam(x) => x.draw(),
            GameCharacter::ShieldElement(x) => x.draw(),
            GameCharacter::Wall(x) => x.draw(),
        }
    }
}

} // verus!
