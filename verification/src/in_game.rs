//! The active simulation phase: one tick applies the input events to the
//! player, moves every roster entity, scans for screen exits and pairwise
//! collisions, applies the collected commands, and checks the terminal
//! conditions. All mutation is deferred: entity operations only emit
//! commands, and the commands are applied after the full scan.

use vstd::prelude::*;

use crate::character::{char_bbox, char_id, char_wf, spec_char_draw, spec_char_step,
    spec_char_update_cmd, spec_ids_below, spec_ids_ok, spec_minted_opt, spec_on_collide,
    spec_on_exit_cmd, spec_roster_has_id, GameCharacter, GameCommand, Id, IdGen, ID_SPAN_LIMIT};
use crate::draw::DrawCommand;
use crate::event::{Event, Key};
use crate::ferris::{spec_turned, SPAWN_BEAM_THRESHOLD};
use crate::geometry::{spec_overlaps, Point, Rect};
use crate::motion::{clamp_coord, spec_clamp_coord};
use crate::random::{spec_output, spec_state_after, Prng};
use crate::ship::{spec_ship_step, Ship};
use crate::sprite::{spec_assets_ok, SpriteSheet};
use crate::turbo_fish::TurboFish;

verus! {

/// A bonus enemy appears when the tick's final random draw falls under this
/// threshold: one draw in a thousand of the 31-bit draw space.
pub const TURBO_FISH_APPEAR_THRESHOLD: u32 = 2147484;

/// Vertical offset of a spawning bonus enemy from the screen's top edge.
pub const TURBO_FISH_Y_OFFSET: i16 = 50;

/// The active simulation phase: the roster, the player, the shared asset
/// handle, the injected random source, the identifier allocator and the
/// game-over flag.
#[derive(Debug)]
pub struct InGame {
    pub sprite_sheet: SpriteSheet,
    pub screen: Rect,
    pub characters: Vec<GameCharacter>,
    pub player: Ship,
    pub is_game_over: bool,
    pub rng: Prng,
    pub id_gen: IdGen,
}

/// A copy of a roster.
pub fn clone_roster(v: &Vec<GameCharacter>) -> (r: Vec<GameCharacter>)
    ensures
        r@ == v@,
{
    let mut out: Vec<GameCharacter> = Vec::new();
    let n = v.len();
    let mut i: usize = 0;
    while i < n
        invariant
            n == v@.len(),
            0 <= i <= n,
            out@ =~= v@.take(i as int),
        decreases n - i,
    {
        out.push(v[i]);
        i = i + 1;
    }
    proof {
        assert(out@ =~= v@);
    }
    out
}

/// The player after one input event: move inputs set the velocity, releasing
/// a move input stops, firing requests a shot, releasing fire reloads.
pub open spec fn spec_apply_event(s: Ship, e: Event) -> Ship {
    match e {
        Event::KeyDown(Key::ArrowRight) => Ship { velocity: crate::ship::SHIP_VELOCITY_MPX, ..s },
        Event::KeyDown(Key::ArrowLeft) => Ship {
            velocity: -crate::ship::SHIP_VELOCITY_MPX as i32,
            ..s
        },
        Event::KeyDown(Key::Space) => Ship { need_shot: s.has_bullet, has_bullet: false, ..s },
        Event::KeyUp(Key::ArrowRight) => Ship { velocity: 0, ..s },
        Event::KeyUp(Key::ArrowLeft) => Ship { velocity: 0, ..s },
        Event::KeyUp(Key::Space) => Ship { has_bullet: true, ..s },
        _ => s,
    }
}

/// The player after a sequence of input events, applied in order.
pub open spec fn spec_apply_events(s: Ship, events: Seq<Event>) -> Ship
    decreases events.len(),
{
    if events.len() <= 0 {
        s
    } else {
        spec_apply_events(spec_apply_event(s, events[0]), events.drop_first())
    }
}

/// The roster after one command: spawn appends, destroy removes every entity
/// carrying the identifier, a fleet turn turns every fleet member, and
/// destroying the player leaves the roster alone.
pub open spec fn spec_apply_command_roster(
    roster: Seq<GameCharacter>,
    cmd: GameCommand,
) -> Seq<GameCharacter> {
    match cmd {
        GameCommand::SpawnCharacter(c) => roster.push(c),
        GameCommand::DestroyCharacter(id) => spec_destroy(roster, id),
        GameCommand::TurnFerris => roster.map_values(|c: GameCharacter| spec_turned_char(c)),
        GameCommand::DestroyPlayer => roster,
    }
}

/// The roster with every entity carrying `id` removed.
pub open spec fn spec_destroy(roster: Seq<GameCharacter>, id: Id) -> Seq<GameCharacter>
    decreases roster.len(),
{
    if roster.len() <= 0 {
        Seq::empty()
    } else {
        let rest = spec_destroy(roster.drop_first(), id);
        if char_id(roster[0]) == id {
            rest
        } else {
            seq![roster[0]] + rest
        }
    }
}

/// A fleet member turns; every other kind is left alone.
pub open spec fn spec_turned_char(c: GameCharacter) -> GameCharacter {
    match c {
        GameCharacter::Ferris(f) => GameCharacter::Ferris(spec_turned(f)),
        _ => c,
    }
}

/// The roster after a whole command list, applied in emission order.
pub open spec fn spec_apply_all_roster(
    roster: Seq<GameCharacter>,
    cmds: Seq<GameCommand>,
) -> Seq<GameCharacter>
    decreases cmds.len(),
{
    if cmds.len() <= 0 {
        roster
    } else {
        spec_apply_all_roster(spec_apply_command_roster(roster, cmds[0]), cmds.drop_first())
    }
}

/// Whether a command list destroys the player.
pub open spec fn spec_destroys_player(cmds: Seq<GameCommand>) -> bool {
    exists|i: int| 0 <= i < cmds.len() && cmds[i] is DestroyPlayer
}

/// The identifiers of a roster, in roster order.
pub open spec fn spec_roster_ids(roster: Seq<GameCharacter>) -> Seq<Id> {
    roster.map_values(|c: GameCharacter| char_id(c))
}

/// Destruction is idempotent: applying `DestroyCharacter(id)` twice in
/// sequence yields the same roster as applying it once.
pub proof fn lemma_destroy_idempotent(roster: Seq<GameCharacter>, id: Id)
    ensures
        spec_apply_command_roster(
            spec_apply_command_roster(roster, GameCommand::DestroyCharacter(id)),
            GameCommand::DestroyCharacter(id),
        ) == spec_apply_command_roster(roster, GameCommand::DestroyCharacter(id)),
    decreases roster.len(),
{
    if roster.len() == 0 {
        assert(spec_destroy(roster, id) =~= Seq::<GameCharacter>::empty());
    } else {
        lemma_destroy_idempotent(roster.drop_first(), id);
        let rest = spec_destroy(roster.drop_first(), id);
        if char_id(roster[0]) != id {
            assert((seq![roster[0]] + rest)[0] == roster[0]);
            assert((seq![roster[0]] + rest).drop_first() =~= rest);
        }
    }
}

/// A tick's movement pass never changes an entity's identifier.
pub proof fn lemma_char_step_preserves_id(c: GameCharacter, delta_ms: u32)
    ensures
        char_id(spec_char_step(c, delta_ms)) == char_id(c),
{
}

/// Input events never change the player's identifier.
pub proof fn lemma_apply_events_preserves_id(s: Ship, events: Seq<Event>)
    ensures
        spec_apply_events(s, events).id == s.id,
    decreases events.len(),
{
    if events.len() > 0 {
        assert(spec_apply_event(s, events[0]).id == s.id);
        lemma_apply_events_preserves_id(spec_apply_event(s, events[0]), events.drop_first());
    }
}

/// A tick that produces zero commands leaves the roster's identifiers
/// unchanged: the movement pass keeps every identifier, and applying an
/// empty command list changes nothing.
pub proof fn lemma_quiet_tick_preserves_ids(roster: Seq<GameCharacter>, delta_ms: u32)
    ensures
        spec_roster_ids(
            spec_apply_all_roster(
                spec_stepped_roster(roster, delta_ms),
                Seq::<GameCommand>::empty(),
            ),
        ) == spec_roster_ids(roster),
{
    assert(spec_apply_all_roster(
        spec_stepped_roster(roster, delta_ms),
        Seq::<GameCommand>::empty(),
    ) == spec_stepped_roster(roster, delta_ms));
    assert(spec_roster_ids(spec_stepped_roster(roster, delta_ms)) =~= spec_roster_ids(roster))
        by {
        assert forall|i: int| 0 <= i < roster.len() implies spec_roster_ids(
            spec_stepped_roster(roster, delta_ms),
        )[i] == spec_roster_ids(roster)[i] by {
            lemma_char_step_preserves_id(roster[i], delta_ms);
        }
    }
}

/// Destruction only removes: the surviving identifiers are identifiers of
/// the old roster, and their distinctness (from each other and from the
/// player) survives.
pub proof fn lemma_destroy_ids(roster: Seq<GameCharacter>, id: Id, player_id: Id, bound: u128)
    requires
        spec_ids_ok(roster, player_id),
        spec_ids_below(roster, player_id, bound),
    ensures
        spec_ids_ok(spec_destroy(roster, id), player_id),
        spec_ids_below(spec_destroy(roster, id), player_id, bound),
        forall|x: Id|
            #[trigger] spec_roster_has_id(spec_destroy(roster, id), x) ==> spec_roster_has_id(
                roster,
                x,
            ),
    decreases roster.len(),
{
    if roster.len() > 0 {
        let rest = roster.drop_first();
        assert forall|i: int, j: int|
            0 <= i < j < rest.len() implies char_id(#[trigger] rest[i]) != char_id(
            #[trigger] rest[j],
        ) by {
            assert(rest[i] == roster[i + 1] && rest[j] == roster[j + 1]);
        }
        assert forall|i: int| 0 <= i < rest.len() implies char_id(#[trigger] rest[i])
            != player_id && char_id(rest[i]).0 < bound by {
            assert(rest[i] == roster[i + 1]);
        }
        lemma_destroy_ids(rest, id, player_id, bound);
        let drest = spec_destroy(rest, id);
        if char_id(roster[0]) != id {
            let out = seq![roster[0]] + drest;
            assert forall|x: Id| #[trigger] spec_roster_has_id(out, x) implies
                spec_roster_has_id(roster, x) by {
                let i = choose|i: int| 0 <= i < out.len() && char_id(#[trigger] out[i]) == x;
                if i == 0 {
                    assert(char_id(roster[0]) == x);
                } else {
                    assert(out[i] == drest[i - 1]);
                    assert(spec_roster_has_id(drest, x));
                    let j = choose|j: int|
                        0 <= j < rest.len() && char_id(#[trigger] rest[j]) == x;
                    assert(char_id(roster[j + 1]) == x);
                }
            }
            assert forall|i: int, j: int|
                0 <= i < j < out.len() implies char_id(#[trigger] out[i]) != char_id(
                #[trigger] out[j],
            ) by {
                if i == 0 {
                    assert(out[j] == drest[j - 1]);
                    assert(spec_roster_has_id(drest, char_id(drest[j - 1])));
                    assert(spec_roster_has_id(rest, char_id(drest[j - 1])));
                    let k = choose|k: int|
                        0 <= k < rest.len() && char_id(#[trigger] rest[k]) == char_id(
                            drest[j - 1],
                        );
                    assert(rest[k] == roster[k + 1]);
                    assert(char_id(roster[0]) != char_id(roster[k + 1]));
                } else {
                    assert(out[i] == drest[i - 1] && out[j] == drest[j - 1]);
                }
            }
            assert forall|i: int| 0 <= i < out.len() implies char_id(#[trigger] out[i])
                != player_id && char_id(out[i]).0 < bound by {
                if i > 0 {
                    assert(out[i] == drest[i - 1]);
                    assert(spec_roster_has_id(drest, char_id(drest[i - 1])));
                }
            }
        }
    }
}

/// A fleet turn changes no identifier: the turned roster carries exactly the
/// identifiers of the old one, slot for slot.
pub proof fn lemma_turned_ids(roster: Seq<GameCharacter>)
    ensures
        spec_apply_command_roster(roster, GameCommand::TurnFerris).len() == roster.len(),
        forall|i: int|
            0 <= i < roster.len() ==> char_id(
                #[trigger] spec_apply_command_roster(roster, GameCommand::TurnFerris)[i],
            ) == char_id(roster[i]),
{
    let turned = spec_apply_command_roster(roster, GameCommand::TurnFerris);
    assert forall|i: int| 0 <= i < roster.len() implies char_id(#[trigger] turned[i]) == char_id(
        roster[i],
    ) by {
        assert(turned[i] == spec_turned_char(roster[i]));
    }
}

/// Applying a command list whose spawned identifiers are pairwise distinct
/// and fresh — not carried by the roster, the player, or any entity below
/// the bound they sit under — keeps the roster's identifiers pairwise
/// distinct and below that bound.
pub proof fn lemma_apply_all_ids(
    roster: Seq<GameCharacter>,
    player_id: Id,
    cmds: Seq<GameCommand>,
    bound: u128,
)
    requires
        spec_ids_ok(roster, player_id),
        spec_ids_below(roster, player_id, bound),
        forall|k: int|
            0 <= k < cmds.len() ==> ((#[trigger] cmds[k]) matches GameCommand::SpawnCharacter(c)
                ==> !spec_roster_has_id(roster, char_id(c)) && char_id(c) != player_id && char_id(
                c,
            ).0 < bound),
        forall|k1: int, k2: int|
            0 <= k1 < k2 < cmds.len() ==> match (#[trigger] cmds[k1], #[trigger] cmds[k2]) {
                (GameCommand::SpawnCharacter(a), GameCommand::SpawnCharacter(b)) => char_id(a)
                    != char_id(b),
                _ => true,
            },
    ensures
        spec_ids_ok(spec_apply_all_roster(roster, cmds), player_id),
        spec_ids_below(spec_apply_all_roster(roster, cmds), player_id, bound),
    decreases cmds.len(),
{
    if cmds.len() > 0 {
        let head = cmds[0];
        let rest = cmds.drop_first();
        let roster1 = spec_apply_command_roster(roster, head);
        match head {
            GameCommand::SpawnCharacter(c) => {
                assert(roster1 == roster.push(c));
                assert forall|i: int, j: int|
                    0 <= i < j < roster1.len() implies char_id(#[trigger] roster1[i]) != char_id(
                    #[trigger] roster1[j],
                ) by {
                    if j == roster.len() {
                        assert(roster1[i] == roster[i] && roster1[j] == c);
                        assert(!spec_roster_has_id(roster, char_id(c)));
                    } else {
                        assert(roster1[i] == roster[i] && roster1[j] == roster[j]);
                    }
                }
                assert forall|k: int|
                    0 <= k < rest.len() implies ((#[trigger] rest[k]) matches
                    GameCommand::SpawnCharacter(d) ==> !spec_roster_has_id(roster1, char_id(d))
                    && char_id(d) != player_id && char_id(d).0 < bound) by {
                    assert(rest[k] == cmds[k + 1]);
                    match rest[k] {
                        GameCommand::SpawnCharacter(d) => {
                            assert(char_id(d) != char_id(c));
                            if spec_roster_has_id(roster1, char_id(d)) {
                                let i = choose|i: int|
                                    0 <= i < roster1.len() && char_id(#[trigger] roster1[i])
                                        == char_id(d);
                                assert(i < roster.len());
                                assert(spec_roster_has_id(roster, char_id(d)));
                            }
                        },
                        _ => {},
                    }
                }
                assert forall|k1: int, k2: int|
                    0 <= k1 < k2 < rest.len() implies match (#[trigger] rest[k1], #[trigger] rest[k2]) {
                    (GameCommand::SpawnCharacter(a), GameCommand::SpawnCharacter(b)) => char_id(
                        a,
                    ) != char_id(b),
                    _ => true,
                } by {
                    assert(rest[k1] == cmds[k1 + 1] && rest[k2] == cmds[k2 + 1]);
                }
                lemma_apply_all_ids(roster1, player_id, rest, bound);
            },
            GameCommand::DestroyCharacter(id) => {
                lemma_destroy_ids(roster, id, player_id, bound);
                assert forall|k: int|
                    0 <= k < rest.len() implies ((#[trigger] rest[k]) matches
                    GameCommand::SpawnCharacter(d) ==> !spec_roster_has_id(roster1, char_id(d))
                    && char_id(d) != player_id && char_id(d).0 < bound) by {
                    assert(rest[k] == cmds[k + 1]);
                }
                assert forall|k1: int, k2: int|
                    0 <= k1 < k2 < rest.len() implies match (#[trigger] rest[k1], #[trigger] rest[k2]) {
                    (GameCommand::SpawnCharacter(a), GameCommand::SpawnCharacter(b)) => char_id(
                        a,
                    ) != char_id(b),
                    _ => true,
                } by {
                    assert(rest[k1] == cmds[k1 + 1] && rest[k2] == cmds[k2 + 1]);
                }
                lemma_apply_all_ids(roster1, player_id, rest, bound);
            },
            GameCommand::TurnFerris => {
                lemma_turned_ids(roster);
                assert forall|x: Id| #[trigger] spec_roster_has_id(roster1, x) implies
                    spec_roster_has_id(roster, x) by {
                    let i = choose|i: int|
                        0 <= i < roster1.len() && char_id(#[trigger] roster1[i]) == x;
                    assert(char_id(roster[i]) == x);
                }
                assert forall|k: int|
                    0 <= k < rest.len() implies ((#[trigger] rest[k]) matches
                    GameCommand::SpawnCharacter(d) ==> !spec_roster_has_id(roster1, char_id(d))
                    && char_id(d) != player_id && char_id(d).0 < bound) by {
                    assert(rest[k] == cmds[k + 1]);
                }
                assert forall|k1: int, k2: int|
                    0 <= k1 < k2 < rest.len() implies match (#[trigger] rest[k1], #[trigger] rest[k2]) {
                    (GameCommand::SpawnCharacter(a), GameCommand::SpawnCharacter(b)) => char_id(
                        a,
                    ) != char_id(b),
                    _ => true,
                } by {
                    assert(rest[k1] == cmds[k1 + 1] && rest[k2] == cmds[k2 + 1]);
                }
                lemma_apply_all_ids(roster1, player_id, rest, bound);
            },
            GameCommand::DestroyPlayer => {
                assert forall|k: int|
                    0 <= k < rest.len() implies ((#[trigger] rest[k]) matches
                    GameCommand::SpawnCharacter(d) ==> !spec_roster_has_id(roster1, char_id(d))
                    && char_id(d) != player_id && char_id(d).0 < bound) by {
                    assert(rest[k] == cmds[k + 1]);
                }
                assert forall|k1: int, k2: int|
                    0 <= k1 < k2 < rest.len() implies match (#[trigger] rest[k1], #[trigger] rest[k2]) {
                    (GameCommand::SpawnCharacter(a), GameCommand::SpawnCharacter(b)) => char_id(
                        a,
                    ) != char_id(b),
                    _ => true,
                } by {
                    assert(rest[k1] == cmds[k1 + 1] && rest[k2] == cmds[k2 + 1]);
                }
                lemma_apply_all_ids(roster1, player_id, rest, bound);
            },
        }
    }
}

/// A singleton or empty command sequence from an optional command.
pub open spec fn opt_cmd_seq(o: Option<GameCommand>) -> Seq<GameCommand> {
    match o {
        Some(c) => seq![c],
        None => Seq::empty(),
    }
}

/// An emitted command matches its expected form when it is that form with
/// the spawned entity's fresh identifier substituted for the placeholder;
/// a command that spawns nothing must be the expected command itself.
pub open spec fn cmd_matches(actual: GameCommand, expected: GameCommand) -> bool {
    match (actual, expected) {
        (GameCommand::SpawnCharacter(a), GameCommand::SpawnCharacter(e)) => a
            == crate::character::spec_with_char_id(e, char_id(a)),
        _ => actual == expected,
    }
}

/// Elementwise command matching.
pub open spec fn cmds_match(actual: Seq<GameCommand>, expected: Seq<GameCommand>) -> bool {
    &&& actual.len() == expected.len()
    &&& forall|i: int|
        0 <= i < actual.len() ==> cmd_matches(#[trigger] actual[i], #[trigger] expected[i])
}

/// Optional command matching.
pub open spec fn opt_cmd_matches(
    actual: Option<GameCommand>,
    expected: Option<GameCommand>,
) -> bool {
    match (actual, expected) {
        (Some(a), Some(e)) => cmd_matches(a, e),
        (None, None) => true,
        _ => false,
    }
}

/// Matching concatenates.
pub proof fn lemma_cmds_match_append(
    a1: Seq<GameCommand>,
    e1: Seq<GameCommand>,
    a2: Seq<GameCommand>,
    e2: Seq<GameCommand>,
)
    requires
        cmds_match(a1, e1),
        cmds_match(a2, e2),
    ensures
        cmds_match(a1 + a2, e1 + e2),
{
    assert forall|i: int| 0 <= i < (a1 + a2).len() implies cmd_matches(
        #[trigger] (a1 + a2)[i],
        #[trigger] (e1 + e2)[i],
    ) by {
        if i < a1.len() {
            assert((a1 + a2)[i] == a1[i] && (e1 + e2)[i] == e1[i]);
        } else {
            assert((a1 + a2)[i] == a2[i - a1.len()] && (e1 + e2)[i] == e2[i - e1.len()]);
        }
    }
}

/// The command an entity's own update is expected to emit, with the
/// placeholder identifier standing for the spawned entity's fresh one.
pub open spec fn spec_expected_update_cmd(
    c: GameCharacter,
    delta_ms: u32,
    draw: u32,
) -> Option<GameCommand> {
    match c {
        GameCharacter::Ferris(x) => if draw < SPAWN_BEAM_THRESHOLD {
            Some(
                GameCommand::SpawnCharacter(
                    GameCharacter::Beam(
                        crate::beam::Beam {
                            id: crate::character::spec_placeholder_id(),
                            position: crate::ferris::spec_beam_spawn_point(
                                crate::ferris::spec_ferris_step(x, delta_ms),
                            ),
                            cell: x.beam_cell,
                            velocity: crate::beam::BEAM_VELOCITY_MPX,
                        },
                    ),
                ),
            )
        } else {
            None
        },
        GameCharacter::Ship(x) => if x.need_shot {
            Some(
                GameCommand::SpawnCharacter(
                    GameCharacter::Missile(
                        crate::missile::Missile {
                            id: crate::character::spec_placeholder_id(),
                            position: crate::ship::spec_missile_spawn_point(
                                spec_ship_step(x, delta_ms),
                            ),
                            cell: x.missile_cell,
                            velocity: crate::missile::MISSILE_VELOCITY_MPX,
                        },
                    ),
                ),
            )
        } else {
            None
        },
        _ => None,
    }
}

/// What one entity contributes to the tick's command list: its update
/// command, then, if it was visible before its move and not after, its
/// exit command.
pub open spec fn spec_scan_entity_cmds(
    c: GameCharacter,
    delta_ms: u32,
    draw: u32,
    screen: Rect,
) -> Seq<GameCommand> {
    opt_cmd_seq(spec_expected_update_cmd(c, delta_ms, draw)) + (if spec_overlaps(
        char_bbox(c),
        screen,
    ) && !spec_overlaps(char_bbox(spec_char_step(c, delta_ms)), screen) {
        opt_cmd_seq(spec_on_exit_cmd(spec_char_step(c, delta_ms)))
    } else {
        Seq::empty()
    })
}

/// The commands the first `i` roster entities contribute, with entity `k`
/// reading the `k+1`-th draw of the tick's random source.
pub open spec fn spec_scan_cmds_upto(
    roster: Seq<GameCharacter>,
    delta_ms: u32,
    screen: Rect,
    rng0: u64,
    i: nat,
) -> Seq<GameCommand>
    decreases i,
{
    if i <= 0 {
        Seq::empty()
    } else {
        spec_scan_cmds_upto(roster, delta_ms, screen, rng0, (i - 1) as nat)
            + spec_scan_entity_cmds(
            roster[i - 1],
            delta_ms,
            spec_output(spec_state_after(rng0, i)),
            screen,
        )
    }
}

/// The roster with every entity moved one tick.
pub open spec fn spec_stepped_roster(
    roster: Seq<GameCharacter>,
    delta_ms: u32,
) -> Seq<GameCharacter> {
    roster.map_values(|c: GameCharacter| spec_char_step(c, delta_ms))
}

/// What an unordered roster pair contributes through one of its sides:
/// nothing unless the identifiers differ and the boxes overlap.
pub open spec fn spec_pair_cmds(a: GameCharacter, b: GameCharacter) -> Seq<GameCommand> {
    if char_id(a) != char_id(b) && spec_overlaps(char_bbox(a), char_bbox(b)) {
        opt_cmd_seq(spec_on_collide(a, b))
    } else {
        Seq::empty()
    }
}

/// What an entity and the player contribute on overlap: both directions,
/// evaluated independently.
pub open spec fn spec_player_pair_cmds(c: GameCharacter, player: Ship) -> Seq<GameCommand> {
    if spec_overlaps(char_bbox(c), player.spec_bbox()) {
        opt_cmd_seq(spec_on_collide(c, GameCharacter::Ship(player))) + opt_cmd_seq(
            spec_on_collide(GameCharacter::Ship(player), c),
        )
    } else {
        Seq::empty()
    }
}

/// Row `i` of the collision scan: entity `i` against every other entity from
/// `j` on, then against the player.
pub open spec fn spec_collision_row(
    roster: Seq<GameCharacter>,
    player: Ship,
    i: int,
    j: nat,
) -> Seq<GameCommand>
    decreases roster.len() - j,
{
    if j >= roster.len() {
        spec_player_pair_cmds(roster[i], player)
    } else {
        spec_pair_cmds(roster[i], roster[j as int]) + spec_collision_row(roster, player, i, j + 1)
    }
}

/// The collision commands contributed by rows `i` onward.
pub open spec fn spec_collision_from(
    roster: Seq<GameCharacter>,
    player: Ship,
    i: nat,
) -> Seq<GameCommand>
    decreases roster.len() - i,
{
    if i >= roster.len() {
        Seq::empty()
    } else {
        spec_collision_row(roster, player, i as int, 0) + spec_collision_from(
            roster,
            player,
            i + 1,
        )
    }
}

/// Every command of the pairwise collision scan, in emission order: for each
/// entity in roster order, that entity against every other entity, then the
/// entity and the player against each other in both directions.
pub open spec fn spec_collision_cmds(roster: Seq<GameCharacter>, player: Ship) -> Seq<GameCommand> {
    spec_collision_from(roster, player, 0)
}

/// Reflexivity of command matching: substituting an entity's own identifier
/// changes nothing.
pub proof fn lemma_cmd_matches_refl(c: GameCommand)
    ensures
        cmd_matches(c, c),
{
    match c {
        GameCommand::SpawnCharacter(a) => {
            assert(crate::character::spec_with_char_id(a, char_id(a)) == a);
        },
        _ => {},
    }
}

/// Reflexivity of command-list matching.
pub proof fn lemma_cmds_match_refl(s: Seq<GameCommand>)
    ensures
        cmds_match(s, s),
{
    assert forall|i: int| 0 <= i < s.len() implies cmd_matches(#[trigger] s[i], #[trigger] s[i]) by {
        lemma_cmd_matches_refl(s[i]);
    }
}

/// Matching lifts from optional commands to their singleton sequences.
pub proof fn lemma_opt_cmd_match_seq(a: Option<GameCommand>, e: Option<GameCommand>)
    requires
        opt_cmd_matches(a, e),
    ensures
        cmds_match(opt_cmd_seq(a), opt_cmd_seq(e)),
{
}

/// No collision outcome spawns anything: collisions only destroy, turn the
/// fleet or end the game.
pub proof fn lemma_on_collide_no_spawn(a: GameCharacter, b: GameCharacter)
    ensures
        spec_on_collide(a, b) matches Some(c) ==> !(c is SpawnCharacter),
{
}

/// No command of a collision row spawns anything.
pub proof fn lemma_collision_row_no_spawn(
    roster: Seq<GameCharacter>,
    player: Ship,
    i: int,
    j: nat,
)
    ensures
        forall|k: int|
            0 <= k < spec_collision_row(roster, player, i, j).len() ==> !((
            #[trigger] spec_collision_row(roster, player, i, j)[k]) is SpawnCharacter),
    decreases roster.len() - j,
{
    if j >= roster.len() {
        lemma_on_collide_no_spawn(roster[i], GameCharacter::Ship(player));
        lemma_on_collide_no_spawn(GameCharacter::Ship(player), roster[i]);
    } else {
        lemma_on_collide_no_spawn(roster[i], roster[j as int]);
        lemma_collision_row_no_spawn(roster, player, i, j + 1);
    }
}

/// No command of the collision scan spawns anything.
pub proof fn lemma_collision_from_no_spawn(roster: Seq<GameCharacter>, player: Ship, i: nat)
    ensures
        forall|k: int|
            0 <= k < spec_collision_from(roster, player, i).len() ==> !((
            #[trigger] spec_collision_from(roster, player, i)[k]) is SpawnCharacter),
    decreases roster.len() - i,
{
    if i < roster.len() {
        lemma_collision_row_no_spawn(roster, player, i as int, 0);
        lemma_collision_from_no_spawn(roster, player, i + 1);
    }
}

/// A tick's command list satisfies the tick command specification once its
/// four segments do: the scan commands match their expected forms, the
/// collision segment is exactly the collision-scan specification, the
/// player's command matches its expected form, and the bonus-enemy spawn is
/// present exactly when the tick's final draw says so.
pub proof fn lemma_tick_cmds_assembled(
    g: InGame,
    delta_ms: u32,
    cmds: Seq<GameCommand>,
    scan_part: Seq<GameCommand>,
    collision_part: Seq<GameCommand>,
    ship_cmd: Option<GameCommand>,
    fired: bool,
)
    requires
        cmds_match(
            scan_part,
            spec_scan_cmds_upto(
                g.characters@,
                delta_ms,
                g.screen,
                g.rng.state,
                g.characters@.len() as nat,
            ),
        ),
        collision_part == spec_collision_cmds(
            spec_stepped_roster(g.characters@, delta_ms),
            g.player,
        ),
        opt_cmd_matches(
            ship_cmd,
            spec_expected_update_cmd(GameCharacter::Ship(g.player), delta_ms, 0),
        ),
        fired == (spec_output(
            spec_state_after(g.rng.state, (g.characters@.len() + 1) as nat),
        ) < TURBO_FISH_APPEAR_THRESHOLD),
        fired ==> {
            let main = (scan_part + collision_part) + opt_cmd_seq(ship_cmd);
            &&& cmds.len() == main.len() + 1
            &&& cmds.take(main.len() as int) == main
            &&& spec_is_spawned_turbo_fish(cmds.last(), g.sprite_sheet, g.screen)
        },
        !fired ==> cmds == (scan_part + collision_part) + opt_cmd_seq(ship_cmd),
    ensures
        spec_tick_cmds_ok_after_events(g, delta_ms, cmds),
{
    let scan_expected = spec_scan_cmds_upto(
        g.characters@,
        delta_ms,
        g.screen,
        g.rng.state,
        g.characters@.len() as nat,
    );
    let ship_expected = opt_cmd_seq(
        spec_expected_update_cmd(GameCharacter::Ship(g.player), delta_ms, 0),
    );
    let expected_main = (scan_expected + collision_part) + ship_expected;
    let main = (scan_part + collision_part) + opt_cmd_seq(ship_cmd);
    lemma_cmds_match_refl(collision_part);
    lemma_cmds_match_append(scan_part, scan_expected, collision_part, collision_part);
    lemma_opt_cmd_match_seq(
        ship_cmd,
        spec_expected_update_cmd(GameCharacter::Ship(g.player), delta_ms, 0),
    );
    lemma_cmds_match_append(
        scan_part + collision_part,
        scan_expected + collision_part,
        opt_cmd_seq(ship_cmd),
        ship_expected,
    );
    assert(cmds_match(main, expected_main));
}

/// Facts about a tick's assembled command list, derived from its four
/// segments: the entity scan, the collision scan (which never spawns), the
/// player's command and the bonus-enemy chance. Spawned entities are well
/// formed and their identifiers sit in the tick's minting window, pairwise
/// distinct.
pub proof fn lemma_cmd_segments_id_facts(
    cmds: Seq<GameCommand>,
    scan_part: Seq<GameCommand>,
    collision_part: Seq<GameCommand>,
    ship_seq: Seq<GameCommand>,
    turbo_seq: Seq<GameCommand>,
    g0: u128,
    g_scan: u128,
    g_ship: u128,
    g_fin: u128,
)
    requires
        cmds == ((scan_part + collision_part) + ship_seq) + turbo_seq,
        g0 <= g_scan <= g_ship <= g_fin,
        ship_seq.len() <= 1,
        turbo_seq.len() <= 1,
        forall|k: int|
            0 <= k < scan_part.len() ==> ((#[trigger] scan_part[k]) matches
                GameCommand::SpawnCharacter(c) ==> char_wf(c) && g0 <= char_id(c).0 < g_scan),
        forall|k1: int, k2: int|
            0 <= k1 < k2 < scan_part.len() ==> match (
                #[trigger] scan_part[k1],
                #[trigger] scan_part[k2],
            ) {
                (GameCommand::SpawnCharacter(a), GameCommand::SpawnCharacter(b)) => char_id(a)
                    != char_id(b),
                _ => true,
            },
        forall|k: int|
            0 <= k < collision_part.len() ==> !((#[trigger] collision_part[k])
                is SpawnCharacter),
        forall|k: int|
            0 <= k < ship_seq.len() ==> ((#[trigger] ship_seq[k]) matches
                GameCommand::SpawnCharacter(c) ==> char_wf(c) && g_scan <= char_id(c).0
                < g_ship),
        forall|k: int|
            0 <= k < turbo_seq.len() ==> ((#[trigger] turbo_seq[k]) matches
                GameCommand::SpawnCharacter(c) ==> char_wf(c) && g_ship <= char_id(c).0
                < g_fin),
    ensures
        forall|k: int|
            0 <= k < cmds.len() ==> ((#[trigger] cmds[k]) matches GameCommand::SpawnCharacter(c)
                ==> char_wf(c) && g0 <= char_id(c).0 < g_fin),
        forall|k1: int, k2: int|
            0 <= k1 < k2 < cmds.len() ==> match (#[trigger] cmds[k1], #[trigger] cmds[k2]) {
                (GameCommand::SpawnCharacter(a), GameCommand::SpawnCharacter(b)) => char_id(a)
                    != char_id(b),
                _ => true,
            },
{
    let sl = scan_part.len() as int;
    let cl = collision_part.len() as int;
    let pl = ship_seq.len() as int;
    assert forall|k: int| 0 <= k < cmds.len() implies ((#[trigger] cmds[k]) matches
        GameCommand::SpawnCharacter(c) ==> char_wf(c) && g0 <= char_id(c).0 < g_fin) by {
        if k < sl {
            assert(cmds[k] == scan_part[k]);
        } else if k < sl + cl {
            assert(cmds[k] == collision_part[k - sl]);
        } else if k < sl + cl + pl {
            assert(cmds[k] == ship_seq[k - sl - cl]);
        } else {
            assert(cmds[k] == turbo_seq[k - sl - cl - pl]);
        }
    }
    assert forall|k1: int, k2: int|
        0 <= k1 < k2 < cmds.len() implies match (#[trigger] cmds[k1], #[trigger] cmds[k2]) {
        (GameCommand::SpawnCharacter(a), GameCommand::SpawnCharacter(b)) => char_id(a) != char_id(
            b,
        ),
        _ => true,
    } by {
        if k1 < sl {
            assert(cmds[k1] == scan_part[k1]);
        } else if k1 < sl + cl {
            assert(cmds[k1] == collision_part[k1 - sl]);
        } else if k1 < sl + cl + pl {
            assert(cmds[k1] == ship_seq[k1 - sl - cl]);
        } else {
            assert(cmds[k1] == turbo_seq[k1 - sl - cl - pl]);
        }
        if k2 < sl {
            assert(cmds[k2] == scan_part[k2]);
        } else if k2 < sl + cl {
            assert(cmds[k2] == collision_part[k2 - sl]);
        } else if k2 < sl + cl + pl {
            assert(cmds[k2] == ship_seq[k2 - sl - cl]);
        } else {
            assert(cmds[k2] == turbo_seq[k2 - sl - cl - pl]);
        }
    }
}

/// The command list one whole tick emits, judged from a phase whose player
/// has already taken the tick's input events: first each entity's update
/// and exit commands, then the collision scan over the moved roster and the
/// not-yet-moved player, then the player's own command, then, if the tick's
/// final random draw says so, the bonus-enemy spawn.
pub open spec fn spec_tick_cmds_ok_after_events(
    g: InGame,
    delta_ms: u32,
    cmds: Seq<GameCommand>,
) -> bool {
    let n = g.characters@.len();
    let main = spec_scan_cmds_upto(g.characters@, delta_ms, g.screen, g.rng.state, n as nat)
        + spec_collision_cmds(spec_stepped_roster(g.characters@, delta_ms), g.player)
        + opt_cmd_seq(spec_expected_update_cmd(GameCharacter::Ship(g.player), delta_ms, 0));
    if spec_output(spec_state_after(g.rng.state, (n + 1) as nat))
        < TURBO_FISH_APPEAR_THRESHOLD {
        &&& cmds.len() == main.len() + 1
        &&& cmds_match(cmds.take(main.len() as int), main)
        &&& spec_is_spawned_turbo_fish(cmds.last(), g.sprite_sheet, g.screen)
    } else {
        cmds_match(cmds, main)
    }
}

/// The command list one whole tick emits, judged from the phase as the tick
/// found it, before its input events.
pub open spec fn spec_tick_cmds_ok(
    g: InGame,
    delta_ms: u32,
    events: Seq<Event>,
    cmds: Seq<GameCommand>,
) -> bool {
    spec_tick_cmds_ok_after_events(
        InGame { player: spec_apply_events(g.player, events), ..g },
        delta_ms,
        cmds,
    )
}

/// A spawn command carrying a fresh bonus enemy entering at the screen's
/// left edge, on its first animation frame.
pub open spec fn spec_is_spawned_turbo_fish(
    cmd: GameCommand,
    sheet: SpriteSheet,
    screen: Rect,
) -> bool {
    cmd matches GameCommand::SpawnCharacter(GameCharacter::TurboFish(t)) && {
        &&& t.position == (Point {
            x: spec_clamp_coord(
                screen.origin.x - sheet.spec_cell(
                    crate::sprite::CellName::TurboFish(0),
                )->Some_0.frame.shape.width,
            ) as i16,
            y: spec_clamp_coord(screen.origin.y + TURBO_FISH_Y_OFFSET) as i16,
        })
        &&& t.animation.acc_time_ms == 0
        &&& t.animation.current == 0
        &&& t.animation.frames@ == seq![
            crate::sequence::Frame {
                cell: sheet.spec_cell(crate::sprite::CellName::TurboFish(0))->Some_0,
                duration_ms: crate::turbo_fish::TURBO_FISH_FRAME_MS,
            },
            crate::sequence::Frame {
                cell: sheet.spec_cell(crate::sprite::CellName::TurboFish(1))->Some_0,
                duration_ms: crate::turbo_fish::TURBO_FISH_FRAME_MS,
            },
        ]
        &&& t.wf()
    }
}

/// How many fleet members a roster holds.
pub open spec fn spec_ferris_count(roster: Seq<GameCharacter>) -> nat
    decreases roster.len(),
{
    if roster.len() <= 0 {
        0
    } else {
        (if roster[0] is Ferris {
            1nat
        } else {
            0nat
        }) + spec_ferris_count(roster.drop_first())
    }
}

impl InGame {
    /// Every entity, the player and the asset table are well formed, and the
    /// cells and screen geometry the pipeline relies on are present.
    pub open spec fn wf(self) -> bool {
        &&& forall|i: int| 0 <= i < self.characters@.len() ==> char_wf(#[trigger] self.characters@[i])
        &&& self.player.wf()
        &&& self.sprite_sheet.wf()
        &&& spec_assets_ok(self.sprite_sheet)
        &&& crate::geometry::spec_screen_ok(self.screen)
        &&& spec_ids_ok(self.characters@, self.player.id)
        &&& spec_ids_below(self.characters@, self.player.id, self.id_gen.next)
    }

    pub fn new(
        sprite_sheet: SpriteSheet,
        screen: Rect,
        characters: Vec<GameCharacter>,
        player: Ship,
        rng: Prng,
        id_gen: IdGen,
    ) -> (r: InGame)
        ensures
            r.sprite_sheet == sprite_sheet,
            r.screen == screen,
            r.characters == characters,
            r.player == player,
            r.rng == rng,
            r.id_gen == id_gen,
            !r.is_game_over,
    {
        InGame { sprite_sheet, screen, characters, player, is_game_over: false, rng, id_gen }
    }

    /// Apply one input event to the player; roster entities never react to
    /// raw input.
    pub fn apply_event(&mut self, event: &Event)
        ensures
            *final(self) == (InGame {
                player: spec_apply_event(old(self).player, *event),
                ..*old(self)
            }),
    {
        match event {
            Event::KeyDown(Key::ArrowRight) => self.player.move_right(),
            Event::KeyDown(Key::ArrowLeft) => self.player.move_left(),
            Event::KeyDown(Key::Space) => self.player.shot(),
            Event::KeyUp(Key::ArrowRight) => self.player.stop(),
            Event::KeyUp(Key::ArrowLeft) => self.player.stop(),
            Event::KeyUp(Key::Space) => self.player.reload(),
            _ => {},
        }
    }

    /// Apply every input event, in order.
    pub fn apply_events(&mut self, events: &Vec<Event>)
        requires
            old(self).player.wf(),
        ensures
            *final(self) == (InGame {
                player: spec_apply_events(old(self).player, events@),
                ..*old(self)
            }),
            final(self).player.wf(),
    {
        let n = events.len();
        let mut i: usize = 0;
        proof {
            assert(events@.skip(0) =~= events@);
        }
        while i < n
            invariant
                n == events@.len(),
                0 <= i <= n,
                *self == (InGame {
                    player: self.player,
                    ..*old(self)
                }),
                self.player.wf(),
                spec_apply_events(old(self).player, events@) == spec_apply_events(
                    self.player,
                    events@.skip(i as int),
                ),
            decreases n - i,
        {
            proof {
                assert(events@.skip(i as int)[0] == events@[i as int]);
                assert(events@.skip(i as int).drop_first() =~= events@.skip(i as int + 1));
            }
            let e = events[i];
            self.apply_event(&e);
            i = i + 1;
        }
        proof {
            assert(events@.skip(n as int) =~= Seq::<Event>::empty());
        }
    }

    /// Apply one deferred command against the roster and the game-over flag.
    /// The player is never removed here; destroying the player only sets the
    /// flag, and the terminal check reads it after all commands.
    pub fn apply_command(&mut self, command: GameCommand)
        requires
            forall|i: int|
                0 <= i < old(self).characters@.len() ==> char_wf(
                    #[trigger] old(self).characters@[i],
                ),
            command matches GameCommand::SpawnCharacter(c) ==> char_wf(c),
        ensures
            final(self).characters@ == spec_apply_command_roster(
                old(self).characters@,
                command,
            ),
            final(self).is_game_over == (old(self).is_game_over
                || command is DestroyPlayer),
            final(self).player == old(self).player,
            final(self).sprite_sheet == old(self).sprite_sheet,
            final(self).screen == old(self).screen,
            final(self).rng == old(self).rng,
            final(self).id_gen == old(self).id_gen,
            forall|i: int|
                0 <= i < final(self).characters@.len() ==> char_wf(
                    #[trigger] final(self).characters@[i],
                ),
    {
        match command {
            GameCommand::SpawnCharacter(new_character) => {
                self.characters.push(new_character);
            },
            GameCommand::DestroyCharacter(id) => {
                let n = self.characters.len();
                let mut kept: Vec<GameCharacter> = Vec::new();
                let mut i: usize = 0;
                proof {
                    assert(self.characters@.skip(0) =~= self.characters@);
                    assert(Seq::<GameCharacter>::empty() + spec_destroy(self.characters@, id)
                        =~= spec_destroy(self.characters@, id));
                }
                while i < n
                    invariant
                        n == self.characters@.len(),
                        0 <= i <= n,
                        *self == (InGame { characters: self.characters, ..*old(self) }),
                        self.characters@ == old(self).characters@,
                        forall|j: int|
                            0 <= j < self.characters@.len() ==> char_wf(
                                #[trigger] self.characters@[j],
                            ),
                        spec_destroy(self.characters@, id) == kept@ + spec_destroy(
                            self.characters@.skip(i as int),
                            id,
                        ),
                        forall|j: int| 0 <= j < kept@.len() ==> char_wf(#[trigger] kept@[j]),
                    decreases n - i,
                {
                    proof {
                        assert(self.characters@.skip(i as int)[0] == self.characters@[i as int]);
                        assert(self.characters@.skip(i as int).drop_first()
                            =~= self.characters@.skip(i as int + 1));
                    }
                    let c = self.characters[i];
                    if c.id() != id {
                        proof {
                            assert(kept@ + (seq![c] + spec_destroy(
                                self.characters@.skip(i as int + 1),
                                id,
                            )) =~= kept@.push(c) + spec_destroy(
                                self.characters@.skip(i as int + 1),
                                id,
                            ));
                        }
                        kept.push(c);
                    }
                    i = i + 1;
                }
                proof {
                    assert(self.characters@.skip(n as int) =~= Seq::<GameCharacter>::empty());
                    assert(kept@ + Seq::<GameCharacter>::empty() =~= kept@);
                }
                self.characters = kept;
            },
            GameCommand::TurnFerris => {
                let n = self.characters.len();
                let mut i: usize = 0;
                while i < n
                    invariant
                        n == self.characters@.len(),
                        0 <= i <= n,
                        *self == (InGame { characters: self.characters, ..*old(self) }),
                        forall|j: int|
                            i <= j < n ==> #[trigger] self.characters@[j] == old(
                                self,
                            ).characters@[j],
                        forall|j: int|
                            0 <= j < i ==> #[trigger] self.characters@[j] == spec_turned_char(
                                old(self).characters@[j],
                            ),
                        forall|j: int|
                            0 <= j < n ==> char_wf(#[trigger] self.characters@[j]),
                    decreases n - i,
                {
                    let mut c = self.characters[i];
                    match &mut c {
                        GameCharacter::Ferris(ferris) => ferris.turn(),
                        _ => {},
                    }
                    self.characters.set(i, c);
                    i = i + 1;
                }
                proof {
                    assert(self.characters@ =~= old(self).characters@.map_values(
                        |c: GameCharacter| spec_turned_char(c),
                    ));
                }
            },
            GameCommand::DestroyPlayer => {
                self.is_game_over = true;
            },
        }
    }

    /// Apply a whole command list, in emission order.
    pub fn apply_commands(&mut self, commands: &Vec<GameCommand>)
        requires
            forall|i: int|
                0 <= i < old(self).characters@.len() ==> char_wf(
                    #[trigger] old(self).characters@[i],
                ),
            forall|i: int|
                0 <= i < commands@.len() ==> ((#[trigger] commands@[i]) matches
                    GameCommand::SpawnCharacter(c) ==> char_wf(c)),
        ensures
            final(self).characters@ == spec_apply_all_roster(
                old(self).characters@,
                commands@,
            ),
            final(self).is_game_over == (old(self).is_game_over || spec_destroys_player(
                commands@,
            )),
            final(self).player == old(self).player,
            final(self).sprite_sheet == old(self).sprite_sheet,
            final(self).screen == old(self).screen,
            final(self).rng == old(self).rng,
            final(self).id_gen == old(self).id_gen,
            forall|i: int|
                0 <= i < final(self).characters@.len() ==> char_wf(
                    #[trigger] final(self).characters@[i],
                ),
    {
        let n = commands.len();
        let mut i: usize = 0;
        proof {
            assert(commands@.skip(0) =~= commands@);
        }
        while i < n
            invariant
                n == commands@.len(),
                0 <= i <= n,
                forall|j: int|
                    0 <= j < commands@.len() ==> ((#[trigger] commands@[j]) matches
                        GameCommand::SpawnCharacter(c) ==> char_wf(c)),
                spec_apply_all_roster(old(self).characters@, commands@)
                    == spec_apply_all_roster(self.characters@, commands@.skip(i as int)),
                (old(self).is_game_over || spec_destroys_player(commands@)) == (
                self.is_game_over || spec_destroys_player(commands@.skip(i as int))),
                self.player == old(self).player,
                self.sprite_sheet == old(self).sprite_sheet,
                self.screen == old(self).screen,
                self.rng == old(self).rng,
                self.id_gen == old(self).id_gen,
                forall|j: int|
                    0 <= j < self.characters@.len() ==> char_wf(
                        #[trigger] self.characters@[j],
                    ),
            decreases n - i,
        {
            proof {
                assert(commands@.skip(i as int)[0] == commands@[i as int]);
                assert(commands@.skip(i as int).drop_first() =~= commands@.skip(i as int + 1));
                if commands@[i as int] is DestroyPlayer {
                    assert(spec_destroys_player(commands@.skip(i as int)));
                } else {
                    assert(spec_destroys_player(commands@.skip(i as int))
                        == spec_destroys_player(commands@.skip(i as int + 1))) by {
                        if spec_destroys_player(commands@.skip(i as int + 1)) {
                            let k = choose|k: int|
                                0 <= k < commands@.skip(i as int + 1).len() && (
                                #[trigger] commands@.skip(i as int + 1)[k]) is DestroyPlayer;
                            assert(commands@.skip(i as int)[k + 1] is DestroyPlayer);
                        }
                        if spec_destroys_player(commands@.skip(i as int)) {
                            let k = choose|k: int|
                                0 <= k < commands@.skip(i as int).len() && (
                                #[trigger] commands@.skip(i as int)[k]) is DestroyPlayer;
                            assert(k >= 1);
                            assert(commands@.skip(i as int + 1)[k - 1] is DestroyPlayer);
                        }
                    }
                }
            }
            let cmd = commands[i];
            self.apply_command(cmd);
            i = i + 1;
        }
        proof {
            assert(commands@.skip(n as int) =~= Seq::<GameCommand>::empty());
            assert(!spec_destroys_player(Seq::<GameCommand>::empty()));
        }
    }

    /// Move every roster entity one tick, collecting its update command and,
    /// where it left the screen, its exit command. Entity `k` reads the
    /// `k+1`-th draw of the tick's random source; anything spawned carries a
    /// freshly minted identifier.
    pub fn scan_characters(&mut self, delta_ms: u32) -> (cmds: Vec<GameCommand>)
        requires
            forall|i: int|
                0 <= i < old(self).characters@.len() ==> char_wf(
                    #[trigger] old(self).characters@[i],
                ),
            old(self).id_gen.next <= ID_SPAN_LIMIT,
        ensures
            old(self).id_gen.next <= final(self).id_gen.next,
            final(self).id_gen.next <= old(self).id_gen.next + old(self).characters@.len(),
            forall|k: int|
                0 <= k < cmds@.len() ==> ((#[trigger] cmds@[k]) matches
                    GameCommand::SpawnCharacter(c) ==> old(self).id_gen.next <= char_id(c).0
                    < final(self).id_gen.next),
            forall|k1: int, k2: int|
                0 <= k1 < k2 < cmds@.len() ==> match (#[trigger] cmds@[k1], #[trigger] cmds@[k2]) {
                    (GameCommand::SpawnCharacter(a), GameCommand::SpawnCharacter(b)) => char_id(
                        a,
                    ) != char_id(b),
                    _ => true,
                },
            final(self).characters@.len() == old(self).characters@.len(),
            forall|i: int|
                0 <= i < final(self).characters@.len() ==> #[trigger] final(self).characters@[i]
                    == spec_char_step(old(self).characters@[i], delta_ms),
            forall|i: int|
                0 <= i < final(self).characters@.len() ==> char_wf(
                    #[trigger] final(self).characters@[i],
                ),
            final(self).player == old(self).player,
            final(self).sprite_sheet == old(self).sprite_sheet,
            final(self).screen == old(self).screen,
            final(self).is_game_over == old(self).is_game_over,
            final(self).rng.state == spec_state_after(
                old(self).rng.state,
                old(self).characters@.len() as nat,
            ),
            cmds_match(
                cmds@,
                spec_scan_cmds_upto(
                    old(self).characters@,
                    delta_ms,
                    old(self).screen,
                    old(self).rng.state,
                    old(self).characters@.len() as nat,
                ),
            ),
            forall|k: int|
                0 <= k < cmds@.len() ==> ((#[trigger] cmds@[k]) matches
                    GameCommand::SpawnCharacter(c) ==> char_wf(c)),
    {
        let ghost roster0 = self.characters@;
        let ghost s0 = self.rng.state;
        let n = self.characters.len();
        let mut cmds: Vec<GameCommand> = Vec::new();
        let mut i: usize = 0;
        while i < n
            invariant
                n == self.characters@.len(),
                n == roster0.len(),
                0 <= i <= n,
                *self == (InGame {
                    characters: self.characters,
                    rng: self.rng,
                    id_gen: self.id_gen,
                    ..*old(self)
                }),
                roster0 == old(self).characters@,
                s0 == old(self).rng.state,
                self.rng.state == spec_state_after(s0, i as nat),
                old(self).id_gen.next <= self.id_gen.next <= old(self).id_gen.next + i,
                old(self).id_gen.next <= ID_SPAN_LIMIT,
                forall|k: int|
                    0 <= k < cmds@.len() ==> ((#[trigger] cmds@[k]) matches
                        GameCommand::SpawnCharacter(c) ==> old(self).id_gen.next <= char_id(c).0
                        < self.id_gen.next),
                forall|k1: int, k2: int|
                    0 <= k1 < k2 < cmds@.len() ==> match (#[trigger] cmds@[k1], #[trigger] cmds@[k2]) {
                        (GameCommand::SpawnCharacter(a), GameCommand::SpawnCharacter(b)) =>
                            char_id(a) != char_id(b),
                        _ => true,
                    },
                forall|j: int|
                    0 <= j < i ==> #[trigger] self.characters@[j] == spec_char_step(
                        roster0[j],
                        delta_ms,
                    ),
                forall|j: int| i <= j < n ==> #[trigger] self.characters@[j] == roster0[j],
                forall|j: int| 0 <= j < n ==> char_wf(#[trigger] self.characters@[j]),
                cmds_match(
                    cmds@,
                    spec_scan_cmds_upto(roster0, delta_ms, self.screen, s0, i as nat),
                ),
                forall|k: int|
                    0 <= k < cmds@.len() ==> ((#[trigger] cmds@[k]) matches
                        GameCommand::SpawnCharacter(c) ==> char_wf(c)),
            decreases n - i,
        {
            let ghost cmds_prev = cmds@;
            let ghost expected_prev = spec_scan_cmds_upto(
                roster0,
                delta_ms,
                self.screen,
                s0,
                i as nat,
            );
            let draw = self.rng.next_u32();
            let mut c = self.characters[i];
            let cur_visible = c.bounding_box().intersects(&self.screen);
            let ghost gen_before = self.id_gen;
            let cmd = c.update(delta_ms, draw, &mut self.id_gen);
            let next_visible = c.bounding_box().intersects(&self.screen);
            let ghost expected_up = spec_expected_update_cmd(roster0[i as int], delta_ms, draw);
            proof {
                assert(opt_cmd_matches(cmd, expected_up));
            }
            if let Some(cm) = cmd {
                cmds.push(cm);
            }
            if cur_visible && !next_visible {
                let ecmd = c.on_exit_screen();
                proof {
                    assert(ecmd == spec_on_exit_cmd(spec_char_step(roster0[i as int], delta_ms)));
                }
                if let Some(cm) = ecmd {
                    cmds.push(cm);
                }
            }
            self.characters.set(i, c);
            proof {
                let screen = self.screen;
                let entity = spec_scan_entity_cmds(roster0[i as int], delta_ms, draw, screen);
                let appended = cmds@.skip(cmds_prev.len() as int);
                assert(cmds@ =~= cmds_prev + appended);
                assert(cmds_match(appended, entity)) by {
                    let up_seq = opt_cmd_seq(expected_up);
                    let exit_seq: Seq<GameCommand> = if spec_overlaps(
                        char_bbox(roster0[i as int]),
                        screen,
                    ) && !spec_overlaps(
                        char_bbox(spec_char_step(roster0[i as int], delta_ms)),
                        screen,
                    ) {
                        opt_cmd_seq(spec_on_exit_cmd(spec_char_step(roster0[i as int], delta_ms)))
                    } else {
                        Seq::empty()
                    };
                    assert(entity == up_seq + exit_seq);
                    assert(appended.len() == up_seq.len() + exit_seq.len());
                    assert forall|k: int| 0 <= k < appended.len() implies cmd_matches(
                        #[trigger] appended[k],
                        #[trigger] entity[k],
                    ) by {
                        assert(entity[k] == (up_seq + exit_seq)[k]);
                    }
                }
                assert(spec_scan_cmds_upto(roster0, delta_ms, screen, s0, (i + 1) as nat)
                    == expected_prev + entity);
                lemma_cmds_match_append(cmds_prev, expected_prev, appended, entity);
            }
            i = i + 1;
        }
        cmds
    }

    /// The pairwise collision scan: every ordered pair of distinct,
    /// overlapping roster entities contributes one evaluation, and each
    /// entity is also tested against the player in both directions. The
    /// roster is read as it stands after the tick's movement; the player as
    /// it stands before its own move.
    pub fn collision_commands(&self) -> (cmds: Vec<GameCommand>)
        requires
            forall|i: int|
                0 <= i < self.characters@.len() ==> char_wf(#[trigger] self.characters@[i]),
            self.player.wf(),
        ensures
            cmds@ == spec_collision_cmds(self.characters@, self.player),
    {
        let ghost roster = self.characters@;
        let ghost player = self.player;
        let n = self.characters.len();
        let mut cmds: Vec<GameCommand> = Vec::new();
        let mut i: usize = 0;
        proof {
            assert(Seq::<GameCommand>::empty() + spec_collision_from(roster, player, 0)
                =~= spec_collision_from(roster, player, 0));
        }
        while i < n
            invariant
                n == self.characters@.len(),
                roster == self.characters@,
                player == self.player,
                0 <= i <= n,
                forall|j: int| 0 <= j < n ==> char_wf(#[trigger] self.characters@[j]),
                self.player.wf(),
                spec_collision_cmds(roster, player) == cmds@ + spec_collision_from(
                    roster,
                    player,
                    i as nat,
                ),
            decreases n - i,
        {
            let c = self.characters[i];
            proof {
                assert(spec_collision_from(roster, player, i as nat) == spec_collision_row(
                    roster,
                    player,
                    i as int,
                    0,
                ) + spec_collision_from(roster, player, (i + 1) as nat));
                assert(cmds@ + (spec_collision_row(roster, player, i as int, 0)
                    + spec_collision_from(roster, player, (i + 1) as nat)) =~= (cmds@
                    + spec_collision_row(roster, player, i as int, 0)) + spec_collision_from(
                    roster,
                    player,
                    (i + 1) as nat,
                ));
            }
            let mut j: usize = 0;
            while j < n
                invariant
                    n == self.characters@.len(),
                    roster == self.characters@,
                    player == self.player,
                    0 <= i < n,
                    0 <= j <= n,
                    c == roster[i as int],
                    forall|k: int| 0 <= k < n ==> char_wf(#[trigger] self.characters@[k]),
                    self.player.wf(),
                    spec_collision_cmds(roster, player) == (cmds@ + spec_collision_row(
                        roster,
                        player,
                        i as int,
                        j as nat,
                    )) + spec_collision_from(roster, player, (i + 1) as nat),
                decreases n - j,
            {
                let other = self.characters[j];
                let ghost cmds_prev = cmds@;
                if c.id() != other.id() {
                    if c.bounding_box().intersects(&other.bounding_box()) {
                        if let Some(cm) = c.on_collide(&other) {
                            cmds.push(cm);
                        }
                    }
                }
                proof {
                    assert(cmds@ =~= cmds_prev + spec_pair_cmds(
                        roster[i as int],
                        roster[j as int],
                    ));
                    assert(spec_collision_row(roster, player, i as int, j as nat)
                        == spec_pair_cmds(roster[i as int], roster[j as int])
                        + spec_collision_row(roster, player, i as int, (j + 1) as nat));
                    assert((cmds_prev + (spec_pair_cmds(roster[i as int], roster[j as int])
                        + spec_collision_row(roster, player, i as int, (j + 1) as nat))) =~= ((
                    cmds_prev + spec_pair_cmds(roster[i as int], roster[j as int]))
                        + spec_collision_row(roster, player, i as int, (j + 1) as nat)));
                }
                j = j + 1;
            }
            let ghost cmds_prev = cmds@;
            if c.bounding_box().intersects(&self.player.bounding_box()) {
                let player_char = GameCharacter::Ship(self.player);
                if let Some(cm) = c.on_collide(&player_char) {
                    cmds.push(cm);
                }
                if let Some(cm) = self.player.on_collide(&c) {
                    cmds.push(cm);
                }
            }
            proof {
                assert(spec_collision_row(roster, player, i as int, n as nat)
                    == spec_player_pair_cmds(roster[i as int], player));
                assert(cmds@ =~= cmds_prev + spec_player_pair_cmds(roster[i as int], player));
            }
            i = i + 1;
        }
        proof {
            assert(spec_collision_from(roster, player, n as nat) =~= Seq::<GameCommand>::empty());
            assert(cmds@ + Seq::<GameCommand>::empty() =~= cmds@);
        }
        cmds
    }

    /// A spawn command for a fresh bonus enemy entering at the screen's left
    /// edge, carrying the next minted identifier.
    pub fn create_spawn_turbo_fish_command(&mut self) -> (cmd: GameCommand)
        requires
            old(self).sprite_sheet.wf(),
            spec_assets_ok(old(self).sprite_sheet),
            old(self).id_gen.next < u128::MAX,
        ensures
            *final(self) == (InGame { id_gen: final(self).id_gen, ..*old(self) }),
            final(self).id_gen.next == old(self).id_gen.next + 1,
            spec_is_spawned_turbo_fish(cmd, old(self).sprite_sheet, old(self).screen),
            cmd matches GameCommand::SpawnCharacter(c) ==> char_wf(c) && char_id(c) == Id(
                old(self).id_gen.next,
            ),
    {
        let shape = TurboFish::get_shape(&self.sprite_sheet);
        let x = clamp_coord((self.screen.x() as i32) - (shape.width as i32));
        let y = clamp_coord((self.screen.y() as i32) + (TURBO_FISH_Y_OFFSET as i32));
        let turbo_fish = TurboFish::new(&self.sprite_sheet, Point { x, y }, &mut self.id_gen);
        GameCommand::SpawnCharacter(GameCharacter::TurboFish(turbo_fish))
    }

    /// A fresh phase value holding the same state.
    pub fn duplicate(&self) -> (r: InGame)
        ensures
            r.sprite_sheet.cells@ == self.sprite_sheet.cells@,
            r.screen == self.screen,
            r.characters@ == self.characters@,
            r.player == self.player,
            r.is_game_over == self.is_game_over,
            r.rng == self.rng,
            r.id_gen == self.id_gen,
    {
        InGame {
            sprite_sheet: self.sprite_sheet.duplicate(),
            screen: self.screen,
            characters: clone_roster(&self.characters),
            player: self.player,
            is_game_over: self.is_game_over,
            rng: self.rng,
            id_gen: self.id_gen,
        }
    }

    /// One full scan of the tick: move every entity (collecting update and
    /// exit commands), run the pairwise collision scan against the moved
    /// roster and the not-yet-moved player, move the player (possibly
    /// collecting its missile), and finally roll the bonus-enemy chance.
    #[verifier::rlimit(100)]
    pub fn update_game(&mut self, delta_ms: u32) -> (cmds: Vec<GameCommand>)
        requires
            old(self).wf(),
            old(self).id_gen.next <= ID_SPAN_LIMIT,
        ensures
            old(self).id_gen.next <= final(self).id_gen.next,
            final(self).id_gen.next <= old(self).id_gen.next + old(self).characters@.len() + 2,
            forall|k: int|
                0 <= k < cmds@.len() ==> ((#[trigger] cmds@[k]) matches
                    GameCommand::SpawnCharacter(c) ==> old(self).id_gen.next <= char_id(c).0
                    < final(self).id_gen.next),
            forall|k1: int, k2: int|
                0 <= k1 < k2 < cmds@.len() ==> match (#[trigger] cmds@[k1], #[trigger] cmds@[k2]) {
                    (GameCommand::SpawnCharacter(a), GameCommand::SpawnCharacter(b)) => char_id(
                        a,
                    ) != char_id(b),
                    _ => true,
                },
            final(self).characters@.len() == old(self).characters@.len(),
            final(self).characters@ == spec_stepped_roster(old(self).characters@, delta_ms),
            final(self).player == spec_ship_step(old(self).player, delta_ms),
            final(self).sprite_sheet == old(self).sprite_sheet,
            final(self).screen == old(self).screen,
            final(self).is_game_over == old(self).is_game_over,
            final(self).rng.state == spec_state_after(
                old(self).rng.state,
                (old(self).characters@.len() + 1) as nat,
            ),
            final(self).wf(),
            spec_tick_cmds_ok_after_events(*old(self), delta_ms, cmds@),
            forall|k: int|
                0 <= k < cmds@.len() ==> ((#[trigger] cmds@[k]) matches
                    GameCommand::SpawnCharacter(c) ==> char_wf(c)),
    {
        let roster_len = self.characters.len();
        let ghost n = self.characters@.len();
        let ghost s0 = self.rng.state;
        let ghost roster0 = self.characters@;
        let ghost player0 = self.player;
        let mut cmds = self.scan_characters(delta_ms);
        proof {
            assert(self.characters@ =~= spec_stepped_roster(roster0, delta_ms));
        }
        let ghost gen_after_scan = self.id_gen;
        proof {
            assert(self.id_gen.next < u128::MAX - 1);
        }
        let mut collisions = self.collision_commands();
        let ghost scan_part = cmds@;
        let ghost collision_part = collisions@;
        cmds.append(&mut collisions);
        let player_cmd = self.player.update(delta_ms, &mut self.id_gen);
        let ghost ship_cmd_opt = player_cmd;
        let ghost gen_after_ship = self.id_gen;
        proof {
            assert(opt_cmd_matches(
                player_cmd,
                spec_expected_update_cmd(GameCharacter::Ship(player0), delta_ms, 0),
            ));
        }
        if let Some(cm) = player_cmd {
            cmds.push(cm);
        }
        let draw = self.rng.next_u32();
        let ghost main_actual = cmds@;
        if draw < TURBO_FISH_APPEAR_THRESHOLD {
            let tf_cmd = self.create_spawn_turbo_fish_command();
            cmds.push(tf_cmd);
        }
        let ghost gen_final = self.id_gen;
        proof {
            let ship_seq = opt_cmd_seq(ship_cmd_opt);
            let turbo_seq = cmds@.skip(main_actual.len() as int);
            let fired = spec_output(spec_state_after(s0, (n + 1) as nat))
                < TURBO_FISH_APPEAR_THRESHOLD;
            assert(main_actual =~= (scan_part + collision_part) + ship_seq);
            if fired {
                assert(cmds@ =~= main_actual.push(cmds@.last()));
                assert(cmds@.take(main_actual.len() as int) =~= main_actual);
            } else {
                assert(cmds@ == main_actual);
            }
            lemma_tick_cmds_assembled(
                *old(self),
                delta_ms,
                cmds@,
                scan_part,
                collision_part,
                ship_cmd_opt,
                fired,
            );
            assert(cmds@ == ((scan_part + collision_part) + ship_seq) + turbo_seq) by {
                assert(cmds@ =~= ((scan_part + collision_part) + ship_seq) + turbo_seq);
            }
            assert(forall|k: int|
                0 <= k < collision_part.len() ==> !((#[trigger] collision_part[k])
                    is SpawnCharacter)) by {
                lemma_collision_from_no_spawn(
                    spec_stepped_roster(roster0, delta_ms),
                    player0,
                    0,
                );
                assert forall|k: int| 0 <= k < collision_part.len() implies !((
                #[trigger] collision_part[k]) is SpawnCharacter) by {
                    assert(collision_part[k] == spec_collision_from(
                        spec_stepped_roster(roster0, delta_ms),
                        player0,
                        0,
                    )[k]);
                }
            }
            assert(turbo_seq.len() <= 1);
            lemma_cmd_segments_id_facts(
                cmds@,
                scan_part,
                collision_part,
                ship_seq,
                turbo_seq,
                old(self).id_gen.next,
                gen_after_scan.next,
                gen_after_ship.next,
                gen_final.next,
            );
        }
        cmds
    }

    /// The terminal check, run once per tick after command application: with
    /// no fleet member left, or with the game-over flag set, the game falls
    /// back to a fresh attract phase; otherwise it stays in play, unchanged.
    pub fn next_phase(current: InGame) -> (r: crate::game_state::GameStateMachine)
        requires
            current.wf(),
            current.id_gen.next + 105 <= u128::MAX,
        ensures
            (spec_ferris_count(current.characters@) == 0 || current.is_game_over)
                <==> r is OutGame,
            !(r is Created),
            r matches crate::game_state::GameStateMachine::InGame(g) ==> g == current,
            r matches crate::game_state::GameStateMachine::OutGame(og) ==> {
                &&& og.wf()
                &&& og.screen == current.screen
                &&& og.sprite_sheet.cells@ == current.sprite_sheet.cells@
                &&& og.rng == current.rng
                &&& og.id_gen.next == current.id_gen.next + 105
                &&& crate::out_game::spec_is_initial_roster(
                    og.characters@,
                    og.sprite_sheet,
                    og.screen,
                )
                &&& crate::out_game::spec_is_initial_player(
                    og.player,
                    og.sprite_sheet,
                    og.screen,
                )
            },
    {
        let count = current.ferris_count();
        if count == 0 || current.is_game_over {
            crate::game_state::GameStateMachine::OutGame(
                crate::out_game::OutGame::new(
                    current.sprite_sheet,
                    current.screen,
                    current.rng,
                    current.id_gen,
                ),
            )
        } else {
            crate::game_state::GameStateMachine::InGame(current)
        }
    }

    /// One full tick: apply the input events to the player, run the scan,
    /// apply every collected command in emission order, and check the
    /// terminal conditions. The phase itself is read-only; the result is a
    /// fresh phase value.
    pub fn update(&self, delta_ms: u32, events: &Vec<Event>) -> (r:
        crate::game_state::GameStateMachine)
        requires
            self.wf(),
            self.id_gen.next <= ID_SPAN_LIMIT,
        ensures
            !(r is Created),
            r matches crate::game_state::GameStateMachine::InGame(g) ==> {
                &&& spec_ferris_count(g.characters@) > 0
                &&& !g.is_game_over
                &&& g.wf()
                &&& g.screen == self.screen
                &&& g.sprite_sheet.cells@ == self.sprite_sheet.cells@
            },
            r matches crate::game_state::GameStateMachine::OutGame(og) ==> {
                &&& og.wf()
                &&& og.screen == self.screen
                &&& og.sprite_sheet.cells@ == self.sprite_sheet.cells@
                &&& og.rng.state == spec_state_after(
                    self.rng.state,
                    (self.characters@.len() + 1) as nat,
                )
                &&& crate::out_game::spec_is_initial_roster(
                    og.characters@,
                    og.sprite_sheet,
                    og.screen,
                )
                &&& crate::out_game::spec_is_initial_player(
                    og.player,
                    og.sprite_sheet,
                    og.screen,
                )
            },
            exists|cmds: Seq<GameCommand>|
                {
                    let stepped = spec_stepped_roster(self.characters@, delta_ms);
                    let applied = spec_apply_all_roster(stepped, cmds);
                    let over = self.is_game_over || spec_destroys_player(cmds);
                    &&& #[trigger] spec_tick_cmds_ok(*self, delta_ms, events@, cmds)
                    &&& ((spec_ferris_count(applied) == 0 || over) <==> r is OutGame)
                    &&& (r matches crate::game_state::GameStateMachine::InGame(g) ==> {
                        &&& g.characters@ == applied
                        &&& g.player == spec_ship_step(
                            spec_apply_events(self.player, events@),
                            delta_ms,
                        )
                        &&& g.is_game_over == over
                        &&& g.rng.state == spec_state_after(
                            self.rng.state,
                            (self.characters@.len() + 1) as nat,
                        )
                    })
                },
    {
        let roster_len = self.characters.len();
        let mut next = self.duplicate();
        next.apply_events(events);
        proof {
            lemma_apply_events_preserves_id(self.player, events@);
            assert(next.wf());
        }
        let ghost gen0 = next.id_gen;
        let cmds = next.update_game(delta_ms);
        let ghost gen1 = next.id_gen;
        next.apply_commands(&cmds);
        let ghost witness = cmds@;
        proof {
            assert(spec_tick_cmds_ok(*self, delta_ms, events@, witness));
            let stepped = spec_stepped_roster(self.characters@, delta_ms);
            let pid = self.player.id;
            assert(next.id_gen.next + 105 <= u128::MAX) by {
                assert(gen1.next <= gen0.next + roster_len + 2);
            }
            assert(spec_ids_ok(stepped, pid) && spec_ids_below(stepped, pid, gen0.next)) by {
                assert forall|i: int|
                    0 <= i < self.characters@.len() implies char_id(#[trigger] stepped[i])
                    == char_id(self.characters@[i]) by {
                    lemma_char_step_preserves_id(self.characters@[i], delta_ms);
                }
            }
            assert forall|k: int|
                0 <= k < witness.len() implies ((#[trigger] witness[k]) matches
                GameCommand::SpawnCharacter(c) ==> !spec_roster_has_id(stepped, char_id(c))
                && char_id(c) != pid && char_id(c).0 < gen1.next) by {
                match witness[k] {
                    GameCommand::SpawnCharacter(c) => {
                        if spec_roster_has_id(stepped, char_id(c)) {
                            let i = choose|i: int|
                                0 <= i < stepped.len() && char_id(#[trigger] stepped[i])
                                    == char_id(c);
                            assert(char_id(stepped[i]).0 < gen0.next);
                        }
                    },
                    _ => {},
                }
            }
            lemma_apply_all_ids(stepped, pid, witness, gen1.next);
        }
        Self::next_phase(next)
    }

    /// The draw pass: every entity's draw command in roster order, then the
    /// player's.
    pub fn draw(&self) -> (r: Vec<DrawCommand>)
        requires
            self.wf(),
        ensures
            r@ == crate::character::spec_roster_draws(self.characters@)
                + crate::character::opt_draw_seq(
                spec_char_draw(GameCharacter::Ship(self.player)),
            ),
    {
        let mut draws = crate::character::roster_draws(&self.characters);
        let pd = self.player.draw();
        if let Some(d) = pd {
            draws.push(d);
        }
        draws
    }

    /// How many fleet members the roster currently holds.
    pub fn ferris_count(&self) -> (r: usize)
        ensures
            r == spec_ferris_count(self.characters@),
    {
        let n = self.characters.len();
        let mut count: usize = 0;
        let mut i: usize = 0;
        proof {
            assert(self.characters@.skip(0) =~= self.characters@);
        }
        while i < n
            invariant
                n == self.characters@.len(),
                0 <= i <= n,
                count <= i,
                count + spec_ferris_count(self.characters@.skip(i as int))
                    == spec_ferris_count(self.characters@),
            decreases n - i,
        {
            proof {
                assert(self.characters@.skip(i as int)[0] == self.characters@[i as int]);
                assert(self.characters@.skip(i as int).drop_first() =~= self.characters@.skip(
                    i as int + 1,
                ));
            }
            if matches!(self.characters[i], GameCharacter::Ferris(_)) {
                count = count + 1;
            }
            i = i + 1;
        }
        proof {
            assert(self.characters@.skip(n as int) =~= Seq::<GameCharacter>::empty());
        }
        count
    }
}

} // verus!
