//! The attract phase: it builds the full opening tableau — the fleet, the
//! aligned shields, the boundary walls and the player — and unconditionally
//! hands it to the active phase on its next update, ignoring input.

use vstd::prelude::*;

use crate::beam::spec_beam_color_of;
use crate::character::{char_id, char_wf, spec_ids_below, spec_ids_ok, GameCharacter, Id, IdGen};
use crate::ferris::{Ferris, FerrisColor, FerrisState, FERRIS_FRAME_MS};
use crate::geometry::{spec_screen_ok, Point, Rect, Shape};
use crate::motion::{clamp_coord, spec_clamp_coord};
use crate::random::Prng;
use crate::sequence::Frame;
use crate::shield::{create_shield, spec_shield_cell_name, spec_shield_pos, ShieldElement};
use crate::ship::Ship;
use crate::sprite::{spec_assets_ok, CellName, SpriteSheet};
use crate::wall::{Wall, WallType};

verus! {

/// Fleet members per row.
pub const FLEET_COLS: i32 = 9;

/// Fleet rows: two rows for each of the three colors.
pub const FLEET_ROWS: i32 = 6;

/// Vertical offset of the fleet's first row from the screen's top edge.
pub const FLEET_Y_OFFSET: i16 = 100;

/// Horizontal and vertical gap between fleet slots.
pub const FLEET_MARGIN: i16 = 10;

/// How many shields stand between the fleet and the player.
pub const SHIELD_GROUPS: i32 = 4;

/// Vertical offset of the shields from the screen's top edge.
pub const SHIELD_Y_OFFSET: i16 = 490;

/// Vertical offset of the player from the screen's top edge.
pub const SHIP_Y_OFFSET: i16 = 560;

/// Integer division truncating toward zero, as the layout arithmetic uses.
pub open spec fn spec_div_trunc(a: int, b: int) -> int {
    if a >= 0 {
        a / b
    } else {
        -((-a) / b)
    }
}

/// Truncating division on layout intermediates.
pub fn div_trunc(a: i32, b: i32) -> (r: i32)
    requires
        b > 0,
        a > i32::MIN,
    ensures
        r == spec_div_trunc(a as int, b as int),
{
    if a >= 0 {
        (((a as u64) / (b as u64)) as i32)
    } else {
        -((((-a) as u64) / (b as u64)) as i32)
    }
}

/// The color of a fleet row: magenta on top, then green, then blue.
pub open spec fn spec_fleet_color(row: int) -> FerrisColor {
    if row < 2 {
        FerrisColor::Magenta
    } else if row < 4 {
        FerrisColor::Green
    } else {
        FerrisColor::Blue
    }
}

/// Horizontal start of the fleet: the fleet block centered in the screen.
pub open spec fn spec_fleet_x_origin(screen: Rect, fs: Shape) -> int {
    spec_div_trunc(screen.shape.width - FLEET_COLS * (fs.width + FLEET_MARGIN), 2)
}

/// Where the fleet member in (`row`, `col`) starts.
pub open spec fn spec_fleet_pos(screen: Rect, fs: Shape, row: int, col: int) -> Point {
    Point {
        x: spec_clamp_coord(
            screen.origin.x + spec_fleet_x_origin(screen, fs) + FLEET_MARGIN / 2 + col * (fs.width
                + FLEET_MARGIN),
        ) as i16,
        y: spec_clamp_coord(
            screen.origin.y + FLEET_Y_OFFSET + row * (fs.height + FLEET_MARGIN),
        ) as i16,
    }
}

/// A freshly constructed fleet member: everything a constructor pins apart
/// from its identifier, which the tableau contract pins separately as the
/// next consecutively minted one.
pub open spec fn spec_is_initial_ferris(
    f: Ferris,
    sheet: SpriteSheet,
    pos: Point,
    color: FerrisColor,
) -> bool {
    &&& f == (Ferris {
        id: f.id,
        position: pos,
        animation: f.animation,
        color,
        state: FerrisState::MovingLeft,
        beam_cell: sheet.spec_cell(CellName::Beam(spec_beam_color_of(color)))->Some_0,
    })
    &&& f.animation.acc_time_ms == 0
    &&& f.animation.current == 0
    &&& forall|i: int|
        0 <= i < 5 ==> #[trigger] f.animation.frames@[i] == (Frame {
            cell: sheet.spec_cell(CellName::Ferris(color, i as u8))->Some_0,
            duration_ms: FERRIS_FRAME_MS,
        })
}

/// The width of one whole shield: four segment columns.
pub open spec fn spec_shield_width(ss: Shape) -> int {
    crate::shield::SHIELD_COLS * ss.width
}

/// The gap on each side of a shield: the leftover width split evenly.
pub open spec fn spec_shield_margin(screen: Rect, ss: Shape) -> int {
    spec_div_trunc(screen.shape.width - SHIELD_GROUPS * spec_shield_width(ss), 2 * SHIELD_GROUPS)
}

/// Where shield `g` is based.
pub open spec fn spec_shield_base(screen: Rect, ss: Shape, g: int) -> Point {
    Point {
        x: spec_clamp_coord(
            screen.origin.x + spec_shield_margin(screen, ss) + g * (spec_shield_width(ss) + 2
                * spec_shield_margin(screen, ss)),
        ) as i16,
        y: spec_clamp_coord(screen.origin.y + SHIELD_Y_OFFSET) as i16,
    }
}

/// Where the `k`-th shield segment of the whole tableau stands: segment
/// `k % 12` of shield `k / 12`.
pub open spec fn spec_shield_grid_pos(screen: Rect, ss: Shape, k: int) -> Point {
    spec_shield_pos(spec_shield_base(screen, ss, k / 12), ss, (k % 12) / 4, (k % 12) % 4)
}

/// Where the player starts: centered horizontally, near the bottom.
pub open spec fn spec_ship_spawn_pos(screen: Rect, ship_shape: Shape) -> Point {
    Point {
        x: spec_clamp_coord(
            screen.origin.x + spec_div_trunc(screen.shape.width - ship_shape.width, 2),
        ) as i16,
        y: spec_clamp_coord(screen.origin.y + SHIP_Y_OFFSET) as i16,
    }
}

/// The left boundary wall's collision volume.
pub open spec fn spec_left_wall_rect(screen: Rect) -> Rect {
    Rect {
        origin: screen.origin,
        shape: Shape { width: 1, height: screen.shape.height },
    }
}

/// The right boundary wall's collision volume.
pub open spec fn spec_right_wall_rect(screen: Rect) -> Rect {
    Rect {
        origin: Point {
            x: (screen.origin.x + screen.shape.width - 1) as i16,
            y: screen.origin.y,
        },
        shape: Shape { width: 1, height: screen.shape.height },
    }
}

/// A freshly constructed player: everything a constructor pins apart from
/// its identifier, which the tableau contract pins separately as the last
/// minted one.
pub open spec fn spec_is_initial_player(p: Ship, sheet: SpriteSheet, screen: Rect) -> bool {
    p == (Ship {
        id: p.id,
        position: spec_ship_spawn_pos(
            screen,
            sheet.spec_cell(CellName::Ship)->Some_0.frame.shape,
        ),
        cell: sheet.spec_cell(CellName::Ship)->Some_0,
        missile_cell: sheet.spec_cell(CellName::Missile)->Some_0,
        velocity: 0,
        need_shot: false,
        has_bullet: true,
    })
}

/// The full opening tableau: 54 fleet members in a 6-by-9 grid, 48 shield
/// segments in four shields, and the two boundary walls, in that order.
pub open spec fn spec_is_initial_roster(
    roster: Seq<GameCharacter>,
    sheet: SpriteSheet,
    screen: Rect,
) -> bool {
    let fs = sheet.spec_cell(CellName::Ferris(FerrisColor::Blue, 0))->Some_0.frame.shape;
    let ss = sheet.spec_cell(CellName::Shield(0))->Some_0.frame.shape;
    &&& roster.len() == 104
    &&& forall|i: int|
        0 <= i < 54 ==> ((#[trigger] roster[i]) matches GameCharacter::Ferris(f)
            && spec_is_initial_ferris(
            f,
            sheet,
            spec_fleet_pos(screen, fs, i / 9, i % 9),
            spec_fleet_color(i / 9),
        ))
    &&& forall|i: int|
        54 <= i < 102 ==> ((#[trigger] roster[i]) matches GameCharacter::ShieldElement(se) && se
            == (ShieldElement {
            id: se.id,
            position: spec_shield_grid_pos(screen, ss, i - 54),
            cell: sheet.spec_cell(
                spec_shield_cell_name(((i - 54) % 12) / 4, ((i - 54) % 12) % 4),
            )->Some_0,
        }))
    &&& roster[102] matches GameCharacter::Wall(w) && w == (Wall {
        id: w.id,
        wall_type: WallType::Left,
        bounding_box: spec_left_wall_rect(screen),
    })
    &&& roster[103] matches GameCharacter::Wall(w) && w == (Wall {
        id: w.id,
        wall_type: WallType::Right,
        bounding_box: spec_right_wall_rect(screen),
    })
}

/// The attract phase.
#[derive(Debug)]
pub struct OutGame {
    pub sprite_sheet: SpriteSheet,
    pub screen: Rect,
    pub characters: Vec<GameCharacter>,
    pub player: Ship,
    pub rng: Prng,
    pub id_gen: IdGen,
}

impl OutGame {
    pub open spec fn wf(self) -> bool {
        &&& forall|i: int|
            0 <= i < self.characters@.len() ==> char_wf(#[trigger] self.characters@[i])
        &&& self.player.wf()
        &&& self.sprite_sheet.wf()
        &&& spec_assets_ok(self.sprite_sheet)
        &&& spec_screen_ok(self.screen)
        &&& spec_ids_ok(self.characters@, self.player.id)
        &&& spec_ids_below(self.characters@, self.player.id, self.id_gen.next)
    }

    /// The opening fleet: 54 members in a 6-by-9 grid, row colors magenta,
    /// green, blue from the top, every member marching left.
    fn spawn_ferris_fleet(sprite_sheet: &SpriteSheet, screen: Rect, id_gen: &mut IdGen) -> (r:
        Vec<GameCharacter>)
        requires
            sprite_sheet.wf(),
            spec_assets_ok(*sprite_sheet),
            spec_screen_ok(screen),
            old(id_gen).next + 54 <= u128::MAX,
        ensures
            final(id_gen).next == old(id_gen).next + 54,
            forall|i: int|
                0 <= i < r@.len() ==> char_id(#[trigger] r@[i]) == Id(
                    (old(id_gen).next + i) as u128,
                ),
            r@.len() == 54,
            forall|i: int|
                0 <= i < 54 ==> ((#[trigger] r@[i]) matches GameCharacter::Ferris(f)
                    && spec_is_initial_ferris(
                    f,
                    *sprite_sheet,
                    spec_fleet_pos(
                        screen,
                        sprite_sheet.spec_cell(
                            CellName::Ferris(FerrisColor::Blue, 0),
                        )->Some_0.frame.shape,
                        i / 9,
                        i % 9,
                    ),
                    spec_fleet_color(i / 9),
                )),
            forall|i: int| 0 <= i < r@.len() ==> char_wf(#[trigger] r@[i]),
    {
        let fs = Ferris::get_shape(sprite_sheet);
        proof {
            crate::sprite::lemma_lookup_wf(
                sprite_sheet.cells@,
                CellName::Ferris(FerrisColor::Blue, 0),
            );
        }
        let x_origin = div_trunc(
            (screen.width() as i32) - FLEET_COLS * ((fs.width as i32) + (FLEET_MARGIN as i32)),
            2,
        );
        let mut out: Vec<GameCharacter> = Vec::new();
        let mut k: usize = 0;
        while k < 54
            invariant
                0 <= k <= 54,
                out@.len() == k,
                old(id_gen).next + 54 <= u128::MAX,
                id_gen.next == old(id_gen).next + k,
                forall|i: int|
                    0 <= i < out@.len() ==> char_id(#[trigger] out@[i]) == Id(
                        (old(id_gen).next + i) as u128,
                    ),
                sprite_sheet.wf(),
                spec_assets_ok(*sprite_sheet),
                spec_screen_ok(screen),
                fs == sprite_sheet.spec_cell(
                    CellName::Ferris(FerrisColor::Blue, 0),
                )->Some_0.frame.shape,
                0 <= fs.width <= 512,
                0 <= fs.height <= 512,
                x_origin == spec_fleet_x_origin(screen, fs),
                forall|i: int|
                    0 <= i < k ==> ((#[trigger] out@[i]) matches GameCharacter::Ferris(f)
                        && spec_is_initial_ferris(
                        f,
                        *sprite_sheet,
                        spec_fleet_pos(screen, fs, i / 9, i % 9),
                        spec_fleet_color(i / 9),
                    )),
                forall|i: int| 0 <= i < out@.len() ==> char_wf(#[trigger] out@[i]),
            decreases 54 - k,
        {
            let row = k / 9;
            let col = k % 9;
            let color = if row < 2 {
                FerrisColor::Magenta
            } else if row < 4 {
                FerrisColor::Green
            } else {
                FerrisColor::Blue
            };
            proof {
                let c = col as int;
                let rw = row as int;
                let w = fs.width as int;
                let h = fs.height as int;
                assert(0 <= c * (w + 10) <= 4176 && 0 <= rw * (h + 10) <= 2610)
                    by (nonlinear_arith)
                    requires
                        0 <= c <= 8,
                        0 <= rw <= 5,
                        0 <= w <= 512,
                        0 <= h <= 512,
                ;
            }
            let x = clamp_coord(
                (screen.x() as i32) + x_origin + ((FLEET_MARGIN / 2) as i32) + (col as i32) * ((
                fs.width as i32) + (FLEET_MARGIN as i32)),
            );
            let y = clamp_coord(
                (screen.y() as i32) + (FLEET_Y_OFFSET as i32) + (row as i32) * ((fs.height
                    as i32) + (FLEET_MARGIN as i32)),
            );
            let ferris = Ferris::new(sprite_sheet, Point { x, y }, color, id_gen);
            out.push(GameCharacter::Ferris(ferris));
            k = k + 1;
        }
        out
    }

    /// The four aligned shields: 48 segments, spaced evenly across the
    /// screen width.
    fn spawn_aligned_shields(sprite_sheet: &SpriteSheet, screen: Rect, id_gen: &mut IdGen) -> (r:
        Vec<GameCharacter>)
        requires
            sprite_sheet.wf(),
            spec_assets_ok(*sprite_sheet),
            spec_screen_ok(screen),
            old(id_gen).next + 48 <= u128::MAX,
        ensures
            final(id_gen).next == old(id_gen).next + 48,
            forall|i: int|
                0 <= i < r@.len() ==> char_id(#[trigger] r@[i]) == Id(
                    (old(id_gen).next + i) as u128,
                ),
            r@.len() == 48,
            forall|i: int|
                0 <= i < 48 ==> ((#[trigger] r@[i]) matches GameCharacter::ShieldElement(se) && se
                    == (ShieldElement {
                    id: se.id,
                    position: spec_shield_grid_pos(
                        screen,
                        sprite_sheet.spec_cell(CellName::Shield(0))->Some_0.frame.shape,
                        i,
                    ),
                    cell: sprite_sheet.spec_cell(
                        spec_shield_cell_name((i % 12) / 4, (i % 12) % 4),
                    )->Some_0,
                })),
            forall|i: int| 0 <= i < r@.len() ==> char_wf(#[trigger] r@[i]),
    {
        let ss = ShieldElement::get_shape(sprite_sheet);
        proof {
            crate::sprite::lemma_lookup_wf(sprite_sheet.cells@, CellName::Shield(0));
        }
        let shield_width = crate::shield::SHIELD_COLS * (ss.width as i32);
        let margin = div_trunc(
            (screen.width() as i32) - SHIELD_GROUPS * shield_width,
            2 * SHIELD_GROUPS,
        );
        let mut out: Vec<GameCharacter> = Vec::new();
        let mut g: usize = 0;
        while g < 4
            invariant
                0 <= g <= 4,
                out@.len() == 12 * g,
                old(id_gen).next + 48 <= u128::MAX,
                id_gen.next == old(id_gen).next + out@.len(),
                forall|i: int|
                    0 <= i < out@.len() ==> char_id(#[trigger] out@[i]) == Id(
                        (old(id_gen).next + i) as u128,
                    ),
                sprite_sheet.wf(),
                spec_assets_ok(*sprite_sheet),
                spec_screen_ok(screen),
                ss == sprite_sheet.spec_cell(CellName::Shield(0))->Some_0.frame.shape,
                0 <= ss.width <= 512,
                0 <= ss.height <= 512,
                shield_width == spec_shield_width(ss),
                margin == spec_shield_margin(screen, ss),
                -1024 <= margin <= 500,
                forall|i: int|
                    0 <= i < out@.len() ==> ((#[trigger] out@[i]) matches
                        GameCharacter::ShieldElement(se) && se == (ShieldElement {
                        id: se.id,
                        position: spec_shield_grid_pos(screen, ss, i),
                        cell: sprite_sheet.spec_cell(
                            spec_shield_cell_name((i % 12) / 4, (i % 12) % 4),
                        )->Some_0,
                    })),
                forall|i: int| 0 <= i < out@.len() ==> char_wf(#[trigger] out@[i]),
            decreases 4 - g,
        {
            proof {
                let gi = g as int;
                let term = spec_shield_width(ss) + 2 * spec_shield_margin(screen, ss);
                assert(-10000 <= gi * term <= 10000) by (nonlinear_arith)
                    requires
                        0 <= gi <= 3,
                        -2048 <= term <= 3048,
                ;
            }
            let bx = clamp_coord(
                (screen.x() as i32) + margin + (g as i32) * (shield_width + 2 * margin),
            );
            let by = clamp_coord((screen.y() as i32) + (SHIELD_Y_OFFSET as i32));
            let base = Point { x: bx, y: by };
            let ghost gen_at_group = id_gen.next;
            let elements = create_shield(sprite_sheet, &base, id_gen);
            let mut t: usize = 0;
            while t < elements.len()
                invariant
                    0 <= t <= elements@.len(),
                    elements@.len() == 12,
                    0 <= g < 4,
                    out@.len() == 12 * g + t,
                    old(id_gen).next + 48 <= u128::MAX,
                    gen_at_group == old(id_gen).next + 12 * g,
                    id_gen.next == gen_at_group + 12,
                    forall|j: int|
                        0 <= j < elements@.len() ==> (#[trigger] elements@[j]).id == Id(
                            (gen_at_group + j) as u128,
                        ),
                    forall|i: int|
                        0 <= i < out@.len() ==> char_id(#[trigger] out@[i]) == Id(
                            (old(id_gen).next + i) as u128,
                        ),
                    sprite_sheet.wf(),
                    spec_screen_ok(screen),
                    ss == sprite_sheet.spec_cell(CellName::Shield(0))->Some_0.frame.shape,
                    base == spec_shield_base(screen, ss, g as int),
                    forall|j: int|
                        0 <= j < elements@.len() ==> #[trigger] elements@[j] == (ShieldElement {
                            id: elements@[j].id,
                            position: spec_shield_pos(base, ss, j / 4, j % 4),
                            cell: sprite_sheet.spec_cell(
                                spec_shield_cell_name(j / 4, j % 4),
                            )->Some_0,
                        }),
                    forall|j: int| 0 <= j < elements@.len() ==> (#[trigger] elements@[j]).wf(),
                    forall|i: int|
                        0 <= i < out@.len() ==> ((#[trigger] out@[i]) matches
                            GameCharacter::ShieldElement(se) && se == (ShieldElement {
                            id: se.id,
                            position: spec_shield_grid_pos(screen, ss, i),
                            cell: sprite_sheet.spec_cell(
                                spec_shield_cell_name((i % 12) / 4, (i % 12) % 4),
                            )->Some_0,
                        })),
                    forall|i: int| 0 <= i < out@.len() ==> char_wf(#[trigger] out@[i]),
                decreases elements@.len() - t,
            {
                proof {
                    let i = (12 * g + t) as int;
                    assert(i / 12 == g as int && i % 12 == t as int) by (nonlinear_arith)
                        requires
                            i == 12 * (g as int) + (t as int),
                            0 <= t < 12,
                            0 <= g < 4,
                    ;
                }
                out.push(GameCharacter::ShieldElement(elements[t]));
                t = t + 1;
            }
            g = g + 1;
        }
        out
    }

    /// The player, centered horizontally near the bottom.
    fn spawn_ship(sprite_sheet: &SpriteSheet, screen: Rect, id_gen: &mut IdGen) -> (r: Ship)
        requires
            sprite_sheet.wf(),
            spec_assets_ok(*sprite_sheet),
            spec_screen_ok(screen),
            old(id_gen).next < u128::MAX,
        ensures
            spec_is_initial_player(r, *sprite_sheet, screen),
            r.wf(),
            r.id == Id(old(id_gen).next),
            final(id_gen).next == old(id_gen).next + 1,
    {
        let shape = Ship::get_shape(sprite_sheet);
        proof {
            crate::sprite::lemma_lookup_wf(sprite_sheet.cells@, CellName::Ship);
            crate::sprite::lemma_lookup_wf(sprite_sheet.cells@, CellName::Missile);
        }
        let x = clamp_coord(
            (screen.x() as i32) + div_trunc((screen.width() as i32) - (shape.width as i32), 2),
        );
        let y = clamp_coord((screen.y() as i32) + (SHIP_Y_OFFSET as i32));
        Ship::new(sprite_sheet, Point { x, y }, id_gen)
    }

    /// The two invisible boundary walls at the screen's vertical edges.
    fn spawn_walls(screen: Rect, id_gen: &mut IdGen) -> (r: Vec<GameCharacter>)
        requires
            spec_screen_ok(screen),
            old(id_gen).next + 2 <= u128::MAX,
        ensures
            final(id_gen).next == old(id_gen).next + 2,
            forall|i: int|
                0 <= i < r@.len() ==> char_id(#[trigger] r@[i]) == Id(
                    (old(id_gen).next + i) as u128,
                ),
            r@.len() == 2,
            r@[0] matches GameCharacter::Wall(w) && w == (Wall {
                id: w.id,
                wall_type: WallType::Left,
                bounding_box: spec_left_wall_rect(screen),
            }),
            r@[1] matches GameCharacter::Wall(w) && w == (Wall {
                id: w.id,
                wall_type: WallType::Right,
                bounding_box: spec_right_wall_rect(screen),
            }),
            forall|i: int| 0 <= i < r@.len() ==> char_wf(#[trigger] r@[i]),
    {
        let left_wall = Wall::new(
            WallType::Left,
            Rect::new_from_x_y_w_h(screen.x(), screen.y(), 1, screen.height()),
            id_gen,
        );
        let right_wall = Wall::new(
            WallType::Right,
            Rect::new_from_x_y_w_h(screen.x() + screen.width() - 1, screen.y(), 1, screen.height()),
            id_gen,
        );
        let mut out: Vec<GameCharacter> = Vec::new();
        out.push(GameCharacter::Wall(left_wall));
        out.push(GameCharacter::Wall(right_wall));
        out
    }

    /// A fresh attract phase: the whole opening tableau, built from the
    /// asset table, the screen geometry, the injected random source and the
    /// identifier allocator. The tableau's 104 entities and the player carry
    /// consecutively minted, hence pairwise distinct, identifiers.
    pub fn new(sprite_sheet: SpriteSheet, screen: Rect, rng: Prng, id_gen: IdGen) -> (r: OutGame)
        requires
            sprite_sheet.wf(),
            spec_assets_ok(sprite_sheet),
            spec_screen_ok(screen),
            id_gen.next + 105 <= u128::MAX,
        ensures
            r.sprite_sheet == sprite_sheet,
            r.screen == screen,
            r.rng == rng,
            r.id_gen.next == id_gen.next + 105,
            forall|i: int|
                0 <= i < r.characters@.len() ==> char_id(#[trigger] r.characters@[i]) == Id(
                    (id_gen.next + i) as u128,
                ),
            r.player.id == Id((id_gen.next + 104) as u128),
            spec_is_initial_roster(r.characters@, sprite_sheet, screen),
            spec_is_initial_player(r.player, sprite_sheet, screen),
            r.wf(),
    {
        let mut id_gen = id_gen;
        let mut characters = Self::spawn_ferris_fleet(&sprite_sheet, screen, &mut id_gen);
        let mut shields = Self::spawn_aligned_shields(&sprite_sheet, screen, &mut id_gen);
        let mut walls = Self::spawn_walls(screen, &mut id_gen);
        let ghost fleet_part = characters@;
        let ghost shield_part = shields@;
        let ghost wall_part = walls@;
        characters.append(&mut shields);
        characters.append(&mut walls);
        proof {
            assert(characters@ =~= fleet_part + shield_part + wall_part);
            assert forall|i: int| 0 <= i < 54 implies (#[trigger] characters@[i]) == fleet_part[i]
                by {}
            assert forall|i: int| 54 <= i < 102 implies (#[trigger] characters@[i])
                == shield_part[i - 54] by {}
            assert(characters@[102] == wall_part[0] && characters@[103] == wall_part[1]);
        }
        let player = Self::spawn_ship(&sprite_sheet, screen, &mut id_gen);
        proof {
            assert forall|i: int, j: int|
                0 <= i < j < characters@.len() implies char_id(#[trigger] characters@[i])
                != char_id(#[trigger] characters@[j]) by {}
            assert forall|i: int|
                0 <= i < characters@.len() implies char_id(#[trigger] characters@[i])
                != player.id by {}
        }
        OutGame { sprite_sheet, screen, characters, player, rng, id_gen }
    }

    /// The attract phase advances unconditionally to the active phase on its
    /// next update, handing over its tableau, its player, its random source
    /// and its identifier allocator; input is ignored.
    pub fn update(&self, delta_ms: u32, events: &Vec<crate::event::Event>) -> (r:
        crate::game_state::GameStateMachine)
        requires
            self.wf(),
        ensures
            r matches crate::game_state::GameStateMachine::InGame(g) && {
                &&& g.characters@ == self.characters@
                &&& g.player == self.player
                &&& g.sprite_sheet.cells@ == self.sprite_sheet.cells@
                &&& g.screen == self.screen
                &&& g.rng == self.rng
                &&& g.id_gen == self.id_gen
                &&& !g.is_game_over
                &&& g.wf()
            },
    {
        let next = crate::in_game::InGame::new(
            self.sprite_sheet.duplicate(),
            self.screen,
            crate::in_game::clone_roster(&self.characters),
            self.player,
            self.rng,
            self.id_gen,
        );
        crate::game_state::GameStateMachine::InGame(next)
    }

    /// The draw pass: every entity's draw command in roster order, then the
    /// player's.
    pub fn draw(&self) -> (r: Vec<crate::draw::DrawCommand>)
        requires
            self.wf(),
        ensures
            r@ == crate::character::spec_roster_draws(self.characters@)
                + crate::character::opt_draw_seq(
                crate::character::spec_char_draw(GameCharacter::Ship(self.player)),
            ),
    {
        let mut draws = crate::character::roster_draws(&self.characters);
        let pd = self.player.draw();
        if let Some(d) = pd {
            draws.push(d);
        }
        draws
    }
}

} // verus!
