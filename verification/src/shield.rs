//! Barrier segments: stationary shield blocks placed between the fleet and
//! the player, destroyed by enemy fire or by a descending fleet member. A
//! whole shield is a 3-by-4 grid of segments.

use vstd::prelude::*;

use crate::character::{GameCharacter, GameCommand, Id, IdGen};
use crate::draw::DrawCommand;
use crate::geometry::{Point, Rect, Shape};
use crate::layers;
use crate::motion::{clamp_coord, spec_clamp_coord, COORD_MAX, COORD_MIN};
use crate::sprite::{wf_cell, Cell, CellName, SpriteSheet};

verus! {

/// How many segment columns one shield has.
pub const SHIELD_COLS: i32 = 4;

/// How many segment rows one shield has.
pub const SHIELD_ROWS: i32 = 3;

/// One stationary barrier segment.
#[derive(Clone, Copy, Debug)]
pub struct ShieldElement {
    pub id: Id,
    pub position: Point,
    pub cell: Cell,
}

/// A shield segment is destroyed by a beam or by a fleet member.
pub open spec fn spec_shield_collide(
    se: ShieldElement,
    other: GameCharacter,
) -> Option<GameCommand> {
    match other {
        GameCharacter::Beam(_) => Some(GameCommand::DestroyCharacter(se.id)),
        GameCharacter::Ferris(_) => Some(GameCommand::DestroyCharacter(se.id)),
        _ => None,
    }
}

/// The cell name a grid slot uses: the top corners have their own sprites,
/// every other slot shows the plain middle sprite.
pub open spec fn spec_shield_cell_name(row: int, col: int) -> CellName {
    if row == 0 && col == 0 {
        CellName::Shield(4)
    } else if row == 0 && col == SHIELD_COLS - 1 {
        CellName::Shield(5)
    } else {
        CellName::Shield(0)
    }
}

/// Where the segment in grid slot (`row`, `col`) of a shield based at
/// `base` stands: offset by whole segment shapes, clamped to the band.
pub open spec fn spec_shield_pos(base: Point, shape: Shape, row: int, col: int) -> Point {
    Point {
        x: spec_clamp_coord(base.x + col * shape.width) as i16,
        y: spec_clamp_coord(base.y + row * shape.height) as i16,
    }
}

impl ShieldElement {
    pub open spec fn wf(self) -> bool {
        &&& COORD_MIN <= self.position.x <= COORD_MAX
        &&& COORD_MIN <= self.position.y <= COORD_MAX
        &&& wf_cell(self.cell)
    }

    pub open spec fn spec_bbox(self) -> Rect {
        Rect { origin: self.position, shape: self.cell.frame.shape }
    }

    /// The shape every segment shares: the middle segment cell's shape.
    pub fn get_shape(sprite_sheet: &SpriteSheet) -> (s: Shape)
        requires
            sprite_sheet.spec_cell(CellName::Shield(0)) is Some,
        ensures
            s == sprite_sheet.spec_cell(CellName::Shield(0))->Some_0.frame.shape,
    {
        match sprite_sheet.cell(CellName::Shield(0)) {
            Some(cell) => cell.shape(),
            None => vstd::pervasive::unreached(),
        }
    }

    /// A fresh segment showing an already-resolved cell, carrying the next
    /// minted identifier.
    fn from_cell(cell: Cell, position: Point, id_gen: &mut IdGen) -> (r: ShieldElement)
        requires
            old(id_gen).next < u128::MAX,
        ensures
            r == (ShieldElement { id: Id(old(id_gen).next), position, cell }),
            final(id_gen).next == old(id_gen).next + 1,
    {
        ShieldElement { id: id_gen.fresh(), position, cell }
    }

    pub fn id(&self) -> (r: Id)
        ensures
            r == self.id,
    {
        self.id
    }

    pub fn bounding_box(&self) -> (r: Rect)
        ensures
            r == self.spec_bbox(),
    {
        Rect::new(self.position, self.cell.shape())
    }

    /// A segment never moves and never emits a command.
    pub fn update(&mut self, delta_ms: u32) -> (cmd: Option<GameCommand>)
        ensures
            *final(self) == *old(self),
            cmd is None,
    {
        None
    }

    pub fn draw(&self) -> (r: Option<DrawCommand>)
        ensures
            r == Some(
                DrawCommand { layer: layers::SHIELD, cell: self.cell, position: self.position },
            ),
    {
        Some(DrawCommand { layer: layers::SHIELD, cell: self.cell, position: self.position })
    }

    /// Off screen, a segment destroys itself. It never moves, so this fires
    /// only if it was constructed straddling the screen edge.
    pub fn on_exit_screen(&mut self) -> (cmd: Option<GameCommand>)
        ensures
            *final(self) == *old(self),
            cmd == Some(GameCommand::DestroyCharacter(old(self).id)),
    {
        Some(GameCommand::DestroyCharacter(self.id))
    }

    pub fn on_collide(&self, other: &GameCharacter) -> (cmd: Option<GameCommand>)
        ensures
            cmd == spec_shield_collide(*self, *other),
    {
        match other {
            GameCharacter::Beam(_) => Some(GameCommand::DestroyCharacter(self.id)),
            GameCharacter::Ferris(_) => Some(GameCommand::DestroyCharacter(self.id)),
            _ => None,
        }
    }
}

/// Build one whole shield: a 3-by-4 grid of segments in row-major order,
/// based at `position`, with consecutively minted (hence pairwise distinct)
/// identifiers. Segment `k` sits in row `k / 4`, column `k % 4`.
pub fn create_shield(sprite_sheet: &SpriteSheet, position: &Point, id_gen: &mut IdGen) -> (r: Vec<
    ShieldElement,
>)
    requires
        sprite_sheet.wf(),
        sprite_sheet.spec_cell(CellName::Shield(0)) is Some,
        sprite_sheet.spec_cell(CellName::Shield(4)) is Some,
        sprite_sheet.spec_cell(CellName::Shield(5)) is Some,
        old(id_gen).next + 12 <= u128::MAX,
    ensures
        final(id_gen).next == old(id_gen).next + 12,
        forall|k: int|
            0 <= k < r@.len() ==> (#[trigger] r@[k]).id == Id((old(id_gen).next + k) as u128),
        r@.len() == SHIELD_ROWS * SHIELD_COLS,
        forall|k: int|
            0 <= k < r@.len() ==> #[trigger] r@[k] == (ShieldElement {
                id: r@[k].id,
                position: spec_shield_pos(
                    *position,
                    sprite_sheet.spec_cell(CellName::Shield(0))->Some_0.frame.shape,
                    k / (SHIELD_COLS as int),
                    k % (SHIELD_COLS as int),
                ),
                cell: sprite_sheet.spec_cell(
                    spec_shield_cell_name(k / (SHIELD_COLS as int), k % (SHIELD_COLS as int)),
                )->Some_0,
            }),
        forall|k: int| 0 <= k < r@.len() ==> (#[trigger] r@[k]).wf(),
{
    let shield_shape = ShieldElement::get_shape(sprite_sheet);
    proof {
        crate::sprite::lemma_lookup_wf(sprite_sheet.cells@, CellName::Shield(0));
        crate::sprite::lemma_lookup_wf(sprite_sheet.cells@, CellName::Shield(4));
        crate::sprite::lemma_lookup_wf(sprite_sheet.cells@, CellName::Shield(5));
    }
    let mut elements: Vec<ShieldElement> = Vec::new();
    let mut row: i32 = 0;
    while row < SHIELD_ROWS
        invariant
            0 <= row <= SHIELD_ROWS,
            elements@.len() == row * SHIELD_COLS,
            old(id_gen).next + 12 <= u128::MAX,
            id_gen.next == old(id_gen).next + elements@.len(),
            forall|k: int|
                0 <= k < elements@.len() ==> (#[trigger] elements@[k]).id == Id(
                    (old(id_gen).next + k) as u128,
                ),
            sprite_sheet.wf(),
            sprite_sheet.spec_cell(CellName::Shield(0)) is Some,
            sprite_sheet.spec_cell(CellName::Shield(4)) is Some,
            sprite_sheet.spec_cell(CellName::Shield(5)) is Some,
            shield_shape == sprite_sheet.spec_cell(CellName::Shield(0))->Some_0.frame.shape,
            0 <= shield_shape.width <= 512,
            0 <= shield_shape.height <= 512,
            forall|k: int|
                0 <= k < elements@.len() ==> #[trigger] elements@[k] == (ShieldElement {
                    id: elements@[k].id,
                    position: spec_shield_pos(
                        *position,
                        shield_shape,
                        k / (SHIELD_COLS as int),
                        k % (SHIELD_COLS as int),
                    ),
                    cell: sprite_sheet.spec_cell(
                        spec_shield_cell_name(
                            k / (SHIELD_COLS as int),
                            k % (SHIELD_COLS as int),
                        ),
                    )->Some_0,
                }),
            forall|k: int| 0 <= k < elements@.len() ==> (#[trigger] elements@[k]).wf(),
        decreases SHIELD_ROWS - row,
    {
        proof {
            let r = row as int;
            let h = shield_shape.height as int;
            assert(0 <= r * h <= 2048) by (nonlinear_arith)
                requires
                    0 <= r < 4,
                    0 <= h <= 512,
            ;
        }
        let y = clamp_coord((position.y as i32) + row * (shield_shape.height as i32));
        let mut col: i32 = 0;
        while col < SHIELD_COLS
            invariant
                0 <= row < SHIELD_ROWS,
                0 <= col <= SHIELD_COLS,
                elements@.len() == row * SHIELD_COLS + col,
                old(id_gen).next + 12 <= u128::MAX,
                id_gen.next == old(id_gen).next + elements@.len(),
                forall|k: int|
                    0 <= k < elements@.len() ==> (#[trigger] elements@[k]).id == Id(
                        (old(id_gen).next + k) as u128,
                    ),
                sprite_sheet.wf(),
                sprite_sheet.spec_cell(CellName::Shield(0)) is Some,
                sprite_sheet.spec_cell(CellName::Shield(4)) is Some,
                sprite_sheet.spec_cell(CellName::Shield(5)) is Some,
                shield_shape == sprite_sheet.spec_cell(CellName::Shield(0))->Some_0.frame.shape,
                0 <= shield_shape.width <= 512,
                0 <= shield_shape.height <= 512,
                y as int == spec_clamp_coord(position.y + row * shield_shape.height),
                forall|k: int|
                    0 <= k < elements@.len() ==> #[trigger] elements@[k] == (ShieldElement {
                        id: elements@[k].id,
                        position: spec_shield_pos(
                            *position,
                            shield_shape,
                            k / (SHIELD_COLS as int),
                            k % (SHIELD_COLS as int),
                        ),
                        cell: sprite_sheet.spec_cell(
                            spec_shield_cell_name(
                                k / (SHIELD_COLS as int),
                                k % (SHIELD_COLS as int),
                            ),
                        )->Some_0,
                    }),
                forall|k: int| 0 <= k < elements@.len() ==> (#[trigger] elements@[k]).wf(),
            decreases SHIELD_COLS - col,
        {
            proof {
                let c = col as int;
                let w = shield_shape.width as int;
                assert(0 <= c * w <= 2048) by (nonlinear_arith)
                    requires
                        0 <= c < 4,
                        0 <= w <= 512,
                ;
            }
            let x = clamp_coord((position.x as i32) + col * (shield_shape.width as i32));
            let name = if row == 0 && col == 0 {
                CellName::Shield(4)
            } else if row == 0 && col == SHIELD_COLS - 1 {
                CellName::Shield(5)
            } else {
                CellName::Shield(0)
            };
            let cell = match sprite_sheet.cell(name) {
                Some(cell) => cell,
                None => vstd::pervasive::unreached(),
            };
            proof {
                crate::sprite::lemma_lookup_wf(sprite_sheet.cells@, name);
                let k = elements@.len() as int;
                assert(k / (SHIELD_COLS as int) == row as int && k % (SHIELD_COLS as int)
                    == col as int) by (nonlinear_arith)
                    requires
                        k == row * SHIELD_COLS + col,
                        0 <= col < SHIELD_COLS,
                        0 <= row,
                        SHIELD_COLS == 4,
                ;
            }
            elements.push(ShieldElement::from_cell(cell, Point { x, y }, id_gen));
            col = col + 1;
        }
        row = row + 1;
    }
    elements
}

} // verus!
