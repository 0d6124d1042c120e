//! The asset boundary: an opaque sprite-sheet handle mapping cell names to
//! source rectangles. The core never loads assets itself; the host hands it a
//! ready table and the core only looks cells up. A lookup that must succeed is
//! a precondition of the operation that needs it: a missing cell is an
//! asset/build mismatch, not a runtime condition.

use vstd::prelude::*;

use crate::beam::BeamColor;
use crate::ferris::FerrisColor;
use crate::geometry::{Rect, Shape};

verus! {

/// The name of one sprite cell. The set of cells the core reads is closed,
/// so names are a datatype rather than free-form strings; the host maps its
/// atlas keys onto these.
#[derive(Clone, Copy, PartialEq, Eq, Structural, Debug)]
pub enum CellName {
    /// A fleet-member walk frame: color and frame index.
    Ferris(FerrisColor, u8),
    /// An enemy projectile frame, one per color.
    Beam(BeamColor),
    /// The player projectile frame.
    Missile,
    /// The player ship frame.
    Ship,
    /// A barrier segment frame, by atlas index.
    Shield(u8),
    /// A bonus-enemy swim frame, by frame index.
    TurboFish(u8),
}

/// One sprite cell: its source rectangle inside the texture. The cell's shape
/// is the shape of that rectangle.
#[derive(Clone, Copy, PartialEq, Eq, Structural, Debug)]
pub struct Cell {
    pub frame: Rect,
}

/// A cell whose shape fits comfortably inside the coordinate arithmetic of
/// the core: nonnegative and at most 512 pixels on a side.
pub open spec fn wf_cell(c: Cell) -> bool {
    &&& 0 <= c.frame.shape.width <= 512
    &&& 0 <= c.frame.shape.height <= 512
}

impl Cell {
    pub fn shape(&self) -> (s: Shape)
        ensures
            s == self.frame.shape,
    {
        self.frame.shape
    }
}

/// One row of the sprite-sheet table.
#[derive(Clone, Copy, PartialEq, Eq, Structural, Debug)]
pub struct SheetEntry {
    pub name: CellName,
    pub cell: Cell,
}

/// The first cell registered under `name`, if any.
pub open spec fn spec_lookup(entries: Seq<SheetEntry>, name: CellName) -> Option<Cell>
    decreases entries.len(),
{
    if entries.len() <= 0 {
        None
    } else if entries[0].name == name {
        Some(entries[0].cell)
    } else {
        spec_lookup(entries.drop_first(), name)
    }
}

/// Every cell the core's constructors and spawners look up is present.
pub open spec fn spec_assets_ok(s: SpriteSheet) -> bool {
    &&& s.spec_cell(CellName::Ferris(FerrisColor::Blue, 0)) is Some
    &&& s.spec_cell(CellName::Ferris(FerrisColor::Blue, 1)) is Some
    &&& s.spec_cell(CellName::Ferris(FerrisColor::Blue, 2)) is Some
    &&& s.spec_cell(CellName::Ferris(FerrisColor::Blue, 3)) is Some
    &&& s.spec_cell(CellName::Ferris(FerrisColor::Blue, 4)) is Some
    &&& s.spec_cell(CellName::Ferris(FerrisColor::Green, 0)) is Some
    &&& s.spec_cell(CellName::Ferris(FerrisColor::Green, 1)) is Some
    &&& s.spec_cell(CellName::Ferris(FerrisColor::Green, 2)) is Some
    &&& s.spec_cell(CellName::Ferris(FerrisColor::Green, 3)) is Some
    &&& s.spec_cell(CellName::Ferris(FerrisColor::Green, 4)) is Some
    &&& s.spec_cell(CellName::Ferris(FerrisColor::Magenta, 0)) is Some
    &&& s.spec_cell(CellName::Ferris(FerrisColor::Magenta, 1)) is Some
    &&& s.spec_cell(CellName::Ferris(FerrisColor::Magenta, 2)) is Some
    &&& s.spec_cell(CellName::Ferris(FerrisColor::Magenta, 3)) is Some
    &&& s.spec_cell(CellName::Ferris(FerrisColor::Magenta, 4)) is Some
    &&& s.spec_cell(CellName::Beam(BeamColor::Blue)) is Some
    &&& s.spec_cell(CellName::Beam(BeamColor::Green)) is Some
    &&& s.spec_cell(CellName::Beam(BeamColor::Magenta)) is Some
    &&& s.spec_cell(CellName::Missile) is Some
    &&& s.spec_cell(CellName::Ship) is Some
    &&& s.spec_cell(CellName::Shield(0)) is Some
    &&& s.spec_cell(CellName::Shield(4)) is Some
    &&& s.spec_cell(CellName::Shield(5)) is Some
    &&& s.spec_cell(CellName::TurboFish(0)) is Some
    &&& s.spec_cell(CellName::TurboFish(1)) is Some
}

/// The opaque asset handle: a table of named cells.
#[derive(Debug)]
pub struct SpriteSheet {
    pub cells: Vec<SheetEntry>,
}

impl SpriteSheet {
    /// Every cell of the sheet has a bounded shape.
    pub open spec fn wf(self) -> bool {
        forall|i: int|
            0 <= i < self.cells@.len() ==> wf_cell((#[trigger] self.cells@[i]).cell)
    }

    pub open spec fn spec_cell(self, name: CellName) -> Option<Cell> {
        spec_lookup(self.cells@, name)
    }

    pub fn new(cells: Vec<SheetEntry>) -> (r: SpriteSheet)
        ensures
            r.cells == cells,
    {
        SpriteSheet { cells }
    }

    /// Look a cell up by name.
    pub fn cell(&self, name: CellName) -> (r: Option<Cell>)
        ensures
            r == self.spec_cell(name),
    {
        let n = self.cells.len();
        let mut i: usize = 0;
        proof {
            assert(self.cells@.skip(0) =~= self.cells@);
        }
        while i < n
            invariant
                n == self.cells@.len(),
                0 <= i <= n,
                spec_lookup(self.cells@, name) == spec_lookup(
                    self.cells@.skip(i as int),
                    name,
                ),
            decreases n - i,
        {
            let e = self.cells[i];
            proof {
                assert(self.cells@.skip(i as int)[0] == self.cells@[i as int]);
            }
            if e.name == name {
                return Some(e.cell);
            }
            proof {
                assert(self.cells@.skip(i as int).drop_first() =~= self.cells@.skip(
                    i as int + 1,
                ));
            }
            i = i + 1;
        }
        proof {
            assert(self.cells@.skip(n as int) =~= Seq::<SheetEntry>::empty());
        }
        None
    }

    /// A fresh sheet holding the same table.
    pub fn duplicate(&self) -> (r: SpriteSheet)
        ensures
            r.cells@ == self.cells@,
            r.wf() == self.wf(),
    {
        let mut cells: Vec<SheetEntry> = Vec::new();
        let n = self.cells.len();
        let mut i: usize = 0;
        while i < n
            invariant
                n == self.cells@.len(),
                0 <= i <= n,
                cells@ =~= self.cells@.take(i as int),
            decreases n - i,
        {
            cells.push(self.cells[i]);
            i = i + 1;
        }
        proof {
            assert(cells@ =~= self.cells@);
        }
        SpriteSheet { cells }
    }
}

/// A cell found in a well-formed sheet is itself well formed.
pub proof fn lemma_lookup_wf(entries: Seq<SheetEntry>, name: CellName)
    requires
        forall|i: int| 0 <= i < entries.len() ==> wf_cell((#[trigger] entries[i]).cell),
    ensures
        spec_lookup(entries, name) matches Some(c) ==> wf_cell(c),
    decreases entries.len(),
{
    if entries.len() > 0 && entries[0].name != name {
        assert(forall|i: int|
            0 <= i < entries.drop_first().len() ==> wf_cell(
                (#[trigger] entries.drop_first()[i]).cell,
            ));
        lemma_lookup_wf(entries.drop_first(), name);
    }
}

} // verus!
