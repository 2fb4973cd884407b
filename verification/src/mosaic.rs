//! The polarizer mosaic and the sampler that walks a frame one super-pixel
//! at a time.

use crate::frame::FrameView;
use vstd::prelude::*;

verus! {

/// The four orientations of the linear polarizers.
#[derive(Clone, Copy, Debug, PartialEq, Eq, Structural)]
pub enum PolarizerAngle {
    Deg000,
    Deg045,
    Deg090,
    Deg135,
}

/// A place inside a super-pixel: `dx` columns to the right of its top-left
/// sample and `dy` rows below it.
#[derive(Clone, Copy, Debug, PartialEq, Eq, Structural)]
pub struct SubOffset {
    pub dx: u8,
    pub dy: u8,
}

impl SubOffset {
    /// The offset stays inside the 2×2 super-pixel.
    pub open spec fn in_cell(self) -> bool {
        self.dx <= 1 && self.dy <= 1
    }
}

/// The four samples of one super-pixel, named by polarizer angle.
#[derive(Clone, Copy, Debug, PartialEq, Eq, Structural)]
pub struct Quad {
    pub i000: u8,
    pub i045: u8,
    pub i090: u8,
    pub i135: u8,
}

/// The mathematical content of a layout: where each angle sits.
pub struct LayoutView {
    pub o000: SubOffset,
    pub o045: SubOffset,
    pub o090: SubOffset,
    pub o135: SubOffset,
}

impl LayoutView {
    /// Every angle sits inside the super-pixel, and no two angles share a
    /// place: the four places of the super-pixel carry the four angles.
    pub open spec fn wf(self) -> bool {
        &&& self.o000.in_cell()
        &&& self.o045.in_cell()
        &&& self.o090.in_cell()
        &&& self.o135.in_cell()
        &&& self.o000 != self.o045
        &&& self.o000 != self.o090
        &&& self.o000 != self.o135
        &&& self.o045 != self.o090
        &&& self.o045 != self.o135
        &&& self.o090 != self.o135
    }

    /// Where the polarizer of the given angle sits.
    pub open spec fn offset_of(self, angle: PolarizerAngle) -> SubOffset {
        match angle {
            PolarizerAngle::Deg000 => self.o000,
            PolarizerAngle::Deg045 => self.o045,
            PolarizerAngle::Deg090 => self.o090,
            PolarizerAngle::Deg135 => self.o135,
        }
    }

    /// The angle of the polarizer that sits at `place`.
    pub open spec fn angle_at(self, place: SubOffset) -> PolarizerAngle {
        if place == self.o000 {
            PolarizerAngle::Deg000
        } else if place == self.o045 {
            PolarizerAngle::Deg045
        } else if place == self.o090 {
            PolarizerAngle::Deg090
        } else {
            PolarizerAngle::Deg135
        }
    }
}

/// The layout of the sensor: 90° top left, 135° top right, 45° bottom left
/// and 0° bottom right.
pub open spec fn standard_layout() -> LayoutView {
    LayoutView {
        o000: SubOffset { dx: 1, dy: 1 },
        o045: SubOffset { dx: 0, dy: 1 },
        o090: SubOffset { dx: 0, dy: 0 },
        o135: SubOffset { dx: 1, dy: 0 },
    }
}

/// The sample of one polarizer in the super-pixel at column `cell_col` and
/// row `cell_row` of the grid of super-pixels.
pub open spec fn sample_under(frame: FrameView, place: SubOffset, cell_col: int, cell_row: int) -> u8 {
    frame.sample(2 * cell_col + place.dx, 2 * cell_row + place.dy)
}

/// The four samples of the super-pixel at column `cell_col` and row
/// `cell_row` of the grid of super-pixels.
pub open spec fn quad_of(frame: FrameView, layout: LayoutView, cell_col: int, cell_row: int) -> Quad {
    Quad {
        i000: sample_under(frame, layout.o000, cell_col, cell_row),
        i045: sample_under(frame, layout.o045, cell_col, cell_row),
        i090: sample_under(frame, layout.o090, cell_col, cell_row),
        i135: sample_under(frame, layout.o135, cell_col, cell_row),
    }
}

/// All super-pixels of a frame, row by row. A frame narrower or lower than
/// one super-pixel has none; an odd last column or row is left out.
pub open spec fn quads_of(frame: FrameView, layout: LayoutView) -> Seq<Quad> {
    Seq::new(
        frame.cell_count(),
        |k: int| quad_of(frame, layout, k % (frame.cell_cols() as int), k / (frame.cell_cols() as int)),
    )
}

/// Assignment of the four polarizer angles to the four places of a
/// super-pixel.
#[derive(Clone, Copy, Debug, PartialEq, Eq)]
pub struct MosaicLayout {
    o000: SubOffset,
    o045: SubOffset,
    o090: SubOffset,
    o135: SubOffset,
}

impl View for MosaicLayout {
    type V = LayoutView;

    closed spec fn view(&self) -> LayoutView {
        LayoutView { o000: self.o000, o045: self.o045, o090: self.o090, o135: self.o135 }
    }
}

impl MosaicLayout {
    #[verifier::type_invariant]
    spec fn inv(self) -> bool {
        self@.wf()
    }

    /// The layout that puts each angle at the given place. Refused unless
    /// the places lie inside the super-pixel and differ from each other.
    pub fn new(o000: SubOffset, o045: SubOffset, o090: SubOffset, o135: SubOffset) -> (layout: Option<MosaicLayout>)
        ensures
            layout is Some <==> (LayoutView { o000, o045, o090, o135 }).wf(),
            layout matches Some(l) ==> l@ == (LayoutView { o000, o045, o090, o135 }),
    {
        let inside = o000.dx <= 1 && o000.dy <= 1 && o045.dx <= 1 && o045.dy <= 1 && o090.dx <= 1
            && o090.dy <= 1 && o135.dx <= 1 && o135.dy <= 1;
        let apart = o000 != o045 && o000 != o090 && o000 != o135 && o045 != o090 && o045 != o135
            && o090 != o135;
        if inside && apart {
            Some(MosaicLayout { o000, o045, o090, o135 })
        } else {
            None
        }
    }

    /// The layout of the sensor.
    pub fn standard() -> (layout: MosaicLayout)
        ensures
            layout@ == standard_layout(),
    {
        MosaicLayout {
            o000: SubOffset { dx: 1, dy: 1 },
            o045: SubOffset { dx: 0, dy: 1 },
            o090: SubOffset { dx: 0, dy: 0 },
            o135: SubOffset { dx: 1, dy: 0 },
        }
    }

    /// Where the polarizer of the given angle sits.
    pub fn offset_of(&self, angle: PolarizerAngle) -> (place: SubOffset)
        ensures
            self@.wf(),
            place == self@.offset_of(angle),
            place.in_cell(),
    {
        proof {
            use_type_invariant(self);
        }
        match angle {
            PolarizerAngle::Deg000 => self.o000,
            PolarizerAngle::Deg045 => self.o045,
            PolarizerAngle::Deg090 => self.o090,
            PolarizerAngle::Deg135 => self.o135,
        }
    }

    /// The angle of the polarizer at `place`, if `place` lies inside the
    /// super-pixel.
    pub fn angle_at(&self, place: SubOffset) -> (angle: Option<PolarizerAngle>)
        ensures
            self@.wf(),
            angle is Some <==> place.in_cell(),
            angle matches Some(a) ==> a == self@.angle_at(place) && self@.offset_of(a) == place,
    {
        proof {
            use_type_invariant(self);
            if place.in_cell() {
                lemma_places_covered(self@, place);
            }
        }
        if place.dx > 1 || place.dy > 1 {
            None
        } else if place == self.o000 {
            Some(PolarizerAngle::Deg000)
        } else if place == self.o045 {
            Some(PolarizerAngle::Deg045)
        } else if place == self.o090 {
            Some(PolarizerAngle::Deg090)
        } else {
            Some(PolarizerAngle::Deg135)
        }
    }
}

/// In a well-formed layout every place of the super-pixel carries an angle.
pub proof fn lemma_places_covered(layout: LayoutView, place: SubOffset)
    requires
        layout.wf(),
        place.in_cell(),
    ensures
        layout.offset_of(layout.angle_at(place)) == place,
{
    let code = |o: SubOffset| 2 * o.dy + o.dx;
    assert(0 <= code(layout.o000) <= 3);
    assert(0 <= code(layout.o045) <= 3);
    assert(0 <= code(layout.o090) <= 3);
    assert(0 <= code(layout.o135) <= 3);
    assert(forall|a: SubOffset, b: SubOffset|
        a.in_cell() && b.in_cell() && code(a) == code(b) ==> a == b);
}

} // verus!
