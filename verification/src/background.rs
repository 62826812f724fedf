//! The background grid: what to draw behind the graph, as numbers. Drawing
//! is the host's part.

use vstd::prelude::*;

verus! {

/// The pattern of the grid.
#[derive(Clone, Copy, Debug, PartialEq, Eq, Structural)]
pub enum BackgroundVariant {
    /// Horizontal and vertical lines.
    Lines,
    /// A dot at each crossing.
    Dots,
    /// A small cross at each crossing.
    Cross,
}

/// How the grid looks.
#[derive(Clone, Copy, Debug, PartialEq, Eq, Structural)]
pub struct BackgroundProps {
    pub variant: BackgroundVariant,
    /// Distance between neighbouring grid lines, in pixels.
    pub gap: u32,
    /// Colour as `0xRRGGBB`.
    pub color: u32,
    /// Width of a line or of a cross's strokes, in pixels; a dot's radius.
    pub size: u32,
}

impl Default for BackgroundProps {
    /// Grey dots of one pixel, twenty pixels apart.
    fn default() -> (props: BackgroundProps)
        ensures
            props == (BackgroundProps {
                variant: BackgroundVariant::Dots,
                gap: 20,
                color: 0x666666,
                size: 1,
            }),
    {
        BackgroundProps { variant: BackgroundVariant::Dots, gap: 20, color: 0x666666, size: 1 }
    }
}

impl BackgroundProps {
    /// The radius of a dot: `size`, and one pixel at least.
    pub open spec fn spec_dot_radius(self) -> u32 {
        if self.size < 1 {
            1
        } else {
            self.size
        }
    }

    /// How far each arm of a cross reaches from the crossing: three times
    /// `size`.
    pub open spec fn spec_cross_arm(self) -> u64 {
        (3 * self.size) as u64
    }

    #[verifier::when_used_as_spec(spec_dot_radius)]
    pub fn dot_radius(self) -> (r: u32)
        ensures
            r == self.spec_dot_radius(),
    {
        if self.size < 1 {
            1
        } else {
            self.size
        }
    }

    #[verifier::when_used_as_spec(spec_cross_arm)]
    pub fn cross_arm(self) -> (arm: u64)
        ensures
            arm == self.spec_cross_arm(),
    {
        3 * (self.size as u64)
    }
}

/// The places of the grid lines along one axis of `extent` pixels: 0, `gap`,
/// twice `gap` and so on, as far as `extent` itself. There is no grid
/// without a gap.
pub open spec fn grid_places(extent: u32, gap: u32) -> Seq<u32> {
    if gap == 0 {
        Seq::empty()
    } else {
        Seq::new((extent / gap + 1) as nat, |i: int| (i * gap) as u32)
    }
}

/// The places of the grid lines along one axis of `extent` pixels.
pub fn grid_offsets(extent: u32, gap: u32) -> (places: Vec<u32>)
    ensures
        places@ == grid_places(extent, gap),
{
    let mut places: Vec<u32> = Vec::new();
    if gap == 0 {
        return places;
    }
    let count: u64 = (extent / gap) as u64;
    let mut i: u64 = 0;
    while i <= count
        invariant
            gap > 0,
            count == extent / gap,
            0 <= i <= count + 1,
            places@.len() == i,
            forall|j: int| 0 <= j < i ==> places@[j] == j * gap,
        decreases count + 1 - i,
    {
        assert(i * gap <= extent) by (nonlinear_arith)
            requires
                i <= count,
                count == extent / gap,
                gap > 0,
        ;
        places.push((i * gap as u64) as u32);
        i += 1;
    }
    assert(places@ =~= grid_places(extent, gap));
    places
}

} // verus!
