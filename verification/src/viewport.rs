//! The viewport: a pan offset and a zoom factor, and the two maps between
//! graph space and screen space that they define.
//!
//! The zoom factor is kept in thousandths: 1000 (`ZOOM_UNIT`) is the factor
//! 1.0, and the factor always lies between 100 (`ZOOM_MIN`, 0.1) and 5000
//! (`ZOOM_MAX`, 5.0). The pan offset is the screen position of the graph's
//! origin. The models below write these numbers out, which keeps their
//! arithmetic linear wherever the zoom factor is a given number.

use vstd::prelude::*;
use crate::geometry::{
    clamp_coord, clamp_to_coord, div_round, lemma_round_div_bounds, mul_wide, round_div, Point,
};

verus! {

/// The zoom factor 1.0.
pub const ZOOM_UNIT: u32 = 1000;

/// The smallest zoom factor, 0.1.
pub const ZOOM_MIN: u32 = 100;

/// The largest zoom factor, 5.0.
pub const ZOOM_MAX: u32 = 5000;

/// The zoom factor nearest to `z` that is allowed.
pub open spec fn clamp_zoom(z: int) -> int {
    if z < 100 {
        100
    } else if z > 5000 {
        5000
    } else {
        z
    }
}

/// What a `Viewport` stands for in contracts.
pub struct ViewportModel {
    /// Screen position of the graph's origin.
    pub pan: Point,
    /// Zoom factor in thousandths.
    pub zoom: int,
}

impl ViewportModel {
    /// The zoom factor is within its bounds.
    pub open spec fn wf(self) -> bool {
        100 <= self.zoom <= 5000
    }

    /// The viewport that nothing has moved yet: no pan, zoom 1.0.
    pub open spec fn initial() -> ViewportModel {
        ViewportModel { pan: Point { x: 0, y: 0 }, zoom: 1000 }
    }

    /// One coordinate of a screen point, taken to graph space:
    /// `(s - pan) / zoom`, rounded to the nearest pixel. At the zoom factor
    /// 1.0 that is `s - pan` as it stands, and the division is left out.
    #[verifier::inline]
    pub open spec fn graph_coord(self, s: int, pan: int) -> int {
        if self.zoom == 1000 {
            s - pan
        } else {
            round_div((s - pan) * 1000, self.zoom)
        }
    }

    /// One coordinate of a graph point, as a displacement on screen from the
    /// graph's origin: `g * zoom`, rounded to the nearest pixel. At the zoom
    /// factor 1.0 that is `g` as it stands.
    #[verifier::inline]
    pub open spec fn screen_offset(self, g: int) -> int {
        if self.zoom == 1000 {
            g
        } else {
            round_div(g * self.zoom, 1000)
        }
    }

    /// The graph-space point under the screen point `p`.
    pub open spec fn to_graph(self, p: Point) -> Point {
        Point {
            x: clamp_coord(self.graph_coord(p.x as int, self.pan.x as int)),
            y: clamp_coord(self.graph_coord(p.y as int, self.pan.y as int)),
        }
    }

    /// The screen point at which the graph-space point `g` is shown.
    pub open spec fn to_screen(self, g: Point) -> Point {
        Point {
            x: clamp_coord(self.screen_offset(g.x as int) + self.pan.x),
            y: clamp_coord(self.screen_offset(g.y as int) + self.pan.y),
        }
    }

    /// The length on screen of the graph-space length `length`.
    pub open spec fn length_on_screen(self, length: int) -> i64 {
        clamp_coord(self.screen_offset(length))
    }

    /// Whether the graph-space point under `p` has coordinates that fit in
    /// an `i64`, so that `to_graph` gives it without saturating.
    pub open spec fn reaches(self, p: Point) -> bool {
        &&& i64::MIN <= self.graph_coord(p.x as int, self.pan.x as int) <= i64::MAX
        &&& i64::MIN <= self.graph_coord(p.y as int, self.pan.y as int) <= i64::MAX
    }

    /// The zoom factor multiplied by `num / den` and brought back into its
    /// bounds; the pan offset stays.
    #[verifier::inline]
    pub open spec fn scaled(self, num: int, den: int) -> ViewportModel {
        ViewportModel { zoom: clamp_zoom(round_div(self.zoom * num, den)), ..self }
    }

    /// The pan offset moved by `delta`; the zoom factor stays.
    pub open spec fn panned(self, delta: Point) -> ViewportModel {
        ViewportModel { pan: self.pan.spec_plus(delta), ..self }
    }

    /// After one press of the zoom-in button: zoom times 1.2, that is 6/5.
    pub open spec fn zoomed_in(self) -> ViewportModel {
        self.scaled(6, 5)
    }

    /// After one press of the zoom-out button: zoom divided by 1.2.
    pub open spec fn zoomed_out(self) -> ViewportModel {
        self.scaled(5, 6)
    }

    /// Whether a scroll by `delta` is a pan: it is one where it has no
    /// vertical part, or where it is mostly horizontal, its horizontal part
    /// being the greater of the two in magnitude.
    pub open spec fn scroll_pans(delta: Point) -> bool {
        let dx = if delta.x < 0 {
            -delta.x
        } else {
            delta.x as int
        };
        let dy = if delta.y < 0 {
            -delta.y
        } else {
            delta.y as int
        };
        delta.y == 0 || dx > dy
    }

    /// After a scroll by `delta`. A scroll that is a pan adds `delta`, both
    /// of its parts, to the pan offset. Any other scroll zooms by the
    /// factor 1.1, that is 11/10: in for a positive vertical part, out for
    /// a negative one.
    pub open spec fn scrolled(self, delta: Point) -> ViewportModel {
        if Self::scroll_pans(delta) {
            self.panned(delta)
        } else if delta.y > 0 {
            self.scaled(11, 10)
        } else {
            self.scaled(10, 11)
        }
    }

    /// Zoom 1.0, and the pan offset that puts the graph-space point
    /// `(center_x, center_y)` in the middle of a viewport of `width` by
    /// `height`.
    pub open spec fn centered(center_x: int, center_y: int, width: int, height: int)
        -> ViewportModel {
        ViewportModel {
            pan: Point {
                x: clamp_coord(width / 2 - center_x),
                y: clamp_coord(height / 2 - center_y),
            },
            zoom: 1000,
        }
    }

    /// Whether the screen point `q` is where the screen point `p` comes
    /// back after a trip to graph space: within `round_trip_error()` pixels
    /// of `p` in each coordinate, and `p` itself at zoom factors up to 1.0.
    pub open spec fn is_near(self, q: Point, p: Point) -> bool {
        &&& -self.round_trip_error() <= q.x - p.x <= self.round_trip_error()
        &&& -self.round_trip_error() <= q.y - p.y <= self.round_trip_error()
        &&& self.zoom <= 1000 ==> q == p
    }

    /// How far a screen coordinate can come back from its true place after
    /// a trip to graph space and back: less than half the zoom factor plus
    /// half a pixel. That is nothing at zoom factors up to 1.0, one pixel
    /// up to 3.0, and two pixels up to the largest, 5.0. A graph-space
    /// pixel covers as many screen pixels as the zoom factor says, and the
    /// nearest one can be half of that away.
    pub open spec fn round_trip_error(self) -> int {
        (self.zoom + 999) / 2000
    }
}

/// A pan offset and a zoom factor within `[ZOOM_MIN, ZOOM_MAX]`.
#[derive(Clone, Copy, Debug)]
pub struct Viewport {
    pan: Point,
    zoom: u32,
}

impl View for Viewport {
    type V = ViewportModel;

    closed spec fn view(&self) -> ViewportModel {
        ViewportModel { pan: self.pan, zoom: self.zoom as int }
    }
}

impl Viewport {
    /// Every viewport has its zoom factor within the bounds.
    #[verifier::type_invariant]
    pub open spec fn inv(self) -> bool {
        self@.wf()
    }

    /// The viewport with no pan and zoom 1.0.
    pub fn new() -> (v: Viewport)
        ensures
            v@ == ViewportModel::initial(),
    {
        Viewport { pan: Point { x: 0, y: 0 }, zoom: ZOOM_UNIT }
    }

    /// The viewport with the pan offset `pan` and the allowed zoom factor
    /// nearest to `zoom`.
    pub fn with(pan: Point, zoom: u32) -> (v: Viewport)
        ensures
            v@ == (ViewportModel { pan, zoom: clamp_zoom(zoom as int) }),
    {
        let z: u32 = if zoom < ZOOM_MIN {
            ZOOM_MIN
        } else if zoom > ZOOM_MAX {
            ZOOM_MAX
        } else {
            zoom
        };
        Viewport { pan, zoom: z }
    }

    pub fn pan(&self) -> (p: Point)
        ensures
            p == self@.pan,
    {
        self.pan
    }

    /// The zoom factor in thousandths.
    pub fn zoom(&self) -> (z: u32)
        ensures
            z == self@.zoom,
            ZOOM_MIN <= z <= ZOOM_MAX,
            self@.wf(),
    {
        proof {
            use_type_invariant(self);
        }
        self.zoom
    }

    /// The graph-space point under the screen point `p`:
    /// `(p - pan) / zoom`, each coordinate rounded to the nearest pixel.
    pub fn to_graph(&self, p: Point) -> (g: Point)
        ensures
            g == self@.to_graph(p),
    {
        proof {
            use_type_invariant(self);
            lemma_unit_zoom_divides_by_one(p.x - self.pan.x);
            lemma_unit_zoom_divides_by_one(p.y - self.pan.y);
        }
        let zoom: i128 = self.zoom as i128;
        let dx: i128 = mul_wide(p.x as i128 - self.pan.x as i128, ZOOM_UNIT as i128);
        let dy: i128 = mul_wide(p.y as i128 - self.pan.y as i128, ZOOM_UNIT as i128);
        Point { x: clamp_to_coord(div_round(dx, zoom)), y: clamp_to_coord(div_round(dy, zoom)) }
    }

    /// The screen point at which the graph-space point `g` is shown:
    /// `g * zoom + pan`, each coordinate rounded to the nearest pixel.
    pub fn to_screen(&self, g: Point) -> (p: Point)
        ensures
            p == self@.to_screen(g),
    {
        proof {
            use_type_invariant(self);
        }
        let sx: i128 = scale_coord(g.x, self.zoom) + self.pan.x as i128;
        let sy: i128 = scale_coord(g.y, self.zoom) + self.pan.y as i128;
        Point { x: clamp_to_coord(sx), y: clamp_to_coord(sy) }
    }

    /// The length on screen of the graph-space length `length`:
    /// `length * zoom`, rounded to the nearest pixel.
    pub fn length_on_screen(&self, length: i64) -> (s: i64)
        ensures
            s == self@.length_on_screen(length as int),
    {
        proof {
            use_type_invariant(self);
        }
        clamp_to_coord(scale_coord(length, self.zoom))
    }

    /// Multiplies the zoom factor by `num / den` and clamps it.
    fn scale(&mut self, num: u32, den: u32)
        requires
            0 < num <= 1000,
            0 < den <= 1000,
        ensures
            final(self)@ == old(self)@.scaled(num as int, den as int),
            final(self)@.wf(),
    {
        proof {
            use_type_invariant(&*self);
        }
        let scaled: i128 = div_round(mul_wide(self.zoom as i128, num as i128), den as i128);
        self.zoom = if scaled < ZOOM_MIN as i128 {
            ZOOM_MIN
        } else if scaled > ZOOM_MAX as i128 {
            ZOOM_MAX
        } else {
            scaled as u32
        };
    }

    /// One press of the zoom-in button: zoom times 1.2, clamped.
    pub fn zoom_in(&mut self)
        ensures
            final(self)@ == old(self)@.zoomed_in(),
            final(self)@.wf(),
    {
        self.scale(6, 5);
    }

    /// One press of the zoom-out button: zoom divided by 1.2, clamped.
    pub fn zoom_out(&mut self)
        ensures
            final(self)@ == old(self)@.zoomed_out(),
            final(self)@.wf(),
    {
        self.scale(5, 6);
    }

    /// Moves the pan offset by `delta`.
    pub fn pan_by(&mut self, delta: Point)
        ensures
            final(self)@ == old(self)@.panned(delta),
            final(self)@.wf(),
    {
        proof {
            use_type_invariant(&*self);
        }
        self.pan = self.pan.plus(delta);
    }

    /// Resets the zoom factor to 1.0 and pans so that the graph-space point
    /// `(center_x, center_y)` comes to the middle of a viewport of `width`
    /// by `height` pixels.
    pub(crate) fn center_on(&mut self, center_x: i128, center_y: i128, width: u32, height: u32)
        requires
            -0x2_0000_0000_0000_0000 <= center_x <= 0x2_0000_0000_0000_0000,
            -0x2_0000_0000_0000_0000 <= center_y <= 0x2_0000_0000_0000_0000,
        ensures
            final(self)@ == ViewportModel::centered(
                center_x as int,
                center_y as int,
                width as int,
                height as int,
            ),
            final(self)@.wf(),
    {
        let pan = Point {
            x: clamp_to_coord((width / 2) as i128 - center_x),
            y: clamp_to_coord((height / 2) as i128 - center_y),
        };
        *self = Viewport { pan, zoom: ZOOM_UNIT };
    }

    /// A scroll by `delta` pixels. Without a vertical part, or with a
    /// horizontal part that is the greater in magnitude, it pans by
    /// `delta`. Otherwise it zooms by the factor 1.1 (in if the vertical
    /// part is positive, out if negative) and clamps.
    pub fn scroll(&mut self, delta: Point)
        ensures
            final(self)@ == old(self)@.scrolled(delta),
            final(self)@.wf(),
            ViewportModel::scroll_pans(delta) ==> final(self)@.zoom == old(self)@.zoom
                && final(self)@.pan == old(self)@.pan.spec_plus(delta),
            !ViewportModel::scroll_pans(delta) ==> final(self)@.pan == old(self)@.pan,
    {
        let dx: i128 = if delta.x < 0 {
            -(delta.x as i128)
        } else {
            delta.x as i128
        };
        let dy: i128 = if delta.y < 0 {
            -(delta.y as i128)
        } else {
            delta.y as i128
        };
        if delta.y == 0 || dx > dy {
            self.pan_by(delta);
        } else if delta.y > 0 {
            self.scale(11, 10);
        } else {
            self.scale(10, 11);
        }
    }
}

/// One coordinate's trip from the screen to graph space and back, as
/// displacements from the pan offset: it ends within `(zoom + 999) / 2000`
/// of where it began, which is exactly there at zoom factors up to 1.0.
pub proof fn lemma_round_trip_coord(d: int, zoom: int)
    requires
        100 <= zoom <= 5000,
    ensures
        ({
            let g = round_div(d * 1000, zoom);
            let s = round_div(g * zoom, 1000);
            &&& -((zoom + 999) / 2000) <= s - d <= (zoom + 999) / 2000
            &&& zoom <= 1000 ==> s == d
        }),
{
    let g = round_div(d * 1000, zoom);
    let m = g * zoom;
    lemma_round_div_bounds(d * 1000, zoom);
    lemma_round_div_bounds(m, 1000);
    assert(2 * zoom * g == 2 * m) by (nonlinear_arith)
        requires
            m == g * zoom,
    ;
    // Where half the zoom factor plus half a pixel is a whole number, the
    // two roundings cannot both go all the way: that would take half a
    // graph-space pixel, which no screen coordinate is away from one.
    if zoom == 1000 || zoom == 3000 || zoom == 5000 {
        let k = zoom / 1000;
        assert(m == 1000 * (k * g)) by (nonlinear_arith)
            requires
                m == g * zoom,
                zoom == 1000 * k,
        ;
        assert(2 * (k * g) <= 2 * d + k);
        assert(2 * (k * g) != 2 * d + k);
    }
}

/// Division by the zoom factor 1.0 changes nothing, and neither does
/// multiplication by it: the case that the maps leave out agrees with the
/// rounded division of the other cases.
pub proof fn lemma_unit_zoom_divides_by_one(d: int)
    ensures
        round_div(d * 1000, 1000) == d,
{
}

/// How far from the pan offset a screen coordinate may lie for its graph
/// coordinate to fit in an `i64` at every zoom factor: a tenth of the
/// range, since the smallest zoom factor is 0.1.
pub open spec fn reach() -> int {
    900_000_000_000_000_000
}

/// Every screen point within `reach()` pixels of the pan offset, in each
/// coordinate, has a graph-space point whose coordinates fit in an `i64`.
pub proof fn lemma_reaches(v: ViewportModel, p: Point)
    requires
        v.wf(),
        -reach() <= p.x - v.pan.x <= reach(),
        -reach() <= p.y - v.pan.y <= reach(),
    ensures
        v.reaches(p),
{
    lemma_graph_coord_fits(p.x - v.pan.x, v.zoom);
    lemma_graph_coord_fits(p.y - v.pan.y, v.zoom);
}

/// A displacement of at most `reach()` pixels on screen is one of at most
/// ten times as many in graph space, whatever the zoom factor.
proof fn lemma_graph_coord_fits(d: int, zoom: int)
    requires
        100 <= zoom <= 5000,
        -reach() <= d <= reach(),
    ensures
        -10 * reach() <= round_div(d * 1000, zoom) <= 10 * reach(),
{
    let q = round_div(d * 1000, zoom);
    lemma_round_div_bounds(d * 1000, zoom);
    assert(-10 * reach() <= q <= 10 * reach()) by (nonlinear_arith)
        requires
            100 <= zoom <= 5000,
            -reach() <= d <= reach(),
            reach() == 900_000_000_000_000_000,
            2 * zoom * q <= 2 * (d * 1000) + zoom < 2 * zoom * q + 2 * zoom,
    ;
}

/// A trip from the screen to graph space and back ends where it began, to
/// within `round_trip_error()` pixels in each coordinate, and exactly there
/// at zoom factors up to 1.0. This holds of every screen point whose
/// graph-space point has coordinates that fit in an `i64`; by
/// `lemma_reaches` these are at least the points within `reach()` pixels of
/// the pan offset.
pub proof fn lemma_round_trip(v: ViewportModel, p: Point)
    requires
        v.wf(),
        v.reaches(p),
    ensures
        v.is_near(v.to_screen(v.to_graph(p)), p),
        ({
            let q = v.to_screen(v.to_graph(p));
            &&& -v.round_trip_error() <= q.x - p.x <= v.round_trip_error()
            &&& -v.round_trip_error() <= q.y - p.y <= v.round_trip_error()
            &&& v.zoom <= ZOOM_UNIT ==> q == p
        }),
{
    lemma_round_trip_coord(p.x - v.pan.x, v.zoom);
    lemma_round_trip_coord(p.y - v.pan.y, v.zoom);
}

/// The same, of points given by where they lie: a trip from the screen to
/// graph space and back ends where it began, to within
/// `round_trip_error()` pixels and exactly at zoom factors up to 1.0, for
/// every zoom factor within the bounds and every screen point within
/// `reach()` pixels of the pan offset.
pub proof fn lemma_round_trip_within_reach(v: ViewportModel, p: Point)
    requires
        v.wf(),
        -reach() <= p.x - v.pan.x <= reach(),
        -reach() <= p.y - v.pan.y <= reach(),
    ensures
        v.is_near(v.to_screen(v.to_graph(p)), p),
{
    lemma_reaches(v, p);
    lemma_round_trip(v, p);
}

/// Whatever the zoom buttons, the scroll wheel and panning do to a viewport
/// whose zoom factor is within `[ZOOM_MIN, ZOOM_MAX]`, the factor stays
/// within these bounds.
pub proof fn lemma_zoom_stays_in_bounds(v: ViewportModel, delta: Point)
    requires
        v.wf(),
    ensures
        v.zoomed_in().wf(),
        v.zoomed_out().wf(),
        v.scrolled(delta).wf(),
        v.panned(delta).wf(),
{
}

/// `g * zoom`, rounded to the nearest pixel.
fn scale_coord(g: i64, zoom: u32) -> (s: i128)
    requires
        zoom <= ZOOM_MAX,
    ensures
        s == if zoom == 1000 {
            g as int
        } else {
            round_div(g * zoom, 1000)
        },
        -0x2_0000_0000_0000_0000_0000 <= s <= 0x2_0000_0000_0000_0000_0000,
{
    proof {
        lemma_unit_zoom_divides_by_one(g as int);
    }
    div_round(mul_wide(g as i128, zoom as i128), ZOOM_UNIT as i128)
}

} // verus!
