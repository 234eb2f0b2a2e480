//! Radial layout engine: projects labeled points on concentric rings into a
//! rectangular coordinate space.
//!
//! Angles are degrees from the positive horizontal axis, counter-clockwise,
//! restricted to the 30-degree steps of the twelve clock positions of the
//! diagram. Coordinates are fixed-point: one unit of the drawing space is
//! `COORD_SCALE` in these integers, so `x = r * cos(a) - len/2` becomes
//! `x_scaled = r * cos_scaled(a) - len * HALF_COORD_SCALE`. Each point is a
//! pure function of its entry; the engine keeps no state and does not clip:
//! discarding off-canvas draws is the rendering surface's concern.

use vstd::prelude::*;
use vstd::string::StrSliceExecFns;

verus! {

/// Fixed-point scale: this many integer steps make one unit of the
/// drawing space.
pub const COORD_SCALE: i64 = 1000000;

/// Half of `COORD_SCALE`, used to center a label on its anchor point.
pub const HALF_COORD_SCALE: i64 = 500000;

/// Radius of the outer ring, which carries the major keys.
pub const MAJOR_RADIUS: u16 = 180;

/// Radius of the inner ring, which carries the minor keys.
pub const MINOR_RADIUS: u16 = 140;

/// Radius of the middle ring, which carries the accidental counts.
pub const ACCIDENTAL_RADIUS: u16 = 160;

/// Half-extent of the standard square drawing space, in scaled units:
/// 200 drawing units on each side of the origin.
pub const SPACE_HALF_EXTENT: i64 = 200000000;

/// One of the three concentric rings of the diagram.
#[derive(Clone, Copy, Debug, PartialEq, Eq, Structural)]
pub enum Ring {
    Major,
    Minor,
    Accidental,
}

/// A configured diagram entry: its ring, its angle in degrees, and its
/// label text.
#[derive(Debug)]
pub struct RadialEntry {
    pub ring: Ring,
    pub angle_deg: i32,
    pub label: String,
}

/// A placed label: scaled coordinates of the label's left edge, with the
/// text centered horizontally on its anchor point.
#[derive(Debug)]
pub struct PlacedLabel {
    pub ring: Ring,
    pub x: i64,
    pub y: i64,
    pub label: String,
}

/// The rectangular coordinate domain the points are projected into, in
/// scaled units.
#[derive(Clone, Copy, Debug, PartialEq, Eq, Structural)]
pub struct LayoutSpace {
    pub x_min: i64,
    pub x_max: i64,
    pub y_min: i64,
    pub y_max: i64,
}

impl LayoutSpace {
    /// Whether the point lies inside the space.
    pub open spec fn spec_contains(self, x: int, y: int) -> bool {
        self.x_min <= x <= self.x_max && self.y_min <= y <= self.y_max
    }

    /// The fixed square space of the diagram: 200 drawing units from the
    /// origin on every side.
    pub fn standard() -> (s: Self)
        ensures
            s.x_min == -SPACE_HALF_EXTENT,
            s.x_max == SPACE_HALF_EXTENT,
            s.y_min == -SPACE_HALF_EXTENT,
            s.y_max == SPACE_HALF_EXTENT,
    {
        LayoutSpace {
            x_min: -SPACE_HALF_EXTENT,
            x_max: SPACE_HALF_EXTENT,
            y_min: -SPACE_HALF_EXTENT,
            y_max: SPACE_HALF_EXTENT,
        }
    }

    /// Point-in-space test; the engine itself never clips, so this is for
    /// a rendering surface that wants to discard off-canvas draws.
    pub fn contains(&self, x: i64, y: i64) -> (b: bool)
        ensures
            b == self.spec_contains(x as int, y as int),
    {
        self.x_min <= x && x <= self.x_max && self.y_min <= y && y <= self.y_max
    }
}

/// An angle the engine accepts: one full turn in either direction, at the
/// 30-degree steps of the twelve clock positions.
pub open spec fn valid_angle(deg: int) -> bool {
    -360 <= deg < 360 && deg % 30 == 0
}

/// The angle folded into [0, 360), for angles within one turn.
pub open spec fn norm_deg(deg: int) -> int {
    if deg < 0 {
        deg + 360
    } else {
        deg
    }
}

/// Cosine of the angle, scaled by `COORD_SCALE` and rounded toward zero.
pub open spec fn cos_scaled(deg: int) -> int {
    let d = norm_deg(deg);
    if d == 0 {
        1000000
    } else if d == 30 {
        866025
    } else if d == 60 {
        500000
    } else if d == 90 {
        0
    } else if d == 120 {
        -500000
    } else if d == 150 {
        -866025
    } else if d == 180 {
        -1000000
    } else if d == 210 {
        -866025
    } else if d == 240 {
        -500000
    } else if d == 270 {
        0
    } else if d == 300 {
        500000
    } else {
        866025
    }
}

/// Sine of the angle, scaled by `COORD_SCALE` and rounded toward zero.
pub open spec fn sin_scaled(deg: int) -> int {
    let d = norm_deg(deg);
    if d == 0 {
        0
    } else if d == 30 {
        500000
    } else if d == 60 {
        866025
    } else if d == 90 {
        1000000
    } else if d == 120 {
        866025
    } else if d == 150 {
        500000
    } else if d == 180 {
        0
    } else if d == 210 {
        -500000
    } else if d == 240 {
        -866025
    } else if d == 270 {
        -1000000
    } else if d == 300 {
        -866025
    } else {
        -500000
    }
}

/// Horizontal anchor coordinate of a point on a ring, in scaled units:
/// `radius * cos(angle)`.
pub open spec fn anchor_x(radius: int, deg: int) -> int {
    radius * cos_scaled(deg)
}

/// Vertical coordinate of a point on a ring, in scaled units:
/// `radius * sin(angle)`.
pub open spec fn anchor_y(radius: int, deg: int) -> int {
    radius * sin_scaled(deg)
}

/// Horizontal coordinate of the label's left edge: the anchor shifted left
/// by half the label length, so the text is centered on the anchor.
pub open spec fn placed_x(radius: int, deg: int, label_len: int) -> int {
    anchor_x(radius, deg) - label_len * HALF_COORD_SCALE
}

/// The radius each ring was configured with.
pub open spec fn spec_ring_radius(r: Ring) -> int {
    match r {
        Ring::Major => MAJOR_RADIUS as int,
        Ring::Minor => MINOR_RADIUS as int,
        Ring::Accidental => ACCIDENTAL_RADIUS as int,
    }
}

/// The radius each ring was configured with.
pub fn ring_radius(r: Ring) -> (n: u16)
    ensures
        n as int == spec_ring_radius(r),
{
    match r {
        Ring::Major => MAJOR_RADIUS,
        Ring::Minor => MINOR_RADIUS,
        Ring::Accidental => ACCIDENTAL_RADIUS,
    }
}

/// Scaled cosine of a valid angle.
pub fn cos_lookup(deg: i32) -> (c: i64)
    requires
        valid_angle(deg as int),
    ensures
        c as int == cos_scaled(deg as int),
        -1000000 <= c <= 1000000,
{
    let d: i32 = if deg < 0 {
        deg + 360
    } else {
        deg
    };
    if d == 0 {
        1000000
    } else if d == 30 {
        866025
    } else if d == 60 {
        500000
    } else if d == 90 {
        0
    } else if d == 120 {
        -500000
    } else if d == 150 {
        -866025
    } else if d == 180 {
        -1000000
    } else if d == 210 {
        -866025
    } else if d == 240 {
        -500000
    } else if d == 270 {
        0
    } else if d == 300 {
        500000
    } else {
        866025
    }
}

/// Scaled sine of a valid angle.
pub fn sin_lookup(deg: i32) -> (s: i64)
    requires
        valid_angle(deg as int),
    ensures
        s as int == sin_scaled(deg as int),
        -1000000 <= s <= 1000000,
{
    let d: i32 = if deg < 0 {
        deg + 360
    } else {
        deg
    };
    if d == 0 {
        0
    } else if d == 30 {
        500000
    } else if d == 60 {
        866025
    } else if d == 90 {
        1000000
    } else if d == 120 {
        866025
    } else if d == 150 {
        500000
    } else if d == 180 {
        0
    } else if d == 210 {
        -500000
    } else if d == 240 {
        -866025
    } else if d == 270 {
        -1000000
    } else if d == 300 {
        -866025
    } else {
        -500000
    }
}

/// Projects one point: the scaled coordinates where a label of the given
/// length sits on the ring of the given radius at the given angle.
pub fn place_point(radius: u16, angle_deg: i32, label_len: usize) -> (xy: (i64, i64))
    requires
        valid_angle(angle_deg as int),
        label_len <= 1000000,
    ensures
        xy.0 as int == placed_x(radius as int, angle_deg as int, label_len as int),
        xy.1 as int == anchor_y(radius as int, angle_deg as int),
{
    let c = cos_lookup(angle_deg);
    let s = sin_lookup(angle_deg);
    let r = radius as i64;
    assert(-65535 * 1000000 <= r * c <= 65535 * 1000000) by (nonlinear_arith)
        requires
            0 <= r <= 65535,
            -1000000 <= c <= 1000000,
    ;
    assert(-65535 * 1000000 <= r * s <= 65535 * 1000000) by (nonlinear_arith)
        requires
            0 <= r <= 65535,
            -1000000 <= s <= 1000000,
    ;
    let shift = (label_len as i64) * HALF_COORD_SCALE;
    assert(0 <= (label_len as i64) * 500000 <= 1000000 * 500000) by (nonlinear_arith)
        requires
            0 <= label_len as i64 <= 1000000,
    ;
    (r * c - shift, r * s)
}

/// What it means for a placed label to realize a configured entry.
pub open spec fn placed_matches(p: PlacedLabel, e: RadialEntry) -> bool {
    &&& p.ring == e.ring
    &&& p.label@ == e.label@
    &&& p.x as int == placed_x(spec_ring_radius(e.ring), e.angle_deg as int, e.label@.len() as int)
    &&& p.y as int == anchor_y(spec_ring_radius(e.ring), e.angle_deg as int)
}

/// An entry the engine accepts: a valid angle and a label short enough for
/// the arithmetic to stay in range.
pub open spec fn valid_entry(e: RadialEntry) -> bool {
    valid_angle(e.angle_deg as int) && e.label@.len() <= 1000000
}

/// Projects every entry. Each output is a pure function of its entry
/// alone, so the layout is the same on every frame: no state accumulates
/// between calls.
pub fn layout_entries(entries: &Vec<RadialEntry>) -> (out: Vec<PlacedLabel>)
    requires
        forall|i: int| 0 <= i < entries@.len() ==> valid_entry(#[trigger] entries@[i]),
    ensures
        out@.len() == entries@.len(),
        forall|i: int| 0 <= i < out@.len() ==> placed_matches(#[trigger] out@[i], entries@[i]),
{
    let mut out: Vec<PlacedLabel> = Vec::new();
    let mut k: usize = 0;
    while k < entries.len()
        invariant
            k <= entries@.len(),
            out@.len() == k,
            forall|i: int| 0 <= i < entries@.len() ==> valid_entry(#[trigger] entries@[i]),
            forall|i: int| 0 <= i < k ==> placed_matches(#[trigger] out@[i], entries@[i]),
        decreases entries@.len() - k,
    {
        let ring = entries[k].ring;
        let label = entries[k].label.clone();
        let radius = ring_radius(ring);
        let xy = place_point(radius, entries[k].angle_deg, label.as_str().unicode_len());
        out.push(PlacedLabel { ring, x: xy.0, y: xy.1, label });
        k = k + 1;
    }
    out
}

/// Alignment and scaling across rings: two entries that share an angle but
/// sit on rings of radii `r1` and `r2` have positively proportional anchor
/// vectors - so their angular bearing from the origin is identical - and
/// their squared distances from the origin stand in the ratio of the
/// squared radii, independent of the angle.
pub proof fn lemma_ring_alignment(r1: int, r2: int, deg: int)
    requires
        0 <= r1,
        0 <= r2,
        valid_angle(deg),
    ensures
        anchor_x(r1, deg) * r2 == anchor_x(r2, deg) * r1,
        anchor_y(r1, deg) * r2 == anchor_y(r2, deg) * r1,
        (anchor_x(r1, deg) * anchor_x(r1, deg) + anchor_y(r1, deg) * anchor_y(r1, deg)) * (r2
            * r2) == (anchor_x(r2, deg) * anchor_x(r2, deg) + anchor_y(r2, deg) * anchor_y(
            r2,
            deg,
        )) * (r1 * r1),
{
    let c = cos_scaled(deg);
    let s = sin_scaled(deg);
    assert((r1 * c) * r2 == (r2 * c) * r1) by (nonlinear_arith);
    assert((r1 * s) * r2 == (r2 * s) * r1) by (nonlinear_arith);
    assert((r1 * c) * (r1 * c) + (r1 * s) * (r1 * s) == (c * c + s * s) * (r1 * r1))
        by (nonlinear_arith);
    assert((r2 * c) * (r2 * c) + (r2 * s) * (r2 * s) == (c * c + s * s) * (r2 * r2))
        by (nonlinear_arith);
    assert(((c * c + s * s) * (r1 * r1)) * (r2 * r2) == ((c * c + s * s) * (r2 * r2)) * (r1 * r1))
        by (nonlinear_arith);
}

} // verus!
