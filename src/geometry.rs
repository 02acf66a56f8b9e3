//! Plain value types laid out as the engine's: points, colors and rectangles.
//!
//! A scalar is carried as the bit pattern of an IEEE-754 single-precision
//! number. Nothing here does arithmetic on scalars; where two of them are
//! compared, it is by the order that the bit pattern gives to numbers.
use vstd::prelude::*;

verus! {

/// A scalar, as the bits of an IEEE-754 single-precision number.
pub type Scalar = u32;

/// The scalar 0.0.
pub const SCALAR_ZERO: Scalar = 0;

/// A point, two scalars, in the native field order.
#[derive(Clone, Copy, Debug, PartialEq, Eq, Structural)]
pub struct Point {
    pub x: Scalar,
    pub y: Scalar,
}

impl Point {
    pub fn new(x: Scalar, y: Scalar) -> (r: Point)
        ensures
            r == (Point { x, y }),
    {
        Point { x, y }
    }
}

/// A color, 32 bits of packed ARGB.
#[derive(Clone, Copy, Debug, PartialEq, Eq, Structural)]
pub struct Color(pub u32);

/// A rectangle, four scalars, in the native field order.
#[derive(Clone, Copy, Debug, PartialEq, Eq, Structural)]
pub struct Rect {
    pub left: Scalar,
    pub top: Scalar,
    pub right: Scalar,
    pub bottom: Scalar,
}

impl Rect {
    pub open spec fn spec_empty() -> Rect {
        Rect { left: 0, top: 0, right: 0, bottom: 0 }
    }

    pub fn new_empty() -> (r: Rect)
        ensures
            r == Rect::spec_empty(),
    {
        Rect { left: SCALAR_ZERO, top: SCALAR_ZERO, right: SCALAR_ZERO, bottom: SCALAR_ZERO }
    }
}

/// Where a scalar stands among numbers: the magnitude bits, negated when the
/// sign bit is set. Both zeros stand at 0.
pub open spec fn scalar_rank(s: Scalar) -> int {
    if s >= 0x8000_0000 {
        -((s - 0x8000_0000) as int)
    } else {
        s as int
    }
}

/// The rank of a scalar, as `scalar_rank` gives it.
pub fn rank(s: Scalar) -> (r: i64)
    ensures
        r == scalar_rank(s),
{
    if s >= 0x8000_0000 {
        -((s - 0x8000_0000) as i64)
    } else {
        s as i64
    }
}

/// `b` is the first least of the values that `f` picks from `pts`.
pub open spec fn is_first_least(pts: Seq<Point>, f: spec_fn(Point) -> Scalar, b: Scalar) -> bool {
    exists|i: int|
        0 <= i < pts.len() && f(pts[i]) == b && (forall|j: int|
            0 <= j < i ==> scalar_rank(b) < scalar_rank(#[trigger] f(pts[j]))) && (forall|j: int|
            i <= j < pts.len() ==> scalar_rank(b) <= scalar_rank(#[trigger] f(pts[j])))
}

/// `b` is the first greatest of the values that `f` picks from `pts`.
pub open spec fn is_first_greatest(pts: Seq<Point>, f: spec_fn(Point) -> Scalar, b: Scalar) -> bool {
    exists|i: int|
        0 <= i < pts.len() && f(pts[i]) == b && (forall|j: int|
            0 <= j < i ==> scalar_rank(#[trigger] f(pts[j])) < scalar_rank(b)) && (forall|j: int|
            i <= j < pts.len() ==> scalar_rank(#[trigger] f(pts[j])) <= scalar_rank(b))
}

/// `r` bounds `pts` tightly: each side is the coordinate of the first point
/// that lies farthest that way; no points give the empty rectangle.
pub open spec fn is_bounds_of(pts: Seq<Point>, r: Rect) -> bool {
    if pts.len() == 0 {
        r == Rect::spec_empty()
    } else {
        &&& is_first_least(pts, |p: Point| p.x, r.left)
        &&& is_first_least(pts, |p: Point| p.y, r.top)
        &&& is_first_greatest(pts, |p: Point| p.x, r.right)
        &&& is_first_greatest(pts, |p: Point| p.y, r.bottom)
    }
}

proof fn lemma_first_least_unique(pts: Seq<Point>, f: spec_fn(Point) -> Scalar, a: Scalar, b: Scalar)
    requires
        is_first_least(pts, f, a),
        is_first_least(pts, f, b),
    ensures
        a == b,
{
    let i = choose|i: int|
        0 <= i < pts.len() && f(pts[i]) == a && (forall|j: int|
            0 <= j < i ==> scalar_rank(a) < scalar_rank(#[trigger] f(pts[j]))) && (forall|j: int|
            i <= j < pts.len() ==> scalar_rank(a) <= scalar_rank(#[trigger] f(pts[j])));
    let k = choose|k: int|
        0 <= k < pts.len() && f(pts[k]) == b && (forall|j: int|
            0 <= j < k ==> scalar_rank(b) < scalar_rank(#[trigger] f(pts[j]))) && (forall|j: int|
            k <= j < pts.len() ==> scalar_rank(b) <= scalar_rank(#[trigger] f(pts[j])));
    if i < k {
        assert(scalar_rank(b) < scalar_rank(f(pts[i])));
        assert(scalar_rank(b) <= scalar_rank(f(pts[k])));
        assert(scalar_rank(a) <= scalar_rank(f(pts[k])));
    } else if k < i {
        assert(scalar_rank(a) < scalar_rank(f(pts[k])));
        assert(scalar_rank(b) <= scalar_rank(f(pts[i])));
    }
}

proof fn lemma_first_greatest_unique(pts: Seq<Point>, f: spec_fn(Point) -> Scalar, a: Scalar, b: Scalar)
    requires
        is_first_greatest(pts, f, a),
        is_first_greatest(pts, f, b),
    ensures
        a == b,
{
    let i = choose|i: int|
        0 <= i < pts.len() && f(pts[i]) == a && (forall|j: int|
            0 <= j < i ==> scalar_rank(#[trigger] f(pts[j])) < scalar_rank(a)) && (forall|j: int|
            i <= j < pts.len() ==> scalar_rank(#[trigger] f(pts[j])) <= scalar_rank(a));
    let k = choose|k: int|
        0 <= k < pts.len() && f(pts[k]) == b && (forall|j: int|
            0 <= j < k ==> scalar_rank(#[trigger] f(pts[j])) < scalar_rank(b)) && (forall|j: int|
            k <= j < pts.len() ==> scalar_rank(#[trigger] f(pts[j])) <= scalar_rank(b));
    if i < k {
        assert(scalar_rank(f(pts[i])) < scalar_rank(b));
        assert(scalar_rank(f(pts[k])) <= scalar_rank(a));
    } else if k < i {
        assert(scalar_rank(f(pts[k])) < scalar_rank(a));
        assert(scalar_rank(f(pts[i])) <= scalar_rank(b));
    }
}

/// The points fix their bounds: two rectangles that both bound them tightly
/// are the same.
pub proof fn lemma_bounds_unique(pts: Seq<Point>, a: Rect, b: Rect)
    requires
        is_bounds_of(pts, a),
        is_bounds_of(pts, b),
    ensures
        a == b,
{
    if pts.len() > 0 {
        lemma_first_least_unique(pts, |p: Point| p.x, a.left, b.left);
        lemma_first_least_unique(pts, |p: Point| p.y, a.top, b.top);
        lemma_first_greatest_unique(pts, |p: Point| p.x, a.right, b.right);
        lemma_first_greatest_unique(pts, |p: Point| p.y, a.bottom, b.bottom);
    }
}

/// The tight bounds of a sequence of points.
pub fn bounds_of(pts: &[Point]) -> (r: Rect)
    ensures
        is_bounds_of(pts@, r),
{
    if pts.len() == 0 {
        return Rect::new_empty();
    }
    let mut r = Rect { left: pts[0].x, top: pts[0].y, right: pts[0].x, bottom: pts[0].y };
    let ghost mut w: (int, int, int, int) = (0, 0, 0, 0);
    let mut i: usize = 1;
    while i < pts.len()
        invariant
            1 <= i <= pts@.len(),
            0 <= w.0 < i && pts@[w.0].x == r.left,
            0 <= w.1 < i && pts@[w.1].y == r.top,
            0 <= w.2 < i && pts@[w.2].x == r.right,
            0 <= w.3 < i && pts@[w.3].y == r.bottom,
            forall|j: int| 0 <= j < i ==> scalar_rank(r.left) <= scalar_rank(#[trigger] pts@[j].x),
            forall|j: int| 0 <= j < i ==> scalar_rank(r.top) <= scalar_rank(#[trigger] pts@[j].y),
            forall|j: int| 0 <= j < i ==> scalar_rank(#[trigger] pts@[j].x) <= scalar_rank(r.right),
            forall|j: int| 0 <= j < i ==> scalar_rank(#[trigger] pts@[j].y) <= scalar_rank(r.bottom),
            forall|j: int| 0 <= j < w.0 ==> scalar_rank(r.left) < scalar_rank(#[trigger] pts@[j].x),
            forall|j: int| 0 <= j < w.1 ==> scalar_rank(r.top) < scalar_rank(#[trigger] pts@[j].y),
            forall|j: int| 0 <= j < w.2 ==> scalar_rank(#[trigger] pts@[j].x) < scalar_rank(r.right),
            forall|j: int| 0 <= j < w.3 ==> scalar_rank(#[trigger] pts@[j].y) < scalar_rank(r.bottom),
        decreases pts@.len() - i,
    {
        let p = pts[i];
        if rank(p.x) < rank(r.left) {
            r.left = p.x;
            proof { w.0 = i as int; }
        }
        if rank(p.y) < rank(r.top) {
            r.top = p.y;
            proof { w.1 = i as int; }
        }
        if rank(p.x) > rank(r.right) {
            r.right = p.x;
            proof { w.2 = i as int; }
        }
        if rank(p.y) > rank(r.bottom) {
            r.bottom = p.y;
            proof { w.3 = i as int; }
        }
        i = i + 1;
    }
    let ghost p = pts@;
    assert(p[w.0].x == r.left && p[w.1].y == r.top && p[w.2].x == r.right && p[w.3].y == r.bottom);
    assert(is_first_least(p, |q: Point| q.x, r.left));
    assert(is_first_least(p, |q: Point| q.y, r.top));
    assert(is_first_greatest(p, |q: Point| q.x, r.right));
    assert(is_first_greatest(p, |q: Point| q.y, r.bottom));
    r
}

} // verus!
