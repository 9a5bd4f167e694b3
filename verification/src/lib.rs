use vstd::prelude::*;
use vstd::std_specs::convert::FromSpec;

verus! {

/// The mathematical value of a border rect: the four edge extents as
/// unbounded integers, measured inward from the corresponding edge.
pub ghost struct BorderExtents {
    pub left: int,
    pub right: int,
    pub top: int,
    pub bottom: int,
}

impl BorderExtents {
    /// All four extents equal to `e`.
    pub open spec fn uniform(e: int) -> BorderExtents {
        BorderExtents { left: e, right: e, top: e, bottom: e }
    }

    /// Left and right extents equal to `h`, top and bottom extents equal to `v`.
    pub open spec fn symmetric(h: int, v: int) -> BorderExtents {
        BorderExtents { left: h, right: h, top: v, bottom: v }
    }

    /// Field-wise sum of two borders: the accumulation of `other` onto `self`.
    pub open spec fn combined(self, other: BorderExtents) -> BorderExtents {
        BorderExtents {
            left: self.left + other.left,
            right: self.right + other.right,
            top: self.top + other.top,
            bottom: self.bottom + other.bottom,
        }
    }

    /// The border grown by `e` on every edge.
    pub open spec fn inflated(self, e: int) -> BorderExtents {
        BorderExtents {
            left: self.left + e,
            right: self.right + e,
            top: self.top + e,
            bottom: self.bottom + e,
        }
    }

    /// The total horizontal and vertical space consumed by the border:
    /// `(left + right, top + bottom)`.
    pub open spec fn axis_sums(self) -> (int, int) {
        (self.left + self.right, self.top + self.bottom)
    }
}

/// Defines the extents of the border of a rectangle.
///
/// This struct is used to represent thickness or offsets from the edges
/// of a rectangle (left, right, top, and bottom), with values increasing
/// inwards. Extents are exact integer scalars in whatever length unit the
/// caller works in; the type itself puts no bound on them, and negative
/// extents are allowed.
#[derive(Clone, Copy, Debug, PartialEq, Eq, Structural)]
pub struct BorderRect {
    /// Extent of the border along the left edge
    pub left: i64,
    /// Extent of the border along the right edge
    pub right: i64,
    /// Extent of the border along the top edge
    pub top: i64,
    /// Extent of the border along the bottom edge
    pub bottom: i64,
}

impl View for BorderRect {
    type V = BorderExtents;

    open spec fn view(&self) -> BorderExtents {
        BorderExtents {
            left: self.left as int,
            right: self.right as int,
            top: self.top as int,
            bottom: self.bottom as int,
        }
    }
}

impl BorderRect {
    /// An empty border with zero thickness along each edge.
    pub fn zero() -> (r: Self)
        ensures
            r@ == BorderExtents::uniform(0),
            r == (BorderRect { left: 0i64, right: 0i64, top: 0i64, bottom: 0i64 }),
    {
        Self { left: 0, right: 0, top: 0, bottom: 0 }
    }

    /// Creates a border with the same `extent` along each edge.
    pub fn all(extent: i64) -> (r: Self)
        ensures
            r@ == BorderExtents::uniform(extent as int),
            r.left == extent && r.right == extent && r.top == extent && r.bottom == extent,
    {
        Self { left: extent, right: extent, top: extent, bottom: extent }
    }

    /// Creates a new border with the `left` and `right` extents equal to
    /// `horizontal`, and `top` and `bottom` extents equal to `vertical`.
    pub fn axes(horizontal: i64, vertical: i64) -> (r: Self)
        ensures
            r@ == BorderExtents::symmetric(horizontal as int, vertical as int),
            r.left == horizontal && r.right == horizontal,
            r.top == vertical && r.bottom == vertical,
    {
        Self { left: horizontal, right: horizontal, top: vertical, bottom: vertical }
    }

    /// Returns the total horizontal and vertical space consumed by the
    /// border: `(left + right, top + bottom)`.
    pub fn sum_axes(&self) -> (r: (i64, i64))
        requires
            i64::MIN <= self.left + self.right <= i64::MAX,
            i64::MIN <= self.top + self.bottom <= i64::MAX,
        ensures
            (r.0 as int, r.1 as int) == self@.axis_sums(),
            r.0 == self.left + self.right,
            r.1 == self.top + self.bottom,
    {
        (self.left + self.right, self.top + self.bottom)
    }

    /// Expands the given border rect on all sides by a given expansion
    /// amount; a negative amount narrows the border.
    pub fn inflate_mut(&mut self, expansion: i64)
        requires
            i64::MIN <= old(self).left + expansion <= i64::MAX,
            i64::MIN <= old(self).right + expansion <= i64::MAX,
            i64::MIN <= old(self).top + expansion <= i64::MAX,
            i64::MIN <= old(self).bottom + expansion <= i64::MAX,
        ensures
            final(self)@ == old(self)@.inflated(expansion as int),
    {
        self.left = self.left + expansion;
        self.right = self.right + expansion;
        self.top = self.top + expansion;
        self.bottom = self.bottom + expansion;
    }

    /// Accumulates `rhs` onto this border, field by field.
    pub fn add_assign(&mut self, rhs: BorderRect)
        requires
            i64::MIN <= old(self).left + rhs.left <= i64::MAX,
            i64::MIN <= old(self).right + rhs.right <= i64::MAX,
            i64::MIN <= old(self).top + rhs.top <= i64::MAX,
            i64::MIN <= old(self).bottom + rhs.bottom <= i64::MAX,
        ensures
            final(self)@ == old(self)@.combined(rhs@),
    {
        self.left = self.left + rhs.left;
        self.right = self.right + rhs.right;
        self.top = self.top + rhs.top;
        self.bottom = self.bottom + rhs.bottom;
    }
}

impl Default for BorderRect {
    /// The default border is the empty border.
    fn default() -> (r: Self)
        ensures
            r@ == BorderExtents::uniform(0),
    {
        BorderRect::zero()
    }
}

impl core::convert::From<i64> for BorderRect {
    /// Creates a border with the same `extent` along each edge.
    fn from(extent: i64) -> (r: Self) {
        BorderRect::all(extent)
    }
}

impl vstd::std_specs::convert::FromSpecImpl<i64> for BorderRect {
    open spec fn obeys_from_spec() -> bool {
        true
    }

    open spec fn from_spec(v: i64) -> BorderRect {
        BorderRect { left: v, right: v, top: v, bottom: v }
    }
}

impl core::convert::From<[i64; 4]> for BorderRect {
    /// Creates a border from the extents `[left, right, top, bottom]`, in
    /// that order, with no reordering and no validation.
    fn from(extents: [i64; 4]) -> (r: Self) {
        BorderRect {
            left: extents[0],
            right: extents[1],
            top: extents[2],
            bottom: extents[3],
        }
    }
}

impl vstd::std_specs::convert::FromSpecImpl<[i64; 4]> for BorderRect {
    open spec fn obeys_from_spec() -> bool {
        true
    }

    open spec fn from_spec(v: [i64; 4]) -> BorderRect {
        BorderRect { left: v[0], right: v[1], top: v[2], bottom: v[3] }
    }
}

/// The empty border is the uniform border of extent zero, and it consumes
/// no horizontal and no vertical space.
pub proof fn lemma_zero_border()
    ensures
        BorderExtents::uniform(0) == (BorderExtents { left: 0, right: 0, top: 0, bottom: 0 }),
        BorderExtents::uniform(0).axis_sums() == (0int, 0int),
{
}

/// Inflating a border by `e` is the same as accumulating the uniform
/// border of extent `e` onto it, field for field.
pub proof fn lemma_inflate_is_combine_uniform(b: BorderExtents, e: int)
    ensures
        b.inflated(e) == b.combined(BorderExtents::uniform(e)),
{
}

/// Accumulation of borders is commutative, field for field.
pub proof fn lemma_combine_commutative(a: BorderExtents, b: BorderExtents)
    ensures
        a.combined(b) == b.combined(a),
{
}

/// Accumulation of borders is associative: accumulating `b` and then `c`
/// is the same as accumulating the independently combined `b` and `c`.
pub proof fn lemma_combine_associative(a: BorderExtents, b: BorderExtents, c: BorderExtents)
    ensures
        a.combined(b).combined(c) == a.combined(b.combined(c)),
{
}

/// Building a border rect from the four extents `[left, right, top,
/// bottom]` and reading the fields back returns exactly those extents.
pub proof fn lemma_from_array_round_trip(v: [i64; 4])
    ensures
        ({
            let r = <BorderRect as FromSpec<[i64; 4]>>::from_spec(v);
            r.left == v[0] && r.right == v[1] && r.top == v[2] && r.bottom == v[3]
        }),
{
}

} // verus!
