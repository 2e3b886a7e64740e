use vstd::prelude::*;
use vstd::std_specs::convert::{FromSpec, IntoSpec};
use vstd::std_specs::ops::AddSpec;

verus! {

/// A layout direction.
#[derive(Debug, Clone, Copy, PartialEq, Eq, Structural)]
pub enum Direction {
    Vertical,
    Horizontal,
}

// ===================================================
// POSITION
// ===================================================

/// A point in two dimensions.
#[derive(Debug, Clone, Copy, PartialEq, Eq, Structural)]
pub struct Position<T> {
    pub x: T,
    pub y: T,
}

/// A position from an `(x, y)` pair, each component converted (`from_spec`).
impl<A, B> From<(A, A)> for Position<B> where A: Into<B> {
    fn from(value: (A, A)) -> (r: Self) {
        Position { x: value.0.into(), y: value.1.into() }
    }
}

impl<A, B> vstd::std_specs::convert::FromSpecImpl<(A, A)> for Position<B> where A: Into<B> {
    open spec fn obeys_from_spec() -> bool {
        <A as IntoSpec<B>>::obeys_into_spec()
    }

    open spec fn from_spec(v: (A, A)) -> Self {
        Position { x: v.0.into_spec(), y: v.1.into_spec() }
    }
}

/// Component-wise sum of two positions, owed where both component sums are
/// (`add_req`).
impl<A, B> core::ops::Add<Position<B>> for Position<A> where A: core::ops::Add<B> {
    type Output = Position<<A as core::ops::Add<B>>::Output>;

    fn add(self, rhs: Position<B>) -> (r: Self::Output) {
        Position { x: self.x + rhs.x, y: self.y + rhs.y }
    }
}

impl<A, B> vstd::std_specs::ops::AddSpecImpl<Position<B>> for Position<A> where A: core::ops::Add<B> {
    open spec fn obeys_add_spec() -> bool {
        <A as AddSpec<B>>::obeys_add_spec()
    }

    open spec fn add_req(self, rhs: Position<B>) -> bool {
        self.x.add_req(rhs.x) && self.y.add_req(rhs.y)
    }

    open spec fn add_spec(self, rhs: Position<B>) -> Self::Output {
        Position { x: self.x.add_spec(rhs.x), y: self.y.add_spec(rhs.y) }
    }
}


/// Selects a component of a [`Position`].
#[derive(Debug, Clone, Copy, PartialEq, Eq, Structural)]
pub enum Axis {
    X,
    Y,
}

impl From<Dimension> for Axis {
    fn from(value: Dimension) -> (r: Self)
        ensures
            r == axis_of(value),
    {
        match value {
            Dimension::Width => Axis::X,
            Dimension::Height => Axis::Y,
        }
    }
}

impl vstd::std_specs::convert::FromSpecImpl<Dimension> for Axis {
    open spec fn obeys_from_spec() -> bool {
        true
    }

    open spec fn from_spec(v: Dimension) -> Self {
        axis_of(v)
    }
}

/// The axis along which a dimension is measured: width along `X`, height
/// along `Y`.
pub open spec fn axis_of(d: Dimension) -> Axis {
    match d {
        Dimension::Width => Axis::X,
        Dimension::Height => Axis::Y,
    }
}

impl<T> Position<T> {
    /// The component that `axis` selects.
    pub open spec fn at(self, axis: Axis) -> T {
        match axis {
            Axis::X => self.x,
            Axis::Y => self.y,
        }
    }

    /// This position with the component that `axis` selects replaced by
    /// `value`.
    pub open spec fn with(self, axis: Axis, value: T) -> Self {
        match axis {
            Axis::X => Position { x: value, y: self.y },
            Axis::Y => Position { x: self.x, y: value },
        }
    }
}

impl<T> Position<T> where T: Copy {
    pub fn get(&self, axis: Axis) -> (r: T)
        ensures
            r == self.at(axis),
    {
        match axis {
            Axis::X => self.x,
            Axis::Y => self.y,
        }
    }

    pub fn set(&mut self, axis: Axis, value: T)
        ensures
            *final(self) == old(self).with(axis, value),
    {
        match axis {
            Axis::X => self.x = value,
            Axis::Y => self.y = value,
        }
    }
}

impl<T> Position<Option<T>> {
    /// The position with both components taken out of their `Option`s; both
    /// must have been set.
    pub fn unwrap_contents(self) -> (r: Position<T>)
        requires
            self.x is Some,
            self.y is Some,
        ensures
            r == (Position { x: self.x->Some_0, y: self.y->Some_0 }),
    {
        Position { x: self.x.unwrap(), y: self.y.unwrap() }
    }

    /// A position with neither component set.
    pub fn none() -> (r: Self)
        ensures
            r == (Position::<Option<T>> { x: None, y: None }),
    {
        Position { x: None, y: None }
    }
}

// ===================================================
// SIZE
// ===================================================

/// An extent in two dimensions.
#[derive(Debug, Clone, Copy, PartialEq, Eq, Structural)]
pub struct Size<T> {
    pub width: T,
    pub height: T,
}

/// A size from a `(width, height)` pair, each component converted
/// (`from_spec`).
impl<A, B> From<(A, A)> for Size<B> where A: Into<B> {
    fn from(value: (A, A)) -> (r: Self) {
        Size { width: value.0.into(), height: value.1.into() }
    }
}

impl<A, B> vstd::std_specs::convert::FromSpecImpl<(A, A)> for Size<B> where A: Into<B> {
    open spec fn obeys_from_spec() -> bool {
        <A as IntoSpec<B>>::obeys_into_spec()
    }

    open spec fn from_spec(v: (A, A)) -> Self {
        Size { width: v.0.into_spec(), height: v.1.into_spec() }
    }
}

/// Selects a component of a [`Size`].
#[derive(Debug, Clone, Copy, PartialEq, Eq, Structural)]
pub enum Dimension {
    Width,
    Height,
}

/// The dimension that runs along a direction: width horizontally, height
/// vertically.
pub open spec fn dimension_of(d: Direction) -> Dimension {
    match d {
        Direction::Horizontal => Dimension::Width,
        Direction::Vertical => Dimension::Height,
    }
}

impl From<Direction> for Dimension {
    fn from(value: Direction) -> (r: Self)
        ensures
            r == dimension_of(value),
    {
        match value {
            Direction::Horizontal => Dimension::Width,
            Direction::Vertical => Dimension::Height,
        }
    }
}

impl vstd::std_specs::convert::FromSpecImpl<Direction> for Dimension {
    open spec fn obeys_from_spec() -> bool {
        true
    }

    open spec fn from_spec(v: Direction) -> Self {
        dimension_of(v)
    }
}

impl Dimension {
    /// The other dimension.
    pub open spec fn spec_opposite(self) -> Dimension {
        match self {
            Dimension::Width => Dimension::Height,
            Dimension::Height => Dimension::Width,
        }
    }

    pub fn opposite(&self) -> (r: Self)
        ensures
            r == self.spec_opposite(),
    {
        match self {
            Dimension::Width => Dimension::Height,
            Dimension::Height => Dimension::Width,
        }
    }
}

impl<T> Size<T> {
    /// The component that `dimension` selects.
    pub open spec fn at(self, dimension: Dimension) -> T {
        match dimension {
            Dimension::Width => self.width,
            Dimension::Height => self.height,
        }
    }

    /// This size with the component that `dimension` selects replaced by
    /// `value`.
    pub open spec fn with(self, dimension: Dimension, value: T) -> Self {
        match dimension {
            Dimension::Width => Size { width: value, height: self.height },
            Dimension::Height => Size { width: self.width, height: value },
        }
    }
}

impl<T> Size<T> where T: Copy {
    pub fn get(&self, dimension: Dimension) -> (r: T)
        ensures
            r == self.at(dimension),
    {
        match dimension {
            Dimension::Width => self.width,
            Dimension::Height => self.height,
        }
    }

    pub fn set(&mut self, dimension: Dimension, value: T)
        ensures
            *final(self) == old(self).with(dimension, value),
    {
        match dimension {
            Dimension::Width => self.width = value,
            Dimension::Height => self.height = value,
        }
    }
}

impl<T> Size<Option<T>> {
    /// The size with both components taken out of their `Option`s; both
    /// must have been set.
    pub fn unwrap_contents(self) -> (r: Size<T>)
        requires
            self.width is Some,
            self.height is Some,
        ensures
            r == (Size { width: self.width->Some_0, height: self.height->Some_0 }),
    {
        Size { width: self.width.unwrap(), height: self.height.unwrap() }
    }

    /// A size with neither component set.
    pub fn none() -> (r: Self)
        ensures
            r == (Size::<Option<T>> { width: None, height: None }),
    {
        Size { width: None, height: None }
    }
}


/// A position built from a pair of equal values holds that value, converted,
/// on both axes.
pub proof fn lemma_position_from_equal_pair<A, B>(a: A) where A: Into<B>
    ensures
        <Position<B> as FromSpec<(A, A)>>::obeys_from_spec() == <A as IntoSpec<B>>::obeys_into_spec(),
        <Position<B> as FromSpec<(A, A)>>::from_spec((a, a)).at(Axis::X) == a.into_spec(),
        <Position<B> as FromSpec<(A, A)>>::from_spec((a, a)).at(Axis::Y) == a.into_spec(),
{
}

/// Filling in both dimensions of an unset size, in either order, leaves
/// both set, and unwrapping then gives the values that were set; with only
/// one of them filled in, the other is still unset.
pub proof fn lemma_size_filled_in<T>(first: Dimension, a: T, b: T)
    ensures
        ({
            let unset = Size::<Option<T>> { width: None, height: None };
            let half = unset.with(first, Some(a));
            let full = half.with(first.spec_opposite(), Some(b));
            let done = Size { width: full.width->Some_0, height: full.height->Some_0 };
            &&& half.at(first.spec_opposite()) is None
            &&& full.width is Some
            &&& full.height is Some
            &&& done.at(first) == a
            &&& done.at(first.spec_opposite()) == b
        }),
{
}

} // verus!
