use vstd::prelude::*;
use vstd::std_specs::ops::{AddSpec, SubSpec};

verus! {

/// A measurement in pixels, over a numeric representation `T`.
#[derive(Debug, PartialEq, Eq, Structural, Copy, Clone, PartialOrd)]
pub struct Pixels<T> {
    pub value: T,
}

impl<T> From<T> for Pixels<T> {
    fn from(value: T) -> (r: Self)
        ensures
            r.value == value,
    {
        Pixels { value }
    }
}

impl<T> vstd::std_specs::convert::FromSpecImpl<T> for Pixels<T> {
    open spec fn obeys_from_spec() -> bool {
        true
    }

    open spec fn from_spec(v: T) -> Self {
        Pixels { value: v }
    }
}

/// A numeric representation that converts without loss into the
/// representation `A`, so that pixel quantities of the two may be combined:
/// each implementation widens an integer into a type that holds every value
/// of it.
pub trait Widen<A>: Copy + Sized {
    spec fn widen_spec(self) -> A;

    fn widen(self) -> (r: A)
        ensures
            r == self.widen_spec(),
    ;
}

impl Widen<u8> for u8 {
    open spec fn widen_spec(self) -> u8 {
        self as u8
    }

    fn widen(self) -> (r: u8) {
        self as u8
    }
}

impl Widen<u16> for u8 {
    open spec fn widen_spec(self) -> u16 {
        self as u16
    }

    fn widen(self) -> (r: u16) {
        self as u16
    }
}

impl Widen<u32> for u8 {
    open spec fn widen_spec(self) -> u32 {
        self as u32
    }

    fn widen(self) -> (r: u32) {
        self as u32
    }
}

impl Widen<u64> for u8 {
    open spec fn widen_spec(self) -> u64 {
        self as u64
    }

    fn widen(self) -> (r: u64) {
        self as u64
    }
}

impl Widen<u16> for u16 {
    open spec fn widen_spec(self) -> u16 {
        self as u16
    }

    fn widen(self) -> (r: u16) {
        self as u16
    }
}

impl Widen<u32> for u16 {
    open spec fn widen_spec(self) -> u32 {
        self as u32
    }

    fn widen(self) -> (r: u32) {
        self as u32
    }
}

impl Widen<u64> for u16 {
    open spec fn widen_spec(self) -> u64 {
        self as u64
    }

    fn widen(self) -> (r: u64) {
        self as u64
    }
}

impl Widen<u32> for u32 {
    open spec fn widen_spec(self) -> u32 {
        self as u32
    }

    fn widen(self) -> (r: u32) {
        self as u32
    }
}

impl Widen<u64> for u32 {
    open spec fn widen_spec(self) -> u64 {
        self as u64
    }

    fn widen(self) -> (r: u64) {
        self as u64
    }
}

impl Widen<u64> for u64 {
    open spec fn widen_spec(self) -> u64 {
        self as u64
    }

    fn widen(self) -> (r: u64) {
        self as u64
    }
}

impl Widen<i16> for i16 {
    open spec fn widen_spec(self) -> i16 {
        self as i16
    }

    fn widen(self) -> (r: i16) {
        self as i16
    }
}

impl Widen<i32> for i16 {
    open spec fn widen_spec(self) -> i32 {
        self as i32
    }

    fn widen(self) -> (r: i32) {
        self as i32
    }
}

impl Widen<i32> for i32 {
    open spec fn widen_spec(self) -> i32 {
        self as i32
    }

    fn widen(self) -> (r: i32) {
        self as i32
    }
}

/// The sum of two pixel quantities, the right-hand one first widened into
/// the left-hand representation. It is owed where the sum of the values is
/// representable (`add_req`), and is then that sum (`add_spec`).
impl<A, B> core::ops::Add<Pixels<B>> for Pixels<A> where
    A: core::ops::Add<Output = A> + Copy,
    B: Widen<A>,
 {
    type Output = Pixels<A>;

    fn add(self, rhs: Pixels<B>) -> (r: Pixels<A>) {
        Pixels { value: self.value + rhs.value.widen() }
    }
}

impl<A, B> vstd::std_specs::ops::AddSpecImpl<Pixels<B>> for Pixels<A> where
    A: core::ops::Add<Output = A> + Copy,
    B: Widen<A>,
 {
    open spec fn obeys_add_spec() -> bool {
        <A as AddSpec>::obeys_add_spec()
    }

    open spec fn add_req(self, rhs: Pixels<B>) -> bool {
        self.value.add_req(rhs.value.widen_spec())
    }

    open spec fn add_spec(self, rhs: Pixels<B>) -> Pixels<A> {
        Pixels { value: self.value.add_spec(rhs.value.widen_spec()) }
    }
}

/// The difference of two pixel quantities, the right-hand one first widened
/// into the left-hand representation. It is owed where the difference of the
/// values is representable (`sub_req`), and is then that difference
/// (`sub_spec`).
impl<A, B> core::ops::Sub<Pixels<B>> for Pixels<A> where
    A: core::ops::Sub<Output = A> + Copy,
    B: Widen<A>,
 {
    type Output = Pixels<A>;

    fn sub(self, rhs: Pixels<B>) -> (r: Pixels<A>) {
        Pixels { value: self.value - rhs.value.widen() }
    }
}

impl<A, B> vstd::std_specs::ops::SubSpecImpl<Pixels<B>> for Pixels<A> where
    A: core::ops::Sub<Output = A> + Copy,
    B: Widen<A>,
 {
    open spec fn obeys_sub_spec() -> bool {
        <A as SubSpec>::obeys_sub_spec()
    }

    open spec fn sub_req(self, rhs: Pixels<B>) -> bool {
        self.value.sub_req(rhs.value.widen_spec())
    }

    open spec fn sub_spec(self, rhs: Pixels<B>) -> Pixels<A> {
        Pixels { value: self.value.sub_spec(rhs.value.widen_spec()) }
    }
}

impl<A> Pixels<A> where A: core::ops::Add<Output = A> + Copy {
    /// Adds `rhs` to this quantity in place, as `+` would.
    pub fn add_assign<B: Widen<A>>(&mut self, rhs: Pixels<B>)
        requires
            old(self).add_req(rhs),
        ensures
            <A as AddSpec>::obeys_add_spec() ==> *final(self) == old(self).add_spec(rhs),
    {
        *self = *self + rhs;
    }
}

/// Scaling by a count. The product must fit in 16 bits: there is no
/// wrapping and no saturation.
impl core::ops::Mul<usize> for Pixels<u16> {
    type Output = Pixels<u16>;

    fn mul(self, rhs: usize) -> (r: Pixels<u16>)
        ensures
            r.value == self.value as int * rhs as int,
    {
        let product: usize = self.value as usize * rhs;
        Pixels { value: product as u16 }
    }
}

impl vstd::std_specs::ops::MulSpecImpl<usize> for Pixels<u16> {
    open spec fn obeys_mul_spec() -> bool {
        true
    }

    open spec fn mul_req(self, rhs: usize) -> bool {
        self.value as int * rhs as int <= u16::MAX
    }

    open spec fn mul_spec(self, rhs: usize) -> Pixels<u16> {
        Pixels { value: (self.value as int * rhs as int) as u16 }
    }
}

/// Division by a nonzero count, rounding toward zero.
impl core::ops::Div<usize> for Pixels<u16> {
    type Output = Pixels<u16>;

    fn div(self, rhs: usize) -> (r: Pixels<u16>)
        ensures
            r.value == self.value as int / rhs as int,
    {
        let quotient: usize = self.value as usize / rhs;
        Pixels { value: quotient as u16 }
    }
}

impl vstd::std_specs::ops::DivSpecImpl<usize> for Pixels<u16> {
    open spec fn obeys_div_spec() -> bool {
        true
    }

    open spec fn div_req(self, rhs: usize) -> bool {
        rhs != 0
    }

    open spec fn div_spec(self, rhs: usize) -> Pixels<u16> {
        Pixels { value: (self.value as int / rhs as int) as u16 }
    }
}


/// Adding a pixel quantity of one representation to one of another adds
/// the underlying values: `Pixels(a) + Pixels(b) == Pixels(a + b)` whenever
/// the sum fits in the left-hand representation; likewise `Pixels(a) -
/// Pixels(b) == Pixels(a - b)` whenever `b <= a`.
pub proof fn lemma_mixed_pixel_arithmetic(a: Pixels<u16>, b: Pixels<u8>)
    ensures
        <Pixels<u16> as AddSpec<Pixels<u8>>>::obeys_add_spec(),
        <Pixels<u16> as SubSpec<Pixels<u8>>>::obeys_sub_spec(),
        a.add_req(b) <==> a.value + b.value <= u16::MAX,
        a.value + b.value <= u16::MAX ==> a.add_spec(b) == (Pixels {
            value: (a.value + b.value) as u16,
        }),
        a.sub_req(b) <==> b.value <= a.value,
        b.value <= a.value ==> a.sub_spec(b) == (Pixels { value: (a.value - b.value) as u16 }),
{
}

/// Pixel addition behaves as addition of the values: `Pixels(a) +
/// Pixels(b) == Pixels(a + b)`, and it is commutative and associative,
/// whenever the sums fit in 16 bits.
pub proof fn lemma_pixel_addition(a: Pixels<u16>, b: Pixels<u16>, c: Pixels<u16>)
    requires
        a.value + b.value + c.value <= u16::MAX,
    ensures
        <Pixels<u16> as AddSpec<Pixels<u16>>>::obeys_add_spec(),
        a.add_req(b),
        a.add_spec(b) == (Pixels { value: (a.value + b.value) as u16 }),
        a.add_spec(b) == b.add_spec(a),
        a.add_spec(b).add_req(c),
        a.add_req(b.add_spec(c)),
        a.add_spec(b).add_spec(c) == a.add_spec(b.add_spec(c)),
{
}

} // verus!
