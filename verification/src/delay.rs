//! Generic delay algebra.
//!
//! An architecture chooses one numeric delay unit `D`; the kernel only
//! needs it to be copyable, ordered and closed under addition and
//! subtraction inside the unit's representable range.  `Delay<D>` wraps a
//! single value, `DelayPair<D>` a (min, max) pair, and `DelayQuad<D>` a
//! pair of pairs for the rising and falling edges.
//!
//! Every delay is abstracted to a mathematical integer through
//! [`DelayTrait::delay_value`]; all contracts of this module speak of that
//! abstraction.  Whether min never exceeds max in a `DelayPair` is the
//! caller's business: an inverted pair is stored as given, as documented
//! for the constructors.

use vstd::prelude::*;

verus! {

/// The capabilities the kernel asks of a delay unit.
///
/// Implementations must make `delay_value` injective (a delay unit is a
/// number, nothing more), and must make the executable arithmetic agree
/// with integer arithmetic whenever the result fits the unit's range.
pub trait DelayTrait: Copy + Sized {
    /// The mathematical value of this delay.
    spec fn delay_value(self) -> int;

    /// Whether the mathematical value `v` is representable in this unit.
    spec fn fits(v: int) -> bool;

    /// The unit's addition, as a spec-level function.
    spec fn delay_plus(self, other: Self) -> Self;

    /// The unit's subtraction, as a spec-level function.
    spec fn delay_minus(self, other: Self) -> Self;

    /// Two delays of equal value are the same delay.
    proof fn lemma_value_injective(self, other: Self)
        requires
            self.delay_value() == other.delay_value(),
        ensures
            self == other,
    ;

    /// Addition agrees with integer addition when the sum fits.
    proof fn lemma_add(self, other: Self)
        requires
            Self::fits(self.delay_value() + other.delay_value()),
        ensures
            self.delay_plus(other).delay_value() == self.delay_value() + other.delay_value(),
    ;

    /// Subtraction agrees with integer subtraction when the difference fits.
    proof fn lemma_sub(self, other: Self)
        requires
            Self::fits(self.delay_value() - other.delay_value()),
        ensures
            self.delay_minus(other).delay_value() == self.delay_value() - other.delay_value(),
    ;

    /// The unit's zero.
    fn new() -> (r: Self)
        ensures
            r.delay_value() == 0,
    ;

    /// Executable addition.
    fn add_delay(self, other: Self) -> (r: Self)
        requires
            Self::fits(self.delay_value() + other.delay_value()),
        ensures
            r == self.delay_plus(other),
    ;

    /// Executable subtraction.
    fn sub_delay(self, other: Self) -> (r: Self)
        requires
            Self::fits(self.delay_value() - other.delay_value()),
        ensures
            r == self.delay_minus(other),
    ;

    /// Executable comparison.
    fn le_delay(self, other: Self) -> (r: bool)
        ensures
            r == (self.delay_value() <= other.delay_value()),
    ;

    /// Executable equality of values.
    fn eq_delay(self, other: Self) -> (r: bool)
        ensures
            r == (self.delay_value() == other.delay_value()),
    ;
}

impl DelayTrait for i64 {
    open spec fn delay_value(self) -> int {
        self as int
    }

    open spec fn fits(v: int) -> bool {
        i64::MIN <= v <= i64::MAX
    }

    open spec fn delay_plus(self, other: Self) -> Self {
        (self + other) as i64
    }

    open spec fn delay_minus(self, other: Self) -> Self {
        (self - other) as i64
    }

    proof fn lemma_value_injective(self, other: Self) {
    }

    proof fn lemma_add(self, other: Self) {
    }

    proof fn lemma_sub(self, other: Self) {
    }

    fn new() -> (r: Self) {
        0
    }

    fn add_delay(self, other: Self) -> (r: Self) {
        self + other
    }

    fn sub_delay(self, other: Self) -> (r: Self) {
        self - other
    }

    fn le_delay(self, other: Self) -> (r: bool) {
        self <= other
    }

    fn eq_delay(self, other: Self) -> (r: bool) {
        self == other
    }
}

/// A single delay value of the architecture's unit `D`.
#[derive(Debug, Copy, Clone, Hash)]
pub struct Delay<D>(D) where D: DelayTrait;

impl<D: DelayTrait> View for Delay<D> {
    type V = int;

    /// A delay is abstractly its mathematical value.
    closed spec fn view(&self) -> int {
        self.0.delay_value()
    }
}

impl<D: DelayTrait> Delay<D> {
    /// The zero delay.
    pub fn new() -> (r: Self)
        ensures
            r@ == 0,
    {
        Delay(D::new())
    }

    /// Wraps one value of the unit.
    pub fn with_delay(value: D) -> (r: Self)
        ensures
            r@ == value.delay_value(),
    {
        Delay(value)
    }

    /// Spec-level counterpart of `with_delay`.
    pub closed spec fn spec_with_delay(value: D) -> Delay<D> {
        Delay(value)
    }

    /// `spec_with_delay` wraps without changing the value.
    pub proof fn lemma_spec_with_delay(value: D)
        ensures
            Self::spec_with_delay(value)@ == value.delay_value(),
    {
    }

    /// Spec-level addition of two delays.
    pub closed spec fn sum_spec(self, rhs: Self) -> Self {
        Delay(self.0.delay_plus(rhs.0))
    }

    /// Spec-level subtraction of two delays.
    pub closed spec fn diff_spec(self, rhs: Self) -> Self {
        Delay(self.0.delay_minus(rhs.0))
    }

    /// Addition of delays adds their values.
    pub proof fn lemma_sum_spec(self, rhs: Self)
        requires
            D::fits(self@ + rhs@),
        ensures
            self.sum_spec(rhs)@ == self@ + rhs@,
    {
        self.0.lemma_add(rhs.0);
    }

    /// Subtraction of delays subtracts their values.
    pub proof fn lemma_diff_spec(self, rhs: Self)
        requires
            D::fits(self@ - rhs@),
        ensures
            self.diff_spec(rhs)@ == self@ - rhs@,
    {
        self.0.lemma_sub(rhs.0);
    }

    /// Delays of equal value are equal.
    pub proof fn lemma_view_injective(self, other: Self)
        requires
            self@ == other@,
        ensures
            self == other,
    {
        self.0.lemma_value_injective(other.0);
    }

    /// Executable comparison of two delays.
    pub fn le(&self, other: &Self) -> (r: bool)
        ensures
            r == (self@ <= other@),
    {
        self.0.le_delay(other.0)
    }
}

impl<D: DelayTrait> PartialEq for Delay<D> {
    /// Two delays are equal iff their values are.
    fn eq(&self, other: &Self) -> (r: bool) {
        self.0.eq_delay(other.0)
    }
}

impl<D: DelayTrait> vstd::std_specs::cmp::PartialEqSpecImpl for Delay<D> {
    open spec fn obeys_eq_spec() -> bool {
        true
    }

    open spec fn eq_spec(&self, other: &Self) -> bool {
        self@ == other@
    }
}

impl<D: DelayTrait> Eq for Delay<D> {}

impl<D: DelayTrait> core::ops::Add for Delay<D> {
    type Output = Delay<D>;

    /// The sum of two delays; the values must fit the unit's range.
    fn add(self, rhs: Self) -> (r: Self) {
        Delay(self.0.add_delay(rhs.0))
    }
}

impl<D: DelayTrait> vstd::std_specs::ops::AddSpecImpl for Delay<D> {
    open spec fn obeys_add_spec() -> bool {
        true
    }

    open spec fn add_req(self, rhs: Self) -> bool {
        D::fits(self@ + rhs@)
    }

    open spec fn add_spec(self, rhs: Self) -> Self {
        self.sum_spec(rhs)
    }
}

impl<D: DelayTrait> core::ops::Sub for Delay<D> {
    type Output = Delay<D>;

    /// The difference of two delays; the values must fit the unit's range.
    fn sub(self, rhs: Self) -> (r: Self) {
        Delay(self.0.sub_delay(rhs.0))
    }
}

impl<D: DelayTrait> vstd::std_specs::ops::SubSpecImpl for Delay<D> {
    open spec fn obeys_sub_spec() -> bool {
        true
    }

    open spec fn sub_req(self, rhs: Self) -> bool {
        D::fits(self@ - rhs@)
    }

    open spec fn sub_spec(self, rhs: Self) -> Self {
        self.diff_spec(rhs)
    }
}

impl<D: DelayTrait> Default for Delay<D> {
    /// The default delay is zero.
    fn default() -> (r: Self)
        ensures
            r@ == 0,
    {
        Delay(D::new())
    }
}

impl From<i64> for Delay<i64> {
    /// Wraps a raw `i64` delay value.
    fn from(value: i64) -> (r: Self) {
        Delay(value)
    }
}

impl vstd::std_specs::convert::FromSpecImpl<i64> for Delay<i64> {
    open spec fn obeys_from_spec() -> bool {
        true
    }

    open spec fn from_spec(value: i64) -> Self {
        Delay::spec_with_delay(value)
    }
}

/// Adding a delay and then subtracting the same delay gives back the
/// original delay, whenever the intermediate sum fits the unit's range.
pub proof fn lemma_delay_add_sub_cancels<D: DelayTrait>(a: Delay<D>, b: Delay<D>)
    requires
        D::fits(a@ + b@),
        D::fits(a@),
    ensures
        a.sum_spec(b).diff_spec(b) == a,
{
    a.lemma_sum_spec(b);
    assert(a.sum_spec(b)@ - b@ == a@);
    a.sum_spec(b).lemma_diff_spec(b);
    a.sum_spec(b).diff_spec(b).lemma_view_injective(a);
}

/// A (minimum, maximum) delay pair.
///
/// No relation between the two components is enforced: the constructors
/// store what they are given, and callers that need `min <= max` must
/// establish it themselves.
#[derive(Debug, Copy, Clone, Hash)]
pub struct DelayPair<D>
where
    D: DelayTrait,
{
    min_delay: Delay<D>,
    max_delay: Delay<D>,
}

impl<D: DelayTrait> View for DelayPair<D> {
    type V = (int, int);

    /// A pair is abstractly its (min, max) values.
    closed spec fn view(&self) -> (int, int) {
        (self.min_delay@, self.max_delay@)
    }
}

impl<D: DelayTrait> DelayPair<D> {
    /// The zero pair.
    pub fn new() -> (r: Self)
        ensures
            r@ == (0int, 0int),
    {
        Self { min_delay: Delay::new(), max_delay: Delay::new() }
    }

    /// The pair with both components equal to `delay`.
    pub fn with_delay(delay: Delay<D>) -> (r: Self)
        ensures
            r@ == (delay@, delay@),
    {
        Self { min_delay: delay, max_delay: delay }
    }

    /// The pair of the two given components, stored as given.
    pub fn with_min_max(min_delay: Delay<D>, max_delay: Delay<D>) -> (r: Self)
        ensures
            r@ == (min_delay@, max_delay@),
    {
        Self { min_delay, max_delay }
    }

    /// Spec-level counterpart of `with_min_max`.
    pub closed spec fn spec_with_min_max(min_delay: Delay<D>, max_delay: Delay<D>) -> Self {
        DelayPair { min_delay, max_delay }
    }

    /// The minimum component.
    pub fn min_delay(&self) -> (r: Delay<D>)
        ensures
            r@ == self@.0,
    {
        self.min_delay
    }

    /// The maximum component.
    pub fn max_delay(&self) -> (r: Delay<D>)
        ensures
            r@ == self@.1,
    {
        self.max_delay
    }

    /// Spec-level component-wise addition.
    pub closed spec fn sum_spec(self, rhs: Self) -> Self {
        DelayPair {
            min_delay: self.min_delay.sum_spec(rhs.min_delay),
            max_delay: self.max_delay.sum_spec(rhs.max_delay),
        }
    }

    /// Spec-level component-wise subtraction.
    pub closed spec fn diff_spec(self, rhs: Self) -> Self {
        DelayPair {
            min_delay: self.min_delay.diff_spec(rhs.min_delay),
            max_delay: self.max_delay.diff_spec(rhs.max_delay),
        }
    }

    /// Component-wise addition adds the component values.
    pub proof fn lemma_sum_spec(self, rhs: Self)
        requires
            D::fits(self@.0 + rhs@.0),
            D::fits(self@.1 + rhs@.1),
        ensures
            self.sum_spec(rhs)@ == (self@.0 + rhs@.0, self@.1 + rhs@.1),
    {
        self.min_delay.lemma_sum_spec(rhs.min_delay);
        self.max_delay.lemma_sum_spec(rhs.max_delay);
    }

    /// Component-wise subtraction subtracts the component values.
    pub proof fn lemma_diff_spec(self, rhs: Self)
        requires
            D::fits(self@.0 - rhs@.0),
            D::fits(self@.1 - rhs@.1),
        ensures
            self.diff_spec(rhs)@ == (self@.0 - rhs@.0, self@.1 - rhs@.1),
    {
        self.min_delay.lemma_diff_spec(rhs.min_delay);
        self.max_delay.lemma_diff_spec(rhs.max_delay);
    }

    /// Pairs of equal component values are equal.
    pub proof fn lemma_view_injective(self, other: Self)
        requires
            self@ == other@,
        ensures
            self == other,
    {
        self.min_delay.lemma_view_injective(other.min_delay);
        self.max_delay.lemma_view_injective(other.max_delay);
    }
}

impl<D: DelayTrait> PartialEq for DelayPair<D> {
    /// Two pairs are equal iff both component values are.
    fn eq(&self, other: &Self) -> (r: bool) {
        let min_eq = self.min_delay == other.min_delay;
        let max_eq = self.max_delay == other.max_delay;
        min_eq && max_eq
    }
}

impl<D: DelayTrait> vstd::std_specs::cmp::PartialEqSpecImpl for DelayPair<D> {
    open spec fn obeys_eq_spec() -> bool {
        true
    }

    open spec fn eq_spec(&self, other: &Self) -> bool {
        self@ == other@
    }
}

impl<D: DelayTrait> Eq for DelayPair<D> {}

impl<D: DelayTrait> core::ops::Add for DelayPair<D> {
    type Output = DelayPair<D>;

    /// Component-wise sum of two pairs.
    fn add(self, rhs: Self) -> (r: Self) {
        DelayPair {
            min_delay: self.min_delay + rhs.min_delay,
            max_delay: self.max_delay + rhs.max_delay,
        }
    }
}

impl<D: DelayTrait> vstd::std_specs::ops::AddSpecImpl for DelayPair<D> {
    open spec fn obeys_add_spec() -> bool {
        true
    }

    open spec fn add_req(self, rhs: Self) -> bool {
        D::fits(self@.0 + rhs@.0) && D::fits(self@.1 + rhs@.1)
    }

    open spec fn add_spec(self, rhs: Self) -> Self {
        self.sum_spec(rhs)
    }
}

impl<D: DelayTrait> core::ops::Sub for DelayPair<D> {
    type Output = DelayPair<D>;

    /// Component-wise difference of two pairs.
    fn sub(self, rhs: Self) -> (r: Self) {
        DelayPair {
            min_delay: self.min_delay - rhs.min_delay,
            max_delay: self.max_delay - rhs.max_delay,
        }
    }
}

impl<D: DelayTrait> vstd::std_specs::ops::SubSpecImpl for DelayPair<D> {
    open spec fn obeys_sub_spec() -> bool {
        true
    }

    open spec fn sub_req(self, rhs: Self) -> bool {
        D::fits(self@.0 - rhs@.0) && D::fits(self@.1 - rhs@.1)
    }

    open spec fn sub_spec(self, rhs: Self) -> Self {
        self.diff_spec(rhs)
    }
}

impl<D: DelayTrait> Default for DelayPair<D> {
    /// The default pair is the zero pair.
    fn default() -> (r: Self)
        ensures
            r@ == (0int, 0int),
    {
        DelayPair::new()
    }
}

/// The sum of two pairs built by `with_min_max` is the pair built from
/// the component sums.
pub proof fn lemma_delay_pair_add_componentwise<D: DelayTrait>(
    a: Delay<D>,
    b: Delay<D>,
    c: Delay<D>,
    d: Delay<D>,
)
    requires
        D::fits(a@ + c@),
        D::fits(b@ + d@),
    ensures
        DelayPair::spec_with_min_max(a, b).sum_spec(DelayPair::spec_with_min_max(c, d))
            == DelayPair::spec_with_min_max(a.sum_spec(c), b.sum_spec(d)),
{
}

/// Rise and fall delay pairs of one timing arc.
#[derive(Debug, Copy, Clone, Hash)]
pub struct DelayQuad<D>
where
    D: DelayTrait,
{
    rise: DelayPair<D>,
    fall: DelayPair<D>,
}

impl<D: DelayTrait> View for DelayQuad<D> {
    type V = ((int, int), (int, int));

    /// A quad is abstractly its (rise, fall) pair values.
    closed spec fn view(&self) -> ((int, int), (int, int)) {
        (self.rise@, self.fall@)
    }
}

impl<D: DelayTrait> DelayQuad<D> {
    /// The zero quad.
    pub fn new() -> (r: Self)
        ensures
            r@ == ((0int, 0int), (0int, 0int)),
    {
        Self { rise: DelayPair::new(), fall: DelayPair::new() }
    }

    /// The quad with all four components equal to `delay`.
    pub fn with_delay(delay: Delay<D>) -> (r: Self)
        ensures
            r@ == ((delay@, delay@), (delay@, delay@)),
    {
        Self { rise: DelayPair::with_delay(delay), fall: DelayPair::with_delay(delay) }
    }

    /// The quad with both edges set to the given (min, max) pair.
    pub fn with_min_max(min_delay: Delay<D>, max_delay: Delay<D>) -> (r: Self)
        ensures
            r@ == ((min_delay@, max_delay@), (min_delay@, max_delay@)),
    {
        Self {
            rise: DelayPair::with_min_max(min_delay, max_delay),
            fall: DelayPair::with_min_max(min_delay, max_delay),
        }
    }

    /// The quad of the two given edge pairs.
    pub fn with_rise_fall(rise: DelayPair<D>, fall: DelayPair<D>) -> (r: Self)
        ensures
            r@ == (rise@, fall@),
    {
        Self { rise, fall }
    }

    /// The quad of four explicit components.
    pub fn with_rise_fall_min_max(
        min_rise: Delay<D>,
        max_rise: Delay<D>,
        min_fall: Delay<D>,
        max_fall: Delay<D>,
    ) -> (r: Self)
        ensures
            r@ == ((min_rise@, max_rise@), (min_fall@, max_fall@)),
    {
        Self {
            rise: DelayPair::with_min_max(min_rise, max_rise),
            fall: DelayPair::with_min_max(min_fall, max_fall),
        }
    }

    /// The minimum rising-edge delay.
    pub fn min_rise_delay(&self) -> (r: Delay<D>)
        ensures
            r@ == self@.0.0,
    {
        self.rise.min_delay()
    }

    /// The maximum rising-edge delay.
    pub fn max_rise_delay(&self) -> (r: Delay<D>)
        ensures
            r@ == self@.0.1,
    {
        self.rise.max_delay()
    }

    /// The minimum falling-edge delay.
    pub fn min_fall_felay(&self) -> (r: Delay<D>)
        ensures
            r@ == self@.1.0,
    {
        self.fall.min_delay()
    }

    /// The maximum falling-edge delay.
    pub fn max_fall_delay(&self) -> (r: Delay<D>)
        ensures
            r@ == self@.1.1,
    {
        self.fall.max_delay()
    }

    /// The smaller of the two minimum components.
    pub fn min_delay(&self) -> (r: Delay<D>)
        ensures
            r@ == if self@.0.0 <= self@.1.0 {
                self@.0.0
            } else {
                self@.1.0
            },
    {
        let rise_min = self.rise.min_delay();
        let fall_min = self.fall.min_delay();
        if rise_min.le(&fall_min) {
            rise_min
        } else {
            fall_min
        }
    }

    /// The larger of the two maximum components.
    pub fn max_delay(&self) -> (r: Delay<D>)
        ensures
            r@ == if self@.0.1 >= self@.1.1 {
                self@.0.1
            } else {
                self@.1.1
            },
    {
        let rise_max = self.rise.max_delay();
        let fall_max = self.fall.max_delay();
        if fall_max.le(&rise_max) {
            rise_max
        } else {
            fall_max
        }
    }

    /// Spec-level component-wise addition.
    pub closed spec fn sum_spec(self, rhs: Self) -> Self {
        DelayQuad { rise: self.rise.sum_spec(rhs.rise), fall: self.fall.sum_spec(rhs.fall) }
    }

    /// Spec-level component-wise subtraction.
    pub closed spec fn diff_spec(self, rhs: Self) -> Self {
        DelayQuad { rise: self.rise.diff_spec(rhs.rise), fall: self.fall.diff_spec(rhs.fall) }
    }

    /// Component-wise addition adds the four component values.
    pub proof fn lemma_sum_spec(self, rhs: Self)
        requires
            D::fits(self@.0.0 + rhs@.0.0),
            D::fits(self@.0.1 + rhs@.0.1),
            D::fits(self@.1.0 + rhs@.1.0),
            D::fits(self@.1.1 + rhs@.1.1),
        ensures
            self.sum_spec(rhs)@ == ((self@.0.0 + rhs@.0.0, self@.0.1 + rhs@.0.1),
                (self@.1.0 + rhs@.1.0, self@.1.1 + rhs@.1.1)),
    {
        self.rise.lemma_sum_spec(rhs.rise);
        self.fall.lemma_sum_spec(rhs.fall);
    }

    /// Component-wise subtraction subtracts the four component values.
    pub proof fn lemma_diff_spec(self, rhs: Self)
        requires
            D::fits(self@.0.0 - rhs@.0.0),
            D::fits(self@.0.1 - rhs@.0.1),
            D::fits(self@.1.0 - rhs@.1.0),
            D::fits(self@.1.1 - rhs@.1.1),
        ensures
            self.diff_spec(rhs)@ == ((self@.0.0 - rhs@.0.0, self@.0.1 - rhs@.0.1),
                (self@.1.0 - rhs@.1.0, self@.1.1 - rhs@.1.1)),
    {
        self.rise.lemma_diff_spec(rhs.rise);
        self.fall.lemma_diff_spec(rhs.fall);
    }

    /// The (min, max) pair reduced across both edges.
    pub fn delay_pair(&self) -> (r: DelayPair<D>)
        ensures
            r@.0 == if self@.0.0 <= self@.1.0 {
                self@.0.0
            } else {
                self@.1.0
            },
            r@.1 == if self@.0.1 >= self@.1.1 {
                self@.0.1
            } else {
                self@.1.1
            },
    {
        DelayPair::with_min_max(self.min_delay(), self.max_delay())
    }
}

impl<D: DelayTrait> PartialEq for DelayQuad<D> {
    /// Two quads are equal iff all four component values are.
    fn eq(&self, other: &Self) -> (r: bool) {
        let rise_eq = self.rise == other.rise;
        let fall_eq = self.fall == other.fall;
        rise_eq && fall_eq
    }
}

impl<D: DelayTrait> vstd::std_specs::cmp::PartialEqSpecImpl for DelayQuad<D> {
    open spec fn obeys_eq_spec() -> bool {
        true
    }

    open spec fn eq_spec(&self, other: &Self) -> bool {
        self@ == other@
    }
}

impl<D: DelayTrait> Eq for DelayQuad<D> {}

impl<D: DelayTrait> core::ops::Add for DelayQuad<D> {
    type Output = DelayQuad<D>;

    /// Component-wise sum of two quads.
    fn add(self, rhs: Self) -> (r: Self) {
        DelayQuad { rise: self.rise + rhs.rise, fall: self.fall + rhs.fall }
    }
}

impl<D: DelayTrait> vstd::std_specs::ops::AddSpecImpl for DelayQuad<D> {
    open spec fn obeys_add_spec() -> bool {
        true
    }

    open spec fn add_req(self, rhs: Self) -> bool {
        &&& D::fits(self@.0.0 + rhs@.0.0)
        &&& D::fits(self@.0.1 + rhs@.0.1)
        &&& D::fits(self@.1.0 + rhs@.1.0)
        &&& D::fits(self@.1.1 + rhs@.1.1)
    }

    open spec fn add_spec(self, rhs: Self) -> Self {
        self.sum_spec(rhs)
    }
}

impl<D: DelayTrait> core::ops::Sub for DelayQuad<D> {
    type Output = DelayQuad<D>;

    /// Component-wise difference of two quads.
    fn sub(self, rhs: Self) -> (r: Self) {
        DelayQuad { rise: self.rise - rhs.rise, fall: self.fall - rhs.fall }
    }
}

impl<D: DelayTrait> vstd::std_specs::ops::SubSpecImpl for DelayQuad<D> {
    open spec fn obeys_sub_spec() -> bool {
        true
    }

    open spec fn sub_req(self, rhs: Self) -> bool {
        &&& D::fits(self@.0.0 - rhs@.0.0)
        &&& D::fits(self@.0.1 - rhs@.0.1)
        &&& D::fits(self@.1.0 - rhs@.1.0)
        &&& D::fits(self@.1.1 - rhs@.1.1)
    }

    open spec fn sub_spec(self, rhs: Self) -> Self {
        self.diff_spec(rhs)
    }
}

impl<D: DelayTrait> Default for DelayQuad<D> {
    /// The default quad is the zero quad.
    fn default() -> (r: Self)
        ensures
            r@ == ((0int, 0int), (0int, 0int)),
    {
        DelayQuad::new()
    }
}

} // verus!
