//! Dimension values: absolute or relative, in pixels or as a percentage of
//! a container, with their conversions and their textual form.
//!
//! A percentage is held exactly, as a whole number of millionths of a
//! percent: `AbsolutePercentage(33_333_000)` is 33.333 %.
use crate::numeric::{
    clamp, clamp_i64, clamp_u32, lemma_round_quotient_bound, lemma_round_quotient_error,
    round_div, round_quotient, wide_product,
};
use crate::text::{
    chars_of, decimal_digits, fraction_digits, is_digit, lemma_digits_spell_their_number,
    push_decimal, push_fraction, ends_with_percent, fit_i32, fit_i64, fit_u32, fraction_text, has_percent,
    read_fraction_text, read_signed, read_unsigned, signed_text, starts_with_sign, strip_percent,
    strip_px, unsigned_text, without_percent, without_px,
};
use vstd::std_specs::convert::FromSpecImpl;
use vstd::std_specs::ops::{AddSpecImpl, SubSpecImpl};
use vstd::prelude::*;
use vstd::string::StringExecFns;

verus! {

/// Millionths in one percent.
pub const PER_PERCENT: i64 = 1_000_000;

/// A size in pixels.
#[derive(Debug, Clone, Copy, PartialEq, Eq, Structural)]
pub struct AbsolutePixels(pub u32);

/// A change of size in pixels.
#[derive(Debug, Clone, Copy, PartialEq, Eq, Structural)]
pub struct RelativePixels(pub i32);

/// A size as a share of the container, in millionths of a percent.
#[derive(Debug, Clone, Copy, PartialEq, Eq, Structural)]
pub struct AbsolutePercentage(pub i64);

/// A change of size as a share of the container, in millionths of a percent.
#[derive(Debug, Clone, Copy, PartialEq, Eq, Structural)]
pub struct RelativePercentage(pub i64);

/// A size that stands by itself (ex: `100px` or `33.333%`).
#[derive(Debug, Clone, Copy, PartialEq, Eq, Structural)]
pub enum AbsoluteUnit {
    /// A dimension in pixels (ex: `100` or `100px`)
    Pixels(AbsolutePixels),
    /// A dimension as a percentage (ex: `33.333%`)
    Percentage(AbsolutePercentage),
}

/// A change applied to a current size (ex: `+100px` or `-5%`).
#[derive(Debug, Clone, Copy, PartialEq, Eq, Structural)]
pub enum RelativeUnit {
    /// A relative dimension in pixels (ex: `+100` or `-100px`)
    Pixels(RelativePixels),
    /// A relative dimension as a percentage (ex: `-5%`)
    Percentage(RelativePercentage),
}

/// A dimension as a request may give it.
#[derive(Debug, Clone, Copy, PartialEq, Eq, Structural)]
pub enum Unit {
    /// A relative dimension (ex: `+100px` or `-5%`)
    Relative(RelativeUnit),
    /// An absolute dimension (ex: `100px` or `33.333%`)
    Absolute(AbsoluteUnit),
}

/// Why a text is no dimension.
#[derive(Debug, Clone, Copy, PartialEq, Eq, Structural)]
pub enum ParseUnitError {
    /// The pixel count is no integer of the expected range.
    InvalidInteger,
    /// The percentage is no decimal number of the expected range.
    InvalidDecimal,
}

/// The share that `pixels` are of `container`, in millionths of a percent,
/// rounded to the nearest hundredth of a percent; 0 for an empty container.
pub open spec fn percentage_of(pixels: int, container: int) -> int {
    round_quotient(pixels * 10_000, container) * 10_000
}

/// The pixels that `share` millionths of a percent of `container` come to,
/// rounded to the nearest pixel.
pub open spec fn pixels_of(share: int, container: int) -> int {
    round_quotient(share * container, 100_000_000)
}

/// A size of `current` pixels after a change of `change` pixels: their sum,
/// kept within the range of a pixel count, so never below 0.
pub open spec fn shifted_pixels(current: int, change: int) -> AbsolutePixels {
    AbsolutePixels(clamp(current + change, 0, u32::MAX as int) as u32)
}

/// A share of `current` after a change of `change`: their sum, kept within
/// the range of a share.
pub open spec fn shifted_share(current: int, change: int) -> AbsolutePercentage {
    AbsolutePercentage(clamp(current + change, i64::MIN as int, i64::MAX as int) as i64)
}

/// A container's extent as the conversions take it.
pub open spec fn extent_of(container: AbsolutePixels) -> int {
    clamp(container.0 as int, 0, i32::MAX as int)
}

/// Pixels turned into a share of a container and back come out within
/// `container / 20000 + 1/2` of where they started. So they come back
/// within one pixel in a container of fewer than 30000 pixels, and
/// unchanged in one of fewer than 10000.
pub proof fn lemma_percentage_round_trip(pixels: AbsolutePixels, container: i32)
    requires
        container > 0,
    ensures
        ({
            let back = clamp(
                pixels_of(percentage_of(pixels.0 as int, container as int), container as int),
                0,
                u32::MAX as int,
            );
            &&& 20_000 * (back - pixels.0) <= container + 10_000
            &&& 20_000 * (pixels.0 - back) <= container + 10_000
            &&& container < 30_000 ==> pixels.0 - 1 <= back <= pixels.0 + 1
            &&& container < 10_000 ==> back == pixels.0
        }),
{
    let p = pixels.0 as int;
    let c = container as int;
    let h = round_quotient(p * 10_000, c);
    let a = c * h;
    let q = round_quotient((h * 10_000) * c, 100_000_000);
    lemma_round_quotient_error(p * 10_000, c);
    assert((h * 10_000) * c == 10_000 * a) by (nonlinear_arith)
        requires
            a == c * h,
    ;
    lemma_round_quotient_error(10_000 * a, 100_000_000);
    assert(100_000_000 * q == 100_000_000 * round_quotient(10_000 * a, 100_000_000));
}

impl AbsolutePixels {
    /// This size as a share of `container_px`, to the nearest hundredth of a
    /// percent.
    pub fn as_absolute_percentage(&self, container_px: i32) -> (r: AbsolutePercentage)
        ensures
            r.0 == percentage_of(self.0 as int, container_px as int),
    {
        let n: i128 = self.0 as i128 * 10_000;
        let q: i128 = round_div(n, container_px as i128);
        proof {
            lemma_round_quotient_bound(n as int, container_px as int);
        }
        AbsolutePercentage((q * 10_000) as i64)
    }
}

impl AbsolutePercentage {
    /// The pixels that this share of `container_px` comes to, kept within
    /// the range of a pixel count.
    pub fn as_absolute_pixels(&self, container_px: i32) -> (r: AbsolutePixels)
        ensures
            r.0 == clamp(pixels_of(self.0 as int, container_px as int), 0, u32::MAX as int),
    {
        let n: i128 = wide_product(self.0, container_px);
        AbsolutePixels(clamp_u32(round_div(n, 100_000_000)))
    }
}

/// A count of pixels as a size.
impl From<u32> for AbsolutePixels {
    fn from(value: u32) -> AbsolutePixels {
        AbsolutePixels(value)
    }
}

impl FromSpecImpl<u32> for AbsolutePixels {
    open spec fn obeys_from_spec() -> bool {
        true
    }

    open spec fn from_spec(value: u32) -> AbsolutePixels {
        AbsolutePixels(value)
    }
}

/// A count of pixels as a change.
impl From<i32> for RelativePixels {
    fn from(value: i32) -> RelativePixels {
        RelativePixels(value)
    }
}

impl FromSpecImpl<i32> for RelativePixels {
    open spec fn obeys_from_spec() -> bool {
        true
    }

    open spec fn from_spec(value: i32) -> RelativePixels {
        RelativePixels(value)
    }
}

/// A count of millionths of a percent as a share.
impl From<i64> for AbsolutePercentage {
    fn from(value: i64) -> AbsolutePercentage {
        AbsolutePercentage(value)
    }
}

impl FromSpecImpl<i64> for AbsolutePercentage {
    open spec fn obeys_from_spec() -> bool {
        true
    }

    open spec fn from_spec(value: i64) -> AbsolutePercentage {
        AbsolutePercentage(value)
    }
}

/// A count of millionths of a percent as a change of share.
impl From<i64> for RelativePercentage {
    fn from(value: i64) -> RelativePercentage {
        RelativePercentage(value)
    }
}

impl FromSpecImpl<i64> for RelativePercentage {
    open spec fn obeys_from_spec() -> bool {
        true
    }

    open spec fn from_spec(value: i64) -> RelativePercentage {
        RelativePercentage(value)
    }
}

/// A size in pixels as an absolute dimension.
impl From<AbsolutePixels> for AbsoluteUnit {
    fn from(value: AbsolutePixels) -> AbsoluteUnit {
        AbsoluteUnit::Pixels(value)
    }
}

impl FromSpecImpl<AbsolutePixels> for AbsoluteUnit {
    open spec fn obeys_from_spec() -> bool {
        true
    }

    open spec fn from_spec(value: AbsolutePixels) -> AbsoluteUnit {
        AbsoluteUnit::Pixels(value)
    }
}

/// A share as an absolute dimension.
impl From<AbsolutePercentage> for AbsoluteUnit {
    fn from(value: AbsolutePercentage) -> AbsoluteUnit {
        AbsoluteUnit::Percentage(value)
    }
}

impl FromSpecImpl<AbsolutePercentage> for AbsoluteUnit {
    open spec fn obeys_from_spec() -> bool {
        true
    }

    open spec fn from_spec(value: AbsolutePercentage) -> AbsoluteUnit {
        AbsoluteUnit::Percentage(value)
    }
}

/// A change in pixels as a relative dimension.
impl From<RelativePixels> for RelativeUnit {
    fn from(value: RelativePixels) -> RelativeUnit {
        RelativeUnit::Pixels(value)
    }
}

impl FromSpecImpl<RelativePixels> for RelativeUnit {
    open spec fn obeys_from_spec() -> bool {
        true
    }

    open spec fn from_spec(value: RelativePixels) -> RelativeUnit {
        RelativeUnit::Pixels(value)
    }
}

/// A change of share as a relative dimension.
impl From<RelativePercentage> for RelativeUnit {
    fn from(value: RelativePercentage) -> RelativeUnit {
        RelativeUnit::Percentage(value)
    }
}

impl FromSpecImpl<RelativePercentage> for RelativeUnit {
    open spec fn obeys_from_spec() -> bool {
        true
    }

    open spec fn from_spec(value: RelativePercentage) -> RelativeUnit {
        RelativeUnit::Percentage(value)
    }
}

/// An absolute dimension as a dimension.
impl From<AbsoluteUnit> for Unit {
    fn from(value: AbsoluteUnit) -> Unit {
        Unit::Absolute(value)
    }
}

impl FromSpecImpl<AbsoluteUnit> for Unit {
    open spec fn obeys_from_spec() -> bool {
        true
    }

    open spec fn from_spec(value: AbsoluteUnit) -> Unit {
        Unit::Absolute(value)
    }
}

/// A relative dimension as a dimension.
impl From<RelativeUnit> for Unit {
    fn from(value: RelativeUnit) -> Unit {
        Unit::Relative(value)
    }
}

impl FromSpecImpl<RelativeUnit> for Unit {
    open spec fn obeys_from_spec() -> bool {
        true
    }

    open spec fn from_spec(value: RelativeUnit) -> Unit {
        Unit::Relative(value)
    }
}

/// A size in pixels as a dimension.
impl From<AbsolutePixels> for Unit {
    fn from(value: AbsolutePixels) -> Unit {
        Unit::Absolute(AbsoluteUnit::Pixels(value))
    }
}

impl FromSpecImpl<AbsolutePixels> for Unit {
    open spec fn obeys_from_spec() -> bool {
        true
    }

    open spec fn from_spec(value: AbsolutePixels) -> Unit {
        Unit::Absolute(AbsoluteUnit::Pixels(value))
    }
}

/// A change in pixels as a dimension.
impl From<RelativePixels> for Unit {
    fn from(value: RelativePixels) -> Unit {
        Unit::Relative(RelativeUnit::Pixels(value))
    }
}

impl FromSpecImpl<RelativePixels> for Unit {
    open spec fn obeys_from_spec() -> bool {
        true
    }

    open spec fn from_spec(value: RelativePixels) -> Unit {
        Unit::Relative(RelativeUnit::Pixels(value))
    }
}

/// A share as a dimension.
impl From<AbsolutePercentage> for Unit {
    fn from(value: AbsolutePercentage) -> Unit {
        Unit::Absolute(AbsoluteUnit::Percentage(value))
    }
}

impl FromSpecImpl<AbsolutePercentage> for Unit {
    open spec fn obeys_from_spec() -> bool {
        true
    }

    open spec fn from_spec(value: AbsolutePercentage) -> Unit {
        Unit::Absolute(AbsoluteUnit::Percentage(value))
    }
}

/// A change of share as a dimension.
impl From<RelativePercentage> for Unit {
    fn from(value: RelativePercentage) -> Unit {
        Unit::Relative(RelativeUnit::Percentage(value))
    }
}

impl FromSpecImpl<RelativePercentage> for Unit {
    open spec fn obeys_from_spec() -> bool {
        true
    }

    open spec fn from_spec(value: RelativePercentage) -> Unit {
        Unit::Relative(RelativeUnit::Percentage(value))
    }
}

/// The sum of two sizes.
impl core::ops::Add<AbsolutePixels> for AbsolutePixels {
    type Output = AbsolutePixels;

    fn add(self, other: AbsolutePixels) -> AbsolutePixels {
        AbsolutePixels(self.0 + other.0)
    }
}

impl AddSpecImpl<AbsolutePixels> for AbsolutePixels {
    open spec fn obeys_add_spec() -> bool {
        true
    }

    open spec fn add_req(self, other: AbsolutePixels) -> bool {
        self.0 + other.0 <= u32::MAX
    }

    open spec fn add_spec(self, other: AbsolutePixels) -> AbsolutePixels {
        AbsolutePixels((self.0 + other.0) as u32)
    }
}

/// The difference of two sizes, or nothing where the second is the larger.
impl core::ops::Sub<AbsolutePixels> for AbsolutePixels {
    type Output = AbsolutePixels;

    fn sub(self, other: AbsolutePixels) -> AbsolutePixels {
        AbsolutePixels(clamp_u32(self.0 as i128 - other.0 as i128))
    }
}

impl SubSpecImpl<AbsolutePixels> for AbsolutePixels {
    open spec fn obeys_sub_spec() -> bool {
        true
    }

    open spec fn sub_req(self, other: AbsolutePixels) -> bool {
        true
    }

    open spec fn sub_spec(self, other: AbsolutePixels) -> AbsolutePixels {
        AbsolutePixels(clamp(self.0 - other.0, 0, u32::MAX as int) as u32)
    }
}

/// A size after a change, never below nothing.
impl core::ops::Add<RelativePixels> for AbsolutePixels {
    type Output = AbsolutePixels;

    fn add(self, other: RelativePixels) -> AbsolutePixels {
        AbsolutePixels(clamp_u32(self.0 as i128 + other.0 as i128))
    }
}

impl AddSpecImpl<RelativePixels> for AbsolutePixels {
    open spec fn obeys_add_spec() -> bool {
        true
    }

    open spec fn add_req(self, other: RelativePixels) -> bool {
        true
    }

    open spec fn add_spec(self, other: RelativePixels) -> AbsolutePixels {
        AbsolutePixels(clamp(self.0 + other.0, 0, u32::MAX as int) as u32)
    }
}

/// A size after the opposite of a change, never below nothing.
impl core::ops::Sub<RelativePixels> for AbsolutePixels {
    type Output = AbsolutePixels;

    fn sub(self, other: RelativePixels) -> AbsolutePixels {
        AbsolutePixels(clamp_u32(self.0 as i128 - other.0 as i128))
    }
}

impl SubSpecImpl<RelativePixels> for AbsolutePixels {
    open spec fn obeys_sub_spec() -> bool {
        true
    }

    open spec fn sub_req(self, other: RelativePixels) -> bool {
        true
    }

    open spec fn sub_spec(self, other: RelativePixels) -> AbsolutePixels {
        AbsolutePixels(clamp(self.0 - other.0, 0, u32::MAX as int) as u32)
    }
}

/// Two changes one after the other.
impl core::ops::Add<RelativePixels> for RelativePixels {
    type Output = RelativePixels;

    fn add(self, other: RelativePixels) -> RelativePixels {
        RelativePixels(self.0 + other.0)
    }
}

impl AddSpecImpl<RelativePixels> for RelativePixels {
    open spec fn obeys_add_spec() -> bool {
        true
    }

    open spec fn add_req(self, other: RelativePixels) -> bool {
        i32::MIN <= self.0 + other.0 <= i32::MAX
    }

    open spec fn add_spec(self, other: RelativePixels) -> RelativePixels {
        RelativePixels((self.0 + other.0) as i32)
    }
}

/// A change less another.
impl core::ops::Sub<RelativePixels> for RelativePixels {
    type Output = RelativePixels;

    fn sub(self, other: RelativePixels) -> RelativePixels {
        RelativePixels(self.0 - other.0)
    }
}

impl SubSpecImpl<RelativePixels> for RelativePixels {
    open spec fn obeys_sub_spec() -> bool {
        true
    }

    open spec fn sub_req(self, other: RelativePixels) -> bool {
        i32::MIN <= self.0 - other.0 <= i32::MAX
    }

    open spec fn sub_spec(self, other: RelativePixels) -> RelativePixels {
        RelativePixels((self.0 - other.0) as i32)
    }
}

/// A change applied to a size, never below nothing.
impl core::ops::Add<AbsolutePixels> for RelativePixels {
    type Output = AbsolutePixels;

    fn add(self, other: AbsolutePixels) -> AbsolutePixels {
        AbsolutePixels(clamp_u32(self.0 as i128 + other.0 as i128))
    }
}

impl AddSpecImpl<AbsolutePixels> for RelativePixels {
    open spec fn obeys_add_spec() -> bool {
        true
    }

    open spec fn add_req(self, other: AbsolutePixels) -> bool {
        true
    }

    open spec fn add_spec(self, other: AbsolutePixels) -> AbsolutePixels {
        AbsolutePixels(clamp(self.0 + other.0, 0, u32::MAX as int) as u32)
    }
}

/// A change less a size, never below nothing.
impl core::ops::Sub<AbsolutePixels> for RelativePixels {
    type Output = AbsolutePixels;

    fn sub(self, other: AbsolutePixels) -> AbsolutePixels {
        AbsolutePixels(clamp_u32(self.0 as i128 - other.0 as i128))
    }
}

impl SubSpecImpl<AbsolutePixels> for RelativePixels {
    open spec fn obeys_sub_spec() -> bool {
        true
    }

    open spec fn sub_req(self, other: AbsolutePixels) -> bool {
        true
    }

    open spec fn sub_spec(self, other: AbsolutePixels) -> AbsolutePixels {
        AbsolutePixels(clamp(self.0 - other.0, 0, u32::MAX as int) as u32)
    }
}

/// The sum of two shares, kept within the range of a share.
impl core::ops::Add<AbsolutePercentage> for AbsolutePercentage {
    type Output = AbsolutePercentage;

    fn add(self, other: AbsolutePercentage) -> AbsolutePercentage {
        AbsolutePercentage(clamp_i64(self.0 as i128 + other.0 as i128))
    }
}

impl AddSpecImpl<AbsolutePercentage> for AbsolutePercentage {
    open spec fn obeys_add_spec() -> bool {
        true
    }

    open spec fn add_req(self, other: AbsolutePercentage) -> bool {
        true
    }

    open spec fn add_spec(self, other: AbsolutePercentage) -> AbsolutePercentage {
        AbsolutePercentage(clamp(self.0 + other.0, i64::MIN as int, i64::MAX as int) as i64)
    }
}

/// The difference of two shares, kept within the range of a share.
impl core::ops::Sub<AbsolutePercentage> for AbsolutePercentage {
    type Output = AbsolutePercentage;

    fn sub(self, other: AbsolutePercentage) -> AbsolutePercentage {
        AbsolutePercentage(clamp_i64(self.0 as i128 - other.0 as i128))
    }
}

impl SubSpecImpl<AbsolutePercentage> for AbsolutePercentage {
    open spec fn obeys_sub_spec() -> bool {
        true
    }

    open spec fn sub_req(self, other: AbsolutePercentage) -> bool {
        true
    }

    open spec fn sub_spec(self, other: AbsolutePercentage) -> AbsolutePercentage {
        AbsolutePercentage(clamp(self.0 - other.0, i64::MIN as int, i64::MAX as int) as i64)
    }
}

/// A share after a change, kept within the range of a share.
impl core::ops::Add<RelativePercentage> for AbsolutePercentage {
    type Output = AbsolutePercentage;

    fn add(self, other: RelativePercentage) -> AbsolutePercentage {
        AbsolutePercentage(clamp_i64(self.0 as i128 + other.0 as i128))
    }
}

impl AddSpecImpl<RelativePercentage> for AbsolutePercentage {
    open spec fn obeys_add_spec() -> bool {
        true
    }

    open spec fn add_req(self, other: RelativePercentage) -> bool {
        true
    }

    open spec fn add_spec(self, other: RelativePercentage) -> AbsolutePercentage {
        AbsolutePercentage(clamp(self.0 + other.0, i64::MIN as int, i64::MAX as int) as i64)
    }
}

/// A share after the opposite of a change, kept within the range of a share.
impl core::ops::Sub<RelativePercentage> for AbsolutePercentage {
    type Output = AbsolutePercentage;

    fn sub(self, other: RelativePercentage) -> AbsolutePercentage {
        AbsolutePercentage(clamp_i64(self.0 as i128 - other.0 as i128))
    }
}

impl SubSpecImpl<RelativePercentage> for AbsolutePercentage {
    open spec fn obeys_sub_spec() -> bool {
        true
    }

    open spec fn sub_req(self, other: RelativePercentage) -> bool {
        true
    }

    open spec fn sub_spec(self, other: RelativePercentage) -> AbsolutePercentage {
        AbsolutePercentage(clamp(self.0 - other.0, i64::MIN as int, i64::MAX as int) as i64)
    }
}

/// Two changes of share one after the other, kept within range.
impl core::ops::Add<RelativePercentage> for RelativePercentage {
    type Output = RelativePercentage;

    fn add(self, other: RelativePercentage) -> RelativePercentage {
        RelativePercentage(clamp_i64(self.0 as i128 + other.0 as i128))
    }
}

impl AddSpecImpl<RelativePercentage> for RelativePercentage {
    open spec fn obeys_add_spec() -> bool {
        true
    }

    open spec fn add_req(self, other: RelativePercentage) -> bool {
        true
    }

    open spec fn add_spec(self, other: RelativePercentage) -> RelativePercentage {
        RelativePercentage(clamp(self.0 + other.0, i64::MIN as int, i64::MAX as int) as i64)
    }
}

/// A change of share less another, kept within range.
impl core::ops::Sub<RelativePercentage> for RelativePercentage {
    type Output = RelativePercentage;

    fn sub(self, other: RelativePercentage) -> RelativePercentage {
        RelativePercentage(clamp_i64(self.0 as i128 - other.0 as i128))
    }
}

impl SubSpecImpl<RelativePercentage> for RelativePercentage {
    open spec fn obeys_sub_spec() -> bool {
        true
    }

    open spec fn sub_req(self, other: RelativePercentage) -> bool {
        true
    }

    open spec fn sub_spec(self, other: RelativePercentage) -> RelativePercentage {
        RelativePercentage(clamp(self.0 - other.0, i64::MIN as int, i64::MAX as int) as i64)
    }
}

/// A change applied to a share, kept within the range of a share.
impl core::ops::Add<AbsolutePercentage> for RelativePercentage {
    type Output = AbsolutePercentage;

    fn add(self, other: AbsolutePercentage) -> AbsolutePercentage {
        AbsolutePercentage(clamp_i64(self.0 as i128 + other.0 as i128))
    }
}

impl AddSpecImpl<AbsolutePercentage> for RelativePercentage {
    open spec fn obeys_add_spec() -> bool {
        true
    }

    open spec fn add_req(self, other: AbsolutePercentage) -> bool {
        true
    }

    open spec fn add_spec(self, other: AbsolutePercentage) -> AbsolutePercentage {
        AbsolutePercentage(clamp(self.0 + other.0, i64::MIN as int, i64::MAX as int) as i64)
    }
}

/// A change less a share, kept within the range of a share.
impl core::ops::Sub<AbsolutePercentage> for RelativePercentage {
    type Output = AbsolutePercentage;

    fn sub(self, other: AbsolutePercentage) -> AbsolutePercentage {
        AbsolutePercentage(clamp_i64(self.0 as i128 - other.0 as i128))
    }
}

impl SubSpecImpl<AbsolutePercentage> for RelativePercentage {
    open spec fn obeys_sub_spec() -> bool {
        true
    }

    open spec fn sub_req(self, other: AbsolutePercentage) -> bool {
        true
    }

    open spec fn sub_spec(self, other: AbsolutePercentage) -> AbsolutePercentage {
        AbsolutePercentage(clamp(self.0 - other.0, i64::MIN as int, i64::MAX as int) as i64)
    }
}

/// The container's extent as a signed pixel count.
fn extent(container: AbsolutePixels) -> (r: i32)
    ensures
        r == extent_of(container),
{
    if container.0 > 2147483647 {
        i32::MAX
    } else {
        container.0 as i32
    }
}

impl Unit {
    /// What this dimension comes to for a window whose current size is
    /// `baseline` in a container of `container` pixels. An absolute
    /// dimension stands as it is. A relative one is added to the baseline,
    /// which is first converted to the unit of the change.
    pub open spec fn absolute(self, baseline: AbsoluteUnit, container: AbsolutePixels)
        -> AbsoluteUnit {
        match self {
            Unit::Absolute(absolute) => absolute,
            Unit::Relative(RelativeUnit::Pixels(change)) => match baseline {
                AbsoluteUnit::Pixels(current) => AbsoluteUnit::Pixels(
                    shifted_pixels(current.0 as int, change.0 as int),
                ),
                AbsoluteUnit::Percentage(current) => AbsoluteUnit::Pixels(
                    shifted_pixels(
                        clamp(
                            pixels_of(current.0 as int, extent_of(container)),
                            0,
                            u32::MAX as int,
                        ),
                        change.0 as int,
                    ),
                ),
            },
            Unit::Relative(RelativeUnit::Percentage(change)) => match baseline {
                AbsoluteUnit::Percentage(current) => AbsoluteUnit::Percentage(
                    shifted_share(current.0 as int, change.0 as int),
                ),
                AbsoluteUnit::Pixels(current) => AbsoluteUnit::Percentage(
                    shifted_share(
                        percentage_of(current.0 as int, extent_of(container)),
                        change.0 as int,
                    ),
                ),
            },
        }
    }

    /// Resolves this dimension against the current size and the container.
    pub fn to_absolute(&self, baseline: AbsoluteUnit, container_px: AbsolutePixels) -> (r:
        AbsoluteUnit)
        ensures
            r == self.absolute(baseline, container_px),
    {
        let relative = match self {
            Unit::Absolute(absolute) => {
                return *absolute;
            },
            Unit::Relative(relative) => *relative,
        };
        match (baseline, relative) {
            (AbsoluteUnit::Pixels(current), RelativeUnit::Pixels(pixels)) => AbsoluteUnit::Pixels(
                current + pixels,
            ),
            (
                AbsoluteUnit::Percentage(current),
                RelativeUnit::Percentage(percentage),
            ) => AbsoluteUnit::Percentage(current + percentage),
            (AbsoluteUnit::Percentage(current), RelativeUnit::Pixels(pixels)) => {
                let as_pixels = current.as_absolute_pixels(extent(container_px));
                AbsoluteUnit::Pixels(as_pixels + pixels)
            },
            (AbsoluteUnit::Pixels(current), RelativeUnit::Percentage(percentage)) => {
                let as_percentage = current.as_absolute_percentage(extent(container_px));
                AbsoluteUnit::Percentage(as_percentage + percentage)
            },
        }
    }
}

impl AbsolutePixels {
    /// What a text means as a size in pixels: an unsigned integer, with `px` after it or not.
    pub open spec fn text_value(s: Seq<char>) -> Result<AbsolutePixels, ParseUnitError> {
        match fit_u32(unsigned_text(without_px(s))) {
            Some(v) => Ok(AbsolutePixels(v)),
            None => Err(ParseUnitError::InvalidInteger),
        }
    }

    /// Reads a value from its text.
    pub fn from_str(s: &str) -> (r: Result<AbsolutePixels, ParseUnitError>)
        ensures
            r == Self::text_value(s@),
    {
        let chars = chars_of(s);
        Self::parse_chars(&chars)
    }

    /// Reads a value from the characters of its text.
    pub fn parse_chars(chars: &Vec<char>) -> (r: Result<AbsolutePixels, ParseUnitError>)
        ensures
            r == Self::text_value(chars@),
    {
        let value = strip_px(chars);
        match read_unsigned(&value) {
            Some(v) => Ok(AbsolutePixels(v)),
            None => Err(ParseUnitError::InvalidInteger),
        }
    }
}

impl RelativePixels {
    /// What a text means as a change in pixels: a signed integer, with `px` after it or not.
    pub open spec fn text_value(s: Seq<char>) -> Result<RelativePixels, ParseUnitError> {
        match fit_i32(signed_text(without_px(s))) {
            Some(v) => Ok(RelativePixels(v)),
            None => Err(ParseUnitError::InvalidInteger),
        }
    }

    /// Reads a value from its text.
    pub fn from_str(s: &str) -> (r: Result<RelativePixels, ParseUnitError>)
        ensures
            r == Self::text_value(s@),
    {
        let chars = chars_of(s);
        Self::parse_chars(&chars)
    }

    /// Reads a value from the characters of its text.
    pub fn parse_chars(chars: &Vec<char>) -> (r: Result<RelativePixels, ParseUnitError>)
        ensures
            r == Self::text_value(chars@),
    {
        let value = strip_px(chars);
        match read_signed(&value) {
            Some(v) => Ok(RelativePixels(v)),
            None => Err(ParseUnitError::InvalidInteger),
        }
    }
}

impl AbsolutePercentage {
    /// What a text means as a share: a decimal number, with `%` after it or not.
    pub open spec fn text_value(s: Seq<char>) -> Result<AbsolutePercentage, ParseUnitError> {
        match fit_i64(fraction_text(without_percent(s))) {
            Some(v) => Ok(AbsolutePercentage(v)),
            None => Err(ParseUnitError::InvalidDecimal),
        }
    }

    /// Reads a value from its text.
    pub fn from_str(s: &str) -> (r: Result<AbsolutePercentage, ParseUnitError>)
        ensures
            r == Self::text_value(s@),
    {
        let chars = chars_of(s);
        Self::parse_chars(&chars)
    }

    /// Reads a value from the characters of its text.
    pub fn parse_chars(chars: &Vec<char>) -> (r: Result<AbsolutePercentage, ParseUnitError>)
        ensures
            r == Self::text_value(chars@),
    {
        let value = strip_percent(chars);
        match read_fraction_text(&value) {
            Some(v) => Ok(AbsolutePercentage(v)),
            None => Err(ParseUnitError::InvalidDecimal),
        }
    }
}

impl RelativePercentage {
    /// What a text means as a change of share: a decimal number, with `%` after it or not.
    pub open spec fn text_value(s: Seq<char>) -> Result<RelativePercentage, ParseUnitError> {
        match fit_i64(fraction_text(without_percent(s))) {
            Some(v) => Ok(RelativePercentage(v)),
            None => Err(ParseUnitError::InvalidDecimal),
        }
    }

    /// Reads a value from its text.
    pub fn from_str(s: &str) -> (r: Result<RelativePercentage, ParseUnitError>)
        ensures
            r == Self::text_value(s@),
    {
        let chars = chars_of(s);
        Self::parse_chars(&chars)
    }

    /// Reads a value from the characters of its text.
    pub fn parse_chars(chars: &Vec<char>) -> (r: Result<RelativePercentage, ParseUnitError>)
        ensures
            r == Self::text_value(chars@),
    {
        let value = strip_percent(chars);
        match read_fraction_text(&value) {
            Some(v) => Ok(RelativePercentage(v)),
            None => Err(ParseUnitError::InvalidDecimal),
        }
    }
}

impl AbsoluteUnit {
    /// What a text means as an absolute dimension: a share where it ends in `%`, else pixels.
    pub open spec fn text_value(s: Seq<char>) -> Result<AbsoluteUnit, ParseUnitError> {
        if ends_with_percent(s) {
            match AbsolutePercentage::text_value(s) {
                Ok(v) => Ok(AbsoluteUnit::Percentage(v)),
                Err(e) => Err(e),
            }
        } else {
            match AbsolutePixels::text_value(s) {
                Ok(v) => Ok(AbsoluteUnit::Pixels(v)),
                Err(e) => Err(e),
            }
        }
    }

    /// Reads a value from its text.
    pub fn from_str(s: &str) -> (r: Result<AbsoluteUnit, ParseUnitError>)
        ensures
            r == Self::text_value(s@),
    {
        let chars = chars_of(s);
        Self::parse_chars(&chars)
    }

    /// Reads a value from the characters of its text.
    pub fn parse_chars(chars: &Vec<char>) -> (r: Result<AbsoluteUnit, ParseUnitError>)
        ensures
            r == Self::text_value(chars@),
    {
        if has_percent(chars) {
            match AbsolutePercentage::parse_chars(chars) {
                Ok(v) => Ok(AbsoluteUnit::Percentage(v)),
                Err(e) => Err(e),
            }
        } else {
            match AbsolutePixels::parse_chars(chars) {
                Ok(v) => Ok(AbsoluteUnit::Pixels(v)),
                Err(e) => Err(e),
            }
        }
    }
}

impl RelativeUnit {
    /// What a text means as a relative dimension: a change of share where it ends in `%`, else of pixels.
    pub open spec fn text_value(s: Seq<char>) -> Result<RelativeUnit, ParseUnitError> {
        if ends_with_percent(s) {
            match RelativePercentage::text_value(s) {
                Ok(v) => Ok(RelativeUnit::Percentage(v)),
                Err(e) => Err(e),
            }
        } else {
            match RelativePixels::text_value(s) {
                Ok(v) => Ok(RelativeUnit::Pixels(v)),
                Err(e) => Err(e),
            }
        }
    }

    /// Reads a value from its text.
    pub fn from_str(s: &str) -> (r: Result<RelativeUnit, ParseUnitError>)
        ensures
            r == Self::text_value(s@),
    {
        let chars = chars_of(s);
        Self::parse_chars(&chars)
    }

    /// Reads a value from the characters of its text.
    pub fn parse_chars(chars: &Vec<char>) -> (r: Result<RelativeUnit, ParseUnitError>)
        ensures
            r == Self::text_value(chars@),
    {
        if has_percent(chars) {
            match RelativePercentage::parse_chars(chars) {
                Ok(v) => Ok(RelativeUnit::Percentage(v)),
                Err(e) => Err(e),
            }
        } else {
            match RelativePixels::parse_chars(chars) {
                Ok(v) => Ok(RelativeUnit::Pixels(v)),
                Err(e) => Err(e),
            }
        }
    }
}

impl Unit {
    /// What a text means as a dimension: relative where it starts with a sign, else absolute.
    pub open spec fn text_value(s: Seq<char>) -> Result<Unit, ParseUnitError> {
        if starts_with_sign(s) {
            match RelativeUnit::text_value(s) {
                Ok(v) => Ok(Unit::Relative(v)),
                Err(e) => Err(e),
            }
        } else {
            match AbsoluteUnit::text_value(s) {
                Ok(v) => Ok(Unit::Absolute(v)),
                Err(e) => Err(e),
            }
        }
    }

    /// Reads a value from its text.
    pub fn from_str(s: &str) -> (r: Result<Unit, ParseUnitError>)
        ensures
            r == Self::text_value(s@),
    {
        let chars = chars_of(s);
        Self::parse_chars(&chars)
    }

    /// Reads a value from the characters of its text.
    pub fn parse_chars(chars: &Vec<char>) -> (r: Result<Unit, ParseUnitError>)
        ensures
            r == Self::text_value(chars@),
    {
        if chars.len() > 0 && (chars[0] == '+' || chars[0] == '-') {
            match RelativeUnit::parse_chars(chars) {
                Ok(v) => Ok(Unit::Relative(v)),
                Err(e) => Err(e),
            }
        } else {
            match AbsoluteUnit::parse_chars(chars) {
                Ok(v) => Ok(Unit::Absolute(v)),
                Err(e) => Err(e),
            }
        }
    }
}

/// Every size in pixels has a text that reads back as that size: its
/// digits, with `px` after them or not.
pub proof fn lemma_pixels_read_back(pixels: AbsolutePixels)
    ensures
        AbsolutePixels::text_value(decimal_digits(pixels.0 as nat)) == Ok::<
            AbsolutePixels,
            ParseUnitError,
        >(pixels),
        AbsolutePixels::text_value(decimal_digits(pixels.0 as nat) + seq!['p', 'x']) == Ok::<
            AbsolutePixels,
            ParseUnitError,
        >(pixels),
{
    let digits = decimal_digits(pixels.0 as nat);
    lemma_digits_spell_their_number(pixels.0 as nat);
    assert(is_digit(digits[digits.len() - 1]));
    assert(is_digit(digits[0]));
    assert(without_px(digits) == digits);
    let with = digits + seq!['p', 'x'];
    assert(with.take(with.len() - 2) =~= digits);
    assert(with[with.len() - 2] == 'p' && with[with.len() - 1] == 'x');
    assert(without_px(with) == digits);
}

/// The sign that a change is written with: `-` for a decrease, else `+`.
pub open spec fn change_sign(change: int) -> Seq<char> {
    if change >= 0 {
        "+"@
    } else {
        "-"@
    }
}

/// The size of a number, whatever its sign.
pub open spec fn magnitude_of(value: int) -> nat {
    if value >= 0 {
        value as nat
    } else {
        (-value) as nat
    }
}

fn magnitude(value: i64) -> (r: u64)
    ensures
        r == magnitude_of(value as int),
{
    if value >= 0 {
        value as u64
    } else {
        (-(value as i128)) as u64
    }
}

impl AbsolutePixels {
    /// This size in words: the count, then ` px`.
    pub open spec fn text(self) -> Seq<char> {
        decimal_digits(self.0 as nat) + " px"@
    }

    /// Writes this size out.
    pub fn to_string(&self) -> (r: String)
        ensures
            r@ == self.text(),
    {
        let mut out = String::new();
        push_decimal(&mut out, self.0 as u64);
        out.append(" px");
        assert(out@ =~= self.text());
        out
    }
}

impl RelativePixels {
    /// This change in words: the sign, the count, then ` px`.
    pub open spec fn text(self) -> Seq<char> {
        change_sign(self.0 as int) + decimal_digits(magnitude_of(self.0 as int)) + " px"@
    }

    /// Writes this change out.
    pub fn to_string(&self) -> (r: String)
        ensures
            r@ == self.text(),
    {
        let mut out = if self.0 >= 0 {
            String::from_str("+")
        } else {
            String::from_str("-")
        };
        push_decimal(&mut out, magnitude(self.0 as i64));
        out.append(" px");
        assert(out@ =~= self.text());
        out
    }
}

impl AbsolutePercentage {
    /// This share in words: the percentage as a decimal number, with `-`
    /// before it where it is negative, then ` ppt`.
    pub open spec fn text(self) -> Seq<char> {
        if self.0 >= 0 {
            fraction_digits(magnitude_of(self.0 as int)) + " ppt"@
        } else {
            "-"@ + fraction_digits(magnitude_of(self.0 as int)) + " ppt"@
        }
    }

    /// Writes this share out.
    pub fn to_string(&self) -> (r: String)
        ensures
            r@ == self.text(),
    {
        let mut out = if self.0 >= 0 {
            String::new()
        } else {
            String::from_str("-")
        };
        push_fraction(&mut out, magnitude(self.0));
        out.append(" ppt");
        assert(out@ =~= self.text());
        out
    }
}

impl RelativePercentage {
    /// This change of share in words: the sign, the percentage as a
    /// decimal number, then ` ppt`.
    pub open spec fn text(self) -> Seq<char> {
        change_sign(self.0 as int) + fraction_digits(magnitude_of(self.0 as int)) + " ppt"@
    }

    /// Writes this change of share out.
    pub fn to_string(&self) -> (r: String)
        ensures
            r@ == self.text(),
    {
        let mut out = if self.0 >= 0 {
            String::from_str("+")
        } else {
            String::from_str("-")
        };
        push_fraction(&mut out, magnitude(self.0));
        out.append(" ppt");
        assert(out@ =~= self.text());
        out
    }
}

impl AbsoluteUnit {
    /// This dimension in words.
    pub open spec fn text(self) -> Seq<char> {
        match self {
            AbsoluteUnit::Pixels(value) => value.text(),
            AbsoluteUnit::Percentage(value) => value.text(),
        }
    }

    /// Writes this dimension out.
    pub fn to_string(&self) -> (r: String)
        ensures
            r@ == self.text(),
    {
        match self {
            AbsoluteUnit::Pixels(value) => value.to_string(),
            AbsoluteUnit::Percentage(value) => value.to_string(),
        }
    }
}

impl RelativeUnit {
    /// This dimension in words.
    pub open spec fn text(self) -> Seq<char> {
        match self {
            RelativeUnit::Pixels(value) => value.text(),
            RelativeUnit::Percentage(value) => value.text(),
        }
    }

    /// Writes this dimension out.
    pub fn to_string(&self) -> (r: String)
        ensures
            r@ == self.text(),
    {
        match self {
            RelativeUnit::Pixels(value) => value.to_string(),
            RelativeUnit::Percentage(value) => value.to_string(),
        }
    }
}

impl Unit {
    /// This dimension in words.
    pub open spec fn text(self) -> Seq<char> {
        match self {
            Unit::Relative(value) => value.text(),
            Unit::Absolute(value) => value.text(),
        }
    }

    /// Writes this dimension out.
    pub fn to_string(&self) -> (r: String)
        ensures
            r@ == self.text(),
    {
        match self {
            Unit::Relative(value) => value.to_string(),
            Unit::Absolute(value) => value.to_string(),
        }
    }
}

impl ParseUnitError {
    /// This error in words.
    pub open spec fn text(self) -> Seq<char> {
        match self {
            ParseUnitError::InvalidInteger => "invalid integer"@,
            ParseUnitError::InvalidDecimal => "invalid decimal number"@,
        }
    }

    /// Writes this error out.
    pub fn to_string(&self) -> (r: String)
        ensures
            r@ == self.text(),
    {
        match self {
            ParseUnitError::InvalidInteger => String::from_str("invalid integer"),
            ParseUnitError::InvalidDecimal => String::from_str("invalid decimal number"),
        }
    }
}

} // verus!
