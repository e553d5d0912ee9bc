//! Rectangles in compositor coordinates and the rules that turn a
//! requested size and zone into pixels.
use crate::numeric::{
    clamp, clamp_i32, clamp_nonneg_i32, half_toward_zero, round_div, round_quotient, wide_product,
};
use crate::state::{Horizontal, Position, Vertical};
use crate::unit::{pixels_of, AbsolutePixels, AbsoluteUnit, RelativePixels, RelativeUnit, Unit};
use vstd::prelude::*;

verus! {

/// One extent of a window, tagged with its axis.
#[derive(Debug, Clone, Copy, PartialEq, Eq, Structural)]
pub enum Dimension {
    Width(i32),
    Height(i32),
}

/// An aspect ratio, width to height, as a pair of extents. A ratio with a
/// zero on either side is the zero ratio, which gives no useful shape.
#[derive(Debug, Clone, Copy)]
pub struct Ratio {
    pub width: i32,
    pub height: i32,
}

impl Ratio {
    /// The ratio of `width` to `height`.
    pub fn new(width: i32, height: i32) -> (r: Ratio)
        ensures
            r.width == width,
            r.height == height,
    {
        Ratio { width, height }
    }

    /// Whether this is the zero ratio.
    pub open spec fn is_zero(self) -> bool {
        self.width == 0 || self.height == 0
    }

    /// Whether two ratios are the same number.
    pub open spec fn same(self, other: Ratio) -> bool {
        if self.is_zero() || other.is_zero() {
            self.is_zero() && other.is_zero()
        } else {
            self.width * other.height == other.width * self.height
        }
    }

    /// Whether this ratio and `other` are the same number.
    pub fn same_as(&self, other: &Ratio) -> (b: bool)
        ensures
            b == self.same(*other),
    {
        let zero: bool = self.width == 0 || self.height == 0;
        let other_zero: bool = other.width == 0 || other.height == 0;
        if zero || other_zero {
            zero && other_zero
        } else {
            wide_product(self.width as i64, other.height) == wide_product(
                other.width as i64,
                self.height,
            )
        }
    }
}

/// The ratio of `width` to `height`; the zero ratio where there is no height.
pub open spec fn ratio_of(width: i32, height: i32) -> Ratio {
    if height == 0 {
        (Ratio { width: 0, height: 1 })
    } else {
        (Ratio { width, height })
    }
}

/// Computes the ratio of `width` to `height`.
pub fn aspect_ratio(width: i32, height: i32) -> (r: Ratio)
    ensures
        r == ratio_of(width, height),
{
    if height == 0 {
        return Ratio { width: 0, height: 1 };
    }
    Ratio { width, height }
}

/// The other extent of a window that has the extent `dimension` and the
/// shape `ratio`, to the nearest pixel; 0 for the zero ratio.
pub open spec fn matching_extent(dimension: Dimension, ratio: Ratio) -> Dimension {
    match dimension {
        Dimension::Width(width) => Dimension::Height(
            if ratio.is_zero() {
                0
            } else {
                clamp(
                    round_quotient(width * ratio.height, ratio.width as int),
                    i32::MIN as int,
                    i32::MAX as int,
                ) as i32
            },
        ),
        Dimension::Height(height) => Dimension::Width(
            if ratio.is_zero() {
                0
            } else {
                clamp(
                    round_quotient(height * ratio.width, ratio.height as int),
                    i32::MIN as int,
                    i32::MAX as int,
                ) as i32
            },
        ),
    }
}

/// Computes the extent that goes with `dimension` under `ratio`.
pub fn scale_to_ratio(dimension: Dimension, ratio: Ratio) -> (r: Dimension)
    ensures
        r == matching_extent(dimension, ratio),
{
    if ratio.width == 0 || ratio.height == 0 {
        return match dimension {
            Dimension::Width(_) => Dimension::Height(0),
            Dimension::Height(_) => Dimension::Width(0),
        };
    }
    match dimension {
        Dimension::Width(width) => Dimension::Height(
            clamp_i32(round_div(wide_product(width as i64, ratio.height), ratio.width as i128)),
        ),
        Dimension::Height(height) => Dimension::Width(
            clamp_i32(round_div(wide_product(height as i64, ratio.width), ratio.height as i128)),
        ),
    }
}

/// The pixels that `unit` comes to for a window that now measures
/// `target_px` in a container of `container_px`, never below 0.
pub open spec fn real_pixels(unit: Unit, target_px: int, container_px: int) -> int {
    match unit {
        Unit::Absolute(AbsoluteUnit::Pixels(pixels)) => clamp(pixels.0 as int, 0, i32::MAX as int),
        Unit::Absolute(AbsoluteUnit::Percentage(share)) => clamp(
            pixels_of(share.0 as int, container_px),
            0,
            i32::MAX as int,
        ),
        Unit::Relative(RelativeUnit::Pixels(change)) => clamp(
            target_px + change.0,
            0,
            i32::MAX as int,
        ),
        Unit::Relative(RelativeUnit::Percentage(change)) => if container_px == 0 {
            0
        } else {
            clamp(
                round_quotient(target_px * 100_000_000 + change.0 * container_px, 100_000_000),
                0,
                i32::MAX as int,
            )
        },
    }
}

/// Resolves `unit` to pixels against the current extent and the container.
pub fn unit_to_real_pixels(unit: Unit, target_px: i32, container_px: i32) -> (r: i32)
    ensures
        r == real_pixels(unit, target_px as int, container_px as int),
{
    match unit {
        Unit::Absolute(AbsoluteUnit::Pixels(pixels)) => clamp_nonneg_i32(pixels.0 as i128),
        Unit::Absolute(AbsoluteUnit::Percentage(share)) => clamp_nonneg_i32(
            round_div(wide_product(share.0, container_px), 100_000_000),
        ),
        Unit::Relative(RelativeUnit::Pixels(change)) => clamp_nonneg_i32(
            target_px as i128 + change.0 as i128,
        ),
        Unit::Relative(RelativeUnit::Percentage(change)) => {
            if container_px == 0 {
                0
            } else {
                let current: i128 = wide_product(100_000_000, target_px);
                let added: i128 = wide_product(change.0, container_px);
                clamp_nonneg_i32(round_div(current + added, 100_000_000))
            }
        },
    }
}

/// An absolute size in pixels resolves to itself, whatever the window and
/// the container measure, exactly when it is a pixel count that a
/// rectangle can hold.
pub proof fn lemma_absolute_pixels_stand(pixels: AbsolutePixels, baseline: int, container: int)
    ensures
        pixels.0 <= i32::MAX <==> real_pixels(
            Unit::Absolute(AbsoluteUnit::Pixels(pixels)),
            baseline,
            container,
        ) == pixels.0,
{
}

/// A change in pixels resolves to the current extent plus the change, or
/// to 0 where that is negative, exactly when the sum is a pixel count that
/// a rectangle can hold.
pub proof fn lemma_relative_pixels_add(change: RelativePixels, baseline: i32, container: int)
    ensures
        baseline + change.0 <= i32::MAX <==> real_pixels(
            Unit::Relative(RelativeUnit::Pixels(change)),
            baseline as int,
            container,
        ) == if baseline + change.0 < 0 {
            0
        } else {
            baseline + change.0
        },
{
}

/// A rectangle in pixels.
#[derive(Debug, Clone, Copy, PartialEq, Eq, Structural)]
pub struct Rect {
    pub x: i32,
    pub y: i32,
    pub width: i32,
    pub height: i32,
}

/// The offset of a window of extent `size` along an axis of extent
/// `container`, for the share `0`, `1/2` or `1` of the free space that
/// `halves` counts in halves.
pub open spec fn zone_offset(halves: int, container: int, size: int) -> int {
    if halves == 0 {
        0
    } else if halves == 1 {
        half_toward_zero(container - size)
    } else {
        clamp(container - size, i32::MIN as int, i32::MAX as int)
    }
}

/// The share of the free space above the window, in halves.
pub open spec fn vertical_halves(zone: Vertical) -> int {
    match zone {
        Vertical::Top => 0,
        Vertical::Middle => 1,
        Vertical::Bottom => 2,
    }
}

/// The share of the free space left of the window, in halves.
pub open spec fn horizontal_halves(zone: Horizontal) -> int {
    match zone {
        Horizontal::Left => 0,
        Horizontal::Middle => 1,
        Horizontal::Right => 2,
    }
}

/// Computes the offset along one axis.
fn offset_for(halves: u8, container: i32, size: i32) -> (r: i32)
    requires
        halves <= 2,
    ensures
        r == zone_offset(halves as int, container as int, size as int),
{
    let free: i64 = container as i64 - size as i64;
    if halves == 0 {
        0
    } else if halves == 1 {
        if free >= 0 {
            (free / 2) as i32
        } else {
            (-((-free) / 2)) as i32
        }
    } else {
        clamp_i32(free as i128)
    }
}

/// The size that a request comes to: `(width, height)`.
///
/// With both extents requested each is resolved by itself and no ratio
/// applies. With one, the other follows from `ratio`. With none the
/// target's size stands.
pub open spec fn scaled_size(
    width: Option<Unit>,
    height: Option<Unit>,
    target: Rect,
    container: Rect,
    ratio: Ratio,
) -> (int, int) {
    match (width, height) {
        (Some(w), Some(h)) => (
            real_pixels(w, target.width as int, container.width as int),
            real_pixels(h, target.height as int, container.height as int),
        ),
        (Some(w), None) => {
            let resolved = real_pixels(w, target.width as int, container.width as int);
            (resolved, matching_extent(Dimension::Width(resolved as i32), ratio)->Height_0 as int)
        },
        (None, Some(h)) => {
            let resolved = real_pixels(h, target.height as int, container.height as int);
            (matching_extent(Dimension::Height(resolved as i32), ratio)->Width_0 as int, resolved)
        },
        (None, None) => (target.width as int, target.height as int),
    }
}

/// The ratio that a scaling goes by: the one given, else the target's own.
pub open spec fn ruling_ratio(target: Rect, ratio: Option<Ratio>) -> Ratio {
    match ratio {
        Some(given) => given,
        None => ratio_of(target.width, target.height),
    }
}

/// With both extents requested, each comes out as it resolves by itself:
/// no ratio has any part in the result.
pub proof fn lemma_stretch_ignores_ratio(
    width: Unit,
    height: Unit,
    target: Rect,
    container: Rect,
    ratio: Ratio,
    other: Ratio,
)
    ensures
        scaled_size(Some(width), Some(height), target, container, ratio) == (
            real_pixels(width, target.width as int, container.width as int),
            real_pixels(height, target.height as int, container.height as int),
        ),
        scaled_size(Some(width), Some(height), target, container, ratio) == scaled_size(
            Some(width),
            Some(height),
            target,
            container,
            other,
        ),
{
}

/// With the width alone requested, the height is the resolved width
/// divided by the ratio, to the nearest pixel and kept within the range of
/// a pixel; it is 0 for the zero ratio.
pub proof fn lemma_width_drives_height(width: Unit, target: Rect, container: Rect, ratio: Ratio)
    ensures
        ({
            let size = scaled_size(Some(width), None, target, container, ratio);
            let exact = round_quotient(size.0 * ratio.height, ratio.width as int);
            &&& size.0 == real_pixels(width, target.width as int, container.width as int)
            &&& ratio.is_zero() ==> size.1 == 0
            &&& !ratio.is_zero() ==> size.1 == clamp(exact, i32::MIN as int, i32::MAX as int)
            &&& !ratio.is_zero() && i32::MIN <= exact <= i32::MAX ==> size.1 == exact
        }),
{
}

/// With the height alone requested, the width is the resolved height
/// times the ratio, to the nearest pixel and kept within the range of a
/// pixel; it is 0 for the zero ratio.
pub proof fn lemma_height_drives_width(height: Unit, target: Rect, container: Rect, ratio: Ratio)
    ensures
        ({
            let size = scaled_size(None, Some(height), target, container, ratio);
            let exact = round_quotient(size.1 * ratio.width, ratio.height as int);
            &&& size.1 == real_pixels(height, target.height as int, container.height as int)
            &&& ratio.is_zero() ==> size.0 == 0
            &&& !ratio.is_zero() ==> size.0 == clamp(exact, i32::MIN as int, i32::MAX as int)
            &&& !ratio.is_zero() && i32::MIN <= exact <= i32::MAX ==> size.0 == exact
        }),
{
}

/// The corner zones and the centre: top left is the container's own
/// corner, the middle leaves half of the free space, rounded toward zero,
/// on the near side, and bottom right leaves all of it there, as long as
/// it is a pixel count that a rectangle can hold. The free space is the
/// container's extent less the window's.
pub proof fn lemma_zone_offsets(container: Rect, size: Rect)
    ensures
        zone_offset(horizontal_halves(Horizontal::Left), container.width as int, size.width as int)
            == 0,
        zone_offset(vertical_halves(Vertical::Top), container.height as int, size.height as int)
            == 0,
        zone_offset(
            horizontal_halves(Horizontal::Middle),
            container.width as int,
            size.width as int,
        ) == half_toward_zero(container.width - size.width),
        zone_offset(
            vertical_halves(Vertical::Middle),
            container.height as int,
            size.height as int,
        ) == half_toward_zero(container.height - size.height),
        i32::MIN <= container.width - size.width <= i32::MAX <==> zone_offset(
            horizontal_halves(Horizontal::Right),
            container.width as int,
            size.width as int,
        ) == container.width - size.width,
        i32::MIN <= container.height - size.height <= i32::MAX <==> zone_offset(
            vertical_halves(Vertical::Bottom),
            container.height as int,
            size.height as int,
        ) == container.height - size.height,
{
}

impl Rect {
    /// The rectangle of the given size with its corner at `x`, `y`.
    pub fn _new(x: i32, y: i32, width: i32, height: i32) -> (r: Rect)
        ensures
            r == (Rect { x, y, width, height }),
    {
        Rect { x, y, width, height }
    }

    /// Whether shrinking by `padding` stays within the range of a pixel.
    pub open spec fn padding_fits(self, padding: i32) -> bool {
        &&& i32::MIN <= self.x + padding <= i32::MAX
        &&& i32::MIN <= self.y + padding <= i32::MAX
        &&& i32::MIN <= padding * 2 <= i32::MAX
        &&& i32::MIN <= self.width - padding * 2 <= i32::MAX
        &&& i32::MIN <= self.height - padding * 2 <= i32::MAX
    }

    /// Tells whether shrinking by `padding` stays within the range of a pixel.
    pub fn fits_padding(&self, padding: i32) -> (b: bool)
        ensures
            b == self.padding_fits(padding),
    {
        let p: i64 = padding as i64;
        let low: i64 = -2147483648;
        let high: i64 = 2147483647;
        let x: i64 = self.x as i64 + p;
        let y: i64 = self.y as i64 + p;
        let width: i64 = self.width as i64 - 2 * p;
        let height: i64 = self.height as i64 - 2 * p;
        low <= x && x <= high && low <= y && y <= high && low <= 2 * p && 2 * p <= high && low
            <= width && width <= high && low <= height && height <= high
    }

    /// This rectangle shrunk by `padding` on each side. A padding of more
    /// than half an extent leaves a negative size.
    pub fn with_padding(&self, padding: i32) -> (r: Rect)
        requires
            self.padding_fits(padding),
        ensures
            r.x == self.x + padding,
            r.y == self.y + padding,
            r.width == self.width - 2 * padding,
            r.height == self.height - 2 * padding,
    {
        let mut rect = *self;
        rect.x += padding;
        rect.y += padding;
        rect.width -= padding * 2;
        rect.height -= padding * 2;
        rect
    }

    /// This rectangle moved by `x` and `y`.
    pub fn translate(&self, x: i32, y: i32) -> (r: Rect)
        requires
            i32::MIN <= self.x + x <= i32::MAX,
            i32::MIN <= self.y + y <= i32::MAX,
        ensures
            r.x == self.x + x,
            r.y == self.y + y,
            r.width == self.width,
            r.height == self.height,
    {
        let mut rect = *self;
        rect.x += x;
        rect.y += y;
        rect
    }

    /// This rectangle with the size that the request comes to for `target`
    /// in `container`.
    pub fn scale(
        &self,
        width: Option<Unit>,
        height: Option<Unit>,
        target: &Rect,
        container: &Rect,
        ratio: Option<Ratio>,
    ) -> (r: Rect)
        ensures
            r.x == self.x,
            r.y == self.y,
            (r.width as int, r.height as int) == scaled_size(
                width,
                height,
                *target,
                *container,
                ruling_ratio(*target, ratio),
            ),
    {
        let mut rect = *self;
        let aspect = match ratio {
            Some(given) => given,
            None => aspect_ratio(target.width, target.height),
        };
        let (width, height) = match (width, height) {
            (Some(w), Some(h)) => (
                Dimension::Width(unit_to_real_pixels(w, target.width, container.width)),
                Dimension::Height(unit_to_real_pixels(h, target.height, container.height)),
            ),
            (Some(w), None) => {
                let width = unit_to_real_pixels(w, target.width, container.width);
                (Dimension::Width(width), scale_to_ratio(Dimension::Width(width), aspect))
            },
            (None, Some(h)) => {
                let height = unit_to_real_pixels(h, target.height, container.height);
                (scale_to_ratio(Dimension::Height(height), aspect), Dimension::Height(height))
            },
            (None, None) => (Dimension::Width(target.width), Dimension::Height(target.height)),
        };
        match width {
            Dimension::Width(w) => {
                rect.width = w;
            },
            Dimension::Height(_) => {},
        }
        match height {
            Dimension::Height(h) => {
                rect.height = h;
            },
            Dimension::Width(_) => {},
        }
        rect
    }

    /// Where a rectangle of the size of `rect` goes in the zone `pos` of
    /// this container, counted from the container's own corner.
    pub fn get_pos_for_rect_of_size(&self, pos: &Position, rect: &Rect) -> (r: Rect)
        ensures
            r.x == zone_offset(horizontal_halves(pos.1), self.width as int, rect.width as int),
            r.y == zone_offset(vertical_halves(pos.0), self.height as int, rect.height as int),
            r.width == rect.width,
            r.height == rect.height,
    {
        let v_offset: u8 = match pos.0 {
            Vertical::Top => 0,
            Vertical::Middle => 1,
            Vertical::Bottom => 2,
        };
        let h_offset: u8 = match pos.1 {
            Horizontal::Left => 0,
            Horizontal::Middle => 1,
            Horizontal::Right => 2,
        };
        let x = offset_for(h_offset, self.width, rect.width);
        let y = offset_for(v_offset, self.height, rect.height);
        Rect { x, y, width: rect.width, height: rect.height }
    }
}

} // verus!
