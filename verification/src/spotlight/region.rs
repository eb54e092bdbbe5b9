//! Geometry of the clip region: the whole backdrop minus a disc around the
//! cursor.

use vstd::prelude::*;

use crate::types::Position;
use crate::types::VirtualScreen;

verus! {

/// The shape to give the overlay, in coordinates local to the overlay: the
/// backdrop rectangle from `(0, 0)` to `(width, height)`, minus the disc
/// inscribed in the square from `(hole_left, hole_top)` to
/// `(hole_right, hole_bottom)`.
#[derive(Debug, Clone, Copy, PartialEq, Eq)]
pub struct SpotlightRegion {
    pub width: i32,
    pub height: i32,
    pub hole_left: i32,
    pub hole_top: i32,
    pub hole_right: i32,
    pub hole_bottom: i32,
}

impl SpotlightRegion {
    /// The centre of the hole, from left to right.
    pub open spec fn hole_center_x(self) -> int {
        (self.hole_left + self.hole_right) / 2
    }

    /// The centre of the hole, from top to bottom.
    pub open spec fn hole_center_y(self) -> int {
        (self.hole_top + self.hole_bottom) / 2
    }

    /// Half the width of the hole.
    pub open spec fn hole_half_width(self) -> int {
        (self.hole_right - self.hole_left) / 2
    }

    /// Half the height of the hole.
    pub open spec fn hole_half_height(self) -> int {
        (self.hole_bottom - self.hole_top) / 2
    }

    /// Whether the point `(x, y)` lies on the backdrop rectangle.
    pub open spec fn in_backdrop(self, x: int, y: int) -> bool {
        0 <= x < self.width && 0 <= y < self.height
    }

    /// Whether the point `(x, y)` lies in the hole: strictly inside the
    /// ellipse inscribed in the square of the hole, which is a circle for
    /// every region that [`apply_spotlight_region`] computes.  This is the
    /// shape that is meant; the drawing surface lays it on its pixels in its
    /// own way.
    pub open spec fn in_hole(self, x: int, y: int) -> bool {
        let a = self.hole_half_width();
        let b = self.hole_half_height();
        let dx = x - self.hole_center_x();
        let dy = y - self.hole_center_y();
        a > 0 && b > 0 && (dx * b) * (dx * b) + (dy * a) * (dy * a) < (a * b) * (a * b)
    }

    /// Whether the backdrop hides the point `(x, y)`: the point lies on the
    /// backdrop rectangle and not in the hole.
    pub open spec fn covers(self, x: int, y: int) -> bool {
        self.in_backdrop(x, y) && !self.in_hole(x, y)
    }
}

/// Whether `value` can be handed to the drawing surface as a coordinate.
pub open spec fn is_coordinate(value: int) -> bool {
    i32::MIN <= value <= i32::MAX
}

/// The cursor's horizontal position relative to the overlay's left edge.
pub open spec fn local_x(cursor_pos: Position, screen: VirtualScreen) -> int {
    cursor_pos.x - screen.x
}

/// The cursor's vertical position relative to the overlay's top edge.
pub open spec fn local_y(cursor_pos: Position, screen: VirtualScreen) -> int {
    cursor_pos.y - screen.y
}

/// Whether the square around the disc can be written in coordinates.
pub open spec fn hole_is_representable(
    cursor_pos: Position,
    screen: VirtualScreen,
    radius: i32,
) -> bool {
    &&& is_coordinate(local_x(cursor_pos, screen) - radius)
    &&& is_coordinate(local_x(cursor_pos, screen) + radius)
    &&& is_coordinate(local_y(cursor_pos, screen) - radius)
    &&& is_coordinate(local_y(cursor_pos, screen) + radius)
}

/// The clip region for a cursor at `cursor_pos` on the virtual screen
/// `screen`: the backdrop is as large as the screen, and the disc of radius
/// `radius` sits on the cursor.  There is none when a corner of the square
/// around the disc lies outside the coordinate range.
pub open spec fn spotlight_region(
    cursor_pos: Position,
    screen: VirtualScreen,
    radius: i32,
) -> Option<SpotlightRegion> {
    if hole_is_representable(cursor_pos, screen, radius) {
        Some(
            SpotlightRegion {
                width: screen.width,
                height: screen.height,
                hole_left: (local_x(cursor_pos, screen) - radius) as i32,
                hole_top: (local_y(cursor_pos, screen) - radius) as i32,
                hole_right: (local_x(cursor_pos, screen) + radius) as i32,
                hole_bottom: (local_y(cursor_pos, screen) + radius) as i32,
            },
        )
    } else {
        None
    }
}

/// Computes the clip region to apply to the overlay.  A larger radius than
/// the screen is in order; radii that are not positive are kept out by the
/// validation of the configuration, and are not looked at here.
pub fn apply_spotlight_region(
    cursor_pos: Position,
    screen: VirtualScreen,
    radius: i32,
) -> (region: Option<SpotlightRegion>)
    ensures
        region == spotlight_region(cursor_pos, screen, radius),
{
    let rel_x: i64 = cursor_pos.x as i64 - screen.x as i64;
    let rel_y: i64 = cursor_pos.y as i64 - screen.y as i64;
    let r: i64 = radius as i64;
    let left: i64 = rel_x - r;
    let top: i64 = rel_y - r;
    let right: i64 = rel_x + r;
    let bottom: i64 = rel_y + r;
    if in_coordinate_range(left) && in_coordinate_range(top) && in_coordinate_range(right)
        && in_coordinate_range(bottom) {
        Some(
            SpotlightRegion {
                width: screen.width,
                height: screen.height,
                hole_left: left as i32,
                hole_top: top as i32,
                hole_right: right as i32,
                hole_bottom: bottom as i32,
            },
        )
    } else {
        None
    }
}

fn in_coordinate_range(value: i64) -> (fits: bool)
    ensures
        fits == is_coordinate(value as int),
{
    -0x8000_0000 <= value && value <= 0x7fff_ffff
}

/// The hole is centred on the cursor and `2 * radius` wide and high.
pub proof fn lemma_hole_is_centred(cursor_pos: Position, screen: VirtualScreen, radius: i32)
    requires
        hole_is_representable(cursor_pos, screen, radius),
    ensures
        ({
            let region = spotlight_region(cursor_pos, screen, radius)->Some_0;
            &&& region.hole_left + region.hole_right == 2 * local_x(cursor_pos, screen)
            &&& region.hole_top + region.hole_bottom == 2 * local_y(cursor_pos, screen)
            &&& region.hole_right - region.hole_left == 2 * radius
            &&& region.hole_bottom - region.hole_top == 2 * radius
        }),
{
}

/// The region depends on where the cursor is on the virtual screen, not on
/// where the virtual screen lies: moving both by the same offset changes
/// nothing.
pub proof fn lemma_region_is_relative(
    cursor_pos: Position,
    screen: VirtualScreen,
    radius: i32,
    dx: i32,
    dy: i32,
)
    requires
        is_coordinate(cursor_pos.x + dx),
        is_coordinate(cursor_pos.y + dy),
        is_coordinate(screen.x + dx),
        is_coordinate(screen.y + dy),
    ensures
        spotlight_region(
            (Position { x: (cursor_pos.x + dx) as i32, y: (cursor_pos.y + dy) as i32 }),
            (VirtualScreen { x: (screen.x + dx) as i32, y: (screen.y + dy) as i32, ..screen }),
            radius,
        ) == spotlight_region(cursor_pos, screen, radius),
{
}

/// Where the cursor is on the virtual screen and the radius is no larger than
/// the largest coordinate of the screen, the region exists.
pub proof fn lemma_region_exists_on_screen(cursor_pos: Position, screen: VirtualScreen, radius: i32)
    requires
        0 <= screen.width,
        0 <= screen.height,
        0 <= local_x(cursor_pos, screen) <= screen.width,
        0 <= local_y(cursor_pos, screen) <= screen.height,
        0 <= radius,
        screen.width + radius <= i32::MAX,
        screen.height + radius <= i32::MAX,
    ensures
        spotlight_region(cursor_pos, screen, radius) is Some,
{
}

/// In a region that was computed, the hole is the open disc of the given
/// radius around the cursor.
pub proof fn lemma_hole_is_the_disc_around_the_cursor(
    cursor_pos: Position,
    screen: VirtualScreen,
    radius: i32,
    x: int,
    y: int,
)
    requires
        hole_is_representable(cursor_pos, screen, radius),
        radius > 0,
    ensures
        ({
            let region = spotlight_region(cursor_pos, screen, radius)->Some_0;
            let dx = x - local_x(cursor_pos, screen);
            let dy = y - local_y(cursor_pos, screen);
            region.in_hole(x, y) <==> dx * dx + dy * dy < radius * radius
        }),
{
    let region = spotlight_region(cursor_pos, screen, radius)->Some_0;
    lemma_hole_is_centred(cursor_pos, screen, radius);
    let r = radius as int;
    let dx = x - local_x(cursor_pos, screen);
    let dy = y - local_y(cursor_pos, screen);
    assert(region.hole_center_x() == local_x(cursor_pos, screen));
    assert(region.hole_center_y() == local_y(cursor_pos, screen));
    assert(region.hole_half_width() == r);
    assert(region.hole_half_height() == r);
    assert(((dx * r) * (dx * r) + (dy * r) * (dy * r) < (r * r) * (r * r)) <==> (dx * dx + dy * dy
        < r * r)) by (nonlinear_arith)
        requires
            r > 0,
    ;
}

/// The spotlight falls on the cursor: with a positive radius, the point
/// under the cursor is in the hole, so the backdrop never hides it.
pub proof fn lemma_cursor_is_in_the_hole(cursor_pos: Position, screen: VirtualScreen, radius: i32)
    requires
        hole_is_representable(cursor_pos, screen, radius),
        radius > 0,
    ensures
        ({
            let region = spotlight_region(cursor_pos, screen, radius)->Some_0;
            &&& region.in_hole(local_x(cursor_pos, screen), local_y(cursor_pos, screen))
            &&& !region.covers(local_x(cursor_pos, screen), local_y(cursor_pos, screen))
        }),
{
    lemma_hole_is_the_disc_around_the_cursor(
        cursor_pos,
        screen,
        radius,
        local_x(cursor_pos, screen),
        local_y(cursor_pos, screen),
    );
    assert(0 < radius * radius) by (nonlinear_arith)
        requires
            radius > 0,
    ;
}

/// The hole stays within its square: a point of the backdrop that is at
/// least the radius away from the cursor, to the side or up or down, is
/// hidden.
pub proof fn lemma_backdrop_hides_what_is_far(
    cursor_pos: Position,
    screen: VirtualScreen,
    radius: i32,
    x: int,
    y: int,
)
    requires
        hole_is_representable(cursor_pos, screen, radius),
        radius > 0,
        0 <= x < screen.width,
        0 <= y < screen.height,
        x - local_x(cursor_pos, screen) >= radius || local_x(cursor_pos, screen) - x >= radius || y
            - local_y(cursor_pos, screen) >= radius || local_y(cursor_pos, screen) - y >= radius,
    ensures
        spotlight_region(cursor_pos, screen, radius)->Some_0.covers(x, y),
{
    lemma_hole_is_the_disc_around_the_cursor(cursor_pos, screen, radius, x, y);
    let r = radius as int;
    let dx = x - local_x(cursor_pos, screen);
    let dy = y - local_y(cursor_pos, screen);
    assert(dx * dx + dy * dy >= r * r) by (nonlinear_arith)
        requires
            r > 0,
            dx >= r || -dx >= r || dy >= r || -dy >= r,
    ;
}

/// A hole wide enough uncovers everything: where the four corners of the
/// backdrop lie in the hole, the backdrop hides no point at all.
pub proof fn lemma_wide_hole_uncovers_everything(
    cursor_pos: Position,
    screen: VirtualScreen,
    radius: i32,
    x: int,
    y: int,
)
    requires
        hole_is_representable(cursor_pos, screen, radius),
        radius > 0,
        screen.width > 0,
        screen.height > 0,
        ({
            let region = spotlight_region(cursor_pos, screen, radius)->Some_0;
            &&& region.in_hole(0, 0)
            &&& region.in_hole(screen.width - 1, 0)
            &&& region.in_hole(0, screen.height - 1)
            &&& region.in_hole(screen.width - 1, screen.height - 1)
        }),
    ensures
        !spotlight_region(cursor_pos, screen, radius)->Some_0.covers(x, y),
{
    let region = spotlight_region(cursor_pos, screen, radius)->Some_0;
    let cx = local_x(cursor_pos, screen);
    let cy = local_y(cursor_pos, screen);
    let r = radius as int;
    let w = screen.width - 1;
    let h = screen.height - 1;
    lemma_hole_is_the_disc_around_the_cursor(cursor_pos, screen, radius, 0, 0);
    lemma_hole_is_the_disc_around_the_cursor(cursor_pos, screen, radius, w, 0);
    lemma_hole_is_the_disc_around_the_cursor(cursor_pos, screen, radius, 0, h);
    lemma_hole_is_the_disc_around_the_cursor(cursor_pos, screen, radius, w, h);
    lemma_hole_is_the_disc_around_the_cursor(cursor_pos, screen, radius, x, y);
    if region.in_backdrop(x, y) {
        // Along each axis the point is no farther from the cursor than the
        // farther of the two edges.
        let far_x = if (0 - cx) * (0 - cx) >= (w - cx) * (w - cx) {
            0 - cx
        } else {
            w - cx
        };
        let far_y = if (0 - cy) * (0 - cy) >= (h - cy) * (h - cy) {
            0 - cy
        } else {
            h - cy
        };
        assert((x - cx) * (x - cx) <= far_x * far_x) by (nonlinear_arith)
            requires
                0 <= x <= w,
                far_x == if (0 - cx) * (0 - cx) >= (w - cx) * (w - cx) {
                    0 - cx
                } else {
                    w - cx
                },
        ;
        assert((y - cy) * (y - cy) <= far_y * far_y) by (nonlinear_arith)
            requires
                0 <= y <= h,
                far_y == if (0 - cy) * (0 - cy) >= (h - cy) * (h - cy) {
                    0 - cy
                } else {
                    h - cy
                },
        ;
        assert(far_x * far_x + far_y * far_y < r * r);
    }
}

} // verus!
