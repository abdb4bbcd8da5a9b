//! Screen geometry: points, rectangles, the rubber-band selection and the
//! placement of the overlay decorations.

use vstd::prelude::*;

verus! {

/// A point in screen coordinates (pixels, origin at the top left of the primary screen).
#[derive(Clone, Copy, Debug, PartialEq, Eq, Structural)]
pub struct Point {
    pub x: i32,
    pub y: i32,
}

/// A rectangle given by its edges, in screen coordinates.
#[derive(Clone, Copy, Debug, PartialEq, Eq, Structural)]
pub struct Rect {
    pub left: i32,
    pub top: i32,
    pub right: i32,
    pub bottom: i32,
}

/// A rectangle given by its top-left corner and its size, as drawing calls take it.
#[derive(Clone, Copy, Debug, PartialEq, Eq, Structural)]
pub struct PixelBox {
    pub x: i32,
    pub y: i32,
    pub width: i32,
    pub height: i32,
}

/// The smaller of two integers.
pub open spec fn min_int(a: int, b: int) -> int {
    if a <= b {
        a
    } else {
        b
    }
}

/// The larger of two integers.
pub open spec fn max_int(a: int, b: int) -> int {
    if a >= b {
        a
    } else {
        b
    }
}

impl Rect {
    /// Whether the edges are in order: left not right of right, top not below bottom.
    pub open spec fn is_normalized(self) -> bool {
        self.left <= self.right && self.top <= self.bottom
    }

    /// Whether `p` lies inside the rectangle or on its edges.
    pub open spec fn contains(self, p: Point) -> bool {
        self.left <= p.x <= self.right && self.top <= p.y <= self.bottom
    }
}

/// The rectangle spanned by the two corners of a drag, whatever its direction.
pub open spec fn spanned_rect(a: Point, b: Point) -> Rect {
    Rect {
        left: min_int(a.x as int, b.x as int) as i32,
        top: min_int(a.y as int, b.y as int) as i32,
        right: max_int(a.x as int, b.x as int) as i32,
        bottom: max_int(a.y as int, b.y as int) as i32,
    }
}

/// Whether the span of a drag from `a` to `b` has a width and height that fit in an `i32`.
pub open spec fn span_fits(a: Point, b: Point) -> bool {
    max_int(a.x as int, b.x as int) - min_int(a.x as int, b.x as int) <= i32::MAX
        && max_int(a.y as int, b.y as int) - min_int(a.y as int, b.y as int) <= i32::MAX
}

/// The rectangle spanned by the start and end point of a drag.
pub fn normalized_rect(a: Point, b: Point) -> (r: Rect)
    ensures
        r == spanned_rect(a, b),
{
    let left = if a.x <= b.x {
        a.x
    } else {
        b.x
    };
    let top = if a.y <= b.y {
        a.y
    } else {
        b.y
    };
    let right = if a.x >= b.x {
        a.x
    } else {
        b.x
    };
    let bottom = if a.y >= b.y {
        a.y
    } else {
        b.y
    };
    Rect { left, top, right, bottom }
}

/// The rectangle spanned by a drag does not depend on its direction, is normalized,
/// holds both of its corners, and is the smallest rectangle that does.
pub proof fn lemma_spanned_rect(a: Point, b: Point)
    ensures
        spanned_rect(a, b) == spanned_rect(b, a),
        spanned_rect(a, b).is_normalized(),
        spanned_rect(a, b).contains(a),
        spanned_rect(a, b).contains(b),
        forall|r: Rect| #[trigger]
            r.contains(a) && r.contains(b) ==> r.left <= spanned_rect(a, b).left && r.top
                <= spanned_rect(a, b).top && spanned_rect(a, b).right <= r.right
                && spanned_rect(a, b).bottom <= r.bottom,
{
}

/// The selection box drawn while dragging from `a` to `b`: top-left corner and size.
pub fn selection_box(a: Point, b: Point) -> (r: PixelBox)
    requires
        span_fits(a, b),
    ensures
        r.x == spanned_rect(a, b).left,
        r.y == spanned_rect(a, b).top,
        r.width == spanned_rect(a, b).right - spanned_rect(a, b).left,
        r.height == spanned_rect(a, b).bottom - spanned_rect(a, b).top,
{
    let rect = normalized_rect(a, b);
    PixelBox {
        x: rect.left,
        y: rect.top,
        width: rect.right - rect.left,
        height: rect.bottom - rect.top,
    }
}

/// The side of a resize handle, in pixels.
pub const HANDLE_SIZE: i32 = 16;

/// The square handle of side `HANDLE_SIZE` centred on `(cx, cy)`.
pub open spec fn handle_at(cx: int, cy: int) -> PixelBox {
    PixelBox {
        x: (cx - HANDLE_SIZE / 2) as i32,
        y: (cy - HANDLE_SIZE / 2) as i32,
        width: HANDLE_SIZE,
        height: HANDLE_SIZE,
    }
}

/// Whether all four corners of `b`, and the handles around them, have coordinates that fit
/// in an `i32`.
pub open spec fn handles_fit(b: PixelBox) -> bool {
    i32::MIN + HANDLE_SIZE / 2 <= b.x && i32::MIN + HANDLE_SIZE / 2 <= b.y && b.x + b.width
        <= i32::MAX && b.y + b.height <= i32::MAX && i32::MIN + HANDLE_SIZE / 2 <= b.x + b.width
        && i32::MIN + HANDLE_SIZE / 2 <= b.y + b.height
}

/// The resize handles drawn on the corners of the selection: top left, top right,
/// bottom left, bottom right.
pub fn resize_handles(b: PixelBox) -> (r: Vec<PixelBox>)
    requires
        handles_fit(b),
    ensures
        r@ == seq![
            handle_at(b.x as int, b.y as int),
            handle_at(b.x + b.width, b.y as int),
            handle_at(b.x as int, b.y + b.height),
            handle_at(b.x + b.width, b.y + b.height),
        ],
{
    let half = HANDLE_SIZE / 2;
    let right = b.x + b.width;
    let bottom = b.y + b.height;
    let mut r = Vec::new();
    r.push(PixelBox { x: b.x - half, y: b.y - half, width: HANDLE_SIZE, height: HANDLE_SIZE });
    r.push(PixelBox { x: right - half, y: b.y - half, width: HANDLE_SIZE, height: HANDLE_SIZE });
    r.push(PixelBox { x: b.x - half, y: bottom - half, width: HANDLE_SIZE, height: HANDLE_SIZE });
    r.push(PixelBox { x: right - half, y: bottom - half, width: HANDLE_SIZE, height: HANDLE_SIZE });
    assert(r@ =~= seq![
        handle_at(b.x as int, b.y as int),
        handle_at(b.x + b.width, b.y as int),
        handle_at(b.x as int, b.y + b.height),
        handle_at(b.x + b.width, b.y + b.height),
    ]);
    r
}

/// Width of the overlay that follows the cursor in capture mode.
pub const CAPTURE_OVERLAY_WIDTH: i32 = 230;

/// Height of the overlay that follows the cursor in capture mode.
pub const CAPTURE_OVERLAY_HEIGHT: i32 = 90;

/// Side of the status icon drawn in that overlay.
pub const ICON_DRAW_SIZE: i32 = 32;

/// Where the capture-mode overlay goes for the cursor at `p`: its top-left corner one icon
/// size up and left of the cursor.
pub fn capture_overlay_box(p: Point) -> (r: PixelBox)
    requires
        p.x >= i32::MIN + ICON_DRAW_SIZE,
        p.y >= i32::MIN + ICON_DRAW_SIZE,
    ensures
        r == (PixelBox {
            x: (p.x - ICON_DRAW_SIZE) as i32,
            y: (p.y - ICON_DRAW_SIZE) as i32,
            width: CAPTURE_OVERLAY_WIDTH,
            height: CAPTURE_OVERLAY_HEIGHT,
        }),
{
    PixelBox {
        x: p.x - ICON_DRAW_SIZE,
        y: p.y - ICON_DRAW_SIZE,
        width: CAPTURE_OVERLAY_WIDTH,
        height: CAPTURE_OVERLAY_HEIGHT,
    }
}

/// Horizontal offset of the progress label in the capture-mode overlay.
pub const LABEL_OFFSET_X: i32 = 20;

/// The box of the auto-click progress label: right of the offset, below the icon, down to
/// the bottom of the overlay.
pub fn progress_label_box() -> (r: PixelBox)
    ensures
        r == (PixelBox {
            x: LABEL_OFFSET_X,
            y: 33,
            width: 210,
            height: 57,
        }),
{
    let y = ICON_DRAW_SIZE + 1;
    PixelBox {
        x: LABEL_OFFSET_X,
        y,
        width: CAPTURE_OVERLAY_WIDTH - LABEL_OFFSET_X,
        height: CAPTURE_OVERLAY_HEIGHT - y,
    }
}


/// Half of `v`, rounded toward zero (the quotient Rust's `/` gives).
pub open spec fn half_toward_zero(v: int) -> int {
    if v >= 0 {
        v / 2
    } else {
        -((-v) / 2)
    }
}

/// The top-left corner at which an icon of side `size` is drawn centred in `r`.
pub open spec fn centered_origin(r: Rect, size: int) -> Point {
    Point {
        x: (r.left + half_toward_zero(r.right - r.left - size)) as i32,
        y: (r.top + half_toward_zero(r.bottom - r.top - size)) as i32,
    }
}

/// Whether the centring of an icon of side `size` in `r` stays within `i32`.
pub open spec fn centering_fits(r: Rect, size: int) -> bool {
    &&& i32::MIN <= r.right - r.left <= i32::MAX
    &&& i32::MIN <= r.bottom - r.top <= i32::MAX
    &&& i32::MIN <= r.right - r.left - size <= i32::MAX
    &&& i32::MIN <= r.bottom - r.top - size <= i32::MAX
    &&& i32::MIN <= r.left + half_toward_zero(r.right - r.left - size) <= i32::MAX
    &&& i32::MIN <= r.top + half_toward_zero(r.bottom - r.top - size) <= i32::MAX
}

fn half_i32(v: i32) -> (r: i32)
    ensures
        r == half_toward_zero(v as int),
{
    if v >= 0 {
        v / 2
    } else if v == i32::MIN {
        -1073741824
    } else {
        -((-v) / 2)
    }
}

/// Where an owner-drawn button draws its icon of side `size`: centred in the button.
pub fn icon_origin(r: Rect, size: i32) -> (p: Point)
    requires
        centering_fits(r, size as int),
    ensures
        p == centered_origin(r, size as int),
{
    let dx = r.right - r.left - size;
    let dy = r.bottom - r.top - size;
    Point { x: r.left + half_i32(dx), y: r.top + half_i32(dy) }
}

} // verus!
