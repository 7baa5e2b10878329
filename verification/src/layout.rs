//! Rectangle arithmetic for the screen layout: the vertical split of the
//! list view, the fixed-height split of the new-task form, centering of a
//! text block, margins, and the right-hugging width limit of a
//! notification panel. All of it is plain `u16` geometry.

use vstd::prelude::*;

verus! {

/// A rectangular region of the terminal grid, in cells. `x`/`y` is the
/// top-left corner; the region covers `width` columns and `height` rows.
#[derive(Clone, Copy, PartialEq, Eq, Structural, Debug)]
pub struct Rect {
    pub x: u16,
    pub y: u16,
    pub width: u16,
    pub height: u16,
}

impl Rect {
    /// The region fits the `u16` grid: its far edges do not wrap around.
    pub open spec fn wf(self) -> bool {
        &&& self.x + self.width <= u16::MAX
        &&& self.y + self.height <= u16::MAX
    }

    /// `other` lies entirely within `self`.
    pub open spec fn spec_contains(self, other: Rect) -> bool {
        &&& self.x <= other.x
        &&& other.x + other.width <= self.x + self.width
        &&& self.y <= other.y
        &&& other.y + other.height <= self.y + self.height
    }

    pub fn new(x: u16, y: u16, width: u16, height: u16) -> (r: Rect)
        requires
            x + width <= u16::MAX,
            y + height <= u16::MAX,
        ensures
            r == (Rect { x, y, width, height }),
            r.wf(),
    {
        Rect { x, y, width, height }
    }
}

/// The region of `area` that holds `x_size` percent of its width and
/// `y_size` percent of its height, centered in both directions.
pub open spec fn spec_center_area(area: Rect, x_size: u16, y_size: u16) -> Rect {
    let w = area.width * x_size / 100;
    let h = area.height * y_size / 100;
    Rect {
        x: (area.x + (area.width - w) / 2) as u16,
        y: (area.y + (area.height - h) / 2) as u16,
        width: w as u16,
        height: h as u16,
    }
}

/// Shrinks an area to the given percentages of its width and height,
/// keeping it centered.
pub fn center_area(area: Rect, x_size: u16, y_size: u16) -> (r: Rect)
    requires
        area.wf(),
        x_size <= 100,
        y_size <= 100,
    ensures
        r == spec_center_area(area, x_size, y_size),
        r.wf(),
        area.spec_contains(r),
{
    proof {
        assert((area.width as int) * (x_size as int) <= 65535 * 100) by (nonlinear_arith)
            requires
                area.width <= 65535,
                x_size <= 100,
        ;
        assert((area.height as int) * (y_size as int) <= 65535 * 100) by (nonlinear_arith)
            requires
                area.height <= 65535,
                y_size <= 100,
        ;
        assert((area.width as int) * (x_size as int) / 100 <= area.width as int) by (nonlinear_arith)
            requires
                x_size <= 100,
                area.width >= 0,
        ;
        assert((area.height as int) * (y_size as int) / 100 <= area.height as int)
            by (nonlinear_arith)
            requires
                y_size <= 100,
                area.height >= 0,
        ;
    }
    let w: u16 = ((area.width as u64) * (x_size as u64) / 100) as u16;
    let h: u16 = ((area.height as u64) * (y_size as u64) / 100) as u16;
    Rect {
        x: area.x + (area.width - w) / 2,
        y: area.y + (area.height - h) / 2,
        width: w,
        height: h,
    }
}

/// The three stacked regions of the list view: the task list on the top
/// half, the description panel below it, and a single controls row at the
/// bottom. The heights cover `area` exactly.
pub open spec fn spec_list_view_rows(height: u16) -> (int, int, int) {
    let list_h = height as int / 2;
    let controls_h = if height as int - list_h >= 1 { 1int } else { 0int };
    let content_h = height as int - list_h - controls_h;
    (list_h, content_h, controls_h)
}

/// Splits the list-view area vertically into the task-list region, the
/// description region, and the one-line controls strip, in that order from
/// the top.
pub fn list_view_layout(area: Rect) -> (r: (Rect, Rect, Rect))
    requires
        area.wf(),
    ensures
        r.0.height as int == spec_list_view_rows(area.height).0,
        r.1.height as int == spec_list_view_rows(area.height).1,
        r.2.height as int == spec_list_view_rows(area.height).2,
        r.0.height + r.1.height + r.2.height == area.height,
        r.0.x == area.x && r.1.x == area.x && r.2.x == area.x,
        r.0.width == area.width && r.1.width == area.width && r.2.width == area.width,
        r.0.y == area.y,
        r.1.y == area.y + r.0.height,
        r.2.y == area.y + r.0.height + r.1.height,
        r.0.wf() && r.1.wf() && r.2.wf(),
{
    let list_h: u16 = area.height / 2;
    let controls_h: u16 = if area.height - list_h >= 1 { 1 } else { 0 };
    let content_h: u16 = area.height - list_h - controls_h;
    let list = Rect { x: area.x, y: area.y, width: area.width, height: list_h };
    let content = Rect { x: area.x, y: area.y + list_h, width: area.width, height: content_h };
    let controls = Rect {
        x: area.x,
        y: area.y + list_h + content_h,
        width: area.width,
        height: controls_h,
    };
    (list, content, controls)
}

/// Splits the new-task form vertically: a title box fixed at three rows
/// (clamped to the area) on top, the description box filling the rest.
pub fn new_task_layout(area: Rect) -> (r: (Rect, Rect))
    requires
        area.wf(),
    ensures
        r.0.height == if area.height >= 3 { 3u16 } else { area.height },
        r.0.height + r.1.height == area.height,
        r.0.x == area.x && r.1.x == area.x,
        r.0.width == area.width && r.1.width == area.width,
        r.0.y == area.y,
        r.1.y == area.y + r.0.height,
        r.0.wf() && r.1.wf(),
{
    let title_h: u16 = if area.height >= 3 { 3 } else { area.height };
    let title = Rect { x: area.x, y: area.y, width: area.width, height: title_h };
    let description = Rect {
        x: area.x,
        y: area.y + title_h,
        width: area.width,
        height: area.height - title_h,
    };
    (title, description)
}

/// The band of `area` where a block of text `text_height` rows tall sits
/// vertically centered. A block taller than the area gets the whole area.
pub open spec fn spec_centered_text_area(area: Rect, text_height: u16) -> Rect {
    if text_height >= area.height {
        area
    } else {
        Rect {
            x: area.x,
            y: (area.y + (area.height - text_height) / 2) as u16,
            width: area.width,
            height: text_height,
        }
    }
}

/// Vertically centers a text block of the given height within an area.
pub fn centered_text_area(area: Rect, text_height: u16) -> (r: Rect)
    requires
        area.wf(),
    ensures
        r == spec_centered_text_area(area, text_height),
        r.wf(),
        area.spec_contains(r),
{
    if text_height >= area.height {
        area
    } else {
        Rect {
            x: area.x,
            y: area.y + (area.height - text_height) / 2,
            width: area.width,
            height: text_height,
        }
    }
}

/// The area shrunk by `horizontal` columns on the left and on the right,
/// and by `vertical` rows on the top and on the bottom. Margins larger
/// than the area collapse the matching dimension to zero.
pub open spec fn spec_margin(area: Rect, horizontal: u16, vertical: u16) -> Rect {
    let w = if 2 * horizontal <= area.width { area.width - 2 * horizontal } else { 0int };
    let h = if 2 * vertical <= area.height { area.height - 2 * vertical } else { 0int };
    Rect {
        x: if 2 * horizontal <= area.width { (area.x + horizontal) as u16 } else { area.x },
        y: if 2 * vertical <= area.height { (area.y + vertical) as u16 } else { area.y },
        width: w as u16,
        height: h as u16,
    }
}

/// Shrinks an area by symmetric horizontal and vertical margins.
pub fn margin(area: Rect, horizontal: u16, vertical: u16) -> (r: Rect)
    requires
        area.wf(),
    ensures
        r == spec_margin(area, horizontal, vertical),
        r.wf(),
        area.spec_contains(r),
{
    let (x, w): (u16, u16) = if horizontal <= area.width / 2 && 2 * horizontal <= area.width {
        (area.x + horizontal, area.width - 2 * horizontal)
    } else {
        (area.x, 0)
    };
    let (y, h): (u16, u16) = if vertical <= area.height / 2 && 2 * vertical <= area.height {
        (area.y + vertical, area.height - 2 * vertical)
    } else {
        (area.y, 0)
    };
    Rect { x, y, width: w, height: h }
}

/// The inside of a block that draws only its top border: one row shorter,
/// starting one row further down.
pub fn top_border_inner(area: Rect) -> (r: Rect)
    requires
        area.wf(),
    ensures
        r.x == area.x && r.width == area.width,
        r.y == if area.height >= 1 { area.y + 1 } else { area.y as int },
        r.height == if area.height >= 1 { area.height - 1 } else { 0int },
        r.wf(),
        area.spec_contains(r),
{
    if area.height >= 1 {
        Rect { x: area.x, y: area.y + 1, width: area.width, height: area.height - 1 }
    } else {
        Rect { x: area.x, y: area.y, width: area.width, height: 0 }
    }
}

/// The inside of a block bordered on all four sides: shrunk by one cell in
/// every direction.
pub fn bordered_inner(area: Rect) -> (r: Rect)
    requires
        area.wf(),
    ensures
        r == spec_margin(area, 1, 1),
        r.wf(),
        area.spec_contains(r),
{
    margin(area, 1, 1)
}

} // verus!
