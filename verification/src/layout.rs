//! Layout engine: carves the terminal area into three stacked regions.
//!
//! The policy is fixed: a uniform margin is subtracted from all four edges,
//! then the remaining vertical space holds a fixed-height title region, a
//! flexible content region that receives all slack, and a fixed-height help
//! region. When the space is too small the fixed regions are clamped and the
//! content region degenerates to zero height; this is a documented edge case,
//! not a failure.

use vstd::prelude::*;

verus! {

/// Height, in cells, of the fixed title region.
pub const TITLE_HEIGHT: u16 = 3;

/// Height, in cells, of the fixed help region.
pub const HELP_HEIGHT: u16 = 3;

/// One rectangular region of the terminal's cell grid.
#[derive(Clone, Copy, PartialEq, Eq, Structural, Debug)]
pub struct Rect {
    pub x: u16,
    pub y: u16,
    pub width: u16,
    pub height: u16,
}

impl Rect {
    /// A region is addressable when its right and bottom edges still lie on
    /// the terminal's cell grid.
    pub open spec fn wf(self) -> bool {
        self.x + self.width <= u16::MAX && self.y + self.height <= u16::MAX
    }

    /// Builds a region from its corner and extent.
    pub fn new(x: u16, y: u16, width: u16, height: u16) -> (r: Rect)
        ensures
            r.x == x && r.y == y && r.width == width && r.height == height,
    {
        Rect { x, y, width, height }
    }
}

/// The area left after subtracting a uniform margin from all four edges.
/// Each axis is clamped independently: where twice the margin does not fit,
/// that axis collapses to extent zero at the original corner.
pub open spec fn inner_spec(total: Rect, margin: u16) -> Rect {
    Rect {
        x: if 2 * margin <= total.width {
            (total.x + margin) as u16
        } else {
            total.x
        },
        y: if 2 * margin <= total.height {
            (total.y + margin) as u16
        } else {
            total.y
        },
        width: if 2 * margin <= total.width {
            (total.width - 2 * margin) as u16
        } else {
            0
        },
        height: if 2 * margin <= total.height {
            (total.height - 2 * margin) as u16
        } else {
            0
        },
    }
}

/// The three regions (title, content, help) that the layout policy assigns
/// inside `total` after a uniform `margin`.
pub open spec fn split_spec(total: Rect, margin: u16) -> (Rect, Rect, Rect) {
    let inner = inner_spec(total, margin);
    let title_h: u16 = if inner.height >= TITLE_HEIGHT {
        TITLE_HEIGHT
    } else {
        inner.height
    };
    let rest: u16 = (inner.height - title_h) as u16;
    let help_h: u16 = if rest >= HELP_HEIGHT {
        HELP_HEIGHT
    } else {
        rest
    };
    let content_h: u16 = (rest - help_h) as u16;
    (
        Rect { x: inner.x, y: inner.y, width: inner.width, height: title_h },
        Rect {
            x: inner.x,
            y: (inner.y + title_h) as u16,
            width: inner.width,
            height: content_h,
        },
        Rect {
            x: inner.x,
            y: (inner.y + title_h + content_h) as u16,
            width: inner.width,
            height: help_h,
        },
    )
}

/// Splits `total` into the title, content and help regions. The result is a
/// function of the arguments alone: identical inputs give identical regions.
pub fn split(total: Rect, margin: u16) -> (r: (Rect, Rect, Rect))
    requires
        total.wf(),
    ensures
        r == split_spec(total, margin),
        r.0.wf() && r.1.wf() && r.2.wf(),
{
    let two_margin: u32 = 2 * (margin as u32);
    let inner_x: u16 = if two_margin <= total.width as u32 {
        total.x + margin
    } else {
        total.x
    };
    let inner_y: u16 = if two_margin <= total.height as u32 {
        total.y + margin
    } else {
        total.y
    };
    let inner_w: u16 = if two_margin <= total.width as u32 {
        total.width - margin - margin
    } else {
        0
    };
    let inner_h: u16 = if two_margin <= total.height as u32 {
        total.height - margin - margin
    } else {
        0
    };
    let title_h: u16 = if inner_h >= TITLE_HEIGHT {
        TITLE_HEIGHT
    } else {
        inner_h
    };
    let rest: u16 = inner_h - title_h;
    let help_h: u16 = if rest >= HELP_HEIGHT {
        HELP_HEIGHT
    } else {
        rest
    };
    let content_h: u16 = rest - help_h;
    let title = Rect { x: inner_x, y: inner_y, width: inner_w, height: title_h };
    let content = Rect {
        x: inner_x,
        y: inner_y + title_h,
        width: inner_w,
        height: content_h,
    };
    let help = Rect {
        x: inner_x,
        y: inner_y + title_h + content_h,
        width: inner_w,
        height: help_h,
    };
    (title, content, help)
}

/// Shrinks a reported area until its edges lie on the cell grid again. A
/// well-formed area passes through unchanged; only extents are cut, never
/// the corner.
pub fn clamp_to_grid(r: Rect) -> (c: Rect)
    ensures
        c.wf(),
        r.wf() ==> c == r,
        c.x == r.x && c.y == r.y,
{
    let width: u16 = if (r.x as u32) + (r.width as u32) <= u16::MAX as u32 {
        r.width
    } else {
        u16::MAX - r.x
    };
    let height: u16 = if (r.y as u32) + (r.height as u32) <= u16::MAX as u32 {
        r.height
    } else {
        u16::MAX - r.y
    };
    Rect { x: r.x, y: r.y, width, height }
}

/// The split is deterministic: for identical `(total, margin)` inputs the
/// three output regions are identical.
pub proof fn lemma_split_deterministic(t1: Rect, m1: u16, t2: Rect, m2: u16)
    requires
        t1 == t2,
        m1 == m2,
    ensures
        split_spec(t1, m1) == split_spec(t2, m2),
{
}

/// The split partitions the height: the three region heights plus both
/// margins account exactly for the total height whenever the total height
/// admits both fixed regions beside the margins; otherwise the content
/// region is clamped to zero height.
pub proof fn lemma_split_partitions_height(total: Rect, margin: u16)
    requires
        total.wf(),
    ensures
        total.height >= TITLE_HEIGHT + HELP_HEIGHT + 2 * margin
            ==> split_spec(total, margin).0.height + split_spec(total, margin).1.height
            + split_spec(total, margin).2.height + 2 * margin == total.height,
        total.height < TITLE_HEIGHT + HELP_HEIGHT + 2 * margin
            ==> split_spec(total, margin).1.height == 0,
{
}

} // verus!
