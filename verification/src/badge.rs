//! Where the Windows mode badge goes: below the caret rectangle (above it when there is
//! no room below), by the mouse when no caret is known, and always inside the work area
//! of the monitor, shadow margin included.

use vstd::prelude::*;

use crate::layout::ScreenRect;

verus! {

/// Gap between the caret and the badge, in logical pixels.
pub const CARET_GAP: i64 = 4;

/// Offset from the mouse pointer when no caret is known, in logical pixels.
pub const CURSOR_GAP: i64 = 12;

/// Logical pixels scaled to the display's DPI, at least one pixel.
pub open spec fn scale_spec(px: int, dpi: int) -> int {
    let v = (px * dpi) / 96;
    if v < 1 {
        1
    } else {
        v
    }
}

pub open spec fn clamp_spec(x: int, lo: int, hi: int) -> int {
    if x < lo {
        lo
    } else if x > hi {
        hi
    } else {
        x
    }
}

/// The badge content's top-left corner.
pub open spec fn anchor_spec(
    dpi: int,
    caret: Option<ScreenRect>,
    cursor: (i32, i32),
    work: ScreenRect,
    content: (i32, i32),
    margin: i32,
) -> (int, int) {
    let (x, y0) = match caret {
        Some(rect) => (rect.left as int, rect.bottom + scale_spec(CARET_GAP as int, dpi)),
        None => (
            cursor.0 + scale_spec(CURSOR_GAP as int, dpi),
            cursor.1 + scale_spec(CURSOR_GAP as int, dpi),
        ),
    };
    let y = match caret {
        Some(rect) => if y0 + content.1 + margin > work.bottom {
            rect.top - scale_spec(CARET_GAP as int, dpi) - content.1
        } else {
            y0
        },
        None => y0,
    };
    let x_lo = work.left + margin;
    let x_hi = if work.right - margin - content.0 >= x_lo {
        work.right - margin - content.0
    } else {
        x_lo
    };
    let y_lo = work.top + margin;
    let y_hi = if work.bottom - margin - content.1 >= y_lo {
        work.bottom - margin - content.1
    } else {
        y_lo
    };
    (clamp_spec(x, x_lo, x_hi), clamp_spec(y, y_lo, y_hi))
}

fn scale(px: i64, dpi: i64) -> (r: i64)
    requires
        0 <= px <= 12,
        0 <= dpi <= u32::MAX,
    ensures
        r == scale_spec(px as int, dpi as int),
{
    assert(0 <= px * dpi <= 12 * 0xffff_ffff) by (nonlinear_arith)
        requires
            0 <= px <= 12,
            0 <= dpi <= 0xffff_ffff,
    ;
    let v = (px * dpi) / 96;
    if v < 1 {
        1
    } else {
        v
    }
}

fn clamp(x: i64, lo: i64, hi: i64) -> (r: i64)
    ensures
        r == clamp_spec(x as int, lo as int, hi as int),
{
    if x < lo {
        lo
    } else if x > hi {
        hi
    } else {
        x
    }
}

/// The top-left corner of the badge's content for a display of `dpi`: by the caret
/// rectangle, else by the mouse position `cursor`, kept inside the work area `work`
/// (which the caller takes from the monitor nearest to the caret or the mouse).
pub fn anchor(
    dpi: u32,
    caret: Option<ScreenRect>,
    cursor: (i32, i32),
    work: ScreenRect,
    content: (i32, i32),
    margin: i32,
) -> (r: (i64, i64))
    ensures
        (r.0 as int, r.1 as int) == anchor_spec(dpi as int, caret, cursor, work, content, margin),
{
    let dpi = dpi as i64;
    let (x, mut y): (i64, i64) = match caret {
        Some(rect) => (rect.left as i64, rect.bottom as i64 + scale(CARET_GAP, dpi)),
        None => {
            let gap = scale(CURSOR_GAP, dpi);
            (cursor.0 as i64 + gap, cursor.1 as i64 + gap)
        },
    };
    if let Some(rect) = caret {
        if y + content.1 as i64 + margin as i64 > work.bottom as i64 {
            y = rect.top as i64 - scale(CARET_GAP, dpi) - content.1 as i64;
        }
    }
    let x_lo = work.left as i64 + margin as i64;
    let x_hi = if work.right as i64 - margin as i64 - content.0 as i64 >= x_lo {
        work.right as i64 - margin as i64 - content.0 as i64
    } else {
        x_lo
    };
    let y_lo = work.top as i64 + margin as i64;
    let y_hi = if work.bottom as i64 - margin as i64 - content.1 as i64 >= y_lo {
        work.bottom as i64 - margin as i64 - content.1 as i64
    } else {
        y_lo
    };
    (clamp(x, x_lo, x_hi), clamp(y, y_lo, y_hi))
}

pub open spec fn badge_text(english: bool) -> Seq<char> {
    if english {
        "英"@
    } else {
        "中"@
    }
}

/// The badge's one character: 英 in English mode, 中 in Chinese.
pub fn badge_label(english: bool) -> (r: &'static str)
    ensures
        r@ == badge_text(english),
{
    if english {
        "英"
    } else {
        "中"
    }
}

/// Where the badge window goes and how large it is, around its text.
#[derive(Debug, Clone, Copy)]
pub struct BadgeLayout {
    /// The content: the text with padding on both sides and half a padding above and
    /// below.
    pub content: (i64, i64),
    /// The window's top-left corner: the content's anchor less the shadow margin.
    pub win_pos: (i64, i64),
    /// The window's size: the content with the shadow margin all round.
    pub win_size: (i64, i64),
    /// Where the text goes inside the window, centred.
    pub text_pos: (i64, i64),
}

/// Half of `x`, rounded toward zero (as integer division does).
pub open spec fn half(x: int) -> int {
    if x >= 0 {
        x / 2
    } else {
        -((-x) / 2)
    }
}

pub open spec fn badge_layout_spec(text: (i32, i32), padding: i32, margin: i32, anchor: (i64, i64)) -> Option<
    (int, int, int, int, int, int, int, int),
> {
    let cw = text.0 + padding * 2;
    let ch = text.1 + padding;
    if cw <= 0 || ch <= 0 {
        None
    } else {
        let ww = cw + margin * 2;
        let wh = ch + margin * 2;
        Some((cw, ch, anchor.0 - margin, anchor.1 - margin, ww, wh, half(ww - text.0), half(wh - text.1)))
    }
}

/// The badge's geometry for a text of size `text`, the theme's `padding`, the shadow
/// `margin`, and the content's top-left corner `anchor`; `None` when the content would
/// be empty (nothing is shown then).
pub fn badge_layout(text: (i32, i32), padding: i32, margin: i32, anchor: (i64, i64)) -> (r: Option<BadgeLayout>)
    requires
        i64::MIN / 2 <= anchor.0 <= i64::MAX / 2,
        i64::MIN / 2 <= anchor.1 <= i64::MAX / 2,
    ensures
        match badge_layout_spec(text, padding, margin, anchor) {
            None => r is None,
            Some((cw, ch, x, y, ww, wh, tx, ty)) => r == Some(
                BadgeLayout {
                    content: (cw as i64, ch as i64),
                    win_pos: (x as i64, y as i64),
                    win_size: (ww as i64, wh as i64),
                    text_pos: (tx as i64, ty as i64),
                },
            ),
        },
{
    let cw = text.0 as i64 + padding as i64 * 2;
    let ch = text.1 as i64 + padding as i64;
    if cw <= 0 || ch <= 0 {
        return None;
    }
    let ww = cw + margin as i64 * 2;
    let wh = ch + margin as i64 * 2;
    Some(
        BadgeLayout {
            content: (cw, ch),
            win_pos: (anchor.0 - margin as i64, anchor.1 - margin as i64),
            win_size: (ww, wh),
            text_pos: ((ww - text.0 as i64) / 2, (wh - text.1 as i64) / 2),
        },
    )
}

} // verus!