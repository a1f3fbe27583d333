use vstd::prelude::*;

verus! {

/// A rectangle of terminal cells.
#[derive(Debug, Clone, Copy, PartialEq, Eq, Structural)]
pub struct Area {
    pub x: u16,
    pub y: u16,
    pub width: u16,
    pub height: u16,
}

/// Whether the area lies within the coordinates a terminal can address.
pub open spec fn fits(a: Area) -> bool {
    a.x + a.width <= u16::MAX && a.y + a.height <= u16::MAX
}

/// `a - b`, or 0 when `b` is larger.
pub open spec fn minus(a: int, b: int) -> int {
    if a >= b { a - b } else { 0 }
}

/// Where the four direction labels of the scene go.
#[derive(Debug, Clone, Copy, PartialEq, Eq, Structural)]
pub struct Compass {
    pub north: Area,
    pub south: Area,
    pub east: Area,
    pub west: Area,
}

/// The direction labels over a scene: `[N]orth` centred on the top line, `[S]outh`
/// centred on the bottom line, `[E]ast` and `[W]est` at the ends of the middle line.
pub open spec fn compass_of(inner: Area) -> Compass {
    let centre = inner.x + minus((inner.width / 2) as int, 3);
    let middle = inner.y + inner.height / 2;
    Compass {
        north: Area { x: centre as u16, y: inner.y, width: 7, height: 1 },
        south: Area { x: centre as u16, y: (inner.y + minus(inner.height as int, 1)) as u16, width: 7, height: 1 },
        east: Area { x: (inner.x + minus(inner.width as int, 6)) as u16, y: middle as u16, width: 6, height: 1 },
        west: Area { x: inner.x, y: middle as u16, width: 6, height: 1 },
    }
}

/// Where the direction labels go over the scene `inner`.
pub fn compass(inner: Area) -> (r: Compass)
    requires
        fits(inner),
    ensures
        r == compass_of(inner),
{
    let centre = inner.x + (inner.width / 2).saturating_sub(3);
    let middle = inner.y + inner.height / 2;
    Compass {
        north: Area { x: centre, y: inner.y, width: 7, height: 1 },
        south: Area { x: centre, y: inner.y + inner.height.saturating_sub(1), width: 7, height: 1 },
        east: Area { x: inner.x + inner.width.saturating_sub(6), y: middle, width: 6, height: 1 },
        west: Area { x: inner.x, y: middle, width: 6, height: 1 },
    }
}

/// The bottom line of `inner`, where the entities of the scene are listed.
pub fn bottom_line(inner: Area) -> (r: Area)
    requires
        fits(inner),
    ensures
        r == (Area {
            x: inner.x,
            y: (inner.y + minus(inner.height as int, 1)) as u16,
            width: inner.width,
            height: 1,
        }),
{
    Area { x: inner.x, y: inner.y + inner.height.saturating_sub(1), width: inner.width, height: 1 }
}

/// The area of the action menu over the scene `inner`: two cells in, 15 wide, and high
/// enough for `count` actions within a border.
pub fn menu_area(inner: Area, count: usize) -> (r: Area)
    requires
        inner.x + 2 <= u16::MAX,
        inner.y + 2 <= u16::MAX,
        count + 2 <= u16::MAX,
    ensures
        r == (Area { x: (inner.x + 2) as u16, y: (inner.y + 2) as u16, width: 15, height: (count + 2) as u16 }),
{
    Area { x: inner.x + 2, y: inner.y + 2, width: 15, height: count as u16 + 2 }
}

/// The line from which the event log is shown so that its newest lines fill a box of
/// `height` rows with a border, `offset` lines up from the bottom: the count of lines, taken
/// modulo 2^16 as the display does, less the rows inside the box, less the offset,
/// neither going below 0.
pub open spec fn scroll_of(line_count: usize, height: u16, offset: u16) -> u16 {
    minus(minus((line_count as u16) as int, minus(height as int, 2)), offset as int) as u16
}

/// The line from which the event log is shown.
pub fn events_scroll(line_count: usize, height: u16, offset: u16) -> (r: u16)
    ensures
        r == scroll_of(line_count, height, offset),
{
    #[verifier::truncate]
    let lines = line_count as u16;
    let max_scroll = lines.saturating_sub(height.saturating_sub(2));
    max_scroll.saturating_sub(offset)
}

/// `n * 80`, capped at the largest `u16`, as `u16::saturating_mul` computes it.
pub open spec fn times_80(n: u16) -> int {
    if n * 80 > u16::MAX { u16::MAX as int } else { n * 80 }
}

/// The overlay over `area`: four fifths of its width and height, centred.
pub open spec fn overlay_of(area: Area) -> Area {
    let w = times_80(area.width) / 100;
    let h = times_80(area.height) / 100;
    Area {
        x: (area.x + (area.width - w) / 2) as u16,
        y: (area.y + (area.height - h) / 2) as u16,
        width: w as u16,
        height: h as u16,
    }
}

/// The overlay over `area`.
pub fn overlay_area(area: Area) -> (r: Area)
    requires
        fits(area),
    ensures
        r == overlay_of(area),
{
    let wide = if area.width as u32 * 80 > u16::MAX as u32 { u16::MAX } else { area.width * 80 };
    let high = if area.height as u32 * 80 > u16::MAX as u32 { u16::MAX } else { area.height * 80 };
    let width = wide / 100;
    let height = high / 100;
    Area {
        x: area.x + area.width.saturating_sub(width) / 2,
        y: area.y + area.height.saturating_sub(height) / 2,
        width,
        height,
    }
}

} // verus!
