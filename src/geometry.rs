use vstd::prelude::*;

verus! {

/// One attached display, in virtual-desktop pixel coordinates.
#[derive(Clone, Copy, Debug, PartialEq, Eq, Structural)]
pub struct MonitorInfo {
    pub id: u32,
    pub x: i32,
    pub y: i32,
    pub width: u32,
    pub height: u32,
}

/// The half-open rectangle `[x, x+width) x [y, y+height)` of `m` holds the point.
pub open spec fn contains(m: MonitorInfo, px: int, py: int) -> bool {
    m.x <= px < m.x + m.width && m.y <= py < m.y + m.height
}

/// `r` is the answer of a first-match scan of `ms` for the point `(px, py)`.
pub open spec fn first_match(ms: Seq<MonitorInfo>, px: int, py: int, r: Option<usize>) -> bool {
    match r {
        Some(i) => i < ms.len() && contains(ms[i as int], px, py) && forall|j: int|
            0 <= j < i ==> !contains(#[trigger] ms[j], px, py),
        None => forall|j: int| 0 <= j < ms.len() ==> !contains(#[trigger] ms[j], px, py),
    }
}

impl MonitorInfo {
    pub fn new(id: u32, x: i32, y: i32, width: u32, height: u32) -> (r: MonitorInfo)
        ensures
            r == (MonitorInfo { id, x, y, width, height }),
    {
        MonitorInfo { id, x, y, width, height }
    }

    pub fn contains_point(&self, px: i32, py: i32) -> (r: bool)
        ensures
            r == contains(*self, px as int, py as int),
    {
        let px = px as i64;
        let py = py as i64;
        let x = self.x as i64;
        let y = self.y as i64;
        x <= px && px < x + self.width as i64 && y <= py && py < y + self.height as i64
    }
}

/// Index of the first monitor of `monitors` whose rectangle holds `(px, py)`.
pub fn find_monitor_containing(monitors: &Vec<MonitorInfo>, px: i32, py: i32) -> (r: Option<
    usize,
>)
    ensures
        first_match(monitors@, px as int, py as int, r),
{
    let mut i: usize = 0;
    while i < monitors.len()
        invariant
            i <= monitors@.len(),
            forall|j: int| 0 <= j < i ==> !contains(#[trigger] monitors@[j], px as int, py as int),
        decreases monitors@.len() - i,
    {
        if monitors[i].contains_point(px, py) {
            return Some(i);
        }
        i = i + 1;
    }
    None
}

/// A point outside every rectangle finds no monitor; a point inside exactly
/// one rectangle finds that monitor.
pub proof fn lemma_find_outside_and_unique(
    ms: Seq<MonitorInfo>,
    px: int,
    py: int,
    r: Option<usize>,
)
    requires
        first_match(ms, px, py, r),
    ensures
        (forall|j: int| 0 <= j < ms.len() ==> !contains(#[trigger] ms[j], px, py)) ==> r
            is None,
        forall|i: int|
            0 <= i < ms.len() && contains(ms[i], px, py) && (forall|j: int|
                0 <= j < ms.len() && j != i ==> !contains(#[trigger] ms[j], px, py)) ==> r
                == Some(i as usize),
{
    assert forall|i: int|
        0 <= i < ms.len() && contains(ms[i], px, py) && (forall|j: int|
            0 <= j < ms.len() && j != i ==> !contains(#[trigger] ms[j], px, py)) implies r
        == Some(i as usize) by {
        match r {
            Some(k) => {
                if k as int != i {
                    assert(!contains(ms[k as int], px, py));
                }
            },
            None => {
                assert(!contains(ms[i], px, py));
            },
        }
    }
}

/// The square region of side `size` centred on a cursor, its origin moved by
/// `size / 2` on each axis.
#[derive(Clone, Copy, Debug, PartialEq, Eq, Structural)]
pub struct CaptureRegion {
    pub x: i32,
    pub y: i32,
    pub width: u32,
    pub height: u32,
}

/// The capture region of side `size` around `(cx, cy)`.
pub open spec fn region_spec(cx: int, cy: int, size: int) -> (int, int, int) {
    (cx - size / 2, cy - size / 2, size)
}

pub fn capture_region_at(cx: i32, cy: i32, size: u32) -> (r: CaptureRegion)
    requires
        size <= i32::MAX,
        cx - size / 2 >= i32::MIN,
        cy - size / 2 >= i32::MIN,
    ensures
        (r.x as int, r.y as int, r.width as int) == region_spec(cx as int, cy as int, size as int),
        r.width == r.height,
{
    let half = (size / 2) as i32;
    CaptureRegion { x: cx - half, y: cy - half, width: size, height: size }
}

/// The rectangle of `m` as `(min_x, min_y, max_x, max_y)`.
pub open spec fn rect_of(m: MonitorInfo) -> (int, int, int, int) {
    (m.x as int, m.y as int, m.x + m.width, m.y + m.height)
}

/// The smallest rectangle holding every rectangle of `ms`, as
/// `(min_x, min_y, max_x, max_y)`; all zero when `ms` is empty.
pub open spec fn bounding_box(ms: Seq<MonitorInfo>) -> (int, int, int, int)
    decreases ms.len(),
{
    if ms.len() == 0 {
        (0, 0, 0, 0)
    } else if ms.len() == 1 {
        rect_of(ms[0])
    } else {
        let (a, b, c, d) = bounding_box(ms.drop_last());
        let (x0, y0, x1, y1) = rect_of(ms.last());
        (
            if x0 < a { x0 } else { a },
            if y0 < b { y0 } else { b },
            if x1 > c { x1 } else { c },
            if y1 > d { y1 } else { d },
        )
    }
}

/// The rectangle that an overlay spanning every monitor covers.
#[derive(Clone, Copy, Debug, PartialEq, Eq, Structural)]
pub struct OverlayBounds {
    pub min_x: i64,
    pub min_y: i64,
    pub max_x: i64,
    pub max_y: i64,
}

impl OverlayBounds {
    pub open spec fn well_formed(self) -> bool {
        i32::MIN <= self.min_x <= self.max_x <= i32::MAX + u32::MAX && i32::MIN <= self.min_y
            <= self.max_y <= i32::MAX + u32::MAX
    }

    pub fn width(&self) -> (r: u64)
        requires
            self.well_formed(),
        ensures
            r == self.max_x - self.min_x,
    {
        (self.max_x - self.min_x) as u64
    }

    pub fn height(&self) -> (r: u64)
        requires
            self.well_formed(),
        ensures
            r == self.max_y - self.min_y,
    {
        (self.max_y - self.min_y) as u64
    }
}

/// Folds every monitor's rectangle into a running minimum and maximum that
/// starts at the first monitor's rectangle.
pub fn overlay_bounds(monitors: &Vec<MonitorInfo>) -> (r: OverlayBounds)
    ensures
        (r.min_x as int, r.min_y as int, r.max_x as int, r.max_y as int) == bounding_box(
            monitors@,
        ),
        r.well_formed(),
{
    if monitors.len() == 0 {
        return OverlayBounds { min_x: 0, min_y: 0, max_x: 0, max_y: 0 };
    }
    let first = monitors[0];
    let mut b = OverlayBounds {
        min_x: first.x as i64,
        min_y: first.y as i64,
        max_x: first.x as i64 + first.width as i64,
        max_y: first.y as i64 + first.height as i64,
    };
    proof {
        assert(monitors@.subrange(0, 1).len() == 1);
        assert(monitors@.subrange(0, 1)[0] == monitors@[0]);
    }
    let mut i: usize = 1;
    while i < monitors.len()
        invariant
            1 <= i <= monitors@.len(),
            b.well_formed(),
            (b.min_x as int, b.min_y as int, b.max_x as int, b.max_y as int) == bounding_box(
                monitors@.subrange(0, i as int),
            ),
        decreases monitors@.len() - i,
    {
        let m = monitors[i];
        let x = m.x as i64;
        let y = m.y as i64;
        let right = x + m.width as i64;
        let bottom = y + m.height as i64;
        if x < b.min_x {
            b.min_x = x;
        }
        if y < b.min_y {
            b.min_y = y;
        }
        if right > b.max_x {
            b.max_x = right;
        }
        if bottom > b.max_y {
            b.max_y = bottom;
        }
        proof {
            assert(monitors@.subrange(0, i + 1).drop_last() =~= monitors@.subrange(0, i as int));
        }
        i = i + 1;
    }
    proof {
        assert(monitors@.subrange(0, monitors@.len() as int) =~= monitors@);
    }
    b
}

} // verus!
