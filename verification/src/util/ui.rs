//! Screen geometry and colors: centered modal areas, the grid of view panels
//! on the dashboard, and hex color strings.
//!
//! Areas are split with tui's constraint layout.  What its required
//! constraints fix is promised here: the pieces lie in the area, span it
//! across the cut, follow each other in order, and the first and last touch
//! the area's ends; where the percentages divide the length evenly, every
//! piece is exact.  Beyond that the solver's outcome depends on hash maps
//! seeded per process and is not promised.  What this module decides (the
//! constraints it asks for and the order in which it hands the pieces on)
//! is stated exactly.
use vstd::prelude::*;

verus! {

/// A rectangle on the terminal, in cells.
#[derive(PartialEq, Eq, Structural, Clone, Copy, Debug, Default)]
pub struct Rect {
    pub x: u16,
    pub y: u16,
    pub width: u16,
    pub height: u16,
}

/// The column just past the right edge, as tui computes it (saturating).
pub open spec fn right_edge(r: Rect) -> int {
    if r.x + r.width > u16::MAX { u16::MAX as int } else { r.x + r.width }
}

/// The row just past the bottom edge, as tui computes it (saturating).
pub open spec fn bottom_edge(r: Rect) -> int {
    if r.y + r.height > u16::MAX { u16::MAX as int } else { r.y + r.height }
}

/// Along which axis an area is cut into pieces.
#[derive(PartialEq, Eq, Structural, Clone, Copy, Debug)]
pub enum Direction {
    Horizontal,
    Vertical,
}

/// The length of `area` along `direction`.
pub open spec fn extent(direction: Direction, area: Rect) -> int {
    match direction {
        Direction::Horizontal => area.width as int,
        Direction::Vertical => area.height as int,
    }
}

/// A terminal color, as tui names them.
#[derive(PartialEq, Eq, Structural, Clone, Copy, Debug)]
pub enum Color {
    Reset,
    Black,
    Red,
    Green,
    Yellow,
    Blue,
    Magenta,
    Cyan,
    Gray,
    DarkGray,
    LightRed,
    LightGreen,
    LightYellow,
    LightBlue,
    LightMagenta,
    LightCyan,
    White,
    Rgb(u8, u8, u8),
    Indexed(u8),
}

/// Where `r` starts along `direction`.
pub open spec fn start_along(direction: Direction, r: Rect) -> int {
    match direction {
        Direction::Horizontal => r.x as int,
        Direction::Vertical => r.y as int,
    }
}

/// Where `r` ends along `direction` (saturating, as tui computes it).
pub open spec fn end_along(direction: Direction, r: Rect) -> int {
    match direction {
        Direction::Horizontal => right_edge(r),
        Direction::Vertical => bottom_edge(r),
    }
}

/// The lengths that the first `i` percentages give of `length`, summed.
pub open spec fn percent_prefix(percents: Seq<u16>, length: int, i: int) -> int
    decreases i,
{
    if i <= 0 {
        0
    } else {
        percent_prefix(percents, length, i - 1) + percents[i - 1] * length / 100
    }
}

/// Each percentage of `length` is a whole number, and together they make
/// up `length`.
pub open spec fn splits_evenly(percents: Seq<u16>, length: int) -> bool {
    &&& forall|i: int| 0 <= i < percents.len() ==> (#[trigger] percents[i] * length) % 100 == 0
    &&& percent_prefix(percents, length, percents.len() as int) == length
}

/// Cuts `area` along `direction` into one piece per percentage with tui's
/// `Layout::split` (no margin, last piece stretched to the end).
/// Claimed, from the constraints that tui requires of every layout, after it
/// rounds the solver's values down: one piece per percentage, each lying
/// within the area and spanning it across the cut; the first piece starts
/// where the area starts and the last one ends where it ends (tui stretches
/// it); along the cut the pieces start in order.  Where every percentage of
/// the length is whole, they sum to the length and the area ends before the
/// largest coordinate, each piece is exactly its percentage long and follows
/// the one before without a gap, the only solution that meets every
/// constraint.  Otherwise where the pieces start
/// and how long they are is not stated: which solution the solver settles
/// on depends on hash maps seeded per process.
/// No piece reaches past the largest coordinate: its end is bounded by the
/// area's end, which tui computes saturating.
/// tui multiplies each percentage by the length in `u16`, hence the bound;
/// across the cut it requires each piece to span the area and end within
/// the area's saturated end, which no solution meets (tui's `unwrap` then
/// panics) where the area itself reaches past the largest coordinate.
#[verifier::external_body]
fn split_by_percentages(direction: Direction, percentages: &Vec<u16>, area: Rect) -> (r: Vec<Rect>)
    requires
        forall|i: int| 0 <= i < percentages@.len() ==> #[trigger] percentages@[i] * extent(direction, area) <= u16::MAX,
        direction == Direction::Horizontal ==> area.y + area.height <= u16::MAX,
        direction == Direction::Vertical ==> area.x + area.width <= u16::MAX,
    ensures
        r@.len() == percentages@.len(),
        forall|i: int| 0 <= i < r@.len() ==> (#[trigger] r@[i]).x + r@[i].width <= u16::MAX && r@[i].y + r@[i].height <= u16::MAX,
        forall|i: int| 0 <= i < r@.len() ==> right_edge(#[trigger] r@[i]) <= right_edge(area) && bottom_edge(r@[i]) <= bottom_edge(area),
        forall|i: int| 0 <= i < r@.len() ==> (#[trigger] r@[i]).x >= area.x && r@[i].y >= area.y,
        direction == Direction::Vertical ==> forall|i: int| 0 <= i < r@.len() ==> (#[trigger] r@[i]).x == area.x && r@[i].width == area.width,
        direction == Direction::Horizontal ==> forall|i: int| 0 <= i < r@.len() ==> (#[trigger] r@[i]).y == area.y && r@[i].height == area.height,
        r@.len() > 0 ==> start_along(direction, r@[0]) == start_along(direction, area),
        r@.len() > 0 ==> end_along(direction, r@[r@.len() - 1]) == end_along(direction, area),
        forall|i: int, j: int| 0 <= i <= j < r@.len() ==> start_along(direction, #[trigger] r@[i]) <= start_along(direction, #[trigger] r@[j]),
        splits_evenly(percentages@, extent(direction, area)) && start_along(direction, area) + extent(direction, area) <= u16::MAX
            ==> forall|i: int| 0 <= i < r@.len() ==>
            start_along(direction, #[trigger] r@[i]) == start_along(direction, area) + percent_prefix(percentages@, extent(direction, area), i)
            && extent(direction, r@[i]) == percentages@[i] * extent(direction, area) / 100,
{
    let dir = match direction {
        Direction::Horizontal => tui::layout::Direction::Horizontal,
        Direction::Vertical => tui::layout::Direction::Vertical,
    };
    let cs: Vec<tui::layout::Constraint> = percentages.iter().map(|p| tui::layout::Constraint::Percentage(*p)).collect();
    let a = tui::layout::Rect { x: area.x, y: area.y, width: area.width, height: area.height };
    let pieces = tui::layout::Layout::default().direction(dir).constraints(cs).split(a);
    pieces.iter().map(|p| Rect { x: p.x, y: p.y, width: p.width, height: p.height }).collect()
}

/// The percentages of the three bands that center a band of `percent`.
pub open spec fn centered_bands(percent: u16) -> Seq<u16> {
    seq![((100 - percent) / 2) as u16, percent, ((100 - percent) / 2) as u16]
}

/// The percentages that put a band of `percent` in the middle of an area.
pub fn centered_percentages(percent: u16) -> (r: Vec<u16>)
    requires
        percent <= 100,
    ensures
        r@ == centered_bands(percent),
{
    let side: u16 = (100 - percent) / 2;
    let mut r: Vec<u16> = Vec::new();
    r.push(side);
    r.push(percent);
    r.push(side);
    r
}

/// Whether every band of `percents` can be laid out along `length`.
pub open spec fn bands_fit(percents: Seq<u16>, length: int) -> bool {
    forall|i: int| 0 <= i < percents.len() ==> #[trigger] percents[i] * length <= u16::MAX
}

/// Whether every band of `percents` can be laid out along `length`.
fn bands_fit_check(percents: &Vec<u16>, length: u16) -> (r: bool)
    ensures
        r == bands_fit(percents@, length as int),
{
    let mut i: usize = 0;
    while i < percents.len()
        invariant
            i <= percents@.len(),
            forall|j: int| 0 <= j < i ==> #[trigger] percents@[j] * length <= u16::MAX,
        decreases percents@.len() - i,
    {
        let a: u32 = percents[i] as u32;
        let b: u32 = length as u32;
        assert(a * b <= 0xFFFF * 0xFFFF) by (nonlinear_arith)
            requires a <= 0xFFFF, b <= 0xFFFF;
        if a * b > 0xFFFF {
            return false;
        }
        i = i + 1;
    }
    true
}

/// Whether `centered_rect` can center a band of `percent_x` by `percent_y`
/// in `r`.
pub fn can_center(percent_x: u16, percent_y: u16, r: Rect) -> (ok: bool)
    ensures
        ok == (percent_x <= 100 && percent_y <= 100 && bands_fit(centered_bands(percent_y), r.height as int)
            && bands_fit(centered_bands(percent_x), r.width as int) && r.x + r.width <= u16::MAX),
{
    if percent_x > 100 || percent_y > 100 || r.width > u16::MAX - r.x {
        return false;
    }
    let vertical = centered_percentages(percent_y);
    let horizontal = centered_percentages(percent_x);
    bands_fit_check(&vertical, r.height) && bands_fit_check(&horizontal, r.width)
}

/// The area of `r` left in the middle when `percent_y` of its height and
/// `percent_x` of its width are kept, for modals: a rectangle lying within
/// `r`; along an axis whose three bands are whole numbers of cells that fill
/// it, exactly the middle band.
pub fn centered_rect(percent_x: u16, percent_y: u16, r: Rect) -> (c: Rect)
    requires
        percent_x <= 100,
        percent_y <= 100,
        bands_fit(centered_bands(percent_y), r.height as int),
        bands_fit(centered_bands(percent_x), r.width as int),
        r.x + r.width <= u16::MAX,
    ensures
        c.x >= r.x,
        c.y >= r.y,
        right_edge(c) <= right_edge(r),
        bottom_edge(c) <= bottom_edge(r),
        splits_evenly(centered_bands(percent_x), r.width as int) ==>
            c.x == r.x + centered_bands(percent_x)[0] * r.width / 100 && c.width == percent_x * r.width / 100,
        splits_evenly(centered_bands(percent_y), r.height as int) && r.y + r.height <= u16::MAX ==>
            c.y == r.y + centered_bands(percent_y)[0] * r.height / 100 && c.height == percent_y * r.height / 100,
{
    let vertical = centered_percentages(percent_y);
    let rows = split_by_percentages(Direction::Vertical, &vertical, r);
    let middle = rows[1];
    let horizontal = centered_percentages(percent_x);
    assert forall|i: int| 0 <= i < horizontal@.len() implies #[trigger] horizontal@[i] * extent(Direction::Horizontal, middle) <= u16::MAX by {
        assert(horizontal@[i] * middle.width <= horizontal@[i] * r.width) by (nonlinear_arith)
            requires middle.width <= r.width;
    }
    let cols = split_by_percentages(Direction::Horizontal, &horizontal, middle);
    proof {
        assert(percent_prefix(vertical@, r.height as int, 1) == vertical@[0] * r.height / 100) by {
            reveal_with_fuel(percent_prefix, 2);
        }
        assert(percent_prefix(horizontal@, middle.width as int, 1) == horizontal@[0] * middle.width / 100) by {
            reveal_with_fuel(percent_prefix, 2);
        }
    }
    cols[1]
}

/// Views placed side by side in one row of the dashboard.
pub const VIEWS_PER_ROW: usize = 2;

/// The number of rows that `num_views` views take.
pub open spec fn view_rows(num_views: int) -> int {
    num_views / 2 + num_views % 2
}

/// The height percentage given to each row: 100 split evenly, the row count
/// taken as a `u16` as it is handed to tui.
pub open spec fn row_percent(num_views: int) -> u16 {
    (100int / (view_rows(num_views) % 0x10000)) as u16
}

/// What laying out `num_views` views in `r` asks of tui: every cut fits.
pub open spec fn view_layout_fits(num_views: int, r: Rect) -> bool {
    num_views > 0 ==> {
        &&& r.x + r.width <= u16::MAX
        &&& view_rows(num_views) % 0x10000 != 0
        &&& row_percent(num_views) * r.height <= u16::MAX
        &&& (if num_views % 2 == 1 { 100int } else { 50int }) * r.width <= u16::MAX
    }
}

/// Whether `view_layout` can lay out `num_views` views in `r`.
pub fn can_lay_out_views(num_views: usize, r: Rect) -> (ok: bool)
    ensures
        ok == view_layout_fits(num_views as int, r),
{
    if num_views == 0 {
        return true;
    }
    if r.width > u16::MAX - r.x {
        return false;
    }
    let num_rows: usize = num_views / VIEWS_PER_ROW + num_views % VIEWS_PER_ROW;
    if num_rows % 0x10000 == 0 {
        return false;
    }
    let rows16: u16 = (num_rows % 0x10000) as u16;
    let p: u16 = 100 / rows16;
    let cols: u32 = if num_views % 2 == 1 { 100 } else { 50 };
    let a: u32 = p as u32;
    let h: u32 = r.height as u32;
    let w: u32 = r.width as u32;
    assert(a * h <= 0xFFFF * 0xFFFF) by (nonlinear_arith)
        requires a <= 0xFFFF, h <= 0xFFFF;
    assert(cols * w <= 100 * 0xFFFF) by (nonlinear_arith)
        requires cols <= 100, w <= 0xFFFF;
    a * h <= 0xFFFF && cols * w <= 0xFFFF
}

/// The height percentages of the rows of the grid.
pub fn row_percentages(num_views: usize) -> (r: Vec<u16>)
    requires
        num_views > 0,
        view_rows(num_views as int) % 0x10000 != 0,
    ensures
        r@.len() == view_rows(num_views as int),
        forall|i: int| 0 <= i < r@.len() ==> #[trigger] r@[i] == row_percent(num_views as int),
{
    let num_rows: usize = num_views / VIEWS_PER_ROW + num_views % VIEWS_PER_ROW;
    let rows16: u16 = (num_rows % 0x10000) as u16;
    let p: u16 = 100 / rows16;
    let mut r: Vec<u16> = Vec::new();
    let mut k: usize = 0;
    while k < num_rows
        invariant
            k <= num_rows,
            num_rows == view_rows(num_views as int),
            p == row_percent(num_views as int),
            r@.len() == k,
            forall|i: int| 0 <= i < r@.len() ==> #[trigger] r@[i] == p,
        decreases num_rows - k,
    {
        r.push(p);
        k = k + 1;
    }
    r
}

/// The width percentages of a row holding `count` views.
pub fn column_percentages(count: usize) -> (r: Vec<u16>)
    requires
        1 <= count <= 2,
    ensures
        r@.len() == count,
        forall|i: int| 0 <= i < r@.len() ==> #[trigger] r@[i] == (if count == 1 { 100u16 } else { 50u16 }),
{
    let p: u16 = if count == 1 { 100 } else { 50 };
    let mut r: Vec<u16> = Vec::new();
    r.push(p);
    if count == 2 {
        r.push(p);
    }
    r
}

/// Appends the pieces of a row to the layout, last piece first.
pub fn append_reversed(out: &mut Vec<Rect>, pieces: &Vec<Rect>)
    ensures
        final(out)@ == old(out)@ + pieces@.reverse(),
{
    let ghost start = out@;
    let mut k: usize = pieces.len();
    while k > 0
        invariant
            k <= pieces@.len(),
            out@ == start + pieces@.skip(k as int).reverse(),
        decreases k,
    {
        k = k - 1;
        out.push(pieces[k]);
        assert(pieces@.skip(k as int).reverse() =~= pieces@.skip(k + 1).reverse().push(pieces@[k as int]));
    }
    assert(pieces@.skip(0) =~= pieces@);
}

/// The areas of the dashboard's view panels: rows of two views (the top
/// row holding one when the count is odd), rows evenly tall and views in a
/// row evenly wide, all within `r`.  Rows are taken from the bottom up and
/// each row's views from the right, so that the panels, taking the areas
/// from the end of the list, get them in reading order.  Areas `m` and `m'`
/// with `m / 2 == m' / 2` share a row; a row nearer the end of the list
/// lies higher; in a row the area listed first ends at the right edge of
/// `r` and the one listed last starts at its left edge; the bottom row
/// (first in the list) reaches the bottom of `r` and the top row starts at
/// its top.
pub fn view_layout(num_views: usize, r: Rect) -> (rects: Vec<Rect>)
    requires
        view_layout_fits(num_views as int, r),
    ensures
        rects@.len() == num_views,
        forall|m: int| 0 <= m < num_views ==> (#[trigger] rects@[m]).x >= r.x && rects@[m].y >= r.y
            && right_edge(rects@[m]) <= right_edge(r) && bottom_edge(rects@[m]) <= bottom_edge(r),
        forall|m1: int, m2: int| 0 <= m1 < num_views && 0 <= m2 < num_views && m1 / 2 == m2 / 2
            ==> (#[trigger] rects@[m1]).y == (#[trigger] rects@[m2]).y && rects@[m1].height == rects@[m2].height,
        forall|m1: int, m2: int| 0 <= m1 < num_views && 0 <= m2 < num_views && m1 / 2 < m2 / 2
            ==> (#[trigger] rects@[m2]).y <= (#[trigger] rects@[m1]).y,
        forall|m: int| 0 <= m && m + 1 < num_views && m % 2 == 0 ==> (#[trigger] rects@[m + 1]).x <= rects@[m].x,
        forall|m: int| 0 <= m < num_views && m % 2 == 0 ==> right_edge(#[trigger] rects@[m]) == right_edge(r),
        forall|m: int| 0 <= m < num_views && (m % 2 == 1 || m == num_views - 1) ==> (#[trigger] rects@[m]).x == r.x,
        forall|m: int| 0 <= m < num_views && m / 2 == 0 ==> bottom_edge(#[trigger] rects@[m]) == bottom_edge(r),
        forall|m: int| 0 <= m < num_views && m / 2 == view_rows(num_views as int) - 1 ==> (#[trigger] rects@[m]).y == r.y,
{
    let mut final_rects: Vec<Rect> = Vec::new();
    if num_views == 0 {
        return final_rects;
    }
    let num_rows: usize = num_views / VIEWS_PER_ROW + num_views % VIEWS_PER_ROW;
    let vertical = row_percentages(num_views);
    assert forall|i: int| 0 <= i < vertical@.len() implies #[trigger] vertical@[i] * extent(Direction::Vertical, r) <= u16::MAX by {
        assert(vertical@[i] == row_percent(num_views as int));
    }
    let rows = split_by_percentages(Direction::Vertical, &vertical, r);
    let mut row_rects: Vec<Rect> = Vec::new();
    append_reversed(&mut row_rects, &rows);
    assert(row_rects@ =~= rows@.reverse());
    let ghost rr = row_rects@;
    let ghost nr = num_rows as int;
    assert forall|j: int| 0 <= j < nr implies (#[trigger] rr[j]) == rows@[nr - 1 - j] by {}
    assert forall|j1: int, j2: int| 0 <= j1 <= j2 < nr implies (#[trigger] rr[j2]).y <= (#[trigger] rr[j1]).y by {
        assert(start_along(Direction::Vertical, rows@[nr - 1 - j2]) <= start_along(Direction::Vertical, rows@[nr - 1 - j1]));
    }
    let mut rem: usize = num_views;
    let mut row_idx: usize = 0;
    while row_idx < num_rows
        invariant
            num_rows == view_rows(num_views as int),
            nr == num_rows,
            rr == row_rects@,
            row_idx <= num_rows,
            row_rects@.len() == num_rows,
            forall|j: int| 0 <= j < nr ==> (#[trigger] rr[j]).x == r.x && rr[j].width == r.width
                && rr[j].y >= r.y && bottom_edge(rr[j]) <= bottom_edge(r) && rr[j].y + rr[j].height <= u16::MAX,
            rem == num_views - 2 * row_idx || (row_idx == num_rows && rem == 0),
            rem == 0 <==> row_idx == num_rows,
            final_rects@.len() == num_views - rem,
            row_idx < num_rows ==> final_rects@.len() == 2 * row_idx,
            (if num_views % 2 == 1 { 100int } else { 50int }) * r.width <= u16::MAX,
            forall|m: int| 0 <= m < final_rects@.len() ==> m / 2 < row_idx
                && (#[trigger] final_rects@[m]).y == rr[m / 2].y && final_rects@[m].height == rr[m / 2].height
                && final_rects@[m].x >= r.x && right_edge(final_rects@[m]) <= right_edge(r),
            forall|m: int| 0 <= m < final_rects@.len() && m % 2 == 0 ==> right_edge(#[trigger] final_rects@[m]) == right_edge(r),
            forall|m: int| 0 <= m < final_rects@.len() && (m % 2 == 1 || (m + 1 == final_rects@.len() && final_rects@.len() % 2 == 1))
                ==> (#[trigger] final_rects@[m]).x == r.x,
            forall|m: int| 0 <= m && m + 1 < final_rects@.len() && m % 2 == 0 ==> (#[trigger] final_rects@[m + 1]).x <= final_rects@[m].x,
        decreases num_rows - row_idx,
    {
        let count: usize = if rem < VIEWS_PER_ROW { rem } else { VIEWS_PER_ROW };
        let horizontal = column_percentages(count);
        let row = row_rects[row_idx];
        assert forall|i: int| 0 <= i < horizontal@.len() implies #[trigger] horizontal@[i] * extent(Direction::Horizontal, row) <= u16::MAX by {
            assert(count == 1 ==> num_views % 2 == 1);
            assert(horizontal@[i] * row.width <= horizontal@[i] * r.width) by (nonlinear_arith)
                requires row.width <= r.width;
            if count == 1 {
                assert(num_views % 2 == 1);
                assert(horizontal@[i] == 100);
                assert((if num_views % 2 == 1 { 100int } else { 50int }) == 100);
            } else {
                assert(horizontal@[i] == 50);
                assert(50 * r.width <= (if num_views % 2 == 1 { 100int } else { 50int }) * r.width);
            }
            assert(extent(Direction::Horizontal, row) == row.width);
        }
        let cols = split_by_percentages(Direction::Horizontal, &horizontal, row);
        let ghost old_final = final_rects@;
        append_reversed(&mut final_rects, &cols);
        proof {
            let len0 = old_final.len() as int;
            assert(len0 == 2 * row_idx);
            assert(final_rects@.len() == len0 + count);
            assert forall|t: int| 0 <= t < count implies #[trigger] final_rects@[len0 + t] == cols@[count - 1 - t] by {
                assert(final_rects@[len0 + t] == cols@.reverse()[t]);
            }
            assert forall|m: int| 0 <= m < len0 implies #[trigger] final_rects@[m] == old_final[m] by {}
            if count == 2 {
                assert(start_along(Direction::Horizontal, cols@[0]) <= start_along(Direction::Horizontal, cols@[1]));
                assert(final_rects@[len0] == cols@[1]);
                assert(final_rects@[len0 + 1] == cols@[0]);
            } else {
                assert(final_rects@[len0] == cols@[0]);
            }
        }
        rem = if rem < VIEWS_PER_ROW { 0 } else { rem - VIEWS_PER_ROW };
        row_idx = row_idx + 1;
    }
    proof {
        assert(final_rects@.len() == num_views);
        assert forall|m1: int, m2: int| 0 <= m1 < num_views && 0 <= m2 < num_views && m1 / 2 < m2 / 2
            implies (#[trigger] final_rects@[m2]).y <= (#[trigger] final_rects@[m1]).y by {
            assert(rr[m2 / 2].y <= rr[m1 / 2].y);
        }
        assert forall|m: int| 0 <= m < num_views && m / 2 == 0 implies bottom_edge(#[trigger] final_rects@[m]) == bottom_edge(r) by {
            assert(rr[0] == rows@[nr - 1]);
            assert(end_along(Direction::Vertical, rows@[nr - 1]) == end_along(Direction::Vertical, r));
        }
        assert forall|m: int| 0 <= m < num_views && m / 2 == view_rows(num_views as int) - 1 implies (#[trigger] final_rects@[m]).y == r.y by {
            assert(rr[nr - 1] == rows@[0]);
            assert(start_along(Direction::Vertical, rows@[0]) == start_along(Direction::Vertical, r));
        }
    }
    final_rects
}

/// Whether `c` is an ASCII hex digit (either case).
pub open spec fn is_hex_char(c: char) -> bool {
    ('0' <= c && c <= '9') || ('a' <= c && c <= 'f') || ('A' <= c && c <= 'F')
}

/// The value of a hex digit.
pub open spec fn hex_value(c: char) -> int {
    if '0' <= c && c <= '9' {
        c as int - '0' as int
    } else if 'a' <= c && c <= 'f' {
        c as int - 'a' as int + 10
    } else {
        c as int - 'A' as int + 10
    }
}

/// The hex digits of `s` as colorsys collects them: `#` is passed over
/// wherever it stands; anything else that is not a hex digit, or any
/// character once six digits were read, makes the text no color.
pub open spec fn hex_digits(s: Seq<char>) -> Option<Seq<char>>
    decreases s.len(),
{
    if s.len() == 0 {
        Some(Seq::empty())
    } else {
        match hex_digits(s.drop_last()) {
            None => None,
            Some(d) => {
                let c = s.last();
                if !((c as int) < 128) || d.len() == 6 {
                    None
                } else if c == '#' {
                    Some(d)
                } else if is_hex_char(c) {
                    Some(d.push(c))
                } else {
                    None
                }
            },
        }
    }
}

/// The value of two hex digits.
pub open spec fn hex_pair(hi: char, lo: char) -> int {
    hex_value(hi) * 16 + hex_value(lo)
}

/// The components of a color written as a hex string, as colorsys
/// `Rgb::from_hex_str` reads it: three digits stand for six, each doubled;
/// six digits give red, green and blue; any other count is no color.
pub open spec fn hex_color_rgb(s: Seq<char>) -> Option<(u8, u8, u8)> {
    match hex_digits(s) {
        Some(d) => if d.len() == 6 {
            Some((hex_pair(d[0], d[1]) as u8, hex_pair(d[2], d[3]) as u8, hex_pair(d[4], d[5]) as u8))
        } else if d.len() == 3 {
            Some((hex_pair(d[0], d[0]) as u8, hex_pair(d[1], d[1]) as u8, hex_pair(d[2], d[2]) as u8))
        } else {
            None
        },
        None => None,
    }
}

/// Parses a hex color with colorsys `Rgb::from_hex_str`.
/// Claimed: the result is `hex_color_rgb`, read off colorsys's
/// `from_hex` (`None` where colorsys reports an error); the components are
/// whole numbers up to 255, so taking them as bytes loses nothing.
#[verifier::external_body]
fn rgb_from_hex_str(s: &str) -> (r: Option<(u8, u8, u8)>)
    ensures
        r == hex_color_rgb(s@),
{
    match colorsys::Rgb::from_hex_str(s) {
        Ok(c) => Some((c.red() as u8, c.green() as u8, c.blue() as u8)),
        Err(_) => None,
    }
}

/// The lowercase hex digit of `d` (below 16).
pub open spec fn hex_digit(d: int) -> char {
    if d < 10 { (('0' as int) + d) as char } else { (('a' as int) + d - 10) as char }
}

/// Two lowercase hex digits for a byte.
pub open spec fn hex_byte(n: u8) -> Seq<char> {
    seq![hex_digit(n as int / 16), hex_digit(n as int % 16)]
}

/// `#rrggbb` in lowercase hex.
pub open spec fn hex_color_string(r: u8, g: u8, b: u8) -> Seq<char> {
    seq!['#'] + hex_byte(r) + hex_byte(g) + hex_byte(b)
}

/// Writes a color as hex with colorsys `Rgb::to_hex_string`.
/// Claimed: `#` and two lowercase hex digits per component, zero-padded, as
/// its `to_hex` formats each rounded component.
#[verifier::external_body]
fn rgb_to_hex_string(r: u8, g: u8, b: u8) -> (s: String)
    ensures
        s@ == hex_color_string(r, g, b),
{
    colorsys::Rgb::from((r, g, b)).to_hex_string()
}

/// The color that a hex string such as Linear's `#5e6ad2` names.
pub open spec fn color_of_hex(s: Seq<char>) -> Option<Color> {
    match hex_color_rgb(s) {
        Some((r, g, b)) => Some(Color::Rgb(r, g, b)),
        None => None,
    }
}

/// The color that a hex string names, `None` where it is no hex color.
pub fn style_color_from_hex_str(color: &str) -> (r: Option<Color>)
    ensures
        r == color_of_hex(color@),
{
    match rgb_from_hex_str(color) {
        Some((r, g, b)) => Some(Color::Rgb(r, g, b)),
        None => None,
    }
}

proof fn lemma_hex_digit_reads_back(d: int)
    requires
        0 <= d < 16,
    ensures
        is_hex_char(hex_digit(d)),
        (hex_digit(d) as int) < 128,
        hex_digit(d) != '#',
        hex_value(hex_digit(d)) == d,
{
}

proof fn lemma_hex_byte_reads_back(n: u8)
    ensures
        hex_byte(n).len() == 2,
        is_hex_char(hex_byte(n)[0]) && is_hex_char(hex_byte(n)[1]),
        (hex_byte(n)[0] as int) < 128 && (hex_byte(n)[1] as int) < 128,
        hex_byte(n)[0] != '#' && hex_byte(n)[1] != '#',
        hex_pair(hex_byte(n)[0], hex_byte(n)[1]) == n,
{
    lemma_hex_digit_reads_back(n as int / 16);
    lemma_hex_digit_reads_back(n as int % 16);
}

/// Reading back the hex string of an RGB color gives the color: the hex
/// string that `hex_str_from_style_color` writes is one that
/// `style_color_from_hex_str` reads as the same color.
pub proof fn lemma_hex_round_trip(r: u8, g: u8, b: u8)
    ensures
        color_of_hex(hex_color_string(r, g, b)) == Some(Color::Rgb(r, g, b)),
{
    let s = hex_color_string(r, g, b);
    lemma_hex_byte_reads_back(r);
    lemma_hex_byte_reads_back(g);
    lemma_hex_byte_reads_back(b);
    let hr = hex_byte(r);
    let hg = hex_byte(g);
    let hb = hex_byte(b);
    assert(s.len() == 7);
    assert(s.take(1) =~= seq!['#']);
    assert(s.take(1).drop_last() =~= Seq::<char>::empty());
    assert(s.take(1).last() == '#');
    assert(('#' as int) < 128);
    assert(hex_digits(s.take(1).drop_last()) == Some(Seq::<char>::empty()));
    assert(hex_digits(s.take(1)) == Some(Seq::<char>::empty()));
    assert(s.take(2).drop_last() =~= s.take(1));
    assert(hex_digits(s.take(2)) == Some(seq![hr[0]]));
    assert(s.take(3).drop_last() =~= s.take(2));
    assert(hex_digits(s.take(3)) == Some(seq![hr[0], hr[1]]));
    assert(s.take(4).drop_last() =~= s.take(3));
    assert(hex_digits(s.take(4)) == Some(seq![hr[0], hr[1], hg[0]]));
    assert(s.take(5).drop_last() =~= s.take(4));
    assert(hex_digits(s.take(5)) == Some(seq![hr[0], hr[1], hg[0], hg[1]]));
    assert(s.take(6).drop_last() =~= s.take(5));
    assert(hex_digits(s.take(6)) == Some(seq![hr[0], hr[1], hg[0], hg[1], hb[0]]));
    assert(s.take(7).drop_last() =~= s.take(6));
    assert(s.take(7) =~= s);
    assert(hex_digits(s) == Some(seq![hr[0], hr[1], hg[0], hg[1], hb[0], hb[1]]));
}

/// The hex string of an RGB color; `None` for the named and indexed colors.
pub fn hex_str_from_style_color(color: &Color) -> (r: Option<String>)
    ensures
        match *color {
            Color::Rgb(red, green, blue) => r matches Some(s) && s@ == hex_color_string(red, green, blue),
            _ => r is None,
        },
{
    match color {
        Color::Rgb(r, g, b) => Some(rgb_to_hex_string(*r, *g, *b)),
        _ => None,
    }
}

} // verus!
