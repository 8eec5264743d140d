//! Sizing table columns to the width of their bounding box.
//!
//! Every column first claims its minimum width, plus one unit of spacing
//! before the next column, while space lasts.  Then each column in turn tries
//! to grow to its share of the box width (its priority over the sum of all
//! priorities, rounded to the nearest unit, halves rounding up), as far as the
//! space left over allows.
use vstd::prelude::*;
use crate::constants::table_columns::TableColumn;
use crate::util::str::{ellipsis_spec, set_str_end_as_ellipsis};
use crate::util::text::{
    chars_of, grapheme_clusters, occurs_at, push_char, rfind, rfind_chars, rfind_from, string_from_chars, views,
    wrap_lines, wrapped_lines,
};

verus! {

/// One unit of spacing follows every column but the last.
pub open spec fn col_spacing(idx: u16, len: u16) -> u16 {
    if idx + 1 < len { 1 } else { 0 }
}

pub fn get_col_spacing(idx: u16, len: u16) -> (r: u16)
    requires
        idx < u16::MAX,
    ensures
        r == col_spacing(idx, len),
{
    if idx + 1 < len {
        1
    } else {
        0
    }
}

/// Sum of the priorities of the first `i` columns.
pub open spec fn priority_sum(cols: Seq<TableColumn>, i: int) -> int
    decreases i,
{
    if i <= 0 {
        0
    } else {
        priority_sum(cols, i - 1) + cols[i - 1].priority
    }
}

/// `priority / sum` of `width`, rounded to the nearest unit (halves up).
pub open spec fn share(priority: int, sum: int, width: int) -> int {
    if sum == 0 {
        0
    } else {
        (2 * priority * width + sum) / (2 * sum)
    }
}

/// Space left and widths claimed once the first `i` columns took their
/// minimum widths.
pub open spec fn min_pass(cols: Seq<TableColumn>, width: int, i: int) -> (int, Seq<int>)
    decreases i,
{
    if i <= 0 {
        (width, Seq::empty())
    } else {
        let (rem, claimed) = min_pass(cols, width, i - 1);
        let m = cols[i - 1].min_width as int;
        let (rem2, c) = if rem >= m { (rem - m, m) } else { (0int, rem) };
        let rem3 = if rem2 > 0 && i < cols.len() { rem2 - 1 } else { rem2 };
        (rem3, claimed.push(c))
    }
}

/// The spacing counted for column `i`.
pub open spec fn spacing_at(cols: Seq<TableColumn>, i: int) -> int {
    if i + 1 < cols.len() { 1 } else { 0 }
}

/// Space left and widths claimed once the first `i` columns tried to grow
/// to their share of the width.
pub open spec fn grow_pass(cols: Seq<TableColumn>, width: int, i: int) -> (int, Seq<int>)
    decreases i,
{
    if i <= 0 {
        min_pass(cols, width, cols.len() as int)
    } else {
        let (rem, claimed) = grow_pass(cols, width, i - 1);
        let j = i - 1;
        let cs = spacing_at(cols, j);
        let wanted = share(cols[j].priority as int, priority_sum(cols, cols.len() as int), width) - cs;
        let free = rem + claimed[j] + cs;
        let g = if free - cs < wanted { free - cs } else { wanted };
        if g > cols[j].min_width {
            let rem2 = free - g;
            let rem3 = if rem2 > 0 { rem2 - cs } else { rem2 };
            (rem3, claimed.update(j, g))
        } else {
            (rem, claimed)
        }
    }
}

/// The growing step of column `j` stays within `u16`: its share covers its
/// spacing and the space it may take back fits.
pub open spec fn grow_step_fits(cols: Seq<TableColumn>, width: int, j: int) -> bool {
    let (rem, claimed) = grow_pass(cols, width, j);
    let cs = spacing_at(cols, j);
    &&& share(cols[j].priority as int, priority_sum(cols, cols.len() as int), width) >= cs
    &&& rem + claimed[j] + cs <= u16::MAX
}

/// The inputs on which the sizing runs without overflowing a `u16`.
pub open spec fn widths_fit(width: int, cols: Seq<TableColumn>) -> bool {
    &&& cols.len() <= u16::MAX
    &&& priority_sum(cols, cols.len() as int) <= u16::MAX
    &&& forall|j: int| 0 <= j < cols.len() ==> #[trigger] grow_step_fits(cols, width, j)
}

/// The column widths for a box `width` units wide.
pub open spec fn widths_spec(width: int, cols: Seq<TableColumn>) -> Seq<int> {
    grow_pass(cols, width, cols.len() as int).1
}

proof fn lemma_min_pass(cols: Seq<TableColumn>, width: int, i: int)
    requires
        0 <= i <= cols.len(),
        0 <= width <= u16::MAX,
    ensures
        min_pass(cols, width, i).1.len() == i,
        0 <= min_pass(cols, width, i).0 <= width,
        forall|j: int| 0 <= j < i ==> 0 <= #[trigger] min_pass(cols, width, i).1[j] <= u16::MAX,
    decreases i,
{
    if i > 0 {
        lemma_min_pass(cols, width, i - 1);
        let (rem, claimed) = min_pass(cols, width, i - 1);
        assert forall|j: int| 0 <= j < i implies 0 <= #[trigger] min_pass(cols, width, i).1[j]
            <= u16::MAX by {
            if j < i - 1 {
                assert(min_pass(cols, width, i).1[j] == claimed[j]);
            }
        }
    }
}

proof fn lemma_grow_pass(cols: Seq<TableColumn>, width: int, i: int)
    requires
        0 <= i <= cols.len(),
        0 <= width <= u16::MAX,
        widths_fit(width, cols),
    ensures
        grow_pass(cols, width, i).1.len() == cols.len(),
        0 <= grow_pass(cols, width, i).0 <= u16::MAX,
        forall|j: int| 0 <= j < cols.len() ==> 0 <= #[trigger] grow_pass(cols, width, i).1[j] <= u16::MAX,
    decreases i,
{
    if i == 0 {
        lemma_min_pass(cols, width, cols.len() as int);
    } else {
        lemma_grow_pass(cols, width, i - 1);
        assert(grow_step_fits(cols, width, i - 1));
    }
}

proof fn lemma_grow_len(cols: Seq<TableColumn>, width: int, i: int)
    requires
        0 <= i <= cols.len(),
        0 <= width <= u16::MAX,
    ensures
        grow_pass(cols, width, i).1.len() == cols.len(),
    decreases i,
{
    if i == 0 {
        lemma_min_pass(cols, width, cols.len() as int);
    } else {
        lemma_grow_len(cols, width, i - 1);
    }
}

proof fn lemma_priority_le_sum(cols: Seq<TableColumn>, i: int, j: int)
    requires
        0 <= j < i <= cols.len(),
    ensures
        cols[j].priority <= priority_sum(cols, i),
        priority_sum(cols, i) >= 0,
    decreases i,
{
    if j < i - 1 {
        lemma_priority_le_sum(cols, i - 1, j);
    } else {
        lemma_sum_nonneg(cols, i - 1);
    }
}

proof fn lemma_sum_nonneg(cols: Seq<TableColumn>, i: int)
    ensures
        priority_sum(cols, i) >= 0,
    decreases i,
{
    if i > 0 {
        lemma_sum_nonneg(cols, i - 1);
    }
}

fn priority_share(priority: u16, sum: u16, width: u16) -> (r: u16)
    requires
        priority <= sum,
    ensures
        r as int == share(priority as int, sum as int, width as int),
{
    if sum == 0 {
        0
    } else {
        assert((priority as u64) * (width as u64) <= 0xffff * 0xffff) by (nonlinear_arith)
            requires
                priority <= 0xffff,
                width <= 0xffff,
        ;
        let pw: u64 = (priority as u64) * (width as u64);
        let num: u64 = 2 * pw + (sum as u64);
        let den: u64 = 2 * (sum as u64);
        let q: u64 = num / den;
        assert(q <= width) by (nonlinear_arith)
            requires
                q == num / den,
                num == 2 * pw + sum,
                pw == priority * width,
                den == 2 * sum,
                priority <= sum,
                sum > 0,
        {
            assert(priority * width <= sum * width);
            assert(num < den * (width + 1));
        }
        assert(num as int == 2 * (priority as int) * (width as int) + sum as int) by (nonlinear_arith)
            requires
                num == 2 * pw + sum,
                pw == priority * width,
        ;
        q as u16
    }
}

/// The width of every column, in the order of `columns`, for a bounding box
/// `bbox_width` units wide: together never wider than the box, and each at
/// least its minimum width when the minimums and the spacing fit.
pub fn widths_from_rect(bbox_width: u16, columns: &[TableColumn]) -> (r: Vec<u16>)
    requires
        widths_fit(bbox_width as int, columns@),
    ensures
        r@.len() == columns@.len(),
        forall|j: int| 0 <= j < r@.len() ==> r@[j] as int == #[trigger] widths_spec(bbox_width as int, columns@)[j],
        width_total(widths_spec(bbox_width as int, columns@), columns@.len() as int) <= bbox_width,
        min_width_total(columns@, columns@.len() as int) + columns@.len() <= bbox_width + 1 ==> forall|j: int|
            0 <= j < r@.len() ==> #[trigger] widths_spec(bbox_width as int, columns@)[j] >= columns@[j].min_width,
{
    proof {
        lemma_widths_within_box(bbox_width as int, columns@);
        if min_width_total(columns@, columns@.len() as int) + columns@.len() <= bbox_width + 1 {
            lemma_min_widths_honoured(bbox_width as int, columns@);
        }
    }
    let n = columns.len();
    let ghost cols = columns@;
    let ghost w = bbox_width as int;
    let mut remaining_units: u16 = bbox_width;
    let mut claimed_units: Vec<u16> = Vec::new();
    let mut idx: usize = 0;
    while idx < n
        invariant
            n == cols.len(),
            cols == columns@,
            w == bbox_width as int,
            idx <= n,
            claimed_units@.len() == idx,
            remaining_units as int == min_pass(cols, w, idx as int).0,
            forall|j: int| 0 <= j < idx ==> claimed_units@[j] as int == #[trigger] min_pass(cols, w, idx as int).1[j],
        decreases n - idx,
    {
        proof {
            lemma_min_pass(cols, w, idx as int);
            lemma_min_pass(cols, w, idx + 1);
        }
        let col = &columns[idx];
        let ghost prev = min_pass(cols, w, idx as int).1;
        if remaining_units >= col.min_width {
            claimed_units.push(col.min_width);
            remaining_units = remaining_units - col.min_width;
        } else {
            claimed_units.push(remaining_units);
            remaining_units = 0;
        }
        if remaining_units > 0 && idx + 1 < n {
            remaining_units = remaining_units - 1;
        }
        assert forall|j: int| 0 <= j < idx + 1 implies claimed_units@[j] as int
            == #[trigger] min_pass(cols, w, idx + 1).1[j] by {
            if j < idx {
                assert(min_pass(cols, w, idx + 1).1[j] == prev[j]);
            }
        }
        idx = idx + 1;
    }

    let mut priority_total: u16 = 0;
    let mut k: usize = 0;
    while k < n
        invariant
            n == cols.len(),
            cols == columns@,
            k <= n,
            priority_sum(cols, n as int) <= u16::MAX,
            priority_total as int == priority_sum(cols, k as int),
        decreases n - k,
    {
        proof {
            lemma_priority_le_sum(cols, n as int, k as int);
            lemma_sum_prefix_le(cols, k + 1, n as int);
        }
        priority_total = priority_total + columns[k].priority;
        k = k + 1;
    }

    let mut idx: usize = 0;
    while idx < n
        invariant
            n == cols.len(),
            cols == columns@,
            w == bbox_width as int,
            widths_fit(w, cols),
            idx <= n,
            priority_total as int == priority_sum(cols, n as int),
            claimed_units@.len() == n,
            remaining_units as int == grow_pass(cols, w, idx as int).0,
            forall|j: int| 0 <= j < n ==> claimed_units@[j] as int == #[trigger] grow_pass(cols, w, idx as int).1[j],
        decreases n - idx,
    {
        proof {
            lemma_grow_pass(cols, w, idx as int);
            lemma_grow_pass(cols, w, idx + 1);
            lemma_priority_le_sum(cols, n as int, idx as int);
            assert(grow_step_fits(cols, w, idx as int));
        }
        let ghost prev = grow_pass(cols, w, idx as int).1;
        let col = &columns[idx];
        let new_size: u16 = priority_share(col.priority, priority_total, bbox_width);
        let col_spacing: u16 = get_col_spacing(idx as u16, n as u16);
        let new_size_with_col_spacing: u16 = new_size - col_spacing;
        let remaining_units_without_current_col: u16 = remaining_units + claimed_units[idx] + col_spacing;
        let room: u16 = remaining_units_without_current_col - col_spacing;
        let greedy_new_size: u16 = if room < new_size_with_col_spacing {
            room
        } else {
            new_size_with_col_spacing
        };
        if greedy_new_size > col.min_width {
            remaining_units = remaining_units + claimed_units[idx];
            remaining_units = remaining_units + col_spacing;
            claimed_units.set(idx, greedy_new_size);
            remaining_units = remaining_units - greedy_new_size;
            if remaining_units > 0 {
                remaining_units = remaining_units - col_spacing;
            }
        }
        assert forall|j: int| 0 <= j < n implies claimed_units@[j] as int
            == #[trigger] grow_pass(cols, w, idx + 1).1[j] by {
            if j != idx {
                assert(claimed_units@[j] as int == prev[j]);
            }
        }
        idx = idx + 1;
    }
    claimed_units
}

proof fn lemma_sum_prefix_le(cols: Seq<TableColumn>, i: int, n: int)
    requires
        0 <= i <= n <= cols.len(),
    ensures
        priority_sum(cols, i) <= priority_sum(cols, n),
    decreases n - i,
{
    if i < n {
        lemma_sum_prefix_le(cols, i, n - 1);
    }
}

/// When the minimum widths and the spacing between columns fit in the box,
/// every column is at least as wide as its minimum width.
pub proof fn lemma_min_widths_honoured(width: int, cols: Seq<TableColumn>)
    requires
        0 <= width <= u16::MAX,
        widths_fit(width, cols),
        min_width_total(cols, cols.len() as int) + cols.len() <= width + 1,
    ensures
        forall|j: int| 0 <= j < cols.len() ==> #[trigger] widths_spec(width, cols)[j] >= cols[j].min_width,
{
    lemma_min_pass_full(cols, width, cols.len() as int);
    lemma_grow_keeps_min(cols, width, cols.len() as int);
}

/// The sum of the first `n` widths.
pub open spec fn width_total(ws: Seq<int>, n: int) -> int
    decreases n,
{
    if n <= 0 {
        0
    } else {
        width_total(ws, n - 1) + ws[n - 1]
    }
}

proof fn lemma_width_total_push(ws: Seq<int>, c: int, n: int)
    requires
        0 <= n <= ws.len(),
    ensures
        width_total(ws.push(c), n) == width_total(ws, n),
    decreases n,
{
    if n > 0 {
        lemma_width_total_push(ws, c, n - 1);
    }
}

proof fn lemma_width_total_update(ws: Seq<int>, j: int, g: int, n: int)
    requires
        0 <= j < ws.len(),
        0 <= n <= ws.len(),
    ensures
        width_total(ws.update(j, g), n) == width_total(ws, n) + if j < n { g - ws[j] } else { 0 },
    decreases n,
{
    if n > 0 {
        lemma_width_total_update(ws, j, g, n - 1);
    }
}

proof fn lemma_min_pass_bound(cols: Seq<TableColumn>, width: int, i: int)
    requires
        0 <= width,
        0 <= i <= cols.len(),
    ensures
        min_pass(cols, width, i).1.len() == i,
        min_pass(cols, width, i).0 >= 0,
        min_pass(cols, width, i).0 + width_total(min_pass(cols, width, i).1, i) <= width,
    decreases i,
{
    if i > 0 {
        lemma_min_pass_bound(cols, width, i - 1);
        let (rem, claimed) = min_pass(cols, width, i - 1);
        let m = cols[i - 1].min_width as int;
        let c = if rem >= m { m } else { rem };
        lemma_width_total_push(claimed, c, i - 1);
        assert(claimed.push(c)[i - 1] == c);
    }
}

proof fn lemma_grow_pass_bound(cols: Seq<TableColumn>, width: int, i: int)
    requires
        0 <= width,
        0 <= i <= cols.len(),
    ensures
        grow_pass(cols, width, i).1.len() == cols.len(),
        grow_pass(cols, width, i).0 >= 0,
        grow_pass(cols, width, i).0 + width_total(grow_pass(cols, width, i).1, cols.len() as int) <= width,
    decreases i,
{
    if i == 0 {
        lemma_min_pass_bound(cols, width, cols.len() as int);
    } else {
        lemma_grow_pass_bound(cols, width, i - 1);
        let (rem, claimed) = grow_pass(cols, width, i - 1);
        let j = i - 1;
        let cs = spacing_at(cols, j);
        let wanted = share(cols[j].priority as int, priority_sum(cols, cols.len() as int), width) - cs;
        let free = rem + claimed[j] + cs;
        let g = if free - cs < wanted { free - cs } else { wanted };
        if g > cols[j].min_width {
            lemma_width_total_update(claimed, j, g, cols.len() as int);
        }
    }
}

/// The columns never take more than the box: their widths add up to at
/// most its width.
pub proof fn lemma_widths_within_box(width: int, cols: Seq<TableColumn>)
    requires
        0 <= width,
    ensures
        widths_spec(width, cols).len() == cols.len(),
        width_total(widths_spec(width, cols), cols.len() as int) <= width,
{
    lemma_grow_pass_bound(cols, width, cols.len() as int);
}

/// Sum of the minimum widths of the first `i` columns.
pub open spec fn min_width_total(cols: Seq<TableColumn>, i: int) -> int
    decreases i,
{
    if i <= 0 {
        0
    } else {
        min_width_total(cols, i - 1) + cols[i - 1].min_width
    }
}

proof fn lemma_min_pass_full(cols: Seq<TableColumn>, width: int, i: int)
    requires
        0 <= i <= cols.len(),
        min_width_total(cols, cols.len() as int) + cols.len() <= width + 1,
    ensures
        min_pass(cols, width, i).1.len() == i,
        forall|j: int| 0 <= j < i ==> #[trigger] min_pass(cols, width, i).1[j] == cols[j].min_width,
        min_pass(cols, width, i).0 >= min_width_total(cols, cols.len() as int) - min_width_total(cols, i)
            + (cols.len() - i) - 1,
        i < cols.len() ==> min_pass(cols, width, i).0 >= min_width_total(cols, cols.len() as int)
            - min_width_total(cols, i) + (cols.len() - i) - 1 + 0,
    decreases i,
{
    lemma_min_total_mono(cols, i, cols.len() as int);
    if i > 0 {
        lemma_min_pass_full(cols, width, i - 1);
        lemma_min_total_mono(cols, i - 1, cols.len() as int);
        let (rem, claimed) = min_pass(cols, width, i - 1);
        assert(rem >= cols[i - 1].min_width);
        assert forall|j: int| 0 <= j < i implies #[trigger] min_pass(cols, width, i).1[j]
            == cols[j].min_width by {
            if j < i - 1 {
                assert(min_pass(cols, width, i).1[j] == claimed[j]);
            }
        }
    }
}

proof fn lemma_min_total_mono(cols: Seq<TableColumn>, i: int, n: int)
    requires
        0 <= i <= n <= cols.len(),
    ensures
        min_width_total(cols, i) <= min_width_total(cols, n),
    decreases n - i,
{
    if i < n {
        lemma_min_total_mono(cols, i, n - 1);
    }
}

proof fn lemma_grow_keeps_min(cols: Seq<TableColumn>, width: int, i: int)
    requires
        0 <= i <= cols.len(),
        forall|j: int| 0 <= j < cols.len() ==> #[trigger] min_pass(cols, width, cols.len() as int).1[j]
            == cols[j].min_width,
        min_pass(cols, width, cols.len() as int).1.len() == cols.len(),
    ensures
        grow_pass(cols, width, i).1.len() == cols.len(),
        forall|j: int| 0 <= j < cols.len() ==> #[trigger] grow_pass(cols, width, i).1[j] >= cols[j].min_width,
    decreases i,
{
    if i > 0 {
        lemma_grow_keeps_min(cols, width, i - 1);
        let (rem, claimed) = grow_pass(cols, width, i - 1);
        assert forall|j: int| 0 <= j < cols.len() implies #[trigger] grow_pass(cols, width, i).1[j]
            >= cols[j].min_width by {
            assert(claimed[j] >= cols[j].min_width);
        }
    }
}


/// Searching backwards through `content` for the wrapped lines past the
/// height limit, the last one first, each in the text before the previous
/// match: where the earliest of them starts, or nothing if one is missing.
pub open spec fn back_search(
    content: Seq<char>,
    lines: Seq<Seq<char>>,
    k: int,
    i: int,
    rem: int,
) -> Option<int>
    decreases k - i,
{
    if i >= k {
        Some(rem)
    } else {
        match rfind(content.take(rem), lines[lines.len() - 1 - i]) {
            Some(x) => back_search(content, lines, k, i + 1, x),
            None => None,
        }
    }
}

/// The wrapped lines, with the text that follows the last line kept within
/// the height limit merged into that line when it can be located in
/// `content`.
pub open spec fn compacted_lines(content: Seq<char>, lines: Seq<Seq<char>>, height: u16) -> Seq<Seq<char>> {
    let n16 = lines.len() as u16;
    if n16 > height {
        match back_search(content, lines, (n16 - height) as int, 0, content.len() as int) {
            Some(b) => {
                let line = lines[height - 1];
                match rfind(content.take(b), line) {
                    Some(e) => lines.update(height - 1, line + content.subrange(e + line.len(), content.len() as int)),
                    None => lines,
                }
            },
            None => lines,
        }
    } else {
        lines
    }
}

/// Lines joined into one text: a line break between each two, none after
/// the last.
pub open spec fn join_lines(lines: Seq<Seq<char>>) -> Seq<char>
    decreases lines.len(),
{
    if lines.len() == 0 {
        Seq::empty()
    } else if lines.len() == 1 {
        lines[0]
    } else {
        join_lines(lines.drop_last()) + seq!['\n'] + lines.last()
    }
}

/// The first `kept` lines, the one at `height - 1` replaced by `last` when
/// given.
pub open spec fn kept_lines(lines: Seq<Seq<char>>, height: int, last: Option<Seq<char>>, kept: int) -> Seq<Seq<char>> {
    match last {
        Some(l) => lines.take(kept).update(height - 1, l),
        None => lines.take(kept),
    }
}

proof fn lemma_join_take_step(lines: Seq<Seq<char>>, i: int)
    requires
        0 <= i < lines.len(),
    ensures
        join_lines(lines.take(i + 1)) == if i == 0 {
            lines[0]
        } else {
            join_lines(lines.take(i)) + seq!['\n'] + lines[i]
        },
{
    assert(lines.take(i + 1).drop_last() =~= lines.take(i));
}

/// `content` wrapped at `width` columns into at most `height` lines joined
/// by line breaks (`height - 1` of them when every line is kept); when lines
/// are cut off, the last line kept absorbs the rest of the text and ends in
/// an ellipsis.
pub open spec fn wrap_format(content: Seq<char>, width: u16, height: u16) -> Seq<char> {
    let lines = wrapped_lines(content, width as usize);
    let cl = compacted_lines(content, lines, height);
    let last = if (lines.len() as u16) > height {
        ellipsis_spec(grapheme_clusters(cl[height - 1]), width as nat)
    } else {
        None
    };
    let kept = if lines.len() < height { lines.len() as int } else { height as int };
    join_lines(kept_lines(cl, height as int, last, kept))
}

/// The line within the height limit must exist whenever lines are cut off.
pub open spec fn wrap_format_allowed(content: Seq<char>, width: u16, height: u16) -> bool {
    height >= 1 || (wrapped_lines(content, width as usize).len() as u16) == 0
}

proof fn lemma_rfind_from_in_range(hay: Seq<char>, needle: Seq<char>, p: int)
    ensures
        rfind_from(hay, needle, p) matches Some(x) ==> 0 <= x && x + needle.len() <= hay.len(),
    decreases p + 1,
{
    if p >= 0 && !occurs_at(hay, needle, p) {
        lemma_rfind_from_in_range(hay, needle, p - 1);
    }
}

proof fn lemma_rfind_in_range(hay: Seq<char>, needle: Seq<char>)
    ensures
        rfind(hay, needle) matches Some(x) ==> 0 <= x && x + needle.len() <= hay.len(),
{
    lemma_rfind_from_in_range(hay, needle, hay.len() - needle.len());
}

pub fn format_str_with_wrap(content: &str, width: u16, height: u16) -> (r: String)
    requires
        wrap_format_allowed(content@, width, height),
    ensures
        r@ == wrap_format(content@, width, height),
{
    let mut wrapped_str = wrap_lines(content, width as usize);
    let ghost lines = views(wrapped_str@);
    let wrapped_len = wrapped_str.len();
    assert(lines.len() == wrapped_len);
    let n16: u16 = wrapped_len as u16;
    let content_chars = chars_of(content);
    let mut compact_search_success: bool = false;
    let mut boundary_idx: usize = 0;
    if n16 > height {
        compact_search_success = true;
        let mut remaining_len: usize = content_chars.len();
        let k: u16 = n16 - height;
        let mut i: u16 = 0;
        assert(n16 as int <= wrapped_len) by (bit_vector)
            requires
                n16 == wrapped_len as u16,
        ;
        while i < k
            invariant_except_break
                compact_search_success,
            invariant
                lines == views(wrapped_str@),
                wrapped_len == wrapped_str@.len(),
                content_chars@ == content@,
                k <= n16,
                1 <= k,
                n16 as int <= wrapped_len,
                i <= k,
                remaining_len <= content_chars@.len(),
                boundary_idx <= content_chars@.len(),
                back_search(content@, lines, k as int, 0, content@.len() as int) == back_search(
                    content@,
                    lines,
                    k as int,
                    i as int,
                    remaining_len as int,
                ),
                i > 0 ==> boundary_idx == remaining_len,
            ensures
                compact_search_success ==> back_search(content@, lines, k as int, 0, content@.len() as int)
                    == Some(boundary_idx as int),
                !compact_search_success ==> back_search(content@, lines, k as int, 0, content@.len() as int) is None,
                boundary_idx <= content_chars@.len(),
            decreases k - i,
        {
            let line_idx: usize = (wrapped_len - 1) - i as usize;
            let temp = chars_of(wrapped_str[line_idx].as_str());
            assert(temp@ == lines[lines.len() - 1 - i]);
            match rfind_chars(&content_chars, remaining_len, &temp) {
                Some(x) => {
                    proof {
                        lemma_rfind_in_range(content_chars@.take(remaining_len as int), temp@);
                    }
                    boundary_idx = x;
                    remaining_len = x;
                },
                None => {
                    compact_search_success = false;
                    break;
                },
            }
            i = i + 1;
        }
    }
    if compact_search_success {
        let line_idx: usize = (height as usize) - 1;
        let last_line = chars_of(wrapped_str[line_idx].as_str());
        assert(last_line@ == lines[height - 1]);
        if let Some(last_line_end) = rfind_chars(&content_chars, boundary_idx, &last_line) {
            proof {
                lemma_rfind_in_range(content_chars@.take(boundary_idx as int), last_line@);
            }
            let rest = string_from_chars(
                &content_chars,
                last_line_end + last_line.len(),
                content_chars.len(),
            );
            let mut merged = wrapped_str[line_idx].clone();
            merged.append(rest.as_str());
            wrapped_str.set(line_idx, merged);
        }
    }
    let ghost cl = views(wrapped_str@);
    assert(cl =~= compacted_lines(content@, lines, height));

    let mut ellipsis_added: bool = false;
    let mut final_line: String = String::new();
    if n16 > height {
        if let Some(modified_line) = set_str_end_as_ellipsis(wrapped_str[(height as usize) - 1].as_str(), width as usize) {
            ellipsis_added = true;
            final_line = modified_line;
        }
    }
    let ghost last = if n16 > height {
        ellipsis_spec(grapheme_clusters(cl[height - 1]), width as nat)
    } else {
        None
    };
    assert(ellipsis_added ==> last == Some(final_line@));
    assert(!ellipsis_added ==> last is None);

    let mut result = String::new();
    let mut idx: usize = 0;
    let ghost kept: int = if wrapped_str@.len() < height { wrapped_str@.len() as int } else { height as int };
    let ghost kl = kept_lines(cl, height as int, last, kept);
    assert(last is Some ==> wrapped_str@.len() > height);
    while idx < wrapped_str.len()
        invariant
            cl == views(wrapped_str@),
            kept == (if wrapped_str@.len() < height { wrapped_str@.len() as int } else { height as int }),
            kl == kept_lines(cl, height as int, last, kept),
            last is Some ==> wrapped_str@.len() > height,
            idx <= wrapped_str@.len(),
            idx <= height,
            ellipsis_added ==> last == Some(final_line@),
            !ellipsis_added ==> last is None,
            result@ == join_lines(kl.take(idx as int)),
        ensures
            result@ == join_lines(kl.take(kept)),
        decreases wrapped_str@.len() - idx,
    {
        if idx >= height as usize {
            break;
        }
        proof {
            lemma_join_take_step(kl, idx as int);
        }
        if idx > 0 {
            push_char(&mut result, '\n');
        }
        if idx == (height as usize) - 1 && ellipsis_added {
            result.append(final_line.as_str());
            assert(kl[idx as int] == final_line@);
        } else {
            result.append(wrapped_str[idx].as_str());
            assert(cl[idx as int] == wrapped_str@[idx as int]@);
            assert(kl[idx as int] == cl[idx as int]);
        }
        assert(result@ =~= join_lines(kl.take(idx as int + 1)));
        idx = idx + 1;
    }
    assert(kl.take(kept) =~= kl);
    result
}


/// Whether `widths_from_rect` runs within `u16` arithmetic on these inputs.
pub fn widths_fit_check(bbox_width: u16, columns: &[TableColumn]) -> (r: bool)
    ensures
        r == widths_fit(bbox_width as int, columns@),
{
    let n = columns.len();
    let ghost cols = columns@;
    let ghost w = bbox_width as int;
    if n > u16::MAX as usize {
        return false;
    }
    // priority sum, computed wide
    let mut total: u64 = 0;
    let mut k: usize = 0;
    while k < n
        invariant
            n == cols.len(),
            cols == columns@,
            n <= u16::MAX,
            k <= n,
            total as int == priority_sum(cols, k as int),
            total <= k * 0xffff,
        decreases n - k,
    {
        total = total + columns[k].priority as u64;
        k = k + 1;
    }
    if total > u16::MAX as u64 {
        return false;
    }
    // the minimum-width pass cannot overflow
    let mut remaining: u64 = bbox_width as u64;
    let mut claimed: Vec<u64> = Vec::new();
    let mut idx: usize = 0;
    while idx < n
        invariant
            n == cols.len(),
            cols == columns@,
            w == bbox_width as int,
            idx <= n,
            claimed@.len() == idx,
            remaining as int == min_pass(cols, w, idx as int).0,
            forall|j: int| 0 <= j < idx ==> claimed@[j] as int == #[trigger] min_pass(cols, w, idx as int).1[j],
        decreases n - idx,
    {
        proof {
            lemma_min_pass(cols, w, idx as int);
        }
        let ghost prev = min_pass(cols, w, idx as int).1;
        let m = columns[idx].min_width as u64;
        if remaining >= m {
            claimed.push(m);
            remaining = remaining - m;
        } else {
            claimed.push(remaining);
            remaining = 0;
        }
        if remaining > 0 && idx + 1 < n {
            remaining = remaining - 1;
        }
        assert forall|j: int| 0 <= j < idx + 1 implies claimed@[j] as int
            == #[trigger] min_pass(cols, w, idx + 1).1[j] by {
            if j < idx {
                assert(min_pass(cols, w, idx + 1).1[j] == prev[j]);
            }
        }
        idx = idx + 1;
    }
    proof {
        lemma_min_pass(cols, w, n as int);
        assert forall|j: int| 0 <= j < n implies claimed@[j] <= 0x1_0000_0000 by {
            assert(claimed@[j] as int == min_pass(cols, w, n as int).1[j]);
        }
    }
    let mut idx: usize = 0;
    while idx < n
        invariant
            n == cols.len(),
            cols == columns@,
            w == bbox_width as int,
            n <= u16::MAX,
            idx <= n,
            total as int == priority_sum(cols, n as int),
            total <= u16::MAX,
            claimed@.len() == n,
            forall|j: int| 0 <= j < idx ==> #[trigger] grow_step_fits(cols, w, j),
            remaining as int == grow_pass(cols, w, idx as int).0,
            0 <= remaining <= 0x1_0000_0000,
            forall|j: int| 0 <= j < n ==> claimed@[j] as int == #[trigger] grow_pass(cols, w, idx as int).1[j],
            forall|j: int| 0 <= j < n ==> claimed@[j] <= 0x1_0000_0000,
        decreases n - idx,
    {
        let ghost prev = grow_pass(cols, w, idx as int).1;
        proof {
            lemma_priority_le_sum(cols, n as int, idx as int);
            lemma_grow_len(cols, w, idx as int);
            lemma_grow_len(cols, w, idx + 1);
        }
        let col = &columns[idx];
        let new_size: u16 = priority_share(col.priority, total as u16, bbox_width);
        let cs: u64 = if idx + 1 < n { 1 } else { 0 };
        if (new_size as u64) < cs {
            assert(!grow_step_fits(cols, w, idx as int));
            return false;
        }
        let free: u64 = remaining + claimed[idx] + cs;
        if free > u16::MAX as u64 {
            assert(!grow_step_fits(cols, w, idx as int));
            return false;
        }
        assert(grow_step_fits(cols, w, idx as int));
        let wanted: u64 = new_size as u64 - cs;
        let room: u64 = free - cs;
        let g: u64 = if room < wanted { room } else { wanted };
        if g > col.min_width as u64 {
            let rem2: u64 = free - g;
            remaining = if rem2 > 0 { rem2 - cs } else { rem2 };
            claimed.set(idx, g);
        }
        assert forall|j: int| 0 <= j < n implies claimed@[j] as int
            == #[trigger] grow_pass(cols, w, idx + 1).1[j] by {
            if j != idx {
                assert(claimed@[j] as int == prev[j]);
            }
        }
        idx = idx + 1;
    }
    true
}

/// `widths_from_rect` on any inputs: `None` where the sizing would overflow
/// a `u16` (for instance when a column's share of a narrow box rounds to
/// nothing but it still needs a unit of spacing).
pub fn try_widths_from_rect(bbox_width: u16, columns: &[TableColumn]) -> (r: Option<Vec<u16>>)
    ensures
        r is Some <==> widths_fit(bbox_width as int, columns@),
        r matches Some(v) ==> v@.len() == columns@.len() && forall|j: int| 0 <= j < v@.len()
            ==> v@[j] as int == #[trigger] widths_spec(bbox_width as int, columns@)[j],
{
    if widths_fit_check(bbox_width, columns) {
        Some(widths_from_rect(bbox_width, columns))
    } else {
        None
    }
}

/// Whether `format_str_with_wrap` accepts these arguments.
pub fn can_format_str_with_wrap(content: &str, width: u16, height: u16) -> (r: bool)
    ensures
        r == wrap_format_allowed(content@, width, height),
{
    if height >= 1 {
        return true;
    }
    let lines = wrap_lines(content, width as usize);
    assert(lines@.len() == views(lines@).len());
    lines.len() as u16 == 0
}

/// `format_str_with_wrap` when lines would be cut off with no line left to
/// keep; `None` on such arguments.
pub fn try_format_str_with_wrap(content: &str, width: u16, height: u16) -> (r: Option<String>)
    ensures
        r is Some <==> wrap_format_allowed(content@, width, height),
        r matches Some(s) ==> s@ == wrap_format(content@, width, height),
{
    if can_format_str_with_wrap(content, width, height) {
        Some(format_str_with_wrap(content, width, height))
    } else {
        None
    }
}

} // verus!
