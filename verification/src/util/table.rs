//! Cell contents of the dashboard tables.
use vstd::prelude::*;
use crate::constants::table_columns::TableColumn;
use crate::util::loader::{loader_from_state, loader_glyph, LOADER_STATE_MAX};
use crate::util::layout::{can_format_str_with_wrap, format_str_with_wrap, wrap_format, wrap_format_allowed};
use crate::util::text::{push_char, views, wrap_lines, wrapped_lines};
use crate::util::ui::{color_of_hex, style_color_from_hex_str, Color};

verus! {

/// How a table is titled and highlighted.
pub struct TableStyle {
    /// The title and the hex color it is drawn in.
    pub title_style: Option<(String, String)>,
    pub row_bottom_margin: Option<u16>,
    /// Number of the view panel the table belongs to.
    pub view_idx: Option<u16>,
    pub highlight_table: bool,
    pub loading: bool,
    pub loader_state: u16,
}

/// A cell shows its value, or the column's fallback text when the value is
/// empty.
pub open spec fn cell_text(value: Seq<char>, column: TableColumn) -> Seq<char> {
    if value.len() == 0 {
        column.null_fallback@
    } else {
        value
    }
}

pub fn empty_str_to_fallback(values: &[&str], columns: &[TableColumn]) -> (r: Vec<String>)
    requires
        values@.len() <= columns@.len(),
    ensures
        r@.len() == values@.len(),
        forall|i: int| 0 <= i < r@.len() ==> #[trigger] r@[i]@ == cell_text(values@[i]@, columns@[i]),
{
    let mut r: Vec<String> = Vec::new();
    let mut i: usize = 0;
    while i < values.len()
        invariant
            values@.len() <= columns@.len(),
            i <= values@.len(),
            r@.len() == i,
            forall|j: int| 0 <= j < i ==> #[trigger] r@[j]@ == cell_text(values@[j]@, columns@[j]),
        decreases values@.len() - i,
    {
        let field: &str = values[i];
        if field.is_empty() {
            r.push(columns[i].null_fallback.to_owned());
        } else {
            r.push(field.to_owned());
        }
        i = i + 1;
    }
    r
}

/// Number of occurrences of `c` in `s`.
pub open spec fn count_char(s: Seq<char>, c: char) -> nat
    decreases s.len(),
{
    if s.len() == 0 {
        0
    } else {
        count_char(s.drop_last(), c) + if s.last() == c { 1nat } else { 0nat }
    }
}

/// Largest newline count among the first `i` cells (0 when there are none).
pub open spec fn max_newlines(cells: Seq<Seq<char>>, i: int) -> nat
    decreases i,
{
    if i <= 0 {
        0
    } else {
        let prev = max_newlines(cells, i - 1);
        let here = count_char(cells[i - 1], '\n');
        if here > prev { here } else { prev }
    }
}

/// The row height of a formatted row: the largest number of line breaks in
/// one of its cells, or 1 for a row without cells.
pub open spec fn row_height(cells: Seq<Seq<char>>) -> nat {
    if cells.len() == 0 {
        1
    } else {
        max_newlines(cells, cells.len() as int)
    }
}

proof fn lemma_count_le_len(s: Seq<char>, c: char)
    ensures
        count_char(s, c) <= s.len(),
    decreases s.len(),
{
    if s.len() > 0 {
        lemma_count_le_len(s.drop_last(), c);
    }
}

fn count_newlines(s: &str) -> (r: usize)
    ensures
        r == count_char(s@, '\n'),
{
    let n = s.unicode_len();
    let mut count: usize = 0;
    let mut i: usize = 0;
    while i < n
        invariant
            n == s@.len(),
            i <= n,
            count == count_char(s@.take(i as int), '\n'),
        decreases n - i,
    {
        proof {
            assert(s@.take(i + 1).drop_last() =~= s@.take(i as int));
            lemma_count_le_len(s@.take(i as int), '\n');
        }
        if s.get_char(i) == '\n' {
            count = count + 1;
        }
        i = i + 1;
    }
    assert(s@.take(n as int) =~= s@);
    count
}

pub fn get_row_height(cell_fields: &[String]) -> (r: usize)
    ensures
        r == row_height(views(cell_fields@)),
{
    let ghost cells = views(cell_fields@);
    if cell_fields.len() == 0 {
        return 1;
    }
    let mut best: usize = 0;
    let mut i: usize = 0;
    while i < cell_fields.len()
        invariant
            cells == views(cell_fields@),
            i <= cell_fields@.len(),
            best == max_newlines(cells, i as int),
        decreases cell_fields@.len() - i,
    {
        let here = count_newlines(cell_fields[i].as_str());
        assert(cells[i as int] == cell_fields@[i as int]@);
        if here > best {
            best = here;
        }
        i = i + 1;
    }
    best
}

/// The number of lines a cell wraps into, capped at its column's height.
pub open spec fn capped_lines(cell: Seq<char>, width: u16, column: TableColumn) -> int {
    let n = wrapped_lines(cell, width as usize).len() as int;
    if n < column.max_height { n } else { column.max_height as int }
}

/// Largest capped line count among the first `i` cells (0 when none).
pub open spec fn max_capped_lines(
    cells: Seq<Seq<char>>,
    widths: Seq<u16>,
    columns: Seq<TableColumn>,
    i: int,
) -> int
    decreases i,
{
    if i <= 0 {
        0
    } else {
        let prev = max_capped_lines(cells, widths, columns, i - 1);
        let here = capped_lines(cells[i - 1], widths[i - 1], columns[i - 1]);
        if here > prev { here } else { prev }
    }
}

pub(crate) proof fn lemma_max_capped_bounds(
    cells: Seq<Seq<char>>,
    widths: Seq<u16>,
    columns: Seq<TableColumn>,
    i: int,
)
    ensures
        0 <= max_capped_lines(cells, widths, columns, i) <= u16::MAX,
    decreases i,
{
    if i > 0 {
        lemma_max_capped_bounds(cells, widths, columns, i - 1);
    }
}

/// The height a row needs so that no cell is cut short of its column's
/// height limit: the largest capped line count of its cells, 0 for no cells.
pub fn row_min_render_height(cell_fields: &[String], widths: &[u16], col_defs: &[TableColumn]) -> (r: u16)
    requires
        cell_fields@.len() <= widths@.len(),
        cell_fields@.len() <= col_defs@.len(),
    ensures
        r as int == max_capped_lines(views(cell_fields@), widths@, col_defs@, cell_fields@.len() as int),
{
    let ghost cells = views(cell_fields@);
    let mut best: u16 = 0;
    let mut i: usize = 0;
    while i < cell_fields.len()
        invariant
            cells == views(cell_fields@),
            cell_fields@.len() <= widths@.len(),
            cell_fields@.len() <= col_defs@.len(),
            i <= cell_fields@.len(),
            best as int == max_capped_lines(cells, widths@, col_defs@, i as int),
        decreases cell_fields@.len() - i,
    {
        let lines = wrap_lines(cell_fields[i].as_str(), widths[i] as usize);
        assert(cells[i as int] == cell_fields@[i as int]@);
        assert(lines@.len() == views(lines@).len());
        let max_h = col_defs[i].max_height;
        let here: u16 = if lines.len() < max_h as usize { lines.len() as u16 } else { max_h };
        if here > best {
            best = here;
        }
        i = i + 1;
    }
    best
}

/// The text of a table's title: the view number when there is one, the
/// loading spinner, and the title itself.
pub open spec fn title_text(style: TableStyle) -> Seq<Seq<char>> {
    match style.title_style {
        Some(t) => seq![
            match style.view_idx {
                Some(idx) => seq!['#'] + decimal(idx as nat) + seq![' ', '-', ' '],
                None => Seq::empty(),
            },
            seq![loader_glyph(style.loading, style.loader_state), ' ', '-', ' '],
            t.0@,
        ],
        None => seq![seq!['T', 'a', 'b', 'l', 'e']],
    }
}

/// The decimal digits of `n`.
pub open spec fn decimal(n: nat) -> Seq<char>
    decreases n,
{
    if n < 10 {
        seq![digit_char(n)]
    } else {
        decimal(n / 10).push(digit_char(n % 10))
    }
}

pub open spec fn digit_char(d: nat) -> char {
    if d == 0 { '0' } else if d == 1 { '1' } else if d == 2 { '2' } else if d == 3 { '3' }
    else if d == 4 { '4' } else if d == 5 { '5' } else if d == 6 { '6' } else if d == 7 { '7' }
    else if d == 8 { '8' } else { '9' }
}

fn digit_to_char(d: u16) -> (c: char)
    requires
        d < 10,
    ensures
        c == digit_char(d as nat),
{
    if d == 0 { '0' } else if d == 1 { '1' } else if d == 2 { '2' } else if d == 3 { '3' }
    else if d == 4 { '4' } else if d == 5 { '5' } else if d == 6 { '6' } else if d == 7 { '7' }
    else if d == 8 { '8' } else { '9' }
}

/// The decimal text of `n`.
pub fn u16_to_decimal(n: u16) -> (r: String)
    ensures
        r@ == decimal(n as nat),
    decreases n,
{
    if n < 10 {
        let mut s = String::new();
        push_char(&mut s, digit_to_char(n));
        assert(s@ =~= seq![digit_char(n as nat)]);
        s
    } else {
        let mut s = u16_to_decimal(n / 10);
        push_char(&mut s, digit_to_char(n % 10));
        s
    }
}

/// The decimal text of `n`.
pub fn u64_to_decimal(n: u64) -> (r: String)
    ensures
        r@ == decimal(n as nat),
    decreases n,
{
    if n < 10 {
        let mut s = String::new();
        push_char(&mut s, digit_to_char(n as u16));
        assert(s@ =~= seq![digit_char(n as nat)]);
        s
    } else {
        let mut s = u64_to_decimal(n / 10);
        push_char(&mut s, digit_to_char((n % 10) as u16));
        s
    }
}

/// The decimal text of a signed number: a minus sign before negative ones.
pub open spec fn signed_decimal(n: int) -> Seq<char> {
    if n < 0 {
        seq!['-'] + decimal((-n) as nat)
    } else {
        decimal(n as nat)
    }
}

/// The decimal text of `n`, as `to_string` writes it.
pub fn i64_to_decimal(n: i64) -> (r: String)
    ensures
        r@ == signed_decimal(n as int),
{
    if n < 0 {
        let magnitude: u64 = (0i128 - n as i128) as u64;
        let digits = u64_to_decimal(magnitude);
        let mut s = String::new();
        push_char(&mut s, '-');
        s.append(digits.as_str());
        assert(s@ =~= seq!['-'] + decimal((-(n as int)) as nat));
        s
    } else {
        u64_to_decimal(n as u64)
    }
}

/// The texts of the pieces of a table's title, in the order they are
/// drawn: view number, loading spinner, title.  A table without a title
/// style is titled "Table".
fn title_texts(table_style: &TableStyle) -> (r: Vec<String>)
    requires
        table_style.title_style is Some && table_style.loading ==> table_style.loader_state
            < LOADER_STATE_MAX,
    ensures
        views(r@) == title_text(*table_style),
{
    match &table_style.title_style {
        Some(title_style) => {
            let idx_text = match table_style.view_idx {
                Some(idx) => {
                    let mut s = String::new();
                    push_char(&mut s, '#');
                    let d = u16_to_decimal(idx);
                    s.append(d.as_str());
                    s.append(" - ");
                    proof {
                        reveal_strlit(" - ");
                    }
                    assert(s@ =~= seq!['#'] + decimal(idx as nat) + seq![' ', '-', ' ']);
                    s
                },
                None => String::new(),
            };
            let mut loader_text = String::new();
            push_char(&mut loader_text, loader_from_state(table_style.loading, table_style.loader_state));
            loader_text.append(" - ");
            proof {
                reveal_strlit(" - ");
            }
            let title = title_style.0.clone();
            let ghost parts = seq![idx_text@, loader_text@, title@];
            let mut v: Vec<String> = Vec::new();
            v.push(idx_text);
            v.push(loader_text);
            v.push(title);
            assert(views(v@) =~= parts);
            assert(loader_text@ =~= seq![loader_glyph(table_style.loading, table_style.loader_state), ' ', '-', ' ']);
            v
        },
        None => {
            let t = String::from_str("Table");
            proof {
                reveal_strlit("Table");
            }
            let mut v: Vec<String> = Vec::new();
            v.push(t);
            assert(v@[0]@ =~= seq!['T', 'a', 'b', 'l', 'e']);
            assert(views(v@) =~= title_text(*table_style));
            v
        },
    }
}


/// A piece of a title: its text, whether it is bold, and its color (the
/// default where none).
pub struct TitleSpan {
    pub text: String,
    pub bold: bool,
    pub fg: Option<Color>,
}

/// The color a title is drawn in: the one its hex string names, white where
/// that is no hex color.
pub open spec fn title_color_of(style: TableStyle) -> Color {
    match style.title_style {
        Some(t) => match color_of_hex(t.1@) {
            Some(named) => named,
            None => Color::White,
        },
        None => Color::White,
    }
}

/// The pieces of a table's title as they are drawn: with a title style, the
/// view number and the loading spinner in the default style, then the
/// title in bold and its color; without one, "Table" in the default style.
pub fn gen_table_title_spans(table_style: &TableStyle) -> (r: Vec<TitleSpan>)
    requires
        table_style.title_style is Some && table_style.loading ==> table_style.loader_state
            < LOADER_STATE_MAX,
    ensures
        r@.len() == title_text(*table_style).len(),
        forall|i: int| 0 <= i < r@.len() ==> (#[trigger] r@[i]).text@ == title_text(*table_style)[i],
        table_style.title_style is Some ==> !r@[0].bold && r@[0].fg is None && !r@[1].bold && r@[1].fg is None
            && r@[2].bold && r@[2].fg == Some(title_color_of(*table_style)),
        table_style.title_style is None ==> !r@[0].bold && r@[0].fg is None,
{
    let texts = title_texts(table_style);
    let ghost tt = title_text(*table_style);
    assert(views(texts@).len() == texts@.len());
    assert(forall|i: int| 0 <= i < texts@.len() ==> #[trigger] texts@[i]@ == views(texts@)[i]);
    let mut r: Vec<TitleSpan> = Vec::new();
    if table_style.title_style.is_some() {
        let color = title_color(table_style);
        r.push(TitleSpan { text: texts[0].clone(), bold: false, fg: None });
        r.push(TitleSpan { text: texts[1].clone(), bold: false, fg: None });
        r.push(TitleSpan { text: texts[2].clone(), bold: true, fg: Some(color) });
    } else {
        r.push(TitleSpan { text: texts[0].clone(), bold: false, fg: None });
    }
    r
}

/// The line height cell `i` is formatted to: the common height when one is
/// given, the column's own limit otherwise.
pub open spec fn cell_height(columns: Seq<TableColumn>, col_height: Option<u16>, i: int) -> u16 {
    match col_height {
        Some(h) => h,
        None => columns[i].max_height,
    }
}

/// Every cell of the row can be formatted to its width and height.
pub open spec fn cells_formattable(
    cells: Seq<Seq<char>>,
    widths: Seq<u16>,
    columns: Seq<TableColumn>,
    col_height: Option<u16>,
) -> bool {
    forall|i: int| 0 <= i < cells.len() ==> #[trigger] wrap_format_allowed(cells[i], widths[i], cell_height(columns, col_height, i))
}

/// Wraps every cell of a row to its column's width and to the row's height.
pub fn format_cell_fields(
    cell_fields: &[String],
    widths: &[u16],
    columns: &[TableColumn],
    col_height: Option<u16>,
) -> (r: Vec<String>)
    requires
        cell_fields@.len() <= widths@.len(),
        cell_fields@.len() <= columns@.len(),
        cells_formattable(views(cell_fields@), widths@, columns@, col_height),
    ensures
        r@.len() == cell_fields@.len(),
        forall|i: int| 0 <= i < r@.len() ==> #[trigger] r@[i]@ == wrap_format(
            cell_fields@[i]@,
            widths@[i],
            cell_height(columns@, col_height, i),
        ),
{
    let ghost cells = views(cell_fields@);
    let mut r: Vec<String> = Vec::new();
    let mut i: usize = 0;
    while i < cell_fields.len()
        invariant
            cells == views(cell_fields@),
            cell_fields@.len() <= widths@.len(),
            cell_fields@.len() <= columns@.len(),
            cells_formattable(cells, widths@, columns@, col_height),
            i <= cell_fields@.len(),
            r@.len() == i,
            forall|j: int| 0 <= j < i ==> #[trigger] r@[j]@ == wrap_format(
                cell_fields@[j]@,
                widths@[j],
                cell_height(columns@, col_height, j),
            ),
        decreases cell_fields@.len() - i,
    {
        let h: u16 = match col_height {
            Some(uniform_height) => uniform_height,
            None => columns[i].max_height,
        };
        assert(cells[i as int] == cell_fields@[i as int]@);
        assert(wrap_format_allowed(cells[i as int], widths@[i as int], cell_height(columns@, col_height, i as int)));
        r.push(format_str_with_wrap(cell_fields[i].as_str(), widths[i], h));
        i = i + 1;
    }
    r
}

/// `format_cell_fields` for any row: `None` when some cell would lose all
/// its lines.
pub fn try_format_cell_fields(
    cell_fields: &[String],
    widths: &[u16],
    columns: &[TableColumn],
    col_height: Option<u16>,
) -> (r: Option<Vec<String>>)
    requires
        cell_fields@.len() <= widths@.len(),
        cell_fields@.len() <= columns@.len(),
    ensures
        r is Some <==> cells_formattable(views(cell_fields@), widths@, columns@, col_height),
        r matches Some(v) ==> v@.len() == cell_fields@.len() && forall|i: int| 0 <= i < v@.len()
            ==> #[trigger] v@[i]@ == wrap_format(cell_fields@[i]@, widths@[i], cell_height(columns@, col_height, i)),
{
    let ghost cells = views(cell_fields@);
    let mut i: usize = 0;
    while i < cell_fields.len()
        invariant
            cells == views(cell_fields@),
            cell_fields@.len() <= widths@.len(),
            cell_fields@.len() <= columns@.len(),
            i <= cell_fields@.len(),
            forall|j: int| 0 <= j < i ==> #[trigger] wrap_format_allowed(cells[j], widths@[j], cell_height(columns@, col_height, j)),
        decreases cell_fields@.len() - i,
    {
        let h: u16 = match col_height {
            Some(uniform_height) => uniform_height,
            None => columns[i].max_height,
        };
        assert(cells[i as int] == cell_fields@[i as int]@);
        if !can_format_str_with_wrap(cell_fields[i].as_str(), widths[i], h) {
            assert(!wrap_format_allowed(cells[i as int], widths@[i as int], cell_height(columns@, col_height, i as int)));
            return None;
        }
        i = i + 1;
    }
    Some(format_cell_fields(cell_fields, widths, columns, col_height))
}

/// A table cell: its text and the color it is drawn in, if any.
pub struct ColoredCell {
    pub text: String,
    pub fg: Option<Color>,
}

/// A cell showing `name` in the color that the hex string `color` names,
/// or in the default color where `color` is no hex color.
pub fn colored_cell(name: String, color: &str) -> (c: ColoredCell)
    ensures
        c.text == name,
        c.fg == color_of_hex(color@),
{
    ColoredCell { text: name, fg: style_color_from_hex_str(color) }
}

/// The color a table's title is drawn in: the one its hex string names,
/// white where that is no hex color or the table has no title style.
pub fn title_color(table_style: &TableStyle) -> (c: Color)
    ensures
        c == match table_style.title_style {
            Some(t) => match color_of_hex(t.1@) {
                Some(named) => named,
                None => Color::White,
            },
            None => Color::White,
        },
{
    match &table_style.title_style {
        Some(t) => match style_color_from_hex_str(t.1.as_str()) {
            Some(named) => named,
            None => Color::White,
        },
        None => Color::White,
    }
}

} // verus!
