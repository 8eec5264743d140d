//! The table of a dashboard view panel: one row per issue, its cells wrapped
//! to the column widths and every row as tall as the tallest row needs.
use vstd::prelude::*;
use crate::constants::table_columns::{view_panel_columns, view_panel_spec, TableColumn};
use crate::linear::types::Issue;
use crate::util::cursor::GraphQLCursor;
use crate::util::layout::wrap_format;
use crate::util::table::{
    cell_height, cell_text, cells_formattable, colored_cell, i64_to_decimal, max_capped_lines,
    row_min_render_height, signed_decimal, try_format_cell_fields, ColoredCell,
};
use crate::util::text::views;
use crate::util::ui::color_of_hex;

verus! {

/// One dashboard view panel: the view it shows, the issues it holds, its
/// pagination cursor, and whether it is loading.
pub struct DashboardViewPanel<V> {
    pub view: V,
    pub issues: Vec<Issue>,
    pub cursor: Option<GraphQLCursor>,
    pub loading: bool,
}

impl<V> DashboardViewPanel<V> {
    /// A panel for `view`, holding no issues yet and not loading.
    pub fn with_filter(view: V) -> (r: DashboardViewPanel<V>)
        ensures
            r.view == view,
            r.issues@.len() == 0,
            r.cursor is None,
            !r.loading,
    {
        DashboardViewPanel { view, issues: Vec::new(), cursor: None, loading: false }
    }
}

/// The texts an issue shows in a view panel, before empty ones take their
/// column's fallback: number, title, state, description, creation time.
pub open spec fn issue_values(i: Issue) -> Seq<Seq<char>> {
    seq![
        signed_decimal(i.number as int),
        i.title@,
        i.state.name@,
        match i.description {
            Some(d) => d@,
            None => Seq::<char>::empty(),
        },
        i.created_at@,
    ]
}

/// The cell texts of an issue in a view panel.
pub open spec fn issue_fields(i: Issue) -> Seq<Seq<char>> {
    Seq::new(5, |c: int| cell_text(issue_values(i)[c], view_panel_spec()[c]))
}

/// The cell texts of an issue in a view panel, each empty one replaced by
/// its column's fallback.
pub fn issue_cell_fields(issue: &Issue, columns: &Vec<TableColumn>) -> (r: Vec<String>)
    requires
        columns@ == view_panel_spec(),
    ensures
        views(r@) == issue_fields(*issue),
{
    let number = i64_to_decimal(issue.number);
    let title = issue.title.clone();
    let state = issue.state.name.clone();
    let description = match &issue.description {
        Some(d) => d.clone(),
        None => String::new(),
    };
    let created = issue.created_at.clone();
    let values: Vec<String> = vec![number, title, state, description, created];
    let mut r: Vec<String> = Vec::new();
    let mut c: usize = 0;
    while c < 5
        invariant
            c <= 5,
            columns@ == view_panel_spec(),
            values@.len() == 5,
            forall|k: int| 0 <= k < 5 ==> #[trigger] values@[k]@ == issue_values(*issue)[k],
            r@.len() == c,
            forall|k: int| 0 <= k < c ==> #[trigger] r@[k]@ == issue_fields(*issue)[k],
        decreases 5 - c,
    {
        let value = &values[c];
        let column = &columns[c];
        let text = if value.as_str().unicode_len() == 0 {
            String::from_str(column.null_fallback)
        } else {
            value.clone()
        };
        r.push(text);
        c = c + 1;
    }
    assert(views(r@) =~= issue_fields(*issue));
    r
}

/// The height every row of a panel gets: the most lines any cell of any of
/// the first `n` issues needs, each cell capped at its column's height.
pub open spec fn panel_row_height(issues: Seq<Issue>, widths: Seq<u16>, n: int) -> int
    decreases n,
{
    if n <= 0 {
        0
    } else {
        let prev = panel_row_height(issues, widths, n - 1);
        let here = max_capped_lines(issue_fields(issues[n - 1]), widths, view_panel_spec(), 5);
        if here > prev { here } else { prev }
    }
}

/// The rows of a panel can be wrapped: every cell fits its width within
/// the panel's row height.
pub open spec fn panel_formattable(issues: Seq<Issue>, widths: Seq<u16>) -> bool {
    forall|k: int| 0 <= k < issues.len() ==> #[trigger] cells_formattable(
        issue_fields(issues[k]),
        widths,
        view_panel_spec(),
        Some(panel_row_height(issues, widths, issues.len() as int) as u16),
    )
}

/// The drawn cell `c` of the row of `issue` in a panel of row height `h`:
/// the wrapped text, the state drawn in the state's color.
pub open spec fn panel_cell(issue: Issue, widths: Seq<u16>, h: u16, c: int, cell: ColoredCell) -> bool {
    &&& cell.text@ == wrap_format(issue_fields(issue)[c], widths[c], h)
    &&& cell.fg == if c == 2 { color_of_hex(issue.state.color@) } else { None }
}

/// The rows of a view panel's table and the height they all get.
pub struct PanelTable {
    pub rows: Vec<Vec<ColoredCell>>,
    pub row_height: u16,
}

proof fn lemma_panel_row_height_bounds(issues: Seq<Issue>, widths: Seq<u16>, n: int)
    requires
        widths.len() >= 5,
    ensures
        0 <= panel_row_height(issues, widths, n) <= u16::MAX,
    decreases n,
{
    if n > 0 {
        lemma_panel_row_height_bounds(issues, widths, n - 1);
        crate::util::table::lemma_max_capped_bounds(issue_fields(issues[n - 1]), widths, view_panel_spec(), 5);
    }
}

impl<V> DashboardViewPanel<V> {
    /// The table of the panel: the cells of each issue it holds wrapped to
    /// the column widths and to the height of the tallest row, the state
    /// cell in the state's color.  `None` where a cell cannot be wrapped to that height.
    pub fn render(&self, widths: &Vec<u16>) -> (r: Option<PanelTable>)
        requires
            widths@.len() >= 5,
        ensures
            r is Some <==> panel_formattable(self.issues@, widths@),
            r matches Some(t) ==> {
                let h = panel_row_height(self.issues@, widths@, self.issues@.len() as int);
                &&& t.row_height == h
                &&& t.rows@.len() == self.issues@.len()
                &&& forall|k: int| 0 <= k < self.issues@.len() ==> (#[trigger] t.rows@[k])@.len() == 5
                    && forall|c: int| 0 <= c < 5 ==> panel_cell(self.issues@[k], widths@, h as u16, c, #[trigger] t.rows@[k]@[c])
            },
    {
        let issues = &self.issues;
        let columns = view_panel_columns();
        let n = issues.len();
        let mut fields: Vec<Vec<String>> = Vec::new();
        let mut height: u16 = 0;
        let mut k: usize = 0;
        while k < n
            invariant
                issues@ == self.issues@,
                n == issues@.len(),
                columns@ == view_panel_spec(),
                widths@.len() >= 5,
                k <= n,
                fields@.len() == k,
                forall|j: int| 0 <= j < k ==> views((#[trigger] fields@[j])@) == issue_fields(issues@[j]),
                height == panel_row_height(issues@, widths@, k as int),
            decreases n - k,
        {
            let f = issue_cell_fields(&issues[k], &columns);
            proof {
                assert(views(f@).len() == 5);
                assert(f@.len() == views(f@).len());
                assert(f@.len() <= widths@.len());
            }
            let here = row_min_render_height(f.as_slice(), widths.as_slice(), columns.as_slice());
            if here > height {
                height = here;
            }
            fields.push(f);
            k = k + 1;
        }
        proof {
            lemma_panel_row_height_bounds(issues@, widths@, n as int);
        }
        let mut rows: Vec<Vec<ColoredCell>> = Vec::new();
        let mut k: usize = 0;
        while k < n
            invariant
                issues@ == self.issues@,
                n == issues@.len(),
                columns@ == view_panel_spec(),
                widths@.len() >= 5,
                k <= n,
                fields@.len() == n,
                forall|j: int| 0 <= j < n ==> views((#[trigger] fields@[j])@) == issue_fields(issues@[j]),
                height == panel_row_height(issues@, widths@, n as int),
                rows@.len() == k,
                forall|j: int| 0 <= j < k ==> cells_formattable(issue_fields(issues@[j]), widths@, view_panel_spec(), Some(height)),
                forall|j: int| 0 <= j < k ==> (#[trigger] rows@[j])@.len() == 5
                    && forall|c: int| 0 <= c < 5 ==> panel_cell(issues@[j], widths@, height, c, #[trigger] rows@[j]@[c]),
            decreases n - k,
        {
            let formatted = match try_format_cell_fields(fields[k].as_slice(), widths.as_slice(), columns.as_slice(), Some(height)) {
                Some(v) => v,
                None => {
                    assert(!panel_formattable(self.issues@, widths@)) by {
                        assert(panel_row_height(issues@, widths@, n as int) as u16 == height);
                        assert(!cells_formattable(issue_fields(issues@[k as int]), widths@, view_panel_spec(), Some(height)));
                    }
                    return None;
                },
            };
            let mut row: Vec<ColoredCell> = Vec::new();
            let mut c: usize = 0;
            while c < 5
                invariant
                    c <= 5,
                    formatted@.len() == 5,
                    forall|i: int| 0 <= i < 5 ==> (#[trigger] formatted@[i])@ == wrap_format(
                        issue_fields(issues@[k as int])[i], widths@[i], cell_height(view_panel_spec(), Some(height), i)),
                    row@.len() == c,
                    forall|i: int| 0 <= i < c ==> panel_cell(issues@[k as int], widths@, height, i, #[trigger] row@[i]),
                    k < n,
                    n == issues@.len(),
                decreases 5 - c,
            {
                let text = formatted[c].clone();
                let cell = if c == 2 {
                    colored_cell(text, issues[k].state.color.as_str())
                } else {
                    ColoredCell { text, fg: None }
                };
                row.push(cell);
                c = c + 1;
            }
            rows.push(row);
            k = k + 1;
        }
        Some(PanelTable { rows, row_height: height })
    }
}

} // verus!
