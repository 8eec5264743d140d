//! A plain table of issues: number, title, state, description and creation
//! time, each row as tall as the most lines one of its cells holds.
use vstd::prelude::*;
use crate::linear::types::Issue;
use crate::util::state_table::TableState;
use crate::util::table::{get_row_height, i64_to_decimal, row_height, signed_decimal, ColoredCell};
use crate::util::text::views;
use crate::util::ui::{color_of_hex, style_color_from_hex_str};

verus! {

/// A row of a plain table: its cells and its height in lines.
pub struct DisplayRow {
    pub cells: Vec<ColoredCell>,
    pub height: u16,
}

/// The height of a row whose plain cells are `texts`: one line more than the
/// most line breaks one of them holds, taken as a `u16`.
pub open spec fn lines_height(texts: Seq<Seq<char>>) -> u16 {
    ((row_height(texts) + 1) % 0x10000) as u16
}

pub(crate) fn lines_height_of(texts: &Vec<String>) -> (r: u16)
    ensures
        r == lines_height(views(texts@)),
{
    let h = get_row_height(texts.as_slice());
    let low: u16 = (h % 0x10000) as u16;
    if low == 0xffff {
        0
    } else {
        low + 1
    }
}

/// A cell showing `name` in the color that the hex string `color` names;
/// where `color` is no hex color the cell stays empty.
pub open spec fn name_cell(name: Seq<char>, color: Seq<char>, cell: ColoredCell) -> bool {
    match color_of_hex(color) {
        Some(c) => cell.text@ == name && cell.fg == Some(c),
        None => cell.text@ == Seq::<char>::empty() && cell.fg is None,
    }
}

pub(crate) fn colored_name_cell(name: &String, color: &String) -> (r: ColoredCell)
    ensures
        name_cell(name@, color@, r),
{
    match style_color_from_hex_str(color.as_str()) {
        Some(c) => ColoredCell { text: name.clone(), fg: Some(c) },
        None => ColoredCell { text: String::new(), fg: None },
    }
}

/// A cell with `text` in the default color.
pub open spec fn plain_cell(text: Seq<char>, cell: ColoredCell) -> bool {
    cell.text@ == text && cell.fg is None
}

/// The plain texts of an issue's row: number, title, description (nothing
/// when it has none) and creation time.
pub open spec fn display_texts(i: Issue) -> Seq<Seq<char>> {
    seq![
        signed_decimal(i.number as int),
        i.title@,
        match i.description {
            Some(d) => d@,
            None => Seq::<char>::empty(),
        },
        i.created_at@,
    ]
}

/// An issue's row: its plain texts with the state's name, in the state's
/// color, inserted third; as tall as the plain texts need.
pub open spec fn issue_display_row(i: Issue, row: DisplayRow) -> bool {
    let t = display_texts(i);
    &&& row.cells@.len() == 5
    &&& plain_cell(t[0], row.cells@[0])
    &&& plain_cell(t[1], row.cells@[1])
    &&& name_cell(i.state.name@, i.state.color@, row.cells@[2])
    &&& plain_cell(t[2], row.cells@[3])
    &&& plain_cell(t[3], row.cells@[4])
    &&& row.height == lines_height(t)
}

/// The table of issues with its selection.
pub struct LinearIssueDisplay {
    pub issue_table_data: Option<Vec<Issue>>,
    pub issue_table_state: TableState,
}

impl Default for LinearIssueDisplay {
    fn default() -> (r: LinearIssueDisplay)
        ensures
            r.issue_table_data matches Some(v) && v@.len() == 0,
            r.issue_table_state.selected is None,
    {
        LinearIssueDisplay { issue_table_data: Some(Vec::new()), issue_table_state: TableState::default() }
    }
}

fn issue_display_row_of(i: &Issue) -> (r: DisplayRow)
    ensures
        issue_display_row(*i, r),
{
    let description = match &i.description {
        Some(d) => d.clone(),
        None => String::new(),
    };
    let texts: Vec<String> = vec![i64_to_decimal(i.number), i.title.clone(), description, i.created_at.clone()];
    assert(views(texts@) =~= display_texts(*i));
    let height = lines_height_of(&texts);
    let cells: Vec<ColoredCell> = vec![
        ColoredCell { text: texts[0].clone(), fg: None },
        ColoredCell { text: texts[1].clone(), fg: None },
        colored_name_cell(&i.state.name, &i.state.color),
        ColoredCell { text: texts[2].clone(), fg: None },
        ColoredCell { text: texts[3].clone(), fg: None },
    ];
    DisplayRow { cells, height }
}

impl LinearIssueDisplay {
    /// One row per issue (see `issue_display_row`).
    pub fn get_rendered_issue_data(table_data: &Vec<Issue>) -> (r: Vec<DisplayRow>)
        ensures
            r@.len() == table_data@.len(),
            forall|k: int| 0 <= k < r@.len() ==> issue_display_row(table_data@[k], #[trigger] r@[k]),
    {
        let mut r: Vec<DisplayRow> = Vec::new();
        let mut k: usize = 0;
        while k < table_data.len()
            invariant
                k <= table_data@.len(),
                r@.len() == k,
                forall|j: int| 0 <= j < k ==> issue_display_row(table_data@[j], #[trigger] r@[j]),
            decreases table_data@.len() - k,
        {
            r.push(issue_display_row_of(&table_data[k]));
            k = k + 1;
        }
        r
    }
}

} // verus!
