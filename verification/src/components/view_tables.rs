//! The tables listing custom views: the dashboard's view list (one row per
//! slot) and the custom views that can be placed in a slot.
use vstd::prelude::*;
use crate::constants::table_columns::{
    custom_view_select_columns, dashboard_view_config_columns, view_list_spec, TableColumn,
};
use crate::util::layout::wrap_format;
use crate::util::state_table::TableState;
use crate::util::table::{
    cell_height, cell_text, cells_formattable, get_row_height, max_capped_lines, row_height,
    row_min_render_height, try_format_cell_fields, ColoredCell,
};
use crate::util::text::views;
use crate::util::ui::{color_of_hex, style_color_from_hex_str};

verus! {

/// What the tables read of a custom view.
pub struct ViewSummary {
    pub name: String,
    pub description: Option<String>,
    pub organization: String,
    pub team_key: Option<String>,
    pub color: Option<String>,
}

/// The texts of a custom view's row before empty ones take their column's
/// fallback: name, description, organization, team.
pub open spec fn view_values(v: ViewSummary) -> Seq<Seq<char>> {
    seq![
        v.name@,
        match v.description {
            Some(d) => d@,
            None => Seq::<char>::empty(),
        },
        v.organization@,
        match v.team_key {
            Some(k) => k@,
            None => Seq::<char>::empty(),
        },
    ]
}

/// The cell texts of a custom view's row.
pub open spec fn view_fields(v: ViewSummary) -> Seq<Seq<char>> {
    Seq::new(4, |c: int| cell_text(view_values(v)[c], view_list_spec()[c]))
}

fn opt_text(s: &Option<String>) -> (r: String)
    ensures
        r@ == match *s {
            Some(t) => t@,
            None => Seq::<char>::empty(),
        },
{
    match s {
        Some(t) => t.clone(),
        None => String::new(),
    }
}

/// The cell texts of a custom view's row, empty ones taking their column's
/// fallback.
pub fn view_cell_fields(v: &ViewSummary, columns: &Vec<TableColumn>) -> (r: Vec<String>)
    requires
        columns@ == view_list_spec(),
    ensures
        views(r@) == view_fields(*v),
{
    let values: Vec<String> = vec![v.name.clone(), opt_text(&v.description), v.organization.clone(), opt_text(&v.team_key)];
    let mut r: Vec<String> = Vec::new();
    let mut c: usize = 0;
    while c < 4
        invariant
            c <= 4,
            columns@ == view_list_spec(),
            values@.len() == 4,
            forall|k: int| 0 <= k < 4 ==> #[trigger] values@[k]@ == view_values(*v)[k],
            r@.len() == c,
            forall|k: int| 0 <= k < c ==> #[trigger] r@[k]@ == view_fields(*v)[k],
        decreases 4 - c,
    {
        let text = if values[c].as_str().unicode_len() == 0 {
            String::from_str(columns[c].null_fallback)
        } else {
            values[c].clone()
        };
        r.push(text);
        c = c + 1;
    }
    assert(views(r@) =~= view_fields(*v));
    r
}

/// The rows of a table of custom views and the height they all get.
pub struct ViewTable {
    pub rows: Vec<Vec<ColoredCell>>,
    pub row_height: usize,
}

/// The height the rows of the custom view list are wrapped to: the most
/// lines a cell of the first `n` views needs, capped at its column's height.
pub open spec fn select_wrap_height(list: Seq<ViewSummary>, widths: Seq<u16>, n: int) -> int
    decreases n,
{
    if n <= 0 {
        0
    } else {
        let prev = select_wrap_height(list, widths, n - 1);
        let here = max_capped_lines(view_fields(list[n - 1]), widths, view_list_spec(), 4);
        if here > prev { here } else { prev }
    }
}

/// The wrapped texts of row `k` of the custom view list.
pub open spec fn select_texts(list: Seq<ViewSummary>, widths: Seq<u16>, k: int) -> Seq<Seq<char>> {
    let h = select_wrap_height(list, widths, list.len() as int) as u16;
    Seq::new(4, |c: int| wrap_format(view_fields(list[k])[c], widths[c], h))
}

/// The height every row of the custom view list gets: the most line breaks
/// in a wrapped cell of its first `n` rows.
pub open spec fn select_row_height(list: Seq<ViewSummary>, widths: Seq<u16>, n: int) -> nat
    decreases n,
{
    if n <= 0 {
        0
    } else {
        let prev = select_row_height(list, widths, n - 1);
        let here = row_height(select_texts(list, widths, n - 1));
        if here > prev { here } else { prev }
    }
}

/// Every row of the custom view list can be wrapped.
pub open spec fn select_formattable(list: Seq<ViewSummary>, widths: Seq<u16>) -> bool {
    forall|k: int| 0 <= k < list.len() ==> #[trigger] cells_formattable(
        view_fields(list[k]),
        widths,
        view_list_spec(),
        Some(select_wrap_height(list, widths, list.len() as int) as u16),
    )
}

/// The color of a custom view's name: its own, black when it has none.
pub open spec fn view_name_color(v: ViewSummary) -> Option<crate::util::ui::Color> {
    match v.color {
        Some(c) => color_of_hex(c@),
        None => color_of_hex("#000000"@),
    }
}

proof fn lemma_select_wrap_height_bounds(list: Seq<ViewSummary>, widths: Seq<u16>, n: int)
    ensures
        0 <= select_wrap_height(list, widths, n) <= u16::MAX,
    decreases n,
{
    if n > 0 {
        lemma_select_wrap_height_bounds(list, widths, n - 1);
        crate::util::table::lemma_max_capped_bounds(view_fields(list[n - 1]), widths, view_list_spec(), 4);
    }
}

/// The list of custom views that can be placed on the dashboard.
pub struct LinearCustomViewSelect {
    pub view_table_state: TableState,
    pub loading: bool,
}

impl Default for LinearCustomViewSelect {
    fn default() -> (r: LinearCustomViewSelect)
        ensures
            r.view_table_state.selected is None,
            !r.loading,
    {
        LinearCustomViewSelect { view_table_state: TableState::default(), loading: false }
    }
}

impl LinearCustomViewSelect {
    /// The rows of the custom view list: each view's cells wrapped to the
    /// column widths and to the height the tallest row needs, the name in
    /// the view's color, and every row as tall as the most line breaks a
    /// wrapped cell holds.  `None` where a cell cannot be wrapped.
    pub fn render(list: &Vec<ViewSummary>, widths: &Vec<u16>) -> (r: Option<ViewTable>)
        requires
            widths@.len() >= 4,
        ensures
            r is Some <==> select_formattable(list@, widths@),
            r matches Some(t) ==> {
                &&& t.row_height == select_row_height(list@, widths@, list@.len() as int)
                &&& t.rows@.len() == list@.len()
                &&& forall|k: int| 0 <= k < list@.len() ==> {
                    &&& (#[trigger] t.rows@[k])@.len() == 4
                    &&& forall|c: int| 0 <= c < 4 ==> {
                        &&& (#[trigger] t.rows@[k]@[c]).text@ == select_texts(list@, widths@, k)[c]
                        &&& t.rows@[k]@[c].fg == if c == 0 { view_name_color(list@[k]) } else { None }
                    }
                }
            },
    {
        let columns = custom_view_select_columns();
        let n = list.len();
        let mut fields: Vec<Vec<String>> = Vec::new();
        let mut wrap_height: u16 = 0;
        let mut k: usize = 0;
        while k < n
            invariant
                n == list@.len(),
                columns@ == view_list_spec(),
                widths@.len() >= 4,
                k <= n,
                fields@.len() == k,
                forall|j: int| 0 <= j < k ==> views((#[trigger] fields@[j])@) == view_fields(list@[j]),
                wrap_height == select_wrap_height(list@, widths@, k as int),
            decreases n - k,
        {
            let f = view_cell_fields(&list[k], &columns);
            proof {
                assert(views(f@).len() == 4);
                assert(f@.len() == views(f@).len());
            }
            let here = row_min_render_height(f.as_slice(), widths.as_slice(), columns.as_slice());
            if here > wrap_height {
                wrap_height = here;
            }
            fields.push(f);
            k = k + 1;
        }
        proof {
            lemma_select_wrap_height_bounds(list@, widths@, n as int);
        }
        let mut rows: Vec<Vec<ColoredCell>> = Vec::new();
        let mut height: usize = 0;
        let mut k: usize = 0;
        while k < n
            invariant
                n == list@.len(),
                columns@ == view_list_spec(),
                widths@.len() >= 4,
                k <= n,
                fields@.len() == n,
                forall|j: int| 0 <= j < n ==> views((#[trigger] fields@[j])@) == view_fields(list@[j]),
                wrap_height == select_wrap_height(list@, widths@, n as int),
                rows@.len() == k,
                height == select_row_height(list@, widths@, k as int),
                forall|j: int| 0 <= j < k ==> cells_formattable(view_fields(list@[j]), widths@, view_list_spec(), Some(wrap_height)),
                forall|j: int| 0 <= j < k ==> {
                    &&& (#[trigger] rows@[j])@.len() == 4
                    &&& forall|c: int| 0 <= c < 4 ==> {
                        &&& (#[trigger] rows@[j]@[c]).text@ == select_texts(list@, widths@, j)[c]
                        &&& rows@[j]@[c].fg == if c == 0 { view_name_color(list@[j]) } else { None }
                    }
                },
            decreases n - k,
        {
            let formatted = match try_format_cell_fields(fields[k].as_slice(), widths.as_slice(), columns.as_slice(), Some(wrap_height)) {
                Some(v) => v,
                None => {
                    assert(!select_formattable(list@, widths@)) by {
                        assert(select_wrap_height(list@, widths@, n as int) as u16 == wrap_height);
                        assert(!cells_formattable(view_fields(list@[k as int]), widths@, view_list_spec(), Some(wrap_height)));
                    }
                    return None;
                },
            };
            let mut row: Vec<ColoredCell> = Vec::new();
            let mut c: usize = 0;
            while c < 4
                invariant
                    c <= 4,
                    k < n,
                    n == list@.len(),
                    wrap_height == select_wrap_height(list@, widths@, n as int),
                    formatted@.len() == 4,
                    forall|i: int| 0 <= i < 4 ==> (#[trigger] formatted@[i])@ == wrap_format(
                        view_fields(list@[k as int])[i], widths@[i], cell_height(view_list_spec(), Some(wrap_height), i)),
                    row@.len() == c,
                    forall|i: int| 0 <= i < c ==> {
                        &&& (#[trigger] row@[i]).text@ == select_texts(list@, widths@, k as int)[i]
                        &&& row@[i].fg == if i == 0 { view_name_color(list@[k as int]) } else { None }
                    },
                decreases 4 - c,
            {
                let text = formatted[c].clone();
                let cell = if c == 0 {
                    let fg = match &list[k].color {
                        Some(col) => style_color_from_hex_str(col.as_str()),
                        None => style_color_from_hex_str("#000000"),
                    };
                    ColoredCell { text, fg }
                } else {
                    ColoredCell { text, fg: None }
                };
                row.push(cell);
                c = c + 1;
            }
            let here = get_row_height(formatted.as_slice());
            assert(views(formatted@) =~= select_texts(list@, widths@, k as int));
            if here > height {
                height = here;
            }
            rows.push(row);
            k = k + 1;
        }
        Some(ViewTable { rows, row_height: height })
    }
}

/// The wrapped texts of a slot's row in the dashboard's view list: a view's
/// cells wrapped to their columns' widths and heights, or for an empty slot
/// its label beside two empty cells.  The row's height comes from the
/// wrapped cells (three empty ones for an empty slot).
pub open spec fn slot_texts(slot: Option<ViewSummary>, widths: Seq<u16>) -> Seq<Seq<char>> {
    match slot {
        Some(v) => Seq::new(4, |c: int| wrap_format(view_fields(v)[c], widths[c], view_list_spec()[c].max_height)),
        None => seq![
            "Empty Slot"@,
            wrap_format(Seq::<char>::empty(), widths[1], view_list_spec()[1].max_height),
            wrap_format(Seq::<char>::empty(), widths[2], view_list_spec()[2].max_height),
        ],
    }
}

/// The cells that set a slot row's height.
pub open spec fn slot_height_texts(slot: Option<ViewSummary>, widths: Seq<u16>) -> Seq<Seq<char>> {
    match slot {
        Some(v) => slot_texts(slot, widths),
        None => Seq::new(3, |c: int| wrap_format(Seq::<char>::empty(), widths[c], view_list_spec()[c].max_height)),
    }
}

/// The height every row of the view list gets: the most line breaks in the
/// wrapped cells of its first `n` slots.
pub open spec fn slots_row_height(slots: Seq<Option<ViewSummary>>, widths: Seq<u16>, n: int) -> nat
    decreases n,
{
    if n <= 0 {
        0
    } else {
        let prev = slots_row_height(slots, widths, n - 1);
        let here = row_height(slot_height_texts(slots[n - 1], widths));
        if here > prev { here } else { prev }
    }
}

/// Every slot's row can be wrapped to its columns' heights.
pub open spec fn slots_formattable(slots: Seq<Option<ViewSummary>>, widths: Seq<u16>) -> bool {
    forall|k: int| 0 <= k < slots.len() ==> match #[trigger] slots[k] {
        Some(v) => cells_formattable(view_fields(v), widths, view_list_spec(), None),
        None => cells_formattable(Seq::new(3, |c: int| Seq::<char>::empty()), widths, view_list_spec(), None),
    }
}

/// The color of a slot's name cell: the view's own color, if any.
pub open spec fn slot_name_color(slot: Option<ViewSummary>) -> Option<crate::util::ui::Color> {
    match slot {
        Some(v) => match v.color {
            Some(c) => color_of_hex(c@),
            None => None,
        },
        None => None,
    }
}

/// The dashboard's view list as a table.
pub struct DashboardViewDisplay {
    pub view_table_state: TableState,
}

impl Default for DashboardViewDisplay {
    fn default() -> (r: DashboardViewDisplay)
        ensures
            r.view_table_state.selected is None,
    {
        DashboardViewDisplay { view_table_state: TableState::default() }
    }
}

impl DashboardViewDisplay {
    /// The rows of the dashboard's view list, one per slot (see
    /// `slot_texts`), a view's name in its color, and every row as tall as
    /// the most line breaks a wrapped cell holds.  `None` where a cell
    /// cannot be wrapped.
    pub fn get_rendered_view_table(slots: &Vec<Option<ViewSummary>>, widths: &Vec<u16>) -> (r: Option<ViewTable>)
        requires
            widths@.len() >= 4,
        ensures
            r is Some <==> slots_formattable(slots@, widths@),
            r matches Some(t) ==> {
                &&& t.row_height == slots_row_height(slots@, widths@, slots@.len() as int)
                &&& t.rows@.len() == slots@.len()
                &&& forall|k: int| 0 <= k < slots@.len() ==> {
                    &&& (#[trigger] t.rows@[k])@.len() == slot_texts(slots@[k], widths@).len()
                    &&& forall|c: int| 0 <= c < slot_texts(slots@[k], widths@).len() ==> {
                        &&& (#[trigger] t.rows@[k]@[c]).text@ == slot_texts(slots@[k], widths@)[c]
                        &&& t.rows@[k]@[c].fg == if c == 0 { slot_name_color(slots@[k]) } else { None }
                    }
                }
            },
    {
        let columns = dashboard_view_config_columns();
        let n = slots.len();
        let mut rows: Vec<Vec<ColoredCell>> = Vec::new();
        let mut height: usize = 0;
        let mut k: usize = 0;
        while k < n
            invariant
                n == slots@.len(),
                columns@ == view_list_spec(),
                widths@.len() >= 4,
                k <= n,
                rows@.len() == k,
                height == slots_row_height(slots@, widths@, k as int),
                forall|j: int| 0 <= j < k ==> match #[trigger] slots@[j] {
                    Some(v) => cells_formattable(view_fields(v), widths@, view_list_spec(), None),
                    None => cells_formattable(Seq::new(3, |c: int| Seq::<char>::empty()), widths@, view_list_spec(), None),
                },
                forall|j: int| 0 <= j < k ==> {
                    &&& (#[trigger] rows@[j])@.len() == slot_texts(slots@[j], widths@).len()
                    &&& forall|c: int| 0 <= c < slot_texts(slots@[j], widths@).len() ==> {
                        &&& (#[trigger] rows@[j]@[c]).text@ == slot_texts(slots@[j], widths@)[c]
                        &&& rows@[j]@[c].fg == if c == 0 { slot_name_color(slots@[j]) } else { None }
                    }
                },
            decreases n - k,
        {
            let (row, here) = match &slots[k] {
                Some(v) => {
                    let f = view_cell_fields(v, &columns);
                    proof {
                        assert(views(f@).len() == 4);
                        assert(f@.len() == views(f@).len());
                    }
                    let formatted = match try_format_cell_fields(f.as_slice(), widths.as_slice(), columns.as_slice(), None) {
                        Some(x) => x,
                        None => {
                            assert(!slots_formattable(slots@, widths@)) by {
                                assert(!cells_formattable(view_fields(*v), widths@, view_list_spec(), None));
                            }
                            return None;
                        },
                    };
                    let here = get_row_height(formatted.as_slice());
                    assert(views(formatted@) =~= slot_height_texts(slots@[k as int], widths@));
                    let mut row: Vec<ColoredCell> = Vec::new();
                    let mut c: usize = 0;
                    while c < 4
                        invariant
                            c <= 4,
                            k < n,
                            n == slots@.len(),
                            slots@[k as int] == Some(*v),
                            formatted@.len() == 4,
                            forall|i: int| 0 <= i < 4 ==> (#[trigger] formatted@[i])@ == wrap_format(
                                view_fields(*v)[i], widths@[i], cell_height(view_list_spec(), None, i)),
                            row@.len() == c,
                            forall|i: int| 0 <= i < c ==> {
                                &&& (#[trigger] row@[i]).text@ == slot_texts(slots@[k as int], widths@)[i]
                                &&& row@[i].fg == if i == 0 { slot_name_color(slots@[k as int]) } else { None }
                            },
                        decreases 4 - c,
                    {
                        let text = formatted[c].clone();
                        let cell = if c == 0 {
                            let fg = match &v.color {
                                Some(col) => style_color_from_hex_str(col.as_str()),
                                None => None,
                            };
                            ColoredCell { text, fg }
                        } else {
                            ColoredCell { text, fg: None }
                        };
                        row.push(cell);
                        c = c + 1;
                    }
                    (row, here)
                },
                None => {
                    let empties: Vec<String> = vec![String::new(), String::new(), String::new()];
                    assert(views(empties@) =~= Seq::new(3, |c: int| Seq::<char>::empty()));
                    let formatted = match try_format_cell_fields(empties.as_slice(), widths.as_slice(), columns.as_slice(), None) {
                        Some(x) => x,
                        None => {
                            assert(!slots_formattable(slots@, widths@)) by {
                                assert(!cells_formattable(Seq::new(3, |c: int| Seq::<char>::empty()), widths@, view_list_spec(), None));
                            }
                            return None;
                        },
                    };
                    let here = get_row_height(formatted.as_slice());
                    assert(views(formatted@) =~= slot_height_texts(slots@[k as int], widths@));
                    let label = String::from_str("Empty Slot");
                    proof {
                        reveal_strlit("Empty Slot");
                    }
                    let row: Vec<ColoredCell> = vec![
                        ColoredCell { text: label, fg: None },
                        ColoredCell { text: formatted[1].clone(), fg: None },
                        ColoredCell { text: formatted[2].clone(), fg: None },
                    ];
                    (row, here)
                },
            };
            if here > height {
                height = here;
            }
            rows.push(row);
            k = k + 1;
        }
        Some(ViewTable { rows, row_height: height })
    }
}

} // verus!
