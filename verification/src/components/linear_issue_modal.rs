//! What the expanded view of an issue shows: its colored title, its labels
//! (scrolling through them when there are several), and the fields listed
//! beside its description.
use vstd::prelude::*;
use crate::linear::types::{Issue, Label};
use crate::util::table::{i64_to_decimal, signed_decimal, ColoredCell};
use crate::util::text::push_char;
use crate::util::ui::{color_of_hex, style_color_from_hex_str, Color};

verus! {

/// The title line of an issue: its number, a dash and its title.
pub open spec fn title_line(issue: Issue) -> Seq<char> {
    signed_decimal(issue.number as int) + seq![' ', '-', ' '] + issue.title@
}

/// The color of an issue's title: its state's color, green when the state's
/// color is no hex color.
pub open spec fn title_line_color(issue: Issue) -> Color {
    match color_of_hex(issue.state.color@) {
        Some(c) => c,
        None => Color::Green,
    }
}

/// The title of an issue, drawn in its state's color.
pub fn colored_title_from_issue(issue: &Issue) -> (r: ColoredCell)
    ensures
        r.text@ == title_line(*issue),
        r.fg == Some(title_line_color(*issue)),
{
    let mut text = i64_to_decimal(issue.number);
    push_char(&mut text, ' ');
    push_char(&mut text, '-');
    push_char(&mut text, ' ');
    text.append(issue.title.as_str());
    assert(text@ =~= title_line(*issue));
    let fg = match style_color_from_hex_str(issue.state.color.as_str()) {
        Some(c) => c,
        None => Color::Green,
    };
    ColoredCell { text, fg: Some(fg) }
}

/// The line the label list is scrolled to at `scroll_tick`: with several
/// labels it moves on every third tick and starts over after the
/// next-to-last label, taken as a `u16` as it is handed to the paragraph.
pub open spec fn label_scroll_line(scroll_tick: u64, num_labels: u64) -> u16 {
    if num_labels > 1 {
        (((scroll_tick / 3) % ((num_labels - 1) as u64)) % 0x10000) as u16
    } else {
        0
    }
}

pub fn label_scroll(scroll_tick: u64, num_labels: u64) -> (r: u16)
    ensures
        r == label_scroll_line(scroll_tick, num_labels),
{
    if num_labels > 1 {
        let line: u64 = (scroll_tick / 3) % (num_labels - 1);
        (line % 0x10000) as u16
    } else {
        0
    }
}

/// A label as the list shows it: its name (nothing when it has none) in its
/// color.
pub open spec fn label_cell(label: Label, cell: ColoredCell) -> bool {
    &&& cell.text@ == match label.name {
        Some(n) => n@,
        None => Seq::<char>::empty(),
    }
    &&& cell.fg == match label.color {
        Some(c) => color_of_hex(c@),
        None => None,
    }
}

/// The labels of an issue, each in its color.
pub fn issue_labels(issue: &Issue) -> (r: Vec<ColoredCell>)
    ensures
        r@.len() == issue.labels@.len(),
        forall|i: int| 0 <= i < r@.len() ==> label_cell(issue.labels@[i], #[trigger] r@[i]),
{
    let mut r: Vec<ColoredCell> = Vec::new();
    let mut i: usize = 0;
    while i < issue.labels.len()
        invariant
            i <= issue.labels@.len(),
            r@.len() == i,
            forall|j: int| 0 <= j < i ==> label_cell(issue.labels@[j], #[trigger] r@[j]),
        decreases issue.labels@.len() - i,
    {
        let label = &issue.labels[i];
        let text = match &label.name {
            Some(n) => n.clone(),
            None => String::new(),
        };
        let fg = match &label.color {
            Some(c) => style_color_from_hex_str(c.as_str()),
            None => None,
        };
        r.push(ColoredCell { text, fg });
        i = i + 1;
    }
    r
}

/// The fields shown beside an issue's description, in order: assignee,
/// creator, state, priority, cycle and project, each under its heading.
pub struct IssueFields {
    pub assignee: String,
    pub creator: String,
    pub state: ColoredCell,
    pub priority: String,
    pub cycle: String,
    pub project: ColoredCell,
}

/// The text of an optional name: the name, or nothing.
pub open spec fn name_or_empty(n: Option<String>) -> Seq<char> {
    match n {
        Some(s) => s@,
        None => Seq::<char>::empty(),
    }
}

fn text_or_empty(n: &Option<String>) -> (r: String)
    ensures
        r@ == name_or_empty(*n),
{
    match n {
        Some(s) => s.clone(),
        None => String::new(),
    }
}

/// What an issue's fields show: the display names of its assignee and
/// creator, its state's name in the state's color, its priority, its
/// cycle's name and its project's name in the project's color (nothing
/// where the issue has none).
pub open spec fn fields_of(issue: Issue, f: IssueFields) -> bool {
    &&& f.assignee@ == match issue.assignee {
        Some(u) => name_or_empty(u.display_name),
        None => Seq::<char>::empty(),
    }
    &&& f.creator@ == match issue.creator {
        Some(u) => name_or_empty(u.display_name),
        None => Seq::<char>::empty(),
    }
    &&& f.state.text@ == issue.state.name@
    &&& f.state.fg == color_of_hex(issue.state.color@)
    &&& f.priority@ == signed_decimal(issue.priority as int)
    &&& f.cycle@ == name_or_empty(issue.cycle.name)
    &&& f.project.text@ == match issue.project {
        Some(p) => name_or_empty(p.name),
        None => Seq::<char>::empty(),
    }
    &&& f.project.fg == match issue.project {
        Some(p) => match p.color {
            Some(c) => color_of_hex(c@),
            None => None,
        },
        None => None,
    }
}

pub fn issue_fields(issue: &Issue) -> (r: IssueFields)
    ensures
        fields_of(*issue, r),
{
    let assignee = match &issue.assignee {
        Some(u) => text_or_empty(&u.display_name),
        None => String::new(),
    };
    let creator = match &issue.creator {
        Some(u) => text_or_empty(&u.display_name),
        None => String::new(),
    };
    let state = ColoredCell {
        text: issue.state.name.clone(),
        fg: style_color_from_hex_str(issue.state.color.as_str()),
    };
    let project = match &issue.project {
        Some(p) => ColoredCell {
            text: text_or_empty(&p.name),
            fg: match &p.color {
                Some(c) => style_color_from_hex_str(c.as_str()),
                None => None,
            },
        },
        None => ColoredCell { text: String::new(), fg: None },
    };
    IssueFields {
        assignee,
        creator,
        state,
        priority: i64_to_decimal(issue.priority),
        cycle: text_or_empty(&issue.cycle.name),
        project,
    }
}

} // verus!
