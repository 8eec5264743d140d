use rust_cli::graphql::error::GraphQLError;
use rust_cli::util::event::LoopCounters;
use rust_cli::util::ui::{can_center, can_lay_out_views};
use rust_cli::app::Platform;
use rust_cli::command::Key;
use rust_cli::constants::table_columns::{
    assignee_select_columns, view_panel_columns, workflow_state_select_columns, TableColumn,
};
use rust_cli::util::cursor::{is_exhausted, GraphQLCursor};
use rust_cli::util::event::{key_press_events, Event};
use rust_cli::util::layout::{
    can_format_str_with_wrap, format_str_with_wrap, get_col_spacing, try_format_str_with_wrap,
    try_widths_from_rect, widths_from_rect,
};
use rust_cli::util::loader::loader_from_state;
use rust_cli::util::query::{check_linear_cursor, linear_after_from_opt};
use rust_cli::util::state_list::{self, ListState};
use rust_cli::util::state_table::{self, TableState};
use rust_cli::util::str::set_str_end_as_ellipsis;
use rust_cli::util::table::{
    colored_cell, empty_str_to_fallback, format_cell_fields, gen_table_title_spans, get_row_height,
    row_min_render_height, title_color, try_format_cell_fields, u16_to_decimal, TableStyle,
};
use rust_cli::util::ui::{
    append_reversed, centered_percentages, centered_rect, column_percentages, hex_str_from_style_color,
    row_percentages, style_color_from_hex_str, view_layout, Color, Rect,
};

fn cursor(platform: Platform, has_next_page: bool, end: Option<&str>) -> GraphQLCursor {
    GraphQLCursor { platform, has_next_page, end_cursor: end.map(String::from) }
}

#[test]
fn table_state_next_wraps_to_first_row() {
    let items = vec![1, 2, 3];
    let mut s = TableState::default();
    state_table::next(&mut s, &items);
    assert_eq!(s.selected(), Some(0));
    state_table::next(&mut s, &items);
    state_table::next(&mut s, &items);
    assert_eq!(s.selected(), Some(2));
    state_table::next(&mut s, &items);
    assert_eq!(s.selected(), Some(0));
}

#[test]
fn table_state_previous_wraps_to_last_row() {
    let items = vec!["a", "b", "c"];
    let mut s = TableState::default();
    state_table::previous(&mut s, &items);
    assert_eq!(s.selected(), Some(0));
    state_table::previous(&mut s, &items);
    assert_eq!(s.selected(), Some(2));
    state_table::unselect(&mut s);
    assert_eq!(s.selected(), None);
}

#[test]
fn table_state_next_then_previous_returns() {
    let items = vec![10, 20, 30, 40];
    for start in 0..4 {
        let mut s = TableState { selected: Some(start) };
        state_table::next(&mut s, &items);
        state_table::previous(&mut s, &items);
        assert_eq!(s.selected(), Some(start));
    }
}

#[test]
fn table_state_with_next_and_last_element() {
    let items = vec![1, 2];
    let s = TableState { selected: Some(1) };
    assert!(state_table::is_last_element(&s, &items));
    let n = state_table::with_next(&s, &items);
    assert_eq!(n.selected, Some(0));
    assert!(!state_table::is_last_element(&n, &items));
    let p = state_table::with_previous(&n, &items);
    assert_eq!(p.selected, Some(1));
}

#[test]
fn list_state_moves_and_unselects() {
    let items = ["Modify Dashboard"];
    let mut s = ListState::default();
    assert_eq!(s.selected(), None);
    state_list::next(&mut s, &items);
    assert_eq!(s.selected(), Some(0));
    state_list::next(&mut s, &items);
    assert_eq!(s.selected(), Some(0));
    state_list::previous(&mut s, &items);
    assert_eq!(s.selected(), Some(0));
    state_list::unselect(&mut s);
    assert_eq!(s.selected(), None);
}

#[test]
fn loader_glyphs() {
    assert_eq!(loader_from_state(false, 0), '✓');
    assert_eq!(loader_from_state(false, 2), '✓');
    assert_eq!(loader_from_state(true, 0), '◐');
    assert_eq!(loader_from_state(true, 1), '◓');
    assert_eq!(loader_from_state(true, 2), '◑');
}

#[test]
fn ellipsis_replaces_last_two_kept_graphemes() {
    assert_eq!(set_str_end_as_ellipsis("hello world", 5), Some(String::from("hel..")));
    assert_eq!(set_str_end_as_ellipsis("abc", 10), Some(String::from("a..")));
    assert_eq!(set_str_end_as_ellipsis("ab", 2), Some(String::from("..")));
    assert_eq!(set_str_end_as_ellipsis("a", 5), None);
    assert_eq!(set_str_end_as_ellipsis("hello", 1), None);
    assert_eq!(set_str_end_as_ellipsis("", 3), None);
}

#[test]
fn ellipsis_counts_graphemes_not_chars() {
    // "e" followed by a combining accent is one grapheme.
    let s = "e\u{301}bcd";
    assert_eq!(set_str_end_as_ellipsis(s, 3), Some(String::from("e\u{301}..")));
}

#[test]
fn col_spacing_only_between_columns() {
    assert_eq!(get_col_spacing(0, 3), 1);
    assert_eq!(get_col_spacing(1, 3), 1);
    assert_eq!(get_col_spacing(2, 3), 0);
    assert_eq!(get_col_spacing(0, 1), 0);
}

#[test]
fn widths_of_view_panel_columns() {
    let cols = view_panel_columns();
    assert_eq!(widths_from_rect(100, &cols), vec![8, 26, 17, 26, 18]);
    assert_eq!(widths_from_rect(50, &cols), vec![4, 13, 8, 12, 9]);
}

#[test]
fn widths_of_selection_columns() {
    let ws = workflow_state_select_columns();
    assert_eq!(widths_from_rect(100, &ws), vec![28, 28, 42]);
    assert_eq!(widths_from_rect(30, &ws), vec![8, 8, 12]);
    let asg = assignee_select_columns();
    assert_eq!(widths_from_rect(100, &asg), vec![49, 50]);
    assert_eq!(widths_from_rect(20, &asg), vec![7, 12]);
}

#[test]
fn widths_refused_where_a_share_is_below_its_spacing() {
    let cols = view_panel_columns();
    assert_eq!(try_widths_from_rect(0, &cols), None);
    assert_eq!(try_widths_from_rect(100, &cols), Some(vec![8, 26, 17, 26, 18]));
}

#[test]
fn widths_keep_minimums_when_space_allows() {
    let cols = vec![
        TableColumn { label: "A", null_fallback: "", min_width: 10, max_height: 1, priority: 1 },
        TableColumn { label: "B", null_fallback: "", min_width: 3, max_height: 1, priority: 9 },
    ];
    // A's share (2) is below its minimum, so it keeps its minimum width.
    assert_eq!(widths_from_rect(20, &cols), vec![10, 9]);
    // The widths never add up to more than the box.
    for w in [0u16, 5, 20, 57, 300] {
        if let Some(ws) = try_widths_from_rect(w, &cols) {
            assert!(ws.iter().map(|x| *x as u32).sum::<u32>() <= w as u32);
        }
    }
}

#[test]
fn wrap_format_without_overflow_joins_the_lines() {
    assert_eq!(format_str_with_wrap("ab cd", 10, 2), "ab cd");
    assert_eq!(format_str_with_wrap("hello world", 5, 3), "hello\nworld");
    // Text that fits exactly gets height - 1 line breaks.
    assert_eq!(format_str_with_wrap("hello world", 5, 2), "hello\nworld");
}

#[test]
fn wrap_format_compacts_and_truncates_overflow() {
    assert_eq!(format_str_with_wrap("hello world foo", 5, 2), "hello\nwor..");
}

#[test]
fn wrap_format_needs_a_line_for_content() {
    assert!(!can_format_str_with_wrap("text", 10, 0));
    assert_eq!(try_format_str_with_wrap("text", 10, 0), None);
    // Even empty text wraps to one (empty) line.
    assert!(!can_format_str_with_wrap("", 10, 0));
    assert_eq!(format_str_with_wrap("", 10, 1), "");
    assert_eq!(try_format_str_with_wrap("text", 10, 1), Some(String::from("text")));
}

#[test]
fn empty_cells_take_the_column_fallback() {
    let cols = vec![
        TableColumn { label: "Name", null_fallback: "", min_width: 4, max_height: 2, priority: 2 },
        TableColumn { label: "Team", null_fallback: "All Teams", min_width: 4, max_height: 2, priority: 1 },
    ];
    assert_eq!(empty_str_to_fallback(&["view", ""], &cols), vec![String::from("view"), String::from("All Teams")]);
    assert_eq!(empty_str_to_fallback(&["", "team"], &cols), vec![String::new(), String::from("team")]);
}

#[test]
fn row_height_counts_line_breaks() {
    assert_eq!(get_row_height(&[]), 1);
    assert_eq!(get_row_height(&[String::from("a"), String::from("b")]), 0);
    assert_eq!(get_row_height(&[String::from("a\nb\n"), String::from("c\n")]), 2);
}

#[test]
fn min_render_height_caps_lines_by_column() {
    let cols = vec![
        TableColumn { label: "A", null_fallback: "", min_width: 1, max_height: 2, priority: 1 },
        TableColumn { label: "B", null_fallback: "", min_width: 1, max_height: 5, priority: 1 },
    ];
    let cells = vec![String::from("one two three four"), String::from("x")];
    assert_eq!(row_min_render_height(&cells, &[3, 10], &cols), 2);
    let cells = vec![String::from("x"), String::from("one two three")];
    assert_eq!(row_min_render_height(&cells, &[3, 3], &cols), 4);
    assert_eq!(row_min_render_height(&[], &[], &cols), 0);
}

#[test]
fn cell_fields_are_wrapped_to_the_uniform_height() {
    let cols = vec![
        TableColumn { label: "A", null_fallback: "", min_width: 1, max_height: 1, priority: 1 },
        TableColumn { label: "B", null_fallback: "", min_width: 1, max_height: 3, priority: 1 },
    ];
    let cells = vec![String::from("hello world"), String::from("hello world")];
    let out = format_cell_fields(&cells, &[5, 5], &cols, Some(2));
    assert_eq!(out, vec![String::from("hello\nworld"), String::from("hello\nworld")]);
    let out = format_cell_fields(&cells, &[5, 5], &cols, None);
    assert_eq!(out, vec![String::from("hel.."), String::from("hello\nworld")]);
    assert_eq!(try_format_cell_fields(&cells, &[5, 5], &cols, Some(0)), None);
}

#[test]
fn decimal_text_of_u16() {
    assert_eq!(u16_to_decimal(0), "0");
    assert_eq!(u16_to_decimal(7), "7");
    assert_eq!(u16_to_decimal(305), "305");
    assert_eq!(u16_to_decimal(65535), "65535");
}

#[test]
fn table_title_pieces() {
    let style = TableStyle {
        title_style: Some((String::from("My View"), String::from("#ff0000"))),
        row_bottom_margin: None,
        view_idx: Some(3),
        highlight_table: false,
        loading: true,
        loader_state: 1,
    };
    let spans = gen_table_title_spans(&style);
    let texts: Vec<&str> = spans.iter().map(|p| p.text.as_str()).collect();
    assert_eq!(texts, vec!["#3 - ", "◓ - ", "My View"]);
    assert!(!spans[0].bold && spans[0].fg.is_none() && !spans[1].bold && spans[1].fg.is_none());
    assert!(spans[2].bold);
    assert_eq!(spans[2].fg, Some(Color::Rgb(255, 0, 0)));
    assert_eq!(title_color(&style), Color::Rgb(255, 0, 0));
    let plain = TableStyle {
        title_style: None,
        row_bottom_margin: None,
        view_idx: None,
        highlight_table: false,
        loading: false,
        loader_state: 0,
    };
    let spans = gen_table_title_spans(&plain);
    assert_eq!(spans.len(), 1);
    assert_eq!(spans[0].text, "Table");
    assert!(!spans[0].bold && spans[0].fg.is_none());
    assert_eq!(title_color(&plain), Color::White);
}

#[test]
fn title_without_view_number_or_with_bad_color() {
    let style = TableStyle {
        title_style: Some((String::from("T"), String::from("not a color"))),
        row_bottom_margin: Some(1),
        view_idx: None,
        highlight_table: true,
        loading: false,
        loader_state: 0,
    };
    let spans = gen_table_title_spans(&style);
    let texts: Vec<&str> = spans.iter().map(|p| p.text.as_str()).collect();
    assert_eq!(texts, vec!["", "✓ - ", "T"]);
    // A title whose color cannot be read is drawn white.
    assert_eq!(spans[2].fg, Some(Color::White));
    assert_eq!(title_color(&style), Color::White);
}

#[test]
fn hex_colors_parse_and_print() {
    assert_eq!(style_color_from_hex_str("#5e6ad2"), Some(Color::Rgb(0x5e, 0x6a, 0xd2)));
    assert_eq!(style_color_from_hex_str("fff"), Some(Color::Rgb(255, 255, 255)));
    assert_eq!(style_color_from_hex_str("#zzzzzz"), None);
    assert_eq!(style_color_from_hex_str(""), None);
    assert_eq!(hex_str_from_style_color(&Color::Rgb(0x5e, 0x6a, 0xd2)), Some(String::from("#5e6ad2")));
    assert_eq!(hex_str_from_style_color(&Color::Rgb(0, 10, 255)), Some(String::from("#000aff")));
    assert_eq!(hex_str_from_style_color(&Color::Green), None);
    assert_eq!(hex_str_from_style_color(&Color::Indexed(3)), None);
    // colorsys's own cases: '#' anywhere, three digits doubled, any case.
    assert_eq!(style_color_from_hex_str("#777"), Some(Color::Rgb(119, 119, 119)));
    assert_eq!(style_color_from_hex_str("F7b3aA"), Some(Color::Rgb(247, 179, 170)));
    assert_eq!(style_color_from_hex_str("0000"), None);
    assert_eq!(style_color_from_hex_str("#000000a"), None);
    assert_eq!(style_color_from_hex_str("ffccfg"), None);
    assert_eq!(style_color_from_hex_str("Magenta"), None);
    // Printing and reading back gives the color.
    for (r, g, b) in [(0u8, 0u8, 0u8), (1, 128, 255), (0x5e, 0x6a, 0xd2)] {
        let h = hex_str_from_style_color(&Color::Rgb(r, g, b)).unwrap();
        assert_eq!(style_color_from_hex_str(&h), Some(Color::Rgb(r, g, b)));
    }
}

#[test]
fn colored_cells_carry_the_named_color() {
    let c = colored_cell(String::from("Todo"), "#00ff00");
    assert_eq!(c.text, "Todo");
    assert_eq!(c.fg, Some(Color::Rgb(0, 255, 0)));
    let d = colored_cell(String::from("Done"), "green");
    assert_eq!(d.fg, None);
}

#[test]
fn centered_band_percentages() {
    assert_eq!(centered_percentages(40), vec![30, 40, 30]);
    assert_eq!(centered_percentages(50), vec![25, 50, 25]);
    assert_eq!(centered_percentages(100), vec![0, 100, 0]);
}

#[test]
fn centered_rect_stays_inside() {
    let r = Rect { x: 0, y: 0, width: 100, height: 40 };
    let c = centered_rect(40, 40, r);
    assert!(c.x + c.width <= 100);
    assert!(c.y + c.height <= 40);
    assert_eq!(c, Rect { x: 30, y: 12, width: 40, height: 16 });
    let r = Rect { x: 10, y: 5, width: 100, height: 40 };
    let c = centered_rect(40, 40, r);
    assert!(c.x >= 10 && c.y >= 5);
    assert!(c.x + c.width <= 110 && c.y + c.height <= 45);
}

#[test]
fn grid_percentages() {
    assert_eq!(row_percentages(1), vec![100]);
    assert_eq!(row_percentages(4), vec![50, 50]);
    assert_eq!(row_percentages(5), vec![33, 33, 33]);
    assert_eq!(column_percentages(1), vec![100]);
    assert_eq!(column_percentages(2), vec![50, 50]);
}

#[test]
fn append_reversed_puts_last_piece_first() {
    let a = Rect { x: 0, y: 0, width: 1, height: 1 };
    let b = Rect { x: 1, y: 0, width: 1, height: 1 };
    let c = Rect { x: 2, y: 0, width: 1, height: 1 };
    let mut out = vec![a];
    append_reversed(&mut out, &vec![b, c]);
    assert_eq!(out, vec![a, c, b]);
}

#[test]
fn view_layout_gives_one_area_per_view() {
    let r = Rect { x: 0, y: 0, width: 100, height: 60 };
    assert_eq!(view_layout(0, r).len(), 0);
    for n in 1..=6 {
        assert_eq!(view_layout(n, r).len(), n);
    }
    // Four views: the list starts with the bottom right area and ends with
    // the top left one, which the first panel takes.
    let areas = view_layout(4, r);
    assert_eq!(areas[3], Rect { x: 0, y: 0, width: 50, height: 30 });
    assert_eq!(areas[0], Rect { x: 50, y: 30, width: 50, height: 30 });
    // Three views: the top row holds one; popping gives reading order.
    let mut areas = view_layout(3, Rect { x: 0, y: 0, width: 100, height: 40 });
    assert_eq!(areas.pop(), Some(Rect { x: 0, y: 0, width: 100, height: 20 }));
    assert_eq!(areas.pop(), Some(Rect { x: 0, y: 20, width: 50, height: 20 }));
    assert_eq!(areas.pop(), Some(Rect { x: 50, y: 20, width: 50, height: 20 }));
    assert_eq!(areas.pop(), None);
}

#[test]
fn exhausted_cursors() {
    assert!(is_exhausted(&cursor(Platform::Linear, false, None)));
    assert!(!is_exhausted(&cursor(Platform::Linear, true, Some("x"))));
    assert!(!is_exhausted(&cursor(Platform::Na, false, None)));
    assert_eq!(GraphQLCursor::default().platform, Platform::Na);
    let c = GraphQLCursor::with_platform(Platform::Linear);
    assert!(!c.has_next_page);
    assert_eq!(c.end_cursor, None);
}

#[test]
fn linear_after_cursor() {
    assert_eq!(linear_after_from_opt(&None), None);
    assert_eq!(linear_after_from_opt(&Some(cursor(Platform::Linear, true, Some("abc")))), Some(String::from("abc")));
    assert_eq!(linear_after_from_opt(&Some(cursor(Platform::Linear, false, Some("abc")))), None);
    assert_eq!(linear_after_from_opt(&Some(cursor(Platform::Github, true, Some("abc")))), None);
    assert_eq!(linear_after_from_opt(&Some(cursor(Platform::Na, true, Some("abc")))), None);
}

#[test]
fn cursors_of_other_platforms_are_refused() {
    assert!(check_linear_cursor(&None).is_ok());
    assert!(check_linear_cursor(&Some(cursor(Platform::Na, false, None))).is_ok());
    assert!(check_linear_cursor(&Some(cursor(Platform::Linear, true, Some("a")))).is_ok());
    let err = check_linear_cursor(&Some(cursor(Platform::Github, true, Some("g")))).unwrap_err();
    assert_eq!(err.platform, Platform::Github);
    assert!(err.has_next_page);
}

#[test]
fn key_presses_and_the_exit_key() {
    let q = Key::Char('q');
    assert_eq!(key_press_events(q, q, false), vec![Event::Input(q), Event::Quit]);
    assert_eq!(key_press_events(q, q, true), vec![Event::Input(q)]);
    assert_eq!(key_press_events(Key::Char('a'), q, false), vec![Event::Input(Key::Char('a'))]);
}

#[test]
fn loop_counters_wrap_and_clear() {
    let mut c = LoopCounters::new();
    c.on_tick();
    c.on_tick();
    assert_eq!(c.loader_tick, 2);
    c.on_tick();
    assert_eq!(c.loader_tick, 0);
    assert_eq!(c.scroll_tick, 3);
    assert_eq!(c.idle, 3);
    let mut cmd = String::from("x");
    let mut k = LoopCounters::new();
    k.on_key(&mut cmd, false);
    k.on_key(&mut cmd, false);
    k.on_key(&mut cmd, false);
    assert_eq!(cmd, "x");
    k.on_key(&mut cmd, false);
    assert_eq!(cmd, "");
    assert_eq!(k.idle, 4);
    let mut cmd = String::from("q");
    k.on_key(&mut cmd, true);
    assert_eq!(k.idle, 0);
    assert_eq!(cmd, "");
    let mut t = LoopCounters { idle: 100, loader_tick: 0, scroll_tick: 0 };
    t.on_tick();
    assert_eq!(t.idle, 100);
}

#[test]
fn layout_checks() {
    let small = Rect { x: 0, y: 0, width: 100, height: 40 };
    assert!(can_center(40, 40, small));
    assert!(!can_center(101, 40, small));
    let wide = Rect { x: 0, y: 0, width: 2000, height: 40 };
    assert!(!can_center(40, 40, wide));
    assert!(can_lay_out_views(0, wide));
    assert!(can_lay_out_views(4, Rect { x: 0, y: 0, width: 1000, height: 50 }));
    assert!(!can_lay_out_views(3, Rect { x: 0, y: 0, width: 1000, height: 50 }));
    assert!(can_lay_out_views(3, Rect { x: 0, y: 0, width: 600, height: 50 }));
}

#[test]
fn graphql_errors_keep_their_cause() {
    let e = GraphQLError::from(std::io::Error::new(std::io::ErrorKind::Other, "closed"));
    assert!(matches!(e, GraphQLError::Io(ref inner) if inner.to_string() == "closed"));
    let bad: Result<u32, serde_json::Error> = serde_json::from_str("not json");
    let e: GraphQLError = bad.unwrap_err().into();
    assert!(matches!(e, GraphQLError::SerdeJson(_)));
}
