use slumber_core::body::Body;
use slumber_core::notification::Notification;
use slumber_core::select::{
    FixedSelect, PrimaryPane, RequestTab, ResponseTab, StatefulList, StatefulSelect,
};
use slumber_core::state_cell::StateCell;
use slumber_core::text_window::{
    clip_width, symbol_widths, Action, ScrollbarMargins, TextWindow, Update,
};
use slumber_core::time::{Duration, Timestamp};

fn window() -> TextWindow {
    // Five lines, the longest 21 columns wide, in a window of 7 by 3
    let mut window = TextWindow::default();
    window.resize(21, 5, 7, 3);
    window
}

#[test]
fn scroll_limits() {
    let window = window();
    assert_eq!(window.max_scroll_line(), 2);
    assert_eq!(window.max_scroll_column(), 14);
    assert!(window.has_vertical_scroll());
    assert!(window.has_horizontal_scroll());
    let empty = TextWindow::default();
    assert_eq!(empty.max_scroll_line(), 0);
    assert_eq!(empty.max_scroll_column(), 0);
    assert!(!empty.has_vertical_scroll());
    assert!(!empty.has_horizontal_scroll());
    let mut roomy = TextWindow::default();
    roomy.resize(3, 2, 10, 10);
    assert_eq!(roomy.max_scroll_line(), 0);
    assert_eq!(roomy.max_scroll_column(), 0);
}

#[test]
fn scroll_up_and_down() {
    let mut window = window();
    window.scroll_down(1);
    assert_eq!(window.offset_y, 1);
    window.scroll_down(5);
    assert_eq!(window.offset_y, 2);
    window.scroll_down(usize::MAX);
    assert_eq!(window.offset_y, 2);
    window.scroll_up(1);
    assert_eq!(window.offset_y, 1);
    window.scroll_up(1);
    window.scroll_up(1);
    assert_eq!(window.offset_y, 0);
    assert_eq!(window.offset_x, 0);
}

#[test]
fn scroll_left_and_right() {
    let mut window = window();
    window.scroll_right(3);
    assert_eq!(window.offset_x, 3);
    window.scroll_right(100);
    assert_eq!(window.offset_x, 14);
    window.scroll_left(4);
    assert_eq!(window.offset_x, 10);
    window.scroll_left(usize::MAX);
    assert_eq!(window.offset_x, 0);
    assert_eq!(window.offset_y, 0);
}

#[test]
fn scroll_to_line() {
    let mut window = window();
    window.scroll_to(1);
    assert_eq!(window.offset_y, 1);
    window.scroll_to(usize::MAX);
    assert_eq!(window.offset_y, 2);
    window.scroll_to(0);
    assert_eq!(window.offset_y, 0);
}

#[test]
fn shrinking_text_clamps_the_scroll() {
    let mut window = window();
    window.scroll_down(2);
    window.scroll_right(10);
    assert_eq!(window.offset_x, 10);
    assert_eq!(window.offset_y, 2);

    window.resize(15, 4, 7, 3);
    assert_eq!(window.offset_x, 8);
    assert_eq!(window.offset_y, 1);
}

#[test]
fn growing_window_clamps_the_scroll() {
    let mut window = window();
    window.scroll_down(2);
    window.scroll_right(10);
    assert_eq!(window.offset_x, 10);
    assert_eq!(window.offset_y, 2);

    window.resize(21, 5, 13, 4);
    assert_eq!(window.offset_x, 8);
    assert_eq!(window.offset_y, 1);
}

#[test]
fn clamp_scroll_by_hand() {
    let mut window = window();
    window.offset_x = 100;
    window.offset_y = 100;
    window.clamp_scroll();
    assert_eq!(window.offset_x, 14);
    assert_eq!(window.offset_y, 2);
    window.clamp_scroll();
    assert_eq!(window.offset_x, 14);
    assert_eq!(window.offset_y, 2);
}

#[test]
fn actions_move_the_window() {
    let mut window = window();
    assert_eq!(window.update(Some(Action::Down)), Update::Consumed);
    assert_eq!(window.offset_y, 1);
    assert_eq!(window.update(Some(Action::ScrollDown)), Update::Consumed);
    assert_eq!(window.offset_y, 2);
    assert_eq!(window.update(Some(Action::Up)), Update::Consumed);
    assert_eq!(window.update(Some(Action::ScrollUp)), Update::Consumed);
    assert_eq!(window.update(Some(Action::Up)), Update::Consumed);
    assert_eq!(window.offset_y, 0);
    assert_eq!(window.update(Some(Action::ScrollRight)), Update::Consumed);
    assert_eq!(window.offset_x, 1);
    assert_eq!(window.update(Some(Action::ScrollLeft)), Update::Consumed);
    assert_eq!(window.update(Some(Action::ScrollLeft)), Update::Consumed);
    assert_eq!(window.offset_x, 0);
    assert_eq!(window.update(Some(Action::End)), Update::Consumed);
    assert_eq!(window.offset_y, 2);
    assert_eq!(window.update(Some(Action::Home)), Update::Consumed);
    assert_eq!(window.offset_y, 0);
}

#[test]
fn paging_moves_by_the_window_height() {
    let mut window = TextWindow::default();
    window.resize(10, 20, 10, 4);
    assert_eq!(window.update(Some(Action::PageDown)), Update::Consumed);
    assert_eq!(window.offset_y, 4);
    for _ in 0..10 {
        window.update(Some(Action::PageDown));
    }
    assert_eq!(window.offset_y, 16);
    assert_eq!(window.update(Some(Action::PageUp)), Update::Consumed);
    assert_eq!(window.offset_y, 12);
    for _ in 0..10 {
        window.update(Some(Action::PageUp));
    }
    assert_eq!(window.offset_y, 0);
}

#[test]
fn other_inputs_are_passed_on() {
    let mut window = window();
    window.scroll_down(1);
    let before = window;
    for action in [Action::Left, Action::Right, Action::Submit, Action::Cancel] {
        assert_eq!(window.update(Some(action)), Update::Propagate);
        assert_eq!(window, before);
    }
    assert_eq!(window.update(None), Update::Propagate);
    assert_eq!(window, before);
}

#[test]
fn visible_lines_and_gutter() {
    let mut window = window();
    assert_eq!(window.visible_lines(), (0, 3));
    window.scroll_down(2);
    assert_eq!(window.visible_lines(), (2, 5));
    assert_eq!(window.gutter_width(), 1);
    let mut roomy = TextWindow::default();
    roomy.resize(3, 2, 10, 10);
    assert_eq!(roomy.visible_lines(), (0, 2));
    for (height, width) in [(0, 1), (9, 1), (10, 2), (99, 2), (100, 3), (12345, 5)] {
        let mut window = TextWindow::default();
        window.resize(1, height, 1, 1);
        assert_eq!(window.gutter_width(), width);
    }
    let mut huge = TextWindow::default();
    huge.resize(1, usize::MAX, 1, 1);
    assert_eq!(huge.gutter_width() as usize, usize::MAX.to_string().len());
}

#[test]
fn default_margins() {
    assert_eq!(ScrollbarMargins::default(), ScrollbarMargins { right: 1, bottom: 1 });
}

#[test]
fn list_selects_the_first_item() {
    let list = StatefulList::with_items(vec!["a", "b", "c"]);
    assert_eq!(list.selected(), Some(&"a"));
    assert_eq!(list.selected_index(), Some(0));
    assert_eq!(list.len(), 3);
    let empty: StatefulList<u8> = StatefulList::with_items(vec![]);
    assert_eq!(empty.selected(), None);
    assert_eq!(empty.selected_index(), None);
    assert_eq!(empty.len(), 0);
}

#[test]
fn list_cycles() {
    let mut list = StatefulList::with_items(vec!["a", "b", "c"]);
    list.next();
    assert_eq!(list.selected(), Some(&"b"));
    list.next();
    list.next();
    assert_eq!(list.selected(), Some(&"a"));
    list.previous();
    assert_eq!(list.selected(), Some(&"c"));
    list.previous();
    assert_eq!(list.selected(), Some(&"b"));
    list.select(None);
    assert_eq!(list.selected(), None);
    list.previous();
    assert_eq!(list.selected(), Some(&"a"));
    list.select(None);
    list.next();
    assert_eq!(list.selected(), Some(&"a"));
    list.select(Some(10));
    assert_eq!(list.selected(), None);
}

#[test]
fn empty_list_selects_a_position_without_an_item() {
    let mut list: StatefulList<u8> = StatefulList::with_items(vec![]);
    list.next();
    assert_eq!(list.selected_index(), Some(0));
    assert_eq!(list.selected(), None);
}

#[test]
fn panes_cycle() {
    let mut panes: StatefulSelect<PrimaryPane> = StatefulSelect::new();
    assert_eq!(panes.selected_index(), 1);
    assert_eq!(panes.selected(), &PrimaryPane::RecipeList);
    assert!(panes.is_selected(&PrimaryPane::RecipeList));
    assert!(!panes.is_selected(&PrimaryPane::Request));
    assert!(panes.previous());
    assert_eq!(panes.selected(), &PrimaryPane::ProfileList);
    assert!(panes.previous());
    assert_eq!(panes.selected(), &PrimaryPane::Response);
    assert!(panes.next());
    assert_eq!(panes.selected(), &PrimaryPane::ProfileList);
    assert!(panes.next());
    assert!(panes.next());
    assert_eq!(panes.selected(), &PrimaryPane::Request);
    assert_eq!(panes.selected_index(), 2);
}

#[test]
fn tabs_cycle() {
    let mut tabs: StatefulSelect<RequestTab> = StatefulSelect::default();
    assert_eq!(tabs.selected(), &RequestTab::Body);
    tabs.previous();
    assert_eq!(tabs.selected(), &RequestTab::Headers);
    tabs.next();
    tabs.next();
    assert_eq!(tabs.selected(), &RequestTab::Query);
    let mut tabs: StatefulSelect<ResponseTab> = StatefulSelect::new();
    assert_eq!(tabs.selected(), &ResponseTab::Body);
    tabs.next();
    assert_eq!(tabs.selected(), &ResponseTab::Headers);
    tabs.next();
    assert_eq!(tabs.selected(), &ResponseTab::Body);
}

#[test]
fn fixed_select_values() {
    assert_eq!(
        PrimaryPane::values(),
        vec![
            PrimaryPane::ProfileList,
            PrimaryPane::RecipeList,
            PrimaryPane::Request,
            PrimaryPane::Response
        ]
    );
    assert_eq!(PrimaryPane::default_index(), 1);
    assert_eq!(RequestTab::default_index(), 0);
    assert_eq!(ResponseTab::default_index(), 0);
    for (i, pane) in PrimaryPane::values().iter().enumerate() {
        assert_eq!(pane.index(), i);
    }
    for (i, tab) in RequestTab::values().iter().enumerate() {
        assert_eq!(tab.index(), i);
    }
    for (i, tab) in ResponseTab::values().iter().enumerate() {
        assert_eq!(tab.index(), i);
    }
    assert_eq!(PrimaryPane::ProfileList.label(), "Profiles");
    assert_eq!(PrimaryPane::RecipeList.label(), "Recipes");
    assert_eq!(PrimaryPane::Request.label(), "Request");
    assert_eq!(PrimaryPane::Response.label(), "Response");
    assert_eq!(RequestTab::Query.label(), "Query");
    assert_eq!(ResponseTab::Headers.label(), "Headers");
}

#[test]
fn notification_expires_after_five_seconds() {
    let notification = Notification::new_at("saved".to_string(), Timestamp::new(100, 0));
    assert_eq!(notification.message, "saved");
    assert!(!notification.expired_at(Timestamp::new(100, 0)));
    assert!(!notification.expired_at(Timestamp::new(104, 999_999_999)));
    assert!(notification.expired_at(Timestamp::new(105, 0)));
    assert!(notification.expired_at(Timestamp::new(200, 0)));
    assert!(!notification.expired_at(Timestamp::new(0, 0)));
}

#[test]
fn new_notification_is_fresh() {
    let notification = Notification::new("hello".to_string());
    assert_eq!(notification.message, "hello");
    assert!(!notification.expired());
    let old = Notification::new_at("old".to_string(), Timestamp::new(0, 0));
    assert!(old.expired());
}

#[test]
fn time_arithmetic() {
    let start = Timestamp::new(-1, 999_999_999);
    let end = Timestamp::new(1, 1);
    assert_eq!(start.nanos_since_epoch(), -1);
    assert_eq!(end.nanos_since_epoch(), 1_000_000_001);
    assert_eq!(end.duration_since(&start), Duration { nanos: 1_000_000_002 });
    assert_eq!(start.duration_since(&end), Duration { nanos: -1_000_000_002 });
    assert!(start.duration_since(&end).is_negative());
    assert!(end.is_at_or_after(&start));
    assert!(!start.is_at_or_after(&end));
    assert!(start.is_at_or_after(&start));
    assert_eq!(Duration::milliseconds(5000), Duration { nanos: 5_000_000_000 });
    assert_eq!(Duration::milliseconds(-1), Duration { nanos: -1_000_000 });
    let extreme = Timestamp::new(i64::MAX, u32::MAX).duration_since(&Timestamp::new(i64::MIN, 0));
    assert_eq!(
        extreme.nanos,
        (i64::MAX as i128 - i64::MIN as i128) * 1_000_000_000 + u32::MAX as i128
    );
}

#[test]
fn clock_is_past_the_epoch() {
    let now = Timestamp::now();
    assert!(now.is_at_or_after(&Timestamp::new(1_600_000_000, 0)));
}

#[test]
fn text_body() {
    let body = Body::new("hello".to_string());
    assert_eq!(body.text(), "hello");
    assert_eq!(body.into_text(), "hello");
    assert_eq!(Body::default().text(), "");
}

#[test]
fn text_is_as_wide_as_its_widest_line() {
    assert_eq!(TextWindow::width_of_text(&vec![6, 16, 6, 6, 6]), 16);
    assert_eq!(TextWindow::width_of_text(&vec![3]), 3);
    assert_eq!(TextWindow::width_of_text(&vec![0, 0]), 0);
    assert_eq!(TextWindow::width_of_text(&vec![]), 0);
    assert_eq!(TextWindow::width_of_text(&vec![usize::MAX, 1]), usize::MAX);
}

#[test]
fn cells_of_a_plain_line() {
    let mut window = TextWindow::default();
    window.resize(16, 5, 7, 3);
    let widths = vec![1u16; 16];
    assert_eq!(
        window.visible_cells(&widths, 7),
        vec![(0, 0), (1, 1), (2, 2), (3, 3), (4, 4), (5, 5), (6, 6)]
    );
    window.scroll_right(3);
    assert_eq!(
        window.visible_cells(&widths, 7),
        vec![(3, 0), (4, 1), (5, 2), (6, 3), (7, 4), (8, 5), (9, 6)]
    );
    // A short line, scrolled past its end
    assert_eq!(window.visible_cells(&vec![1, 1], 7), vec![]);
    assert_eq!(window.visible_cells(&vec![1, 1, 1, 1], 7), vec![(3, 0)]);
    assert_eq!(window.visible_cells(&vec![], 7), vec![]);
    // An area narrower than the window
    assert_eq!(window.visible_cells(&widths, 2), vec![(3, 0), (4, 1)]);
    assert_eq!(window.visible_cells(&widths, 0), vec![]);
}

#[test]
fn cells_of_wide_symbols() {
    let mut window = TextWindow::default();
    window.resize(12, 1, 8, 1);
    let widths = vec![2u16; 6];
    assert_eq!(
        window.visible_cells(&widths, 8),
        vec![(0, 0), (1, 2), (2, 4), (3, 6)]
    );
    assert_eq!(window.visible_cells(&widths, 7), vec![(0, 0), (1, 2), (2, 4), (3, 6)]);
    assert_eq!(window.visible_cells(&widths, 6), vec![(0, 0), (1, 2), (2, 4)]);
    assert_eq!(
        window.visible_cells(&vec![0, 1, 0, 2, 1], 8),
        vec![(0, 0), (1, 0), (2, 1), (3, 1), (4, 3)]
    );
    assert_eq!(
        window.visible_cells(&vec![u16::MAX, u16::MAX, 1], u16::MAX),
        vec![(0, 0)]
    );
}

#[test]
fn widths_of_symbols() {
    let symbols: Vec<String> = ["a", "\u{1f49a}", "\u{e9}", "", "ab", "\u{4e2d}"]
        .iter()
        .map(|s| s.to_string())
        .collect();
    assert_eq!(symbol_widths(&symbols), vec![1, 2, 1, 0, 2, 2]);
    assert_eq!(symbol_widths(&Vec::new()), Vec::<u16>::new());
    assert_eq!(clip_width(0), 0);
    assert_eq!(clip_width(65535), 65535);
    assert_eq!(clip_width(65536), 65535);
    assert_eq!(clip_width(usize::MAX), 65535);
}

#[test]
fn state_cell_keeps_state_for_the_same_key() {
    let mut cell: StateCell<u32, String> = StateCell::new();
    assert_eq!(cell.get(), None);
    assert_eq!(cell.get_or_update(1, || "one".to_string()), "one");
    assert_eq!(cell.get_or_update(1, || "uno".to_string()), "one");
    assert_eq!(cell.get().map(String::as_str), Some("one"));
    assert_eq!(cell.get_or_update(2, || "two".to_string()), "two");
    assert_eq!(cell.get_or_update(1, || "uno".to_string()), "uno");
}

#[test]
fn state_cell_hands_out_its_state_for_change() {
    let mut cell: StateCell<&str, Vec<u8>> = StateCell::default();
    assert!(cell.get_mut().is_none());
    cell.get_or_update("k", Vec::new);
    cell.get_mut().unwrap().push(7);
    assert_eq!(cell.get(), Some(&vec![7]));
    assert_eq!(cell.get_or_update("k", || vec![1, 2, 3]), &vec![7]);
}

#[test]
fn state_cell_calls_init_only_when_stale() {
    let mut calls = 0;
    let mut cell: StateCell<u8, u8> = StateCell::new();
    for key in [1u8, 1, 1, 2, 2, 1] {
        cell.get_or_update(key, || {
            calls += 1;
            key
        });
    }
    assert_eq!(calls, 3);
}
