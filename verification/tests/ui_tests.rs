use excel_tui::app::{App, Mode};
use excel_tui::control::{handle_key, handle_normal, handle_search, Effect};
use excel_tui::event::{map_key, AppEvent, Key};
use excel_tui::layout::{compute_col_widths, display_width, header_parts, status_line, sync_offsets, truncate, StatusLine};
use excel_tui::table::{Cell, Sheet, TableData};

fn make_app(rows: usize, cols: usize) -> App {
    let rows_data: Vec<Vec<Cell>> = (0..rows)
        .map(|r| (0..cols).map(|c| Cell::Text(format!("r{}c{}", r, c))).collect())
        .collect();
    App::new(TableData::new("t.xlsx", vec![Sheet::new("S", rows_data)]))
}

#[test]
fn key_bindings() {
    assert_eq!(map_key(Key::Char('c'), true), AppEvent::Quit);
    assert_eq!(map_key(Key::Char('s'), true), AppEvent::CtrlS);
    assert_eq!(map_key(Key::Char('r'), true), AppEvent::CtrlR);
    assert_eq!(map_key(Key::Char('r'), false), AppEvent::Char('r'));
    assert_eq!(map_key(Key::Char('q'), false), AppEvent::Quit);
    assert_eq!(map_key(Key::Char('j'), false), AppEvent::ScrollDown);
    assert_eq!(map_key(Key::Down, false), AppEvent::ScrollDown);
    assert_eq!(map_key(Key::Char('G'), false), AppEvent::GotoLastRow);
    assert_eq!(map_key(Key::Char('$'), false), AppEvent::GotoLastCol);
    assert_eq!(map_key(Key::BackTab, false), AppEvent::PrevSheet);
    assert_eq!(map_key(Key::Esc, false), AppEvent::ExitMode);
    assert_eq!(map_key(Key::Char('?'), false), AppEvent::ToggleHelp);
    assert_eq!(map_key(Key::Other, false), AppEvent::Char('\0'));
    assert_eq!(map_key(Key::Char('x'), true), AppEvent::Char('x'));
}

#[test]
fn normal_mode_events() {
    let mut app = make_app(3, 3);
    handle_normal(&mut app, AppEvent::ScrollDown);
    handle_normal(&mut app, AppEvent::ScrollRight);
    assert_eq!((app.cursor_row, app.cursor_col), (1, 1));
    handle_normal(&mut app, AppEvent::GotoLastRow);
    handle_normal(&mut app, AppEvent::GotoFirstCol);
    assert_eq!((app.cursor_row, app.cursor_col), (2, 0));
    handle_normal(&mut app, AppEvent::Char('z'));
    assert_eq!((app.cursor_row, app.cursor_col), (2, 0));
    handle_normal(&mut app, AppEvent::Quit);
    assert!(app.should_quit);
}

#[test]
fn search_mode_events() {
    let mut app = make_app(3, 3);
    handle_normal(&mut app, AppEvent::EnterSearch);
    assert_eq!(app.mode, Mode::Search);
    handle_key(&mut app, Key::Char('R'), false);
    handle_key(&mut app, Key::Char('2'), false);
    assert_eq!(app.search_query, "r2");
    assert_eq!(app.search_hits.len(), 3);
    assert_eq!((app.cursor_row, app.cursor_col), (2, 0));
    handle_search(&mut app, AppEvent::Backspace);
    assert_eq!(app.search_query, "r");
    assert_eq!(app.search_hits.len(), 9);
    handle_key(&mut app, Key::Enter, false);
    assert_eq!(app.mode, Mode::Normal);
    assert_eq!(app.search_hits.len(), 9);
}

#[test]
fn widths_of_text() {
    assert_eq!(display_width("abc"), 3);
    assert_eq!(display_width("日本"), 4);
    assert_eq!(display_width(""), 0);
}

#[test]
fn truncate_pads_or_cuts() {
    assert_eq!(truncate("ab", 4), "ab  ");
    assert_eq!(truncate("abcdef", 4), "abc…");
    assert_eq!(truncate("日本語", 4), "日 …");
    assert_eq!(truncate("中", 4), "中  ");
    assert_eq!(display_width(&truncate("中文字", 5)), 5);
    assert_eq!(truncate("abc", 0), "…");
    assert_eq!(truncate("", 0), "");
    assert_eq!(truncate("abcd", 4), "abcd");
}

#[test]
fn column_widths() {
    let rows = vec![
        vec![Cell::Text("a".into()), Cell::Text("a very long header that goes past thirty".into())],
        vec![Cell::Text("abcdefgh".into())],
    ];
    let app = App::new(TableData::new("t.csv", vec![Sheet::new("S", rows)]));
    assert_eq!(compute_col_widths(&app, 200), vec![8, 30]);
    assert_eq!(compute_col_widths(&app, 20), vec![8, 10]);
    let empty = App::new(TableData::new("t.csv", vec![Sheet::new("S", vec![])]));
    assert!(compute_col_widths(&empty, 10).is_empty());
}

#[test]
fn offsets_follow_cursor() {
    let mut app = make_app(30, 10);
    app.cursor_row = 20;
    app.cursor_col = 6;
    let widths = vec![10u16; 10];
    sync_offsets(&mut app, 5, &widths, 33);
    assert_eq!(app.row_offset, 15);
    assert_eq!(app.col_offset, 6);
    app.cursor_row = 3;
    app.cursor_col = 7;
    sync_offsets(&mut app, 5, &widths, 33);
    assert_eq!(app.row_offset, 2);
    assert_eq!(app.col_offset, 6);
    app.cursor_col = 2;
    sync_offsets(&mut app, 5, &widths, 33);
    assert_eq!(app.col_offset, 2);
}

#[test]
fn normal_mode_keys_follow_the_readme() {
    let mut app = make_app(3, 3);
    app.cursor_row = 1;
    app.cursor_col = 1;
    assert_eq!(handle_key(&mut app, Key::Char('i'), false), Effect::Nothing);
    assert_eq!(app.mode, Mode::Insert);
    assert_eq!(app.edit_buffer, "r1c1");
    handle_key(&mut app, Key::Char('j'), false);
    assert_eq!(app.edit_buffer, "r1c1j");
    handle_key(&mut app, Key::Backspace, false);
    assert_eq!(handle_key(&mut app, Key::Enter, false), Effect::ConfirmEdit);
    handle_key(&mut app, Key::Esc, false);
    assert_eq!(app.mode, Mode::Normal);
    assert_eq!(app.edit_buffer, "");
    handle_key(&mut app, Key::Char('x'), false);
    assert_eq!(app.current_sheet().get(1, 1), &Cell::Empty);
    handle_key(&mut app, Key::Char('u'), false);
    assert_eq!(app.current_sheet().get(1, 1), &Cell::Text("r1c1".into()));
    handle_key(&mut app, Key::Char('r'), true);
    assert_eq!(app.current_sheet().get(1, 1), &Cell::Empty);
    assert_eq!(handle_key(&mut app, Key::Char('s'), true), Effect::Save);
    handle_key(&mut app, Key::Char('d'), false);
    handle_key(&mut app, Key::Char('d'), false);
    assert_eq!(app.current_sheet().row_count(), 2);
    handle_key(&mut app, Key::Char('g'), false);
    handle_key(&mut app, Key::Char('g'), false);
    assert_eq!(app.cursor_row, 0);
    handle_key(&mut app, Key::Char('y'), false);
    handle_key(&mut app, Key::Char('y'), false);
    handle_key(&mut app, Key::Char('p'), false);
    assert_eq!(app.current_sheet().row_count(), 3);
    assert_eq!(app.current_sheet().get(1, 0), &Cell::Text("r0c0".into()));
    handle_key(&mut app, Key::Char('o'), false);
    assert_eq!(app.mode, Mode::Insert);
    assert_eq!(app.current_sheet().row_count(), 4);
    handle_key(&mut app, Key::Esc, false);
    handle_key(&mut app, Key::Char('q'), false);
    assert!(app.should_quit);
}

#[test]
fn command_mode_keys() {
    let mut app = make_app(50, 2);
    handle_key(&mut app, Key::Char(':'), false);
    assert_eq!(app.mode, Mode::Command);
    handle_key(&mut app, Key::Char('4'), false);
    handle_key(&mut app, Key::Char('2'), false);
    assert_eq!(handle_key(&mut app, Key::Enter, false), Effect::Nothing);
    assert_eq!(app.cursor_row, 41);
    assert_eq!(app.mode, Mode::Normal);
    handle_key(&mut app, Key::Char('x'), false);
    handle_key(&mut app, Key::Char(':'), false);
    handle_key(&mut app, Key::Char('q'), false);
    handle_key(&mut app, Key::Enter, false);
    assert!(!app.should_quit);
    assert_eq!(app.status_msg.as_deref(), Some("Alterações não salvas (use :q! para sair sem salvar)"));
    handle_key(&mut app, Key::Char(':'), false);
    handle_key(&mut app, Key::Char('w'), false);
    assert_eq!(handle_key(&mut app, Key::Enter, false), Effect::Save);
    handle_key(&mut app, Key::Char(':'), false);
    handle_key(&mut app, Key::Char('x'), false);
    assert_eq!(handle_key(&mut app, Key::Enter, false), Effect::SaveAndQuit);
    handle_key(&mut app, Key::Char(':'), false);
    handle_key(&mut app, Key::Char('q'), false);
    handle_key(&mut app, Key::Char('!'), false);
    handle_key(&mut app, Key::Enter, false);
    assert!(app.should_quit);
}

#[test]
fn quit_command_without_changes_quits() {
    let mut app = make_app(2, 2);
    handle_key(&mut app, Key::Char(':'), false);
    handle_key(&mut app, Key::Char('q'), false);
    handle_key(&mut app, Key::Esc, false);
    assert_eq!(app.mode, Mode::Normal);
    assert!(!app.should_quit);
    handle_key(&mut app, Key::Char(':'), false);
    handle_key(&mut app, Key::Char('q'), false);
    handle_key(&mut app, Key::Enter, false);
    assert!(app.should_quit);
}

#[test]
fn help_mode_leaves_on_escape() {
    let mut app = make_app(2, 2);
    handle_key(&mut app, Key::Char('?'), false);
    assert_eq!(app.mode, Mode::Help);
    handle_key(&mut app, Key::Esc, false);
    assert_eq!(app.mode, Mode::Normal);
}

#[test]
fn status_line_per_mode() {
    let mut app = make_app(3, 2);
    app.cursor_row = 2;
    app.cursor_col = 1;
    match status_line(&app) {
        StatusLine::Normal { row, rows, col, cols, column, value, message } => {
            assert_eq!((row, rows, col, cols), (3, 3, 2, 2));
            assert_eq!(column, "r0c1");
            assert_eq!(value, "r2c1");
            assert_eq!(message, None);
        }
        other => panic!("unexpected {:?}", other),
    }
    app.enter_insert();
    match status_line(&app) {
        StatusLine::Insert { column, buffer } => {
            assert_eq!(column, "r0c1");
            assert_eq!(buffer, "r2c1");
        }
        other => panic!("unexpected {:?}", other),
    }
    app.cancel_edit();
    app.enter_search();
    match status_line(&app) {
        StatusLine::Search { query, hits } => {
            assert_eq!(query, "");
            assert_eq!(hits, None);
        }
        other => panic!("unexpected {:?}", other),
    }
    app.update_search("r1");
    match status_line(&app) {
        StatusLine::Search { query, hits } => {
            assert_eq!(query, "r1");
            assert_eq!(hits, Some((1, 2)));
        }
        other => panic!("unexpected {:?}", other),
    }
    app.exit_search();
    app.enter_command();
    app.command_push('w');
    match status_line(&app) {
        StatusLine::Command { line } => assert_eq!(line, "w"),
        other => panic!("unexpected {:?}", other),
    }
}

#[test]
fn header_shows_file_dirty_mark_and_tabs() {
    let mut app = App::new(TableData::new(
        "/home/u/dados.xlsx",
        vec![Sheet::new("A", vec![]), Sheet::new("B", vec![])],
    ));
    app.next_sheet();
    app.dirty = true;
    let (file, dirty, tabs) = header_parts(&app);
    assert_eq!(file, "dados.xlsx");
    assert!(dirty);
    assert_eq!(tabs, vec![("A".to_string(), false), ("B".to_string(), true)]);
    let app = App::new(TableData::new("/", vec![Sheet::new("S", vec![])]));
    assert_eq!(header_parts(&app).0, "/");
}

#[test]
fn display_width_adds_up() {
    assert_eq!(display_width("中文"), 4);
    assert_eq!(display_width("é…"), 2);
    assert_eq!(display_width("ab中"), display_width("ab") + display_width("中"));
}
