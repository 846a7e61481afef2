use excel_tui::app::{parse_cell, App, CommandResult, Mode};
use excel_tui::table::{Cell, Number, Sheet, TableData};

fn number_text(n: f64) -> String {
    if n.fract() == 0.0 && n.abs() < 1e15 {
        format!("{}", n as i64)
    } else {
        format!("{}", n)
    }
}

fn number(n: f64) -> Number {
    Number { bits: n.to_bits(), text: number_text(n) }
}

fn num(n: f64) -> Cell {
    Cell::Number(number(n))
}

fn parse_num(s: &str) -> Option<Number> {
    s.parse::<f64>().ok().map(number)
}

fn confirm(app: &mut App) {
    let n = parse_num(&app.edit_buffer);
    app.confirm_edit(n);
}

fn make_app(rows: usize, cols: usize) -> App {
    let rows_data: Vec<Vec<Cell>> = (0..rows)
        .map(|r| (0..cols).map(|c| Cell::Text(format!("r{}c{}", r, c))).collect())
        .collect();
    let sheet = Sheet::new("Sheet1", rows_data);
    App::new(TableData::new("test.xlsx", vec![sheet]))
}

fn make_multisheet_app() -> App {
    let s1 = Sheet::new("S1", vec![vec![num(1.0)]]);
    let s2 = Sheet::new("S2", vec![vec![num(2.0)]]);
    let s3 = Sheet::new("S3", vec![vec![num(3.0)]]);
    App::new(TableData::new("test.xlsx", vec![s1, s2, s3]))
}

// ── Navigation ──

#[test]
fn initial_cursor_is_zero() {
    let app = make_app(5, 5);
    assert_eq!(app.cursor_row, 0);
    assert_eq!(app.cursor_col, 0);
}

#[test]
fn scroll_down_moves_cursor() {
    let mut app = make_app(5, 5);
    app.scroll_down();
    assert_eq!(app.cursor_row, 1);
}

#[test]
fn scroll_down_clamps_at_last_row() {
    let mut app = make_app(3, 3);
    for _ in 0..10 {
        app.scroll_down();
    }
    assert_eq!(app.cursor_row, 2);
}

#[test]
fn scroll_up_clamps_at_zero() {
    let mut app = make_app(3, 3);
    app.scroll_up();
    assert_eq!(app.cursor_row, 0);
}

#[test]
fn scroll_right_clamps_at_last_col() {
    let mut app = make_app(3, 3);
    for _ in 0..10 {
        app.scroll_right();
    }
    assert_eq!(app.cursor_col, 2);
}

#[test]
fn scroll_left_clamps_at_zero() {
    let mut app = make_app(3, 3);
    app.scroll_left();
    assert_eq!(app.cursor_col, 0);
}

#[test]
fn goto_last_row() {
    let mut app = make_app(5, 5);
    app.goto_last_row();
    assert_eq!(app.cursor_row, 4);
}

#[test]
fn goto_first_row() {
    let mut app = make_app(5, 5);
    app.goto_last_row();
    app.goto_first_row();
    assert_eq!(app.cursor_row, 0);
}

#[test]
fn goto_first_col() {
    let mut app = make_app(5, 5);
    app.goto_last_col();
    app.goto_first_col();
    assert_eq!(app.cursor_col, 0);
}

#[test]
fn next_sheet_advances() {
    let mut app = make_multisheet_app();
    app.next_sheet();
    assert_eq!(app.active_sheet, 1);
}

#[test]
fn next_sheet_wraps_around() {
    let mut app = make_multisheet_app();
    app.active_sheet = 2;
    app.next_sheet();
    assert_eq!(app.active_sheet, 0);
}

#[test]
fn prev_sheet_wraps_around() {
    let mut app = make_multisheet_app();
    app.prev_sheet();
    assert_eq!(app.active_sheet, 2);
}

#[test]
fn next_sheet_resets_cursor() {
    let mut app = make_multisheet_app();
    app.cursor_row = 5;
    app.cursor_col = 3;
    app.next_sheet();
    assert_eq!(app.cursor_row, 0);
    assert_eq!(app.cursor_col, 0);
}

// ── Pending keys (gg / dd / yy) ──

#[test]
fn gg_goes_to_first_row() {
    let mut app = make_app(5, 5);
    app.goto_last_row();
    app.handle_pending_key('g');
    app.handle_pending_key('g');
    assert_eq!(app.cursor_row, 0);
}

#[test]
fn single_g_sets_pending() {
    let mut app = make_app(5, 5);
    app.handle_pending_key('g');
    assert_eq!(app.pending_key, Some('g'));
}

// ── Insert mode ──

#[test]
fn insert_mode_prefills_buffer() {
    let mut app = make_app(3, 3);
    app.enter_insert();
    assert_eq!(app.edit_buffer, "r0c0");
    assert_eq!(app.mode, Mode::Insert);
}

#[test]
fn insert_mode_confirm_changes_cell() {
    let mut app = make_app(3, 3);
    app.cursor_row = 1;
    app.cursor_col = 1;
    app.enter_insert();
    app.edit_buffer = "novo".to_string();
    confirm(&mut app);
    assert_eq!(app.current_sheet().get(1, 1), &Cell::Text("novo".into()));
    assert_eq!(app.mode, Mode::Normal);
    assert!(app.dirty);
}

#[test]
fn insert_mode_confirm_parses_number() {
    let mut app = make_app(3, 3);
    app.enter_insert();
    app.edit_buffer = "42".to_string();
    confirm(&mut app);
    assert_eq!(app.current_sheet().get(0, 0), &num(42.0));
}

#[test]
fn insert_mode_cancel_restores_cell() {
    let mut app = make_app(3, 3);
    let original = app.current_sheet().get(0, 0).clone();
    app.enter_insert();
    app.edit_buffer = "descartado".to_string();
    app.cancel_edit();
    assert_eq!(app.current_sheet().get(0, 0), &original);
    assert_eq!(app.mode, Mode::Normal);
}

// ── Row operations ──

#[test]
fn dd_deletes_row() {
    let mut app = make_app(3, 3);
    app.cursor_row = 1;
    app.handle_pending_key('d');
    app.handle_pending_key('d');
    assert_eq!(app.current_sheet().row_count(), 2);
}

#[test]
fn x_clears_cell() {
    let mut app = make_app(3, 3);
    app.cursor_row = 1;
    app.cursor_col = 1;
    app.clear_cell();
    assert_eq!(app.current_sheet().get(1, 1), &Cell::Empty);
    assert!(app.dirty);
}

#[test]
fn yy_copies_row() {
    let mut app = make_app(3, 3);
    app.cursor_row = 1;
    app.handle_pending_key('y');
    app.handle_pending_key('y');
    assert!(app.clipboard.is_some());
    let clip = app.clipboard.as_ref().unwrap();
    assert_eq!(clip[0], Cell::Text("r1c0".into()));
}

#[test]
fn p_pastes_row_below() {
    let mut app = make_app(3, 3);
    app.cursor_row = 0;
    app.yank_row();
    app.paste_below();
    assert_eq!(app.current_sheet().row_count(), 4);
    assert_eq!(app.cursor_row, 1);
}

#[test]
fn p_paste_above() {
    let mut app = make_app(3, 3);
    app.cursor_row = 1;
    app.yank_row();
    app.paste_above();
    assert_eq!(app.current_sheet().row_count(), 4);
    assert_eq!(app.current_sheet().get(1, 0), &Cell::Text("r1c0".into()));
}

// ── Undo / Redo ──

#[test]
fn undo_reverts_edit() {
    let mut app = make_app(3, 3);
    let original = app.current_sheet().get(1, 1).clone();
    app.cursor_row = 1;
    app.cursor_col = 1;
    app.enter_insert();
    app.edit_buffer = "mudou".into();
    confirm(&mut app);
    app.undo();
    assert_eq!(app.current_sheet().get(1, 1), &original);
}

#[test]
fn undo_reverts_delete() {
    let mut app = make_app(3, 3);
    app.cursor_row = 1;
    let original_cell = app.current_sheet().get(1, 0).clone();
    let count_before = app.current_sheet().row_count();
    app.delete_row();
    app.undo();
    assert_eq!(app.current_sheet().row_count(), count_before);
    assert_eq!(app.current_sheet().get(1, 0), &original_cell);
}

#[test]
fn redo_reapplies_edit() {
    let mut app = make_app(3, 3);
    app.cursor_row = 1;
    app.cursor_col = 1;
    app.enter_insert();
    app.edit_buffer = "mudou".into();
    confirm(&mut app);
    app.undo();
    app.redo();
    assert_eq!(app.current_sheet().get(1, 1), &Cell::Text("mudou".into()));
}

#[test]
fn dirty_flag_set_on_edit() {
    let mut app = make_app(3, 3);
    assert!(!app.dirty);
    app.enter_insert();
    app.edit_buffer = "x".into();
    confirm(&mut app);
    assert!(app.dirty);
}

#[test]
fn dirty_flag_cleared_externally() {
    let mut app = make_app(3, 3);
    app.dirty = true;
    app.dirty = false;
    assert!(!app.dirty);
}

// ── Command mode ──

#[test]
fn execute_w_returns_save() {
    let mut app = make_app(3, 3);
    app.enter_command();
    app.command_buffer = "w".into();
    assert_eq!(app.execute_command(), CommandResult::Save);
}

#[test]
fn execute_q_returns_quit() {
    let mut app = make_app(3, 3);
    app.enter_command();
    app.command_buffer = "q".into();
    assert_eq!(app.execute_command(), CommandResult::Quit);
}

#[test]
fn execute_wq_returns_save_quit() {
    let mut app = make_app(3, 3);
    app.enter_command();
    app.command_buffer = "wq".into();
    assert_eq!(app.execute_command(), CommandResult::SaveQuit);
}

#[test]
fn execute_q_bang_returns_force_quit() {
    let mut app = make_app(3, 3);
    app.enter_command();
    app.command_buffer = "q!".into();
    assert_eq!(app.execute_command(), CommandResult::ForceQuit);
}

// ── Search ──

#[test]
fn search_filters_rows() {
    let rows = vec![
        vec![Cell::Text("Alice".into()), num(30.0)],
        vec![Cell::Text("Bob".into()), num(25.0)],
        vec![Cell::Text("Alice2".into()), num(20.0)],
    ];
    let mut app = App::new(TableData::new("t.csv", vec![Sheet::new("S", rows)]));
    app.enter_search();
    app.update_search("alice");
    assert_eq!(app.search_hits.len(), 2);
}

#[test]
fn search_next_cycles_results() {
    let rows = vec![vec![Cell::Text("foo".into())], vec![Cell::Text("foo".into())]];
    let mut app = App::new(TableData::new("t.csv", vec![Sheet::new("S", rows)]));
    app.enter_search();
    app.update_search("foo");
    app.search_next();
    assert_eq!(app.search_idx, 1);
    app.search_next();
    assert_eq!(app.search_idx, 0);
}

#[test]
fn search_prev_cycles_results() {
    let rows = vec![vec![Cell::Text("foo".into())], vec![Cell::Text("foo".into())]];
    let mut app = App::new(TableData::new("t.csv", vec![Sheet::new("S", rows)]));
    app.enter_search();
    app.update_search("foo");
    app.search_prev();
    assert_eq!(app.search_idx, 1);
}

// ── Further cases and the laws on concrete values ──

#[test]
fn parse_cell_cases() {
    assert_eq!(parse_cell("", None), Cell::Empty);
    assert_eq!(parse_cell("true", None), Cell::Bool(true));
    assert_eq!(parse_cell("FaLsE", None), Cell::Bool(false));
    assert_eq!(parse_cell("12.5", parse_num("12.5")), num(12.5));
    assert_eq!(parse_cell("abc", parse_num("abc")), Cell::Text("abc".into()));
    assert_eq!(parse_cell("TRUE", parse_num("TRUE")), Cell::Bool(true));
}

#[test]
fn search_ignores_case_of_cells_and_query() {
    let rows = vec![vec![Cell::Text("ALICE".into()), Cell::Bool(true)], vec![Cell::Text("bob".into()), Cell::Empty]];
    let mut app = App::new(TableData::new("t.csv", vec![Sheet::new("S", rows)]));
    app.update_search("AlIcE");
    assert_eq!(app.search_query, "alice");
    assert_eq!(app.search_hits, vec![(0, 0)]);
    app.update_search("TRUE");
    assert_eq!(app.search_hits, vec![(0, 1)]);
    assert_eq!((app.cursor_row, app.cursor_col), (0, 1));
}

#[test]
fn search_hits_are_in_row_major_order() {
    let rows = vec![
        vec![Cell::Text("xa".into()), Cell::Text("b".into()), Cell::Text("ax".into())],
        vec![Cell::Text("a".into())],
    ];
    let mut app = App::new(TableData::new("t.csv", vec![Sheet::new("S", rows)]));
    app.update_search("a");
    assert_eq!(app.search_hits, vec![(0, 0), (0, 2), (1, 0)]);
    assert_eq!(app.search_idx, 0);
}

#[test]
fn empty_query_hits_every_position() {
    let rows = vec![vec![Cell::Text("a".into()), Cell::Text("b".into())], vec![Cell::Text("c".into())]];
    let mut app = App::new(TableData::new("t.csv", vec![Sheet::new("S", rows)]));
    app.update_search("");
    assert_eq!(app.search_hits, vec![(0, 0), (0, 1), (1, 0), (1, 1)]);
}

#[test]
fn search_without_hits_keeps_cursor() {
    let mut app = make_app(3, 3);
    app.cursor_row = 2;
    app.cursor_col = 1;
    app.update_search("zzz");
    assert!(app.search_hits.is_empty());
    assert_eq!((app.cursor_row, app.cursor_col), (2, 1));
    app.search_next();
    assert_eq!(app.search_idx, 0);
}

#[test]
fn search_next_then_prev_returns() {
    let mut app = make_app(3, 3);
    app.update_search("c1");
    assert_eq!(app.search_hits.len(), 3);
    app.search_next();
    app.search_prev();
    assert_eq!(app.search_idx, 0);
    assert_eq!((app.cursor_row, app.cursor_col), (0, 1));
}

#[test]
fn next_then_prev_sheet_returns() {
    let mut app = make_multisheet_app();
    app.active_sheet = 1;
    app.next_sheet();
    app.prev_sheet();
    assert_eq!(app.active_sheet, 1);
    app.prev_sheet();
    app.next_sheet();
    assert_eq!(app.active_sheet, 1);
}

#[test]
fn help_toggles_back() {
    let mut app = make_app(1, 1);
    app.toggle_help();
    assert_eq!(app.mode, Mode::Help);
    app.toggle_help();
    assert_eq!(app.mode, Mode::Normal);
}

#[test]
fn help_from_insert_goes_to_help_then_normal() {
    let mut app = make_app(1, 1);
    app.enter_insert();
    app.toggle_help();
    assert_eq!(app.mode, Mode::Help);
    app.toggle_help();
    assert_eq!(app.mode, Mode::Normal);
}

#[test]
fn pending_other_key_is_dropped() {
    let mut app = make_app(3, 3);
    assert!(!app.handle_pending_key('x'));
    assert_eq!(app.pending_key, None);
    assert!(app.handle_pending_key('d'));
    assert!(app.handle_pending_key('y'));
    assert_eq!(app.pending_key, None);
    assert_eq!(app.current_sheet().row_count(), 3);
    assert!(app.clipboard.is_none());
}

#[test]
fn delete_last_row_moves_cursor_up() {
    let mut app = make_app(3, 2);
    app.cursor_row = 2;
    app.delete_row();
    assert_eq!(app.current_sheet().row_count(), 2);
    assert_eq!(app.cursor_row, 1);
    assert!(app.dirty);
}

#[test]
fn delete_past_last_row_changes_nothing() {
    let mut app = make_app(2, 2);
    app.cursor_row = 5;
    app.delete_row();
    assert_eq!(app.current_sheet().row_count(), 2);
    assert!(app.undo_stack.is_empty());
    assert!(!app.dirty);
}

#[test]
fn yank_copies_across_all_columns() {
    let rows = vec![vec![Cell::Text("a".into())], vec![Cell::Text("b".into()), Cell::Text("c".into())]];
    let mut app = App::new(TableData::new("t.csv", vec![Sheet::new("S", rows)]));
    app.yank_row();
    assert_eq!(app.clipboard, Some(vec![Cell::Text("a".into()), Cell::Empty]));
    assert_eq!(app.status_msg.as_deref(), Some("Linha copiada"));
}

#[test]
fn paste_with_empty_clipboard_does_nothing() {
    let mut app = make_app(2, 2);
    app.paste_below();
    app.paste_above();
    assert_eq!(app.current_sheet().row_count(), 2);
    assert!(app.undo_stack.is_empty());
}

#[test]
fn open_row_below_enters_insert() {
    let mut app = make_app(2, 2);
    app.insert_row_below();
    assert_eq!(app.current_sheet().row_count(), 3);
    assert_eq!(app.cursor_row, 1);
    assert_eq!(app.mode, Mode::Insert);
    assert_eq!(app.edit_buffer, "");
    assert_eq!(app.current_sheet().get(2, 0), &Cell::Text("r1c0".into()));
    app.undo();
    assert_eq!(app.current_sheet().row_count(), 2);
    assert_eq!(app.current_sheet().get(1, 0), &Cell::Text("r1c0".into()));
}

#[test]
fn open_row_above_then_undo_and_redo() {
    let mut app = make_app(2, 2);
    app.cursor_row = 1;
    app.insert_row_above();
    assert_eq!(app.current_sheet().get(1, 0), &Cell::Empty);
    assert_eq!(app.cursor_row, 1);
    app.undo();
    assert_eq!(app.current_sheet().row_count(), 2);
    assert_eq!(app.cursor_row, 0);
    app.redo();
    assert_eq!(app.current_sheet().row_count(), 3);
    assert_eq!(app.current_sheet().get(1, 0), &Cell::Empty);
    assert_eq!(app.cursor_row, 1);
}

#[test]
fn undo_and_redo_of_clear() {
    let mut app = make_app(2, 2);
    app.cursor_col = 1;
    app.clear_cell();
    app.undo();
    assert_eq!(app.current_sheet().get(0, 1), &Cell::Text("r0c1".into()));
    app.redo();
    assert_eq!(app.current_sheet().get(0, 1), &Cell::Empty);
}

#[test]
fn redo_after_delete_deletes_again() {
    let mut app = make_app(3, 1);
    app.cursor_row = 1;
    app.delete_row();
    app.undo();
    assert_eq!(app.current_sheet().row_count(), 3);
    app.redo();
    assert_eq!(app.current_sheet().row_count(), 2);
    assert_eq!(app.current_sheet().get(1, 0), &Cell::Text("r2c0".into()));
    assert_eq!(app.cursor_row, 0);
}

#[test]
fn undo_of_narrow_row_comes_back_padded() {
    let rows = vec![vec![Cell::Text("a".into())], vec![Cell::Text("b".into()), Cell::Text("c".into())]];
    let mut app = App::new(TableData::new("t.csv", vec![Sheet::new("S", rows)]));
    app.delete_row();
    app.undo();
    assert_eq!(app.current_sheet().rows[0], vec![Cell::Text("a".into()), Cell::Empty]);
}

#[test]
fn new_action_drops_redo_history() {
    let mut app = make_app(2, 2);
    app.clear_cell();
    app.undo();
    assert_eq!(app.redo_stack.len(), 1);
    app.cursor_col = 1;
    app.clear_cell();
    assert!(app.redo_stack.is_empty());
    app.redo();
    assert_eq!(app.current_sheet().get(0, 0), &Cell::Text("r0c0".into()));
}

#[test]
fn undo_then_redo_restores_histories() {
    let mut app = make_app(2, 2);
    app.clear_cell();
    app.cursor_col = 1;
    app.clear_cell();
    let undo_len = app.undo_stack.len();
    app.undo();
    app.redo();
    assert_eq!(app.undo_stack.len(), undo_len);
    assert!(app.redo_stack.is_empty());
}

#[test]
fn undo_with_empty_history_does_nothing() {
    let mut app = make_app(2, 2);
    app.cursor_row = 1;
    app.undo();
    app.redo();
    assert_eq!(app.cursor_row, 1);
    assert_eq!(app.current_sheet().row_count(), 2);
}

#[test]
fn execute_other_commands() {
    let mut app = make_app(1, 1);
    app.command_buffer = "  x ".into();
    assert_eq!(app.execute_command(), CommandResult::SaveQuit);
    app.command_buffer = "\twq\n".into();
    assert_eq!(app.execute_command(), CommandResult::SaveQuit);
    app.command_buffer = " 42 ".into();
    assert_eq!(app.execute_command(), CommandResult::NoOp);
    assert_eq!(app.cursor_row, 0);
    app.command_buffer = " 4x2 ".into();
    assert_eq!(app.execute_command(), CommandResult::Unknown("4x2".into()));
    assert_eq!(app.command_buffer, "");
    assert_eq!(app.mode, Mode::Normal);
}

#[test]
fn edit_and_command_buffers_take_keys() {
    let mut app = make_app(1, 1);
    app.enter_command();
    app.command_push('w');
    app.command_push('q');
    app.command_backspace();
    assert_eq!(app.command_buffer, "w");
    app.cancel_command();
    assert_eq!(app.command_buffer, "");
    app.edit_push('é');
    app.edit_push('x');
    app.edit_backspace();
    assert_eq!(app.edit_buffer, "é");
    app.edit_backspace();
    app.edit_backspace();
    assert_eq!(app.edit_buffer, "");
}

#[test]
fn enter_search_resets_results() {
    let mut app = make_app(2, 2);
    app.update_search("r");
    app.search_next();
    app.enter_search();
    assert_eq!(app.mode, Mode::Search);
    assert!(app.search_hits.is_empty());
    assert_eq!(app.search_idx, 0);
    app.exit_search();
    assert_eq!(app.mode, Mode::Normal);
}

#[test]
fn redo_of_paste_brings_the_pasted_row_back() {
    let mut app = make_app(3, 3);
    app.cursor_row = 0;
    app.yank_row();
    app.paste_below();
    assert_eq!(app.current_sheet().row_count(), 4);
    app.undo();
    assert_eq!(app.current_sheet().row_count(), 3);
    assert_eq!(app.current_sheet().get(1, 0), &Cell::Text("r1c0".into()));
    app.redo();
    assert_eq!(app.current_sheet().row_count(), 4);
    assert_eq!(app.current_sheet().get(1, 0), &Cell::Text("r0c0".into()));
    assert_eq!(app.current_sheet().get(1, 2), &Cell::Text("r0c2".into()));
}

#[test]
fn redo_of_paste_above_brings_the_pasted_row_back() {
    let mut app = make_app(3, 2);
    app.cursor_row = 2;
    app.yank_row();
    app.paste_above();
    app.undo();
    app.redo();
    assert_eq!(app.current_sheet().rows[2], vec![Cell::Text("r2c0".into()), Cell::Text("r2c1".into())]);
    assert_eq!(app.current_sheet().rows[3], vec![Cell::Text("r2c0".into()), Cell::Text("r2c1".into())]);
}

#[test]
fn line_number_command_moves_the_cursor() {
    let mut app = make_app(50, 3);
    app.enter_command();
    app.command_buffer = "42".into();
    assert_eq!(app.execute_command(), CommandResult::NoOp);
    assert_eq!(app.cursor_row, 41);
    assert_eq!(app.command_buffer, "");
    assert_eq!(app.mode, Mode::Normal);
    app.command_buffer = "999".into();
    app.execute_command();
    assert_eq!(app.cursor_row, 49);
    app.command_buffer = "0".into();
    app.execute_command();
    assert_eq!(app.cursor_row, 0);
    app.command_buffer = "99999999999999999999999999".into();
    app.execute_command();
    assert_eq!(app.cursor_row, 49);
}

#[test]
fn undo_of_delete_restores_every_cell() {
    let rows = vec![
        vec![Cell::Text("a".into())],
        vec![Cell::Text("b".into()), Cell::Text("c".into()), Cell::Text("d".into())],
    ];
    let mut app = App::new(TableData::new("t.csv", vec![Sheet::new("S", rows)]));
    app.cursor_row = 1;
    app.delete_row();
    app.undo();
    assert_eq!(app.current_sheet().row_count(), 2);
    assert_eq!(app.current_sheet().get(0, 0), &Cell::Text("a".into()));
    assert_eq!(app.current_sheet().get(1, 2), &Cell::Text("d".into()));
}

#[test]
fn finishing_a_save() {
    let mut app = make_app(2, 2);
    app.clear_cell();
    assert!(app.dirty);
    app.finish_save(Err(excel_tui::error::AppError::Io("disco cheio".into())), true);
    assert!(app.dirty);
    assert!(!app.should_quit);
    assert_eq!(app.status_msg.as_deref(), Some("Erro ao salvar: disco cheio"));
    app.finish_save(Ok(()), false);
    assert!(!app.dirty);
    assert!(!app.should_quit);
    assert_eq!(app.status_msg.as_deref(), Some("Arquivo salvo"));
    app.finish_save(Ok(()), true);
    assert!(app.should_quit);
}
