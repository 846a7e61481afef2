//! How the editor reacts to a key press in each mode.
use vstd::prelude::*;
use crate::app::{
    all_digits, at_last_col, at_last_row, cell_cleared, help_toggled, insert_entered, known_command, line_row,
    next_hit, next_sheet_of, opened_above, opened_below, pasted_above, pasted_below, pending_handled,
    prev_hit, prev_sheet_of, redone, scrolled_down, scrolled_left, scrolled_right, scrolled_up,
    row_inserted, search_entered, searched, sheet_changed, undone, App, CommandResult, Mode,
};
use crate::table::{cell_at, cell_text, row_view, rows_with_cell, CellView};
use crate::event::{key_event, map_key, AppEvent, Key};
use crate::text::{owned, pop_char, push_char, spec_lowercase, trimmed};

verus! {

/// What the editor asks of its caller after a key press: nothing, to confirm
/// the edit (parsing the edit buffer as a number first), to save the
/// workbook, or to save it and quit.
#[derive(Debug, Clone, Copy, PartialEq, Eq, Structural)]
pub enum Effect {
    Nothing,
    ConfirmEdit,
    Save,
    SaveAndQuit,
}

/// The effect of a character key in normal mode: with a key pending, or for
/// `g`, `d` and `y`, the two-key sequences (see `pending_handled`); `i` edits
/// the cell, `o` and `O` open a row below or above, `p` and `P` paste the
/// clipboard's row below or above, `x` clears the cell, `u` undoes and `:`
/// enters command mode; any other character changes nothing. `o` and `p` do
/// nothing when there is no row below the cursor's to make.
pub open spec fn char_step(pre: App, post: App, c: char) -> bool {
    if pre.pending_key is Some || c == 'g' || c == 'd' || c == 'y' {
        pending_handled(pre, post, c)
    } else if c == 'i' {
        insert_entered(pre, post)
    } else if c == 'o' {
        if pre.cursor_row < usize::MAX { opened_below(pre, post) } else { post == pre }
    } else if c == 'O' {
        opened_above(pre, post)
    } else if c == 'p' {
        if pre.clipboard is Some && pre.cursor_row == usize::MAX { post == pre } else { pasted_below(pre, post) }
    } else if c == 'P' {
        pasted_above(pre, post)
    } else if c == 'x' {
        cell_cleared(pre, post)
    } else if c == 'u' {
        undone(pre, post)
    } else if c == ':' {
        &&& post == (App { command_buffer: post.command_buffer, mode: Mode::Command, pending_key: None, ..pre })
        &&& post.command_buffer@.len() == 0
    } else {
        post == pre
    }
}

/// The effect of an event in normal (or help) mode: quitting, cursor
/// movement, sheet switching, entering search mode, moving between search
/// hits, toggling help, `Esc` leaving help, redo, and the character keys of
/// `char_step`; every other event changes nothing.
pub open spec fn normal_step(pre: App, post: App, ev: AppEvent) -> bool {
    match ev {
        AppEvent::Quit => post == (App { should_quit: true, ..pre }),
        AppEvent::ScrollDown => post == scrolled_down(pre),
        AppEvent::ScrollUp => post == scrolled_up(pre),
        AppEvent::ScrollLeft => post == scrolled_left(pre),
        AppEvent::ScrollRight => post == scrolled_right(pre),
        AppEvent::GotoLastRow => post == at_last_row(pre),
        AppEvent::GotoFirstCol => post == (App { cursor_col: 0, ..pre }),
        AppEvent::GotoLastCol => post == at_last_col(pre),
        AppEvent::NextSheet => post == next_sheet_of(pre),
        AppEvent::PrevSheet => post == prev_sheet_of(pre),
        AppEvent::EnterSearch => search_entered(pre, post),
        AppEvent::SearchNext => post == next_hit(pre),
        AppEvent::SearchPrev => post == prev_hit(pre),
        AppEvent::ToggleHelp => post == help_toggled(pre),
        AppEvent::ExitMode => post == (if pre.mode == Mode::Help { App { mode: Mode::Normal, ..pre } } else { pre }),
        AppEvent::CtrlR => redone(pre, post),
        AppEvent::Char(c) => char_step(pre, post, c),
        _ => post == pre,
    }
}

/// What an event in normal mode asks of the caller: `Ctrl+S` asks to save.
pub open spec fn normal_effect(ev: AppEvent) -> Effect {
    if ev == AppEvent::CtrlS { Effect::Save } else { Effect::Nothing }
}

/// The effect of an event in search mode: `Esc`, `Enter` and quitting leave
/// search mode; a character extends the query and a backspace shortens it, the
/// search running again on the new query; the search keys move between hits;
/// every other event changes nothing.
pub open spec fn search_step(pre: App, post: App, ev: AppEvent) -> bool {
    match ev {
        AppEvent::ExitMode | AppEvent::Enter | AppEvent::Quit => post == (App { mode: Mode::Normal, ..pre }),
        AppEvent::Char(c) => searched(pre, post, pre.search_query@.push(c)),
        AppEvent::Backspace => searched(
            pre,
            post,
            if pre.search_query@.len() > 0 { pre.search_query@.drop_last() } else { pre.search_query@ },
        ),
        AppEvent::SearchNext => post == next_hit(pre),
        AppEvent::SearchPrev => post == prev_hit(pre),
        _ => post == pre,
    }
}

/// The event a key gives while typing a search: a character without Control
/// is itself, any other key is bound as usual.
pub open spec fn search_event(code: Key, ctrl: bool) -> AppEvent {
    match code {
        Key::Char(c) => if ctrl { key_event(code, ctrl) } else { AppEvent::Char(c) },
        _ => key_event(code, ctrl),
    }
}

/// The effect of a key in insert mode: a character without Control goes into
/// the edit buffer, `Backspace` removes the buffer's last character, `Esc`
/// cancels the edit and `Enter` asks the caller to confirm it; other keys
/// change nothing.
pub open spec fn insert_step(pre: App, post: App, code: Key, ctrl: bool, eff: Effect) -> bool {
    match code {
        Key::Char(c) => {
            &&& eff == Effect::Nothing
            &&& if ctrl {
                post == pre
            } else {
                &&& post == (App { edit_buffer: post.edit_buffer, ..pre })
                &&& post.edit_buffer@ == pre.edit_buffer@.push(c)
            }
        },
        Key::Backspace => {
            &&& eff == Effect::Nothing
            &&& post == (App { edit_buffer: post.edit_buffer, ..pre })
            &&& post.edit_buffer@ == if pre.edit_buffer@.len() > 0 {
                pre.edit_buffer@.drop_last()
            } else {
                pre.edit_buffer@
            }
        },
        Key::Esc => {
            &&& eff == Effect::Nothing
            &&& post == (App { edit_buffer: post.edit_buffer, mode: Mode::Normal, ..pre })
            &&& post.edit_buffer@.len() == 0
        },
        Key::Enter => eff == Effect::ConfirmEdit && post == pre,
        _ => eff == Effect::Nothing && post == pre,
    }
}

/// The status message of a refused `:q`.
pub open spec fn unsaved_message() -> Seq<char> {
    "Alterações não salvas (use :q! para sair sem salvar)"@
}

/// The effect of running the command line (`Enter` in command mode): the
/// line is emptied and the mode goes back to normal; a line number moves the
/// cursor to that line (see `line_row`); `w` asks to save, `wq` and `x` to save
/// and quit, `q!` quits; `q` quits when nothing is unsaved and is refused with
/// a message otherwise; anything else changes nothing more.
pub open spec fn command_run(pre: App, post: App, eff: Effect) -> bool {
    let t = trimmed(pre.command_buffer@);
    let base = App { command_buffer: post.command_buffer, mode: Mode::Normal, ..pre };
    &&& post.command_buffer@.len() == 0
    &&& if t.len() > 0 && all_digits(t) {
        eff == Effect::Nothing && post == (App { cursor_row: line_row(pre, t), ..base })
    } else {
        match known_command(t) {
            Some(CommandResult::Save) => eff == Effect::Save && post == base,
            Some(CommandResult::SaveQuit) => eff == Effect::SaveAndQuit && post == base,
            Some(CommandResult::ForceQuit) => eff == Effect::Nothing && post == (App { should_quit: true, ..base }),
            Some(CommandResult::Quit) => {
                &&& eff == Effect::Nothing
                &&& if pre.dirty {
                    &&& post == (App { status_msg: post.status_msg, ..base })
                    &&& post.status_msg matches Some(m) && m@ == unsaved_message()
                } else {
                    post == (App { should_quit: true, ..base })
                }
            },
            _ => eff == Effect::Nothing && post == base,
        }
    }
}

/// The effect of a key in command mode: a character without Control goes
/// into the command line, `Backspace` removes its last character, `Esc`
/// leaves command mode and `Enter` runs the line (see `command_run`); other
/// keys change nothing.
pub open spec fn command_step(pre: App, post: App, code: Key, ctrl: bool, eff: Effect) -> bool {
    match code {
        Key::Char(c) => {
            &&& eff == Effect::Nothing
            &&& if ctrl {
                post == pre
            } else {
                &&& post == (App { command_buffer: post.command_buffer, ..pre })
                &&& post.command_buffer@ == pre.command_buffer@.push(c)
            }
        },
        Key::Backspace => {
            &&& eff == Effect::Nothing
            &&& post == (App { command_buffer: post.command_buffer, ..pre })
            &&& post.command_buffer@ == if pre.command_buffer@.len() > 0 {
                pre.command_buffer@.drop_last()
            } else {
                pre.command_buffer@
            }
        },
        Key::Esc => {
            &&& eff == Effect::Nothing
            &&& post == (App { command_buffer: post.command_buffer, mode: Mode::Normal, ..pre })
            &&& post.command_buffer@.len() == 0
        },
        Key::Enter => command_run(pre, post, eff),
        _ => eff == Effect::Nothing && post == pre,
    }
}

/// Applies a character key in normal mode; see `char_step`.
fn handle_char(app: &mut App, c: char)
    requires
        old(app).wf(),
    ensures
        final(app).wf(),
        char_step(*old(app), *final(app), c),
{
    if app.pending_key.is_some() || c == 'g' || c == 'd' || c == 'y' {
        app.handle_pending_key(c);
    } else if c == 'i' {
        app.enter_insert();
    } else if c == 'o' {
        if app.cursor_row < usize::MAX {
            app.insert_row_below();
        }
    } else if c == 'O' {
        app.insert_row_above();
    } else if c == 'p' {
        if !(app.clipboard.is_some() && app.cursor_row == usize::MAX) {
            app.paste_below();
        }
    } else if c == 'P' {
        app.paste_above();
    } else if c == 'x' {
        app.clear_cell();
    } else if c == 'u' {
        app.undo();
    } else if c == ':' {
        app.enter_command();
    }
}

/// Applies an event in normal (or help) mode; see `normal_step` and
/// `normal_effect`.
pub fn handle_normal(app: &mut App, ev: AppEvent) -> (eff: Effect)
    requires
        old(app).wf(),
    ensures
        final(app).wf(),
        normal_step(*old(app), *final(app), ev),
        eff == normal_effect(ev),
{
    match ev {
        AppEvent::Quit => app.should_quit = true,
        AppEvent::ScrollDown => app.scroll_down(),
        AppEvent::ScrollUp => app.scroll_up(),
        AppEvent::ScrollLeft => app.scroll_left(),
        AppEvent::ScrollRight => app.scroll_right(),
        AppEvent::GotoLastRow => app.goto_last_row(),
        AppEvent::GotoFirstCol => app.goto_first_col(),
        AppEvent::GotoLastCol => app.goto_last_col(),
        AppEvent::NextSheet => app.next_sheet(),
        AppEvent::PrevSheet => app.prev_sheet(),
        AppEvent::EnterSearch => app.enter_search(),
        AppEvent::SearchNext => app.search_next(),
        AppEvent::SearchPrev => app.search_prev(),
        AppEvent::ToggleHelp => app.toggle_help(),
        AppEvent::ExitMode => {
            if app.mode == Mode::Help {
                app.mode = Mode::Normal;
            }
        },
        AppEvent::CtrlR => app.redo(),
        AppEvent::CtrlS => {
            return Effect::Save;
        },
        AppEvent::Char(c) => handle_char(app, c),
        _ => {},
    }
    Effect::Nothing
}

/// Applies an event in search mode; see `search_step`.
pub fn handle_search(app: &mut App, ev: AppEvent)
    requires
        old(app).wf(),
    ensures
        final(app).wf(),
        search_step(*old(app), *final(app), ev),
{
    match ev {
        AppEvent::ExitMode | AppEvent::Enter | AppEvent::Quit => app.exit_search(),
        AppEvent::Char(c) => {
            let mut q = owned(app.search_query.as_str());
            push_char(&mut q, c);
            app.update_search(q.as_str());
        },
        AppEvent::Backspace => {
            let mut q = owned(app.search_query.as_str());
            pop_char(&mut q);
            app.update_search(q.as_str());
        },
        AppEvent::SearchNext => app.search_next(),
        AppEvent::SearchPrev => app.search_prev(),
        _ => {},
    }
}

/// Applies a key in insert mode; see `insert_step`.
pub fn handle_insert(app: &mut App, code: Key, ctrl: bool) -> (eff: Effect)
    ensures
        insert_step(*old(app), *final(app), code, ctrl, eff),
{
    match code {
        Key::Char(c) => {
            if !ctrl {
                app.edit_push(c);
            }
            Effect::Nothing
        },
        Key::Backspace => {
            app.edit_backspace();
            Effect::Nothing
        },
        Key::Esc => {
            app.cancel_edit();
            Effect::Nothing
        },
        Key::Enter => Effect::ConfirmEdit,
        _ => Effect::Nothing,
    }
}

/// Runs the command line; see `command_run`.
fn run_command(app: &mut App) -> (eff: Effect)
    requires
        old(app).wf(),
    ensures
        final(app).wf(),
        command_run(*old(app), *final(app), eff),
{
    match app.execute_command() {
        CommandResult::Save => Effect::Save,
        CommandResult::SaveQuit => Effect::SaveAndQuit,
        CommandResult::ForceQuit => {
            app.should_quit = true;
            Effect::Nothing
        },
        CommandResult::Quit => {
            if app.dirty {
                app.status_msg = Some(owned("Alterações não salvas (use :q! para sair sem salvar)"));
                proof {
                    reveal_strlit("Alterações não salvas (use :q! para sair sem salvar)");
                }
            } else {
                app.should_quit = true;
            }
            Effect::Nothing
        },
        _ => Effect::Nothing,
    }
}

/// Applies a key in command mode; see `command_step`.
pub fn handle_command(app: &mut App, code: Key, ctrl: bool) -> (eff: Effect)
    requires
        old(app).wf(),
    ensures
        final(app).wf(),
        command_step(*old(app), *final(app), code, ctrl, eff),
{
    match code {
        Key::Char(c) => {
            if !ctrl {
                app.command_push(c);
            }
            Effect::Nothing
        },
        Key::Backspace => {
            app.command_backspace();
            Effect::Nothing
        },
        Key::Esc => {
            app.cancel_command();
            Effect::Nothing
        },
        Key::Enter => run_command(app),
        _ => Effect::Nothing,
    }
}

/// Applies a key press in the editor's current mode: insert and command mode
/// take keys as typed text (see `insert_step` and `command_step`), search mode
/// takes characters into the query (see `search_event` and `search_step`),
/// and normal and help mode go by the key bindings (see `normal_step`).
pub fn handle_key(app: &mut App, code: Key, ctrl: bool) -> (eff: Effect)
    requires
        old(app).wf(),
    ensures
        final(app).wf(),
        match old(app).mode {
            Mode::Insert => insert_step(*old(app), *final(app), code, ctrl, eff),
            Mode::Command => command_step(*old(app), *final(app), code, ctrl, eff),
            Mode::Search => search_step(*old(app), *final(app), search_event(code, ctrl)) && eff == Effect::Nothing,
            _ => normal_step(*old(app), *final(app), key_event(code, ctrl)) && eff == normal_effect(
                key_event(code, ctrl),
            ),
        },
        ({
            let pre = *old(app);
            let post = *final(app);
            let normal = pre.mode != Mode::Insert && pre.mode != Mode::Command && pre.mode != Mode::Search;
            let free = normal && pre.pending_key is None;
            let n = pre.search_hits@.len() as int;
            &&& free && code == Key::Char('P') && pre.clipboard is Some ==> row_inserted(
                pre,
                post,
                pre.cursor_row,
                row_view(pre.clipboard->0@),
                pre.cursor_row,
            )
            &&& free && code == Key::Char('p') && pre.clipboard is Some && pre.cursor_row < usize::MAX
                ==> row_inserted(
                pre,
                post,
                (pre.cursor_row + 1) as usize,
                row_view(pre.clipboard->0@),
                (pre.cursor_row + 1) as usize,
            )
            &&& free && (code == Key::Char('p') || code == Key::Char('P')) && pre.clipboard is None ==> post == pre
            &&& free && code == Key::Char('i') ==> {
                &&& post.mode == Mode::Insert
                &&& post.data == pre.data
                &&& post.edit_buffer@ == cell_text(cell_at(pre.sheet_cells(), pre.cursor_row as int, pre.cursor_col as int))
            }
            &&& free && code == Key::Char('x') ==> sheet_changed(
                pre.data,
                post.data,
                pre.active_sheet as int,
                rows_with_cell(pre.sheet_cells(), pre.cursor_row as int, pre.cursor_col as int, CellView::Empty),
            )
            &&& normal && code == Key::Char('n') && n > 0 ==> {
                &&& post.search_idx == (pre.search_idx + 1) % n
                &&& post.cursor_row == pre.search_hits@[post.search_idx as int].0
                &&& post.cursor_col == pre.search_hits@[post.search_idx as int].1
            }
            &&& normal && code == Key::Char('N') && n > 0 ==> {
                &&& post.search_idx == (pre.search_idx + n - 1) % n
                &&& post.cursor_row == pre.search_hits@[post.search_idx as int].0
                &&& post.cursor_col == pre.search_hits@[post.search_idx as int].1
            }
            &&& pre.mode == Mode::Insert && code == Key::Enter ==> eff == Effect::ConfirmEdit && post == pre
            &&& pre.mode == Mode::Insert && code == Key::Esc ==> post.mode == Mode::Normal && post.data == pre.data
            &&& pre.mode == Mode::Insert && !ctrl && code is Char ==> post.edit_buffer@ == pre.edit_buffer@.push(
                code->0,
            ) && post.mode == Mode::Insert && post.data == pre.data
            &&& pre.mode == Mode::Command && !ctrl && code is Char ==> post.command_buffer@
                == pre.command_buffer@.push(code->0) && post.mode == Mode::Command
            &&& pre.mode == Mode::Command && code == Key::Esc ==> post.mode == Mode::Normal && post.should_quit == pre.should_quit
                && post.data == pre.data
            &&& pre.mode == Mode::Search && !ctrl && code is Char ==> post.search_query@ == spec_lowercase(
                pre.search_query@.push(code->0),
            ) && post.mode == Mode::Search
            &&& pre.mode == Mode::Search && (code == Key::Esc || code == Key::Enter) ==> post.mode == Mode::Normal
                && post.search_hits == pre.search_hits && post.search_query == pre.search_query
            &&& pre.mode == Mode::Command && code == Key::Enter ==> {
                let t = trimmed(pre.command_buffer@);
                &&& post.mode == Mode::Normal
                &&& post.data == pre.data
                &&& t == seq!['w'] ==> eff == Effect::Save && post.should_quit == pre.should_quit
                &&& t == seq!['w', 'q'] || t == seq!['x'] ==> eff == Effect::SaveAndQuit
                &&& t == seq!['q', '!'] ==> post.should_quit && eff == Effect::Nothing
                &&& t == seq!['q'] && pre.dirty ==> post.should_quit == pre.should_quit && post.status_msg is Some
                    && eff == Effect::Nothing
                &&& t == seq!['q'] && !pre.dirty ==> post.should_quit && eff == Effect::Nothing
            }
            &&& normal && (code == Key::Char('k') || code == Key::Up) ==> post.cursor_row == (if pre.cursor_row > 0 {
                pre.cursor_row - 1
            } else {
                0
            })
            &&& normal && (code == Key::Char('j') || code == Key::Down) ==> post.cursor_row == (if pre.cursor_row + 1
                < pre.sheet_cells().len() {
                pre.cursor_row + 1
            } else {
                pre.cursor_row as int
            })
        }),
{
    match app.mode {
        Mode::Insert => handle_insert(app, code, ctrl),
        Mode::Command => handle_command(app, code, ctrl),
        Mode::Search => {
            let ev = match code {
                Key::Char(c) => if ctrl { map_key(code, ctrl) } else { AppEvent::Char(c) },
                _ => map_key(code, ctrl),
            };
            handle_search(app, ev);
            Effect::Nothing
        },
        _ => {
            proof {
                let i = app.active_sheet as int;
                assert(app.sheet_cells().len() == app.data.sheets@[i].rows.len());
                assert(app.search_hits@.len() == app.search_hits.len());
            }
            handle_normal(app, map_key(code, ctrl))
        },
    }
}

}
