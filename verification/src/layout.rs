//! Fitting the sheet on the screen: text widths, cell truncation, column
//! widths and the scroll position that keeps the cursor visible.
use vstd::prelude::*;
use crate::app::{dec, App, Mode};
use crate::table::{cell_at, cell_text, max_row_len, CellView};
use crate::reader::{path_file_name, spec_path_file_name};
use crate::text::{chars_of, contains_chars, has_infix, owned, spec_lowercase, string_from_chars, to_lowercase};

verus! {

/// The columns a character takes on screen: 2 above U+2E7F (wide scripts and
/// symbols), 1 otherwise.
pub open spec fn char_width(c: char) -> nat {
    if (c as u32) > 0x2E7F { 2 } else { 1 }
}

/// The columns a text takes on screen.
pub open spec fn text_width(s: Seq<char>) -> nat
    decreases s.len(),
{
    if s.len() == 0 { 0 } else { text_width(s.drop_last()) + char_width(s.last()) }
}

/// `n` when it fits in a `usize`, `usize::MAX` otherwise.
pub open spec fn capped(n: nat) -> usize {
    if n <= usize::MAX { n as usize } else { usize::MAX }
}

/// `n` spaces.
pub open spec fn spaces(n: nat) -> Seq<char> {
    Seq::new(n, |i: int| ' ')
}

/// The text padded with spaces at the end until it takes `n` columns on screen.
pub open spec fn padded(s: Seq<char>, n: nat) -> Seq<char> {
    if text_width(s) >= n { s } else { s + spaces((n - text_width(s)) as nat) }
}

/// How many leading characters fit into `budget` columns while leaving one
/// column free, taking characters as long as the next one fits.
pub open spec fn fit_count(s: Seq<char>, budget: int) -> nat
    decreases s.len(),
{
    if s.len() == 0 || char_width(s[0]) + 1 > budget {
        0
    } else {
        1 + fit_count(s.drop_first(), budget - char_width(s[0]))
    }
}

/// A text shown in a column `max` screen columns wide: padded with spaces when
/// it fits, otherwise cut to what fits with one column left, padded to
/// `max - 1` columns and ended with an ellipsis.
pub open spec fn truncated(s: Seq<char>, max: nat) -> Seq<char> {
    if capped(text_width(s)) <= max {
        padded(s, max)
    } else {
        padded(s.take(fit_count(s, max as int) as int), if max > 0 { (max - 1) as nat } else { 0 }) + seq!['\u{2026}']
    }
}

/// The width of two texts one after the other is the sum of their widths.
pub proof fn text_width_is_additive(a: Seq<char>, b: Seq<char>)
    ensures
        text_width(a + b) == text_width(a) + text_width(b),
    decreases b.len(),
{
    if b.len() > 0 {
        assert((a + b).drop_last() =~= a + b.drop_last());
        text_width_is_additive(a, b.drop_last());
    } else {
        assert(a + b =~= a);
    }
}

/// The empty text takes no column, and a text takes at least one and at most
/// two columns per character.
pub proof fn text_width_bounds(s: Seq<char>)
    ensures
        text_width(Seq::<char>::empty()) == 0,
        s.len() <= text_width(s) <= 2 * s.len(),
    decreases s.len(),
{
    if s.len() > 0 {
        text_width_bounds(s.drop_last());
    }
}

/// `n` spaces take `n` columns.
proof fn lemma_spaces_width(n: nat)
    ensures
        text_width(spaces(n)) == n,
    decreases n,
{
    if n > 0 {
        assert(spaces(n).drop_last() =~= spaces((n - 1) as nat));
        lemma_spaces_width((n - 1) as nat);
    }
}

/// A single character takes its own width.
proof fn lemma_char_text_width(c: char)
    ensures
        text_width(seq![c]) == char_width(c),
{
    let one = seq![c];
    assert(one.drop_last() =~= Seq::<char>::empty());
    assert(text_width(Seq::<char>::empty()) == 0);
    assert(text_width(one.drop_last()) == 0);
    assert(one.last() == c);
}

/// A padded text takes `n` columns, or more when it was already wider.
proof fn lemma_padded_width(s: Seq<char>, n: nat)
    ensures
        text_width(padded(s, n)) == if text_width(s) >= n { text_width(s) } else { n },
{
    if text_width(s) < n {
        text_width_is_additive(s, spaces((n - text_width(s)) as nat));
        lemma_spaces_width((n - text_width(s)) as nat);
    }
}

/// What fits of a text into `budget` columns leaves one of them free.
proof fn lemma_fit_width(s: Seq<char>, budget: int)
    requires
        budget >= 1,
    ensures
        fit_count(s, budget) <= s.len(),
        text_width(s.take(fit_count(s, budget) as int)) <= budget - 1,
    decreases s.len(),
{
    let k = fit_count(s, budget);
    if s.len() > 0 && char_width(s[0]) + 1 <= budget {
        let rest = s.drop_first();
        let b = budget - char_width(s[0]);
        lemma_fit_width(rest, b);
        assert(s.take(k as int) =~= seq![s[0]] + rest.take(fit_count(rest, b) as int));
        text_width_is_additive(seq![s[0]], rest.take(fit_count(rest, b) as int));
        lemma_char_text_width(s[0]);
    } else {
        assert(k == 0);
        assert(s.take(0) =~= Seq::<char>::empty());
        assert(text_width(s.take(0)) == 0);
    }
}

/// A text shown in a column `max` screen columns wide (at least one) takes
/// exactly `max` columns.
pub proof fn truncated_fills_column(s: Seq<char>, max: nat)
    requires
        max >= 1,
        text_width(s) <= usize::MAX,
    ensures
        text_width(truncated(s, max)) == max,
{
    if text_width(s) <= max {
        lemma_padded_width(s, max);
    } else {
        let t = s.take(fit_count(s, max as int) as int);
        lemma_fit_width(s, max as int);
        lemma_padded_width(t, (max - 1) as nat);
        let e = seq!['\u{2026}'];
        text_width_is_additive(padded(t, (max - 1) as nat), e);
        lemma_char_text_width('\u{2026}');
        assert(char_width('\u{2026}') == 1);
        assert(truncated(s, max) == padded(t, (max - 1) as nat) + e);
    }
}

/// The columns a character takes on screen; see `char_width`.
pub fn char_columns(c: char) -> (w: usize)
    ensures
        w == char_width(c),
{
    if (c as u32) > 0x2E7F { 2 } else { 1 }
}

/// The columns a text takes on screen (capped at `usize::MAX`); see `text_width`.
pub fn display_width(s: &str) -> (w: usize)
    ensures
        w == capped(text_width(s@)),
{
    let v = chars_of(s);
    let mut w: usize = 0;
    let mut i: usize = 0;
    while i < v.len()
        invariant
            v@ == s@,
            i <= v@.len(),
            w == capped(text_width(v@.take(i as int))),
        decreases v@.len() - i,
    {
        assert(v@.take(i + 1).drop_last() =~= v@.take(i as int));
        w = w.saturating_add(char_columns(v[i]));
        i = i + 1;
    }
    assert(v@.take(v@.len() as int) =~= v@);
    w
}

/// What fits of a text is the longest start that leaves a column free: one
/// more character would not leave it.
proof fn lemma_fit_is_longest(s: Seq<char>, budget: int)
    requires
        budget >= 1,
    ensures
        fit_count(s, budget) < s.len() ==> text_width(s.take(fit_count(s, budget) as int + 1)) > budget - 1,
    decreases s.len(),
{
    let k = fit_count(s, budget);
    if s.len() > 0 {
        lemma_char_text_width(s[0]);
        if char_width(s[0]) + 1 <= budget {
            let rest = s.drop_first();
            let b = budget - char_width(s[0]);
            lemma_fit_is_longest(rest, b);
            if k < s.len() {
                assert(s.take(k as int + 1) =~= seq![s[0]] + rest.take(fit_count(rest, b) as int + 1));
                text_width_is_additive(seq![s[0]], rest.take(fit_count(rest, b) as int + 1));
            }
        } else {
            assert(s.take(1) =~= seq![s[0]]);
        }
    }
}

/// A text that fits its column is shown whole, followed by spaces; a text
/// that does not is shown as its longest start that leaves one column free,
/// followed by spaces and an ellipsis in the last place.
pub proof fn truncated_shows_text(s: Seq<char>, max: nat)
    requires
        text_width(s) <= usize::MAX,
    ensures
        ({
            let r = truncated(s, max);
            let k = fit_count(s, max as int);
            &&& text_width(s) <= max ==> {
                &&& r.len() >= s.len()
                &&& r.take(s.len() as int) == s
                &&& forall|i: int| s.len() <= i < r.len() ==> #[trigger] r[i] == ' '
            }
            &&& text_width(s) > max && max >= 1 ==> {
                &&& k <= s.len()
                &&& r.len() >= k + 1
                &&& r.take(k as int) == s.take(k as int)
                &&& forall|i: int| k <= i < r.len() - 1 ==> #[trigger] r[i] == ' '
                &&& r[r.len() - 1] == '\u{2026}'
                &&& text_width(s.take(k as int)) <= max - 1
                &&& k < s.len() ==> text_width(s.take(k as int + 1)) > max - 1
            }
        }),
{
    let r = truncated(s, max);
    if text_width(s) <= max {
        assert(r.take(s.len() as int) =~= s);
    } else if max >= 1 {
        let k = fit_count(s, max as int);
        lemma_fit_width(s, max as int);
        lemma_fit_is_longest(s, max as int);
        let t = s.take(k as int);
        let p = padded(t, (max - 1) as nat);
        assert(r == p + seq!['\u{2026}']);
        assert(r.take(k as int) =~= t);
    }
}

/// Appends spaces to `v`, which takes `w` columns (capped), until it takes
/// `n` columns.
fn pad_to(v: &mut Vec<char>, w: usize, n: usize)
    requires
        w == capped(text_width(old(v)@)),
    ensures
        final(v)@ == padded(old(v)@, n as nat),
{
    let ghost start = v@;
    let mut w = w;
    while w < n
        invariant
            w == capped(text_width(start)) + (v@.len() - start.len()),
            v@ == start + spaces((v@.len() - start.len()) as nat),
            v@.len() >= start.len(),
            w <= n || v@.len() == start.len(),
        decreases n - w,
    {
        let ghost k = (v@.len() - start.len()) as nat;
        v.push(' ');
        w = w + 1;
        assert(v@ =~= start + spaces(k + 1));
    }
    proof {
        let k = (v@.len() - start.len()) as nat;
        if text_width(start) >= n as nat {
            assert(k == 0);
            assert(v@ =~= start);
        } else {
            assert(v@ == start + spaces((n - text_width(start)) as nat));
        }
    }
}

/// A text fitted into a column `max_chars` screen columns wide; see `truncated`.
pub fn truncate(s: &str, max_chars: usize) -> (r: String)
    ensures
        r@ == truncated(s@, max_chars as nat),
{
    let w = display_width(s);
    let mut v = chars_of(s);
    if w <= max_chars {
        pad_to(&mut v, w, max_chars);
        return string_from_chars(v.as_slice());
    }
    let mut out: Vec<char> = Vec::new();
    let mut used: usize = 0;
    let mut i: usize = 0;
    assert(v@.skip(0) =~= v@);
    assert(v@.take(0) =~= Seq::<char>::empty());
    while i < v.len()
        invariant
            v@ == s@,
            i <= v@.len(),
            out@ == v@.take(i as int),
            used == text_width(v@.take(i as int)),
            used < max_chars || (used == 0 && i == 0),
            fit_count(s@, max_chars as int) == i + fit_count(v@.skip(i as int), max_chars - used),
        ensures
            out@ == v@.take(i as int),
            used == text_width(v@.take(i as int)),
            used < max_chars || used == 0,
            fit_count(s@, max_chars as int) == i,
        decreases v@.len() - i,
    {
        let cw = char_columns(v[i]);
        assert(v@.skip(i as int).drop_first() =~= v@.skip(i + 1));
        assert(v@.skip(i as int)[0] == v@[i as int]);
        if used >= max_chars || cw + 1 > max_chars - used {
            break;
        }
        assert(v@.take(i + 1).drop_last() =~= v@.take(i as int));
        out.push(v[i]);
        used = used + cw;
        i = i + 1;
        assert(out@ =~= v@.take(i as int));
    }
    assert(out@ == s@.take(fit_count(s@, max_chars as int) as int));
    let width = if max_chars > 0 { max_chars - 1 } else { 0 };
    pad_to(&mut out, used, width);
    out.push('\u{2026}');
    string_from_chars(out.as_slice())
}


/// The widest shown text of column `c` among the first `n` rows.
pub open spec fn sampled_width(s: Seq<Seq<CellView>>, c: int, n: nat) -> nat
    decreases n,
{
    if n == 0 {
        0
    } else {
        let m = sampled_width(s, c, (n - 1) as nat);
        let w = capped(text_width(cell_text(cell_at(s, n - 1, c)))) as nat;
        if w > m { w } else { m }
    }
}

/// `x` brought into `[lo, hi]`.
pub open spec fn clamp(x: int, lo: int, hi: int) -> int {
    if x < lo { lo } else if x > hi { hi } else { x }
}

/// The width column `c` asks for: its widest text among the first 50 rows,
/// kept between 4 and 30 (4 for a sheet without rows).
pub open spec fn natural_width(s: Seq<Seq<CellView>>, c: int) -> nat {
    let n = if s.len() < 50 { s.len() } else { 50 };
    if n == 0 { 4 } else { clamp(sampled_width(s, c, n) as int, 4, 30) as nat }
}

/// The sum of the widths the first `k` columns ask for.
pub open spec fn widths_total(s: Seq<Seq<CellView>>, k: nat) -> nat
    decreases k,
{
    if k == 0 { 0 } else { widths_total(s, (k - 1) as nat) + natural_width(s, k - 1) }
}

/// The width given to column `c` when `available` screen columns are free:
/// what the column asks for, except that when all columns with one separator
/// each do not fit, no column gets more than an equal share of the space,
/// that share kept between 6 and 25.
pub open spec fn column_width(s: Seq<Seq<CellView>>, c: int, available: nat) -> nat {
    let cc = max_row_len(s);
    let w = natural_width(s, c);
    if widths_total(s, cc) + cc > available && cc > 0 {
        let share = clamp((available / cc) as int, 6, 25) as nat;
        if w < share { w } else { share }
    } else {
        w
    }
}

/// The widths of the active sheet's columns for `available_w` free screen
/// columns; see `column_width`.
pub fn compute_col_widths(app: &App, available_w: usize) -> (r: Vec<u16>)
    requires
        app.wf(),
        max_row_len(app.sheet_cells()) <= usize::MAX / 32,
    ensures
        r@.len() == max_row_len(app.sheet_cells()),
        forall|c: int| 0 <= c < r@.len() ==> #[trigger] r@[c] == column_width(app.sheet_cells(), c, available_w as nat),
{
    let sheet = app.current_sheet();
    let ghost s = app.sheet_cells();
    let col_count = sheet.col_count();
    let rc = sheet.row_count();
    let sample_rows: usize = if rc < 50 { rc } else { 50 };
    let mut widths: Vec<usize> = Vec::new();
    let mut total: usize = 0;
    let mut c: usize = 0;
    while c < col_count
        invariant
            s == sheet.cells(),
            col_count == max_row_len(s),
            col_count <= usize::MAX / 32,
            sample_rows == if s.len() < 50 { s.len() } else { 50 },
            c <= col_count,
            widths@.len() == c,
            forall|k: int| 0 <= k < c ==> #[trigger] widths@[k] == natural_width(s, k),
            total == widths_total(s, c as nat),
            total <= 30 * c,
        decreases col_count - c,
    {
        let mut m: usize = 0;
        let mut r: usize = 0;
        while r < sample_rows
            invariant
                s == sheet.cells(),
                sample_rows <= s.len(),
                r <= sample_rows,
                m == sampled_width(s, c as int, r as nat),
            decreases sample_rows - r,
        {
            let text = sheet.get(r, c).to_text();
            let w = display_width(text.as_str());
            if w > m {
                m = w;
            }
            r = r + 1;
        }
        let w = if sample_rows == 0 { 4 } else if m < 4 { 4 } else if m > 30 { 30 } else { m };
        widths.push(w);
        total = total + w;
        c = c + 1;
    }
    let squeeze = total + col_count > available_w && col_count > 0;
    let share: usize = if col_count > 0 {
        let q = available_w / col_count;
        if q < 6 { 6 } else if q > 25 { 25 } else { q }
    } else {
        0
    };
    let mut out: Vec<u16> = Vec::new();
    let mut k: usize = 0;
    while k < col_count
        invariant
            s == sheet.cells(),
            col_count == max_row_len(s),
            widths@.len() == col_count,
            forall|j: int| 0 <= j < col_count ==> #[trigger] widths@[j] == natural_width(s, j),
            total == widths_total(s, col_count as nat),
            squeeze == (total + col_count > available_w && col_count > 0),
            col_count > 0 ==> share == clamp((available_w / col_count) as int, 6, 25),
            k <= col_count,
            out@.len() == k,
            forall|j: int| 0 <= j < k ==> #[trigger] out@[j] == column_width(s, j, available_w as nat),
        decreases col_count - k,
    {
        let w = widths[k];
        assert(w <= 30);
        let v = if squeeze && share < w { share } else { w };
        out.push(v as u16);
        k = k + 1;
    }
    out
}

/// How many columns from `start` fit into `budget` screen columns, each with
/// one separator, counting as long as the next one fits.
pub open spec fn fit_cols(ws: Seq<u16>, start: int, budget: int) -> nat
    decreases ws.len() - start,
{
    if start < 0 || start >= ws.len() || ws[start] + 1 > budget {
        0
    } else {
        1 + fit_cols(ws, start + 1, budget - ws[start] - 1)
    }
}

/// The last column shown when showing starts at column `start` with `budget`
/// screen columns (`start` itself when not even it fits).
pub open spec fn last_visible(ws: Seq<u16>, start: int, budget: int) -> int {
    let n = fit_cols(ws, start, budget);
    if n == 0 { start } else { start + n - 1 }
}

/// The editor with the scroll position moved so that the cursor is shown:
/// `visible_h` data rows fit below the header row, and the columns of widths
/// `ws` are shown from the column offset within `visible_w` screen columns.
pub open spec fn synced(pre: App, visible_h: nat, ws: Seq<u16>, visible_w: nat) -> App {
    let dr = dec(pre.cursor_row as int);
    let ro = if dr < pre.row_offset {
        dr
    } else if dr >= pre.row_offset + visible_h {
        dr + 1 - visible_h
    } else {
        pre.row_offset as int
    };
    let co = if pre.cursor_col < pre.col_offset {
        pre.cursor_col
    } else if pre.cursor_col > last_visible(ws, pre.col_offset as int, visible_w as int) {
        pre.cursor_col
    } else {
        pre.col_offset
    };
    App { row_offset: ro as usize, col_offset: co, ..pre }
}

/// Moves the scroll position so that the cursor is shown; see `synced`.
pub fn sync_offsets(app: &mut App, visible_h: usize, col_widths: &[u16], visible_w: usize)
    requires
        dec(old(app).cursor_row as int) < old(app).row_offset || old(app).row_offset + visible_h <= usize::MAX,
    ensures
        *final(app) == synced(*old(app), visible_h as nat, col_widths@, visible_w as nat),
{
    let data_row = if app.cursor_row > 0 { app.cursor_row - 1 } else { 0 };
    if data_row < app.row_offset {
        app.row_offset = data_row;
    } else if data_row >= app.row_offset + visible_h {
        app.row_offset = data_row + 1 - visible_h;
    }
    if app.cursor_col < app.col_offset {
        app.col_offset = app.cursor_col;
    } else {
        let start = app.col_offset;
        let mut used: usize = 0;
        let mut last_shown = start;
        let mut c = start;
        while c < col_widths.len()
            invariant
                start <= c,
                used <= visible_w,
                c == start ==> used == 0 && last_shown == start,
                c > start ==> last_shown == c - 1,
                fit_cols(col_widths@, start as int, visible_w as int)
                    == (c - start) + fit_cols(col_widths@, c as int, visible_w - used),
            ensures
                last_shown == last_visible(col_widths@, start as int, visible_w as int),
            decreases col_widths@.len() - c,
        {
            let w = col_widths[c] as usize;
            if w + 1 > visible_w - used {
                break;
            }
            used = used + w + 1;
            last_shown = c;
            c = c + 1;
        }
        if app.cursor_col > last_shown {
            app.col_offset = app.cursor_col;
        }
    }
}


/// How a cell of the table is highlighted.
#[derive(Debug, Clone, Copy, PartialEq, Eq, Structural)]
pub enum CellLook {
    /// The cell under the cursor while editing it.
    Editing,
    /// The cell under the cursor.
    Cursor,
    /// A cell whose text contains the search query.
    Match,
    /// Any other cell.
    Plain,
}

/// How a data row of the table is shaded.
#[derive(Debug, Clone, Copy, PartialEq, Eq, Structural)]
pub enum RowLook {
    /// The cursor's row.
    Cursor,
    /// Rows at an even distance from the first data row.
    Even,
    /// Rows at an odd distance from the first data row.
    Odd,
}

/// The cell at `(r, c)` matches the non-empty lower-case query `q`.
pub open spec fn shows_match(s: Seq<Seq<CellView>>, q: Seq<char>, r: int, c: int) -> bool {
    q.len() > 0 && has_infix(spec_lowercase(cell_text(cell_at(s, r, c))), q)
}

/// The highlight of a cell: the cursor's cell shows as being edited in insert
/// mode and as the cursor otherwise; other cells show as matches when their
/// text, in lower case, contains the (non-empty) search query.
pub open spec fn look_of(a: App, r: int, c: int) -> CellLook {
    if r == a.cursor_row && c == a.cursor_col {
        if a.mode == Mode::Insert { CellLook::Editing } else { CellLook::Cursor }
    } else if shows_match(a.sheet_cells(), a.search_query@, r, c) {
        CellLook::Match
    } else {
        CellLook::Plain
    }
}

/// The highlight of the cell at `(r, c)` of the active sheet; see `look_of`.
pub fn cell_look(app: &App, r: usize, c: usize) -> (l: CellLook)
    requires
        app.wf(),
    ensures
        l == look_of(*app, r as int, c as int),
{
    if r == app.cursor_row && c == app.cursor_col {
        if app.mode == Mode::Insert { CellLook::Editing } else { CellLook::Cursor }
    } else {
        let q = chars_of(app.search_query.as_str());
        if q.len() == 0 {
            return CellLook::Plain;
        }
        let text = app.current_sheet().get(r, c).to_text();
        let lower = to_lowercase(text.as_str());
        let lv = chars_of(lower.as_str());
        if contains_chars(&lv, &q) { CellLook::Match } else { CellLook::Plain }
    }
}

/// The shade of data row `r`, counting from the first data row `data_start`:
/// the cursor's row stands out, the others alternate.
pub fn row_look(r: usize, data_start: usize, cursor_row: usize) -> (l: RowLook)
    requires
        data_start <= r,
    ensures
        r == cursor_row ==> l == RowLook::Cursor,
        r != cursor_row && (r - data_start) % 2 == 0 ==> l == RowLook::Even,
        r != cursor_row && (r - data_start) % 2 == 1 ==> l == RowLook::Odd,
{
    if r == cursor_row {
        RowLook::Cursor
    } else if (r - data_start) % 2 == 0 {
        RowLook::Even
    } else {
        RowLook::Odd
    }
}

/// The rows shown as data, as a range `(first, end)`: row 0 is the header when
/// there is more than one row; the data rows start after it, skip `row_offset`
/// rows and show at most `visible_h` rows.
pub fn visible_rows(row_count: usize, row_offset: usize, visible_h: usize) -> (r: (usize, usize))
    ensures
        ({
            let data_start: int = if row_count > 1 { 1 } else { 0 };
            let first = if data_start + row_offset < row_count { data_start + row_offset } else { row_count as int };
            let end = if first + visible_h < row_count { first + visible_h } else { row_count as int };
            r.0 == first && r.1 == end
        }),
{
    let data_start: usize = if row_count > 1 { 1 } else { 0 };
    let first = if row_offset < row_count - data_start { data_start + row_offset } else { row_count };
    let end = if visible_h < row_count - first { first + visible_h } else { row_count };
    (first, end)
}

/// Where the help overlay goes on a screen `w` by `h`: `(x, y, width, height)`,
/// at most 52 by 30, leaving a margin of 2 on each side, centred.
pub fn help_popup(w: u16, h: u16) -> (r: (u16, u16, u16, u16))
    ensures
        ({
            let width: int = if w >= 4 { if w - 4 < 52 { w - 4 } else { 52 } } else { 0 };
            let height: int = if h >= 4 { if h - 4 < 30 { h - 4 } else { 30 } } else { 0 };
            &&& r.2 == width
            &&& r.3 == height
            &&& r.0 == (w - width) / 2
            &&& r.1 == (h - height) / 2
        }),
{
    let wm = if w >= 4 { w - 4 } else { 0 };
    let hm = if h >= 4 { h - 4 } else { 0 };
    let width: u16 = if wm < 52 { wm } else { 52 };
    let height: u16 = if hm < 30 { hm } else { 30 };
    ((w - width) / 2, (h - height) / 2, width, height)
}

/// What the status bar shows: the search query with the selected hit and the
/// hit count; the command line; in insert mode the column's name (its cell in
/// row 0) and the edit buffer; otherwise the 1-based cursor position with the
/// sheet's size, the column's name, the value under the cursor and the status
/// message, if any.
#[derive(Debug, Clone)]
pub enum StatusLine {
    Search { query: String, hits: Option<(usize, usize)> },
    Command { line: String },
    Insert { column: String, buffer: String },
    Normal { row: usize, rows: usize, col: usize, cols: usize, column: String, value: String, message: Option<String> },
}

/// The text of an optional string.
pub open spec fn opt_text(o: Option<String>) -> Option<Seq<char>> {
    match o {
        Some(s) => Some(s@),
        None => None,
    }
}

/// The status bar's contents for the editor's state; see `StatusLine`.
pub fn status_line(app: &App) -> (s: StatusLine)
    requires
        app.wf(),
        app.cursor_row < usize::MAX,
        app.cursor_col < usize::MAX,
        app.search_idx < usize::MAX,
    ensures
        ({
            let cells = app.sheet_cells();
            let column = cell_text(cell_at(cells, 0, app.cursor_col as int));
            match app.mode {
                Mode::Search => s matches StatusLine::Search { query, hits } && {
                    &&& query@ == app.search_query@
                    &&& if app.search_hits@.len() == 0 {
                        hits is None
                    } else {
                        hits == Some(((app.search_idx + 1) as usize, app.search_hits@.len() as usize))
                    }
                },
                Mode::Command => s matches StatusLine::Command { line } && line@ == app.command_buffer@,
                Mode::Insert => s matches StatusLine::Insert { column: c, buffer } && c@ == column
                    && buffer@ == app.edit_buffer@,
                _ => s matches StatusLine::Normal { row, rows, col, cols, column: c, value, message } && {
                    &&& row == app.cursor_row + 1
                    &&& rows == cells.len()
                    &&& col == app.cursor_col + 1
                    &&& cols == max_row_len(cells)
                    &&& c@ == column
                    &&& value@ == cell_text(cell_at(cells, app.cursor_row as int, app.cursor_col as int))
                    &&& opt_text(message) == opt_text(app.status_msg)
                },
            }
        }),
{
    match app.mode {
        Mode::Search => {
            let n = app.search_hits.len();
            let hits = if n == 0 { None } else { Some((app.search_idx + 1, n)) };
            StatusLine::Search { query: owned(app.search_query.as_str()), hits }
        },
        Mode::Command => StatusLine::Command { line: owned(app.command_buffer.as_str()) },
        Mode::Insert => {
            let sheet = app.current_sheet();
            StatusLine::Insert {
                column: sheet.get(0, app.cursor_col).to_text(),
                buffer: owned(app.edit_buffer.as_str()),
            }
        },
        _ => {
            let sheet = app.current_sheet();
            let message = match &app.status_msg {
                Some(m) => Some(owned(m.as_str())),
                None => None,
            };
            StatusLine::Normal {
                row: app.cursor_row + 1,
                rows: sheet.row_count(),
                col: app.cursor_col + 1,
                cols: sheet.col_count(),
                column: sheet.get(0, app.cursor_col).to_text(),
                value: sheet.get(app.cursor_row, app.cursor_col).to_text(),
                message,
            }
        },
    }
}

/// The header's contents: the file's name (the whole path when it has no
/// file name), whether there are unsaved changes, and the sheet tabs, each
/// with its name and whether it is the active sheet.
pub fn header_parts(app: &App) -> (h: (String, bool, Vec<(String, bool)>))
    requires
        app.wf(),
    ensures
        h.0@ == match spec_path_file_name(app.data.file_path@) {
            Some(n) => n,
            None => app.data.file_path@,
        },
        h.1 == app.dirty,
        h.2@.len() == app.data.sheets@.len(),
        forall|i: int| 0 <= i < h.2@.len() ==> {
            &&& (#[trigger] h.2@[i]).0@ == app.data.sheets@[i].name@
            &&& h.2@[i].1 == (i == app.active_sheet)
        },
{
    let file = match path_file_name(app.data.file_path.as_str()) {
        Some(n) => n,
        None => owned(app.data.file_path.as_str()),
    };
    let mut tabs: Vec<(String, bool)> = Vec::new();
    let mut i: usize = 0;
    while i < app.data.sheets.len()
        invariant
            i <= app.data.sheets@.len(),
            tabs@.len() == i,
            forall|j: int| 0 <= j < i ==> {
                &&& (#[trigger] tabs@[j]).0@ == app.data.sheets@[j].name@
                &&& tabs@[j].1 == (j == app.active_sheet)
            },
        decreases app.data.sheets@.len() - i,
    {
        tabs.push((owned(app.data.sheets[i].name.as_str()), i == app.active_sheet));
        i = i + 1;
    }
    (file, app.dirty, tabs)
}

/// After the scroll position is synchronised, the cursor's data row is one
/// of the `visible_h` rows shown (when at least one is) and the cursor's column
/// is at or after the first column shown; nothing else changes.
pub proof fn sync_shows_cursor(pre: App, visible_h: nat, ws: Seq<u16>, visible_w: nat)
    requires
        visible_h >= 1,
        dec(pre.cursor_row as int) < pre.row_offset || pre.row_offset + visible_h <= usize::MAX,
    ensures
        ({
            let post = synced(pre, visible_h, ws, visible_w);
            &&& post.row_offset <= dec(pre.cursor_row as int) < post.row_offset + visible_h
            &&& post.col_offset <= pre.cursor_col
            &&& post == (App { row_offset: post.row_offset, col_offset: post.col_offset, ..pre })
        }),
{
}

}
