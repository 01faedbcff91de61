//! The sidebar's explorer view: what a key or a click asks of the tree,
//! mouse hit tests over the tree body, and the overlays layered over it
//! (the context menu, the name prompt, the delete confirmation and the
//! settings popup): their placement, keyboard and mouse handling, and
//! what running a menu entry or submitting a prompt leads to.

use vstd::prelude::*;

use crate::aa_sidebar::state;
use crate::aa_sidebar::ui::{hits, hits_collapse_button_spec, hits_spec, within, Rect};
use crate::icons::IconTheme;
use crate::keys::{Key, KeyPress, Mouse, MouseKind};
use crate::text::owned;
use crate::menu::{step, step_spec};
use crate::sidebar::actions::{entry_view, MenuAction, MenuEntry};

pub use crate::aa_sidebar::ui::hits_collapse_button;

verus! {

/// Which entries of a menu are actions (not separators).
pub open spec fn action_flags(entries: Seq<MenuEntry>) -> Seq<bool> {
    entries.map_values(|e: MenuEntry| entry_view(e) is Some)
}

fn flags_of(entries: &[MenuEntry]) -> (r: Vec<bool>)
    ensures
        r@ == action_flags(entries@),
{
    let mut r: Vec<bool> = Vec::new();
    let mut i: usize = 0;
    while i < entries.len()
        invariant
            0 <= i <= entries.len(),
            r@ == action_flags(entries@.take(i as int)),
        decreases entries.len() - i,
    {
        let is_action = match entries[i] {
            MenuEntry::Action(..) => true,
            MenuEntry::Separator => false,
        };
        r.push(is_action);
        assert(action_flags(entries@.take(i + 1)) =~= action_flags(entries@.take(i as int)).push(
            is_action,
        ));
        i += 1;
    }
    assert(entries@.take(entries.len() as int) =~= entries@);
    r
}

/// Next selectable (non-separator) menu index in `direction`, staying put
/// at the ends.
pub fn step_menu(entries: &[MenuEntry], from: usize, direction: isize) -> (r: usize)
    requires
        direction != 0 || from >= entries.len() || entry_view(entries@[from as int]) is Some,
    ensures
        r == step_spec(action_flags(entries@), from as int, direction as int),
        r == from || (r < entries.len() && entry_view(entries@[r as int]) is Some),
{
    let flags = flags_of(entries);
    let r = step(&flags, from, direction);
    assert(r == from || (r < entries.len() && action_flags(entries@)[r as int]));
    r
}

/// The first action of a menu (where a fresh menu's selection starts), or
/// 0 when there is none.
pub fn first_action(entries: &[MenuEntry]) -> (r: usize)
    ensures
        r == match crate::seqs::first_where(action_flags(entries@), |b: bool| b) {
            Some(i) => i as usize,
            None => 0,
        },
        (r < entries.len() && entry_view(entries@[r as int]) is Some) || forall|j: int|
            0 <= j < entries.len() ==> entry_view(#[trigger] entries@[j]) is None,
{
    let flags = flags_of(entries);
    let ghost p = |b: bool| b;
    let mut i: usize = 0;
    while i < flags.len()
        invariant
            0 <= i <= flags.len(),
            flags@ == action_flags(entries@),
            p == (|b: bool| b),
            forall|j: int| 0 <= j < i ==> !p(#[trigger] flags@[j]),
        decreases flags.len() - i,
    {
        if flags[i] {
            proof {
                crate::seqs::lemma_first_where_is(flags@, p, i as int);
            }
            return i;
        }
        i += 1;
    }
    proof {
        crate::seqs::lemma_first_where_none(flags@, p);
        assert forall|j: int| 0 <= j < entries.len() implies entry_view(#[trigger] entries@[j]) is None by {
            assert(!p(flags@[j]));
        }
    }
    0
}

/// True when a click at pane-local `column` lands on a row's disclosure
/// chevron: the two cells right after the row's indent of two cells per
/// level.
pub open spec fn hits_chevron_spec(column: u16, depth: usize) -> bool {
    let start = (2 * depth) % 65536;
    start <= column < start + 2
}

pub fn hits_chevron(column: u16, depth: usize) -> (r: bool)
    requires
        depth % 32768 != 32767,
    ensures
        r == hits_chevron_spec(column, depth),
{
    let m = depth % 32768;
    let start: u16 = (m * 2) as u16;
    assert((2 * depth) % 65536 == 2 * m) by (nonlinear_arith)
        requires
            m == depth % 32768,
            0 <= m < 32768,
    {
        let q = depth / 32768;
        assert(depth == 32768 * q + m);
        assert(2 * depth == 65536 * q + 2 * m);
    }
    column >= start && column < start + 2
}

/// Where the tree body was drawn last frame, for mouse hit tests.
#[derive(Clone, Copy, PartialEq, Eq, Debug, Default, Structural)]
pub struct BodyGeom {
    pub top: u16,
    pub height: u16,
    /// Scroll offset of the list at draw time.
    pub offset: usize,
}

/// The row index at a pane-local mouse row, when it lands on an actual row
/// of the body drawn at `body`.
pub open spec fn row_index_at_spec(body: BodyGeom, row_count: usize, mouse_row: u16) -> Option<usize> {
    if mouse_row < body.top || mouse_row >= body.top + body.height {
        None
    } else {
        let index = body.offset + (mouse_row - body.top);
        if index < row_count {
            Some(index as usize)
        } else {
            None
        }
    }
}

pub fn row_index_at(body: BodyGeom, row_count: usize, mouse_row: u16) -> (r: Option<usize>)
    ensures
        r == row_index_at_spec(body, row_count, mouse_row),
{
    if mouse_row < body.top || mouse_row as u32 >= body.top as u32 + body.height as u32 {
        return None;
    }
    let delta = (mouse_row - body.top) as usize;
    if body.offset >= row_count || delta >= row_count - body.offset {
        return None;
    }
    Some(body.offset + delta)
}

// ---------------------------------------------------------------------------
// Popups
// ---------------------------------------------------------------------------

/// Where the context menu pops up for a click at (x, y): as wide as the
/// longest label plus four cells and as tall as the entries plus the
/// border, clamped to the pane, anchored just below the click.
pub open spec fn menu_rect_spec(x: u16, y: u16, label_width: u16, entries: nat, area_w: u16, area_h: u16)
    -> Rect {
    let w = if label_width + 4 < area_w {
        label_width + 4
    } else {
        area_w as int
    };
    let h = if entries + 2 < area_h {
        (entries + 2) as int
    } else {
        area_h as int
    };
    let max_x = area_w - w;
    let max_y = area_h - h;
    Rect {
        x: (if x < max_x {
            x as int
        } else {
            max_x
        }) as u16,
        y: (if y + 1 < max_y {
            y + 1
        } else {
            max_y
        }) as u16,
        width: w as u16,
        height: h as u16,
    }
}

pub fn menu_rect(x: u16, y: u16, label_width: u16, entries: usize, area_w: u16, area_h: u16) -> (r:
    Rect)
    requires
        label_width + 4 <= u16::MAX,
        y + 1 <= u16::MAX,
        entries + 2 <= u16::MAX,
    ensures
        r == menu_rect_spec(x, y, label_width, entries as nat, area_w, area_h),
        r.x + r.width <= area_w,
        r.y + r.height <= area_h,
{
    let w = if label_width + 4 < area_w {
        label_width + 4
    } else {
        area_w
    };
    let n = entries as u16;
    let h = if n + 2 < area_h {
        n + 2
    } else {
        area_h
    };
    let max_x = area_w - w;
    let max_y = area_h - h;
    Rect {
        x: if x < max_x {
            x
        } else {
            max_x
        },
        y: if y + 1 < max_y {
            y + 1
        } else {
            max_y
        },
        width: w,
        height: h,
    }
}

/// The menu entry under a click inside the menu's border, when it is an
/// action.
pub open spec fn menu_item_at_spec(rect: Rect, entries: Seq<MenuEntry>, row: u16, col: u16) -> Option<
    usize,
> {
    let ix = rect.x + 1;
    let iy = rect.y + 1;
    let iw = if rect.width >= 2 {
        rect.width - 2
    } else {
        0
    };
    let ih = if rect.height >= 2 {
        rect.height - 2
    } else {
        0
    };
    if ix <= col < ix + iw && iy <= row < iy + ih {
        let i = row - iy;
        if i < entries.len() && entry_view(entries[i]) is Some {
            Some(i as usize)
        } else {
            None
        }
    } else {
        None
    }
}

pub fn menu_item_at(rect: Rect, entries: &[MenuEntry], row: u16, col: u16) -> (r: Option<usize>)
    ensures
        r == menu_item_at_spec(rect, entries@, row, col),
{
    let ix = rect.x as u32 + 1;
    let iy = rect.y as u32 + 1;
    let iw = if rect.width >= 2 {
        (rect.width - 2) as u32
    } else {
        0
    };
    let ih = if rect.height >= 2 {
        (rect.height - 2) as u32
    } else {
        0
    };
    let c = col as u32;
    let rw = row as u32;
    if c >= ix && c < ix + iw && rw >= iy && rw < iy + ih {
        let i = (rw - iy) as usize;
        if i < entries.len() {
            match entries[i] {
                MenuEntry::Action(..) => Some(i),
                MenuEntry::Separator => None,
            }
        } else {
            None
        }
    } else {
        None
    }
}

/// The settings popup: 30 columns wide (or the pane), rows plus three tall
/// (or the pane), centered horizontally and a third of the way down.
pub open spec fn settings_rect_spec(rows: nat, area_w: u16, area_h: u16) -> Rect {
    let w = if 30 < area_w {
        30
    } else {
        area_w as int
    };
    let h = if rows + 3 < area_h {
        (rows + 3) as int
    } else {
        area_h as int
    };
    Rect { x: ((area_w - w) / 2) as u16, y: ((area_h - h) / 3) as u16, width: w as u16, height: h as u16 }
}

pub fn settings_rect(rows: usize, area_w: u16, area_h: u16) -> (r: Rect)
    requires
        rows + 3 <= u16::MAX,
    ensures
        r == settings_rect_spec(rows as nat, area_w, area_h),
{
    let w: u16 = if 30 < area_w {
        30
    } else {
        area_w
    };
    let n = rows as u16;
    let h: u16 = if n + 3 < area_h {
        n + 3
    } else {
        area_h
    };
    Rect { x: (area_w - w) / 2, y: (area_h - h) / 3, width: w, height: h }
}

/// The settings row under a click: rows start just inside the top border,
/// between the side borders.
pub open spec fn settings_row_at_spec(rect: Rect, row_count: nat, row: u16, col: u16) -> Option<usize> {
    let right = if rect.width >= 1 {
        rect.width - 1
    } else {
        0
    };
    if col > rect.x && col < rect.x + right && row > rect.y && row < rect.y + 1 + row_count {
        Some((row - rect.y - 1) as usize)
    } else {
        None
    }
}

pub fn settings_row_at(rect: Rect, row_count: usize, row: u16, col: u16) -> (r: Option<usize>)
    requires
        row_count <= u16::MAX,
    ensures
        r == settings_row_at_spec(rect, row_count as nat, row, col),
{
    let right: u32 = if rect.width >= 1 {
        (rect.width - 1) as u32
    } else {
        0
    };
    if col > rect.x && (col as u32) < rect.x as u32 + right && row > rect.y && (row as u32)
        < rect.y as u32 + 1 + row_count as u32 {
        Some((row - rect.y - 1) as usize)
    } else {
        None
    }
}

/// One key in the name prompt: Backspace drops the last character, any
/// character is appended; Enter and Esc are handled by the caller.
pub open spec fn prompt_edit_spec(input: Seq<char>, k: KeyPress) -> Seq<char> {
    match k.key {
        Key::Backspace => if input.len() > 0 {
            input.drop_last()
        } else {
            input
        },
        Key::Char(c) => input.push(c),
        _ => input,
    }
}

pub fn prompt_edit(input: &mut String, k: KeyPress)
    ensures
        final(input)@ == prompt_edit_spec(old(input)@, k),
{
    match k.key {
        Key::Backspace => {
            let v = crate::text::chars_of(input.as_str());
            if v.len() > 0 {
                let kept = crate::text::slice_range(&v, 0, v.len() - 1);
                assert(kept@ =~= v@.drop_last());
                *input = crate::text::string_of(&kept);
            }
        },
        Key::Char(c) => crate::text::push_char(input, c),
        _ => {},
    }
}

// ---------------------------------------------------------------------------
// Overlays
// ---------------------------------------------------------------------------

/// What a name prompt's input is for.
#[derive(Clone, Debug, PartialEq, Eq)]
pub enum PromptKind {
    NewFile(String),
    NewFolder(String),
    Rename(String),
}

/// A modal layered over the tree; while one is open it owns keyboard and
/// mouse input.
#[derive(Clone, Debug, PartialEq, Eq)]
pub enum Overlay {
    Menu {
        x: u16,
        y: u16,
        /// Target path and whether it is a directory; `None` targets the
        /// workspace root.
        target: Option<(String, bool)>,
        entries: Vec<MenuEntry>,
        selected: usize,
        /// Where the menu was drawn last frame.
        rect: Rect,
    },
    Prompt { title: String, input: String, kind: PromptKind },
    ConfirmDelete { path: String, is_dir: bool },
    Settings { selected: usize, rect: Rect },
}

/// What an overlay event asks of the view.
#[derive(Clone, Debug, PartialEq, Eq)]
pub enum OverlayCmd {
    Nothing,
    /// Close the overlay.
    Close,
    /// Run the selected menu entry.
    Activate,
    /// Submit the prompt's input.
    ConfirmPrompt,
    /// Toggle the n-th setting.
    ToggleSetting(usize),
    /// Delete this path (a directory when the flag is set).
    DeleteConfirmed(String, bool),
    /// Open the context menu afresh at this cell.
    Reopen(u16, u16),
}

/// A menu's selection sits on an action (never on a separator), or past
/// the end of an empty menu.
pub open spec fn selection_on_action(ov: Overlay) -> bool {
    match ov {
        Overlay::Menu { entries, selected, .. } => selected >= entries.len() || entry_view(
            entries@[selected as int],
        ) is Some,
        _ => true,
    }
}

/// What a key asks of the view while `ov` is open. Settings: Esc, `q` and
/// `s` close, Enter and Space toggle the selected row. Menu: Esc closes,
/// Enter runs the entry. Prompt: Esc cancels, Enter submits. Delete
/// confirmation: `y`/`Y` deletes, any other key cancels. Every other key
/// (moving or editing) asks for nothing.
pub open spec fn overlay_key_cmd(ov: Overlay, k: KeyPress) -> OverlayCmd {
    match ov {
        Overlay::Settings { selected, .. } => match k.key {
            Key::Esc | Key::Char('q') | Key::Char('s') => OverlayCmd::Close,
            Key::Enter | Key::Char(' ') => OverlayCmd::ToggleSetting(selected),
            _ => OverlayCmd::Nothing,
        },
        Overlay::Menu { .. } => match k.key {
            Key::Esc => OverlayCmd::Close,
            Key::Enter => OverlayCmd::Activate,
            _ => OverlayCmd::Nothing,
        },
        Overlay::Prompt { .. } => match k.key {
            Key::Esc => OverlayCmd::Close,
            Key::Enter => OverlayCmd::ConfirmPrompt,
            _ => OverlayCmd::Nothing,
        },
        Overlay::ConfirmDelete { path, is_dir } => match k.key {
            Key::Char('y') | Key::Char('Y') => OverlayCmd::DeleteConfirmed(path, is_dir),
            _ => OverlayCmd::Close,
        },
    }
}

/// One key while an overlay is open. Settings: Esc/q/s close, arrows move,
/// Enter/Space toggle. Menu: Esc closes, arrows step over separators, Enter
/// runs. Prompt: Esc cancels, Enter submits, Backspace and characters
/// edit. Delete confirmation: `y`/`Y` deletes, anything else cancels.
pub fn overlay_key(ov: &mut Overlay, k: KeyPress, settings_rows: usize) -> (c: OverlayCmd)
    requires
        selection_on_action(*old(ov)),
    ensures
        selection_on_action(*final(ov)),
        c == overlay_key_cmd(*old(ov), k),
        match (*old(ov), *final(ov)) {
            (Overlay::Settings { selected: a, rect: r1 }, Overlay::Settings { selected: b, rect: r2 }) => r1
                == r2 && match k.key {
                Key::Up | Key::Char('k') => b == (if a >= 1 {
                    a - 1
                } else {
                    0
                }),
                Key::Down | Key::Char('j') => b as int == (if a + 1 < settings_rows {
                    a + 1
                } else if settings_rows >= 1 {
                    settings_rows - 1
                } else {
                    0
                }),
                _ => b == a,
            },
            (
                Overlay::Menu { x: x1, y: y1, target: t1, entries: e1, selected: a, rect: r1 },
                Overlay::Menu { x: x2, y: y2, target: t2, entries: e2, selected: b, rect: r2 },
            ) => x1 == x2 && y1 == y2 && t1 == t2 && r1 == r2 && e1 == e2 && match k.key {
                Key::Up | Key::Char('k') => b == step_spec(action_flags(e1@), a as int, -1),
                Key::Down | Key::Char('j') => b == step_spec(action_flags(e1@), a as int, 1),
                _ => b == a,
            },
            (
                Overlay::Prompt { title: t1, input: a, kind: k1 },
                Overlay::Prompt { title: t2, input: b, kind: k2 },
            ) => t1 == t2 && k1 == k2 && match k.key {
                Key::Backspace => b@ == (if a@.len() > 0 {
                    a@.drop_last()
                } else {
                    a@
                }),
                Key::Char(ch) => b@ == a@.push(ch),
                _ => b@ == a@,
            },
            (Overlay::ConfirmDelete { path: a, is_dir: x }, Overlay::ConfirmDelete { path: b, is_dir: y }) => a
                == b && x == y,
            _ => false,
        },
{
    match ov {
        Overlay::Settings { selected, .. } => match k.key {
            Key::Esc | Key::Char('q') | Key::Char('s') => OverlayCmd::Close,
            Key::Up | Key::Char('k') => {
                *selected = selected.saturating_sub(1);
                OverlayCmd::Nothing
            },
            Key::Down | Key::Char('j') => {
                let last = settings_rows.saturating_sub(1);
                *selected = if *selected < last {
                    *selected + 1
                } else {
                    last
                };
                OverlayCmd::Nothing
            },
            Key::Enter | Key::Char(' ') => OverlayCmd::ToggleSetting(*selected),
            _ => OverlayCmd::Nothing,
        },
        Overlay::Menu { entries, selected, .. } => match k.key {
            Key::Esc => OverlayCmd::Close,
            Key::Up | Key::Char('k') => {
                *selected = step_menu(entries.as_slice(), *selected, -1);
                OverlayCmd::Nothing
            },
            Key::Down | Key::Char('j') => {
                *selected = step_menu(entries.as_slice(), *selected, 1);
                OverlayCmd::Nothing
            },
            Key::Enter => OverlayCmd::Activate,
            _ => OverlayCmd::Nothing,
        },
        Overlay::Prompt { input, .. } => match k.key {
            Key::Esc => OverlayCmd::Close,
            Key::Backspace => {
                prompt_edit(input, k);
                OverlayCmd::Nothing
            },
            Key::Char(_) => {
                prompt_edit(input, k);
                OverlayCmd::Nothing
            },
            Key::Enter => OverlayCmd::ConfirmPrompt,
            _ => OverlayCmd::Nothing,
        },
        Overlay::ConfirmDelete { path, is_dir } => match k.key {
            Key::Char('y') | Key::Char('Y') => OverlayCmd::DeleteConfirmed(path.clone(), *is_dir),
            _ => OverlayCmd::Close,
        },
    }
}

/// `ov` with its selection moved to `i` (menus and settings only).
pub open spec fn with_selection(ov: Overlay, i: usize) -> Overlay {
    match ov {
        Overlay::Menu { x, y, target, entries, rect, .. } => Overlay::Menu {
            x,
            y,
            target,
            entries,
            selected: i,
            rect,
        },
        Overlay::Settings { rect, .. } => Overlay::Settings { selected: i, rect },
        _ => ov,
    }
}

/// The row or action under the pointer: a settings row, or an action of
/// the menu.
pub open spec fn overlay_item_at(ov: Overlay, m: Mouse, settings_rows: nat) -> Option<usize> {
    match ov {
        Overlay::Settings { rect, .. } => settings_row_at_spec(rect, settings_rows, m.row, m.column),
        Overlay::Menu { rect, entries, .. } => menu_item_at_spec(rect, entries@, m.row, m.column),
        _ => None,
    }
}

/// What a mouse event asks of the view while `ov` is open.
pub open spec fn overlay_mouse_cmd(ov: Overlay, m: Mouse, settings_rows: nat) -> OverlayCmd {
    let item = overlay_item_at(ov, m, settings_rows);
    match ov {
        Overlay::Settings { rect, .. } => match m.kind {
            MouseKind::LeftDown => match item {
                Some(i) => OverlayCmd::ToggleSetting(i),
                None => if hits_spec(rect, m.column, m.row) {
                    OverlayCmd::Nothing
                } else {
                    OverlayCmd::Close
                },
            },
            _ => OverlayCmd::Nothing,
        },
        Overlay::Menu { .. } => match m.kind {
            MouseKind::LeftDown => match item {
                Some(_) => OverlayCmd::Activate,
                None => OverlayCmd::Close,
            },
            MouseKind::RightDown => OverlayCmd::Reopen(m.column, m.row),
            _ => OverlayCmd::Nothing,
        },
        _ => OverlayCmd::Nothing,
    }
}

/// The overlay after a mouse event: hovering or clicking an item selects it.
pub open spec fn overlay_mouse_next(ov: Overlay, m: Mouse, settings_rows: nat) -> Overlay {
    match (m.kind, overlay_item_at(ov, m, settings_rows)) {
        (MouseKind::Moved, Some(i)) => with_selection(ov, i),
        (MouseKind::LeftDown, Some(i)) => with_selection(ov, i),
        _ => ov,
    }
}

/// One mouse event while an overlay is open. Settings and menu: hovering
/// moves the selection; a click on a row or action runs it; a click
/// outside the popup closes it (a click on the settings popup's border does
/// nothing); a right click reopens the context menu where it landed.
/// Prompts and confirmations ignore the mouse.
pub fn overlay_mouse(ov: &mut Overlay, m: Mouse, settings_rows: usize) -> (c: OverlayCmd)
    requires
        settings_rows <= u16::MAX,
    ensures
        selection_on_action(*old(ov)) ==> selection_on_action(*final(ov)),
        c == overlay_mouse_cmd(*old(ov), m, settings_rows as nat),
        *final(ov) == overlay_mouse_next(*old(ov), m, settings_rows as nat),
{
    match ov {
        Overlay::Settings { selected, rect } => match m.kind {
            MouseKind::Moved => {
                if let Some(i) = settings_row_at(*rect, settings_rows, m.row, m.column) {
                    *selected = i;
                }
                OverlayCmd::Nothing
            },
            MouseKind::LeftDown => match settings_row_at(*rect, settings_rows, m.row, m.column) {
                Some(i) => {
                    *selected = i;
                    OverlayCmd::ToggleSetting(i)
                },
                None => if hits(*rect, m.column, m.row) {
                    OverlayCmd::Nothing
                } else {
                    OverlayCmd::Close
                },
            },
            _ => OverlayCmd::Nothing,
        },
        Overlay::Menu { entries, selected, rect, .. } => match m.kind {
            MouseKind::Moved => {
                if let Some(i) = menu_item_at(*rect, entries.as_slice(), m.row, m.column) {
                    *selected = i;
                }
                OverlayCmd::Nothing
            },
            MouseKind::LeftDown => match menu_item_at(*rect, entries.as_slice(), m.row, m.column) {
                Some(i) => {
                    *selected = i;
                    OverlayCmd::Activate
                },
                None => OverlayCmd::Close,
            },
            MouseKind::RightDown => OverlayCmd::Reopen(m.column, m.row),
            _ => OverlayCmd::Nothing,
        },
        _ => OverlayCmd::Nothing,
    }
}

// ---------------------------------------------------------------------------
// Settings
// ---------------------------------------------------------------------------

/// One row of the settings popup.
#[derive(Clone, Copy, PartialEq, Eq, Debug, Structural)]
pub enum Setting {
    UnifiedSidebar,
    IconTheme,
    HiddenFiles,
}

/// A settings row: what it toggles, its label, the current value, and
/// whether it can be toggled (disabled rows render dimmed).
#[derive(Clone, Copy, PartialEq, Eq, Debug)]
pub struct SettingRow {
    pub setting: Setting,
    pub label: &'static str,
    pub value: &'static str,
    pub enabled: bool,
}

/// The popup's rows: the unified sidebar (only when the other view is
/// available), the icon theme, and hidden files.
pub fn settings_rows(merged: bool, other_available: bool, theme: IconTheme, show_hidden: bool) -> (r:
    Vec<SettingRow>)
    ensures
        r@.len() == 3,
        r@[0].setting == Setting::UnifiedSidebar && r@[0].label@ == "Unified sidebar"@ && r@[0].value@
            == (if merged {
            "on"@
        } else {
            "off"@
        }) && r@[0].enabled == other_available,
        r@[1].setting == Setting::IconTheme && r@[1].label@ == "Icon theme"@ && r@[1].value@
            == crate::icons::theme_name_spec(theme) && r@[1].enabled,
        r@[2].setting == Setting::HiddenFiles && r@[2].label@ == "Hidden files"@ && r@[2].value@
            == (if show_hidden {
            "shown"@
        } else {
            "hidden"@
        }) && r@[2].enabled,
{
    let mut r: Vec<SettingRow> = Vec::new();
    r.push(
        SettingRow {
            setting: Setting::UnifiedSidebar,
            label: "Unified sidebar",
            value: if merged {
                "on"
            } else {
                "off"
            },
            enabled: other_available,
        },
    );
    r.push(
        SettingRow {
            setting: Setting::IconTheme,
            label: "Icon theme",
            value: theme.state_name(),
            enabled: true,
        },
    );
    r.push(
        SettingRow {
            setting: Setting::HiddenFiles,
            label: "Hidden files",
            value: if show_hidden {
                "shown"
            } else {
                "hidden"
            },
            enabled: true,
        },
    );
    r
}

/// Which setting a toggle of row `index` changes: nothing for a row that
/// does not exist or is disabled.
pub fn setting_to_toggle(rows: &Vec<SettingRow>, index: usize) -> (r: Option<Setting>)
    ensures
        r == (if index < rows@.len() && rows@[index as int].enabled {
            Some(rows@[index as int].setting)
        } else {
            None
        }),
{
    if index < rows.len() && rows[index].enabled {
        Some(rows[index].setting)
    } else {
        None
    }
}

/// The folder a "New File…" or "New Folder…" entry creates in: the target
/// folder itself, a file's parent (`parent`, when it has one), or the
/// workspace root.
pub fn create_dir(target: &Option<(String, bool)>, parent: Option<&str>, root: &str) -> (r: String)
    ensures
        r@ == match *target {
            Some((path, true)) => path@,
            Some((_, false)) => match parent {
                Some(p) => p@,
                None => root@,
            },
            None => root@,
        },
{
    match target {
        Some((path, true)) => owned(path.as_str()),
        Some((_, false)) => match parent {
            Some(p) => owned(p),
            None => owned(root),
        },
        None => owned(root),
    }
}

// ---------------------------------------------------------------------------
// Keys and clicks on the tree
// ---------------------------------------------------------------------------

/// What a key asks of the explorer when no overlay is open.
#[derive(Clone, Copy, PartialEq, Eq, Debug, Structural)]
pub enum ExplorerCmd {
    Nothing,
    Quit,
    /// Leave sliver mode.
    Expand,
    /// Move the selection by this many rows (clamped to the list).
    MoveBy(isize),
    /// Select the first row.
    SelectFirst,
    /// Select the last row.
    SelectLast,
    ExpandOrEnter,
    CollapseOrParent,
    Toggle,
    /// Re-read the tree from disk.
    Refresh,
    ToggleHidden,
    ToggleTheme,
    /// Fold the pane to its sliver.
    Collapse,
    OpenSettings,
    SwitchTo(state::View),
}

pub open spec fn explorer_key_spec(k: KeyPress, collapsed: bool, page: int) -> ExplorerCmd {
    if collapsed {
        if k.key == Key::Char('q') {
            ExplorerCmd::Quit
        } else {
            ExplorerCmd::Expand
        }
    } else {
        match k.key {
            Key::Char('q') | Key::Esc => ExplorerCmd::Quit,
            Key::Up | Key::Char('k') => ExplorerCmd::MoveBy(-1isize),
            Key::Down | Key::Char('j') => ExplorerCmd::MoveBy(1isize),
            Key::PageUp => ExplorerCmd::MoveBy((-page) as isize),
            Key::PageDown => ExplorerCmd::MoveBy(page as isize),
            Key::Home | Key::Char('g') => ExplorerCmd::SelectFirst,
            Key::End | Key::Char('G') => ExplorerCmd::SelectLast,
            Key::Right | Key::Char('l') => ExplorerCmd::ExpandOrEnter,
            Key::Left | Key::Char('h') => ExplorerCmd::CollapseOrParent,
            Key::Enter | Key::Char(' ') => ExplorerCmd::Toggle,
            Key::Char('r') => ExplorerCmd::Refresh,
            Key::Char('.') => ExplorerCmd::ToggleHidden,
            Key::Char('i') => ExplorerCmd::ToggleTheme,
            Key::Char('b') => ExplorerCmd::Collapse,
            Key::Char('s') => ExplorerCmd::OpenSettings,
            Key::Char('1') => ExplorerCmd::SwitchTo(state::View::Explorer),
            Key::Char('2') => ExplorerCmd::SwitchTo(state::View::SourceControl),
            _ => ExplorerCmd::Nothing,
        }
    }
}

/// One key press with no overlay open. A folded pane only expands (any
/// key) or quits (`q`); otherwise the usual tree keys: arrows/`jk` move,
/// PageUp/PageDown move a page, Home/End (`g`/`G`) jump, Right/`l` and
/// Left/`h` open and close folders, Enter/Space toggle, `r` refreshes, `.`
/// shows hidden files, `i` switches icons, `b` folds the pane, `s` opens
/// the settings and `1`/`2` switch views.
pub fn explorer_key(k: KeyPress, collapsed: bool, page: usize) -> (c: ExplorerCmd)
    requires
        page <= isize::MAX,
    ensures
        c == explorer_key_spec(k, collapsed, page as int),
{
    if collapsed {
        return if k.key == Key::Char('q') {
            ExplorerCmd::Quit
        } else {
            ExplorerCmd::Expand
        };
    }
    let p = page as isize;
    match k.key {
        Key::Char('q') | Key::Esc => ExplorerCmd::Quit,
        Key::Up | Key::Char('k') => ExplorerCmd::MoveBy(-1isize),
        Key::Down | Key::Char('j') => ExplorerCmd::MoveBy(1isize),
        Key::PageUp => ExplorerCmd::MoveBy(-p),
        Key::PageDown => ExplorerCmd::MoveBy(p),
        Key::Home | Key::Char('g') => ExplorerCmd::SelectFirst,
        Key::End | Key::Char('G') => ExplorerCmd::SelectLast,
        Key::Right | Key::Char('l') => ExplorerCmd::ExpandOrEnter,
        Key::Left | Key::Char('h') => ExplorerCmd::CollapseOrParent,
        Key::Enter | Key::Char(' ') => ExplorerCmd::Toggle,
        Key::Char('r') => ExplorerCmd::Refresh,
        Key::Char('.') => ExplorerCmd::ToggleHidden,
        Key::Char('i') => ExplorerCmd::ToggleTheme,
        Key::Char('b') => ExplorerCmd::Collapse,
        Key::Char('s') => ExplorerCmd::OpenSettings,
        Key::Char('1') => ExplorerCmd::SwitchTo(state::View::Explorer),
        Key::Char('2') => ExplorerCmd::SwitchTo(state::View::SourceControl),
        _ => ExplorerCmd::Nothing,
    }
}

/// Activity-bar click zones from the last draw: the bar's row and the
/// column ranges of the explorer and source-control icons.
#[derive(Clone, Copy, PartialEq, Eq, Debug)]
pub struct ActivityZones {
    pub row: u16,
    pub explorer: (u16, u16),
    pub source_control: (u16, u16),
}

/// Before the first draw nothing hit-tests true: the bar sits on row
/// `u16::MAX` with empty ranges.
pub fn no_activity_zones() -> (z: ActivityZones)
    ensures
        z.row == u16::MAX,
        z.explorer == (0u16, 0u16),
        z.source_control == (0u16, 0u16),
{
    ActivityZones { row: u16::MAX, explorer: (0, 0), source_control: (0, 0) }
}

/// What a mouse event on the explorer (no overlay open) lands on.
#[derive(Clone, Copy, PartialEq, Eq, Debug)]
pub enum ExplorerClick {
    Nothing,
    /// Leave sliver mode.
    Expand,
    /// Remember the hovered row (or none).
    Hover(Option<usize>),
    MoveBy(isize),
    SwitchTo(state::View),
    OpenSettings,
    /// Fold the pane to its sliver.
    Collapse,
    /// A left click on this tree row.
    Row(usize),
    /// Open the context menu at this cell.
    ContextMenu(u16, u16),
}

/// The pane's state and last-frame geometry that a click is tested against.
#[derive(Clone, Copy, PartialEq, Eq, Debug)]
pub struct ExplorerFrame {
    pub collapsed: bool,
    /// Whether both views share one pane (the activity bar is shown).
    pub merged: bool,
    pub activity: ActivityZones,
    pub gear: Rect,
    pub width: u16,
    pub height: u16,
    pub body: BodyGeom,
    pub row_count: usize,
}

pub open spec fn explorer_mouse_spec(f: ExplorerFrame, m: Mouse) -> ExplorerClick {
    let row = row_index_at_spec(f.body, f.row_count, m.row);
    if f.collapsed {
        if m.kind == MouseKind::LeftDown {
            ExplorerClick::Expand
        } else {
            ExplorerClick::Nothing
        }
    } else {
        match m.kind {
            MouseKind::Moved => ExplorerClick::Hover(row),
            MouseKind::ScrollUp => ExplorerClick::MoveBy(-3isize),
            MouseKind::ScrollDown => ExplorerClick::MoveBy(3isize),
            MouseKind::LeftDown => if f.merged && m.row == f.activity.row && f.activity.explorer.0
                <= m.column < f.activity.explorer.1 {
                ExplorerClick::SwitchTo(state::View::Explorer)
            } else if f.merged && m.row == f.activity.row && f.activity.source_control.0 <= m.column
                < f.activity.source_control.1 {
                ExplorerClick::SwitchTo(state::View::SourceControl)
            } else if hits_spec(f.gear, m.column, m.row) {
                ExplorerClick::OpenSettings
            } else if hits_collapse_button_spec(m.column, m.row, f.width, f.height) {
                ExplorerClick::Collapse
            } else {
                match row {
                    Some(i) => ExplorerClick::Row(i),
                    None => ExplorerClick::Nothing,
                }
            },
            MouseKind::RightDown => ExplorerClick::ContextMenu(m.column, m.row),
            _ => ExplorerClick::Nothing,
        }
    }
}

/// One mouse event with no overlay open. A folded pane expands on a left
/// click. Otherwise: hovering tracks the row under the pointer, the wheel
/// moves three rows, a left click tries the activity bar (unified mode),
/// the gear, the collapse button, then the tree rows in that order, and a
/// right click opens the context menu.
pub fn explorer_mouse(f: ExplorerFrame, m: Mouse) -> (c: ExplorerClick)
    ensures
        c == explorer_mouse_spec(f, m),
{
    if f.collapsed {
        return if m.kind == MouseKind::LeftDown {
            ExplorerClick::Expand
        } else {
            ExplorerClick::Nothing
        };
    }
    match m.kind {
        MouseKind::Moved => ExplorerClick::Hover(row_index_at(f.body, f.row_count, m.row)),
        MouseKind::ScrollUp => ExplorerClick::MoveBy(-3isize),
        MouseKind::ScrollDown => ExplorerClick::MoveBy(3isize),
        MouseKind::LeftDown => {
            if f.merged && m.row == f.activity.row {
                if within(m.column, f.activity.explorer) {
                    return ExplorerClick::SwitchTo(state::View::Explorer);
                }
                if within(m.column, f.activity.source_control) {
                    return ExplorerClick::SwitchTo(state::View::SourceControl);
                }
            }
            if hits(f.gear, m.column, m.row) {
                return ExplorerClick::OpenSettings;
            }
            if hits_collapse_button(m.column, m.row, f.width, f.height) {
                return ExplorerClick::Collapse;
            }
            match row_index_at(f.body, f.row_count, m.row) {
                Some(i) => ExplorerClick::Row(i),
                None => ExplorerClick::Nothing,
            }
        },
        MouseKind::RightDown => ExplorerClick::ContextMenu(m.column, m.row),
        _ => ExplorerClick::Nothing,
    }
}

/// Two clicks on one row count as a double click within this many
/// milliseconds.
pub const DOUBLE_CLICK_MS: u128 = 450;

/// The click on row `index` is the second of a double click: the previous
/// click hit the same row less than `DOUBLE_CLICK_MS` before.
pub fn is_double_click(last: Option<(usize, u128)>, index: usize) -> (r: bool)
    ensures
        r == (last matches Some((i, elapsed)) && i == index && elapsed < DOUBLE_CLICK_MS),
{
    match last {
        Some((i, elapsed)) => i == index && elapsed < DOUBLE_CLICK_MS,
        None => false,
    }
}

/// What a left click on a tree row does.
#[derive(Clone, Copy, PartialEq, Eq, Debug, Structural)]
pub enum RowAction {
    Nothing,
    /// Fold or unfold the folder.
    Toggle,
    /// Open the file's preview.
    Preview,
}

/// A folder toggles when the click lands on its chevron or completes a
/// double click; a single click on its name only selects it. A click on a
/// file opens its preview.
pub fn row_action(is_dir: bool, on_chevron: bool, double: bool) -> (r: RowAction)
    ensures
        r == (if !is_dir {
            RowAction::Preview
        } else if on_chevron || double {
            RowAction::Toggle
        } else {
            RowAction::Nothing
        }),
{
    if !is_dir {
        RowAction::Preview
    } else if on_chevron || double {
        RowAction::Toggle
    } else {
        RowAction::Nothing
    }
}

/// What running a context-menu entry leads to.
#[derive(Clone, Debug, PartialEq, Eq)]
pub enum MenuOutcome {
    /// Nothing (the entry needs a target and there is none, or the explorer
    /// does not offer it); the menu is closed.
    Nothing,
    /// Replace the menu with this overlay (a name prompt or a delete
    /// confirmation).
    Open(Overlay),
    /// Copy the target's path, relative to the workspace root when the
    /// flag is set.
    Copy(String, bool),
    /// Reveal this path in the file manager (the workspace root when the
    /// menu had no target).
    Reveal(Option<String>),
}

/// Running `action` from a menu opened on `target`. `create_in` is the
/// folder new entries go to (see `create_dir`) and `current_name` the
/// target's file name, which a rename starts from.
pub fn menu_outcome(action: MenuAction, target: &Option<(String, bool)>, create_in: String, current_name: String) -> (r:
    MenuOutcome)
    ensures
        match action {
            MenuAction::NewFile => (r matches MenuOutcome::Open(Overlay::Prompt { title, input, kind })
                && title@ == "New file"@ && input@.len() == 0 && kind == PromptKind::NewFile(create_in)),
            MenuAction::NewFolder => (r matches MenuOutcome::Open(Overlay::Prompt { title, input, kind })
                && title@ == "New folder"@ && input@.len() == 0 && kind == PromptKind::NewFolder(create_in)),
            MenuAction::CopyPath => r == match *target {
                Some((path, _)) => MenuOutcome::Copy(path, false),
                None => MenuOutcome::Nothing,
            },
            MenuAction::CopyRelativePath => r == match *target {
                Some((path, _)) => MenuOutcome::Copy(path, true),
                None => MenuOutcome::Nothing,
            },
            MenuAction::Rename => match *target {
                Some((path, _)) => (r matches MenuOutcome::Open(Overlay::Prompt { title, input, kind })
                    && title@ == "Rename"@ && input == current_name && kind == PromptKind::Rename(path)),
                None => r == MenuOutcome::Nothing,
            },
            MenuAction::Delete => r == match *target {
                Some((path, is_dir)) => MenuOutcome::Open(Overlay::ConfirmDelete { path, is_dir }),
                None => MenuOutcome::Nothing,
            },
            MenuAction::Reveal => r == MenuOutcome::Reveal(
                match *target {
                    Some((path, _)) => Some(path),
                    None => None,
                },
            ),
            _ => r == MenuOutcome::Nothing,
        },
{
    match action {
        MenuAction::NewFile => MenuOutcome::Open(
            Overlay::Prompt { title: owned("New file"), input: String::new(), kind: PromptKind::NewFile(create_in) },
        ),
        MenuAction::NewFolder => MenuOutcome::Open(
            Overlay::Prompt {
                title: owned("New folder"),
                input: String::new(),
                kind: PromptKind::NewFolder(create_in),
            },
        ),
        MenuAction::CopyPath | MenuAction::CopyRelativePath => match target {
            Some((path, _)) => MenuOutcome::Copy(path.clone(), action == MenuAction::CopyRelativePath),
            None => MenuOutcome::Nothing,
        },
        MenuAction::Rename => match target {
            Some((path, _)) => MenuOutcome::Open(
                Overlay::Prompt { title: owned("Rename"), input: current_name, kind: PromptKind::Rename(path.clone()) },
            ),
            None => MenuOutcome::Nothing,
        },
        MenuAction::Delete => match target {
            Some((path, is_dir)) => MenuOutcome::Open(Overlay::ConfirmDelete { path: path.clone(), is_dir: *is_dir }),
            None => MenuOutcome::Nothing,
        },
        MenuAction::Reveal => MenuOutcome::Reveal(
            match target {
                Some((path, _)) => Some(path.clone()),
                None => None,
            },
        ),
        _ => MenuOutcome::Nothing,
    }
}

/// The context menu opened at (x, y) on `target` (a path and whether it is
/// a folder; `None` on empty space, for the workspace root): the entries
/// for that target, with the first action selected.
pub fn open_menu(x: u16, y: u16, target: Option<(String, bool)>) -> (ov: Overlay)
    ensures
        (ov matches Overlay::Menu { x: x2, y: y2, target: t, entries, selected, rect } && x2 == x && y2 == y
            && t == target && entries@.map_values(|e: MenuEntry| entry_view(e)) == crate::sidebar::actions::menu_spec(
            match target {
                Some((_, is_dir)) => Some(is_dir),
                None => None,
            },
        ) && selected == 0 && rect == Rect { x: 0, y: 0, width: 0, height: 0 }),
        selection_on_action(ov),
{
    let kind = match &target {
        Some((_, is_dir)) => Some(*is_dir),
        None => None,
    };
    let entries = crate::sidebar::actions::menu_entries(kind);
    proof {
        crate::sidebar::actions::lemma_menu_shape(kind);
        assert(entries@.map_values(|e: MenuEntry| entry_view(e))[0] == entry_view(entries@[0]));
    }
    let selected = first_action(entries.as_slice());
    proof {
        if selected != 0 {
            let p = |b: bool| b;
            assert(action_flags(entries@)[0]);
            crate::seqs::lemma_first_where_is(action_flags(entries@), p, 0);
        }
    }
    Overlay::Menu { x, y, target, entries, selected, rect: Rect { x: 0, y: 0, width: 0, height: 0 } }
}

/// What a folded explorer shows: a blank line, then the theme's closed
/// folder glyph (the same glyph the activity bar uses for the explorer).
pub fn sliver_lines(theme: IconTheme) -> (r: Vec<String>)
    ensures
        r@.len() == 2,
        r@[0]@.len() == 0,
        theme == IconTheme::Material ==> r@[1]@ == "\u{f07b}"@,
        theme == IconTheme::Emoji ==> r@[1]@ == "📁"@,
{
    let (folder, _) = crate::aa_sidebar::ui::activity_icons(theme);
    let mut r: Vec<String> = Vec::new();
    r.push(String::new());
    r.push(owned(folder));
    r
}

/// The footer's key hints: the tree keys, then the view switch keys when
/// both views share the pane.
pub open spec fn explorer_hints_spec(merged: bool) -> Seq<(Seq<char>, Seq<char>)> {
    seq![
        ("↑↓"@, "move"@),
        ("←→"@, "fold"@),
        ("⏎"@, "toggle"@),
        ("r"@, "refresh"@),
        ("."@, "dotfiles"@),
        ("s"@, "settings"@),
        ("b"@, "collapse"@),
        ("q"@, "quit"@),
    ] + if merged {
        seq![("1"@, "files"@), ("2"@, "git"@)]
    } else {
        Seq::empty()
    }
}

pub fn explorer_hints(merged: bool) -> (r: Vec<(&'static str, &'static str)>)
    ensures
        r@.map_values(|h: (&'static str, &'static str)| (h.0@, h.1@)) == explorer_hints_spec(merged),
{
    let mut r: Vec<(&'static str, &'static str)> = Vec::new();
    r.push(("↑↓", "move"));
    r.push(("←→", "fold"));
    r.push(("⏎", "toggle"));
    r.push(("r", "refresh"));
    r.push((".", "dotfiles"));
    r.push(("s", "settings"));
    r.push(("b", "collapse"));
    r.push(("q", "quit"));
    if merged {
        r.push(("1", "files"));
        r.push(("2", "git"));
    }
    assert(r@.map_values(|h: (&'static str, &'static str)| (h.0@, h.1@)) =~= explorer_hints_spec(merged));
    r
}

/// Footer lines: one while a notice or an overlay is shown, else as many
/// as the hints wrap into (three columns stay free for the collapse
/// button), given the hints' rendered widths.
pub fn footer_height(blocked: bool, hint_widths: &Vec<usize>, width: u16) -> (r: u16)
    ensures
        r == (if blocked {
            1
        } else {
            crate::aa_sidebar::ui::pack_spec(
                hint_widths@.map_values(|w: usize| w as int),
                crate::aa_sidebar::ui::hint_limit(width, 3),
            ).0.len() as u16
        }),
{
    if blocked {
        return 1;
    }
    let lines = crate::aa_sidebar::ui::pack_hints(hint_widths, width, 3);
    lines.len() as u16
}

/// The file operation a submitted name prompt asks for.
#[derive(Clone, Debug, PartialEq, Eq)]
pub enum PromptOp {
    /// Create the file `name` inside `dir`.
    CreateFile { dir: String, name: String },
    /// Create the folder `name` inside `dir`.
    CreateFolder { dir: String, name: String },
    /// Rename `path` to `name` (in the same folder).
    Rename { path: String, name: String },
}

/// The operation for a submitted prompt: `None` (the view shows "invalid
/// name") unless the input is a usable file name, which is then trimmed.
pub fn prompt_op(kind: &PromptKind, input: &str) -> (r: Option<PromptOp>)
    ensures
        match crate::sidebar::actions::valid_name_spec(input@) {
            None => r is None,
            Some(n) => match *kind {
                PromptKind::NewFile(dir) => (r matches Some(PromptOp::CreateFile { dir: d, name })
                    && d == dir && name@ == n),
                PromptKind::NewFolder(dir) => (r matches Some(PromptOp::CreateFolder { dir: d, name })
                    && d == dir && name@ == n),
                PromptKind::Rename(path) => (r matches Some(PromptOp::Rename { path: p, name }) && p == path
                    && name@ == n),
            },
        },
{
    let name = match crate::sidebar::actions::validate_name(input) {
        Some(n) => owned(n),
        None => return None,
    };
    Some(
        match kind {
            PromptKind::NewFile(dir) => PromptOp::CreateFile { dir: dir.clone(), name },
            PromptKind::NewFolder(dir) => PromptOp::CreateFolder { dir: dir.clone(), name },
            PromptKind::Rename(path) => PromptOp::Rename { path: path.clone(), name },
        },
    )
}

} // verus!
