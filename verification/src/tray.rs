//! The tray: its icon, the commands of its menu and the clicks it answers.
use vstd::prelude::*;
use crate::text::same_text;

verus! {

/// Width of the tray icon, in pixels.
pub const ICON_WIDTH: u32 = 16;

/// Height of the tray icon, in pixels.
pub const ICON_HEIGHT: u32 = 16;

/// The three bars of the icon (a "stash" glyph): rows 4–5, 7–8 and 10–11.
pub open spec fn bar_row(y: int) -> bool {
    y == 4 || y == 5 || y == 7 || y == 8 || y == 10 || y == 11
}

/// The pixels of the icon that are drawn: columns 4 to 11 of the bar rows.
pub open spec fn icon_pixel_on(x: int, y: int) -> bool {
    4 <= x < 12 && bar_row(y)
}

/// The column of byte `i` of a row-major RGBA buffer of the icon's width.
pub open spec fn pixel_column(i: int) -> int {
    (i / 4) % 16
}

/// The row of byte `i` of a row-major RGBA buffer of the icon's width.
pub open spec fn pixel_row(i: int) -> int {
    i / 64
}

/// Byte `i` of the icon's RGBA buffer: opaque white where the pixel is drawn, else
/// transparent black.
pub open spec fn icon_byte(i: int) -> u8 {
    if icon_pixel_on(pixel_column(i), pixel_row(i)) {
        255
    } else {
        0
    }
}

/// The bytes of pixel (`x`, `y`) are the four from `64 * y + 4 * x` on.
proof fn lemma_pixel_bytes(j: int, x: int, y: int)
    requires
        0 <= j < 1024,
        0 <= x < 16,
        0 <= y < 16,
    ensures
        (pixel_column(j) == x && pixel_row(j) == y) <==> (64 * y + 4 * x <= j < 64 * y + 4 * x + 4),
        0 <= pixel_column(j) < 16,
        0 <= pixel_row(j) < 16,
{
}

/// Paints pixel (`x`, `y`) opaque white, where it lies inside the icon.
fn put(buf: &mut Vec<u8>, x: u32, y: u32)
    requires
        old(buf)@.len() == 1024,
    ensures
        final(buf)@.len() == 1024,
        forall|j: int|
            0 <= j < 1024 ==> #[trigger] final(buf)@[j] == if x < 16 && y < 16 && pixel_column(j)
                == x && pixel_row(j) == y {
                255u8
            } else {
                old(buf)@[j]
            },
{
    if x < ICON_WIDTH && y < ICON_HEIGHT {
        let i = ((y * ICON_WIDTH + x) * 4) as usize;
        buf.set(i, 255);
        buf.set(i + 1, 255);
        buf.set(i + 2, 255);
        buf.set(i + 3, 255);
        assert forall|j: int| 0 <= j < 1024 implies #[trigger] buf@[j] == if pixel_column(j) == x
            && pixel_row(j) == y {
            255u8
        } else {
            old(buf)@[j]
        } by {
            lemma_pixel_bytes(j, x as int, y as int);
        }
    }
}

/// The bar rows among the first `k` bars.
pub open spec fn in_first_bars(k: int, y: int) -> bool {
    (k > 0 && (y == 4 || y == 5)) || (k > 1 && (y == 7 || y == 8)) || (k > 2 && (y == 10 || y == 11))
}

/// The 16 × 16 RGBA pixels of the tray icon, row by row.
pub fn tray_icon_rgba() -> (buf: Vec<u8>)
    ensures
        buf@.len() == 1024,
        forall|i: int| 0 <= i < 1024 ==> #[trigger] buf@[i] == icon_byte(i),
{
    let mut buf: Vec<u8> = vec![0u8; 1024];
    let rows: [u32; 3] = [4, 7, 10];
    let mut x: u32 = 4;
    while x < 12
        invariant
            4 <= x <= 12,
            rows@ == seq![4u32, 7, 10],
            buf@.len() == 1024,
            forall|j: int|
                0 <= j < 1024 ==> #[trigger] buf@[j] == if 4 <= pixel_column(j) < x && bar_row(
                    pixel_row(j),
                ) {
                    255u8
                } else {
                    0u8
                },
        decreases 12 - x,
    {
        let mut k: usize = 0;
        while k < 3
            invariant
                4 <= x < 12,
                k <= 3,
                rows@ == seq![4u32, 7, 10],
                buf@.len() == 1024,
                forall|j: int|
                    0 <= j < 1024 ==> #[trigger] buf@[j] == if (4 <= pixel_column(j) < x && bar_row(
                        pixel_row(j),
                    )) || (pixel_column(j) == x && in_first_bars(k as int, pixel_row(j))) {
                        255u8
                    } else {
                        0u8
                    },
            decreases 3 - k,
        {
            let dy = rows[k];
            put(&mut buf, x, dy);
            put(&mut buf, x, dy + 1);
            k = k + 1;
        }
        x = x + 1;
    }
    buf
}

/// What an entry of the tray menu does.
#[derive(Clone, Copy, PartialEq, Eq, Structural, Debug)]
pub enum TrayCommand {
    /// Stash or bring back the icons.
    ToggleCollapsed,
    /// Bring the preferences window to the front.
    ShowMainWindow,
    /// Leave the application.
    Quit,
}

/// The command of the tray-menu entry with identifier `id`: "toggle" toggles, "prefs"
/// and "about" show the main window, "quit" quits; any other identifier does nothing.
pub open spec fn menu_command_of(id: Seq<char>) -> Option<TrayCommand> {
    if id == "toggle"@ {
        Some(TrayCommand::ToggleCollapsed)
    } else if id == "prefs"@ || id == "about"@ {
        Some(TrayCommand::ShowMainWindow)
    } else if id == "quit"@ {
        Some(TrayCommand::Quit)
    } else {
        None
    }
}

/// The command of the tray-menu entry with identifier `id` (see [`menu_command_of`]).
pub fn menu_command(id: &str) -> (c: Option<TrayCommand>)
    ensures
        c == menu_command_of(id@),
{
    if same_text(id, "toggle") {
        Some(TrayCommand::ToggleCollapsed)
    } else if same_text(id, "prefs") || same_text(id, "about") {
        Some(TrayCommand::ShowMainWindow)
    } else if same_text(id, "quit") {
        Some(TrayCommand::Quit)
    } else {
        None
    }
}

/// A mouse button.
#[derive(Clone, Copy, PartialEq, Eq, Structural, Debug)]
pub enum MouseButton {
    Left,
    Right,
    Middle,
}

/// Whether a mouse button went down or came up.
#[derive(Clone, Copy, PartialEq, Eq, Structural, Debug)]
pub enum MouseButtonState {
    Up,
    Down,
}

/// What the pointer did on the tray icon.
#[derive(Clone, Copy, PartialEq, Eq, Structural, Debug)]
pub enum TrayPointerEvent {
    /// A button went down or came up over the icon.
    Click { button: MouseButton, state: MouseButtonState },
    /// A double click, or the pointer entering, moving over or leaving the icon.
    Other,
}

/// Whether a pointer event on the tray icon brings up the main window: only the left
/// button coming up does.
pub fn tray_event_shows_window(event: TrayPointerEvent) -> (b: bool)
    ensures
        b == (event == TrayPointerEvent::Click {
            button: MouseButton::Left,
            state: MouseButtonState::Up,
        }),
{
    match event {
        TrayPointerEvent::Click { button: MouseButton::Left, state: MouseButtonState::Up } => true,
        _ => false,
    }
}

} // verus!
