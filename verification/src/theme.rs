//! Colours and styles of the interface, apart from the terminal that shows them.

use vstd::prelude::*;

verus! {

/// A colour: one given by its red, green and blue parts, or one of the
/// terminal's own.
#[derive(Debug, Clone, Copy, PartialEq, Eq, Structural)]
pub enum Color {
    /// The red, green and blue parts in the three low bytes, red highest.
    Rgb(u32),
    Cyan,
    Green,
    DarkGray,
    Yellow,
}

/// How a piece of text is drawn.
#[derive(Debug, Clone, Copy, PartialEq, Eq, Structural)]
pub struct Style {
    /// The colour of the text; `None` leaves it as the terminal has it.
    pub fg: Option<Color>,
    /// The colour behind the text; `None` leaves it as the terminal has it.
    pub bg: Option<Color>,
    pub bold: bool,
    pub underlined: bool,
    pub slow_blink: bool,
    pub reversed: bool,
}

impl Color {
    /// The red, green and blue parts of a colour that is given by them.
    pub fn parts(&self) -> (r: Option<(u8, u8, u8)>)
        ensures
            r == match *self {
                Color::Rgb(v) => Some(
                    ((v / 65536 % 256) as u8, (v / 256 % 256) as u8, (v % 256) as u8),
                ),
                _ => None,
            },
    {
        match self {
            Color::Rgb(v) => Some(
                ((*v / 65536 % 256) as u8, (*v / 256 % 256) as u8, (*v % 256) as u8),
            ),
            _ => None,
        }
    }
}

impl Style {
    /// Text as the terminal draws it by itself.
    pub open spec fn plain() -> Style {
        Style {
            fg: None,
            bg: None,
            bold: false,
            underlined: false,
            slow_blink: false,
            reversed: false,
        }
    }

    /// Text of the colour `fg`, and nothing else.
    pub open spec fn coloured(fg: Color) -> Style {
        Style { fg: Some(fg), ..Style::plain() }
    }

    /// Text as the terminal draws it by itself.
    pub fn new() -> (r: Style)
        ensures
            r == Style::plain(),
    {
        Style {
            fg: None,
            bg: None,
            bold: false,
            underlined: false,
            slow_blink: false,
            reversed: false,
        }
    }

    /// The style with `fg` as the colour of the text.
    pub fn fg(self, fg: Color) -> (r: Style)
        ensures
            r == (Style { fg: Some(fg), ..self }),
    {
        Style { fg: Some(fg), ..self }
    }

    /// The style with `bg` as the colour behind the text.
    pub fn bg(self, bg: Color) -> (r: Style)
        ensures
            r == (Style { bg: Some(bg), ..self }),
    {
        Style { bg: Some(bg), ..self }
    }

    /// The style in bold.
    pub fn bold(self) -> (r: Style)
        ensures
            r == (Style { bold: true, ..self }),
    {
        Style { bold: true, ..self }
    }

    /// The style underlined.
    pub fn underlined(self) -> (r: Style)
        ensures
            r == (Style { underlined: true, ..self }),
    {
        Style { underlined: true, ..self }
    }
}

/// The dark palette.
pub struct Theme;

/// The background of the dark palette.
pub const BG: u32 = 0x12_12_18;

/// The colour of plain text.
pub const FG: u32 = 0xC8_C8_D2;

/// The colour of what stands out.
pub const ACCENT: u32 = 0x64_95_ED;

/// The colour of what went well.
pub const SUCCESS: u32 = 0x50_C8_78;

/// The colour of what went wrong.
pub const ERROR: u32 = 0xDC_50_50;

/// The colour of what needs care.
pub const WARNING: u32 = 0xE6_B4_50;

/// The colour of what stands back.
pub const DIM: u32 = 0x5A_5A_64;

/// The colour of frames.
pub const BORDER: u32 = 0x3C_3C_46;

/// The background of the row under the cursor.
pub const HIGHLIGHT_BG: u32 = 0x28_28_37;

impl Theme {
    /// Plain text on the palette's background.
    pub fn default() -> (r: Style)
        ensures
            r == (Style { fg: Some(Color::Rgb(FG)), bg: Some(Color::Rgb(BG)), ..Style::plain() }),
    {
        Style::new().fg(Color::Rgb(FG)).bg(Color::Rgb(BG))
    }

    /// Titles: bold, in the accent colour.
    pub fn title() -> (r: Style)
        ensures
            r == (Style { bold: true, ..Style::coloured(Color::Rgb(ACCENT)) }),
    {
        Style::new().fg(Color::Rgb(ACCENT)).bold()
    }

    /// Frames.
    pub fn border() -> (r: Style)
        ensures
            r == Style::coloured(Color::Rgb(BORDER)),
    {
        Style::new().fg(Color::Rgb(BORDER))
    }

    /// The frame of the pane that has the focus.
    pub fn border_focused() -> (r: Style)
        ensures
            r == Style::coloured(Color::Rgb(ACCENT)),
    {
        Style::new().fg(Color::Rgb(ACCENT))
    }

    /// The mark of a host that is alive.
    pub fn status_online() -> (r: Style)
        ensures
            r == Style::coloured(Color::Rgb(SUCCESS)),
    {
        Style::new().fg(Color::Rgb(SUCCESS))
    }

    /// The mark of a host that is not alive.
    pub fn status_offline() -> (r: Style)
        ensures
            r == Style::coloured(Color::Rgb(DIM)),
    {
        Style::new().fg(Color::Rgb(DIM))
    }

    /// The mark of a scan that runs: blinking.
    pub fn status_scanning() -> (r: Style)
        ensures
            r == (Style { slow_blink: true, ..Style::coloured(Color::Rgb(WARNING)) }),
    {
        Style { slow_blink: true, ..Style::new().fg(Color::Rgb(WARNING)) }
    }

    /// The row under the cursor: bold on a lighter background.
    pub fn selected() -> (r: Style)
        ensures
            r == (Style { fg: Some(Color::Rgb(FG)), bg: Some(Color::Rgb(HIGHLIGHT_BG)), bold: true, ..Style::plain() }),
    {
        Style::new().bg(Color::Rgb(HIGHLIGHT_BG)).fg(Color::Rgb(FG)).bold()
    }

    /// What stands back.
    pub fn dimmed() -> (r: Style)
        ensures
            r == Style::coloured(Color::Rgb(DIM)),
    {
        Style::new().fg(Color::Rgb(DIM))
    }

    /// What went wrong.
    pub fn error() -> (r: Style)
        ensures
            r == Style::coloured(Color::Rgb(ERROR)),
    {
        Style::new().fg(Color::Rgb(ERROR))
    }

    /// Keys: bold, in the accent colour.
    pub fn hotkey() -> (r: Style)
        ensures
            r == (Style { bold: true, ..Style::coloured(Color::Rgb(ACCENT)) }),
    {
        Style::new().fg(Color::Rgb(ACCENT)).bold()
    }

    /// What keys do.
    pub fn hotkey_desc() -> (r: Style)
        ensures
            r == Style::coloured(Color::Rgb(DIM)),
    {
        Style::new().fg(Color::Rgb(DIM))
    }

    /// The heads of columns: bold and underlined, in the accent colour.
    pub fn header() -> (r: Style)
        ensures
            r == (Style { bold: true, underlined: true, ..Style::coloured(Color::Rgb(ACCENT)) }),
    {
        Style::new().fg(Color::Rgb(ACCENT)).bold().underlined()
    }

    /// The filled part of the progress bar.
    pub fn progress_bar() -> (r: Style)
        ensures
            r == Style::coloured(Color::Rgb(ACCENT)),
    {
        Style::new().fg(Color::Rgb(ACCENT))
    }

    /// The empty part of the progress bar.
    pub fn progress_bg() -> (r: Style)
        ensures
            r == Style::coloured(Color::Rgb(BORDER)),
    {
        Style::new().fg(Color::Rgb(BORDER))
    }
}

/// The palette for terminals that know neither many colours nor line-drawing
/// characters: the terminal's own colours, and plain characters for symbols.
pub struct Compat;

/// The mark of a host that is alive, in plain characters.
pub const SYM_ONLINE: &'static str = "*";

/// The mark of a host that is not alive.
pub const SYM_OFFLINE: &'static str = ".";

/// The mark of a host that is marked.
pub const SYM_SELECTED: &'static str = "x";

/// The cursor of the table.
pub const SYM_CURSOR: &'static str = "> ";

/// The filled part of the progress bar.
pub const SYM_PROGRESS_FILL: &'static str = "#";

/// The empty part of the progress bar.
pub const SYM_PROGRESS_EMPTY: &'static str = "-";

/// The mark of a host that comes from the cache.
pub const SYM_CACHED: &'static str = "[c]";

impl Compat {
    /// Plain text.
    pub fn default() -> (r: Style)
        ensures
            r == Style::plain(),
    {
        Style::new()
    }

    /// Titles.
    pub fn title() -> (r: Style)
        ensures
            r == (Style { bold: true, ..Style::coloured(Color::Cyan) }),
    {
        Style::new().fg(Color::Cyan).bold()
    }

    /// Frames.
    pub fn border() -> (r: Style)
        ensures
            r == Style::plain(),
    {
        Style::new()
    }

    /// The frame of the pane that has the focus.
    pub fn border_focused() -> (r: Style)
        ensures
            r == Style::coloured(Color::Cyan),
    {
        Style::new().fg(Color::Cyan)
    }

    /// The mark of a host that is alive.
    pub fn status_online() -> (r: Style)
        ensures
            r == Style::coloured(Color::Green),
    {
        Style::new().fg(Color::Green)
    }

    /// The mark of a host that is not alive.
    pub fn status_offline() -> (r: Style)
        ensures
            r == Style::coloured(Color::DarkGray),
    {
        Style::new().fg(Color::DarkGray)
    }

    /// The row under the cursor: colours exchanged.
    pub fn selected() -> (r: Style)
        ensures
            r == (Style { reversed: true, ..Style::plain() }),
    {
        Style { reversed: true, ..Style::new() }
    }

    /// What stands back.
    pub fn dimmed() -> (r: Style)
        ensures
            r == Style::coloured(Color::DarkGray),
    {
        Style::new().fg(Color::DarkGray)
    }

    /// Keys.
    pub fn hotkey() -> (r: Style)
        ensures
            r == (Style { bold: true, ..Style::coloured(Color::Yellow) }),
    {
        Style::new().fg(Color::Yellow).bold()
    }

    /// What stands out.
    pub fn accent() -> (r: Style)
        ensures
            r == Style::coloured(Color::Cyan),
    {
        Style::new().fg(Color::Cyan)
    }

    /// The heads of columns.
    pub fn header() -> (r: Style)
        ensures
            r == (Style { bold: true, underlined: true, ..Style::coloured(Color::Cyan) }),
    {
        Style::new().fg(Color::Cyan).bold().underlined()
    }

    /// The filled part of the progress bar.
    pub fn progress_bar() -> (r: Style)
        ensures
            r == Style::coloured(Color::Cyan),
    {
        Style::new().fg(Color::Cyan)
    }

    /// The empty part of the progress bar.
    pub fn progress_bg() -> (r: Style)
        ensures
            r == Style::coloured(Color::DarkGray),
    {
        Style::new().fg(Color::DarkGray)
    }

    /// What needs care.
    pub fn warning() -> (r: Style)
        ensures
            r == Style::coloured(Color::Yellow),
    {
        Style::new().fg(Color::Yellow)
    }
}

} // verus!
