//! Keys and what they ask for.

use vstd::prelude::*;

verus! {

/// What the user asks for.
#[derive(Debug, Clone, Copy, PartialEq, Eq, Structural)]
pub enum Action {
    Quit,
    StartScan,
    StopScan,
    EditRange,
    ConfigurePorts,
    ToggleFilter,
    Export,
    ToggleDetails,
    Help,
    NavigateUp,
    NavigateDown,
    NavigatePageUp,
    NavigatePageDown,
    NavigateHome,
    NavigateEnd,
    Select,
    /// Mark or unmark the host under the cursor; resumes a paused scan.
    ToggleSelect,
    Cancel,
    SwitchPane,
    Delete,
    Backspace,
    Character(char),
    WakeOnLan,
    ContinuousPing,
    RunTracert,
    SaveHost,
    /// Close the output overlay.
    StopOverlay,
    /// The key stands for nothing.
    Nothing,
}

/// What the keys are read as.
#[derive(Debug, Clone, Copy, PartialEq, Eq, Structural)]
pub enum InputMode {
    Normal,
    EditingRange,
    EditingPorts,
    Help,
    Exporting,
    /// The output of a continuous ping or a route trace is shown.
    OutputOverlay,
}

/// A key.
#[derive(Debug, Clone, Copy, PartialEq, Eq, Structural)]
pub enum KeyCode {
    Char(char),
    Esc,
    Enter,
    Tab,
    Backspace,
    Delete,
    Up,
    Down,
    Left,
    Right,
    PageUp,
    PageDown,
    Home,
    End,
    /// Any other key.
    Other,
}

/// A key that was pressed.
#[derive(Debug, Clone, Copy, PartialEq, Eq, Structural)]
pub struct KeyPress {
    pub code: KeyCode,
    /// Whether the control key was held.
    pub control: bool,
}

/// What a key asks for where hosts are browsed. Letters that stand for nothing
/// are passed on as characters.
pub open spec fn normal_action(key: KeyPress) -> Action {
    match key.code {
        KeyCode::Esc => Action::Cancel,
        KeyCode::Up => Action::NavigateUp,
        KeyCode::Down => Action::NavigateDown,
        KeyCode::PageUp => Action::NavigatePageUp,
        KeyCode::PageDown => Action::NavigatePageDown,
        KeyCode::Home => Action::NavigateHome,
        KeyCode::End => Action::NavigateEnd,
        KeyCode::Enter => Action::Select,
        KeyCode::Tab => Action::SwitchPane,
        KeyCode::Backspace => Action::Backspace,
        KeyCode::Char(c) => if c == 'q' {
            Action::Quit
        } else if c == 'c' {
            if key.control {
                Action::Quit
            } else {
                Action::ContinuousPing
            }
        } else if c == 's' {
            Action::StartScan
        } else if c == 'x' {
            Action::StopScan
        } else if c == 'r' {
            Action::EditRange
        } else if c == 'p' {
            Action::ConfigurePorts
        } else if c == 'f' {
            Action::ToggleFilter
        } else if c == 'e' {
            Action::Export
        } else if c == 'd' {
            Action::ToggleDetails
        } else if c == '?' {
            Action::Help
        } else if c == 'w' {
            Action::WakeOnLan
        } else if c == 't' {
            Action::RunTracert
        } else if c == 'a' {
            Action::SaveHost
        } else if c == ' ' {
            Action::ToggleSelect
        } else if c == 'k' {
            Action::NavigateUp
        } else if c == 'j' {
            Action::NavigateDown
        } else {
            Action::Character(c)
        },
        _ => Action::Nothing,
    }
}

/// What a key asks for where a text is edited: the arrows move the cursor, and
/// every character is taken as text.
pub open spec fn editing_action(key: KeyPress) -> Action {
    match key.code {
        KeyCode::Esc => Action::Cancel,
        KeyCode::Enter => Action::Select,
        KeyCode::Backspace => Action::Backspace,
        KeyCode::Delete => Action::Delete,
        KeyCode::Left => Action::NavigateUp,
        KeyCode::Right => Action::NavigateDown,
        KeyCode::Home => Action::NavigateHome,
        KeyCode::End => Action::NavigateEnd,
        KeyCode::Char(c) => Action::Character(c),
        _ => Action::Nothing,
    }
}

/// What a key asks for where the help is shown: some keys close it.
pub open spec fn help_action(key: KeyPress) -> Action {
    match key.code {
        KeyCode::Esc => Action::Cancel,
        KeyCode::Enter => Action::Cancel,
        KeyCode::Char(c) => if c == 'q' || c == '?' {
            Action::Cancel
        } else {
            Action::Nothing
        },
        _ => Action::Nothing,
    }
}

/// What a key asks for where the export format is chosen.
pub open spec fn export_action(key: KeyPress) -> Action {
    match key.code {
        KeyCode::Esc => Action::Cancel,
        KeyCode::Char(c) => if c == 'c' || c == 'j' {
            Action::Character(c)
        } else {
            Action::Nothing
        },
        _ => Action::Nothing,
    }
}

/// What a key asks for where output is shown.
pub open spec fn overlay_action(key: KeyPress) -> Action {
    match key.code {
        KeyCode::Esc => Action::StopOverlay,
        KeyCode::Up => Action::NavigateUp,
        KeyCode::Down => Action::NavigateDown,
        KeyCode::Home => Action::NavigateHome,
        KeyCode::End => Action::NavigateEnd,
        KeyCode::Char(c) => if c == 'q' {
            Action::StopOverlay
        } else if c == 'k' {
            Action::NavigateUp
        } else if c == 'j' {
            Action::NavigateDown
        } else {
            Action::Nothing
        },
        _ => Action::Nothing,
    }
}

/// What a key asks for in the given mode.
pub open spec fn key_action(key: KeyPress, mode: InputMode) -> Action {
    match mode {
        InputMode::Normal => normal_action(key),
        InputMode::EditingRange => editing_action(key),
        InputMode::EditingPorts => editing_action(key),
        InputMode::Help => help_action(key),
        InputMode::Exporting => export_action(key),
        InputMode::OutputOverlay => overlay_action(key),
    }
}

fn handle_normal_mode(key: KeyPress) -> (r: Action)
    ensures
        r == normal_action(key),
{
    match key.code {
        KeyCode::Esc => Action::Cancel,
        KeyCode::Up => Action::NavigateUp,
        KeyCode::Down => Action::NavigateDown,
        KeyCode::PageUp => Action::NavigatePageUp,
        KeyCode::PageDown => Action::NavigatePageDown,
        KeyCode::Home => Action::NavigateHome,
        KeyCode::End => Action::NavigateEnd,
        KeyCode::Enter => Action::Select,
        KeyCode::Tab => Action::SwitchPane,
        KeyCode::Backspace => Action::Backspace,
        KeyCode::Char(c) => {
            if c == 'q' {
                Action::Quit
            } else if c == 'c' {
                if key.control {
                    Action::Quit
                } else {
                    Action::ContinuousPing
                }
            } else if c == 's' {
                Action::StartScan
            } else if c == 'x' {
                Action::StopScan
            } else if c == 'r' {
                Action::EditRange
            } else if c == 'p' {
                Action::ConfigurePorts
            } else if c == 'f' {
                Action::ToggleFilter
            } else if c == 'e' {
                Action::Export
            } else if c == 'd' {
                Action::ToggleDetails
            } else if c == '?' {
                Action::Help
            } else if c == 'w' {
                Action::WakeOnLan
            } else if c == 't' {
                Action::RunTracert
            } else if c == 'a' {
                Action::SaveHost
            } else if c == ' ' {
                Action::ToggleSelect
            } else if c == 'k' {
                Action::NavigateUp
            } else if c == 'j' {
                Action::NavigateDown
            } else {
                Action::Character(c)
            }
        },
        _ => Action::Nothing,
    }
}

fn handle_editing_mode(key: KeyPress) -> (r: Action)
    ensures
        r == editing_action(key),
{
    match key.code {
        KeyCode::Esc => Action::Cancel,
        KeyCode::Enter => Action::Select,
        KeyCode::Backspace => Action::Backspace,
        KeyCode::Delete => Action::Delete,
        KeyCode::Left => Action::NavigateUp,
        KeyCode::Right => Action::NavigateDown,
        KeyCode::Home => Action::NavigateHome,
        KeyCode::End => Action::NavigateEnd,
        KeyCode::Char(c) => Action::Character(c),
        _ => Action::Nothing,
    }
}

fn handle_help_mode(key: KeyPress) -> (r: Action)
    ensures
        r == help_action(key),
{
    match key.code {
        KeyCode::Esc => Action::Cancel,
        KeyCode::Enter => Action::Cancel,
        KeyCode::Char(c) => {
            if c == 'q' || c == '?' {
                Action::Cancel
            } else {
                Action::Nothing
            }
        },
        _ => Action::Nothing,
    }
}

fn handle_export_mode(key: KeyPress) -> (r: Action)
    ensures
        r == export_action(key),
{
    match key.code {
        KeyCode::Esc => Action::Cancel,
        KeyCode::Char(c) => {
            if c == 'c' || c == 'j' {
                Action::Character(c)
            } else {
                Action::Nothing
            }
        },
        _ => Action::Nothing,
    }
}

fn handle_overlay_mode(key: KeyPress) -> (r: Action)
    ensures
        r == overlay_action(key),
{
    match key.code {
        KeyCode::Esc => Action::StopOverlay,
        KeyCode::Up => Action::NavigateUp,
        KeyCode::Down => Action::NavigateDown,
        KeyCode::Home => Action::NavigateHome,
        KeyCode::End => Action::NavigateEnd,
        KeyCode::Char(c) => {
            if c == 'q' {
                Action::StopOverlay
            } else if c == 'k' {
                Action::NavigateUp
            } else if c == 'j' {
                Action::NavigateDown
            } else {
                Action::Nothing
            }
        },
        _ => Action::Nothing,
    }
}

/// What the key `key` asks for in the mode `mode`.
pub fn handle_key(key: KeyPress, mode: InputMode) -> (r: Action)
    ensures
        r == key_action(key, mode),
{
    match mode {
        InputMode::Normal => handle_normal_mode(key),
        InputMode::EditingRange => handle_editing_mode(key),
        InputMode::EditingPorts => handle_editing_mode(key),
        InputMode::Help => handle_help_mode(key),
        InputMode::Exporting => handle_export_mode(key),
        InputMode::OutputOverlay => handle_overlay_mode(key),
    }
}

/// In every mode the escape key leads out, and where a text is edited every
/// character is text: no letter is taken for a command there.
pub proof fn lemma_key_rules(c: char, control: bool, mode: InputMode)
    ensures
        key_action(KeyPress { code: KeyCode::Esc, control }, mode) == if mode
            == InputMode::OutputOverlay {
            Action::StopOverlay
        } else {
            Action::Cancel
        },
        mode == InputMode::EditingRange || mode == InputMode::EditingPorts ==> key_action(
            KeyPress { code: KeyCode::Char(c), control },
            mode,
        ) == Action::Character(c),
{
}

} // verus!
