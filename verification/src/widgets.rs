//! What the interface's widgets show: their content, apart from how it is drawn.

use crate::host::HostInfo;
use std::collections::HashSet;
use vstd::prelude::*;

verus! {

/// A one-line text field with a label and a cursor.
#[derive(Debug, Clone, Copy)]
pub struct InputBar<'a> {
    pub label: &'a str,
    pub value: &'a str,
    /// Where the cursor stands, counted in bytes of the value.
    pub cursor_position: usize,
    pub focused: bool,
    /// Whether plain characters are used in place of line-drawing ones.
    pub compat: bool,
}

impl<'a> InputBar<'a> {
    /// A field that shows `value` under `label`, with the cursor behind the value,
    /// without the focus.
    pub fn new(label: &'a str, value: &'a str) -> (r: Self)
        ensures
            r.label == label,
            r.value == value,
            r.cursor_position == value.len(),
            !r.focused,
            !r.compat,
    {
        InputBar { label, value, cursor_position: value.len(), focused: false, compat: false }
    }

    /// The field with the cursor at `pos`.
    pub fn cursor_position(self, pos: usize) -> (r: Self)
        ensures
            r == (InputBar { cursor_position: pos, ..self }),
    {
        InputBar { cursor_position: pos, ..self }
    }

    /// The field with or without the focus.
    pub fn focused(self, focused: bool) -> (r: Self)
        ensures
            r == (InputBar { focused, ..self }),
    {
        InputBar { focused, ..self }
    }

    /// The field drawn with plain characters, or not.
    pub fn compat(self, compat: bool) -> (r: Self)
        ensures
            r == (InputBar { compat, ..self }),
    {
        InputBar { compat, ..self }
    }
}

/// The texts of a list of keys and what they do.
pub open spec fn hotkey_texts(hotkeys: Seq<(&str, &str)>) -> Seq<(Seq<char>, Seq<char>)> {
    Seq::new(hotkeys.len(), |i: int| (hotkeys[i].0@, hotkeys[i].1@))
}

/// The line at the bottom of the screen: keys and what they do, or a hint, on the
/// left; the state of the scan on the right.
#[derive(Debug, Clone)]
pub struct StatusBar<'a> {
    pub hotkeys: Vec<(&'a str, &'a str)>,
    /// A text that is shown in place of the keys.
    pub status_left: Option<String>,
    pub status_right: Option<String>,
    /// Whether plain characters are used in place of line-drawing ones.
    pub compat: bool,
}

impl<'a> StatusBar<'a> {
    /// The line with all keys, without texts.
    pub fn new() -> (r: Self)
        ensures
            hotkey_texts(r.hotkeys@) == seq![
                ("S"@, "Scan"@),
                ("R"@, "Range"@),
                ("P"@, "Ports"@),
                ("F"@, "Filter"@),
                ("E"@, "Export"@),
                ("?"@, "Help"@),
                ("Q"@, "Quit"@),
            ],
            r.status_left is None,
            r.status_right is None,
            !r.compat,
    {
        let mut hotkeys: Vec<(&'a str, &'a str)> = Vec::new();
        hotkeys.push(("S", "Scan"));
        hotkeys.push(("R", "Range"));
        hotkeys.push(("P", "Ports"));
        hotkeys.push(("F", "Filter"));
        hotkeys.push(("E", "Export"));
        hotkeys.push(("?", "Help"));
        hotkeys.push(("Q", "Quit"));
        assert(hotkey_texts(hotkeys@) =~= seq![
            ("S"@, "Scan"@),
            ("R"@, "Range"@),
            ("P"@, "Ports"@),
            ("F"@, "Filter"@),
            ("E"@, "Export"@),
            ("?"@, "Help"@),
            ("Q"@, "Quit"@),
        ]);
        StatusBar { hotkeys, status_left: None, status_right: None, compat: false }
    }

    /// The line with the three keys that a narrow screen has room for.
    pub fn compact() -> (r: Self)
        ensures
            hotkey_texts(r.hotkeys@) == seq![("S"@, "Scan"@), ("Q"@, "Quit"@), ("?"@, "Help"@)],
            r.status_left is None,
            r.status_right is None,
            !r.compat,
    {
        let mut hotkeys: Vec<(&'a str, &'a str)> = Vec::new();
        hotkeys.push(("S", "Scan"));
        hotkeys.push(("Q", "Quit"));
        hotkeys.push(("?", "Help"));
        assert(hotkey_texts(hotkeys@) =~= seq![
            ("S"@, "Scan"@),
            ("Q"@, "Quit"@),
            ("?"@, "Help"@),
        ]);
        StatusBar { hotkeys, status_left: None, status_right: None, compat: false }
    }

    /// The line drawn with plain characters, or not.
    pub fn compat(self, compat: bool) -> (r: Self)
        ensures
            r == (StatusBar { compat, ..self }),
    {
        StatusBar { compat, ..self }
    }

    /// The line with `status` on the left in place of the keys.
    pub fn status_left(self, status: String) -> (r: Self)
        ensures
            r == (StatusBar { status_left: Some(status), ..self }),
    {
        StatusBar { status_left: Some(status), ..self }
    }

    /// The line with `status` on the right.
    pub fn status_right(self, status: String) -> (r: Self)
        ensures
            r == (StatusBar { status_right: Some(status), ..self }),
    {
        StatusBar { status_right: Some(status), ..self }
    }

    /// The line with other keys.
    pub fn hotkeys(self, hotkeys: Vec<(&'a str, &'a str)>) -> (r: Self)
        ensures
            r == (StatusBar { hotkeys, ..self }),
    {
        StatusBar { hotkeys, ..self }
    }
}

impl Default for StatusBar<'_> {
    /// The line with all keys, without texts.
    fn default() -> (r: Self)
        ensures
            hotkey_texts(r.hotkeys@).len() == 7,
            r.status_left is None,
            r.status_right is None,
            !r.compat,
    {
        Self::new()
    }
}

/// The table of hosts.
#[derive(Debug, Clone, Copy)]
pub struct ScanTable<'a> {
    /// The hosts that the table shows, in its order.
    pub hosts: &'a [&'a HostInfo],
    /// Whether the round-trip time has a column.
    pub show_rtt: bool,
    pub focused: bool,
    /// The addresses (as numbers) of the hosts that are marked.
    pub selected_ips: Option<&'a HashSet<u32>>,
    /// Whether plain characters are used in place of line-drawing ones.
    pub compat: bool,
}

impl<'a> ScanTable<'a> {
    /// A table of `hosts` with the focus and with all columns, in which no host
    /// is marked.
    pub fn new(hosts: &'a [&'a HostInfo]) -> (r: Self)
        ensures
            r.hosts == hosts,
            r.show_rtt,
            r.focused,
            r.selected_ips is None,
            !r.compat,
    {
        ScanTable { hosts, show_rtt: true, focused: true, selected_ips: None, compat: false }
    }

    /// The table with or without the column of the round-trip time.
    pub fn show_rtt(self, show: bool) -> (r: Self)
        ensures
            r == (ScanTable { show_rtt: show, ..self }),
    {
        ScanTable { show_rtt: show, ..self }
    }

    /// The table with or without the focus.
    pub fn focused(self, focused: bool) -> (r: Self)
        ensures
            r == (ScanTable { focused, ..self }),
    {
        ScanTable { focused, ..self }
    }

    /// The table in which the hosts with the addresses `ips` are marked.
    pub fn selected_ips(self, ips: &'a HashSet<u32>) -> (r: Self)
        ensures
            r == (ScanTable { selected_ips: Some(ips), ..self }),
    {
        ScanTable { selected_ips: Some(ips), ..self }
    }

    /// The table drawn with plain characters, or not.
    pub fn compat(self, compat: bool) -> (r: Self)
        ensures
            r == (ScanTable { compat, ..self }),
    {
        ScanTable { compat, ..self }
    }
}

/// The details of one host.
#[derive(Debug, Clone, Copy)]
pub struct DetailsPane<'a> {
    /// The host whose details are shown, if the cursor stands on one.
    pub host: Option<&'a HostInfo>,
    pub focused: bool,
    /// Whether the host's ports are being scanned.
    pub port_scanning: bool,
    /// Whether plain characters are used in place of line-drawing ones.
    pub compat: bool,
}

impl<'a> DetailsPane<'a> {
    /// The details of `host`, without the focus, with no port scan running.
    pub fn new(host: Option<&'a HostInfo>) -> (r: Self)
        ensures
            r.host == host,
            !r.focused,
            !r.port_scanning,
            !r.compat,
    {
        DetailsPane { host, focused: false, port_scanning: false, compat: false }
    }

    /// The pane with or without the focus.
    pub fn focused(self, focused: bool) -> (r: Self)
        ensures
            r == (DetailsPane { focused, ..self }),
    {
        DetailsPane { focused, ..self }
    }

    /// The pane while a port scan runs, or not.
    pub fn port_scanning(self, scanning: bool) -> (r: Self)
        ensures
            r == (DetailsPane { port_scanning: scanning, ..self }),
    {
        DetailsPane { port_scanning: scanning, ..self }
    }

    /// The pane drawn with plain characters, or not.
    pub fn compat(self, compat: bool) -> (r: Self)
        ensures
            r == (DetailsPane { compat, ..self }),
    {
        DetailsPane { compat, ..self }
    }
}

} // verus!
