//! How the screen is laid out.

use crate::app::{same_display, same_inputs, App, Focus};
use crate::input::InputMode;
use vstd::prelude::*;

verus! {

broadcast use vstd::std_specs::hash::group_hash_axioms;

/// How much of the interface a terminal has room for.
#[derive(Debug, Clone, Copy, PartialEq, Eq, Structural)]
pub enum LayoutMode {
    /// The host table alone.
    Compact,
    /// The host table and the details of the selected host side by side.
    Full,
}

impl LayoutMode {
    /// The layout for a terminal of the given size: full from 100 columns and 30 rows.
    pub fn from_size(width: u16, height: u16) -> (r: LayoutMode)
        ensures
            r == if width >= 100 && height >= 30 {
                LayoutMode::Full
            } else {
                LayoutMode::Compact
            },
    {
        if width >= 100 && height >= 30 {
            LayoutMode::Full
        } else {
            LayoutMode::Compact
        }
    }
}

/// A rectangle of the screen.
#[derive(Debug, Clone, Copy, PartialEq, Eq, Structural)]
pub struct Area {
    /// The column of the left edge.
    pub x: u16,
    /// The row of the upper edge.
    pub y: u16,
    pub width: u16,
    pub height: u16,
}

impl Area {
    /// Whether the cell in the given column and row lies in the rectangle.
    pub open spec fn holds(self, column: u16, row: u16) -> bool {
        self.x <= column < self.x + self.width && self.y <= row < self.y + self.height
    }
}

/// Whether the cell in the given column and row lies in `rect`.
pub fn mouse_in(rect: Area, column: u16, row: u16) -> (r: bool)
    ensures
        r == rect.holds(column, row),
{
    column >= rect.x && column - rect.x < rect.width && row >= rect.y && row - rect.y
        < rect.height
}

/// Where the panes stand on the screen.
#[derive(Debug, Clone, Copy, PartialEq, Eq, Structural)]
pub struct ScreenAreas {
    pub header: Area,
    pub hosts_table: Area,
    /// The details of the selected host, where the screen has room for them.
    pub details_pane: Option<Area>,
}

impl ScreenAreas {
    /// Whether the cell lies in the table or in the details.
    pub open spec fn in_lists(self, column: u16, row: u16) -> bool {
        self.hosts_table.holds(column, row) || (self.details_pane matches Some(d) && d.holds(
            column,
            row,
        ))
    }

    /// The row of the table that is drawn in the screen row `row`, if one is: the
    /// rows of the table start two rows below its upper edge and end one row
    /// above its lower edge, and the first of them shows the row `offset`.
    pub open spec fn table_row(self, row: u16, offset: usize) -> Option<int> {
        let top = self.hosts_table.y + 2;
        let bottom = self.hosts_table.y + self.hosts_table.height - 1;
        if top <= row < bottom {
            Some(row - top + offset)
        } else {
            None
        }
    }
}

/// What the mouse did.
#[derive(Debug, Clone, Copy, PartialEq, Eq, Structural)]
pub enum MouseKind {
    ScrollUp,
    ScrollDown,
    /// The left button was pressed.
    LeftDown,
    /// Anything else.
    Other,
}

/// What the mouse did, and where.
#[derive(Debug, Clone, Copy, PartialEq, Eq, Structural)]
pub struct MouseEvent {
    pub kind: MouseKind,
    pub column: u16,
    pub row: u16,
}

impl App {
    /// The pane that has the focus after the mouse did `mouse`.
    pub open spec fn focus_after_mouse(&self, mouse: MouseEvent, areas: ScreenAreas) -> Focus {
        if self.input_mode != InputMode::Normal {
            self.focus
        } else {
            match mouse.kind {
                MouseKind::ScrollUp => if areas.in_lists(mouse.column, mouse.row) {
                    Focus::HostsTable
                } else {
                    self.focus
                },
                MouseKind::ScrollDown => if areas.in_lists(mouse.column, mouse.row) {
                    Focus::HostsTable
                } else {
                    self.focus
                },
                MouseKind::LeftDown => if areas.header.holds(mouse.column, mouse.row) {
                    Focus::RangeInput
                } else if areas.hosts_table.holds(mouse.column, mouse.row) {
                    Focus::HostsTable
                } else if areas.details_pane matches Some(d) && d.holds(mouse.column, mouse.row) {
                    Focus::DetailsPane
                } else {
                    self.focus
                },
                MouseKind::Other => self.focus,
            }
        }
    }

    /// The row on which the cursor of the table stands after the mouse did `mouse`.
    pub open spec fn row_after_mouse(
        &self,
        mouse: MouseEvent,
        areas: ScreenAreas,
        offset: usize,
    ) -> Option<usize> {
        if self.input_mode != InputMode::Normal {
            self.selected
        } else {
            match mouse.kind {
                MouseKind::ScrollUp => if areas.in_lists(mouse.column, mouse.row) {
                    Self::row_before(self.selected, self.filtered_hosts@.len())
                } else {
                    self.selected
                },
                MouseKind::ScrollDown => if areas.in_lists(mouse.column, mouse.row) {
                    Self::row_after(self.selected, self.filtered_hosts@.len())
                } else {
                    self.selected
                },
                MouseKind::LeftDown => if !areas.header.holds(mouse.column, mouse.row)
                    && areas.hosts_table.holds(mouse.column, mouse.row) {
                    match areas.table_row(mouse.row, offset) {
                        Some(i) => if i < self.filtered_hosts@.len() {
                            Some(i as usize)
                        } else {
                            self.selected
                        },
                        None => self.selected,
                    }
                } else {
                    self.selected
                },
                MouseKind::Other => self.selected,
            }
        }
    }

    /// The line at which the view of the overlay starts after the mouse did `mouse`.
    pub open spec fn scroll_after_mouse(&self, mouse: MouseEvent) -> int {
        if self.input_mode != InputMode::OutputOverlay {
            self.overlay_scroll as int
        } else {
            match mouse.kind {
                MouseKind::ScrollUp => if self.overlay_scroll > 0 {
                    self.overlay_scroll - 1
                } else {
                    0
                },
                MouseKind::ScrollDown => if self.overlay_scroll < usize::MAX {
                    self.overlay_scroll + 1
                } else {
                    self.overlay_scroll as int
                },
                _ => self.overlay_scroll as int,
            }
        }
    }

    /// Carries out what the mouse asks for. While output is shown, the wheel
    /// scrolls it. While hosts are browsed, the wheel moves the cursor of the
    /// table and a click gives the pane under it the focus; a click on a row of
    /// the table puts the cursor there. `table_offset` is the row of the table
    /// that is drawn first.
    pub fn handle_mouse_event(&mut self, mouse: MouseEvent, areas: ScreenAreas, table_offset: usize)
        requires
            old(self).wf(),
        ensures
            final(self).wf(),
            same_inputs(*final(self), *old(self)),
            same_display(*final(self), *old(self)),
            final(self).session == old(self).session,
            final(self).filtered_hosts == old(self).filtered_hosts,
            final(self).filter_mode == old(self).filter_mode,
            final(self).selected_hosts == old(self).selected_hosts,
            final(self).input_mode == old(self).input_mode,
            final(self).overlay_title == old(self).overlay_title,
            final(self).overlay_lines == old(self).overlay_lines,
            final(self).overlay_running == old(self).overlay_running,
            final(self).focus == old(self).focus_after_mouse(mouse, areas),
            final(self).selected == old(self).row_after_mouse(mouse, areas, table_offset),
            final(self).overlay_scroll == old(self).scroll_after_mouse(mouse),
    {
        if matches!(self.input_mode, InputMode::OutputOverlay) {
            match mouse.kind {
                MouseKind::ScrollUp => {
                    if self.overlay_scroll > 0 {
                        self.overlay_scroll = self.overlay_scroll - 1;
                    }
                },
                MouseKind::ScrollDown => {
                    if self.overlay_scroll < usize::MAX {
                        self.overlay_scroll = self.overlay_scroll + 1;
                    }
                },
                _ => {},
            }
            return ;
        }
        if !matches!(self.input_mode, InputMode::Normal) {
            return ;
        }
        let column = mouse.column;
        let row = mouse.row;
        let in_table = mouse_in(areas.hosts_table, column, row);
        let in_details = match areas.details_pane {
            Some(d) => mouse_in(d, column, row),
            None => false,
        };
        match mouse.kind {
            MouseKind::ScrollUp => {
                if in_table || in_details {
                    self.focus = Focus::HostsTable;
                    self.select_previous();
                }
            },
            MouseKind::ScrollDown => {
                if in_table || in_details {
                    self.focus = Focus::HostsTable;
                    self.select_next();
                }
            },
            MouseKind::LeftDown => {
                if mouse_in(areas.header, column, row) {
                    self.focus = Focus::RangeInput;
                } else if in_table {
                    self.focus = Focus::HostsTable;
                    let top: u32 = areas.hosts_table.y as u32 + 2;
                    let bottom: u32 = areas.hosts_table.y as u32 + areas.hosts_table.height as u32;
                    if row as u32 >= top && (row as u32) + 1 < bottom {
                        let shown: usize = (row as u32 - top) as usize;
                        if shown < self.filtered_hosts.len() && table_offset
                            < self.filtered_hosts.len() - shown {
                            self.selected = Some(shown + table_offset);
                        }
                    }
                } else if in_details {
                    self.focus = Focus::DetailsPane;
                }
            },
            MouseKind::Other => {},
        }
    }
}

} // verus!
