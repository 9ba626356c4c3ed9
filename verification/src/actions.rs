//! What the user's actions do to the interface.

use crate::addr::dotted_text;
use crate::app::{
    same_display, same_inputs, same_overlay, same_scan, visible, App, AppCommand, FilterMode,
    Focus,
};
use crate::edit::FieldView;
use crate::host::HostInfo;
use crate::input::{Action, InputMode};
use crate::mac::option_text;
use crate::session::ScanState;
use crate::text::chars_of;
use crate::wol::{mac_bytes, magic_packet, wol_packet};
use vstd::prelude::*;

verus! {

broadcast use vstd::std_specs::hash::group_hash_axioms;

/// The pane that takes the focus after `focus`: the range field, the table, the
/// details if they are shown, and round again.
pub open spec fn pane_after(focus: Focus, show_details: bool) -> Focus {
    match focus {
        Focus::RangeInput => Focus::HostsTable,
        Focus::HostsTable => if show_details {
            Focus::DetailsPane
        } else {
            Focus::RangeInput
        },
        Focus::DetailsPane => Focus::RangeInput,
    }
}

/// What the interface tells the user where a host cannot be woken.
pub open spec fn wol_refusal(host: Option<HostInfo>) -> Seq<char> {
    match host {
        None => "Select a host with a known MAC address for WOL"@,
        Some(h) => match h.mac {
            None => "No MAC address for "@ + dotted_text(h.ip@) + " — WOL unavailable"@,
            Some(m) => "Invalid MAC address: "@ + m.address@,
        },
    }
}

impl App {
    /// Whether the action pauses the scan: the escape key does while a scan runs,
    /// except where output is shown; so does the request to stop.
    pub open spec fn pauses(&self, action: Action) -> bool {
        self.session@.state == ScanState::Scanning && ((action == Action::Cancel
            && self.input_mode != InputMode::OutputOverlay) || (action == Action::StopScan
            && self.input_mode == InputMode::Normal))
    }

    /// Whether the action asks to take up a paused scan again.
    pub open spec fn resumes(&self, action: Action) -> bool {
        action == Action::ToggleSelect && self.session@.state == ScanState::Paused
            && self.input_mode == InputMode::Normal
    }

    /// Whether the action is read as a command on the hosts: the interface browses
    /// hosts, and the action neither pauses the scan by the escape key nor
    /// asks to resume it.
    pub open spec fn reads_as_command(&self, action: Action) -> bool {
        self.input_mode == InputMode::Normal && !(action == Action::Cancel && self.pauses(action))
            && !self.resumes(action)
    }

    /// Whether the host under the cursor can be woken: its hardware address is
    /// known and is six bytes.
    pub open spec fn can_wake(&self) -> bool {
        self.selected_row() matches Some(h) && h.mac matches Some(m) && mac_bytes(m.address@).len()
            == 6
    }

    /// What the action asks the caller to do where hosts are browsed.
    pub open spec fn normal_command(&self, action: Action) -> Option<AppCommand> {
        match action {
            Action::Quit => Some(AppCommand::Quit),
            Action::StartScan => if self.session@.state != ScanState::Scanning {
                Some(AppCommand::StartScan)
            } else {
                None
            },
            Action::StopScan => if self.session@.state == ScanState::Scanning {
                Some(AppCommand::CancelScan(self.session@.run))
            } else {
                None
            },
            Action::ConfigurePorts => if self.focus == Focus::DetailsPane {
                Some(AppCommand::ScanPortsForSelected)
            } else {
                None
            },
            Action::WakeOnLan => if self.can_wake() {
                Some(AppCommand::SendWol)
            } else {
                None
            },
            Action::ContinuousPing => match self.selected_row() {
                Some(h) => Some(AppCommand::StartContinuousPing(h.ip)),
                None => None,
            },
            Action::RunTracert => match self.selected_row() {
                Some(h) => Some(AppCommand::StartTracert(h.ip)),
                None => None,
            },
            Action::SaveHost => if self.selected_row() is Some {
                Some(AppCommand::SaveHost)
            } else {
                None
            },
            Action::Select => if self.focus == Focus::RangeInput && self.session@.state
                != ScanState::Scanning {
                Some(AppCommand::StartScan)
            } else {
                None
            },
            _ => None,
        }
    }

    /// What the action asks the caller to do.
    pub open spec fn command_for(&self, action: Action) -> Option<AppCommand> {
        if action == Action::Cancel && self.pauses(action) {
            Some(AppCommand::CancelScan(self.session@.run))
        } else if self.resumes(action) {
            Some(AppCommand::ResumeScan)
        } else {
            match self.input_mode {
                InputMode::Normal => self.normal_command(action),
                InputMode::EditingRange => if action == Action::Select && self.session@.state
                    != ScanState::Scanning && self.range_input@.text.len() > 0 {
                    Some(AppCommand::StartScan)
                } else {
                    None
                },
                InputMode::EditingPorts => None,
                InputMode::Help => None,
                InputMode::Exporting => if action == Action::Character('c') {
                    Some(AppCommand::ExportCsv)
                } else if action == Action::Character('j') {
                    Some(AppCommand::ExportJson)
                } else {
                    None
                },
                InputMode::OutputOverlay => if action == Action::StopOverlay {
                    Some(AppCommand::StopOverlay)
                } else {
                    None
                },
            }
        }
    }

    /// The mode in which the keys are read after the action.
    pub open spec fn mode_after(&self, action: Action) -> InputMode {
        if (action == Action::Cancel && self.pauses(action)) || self.resumes(action) {
            self.input_mode
        } else {
            match self.input_mode {
                InputMode::Normal => match action {
                    Action::Backspace => if self.focus == Focus::RangeInput {
                        InputMode::EditingRange
                    } else {
                        InputMode::Normal
                    },
                    Action::Character(_) => if self.focus == Focus::RangeInput {
                        InputMode::EditingRange
                    } else {
                        InputMode::Normal
                    },
                    Action::EditRange => InputMode::EditingRange,
                    Action::ConfigurePorts => if self.focus == Focus::DetailsPane {
                        InputMode::Normal
                    } else {
                        InputMode::EditingPorts
                    },
                    Action::Export => InputMode::Exporting,
                    Action::Help => InputMode::Help,
                    _ => InputMode::Normal,
                },
                InputMode::EditingRange => if action == Action::Cancel || action
                    == Action::Select {
                    InputMode::Normal
                } else {
                    InputMode::EditingRange
                },
                InputMode::EditingPorts => if action == Action::Cancel || action
                    == Action::Select {
                    InputMode::Normal
                } else {
                    InputMode::EditingPorts
                },
                InputMode::Help => if action == Action::Cancel {
                    InputMode::Normal
                } else {
                    InputMode::Help
                },
                InputMode::Exporting => if action == Action::Cancel || action == Action::Character(
                    'c',
                ) || action == Action::Character('j') {
                    InputMode::Normal
                } else {
                    InputMode::Exporting
                },
                InputMode::OutputOverlay => if action == Action::StopOverlay {
                    InputMode::Normal
                } else {
                    InputMode::OutputOverlay
                },
            }
        }
    }

    /// The pane that has the focus after the action.
    pub open spec fn focus_after(&self, action: Action) -> Focus {
        if (action == Action::Cancel && self.pauses(action)) || self.resumes(action)
            || self.input_mode != InputMode::Normal {
            self.focus
        } else {
            match action {
                Action::Cancel => if self.focus == Focus::RangeInput {
                    Focus::HostsTable
                } else {
                    self.focus
                },
                Action::EditRange => Focus::RangeInput,
                Action::SwitchPane => pane_after(self.focus, self.show_details),
                _ => self.focus,
            }
        }
    }

    /// The row on which the cursor of the table stands after an action where
    /// hosts are browsed.
    pub open spec fn row_after_action(&self, action: Action) -> Option<usize> {
        let rows = self.filtered_hosts@.len();
        let in_table = self.focus != Focus::RangeInput;
        match action {
            Action::NavigateUp => if in_table {
                Self::row_before(self.selected, rows)
            } else {
                self.selected
            },
            Action::NavigateDown => if in_table {
                Self::row_after(self.selected, rows)
            } else {
                self.selected
            },
            Action::NavigatePageUp => if in_table {
                Self::rows_before(self.selected, rows, 10)
            } else {
                self.selected
            },
            Action::NavigatePageDown => if in_table {
                Self::rows_after(self.selected, rows, 10)
            } else {
                self.selected
            },
            Action::NavigateHome => if in_table && rows > 0 {
                Some(0)
            } else {
                self.selected
            },
            Action::NavigateEnd => if in_table && rows > 0 {
                Some((rows - 1) as usize)
            } else {
                self.selected
            },
            Action::ToggleFilter => Self::row_within(
                self.selected,
                visible(
                    self.session@.hosts,
                    if self.filter_mode == FilterMode::All {
                        FilterMode::OnlineOnly
                    } else {
                        FilterMode::All
                    },
                ).len(),
            ),
            _ => self.selected,
        }
    }

    /// The adapter whose network stands in the range field after an action where
    /// hosts are browsed.
    pub open spec fn adapter_after_action(&self, action: Action) -> Option<usize> {
        let in_range = self.focus == Focus::RangeInput;
        match action {
            Action::Backspace => if in_range {
                None
            } else {
                self.adapter_index
            },
            Action::Character(_) => if in_range {
                None
            } else {
                self.adapter_index
            },
            Action::EditRange => None,
            Action::NavigateUp => if in_range && self.adapters@.len() > 0 {
                Self::adapter_before(self.adapter_index, self.adapters@.len())
            } else {
                self.adapter_index
            },
            Action::NavigateDown => if in_range && self.adapters@.len() > 0 {
                Self::adapter_after(self.adapter_index, self.adapters@.len())
            } else {
                self.adapter_index
            },
            _ => self.adapter_index,
        }
    }

    /// The marked hosts after an action where hosts are browsed.
    pub open spec fn marks_after_action(&self, action: Action) -> Set<u32> {
        if action == Action::ToggleSelect && self.focus == Focus::HostsTable {
            match self.selected_row() {
                Some(h) => if self.selected_hosts@.contains(h.ip@) {
                    self.selected_hosts@.remove(h.ip@)
                } else {
                    self.selected_hosts@.insert(h.ip@)
                },
                None => self.selected_hosts@,
            }
        } else {
            self.selected_hosts@
        }
    }

    /// The range field after an action while it is edited.
    pub open spec fn edited(field: FieldView, action: Action) -> FieldView {
        match action {
            Action::Backspace => field.rubbed_out(),
            Action::Delete => field.deleted(),
            Action::NavigateUp => field.at(field.cursor - 1),
            Action::NavigateDown => field.at(field.cursor + 1),
            Action::NavigateHome => field.at(0),
            Action::NavigateEnd => field.at(field.text.len() as int),
            Action::Character(c) => if field.text.len() < usize::MAX {
                field.typed(c)
            } else {
                field
            },
            _ => field,
        }
    }

    fn set_message(&mut self, message: String)
        ensures
            final(self).export_message == Some(message),
            final(self).wf() == old(self).wf(),
            same_inputs(*final(self), *old(self)),
            same_overlay(*final(self), *old(self)),
            same_scan(*final(self), *old(self)),
            final(self).session == old(self).session,
            final(self).input_mode == old(self).input_mode,
            final(self).focus == old(self).focus,
            final(self).show_details == old(self).show_details,
            final(self).animation_tick == old(self).animation_tick,
            final(self).port_scanning == old(self).port_scanning,
            final(self).show_keybindings == old(self).show_keybindings,
    {
        self.export_message = Some(message);
    }

    /// The packet that wakes the host under the cursor, if its hardware address
    /// is known and is six bytes.
    pub fn wol_packet_for_selected(&self) -> (r: Option<Vec<u8>>)
        ensures
            r is Some == self.can_wake(),
            r matches Some(p) ==> p@ == magic_packet(
                mac_bytes(self.selected_row()->Some_0.mac->Some_0.address@),
            ),
    {
        match self.selected_host() {
            None => None,
            Some(host) => match &host.mac {
                None => None,
                Some(m) => {
                    let chars = chars_of(m.address.as_str());
                    wol_packet(chars.as_slice())
                },
            },
        }
    }

    /// Gets the wake-up of the host under the cursor ready: the packet that is to be
    /// sent as a broadcast, or what the user is to be told where there is none.
    pub fn send_wol(&self) -> (r: Result<Vec<u8>, String>)
        ensures
            r is Ok == self.can_wake(),
            r matches Ok(p) ==> p@ == magic_packet(
                mac_bytes(self.selected_row()->Some_0.mac->Some_0.address@),
            ),
            r matches Err(m) ==> m@ == wol_refusal(self.selected_row()),
    {
        match self.wol_packet_for_selected() {
            Some(packet) => Ok(packet),
            None => Err(self.wol_refusal_text()),
        }
    }

    /// What the user is told where the host under the cursor cannot be woken.
    fn wol_refusal_text(&self) -> (r: String)
        ensures
            r@ == wol_refusal(self.selected_row()),
    {
        match self.selected_host() {
            None => String::from_str("Select a host with a known MAC address for WOL"),
            Some(host) => match &host.mac {
                None => {
                    let mut out = String::from_str("No MAC address for ");
                    out.append(host.ip.to_string().as_str());
                    out.append(" — WOL unavailable");
                    out
                },
                Some(m) => {
                    let mut out = String::from_str("Invalid MAC address: ");
                    out.append(m.address.as_str());
                    out
                },
            },
        }
    }

    /// What the user is told once the wake-up packet of the host under the
    /// cursor was sent.
    pub fn wol_sent_text(&self) -> (r: Option<String>)
        ensures
            r is Some == (self.selected_row() matches Some(h) && h.mac is Some),
            r matches Some(t) ==> t@ == "WOL packet sent to "@ + dotted_text(
                self.selected_row()->Some_0.ip@,
            ) + " ("@ + self.selected_row()->Some_0.mac->Some_0.address@ + ")"@,
    {
        match self.selected_host() {
            None => None,
            Some(host) => match &host.mac {
                None => None,
                Some(m) => {
                    let mut out = String::from_str("WOL packet sent to ");
                    out.append(host.ip.to_string().as_str());
                    out.append(" (");
                    out.append(m.address.as_str());
                    out.append(")");
                    Some(out)
                },
            },
        }
    }

    /// Marks the host under the cursor, or takes its mark away.
    fn toggle_mark(&mut self)
        requires
            old(self).wf(),
        ensures
            final(self).wf(),
            same_inputs(*final(self), *old(self)),
            same_overlay(*final(self), *old(self)),
            same_display(*final(self), *old(self)),
            final(self).session == old(self).session,
            final(self).filtered_hosts == old(self).filtered_hosts,
            final(self).filter_mode == old(self).filter_mode,
            final(self).selected == old(self).selected,
            final(self).input_mode == old(self).input_mode,
            final(self).focus == old(self).focus,
            final(self).selected_hosts@ == match old(self).selected_row() {
                Some(h) => if old(self).selected_hosts@.contains(h.ip@) {
                    old(self).selected_hosts@.remove(h.ip@)
                } else {
                    old(self).selected_hosts@.insert(h.ip@)
                },
                None => old(self).selected_hosts@,
            },
    {
        let key: Option<u32> = match self.selected_host() {
            Some(h) => Some(h.ip.to_u32()),
            None => None,
        };
        if let Some(k) = key {
            if self.selected_hosts.contains(&k) {
                self.selected_hosts.remove(&k);
            } else {
                self.selected_hosts.insert(k);
            }
        }
    }

    fn page(&mut self, down: bool)
        requires
            old(self).wf(),
        ensures
            final(self).wf(),
            final(self).selected == if down {
                Self::rows_after(old(self).selected, old(self).filtered_hosts@.len(), 10)
            } else {
                Self::rows_before(old(self).selected, old(self).filtered_hosts@.len(), 10)
            },
            same_inputs(*final(self), *old(self)),
            same_overlay(*final(self), *old(self)),
            same_display(*final(self), *old(self)),
            final(self).session == old(self).session,
            final(self).filtered_hosts == old(self).filtered_hosts,
            final(self).filter_mode == old(self).filter_mode,
            final(self).selected_hosts == old(self).selected_hosts,
            final(self).input_mode == old(self).input_mode,
            final(self).focus == old(self).focus,
    {
        let mut i: u8 = 0;
        while i < 10
            invariant
                i <= 10,
                self.wf(),
                self.selected == if down {
                    Self::rows_after(old(self).selected, old(self).filtered_hosts@.len(), i as nat)
                } else {
                    Self::rows_before(old(self).selected, old(self).filtered_hosts@.len(), i as nat)
                },
                same_inputs(*self, *old(self)),
                same_overlay(*self, *old(self)),
                same_display(*self, *old(self)),
                self.session == old(self).session,
                self.filtered_hosts == old(self).filtered_hosts,
                self.filter_mode == old(self).filter_mode,
                self.selected_hosts == old(self).selected_hosts,
                self.input_mode == old(self).input_mode,
                self.focus == old(self).focus,
            decreases 10 - i,
        {
            if down {
                self.select_next();
            } else {
                self.select_previous();
            }
            i += 1;
        }
    }

    /// Carries out an action where hosts are browsed.
    fn handle_normal_action(&mut self, action: Action) -> (r: Option<AppCommand>)
        requires
            old(self).wf(),
            old(self).input_mode == InputMode::Normal,
            !(action == Action::Cancel && old(self).pauses(action)),
            !old(self).resumes(action),
        ensures
            final(self).wf(),
            r == old(self).command_for(action),
            final(self).input_mode == old(self).mode_after(action),
            final(self).focus == old(self).focus_after(action),
            final(self).session@ == if old(self).pauses(action) {
                old(self).session@.paused()
            } else {
                old(self).session@
            },
            final(self).filter_mode == if action == Action::ToggleFilter {
                if old(self).filter_mode == FilterMode::All {
                    FilterMode::OnlineOnly
                } else {
                    FilterMode::All
                }
            } else {
                old(self).filter_mode
            },
            final(self).show_details == if action == Action::ToggleDetails {
                !old(self).show_details
            } else {
                old(self).show_details
            },
            final(self).ports_input@ == if action == Action::ConfigurePorts && old(self).focus
                != Focus::DetailsPane {
                old(self).ports_input@.at(old(self).ports_input@.text.len() as int)
            } else {
                old(self).ports_input@
            },
            action == Action::Backspace && old(self).focus == Focus::RangeInput ==> final(
                self
            ).range_input@ == old(self).range_input@.at(
                old(self).range_input@.text.len() as int,
            ).rubbed_out() && final(self).adapter_index is None,
            action matches Action::Character(c) && old(self).focus == Focus::RangeInput ==> final(
                self
            ).range_input@ == Self::edited(
                old(self).range_input@.at(old(self).range_input@.text.len() as int),
                action,
            ) && final(self).adapter_index is None,
            final(self).selected == old(self).row_after_action(action),
            final(self).adapter_index == old(self).adapter_after_action(action),
            final(self).selected_hosts@ == old(self).marks_after_action(action),
            (action == Action::NavigateUp || action == Action::NavigateDown) && old(self).focus
                == Focus::RangeInput && old(self).adapters@.len() > 0 ==> final(
                self
            ).range_input@.text == match final(self).adapter_index {
                Some(i) => old(self).adapters@[i as int].subnet@,
                None => Seq::<char>::empty(),
            },
            !(action == Action::WakeOnLan && !old(self).can_wake()) && !(action == Action::SaveHost
                && old(self).selected_row() is None) ==> final(self).export_message == old(
                self
            ).export_message,
            action == Action::WakeOnLan && !old(self).can_wake() ==> option_text(
                final(self).export_message,
            ) == Some(wol_refusal(old(self).selected_row())),
            action == Action::SaveHost && old(self).selected_row() is None ==> option_text(
                final(self).export_message,
            ) == Some("No host selected"@),
            same_overlay(*final(self), *old(self)),
            final(self).adapters == old(self).adapters,
            final(self).config == old(self).config,
    {
        match action {
            Action::Quit => Some(AppCommand::Quit),
            Action::Cancel => {
                if matches!(self.focus, Focus::RangeInput) {
                    self.focus = Focus::HostsTable;
                }
                None
            },
            Action::Backspace => {
                if matches!(self.focus, Focus::RangeInput) {
                    self.input_mode = InputMode::EditingRange;
                    self.adapter_index = None;
                    self.range_input.move_end();
                    self.range_input.backspace();
                }
                None
            },
            Action::ToggleSelect => {
                if matches!(self.focus, Focus::HostsTable) {
                    self.toggle_mark();
                }
                None
            },
            Action::StartScan => {
                if !matches!(self.session.state(), ScanState::Scanning) {
                    Some(AppCommand::StartScan)
                } else {
                    None
                }
            },
            Action::StopScan => {
                match self.pause_scan() {
                    Some(run) => Some(AppCommand::CancelScan(run)),
                    None => None,
                }
            },
            Action::EditRange => {
                self.focus = Focus::RangeInput;
                self.input_mode = InputMode::EditingRange;
                self.range_input.move_end();
                self.adapter_index = None;
                None
            },
            Action::ConfigurePorts => {
                if matches!(self.focus, Focus::DetailsPane) {
                    return Some(AppCommand::ScanPortsForSelected);
                }
                self.input_mode = InputMode::EditingPorts;
                self.ports_input.move_end();
                None
            },
            Action::ToggleFilter => {
                self.filter_mode = self.filter_mode.toggle();
                self.update_filtered_hosts();
                None
            },
            Action::Export => {
                self.input_mode = InputMode::Exporting;
                None
            },
            Action::ToggleDetails => {
                self.show_details = !self.show_details;
                None
            },
            Action::Help => {
                self.input_mode = InputMode::Help;
                None
            },
            Action::WakeOnLan => {
                if self.wol_packet_for_selected().is_some() {
                    Some(AppCommand::SendWol)
                } else {
                    let message = self.wol_refusal_text();
                    self.set_message(message);
                    None
                }
            },
            Action::ContinuousPing => {
                match self.selected_host() {
                    Some(host) => Some(AppCommand::StartContinuousPing(host.ip)),
                    None => None,
                }
            },
            Action::RunTracert => {
                match self.selected_host() {
                    Some(host) => Some(AppCommand::StartTracert(host.ip)),
                    None => None,
                }
            },
            Action::SaveHost => {
                if self.selected_host().is_some() {
                    Some(AppCommand::SaveHost)
                } else {
                    self.set_message(String::from_str("No host selected"));
                    None
                }
            },
            Action::NavigateUp => {
                if matches!(self.focus, Focus::RangeInput) {
                    self.prev_adapter();
                } else {
                    self.select_previous();
                }
                None
            },
            Action::NavigateDown => {
                if matches!(self.focus, Focus::RangeInput) {
                    self.next_adapter();
                } else {
                    self.select_next();
                }
                None
            },
            Action::NavigatePageUp => {
                if !matches!(self.focus, Focus::RangeInput) {
                    self.page(false);
                }
                None
            },
            Action::NavigatePageDown => {
                if !matches!(self.focus, Focus::RangeInput) {
                    self.page(true);
                }
                None
            },
            Action::NavigateHome => {
                if !matches!(self.focus, Focus::RangeInput) && self.filtered_hosts.len() > 0 {
                    self.selected = Some(0);
                }
                None
            },
            Action::NavigateEnd => {
                if !matches!(self.focus, Focus::RangeInput) && self.filtered_hosts.len() > 0 {
                    self.selected = Some(self.filtered_hosts.len() - 1);
                }
                None
            },
            Action::Select => {
                if matches!(self.focus, Focus::RangeInput) && !matches!(
                    self.session.state(),
                    ScanState::Scanning
                ) {
                    Some(AppCommand::StartScan)
                } else {
                    None
                }
            },
            Action::SwitchPane => {
                self.focus = match self.focus {
                    Focus::RangeInput => Focus::HostsTable,
                    Focus::HostsTable => {
                        if self.show_details {
                            Focus::DetailsPane
                        } else {
                            Focus::RangeInput
                        }
                    },
                    Focus::DetailsPane => Focus::RangeInput,
                };
                None
            },
            Action::Character(c) => {
                if matches!(self.focus, Focus::RangeInput) {
                    self.input_mode = InputMode::EditingRange;
                    self.adapter_index = None;
                    self.range_input.move_end();
                    self.range_input.insert(c);
                }
                None
            },
            _ => None,
        }
    }

    /// Carries out an action while the range is edited.
    fn handle_editing_range_action(&mut self, action: Action) -> (r: Option<AppCommand>)
        requires
            old(self).wf(),
            old(self).input_mode == InputMode::EditingRange,
            !(action == Action::Cancel && old(self).pauses(action)),
        ensures
            final(self).wf(),
            r == old(self).command_for(action),
            final(self).input_mode == old(self).mode_after(action),
            final(self).focus == old(self).focus,
            final(self).range_input@ == Self::edited(old(self).range_input@, action),
            final(self).adapter_index == if final(self).range_input@.text != old(
                self
            ).range_input@.text {
                None
            } else {
                old(self).adapter_index
            },
            final(self).ports_input == old(self).ports_input,
            final(self).adapters == old(self).adapters,
            final(self).config == old(self).config,
            final(self).session == old(self).session,
            final(self).filter_mode == old(self).filter_mode,
            final(self).filtered_hosts == old(self).filtered_hosts,
            final(self).selected == old(self).selected,
            final(self).selected_hosts == old(self).selected_hosts,
            final(self).export_message == old(self).export_message,
            final(self).show_details == old(self).show_details,
            same_overlay(*final(self), *old(self)),
    {
        match action {
            Action::Cancel => {
                self.input_mode = InputMode::Normal;
                None
            },
            Action::Select => {
                self.input_mode = InputMode::Normal;
                if !matches!(self.session.state(), ScanState::Scanning)
                    && !self.range_input.is_empty() {
                    Some(AppCommand::StartScan)
                } else {
                    None
                }
            },
            Action::Backspace => {
                let ghost before = self.range_input@;
                if self.range_input.backspace() {
                    self.adapter_index = None;
                    assert(self.range_input@.text.len() != before.text.len());
                }
                None
            },
            Action::Delete => {
                let ghost before = self.range_input@;
                if self.range_input.delete() {
                    self.adapter_index = None;
                    assert(self.range_input@.text.len() != before.text.len());
                }
                None
            },
            Action::NavigateUp => {
                self.range_input.move_left();
                None
            },
            Action::NavigateDown => {
                self.range_input.move_right();
                None
            },
            Action::NavigateHome => {
                self.range_input.move_home();
                None
            },
            Action::NavigateEnd => {
                self.range_input.move_end();
                None
            },
            Action::Character(c) => {
                let ghost before = self.range_input@;
                if self.range_input.len() < usize::MAX {
                    self.range_input.insert(c);
                    self.adapter_index = None;
                    assert(self.range_input@.text.len() != before.text.len());
                }
                None
            },
            _ => None,
        }
    }

    /// Carries out an action while the ports are edited.
    fn handle_editing_ports_action(&mut self, action: Action) -> (r: Option<AppCommand>)
        requires
            old(self).wf(),
            old(self).input_mode == InputMode::EditingPorts,
            !(action == Action::Cancel && old(self).pauses(action)),
        ensures
            final(self).wf(),
            r is None,
            final(self).input_mode == old(self).mode_after(action),
            final(self).focus == old(self).focus,
            final(self).ports_input@ == Self::edited(old(self).ports_input@, action),
            final(self).range_input == old(self).range_input,
            final(self).adapter_index == old(self).adapter_index,
            final(self).adapters == old(self).adapters,
            final(self).config == old(self).config,
            final(self).session == old(self).session,
            final(self).filter_mode == old(self).filter_mode,
            final(self).filtered_hosts == old(self).filtered_hosts,
            final(self).selected == old(self).selected,
            final(self).selected_hosts == old(self).selected_hosts,
            final(self).export_message == old(self).export_message,
            final(self).show_details == old(self).show_details,
            same_overlay(*final(self), *old(self)),
    {
        match action {
            Action::Cancel => {
                self.input_mode = InputMode::Normal;
            },
            Action::Select => {
                self.input_mode = InputMode::Normal;
            },
            Action::Backspace => {
                self.ports_input.backspace();
            },
            Action::Delete => {
                self.ports_input.delete();
            },
            Action::NavigateUp => {
                self.ports_input.move_left();
            },
            Action::NavigateDown => {
                self.ports_input.move_right();
            },
            Action::NavigateHome => {
                self.ports_input.move_home();
            },
            Action::NavigateEnd => {
                self.ports_input.move_end();
            },
            Action::Character(c) => {
                self.ports_input.insert(c);
            },
            _ => {},
        }
        None
    }

    /// Carries out an action while output is shown: the overlay is closed, or
    /// scrolled by a line, to its first line or to its last.
    fn handle_overlay_action(&mut self, action: Action) -> (r: Option<AppCommand>)
        requires
            old(self).wf(),
            old(self).input_mode == InputMode::OutputOverlay,
        ensures
            final(self).wf(),
            r == old(self).command_for(action),
            final(self).input_mode == old(self).mode_after(action),
            final(self).focus == old(self).focus,
            same_inputs(*final(self), *old(self)),
            same_display(*final(self), *old(self)),
            same_scan(*final(self), *old(self)),
            final(self).session == old(self).session,
            final(self).overlay_title == old(self).overlay_title,
            action == Action::StopOverlay ==> !final(self).overlay_running && final(
                self
            ).overlay_lines@.len() == 0 && final(self).overlay_scroll == 0,
            action != Action::StopOverlay ==> final(self).overlay_running == old(
                self
            ).overlay_running && final(self).overlay_lines == old(self).overlay_lines,
            final(self).overlay_scroll == match action {
                Action::StopOverlay => 0,
                Action::NavigateUp => if old(self).overlay_scroll > 0 {
                    old(self).overlay_scroll - 1
                } else {
                    0
                },
                Action::NavigateDown => if old(self).overlay_scroll < usize::MAX {
                    old(self).overlay_scroll + 1
                } else {
                    usize::MAX as int
                },
                Action::NavigateHome => 0,
                Action::NavigateEnd => if old(self).overlay_lines@.len() > 0 {
                    old(self).overlay_lines@.len() - 1
                } else {
                    0
                },
                _ => old(self).overlay_scroll as int,
            },
    {
        match action {
            Action::StopOverlay => {
                self.overlay_running = false;
                self.input_mode = InputMode::Normal;
                self.overlay_lines = Vec::new();
                self.overlay_scroll = 0;
                Some(AppCommand::StopOverlay)
            },
            Action::NavigateUp => {
                if self.overlay_scroll > 0 {
                    self.overlay_scroll = self.overlay_scroll - 1;
                }
                None
            },
            Action::NavigateDown => {
                if self.overlay_scroll < usize::MAX {
                    self.overlay_scroll = self.overlay_scroll + 1;
                }
                None
            },
            Action::NavigateHome => {
                self.overlay_scroll = 0;
                None
            },
            Action::NavigateEnd => {
                let count = self.overlay_lines.len();
                self.overlay_scroll = if count > 0 {
                    count - 1
                } else {
                    0
                };
                None
            },
            _ => None,
        }
    }

    /// Carries out what the user asks for and returns what the caller is to do.
    /// The escape key pauses a running scan, except where output is shown; the
    /// space bar asks to resume a paused one; every other action is read by the
    /// mode that the interface is in.
    pub fn handle_action(&mut self, action: Action) -> (r: Option<AppCommand>)
        requires
            old(self).wf(),
        ensures
            final(self).wf(),
            r == old(self).command_for(action),
            final(self).input_mode == old(self).mode_after(action),
            final(self).focus == old(self).focus_after(action),
            final(self).session@ == if old(self).pauses(action) {
                old(self).session@.paused()
            } else {
                old(self).session@
            },
            final(self).config == old(self).config,
            final(self).adapters == old(self).adapters,
            old(self).input_mode == InputMode::EditingRange && !old(self).pauses(action) ==> final(
                self
            ).range_input@ == Self::edited(old(self).range_input@, action),
            old(self).input_mode == InputMode::EditingPorts && !old(self).pauses(action) ==> final(
                self
            ).ports_input@ == Self::edited(old(self).ports_input@, action),
            old(self).input_mode != InputMode::Normal ==> final(self).filter_mode == old(
                self
            ).filter_mode && final(self).show_details == old(self).show_details,
            old(self).reads_as_command(action) ==> {
                &&& final(self).selected == old(self).row_after_action(action)
                &&& final(self).adapter_index == old(self).adapter_after_action(action)
                &&& final(self).selected_hosts@ == old(self).marks_after_action(action)
                &&& final(self).filter_mode == if action == Action::ToggleFilter {
                    if old(self).filter_mode == FilterMode::All {
                        FilterMode::OnlineOnly
                    } else {
                        FilterMode::All
                    }
                } else {
                    old(self).filter_mode
                }
                &&& final(self).show_details == if action == Action::ToggleDetails {
                    !old(self).show_details
                } else {
                    old(self).show_details
                }
            },
            !old(self).reads_as_command(action) ==> {
                &&& final(self).selected == old(self).selected
                &&& final(self).selected_hosts@ == old(self).selected_hosts@
                &&& final(self).filtered_hosts == old(self).filtered_hosts
                &&& final(self).export_message == old(self).export_message
            },
    {
        if matches!(action, Action::Cancel) && matches!(self.session.state(), ScanState::Scanning)
            && !matches!(self.input_mode, InputMode::OutputOverlay) {
            return match self.pause_scan() {
                Some(run) => Some(AppCommand::CancelScan(run)),
                None => None,
            };
        }
        if matches!(action, Action::ToggleSelect) && matches!(
            self.session.state(),
            ScanState::Paused
        ) && matches!(self.input_mode, InputMode::Normal) {
            return Some(AppCommand::ResumeScan);
        }
        match self.input_mode {
            InputMode::Normal => self.handle_normal_action(action),
            InputMode::EditingRange => self.handle_editing_range_action(action),
            InputMode::EditingPorts => self.handle_editing_ports_action(action),
            InputMode::Help => {
                if matches!(action, Action::Cancel) {
                    self.input_mode = InputMode::Normal;
                }
                None
            },
            InputMode::Exporting => {
                match action {
                    Action::Cancel => {
                        self.input_mode = InputMode::Normal;
                        None
                    },
                    Action::Character(c) => {
                        if c == 'c' {
                            self.input_mode = InputMode::Normal;
                            Some(AppCommand::ExportCsv)
                        } else if c == 'j' {
                            self.input_mode = InputMode::Normal;
                            Some(AppCommand::ExportJson)
                        } else {
                            None
                        }
                    },
                    _ => None,
                }
            },
            InputMode::OutputOverlay => self.handle_overlay_action(action),
        }
    }
}

/// While the range or the ports are edited, no letter starts, stops or leaves
/// anything: every character goes into the text.
pub proof fn lemma_typing_is_text(app: App, c: char)
    requires
        app.input_mode == InputMode::EditingRange || app.input_mode == InputMode::EditingPorts,
    ensures
        app.command_for(Action::Character(c)) is None,
        app.mode_after(Action::Character(c)) == app.input_mode,
        !app.pauses(Action::Character(c)),
{
}

} // verus!
