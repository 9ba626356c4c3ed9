//! The state of the interface and what the user's actions do to it.

use crate::adapters::AdapterInfo;
use crate::addr::Ipv4Addr;
use crate::config::Config;
use crate::edit::{FieldView, TextField};
use crate::host::HostInfo;
use crate::input::InputMode;
use crate::range::{range_spec_value, ParseError};
use crate::session::{ascending_by_ip, ScanSession, ScanState, SessionView};
use crate::text::{decimal_text, push_decimal};
use std::collections::HashSet;
use vstd::prelude::*;

verus! {

broadcast use vstd::std_specs::hash::group_hash_axioms;

/// Which hosts the table shows.
#[derive(Debug, Clone, Copy, PartialEq, Eq, Structural)]
pub enum FilterMode {
    /// Every host.
    All,
    /// The hosts that are alive.
    OnlineOnly,
}

impl FilterMode {
    /// The other mode.
    pub fn toggle(&self) -> (r: FilterMode)
        ensures
            r == if *self == FilterMode::All {
                FilterMode::OnlineOnly
            } else {
                FilterMode::All
            },
    {
        match self {
            FilterMode::All => FilterMode::OnlineOnly,
            FilterMode::OnlineOnly => FilterMode::All,
        }
    }

    /// The mode's name as it is shown.
    pub open spec fn name(self) -> Seq<char> {
        match self {
            FilterMode::All => "All"@,
            FilterMode::OnlineOnly => "Online"@,
        }
    }

    /// The mode's name as it is shown: `All` or `Online`.
    pub fn label(&self) -> (r: &'static str)
        ensures
            r@ == self.name(),
    {
        match self {
            FilterMode::All => "All",
            FilterMode::OnlineOnly => "Online",
        }
    }
}

/// The pane that takes the keys.
#[derive(Debug, Clone, Copy, PartialEq, Eq, Structural)]
pub enum Focus {
    RangeInput,
    HostsTable,
    DetailsPane,
}

/// What the interface asks its caller to do.
#[derive(Debug, Clone, Copy, PartialEq, Eq, Structural)]
pub enum AppCommand {
    Quit,
    /// Start a scan of the range in the range field.
    StartScan,
    /// Take up the paused scan again.
    ResumeScan,
    /// Tell the run with this number to stop.
    CancelScan(u64),
    /// Scan the ports of the selected host.
    ScanPortsForSelected,
    StartContinuousPing(Ipv4Addr),
    StartTracert(Ipv4Addr),
    /// Stop what feeds the output overlay.
    StopOverlay,
    /// Send the wake-up packet of the selected host as a broadcast.
    SendWol,
    /// Write the report of the selected host to a file.
    SaveHost,
    ExportCsv,
    ExportJson,
}

/// What the scan reports.
#[derive(Debug)]
pub enum ScanEvent {
    HostDiscovered(HostInfo),
    ScanComplete,
}

/// The places among `hosts` of those that the table shows in the mode `mode`, in
/// ascending order.
pub open spec fn visible(hosts: Seq<HostInfo>, mode: FilterMode) -> Seq<usize>
    decreases hosts.len(),
{
    if hosts.len() == 0 {
        Seq::empty()
    } else {
        let rest = visible(hosts.drop_last(), mode);
        if mode == FilterMode::All || hosts.last().is_alive {
            rest.push((hosts.len() - 1) as usize)
        } else {
            rest
        }
    }
}

/// How many of `hosts` are alive.
pub open spec fn alive_count(hosts: Seq<HostInfo>) -> nat
    decreases hosts.len(),
{
    if hosts.len() == 0 {
        0
    } else {
        alive_count(hosts.drop_last()) + if hosts.last().is_alive {
            1nat
        } else {
            0nat
        }
    }
}

/// The table shows places that exist, each once and in ascending order; in the
/// mode that shows all hosts, it shows every place.
pub proof fn lemma_visible(hosts: Seq<HostInfo>, mode: FilterMode)
    requires
        hosts.len() <= usize::MAX,
    ensures
        visible(hosts, mode).len() <= hosts.len(),
        forall|k: int| 0 <= k < visible(hosts, mode).len() ==> #[trigger] visible(hosts, mode)[k]
            < hosts.len(),
        forall|k: int|
            0 <= k < visible(hosts, mode).len() ==> mode == FilterMode::All || hosts[(
            #[trigger] visible(hosts, mode)[k]) as int].is_alive,
        forall|j: int, k: int|
            0 <= j < k < visible(hosts, mode).len() ==> visible(hosts, mode)[j] < visible(
                hosts,
                mode,
            )[k],
        mode == FilterMode::All ==> visible(hosts, mode).len() == hosts.len(),
        alive_count(hosts) <= hosts.len(),
        mode == FilterMode::OnlineOnly ==> visible(hosts, mode).len() == alive_count(hosts),
    decreases hosts.len(),
{
    if hosts.len() > 0 {
        let front = hosts.drop_last();
        lemma_visible(front, mode);
        let rest = visible(front, mode);
        let all = visible(hosts, mode);
        assert forall|k: int| 0 <= k < all.len() implies mode == FilterMode::All || hosts[(
        #[trigger] all[k]) as int].is_alive by {
            if k < rest.len() {
                assert(all[k] == rest[k]);
                assert(hosts[rest[k] as int] == front[rest[k] as int]);
            }
        }
        assert forall|j: int, k: int| 0 <= j < k < all.len() implies all[j] < all[k] by {
            assert(all[j] == rest[j]);
            if k < rest.len() {
                assert(all[k] == rest[k]);
            }
        }
    }
}

/// What the table shows of the first hosts, it shows first of all hosts.
pub proof fn lemma_visible_grows(hosts: Seq<HostInfo>, mode: FilterMode, k: int)
    requires
        0 <= k <= hosts.len(),
    ensures
        visible(hosts.take(k), mode).len() <= visible(hosts, mode).len(),
        visible(hosts, mode).take(visible(hosts.take(k), mode).len() as int) == visible(
            hosts.take(k),
            mode,
        ),
    decreases hosts.len() - k,
{
    if k == hosts.len() {
        assert(hosts.take(k) =~= hosts);
        assert(visible(hosts, mode).take(visible(hosts, mode).len() as int) =~= visible(
            hosts,
            mode,
        ));
    } else {
        let front = hosts.drop_last();
        lemma_visible_grows(front, mode, k);
        assert(front.take(k) =~= hosts.take(k));
        let part = visible(hosts.take(k), mode);
        assert(visible(hosts, mode).take(part.len() as int) =~= visible(front, mode).take(
            part.len() as int,
        ));
    }
}

/// The state of the interface.
pub struct App {
    pub config: Config,
    pub input_mode: InputMode,
    pub focus: Focus,
    pub filter_mode: FilterMode,
    /// The network adapters of this machine, the preferred ones first.
    pub adapters: Vec<AdapterInfo>,
    /// The adapter whose network stands in the range field; `None` where the
    /// user has written the range.
    pub adapter_index: Option<usize>,
    /// Whether the adapters are still being looked for.
    pub adapters_loading: bool,
    pub range_input: TextField,
    pub ports_input: TextField,
    pub session: ScanSession,
    /// The places among the session's hosts of those that the table shows.
    pub filtered_hosts: Vec<usize>,
    /// The row of the table on which the cursor stands.
    pub selected: Option<usize>,
    /// The addresses (as numbers) of the hosts that are marked.
    pub selected_hosts: HashSet<u32>,
    pub show_details: bool,
    /// A message that is shown until the next key.
    pub export_message: Option<String>,
    pub animation_tick: u8,
    pub overlay_title: String,
    pub overlay_lines: Vec<String>,
    pub overlay_scroll: usize,
    /// Whether something feeds the output overlay.
    pub overlay_running: bool,
    /// Whether a port scan is running.
    pub port_scanning: bool,
    /// Whether the keys are shown.
    pub show_keybindings: bool,
}

/// The frames of the activity indicator.
pub open spec fn spinner_frame(tick: u8) -> Seq<char> {
    let i = tick as int % 10;
    if i == 0 {
        "⠋"@
    } else if i == 1 {
        "⠙"@
    } else if i == 2 {
        "⠹"@
    } else if i == 3 {
        "⠸"@
    } else if i == 4 {
        "⠼"@
    } else if i == 5 {
        "⠴"@
    } else if i == 6 {
        "⠦"@
    } else if i == 7 {
        "⠧"@
    } else if i == 8 {
        "⠇"@
    } else {
        "⠏"@
    }
}

/// The short text on the state of the scan.
pub open spec fn status_line(loading: bool, tick: u8, session: SessionView) -> Seq<char> {
    if loading {
        spinner_frame(tick) + " Loading"@
    } else {
        match session.state {
            ScanState::Idle => "Ready"@,
            ScanState::Scanning => spinner_frame(tick) + " "@ + decimal_text(
                session.completed as nat,
            ) + "/"@ + decimal_text(session.total()),
            ScanState::Paused => "Paused"@,
            ScanState::Completed => "Done"@,
        }
    }
}

/// The summary of a scan that is over.
pub open spec fn summary_line(hosts: Seq<HostInfo>) -> Seq<char> {
    decimal_text(hosts.len()) + " hosts ("@ + decimal_text(alive_count(hosts)) + " online)"@
}

/// Whether `a` and `b` agree in what the user has entered and chosen.
pub open spec fn same_inputs(a: App, b: App) -> bool {
    &&& a.range_input == b.range_input
    &&& a.ports_input == b.ports_input
    &&& a.adapters == b.adapters
    &&& a.adapter_index == b.adapter_index
    &&& a.adapters_loading == b.adapters_loading
    &&& a.config == b.config
}

/// Whether `a` and `b` agree in the output overlay.
pub open spec fn same_overlay(a: App, b: App) -> bool {
    &&& a.overlay_title == b.overlay_title
    &&& a.overlay_lines == b.overlay_lines
    &&& a.overlay_scroll == b.overlay_scroll
    &&& a.overlay_running == b.overlay_running
}

/// Whether `a` and `b` agree in what is shown beside the table.
pub open spec fn same_display(a: App, b: App) -> bool {
    &&& a.show_details == b.show_details
    &&& a.export_message == b.export_message
    &&& a.animation_tick == b.animation_tick
    &&& a.port_scanning == b.port_scanning
    &&& a.show_keybindings == b.show_keybindings
}

/// Whether `a` and `b` agree in the scan and in what the table shows of it.
pub open spec fn same_scan(a: App, b: App) -> bool {
    &&& a.session@ == b.session@
    &&& a.filtered_hosts == b.filtered_hosts
    &&& a.filter_mode == b.filter_mode
    &&& a.selected == b.selected
    &&& a.selected_hosts == b.selected_hosts
}

impl App {
    /// Whether the state can arise.
    pub open spec fn wf(&self) -> bool {
        &&& self.session@.wf()
        &&& self.range_input@.wf()
        &&& self.ports_input@.wf()
        &&& self.adapter_index matches Some(i) ==> i < self.adapters@.len()
        &&& self.filtered_hosts@ == visible(self.session@.hosts, self.filter_mode)
        &&& self.selected matches Some(i) ==> i < self.filtered_hosts@.len()
        &&& self.animation_tick < 12
    }

    /// Whether the interface is in a state that can arise.
    pub fn is_wf(&self) -> (r: bool)
        ensures
            r == self.wf(),
    {
        if !self.session.is_wf() || !self.range_input.is_wf() || !self.ports_input.is_wf()
            || self.animation_tick >= 12 {
            return false;
        }
        if let Some(i) = self.adapter_index {
            if i >= self.adapters.len() {
                return false;
            }
        }
        if let Some(i) = self.selected {
            if i >= self.filtered_hosts.len() {
                return false;
            }
        }
        let hosts = self.session.hosts();
        let n = hosts.len();
        let all = matches!(self.filter_mode, FilterMode::All);
        let mut shown: usize = 0;
        let mut i: usize = 0;
        assert(hosts@.take(0) =~= Seq::<HostInfo>::empty());
        while i < n
            invariant
                i <= n,
                n == hosts@.len(),
                hosts@ == self.session@.hosts,
                all == (self.filter_mode == FilterMode::All),
                shown == visible(hosts@.take(i as int), self.filter_mode).len(),
                shown <= i,
                shown <= self.filtered_hosts@.len(),
                self.filtered_hosts@.take(shown as int) == visible(
                    hosts@.take(i as int),
                    self.filter_mode,
                ),
            decreases n - i,
        {
            let ghost before = visible(hosts@.take(i as int), self.filter_mode);
            let ghost after = visible(hosts@.take(i + 1), self.filter_mode);
            assert(hosts@.take(i + 1).drop_last() =~= hosts@.take(i as int));
            if all || hosts[i].is_alive {
                assert(after == before.push(i));
                if shown >= self.filtered_hosts.len() || self.filtered_hosts[shown] != i {
                    proof {
                        lemma_visible_grows(hosts@, self.filter_mode, i + 1);
                        let whole = visible(hosts@, self.filter_mode);
                        if self.filtered_hosts@ == whole {
                            assert(whole.take(after.len() as int) == after);
                            assert(whole[shown as int] == after[shown as int]);
                        }
                    }
                    return false;
                }
                assert(self.filtered_hosts@.take(shown + 1) =~= before.push(i));
                shown += 1;
            }
            i += 1;
        }
        assert(hosts@.take(n as int) =~= hosts@);
        if shown != self.filtered_hosts.len() {
            return false;
        }
        assert(self.filtered_hosts@.take(shown as int) =~= self.filtered_hosts@);
        true
    }

    /// The interface at the start: the default range stands in the range field,
    /// which has the focus; no scan was started; the adapters are being looked for.
    pub fn new(config: Config) -> (r: App)
        ensures
            r.wf(),
            r.config == config,
            r.input_mode == InputMode::Normal,
            r.focus == Focus::RangeInput,
            r.filter_mode == FilterMode::All,
            r.adapters@.len() == 0,
            r.adapter_index is None,
            r.adapters_loading,
            r.range_input@ == (FieldView {
                text: config.default_range@,
                cursor: config.default_range@.len() as int,
            }),
            r.ports_input@.text.len() == 0,
            r.session@ == SessionView::initial(),
            r.selected is None,
            r.selected_hosts@ == Set::<u32>::empty(),
            r.show_details,
            r.export_message is None,
            r.animation_tick == 0,
            r.overlay_lines@.len() == 0,
            !r.overlay_running && !r.port_scanning && !r.show_keybindings,
    {
        let range_input = TextField::with_text(config.default_range.as_str());
        App {
            config,
            input_mode: InputMode::Normal,
            focus: Focus::RangeInput,
            filter_mode: FilterMode::All,
            adapters: Vec::new(),
            adapter_index: None,
            adapters_loading: true,
            range_input,
            ports_input: TextField::new(),
            session: ScanSession::new(),
            filtered_hosts: Vec::new(),
            selected: None,
            selected_hosts: HashSet::new(),
            show_details: true,
            export_message: None,
            animation_tick: 0,
            overlay_title: String::new(),
            overlay_lines: Vec::new(),
            overlay_scroll: 0,
            overlay_running: false,
            port_scanning: false,
            show_keybindings: false,
        }
    }

    /// Takes the adapters that were found. Where there is one and the user has
    /// not chosen yet, the network of the first is put into the range field.
    pub fn load_adapters(&mut self, adapters: Vec<AdapterInfo>)
        requires
            old(self).wf(),
        ensures
            final(self).wf(),
            final(self).adapters == adapters,
            !final(self).adapters_loading,
            final(self).session == old(self).session,
            same_scan(*final(self), *old(self)),
            same_overlay(*final(self), *old(self)),
            same_display(*final(self), *old(self)),
            final(self).config == old(self).config,
            final(self).ports_input == old(self).ports_input,
            final(self).input_mode == old(self).input_mode,
            final(self).focus == old(self).focus,
            if adapters@.len() > 0 && old(self).adapter_index is None {
                &&& final(self).adapter_index == Some(0usize)
                &&& final(self).range_input@.text == adapters@[0].subnet@
            } else {
                &&& final(self).range_input == old(self).range_input
                &&& final(self).adapter_index is None
            },
    {
        let chosen = self.adapter_index.is_some();
        self.adapters = adapters;
        self.adapters_loading = false;
        if self.adapters.len() > 0 && !chosen {
            self.adapter_index = Some(0);
            self.range_input.set(self.adapters[0].subnet.as_str());
        } else {
            self.adapter_index = None;
        }
    }

    /// Moves the activity indicator on by one of its twelve steps.
    pub fn tick_animation(&mut self)
        requires
            old(self).wf(),
        ensures
            final(self).wf(),
            final(self).animation_tick == (old(self).animation_tick + 1) % 12,
            final(self).session == old(self).session,
            same_scan(*final(self), *old(self)),
            same_inputs(*final(self), *old(self)),
            same_overlay(*final(self), *old(self)),
            final(self).input_mode == old(self).input_mode,
            final(self).focus == old(self).focus,
            final(self).show_details == old(self).show_details,
            final(self).export_message == old(self).export_message,
    {
        self.animation_tick = (self.animation_tick + 1) % 12;
    }

    /// The adapter whose network stands in the range field.
    pub fn current_adapter(&self) -> (r: Option<&AdapterInfo>)
        ensures
            r == match self.adapter_index {
                Some(i) => if i < self.adapters@.len() {
                    Some(&self.adapters@[i as int])
                } else {
                    None
                },
                None => None,
            },
    {
        match self.adapter_index {
            Some(i) => {
                if i < self.adapters.len() {
                    Some(&self.adapters[i])
                } else {
                    None
                }
            },
            None => None,
        }
    }

    /// The choice that follows `index` among `count` adapters: the next adapter,
    /// then the range that the user writes, then the first adapter again.
    pub open spec fn adapter_after(index: Option<usize>, count: nat) -> Option<usize> {
        match index {
            Some(i) => if i + 1 < count {
                Some((i + 1) as usize)
            } else {
                None
            },
            None => Some(0),
        }
    }

    /// The choice that comes before `index` among `count` adapters.
    pub open spec fn adapter_before(index: Option<usize>, count: nat) -> Option<usize> {
        match index {
            Some(i) => if i > 0 {
                Some((i - 1) as usize)
            } else {
                None
            },
            None => Some((count - 1) as usize),
        }
    }

    fn choose_adapter(&mut self, index: Option<usize>)
        requires
            old(self).wf(),
            index matches Some(i) ==> i < old(self).adapters@.len(),
        ensures
            final(self).wf(),
            final(self).adapter_index == index,
            final(self).adapters == old(self).adapters,
            final(self).config == old(self).config,
            final(self).adapters_loading == old(self).adapters_loading,
            final(self).session == old(self).session,
            same_scan(*final(self), *old(self)),
            same_overlay(*final(self), *old(self)),
            same_display(*final(self), *old(self)),
            final(self).input_mode == old(self).input_mode,
            final(self).focus == old(self).focus,
            final(self).ports_input == old(self).ports_input,
            final(self).range_input@.text == match index {
                Some(i) => old(self).adapters@[i as int].subnet@,
                None => Seq::<char>::empty(),
            },
            final(self).range_input@.cursor == final(self).range_input@.text.len(),
    {
        self.adapter_index = index;
        match index {
            Some(i) => {
                self.range_input.set(self.adapters[i].subnet.as_str());
            },
            None => {
                self.range_input.clear();
            },
        }
    }

    /// Goes on to the next adapter, putting its network into the range field; behind
    /// the last adapter comes an empty field for a range that the user writes.
    /// Without adapters nothing happens.
    pub fn next_adapter(&mut self)
        requires
            old(self).wf(),
        ensures
            final(self).wf(),
            final(self).session == old(self).session,
            same_scan(*final(self), *old(self)),
            same_overlay(*final(self), *old(self)),
            same_display(*final(self), *old(self)),
            final(self).input_mode == old(self).input_mode,
            final(self).focus == old(self).focus,
            final(self).adapters == old(self).adapters,
            final(self).config == old(self).config,
            final(self).adapters_loading == old(self).adapters_loading,
            final(self).ports_input == old(self).ports_input,
            old(self).adapters@.len() == 0 ==> final(self).adapter_index == old(self).adapter_index
                && final(self).range_input == old(self).range_input,
            old(self).adapters@.len() > 0 ==> final(self).adapter_index == Self::adapter_after(
                old(self).adapter_index,
                old(self).adapters@.len(),
            ) && final(self).range_input@.text == match final(self).adapter_index {
                Some(i) => old(self).adapters@[i as int].subnet@,
                None => Seq::<char>::empty(),
            },
    {
        if self.adapters.len() == 0 {
            return ;
        }
        let next = match self.adapter_index {
            Some(i) => {
                if i + 1 < self.adapters.len() {
                    Some(i + 1)
                } else {
                    None
                }
            },
            None => Some(0),
        };
        self.choose_adapter(next);
    }

    /// Goes back to the adapter before, as [`Self::next_adapter`] goes on.
    pub fn prev_adapter(&mut self)
        requires
            old(self).wf(),
        ensures
            final(self).wf(),
            final(self).session == old(self).session,
            same_scan(*final(self), *old(self)),
            same_overlay(*final(self), *old(self)),
            same_display(*final(self), *old(self)),
            final(self).input_mode == old(self).input_mode,
            final(self).focus == old(self).focus,
            final(self).adapters == old(self).adapters,
            final(self).config == old(self).config,
            final(self).adapters_loading == old(self).adapters_loading,
            final(self).ports_input == old(self).ports_input,
            old(self).adapters@.len() == 0 ==> final(self).adapter_index == old(self).adapter_index
                && final(self).range_input == old(self).range_input,
            old(self).adapters@.len() > 0 ==> final(self).adapter_index == Self::adapter_before(
                old(self).adapter_index,
                old(self).adapters@.len(),
            ) && final(self).range_input@.text == match final(self).adapter_index {
                Some(i) => old(self).adapters@[i as int].subnet@,
                None => Seq::<char>::empty(),
            },
    {
        if self.adapters.len() == 0 {
            return ;
        }
        let prev = match self.adapter_index {
            Some(i) => {
                if i > 0 {
                    Some(i - 1)
                } else {
                    None
                }
            },
            None => Some(self.adapters.len() - 1),
        };
        self.choose_adapter(prev);
    }

    /// Works out anew which hosts the table shows, and takes the cursor back into
    /// the table where it would stand below its end.
    pub fn update_filtered_hosts(&mut self)
        requires
            old(self).session@.wf(),
            old(self).range_input@.wf(),
            old(self).ports_input@.wf(),
            old(self).adapter_index matches Some(i) ==> i < old(self).adapters@.len(),
            old(self).animation_tick < 12,
        ensures
            final(self).wf(),
            final(self).filtered_hosts@ == visible(old(self).session@.hosts, old(self).filter_mode),
            final(self).selected == Self::row_within(
                old(self).selected,
                final(self).filtered_hosts@.len(),
            ),
            final(self).session == old(self).session,
            final(self).filter_mode == old(self).filter_mode,
            final(self).input_mode == old(self).input_mode,
            final(self).focus == old(self).focus,
            final(self).range_input == old(self).range_input,
            final(self).ports_input == old(self).ports_input,
            final(self).adapters == old(self).adapters,
            final(self).adapter_index == old(self).adapter_index,
            final(self).selected_hosts == old(self).selected_hosts,
            final(self).config == old(self).config,
            final(self).show_details == old(self).show_details,
            final(self).export_message == old(self).export_message,
            final(self).overlay_lines == old(self).overlay_lines,
            final(self).overlay_scroll == old(self).overlay_scroll,
            final(self).overlay_running == old(self).overlay_running,
            final(self).overlay_title == old(self).overlay_title,
            final(self).port_scanning == old(self).port_scanning,
            final(self).adapters_loading == old(self).adapters_loading,
            final(self).animation_tick == old(self).animation_tick,
            final(self).show_keybindings == old(self).show_keybindings,
    {
        let mut shown: Vec<usize> = Vec::new();
        let hosts = self.session.hosts();
        let n = hosts.len();
        let all = matches!(self.filter_mode, FilterMode::All);
        let mut i: usize = 0;
        assert(hosts@.take(0) =~= Seq::<HostInfo>::empty());
        while i < n
            invariant
                i <= n,
                n == hosts@.len(),
                all == (self.filter_mode == FilterMode::All),
                shown@ == visible(hosts@.take(i as int), self.filter_mode),
            decreases n - i,
        {
            assert(hosts@.take(i + 1).drop_last() =~= hosts@.take(i as int));
            if all || hosts[i].is_alive {
                shown.push(i);
            }
            i += 1;
        }
        assert(hosts@.take(n as int) =~= hosts@);
        self.filtered_hosts = shown;
        if let Some(selected) = self.selected {
            if selected >= self.filtered_hosts.len() {
                if self.filtered_hosts.len() == 0 {
                    self.selected = None;
                } else {
                    self.selected = Some(self.filtered_hosts.len() - 1);
                }
            }
        }
    }

    /// Starts a scan of the range that stands in the range field. A range that
    /// cannot be read is refused and nothing changes. Else the table is emptied,
    /// no host is marked any more, and the table takes the focus. Returns the
    /// number of the run that begins.
    pub fn start_scan(&mut self) -> (r: Result<u64, ParseError>)
        requires
            old(self).wf(),
        ensures
            final(self).wf(),
            same_inputs(*final(self), *old(self)),
            same_overlay(*final(self), *old(self)),
            same_display(*final(self), *old(self)),
            final(self).input_mode == old(self).input_mode,
            final(self).filter_mode == old(self).filter_mode,
            r matches Err(e) ==> range_spec_value(old(self).range_input@.text) == Err::<
                Seq<Ipv4Addr>,
                ParseError,
            >(e) && same_scan(*final(self), *old(self)) && final(self).focus == old(self).focus,
            r matches Ok(run) ==> range_spec_value(old(self).range_input@.text) == Ok::<
                Seq<Ipv4Addr>,
                ParseError,
            >(final(self).session@.addresses) && final(self).session@ == old(
                self
            ).session@.started(old(self).range_input@.text, final(self).session@.addresses) && run
                == final(self).session@.run && final(self).selected is None
                && final(self).selected_hosts@ == Set::<u32>::empty() && final(self).focus
                == Focus::HostsTable,
    {
        let text = self.range_input.text();
        match self.session.start(text.as_str()) {
            Err(e) => Err(e),
            Ok(run) => {
                self.filtered_hosts = Vec::new();
                self.selected_hosts.clear();
                self.selected = None;
                self.focus = Focus::HostsTable;
                Ok(run)
            },
        }
    }

    /// Pauses a scan that is running. Returns the number of the run that is to be
    /// told to stop, or `None` where no scan is running.
    pub fn pause_scan(&mut self) -> (r: Option<u64>)
        requires
            old(self).wf(),
        ensures
            final(self).wf(),
            same_inputs(*final(self), *old(self)),
            same_overlay(*final(self), *old(self)),
            same_display(*final(self), *old(self)),
            final(self).input_mode == old(self).input_mode,
            final(self).focus == old(self).focus,
            final(self).filter_mode == old(self).filter_mode,
            final(self).filtered_hosts == old(self).filtered_hosts,
            final(self).selected == old(self).selected,
            final(self).selected_hosts == old(self).selected_hosts,
            final(self).session@ == old(self).session@.paused(),
            r == if old(self).session@.state == ScanState::Scanning {
                Some(old(self).session@.run)
            } else {
                None
            },
    {
        self.session.pause()
    }

    /// Takes up a paused scan again, from the first address of its range: the
    /// table is emptied, no host is marked any more, and the table takes the
    /// focus. Returns the number of the run that begins, or `None` where no
    /// scan is paused.
    pub fn resume_scan(&mut self) -> (r: Option<u64>)
        requires
            old(self).wf(),
        ensures
            final(self).wf(),
            same_inputs(*final(self), *old(self)),
            same_overlay(*final(self), *old(self)),
            same_display(*final(self), *old(self)),
            final(self).input_mode == old(self).input_mode,
            final(self).filter_mode == old(self).filter_mode,
            final(self).session@ == old(self).session@.resumed(),
            old(self).session@.state != ScanState::Paused ==> r is None && same_scan(
                *final(self),
                *old(self),
            ) && final(self).focus == old(self).focus,
            old(self).session@.state == ScanState::Paused ==> r == Some(final(self).session@.run)
                && final(self).selected is None && final(self).selected_hosts@ == Set::<
                u32,
            >::empty() && final(self).focus == Focus::HostsTable,
    {
        match self.session.resume() {
            None => {
                None
            },
            Some(run) => {
                self.filtered_hosts = Vec::new();
                self.selected_hosts.clear();
                self.selected = None;
                self.focus = Focus::HostsTable;
                Some(run)
            },
        }
    }

    /// Takes what the scan reports. A host that the run `run` reports is shown if
    /// the session takes it, and the cursor is put on the first row if it
    /// stands on none. At the end of the scan the hosts are put in the
    /// ascending order of their addresses, the same hosts as before; the run
    /// can no longer be told to stop; and the rows of the table are worked out
    /// anew for that order.
    pub fn handle_scan_event(&mut self, run: u64, event: ScanEvent)
        requires
            old(self).wf(),
        ensures
            final(self).wf(),
            same_inputs(*final(self), *old(self)),
            same_overlay(*final(self), *old(self)),
            same_display(*final(self), *old(self)),
            final(self).input_mode == old(self).input_mode,
            final(self).focus == old(self).focus,
            final(self).filter_mode == old(self).filter_mode,
            final(self).selected_hosts == old(self).selected_hosts,
            final(self).session@ == match event {
                ScanEvent::HostDiscovered(host) => old(self).session@.discovered(run, host),
                ScanEvent::ScanComplete => old(self).session@.finished(),
            },
            final(self).filtered_hosts@ == visible(final(self).session@.hosts, old(self).filter_mode),
            final(self).selected == if event is HostDiscovered && old(self).selected is None
                && final(self).filtered_hosts@.len() > 0 {
                Some(0usize)
            } else {
                Self::row_within(old(self).selected, final(self).filtered_hosts@.len())
            },
            event is ScanComplete ==> {
                &&& ascending_by_ip(final(self).session@.hosts)
                &&& final(self).session@.hosts.to_multiset() == old(
                    self
                ).session@.hosts.to_multiset()
                &&& final(self).session@.hosts.len() == old(self).session@.hosts.len()
                &&& !final(self).session@.cancel_live
                &&& final(self).session@.state == if old(self).session@.state
                    == ScanState::Paused {
                    ScanState::Paused
                } else {
                    ScanState::Completed
                }
            },
    {
        match event {
            ScanEvent::HostDiscovered(host) => {
                self.session.on_host_discovered(run, host);
                self.update_filtered_hosts();
                if self.selected.is_none() && self.filtered_hosts.len() > 0 {
                    self.selected = Some(0);
                }
            },
            ScanEvent::ScanComplete => {
                self.session.on_scan_complete();
                self.update_filtered_hosts();
            },
        }
    }

    /// The host whose ports are to be scanned: the one under the cursor, if it is alive.
    pub fn port_scan_target(&self) -> (r: Option<Ipv4Addr>)
        ensures
            r == match self.selected_row() {
                Some(h) => if h.is_alive {
                    Some(h.ip)
                } else {
                    None
                },
                None => None,
            },
    {
        match self.selected_host() {
            Some(h) => {
                if h.is_alive {
                    Some(h.ip)
                } else {
                    None
                }
            },
            None => None,
        }
    }

    /// Gets a scan of the ports of the host under the cursor going, if that host is
    /// alive: the scan counts as running, and the host's address is returned
    /// for the caller to scan.
    pub fn scan_ports_for_selected(&mut self) -> (r: Option<Ipv4Addr>)
        requires
            old(self).wf(),
        ensures
            final(self).wf(),
            r == match old(self).selected_row() {
                Some(h) => if h.is_alive {
                    Some(h.ip)
                } else {
                    None
                },
                None => None,
            },
            final(self).port_scanning == (r is Some || old(self).port_scanning),
            same_inputs(*final(self), *old(self)),
            same_overlay(*final(self), *old(self)),
            same_scan(*final(self), *old(self)),
            final(self).session == old(self).session,
            final(self).input_mode == old(self).input_mode,
            final(self).focus == old(self).focus,
            final(self).show_details == old(self).show_details,
            final(self).export_message == old(self).export_message,
    {
        let target = self.port_scan_target();
        if target.is_some() {
            self.port_scanning = true;
        }
        target
    }

    /// Takes the outcome of a port scan of `ip`: the open ports, in ascending order.
    /// The scan counts as over.
    pub fn apply_port_scan(&mut self, ip: Ipv4Addr, ports: Vec<u16>)
        requires
            old(self).wf(),
        ensures
            final(self).wf(),
            same_inputs(*final(self), *old(self)),
            same_overlay(*final(self), *old(self)),
            final(self).input_mode == old(self).input_mode,
            final(self).focus == old(self).focus,
            final(self).filter_mode == old(self).filter_mode,
            final(self).selected_hosts == old(self).selected_hosts,
            final(self).session@ == old(self).session@.with_open_ports(ip, ports),
            !final(self).port_scanning,
    {
        self.session.set_open_ports(ip, ports);
        self.port_scanning = false;
        self.update_filtered_hosts();
    }

    /// Puts up the hosts of an earlier scan for show, unless a scan is running or paused.
    pub fn show_cached(&mut self, hosts: Vec<HostInfo>)
        requires
            old(self).wf(),
        ensures
            final(self).wf(),
            same_inputs(*final(self), *old(self)),
            same_overlay(*final(self), *old(self)),
            same_display(*final(self), *old(self)),
            final(self).input_mode == old(self).input_mode,
            final(self).focus == old(self).focus,
            final(self).filter_mode == old(self).filter_mode,
            final(self).selected_hosts == old(self).selected_hosts,
            final(self).session@ == old(self).session@.with_cached(hosts@),
    {
        self.session.show_cached(hosts);
        self.update_filtered_hosts();
    }

    /// Opens the output overlay under `title`, empty, for output that is about to come.
    pub fn start_overlay(&mut self, title: String)
        requires
            old(self).wf(),
        ensures
            final(self).wf(),
            same_inputs(*final(self), *old(self)),
            same_display(*final(self), *old(self)),
            same_scan(*final(self), *old(self)),
            final(self).focus == old(self).focus,
            final(self).input_mode == InputMode::OutputOverlay,
            final(self).overlay_title == title,
            final(self).overlay_lines@.len() == 0,
            final(self).overlay_scroll == 0,
            final(self).overlay_running,
    {
        self.overlay_title = title;
        self.overlay_lines = Vec::new();
        self.overlay_scroll = 0;
        self.overlay_running = true;
        self.input_mode = InputMode::OutputOverlay;
    }

    /// Adds a line of output to the overlay. Where the last line was in view, the
    /// new last line comes into view.
    pub fn push_overlay_line(&mut self, line: String)
        requires
            old(self).wf(),
        ensures
            final(self).wf(),
            same_inputs(*final(self), *old(self)),
            same_display(*final(self), *old(self)),
            same_scan(*final(self), *old(self)),
            final(self).focus == old(self).focus,
            final(self).input_mode == old(self).input_mode,
            final(self).overlay_title == old(self).overlay_title,
            final(self).overlay_running == old(self).overlay_running,
            final(self).overlay_lines@ == old(self).overlay_lines@.push(line),
            final(self).overlay_scroll == if old(self).overlay_lines@.len() == 0 || old(
                self
            ).overlay_scroll + 1 >= old(self).overlay_lines@.len() {
                old(self).overlay_lines@.len() as int
            } else {
                old(self).overlay_scroll as int
            },
    {
        let count = self.overlay_lines.len();
        let at_bottom = count == 0 || self.overlay_scroll >= count - 1;
        self.overlay_lines.push(line);
        if at_bottom {
            self.overlay_scroll = count;
        }
    }

    /// Takes note that the output has come to its end. The overlay stays open, and
    /// its title says that it can be closed.
    pub fn overlay_finished(&mut self)
        requires
            old(self).wf(),
        ensures
            final(self).wf(),
            same_inputs(*final(self), *old(self)),
            same_display(*final(self), *old(self)),
            same_scan(*final(self), *old(self)),
            final(self).focus == old(self).focus,
            final(self).input_mode == old(self).input_mode,
            final(self).overlay_lines == old(self).overlay_lines,
            final(self).overlay_scroll == old(self).overlay_scroll,
            !final(self).overlay_running,
            final(self).overlay_title@ == if old(self).input_mode == InputMode::OutputOverlay {
                old(self).overlay_title@ + " [Done — Esc to close]"@
            } else {
                old(self).overlay_title@
            },
    {
        self.overlay_running = false;
        if matches!(self.input_mode, InputMode::OutputOverlay) {
            self.overlay_title.append(" [Done — Esc to close]");
        }
    }

    /// The row below `selected` in a table of `rows` rows, the first row below the last.
    pub open spec fn row_after(selected: Option<usize>, rows: nat) -> Option<usize> {
        if rows == 0 {
            selected
        } else {
            match selected {
                Some(i) => if i + 1 >= rows {
                    Some(0)
                } else {
                    Some((i + 1) as usize)
                },
                None => Some(0),
            }
        }
    }

    /// The row above `selected` in a table of `rows` rows, the last row above the first.
    pub open spec fn row_before(selected: Option<usize>, rows: nat) -> Option<usize> {
        if rows == 0 {
            selected
        } else {
            match selected {
                Some(i) => if i == 0 {
                    Some((rows - 1) as usize)
                } else {
                    Some((i - 1) as usize)
                },
                None => Some(0),
            }
        }
    }

    /// The row `steps` rows below `selected`, going round from the last row to the first.
    pub open spec fn rows_after(selected: Option<usize>, rows: nat, steps: nat) -> Option<usize>
        decreases steps,
    {
        if steps == 0 {
            selected
        } else {
            Self::row_after(Self::rows_after(selected, rows, (steps - 1) as nat), rows)
        }
    }

    /// The row `steps` rows above `selected`, going round from the first row to the last.
    pub open spec fn rows_before(selected: Option<usize>, rows: nat, steps: nat) -> Option<usize>
        decreases steps,
    {
        if steps == 0 {
            selected
        } else {
            Self::row_before(Self::rows_before(selected, rows, (steps - 1) as nat), rows)
        }
    }

    /// The row on which the cursor stands once the table has `rows` rows: the same
    /// row if there is one, else the last row, or none in an empty table.
    pub open spec fn row_within(selected: Option<usize>, rows: nat) -> Option<usize> {
        match selected {
            Some(i) => if i < rows {
                Some(i)
            } else if rows == 0 {
                None
            } else {
                Some((rows - 1) as usize)
            },
            None => None,
        }
    }

    /// Moves the cursor of the table one row down, from the last row to the first.
    pub fn select_next(&mut self)
        requires
            old(self).wf(),
        ensures
            final(self).wf(),
            final(self).selected == Self::row_after(
                old(self).selected,
                old(self).filtered_hosts@.len(),
            ),
            same_inputs(*final(self), *old(self)),
            same_overlay(*final(self), *old(self)),
            same_display(*final(self), *old(self)),
            final(self).session == old(self).session,
            final(self).filtered_hosts == old(self).filtered_hosts,
            final(self).filter_mode == old(self).filter_mode,
            final(self).selected_hosts == old(self).selected_hosts,
            final(self).input_mode == old(self).input_mode,
            final(self).focus == old(self).focus,
    {
        let rows = self.filtered_hosts.len();
        if rows == 0 {
            return ;
        }
        let next = match self.selected {
            Some(i) => {
                if i >= rows - 1 {
                    0
                } else {
                    i + 1
                }
            },
            None => 0,
        };
        self.selected = Some(next);
    }

    /// Moves the cursor of the table one row up, from the first row to the last.
    pub fn select_previous(&mut self)
        requires
            old(self).wf(),
        ensures
            final(self).wf(),
            final(self).selected == Self::row_before(
                old(self).selected,
                old(self).filtered_hosts@.len(),
            ),
            same_inputs(*final(self), *old(self)),
            same_overlay(*final(self), *old(self)),
            same_display(*final(self), *old(self)),
            final(self).session == old(self).session,
            final(self).filtered_hosts == old(self).filtered_hosts,
            final(self).filter_mode == old(self).filter_mode,
            final(self).selected_hosts == old(self).selected_hosts,
            final(self).input_mode == old(self).input_mode,
            final(self).focus == old(self).focus,
    {
        let rows = self.filtered_hosts.len();
        if rows == 0 {
            return ;
        }
        let prev = match self.selected {
            Some(i) => {
                if i == 0 {
                    rows - 1
                } else {
                    i - 1
                }
            },
            None => 0,
        };
        self.selected = Some(prev);
    }

    /// The host on which the cursor of the table stands.
    pub open spec fn selected_row(&self) -> Option<HostInfo> {
        match self.selected {
            Some(i) => if i < self.filtered_hosts@.len() && self.filtered_hosts@[i as int]
                < self.session@.hosts.len() {
                Some(self.session@.hosts[self.filtered_hosts@[i as int] as int])
            } else {
                None
            },
            None => None,
        }
    }

    /// The host on which the cursor of the table stands.
    pub fn selected_host(&self) -> (r: Option<&HostInfo>)
        ensures
            r matches Some(h) ==> self.selected_row() == Some(*h),
            r is None ==> self.selected_row() is None,
    {
        let hosts = self.session.hosts();
        match self.selected {
            Some(i) => {
                if i < self.filtered_hosts.len() && self.filtered_hosts[i] < hosts.len() {
                    Some(&hosts[self.filtered_hosts[i]])
                } else {
                    None
                }
            },
            None => None,
        }
    }

    /// The hosts that the table shows, in its order.
    pub fn get_filtered_hosts(&self) -> (r: Vec<&HostInfo>)
        requires
            self.wf(),
        ensures
            r@.len() == self.filtered_hosts@.len(),
            forall|k: int|
                0 <= k < r@.len() ==> *(#[trigger] r@[k]) == self.session@.hosts[self.filtered_hosts@[k] as int],
    {
        let hosts = self.session.hosts();
        let mut out: Vec<&HostInfo> = Vec::new();
        let n = self.filtered_hosts.len();
        let total = hosts.len();
        proof {
            assert(self.session@.hosts.len() == total);
            lemma_visible(self.session@.hosts, self.filter_mode);
        }
        let mut k: usize = 0;
        while k < n
            invariant
                k <= n,
                n == self.filtered_hosts@.len(),
                hosts@ == self.session@.hosts,
                forall|t: int|
                    0 <= t < n ==> (#[trigger] self.filtered_hosts@[t]) < hosts@.len(),
                out@.len() == k,
                forall|t: int|
                    0 <= t < k ==> *(#[trigger] out@[t]) == hosts@[self.filtered_hosts@[t] as int],
            decreases n - k,
        {
            out.push(&hosts[self.filtered_hosts[k]]);
            k += 1;
        }
        out
    }

    /// How far the scan has come, in hundredths; 0 where there is nothing to scan.
    pub fn progress_percent(&self) -> (r: u8)
        requires
            self.wf(),
        ensures
            r == if self.session@.total() == 0 {
                0
            } else {
                self.session@.completed * 100 / (self.session@.total() as int)
            },
            r <= 100,
    {
        let total = self.session.total();
        let completed = self.session.completed();
        if total == 0 {
            0
        } else {
            let r = (completed as u128 * 100 / (total as u128));
            assert(r <= 100) by (nonlinear_arith)
                requires
                    r == completed as int * 100 / (total as int),
                    0 <= completed <= total,
                    total > 0,
            ;
            r as u8
        }
    }

    fn spinner(&self) -> (r: &'static str)
        ensures
            r@ == spinner_frame(self.animation_tick),
    {
        let i = self.animation_tick % 10;
        if i == 0 {
            "⠋"
        } else if i == 1 {
            "⠙"
        } else if i == 2 {
            "⠹"
        } else if i == 3 {
            "⠸"
        } else if i == 4 {
            "⠼"
        } else if i == 5 {
            "⠴"
        } else if i == 6 {
            "⠦"
        } else if i == 7 {
            "⠧"
        } else if i == 8 {
            "⠇"
        } else {
            "⠏"
        }
    }

    /// The short text on the state of the scan for the status line: `Loading` with
    /// the activity indicator while the adapters are looked for; else `Ready`, the
    /// indicator with the count of probed addresses, `Paused` or `Done`.
    pub fn status_text(&self) -> (r: String)
        ensures
            r@ == status_line(self.adapters_loading, self.animation_tick, self.session@),
    {
        if self.adapters_loading {
            let mut out = String::from_str(self.spinner());
            out.append(" Loading");
            return out;
        }
        match self.session.state() {
            ScanState::Idle => String::from_str("Ready"),
            ScanState::Scanning => {
                let mut out = String::from_str(self.spinner());
                out.append(" ");
                push_decimal(&mut out, self.session.completed() as u64);
                out.append("/");
                push_decimal(&mut out, self.session.total() as u64);
                out
            },
            ScanState::Paused => String::from_str("Paused"),
            ScanState::Completed => String::from_str("Done"),
        }
    }

    /// How many hosts are alive.
    pub fn online_count(&self) -> (r: usize)
        ensures
            r == alive_count(self.session@.hosts),
    {
        let hosts = self.session.hosts();
        let n = hosts.len();
        let mut count: usize = 0;
        let mut i: usize = 0;
        assert(hosts@.take(0) =~= Seq::<HostInfo>::empty());
        while i < n
            invariant
                i <= n,
                n == hosts@.len(),
                count == alive_count(hosts@.take(i as int)),
                count <= i,
            decreases n - i,
        {
            assert(hosts@.take(i + 1).drop_last() =~= hosts@.take(i as int));
            if hosts[i].is_alive {
                count += 1;
            }
            i += 1;
        }
        assert(hosts@.take(n as int) =~= hosts@);
        count
    }

    /// The summary of a scan that is over: how many hosts, and how many of them alive.
    pub fn completion_summary(&self) -> (r: String)
        ensures
            r@ == summary_line(self.session@.hosts),
    {
        let mut out = String::new();
        push_decimal(&mut out, self.session.hosts().len() as u64);
        out.append(" hosts (");
        push_decimal(&mut out, self.online_count() as u64);
        out.append(" online)");
        assert(out@ =~= summary_line(self.session@.hosts));
        out
    }
}

} // verus!
