//! The result cache: the hosts of the last scan of each range, kept under the
//! range as the user wrote it.

use crate::addr::{dotted_text, dotted_value, lemma_dotted_roundtrip, parse_dotted, Ipv4Addr};
use crate::host::{host_views, HostInfo, HostView};
use crate::mac::{clone_option_string, option_text, MacInfo, MacView};
use crate::ping::{HostStatus, PingMethod};
use crate::text::{chars_of, decimal_text, push_decimal};
use vstd::prelude::*;

verus! {

/// A host as the cache file holds it.
#[derive(Debug, Clone)]
pub struct CachedHost {
    pub ip: String,
    pub is_alive: bool,
    pub rtt_ms: Option<u64>,
    pub hostname: Option<String>,
    pub mac_address: Option<String>,
    pub mac_vendor: Option<String>,
    pub open_ports: Vec<u16>,
    pub method: Option<String>,
    pub status: Option<String>,
}

/// The hosts of one scan, and when they were stored.
#[derive(Debug, Clone)]
pub struct CacheEntry {
    /// Seconds since 1970.
    pub scanned_at: u64,
    pub hosts: Vec<CachedHost>,
}

/// The entry of one range.
#[derive(Debug, Clone)]
pub struct CacheSlot {
    /// The range as the user wrote it.
    pub key: String,
    pub entry: CacheEntry,
}

/// A [`CachedHost`] as contracts see it.
pub struct CachedHostView {
    pub ip: Seq<char>,
    pub is_alive: bool,
    pub rtt_ms: Option<u64>,
    pub hostname: Option<Seq<char>>,
    pub mac_address: Option<Seq<char>>,
    pub mac_vendor: Option<Seq<char>>,
    pub open_ports: Seq<u16>,
    pub method: Option<Seq<char>>,
    pub status: Option<Seq<char>>,
}

/// A [`CacheEntry`] as contracts see it.
pub struct CacheEntryView {
    pub scanned_at: u64,
    pub hosts: Seq<CachedHostView>,
}

/// A [`CacheSlot`] as contracts see it.
pub struct CacheSlotView {
    pub key: Seq<char>,
    pub entry: CacheEntryView,
}

impl View for CachedHost {
    type V = CachedHostView;

    open spec fn view(&self) -> CachedHostView {
        CachedHostView {
            ip: self.ip@,
            is_alive: self.is_alive,
            rtt_ms: self.rtt_ms,
            hostname: option_text(self.hostname),
            mac_address: option_text(self.mac_address),
            mac_vendor: option_text(self.mac_vendor),
            open_ports: self.open_ports@,
            method: option_text(self.method),
            status: option_text(self.status),
        }
    }
}

/// The views of a list of cached hosts.
pub open spec fn cached_views(hosts: Seq<CachedHost>) -> Seq<CachedHostView> {
    Seq::new(hosts.len(), |i: int| hosts[i]@)
}

impl View for CacheEntry {
    type V = CacheEntryView;

    open spec fn view(&self) -> CacheEntryView {
        CacheEntryView { scanned_at: self.scanned_at, hosts: cached_views(self.hosts@) }
    }
}

impl View for CacheSlot {
    type V = CacheSlotView;

    open spec fn view(&self) -> CacheSlotView {
        CacheSlotView { key: self.key@, entry: self.entry@ }
    }
}

/// The word under which a status is stored.
pub open spec fn status_word(status: HostStatus) -> Seq<char> {
    match status {
        HostStatus::Online => "Online"@,
        HostStatus::OnlineNoIcmp => "OnlineNoIcmp"@,
        HostStatus::Offline => "Offline"@,
    }
}

/// The method that a stored word stands for; entries without the word, or with
/// another, count as probed by connection attempts.
pub open spec fn method_of(word: Option<Seq<char>>) -> PingMethod {
    if word == Some("ICMP"@) {
        PingMethod::Icmp
    } else {
        PingMethod::Tcp
    }
}

/// The status that a stored word stands for; entries without the word, or with
/// another, are online if they were alive and offline if not.
pub open spec fn status_of(word: Option<Seq<char>>, is_alive: bool) -> HostStatus {
    if word == Some("Online"@) {
        HostStatus::Online
    } else if word == Some("OnlineNoIcmp"@) {
        HostStatus::OnlineNoIcmp
    } else if word == Some("Offline"@) {
        HostStatus::Offline
    } else if is_alive {
        HostStatus::Online
    } else {
        HostStatus::Offline
    }
}

/// What is stored of a host.
pub open spec fn cached_of(h: HostView) -> CachedHostView {
    CachedHostView {
        ip: dotted_text(h.ip@),
        is_alive: h.is_alive,
        rtt_ms: h.rtt_ms,
        hostname: h.hostname,
        mac_address: match h.mac {
            Some(m) => Some(m.address),
            None => None,
        },
        mac_vendor: match h.mac {
            Some(m) => m.vendor,
            None => None,
        },
        open_ports: h.open_ports,
        method: Some(h.method.name()),
        status: Some(status_word(h.status)),
    }
}

/// What is stored of a list of hosts.
pub open spec fn cached_all(hosts: Seq<HostView>) -> Seq<CachedHostView> {
    Seq::new(hosts.len(), |i: int| cached_of(hosts[i]))
}

/// The host that a stored host stands for, if its address can be read. Its ports
/// count as scanned if any is listed as open.
pub open spec fn host_of(c: CachedHostView, scanned_at: u64) -> Option<HostView> {
    match dotted_value(c.ip) {
        None => None,
        Some(bits) => Some(
            HostView {
                ip: Ipv4Addr { bits },
                is_alive: c.is_alive,
                rtt_ms: c.rtt_ms,
                hostname: c.hostname,
                mac: match c.mac_address {
                    Some(address) => Some(MacView { address, vendor: c.mac_vendor }),
                    None => None,
                },
                open_ports: c.open_ports,
                ports_scanned: c.open_ports.len() > 0,
                cached_at: Some(scanned_at),
                method: method_of(c.method),
                status: status_of(c.status, c.is_alive),
            },
        ),
    }
}

/// The hosts that stored hosts stand for, in their order; those whose address
/// cannot be read are left out.
pub open spec fn hosts_of(cached: Seq<CachedHostView>, scanned_at: u64) -> Seq<HostView>
    decreases cached.len(),
{
    if cached.len() == 0 {
        Seq::empty()
    } else {
        let rest = hosts_of(cached.drop_last(), scanned_at);
        match host_of(cached.last(), scanned_at) {
            Some(h) => rest.push(h),
            None => rest,
        }
    }
}

/// Where the entry of `key` stands among `slots`, or their number if it has none.
pub open spec fn slot_index(slots: Seq<CacheSlotView>, key: Seq<char>) -> int
    decreases slots.len(),
{
    if slots.len() == 0 || slots[0].key == key {
        0
    } else {
        1 + slot_index(slots.drop_first(), key)
    }
}

/// The entry of `key`, if there is one.
pub open spec fn find_entry(slots: Seq<CacheSlotView>, key: Seq<char>) -> Option<CacheEntryView> {
    let i = slot_index(slots, key);
    if 0 <= i < slots.len() {
        Some(slots[i].entry)
    } else {
        None
    }
}

/// `slots` with `entry` as the entry of `key`: in place of the one it had, or
/// behind the others.
pub open spec fn put_entry(slots: Seq<CacheSlotView>, key: Seq<char>, entry: CacheEntryView) -> Seq<
    CacheSlotView,
> {
    let i = slot_index(slots, key);
    if 0 <= i < slots.len() {
        slots.update(i, CacheSlotView { key, entry })
    } else {
        slots.push(CacheSlotView { key, entry })
    }
}

/// The hosts that the cache holds for `key`: none where it has no entry for it.
pub open spec fn loaded(slots: Seq<CacheSlotView>, key: Seq<char>) -> Seq<HostView> {
    match find_entry(slots, key) {
        Some(entry) => hosts_of(entry.hosts, entry.scanned_at),
        None => Seq::empty(),
    }
}

/// The cache after `hosts` were stored under `key` at the time `now`: unchanged
/// where there is no host to store.
pub open spec fn saved(slots: Seq<CacheSlotView>, key: Seq<char>, hosts: Seq<HostView>, now: u64) -> Seq<
    CacheSlotView,
> {
    if hosts.len() == 0 {
        slots
    } else {
        put_entry(slots, key, CacheEntryView { scanned_at: now, hosts: cached_all(hosts) })
    }
}

/// Whether no two slots have the same key.
pub open spec fn distinct_keys(slots: Seq<CacheSlotView>) -> bool {
    forall|i: int, j: int| 0 <= i < j < slots.len() ==> slots[i].key != slots[j].key
}

/// What marks the slot of a key.
pub proof fn lemma_slot_index(slots: Seq<CacheSlotView>, key: Seq<char>)
    ensures
        0 <= slot_index(slots, key) <= slots.len(),
        slot_index(slots, key) < slots.len() ==> slots[slot_index(slots, key)].key == key,
        forall|j: int| 0 <= j < slot_index(slots, key) ==> (#[trigger] slots[j]).key != key,
    decreases slots.len(),
{
    if slots.len() == 0 || slots[0].key == key {
    } else {
        let rest = slots.drop_first();
        lemma_slot_index(rest, key);
        let k = slot_index(rest, key);
        assert forall|j: int| 0 <= j < k + 1 implies (#[trigger] slots[j]).key != key by {
            if j > 0 {
                assert(slots[j] == rest[j - 1]);
            }
        }
        if k < rest.len() {
            assert(slots[k + 1] == rest[k]);
        }
    }
}

/// The first slot with a key is the slot of that key.
pub proof fn lemma_slot_index_is(slots: Seq<CacheSlotView>, key: Seq<char>, k: int)
    requires
        0 <= k <= slots.len(),
        k < slots.len() ==> slots[k].key == key,
        forall|j: int| 0 <= j < k ==> (#[trigger] slots[j]).key != key,
    ensures
        slot_index(slots, key) == k,
{
    lemma_slot_index(slots, key);
    let f = slot_index(slots, key);
    if f < k {
        assert(slots[f].key == key);
    } else if k < f {
        assert(slots[k].key == key);
    }
}

/// What was put under a key is found under it, whatever stood there before;
/// what stands under any other key stays as it was; and keys stay distinct.
pub proof fn lemma_put_entry(
    slots: Seq<CacheSlotView>,
    key: Seq<char>,
    entry: CacheEntryView,
    other: Seq<char>,
)
    ensures
        find_entry(put_entry(slots, key, entry), key) == Some(entry),
        other != key ==> find_entry(put_entry(slots, key, entry), other) == find_entry(
            slots,
            other,
        ),
        distinct_keys(slots) ==> distinct_keys(put_entry(slots, key, entry)),
{
    let after = put_entry(slots, key, entry);
    let i = slot_index(slots, key);
    lemma_slot_index(slots, key);
    assert forall|j: int| 0 <= j < i implies (#[trigger] after[j]).key != key by {
        assert(after[j] == slots[j]);
    }
    lemma_slot_index_is(after, key, i);
    if other != key {
        let o = slot_index(slots, other);
        lemma_slot_index(slots, other);
        if o < slots.len() {
            assert(after[o] == slots[o]);
            assert forall|j: int| 0 <= j < o implies (#[trigger] after[j]).key != other by {
                if j != i {
                    assert(after[j] == slots[j]);
                }
            }
            lemma_slot_index_is(after, other, o);
        } else {
            assert forall|j: int| 0 <= j < after.len() implies (#[trigger] after[j]).key
                != other by {
                if j != i {
                    assert(after[j] == slots[j]);
                }
            }
            lemma_slot_index_is(after, other, after.len() as int);
        }
    }
    if distinct_keys(slots) {
        assert forall|a: int, b: int| 0 <= a < b < after.len() implies after[a].key
            != after[b].key by {
            if a != i && a < slots.len() {
                assert(after[a] == slots[a]);
            }
            if b != i && b < slots.len() {
                assert(after[b] == slots[b]);
            }
        }
    }
}

/// A host that was stored and is read again is the host that was stored, but for
/// when it was stored and for whether its ports count as scanned.
pub proof fn lemma_host_round_trip(h: HostView, now: u64)
    ensures
        host_of(cached_of(h), now) == Some(
            HostView { ports_scanned: h.open_ports.len() > 0, cached_at: Some(now), ..h },
        ),
{
    lemma_dotted_roundtrip(h.ip@);
    reveal_strlit("ICMP");
    reveal_strlit("TCP");
    reveal_strlit("Online");
    reveal_strlit("OnlineNoIcmp");
    reveal_strlit("Offline");
    let c = cached_of(h);
    assert("ICMP"@.len() == 4 && "TCP"@.len() == 3);
    assert("Online"@.len() == 6 && "OnlineNoIcmp"@.len() == 12 && "Offline"@.len() == 7);
    assert(method_of(c.method) == h.method);
    assert(status_of(c.status, c.is_alive) == h.status);
    assert(Ipv4Addr { bits: h.ip@ } == h.ip);
}

/// Hosts that were stored and are read again are the hosts that were stored, as
/// many and in the same order.
pub proof fn lemma_hosts_round_trip(hosts: Seq<HostView>, now: u64)
    ensures
        hosts_of(cached_all(hosts), now).len() == hosts.len(),
        forall|i: int|
            0 <= i < hosts.len() ==> #[trigger] hosts_of(cached_all(hosts), now)[i] == (HostView {
                ports_scanned: hosts[i].open_ports.len() > 0,
                cached_at: Some(now),
                ..hosts[i]
            }),
    decreases hosts.len(),
{
    if hosts.len() > 0 {
        let front = hosts.drop_last();
        lemma_hosts_round_trip(front, now);
        lemma_host_round_trip(hosts.last(), now);
        assert(cached_all(hosts).drop_last() =~= cached_all(front));
        assert(cached_all(hosts).last() == cached_of(hosts.last()));
        let got = hosts_of(cached_all(hosts), now);
        assert forall|i: int| 0 <= i < hosts.len() implies #[trigger] got[i] == (HostView {
            ports_scanned: hosts[i].open_ports.len() > 0,
            cached_at: Some(now),
            ..hosts[i]
        }) by {
            if i < front.len() {
                assert(got[i] == hosts_of(cached_all(front), now)[i]);
                assert(front[i] == hosts[i]);
            }
        }
    }
}

/// Hosts that are stored under a range and then loaded under it come back as
/// they were, each with its address, whether it was alive and its open ports,
/// and with the time at which they were stored; what was stored under any
/// other range before is not touched.
pub proof fn lemma_cache_round_trip(
    slots: Seq<CacheSlotView>,
    key: Seq<char>,
    hosts: Seq<HostView>,
    now: u64,
    other: Seq<char>,
)
    requires
        hosts.len() > 0,
    ensures
        loaded(saved(slots, key, hosts, now), key).len() == hosts.len(),
        forall|i: int|
            0 <= i < hosts.len() ==> {
                let back = #[trigger] loaded(saved(slots, key, hosts, now), key)[i];
                &&& back.ip == hosts[i].ip
                &&& back.is_alive == hosts[i].is_alive
                &&& back.open_ports == hosts[i].open_ports
                &&& back.cached_at == Some(now)
                &&& back == (HostView {
                    ports_scanned: hosts[i].open_ports.len() > 0,
                    cached_at: Some(now),
                    ..hosts[i]
                })
            },
        other != key ==> loaded(saved(slots, key, hosts, now), other) == loaded(slots, other),
{
    let entry = CacheEntryView { scanned_at: now, hosts: cached_all(hosts) };
    lemma_put_entry(slots, key, entry, other);
    lemma_hosts_round_trip(hosts, now);
}

/// Whether two texts are the same.
pub fn text_equals(a: &str, b: &str) -> (r: bool)
    ensures
        r == (a@ == b@),
{
    let x = String::from_str(a);
    let y = String::from_str(b);
    x == y
}

/// Whether an optional text is there and is `word`.
fn is_word(text: &Option<String>, word: &str) -> (r: bool)
    ensures
        r == (option_text(*text) == Some(word@)),
{
    match text {
        Some(t) => text_equals(t.as_str(), word),
        None => false,
    }
}

fn copy_ports(ports: &Vec<u16>) -> (r: Vec<u16>)
    ensures
        r@ == ports@,
{
    let mut out: Vec<u16> = Vec::new();
    let n = ports.len();
    let mut i: usize = 0;
    while i < n
        invariant
            i <= n,
            n == ports@.len(),
            out@ == ports@.take(i as int),
        decreases n - i,
    {
        out.push(ports[i]);
        assert(out@ =~= ports@.take(i + 1));
        i += 1;
    }
    assert(ports@.take(n as int) =~= ports@);
    out
}

fn status_text(status: HostStatus) -> (r: String)
    ensures
        r@ == status_word(status),
{
    match status {
        HostStatus::Online => String::from_str("Online"),
        HostStatus::OnlineNoIcmp => String::from_str("OnlineNoIcmp"),
        HostStatus::Offline => String::from_str("Offline"),
    }
}

fn read_method(word: &Option<String>) -> (r: PingMethod)
    ensures
        r == method_of(option_text(*word)),
{
    if is_word(word, "ICMP") {
        PingMethod::Icmp
    } else {
        PingMethod::Tcp
    }
}

fn read_status(word: &Option<String>, is_alive: bool) -> (r: HostStatus)
    ensures
        r == status_of(option_text(*word), is_alive),
{
    if is_word(word, "Online") {
        HostStatus::Online
    } else if is_word(word, "OnlineNoIcmp") {
        HostStatus::OnlineNoIcmp
    } else if is_word(word, "Offline") {
        HostStatus::Offline
    } else if is_alive {
        HostStatus::Online
    } else {
        HostStatus::Offline
    }
}

/// What is stored of `host`.
pub fn cached_host(host: &HostInfo) -> (r: CachedHost)
    ensures
        r@ == cached_of(host@),
{
    let (mac_address, mac_vendor) = match &host.mac {
        Some(m) => (Some(m.address.clone()), clone_option_string(&m.vendor)),
        None => (None, None),
    };
    CachedHost {
        ip: host.ip.to_string(),
        is_alive: host.is_alive,
        rtt_ms: host.rtt_ms,
        hostname: clone_option_string(&host.hostname),
        mac_address,
        mac_vendor,
        open_ports: copy_ports(&host.open_ports),
        method: Some(host.method.to_string()),
        status: Some(status_text(host.status)),
    }
}

/// The host that `cached` stands for, stored at `scanned_at`; `None` where its
/// address cannot be read.
pub fn restored_host(cached: &CachedHost, scanned_at: u64) -> (r: Option<HostInfo>)
    ensures
        r matches Some(h) ==> host_of(cached@, scanned_at) == Some(h@),
        r is None ==> host_of(cached@, scanned_at) is None,
{
    let chars = chars_of(cached.ip.as_str());
    let ip = match parse_dotted(chars.as_slice()) {
        Some(ip) => ip,
        None => {
            return None;
        },
    };
    let mac = match &cached.mac_address {
        Some(address) => Some(
            MacInfo { address: address.clone(), vendor: clone_option_string(&cached.mac_vendor) },
        ),
        None => None,
    };
    let open_ports = copy_ports(&cached.open_ports);
    let ports_scanned = open_ports.len() > 0;
    Some(
        HostInfo {
            ip,
            is_alive: cached.is_alive,
            rtt_ms: cached.rtt_ms,
            hostname: clone_option_string(&cached.hostname),
            mac,
            open_ports,
            ports_scanned,
            cached_at: Some(scanned_at),
            method: read_method(&cached.method),
            status: read_status(&cached.status, cached.is_alive),
        },
    )
}

/// What is stored of `hosts`, in their order.
pub fn cached_hosts(hosts: &[HostInfo]) -> (r: Vec<CachedHost>)
    ensures
        cached_views(r@) == cached_all(host_views(hosts@)),
{
    let mut out: Vec<CachedHost> = Vec::new();
    let n = hosts.len();
    let mut i: usize = 0;
    while i < n
        invariant
            i <= n,
            n == hosts@.len(),
            out@.len() == i,
            forall|k: int| 0 <= k < i ==> (#[trigger] out@[k])@ == cached_of(hosts@[k]@),
        decreases n - i,
    {
        out.push(cached_host(&hosts[i]));
        i += 1;
    }
    assert(cached_views(out@) =~= cached_all(host_views(hosts@)));
    out
}

/// The hosts that the entry stands for, in their order.
pub fn restored_hosts(entry: &CacheEntry) -> (r: Vec<HostInfo>)
    ensures
        host_views(r@) == hosts_of(entry@.hosts, entry@.scanned_at),
{
    let mut out: Vec<HostInfo> = Vec::new();
    let n = entry.hosts.len();
    let ghost all = entry@.hosts;
    let mut i: usize = 0;
    assert(host_views(out@) =~= hosts_of(all.take(0), entry.scanned_at));
    while i < n
        invariant
            i <= n,
            n == entry.hosts@.len(),
            all == entry@.hosts,
            host_views(out@) == hosts_of(all.take(i as int), entry.scanned_at),
        decreases n - i,
    {
        let ghost before = out@;
        proof {
            assert(all.take(i + 1).drop_last() =~= all.take(i as int));
            assert(all.take(i + 1).last() == entry.hosts@[i as int]@);
        }
        match restored_host(&entry.hosts[i], entry.scanned_at) {
            Some(h) => {
                out.push(h);
                assert(host_views(out@) =~= host_views(before).push(h@));
            },
            None => {},
        }
        i += 1;
    }
    assert(all.take(n as int) =~= all);
    out
}

/// The cache: one entry for each range that was scanned.
#[derive(Debug, Clone)]
pub struct CacheFile {
    slots: Vec<CacheSlot>,
}

/// The views of a list of slots.
pub open spec fn slot_views(slots: Seq<CacheSlot>) -> Seq<CacheSlotView> {
    Seq::new(slots.len(), |i: int| slots[i]@)
}

impl View for CacheFile {
    type V = Seq<CacheSlotView>;

    closed spec fn view(&self) -> Seq<CacheSlotView> {
        slot_views(self.slots@)
    }
}

impl CacheFile {
    /// A cache without entries.
    pub fn new() -> (r: CacheFile)
        ensures
            r@ == Seq::<CacheSlotView>::empty(),
    {
        let r = CacheFile { slots: Vec::new() };
        assert(r@ =~= Seq::<CacheSlotView>::empty());
        r
    }

    /// Where the entry of `key` stands, or the number of entries if it has none.
    fn position(&self, key: &str) -> (r: usize)
        ensures
            r == slot_index(self@, key@),
            r <= self.slots@.len(),
            self@.len() == self.slots@.len(),
    {
        let n = self.slots.len();
        let mut i: usize = 0;
        while i < n && !text_equals(self.slots[i].key.as_str(), key)
            invariant
                i <= n,
                n == self.slots@.len(),
                forall|j: int| 0 <= j < i ==> (#[trigger] self@[j]).key != key@,
            decreases n - i,
        {
            i += 1;
        }
        proof {
            lemma_slot_index_is(self@, key@, i as int);
        }
        i
    }

    /// The entry of `key`, if there is one.
    pub fn get(&self, key: &str) -> (r: Option<&CacheEntry>)
        ensures
            r matches Some(e) ==> find_entry(self@, key@) == Some(e@),
            r is None ==> find_entry(self@, key@) is None,
    {
        let i = self.position(key);
        if i < self.slots.len() {
            Some(&self.slots[i].entry)
        } else {
            None
        }
    }

    /// Makes `entry` the entry of `key`, in place of the one it had or as a new one.
    /// Other entries stay as they are, and no key comes to stand twice.
    pub fn insert(&mut self, key: &str, entry: CacheEntry)
        ensures
            final(self)@ == put_entry(old(self)@, key@, entry@),
            distinct_keys(old(self)@) ==> distinct_keys(final(self)@),
    {
        let i = self.position(key);
        let slot = CacheSlot { key: String::from_str(key), entry };
        proof {
            lemma_put_entry(self@, key@, entry@, key@);
        }
        if i < self.slots.len() {
            self.slots.set(i, slot);
            assert(self@ =~= put_entry(old(self)@, key@, entry@));
        } else {
            self.slots.push(slot);
            assert(self@ =~= put_entry(old(self)@, key@, entry@));
        }
    }

    /// The entries, in the order in which their ranges were first stored.
    pub fn slots(&self) -> (r: &Vec<CacheSlot>)
        ensures
            slot_views(r@) == self@,
    {
        &self.slots
    }

    /// How many ranges have an entry.
    pub fn len(&self) -> (r: usize)
        ensures
            r == self@.len(),
    {
        self.slots.len()
    }
}

/// The hosts that the cache holds for `range`, looked up letter for letter:
/// none where it has no entry for it.
pub fn load_cache(file: &CacheFile, range: &str) -> (r: Vec<HostInfo>)
    ensures
        host_views(r@) == loaded(file@, range@),
{
    match file.get(range) {
        Some(entry) => restored_hosts(entry),
        None => {
            let r: Vec<HostInfo> = Vec::new();
            assert(host_views(r@) =~= Seq::<HostView>::empty());
            r
        },
    }
}

/// Stores `hosts` under `range` as scanned at the time `now`, in place of what
/// stood there. Without hosts nothing is stored. Entries of other ranges stay.
pub fn store_hosts(file: &mut CacheFile, range: &str, hosts: &[HostInfo], now: u64)
    ensures
        final(file)@ == saved(old(file)@, range@, host_views(hosts@), now),
        distinct_keys(old(file)@) ==> distinct_keys(final(file)@),
{
    if hosts.len() == 0 {
        return ;
    }
    let entry = CacheEntry { scanned_at: now, hosts: cached_hosts(hosts) };
    file.insert(range, entry);
}

/// Reads the clock through `SystemTime::now` and returns the seconds since 1970
/// (0 for a clock that stands before that). Nothing is assumed of the result.
#[verifier::external_body]
fn now_secs() -> u64 {
    std::time::SystemTime::now().duration_since(std::time::UNIX_EPOCH).unwrap_or_default().as_secs()
}

/// Stores `hosts` under `range` as scanned now. Without hosts nothing is stored.
pub fn save_cache(file: &mut CacheFile, range: &str, hosts: &[HostInfo])
    ensures
        exists|now: u64| final(file)@ == saved(old(file)@, range@, host_views(hosts@), now),
        distinct_keys(old(file)@) ==> distinct_keys(final(file)@),
{
    let now = now_secs();
    store_hosts(file, range, hosts, now);
}

/// How long ago `scanned_at` was at the time `now`, in words: `just now` under a
/// minute, then whole minutes, hours or days. A time that is yet to come counts
/// as now.
pub open spec fn age_text(scanned_at: u64, now: u64) -> Seq<char> {
    let age: int = if now >= scanned_at {
        now - scanned_at
    } else {
        0
    };
    if age < 60 {
        "just now"@
    } else if age < 3600 {
        decimal_text((age / 60) as nat) + "m ago"@
    } else if age < 86400 {
        decimal_text((age / 3600) as nat) + "h ago"@
    } else {
        decimal_text((age / 86400) as nat) + "d ago"@
    }
}

/// How long ago `scanned_at` was at the time `now`, in words.
pub fn format_age(scanned_at: u64, now: u64) -> (r: String)
    ensures
        r@ == age_text(scanned_at, now),
{
    let age: u64 = if now >= scanned_at {
        now - scanned_at
    } else {
        0
    };
    if age < 60 {
        return String::from_str("just now");
    }
    let mut out = String::new();
    if age < 3600 {
        push_decimal(&mut out, age / 60);
        out.append("m ago");
    } else if age < 86400 {
        push_decimal(&mut out, age / 3600);
        out.append("h ago");
    } else {
        push_decimal(&mut out, age / 86400);
        out.append("d ago");
    }
    assert(out@ =~= age_text(scanned_at, now));
    out
}

/// How long ago `scanned_at` was, in words.
pub fn format_cache_age(scanned_at: u64) -> (r: String)
    ensures
        exists|now: u64| r@ == age_text(scanned_at, now),
{
    let now = now_secs();
    format_age(scanned_at, now)
}

/// A step of writing the cache file. The new content is written beside the
/// target and then renamed over it, so that the target holds its old content
/// until the rename puts the new content in its place.
#[derive(Debug, Clone, Copy, PartialEq, Eq, Structural)]
pub enum SaveStep {
    /// Write the new content to a temporary file beside the target.
    WriteTemp,
    /// Rename the temporary file over the target.
    Rename,
    /// Copy the temporary file over the target.
    CopyTemp,
    /// Remove the temporary file.
    RemoveTemp,
    /// Nothing is left to do.
    Done,
}

impl SaveStep {
    /// Whether the step changes what the target holds.
    pub open spec fn touches_target(self) -> bool {
        self == SaveStep::Rename || self == SaveStep::CopyTemp
    }

    /// How many steps can follow this one at most.
    pub open spec fn steps_left(self) -> nat {
        match self {
            SaveStep::WriteTemp => 4,
            SaveStep::Rename => 3,
            SaveStep::CopyTemp => 2,
            SaveStep::RemoveTemp => 1,
            SaveStep::Done => 0,
        }
    }
}

/// The step that follows `step`, given whether `step` succeeded. Writing the
/// temporary file comes first; if it fails, nothing else is tried and the target
/// is left alone. Then the temporary file is renamed over the target. Only a
/// rename that fails is made up for by a copy, after which the temporary file
/// is removed. Failures of the copy and of the removal are passed over.
pub open spec fn step_after(step: SaveStep, succeeded: bool) -> SaveStep {
    match step {
        SaveStep::WriteTemp => if succeeded {
            SaveStep::Rename
        } else {
            SaveStep::Done
        },
        SaveStep::Rename => if succeeded {
            SaveStep::Done
        } else {
            SaveStep::CopyTemp
        },
        SaveStep::CopyTemp => SaveStep::RemoveTemp,
        SaveStep::RemoveTemp => SaveStep::Done,
        SaveStep::Done => SaveStep::Done,
    }
}

/// The step that follows `step`, given whether `step` succeeded.
pub fn next_save_step(step: SaveStep, succeeded: bool) -> (r: SaveStep)
    ensures
        r == step_after(step, succeeded),
{
    match step {
        SaveStep::WriteTemp => if succeeded {
            SaveStep::Rename
        } else {
            SaveStep::Done
        },
        SaveStep::Rename => if succeeded {
            SaveStep::Done
        } else {
            SaveStep::CopyTemp
        },
        SaveStep::CopyTemp => SaveStep::RemoveTemp,
        SaveStep::RemoveTemp => SaveStep::Done,
        SaveStep::Done => SaveStep::Done,
    }
}

/// The step that is due after the steps from the first on had the outcomes `outcomes`.
pub open spec fn step_due(outcomes: Seq<bool>) -> SaveStep
    decreases outcomes.len(),
{
    if outcomes.len() == 0 {
        SaveStep::WriteTemp
    } else {
        step_after(step_due(outcomes.drop_last()), outcomes.last())
    }
}

/// The order of a save, whatever its steps come to: the target is left alone
/// until the temporary file is written in full; the first step that changes it
/// is the rename, which puts the new content in the place of the old; the
/// target is copied over only after a rename that failed; and no more than
/// four steps are taken.
pub proof fn lemma_save_order(outcomes: Seq<bool>)
    ensures
        step_due(outcomes).steps_left() + outcomes.len() <= 4 || step_due(outcomes)
            == SaveStep::Done,
        outcomes.len() >= 4 ==> step_due(outcomes) == SaveStep::Done,
        step_due(outcomes) == SaveStep::Rename <==> outcomes == seq![true],
        step_due(outcomes) == SaveStep::CopyTemp <==> outcomes == seq![true, false],
        step_due(outcomes).touches_target() ==> outcomes.len() >= 1 && outcomes[0],
        outcomes.len() >= 1 && !outcomes[0] ==> step_due(outcomes) == SaveStep::Done,
    decreases outcomes.len(),
{
    if outcomes.len() > 0 {
        let front = outcomes.drop_last();
        lemma_save_order(front);
        if front.len() > 0 {
            assert(front[0] == outcomes[0]);
        }
        if front == seq![true] {
            assert(outcomes =~= seq![true, outcomes.last()]);
        }
        if step_due(outcomes) == SaveStep::Rename {
            assert(front.len() == 0);
            assert(outcomes =~= seq![true]);
        }
        if outcomes == seq![true] {
            assert(front =~= Seq::<bool>::empty());
        }
        if outcomes == seq![true, false] {
            assert(front =~= seq![true]);
        }
    }
}

/// A step never leads back: each step leaves fewer steps to follow, until
/// nothing is left to do.
pub proof fn lemma_save_ends(step: SaveStep, succeeded: bool)
    ensures
        step != SaveStep::Done ==> step_after(step, succeeded).steps_left() < step.steps_left(),
        step_after(SaveStep::Done, succeeded) == SaveStep::Done,
        step_after(step, succeeded).touches_target() ==> (step == SaveStep::WriteTemp
            && succeeded) || (step == SaveStep::Rename && !succeeded),
{
}

} // verus!
