//! Bounded histories and the live event screen: the newest entries are
//! kept up to a capacity, the oldest leave first.

use std::sync::Arc;

use vstd::prelude::*;

use crate::action::Action;
use crate::keys::{KeyCode, KeyPress};
use crate::model::{Bandwidth, Client, Device, DeviceType, Event};

verus! {

/// `s` with `x` appended, the oldest entry dropped when that exceeds
/// `cap`.
pub open spec fn bounded_push<T>(s: Seq<T>, x: T, cap: nat) -> Seq<T> {
    let t = s.push(x);
    if t.len() > cap {
        t.drop_first()
    } else {
        t
    }
}

/// Appends `x` to a history of capacity `cap` (see `bounded_push`).
pub fn push_bounded<T>(v: &mut Vec<T>, x: T, cap: usize)
    ensures
        final(v)@ == bounded_push(old(v)@, x, cap as nat),
{
    v.push(x);
    if v.len() > cap {
        v.remove(0);
        assert(final(v)@ =~= old(v)@.push(x).drop_first());
    }
}

/// A history within its capacity stays within it, keeps the new entry
/// last, and holds exactly the newest `cap` entries of what it held plus
/// the new one.
pub proof fn lemma_bounded_push_window<T>(s: Seq<T>, x: T, cap: nat)
    requires
        cap > 0,
        s.len() <= cap,
    ensures
        bounded_push(s, x, cap).len() <= cap,
        bounded_push(s, x, cap).last() == x,
        bounded_push(s, x, cap) == s.push(x).subrange(
            s.push(x).len() - bounded_push(s, x, cap).len(),
            s.push(x).len() as int,
        ),
{
    let t = s.push(x);
    if t.len() > cap {
        assert(t.drop_first() =~= t.subrange(1, t.len() as int));
    } else {
        assert(t =~= t.subrange(0, t.len() as int));
    }
}

// ── Live event screen ───────────────────────────────────────────────

/// Events kept in memory by the event screen.
pub const EVENT_CAPACITY: usize = 10000;

/// Events kept for the dashboard's recent-events panel.
pub const DASHBOARD_EVENT_CAPACITY: usize = 100;

/// Bandwidth samples kept for the dashboard's sparkline.
pub const BANDWIDTH_SAMPLES: usize = 60;

/// The event screen: the stream, whether it is paused, and how far the
/// paused view is scrolled back from the newest event.
pub struct EventsScreenState {
    pub events: Vec<Arc<Event>>,
    pub paused: bool,
    pub scroll_offset: usize,
}

/// The last scroll position: the oldest event (0 when there are none).
pub open spec fn max_offset(len: nat) -> int {
    if len > 0 { len - 1 } else { 0 }
}

/// What a key does on the event screen. Space pauses or resumes (resuming
/// snaps back to the newest event); while paused, j/Down and k/Up scroll
/// by one, Ctrl+d and Ctrl+u by ten, g and G jump to the oldest and the
/// newest event.
pub open spec fn events_key(before: EventsScreenState, key: KeyPress, after: EventsScreenState, r: Option<Action>) -> bool {
    let top = max_offset(before.events@.len());
    let off = before.scroll_offset as int;
    let c = key.code;
    let ctrl = key.modifiers.control;
    &&& after.events == before.events
    &&& if c == KeyCode::Char(' ') {
        after.paused == !before.paused && after.scroll_offset == (if before.paused {
            0
        } else {
            before.scroll_offset
        }) && r == Some(Action::ToggleEventPause)
    } else if !before.paused {
        after.paused == before.paused && after.scroll_offset == before.scroll_offset && r is None
    } else if c == KeyCode::Char('j') || c == KeyCode::Down {
        after.paused && after.scroll_offset == (if off > 0 { off - 1 } else { 0 }) && r is None
    } else if c == KeyCode::Char('k') || c == KeyCode::Up {
        after.paused && after.scroll_offset == (if off + 1 < top { off + 1 } else { top }) && r is None
    } else if c == KeyCode::Char('g') {
        after.paused && after.scroll_offset == top && r == Some(Action::ScrollToTop)
    } else if c == KeyCode::Char('G') {
        after.paused && after.scroll_offset == 0 && r == Some(Action::ScrollToBottom)
    } else if c == KeyCode::Char('d') && ctrl {
        after.paused && after.scroll_offset == (if off > 10 { off - 10 } else { 0 }) && r == Some(
            Action::PageDown,
        )
    } else if c == KeyCode::Char('u') && ctrl {
        after.paused && after.scroll_offset == (if off + 10 < top { off + 10 } else { top }) && r == Some(
            Action::PageUp,
        )
    } else {
        after.paused == before.paused && after.scroll_offset == before.scroll_offset && r is None
    }
}

impl EventsScreenState {
    /// The screen's invariant: at most the capacity of events, and the
    /// scroll position on one of them.
    pub open spec fn wf(&self) -> bool {
        &&& self.events@.len() <= EVENT_CAPACITY
        &&& self.scroll_offset <= max_offset(self.events@.len())
    }

    /// A live, empty stream.
    pub fn new() -> (s: Self)
        ensures
            s.wf(),
            s.events@.len() == 0,
            !s.paused,
            s.scroll_offset == 0,
    {
        EventsScreenState { events: Vec::new(), paused: false, scroll_offset: 0 }
    }

    /// A new event arrives: it is kept, the oldest leaves past the
    /// capacity.
    pub fn receive(&mut self, event: Arc<Event>)
        requires
            old(self).wf(),
        ensures
            final(self).wf(),
            final(self).events@ == bounded_push(old(self).events@, event, EVENT_CAPACITY as nat),
            final(self).paused == old(self).paused,
            final(self).scroll_offset == old(self).scroll_offset,
    {
        push_bounded(&mut self.events, event, EVENT_CAPACITY);
    }

    /// Applies an action meant for this screen: a received event is kept;
    /// others change nothing.
    pub fn update(&mut self, action: Action)
        requires
            old(self).wf(),
        ensures
            final(self).wf(),
            match action {
                Action::EventReceived(e) => final(self).events@ == bounded_push(
                    old(self).events@,
                    e,
                    EVENT_CAPACITY as nat,
                ) && final(self).paused == old(self).paused && final(self).scroll_offset == old(
                    self,
                ).scroll_offset,
                _ => *final(self) == *old(self),
            },
    {
        match action {
            Action::EventReceived(e) => self.receive(e),
            _ => {},
        }
    }

    /// Handles a key press (see `events_key`).
    pub fn handle_key(&mut self, key: KeyPress) -> (r: Option<Action>)
        requires
            old(self).wf(),
        ensures
            final(self).wf(),
            events_key(*old(self), key, *final(self), r),
    {
        let top: usize = if self.events.len() > 0 { self.events.len() - 1 } else { 0 };
        let c = key.code;
        let ctrl = key.modifiers.control;
        if c == KeyCode::Char(' ') {
            self.paused = !self.paused;
            if !self.paused {
                self.scroll_offset = 0;
            }
            return Some(Action::ToggleEventPause);
        }
        if !self.paused {
            return None;
        }
        if c == KeyCode::Char('j') || c == KeyCode::Down {
            if self.scroll_offset > 0 {
                self.scroll_offset = self.scroll_offset - 1;
            }
            None
        } else if c == KeyCode::Char('k') || c == KeyCode::Up {
            self.scroll_offset = if self.scroll_offset + 1 < top {
                self.scroll_offset + 1
            } else {
                top
            };
            None
        } else if c == KeyCode::Char('g') {
            self.scroll_offset = top;
            Some(Action::ScrollToTop)
        } else if c == KeyCode::Char('G') {
            self.scroll_offset = 0;
            Some(Action::ScrollToBottom)
        } else if c == KeyCode::Char('d') && ctrl {
            self.scroll_offset = if self.scroll_offset > 10 {
                self.scroll_offset - 10
            } else {
                0
            };
            Some(Action::PageDown)
        } else if c == KeyCode::Char('u') && ctrl {
            self.scroll_offset = if self.scroll_offset + 10 < top {
                self.scroll_offset + 10
            } else {
                top
            };
            Some(Action::PageUp)
        } else {
            None
        }
    }
}

// ── Dashboard histories ─────────────────────────────────────────────

/// The dashboard's recent events and uplink bandwidth samples.
pub struct DashboardHistory {
    /// The latest client list, for the top-clients panel.
    pub clients: Vec<Arc<Client>>,
    pub events: Vec<Arc<Event>>,
    pub bandwidth_tx: Vec<u64>,
    pub bandwidth_rx: Vec<u64>,
}

/// Index of the first gateway among the devices.
pub open spec fn first_gateway_spec(devices: Seq<Arc<Device>>) -> Option<int>
    decreases devices.len(),
{
    if devices.len() == 0 {
        None
    } else {
        match first_gateway_spec(devices.drop_last()) {
            Some(i) => Some(i),
            None => if devices.last().device_type == DeviceType::Gateway {
                Some(devices.len() - 1)
            } else {
                None
            },
        }
    }
}

proof fn lemma_first_gateway_prefix(devices: Seq<Arc<Device>>, i: int)
    requires
        0 <= i <= devices.len(),
        forall|j: int| 0 <= j < i ==> devices[j].device_type != DeviceType::Gateway,
    ensures
        first_gateway_spec(devices.subrange(0, i)) is None,
    decreases i,
{
    if i > 0 {
        let p = devices.subrange(0, i);
        assert(p.drop_last() =~= devices.subrange(0, i - 1));
        lemma_first_gateway_prefix(devices, i - 1);
    }
}

proof fn lemma_first_gateway_extend(devices: Seq<Arc<Device>>, i: int, k: int)
    requires
        0 <= i < k <= devices.len(),
        first_gateway_spec(devices.subrange(0, i + 1)) == Some(i),
    ensures
        first_gateway_spec(devices.subrange(0, k)) == Some(i),
    decreases k - i,
{
    if k > i + 1 {
        lemma_first_gateway_extend(devices, i, k - 1);
        assert(devices.subrange(0, k).drop_last() =~= devices.subrange(0, k - 1));
    }
}

/// Index of the first gateway among the devices, if any.
pub fn first_gateway(devices: &Vec<Arc<Device>>) -> (r: Option<usize>)
    ensures
        match r {
            Some(k) => first_gateway_spec(devices@) == Some(k as int) && k < devices@.len(),
            None => first_gateway_spec(devices@) is None,
        },
{
    let mut i: usize = 0;
    while i < devices.len()
        invariant
            i <= devices@.len(),
            forall|j: int| 0 <= j < i ==> devices@[j].device_type != DeviceType::Gateway,
        decreases devices.len() - i,
    {
        if devices[i].device_type == DeviceType::Gateway {
            proof {
                lemma_first_gateway_prefix(devices@, i as int);
                let p = devices@.subrange(0, i + 1);
                assert(p.drop_last() =~= devices@.subrange(0, i as int));
                lemma_first_gateway_extend(devices@, i as int, devices@.len() as int);
                assert(devices@.subrange(0, devices@.len() as int) =~= devices@);
            }
            return Some(i);
        }
        i = i + 1;
    }
    proof {
        lemma_first_gateway_prefix(devices@, i as int);
        assert(devices@.subrange(0, i as int) =~= devices@);
    }
    None
}

/// The uplink bandwidth that the first gateway among the devices reports.
pub open spec fn gateway_uplink(devices: Seq<Arc<Device>>) -> Option<Bandwidth> {
    match first_gateway_spec(devices) {
        Some(i) => devices[i].stats.uplink_bandwidth,
        None => None,
    }
}

impl DashboardHistory {
    /// Empty histories.
    pub fn new() -> (h: Self)
        ensures
            h.clients@.len() == 0,
            h.events@.len() == 0,
            h.bandwidth_tx@.len() == 0,
            h.bandwidth_rx@.len() == 0,
    {
        DashboardHistory {
            clients: Vec::new(),
            events: Vec::new(),
            bandwidth_tx: Vec::new(),
            bandwidth_rx: Vec::new(),
        }
    }

    /// A new event: the last hundred are kept.
    pub fn record_event(&mut self, event: Arc<Event>)
        ensures
            final(self).events@ == bounded_push(old(self).events@, event, DASHBOARD_EVENT_CAPACITY as nat),
            final(self).clients == old(self).clients,
            final(self).bandwidth_tx == old(self).bandwidth_tx,
            final(self).bandwidth_rx == old(self).bandwidth_rx,
    {
        push_bounded(&mut self.events, event, DASHBOARD_EVENT_CAPACITY);
    }

    /// A new uplink sample of the gateway (absent when the devices hold
    /// no gateway or it reports none): the last sixty are kept.
    pub fn record_uplink(&mut self, sample: Option<Bandwidth>)
        ensures
            final(self).events == old(self).events,
            final(self).clients == old(self).clients,
            match sample {
                Some(b) => final(self).bandwidth_tx@ == bounded_push(
                    old(self).bandwidth_tx@,
                    b.tx_bytes_per_sec,
                    BANDWIDTH_SAMPLES as nat,
                ) && final(self).bandwidth_rx@ == bounded_push(
                    old(self).bandwidth_rx@,
                    b.rx_bytes_per_sec,
                    BANDWIDTH_SAMPLES as nat,
                ),
                None => final(self).bandwidth_tx == old(self).bandwidth_tx && final(self).bandwidth_rx
                    == old(self).bandwidth_rx,
            },
    {
        if let Some(b) = sample {
            push_bounded(&mut self.bandwidth_tx, b.tx_bytes_per_sec, BANDWIDTH_SAMPLES);
            push_bounded(&mut self.bandwidth_rx, b.rx_bytes_per_sec, BANDWIDTH_SAMPLES);
        }
    }

    /// Applies an action meant for the dashboard: new device data records
    /// the gateway's uplink sample, new client data replaces the client
    /// list, a received event joins the recent ones; others change nothing.
    pub fn update(&mut self, action: Action)
        ensures
            match action {
                Action::DevicesUpdated(d) => final(self).events == old(self).events && final(self).clients
                    == old(self).clients && match gateway_uplink(
                    d@,
                ) {
                    Some(b) => final(self).bandwidth_tx@ == bounded_push(
                        old(self).bandwidth_tx@,
                        b.tx_bytes_per_sec,
                        BANDWIDTH_SAMPLES as nat,
                    ) && final(self).bandwidth_rx@ == bounded_push(
                        old(self).bandwidth_rx@,
                        b.rx_bytes_per_sec,
                        BANDWIDTH_SAMPLES as nat,
                    ),
                    None => final(self).bandwidth_tx == old(self).bandwidth_tx
                        && final(self).bandwidth_rx == old(self).bandwidth_rx,
                },
                Action::EventReceived(e) => final(self).events@ == bounded_push(
                    old(self).events@,
                    e,
                    DASHBOARD_EVENT_CAPACITY as nat,
                ) && final(self).clients == old(self).clients && final(self).bandwidth_tx == old(
                    self,
                ).bandwidth_tx && final(self).bandwidth_rx == old(self).bandwidth_rx,
                Action::ClientsUpdated(c) => final(self).clients@ == c@ && final(self).events == old(
                    self,
                ).events && final(self).bandwidth_tx == old(self).bandwidth_tx
                    && final(self).bandwidth_rx == old(self).bandwidth_rx,
                _ => *final(self) == *old(self),
            },
    {
        match action {
            Action::DevicesUpdated(d) => self.record_devices(&d),
            Action::EventReceived(e) => self.record_event(e),
            Action::ClientsUpdated(c) => {
                self.clients = c;
            },
            _ => {},
        }
    }

    /// A new device list: the uplink sample of its first gateway, if that
    /// reports one, is recorded.
    pub fn record_devices(&mut self, devices: &Vec<Arc<Device>>)
        ensures
            final(self).events == old(self).events,
            final(self).clients == old(self).clients,
            match gateway_uplink(devices@) {
                Some(b) => final(self).bandwidth_tx@ == bounded_push(
                    old(self).bandwidth_tx@,
                    b.tx_bytes_per_sec,
                    BANDWIDTH_SAMPLES as nat,
                ) && final(self).bandwidth_rx@ == bounded_push(
                    old(self).bandwidth_rx@,
                    b.rx_bytes_per_sec,
                    BANDWIDTH_SAMPLES as nat,
                ),
                None => final(self).bandwidth_tx == old(self).bandwidth_tx && final(self).bandwidth_rx
                    == old(self).bandwidth_rx,
            },
    {
        let sample = match first_gateway(devices) {
            Some(i) => {
                let d: &Device = &devices[i];
                d.stats.uplink_bandwidth
            },
            None => None,
        };
        self.record_uplink(sample);
    }
}

} // verus!
