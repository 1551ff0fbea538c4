//! The screens whose state the library keeps, and how actions reach them:
//! new data goes to every screen that shows it, other actions to the
//! active screen only.

use std::sync::Arc;

use vstd::prelude::*;

use crate::action::{Action, DeviceDetailTab};
use crate::collection::share_entity;
use crate::devices::DevicesScreenState;
use crate::events::{
    bounded_push, gateway_uplink, DashboardHistory, EventsScreenState, BANDWIDTH_SAMPLES,
    DASHBOARD_EVENT_CAPACITY, EVENT_CAPACITY,
};
use crate::networks::{selected_row, NetworksScreenState};
use crate::screen::ScreenId;

verus! {

/// Another handle to each value of a list, in order.
pub fn share_all<T>(v: &Vec<Arc<T>>) -> (r: Vec<Arc<T>>)
    ensures
        r@ == v@,
{
    let mut r: Vec<Arc<T>> = Vec::new();
    let mut i: usize = 0;
    while i < v.len()
        invariant
            i <= v@.len(),
            r@ == v@.subrange(0, i as int),
        decreases v.len() - i,
    {
        r.push(share_entity(&v[i]));
        i = i + 1;
        assert(r@ =~= v@.subrange(0, i as int));
    }
    assert(v@.subrange(0, v@.len() as int) =~= v@);
    r
}

/// The state of the screens.
pub struct Screens {
    pub devices: DevicesScreenState,
    pub networks: NetworksScreenState,
    pub events: EventsScreenState,
    pub dashboard: DashboardHistory,
}

impl Screens {
    /// Each screen's invariant.
    pub open spec fn wf(&self) -> bool {
        self.networks.wf() && self.events.wf()
    }

    /// Fresh screens.
    pub fn new() -> (s: Self)
        ensures
            s.wf(),
            s.devices.devices@.len() == 0,
            s.devices.selected is None,
            !s.devices.detail_open,
            s.devices.detail_tab == DeviceDetailTab::Overview,
            s.networks.networks@.len() == 0,
            s.networks.selected is None,
            !s.networks.detail_open,
            s.networks.edit is None,
            s.events.events@.len() == 0,
            !s.events.paused,
            s.events.scroll_offset == 0,
            s.dashboard.clients@.len() == 0,
            s.dashboard.events@.len() == 0,
            s.dashboard.bandwidth_tx@.len() == 0,
            s.dashboard.bandwidth_rx@.len() == 0,
    {
        Screens {
            devices: DevicesScreenState::new(),
            networks: NetworksScreenState::new(),
            events: EventsScreenState::new(),
            dashboard: DashboardHistory::new(),
        }
    }

    /// Delivers an action. New device data reaches the devices screen and
    /// the dashboard, new client data the dashboard, new network data the
    /// networks screen, a received event the event screen and the
    /// dashboard; any other action reaches the devices screen when it is
    /// the active one, and changes nothing otherwise.
    pub fn deliver(&mut self, active: ScreenId, action: Action)
        requires
            old(self).wf(),
        ensures
            final(self).wf(),
            match action {
                Action::DevicesUpdated(d) => {
                    &&& final(self).devices.devices@ == d@
                    &&& final(self).devices.detail_open == old(self).devices.detail_open
                    &&& final(self).devices.detail_tab == old(self).devices.detail_tab
                    &&& final(self).devices.selected == (if d@.len() > 0 && selected_row(
                        old(self).devices.selected,
                    ) >= d@.len() {
                        Some((d@.len() - 1) as usize)
                    } else {
                        old(self).devices.selected
                    })
                    &&& final(self).dashboard.events == old(self).dashboard.events
                    &&& match gateway_uplink(d@) {
                        Some(b) => final(self).dashboard.bandwidth_tx@ == bounded_push(
                            old(self).dashboard.bandwidth_tx@,
                            b.tx_bytes_per_sec,
                            BANDWIDTH_SAMPLES as nat,
                        ) && final(self).dashboard.bandwidth_rx@ == bounded_push(
                            old(self).dashboard.bandwidth_rx@,
                            b.rx_bytes_per_sec,
                            BANDWIDTH_SAMPLES as nat,
                        ),
                        None => final(self).dashboard.bandwidth_tx == old(self).dashboard.bandwidth_tx
                            && final(self).dashboard.bandwidth_rx == old(self).dashboard.bandwidth_rx,
                    }
                    &&& final(self).dashboard.clients == old(self).dashboard.clients
                    &&& final(self).networks == old(self).networks
                    &&& final(self).events == old(self).events
                },
                Action::ClientsUpdated(c) => {
                    &&& final(self).dashboard.clients@ == c@
                    &&& final(self).dashboard.events == old(self).dashboard.events
                    &&& final(self).devices == old(self).devices
                    &&& final(self).networks == old(self).networks
                    &&& final(self).events == old(self).events
                },
                Action::NetworksUpdated(n) => {
                    &&& final(self).networks.networks@ == n@
                    &&& final(self).networks.edit == old(self).networks.edit
                    &&& final(self).devices == old(self).devices
                    &&& final(self).events == old(self).events
                    &&& final(self).dashboard == old(self).dashboard
                },
                Action::EventReceived(e) => {
                    &&& final(self).events.events@ == bounded_push(
                        old(self).events.events@,
                        e,
                        EVENT_CAPACITY as nat,
                    )
                    &&& final(self).dashboard.events@ == bounded_push(
                        old(self).dashboard.events@,
                        e,
                        DASHBOARD_EVENT_CAPACITY as nat,
                    )
                    &&& final(self).devices == old(self).devices
                    &&& final(self).networks == old(self).networks
                },
                Action::CloseDetail => {
                    &&& final(self).devices.detail_open == (if active == ScreenId::Devices {
                        false
                    } else {
                        old(self).devices.detail_open
                    })
                    &&& final(self).networks == old(self).networks
                    &&& final(self).events == old(self).events
                    &&& final(self).dashboard == old(self).dashboard
                },
                Action::DeviceDetailTab(t) => {
                    &&& final(self).devices.detail_tab == (if active == ScreenId::Devices {
                        t
                    } else {
                        old(self).devices.detail_tab
                    })
                    &&& final(self).networks == old(self).networks
                    &&& final(self).events == old(self).events
                    &&& final(self).dashboard == old(self).dashboard
                },
                _ => *final(self) == *old(self),
            },
    {
        match action {
            Action::DevicesUpdated(d) => {
                let copy = share_all(&d);
                self.devices.update(Action::DevicesUpdated(d));
                self.dashboard.update(Action::DevicesUpdated(copy));
            },
            Action::ClientsUpdated(c) => {
                self.dashboard.update(Action::ClientsUpdated(c));
            },
            Action::NetworksUpdated(n) => {
                self.networks.update(Action::NetworksUpdated(n));
            },
            Action::EventReceived(e) => {
                let copy = share_entity(&e);
                self.events.update(Action::EventReceived(e));
                self.dashboard.update(Action::EventReceived(copy));
            },
            other => {
                if active == ScreenId::Devices {
                    self.devices.update(other);
                }
            },
        }
    }
}

} // verus!
