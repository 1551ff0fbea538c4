//! Actions that the terminal interface's components emit.

use std::sync::Arc;

use vstd::prelude::*;

use crate::entity_id::EntityId;
use crate::model::{Client, Device, Event, Network};
use crate::requests::UpdateNetworkRequest;
use crate::screen::ScreenId;

verus! {

/// Tabs of the device detail panel.
#[derive(Debug, Clone, Copy, PartialEq, Eq, Structural)]
pub enum DeviceDetailTab {
    Overview,
    Performance,
    Radios,
    Clients,
    Ports,
}

impl Default for DeviceDetailTab {
    fn default() -> (t: Self)
        ensures
            t == DeviceDetailTab::Overview,
    {
        DeviceDetailTab::Overview
    }
}

/// A destructive operation waiting for the user's confirmation.
#[derive(Debug, Clone)]
pub enum ConfirmAction {
    RestartDevice { id: EntityId, name: String },
    UnadoptDevice { id: EntityId, name: String },
    AdoptDevice { mac: String },
    PowerCyclePort { device_id: EntityId, port_idx: u32 },
    BlockClient { id: EntityId, name: String },
    UnblockClient { id: EntityId, name: String },
    ForgetClient { id: EntityId, name: String },
    DeleteFirewallPolicy { id: EntityId, name: String },
}

/// An action for the application loop to process.
#[derive(Debug)]
pub enum Action {
    Quit,
    Resize(u16, u16),
    SwitchScreen(ScreenId),
    GoBack,
    ToggleHelp,
    OpenSearch,
    CloseSearch,
    SearchInput(String),
    SearchSubmit,
    OpenSettings,
    CloseSettings,
    ConfirmYes,
    ConfirmNo,
    ScrollToTop,
    ScrollToBottom,
    PageUp,
    PageDown,
    CloseDetail,
    OpenDeviceDetail(EntityId),
    RequestRestart(EntityId),
    RequestLocate(EntityId),
    NetworkSave(EntityId, UpdateNetworkRequest),
    RequestUnadopt(EntityId),
    RequestBlockClient(EntityId),
    RequestUnblockClient(EntityId),
    RequestForgetClient(EntityId),
    RequestKickClient(EntityId),
    ShowConfirm(ConfirmAction),
    Connected,
    Disconnected(String),
    Reconnecting,
    DismissNotification,
    ToggleEventPause,
    DeviceDetailTab(DeviceDetailTab),
    DevicesUpdated(Vec<Arc<Device>>),
    ClientsUpdated(Vec<Arc<Client>>),
    NetworksUpdated(Vec<Arc<Network>>),
    EventReceived(Arc<Event>),
}

} // verus!
