//! The wireless snapshot: four disjoint network lists, the adapter device,
//! and the connected network, replaced wholesale on every refresh.

use vstd::prelude::*;

verus! {

/// One wireless network row as the backend reports it.
#[derive(Clone, Debug)]
pub struct WifiNetwork {
    pub ssid: String,
    pub security: String,
    pub signal: String,
    pub connected: bool,
    pub hidden: Option<bool>,
    pub autoconnect: Option<bool>,
    pub available: bool,
}

/// The wireless adapter as the backend describes it.
#[derive(Clone, Debug)]
pub struct WifiDeviceInfo {
    pub iface: String,
    pub mode: String,
    pub powered: String,
    pub state: String,
    pub scanning: String,
    pub frequency: String,
    pub security: String,
}

/// A freshly polled wireless snapshot. An identity is expected in at most
/// one of the four lists at a time; the backend that builds the snapshot is
/// responsible for the partition.
#[derive(Clone, Debug)]
pub struct WifiState {
    pub ifaces: Vec<String>,
    pub connected_ssid: Option<String>,
    pub known_networks: Vec<WifiNetwork>,
    pub unavailable_known_networks: Vec<WifiNetwork>,
    pub new_networks: Vec<WifiNetwork>,
    pub hidden_networks: Vec<WifiNetwork>,
    pub device: Option<WifiDeviceInfo>,
}

impl WifiState {
    pub open spec fn spec_has_adapter(&self) -> bool {
        self.ifaces@.len() > 0
    }

    pub open spec fn spec_is_active(&self) -> bool {
        self.connected_ssid is Some
    }

    /// A snapshot with no adapter, no networks and no connection.
    pub fn empty() -> (r: WifiState)
        ensures
            r.ifaces@.len() == 0,
            r.connected_ssid is None,
            r.known_networks@.len() == 0,
            r.unavailable_known_networks@.len() == 0,
            r.new_networks@.len() == 0,
            r.hidden_networks@.len() == 0,
            r.device is None,
    {
        WifiState {
            ifaces: Vec::new(),
            connected_ssid: Option::None,
            known_networks: Vec::new(),
            unavailable_known_networks: Vec::new(),
            new_networks: Vec::new(),
            hidden_networks: Vec::new(),
            device: Option::None,
        }
    }

    /// A wireless adapter is present.
    pub fn has_adapter(&self) -> (r: bool)
        ensures
            r == self.spec_has_adapter(),
    {
        self.ifaces.len() > 0
    }

    /// A network is currently connected.
    pub fn is_active(&self) -> (r: bool)
        ensures
            r == self.spec_is_active(),
    {
        self.connected_ssid.is_some()
    }
}

/// The index of the first entry of `list` whose identity equals `ssid`, or
/// `None` when no entry carries that identity.
pub fn position_of_ssid(list: &Vec<WifiNetwork>, ssid: &String) -> (r: Option<usize>)
    ensures
        match r {
            Option::Some(i) => i < list@.len() && list@[i as int].ssid@ == ssid@
                && forall|j: int| 0 <= j < i ==> list@[j].ssid@ != ssid@,
            Option::None => forall|j: int| 0 <= j < list@.len() ==> list@[j].ssid@ != ssid@,
        },
{
    let mut i: usize = 0;
    while i < list.len()
        invariant
            i <= list@.len(),
            forall|j: int| 0 <= j < i ==> list@[j].ssid@ != ssid@,
        decreases list@.len() - i,
    {
        if list[i].ssid.eq(ssid) {
            return Option::Some(i);
        }
        i = i + 1;
    }
    Option::None
}

} // verus!
