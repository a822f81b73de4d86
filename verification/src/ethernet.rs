//! The wired snapshot: an ordered list of physical interfaces with their
//! link, address and resolver details.

use vstd::prelude::*;

verus! {

/// One wired interface as the backend reports it.
#[derive(Clone, Debug)]
pub struct EthernetIface {
    pub name: String,
    pub operstate: String,
    pub carrier: Option<bool>,
    pub mac: Option<String>,
    pub speed_mbps: Option<u32>,
    pub ipv4: Vec<String>,
    pub ipv6: Vec<String>,
    pub gateway_v4: Option<String>,
    pub dns: Vec<String>,
}

impl EthernetIface {
    /// Carrier is up and at least one IPv4 address is assigned.
    pub open spec fn spec_is_active(&self) -> bool {
        self.carrier == Option::Some(true) && self.ipv4@.len() > 0
    }

    /// The interface carries traffic: carrier reported true and at least one
    /// IPv4 address present. Without carrier the interface is never active,
    /// whatever addresses it still holds.
    pub fn is_active(&self) -> (r: bool)
        ensures
            r == self.spec_is_active(),
    {
        match self.carrier {
            Option::Some(true) => self.ipv4.len() > 0,
            _ => false,
        }
    }
}

/// A freshly polled wired snapshot.
#[derive(Clone, Debug)]
pub struct EthernetState {
    pub ifaces: Vec<EthernetIface>,
}

impl EthernetState {
    pub open spec fn spec_has_adapter(&self) -> bool {
        self.ifaces@.len() > 0
    }

    pub open spec fn spec_has_active(&self) -> bool {
        exists|i: int| 0 <= i < self.ifaces@.len() && self.ifaces@[i].spec_is_active()
    }

    /// A snapshot with no interfaces.
    pub fn empty() -> (r: EthernetState)
        ensures
            r.ifaces@.len() == 0,
    {
        EthernetState { ifaces: Vec::new() }
    }

    /// At least one wired interface is present.
    pub fn has_adapter(&self) -> (r: bool)
        ensures
            r == self.spec_has_adapter(),
    {
        self.ifaces.len() > 0
    }

    /// At least one wired interface is active.
    pub fn has_active(&self) -> (r: bool)
        ensures
            r == self.spec_has_active(),
    {
        let mut i: usize = 0;
        while i < self.ifaces.len()
            invariant
                i <= self.ifaces@.len(),
                forall|j: int| 0 <= j < i ==> !self.ifaces@[j].spec_is_active(),
            decreases self.ifaces@.len() - i,
        {
            if self.ifaces[i].is_active() {
                return true;
            }
            i = i + 1;
        }
        false
    }
}

/// The index of the first interface called `name`, or `None` when no
/// interface carries that name.
pub fn position_of_iface(list: &Vec<EthernetIface>, name: &String) -> (r: Option<usize>)
    ensures
        match r {
            Option::Some(i) => i < list@.len() && list@[i as int].name@ == name@ && forall|j: int|
                0 <= j < i ==> list@[j].name@ != name@,
            Option::None => forall|j: int| 0 <= j < list@.len() ==> list@[j].name@ != name@,
        },
{
    let mut i: usize = 0;
    while i < list.len()
        invariant
            i <= list@.len(),
            forall|j: int| 0 <= j < i ==> list@[j].name@ != name@,
        decreases list@.len() - i,
    {
        if list[i].name.eq(name) {
            return Option::Some(i);
        }
        i = i + 1;
    }
    Option::None
}

/// What running a privileged link command reported back.
#[derive(Clone, Debug)]
pub struct CommandResult {
    pub program: String,
    pub args: Vec<String>,
    pub used_sudo: bool,
    pub status: i32,
    pub stdout: String,
    pub stderr: String,
}

} // verus!
