//! Shared vocabulary of the dashboard: top-level tabs, the wireless view
//! focus, the startup tab policy, and transient toast messages.

use vstd::prelude::*;

verus! {

/// The top-level tab that currently receives input.
#[derive(Clone, Copy, Debug, PartialEq, Eq, Structural)]
pub enum ActiveTab {
    Wifi,
    Ethernet,
}

/// Which wireless list view receives navigation keys. Meaningful only while
/// the wireless tab is active; the wired tab is a single list.
#[derive(Clone, Copy, Debug, PartialEq, Eq, Structural)]
pub enum WifiFocus {
    KnownNetworks,
    NewNetworks,
    Adapter,
}

/// How the starting tab is chosen when the dashboard comes up.
#[derive(Clone, Copy, Debug, PartialEq, Eq, Structural)]
pub enum StartupTabPolicy {
    PreferActive,
    ForceWifi,
    ForceEthernet,
}

/// The tone of a toast message.
#[derive(Clone, Copy, Debug, PartialEq, Eq, Structural)]
pub enum ToastKind {
    Info,
    Success,
    Error,
}

/// A transient message shown until the instant `until`, given in the same
/// millisecond clock the caller passes into the tick entry point.
#[derive(Clone, Debug)]
pub struct Toast {
    pub kind: ToastKind,
    pub msg: String,
    pub until: u64,
}

} // verus!
