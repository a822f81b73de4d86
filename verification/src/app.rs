//! The application state and its reconciliation engine: merging freshly
//! polled snapshots while keeping the user's selection, cycling the view
//! focus, supervising the two background operations, and driving the
//! transient overlays.

use vstd::prelude::*;
use vstd::string::StrSliceExecFns;
use vstd::string::StringExecFns;
use crate::common::{ActiveTab, StartupTabPolicy, Toast, ToastKind, WifiFocus};
use crate::ethernet::{CommandResult, EthernetIface, EthernetState};
use crate::keybinds::Keybinds;
use crate::selection::{
    ListSelection, clamp_selected, select_first_if_any, select_next_in_state,
    select_prev_in_state, spec_clamp, spec_select_first_if_any, spec_select_next,
    spec_select_prev,
};
use crate::text::{
    ci_contains, contains_ci, join_comma, spec_join_comma, spec_trim, spec_u64_dec, str_eq,
    trim_str, u64_to_string,
};
use crate::wifi::{WifiNetwork, WifiState, position_of_ssid};

verus! {

/// How long a toast stays on screen, in milliseconds.
pub const TOAST_DURATION_MS: u64 = 3000;

/// Startup choices of the driving loop.
#[derive(Clone, Copy, Debug)]
pub struct AppConfig {
    pub startup_policy: StartupTabPolicy,
    pub tick_ms: u64,
    pub esc_quit: bool,
}

impl Default for AppConfig {
    /// Prefer the active transport, tick every quarter second, quit on
    /// Escape.
    fn default() -> (r: AppConfig)
        ensures
            r.startup_policy is PreferActive,
            r.tick_ms == 250,
            r.esc_quit,
    {
        AppConfig { startup_policy: StartupTabPolicy::PreferActive, tick_ms: 250, esc_quit: true }
    }
}

/// What a running connect or disconnect attempt was started for. Created
/// when the task is spawned and consumed exactly once when its completion
/// is reported.
#[derive(Clone, Debug)]
pub struct WifiConnectContext {
    pub ssid: String,
    pub disconnect: bool,
    pub used_passphrase: bool,
}

/// How a finished background task ended: the operation succeeded, the
/// operation reported an error, or the task itself could not be joined.
#[derive(Clone, Debug)]
pub enum TaskOutcome {
    Success,
    Failure(String),
    JoinFailure(String),
}

/// A best-effort desktop notification for the caller to send.
#[derive(Clone, Debug)]
pub struct Notification {
    pub title: String,
    pub body: String,
}

/// What a connect-or-disconnect request resolved to: the target identity
/// and whether the spawned task should disconnect rather than connect.
#[derive(Clone, Debug)]
pub struct ConnectRequest {
    pub ssid: String,
    pub disconnect: bool,
}

/// What a passphrase submission resolved to: the target identity and the
/// secret to connect with.
#[derive(Clone, Debug)]
pub struct PassphraseRequest {
    pub ssid: String,
    pub passphrase: String,
}

/// A request to force a wired link up or down.
#[derive(Clone, Debug)]
pub struct LinkRequest {
    pub iface: String,
    pub up: bool,
}

/// The whole state of the dashboard, owned exclusively by the driving
/// loop. Background work happens outside; only its parameters, completion
/// outcomes, and fresh snapshots pass through these methods.
#[derive(Debug)]
pub struct App {
    pub running: bool,
    pub config: AppConfig,
    pub active_tab: ActiveTab,
    pub wifi_focus: WifiFocus,
    pub keybinds: Keybinds,
    pub wifi: WifiState,
    pub wifi_known_state: ListSelection,
    pub wifi_new_state: ListSelection,
    pub wifi_adapter_state: ListSelection,
    pub wifi_iface_details: Option<EthernetIface>,
    pub show_wifi_details: bool,
    pub show_unavailable_known_networks: bool,
    pub show_hidden_networks: bool,
    pub hidden_connect_prompt: bool,
    pub hidden_ssid_input: String,
    pub wifi_passphrase_prompt_ssid: Option<String>,
    pub wifi_passphrase_input: String,
    pub ethernet: EthernetState,
    pub ethernet_state: ListSelection,
    pub last_error: Option<String>,
    pub last_action: Option<String>,
    pub toast: Option<Toast>,
    pub wifi_scan_pending: bool,
    pub wifi_connect_pending: bool,
    pub spinner_frame: usize,
    pub wifi_connect_context: Option<WifiConnectContext>,
}

/// An optional index that stays inside a list of the given length.
pub open spec fn sel_ok(sel: Option<usize>, len: int) -> bool {
    match sel {
        Option::None => true,
        Option::Some(i) => (i as int) < len,
    }
}

/// The optional string holds exactly this text.
pub open spec fn opt_string_is(a: Option<String>, m: Seq<char>) -> bool {
    match a {
        Option::Some(s) => s@ == m,
        Option::None => false,
    }
}

/// The toast shows this kind and text and expires one toast duration after
/// `now`.
pub open spec fn toast_shows(t: Option<Toast>, kind: ToastKind, m: Seq<char>, now: u64) -> bool {
    match t {
        Option::Some(t) => t.kind == kind && t.msg@ == m && t.until == now + TOAST_DURATION_MS,
        Option::None => false,
    }
}

/// The notification carries this title and body.
pub open spec fn notif_is(n: Option<Notification>, title: Seq<char>, body: Seq<char>) -> bool {
    match n {
        Option::Some(n) => n.title@ == title && n.body@ == body,
        Option::None => false,
    }
}

impl App {
    /// The length of the known-networks view as displayed: the available
    /// entries, plus the unavailable ones while those are shown.
    pub open spec fn spec_known_total_len(&self) -> int {
        self.wifi.known_networks@.len() + if self.show_unavailable_known_networks {
            self.wifi.unavailable_known_networks@.len() as int
        } else {
            0
        }
    }

    /// The length of the new-networks view as displayed.
    pub open spec fn spec_new_total_len(&self) -> int {
        self.wifi.new_networks@.len() + if self.show_hidden_networks {
            self.wifi.hidden_networks@.len() as int
        } else {
            0
        }
    }

    /// The length of the adapter view: one row when a device is present.
    pub open spec fn spec_device_total_len(&self) -> int {
        if self.wifi.device is Some {
            1
        } else {
            0
        }
    }

    /// The known-networks view as displayed: available first, then the
    /// unavailable entries while those are shown.
    pub open spec fn spec_displayed_known(&self) -> Seq<WifiNetwork> {
        if self.show_unavailable_known_networks {
            self.wifi.known_networks@ + self.wifi.unavailable_known_networks@
        } else {
            self.wifi.known_networks@
        }
    }

    /// The new-networks view as displayed.
    pub open spec fn spec_displayed_new(&self) -> Seq<WifiNetwork> {
        if self.show_hidden_networks {
            self.wifi.new_networks@ + self.wifi.hidden_networks@
        } else {
            self.wifi.new_networks@
        }
    }

    /// The displayed length of the list behind a focus.
    pub open spec fn spec_focus_len(&self, focus: WifiFocus) -> int {
        match focus {
            WifiFocus::KnownNetworks => self.spec_known_total_len(),
            WifiFocus::NewNetworks => self.spec_new_total_len(),
            WifiFocus::Adapter => self.spec_device_total_len(),
        }
    }

    /// The wireless entry the cursor of the known view rests on.
    pub open spec fn spec_selected_known(&self) -> Option<WifiNetwork> {
        match self.wifi_known_state.selected {
            Option::Some(i) => if (i as int) < self.spec_displayed_known().len() {
                Option::Some(self.spec_displayed_known()[i as int])
            } else {
                Option::None
            },
            Option::None => Option::None,
        }
    }

    /// The wireless entry the cursor of the new view rests on.
    pub open spec fn spec_selected_new(&self) -> Option<WifiNetwork> {
        match self.wifi_new_state.selected {
            Option::Some(i) => if (i as int) < self.spec_displayed_new().len() {
                Option::Some(self.spec_displayed_new()[i as int])
            } else {
                Option::None
            },
            Option::None => Option::None,
        }
    }

    /// The wireless entry an action would apply to, by the current focus.
    pub open spec fn spec_selected_wifi_network(&self) -> Option<WifiNetwork> {
        match self.wifi_focus {
            WifiFocus::KnownNetworks => self.spec_selected_known(),
            WifiFocus::NewNetworks => self.spec_selected_new(),
            WifiFocus::Adapter => Option::None,
        }
    }

    /// The wired interface the cursor rests on.
    pub open spec fn spec_selected_eth(&self) -> Option<EthernetIface> {
        match self.ethernet_state.selected {
            Option::Some(i) => if (i as int) < self.ethernet.ifaces@.len() {
                Option::Some(self.ethernet.ifaces@[i as int])
            } else {
                Option::None
            },
            Option::None => Option::None,
        }
    }

    /// Well-formedness: every cursor stays inside its displayed list, the
    /// displayed lengths fit the machine, the spinner stays on its wheel,
    /// and a connect context exists exactly while a connect or disconnect
    /// task is outstanding.
    pub open spec fn wf(&self) -> bool {
        &&& sel_ok(self.wifi_known_state.selected, self.spec_known_total_len())
        &&& sel_ok(self.wifi_new_state.selected, self.spec_new_total_len())
        &&& sel_ok(self.wifi_adapter_state.selected, self.spec_device_total_len())
        &&& sel_ok(self.ethernet_state.selected, self.ethernet.ifaces@.len() as int)
        &&& self.wifi.known_networks@.len() + self.wifi.unavailable_known_networks@.len()
            <= usize::MAX
        &&& self.wifi.new_networks@.len() + self.wifi.hidden_networks@.len() <= usize::MAX
        &&& self.spinner_frame < 4
        &&& (self.wifi_connect_pending <==> self.wifi_connect_context is Some)
    }

    /// Build the starting state from the first snapshots: the tab chosen by
    /// the startup policy, focus on known networks (corrected to the first
    /// non-empty view), the first row of each non-empty list selected, and
    /// no pending work or overlays.
    pub fn new(
        config: AppConfig,
        keybinds: Keybinds,
        wifi: WifiState,
        ethernet: EthernetState,
        wifi_iface_details: Option<EthernetIface>,
    ) -> (r: App)
        requires
            wifi.known_networks@.len() + wifi.unavailable_known_networks@.len() <= usize::MAX,
            wifi.new_networks@.len() + wifi.hidden_networks@.len() <= usize::MAX,
        ensures
            r.wf(),
            r.running,
            r.config == config,
            r.keybinds == keybinds,
            r.wifi == wifi,
            r.ethernet == ethernet,
            r.wifi_iface_details == wifi_iface_details,
            r.active_tab == spec_determine_start_tab(config.startup_policy, wifi, ethernet),
            !r.show_wifi_details,
            !r.show_unavailable_known_networks,
            !r.show_hidden_networks,
            !r.hidden_connect_prompt,
            r.hidden_ssid_input@.len() == 0,
            r.wifi_passphrase_prompt_ssid is None,
            r.wifi_passphrase_input@.len() == 0,
            r.last_error is None,
            r.last_action is None,
            r.toast is None,
            !r.wifi_scan_pending,
            !r.wifi_connect_pending,
            r.spinner_frame == 0,
            r.wifi_known_state.selected == (if r.spec_known_total_len() > 0 {
                Option::Some(0usize)
            } else {
                Option::<usize>::None
            }),
            r.wifi_new_state.selected == (if r.spec_new_total_len() > 0 {
                Option::Some(0usize)
            } else {
                Option::<usize>::None
            }),
            r.wifi_adapter_state.selected == (if r.spec_device_total_len() > 0 {
                Option::Some(0usize)
            } else {
                Option::<usize>::None
            }),
            r.ethernet_state.selected == (if r.ethernet.ifaces@.len() > 0 {
                Option::Some(0usize)
            } else {
                Option::<usize>::None
            }),
            r.wifi_focus == spec_ensure_focus(
                WifiFocus::KnownNetworks,
                r.spec_known_total_len(),
                r.spec_new_total_len(),
                r.spec_device_total_len(),
            ),
    {
        let active_tab = determine_start_tab(config.startup_policy, &wifi, &ethernet);
        let mut app = App {
            running: true,
            config,
            active_tab,
            wifi_focus: WifiFocus::KnownNetworks,
            keybinds,
            wifi,
            wifi_known_state: ListSelection::new(),
            wifi_new_state: ListSelection::new(),
            wifi_adapter_state: ListSelection::new(),
            wifi_iface_details,
            show_wifi_details: false,
            show_unavailable_known_networks: false,
            show_hidden_networks: false,
            hidden_connect_prompt: false,
            hidden_ssid_input: String::new(),
            wifi_passphrase_prompt_ssid: Option::None,
            wifi_passphrase_input: String::new(),
            ethernet,
            ethernet_state: ListSelection::new(),
            last_error: Option::None,
            last_action: Option::None,
            toast: Option::None,
            wifi_scan_pending: false,
            wifi_connect_pending: false,
            spinner_frame: 0,
            wifi_connect_context: Option::None,
        };
        app.init_wifi_states();
        app.init_ethernet_state();
        app
    }

    /// The displayed length of the known-networks view.
    pub fn known_total_len(&self) -> (r: usize)
        requires
            self.wifi.known_networks@.len() + self.wifi.unavailable_known_networks@.len()
                <= usize::MAX,
        ensures
            r as int == self.spec_known_total_len(),
    {
        self.wifi.known_networks.len() + if self.show_unavailable_known_networks {
            self.wifi.unavailable_known_networks.len()
        } else {
            0
        }
    }

    /// The displayed length of the new-networks view.
    pub fn new_total_len(&self) -> (r: usize)
        requires
            self.wifi.new_networks@.len() + self.wifi.hidden_networks@.len() <= usize::MAX,
        ensures
            r as int == self.spec_new_total_len(),
    {
        self.wifi.new_networks.len() + if self.show_hidden_networks {
            self.wifi.hidden_networks.len()
        } else {
            0
        }
    }

    /// The length of the adapter view.
    pub fn device_total_len(&self) -> (r: usize)
        ensures
            r as int == self.spec_device_total_len(),
    {
        if self.wifi.device.is_some() {
            1
        } else {
            0
        }
    }

    /// Stop the driving loop.
    pub fn quit(&mut self)
        ensures
            *final(self) == spec_app_quit(*old(self)),
    {
        self.running = false;
    }

    /// Switch between the wireless and wired tabs.
    pub fn switch_transport_next(&mut self)
        ensures
            *final(self) == spec_app_switch_tab(*old(self)),
    {
        self.active_tab = match self.active_tab {
            ActiveTab::Wifi => ActiveTab::Ethernet,
            ActiveTab::Ethernet => ActiveTab::Wifi,
        };
    }

    /// With two tabs, the reverse cycle is the same switch.
    pub fn switch_transport_prev(&mut self)
        ensures
            *final(self) == spec_app_switch_tab(*old(self)),
    {
        self.switch_transport_next();
    }

    /// Advance the wireless focus to the next view with items, trying each
    /// of the other two views once and coming back around when every view
    /// is empty. Outside the wireless tab nothing changes.
    pub fn switch_focus_next(&mut self)
        requires
            old(self).wf(),
        ensures
            final(self).wf(),
            *final(self) == spec_app_focus_next(*old(self)),
    {
        if self.active_tab != ActiveTab::Wifi {
            return ;
        }
        let a = focus_next(self.wifi_focus);
        if self.focus_has_items(a) {
            self.wifi_focus = a;
            return ;
        }
        let b = focus_next(a);
        if self.focus_has_items(b) {
            self.wifi_focus = b;
            return ;
        }
        let c = focus_next(b);
        self.wifi_focus = c;
    }

    /// The reverse cycle with the same skip rule.
    pub fn switch_focus_prev(&mut self)
        requires
            old(self).wf(),
        ensures
            final(self).wf(),
            *final(self) == spec_app_focus_prev(*old(self)),
    {
        if self.active_tab != ActiveTab::Wifi {
            return ;
        }
        let a = focus_prev(self.wifi_focus);
        if self.focus_has_items(a) {
            self.wifi_focus = a;
            return ;
        }
        let b = focus_prev(a);
        if self.focus_has_items(b) {
            self.wifi_focus = b;
            return ;
        }
        let c = focus_prev(b);
        self.wifi_focus = c;
    }

    /// The backing list of this focus currently has items.
    pub fn focus_has_items(&self, focus: WifiFocus) -> (r: bool)
        requires
            self.wifi.known_networks@.len() + self.wifi.unavailable_known_networks@.len()
                <= usize::MAX,
            self.wifi.new_networks@.len() + self.wifi.hidden_networks@.len() <= usize::MAX,
        ensures
            r == (self.spec_focus_len(focus) > 0),
    {
        match focus {
            WifiFocus::KnownNetworks => self.known_total_len() > 0,
            WifiFocus::NewNetworks => self.new_total_len() > 0,
            WifiFocus::Adapter => self.device_total_len() > 0,
        }
    }

    /// After a refresh or a toggle: when the focused view has become empty,
    /// jump to the first non-empty view in the fixed order known, new,
    /// adapter; when every view is empty the focus stays where it was.
    /// The focus therefore never rests on an empty view unless all three
    /// are empty.
    pub fn ensure_valid_wifi_focus(&mut self)
        requires
            old(self).wf(),
        ensures
            final(self).wf(),
            *final(self) == (App { wifi_focus: final(self).wifi_focus, ..*old(self) }),
            final(self).wifi_focus == spec_ensure_focus(
                old(self).wifi_focus,
                old(self).spec_known_total_len(),
                old(self).spec_new_total_len(),
                old(self).spec_device_total_len(),
            ),
            (old(self).spec_known_total_len() > 0 || old(self).spec_new_total_len() > 0 || old(
                self,
            ).spec_device_total_len() > 0) ==> final(self).spec_focus_len(final(self).wifi_focus)
                > 0,
    {
        if self.focus_has_items(self.wifi_focus) {
            return ;
        }
        if self.focus_has_items(WifiFocus::KnownNetworks) {
            self.wifi_focus = WifiFocus::KnownNetworks;
            return ;
        }
        if self.focus_has_items(WifiFocus::NewNetworks) {
            self.wifi_focus = WifiFocus::NewNetworks;
            return ;
        }
        if self.focus_has_items(WifiFocus::Adapter) {
            self.wifi_focus = WifiFocus::Adapter;
            return ;
        }
    }

    /// Ask for a wireless scan. While one is already outstanding this is a
    /// soft no-op: only a toast appears and no second task may be started.
    /// Otherwise the scan slot is taken and the caller must start exactly
    /// one scan task.
    pub fn wifi_scan(&mut self, now_ms: u64) -> (started: bool)
        requires
            old(self).wf(),
            now_ms <= u64::MAX - TOAST_DURATION_MS,
        ensures
            final(self).wf(),
            old(self).wifi_scan_pending ==> !started && *final(self) == (App {
                toast: final(self).toast,
                ..*old(self)
            }) && toast_shows(final(self).toast, ToastKind::Info, "Wi-Fi scan already running"@, now_ms),
            !old(self).wifi_scan_pending ==> started && *final(self) == (App {
                wifi_scan_pending: true,
                last_action: final(self).last_action,
                toast: final(self).toast,
                ..*old(self)
            }) && opt_string_is(final(self).last_action, "Wi-Fi scan requested"@) && toast_shows(
                final(self).toast,
                ToastKind::Info,
                "Wi-Fi scan requested..."@,
                now_ms,
            ),
    {
        if self.wifi_scan_pending {
            self.set_toast(ToastKind::Info, String::from_str("Wi-Fi scan already running"), now_ms);
            return false;
        }
        self.wifi_scan_pending = true;
        self.last_action = Option::Some(String::from_str("Wi-Fi scan requested"));
        self.set_toast(ToastKind::Info, String::from_str("Wi-Fi scan requested..."), now_ms);
        true
    }

    /// Resolve a connect-or-disconnect request against the current
    /// selection. While a connect or disconnect is already outstanding, or
    /// nothing is selected, or the selection is a known network that is not
    /// in range, this is a soft no-op with a toast. Otherwise the single
    /// connect slot is taken, the correlation context is recorded, and the
    /// caller must start exactly one task doing what the request says.
    pub fn wifi_connect_or_disconnect(&mut self, now_ms: u64) -> (r: Option<ConnectRequest>)
        requires
            old(self).wf(),
            now_ms <= u64::MAX - TOAST_DURATION_MS,
        ensures
            final(self).wf(),
            old(self).wifi_connect_pending ==> r is None && *final(self) == (App {
                toast: final(self).toast,
                ..*old(self)
            }) && toast_shows(
                final(self).toast,
                ToastKind::Info,
                "Wi-Fi connect/disconnect already in progress"@,
                now_ms,
            ),
            !old(self).wifi_connect_pending && old(self).spec_selected_wifi_network() is None
                ==> r is None && *final(self) == (App { toast: final(self).toast, ..*old(self) })
                && toast_shows(final(self).toast, ToastKind::Error, "No network selected"@, now_ms),
            !old(self).wifi_connect_pending ==> match old(self).spec_selected_wifi_network() {
                Option::Some(n) => {
                    &&& (old(self).wifi_focus is KnownNetworks && !n.available ==> r is None
                        && *final(self) == (App { toast: final(self).toast, ..*old(self) })
                        && toast_shows(
                        final(self).toast,
                        ToastKind::Info,
                        "Unavailable known network cannot be connected directly"@,
                        now_ms,
                    ))
                    &&& (!(old(self).wifi_focus is KnownNetworks && !n.available) ==> {
                        &&& match r {
                            Option::Some(req) => req.ssid@ == n.ssid@ && req.disconnect
                                == n.connected,
                            Option::None => false,
                        }
                        &&& *final(self) == (App {
                            wifi_connect_pending: true,
                            wifi_connect_context: final(self).wifi_connect_context,
                            last_action: final(self).last_action,
                            toast: final(self).toast,
                            ..*old(self)
                        })
                        &&& match final(self).wifi_connect_context {
                            Option::Some(c) => c.ssid@ == n.ssid@ && c.disconnect == n.connected
                                && !c.used_passphrase,
                            Option::None => false,
                        }
                        &&& opt_string_is(
                            final(self).last_action,
                            if n.connected {
                                "Disconnecting Wi-Fi..."@
                            } else {
                                spec_msg_connecting(n.ssid@)
                            },
                        )
                        &&& toast_shows(
                            final(self).toast,
                            ToastKind::Info,
                            if n.connected {
                                "Disconnecting Wi-Fi..."@
                            } else {
                                spec_msg_connecting(n.ssid@)
                            },
                            now_ms,
                        )
                    })
                },
                Option::None => true,
            },
    {
        if self.wifi_connect_pending {
            self.set_toast(
                ToastKind::Info,
                String::from_str("Wi-Fi connect/disconnect already in progress"),
                now_ms,
            );
            return Option::None;
        }
        let sel = match self.selected_wifi_network() {
            Option::Some(n) => Option::Some((n.ssid.clone(), n.connected, n.available)),
            Option::None => Option::None,
        };
        let (ssid, connected, available) = match sel {
            Option::Some(t) => t,
            Option::None => {
                self.set_toast(ToastKind::Error, String::from_str("No network selected"), now_ms);
                return Option::None;
            },
        };
        let focus_known = match self.wifi_focus {
            WifiFocus::KnownNetworks => true,
            _ => false,
        };
        if focus_known && !available {
            self.set_toast(
                ToastKind::Info,
                String::from_str("Unavailable known network cannot be connected directly"),
                now_ms,
            );
            return Option::None;
        }
        let disconnect = connected;
        self.wifi_connect_pending = true;
        self.wifi_connect_context = Option::Some(
            WifiConnectContext {
                ssid: ssid.clone(),
                disconnect,
                used_passphrase: false,
            },
        );
        let act = if disconnect {
            String::from_str("Disconnecting Wi-Fi...")
        } else {
            connecting_msg(ssid.as_str())
        };
        self.last_action = Option::Some(act.clone());
        self.set_toast(ToastKind::Info, act, now_ms);
        Option::Some(ConnectRequest { ssid, disconnect })
    }

    /// Validate the hidden-network prompt: a blank SSID only raises an
    /// error toast, and the single connect slot applies here as well — an
    /// outstanding connect leaves only a toast. Otherwise the trimmed SSID
    /// is handed back for the caller to connect to, and the prompt stays
    /// open until the outcome is reported.
    pub fn submit_hidden_connect(&mut self, now_ms: u64) -> (r: Option<String>)
        requires
            old(self).wf(),
            now_ms <= u64::MAX - TOAST_DURATION_MS,
        ensures
            final(self).wf(),
            spec_trim(old(self).hidden_ssid_input@).len() == 0 ==> r is None && *final(self)
                == (App { toast: final(self).toast, ..*old(self) }) && toast_shows(
                final(self).toast,
                ToastKind::Error,
                "SSID cannot be empty"@,
                now_ms,
            ),
            spec_trim(old(self).hidden_ssid_input@).len() > 0 && old(self).wifi_connect_pending
                ==> r is None && *final(self) == (App { toast: final(self).toast, ..*old(self) })
                && toast_shows(
                final(self).toast,
                ToastKind::Info,
                "Wi-Fi connect already in progress"@,
                now_ms,
            ),
            spec_trim(old(self).hidden_ssid_input@).len() > 0 && !old(self).wifi_connect_pending
                ==> *final(self) == *old(self) && match r {
                Option::Some(s) => s@ == spec_trim(old(self).hidden_ssid_input@),
                Option::None => false,
            },
    {
        let ssid = trim_str(self.hidden_ssid_input.as_str());
        if ssid.as_str().is_empty() {
            self.set_toast(ToastKind::Error, String::from_str("SSID cannot be empty"), now_ms);
            return Option::None;
        }
        if self.wifi_connect_pending {
            self.set_toast(
                ToastKind::Info,
                String::from_str("Wi-Fi connect already in progress"),
                now_ms,
            );
            return Option::None;
        }
        Option::Some(ssid)
    }

    /// Record the outcome of an attempted hidden-network connect: success
    /// reports the request, notifies, and closes the prompt; failure only
    /// raises the rewritten error toast and leaves the prompt open.
    pub fn hidden_connect_finished(
        &mut self,
        ssid: &str,
        result: Result<(), String>,
        now_ms: u64,
    ) -> (n: Option<Notification>)
        requires
            old(self).wf(),
            now_ms <= u64::MAX - TOAST_DURATION_MS,
        ensures
            final(self).wf(),
            match result {
                Result::Ok(u) => {
                    &&& *final(self) == (App {
                        last_action: final(self).last_action,
                        toast: final(self).toast,
                        hidden_connect_prompt: false,
                        hidden_ssid_input: final(self).hidden_ssid_input,
                        ..*old(self)
                    })
                    &&& final(self).hidden_ssid_input@.len() == 0
                    &&& opt_string_is(final(self).last_action, spec_msg_hidden_requested(ssid@))
                    &&& toast_shows(
                        final(self).toast,
                        ToastKind::Info,
                        spec_msg_hidden_requested(ssid@),
                        now_ms,
                    )
                    &&& notif_is(n, "Wi-Fi"@, spec_msg_hidden_notify(ssid@))
                },
                Result::Err(e) => {
                    &&& *final(self) == (App { toast: final(self).toast, ..*old(self) })
                    &&& toast_shows(
                        final(self).toast,
                        ToastKind::Error,
                        spec_friendly_wifi_error("connect hidden network"@, e@),
                        now_ms,
                    )
                    &&& n is None
                },
            },
    {
        match result {
            Result::Ok(_) => {
                let m = String::from_str("Connect hidden requested: ").concat(ssid);
                proof {
                    assert(m@ =~= spec_msg_hidden_requested(ssid@));
                }
                self.last_action = Option::Some(m.clone());
                self.set_toast(ToastKind::Info, m, now_ms);
                let body = String::from_str("Connect hidden: ").concat(ssid);
                proof {
                    assert(body@ =~= spec_msg_hidden_notify(ssid@));
                }
                self.close_hidden_connect_prompt();
                Option::Some(Notification { title: String::from_str("Wi-Fi"), body })
            },
            Result::Err(e) => {
                let m = friendly_wifi_error("connect hidden network", e.as_str());
                self.set_toast(ToastKind::Error, m, now_ms);
                Option::None
            },
        }
    }

    /// Validate the passphrase prompt: without an open prompt nothing
    /// happens; a blank passphrase or an outstanding connect only raises a
    /// toast. Otherwise the connect slot is taken with a context already
    /// marked as having supplied a passphrase (so a failing agent cannot
    /// reprompt forever), the prompt closes, and the caller must start
    /// exactly one task connecting with the secret.
    pub fn submit_wifi_passphrase_connect(&mut self, now_ms: u64) -> (r: Option<PassphraseRequest>)
        requires
            old(self).wf(),
            now_ms <= u64::MAX - TOAST_DURATION_MS,
        ensures
            final(self).wf(),
            old(self).wifi_passphrase_prompt_ssid is None ==> r is None && *final(self) == *old(
                self,
            ),
            match old(self).wifi_passphrase_prompt_ssid {
                Option::Some(ssid) => {
                    &&& (old(self).wifi_passphrase_input@.len() == 0 ==> r is None && *final(self)
                        == (App { toast: final(self).toast, ..*old(self) }) && toast_shows(
                        final(self).toast,
                        ToastKind::Error,
                        "Passphrase cannot be empty"@,
                        now_ms,
                    ))
                    &&& (old(self).wifi_passphrase_input@.len() > 0 && old(
                        self,
                    ).wifi_connect_pending ==> r is None && *final(self) == (App {
                        toast: final(self).toast,
                        ..*old(self)
                    }) && toast_shows(
                        final(self).toast,
                        ToastKind::Info,
                        "Wi-Fi connect already in progress"@,
                        now_ms,
                    ))
                    &&& (old(self).wifi_passphrase_input@.len() > 0 && !old(
                        self,
                    ).wifi_connect_pending ==> {
                        &&& match r {
                            Option::Some(req) => req.ssid@ == ssid@ && req.passphrase@ == old(
                                self,
                            ).wifi_passphrase_input@,
                            Option::None => false,
                        }
                        &&& *final(self) == (App {
                            wifi_connect_pending: true,
                            wifi_connect_context: final(self).wifi_connect_context,
                            wifi_passphrase_prompt_ssid: Option::None,
                            wifi_passphrase_input: final(self).wifi_passphrase_input,
                            last_action: final(self).last_action,
                            toast: final(self).toast,
                            ..*old(self)
                        })
                        &&& final(self).wifi_passphrase_input@.len() == 0
                        &&& match final(self).wifi_connect_context {
                            Option::Some(c) => c.ssid@ == ssid@ && !c.disconnect
                                && c.used_passphrase,
                            Option::None => false,
                        }
                        &&& opt_string_is(final(self).last_action, spec_msg_connecting(ssid@))
                        &&& toast_shows(
                            final(self).toast,
                            ToastKind::Info,
                            spec_msg_connecting(ssid@),
                            now_ms,
                        )
                    })
                },
                Option::None => true,
            },
    {
        let ssid = match &self.wifi_passphrase_prompt_ssid {
            Option::Some(s) => s.clone(),
            Option::None => {
                return Option::None;
            },
        };
        let passphrase = self.wifi_passphrase_input.clone();
        if passphrase.as_str().is_empty() {
            self.set_toast(
                ToastKind::Error,
                String::from_str("Passphrase cannot be empty"),
                now_ms,
            );
            return Option::None;
        }
        if self.wifi_connect_pending {
            self.set_toast(
                ToastKind::Info,
                String::from_str("Wi-Fi connect already in progress"),
                now_ms,
            );
            return Option::None;
        }
        let act = connecting_msg(ssid.as_str());
        self.last_action = Option::Some(act.clone());
        self.set_toast(ToastKind::Info, act, now_ms);
        self.close_wifi_passphrase_prompt();
        self.wifi_connect_pending = true;
        self.wifi_connect_context = Option::Some(
            WifiConnectContext { ssid: ssid.clone(), disconnect: false, used_passphrase: true },
        );
        Option::Some(PassphraseRequest { ssid, passphrase })
    }

    /// Record the outcome of the outstanding scan task, freeing its slot:
    /// success reports completion with a notification, a domain failure
    /// raises the rewritten error toast, and a task that could not be
    /// joined is reported distinctly.
    pub fn on_scan_task_done(&mut self, outcome: TaskOutcome, now_ms: u64) -> (n: Option<
        Notification,
    >)
        requires
            old(self).wf(),
            old(self).wifi_scan_pending,
            now_ms <= u64::MAX - TOAST_DURATION_MS,
        ensures
            final(self).wf(),
            !final(self).wifi_scan_pending,
            match outcome {
                TaskOutcome::Success => {
                    &&& *final(self) == (App {
                        wifi_scan_pending: false,
                        last_action: final(self).last_action,
                        toast: final(self).toast,
                        ..*old(self)
                    })
                    &&& opt_string_is(final(self).last_action, "Wi-Fi scan completed"@)
                    &&& toast_shows(
                        final(self).toast,
                        ToastKind::Success,
                        "Wi-Fi scan completed"@,
                        now_ms,
                    )
                    &&& notif_is(n, "Wi-Fi"@, "Scan completed"@)
                },
                TaskOutcome::Failure(e) => {
                    &&& *final(self) == (App {
                        wifi_scan_pending: false,
                        toast: final(self).toast,
                        ..*old(self)
                    })
                    &&& toast_shows(
                        final(self).toast,
                        ToastKind::Error,
                        spec_friendly_wifi_error("scan"@, e@),
                        now_ms,
                    )
                    &&& n is None
                },
                TaskOutcome::JoinFailure(e) => {
                    &&& *final(self) == (App {
                        wifi_scan_pending: false,
                        toast: final(self).toast,
                        ..*old(self)
                    })
                    &&& toast_shows(
                        final(self).toast,
                        ToastKind::Error,
                        "scan task failed: "@ + e@,
                        now_ms,
                    )
                    &&& n is None
                },
            },
    {
        self.wifi_scan_pending = false;
        match outcome {
            TaskOutcome::Success => {
                self.last_action = Option::Some(String::from_str("Wi-Fi scan completed"));
                self.set_toast(
                    ToastKind::Success,
                    String::from_str("Wi-Fi scan completed"),
                    now_ms,
                );
                Option::Some(
                    Notification {
                        title: String::from_str("Wi-Fi"),
                        body: String::from_str("Scan completed"),
                    },
                )
            },
            TaskOutcome::Failure(e) => {
                let m = friendly_wifi_error("scan", e.as_str());
                self.set_toast(ToastKind::Error, m, now_ms);
                Option::None
            },
            TaskOutcome::JoinFailure(e) => {
                let m = String::from_str("scan task failed: ").concat(e.as_str());
                proof {
                    assert(m@ =~= "scan task failed: "@ + e@);
                }
                self.set_toast(ToastKind::Error, m, now_ms);
                Option::None
            },
        }
    }

    /// Record the outcome of the outstanding connect or disconnect task,
    /// consuming its context and freeing its slot. Success reports what the
    /// context says was done. A failure that names the missing credential
    /// agent, on a first connect attempt that supplied no passphrase,
    /// opens the passphrase prompt instead of an error; any other failure
    /// raises the rewritten error toast, and a task that could not be
    /// joined is reported distinctly.
    pub fn on_connect_task_done(&mut self, outcome: TaskOutcome, now_ms: u64) -> (n: Option<
        Notification,
    >)
        requires
            old(self).wf(),
            old(self).wifi_connect_pending,
            now_ms <= u64::MAX - TOAST_DURATION_MS,
        ensures
            final(self).wf(),
            !final(self).wifi_connect_pending,
            final(self).wifi_connect_context is None,
            match (old(self).wifi_connect_context, outcome) {
                (Option::Some(c), TaskOutcome::Success) => {
                    &&& *final(self) == (App {
                        wifi_connect_pending: false,
                        wifi_connect_context: Option::None,
                        last_action: final(self).last_action,
                        toast: final(self).toast,
                        ..*old(self)
                    })
                    &&& opt_string_is(
                        final(self).last_action,
                        if c.disconnect {
                            "Disconnected Wi-Fi"@
                        } else {
                            spec_msg_connected(c.ssid@)
                        },
                    )
                    &&& toast_shows(
                        final(self).toast,
                        ToastKind::Success,
                        if c.disconnect {
                            spec_msg_disconnected(c.ssid@)
                        } else {
                            spec_msg_connected(c.ssid@)
                        },
                        now_ms,
                    )
                    &&& notif_is(
                        n,
                        "Wi-Fi"@,
                        if c.disconnect {
                            spec_msg_disconnected(c.ssid@)
                        } else {
                            spec_msg_connected(c.ssid@)
                        },
                    )
                },
                (Option::Some(c), TaskOutcome::Failure(e)) => {
                    &&& (ci_contains(e@, "no agent registered"@) && !c.disconnect
                        && !c.used_passphrase ==> {
                        &&& *final(self) == (App {
                            wifi_connect_pending: false,
                            wifi_connect_context: Option::None,
                            wifi_passphrase_prompt_ssid: final(self).wifi_passphrase_prompt_ssid,
                            wifi_passphrase_input: final(self).wifi_passphrase_input,
                            toast: final(self).toast,
                            ..*old(self)
                        })
                        &&& opt_string_is(final(self).wifi_passphrase_prompt_ssid, c.ssid@)
                        &&& final(self).wifi_passphrase_input@.len() == 0
                        &&& toast_shows(
                            final(self).toast,
                            ToastKind::Info,
                            spec_msg_passphrase_required(c.ssid@),
                            now_ms,
                        )
                        &&& n is None
                    })
                    &&& (!(ci_contains(e@, "no agent registered"@) && !c.disconnect
                        && !c.used_passphrase) ==> {
                        &&& *final(self) == (App {
                            wifi_connect_pending: false,
                            wifi_connect_context: Option::None,
                            toast: final(self).toast,
                            ..*old(self)
                        })
                        &&& toast_shows(
                            final(self).toast,
                            ToastKind::Error,
                            spec_friendly_wifi_error("connect/disconnect"@, e@),
                            now_ms,
                        )
                        &&& n is None
                    })
                },
                (Option::Some(c), TaskOutcome::JoinFailure(e)) => {
                    &&& *final(self) == (App {
                        wifi_connect_pending: false,
                        wifi_connect_context: Option::None,
                        toast: final(self).toast,
                        ..*old(self)
                    })
                    &&& toast_shows(
                        final(self).toast,
                        ToastKind::Error,
                        "connect task failed: "@ + e@,
                        now_ms,
                    )
                    &&& n is None
                },
                (Option::None, _) => true,
            },
    {
        let ctx_ssid: String;
        let ctx_disconnect: bool;
        let ctx_used: bool;
        match &self.wifi_connect_context {
            Option::Some(c) => {
                ctx_ssid = c.ssid.clone();
                ctx_disconnect = c.disconnect;
                ctx_used = c.used_passphrase;
            },
            Option::None => {
                proof {
                    assert(false);
                }
                ctx_ssid = String::new();
                ctx_disconnect = false;
                ctx_used = false;
            },
        }
        self.wifi_connect_pending = false;
        self.wifi_connect_context = Option::None;
        match outcome {
            TaskOutcome::Success => {
                if ctx_disconnect {
                    self.last_action = Option::Some(String::from_str("Disconnected Wi-Fi"));
                    let m = String::from_str("Disconnected from ").concat(ctx_ssid.as_str());
                    proof {
                        assert(m@ =~= spec_msg_disconnected(ctx_ssid@));
                    }
                    self.set_toast(ToastKind::Success, m.clone(), now_ms);
                    Option::Some(Notification { title: String::from_str("Wi-Fi"), body: m })
                } else {
                    let m = String::from_str("Connected to ").concat(ctx_ssid.as_str());
                    proof {
                        assert(m@ =~= spec_msg_connected(ctx_ssid@));
                    }
                    self.last_action = Option::Some(m.clone());
                    self.set_toast(ToastKind::Success, m.clone(), now_ms);
                    Option::Some(Notification { title: String::from_str("Wi-Fi"), body: m })
                }
            },
            TaskOutcome::Failure(e) => {
                let no_agent = is_no_agent_error(e.as_str());
                if no_agent && !ctx_disconnect && !ctx_used {
                    self.open_wifi_passphrase_prompt(ctx_ssid.clone());
                    let m = String::from_str("Passphrase required for ").concat(ctx_ssid.as_str());
                    proof {
                        assert(m@ =~= spec_msg_passphrase_required(ctx_ssid@));
                    }
                    self.set_toast(ToastKind::Info, m, now_ms);
                    Option::None
                } else {
                    let m = friendly_wifi_error("connect/disconnect", e.as_str());
                    self.set_toast(ToastKind::Error, m, now_ms);
                    Option::None
                }
            },
            TaskOutcome::JoinFailure(e) => {
                let m = String::from_str("connect task failed: ").concat(e.as_str());
                proof {
                    assert(m@ =~= "connect task failed: "@ + e@);
                }
                self.set_toast(ToastKind::Error, m, now_ms);
                Option::None
            },
        }
    }

    /// Resolve a forget request: it applies only in the known-networks
    /// view and only to a selected entry; otherwise a toast explains and
    /// nothing is handed back.
    pub fn wifi_forget_selected(&mut self, now_ms: u64) -> (r: Option<String>)
        requires
            old(self).wf(),
            now_ms <= u64::MAX - TOAST_DURATION_MS,
        ensures
            final(self).wf(),
            !(old(self).wifi_focus is KnownNetworks) ==> r is None && *final(self) == (App {
                toast: final(self).toast,
                ..*old(self)
            }) && toast_shows(
                final(self).toast,
                ToastKind::Info,
                "Forget is available in Known Networks"@,
                now_ms,
            ),
            old(self).wifi_focus is KnownNetworks && old(self).spec_selected_known() is None
                ==> r is None && *final(self) == (App { toast: final(self).toast, ..*old(self) })
                && toast_shows(
                final(self).toast,
                ToastKind::Error,
                "No known network selected"@,
                now_ms,
            ),
            old(self).wifi_focus is KnownNetworks ==> match old(self).spec_selected_known() {
                Option::Some(net) => *final(self) == *old(self) && match r {
                    Option::Some(s) => s@ == net.ssid@,
                    Option::None => false,
                },
                Option::None => true,
            },
    {
        let focus_known = match self.wifi_focus {
            WifiFocus::KnownNetworks => true,
            _ => false,
        };
        if !focus_known {
            self.set_toast(
                ToastKind::Info,
                String::from_str("Forget is available in Known Networks"),
                now_ms,
            );
            return Option::None;
        }
        let ssid = match self.selected_known_network() {
            Option::Some(n) => Option::Some(n.ssid.clone()),
            Option::None => Option::None,
        };
        match ssid {
            Option::Some(s) => Option::Some(s),
            Option::None => {
                self.set_toast(
                    ToastKind::Error,
                    String::from_str("No known network selected"),
                    now_ms,
                );
                Option::None
            },
        }
    }

    /// Record the outcome of a forget request: success reports it with a
    /// notification, failure raises the rewritten error toast.
    pub fn forget_finished(&mut self, ssid: &str, result: Result<(), String>, now_ms: u64) -> (n:
        Option<Notification>)
        requires
            old(self).wf(),
            now_ms <= u64::MAX - TOAST_DURATION_MS,
        ensures
            final(self).wf(),
            match result {
                Result::Ok(u) => {
                    &&& *final(self) == (App {
                        last_action: final(self).last_action,
                        toast: final(self).toast,
                        ..*old(self)
                    })
                    &&& opt_string_is(final(self).last_action, spec_msg_forgot(ssid@))
                    &&& toast_shows(
                        final(self).toast,
                        ToastKind::Success,
                        spec_msg_forgot(ssid@),
                        now_ms,
                    )
                    &&& notif_is(n, "Wi-Fi"@, spec_msg_forgot(ssid@))
                },
                Result::Err(e) => {
                    &&& *final(self) == (App { toast: final(self).toast, ..*old(self) })
                    &&& toast_shows(
                        final(self).toast,
                        ToastKind::Error,
                        spec_friendly_wifi_error("forget known network"@, e@),
                        now_ms,
                    )
                    &&& n is None
                },
            },
    {
        match result {
            Result::Ok(_) => {
                let m = String::from_str("Forgot network ").concat(ssid);
                proof {
                    assert(m@ =~= spec_msg_forgot(ssid@));
                }
                self.last_action = Option::Some(m.clone());
                self.set_toast(ToastKind::Success, m.clone(), now_ms);
                Option::Some(Notification { title: String::from_str("Wi-Fi"), body: m })
            },
            Result::Err(e) => {
                let m = friendly_wifi_error("forget known network", e.as_str());
                self.set_toast(ToastKind::Error, m, now_ms);
                Option::None
            },
        }
    }

    /// Resolve an autoconnect toggle: it applies only in the known-networks
    /// view and only to a selected entry.
    pub fn wifi_toggle_autoconnect_selected(&mut self, now_ms: u64) -> (r: Option<String>)
        requires
            old(self).wf(),
            now_ms <= u64::MAX - TOAST_DURATION_MS,
        ensures
            final(self).wf(),
            !(old(self).wifi_focus is KnownNetworks) ==> r is None && *final(self) == (App {
                toast: final(self).toast,
                ..*old(self)
            }) && toast_shows(
                final(self).toast,
                ToastKind::Info,
                "Autoconnect toggle is available in Known Networks"@,
                now_ms,
            ),
            old(self).wifi_focus is KnownNetworks && old(self).spec_selected_known() is None
                ==> r is None && *final(self) == (App { toast: final(self).toast, ..*old(self) })
                && toast_shows(
                final(self).toast,
                ToastKind::Error,
                "No known network selected"@,
                now_ms,
            ),
            old(self).wifi_focus is KnownNetworks ==> match old(self).spec_selected_known() {
                Option::Some(net) => *final(self) == *old(self) && match r {
                    Option::Some(s) => s@ == net.ssid@,
                    Option::None => false,
                },
                Option::None => true,
            },
    {
        let focus_known = match self.wifi_focus {
            WifiFocus::KnownNetworks => true,
            _ => false,
        };
        if !focus_known {
            self.set_toast(
                ToastKind::Info,
                String::from_str("Autoconnect toggle is available in Known Networks"),
                now_ms,
            );
            return Option::None;
        }
        let ssid = match self.selected_known_network() {
            Option::Some(n) => Option::Some(n.ssid.clone()),
            Option::None => Option::None,
        };
        match ssid {
            Option::Some(s) => Option::Some(s),
            Option::None => {
                self.set_toast(
                    ToastKind::Error,
                    String::from_str("No known network selected"),
                    now_ms,
                );
                Option::None
            },
        }
    }

    /// Record the outcome of an autoconnect toggle: success reports the new
    /// state with a notification, failure raises the rewritten error toast.
    pub fn autoconnect_finished(
        &mut self,
        ssid: &str,
        result: Result<bool, String>,
        now_ms: u64,
    ) -> (n: Option<Notification>)
        requires
            old(self).wf(),
            now_ms <= u64::MAX - TOAST_DURATION_MS,
        ensures
            final(self).wf(),
            match result {
                Result::Ok(enabled) => {
                    &&& *final(self) == (App {
                        last_action: final(self).last_action,
                        toast: final(self).toast,
                        ..*old(self)
                    })
                    &&& opt_string_is(
                        final(self).last_action,
                        spec_msg_autoconnect(enabled, ssid@),
                    )
                    &&& toast_shows(
                        final(self).toast,
                        ToastKind::Success,
                        spec_msg_autoconnect(enabled, ssid@),
                        now_ms,
                    )
                    &&& notif_is(n, "Wi-Fi"@, spec_msg_autoconnect_notify(enabled, ssid@))
                },
                Result::Err(e) => {
                    &&& *final(self) == (App { toast: final(self).toast, ..*old(self) })
                    &&& toast_shows(
                        final(self).toast,
                        ToastKind::Error,
                        spec_friendly_wifi_error("toggle autoconnect"@, e@),
                        now_ms,
                    )
                    &&& n is None
                },
            },
    {
        match result {
            Result::Ok(enabled) => {
                let state: &'static str = if enabled {
                    "enabled"
                } else {
                    "disabled"
                };
                let m = String::from_str("Autoconnect ").concat(state).concat(" for ").concat(
                    ssid,
                );
                proof {
                    assert(m@ =~= spec_msg_autoconnect(enabled, ssid@));
                }
                self.last_action = Option::Some(m.clone());
                self.set_toast(ToastKind::Success, m.clone(), now_ms);
                let body = String::from_str("Autoconnect ").concat(state).concat(": ").concat(
                    ssid,
                );
                proof {
                    assert(body@ =~= spec_msg_autoconnect_notify(enabled, ssid@));
                }
                Option::Some(Notification { title: String::from_str("Wi-Fi"), body })
            },
            Result::Err(e) => {
                let m = friendly_wifi_error("toggle autoconnect", e.as_str());
                self.set_toast(ToastKind::Error, m, now_ms);
                Option::None
            },
        }
    }

    /// Resolve a DHCP renewal request: the selected interface's name is
    /// handed back; without a selection the sticky error is raised instead,
    /// as the driving loop did for a failed renewal.
    pub fn ethernet_renew_dhcp(&mut self) -> (r: Option<String>)
        requires
            old(self).wf(),
        ensures
            final(self).wf(),
            old(self).spec_selected_eth() is None ==> r is None && *final(self) == (App {
                last_error: final(self).last_error,
                ..*old(self)
            }) && opt_string_is(final(self).last_error, "no ethernet interface selected"@),
            match old(self).spec_selected_eth() {
                Option::Some(i) => *final(self) == *old(self) && match r {
                    Option::Some(s) => s@ == i.name@,
                    Option::None => false,
                },
                Option::None => true,
            },
    {
        let name = match self.selected_eth_iface() {
            Option::Some(i) => Option::Some(i.name.clone()),
            Option::None => Option::None,
        };
        match name {
            Option::Some(n) => Option::Some(n),
            Option::None => {
                self.last_error = Option::Some(String::from_str("no ethernet interface selected"));
                Option::None
            },
        }
    }

    /// Record a finished DHCP renewal: the toast reports what was run,
    /// whether it was elevated, what it printed, and the interface summary
    /// before and after, noting when nothing visibly changed.
    pub fn ethernet_renew_finished(
        &mut self,
        iface: &str,
        out: &CommandResult,
        before: &str,
        after: &str,
        now_ms: u64,
    ) -> (n: Notification)
        requires
            old(self).wf(),
            now_ms <= u64::MAX - TOAST_DURATION_MS,
        ensures
            final(self).wf(),
            *final(self) == (App {
                last_action: final(self).last_action,
                toast: final(self).toast,
                ..*old(self)
            }),
            opt_string_is(final(self).last_action, "Renewed DHCP on "@ + iface@),
            toast_shows(
                final(self).toast,
                ToastKind::Success,
                spec_renew_msg(iface@, out.used_sudo, out.stdout@, out.stderr@, before@, after@),
                now_ms,
            ),
            n.title@ == "Ethernet"@,
            n.body@ == "DHCP renew requested on "@ + iface@,
    {
        let mut msg = String::from_str(iface);
        msg.append(": DHCP renew requested");
        if out.used_sudo {
            msg.append(" (elevated)");
        }
        if !out.stdout.as_str().is_empty() {
            msg.append("\nstdout: ");
            msg.append(out.stdout.as_str());
        }
        if !out.stderr.as_str().is_empty() {
            msg.append("\nstderr: ");
            msg.append(out.stderr.as_str());
        }
        if str_eq(before, after) {
            msg.append("\nNo visible change detected.");
        }
        msg.append("\nBefore: ");
        msg.append(before);
        msg.append("\nAfter:  ");
        msg.append(after);
        proof {
            assert(msg@ =~= spec_renew_msg(
                iface@,
                out.used_sudo,
                out.stdout@,
                out.stderr@,
                before@,
                after@,
            ));
        }
        let act = String::from_str("Renewed DHCP on ").concat(iface);
        proof {
            assert(act@ =~= "Renewed DHCP on "@ + iface@);
        }
        self.last_action = Option::Some(act);
        self.set_toast(ToastKind::Success, msg, now_ms);
        let body = String::from_str("DHCP renew requested on ").concat(iface);
        proof {
            assert(body@ =~= "DHCP renew requested on "@ + iface@);
        }
        Notification { title: String::from_str("Ethernet"), body }
    }

    /// Resolve a link toggle: the selected interface's name and the state
    /// to force it into — down when it reports up or carrier, up otherwise.
    /// Without a selection the sticky error is raised instead.
    pub fn ethernet_toggle_link(&mut self) -> (r: Option<LinkRequest>)
        requires
            old(self).wf(),
        ensures
            final(self).wf(),
            old(self).spec_selected_eth() is None ==> r is None && *final(self) == (App {
                last_error: final(self).last_error,
                ..*old(self)
            }) && opt_string_is(final(self).last_error, "no ethernet interface selected"@),
            match old(self).spec_selected_eth() {
                Option::Some(i) => *final(self) == *old(self) && match r {
                    Option::Some(req) => req.iface@ == i.name@ && req.up == !(i.operstate@ == "up"@
                        || i.carrier == Option::Some(true)),
                    Option::None => false,
                },
                Option::None => true,
            },
    {
        let target = match self.selected_eth_iface() {
            Option::Some(i) => {
                let carrier_up = match i.carrier {
                    Option::Some(true) => true,
                    _ => false,
                };
                let up = !(str_eq(i.operstate.as_str(), "up") || carrier_up);
                Option::Some(LinkRequest { iface: i.name.clone(), up })
            },
            Option::None => Option::None,
        };
        match target {
            Option::Some(req) => Option::Some(req),
            Option::None => {
                self.last_error = Option::Some(String::from_str("no ethernet interface selected"));
                Option::None
            },
        }
    }

    /// Record a finished link command: the toast reports the state the link
    /// was set to, whether the command was elevated, and anything it
    /// printed on standard error.
    pub fn ethernet_link_finished(
        &mut self,
        iface: &str,
        up: bool,
        out: &CommandResult,
        now_ms: u64,
    ) -> (n: Notification)
        requires
            old(self).wf(),
            now_ms <= u64::MAX - TOAST_DURATION_MS,
        ensures
            final(self).wf(),
            *final(self) == (App {
                last_action: final(self).last_action,
                toast: final(self).toast,
                ..*old(self)
            }),
            opt_string_is(
                final(self).last_action,
                iface@ + " link "@ + (if up {
                    "up"@
                } else {
                    "down"@
                }),
            ),
            toast_shows(
                final(self).toast,
                ToastKind::Success,
                spec_link_msg(iface@, up, out.used_sudo, out.stderr@),
                now_ms,
            ),
            n.title@ == "Ethernet"@,
            n.body@ == iface@ + " link "@ + (if up {
                "up"@
            } else {
                "down"@
            }),
    {
        let word: &'static str = if up {
            "up"
        } else {
            "down"
        };
        let mut msg = String::from_str(iface);
        msg.append(": link set ");
        msg.append(word);
        if out.used_sudo {
            msg.append(" (elevated)");
        }
        if !out.stderr.as_str().is_empty() {
            msg.append("\nstderr: ");
            msg.append(out.stderr.as_str());
        }
        proof {
            assert(msg@ =~= spec_link_msg(iface@, up, out.used_sudo, out.stderr@));
        }
        let act = String::from_str(iface).concat(" link ").concat(word);
        proof {
            assert(act@ =~= iface@ + " link "@ + (if up {
                "up"@
            } else {
                "down"@
            }));
        }
        self.last_action = Option::Some(act.clone());
        self.set_toast(ToastKind::Success, msg, now_ms);
        Notification { title: String::from_str("Ethernet"), body: act }
    }

    fn restore_known_cursor(&mut self, ssid: Option<String>)
        requires
            old(self).wifi.known_networks@.len()
                + old(self).wifi.unavailable_known_networks@.len() <= usize::MAX,
        ensures
            *final(self) == (App {
                wifi_known_state: final(self).wifi_known_state,
                ..*old(self)
            }),
            sel_ok(final(self).wifi_known_state.selected, old(self).spec_known_total_len()),
            match ssid {
                Option::Some(s) => {
                    &&& (ssid_in(old(self).wifi.known_networks@, s@)
                        ==> match final(self).wifi_known_state.selected {
                        Option::Some(k) => is_first_ssid_index(
                            old(self).wifi.known_networks@,
                            s@,
                            k as int,
                        ),
                        Option::None => false,
                    })
                    &&& (!ssid_in(old(self).wifi.known_networks@, s@)
                        && old(self).show_unavailable_known_networks
                        && ssid_in(old(self).wifi.unavailable_known_networks@, s@)
                        ==> match final(self).wifi_known_state.selected {
                        Option::Some(k) => k >= old(self).wifi.known_networks@.len()
                            && is_first_ssid_index(
                            old(self).wifi.unavailable_known_networks@,
                            s@,
                            k - old(self).wifi.known_networks@.len(),
                        ),
                        Option::None => false,
                    })
                    &&& (!ssid_in(old(self).wifi.known_networks@, s@) && !(old(
                        self,
                    ).show_unavailable_known_networks && ssid_in(
                        old(self).wifi.unavailable_known_networks@,
                        s@,
                    )) ==> final(self).wifi_known_state.selected == spec_first_row(
                        old(self).spec_known_total_len(),
                    ))
                },
                Option::None => final(self).wifi_known_state.selected == spec_first_row(
                    old(self).spec_known_total_len(),
                ),
            },
            match ssid {
                Option::Some(s) => ssid_in(old(self).spec_displayed_known(), s@)
                    ==> match final(self).wifi_known_state.selected {
                    Option::Some(k) => k < old(self).spec_displayed_known().len() && old(
                        self,
                    ).spec_displayed_known()[k as int].ssid@ == s@,
                    Option::None => false,
                },
                Option::None => true,
            },
    {
        match &ssid {
            Option::Some(s) => {
                match position_of_ssid(&self.wifi.known_networks, s) {
                    Option::Some(i) => {
                        self.wifi_known_state.selected = Option::Some(i);
                    },
                    Option::None => {
                        let mut placed = false;
                        if self.show_unavailable_known_networks {
                            match position_of_ssid(&self.wifi.unavailable_known_networks, s) {
                                Option::Some(i) => {
                                    self.wifi_known_state.selected = Option::Some(
                                        self.wifi.known_networks.len() + i,
                                    );
                                    placed = true;
                                },
                                Option::None => {},
                            }
                        }
                        if !placed {
                            proof {
                                if self.show_unavailable_known_networks {
                                    lemma_concat_contains(
                                        self.wifi.known_networks@,
                                        self.wifi.unavailable_known_networks@,
                                        s@,
                                    );
                                }
                            }
                            let len = self.known_total_len();
                            self.wifi_known_state.selected = if len > 0 {
                                Option::Some(0)
                            } else {
                                Option::None
                            };
                        }
                    },
                }
            },
            Option::None => {
                let len = self.known_total_len();
                self.wifi_known_state.selected = if len > 0 {
                    Option::Some(0)
                } else {
                    Option::None
                };
            },
        }
    }

    fn restore_new_cursor(&mut self, ssid: Option<String>)
        requires
            old(self).wifi.new_networks@.len() + old(self).wifi.hidden_networks@.len()
                <= usize::MAX,
        ensures
            *final(self) == (App {
                wifi_new_state: final(self).wifi_new_state,
                ..*old(self)
            }),
            sel_ok(final(self).wifi_new_state.selected, old(self).spec_new_total_len()),
            match ssid {
                Option::Some(s) => {
                    &&& (ssid_in(old(self).wifi.new_networks@, s@)
                        ==> match final(self).wifi_new_state.selected {
                        Option::Some(k) => is_first_ssid_index(
                            old(self).wifi.new_networks@,
                            s@,
                            k as int,
                        ),
                        Option::None => false,
                    })
                    &&& (!ssid_in(old(self).wifi.new_networks@, s@) && old(
                        self,
                    ).show_hidden_networks && ssid_in(old(self).wifi.hidden_networks@, s@)
                        ==> match final(self).wifi_new_state.selected {
                        Option::Some(k) => k >= old(self).wifi.new_networks@.len()
                            && is_first_ssid_index(
                            old(self).wifi.hidden_networks@,
                            s@,
                            k - old(self).wifi.new_networks@.len(),
                        ),
                        Option::None => false,
                    })
                    &&& (!ssid_in(old(self).wifi.new_networks@, s@) && !(old(
                        self,
                    ).show_hidden_networks && ssid_in(old(self).wifi.hidden_networks@, s@))
                        ==> final(self).wifi_new_state.selected == spec_first_row(
                        old(self).spec_new_total_len(),
                    ))
                },
                Option::None => final(self).wifi_new_state.selected == spec_first_row(
                    old(self).spec_new_total_len(),
                ),
            },
            match ssid {
                Option::Some(s) => ssid_in(old(self).spec_displayed_new(), s@)
                    ==> match final(self).wifi_new_state.selected {
                    Option::Some(k) => k < old(self).spec_displayed_new().len() && old(
                        self,
                    ).spec_displayed_new()[k as int].ssid@ == s@,
                    Option::None => false,
                },
                Option::None => true,
            },
    {
        match &ssid {
            Option::Some(s) => {
                match position_of_ssid(&self.wifi.new_networks, s) {
                    Option::Some(i) => {
                        self.wifi_new_state.selected = Option::Some(i);
                    },
                    Option::None => {
                        let mut placed = false;
                        if self.show_hidden_networks {
                            match position_of_ssid(&self.wifi.hidden_networks, s) {
                                Option::Some(i) => {
                                    self.wifi_new_state.selected = Option::Some(
                                        self.wifi.new_networks.len() + i,
                                    );
                                    placed = true;
                                },
                                Option::None => {},
                            }
                        }
                        if !placed {
                            proof {
                                if self.show_hidden_networks {
                                    lemma_concat_contains(
                                        self.wifi.new_networks@,
                                        self.wifi.hidden_networks@,
                                        s@,
                                    );
                                }
                            }
                            let len = self.new_total_len();
                            self.wifi_new_state.selected = if len > 0 {
                                Option::Some(0)
                            } else {
                                Option::None
                            };
                        }
                    },
                }
            },
            Option::None => {
                let len = self.new_total_len();
                self.wifi_new_state.selected = if len > 0 {
                    Option::Some(0)
                } else {
                    Option::None
                };
            },
        }
    }

    /// Re-point the wireless cursors after the snapshot was replaced. The
    /// previously selected identities are given; an identity found again in
    /// its list (or, while shown, in its secondary list) keeps the cursor on
    /// it, and an identity that disappeared falls back to the first row of
    /// whatever is displayed, never to a stale index.
    pub fn restore_wifi_selection(
        &mut self,
        known_ssid: Option<String>,
        new_ssid: Option<String>,
    )
        requires
            old(self).wifi.known_networks@.len()
                + old(self).wifi.unavailable_known_networks@.len() <= usize::MAX,
            old(self).wifi.new_networks@.len() + old(self).wifi.hidden_networks@.len()
                <= usize::MAX,
            old(self).wifi_adapter_state.selected is None || old(self).wifi_adapter_state.selected
                == Option::Some(0usize),
        ensures
            *final(self) == (App {
                wifi_known_state: final(self).wifi_known_state,
                wifi_new_state: final(self).wifi_new_state,
                wifi_adapter_state: final(self).wifi_adapter_state,
                ..*old(self)
            }),
            sel_ok(final(self).wifi_known_state.selected, old(self).spec_known_total_len()),
            sel_ok(final(self).wifi_new_state.selected, old(self).spec_new_total_len()),
            final(self).wifi_adapter_state.selected == (
            if old(self).spec_device_total_len() > 0 {
                Option::Some(0usize)
            } else {
                Option::<usize>::None
            }),
            match known_ssid {
                Option::Some(s) => {
                    &&& (ssid_in(old(self).wifi.known_networks@, s@)
                        ==> match final(self).wifi_known_state.selected {
                        Option::Some(k) => is_first_ssid_index(
                            old(self).wifi.known_networks@,
                            s@,
                            k as int,
                        ),
                        Option::None => false,
                    })
                    &&& (!ssid_in(old(self).wifi.known_networks@, s@)
                        && old(self).show_unavailable_known_networks
                        && ssid_in(old(self).wifi.unavailable_known_networks@, s@)
                        ==> match final(self).wifi_known_state.selected {
                        Option::Some(k) => k >= old(self).wifi.known_networks@.len()
                            && is_first_ssid_index(
                            old(self).wifi.unavailable_known_networks@,
                            s@,
                            k - old(self).wifi.known_networks@.len(),
                        ),
                        Option::None => false,
                    })
                    &&& (!ssid_in(old(self).wifi.known_networks@, s@) && !(old(
                        self,
                    ).show_unavailable_known_networks && ssid_in(
                        old(self).wifi.unavailable_known_networks@,
                        s@,
                    )) ==> final(self).wifi_known_state.selected == spec_first_row(
                        old(self).spec_known_total_len(),
                    ))
                },
                Option::None => final(self).wifi_known_state.selected == spec_first_row(
                    old(self).spec_known_total_len(),
                ),
            },
            match known_ssid {
                Option::Some(s) => ssid_in(old(self).spec_displayed_known(), s@)
                    ==> match final(self).wifi_known_state.selected {
                    Option::Some(k) => k < old(self).spec_displayed_known().len() && old(
                        self,
                    ).spec_displayed_known()[k as int].ssid@ == s@,
                    Option::None => false,
                },
                Option::None => true,
            },
            match new_ssid {
                Option::Some(s) => {
                    &&& (ssid_in(old(self).wifi.new_networks@, s@)
                        ==> match final(self).wifi_new_state.selected {
                        Option::Some(k) => is_first_ssid_index(
                            old(self).wifi.new_networks@,
                            s@,
                            k as int,
                        ),
                        Option::None => false,
                    })
                    &&& (!ssid_in(old(self).wifi.new_networks@, s@) && old(
                        self,
                    ).show_hidden_networks && ssid_in(old(self).wifi.hidden_networks@, s@)
                        ==> match final(self).wifi_new_state.selected {
                        Option::Some(k) => k >= old(self).wifi.new_networks@.len()
                            && is_first_ssid_index(
                            old(self).wifi.hidden_networks@,
                            s@,
                            k - old(self).wifi.new_networks@.len(),
                        ),
                        Option::None => false,
                    })
                    &&& (!ssid_in(old(self).wifi.new_networks@, s@) && !(old(
                        self,
                    ).show_hidden_networks && ssid_in(old(self).wifi.hidden_networks@, s@))
                        ==> final(self).wifi_new_state.selected == spec_first_row(
                        old(self).spec_new_total_len(),
                    ))
                },
                Option::None => final(self).wifi_new_state.selected == spec_first_row(
                    old(self).spec_new_total_len(),
                ),
            },
            match new_ssid {
                Option::Some(s) => ssid_in(old(self).spec_displayed_new(), s@)
                    ==> match final(self).wifi_new_state.selected {
                    Option::Some(k) => k < old(self).spec_displayed_new().len() && old(
                        self,
                    ).spec_displayed_new()[k as int].ssid@ == s@,
                    Option::None => false,
                },
                Option::None => true,
            },
    {
        self.restore_known_cursor(known_ssid);
        self.restore_new_cursor(new_ssid);
        let device_len = self.device_total_len();
        select_first_if_any(&mut self.wifi_adapter_state, device_len);
    }

    /// Re-point the wired cursor after the snapshot was replaced, following
    /// the interface name under the same rule as the wireless lists.
    pub fn restore_ethernet_selection(&mut self, selected_iface: Option<String>)
        ensures
            *final(self) == (App { ethernet_state: final(self).ethernet_state, ..*old(self) }),
            sel_ok(final(self).ethernet_state.selected, old(self).ethernet.ifaces@.len() as int),
            match selected_iface {
                Option::Some(s) => {
                    &&& (name_in(old(self).ethernet.ifaces@, s@)
                        ==> match final(self).ethernet_state.selected {
                        Option::Some(k) => is_first_name_index(
                            old(self).ethernet.ifaces@,
                            s@,
                            k as int,
                        ),
                        Option::None => false,
                    })
                    &&& (!name_in(old(self).ethernet.ifaces@, s@)
                        ==> final(self).ethernet_state.selected == spec_first_row(
                        old(self).ethernet.ifaces@.len() as int,
                    ))
                },
                Option::None => final(self).ethernet_state.selected == spec_first_row(
                    old(self).ethernet.ifaces@.len() as int,
                ),
            },
    {
        match &selected_iface {
            Option::Some(name) => {
                match crate::ethernet::position_of_iface(&self.ethernet.ifaces, name) {
                    Option::Some(i) => {
                        self.ethernet_state.selected = Option::Some(i);
                    },
                    Option::None => {
                        let len = self.ethernet.ifaces.len();
                        self.ethernet_state.selected = if len > 0 {
                            Option::Some(0)
                        } else {
                            Option::None
                        };
                    },
                }
            },
            Option::None => {
                let len = self.ethernet.ifaces.len();
                self.ethernet_state.selected = if len > 0 {
                    Option::Some(0)
                } else {
                    Option::None
                };
            },
        }
    }

    /// Take a freshly polled wireless snapshot: capture the selected
    /// identities, replace the snapshot wholesale, and recompute every
    /// wireless cursor from the identities rather than the raw indices.
    pub fn apply_wifi_snapshot(&mut self, wifi: WifiState, details: Option<EthernetIface>)
        requires
            old(self).wf(),
            wifi.known_networks@.len() + wifi.unavailable_known_networks@.len() <= usize::MAX,
            wifi.new_networks@.len() + wifi.hidden_networks@.len() <= usize::MAX,
        ensures
            final(self).wf(),
            *final(self) == (App {
                wifi: final(self).wifi,
                wifi_iface_details: final(self).wifi_iface_details,
                wifi_known_state: final(self).wifi_known_state,
                wifi_new_state: final(self).wifi_new_state,
                wifi_adapter_state: final(self).wifi_adapter_state,
                ..*old(self)
            }),
            final(self).wifi == wifi,
            final(self).wifi_iface_details == details,
            match old(self).spec_selected_known() {
                Option::Some(n) => {
                    &&& (ssid_in(final(self).spec_displayed_known(), n.ssid@)
                        ==> match final(self).wifi_known_state.selected {
                        Option::Some(k) => k < final(self).spec_displayed_known().len()
                            && final(self).spec_displayed_known()[k as int].ssid@ == n.ssid@,
                        Option::None => false,
                    })
                    &&& (!ssid_in(final(self).spec_displayed_known(), n.ssid@)
                        ==> final(self).wifi_known_state.selected == spec_first_row(
                        final(self).spec_known_total_len(),
                    ))
                },
                Option::None => final(self).wifi_known_state.selected == spec_first_row(
                    final(self).spec_known_total_len(),
                ),
            },
            match old(self).spec_selected_new() {
                Option::Some(n) => {
                    &&& (ssid_in(final(self).spec_displayed_new(), n.ssid@)
                        ==> match final(self).wifi_new_state.selected {
                        Option::Some(k) => k < final(self).spec_displayed_new().len()
                            && final(self).spec_displayed_new()[k as int].ssid@ == n.ssid@,
                        Option::None => false,
                    })
                    &&& (!ssid_in(final(self).spec_displayed_new(), n.ssid@)
                        ==> final(self).wifi_new_state.selected == spec_first_row(
                        final(self).spec_new_total_len(),
                    ))
                },
                Option::None => final(self).wifi_new_state.selected == spec_first_row(
                    final(self).spec_new_total_len(),
                ),
            },
            final(self).wifi_adapter_state.selected == (if wifi.device is Some {
                Option::Some(0usize)
            } else {
                Option::<usize>::None
            }),
    {
        let known_ssid = self.selected_known_ssid();
        let new_ssid = self.selected_new_ssid();
        let ghost captured_known = known_ssid;
        let ghost captured_new = new_ssid;
        self.wifi = wifi;
        self.restore_wifi_selection(known_ssid, new_ssid);
        self.wifi_iface_details = details;
        proof {
            match captured_known {
                Option::Some(s) => lemma_concat_contains(
                    self.wifi.known_networks@,
                    self.wifi.unavailable_known_networks@,
                    s@,
                ),
                Option::None => {},
            }
            match captured_new {
                Option::Some(s) => lemma_concat_contains(
                    self.wifi.new_networks@,
                    self.wifi.hidden_networks@,
                    s@,
                ),
                Option::None => {},
            }
        }
    }

    /// Take a freshly polled wired snapshot: capture the selected interface
    /// name, replace the list, and recompute the cursor from the name.
    pub fn apply_ethernet_snapshot(&mut self, ifaces: Vec<EthernetIface>)
        requires
            old(self).wf(),
        ensures
            final(self).wf(),
            *final(self) == (App {
                ethernet: final(self).ethernet,
                ethernet_state: final(self).ethernet_state,
                ..*old(self)
            }),
            final(self).ethernet.ifaces == ifaces,
            match old(self).spec_selected_eth() {
                Option::Some(i) => {
                    &&& (name_in(ifaces@, i.name@) ==> match final(self).ethernet_state.selected {
                        Option::Some(k) => is_first_name_index(ifaces@, i.name@, k as int),
                        Option::None => false,
                    })
                    &&& (!name_in(ifaces@, i.name@) ==> final(self).ethernet_state.selected
                        == spec_first_row(ifaces@.len() as int))
                },
                Option::None => final(self).ethernet_state.selected == spec_first_row(
                    ifaces@.len() as int,
                ),
            },
    {
        let selected = match self.selected_eth_iface() {
            Option::Some(i) => Option::Some(i.name.clone()),
            Option::None => Option::None,
        };
        self.ethernet = EthernetState { ifaces };
        self.restore_ethernet_selection(selected);
    }

    /// Raise the refresh summary toast with the displayed list lengths, as
    /// done after an explicitly requested refresh.
    pub fn refresh_current(&mut self, now_ms: u64)
        requires
            old(self).wf(),
            now_ms <= u64::MAX - TOAST_DURATION_MS,
        ensures
            final(self).wf(),
            *final(self) == (App { toast: final(self).toast, ..*old(self) }),
            toast_shows(
                final(self).toast,
                ToastKind::Info,
                spec_msg_refreshed(
                    old(self).spec_known_total_len() as nat,
                    old(self).spec_new_total_len() as nat,
                    old(self).ethernet.ifaces@.len(),
                ),
                now_ms,
            ),
    {
        let k = self.known_total_len();
        let n = self.new_total_len();
        let e = self.ethernet.ifaces.len();
        let msg = String::from_str("Refreshed (Known: ").concat(
            u64_to_string(k as u64).as_str(),
        ).concat(", New: ").concat(u64_to_string(n as u64).as_str()).concat(
            ", Ethernet: ",
        ).concat(u64_to_string(e as u64).as_str()).concat(")");
        proof {
            assert(msg@ =~= spec_msg_refreshed(k as nat, n as nat, e as nat));
        }
        self.set_toast(ToastKind::Info, msg, now_ms);
    }

    fn init_wifi_states(&mut self)
        requires
            old(self).wf(),
        ensures
            final(self).wf(),
            *final(self) == (App {
                wifi_known_state: final(self).wifi_known_state,
                wifi_new_state: final(self).wifi_new_state,
                wifi_adapter_state: final(self).wifi_adapter_state,
                wifi_focus: final(self).wifi_focus,
                ..*old(self)
            }),
            final(self).wifi_known_state.selected == spec_select_first_if_any(
                old(self).wifi_known_state.selected,
                old(self).spec_known_total_len() as usize,
            ),
            final(self).wifi_new_state.selected == spec_select_first_if_any(
                old(self).wifi_new_state.selected,
                old(self).spec_new_total_len() as usize,
            ),
            final(self).wifi_adapter_state.selected == spec_select_first_if_any(
                old(self).wifi_adapter_state.selected,
                old(self).spec_device_total_len() as usize,
            ),
            final(self).wifi_focus == spec_ensure_focus(
                old(self).wifi_focus,
                old(self).spec_known_total_len(),
                old(self).spec_new_total_len(),
                old(self).spec_device_total_len(),
            ),
    {
        let known_len = self.known_total_len();
        let new_len = self.new_total_len();
        let device_len = self.device_total_len();
        select_first_if_any(&mut self.wifi_known_state, known_len);
        select_first_if_any(&mut self.wifi_new_state, new_len);
        select_first_if_any(&mut self.wifi_adapter_state, device_len);
        self.ensure_valid_wifi_focus();
    }

    /// Move the cursor of whichever list has focus one row down.
    pub fn select_next(&mut self)
        requires
            old(self).wf(),
        ensures
            final(self).wf(),
            *final(self) == spec_app_select_next(*old(self)),
    {
        match self.active_tab {
            ActiveTab::Wifi => match self.wifi_focus {
                WifiFocus::KnownNetworks => {
                    let len = self.known_total_len();
                    select_next_in_state(&mut self.wifi_known_state, len)
                },
                WifiFocus::NewNetworks => {
                    let len = self.new_total_len();
                    select_next_in_state(&mut self.wifi_new_state, len)
                },
                WifiFocus::Adapter => {
                    let len = self.device_total_len();
                    select_next_in_state(&mut self.wifi_adapter_state, len)
                },
            },
            ActiveTab::Ethernet => {
                let len = self.ethernet.ifaces.len();
                select_next_in_state(&mut self.ethernet_state, len)
            },
        }
    }

    /// Move the cursor of whichever list has focus one row up.
    pub fn select_prev(&mut self)
        requires
            old(self).wf(),
        ensures
            final(self).wf(),
            *final(self) == spec_app_select_prev(*old(self)),
    {
        match self.active_tab {
            ActiveTab::Wifi => match self.wifi_focus {
                WifiFocus::KnownNetworks => {
                    let len = self.known_total_len();
                    select_prev_in_state(&mut self.wifi_known_state, len)
                },
                WifiFocus::NewNetworks => {
                    let len = self.new_total_len();
                    select_prev_in_state(&mut self.wifi_new_state, len)
                },
                WifiFocus::Adapter => {
                    let len = self.device_total_len();
                    select_prev_in_state(&mut self.wifi_adapter_state, len)
                },
            },
            ActiveTab::Ethernet => {
                let len = self.ethernet.ifaces.len();
                select_prev_in_state(&mut self.ethernet_state, len)
            },
        }
    }

    /// The known-networks entry under the cursor, reaching into the
    /// unavailable sub-list while that is shown.
    pub fn selected_known_network(&self) -> (r: Option<&WifiNetwork>)
        requires
            self.wf(),
        ensures
            match r {
                Option::Some(n) => self.spec_selected_known() == Option::Some(*n),
                Option::None => self.spec_selected_known() is None,
            },
    {
        let idx = match self.wifi_known_state.selected {
            Option::Some(i) => i,
            Option::None => {
                return Option::None;
            },
        };
        if idx < self.wifi.known_networks.len() {
            return Option::Some(&self.wifi.known_networks[idx]);
        }
        if !self.show_unavailable_known_networks {
            return Option::None;
        }
        let hidden_idx = idx - self.wifi.known_networks.len();
        Option::Some(&self.wifi.unavailable_known_networks[hidden_idx])
    }

    /// The new-networks entry under the cursor, reaching into the hidden
    /// sub-list while that is shown.
    pub fn selected_new_network(&self) -> (r: Option<&WifiNetwork>)
        requires
            self.wf(),
        ensures
            match r {
                Option::Some(n) => self.spec_selected_new() == Option::Some(*n),
                Option::None => self.spec_selected_new() is None,
            },
    {
        let idx = match self.wifi_new_state.selected {
            Option::Some(i) => i,
            Option::None => {
                return Option::None;
            },
        };
        if idx < self.wifi.new_networks.len() {
            return Option::Some(&self.wifi.new_networks[idx]);
        }
        if !self.show_hidden_networks {
            return Option::None;
        }
        let hidden_idx = idx - self.wifi.new_networks.len();
        Option::Some(&self.wifi.hidden_networks[hidden_idx])
    }

    /// The wireless entry an action would apply to, by the current focus.
    pub fn selected_wifi_network(&self) -> (r: Option<&WifiNetwork>)
        requires
            self.wf(),
        ensures
            match r {
                Option::Some(n) => self.spec_selected_wifi_network() == Option::Some(*n),
                Option::None => self.spec_selected_wifi_network() is None,
            },
    {
        match self.wifi_focus {
            WifiFocus::KnownNetworks => self.selected_known_network(),
            WifiFocus::NewNetworks => self.selected_new_network(),
            WifiFocus::Adapter => Option::None,
        }
    }

    /// The wired interface under the cursor.
    pub fn selected_eth_iface(&self) -> (r: Option<&EthernetIface>)
        requires
            self.wf(),
        ensures
            match r {
                Option::Some(i) => self.spec_selected_eth() == Option::Some(*i),
                Option::None => self.spec_selected_eth() is None,
            },
    {
        match self.ethernet_state.selected {
            Option::Some(i) => {
                if i < self.ethernet.ifaces.len() {
                    Option::Some(&self.ethernet.ifaces[i])
                } else {
                    Option::None
                }
            },
            Option::None => Option::None,
        }
    }

    /// The identity of the known-networks entry under the cursor.
    pub fn selected_known_ssid(&self) -> (r: Option<String>)
        requires
            self.wf(),
        ensures
            match r {
                Option::Some(s) => match self.spec_selected_known() {
                    Option::Some(n) => s@ == n.ssid@,
                    Option::None => false,
                },
                Option::None => self.spec_selected_known() is None,
            },
    {
        match self.selected_known_network() {
            Option::Some(n) => Option::Some(n.ssid.clone()),
            Option::None => Option::None,
        }
    }

    /// The identity of the new-networks entry under the cursor.
    pub fn selected_new_ssid(&self) -> (r: Option<String>)
        requires
            self.wf(),
        ensures
            match r {
                Option::Some(s) => match self.spec_selected_new() {
                    Option::Some(n) => s@ == n.ssid@,
                    Option::None => false,
                },
                Option::None => self.spec_selected_new() is None,
            },
    {
        match self.selected_new_network() {
            Option::Some(n) => Option::Some(n.ssid.clone()),
            Option::None => Option::None,
        }
    }

    /// Replace any toast with this one, expiring one toast duration from
    /// `now_ms`.
    pub fn set_toast(&mut self, kind: ToastKind, msg: String, now_ms: u64)
        requires
            now_ms <= u64::MAX - TOAST_DURATION_MS,
        ensures
            *final(self) == (App { toast: final(self).toast, ..*old(self) }),
            toast_shows(final(self).toast, kind, msg@, now_ms),
    {
        self.toast = Option::Some(Toast { kind, msg, until: now_ms + TOAST_DURATION_MS });
    }

    /// Drop the sticky error banner.
    pub fn clear_error(&mut self)
        ensures
            *final(self) == (App { last_error: Option::None, ..*old(self) }),
    {
        self.last_error = Option::None;
    }

    /// Raise the sticky error banner; it stays until the next user action
    /// clears it.
    pub fn set_last_error(&mut self, msg: String)
        ensures
            *final(self) == (App { last_error: final(self).last_error, ..*old(self) }),
            opt_string_is(final(self).last_error, msg@),
    {
        self.last_error = Option::Some(msg);
    }

    /// A scan task is outstanding.
    pub fn wifi_scanning_active(&self) -> (r: bool)
        ensures
            r == self.wifi_scan_pending,
    {
        self.wifi_scan_pending
    }

    /// A connect or disconnect task is outstanding.
    pub fn wifi_connect_active(&self) -> (r: bool)
        ensures
            r == self.wifi_connect_pending,
    {
        self.wifi_connect_pending
    }

    /// The spinner glyph for the current frame.
    pub fn spinner_glyph(&self) -> (r: &'static str)
        ensures
            r@ == spec_spinner_glyph(self.spinner_frame as int % 4),
    {
        match self.spinner_frame % 4 {
            0 => "-",
            1 => "\\",
            2 => "|",
            _ => "/",
        }
    }

    /// One timer tick: advance the spinner and expire a toast whose time
    /// has come. The caller reports task completions before the tick and
    /// re-polls the snapshots after it, so a completion toast raised in the
    /// same tick is not overwritten.
    pub fn tick(&mut self, now_ms: u64)
        requires
            old(self).wf(),
        ensures
            final(self).wf(),
            *final(self) == (App {
                spinner_frame: final(self).spinner_frame,
                toast: final(self).toast,
                ..*old(self)
            }),
            final(self).spinner_frame == (old(self).spinner_frame + 1) % 4,
            final(self).toast == (match old(self).toast {
                Option::Some(t) => if now_ms >= t.until {
                    Option::<Toast>::None
                } else {
                    old(self).toast
                },
                Option::None => Option::<Toast>::None,
            }),
    {
        self.spinner_frame = (self.spinner_frame + 1) % 4;
        let expired = match &self.toast {
            Option::Some(t) => now_ms >= t.until,
            Option::None => false,
        };
        if expired {
            self.toast = Option::None;
        }
    }

    /// Flip the details panel, provided an adapter exists; without one only
    /// an error toast appears.
    pub fn toggle_wifi_details(&mut self, now_ms: u64)
        requires
            old(self).wf(),
            now_ms <= u64::MAX - TOAST_DURATION_MS,
        ensures
            final(self).wf(),
            !old(self).wifi.spec_has_adapter() ==> *final(self) == (App {
                toast: final(self).toast,
                ..*old(self)
            }) && toast_shows(final(self).toast, ToastKind::Error, "No Wi-Fi adapter found"@, now_ms),
            old(self).wifi.spec_has_adapter() ==> *final(self) == (App {
                show_wifi_details: !old(self).show_wifi_details,
                ..*old(self)
            }),
    {
        if !self.wifi.has_adapter() {
            self.set_toast(ToastKind::Error, String::from_str("No Wi-Fi adapter found"), now_ms);
            return ;
        }
        self.show_wifi_details = !self.show_wifi_details;
    }

    /// Show or hide the unavailable known networks. The cursor is clamped
    /// into the newly displayed length, so a toggle never leaves it at or
    /// past the end, and a toast reports the new entry count.
    pub fn toggle_known_show_all(&mut self, now_ms: u64)
        requires
            old(self).wf(),
            now_ms <= u64::MAX - TOAST_DURATION_MS,
        ensures
            final(self).wf(),
            *final(self) == (App {
                show_unavailable_known_networks: !old(self).show_unavailable_known_networks,
                wifi_known_state: final(self).wifi_known_state,
                toast: final(self).toast,
                ..*old(self)
            }),
            final(self).wifi_known_state.selected == spec_clamp(
                old(self).wifi_known_state.selected,
                final(self).spec_known_total_len() as usize,
            ),
            toast_shows(
                final(self).toast,
                ToastKind::Info,
                spec_msg_show_all(
                    "Known: show all "@,
                    !old(self).show_unavailable_known_networks,
                    final(self).spec_known_total_len() as nat,
                ),
                now_ms,
            ),
    {
        self.show_unavailable_known_networks = !self.show_unavailable_known_networks;
        let len = self.known_total_len();
        clamp_selected(&mut self.wifi_known_state, len);
        let msg = show_all_msg("Known: show all ", self.show_unavailable_known_networks, len);
        self.set_toast(ToastKind::Info, msg, now_ms);
    }

    /// Show or hide the hidden networks, with the same clamp and toast as
    /// the known-networks toggle.
    pub fn toggle_new_show_all(&mut self, now_ms: u64)
        requires
            old(self).wf(),
            now_ms <= u64::MAX - TOAST_DURATION_MS,
        ensures
            final(self).wf(),
            *final(self) == (App {
                show_hidden_networks: !old(self).show_hidden_networks,
                wifi_new_state: final(self).wifi_new_state,
                toast: final(self).toast,
                ..*old(self)
            }),
            final(self).wifi_new_state.selected == spec_clamp(
                old(self).wifi_new_state.selected,
                final(self).spec_new_total_len() as usize,
            ),
            toast_shows(
                final(self).toast,
                ToastKind::Info,
                spec_msg_show_all(
                    "New: show all "@,
                    !old(self).show_hidden_networks,
                    final(self).spec_new_total_len() as nat,
                ),
                now_ms,
            ),
    {
        self.show_hidden_networks = !self.show_hidden_networks;
        let len = self.new_total_len();
        clamp_selected(&mut self.wifi_new_state, len);
        let msg = show_all_msg("New: show all ", self.show_hidden_networks, len);
        self.set_toast(ToastKind::Info, msg, now_ms);
    }

    /// Open the hidden-network prompt with an empty input buffer.
    pub fn open_hidden_connect_prompt(&mut self)
        ensures
            *final(self) == (App {
                hidden_connect_prompt: true,
                hidden_ssid_input: final(self).hidden_ssid_input,
                ..*old(self)
            }),
            final(self).hidden_ssid_input@.len() == 0,
    {
        self.hidden_connect_prompt = true;
        self.hidden_ssid_input = String::new();
    }

    /// Close the hidden-network prompt and discard its input.
    pub fn close_hidden_connect_prompt(&mut self)
        ensures
            *final(self) == (App {
                hidden_connect_prompt: false,
                hidden_ssid_input: final(self).hidden_ssid_input,
                ..*old(self)
            }),
            final(self).hidden_ssid_input@.len() == 0,
    {
        self.hidden_connect_prompt = false;
        self.hidden_ssid_input = String::new();
    }

    /// Append one typed character to the hidden-network input.
    pub fn hidden_input_push(&mut self, c: char)
        ensures
            *final(self) == (App {
                hidden_ssid_input: final(self).hidden_ssid_input,
                ..*old(self)
            }),
            final(self).hidden_ssid_input@ == old(self).hidden_ssid_input@.push(c),
    {
        crate::text::push_char(&mut self.hidden_ssid_input, c);
    }

    /// Remove the last character of the hidden-network input, if any.
    pub fn hidden_input_backspace(&mut self)
        ensures
            *final(self) == (App {
                hidden_ssid_input: final(self).hidden_ssid_input,
                ..*old(self)
            }),
            old(self).hidden_ssid_input@.len() == 0 ==> final(self).hidden_ssid_input@ == old(
                self,
            ).hidden_ssid_input@,
            old(self).hidden_ssid_input@.len() > 0 ==> final(self).hidden_ssid_input@ == old(
                self,
            ).hidden_ssid_input@.drop_last(),
    {
        let _ = crate::text::pop_char(&mut self.hidden_ssid_input);
    }

    /// Open the passphrase prompt for this identity with an empty input.
    pub fn open_wifi_passphrase_prompt(&mut self, ssid: String)
        ensures
            *final(self) == (App {
                wifi_passphrase_prompt_ssid: final(self).wifi_passphrase_prompt_ssid,
                wifi_passphrase_input: final(self).wifi_passphrase_input,
                ..*old(self)
            }),
            opt_string_is(final(self).wifi_passphrase_prompt_ssid, ssid@),
            final(self).wifi_passphrase_input@.len() == 0,
    {
        self.wifi_passphrase_prompt_ssid = Option::Some(ssid);
        self.wifi_passphrase_input = String::new();
    }

    /// Close the passphrase prompt and discard its input.
    pub fn close_wifi_passphrase_prompt(&mut self)
        ensures
            *final(self) == (App {
                wifi_passphrase_prompt_ssid: Option::None,
                wifi_passphrase_input: final(self).wifi_passphrase_input,
                ..*old(self)
            }),
            final(self).wifi_passphrase_input@.len() == 0,
    {
        self.wifi_passphrase_prompt_ssid = Option::None;
        self.wifi_passphrase_input = String::new();
    }

    /// Append one typed character to the passphrase input.
    pub fn passphrase_input_push(&mut self, c: char)
        ensures
            *final(self) == (App {
                wifi_passphrase_input: final(self).wifi_passphrase_input,
                ..*old(self)
            }),
            final(self).wifi_passphrase_input@ == old(self).wifi_passphrase_input@.push(c),
    {
        crate::text::push_char(&mut self.wifi_passphrase_input, c);
    }

    /// Remove the last character of the passphrase input, if any.
    pub fn passphrase_input_backspace(&mut self)
        ensures
            *final(self) == (App {
                wifi_passphrase_input: final(self).wifi_passphrase_input,
                ..*old(self)
            }),
            old(self).wifi_passphrase_input@.len() == 0 ==> final(self).wifi_passphrase_input@
                == old(self).wifi_passphrase_input@,
            old(self).wifi_passphrase_input@.len() > 0 ==> final(self).wifi_passphrase_input@
                == old(self).wifi_passphrase_input@.drop_last(),
    {
        let _ = crate::text::pop_char(&mut self.wifi_passphrase_input);
    }

    fn init_ethernet_state(&mut self)
        requires
            old(self).wf(),
        ensures
            final(self).wf(),
            *final(self) == (App { ethernet_state: final(self).ethernet_state, ..*old(self) }),
            final(self).ethernet_state.selected == spec_select_first_if_any(
                old(self).ethernet_state.selected,
                old(self).ethernet.ifaces@.len() as usize,
            ),
            old(self).ethernet.ifaces@.len() <= usize::MAX,
    {
        let len = self.ethernet.ifaces.len();
        select_first_if_any(&mut self.ethernet_state, len);
    }
}

/// The next focus in the cycle known, new, adapter.
pub open spec fn spec_focus_next(f: WifiFocus) -> WifiFocus {
    match f {
        WifiFocus::KnownNetworks => WifiFocus::NewNetworks,
        WifiFocus::NewNetworks => WifiFocus::Adapter,
        WifiFocus::Adapter => WifiFocus::KnownNetworks,
    }
}

/// The previous focus in the cycle.
pub open spec fn spec_focus_prev(f: WifiFocus) -> WifiFocus {
    match f {
        WifiFocus::KnownNetworks => WifiFocus::Adapter,
        WifiFocus::NewNetworks => WifiFocus::KnownNetworks,
        WifiFocus::Adapter => WifiFocus::NewNetworks,
    }
}

/// The first of three focus candidates whose view has items; the last one
/// when all three views are empty.
pub open spec fn spec_cycle_to_nonempty(
    app: App,
    a: WifiFocus,
    b: WifiFocus,
    c: WifiFocus,
) -> WifiFocus {
    if app.spec_focus_len(a) > 0 {
        a
    } else if app.spec_focus_len(b) > 0 {
        b
    } else {
        c
    }
}

/// Where `ensure_valid_wifi_focus` lands, given the three displayed
/// lengths.
pub open spec fn spec_ensure_focus(f: WifiFocus, kl: int, nl: int, dl: int) -> WifiFocus {
    let cur = match f {
        WifiFocus::KnownNetworks => kl,
        WifiFocus::NewNetworks => nl,
        WifiFocus::Adapter => dl,
    };
    if cur > 0 {
        f
    } else if kl > 0 {
        WifiFocus::KnownNetworks
    } else if nl > 0 {
        WifiFocus::NewNetworks
    } else if dl > 0 {
        WifiFocus::Adapter
    } else {
        f
    }
}

fn focus_next(f: WifiFocus) -> (r: WifiFocus)
    ensures
        r == spec_focus_next(f),
{
    match f {
        WifiFocus::KnownNetworks => WifiFocus::NewNetworks,
        WifiFocus::NewNetworks => WifiFocus::Adapter,
        WifiFocus::Adapter => WifiFocus::KnownNetworks,
    }
}

fn focus_prev(f: WifiFocus) -> (r: WifiFocus)
    ensures
        r == spec_focus_prev(f),
{
    match f {
        WifiFocus::KnownNetworks => WifiFocus::Adapter,
        WifiFocus::NewNetworks => WifiFocus::KnownNetworks,
        WifiFocus::Adapter => WifiFocus::NewNetworks,
    }
}

/// The state after the driving loop is told to stop.
pub open spec fn spec_app_quit(a: App) -> App {
    App { running: false, ..a }
}

/// The other top-level tab.
pub open spec fn spec_tab_switched(t: ActiveTab) -> ActiveTab {
    match t {
        ActiveTab::Wifi => ActiveTab::Ethernet,
        ActiveTab::Ethernet => ActiveTab::Wifi,
    }
}

/// The state after a tab switch.
pub open spec fn spec_app_switch_tab(a: App) -> App {
    App { active_tab: spec_tab_switched(a.active_tab), ..a }
}

/// The state after the focus advances to the next view with items; outside
/// the wireless tab nothing changes.
pub open spec fn spec_app_focus_next(a: App) -> App {
    if a.active_tab is Wifi {
        App {
            wifi_focus: spec_cycle_to_nonempty(
                a,
                spec_focus_next(a.wifi_focus),
                spec_focus_next(spec_focus_next(a.wifi_focus)),
                spec_focus_next(spec_focus_next(spec_focus_next(a.wifi_focus))),
            ),
            ..a
        }
    } else {
        a
    }
}

/// The state after the focus steps back through the reverse cycle.
pub open spec fn spec_app_focus_prev(a: App) -> App {
    if a.active_tab is Wifi {
        App {
            wifi_focus: spec_cycle_to_nonempty(
                a,
                spec_focus_prev(a.wifi_focus),
                spec_focus_prev(spec_focus_prev(a.wifi_focus)),
                spec_focus_prev(spec_focus_prev(spec_focus_prev(a.wifi_focus))),
            ),
            ..a
        }
    } else {
        a
    }
}

/// The state after the focused list's cursor moves one row down.
pub open spec fn spec_app_select_next(a: App) -> App {
    App {
        wifi_known_state: ListSelection {
            selected: if a.active_tab is Wifi && a.wifi_focus is KnownNetworks {
                spec_select_next(a.wifi_known_state.selected, a.spec_known_total_len() as usize)
            } else {
                a.wifi_known_state.selected
            },
        },
        wifi_new_state: ListSelection {
            selected: if a.active_tab is Wifi && a.wifi_focus is NewNetworks {
                spec_select_next(a.wifi_new_state.selected, a.spec_new_total_len() as usize)
            } else {
                a.wifi_new_state.selected
            },
        },
        wifi_adapter_state: ListSelection {
            selected: if a.active_tab is Wifi && a.wifi_focus is Adapter {
                spec_select_next(a.wifi_adapter_state.selected, a.spec_device_total_len() as usize)
            } else {
                a.wifi_adapter_state.selected
            },
        },
        ethernet_state: ListSelection {
            selected: if a.active_tab is Ethernet {
                spec_select_next(a.ethernet_state.selected, a.ethernet.ifaces@.len() as usize)
            } else {
                a.ethernet_state.selected
            },
        },
        ..a
    }
}

/// The state after the focused list's cursor moves one row up.
pub open spec fn spec_app_select_prev(a: App) -> App {
    App {
        wifi_known_state: ListSelection {
            selected: if a.active_tab is Wifi && a.wifi_focus is KnownNetworks {
                spec_select_prev(a.wifi_known_state.selected, a.spec_known_total_len() as usize)
            } else {
                a.wifi_known_state.selected
            },
        },
        wifi_new_state: ListSelection {
            selected: if a.active_tab is Wifi && a.wifi_focus is NewNetworks {
                spec_select_prev(a.wifi_new_state.selected, a.spec_new_total_len() as usize)
            } else {
                a.wifi_new_state.selected
            },
        },
        wifi_adapter_state: ListSelection {
            selected: if a.active_tab is Wifi && a.wifi_focus is Adapter {
                spec_select_prev(a.wifi_adapter_state.selected, a.spec_device_total_len() as usize)
            } else {
                a.wifi_adapter_state.selected
            },
        },
        ethernet_state: ListSelection {
            selected: if a.active_tab is Ethernet {
                spec_select_prev(a.ethernet_state.selected, a.ethernet.ifaces@.len() as usize)
            } else {
                a.ethernet_state.selected
            },
        },
        ..a
    }
}

/// Some entry of the list carries this identity.
pub open spec fn ssid_in(list: Seq<WifiNetwork>, s: Seq<char>) -> bool {
    exists|i: int| 0 <= i < list.len() && list[i].ssid@ == s
}

/// `i` is the first index of the list whose entry carries this identity.
pub open spec fn is_first_ssid_index(list: Seq<WifiNetwork>, s: Seq<char>, i: int) -> bool {
    &&& 0 <= i < list.len()
    &&& list[i].ssid@ == s
    &&& forall|j: int| 0 <= j < i ==> list[j].ssid@ != s
}

/// Some interface of the list carries this name.
pub open spec fn name_in(list: Seq<EthernetIface>, s: Seq<char>) -> bool {
    exists|i: int| 0 <= i < list.len() && list[i].name@ == s
}

/// `i` is the first index of the list whose interface carries this name.
pub open spec fn is_first_name_index(list: Seq<EthernetIface>, s: Seq<char>, i: int) -> bool {
    &&& 0 <= i < list.len()
    &&& list[i].name@ == s
    &&& forall|j: int| 0 <= j < i ==> list[j].name@ != s
}

/// Select the first row of a list of this length, or nothing when it is
/// empty.
pub open spec fn spec_first_row(len: int) -> Option<usize> {
    if len > 0 {
        Option::Some(0usize)
    } else {
        Option::None
    }
}

/// The refresh summary toast text.
pub open spec fn spec_msg_refreshed(known: nat, newly: nat, eth: nat) -> Seq<char> {
    "Refreshed (Known: "@ + spec_u64_dec(known) + ", New: "@ + spec_u64_dec(newly)
        + ", Ethernet: "@ + spec_u64_dec(eth) + ")"@
}

proof fn lemma_concat_contains(a: Seq<WifiNetwork>, b: Seq<WifiNetwork>, s: Seq<char>)
    ensures
        ssid_in(a + b, s) <==> ssid_in(a, s) || ssid_in(b, s),
{
    if ssid_in(a + b, s) {
        let i = choose|i: int| 0 <= i < (a + b).len() && (a + b)[i].ssid@ == s;
        if i < a.len() {
            assert(a[i].ssid@ == s);
        } else {
            assert(b[i - a.len()].ssid@ == s);
        }
    }
    if ssid_in(a, s) {
        let i = choose|i: int| 0 <= i < a.len() && a[i].ssid@ == s;
        assert((a + b)[i].ssid@ == s);
    }
    if ssid_in(b, s) {
        let i = choose|i: int| 0 <= i < b.len() && b[i].ssid@ == s;
        assert((a + b)[a.len() + i].ssid@ == s);
    }
}

/// The spinner glyph of a frame index in `[0, 4)`.
pub open spec fn spec_spinner_glyph(i: int) -> Seq<char> {
    if i == 0 {
        "-"@
    } else if i == 1 {
        "\\"@
    } else if i == 2 {
        "|"@
    } else {
        "/"@
    }
}

/// The four spinner glyphs in display order.
pub fn spinner_frames() -> (r: Vec<&'static str>)
    ensures
        r@.len() == 4,
        r@[0]@ == spec_spinner_glyph(0),
        r@[1]@ == spec_spinner_glyph(1),
        r@[2]@ == spec_spinner_glyph(2),
        r@[3]@ == spec_spinner_glyph(3),
{
    let mut v: Vec<&'static str> = Vec::new();
    v.push("-");
    v.push("\\");
    v.push("|");
    v.push("/");
    v
}

/// The toast text of a show-all toggle: the prefix, the new state, and the
/// new entry count.
pub open spec fn spec_msg_show_all(prefix: Seq<char>, enabled: bool, n: nat) -> Seq<char> {
    prefix + (if enabled {
        "enabled"@
    } else {
        "disabled"@
    }) + " ("@ + spec_u64_dec(n) + " entries)"@
}

fn show_all_msg(prefix: &'static str, enabled: bool, n: usize) -> (r: String)
    ensures
        r@ == spec_msg_show_all(prefix@, enabled, n as nat),
{
    let state: &'static str = if enabled {
        "enabled"
    } else {
        "disabled"
    };
    let r = String::from_str(prefix).concat(state).concat(" (").concat(
        u64_to_string(n as u64).as_str(),
    ).concat(" entries)");
    proof {
        assert(r@ =~= spec_msg_show_all(prefix@, enabled, n as nat));
    }
    r
}

/// What a failed wireless operation is reported as: the two recognized
/// causes are rewritten into actionable text, anything else is surfaced
/// verbatim.
pub open spec fn spec_friendly_wifi_error(action: Seq<char>, msg: Seq<char>) -> Seq<char> {
    if ci_contains(msg, "no agent registered"@) {
        action + " needs Wi-Fi credentials. Use connect again and enter passphrase."@
    } else if ci_contains(msg, "accessdenied"@) || ci_contains(msg, "permission denied"@)
        || ci_contains(msg, "not authorized"@) || ci_contains(msg, "operation not permitted"@) {
        action + " requires elevated permissions. Run with proper privileges and retry."@
    } else {
        msg
    }
}

/// Rewrite a wireless backend error into the text shown to the user: a
/// missing credential agent and insufficient privilege each get actionable
/// wording, any other message passes through unchanged.
pub fn friendly_wifi_error(action: &str, msg: &str) -> (r: String)
    ensures
        r@ == spec_friendly_wifi_error(action@, msg@),
{
    if contains_ci(msg, "no agent registered") {
        let r = String::from_str(action).concat(
            " needs Wi-Fi credentials. Use connect again and enter passphrase.",
        );
        proof {
            assert(r@ =~= spec_friendly_wifi_error(action@, msg@));
        }
        r
    } else if contains_ci(msg, "accessdenied") || contains_ci(msg, "permission denied")
        || contains_ci(msg, "not authorized") || contains_ci(msg, "operation not permitted") {
        let r = String::from_str(action).concat(
            " requires elevated permissions. Run with proper privileges and retry.",
        );
        proof {
            assert(r@ =~= spec_friendly_wifi_error(action@, msg@));
        }
        r
    } else {
        String::from_str(msg)
    }
}

/// The error text names the missing-credential-agent condition.
pub fn is_no_agent_error(msg: &str) -> (r: bool)
    ensures
        r == ci_contains(msg@, "no agent registered"@),
{
    contains_ci(msg, "no agent registered")
}

/// The one-line summary of a wired interface used to show what a DHCP
/// renewal changed.
pub open spec fn spec_snapshot_eth(i: EthernetIface) -> Seq<char> {
    "state="@ + i.operstate@ + "; carrier="@ + (if i.carrier == Option::Some(true) {
        "1"@
    } else if i.carrier == Option::Some(false) {
        "0"@
    } else {
        "?"@
    }) + "; ip="@ + (if i.ipv4@.len() > 0 {
        i.ipv4@[0]@
    } else {
        "-"@
    }) + "; gw="@ + (match i.gateway_v4 {
        Option::Some(g) => g@,
        Option::None => "-"@,
    }) + "; dns="@ + (if i.dns@.len() == 0 {
        "-"@
    } else {
        spec_join_comma(i.dns@.map_values(|s: String| s@))
    })
}

/// Summarize a wired interface in one line: link state, carrier, first
/// IPv4 address, gateway and resolvers, with a dash for whatever is
/// missing.
pub fn snapshot_eth(iface: Option<&EthernetIface>) -> (r: String)
    ensures
        match iface {
            Option::Some(i) => r@ == spec_snapshot_eth(*i),
            Option::None => r@ == "no interface selected"@,
        },
{
    let i = match iface {
        Option::Some(i) => i,
        Option::None => {
            return String::from_str("no interface selected");
        },
    };
    let carrier: &'static str = match i.carrier {
        Option::Some(true) => "1",
        Option::Some(false) => "0",
        Option::None => "?",
    };
    let ip = if i.ipv4.len() > 0 {
        i.ipv4[0].clone()
    } else {
        String::from_str("-")
    };
    let gw = match &i.gateway_v4 {
        Option::Some(g) => g.clone(),
        Option::None => String::from_str("-"),
    };
    let dns = if i.dns.len() == 0 {
        String::from_str("-")
    } else {
        join_comma(&i.dns)
    };
    let r = String::from_str("state=").concat(i.operstate.as_str()).concat("; carrier=").concat(
        carrier,
    ).concat("; ip=").concat(ip.as_str()).concat("; gw=").concat(gw.as_str()).concat(
        "; dns=",
    ).concat(dns.as_str());
    proof {
        assert(r@ =~= spec_snapshot_eth(*i));
    }
    r
}

/// The toast text for a connect attempt being started.
pub open spec fn spec_msg_connecting(ssid: Seq<char>) -> Seq<char> {
    "Connecting to "@ + ssid + "..."@
}

/// The toast text for a successful connect.
pub open spec fn spec_msg_connected(ssid: Seq<char>) -> Seq<char> {
    "Connected to "@ + ssid
}

/// The toast text for a successful disconnect.
pub open spec fn spec_msg_disconnected(ssid: Seq<char>) -> Seq<char> {
    "Disconnected from "@ + ssid
}

/// The toast text shown when the passphrase prompt opens.
pub open spec fn spec_msg_passphrase_required(ssid: Seq<char>) -> Seq<char> {
    "Passphrase required for "@ + ssid
}

/// The toast text for a forgotten network.
pub open spec fn spec_msg_forgot(ssid: Seq<char>) -> Seq<char> {
    "Forgot network "@ + ssid
}

/// The toast text for a requested hidden-network connect.
pub open spec fn spec_msg_hidden_requested(ssid: Seq<char>) -> Seq<char> {
    "Connect hidden requested: "@ + ssid
}

/// The notification body for a requested hidden-network connect.
pub open spec fn spec_msg_hidden_notify(ssid: Seq<char>) -> Seq<char> {
    "Connect hidden: "@ + ssid
}

/// The toast text for a toggled autoconnect flag.
pub open spec fn spec_msg_autoconnect(enabled: bool, ssid: Seq<char>) -> Seq<char> {
    "Autoconnect "@ + (if enabled {
        "enabled"@
    } else {
        "disabled"@
    }) + " for "@ + ssid
}

/// The notification body for a toggled autoconnect flag.
pub open spec fn spec_msg_autoconnect_notify(enabled: bool, ssid: Seq<char>) -> Seq<char> {
    "Autoconnect "@ + (if enabled {
        "enabled"@
    } else {
        "disabled"@
    }) + ": "@ + ssid
}

fn connecting_msg(ssid: &str) -> (r: String)
    ensures
        r@ == spec_msg_connecting(ssid@),
{
    let r = String::from_str("Connecting to ").concat(ssid).concat("...");
    proof {
        assert(r@ =~= spec_msg_connecting(ssid@));
    }
    r
}

/// The message of a DHCP renewal report: what was requested, whether it
/// was elevated, what the command printed, and the interface summary
/// before and after.
pub open spec fn spec_renew_msg(
    iface: Seq<char>,
    used_sudo: bool,
    stdout: Seq<char>,
    stderr: Seq<char>,
    before: Seq<char>,
    after: Seq<char>,
) -> Seq<char> {
    iface + ": DHCP renew requested"@ + (if used_sudo {
        " (elevated)"@
    } else {
        Seq::<char>::empty()
    }) + (if stdout.len() > 0 {
        "\nstdout: "@ + stdout
    } else {
        Seq::<char>::empty()
    }) + (if stderr.len() > 0 {
        "\nstderr: "@ + stderr
    } else {
        Seq::<char>::empty()
    }) + (if before == after {
        "\nNo visible change detected."@
    } else {
        Seq::<char>::empty()
    }) + "\nBefore: "@ + before + "\nAfter:  "@ + after
}

/// The message of a link-state report.
pub open spec fn spec_link_msg(
    iface: Seq<char>,
    up: bool,
    used_sudo: bool,
    stderr: Seq<char>,
) -> Seq<char> {
    iface + ": link set "@ + (if up {
        "up"@
    } else {
        "down"@
    }) + (if used_sudo {
        " (elevated)"@
    } else {
        Seq::<char>::empty()
    }) + (if stderr.len() > 0 {
        "\nstderr: "@ + stderr
    } else {
        Seq::<char>::empty()
    })
}

/// Which tab the dashboard starts on.
pub open spec fn spec_determine_start_tab(
    policy: StartupTabPolicy,
    wifi: WifiState,
    ethernet: EthernetState,
) -> ActiveTab {
    match policy {
        StartupTabPolicy::ForceWifi => ActiveTab::Wifi,
        StartupTabPolicy::ForceEthernet => ActiveTab::Ethernet,
        StartupTabPolicy::PreferActive => if ethernet.spec_has_active() {
            ActiveTab::Ethernet
        } else if wifi.spec_is_active() || wifi.spec_has_adapter() {
            ActiveTab::Wifi
        } else {
            ActiveTab::Ethernet
        },
    }
}

/// Choose the starting tab: a forced policy wins outright; otherwise an
/// active wired interface takes precedence, then a wireless connection or
/// at least an adapter, and the wired tab is the final fallback.
pub fn determine_start_tab(
    policy: StartupTabPolicy,
    wifi: &WifiState,
    ethernet: &EthernetState,
) -> (r: ActiveTab)
    ensures
        r == spec_determine_start_tab(policy, *wifi, *ethernet),
{
    match policy {
        StartupTabPolicy::ForceWifi => ActiveTab::Wifi,
        StartupTabPolicy::ForceEthernet => ActiveTab::Ethernet,
        StartupTabPolicy::PreferActive => {
            if ethernet.has_active() {
                ActiveTab::Ethernet
            } else if wifi.is_active() || wifi.has_adapter() {
                ActiveTab::Wifi
            } else {
                ActiveTab::Ethernet
            }
        },
    }
}

} // verus!
