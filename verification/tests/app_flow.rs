use nettui::app::{App, AppConfig, TaskOutcome};
use nettui::common::{ActiveTab, StartupTabPolicy, ToastKind, WifiFocus};
use nettui::ethernet::{EthernetIface, EthernetState};
use nettui::keybinds::Keybinds;
use nettui::wifi::{WifiNetwork, WifiState};
use nettui::app::determine_start_tab;

fn net(ssid: &str, connected: bool, available: bool) -> WifiNetwork {
    WifiNetwork {
        ssid: ssid.to_string(),
        security: "psk".to_string(),
        signal: "100% x".to_string(),
        connected,
        hidden: None,
        autoconnect: None,
        available,
    }
}

fn eth(name: &str, operstate: &str, carrier: Option<bool>, ipv4: Vec<String>) -> EthernetIface {
    EthernetIface {
        name: name.to_string(),
        operstate: operstate.to_string(),
        carrier,
        mac: None,
        speed_mbps: None,
        ipv4,
        ipv6: vec![],
        gateway_v4: None,
        dns: vec![],
    }
}

fn wifi_with(known: Vec<WifiNetwork>, newly: Vec<WifiNetwork>) -> WifiState {
    WifiState {
        ifaces: vec!["wlan0".to_string()],
        connected_ssid: None,
        known_networks: known,
        unavailable_known_networks: vec![],
        new_networks: newly,
        hidden_networks: vec![],
        device: None,
    }
}

fn fresh_app(wifi: WifiState, ethernet: EthernetState) -> App {
    App::new(AppConfig::default(), Keybinds::default(), wifi, ethernet, None)
}

#[test]
fn startup_prefers_ethernet_when_active() {
    let wifi = WifiState {
        ifaces: vec!["wlan0".to_string()],
        connected_ssid: Some("Home".to_string()),
        known_networks: vec![],
        unavailable_known_networks: vec![],
        new_networks: vec![],
        hidden_networks: vec![],
        device: None,
    };
    let ethernet = EthernetState {
        ifaces: vec![EthernetIface {
            name: "enp1s0".to_string(),
            operstate: "up".to_string(),
            carrier: Some(true),
            mac: None,
            speed_mbps: None,
            ipv4: vec!["192.168.1.2/24".to_string()],
            ipv6: vec![],
            gateway_v4: None,
            dns: vec![],
        }],
    };

    assert_eq!(
        determine_start_tab(StartupTabPolicy::PreferActive, &wifi, &ethernet),
        ActiveTab::Ethernet
    );
}

#[test]
fn startup_falls_back_to_wifi_if_no_active_ethernet() {
    let wifi = WifiState {
        ifaces: vec!["wlan0".to_string()],
        connected_ssid: None,
        known_networks: vec![],
        unavailable_known_networks: vec![],
        new_networks: vec![],
        hidden_networks: vec![],
        device: None,
    };
    let ethernet = EthernetState { ifaces: vec![] };

    assert_eq!(
        determine_start_tab(StartupTabPolicy::PreferActive, &wifi, &ethernet),
        ActiveTab::Wifi
    );
}

#[test]
fn connect_to_selected_known_network_and_succeed() {
    let wifi = wifi_with(vec![net("A", false, true)], vec![net("B", false, true)]);
    let mut app = fresh_app(wifi, EthernetState::empty());
    assert_eq!(app.active_tab, ActiveTab::Wifi);
    assert_eq!(app.wifi_focus, WifiFocus::KnownNetworks);
    assert_eq!(app.wifi_known_state.selected, Some(0));

    let req = app.wifi_connect_or_disconnect(1000).expect("a connect request");
    assert_eq!(req.ssid, "A");
    assert!(!req.disconnect);
    assert!(app.wifi_connect_active());
    assert_eq!(app.toast.as_ref().unwrap().msg, "Connecting to A...");

    let n = app.on_connect_task_done(TaskOutcome::Success, 2000);
    assert!(!app.wifi_connect_active());
    let toast = app.toast.as_ref().unwrap();
    assert_eq!(toast.msg, "Connected to A");
    assert_eq!(toast.kind, ToastKind::Success);
    let n = n.expect("a notification");
    assert_eq!(n.title, "Wi-Fi");
    assert_eq!(n.body, "Connected to A");

    let refreshed = wifi_with(vec![net("A", true, true)], vec![net("B", false, true)]);
    app.apply_wifi_snapshot(refreshed, None);
    let selected = app.selected_known_network().expect("a selection");
    assert_eq!(selected.ssid, "A");
    assert!(selected.connected);
}

#[test]
fn no_agent_failure_on_first_attempt_opens_passphrase_prompt() {
    let wifi = wifi_with(vec![], vec![net("B", false, true)]);
    let mut app = fresh_app(wifi, EthernetState::empty());
    assert_eq!(app.wifi_focus, WifiFocus::NewNetworks);

    let req = app.wifi_connect_or_disconnect(1000).expect("a connect request");
    assert_eq!(req.ssid, "B");

    let n = app.on_connect_task_done(
        TaskOutcome::Failure("GDBus error: No agent registered".to_string()),
        2000,
    );
    assert!(n.is_none());
    assert_eq!(app.wifi_passphrase_prompt_ssid.as_deref(), Some("B"));
    assert_eq!(app.wifi_passphrase_input, "");
    let toast = app.toast.as_ref().unwrap();
    assert_eq!(toast.kind, ToastKind::Info);
    assert_eq!(toast.msg, "Passphrase required for B");
    assert!(app.last_error.is_none());
}

#[test]
fn no_agent_failure_after_passphrase_shows_error_and_no_prompt() {
    let wifi = wifi_with(vec![], vec![net("B", false, true)]);
    let mut app = fresh_app(wifi, EthernetState::empty());

    app.open_wifi_passphrase_prompt("B".to_string());
    app.passphrase_input_push('p');
    app.passphrase_input_push('w');
    let req = app.submit_wifi_passphrase_connect(1000).expect("a passphrase request");
    assert_eq!(req.ssid, "B");
    assert_eq!(req.passphrase, "pw");
    assert!(app.wifi_passphrase_prompt_ssid.is_none());
    assert!(app.wifi_connect_active());

    let n = app.on_connect_task_done(
        TaskOutcome::Failure("no agent registered".to_string()),
        2000,
    );
    assert!(n.is_none());
    assert!(app.wifi_passphrase_prompt_ssid.is_none());
    let toast = app.toast.as_ref().unwrap();
    assert_eq!(toast.kind, ToastKind::Error);
    assert_eq!(
        toast.msg,
        "connect/disconnect needs Wi-Fi credentials. Use connect again and enter passphrase."
    );
}

#[test]
fn ethernet_active_needs_carrier_and_ipv4() {
    let active = eth("eth0", "up", Some(true), vec!["10.0.0.2/24".to_string()]);
    assert!(active.is_active());
    let no_carrier = eth("eth0", "up", Some(false), vec!["10.0.0.2/24".to_string()]);
    assert!(!no_carrier.is_active());
    let unknown_carrier = eth("eth0", "up", None, vec!["10.0.0.2/24".to_string()]);
    assert!(!unknown_carrier.is_active());
    let no_ip = eth("eth0", "up", Some(true), vec![]);
    assert!(!no_ip.is_active());
}

#[test]
fn second_scan_request_is_refused_with_a_toast() {
    let wifi = wifi_with(vec![net("A", false, true)], vec![]);
    let mut app = fresh_app(wifi, EthernetState::empty());

    assert!(app.wifi_scan(1000));
    assert!(app.wifi_scanning_active());
    let focus_before = app.wifi_focus;

    assert!(!app.wifi_scan(1500));
    assert!(app.wifi_scanning_active());
    assert_eq!(app.wifi_focus, focus_before);
    assert_eq!(app.toast.as_ref().unwrap().msg, "Wi-Fi scan already running");
}

#[test]
fn second_connect_request_is_refused_with_a_toast() {
    let wifi = wifi_with(vec![net("A", false, true)], vec![net("B", false, true)]);
    let mut app = fresh_app(wifi, EthernetState::empty());

    assert!(app.wifi_connect_or_disconnect(1000).is_some());
    let ctx_ssid_before = app.wifi_connect_context.as_ref().unwrap().ssid.clone();

    assert!(app.wifi_connect_or_disconnect(1500).is_none());
    assert!(app.wifi_connect_active());
    assert_eq!(app.wifi_connect_context.as_ref().unwrap().ssid, ctx_ssid_before);
    assert_eq!(
        app.toast.as_ref().unwrap().msg,
        "Wi-Fi connect/disconnect already in progress"
    );
}

#[test]
fn unavailable_known_network_is_refused() {
    let mut wifi = wifi_with(vec![], vec![]);
    wifi.unavailable_known_networks = vec![net("Old", false, false)];
    let mut app = fresh_app(wifi, EthernetState::empty());
    app.toggle_known_show_all(500);
    app.wifi_focus = WifiFocus::KnownNetworks;
    assert_eq!(app.wifi_known_state.selected, Some(0));

    let req = app.wifi_connect_or_disconnect(1000);
    assert!(req.is_none());
    assert!(!app.wifi_connect_active());
    assert_eq!(
        app.toast.as_ref().unwrap().msg,
        "Unavailable known network cannot be connected directly"
    );
}

#[test]
fn connect_on_connected_network_disconnects() {
    let wifi = wifi_with(vec![net("Home", true, true)], vec![]);
    let mut app = fresh_app(wifi, EthernetState::empty());

    let req = app.wifi_connect_or_disconnect(1000).expect("a request");
    assert!(req.disconnect);
    assert_eq!(app.toast.as_ref().unwrap().msg, "Disconnecting Wi-Fi...");

    let n = app.on_connect_task_done(TaskOutcome::Success, 2000).expect("a notification");
    assert_eq!(app.toast.as_ref().unwrap().msg, "Disconnected from Home");
    assert_eq!(n.body, "Disconnected from Home");
    assert_eq!(app.last_action.as_deref(), Some("Disconnected Wi-Fi"));
}

#[test]
fn selection_follows_identity_across_refresh() {
    let wifi = wifi_with(
        vec![net("A", false, true), net("B", false, true), net("C", false, true)],
        vec![],
    );
    let mut app = fresh_app(wifi, EthernetState::empty());
    app.select_next();
    app.select_next();
    assert_eq!(app.wifi_known_state.selected, Some(2));
    assert_eq!(app.selected_known_network().unwrap().ssid, "C");

    let reordered = wifi_with(
        vec![net("C", false, true), net("A", false, true), net("B", false, true)],
        vec![],
    );
    app.apply_wifi_snapshot(reordered, None);
    assert_eq!(app.wifi_known_state.selected, Some(0));
    assert_eq!(app.selected_known_network().unwrap().ssid, "C");
}

#[test]
fn vanished_identity_falls_back_to_first_row() {
    let wifi = wifi_with(vec![net("A", false, true), net("B", false, true)], vec![]);
    let mut app = fresh_app(wifi, EthernetState::empty());
    app.select_next();
    assert_eq!(app.selected_known_network().unwrap().ssid, "B");

    let shrunk = wifi_with(vec![net("A", false, true)], vec![]);
    app.apply_wifi_snapshot(shrunk, None);
    assert_eq!(app.wifi_known_state.selected, Some(0));
    assert_eq!(app.selected_known_network().unwrap().ssid, "A");

    let gone = wifi_with(vec![], vec![]);
    app.apply_wifi_snapshot(gone, None);
    assert_eq!(app.wifi_known_state.selected, None);
}

#[test]
fn toggle_never_leaves_index_past_new_length() {
    let mut wifi = wifi_with(vec![net("A", false, true)], vec![]);
    wifi.unavailable_known_networks = vec![net("U1", false, false), net("U2", false, false)];
    let mut app = fresh_app(wifi, EthernetState::empty());
    app.toggle_known_show_all(500);
    app.select_next();
    app.select_next();
    assert_eq!(app.wifi_known_state.selected, Some(2));

    app.toggle_known_show_all(1000);
    assert_eq!(app.wifi_known_state.selected, Some(0));
    assert_eq!(
        app.toast.as_ref().unwrap().msg,
        "Known: show all disabled (1 entries)"
    );
}

#[test]
fn focus_skips_empty_views() {
    let wifi = wifi_with(vec![], vec![net("B", false, true)]);
    let mut app = fresh_app(wifi, EthernetState::empty());
    assert_eq!(app.wifi_focus, WifiFocus::NewNetworks);

    app.switch_focus_next();
    assert_eq!(app.wifi_focus, WifiFocus::NewNetworks);
    app.switch_focus_prev();
    assert_eq!(app.wifi_focus, WifiFocus::NewNetworks);
}

#[test]
fn focus_unchanged_when_all_views_empty() {
    let mut wifi = wifi_with(vec![], vec![]);
    wifi.ifaces = vec![];
    let mut app = fresh_app(wifi, EthernetState::empty());
    let before = app.wifi_focus;
    app.ensure_valid_wifi_focus();
    assert_eq!(app.wifi_focus, before);
}

#[test]
fn toast_expires_on_tick() {
    let wifi = wifi_with(vec![], vec![]);
    let mut app = fresh_app(wifi, EthernetState::empty());
    app.set_toast(ToastKind::Info, "hello".to_string(), 1000);
    assert_eq!(app.toast.as_ref().unwrap().until, 4000);

    app.tick(3999);
    assert!(app.toast.is_some());
    app.tick(4000);
    assert!(app.toast.is_none());
}

#[test]
fn spinner_advances_and_wraps() {
    let wifi = wifi_with(vec![], vec![]);
    let mut app = fresh_app(wifi, EthernetState::empty());
    assert_eq!(app.spinner_glyph(), "-");
    app.tick(1);
    assert_eq!(app.spinner_glyph(), "\\");
    app.tick(2);
    assert_eq!(app.spinner_glyph(), "|");
    app.tick(3);
    assert_eq!(app.spinner_glyph(), "/");
    app.tick(4);
    assert_eq!(app.spinner_glyph(), "-");
}

#[test]
fn hidden_prompt_validates_and_reports() {
    let wifi = wifi_with(vec![], vec![net("B", false, true)]);
    let mut app = fresh_app(wifi, EthernetState::empty());
    app.open_hidden_connect_prompt();
    app.hidden_input_push(' ');
    assert!(app.submit_hidden_connect(1000).is_none());
    assert_eq!(app.toast.as_ref().unwrap().msg, "SSID cannot be empty");

    app.hidden_input_push('n');
    app.hidden_input_push('e');
    app.hidden_input_push('t');
    app.hidden_input_backspace();
    app.hidden_input_push('t');
    let ssid = app.submit_hidden_connect(1500).expect("an ssid");
    assert_eq!(ssid, "net");

    let n = app.hidden_connect_finished("net", Ok(()), 2000).expect("a notification");
    assert!(!app.hidden_connect_prompt);
    assert_eq!(app.toast.as_ref().unwrap().msg, "Connect hidden requested: net");
    assert_eq!(n.body, "Connect hidden: net");

    app.open_hidden_connect_prompt();
    let m = app.hidden_connect_finished("net", Err("timeout talking to daemon".to_string()), 2500);
    assert!(m.is_none());
    assert!(app.hidden_connect_prompt);
    assert_eq!(app.toast.as_ref().unwrap().msg, "timeout talking to daemon");
}

#[test]
fn hidden_submit_respects_single_connect_slot() {
    let wifi = wifi_with(vec![], vec![net("B", false, true)]);
    let mut app = fresh_app(wifi, EthernetState::empty());
    assert!(app.wifi_connect_or_disconnect(500).is_some());

    app.open_hidden_connect_prompt();
    app.hidden_input_push('x');
    assert!(app.submit_hidden_connect(1000).is_none());
    assert_eq!(
        app.toast.as_ref().unwrap().msg,
        "Wi-Fi connect already in progress"
    );
    assert!(app.hidden_connect_prompt);
}

#[test]
fn forget_and_autoconnect_need_known_focus_and_selection() {
    let wifi = wifi_with(vec![], vec![net("B", false, true)]);
    let mut app = fresh_app(wifi, EthernetState::empty());
    assert_eq!(app.wifi_focus, WifiFocus::NewNetworks);

    assert!(app.wifi_forget_selected(1000).is_none());
    assert_eq!(
        app.toast.as_ref().unwrap().msg,
        "Forget is available in Known Networks"
    );
    assert!(app.wifi_toggle_autoconnect_selected(1100).is_none());
    assert_eq!(
        app.toast.as_ref().unwrap().msg,
        "Autoconnect toggle is available in Known Networks"
    );

    app.wifi_focus = WifiFocus::KnownNetworks;
    assert!(app.wifi_forget_selected(1200).is_none());
    assert_eq!(app.toast.as_ref().unwrap().msg, "No known network selected");
}

#[test]
fn forget_and_autoconnect_report_outcomes() {
    let wifi = wifi_with(vec![net("Home", false, true)], vec![]);
    let mut app = fresh_app(wifi, EthernetState::empty());

    let ssid = app.wifi_forget_selected(1000).expect("an ssid");
    assert_eq!(ssid, "Home");
    let n = app.forget_finished("Home", Ok(()), 1100).expect("a notification");
    assert_eq!(app.toast.as_ref().unwrap().msg, "Forgot network Home");
    assert_eq!(n.body, "Forgot network Home");

    let n = app.autoconnect_finished("Home", Ok(true), 1200).expect("a notification");
    assert_eq!(app.toast.as_ref().unwrap().msg, "Autoconnect enabled for Home");
    assert_eq!(n.body, "Autoconnect enabled: Home");

    let n = app.autoconnect_finished("Home", Ok(false), 1300).expect("a notification");
    assert_eq!(app.toast.as_ref().unwrap().msg, "Autoconnect disabled for Home");
    assert_eq!(n.body, "Autoconnect disabled: Home");

    let n = app.autoconnect_finished("Home", Err("AccessDenied by policy".to_string()), 1400);
    assert!(n.is_none());
    assert_eq!(
        app.toast.as_ref().unwrap().msg,
        "toggle autoconnect requires elevated permissions. Run with proper privileges and retry."
    );
}

#[test]
fn scan_failure_paths_are_reported() {
    let wifi = wifi_with(vec![], vec![]);
    let mut app = fresh_app(wifi, EthernetState::empty());
    assert!(app.wifi_scan(1000));
    let n = app.on_scan_task_done(TaskOutcome::Failure("dbus timeout".to_string()), 1100);
    assert!(n.is_none());
    assert_eq!(app.toast.as_ref().unwrap().msg, "dbus timeout");

    assert!(app.wifi_scan(1200));
    let n = app.on_scan_task_done(TaskOutcome::JoinFailure("task was aborted".to_string()), 1300);
    assert!(n.is_none());
    assert_eq!(app.toast.as_ref().unwrap().msg, "scan task failed: task was aborted");

    assert!(app.wifi_scan(1400));
    let n = app.on_scan_task_done(TaskOutcome::Success, 1500).expect("a notification");
    assert_eq!(app.toast.as_ref().unwrap().msg, "Wi-Fi scan completed");
    assert_eq!(n.body, "Scan completed");
}

#[test]
fn ethernet_selection_follows_name_and_link_toggle_targets_state() {
    let ifaces = vec![
        eth("eth0", "up", Some(true), vec!["10.0.0.2/24".to_string()]),
        eth("eth1", "down", Some(false), vec![]),
    ];
    let mut app = fresh_app(wifi_with(vec![], vec![]), EthernetState { ifaces });
    app.active_tab = ActiveTab::Ethernet;
    app.select_next();
    assert_eq!(app.selected_eth_iface().unwrap().name, "eth1");

    let req = app.ethernet_toggle_link().expect("a link request");
    assert_eq!(req.iface, "eth1");
    assert!(req.up);

    let reordered = vec![
        eth("eth1", "down", Some(false), vec![]),
        eth("eth0", "up", Some(true), vec!["10.0.0.2/24".to_string()]),
    ];
    app.apply_ethernet_snapshot(reordered);
    assert_eq!(app.ethernet_state.selected, Some(0));
    assert_eq!(app.selected_eth_iface().unwrap().name, "eth1");

    app.apply_ethernet_snapshot(vec![]);
    assert_eq!(app.ethernet_state.selected, None);
    assert!(app.ethernet_toggle_link().is_none());
    assert_eq!(app.last_error.as_deref(), Some("no ethernet interface selected"));
}

#[test]
fn refresh_toast_counts_displayed_entries() {
    let mut wifi = wifi_with(vec![net("A", false, true)], vec![net("B", false, true)]);
    wifi.unavailable_known_networks = vec![net("U", false, false)];
    let ifaces = vec![eth("eth0", "up", Some(true), vec![])];
    let mut app = fresh_app(wifi, EthernetState { ifaces });
    app.refresh_current(1000);
    assert_eq!(
        app.toast.as_ref().unwrap().msg,
        "Refreshed (Known: 1, New: 1, Ethernet: 1)"
    );
    app.toggle_known_show_all(1100);
    app.refresh_current(1200);
    assert_eq!(
        app.toast.as_ref().unwrap().msg,
        "Refreshed (Known: 2, New: 1, Ethernet: 1)"
    );
}
