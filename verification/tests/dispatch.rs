use nettui::app::{App, AppConfig};
use nettui::common::{ActiveTab, WifiFocus};
use nettui::ethernet::EthernetState;
use nettui::handler::{handle_key_events, KeyAction, KeyInput, KeyPress};
use nettui::keybinds::Keybinds;
use nettui::wifi::{WifiNetwork, WifiState};

fn key(code: KeyInput) -> KeyPress {
    KeyPress { code, ctrl: false }
}

fn sample_net(ssid: &str) -> WifiNetwork {
    WifiNetwork {
        ssid: ssid.to_string(),
        security: "psk".to_string(),
        signal: "100% x".to_string(),
        connected: false,
        hidden: None,
        autoconnect: None,
        available: true,
    }
}

fn sample_app() -> App {
    let wifi = WifiState {
        ifaces: vec!["wlan0".to_string()],
        connected_ssid: None,
        known_networks: vec![sample_net("A"), sample_net("B")],
        unavailable_known_networks: vec![],
        new_networks: vec![sample_net("N")],
        hidden_networks: vec![],
        device: None,
    };
    App::new(AppConfig::default(), Keybinds::default(), wifi, EthernetState::empty(), None)
}

#[test]
fn quit_keys_stop_the_loop() {
    let mut app = sample_app();
    assert!(app.running);
    let r = handle_key_events(&mut app, key(KeyInput::Char('Q')), 100);
    assert!(matches!(r, KeyAction::Idle));
    assert!(!app.running);

    let mut app = sample_app();
    handle_key_events(&mut app, key(KeyInput::Esc), 100);
    assert!(!app.running);

    let mut app = sample_app();
    app.config.esc_quit = false;
    handle_key_events(&mut app, key(KeyInput::Esc), 100);
    assert!(app.running);

    let mut app = sample_app();
    let r = handle_key_events(&mut app, KeyPress { code: KeyInput::Char('c'), ctrl: true }, 100);
    assert!(matches!(r, KeyAction::Idle));
    assert!(!app.running);
}

#[test]
fn navigation_and_tab_keys() {
    let mut app = sample_app();
    assert_eq!(app.wifi_known_state.selected, Some(0));
    handle_key_events(&mut app, key(KeyInput::Down), 100);
    assert_eq!(app.wifi_known_state.selected, Some(1));
    handle_key_events(&mut app, key(KeyInput::Char('k')), 100);
    assert_eq!(app.wifi_known_state.selected, Some(0));

    handle_key_events(&mut app, key(KeyInput::Right), 100);
    assert_eq!(app.active_tab, ActiveTab::Ethernet);
    handle_key_events(&mut app, key(KeyInput::Char('h')), 100);
    assert_eq!(app.active_tab, ActiveTab::Wifi);

    handle_key_events(&mut app, key(KeyInput::Tab), 100);
    assert_eq!(app.wifi_focus, WifiFocus::NewNetworks);
    handle_key_events(&mut app, key(KeyInput::BackTab), 100);
    assert_eq!(app.wifi_focus, WifiFocus::KnownNetworks);
}

#[test]
fn scan_key_starts_one_task_only() {
    let mut app = sample_app();
    let r = handle_key_events(&mut app, key(KeyInput::Char('s')), 100);
    assert!(matches!(r, KeyAction::StartScan));
    assert!(app.wifi_scanning_active());

    let r = handle_key_events(&mut app, key(KeyInput::Char('s')), 200);
    assert!(matches!(r, KeyAction::Idle));
    assert!(app.wifi_scanning_active());
}

#[test]
fn enter_on_known_network_requests_connect() {
    let mut app = sample_app();
    let r = handle_key_events(&mut app, key(KeyInput::Enter), 100);
    match r {
        KeyAction::Connect(req) => {
            assert_eq!(req.ssid, "A");
            assert!(!req.disconnect);
        },
        other => panic!("expected a connect action, got {:?}", other),
    }
    assert!(app.wifi_connect_active());

    let r = handle_key_events(&mut app, key(KeyInput::Enter), 200);
    assert!(matches!(r, KeyAction::Idle));
}

#[test]
fn refresh_key_clears_error_and_requests_refresh() {
    let mut app = sample_app();
    app.set_last_error("stale".to_string());
    let r = handle_key_events(&mut app, key(KeyInput::Char('r')), 100);
    assert!(matches!(r, KeyAction::Refresh));
    assert!(app.last_error.is_none());
}

#[test]
fn open_prompt_captures_all_keys() {
    let mut app = sample_app();
    handle_key_events(&mut app, key(KeyInput::Tab), 50);
    assert_eq!(app.wifi_focus, WifiFocus::NewNetworks);
    let r = handle_key_events(&mut app, key(KeyInput::Char('n')), 100);
    assert!(matches!(r, KeyAction::Idle));
    assert!(app.hidden_connect_prompt);

    // While the prompt is open, binding characters go into the input.
    let sel_before = app.wifi_new_state.selected;
    handle_key_events(&mut app, key(KeyInput::Char('j')), 150);
    handle_key_events(&mut app, key(KeyInput::Char('q')), 160);
    assert!(app.running);
    assert_eq!(app.wifi_new_state.selected, sel_before);
    assert_eq!(app.hidden_ssid_input, "jq");

    handle_key_events(&mut app, key(KeyInput::Backspace), 170);
    assert_eq!(app.hidden_ssid_input, "j");

    let r = handle_key_events(&mut app, key(KeyInput::Enter), 180);
    match r {
        KeyAction::ConnectHidden(ssid) => assert_eq!(ssid, "j"),
        other => panic!("expected a hidden connect, got {:?}", other),
    }

    let r = handle_key_events(&mut app, key(KeyInput::Esc), 190);
    assert!(matches!(r, KeyAction::Idle));
    assert!(!app.hidden_connect_prompt);
    assert!(app.running);
}

#[test]
fn passphrase_prompt_submits_secret() {
    let mut app = sample_app();
    app.open_wifi_passphrase_prompt("A".to_string());
    handle_key_events(&mut app, key(KeyInput::Char('s')), 100);
    handle_key_events(&mut app, key(KeyInput::Char('3')), 110);
    handle_key_events(&mut app, KeyPress { code: KeyInput::Char('x'), ctrl: true }, 120);
    assert_eq!(app.wifi_passphrase_input, "s3");
    assert!(!app.wifi_scanning_active());

    let r = handle_key_events(&mut app, key(KeyInput::Enter), 130);
    match r {
        KeyAction::ConnectWithPassphrase(req) => {
            assert_eq!(req.ssid, "A");
            assert_eq!(req.passphrase, "s3");
        },
        other => panic!("expected a passphrase connect, got {:?}", other),
    }
    assert!(app.wifi_connect_active());
    assert!(app.wifi_connect_context.as_ref().unwrap().used_passphrase);
    assert!(app.wifi_passphrase_prompt_ssid.is_none());
}

#[test]
fn empty_passphrase_is_refused() {
    let mut app = sample_app();
    app.open_wifi_passphrase_prompt("A".to_string());
    let r = handle_key_events(&mut app, key(KeyInput::Enter), 100);
    assert!(matches!(r, KeyAction::Idle));
    assert!(app.wifi_passphrase_prompt_ssid.is_some());
    assert_eq!(app.toast.as_ref().unwrap().msg, "Passphrase cannot be empty");
    assert!(!app.wifi_connect_active());
}

#[test]
fn show_all_key_toggles_by_focus() {
    let mut app = sample_app();
    assert!(!app.show_unavailable_known_networks);
    handle_key_events(&mut app, key(KeyInput::Char('a')), 100);
    assert!(app.show_unavailable_known_networks);
    assert!(!app.show_hidden_networks);

    handle_key_events(&mut app, key(KeyInput::Tab), 110);
    handle_key_events(&mut app, key(KeyInput::Char('A')), 120);
    assert!(app.show_hidden_networks);
}
