use nettui::app::{snapshot_eth, spinner_frames, friendly_wifi_error, is_no_agent_error};
use nettui::backend::{percent_signal, read_bool, read_u32, should_retry_with_sudo};
use nettui::ethernet::EthernetIface;
use nettui::keybinds::{apply_override, Keybinds};
use nettui::selection::{
    clamp_selected, select_first_if_any, select_next_in_state, select_prev_in_state,
    ListSelection,
};
use nettui::text::{contains_ci, contains_sub, i32_to_string, join_comma, trim_str, u64_to_string};

#[test]
fn selection_first_next_prev_clamp() {
    let mut s = ListSelection::new();
    select_first_if_any(&mut s, 0);
    assert_eq!(s.selected, None);
    select_first_if_any(&mut s, 3);
    assert_eq!(s.selected, Some(0));
    select_next_in_state(&mut s, 3);
    assert_eq!(s.selected, Some(1));
    select_next_in_state(&mut s, 3);
    select_next_in_state(&mut s, 3);
    assert_eq!(s.selected, Some(2));
    select_prev_in_state(&mut s, 3);
    assert_eq!(s.selected, Some(1));
    select_prev_in_state(&mut s, 3);
    select_prev_in_state(&mut s, 3);
    assert_eq!(s.selected, Some(0));
    clamp_selected(&mut s, 1);
    assert_eq!(s.selected, Some(0));
    s.selected = Some(9);
    clamp_selected(&mut s, 4);
    assert_eq!(s.selected, Some(3));
    clamp_selected(&mut s, 0);
    assert_eq!(s.selected, None);
    select_next_in_state(&mut s, 0);
    assert_eq!(s.selected, None);
    select_prev_in_state(&mut s, 2);
    assert_eq!(s.selected, Some(0));
}

#[test]
fn next_then_prev_stays_in_bounds() {
    for len in 1usize..5 {
        for start in 0..len {
            let mut s = ListSelection { selected: Some(start) };
            select_next_in_state(&mut s, len);
            select_prev_in_state(&mut s, len);
            let i = s.selected.unwrap();
            assert!(i < len);
            assert!(i + 1 >= start && i <= start + 1);
        }
    }
}

#[test]
fn decimal_rendering() {
    assert_eq!(u64_to_string(0), "0");
    assert_eq!(u64_to_string(7), "7");
    assert_eq!(u64_to_string(42), "42");
    assert_eq!(u64_to_string(1005), "1005");
    assert_eq!(u64_to_string(u64::MAX), "18446744073709551615");
    assert_eq!(i32_to_string(-200), "-200");
    assert_eq!(i32_to_string(0), "0");
    assert_eq!(i32_to_string(98), "98");
}

#[test]
fn substring_search_and_case_folding() {
    assert!(contains_ci("GDBus: No Agent Registered", "no agent registered"));
    assert!(contains_ci("abc", ""));
    assert!(!contains_ci("abc", "abcd"));
    assert!(contains_ci("xxABCyy", "abc"));
    assert!(!contains_sub("Operation Not Permitted", "Operation not permitted"));
    assert!(contains_sub("renew: Operation not permitted!", "Operation not permitted"));
}

#[test]
fn trimming() {
    assert_eq!(trim_str("  hello \t"), "hello");
    assert_eq!(trim_str("hello"), "hello");
    assert_eq!(trim_str("\r\n \t"), "");
    assert_eq!(trim_str(""), "");
    assert_eq!(trim_str(" a b "), "a b");
}

#[test]
fn join_with_commas() {
    assert_eq!(join_comma(&vec![]), "");
    assert_eq!(join_comma(&vec!["a".to_string()]), "a");
    assert_eq!(
        join_comma(&vec!["1.1.1.1".to_string(), "8.8.8.8".to_string()]),
        "1.1.1.1,8.8.8.8"
    );
}

#[test]
fn sysfs_bool_and_u32_parsing() {
    assert_eq!(read_bool("0"), Some(false));
    assert_eq!(read_bool("1"), Some(true));
    assert_eq!(read_bool(""), None);
    assert_eq!(read_bool("2"), None);
    assert_eq!(read_bool("10"), None);

    assert_eq!(read_u32("0"), Some(0));
    assert_eq!(read_u32("1000"), Some(1000));
    assert_eq!(read_u32("+7"), Some(7));
    assert_eq!(read_u32("4294967295"), Some(u32::MAX));
    assert_eq!(read_u32("4294967296"), None);
    assert_eq!(read_u32("99999999999999999999"), None);
    assert_eq!(read_u32(""), None);
    assert_eq!(read_u32("+"), None);
    assert_eq!(read_u32("12a"), None);
    assert_eq!(read_u32("-5"), None);
}

#[test]
fn sudo_retry_rule() {
    assert!(should_retry_with_sudo("renew: Operation not permitted", Some(5)));
    assert!(should_retry_with_sudo("Permission denied (polkit)", None));
    assert!(should_retry_with_sudo("", Some(1)));
    assert!(!should_retry_with_sudo("some other failure", Some(2)));
    assert!(!should_retry_with_sudo("some other failure", None));
}

#[test]
fn signal_percentage_formatting() {
    assert_eq!(percent_signal(-4500), "100% \u{f0928}");
    assert_eq!(percent_signal(-3000), "100% \u{f0928}");
    assert_eq!(percent_signal(-6200), " 76% \u{f0928}");
    assert_eq!(percent_signal(-7000), " 60% \u{f0925}");
    assert_eq!(percent_signal(-8700), " 26% \u{f0922}");
    assert_eq!(percent_signal(-8800), " 24% \u{f091f}");
    assert_eq!(percent_signal(-20000), "-200% \u{f091f}");
    // Truncating division: -5099 hundredths rounds toward zero to -50 dBm.
    assert_eq!(percent_signal(-5099), "100% \u{f0928}");
}

#[test]
fn friendly_error_rewriting() {
    assert_eq!(
        friendly_wifi_error("scan", "No Agent Registered for this"),
        "scan needs Wi-Fi credentials. Use connect again and enter passphrase."
    );
    assert_eq!(
        friendly_wifi_error("forget known network", "org.freedesktop.AccessDenied"),
        "forget known network requires elevated permissions. Run with proper privileges and retry."
    );
    assert_eq!(
        friendly_wifi_error("scan", "operation Not Permitted"),
        "scan requires elevated permissions. Run with proper privileges and retry."
    );
    assert_eq!(friendly_wifi_error("scan", "dbus timeout"), "dbus timeout");

    assert!(is_no_agent_error("No agent registered"));
    assert!(!is_no_agent_error("agent is fine"));
}

#[test]
fn ethernet_snapshot_line() {
    assert_eq!(snapshot_eth(None), "no interface selected");
    let i = EthernetIface {
        name: "eth0".to_string(),
        operstate: "up".to_string(),
        carrier: Some(true),
        mac: Some("aa:bb".to_string()),
        speed_mbps: Some(1000),
        ipv4: vec!["10.0.0.2/24".to_string(), "10.0.0.3/24".to_string()],
        ipv6: vec![],
        gateway_v4: Some("10.0.0.1".to_string()),
        dns: vec!["1.1.1.1".to_string(), "8.8.8.8".to_string()],
    };
    assert_eq!(
        snapshot_eth(Some(&i)),
        "state=up; carrier=1; ip=10.0.0.2/24; gw=10.0.0.1; dns=1.1.1.1,8.8.8.8"
    );
    let bare = EthernetIface {
        name: "eth1".to_string(),
        operstate: "down".to_string(),
        carrier: None,
        mac: None,
        speed_mbps: None,
        ipv4: vec![],
        ipv6: vec![],
        gateway_v4: None,
        dns: vec![],
    };
    assert_eq!(snapshot_eth(Some(&bare)), "state=down; carrier=?; ip=-; gw=-; dns=-");
}

#[test]
fn keybind_overrides() {
    let mut kb = Keybinds::default();
    assert_eq!(kb.quit, 'q');

    apply_override(&mut kb.quit, None);
    assert_eq!(kb.quit, 'q');
    apply_override(&mut kb.quit, Some("  ".to_string()));
    assert_eq!(kb.quit, 'q');
    apply_override(&mut kb.quit, Some("xy".to_string()));
    assert_eq!(kb.quit, 'q');
    apply_override(&mut kb.quit, Some(" X ".to_string()));
    assert_eq!(kb.quit, 'x');
    apply_override(&mut kb.quit, Some("z".to_string()));
    assert_eq!(kb.quit, 'z');
}

#[test]
fn spinner_frame_list() {
    assert_eq!(spinner_frames(), vec!["-", "\\", "|", "/"]);
}
