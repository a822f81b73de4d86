//! Key dispatch: one priority chain from a pressed key to a state change
//! and, possibly, one background action for the driving loop to perform.
//! An open input prompt intercepts every key before anything else.

use vstd::prelude::*;
use crate::app::{
    App, ConnectRequest, LinkRequest, PassphraseRequest, TOAST_DURATION_MS, opt_string_is,
    spec_app_focus_next, spec_app_focus_prev, spec_app_quit, spec_app_select_next,
    spec_app_select_prev, spec_app_switch_tab, spec_msg_connecting, spec_msg_show_all,
    toast_shows,
};
use crate::common::{ActiveTab, ToastKind, WifiFocus};
use crate::selection::spec_clamp;
use crate::text::{chars_eq_ignore_case, lower_code, spec_trim};

verus! {

/// The one piece of outside work a key press asks the driving loop to
/// perform.
#[derive(Clone, Debug)]
pub enum KeyAction {
    Idle,
    Refresh,
    StartScan,
    Connect(ConnectRequest),
    ConnectHidden(String),
    ConnectWithPassphrase(PassphraseRequest),
    Forget(String),
    ToggleAutoconnect(String),
    RenewDhcp(String),
    SetLink(LinkRequest),
}

/// A pressed key, reduced to what the dispatch rules look at.
#[derive(Clone, Copy, Debug, PartialEq, Eq, Structural)]
pub enum KeyInput {
    Esc,
    Enter,
    Backspace,
    Tab,
    BackTab,
    Up,
    Down,
    Left,
    Right,
    Char(char),
}

/// A key press: the key and whether Control was held.
#[derive(Clone, Copy, Debug, PartialEq, Eq, Structural)]
pub struct KeyPress {
    pub code: KeyInput,
    pub ctrl: bool,
}

/// What a typed character resolves to outside any prompt: the bindings are
/// tried in this fixed priority order and the first match wins.
pub enum CharCommand {
    Quit,
    NextTab,
    PrevTab,
    SelectNext,
    SelectPrev,
    Refresh,
    Scan,
    ShowAll,
    Forget,
    Autoconnect,
    HiddenPrompt,
    Confirm,
    Details,
    Renew,
    Nothing,
}

/// The dispatch rule for a typed character outside any prompt, in the
/// declared priority order: quit, Ctrl-C, tab switches, cursor moves,
/// refresh, then the wireless keys (scan, show-all, forget and autoconnect
/// in the known view, hidden prompt in the new view, space as confirm in a
/// network view, details) and the wired renew key.
pub open spec fn spec_char_command(a: App, c: char, ctrl: bool) -> CharCommand {
    if lower_code(c) == lower_code(a.keybinds.quit) {
        CharCommand::Quit
    } else if ctrl && (c == 'c' || c == 'C') {
        CharCommand::Quit
    } else if lower_code(c) == lower_code(a.keybinds.next_tab) {
        CharCommand::NextTab
    } else if lower_code(c) == lower_code(a.keybinds.prev_tab) {
        CharCommand::PrevTab
    } else if lower_code(c) == lower_code(a.keybinds.down) {
        CharCommand::SelectNext
    } else if lower_code(c) == lower_code(a.keybinds.up) {
        CharCommand::SelectPrev
    } else if lower_code(c) == lower_code(a.keybinds.refresh) {
        CharCommand::Refresh
    } else if a.active_tab is Wifi && lower_code(c) == lower_code(a.keybinds.wifi_scan) {
        CharCommand::Scan
    } else if a.active_tab is Wifi && lower_code(c) == lower_code(a.keybinds.wifi_show_all) {
        CharCommand::ShowAll
    } else if a.active_tab is Wifi && a.wifi_focus is KnownNetworks && lower_code(c)
        == lower_code(a.keybinds.wifi_forget) {
        CharCommand::Forget
    } else if a.active_tab is Wifi && a.wifi_focus is KnownNetworks && lower_code(c)
        == lower_code(a.keybinds.wifi_autoconnect) {
        CharCommand::Autoconnect
    } else if a.active_tab is Wifi && a.wifi_focus is NewNetworks && lower_code(c)
        == lower_code(a.keybinds.wifi_hidden) {
        CharCommand::HiddenPrompt
    } else if a.active_tab is Wifi && c == ' ' && (a.wifi_focus is KnownNetworks
        || a.wifi_focus is NewNetworks) {
        CharCommand::Confirm
    } else if a.active_tab is Wifi && lower_code(c) == lower_code(a.keybinds.wifi_details) {
        CharCommand::Details
    } else if a.active_tab is Ethernet && lower_code(c) == lower_code(a.keybinds.ethernet_renew) {
        CharCommand::Renew
    } else {
        CharCommand::Nothing
    }
}

/// What a confirm key does after the error banner is cleared: exactly the
/// connect-or-disconnect contract — a soft refusal with a toast while a
/// task is outstanding, nothing is selected, or the selection is a known
/// network out of range, and otherwise the connect slot taken, the context
/// recorded, the feedback raised, and the matching request returned.
pub open spec fn connect_cases(pre: App, post: App, r: KeyAction, now_ms: u64) -> bool {
    &&& (pre.wifi_connect_pending ==> post == (App {
        last_error: Option::None,
        toast: post.toast,
        ..pre
    }) && toast_shows(
        post.toast,
        ToastKind::Info,
        "Wi-Fi connect/disconnect already in progress"@,
        now_ms,
    ) && r is Idle)
    &&& (!pre.wifi_connect_pending && pre.spec_selected_wifi_network() is None ==> post == (App {
        last_error: Option::None,
        toast: post.toast,
        ..pre
    }) && toast_shows(post.toast, ToastKind::Error, "No network selected"@, now_ms) && r is Idle)
    &&& (!pre.wifi_connect_pending ==> match pre.spec_selected_wifi_network() {
        Option::Some(n) => {
            &&& (pre.wifi_focus is KnownNetworks && !n.available ==> post == (App {
                last_error: Option::None,
                toast: post.toast,
                ..pre
            }) && toast_shows(
                post.toast,
                ToastKind::Info,
                "Unavailable known network cannot be connected directly"@,
                now_ms,
            ) && r is Idle)
            &&& (!(pre.wifi_focus is KnownNetworks && !n.available) ==> {
                &&& post == (App {
                    last_error: Option::None,
                    wifi_connect_pending: true,
                    wifi_connect_context: post.wifi_connect_context,
                    last_action: post.last_action,
                    toast: post.toast,
                    ..pre
                })
                &&& match post.wifi_connect_context {
                    Option::Some(c) => c.ssid@ == n.ssid@ && c.disconnect == n.connected
                        && !c.used_passphrase,
                    Option::None => false,
                }
                &&& opt_string_is(
                    post.last_action,
                    if n.connected {
                        "Disconnecting Wi-Fi..."@
                    } else {
                        spec_msg_connecting(n.ssid@)
                    },
                )
                &&& toast_shows(
                    post.toast,
                    ToastKind::Info,
                    if n.connected {
                        "Disconnecting Wi-Fi..."@
                    } else {
                        spec_msg_connecting(n.ssid@)
                    },
                    now_ms,
                )
                &&& match r {
                    KeyAction::Connect(req) => req.ssid@ == n.ssid@ && req.disconnect
                        == n.connected,
                    _ => false,
                }
            })
        },
        Option::None => true,
    })
}

/// What the wired confirm key does after the error banner is cleared:
/// without a selection only the sticky error is raised; otherwise the
/// state is untouched and the returned request names the interface and the
/// state to force it into.
pub open spec fn link_cases(pre: App, post: App, r: KeyAction) -> bool {
    &&& (pre.spec_selected_eth() is None ==> post == (App {
        last_error: post.last_error,
        ..pre
    }) && opt_string_is(post.last_error, "no ethernet interface selected"@) && r is Idle)
    &&& (match pre.spec_selected_eth() {
        Option::Some(i) => post == (App { last_error: Option::None, ..pre }) && match r {
            KeyAction::SetLink(req) => req.iface@ == i.name@ && req.up == !(i.operstate@ == "up"@
                || i.carrier == Option::Some(true)),
            _ => false,
        },
        Option::None => true,
    })
}

/// The full effect of Enter outside any prompt: confirm in a wireless
/// network view, toggle the link in the wired view, nothing in the adapter
/// view.
pub open spec fn confirm_post(pre: App, post: App, r: KeyAction, now_ms: u64) -> bool {
    &&& (pre.active_tab is Wifi && (pre.wifi_focus is KnownNetworks
        || pre.wifi_focus is NewNetworks) ==> connect_cases(pre, post, r, now_ms))
    &&& (pre.active_tab is Wifi && pre.wifi_focus is Adapter ==> post == pre && r is Idle)
    &&& (pre.active_tab is Ethernet ==> link_cases(pre, post, r))
}

/// The full effect of a typed character outside any prompt, by the
/// priority rule of `spec_char_command`.
pub open spec fn char_post(pre: App, post: App, r: KeyAction, c: char, ctrl: bool, now_ms: u64) -> bool {
    match spec_char_command(pre, c, ctrl) {
        CharCommand::Quit => post == spec_app_quit(pre) && r is Idle,
        CharCommand::NextTab => post == spec_app_switch_tab(pre) && r is Idle,
        CharCommand::PrevTab => post == spec_app_switch_tab(pre) && r is Idle,
        CharCommand::SelectNext => post == spec_app_select_next(pre) && r is Idle,
        CharCommand::SelectPrev => post == spec_app_select_prev(pre) && r is Idle,
        CharCommand::Refresh => post == (App { last_error: Option::None, ..pre }) && r is Refresh,
        CharCommand::Scan => {
            &&& (pre.wifi_scan_pending ==> post == (App {
                last_error: Option::None,
                toast: post.toast,
                ..pre
            }) && toast_shows(post.toast, ToastKind::Info, "Wi-Fi scan already running"@, now_ms)
                && r is Idle)
            &&& (!pre.wifi_scan_pending ==> post == (App {
                last_error: Option::None,
                wifi_scan_pending: true,
                last_action: post.last_action,
                toast: post.toast,
                ..pre
            }) && opt_string_is(post.last_action, "Wi-Fi scan requested"@) && toast_shows(
                post.toast,
                ToastKind::Info,
                "Wi-Fi scan requested..."@,
                now_ms,
            ) && r is StartScan)
        },
        CharCommand::ShowAll => match pre.wifi_focus {
            WifiFocus::KnownNetworks => post == (App {
                show_unavailable_known_networks: !pre.show_unavailable_known_networks,
                wifi_known_state: post.wifi_known_state,
                toast: post.toast,
                ..pre
            }) && post.wifi_known_state.selected == spec_clamp(
                pre.wifi_known_state.selected,
                post.spec_known_total_len() as usize,
            ) && toast_shows(
                post.toast,
                ToastKind::Info,
                spec_msg_show_all(
                    "Known: show all "@,
                    !pre.show_unavailable_known_networks,
                    post.spec_known_total_len() as nat,
                ),
                now_ms,
            ) && r is Idle,
            WifiFocus::NewNetworks => post == (App {
                show_hidden_networks: !pre.show_hidden_networks,
                wifi_new_state: post.wifi_new_state,
                toast: post.toast,
                ..pre
            }) && post.wifi_new_state.selected == spec_clamp(
                pre.wifi_new_state.selected,
                post.spec_new_total_len() as usize,
            ) && toast_shows(
                post.toast,
                ToastKind::Info,
                spec_msg_show_all(
                    "New: show all "@,
                    !pre.show_hidden_networks,
                    post.spec_new_total_len() as nat,
                ),
                now_ms,
            ) && r is Idle,
            WifiFocus::Adapter => post == pre && r is Idle,
        },
        CharCommand::Forget => match pre.spec_selected_known() {
            Option::Some(net) => post == (App { last_error: Option::None, ..pre }) && match r {
                KeyAction::Forget(s) => s@ == net.ssid@,
                _ => false,
            },
            Option::None => post == (App {
                last_error: Option::None,
                toast: post.toast,
                ..pre
            }) && toast_shows(post.toast, ToastKind::Error, "No known network selected"@, now_ms)
                && r is Idle,
        },
        CharCommand::Autoconnect => match pre.spec_selected_known() {
            Option::Some(net) => post == (App { last_error: Option::None, ..pre }) && match r {
                KeyAction::ToggleAutoconnect(s) => s@ == net.ssid@,
                _ => false,
            },
            Option::None => post == (App {
                last_error: Option::None,
                toast: post.toast,
                ..pre
            }) && toast_shows(post.toast, ToastKind::Error, "No known network selected"@, now_ms)
                && r is Idle,
        },
        CharCommand::HiddenPrompt => post == (App {
            hidden_connect_prompt: true,
            hidden_ssid_input: post.hidden_ssid_input,
            ..pre
        }) && post.hidden_ssid_input@.len() == 0 && r is Idle,
        CharCommand::Confirm => connect_cases(pre, post, r, now_ms),
        CharCommand::Details => {
            &&& (!pre.wifi.spec_has_adapter() ==> post == (App { toast: post.toast, ..pre })
                && toast_shows(post.toast, ToastKind::Error, "No Wi-Fi adapter found"@, now_ms)
                && r is Idle)
            &&& (pre.wifi.spec_has_adapter() ==> post == (App {
                show_wifi_details: !pre.show_wifi_details,
                ..pre
            }) && r is Idle)
        },
        CharCommand::Renew => {
            &&& (pre.spec_selected_eth() is None ==> post == (App {
                last_error: post.last_error,
                ..pre
            }) && opt_string_is(post.last_error, "no ethernet interface selected"@) && r is Idle)
            &&& (match pre.spec_selected_eth() {
                Option::Some(i) => post == (App { last_error: Option::None, ..pre }) && match r {
                    KeyAction::RenewDhcp(s) => s@ == i.name@,
                    _ => false,
                },
                Option::None => true,
            })
        },
        CharCommand::Nothing => post == pre && r is Idle,
    }
}

/// The full effect of a key while the passphrase prompt is open: Esc
/// closes it, Enter submits it (with the empty-input and single-flight
/// refusals of the submit rule), Backspace removes the last input
/// character, a character without Control appends, and every other key —
/// navigation, tabs, actions — does nothing at all.
pub open spec fn passphrase_prompt_post(
    pre: App,
    post: App,
    r: KeyAction,
    key: KeyPress,
    now_ms: u64,
) -> bool {
    match key.code {
        KeyInput::Esc => post == (App {
            wifi_passphrase_prompt_ssid: Option::None,
            wifi_passphrase_input: post.wifi_passphrase_input,
            ..pre
        }) && post.wifi_passphrase_input@.len() == 0 && r is Idle,
        KeyInput::Enter => match pre.wifi_passphrase_prompt_ssid {
            Option::Some(ssid) => {
                &&& (pre.wifi_passphrase_input@.len() == 0 ==> post == (App {
                    toast: post.toast,
                    ..pre
                }) && toast_shows(post.toast, ToastKind::Error, "Passphrase cannot be empty"@, now_ms)
                    && r is Idle)
                &&& (pre.wifi_passphrase_input@.len() > 0 && pre.wifi_connect_pending ==> post
                    == (App { toast: post.toast, ..pre }) && toast_shows(
                    post.toast,
                    ToastKind::Info,
                    "Wi-Fi connect already in progress"@,
                    now_ms,
                ) && r is Idle)
                &&& (pre.wifi_passphrase_input@.len() > 0 && !pre.wifi_connect_pending ==> {
                    &&& post == (App {
                        wifi_connect_pending: true,
                        wifi_connect_context: post.wifi_connect_context,
                        wifi_passphrase_prompt_ssid: Option::None,
                        wifi_passphrase_input: post.wifi_passphrase_input,
                        last_action: post.last_action,
                        toast: post.toast,
                        ..pre
                    })
                    &&& post.wifi_passphrase_input@.len() == 0
                    &&& match post.wifi_connect_context {
                        Option::Some(c) => c.ssid@ == ssid@ && !c.disconnect && c.used_passphrase,
                        Option::None => false,
                    }
                    &&& opt_string_is(post.last_action, spec_msg_connecting(ssid@))
                    &&& toast_shows(post.toast, ToastKind::Info, spec_msg_connecting(ssid@), now_ms)
                    &&& match r {
                        KeyAction::ConnectWithPassphrase(req) => req.ssid@ == ssid@
                            && req.passphrase@ == pre.wifi_passphrase_input@,
                        _ => false,
                    }
                })
            },
            Option::None => true,
        },
        KeyInput::Backspace => post == (App {
            wifi_passphrase_input: post.wifi_passphrase_input,
            ..pre
        }) && (pre.wifi_passphrase_input@.len() == 0 ==> post.wifi_passphrase_input@
            == pre.wifi_passphrase_input@) && (pre.wifi_passphrase_input@.len() > 0
            ==> post.wifi_passphrase_input@ == pre.wifi_passphrase_input@.drop_last()) && r is Idle,
        KeyInput::Char(c) => if key.ctrl {
            post == pre && r is Idle
        } else {
            post == (App { wifi_passphrase_input: post.wifi_passphrase_input, ..pre })
                && post.wifi_passphrase_input@ == pre.wifi_passphrase_input@.push(c) && r is Idle
        },
        _ => post == pre && r is Idle,
    }
}

/// The full effect of a key while the hidden-network prompt is open,
/// mirroring the passphrase prompt rule with the hidden submit's
/// validation (blank input and the connect single-flight refuse softly; a
/// valid submission hands back the trimmed SSID and leaves the prompt open
/// until the outcome is reported).
pub open spec fn hidden_prompt_post(
    pre: App,
    post: App,
    r: KeyAction,
    key: KeyPress,
    now_ms: u64,
) -> bool {
    match key.code {
        KeyInput::Esc => post == (App {
            hidden_connect_prompt: false,
            hidden_ssid_input: post.hidden_ssid_input,
            ..pre
        }) && post.hidden_ssid_input@.len() == 0 && r is Idle,
        KeyInput::Enter => {
            &&& (spec_trim(pre.hidden_ssid_input@).len() == 0 ==> post == (App {
                toast: post.toast,
                ..pre
            }) && toast_shows(post.toast, ToastKind::Error, "SSID cannot be empty"@, now_ms)
                && r is Idle)
            &&& (spec_trim(pre.hidden_ssid_input@).len() > 0 && pre.wifi_connect_pending ==> post
                == (App { toast: post.toast, ..pre }) && toast_shows(
                post.toast,
                ToastKind::Info,
                "Wi-Fi connect already in progress"@,
                now_ms,
            ) && r is Idle)
            &&& (spec_trim(pre.hidden_ssid_input@).len() > 0 && !pre.wifi_connect_pending ==> post
                == pre && match r {
                KeyAction::ConnectHidden(s) => s@ == spec_trim(pre.hidden_ssid_input@),
                _ => false,
            })
        },
        KeyInput::Backspace => post == (App {
            hidden_ssid_input: post.hidden_ssid_input,
            ..pre
        }) && (pre.hidden_ssid_input@.len() == 0 ==> post.hidden_ssid_input@
            == pre.hidden_ssid_input@) && (pre.hidden_ssid_input@.len() > 0
            ==> post.hidden_ssid_input@ == pre.hidden_ssid_input@.drop_last()) && r is Idle,
        KeyInput::Char(c) => if key.ctrl {
            post == pre && r is Idle
        } else {
            post == (App { hidden_ssid_input: post.hidden_ssid_input, ..pre })
                && post.hidden_ssid_input@ == pre.hidden_ssid_input@.push(c) && r is Idle
        },
        _ => post == pre && r is Idle,
    }
}

/// Dispatch one key press. The state transition happens here; the returned
/// action is the one piece of outside work the caller must perform, with
/// its completion reported back through the corresponding method.
///
/// While an input prompt is open it has exclusive priority: no navigation,
/// tab switch or other action key is processed, and the only possible
/// actions are the prompt's own submission.
pub fn handle_key_events(app: &mut App, key: KeyPress, now_ms: u64) -> (r: KeyAction)
    requires
        old(app).wf(),
        now_ms <= u64::MAX - TOAST_DURATION_MS,
    ensures
        final(app).wf(),
        old(app).wifi_passphrase_prompt_ssid is Some ==> passphrase_prompt_post(
            *old(app),
            *final(app),
            r,
            key,
            now_ms,
        ),
        old(app).wifi_passphrase_prompt_ssid is None && old(app).hidden_connect_prompt
            ==> hidden_prompt_post(*old(app), *final(app), r, key, now_ms),
        old(app).wifi_passphrase_prompt_ssid is None && !old(app).hidden_connect_prompt ==> match
        key.code {
            KeyInput::Esc => (old(app).config.esc_quit ==> *final(app) == spec_app_quit(
                *old(app),
            )) && (!old(app).config.esc_quit ==> *final(app) == *old(app)) && r is Idle,
            KeyInput::Right => *final(app) == spec_app_switch_tab(*old(app)) && r is Idle,
            KeyInput::Left => *final(app) == spec_app_switch_tab(*old(app)) && r is Idle,
            KeyInput::Tab => *final(app) == spec_app_focus_next(*old(app)) && r is Idle,
            KeyInput::BackTab => *final(app) == spec_app_focus_prev(*old(app)) && r is Idle,
            KeyInput::Down => *final(app) == spec_app_select_next(*old(app)) && r is Idle,
            KeyInput::Up => *final(app) == spec_app_select_prev(*old(app)) && r is Idle,
            KeyInput::Enter => confirm_post(*old(app), *final(app), r, now_ms),
            KeyInput::Backspace => *final(app) == *old(app) && r is Idle,
            KeyInput::Char(c) => char_post(*old(app), *final(app), r, c, key.ctrl, now_ms),
        },
        old(app).wifi_scan_pending ==> !(r is StartScan),
        old(app).wifi_connect_pending ==> !(r is Connect) && !(r is ConnectWithPassphrase),
        r is StartScan ==> final(app).wifi_scan_pending && !old(app).wifi_scan_pending,
        match r {
            KeyAction::Connect(req) => final(app).wifi_connect_pending && match final(app).wifi_connect_context {
                Option::Some(c) => c.ssid@ == req.ssid@ && c.disconnect == req.disconnect
                    && !c.used_passphrase,
                Option::None => false,
            },
            KeyAction::ConnectWithPassphrase(req) => final(app).wifi_connect_pending
                && match final(app).wifi_connect_context {
                Option::Some(c) => c.ssid@ == req.ssid@ && !c.disconnect && c.used_passphrase,
                Option::None => false,
            },
            _ => true,
        },
        old(app).wifi_passphrase_prompt_ssid is None && !old(app).hidden_connect_prompt && (match
        key.code {
            KeyInput::Char(c) => lower_code(c) == lower_code(old(app).keybinds.quit) || (key.ctrl
                && (c == 'c' || c == 'C')),
            KeyInput::Esc => old(app).config.esc_quit,
            _ => false,
        }) ==> !final(app).running,
{
    if app.wifi_passphrase_prompt_ssid.is_some() {
        match key.code {
            KeyInput::Esc => {
                app.close_wifi_passphrase_prompt();
                KeyAction::Idle
            },
            KeyInput::Enter => {
                match app.submit_wifi_passphrase_connect(now_ms) {
                    Option::Some(req) => KeyAction::ConnectWithPassphrase(req),
                    Option::None => KeyAction::Idle,
                }
            },
            KeyInput::Backspace => {
                app.passphrase_input_backspace();
                KeyAction::Idle
            },
            KeyInput::Char(c) => {
                if !key.ctrl {
                    app.passphrase_input_push(c);
                }
                KeyAction::Idle
            },
            _ => KeyAction::Idle,
        }
    } else if app.hidden_connect_prompt {
        match key.code {
            KeyInput::Esc => {
                app.close_hidden_connect_prompt();
                KeyAction::Idle
            },
            KeyInput::Enter => {
                match app.submit_hidden_connect(now_ms) {
                    Option::Some(ssid) => KeyAction::ConnectHidden(ssid),
                    Option::None => KeyAction::Idle,
                }
            },
            KeyInput::Backspace => {
                app.hidden_input_backspace();
                KeyAction::Idle
            },
            KeyInput::Char(c) => {
                if !key.ctrl {
                    app.hidden_input_push(c);
                }
                KeyAction::Idle
            },
            _ => KeyAction::Idle,
        }
    } else {
        match key.code {
            KeyInput::Esc => {
                if app.config.esc_quit {
                    app.quit();
                }
                KeyAction::Idle
            },
            KeyInput::Right => {
                app.switch_transport_next();
                KeyAction::Idle
            },
            KeyInput::Left => {
                app.switch_transport_prev();
                KeyAction::Idle
            },
            KeyInput::Tab => {
                app.switch_focus_next();
                KeyAction::Idle
            },
            KeyInput::BackTab => {
                app.switch_focus_prev();
                KeyAction::Idle
            },
            KeyInput::Down => {
                app.select_next();
                KeyAction::Idle
            },
            KeyInput::Up => {
                app.select_prev();
                KeyAction::Idle
            },
            KeyInput::Enter => dispatch_confirm(app, now_ms),
            KeyInput::Backspace => KeyAction::Idle,
            KeyInput::Char(c) => dispatch_char(app, key, c, now_ms),
        }
    }
}

/// Enter outside any prompt: connect or disconnect in the wireless network
/// views, toggle the link in the wired view.
fn dispatch_confirm(app: &mut App, now_ms: u64) -> (r: KeyAction)
    requires
        old(app).wf(),
        now_ms <= u64::MAX - TOAST_DURATION_MS,
    ensures
        final(app).wf(),
        confirm_post(*old(app), *final(app), r, now_ms),
        old(app).wifi_connect_pending ==> !(r is Connect) && !(r is ConnectWithPassphrase),
        !(r is StartScan),
        final(app).wifi_scan_pending == old(app).wifi_scan_pending,
        match r {
            KeyAction::Connect(req) => final(app).wifi_connect_pending && match final(app).wifi_connect_context {
                Option::Some(c) => c.ssid@ == req.ssid@ && c.disconnect == req.disconnect
                    && !c.used_passphrase,
                Option::None => false,
            },
            KeyAction::ConnectWithPassphrase(req) => false,
            _ => true,
        },
        final(app).running == old(app).running,
{
    let in_network_view = match app.wifi_focus {
        WifiFocus::KnownNetworks => true,
        WifiFocus::NewNetworks => true,
        WifiFocus::Adapter => false,
    };
    if matches_wifi_tab(app) && in_network_view {
        app.clear_error();
        match app.wifi_connect_or_disconnect(now_ms) {
            Option::Some(req) => KeyAction::Connect(req),
            Option::None => KeyAction::Idle,
        }
    } else if matches_eth_tab(app) {
        app.clear_error();
        match app.ethernet_toggle_link() {
            Option::Some(req) => KeyAction::SetLink(req),
            Option::None => KeyAction::Idle,
        }
    } else {
        KeyAction::Idle
    }
}

/// A typed character outside any prompt, tried against the bindings in
/// their fixed priority order; the first match wins.
#[verifier::rlimit(100)]
fn dispatch_char(app: &mut App, key: KeyPress, c: char, now_ms: u64) -> (r: KeyAction)
    requires
        old(app).wf(),
        now_ms <= u64::MAX - TOAST_DURATION_MS,
    ensures
        final(app).wf(),
        char_post(*old(app), *final(app), r, c, key.ctrl, now_ms),
        old(app).wifi_connect_pending ==> !(r is Connect) && !(r is ConnectWithPassphrase),
        old(app).wifi_scan_pending ==> !(r is StartScan),
        r is StartScan ==> final(app).wifi_scan_pending && !old(app).wifi_scan_pending,
        match r {
            KeyAction::Connect(req) => final(app).wifi_connect_pending && match final(app).wifi_connect_context {
                Option::Some(c2) => c2.ssid@ == req.ssid@ && c2.disconnect == req.disconnect
                    && !c2.used_passphrase,
                Option::None => false,
            },
            KeyAction::ConnectWithPassphrase(req) => false,
            _ => true,
        },
        lower_code(c) == lower_code(old(app).keybinds.quit) ==> !final(app).running,
{
    if chars_eq_ignore_case(c, app.keybinds.quit) {
        app.quit();
        KeyAction::Idle
    } else if key.ctrl && (c == 'c' || c == 'C') {
        app.quit();
        KeyAction::Idle
    } else if chars_eq_ignore_case(c, app.keybinds.next_tab) {
        app.switch_transport_next();
        KeyAction::Idle
    } else if chars_eq_ignore_case(c, app.keybinds.prev_tab) {
        app.switch_transport_prev();
        KeyAction::Idle
    } else if chars_eq_ignore_case(c, app.keybinds.down) {
        app.select_next();
        KeyAction::Idle
    } else if chars_eq_ignore_case(c, app.keybinds.up) {
        app.select_prev();
        KeyAction::Idle
    } else if chars_eq_ignore_case(c, app.keybinds.refresh) {
        app.clear_error();
        KeyAction::Refresh
    } else if matches_wifi_tab(app) && chars_eq_ignore_case(c, app.keybinds.wifi_scan) {
        app.clear_error();
        if app.wifi_scan(now_ms) {
            KeyAction::StartScan
        } else {
            KeyAction::Idle
        }
    } else if matches_wifi_tab(app) && chars_eq_ignore_case(c, app.keybinds.wifi_show_all) {
        match app.wifi_focus {
            WifiFocus::KnownNetworks => app.toggle_known_show_all(now_ms),
            WifiFocus::NewNetworks => app.toggle_new_show_all(now_ms),
            WifiFocus::Adapter => {},
        }
        KeyAction::Idle
    } else if matches_wifi_tab(app) && matches_known_focus(app) && chars_eq_ignore_case(
        c,
        app.keybinds.wifi_forget,
    ) {
        app.clear_error();
        match app.wifi_forget_selected(now_ms) {
            Option::Some(ssid) => KeyAction::Forget(ssid),
            Option::None => KeyAction::Idle,
        }
    } else if matches_wifi_tab(app) && matches_known_focus(app) && chars_eq_ignore_case(
        c,
        app.keybinds.wifi_autoconnect,
    ) {
        app.clear_error();
        match app.wifi_toggle_autoconnect_selected(now_ms) {
            Option::Some(ssid) => KeyAction::ToggleAutoconnect(ssid),
            Option::None => KeyAction::Idle,
        }
    } else if matches_wifi_tab(app) && matches_new_focus(app) && chars_eq_ignore_case(
        c,
        app.keybinds.wifi_hidden,
    ) {
        app.open_hidden_connect_prompt();
        KeyAction::Idle
    } else if matches_wifi_tab(app) && c == ' ' && (matches_known_focus(app) || matches_new_focus(
        app,
    )) {
        app.clear_error();
        match app.wifi_connect_or_disconnect(now_ms) {
            Option::Some(req) => KeyAction::Connect(req),
            Option::None => KeyAction::Idle,
        }
    } else if matches_wifi_tab(app) && chars_eq_ignore_case(c, app.keybinds.wifi_details) {
        app.toggle_wifi_details(now_ms);
        KeyAction::Idle
    } else if matches_eth_tab(app) && chars_eq_ignore_case(c, app.keybinds.ethernet_renew) {
        app.clear_error();
        match app.ethernet_renew_dhcp() {
            Option::Some(iface) => KeyAction::RenewDhcp(iface),
            Option::None => KeyAction::Idle,
        }
    } else {
        KeyAction::Idle
    }
}

fn matches_wifi_tab(app: &App) -> (r: bool)
    ensures
        r == (app.active_tab is Wifi),
{
    match app.active_tab {
        ActiveTab::Wifi => true,
        ActiveTab::Ethernet => false,
    }
}

fn matches_eth_tab(app: &App) -> (r: bool)
    ensures
        r == (app.active_tab is Ethernet),
{
    match app.active_tab {
        ActiveTab::Wifi => false,
        ActiveTab::Ethernet => true,
    }
}

fn matches_known_focus(app: &App) -> (r: bool)
    ensures
        r == (app.wifi_focus is KnownNetworks),
{
    match app.wifi_focus {
        WifiFocus::KnownNetworks => true,
        _ => false,
    }
}

fn matches_new_focus(app: &App) -> (r: bool)
    ensures
        r == (app.wifi_focus is NewNetworks),
{
    match app.wifi_focus {
        WifiFocus::NewNetworks => true,
        _ => false,
    }
}

} // verus!
