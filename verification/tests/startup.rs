use ponderer::startup::{
    check_backend_ready, local_base_url, local_token, setting_is_blank, should_autostart_backend,
    token_warning_due, ReadyCheck, BACKEND_CONNECT_TIMEOUT_MILLIS, BACKEND_READY_TIMEOUT_MILLIS,
    BACKEND_RETRY_PAUSE_MILLIS,
};

fn some(text: &str) -> Option<String> {
    Some(text.to_string())
}

#[test]
fn autostart_is_the_default() {
    assert!(should_autostart_backend(&None, &None));
    assert!(should_autostart_backend(&some(""), &None));
    assert!(should_autostart_backend(&some("   "), &some("1")));
    assert!(should_autostart_backend(&None, &some("yes")));
    assert!(should_autostart_backend(&None, &some("")));
}

#[test]
fn given_backend_address_rules_autostart_out() {
    assert!(!should_autostart_backend(&some("http://10.0.0.2:8787"), &None));
    assert!(!should_autostart_backend(&some("http://10.0.0.2:8787"), &some("1")));
}

#[test]
fn autostart_can_be_switched_off() {
    for value in ["0", "false", "no", "off", " OFF ", "False", "No\n"] {
        assert!(!should_autostart_backend(&None, &some(value)), "{:?}", value);
    }
    for value in ["00", "nope", "disabled", "o f f"] {
        assert!(should_autostart_backend(&None, &some(value)), "{:?}", value);
    }
}

#[test]
fn blank_settings() {
    assert!(setting_is_blank(&None));
    assert!(setting_is_blank(&some("")));
    assert!(setting_is_blank(&some(" \t\n")));
    assert!(!setting_is_blank(&some(" x ")));
}

#[test]
fn token_warning() {
    assert!(token_warning_due(false, &None));
    assert!(token_warning_due(false, &some("  ")));
    assert!(!token_warning_due(false, &some("secret")));
    assert!(!token_warning_due(true, &None));
}

#[test]
fn local_backend_names() {
    assert_eq!(local_token("1234-abcd"), "local-1234-abcd");
    assert_eq!(local_base_url("127.0.0.1:40123"), "http://127.0.0.1:40123");
}

#[test]
fn waiting_for_the_backend() {
    assert_eq!(BACKEND_READY_TIMEOUT_MILLIS, 12_000);
    assert_eq!(BACKEND_CONNECT_TIMEOUT_MILLIS, 250);
    assert_eq!(BACKEND_RETRY_PAUSE_MILLIS, 80);
    assert_eq!(check_backend_ready(true, true, 0), ReadyCheck::ExitedEarly);
    assert_eq!(check_backend_ready(true, false, 20_000), ReadyCheck::ExitedEarly);
    assert_eq!(check_backend_ready(false, true, 0), ReadyCheck::Ready);
    assert_eq!(check_backend_ready(false, true, 20_000), ReadyCheck::Ready);
    assert_eq!(check_backend_ready(false, false, 11_999), ReadyCheck::Retry);
    assert_eq!(check_backend_ready(false, false, 12_000), ReadyCheck::TimedOut);
}
