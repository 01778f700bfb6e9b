//! What the program decides when it starts: whether to launch a backend of
//! its own, how to reach it, and how long to wait for it.

use vstd::prelude::*;
use vstd::string::StringExecFns;
use crate::text::{chars_of, is_text, lower_text, to_lower, trim_bounds, trim_text, trimmed};

verus! {

/// How long the program waits for its backend to accept connections, in
/// milliseconds.
pub const BACKEND_READY_TIMEOUT_MILLIS: u64 = 12000;

/// How long one attempt to connect may take, in milliseconds.
pub const BACKEND_CONNECT_TIMEOUT_MILLIS: u64 = 250;

/// The pause between two attempts to connect, in milliseconds.
pub const BACKEND_RETRY_PAUSE_MILLIS: u64 = 80;

/// Whether a setting is absent or holds nothing but white space.
pub open spec fn is_blank(value: Option<Seq<char>>) -> bool {
    match value {
        Some(text) => trim_text(text).len() == 0,
        None => true,
    }
}

/// Whether a value of the autostart setting switches autostart off: `0`,
/// `false`, `no` or `off`, without regard to case or to the white space
/// around it.
pub open spec fn switches_off(value: Seq<char>) -> bool {
    let key = lower_text(trim_text(value));
    key == "0"@ || key == "false"@ || key == "no"@ || key == "off"@
}

/// Whether the program launches a backend of its own: not where the address
/// of a backend is given, and otherwise unless the autostart setting
/// switches it off.
pub open spec fn autostart_wanted(
    backend_url: Option<Seq<char>>,
    autostart: Option<Seq<char>>,
) -> bool {
    if !is_blank(backend_url) {
        false
    } else {
        match autostart {
            Some(value) => !switches_off(value),
            None => true,
        }
    }
}

/// What one look at a starting backend leads to.
#[derive(Debug, Clone, Copy, PartialEq, Eq, Structural)]
pub enum ReadyCheck {
    /// The backend accepts connections.
    Ready,
    /// The backend's process has ended before it was ready.
    ExitedEarly,
    /// The backend did not become ready in time.
    TimedOut,
    /// Pause, then look again.
    Retry,
}

/// What one look at a starting backend leads to: an ended process counts
/// first, then an accepted connection, then the time waited so far.
pub open spec fn ready_check(exited: bool, connected: bool, waited_millis: u64) -> ReadyCheck {
    if exited {
        ReadyCheck::ExitedEarly
    } else if connected {
        ReadyCheck::Ready
    } else if waited_millis >= BACKEND_READY_TIMEOUT_MILLIS {
        ReadyCheck::TimedOut
    } else {
        ReadyCheck::Retry
    }
}

/// Whether a setting is absent or holds nothing but white space.
pub fn setting_is_blank(value: &Option<String>) -> (r: bool)
    ensures
        r == is_blank(value.deep_view()),
{
    match value {
        Some(text) => {
            let chars = chars_of(text.as_str());
            let (start, end) = trim_bounds(&chars);
            start == end
        },
        None => true,
    }
}

/// Whether the program launches a backend of its own, given the settings
/// for the backend's address and for autostart.
pub fn should_autostart_backend(backend_url: &Option<String>, autostart: &Option<String>) -> (r:
    bool)
    ensures
        r == autostart_wanted(backend_url.deep_view(), autostart.deep_view()),
{
    if !setting_is_blank(backend_url) {
        return false;
    }
    match autostart {
        Some(value) => {
            let key = to_lower(&trimmed(&chars_of(value.as_str())));
            !(is_text(&key, "0") || is_text(&key, "false") || is_text(&key, "no") || is_text(
                &key,
                "off",
            ))
        },
        None => true,
    }
}

/// Whether the program must warn that requests will lack a credential: it
/// uses a backend it did not launch, and no token is set.
pub fn token_warning_due(autostarted: bool, token: &Option<String>) -> (r: bool)
    ensures
        r == (!autostarted && is_blank(token.deep_view())),
{
    !autostarted && setting_is_blank(token)
}

/// The token of a backend that the program launches itself.
pub fn local_token(unique: &str) -> (r: String)
    ensures
        r@ == "local-"@ + unique@,
{
    String::from_str("local-").concat(unique)
}

/// The address under which a backend bound to `bind_addr` is reached.
pub fn local_base_url(bind_addr: &str) -> (r: String)
    ensures
        r@ == "http://"@ + bind_addr@,
{
    String::from_str("http://").concat(bind_addr)
}

/// Judges one look at a starting backend.
pub fn check_backend_ready(exited: bool, connected: bool, waited_millis: u64) -> (r: ReadyCheck)
    ensures
        r == ready_check(exited, connected, waited_millis),
{
    if exited {
        ReadyCheck::ExitedEarly
    } else if connected {
        ReadyCheck::Ready
    } else if waited_millis >= BACKEND_READY_TIMEOUT_MILLIS {
        ReadyCheck::TimedOut
    } else {
        ReadyCheck::Retry
    }
}

/// Waiting for a backend ends: once the time waited reaches the limit, no
/// look leads to another retry.
pub proof fn lemma_wait_is_bounded(exited: bool, connected: bool, waited_millis: u64)
    requires
        waited_millis >= BACKEND_READY_TIMEOUT_MILLIS,
    ensures
        ready_check(exited, connected, waited_millis) != ReadyCheck::Retry,
{
}

} // verus!
