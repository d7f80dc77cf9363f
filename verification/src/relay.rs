//! The cloud relay client's decisions: whether to wait, to pick a device code,
//! or to connect, and to which WebSocket address; and the flag that stops it.
use vstd::prelude::*;
use vstd::string::*;
use std::sync::Arc;
use std::sync::atomic::AtomicBool;
use std::sync::atomic::Ordering;
use crate::config::{is_token, ConfigManager, Config};
use crate::server::{build_status_snapshot, header_view, status_at, StatusSnapshot};
use crate::clock::TimeOfDay;
use crate::text::{
    ascii_upper, push_str, replace_all, replaced, str_eq, to_owned_string, trim, trim_end_char, trimmed,
    trimmed_end_char, upper_ascii,
};

verus! {

/// Runs and stops the relay connection; the flag is shared with the thread
/// that runs it.
pub struct CloudRelayClient {
    pub running: Arc<AtomicBool>,
}

impl CloudRelayClient {
    /// A client whose flag says "running". The flag is an atomic shared with
    /// the relay thread; Verus's library gives no specification of an
    /// atomic's value, so no clause speaks of it.
    pub fn new() -> (c: Self) {
        CloudRelayClient { running: Arc::new(AtomicBool::new(true)) }
    }

    /// Tells the relay thread to stop.
    pub fn stop(&self) {
        self.running.store(false, Ordering::Relaxed);
    }

    /// Whether the relay thread is to keep going: the flag as it reads now.
    /// Another thread may set it at any time, so no clause speaks of it.
    pub fn is_running(&self) -> bool {
        self.running.load(Ordering::Relaxed)
    }
}

/// What the relay client does next.
pub enum RelayPlan {
    /// Wait this many seconds, then look again.
    Wait { secs: u64 },
    /// No device code is set yet: one is to be picked.
    NeedCode,
    /// Connect to `ws_url` and register with `code` and `token`.
    Connect { ws_url: String, code: String, token: String },
}

/// "http://", "ws://", "https://", "wss://", "/ws"
pub open spec fn ws_address(url: Seq<char>) -> Seq<char> {
    replaced(replaced(url, "http://"@, "ws://"@), "https://"@, "wss://"@) + "/ws"@
}

/// The relay's address as set: trimmed, without trailing slashes.
pub open spec fn relay_base(c: Config) -> Seq<char> {
    trimmed_end_char(trimmed(c.cloud_relay_url@), '/')
}

/// The next step for the settings `c`: wait 10 s while no relay address is
/// set, 30 s while the relay is off, pick a code while none is set, and
/// otherwise connect to the relay's WebSocket address.
pub open spec fn plan_is(c: Config, p: RelayPlan) -> bool {
    let url = relay_base(c);
    if url.len() == 0 {
        p == RelayPlan::Wait { secs: 10 }
    } else if !c.cloud_enabled {
        p == RelayPlan::Wait { secs: 30 }
    } else if c.cloud_device_code@.len() == 0 {
        p == RelayPlan::NeedCode
    } else {
        p matches RelayPlan::Connect { ws_url, code, token } && ws_url@ == ws_address(url)
            && code@ == c.cloud_device_code@ && token@ == c.web_token@
    }
}

/// The settings `c` call for a connection to `ws_url` with `code` and `token`.
pub open spec fn connects(c: Config, ws_url: Seq<char>, code: Seq<char>, token: Seq<char>) -> bool {
    &&& relay_base(c).len() > 0
    &&& c.cloud_enabled
    &&& c.cloud_device_code@.len() > 0
    &&& ws_url == ws_address(relay_base(c))
    &&& code == c.cloud_device_code@
    &&& token == c.web_token@
}

/// A device code from a fresh identifier: its first six characters in upper case.
pub open spec fn device_code_of(id: Seq<char>) -> Seq<char> {
    upper_ascii(id.take(6))
}

/// A device code from a fresh identifier.
pub fn device_code_from(id: &str) -> (code: String)
    requires
        is_token(id@),
    ensures
        code@ == device_code_of(id@),
{
    let head = id.substring_char(0, 6);
    assert(head@ =~= id@.take(6));
    ascii_upper(head)
}

impl ConfigManager {
    /// The relay client's next step (see `plan_is`).
    pub fn plan_relay(&self) -> (p: RelayPlan)
        ensures
            plan_is(self.config, p),
    {
        let trimmed_url = trim(self.config.cloud_relay_url.as_str());
        let url = trim_end_char(trimmed_url, '/');
        if url.unicode_len() == 0 {
            return RelayPlan::Wait { secs: 10 };
        }
        if !self.config.cloud_enabled {
            return RelayPlan::Wait { secs: 30 };
        }
        if self.config.cloud_device_code.unicode_len() == 0 {
            return RelayPlan::NeedCode;
        }
        proof {
            reveal_strlit("http://");
            reveal_strlit("https://");
        }
        let first = replace_all(url, "http://", "ws://");
        let mut ws_url = replace_all(first.as_str(), "https://", "wss://");
        push_str(&mut ws_url, "/ws");
        RelayPlan::Connect {
            ws_url,
            code: self.config.cloud_device_code.clone(),
            token: self.config.web_token.clone(),
        }
    }

    /// Sets the device code picked from the fresh identifier `id` (the settings
    /// are then to be saved).
    pub fn assign_device_code(&mut self, id: &str)
        requires
            is_token(id@),
        ensures
            final(self).config.cloud_device_code@ == device_code_of(id@),
            final(self).config == (Config {
                cloud_device_code: final(self).config.cloud_device_code,
                ..old(self).config
            }),
            final(self).state == old(self).state,
            final(self).history == old(self).history,
    {
        self.config.cloud_device_code = device_code_from(id);
    }
}

/// What the relay thread does after one look at the settings.
pub enum RelayAction {
    /// Wait this many seconds, then look again.
    Wait { secs: u64 },
    /// A device code was picked: save the settings and look again in 2 s.
    CodeAssigned,
    /// Connect and register with this code, token and status.
    Connect { ws_url: String, code: String, token: String, status: StatusSnapshot },
}

impl ConfigManager {
    /// One look at the settings by the relay thread: follows `plan_relay`,
    /// picking a random device code when none is set, and reporting the
    /// current status along with a connection.
    pub fn relay_step(&mut self) -> (a: RelayAction)
        ensures
            match a {
                RelayAction::Wait { secs } => plan_is(old(self).config, RelayPlan::Wait { secs })
                    && *final(self) == *old(self),
                RelayAction::CodeAssigned => plan_is(old(self).config, RelayPlan::NeedCode)
                    && exists|id: Seq<char>|
                    is_token(id) && final(self).config.cloud_device_code@ == device_code_of(id)
                        && final(self).config == (Config {
                        cloud_device_code: final(self).config.cloud_device_code,
                        ..old(self).config
                    }),
                RelayAction::Connect { ws_url, code, token, status } => connects(
                    old(self).config,
                    ws_url@,
                    code@,
                    token@,
                ) && (exists|now: TimeOfDay| status == status_at(*old(self), now)) && *final(self)
                    == *old(self),
            },
            final(self).state == old(self).state,
            final(self).history == old(self).history,
    {
        match self.plan_relay() {
            RelayPlan::Wait { secs } => RelayAction::Wait { secs },
            RelayPlan::NeedCode => {
                let id = crate::config::generate_token();
                self.assign_device_code(id.as_str());
                RelayAction::CodeAssigned
            },
            RelayPlan::Connect { ws_url, code, token } => {
                let status = build_status_snapshot(self);
                RelayAction::Connect { ws_url, code, token, status }
            },
        }
    }
}

/// A request relayed to this device: its id, the API path and the method.
pub struct RelayRequest {
    pub req_id: String,
    pub path: String,
    pub method: String,
}

/// The text of an optional field, or `default` when it is absent.
pub open spec fn field_or(field: Option<Seq<char>>, default: Seq<char>) -> Seq<char> {
    match field {
        Some(t) => t,
        None => default,
    }
}

/// An owned copy of an optional field, or of `default` when it is absent.
fn field_text(field: Option<&str>, default: &str) -> (t: String)
    ensures
        t@ == field_or(header_view(field), default@),
{
    match field {
        Some(f) => to_owned_string(f),
        None => to_owned_string(default),
    }
}

/// Reads a message from the relay, given its text fields `type`, `req_id`,
/// `path` and `method` (each absent when the message lacks it or it is not
/// text): a message of type "request" is a request, with an empty id and
/// path where they are missing and the method GET where it is missing;
/// any other message is not one.
pub fn relay_request(
    msg_type: Option<&str>,
    req_id: Option<&str>,
    path: Option<&str>,
    method: Option<&str>,
) -> (r: Option<RelayRequest>)
    ensures
        r is Some <==> header_view(msg_type) == Some("request"@),
        r matches Some(q) ==> {
            &&& q.req_id@ == field_or(header_view(req_id), Seq::empty())
            &&& q.path@ == field_or(header_view(path), Seq::empty())
            &&& q.method@ == field_or(header_view(method), "GET"@)
        },
{
    let is_request = match msg_type {
        Some(t) => str_eq(t, "request"),
        None => false,
    };
    if !is_request {
        return None;
    }
    proof {
        reveal_strlit("");
    }
    Some(RelayRequest {
        req_id: field_text(req_id, ""),
        path: field_text(path, ""),
        method: field_text(method, "GET"),
    })
}

/// An upper-case hexadecimal digit.
pub open spec fn is_upper_hex(c: char) -> bool {
    (48 <= (c as u32) <= 57) || (65 <= (c as u32) <= 70)
}

/// A device code picked from a fresh identifier is six upper-case
/// hexadecimal digits.
pub proof fn law_device_code_shape(id: Seq<char>)
    requires
        is_token(id),
    ensures
        device_code_of(id).len() == 6,
        forall|i: int| 0 <= i < 6 ==> is_upper_hex(#[trigger] device_code_of(id)[i]),
{
    assert forall|i: int| 0 <= i < 6 implies is_upper_hex(#[trigger] device_code_of(id)[i]) by {
        assert(crate::text::is_lower_hex(id[i]));
        assert(device_code_of(id)[i] == crate::text::ascii_upper_char(id[i]));
    }
}

} // verus!
