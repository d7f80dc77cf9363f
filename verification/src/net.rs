//! What the network helpers decide: which reply of an IP lookup service is an
//! address, the DuckDNS update request, and whether DuckDNS accepted it.
use vstd::prelude::*;
use vstd::string::*;
use vstd::utf8::encode_utf8;
use crate::config::{duckdns_host, full_duckdns_domain};
use crate::gui::byte_len;
use crate::text::{push_str, str_eq, to_owned_string, trim, trimmed};

verus! {

/// The services asked for the public IP address, in order.
pub fn public_ip_services() -> (v: Vec<&'static str>)
    ensures
        v@.len() == 3,
        v@[0]@ == "https://api.ipify.org"@,
        v@[1]@ == "https://api64.ipify.org"@,
        v@[2]@ == "https://checkip.amazonaws.com"@,
{
    vec!["https://api.ipify.org", "https://api64.ipify.org", "https://checkip.amazonaws.com"]
}

/// A lookup service's reply is taken as the address when, trimmed, it is not
/// empty and at most 45 bytes long.
pub open spec fn reply_address(body: Seq<char>) -> Option<Seq<char>> {
    let ip = trimmed(body);
    if ip.len() > 0 && encode_utf8(ip).len() <= 45 {
        Some(ip)
    } else {
        None
    }
}

/// The address in a lookup service's reply, if it holds one.
pub fn accept_public_ip(body: &str) -> (ip: Option<String>)
    ensures
        match reply_address(body@) {
            Some(a) => ip matches Some(s) && s@ == a,
            None => ip is None,
        },
{
    let t = trim(body);
    if t.unicode_len() > 0 && byte_len(t) <= 45 {
        Some(to_owned_string(t))
    } else {
        None
    }
}

/// "https://www.duckdns.org/update?domains=D&token=T&ip=I", D as a full host name.
pub open spec fn duckdns_request(domain: Seq<char>, token: Seq<char>, ip: Seq<char>) -> Seq<char> {
    "https://www.duckdns.org/update?domains="@ + duckdns_host(domain) + "&token="@ + token
        + "&ip="@ + ip
}

/// The DuckDNS update request, when domain, token and address are all set.
pub fn duckdns_update_url(domain: &str, token: &str, ip: &str) -> (url: Option<String>)
    ensures
        (domain@.len() == 0 || token@.len() == 0 || ip@.len() == 0) ==> url is None,
        (domain@.len() > 0 && token@.len() > 0 && ip@.len() > 0) ==> (url matches Some(u) && u@
            == duckdns_request(domain@, token@, ip@)),
{
    if domain.unicode_len() == 0 || token.unicode_len() == 0 || ip.unicode_len() == 0 {
        return None;
    }
    let full = full_duckdns_domain(domain);
    let mut url = to_owned_string("https://www.duckdns.org/update?domains=");
    push_str(&mut url, full.as_str());
    push_str(&mut url, "&token=");
    push_str(&mut url, token);
    push_str(&mut url, "&ip=");
    push_str(&mut url, ip);
    Some(url)
}

/// DuckDNS answers "OK" (around whitespace) when it took the update.
pub fn duckdns_reply_ok(body: &str) -> (ok: bool)
    ensures
        ok == (trimmed(body@) == "OK"@),
{
    str_eq(trim(body), "OK")
}

} // verus!
