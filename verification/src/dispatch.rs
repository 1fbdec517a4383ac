//! Building the webhook request URL for one alert.
//!
//! An alert's text is prefixed with the host's identity, percent-encoded
//! as a whole, and placed in the `content` query parameter of the fixed
//! webhook endpoint; the token goes into the `token` parameter as it is.
//! The surrounding application performs the actual HTTP request.

use vstd::prelude::*;
use crate::encode::percent_encode;
use crate::encode::percent_encoding_of;

verus! {

/// The view of an optional string.
pub open spec fn opt_chars(o: Option<String>) -> Option<Seq<char>> {
    match o {
        Some(s) => Some(s@),
        None => None,
    }
}

/// `"{os} - {hostname} - {content}"`, with the documented fallbacks for
/// a host whose OS name or hostname cannot be resolved.
pub open spec fn composed_content(
    os: Option<Seq<char>>,
    hostname: Option<Seq<char>>,
    content: Seq<char>,
) -> Seq<char> {
    (match os {
        Some(s) => s,
        None => "Unknown OS"@,
    }) + " - "@ + (match hostname {
        Some(s) => s,
        None => "Unknown Hostname"@,
    }) + " - "@ + content
}

/// The full request target: the fixed endpoint, the token verbatim, and
/// the percent-encoded composed content.
pub open spec fn alert_url(
    token: Seq<char>,
    os: Option<Seq<char>>,
    hostname: Option<Seq<char>>,
    content: Seq<char>,
) -> Seq<char> {
    "https://www.pushplus.plus/send?token="@ + token + "&content="@
        + percent_encoding_of(composed_content(os, hostname, content))
}

/// Prefixes the alert text with the host identity, applying the
/// fallbacks for an unresolved OS name or hostname.
pub fn compose_content(os: Option<String>, hostname: Option<String>, content: &str) -> (r: String)
    ensures
        r@ == composed_content(opt_chars(os), opt_chars(hostname), content@),
{
    let mut s = match os {
        Some(o) => o,
        None => "Unknown OS".to_owned(),
    };
    s.append(" - ");
    match hostname {
        Some(h) => s.append(h.as_str()),
        None => s.append("Unknown Hostname"),
    }
    s.append(" - ");
    s.append(content);
    s
}

/// Builds the complete webhook URL for one alert, given the resolved
/// host identity.
pub fn build_alert_url(
    token: &str,
    content: &str,
    os: Option<String>,
    hostname: Option<String>,
) -> (r: String)
    ensures
        r@ == alert_url(token@, opt_chars(os), opt_chars(hostname), content@),
{
    let full = compose_content(os, hostname, content);
    let encoded = percent_encode(full.as_str());
    let mut url = "https://www.pushplus.plus/send?token=".to_owned();
    url.append(token);
    url.append("&content=");
    url.append(encoded.as_str());
    url
}

/// Relies on `sysinfo::System::name`: the running OS's name, if the
/// machine reports one.
#[verifier::external_body]
fn os_name() -> (r: Option<String>) {
    sysinfo::System::name()
}

/// Relies on `sysinfo::System::host_name`: the machine's hostname, if
/// it reports one.
#[verifier::external_body]
fn host_name() -> (r: Option<String>) {
    sysinfo::System::host_name()
}

/// Builds the webhook URL for one alert on this machine: whatever OS
/// name and hostname the system reports, the result is the alert URL
/// for exactly that identity, this token and this content.
pub fn alert_url_for_host(token: &str, content: &str) -> (r: String)
    ensures
        exists|os: Option<Seq<char>>, hostname: Option<Seq<char>>|
            r@ == alert_url(token@, os, hostname, content@),
{
    let os = os_name();
    let hostname = host_name();
    let r = build_alert_url(token, content, os, hostname);
    proof {
        assert(r@ == alert_url(token@, opt_chars(os), opt_chars(hostname), content@));
    }
    r
}

} // verus!
