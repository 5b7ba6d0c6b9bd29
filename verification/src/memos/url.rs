//! The address of the server: the managed one on the loopback interface, or
//! the remote one that the configuration names.

use vstd::prelude::*;
use crate::config::types::{RemoteServer, RemoteServerView};
use crate::decimal::{decimal, push_decimal};
use crate::runtime_config::{RuntimeConfig, RuntimeConfigView};
use crate::text::{
    chars_of, has_prefix, push_all, string_of, strip_leading, strip_trailing, without_leading,
    without_trailing,
};

verus! {

/// The address of the managed server on `port`.
pub open spec fn local_url(port: u16) -> Seq<char> {
    "http://localhost:"@ + decimal(port as nat) + "/"@
}

/// The address `url` with exactly one slash at its end.
pub open spec fn with_one_slash(url: Seq<char>) -> Seq<char> {
    strip_trailing(url, '/') + "/"@
}

/// The port in `port`, or 0.
pub open spec fn port_or_zero(port: Option<u16>) -> u16 {
    match port {
        Some(p) => p,
        None => 0,
    }
}

/// The server's address: the remote server's if one is switched on and
/// named, else the managed server's.
pub open spec fn server_url(config: RuntimeConfigView) -> Seq<char> {
    let remote = config.yaml.memospot.remote;
    match remote.url {
        Some(url) if remote.enabled == Some(true) && url.len() > 0 => with_one_slash(url),
        _ => local_url(port_or_zero(config.yaml.memos.port)),
    }
}

/// Whether `url` can be the address of a server: it begins with `http`.
pub open spec fn is_server_url(url: Seq<char>) -> bool {
    "http"@.is_prefix_of(url)
}

fn local(port: Option<u16>) -> (r: String)
    ensures
        r@ == local_url(port_or_zero(port)),
{
    let number: u16 = match port {
        Some(p) => p,
        None => 0,
    };
    let mut chars = chars_of("http://localhost:");
    push_decimal(number as u64, &mut chars);
    chars.push('/');
    proof {
        reveal_strlit("/");
        assert(chars@ =~= local_url(number));
    }
    string_of(&chars)
}

fn one_slash(url: &str) -> (r: String)
    ensures
        r@ == with_one_slash(url@),
{
    let mut chars = without_trailing(&chars_of(url), '/');
    chars.push('/');
    proof {
        reveal_strlit("/");
        assert(chars@ =~= with_one_slash(url@));
    }
    string_of(&chars)
}

/// The address of the managed server on `port`, or on port 0 if there is
/// none: it is also where a server left over by an earlier run is probed.
pub fn local_address(port: Option<u16>) -> (r: String)
    ensures
        r@ == local_url(port_or_zero(port)),
{
    local(port)
}

/// The server's address, which ends with a slash: the remote server's if
/// one is switched on and named, else that of the managed server on the
/// configured port.
pub fn get_url(rtcfg: &RuntimeConfig) -> (r: String)
    ensures
        r@ == server_url(rtcfg@),
{
    let remote = &rtcfg.yaml.memospot.remote;
    let enabled = match remote.enabled {
        Some(b) => b,
        None => false,
    };
    match &remote.url {
        Some(url) => {
            if enabled && url.as_str().unicode_len() > 0 {
                one_slash(url.as_str())
            } else {
                local(rtcfg.yaml.memos.port)
            }
        },
        None => local(rtcfg.yaml.memos.port),
    }
}

/// The server's address as the first releases resolved it: the address of
/// a remote server that is switched on is taken as it is, even if empty.
pub open spec fn legacy_server_url(config: RuntimeConfigView) -> Seq<char> {
    let remote = config.yaml.memospot.remote;
    match remote.url {
        Some(url) if remote.enabled == Some(true) => with_one_slash(url),
        _ => local_url(port_or_zero(config.yaml.memos.port)),
    }
}

/// The server's address, which ends with a slash: the remote server's if
/// one is switched on and has an address, else the managed server's.
pub fn memos_url(rtcfg: &RuntimeConfig) -> (r: String)
    ensures
        r@ == legacy_server_url(rtcfg@),
{
    let remote = &rtcfg.yaml.memospot.remote;
    let enabled = match remote.enabled {
        Some(b) => b,
        None => false,
    };
    match &remote.url {
        Some(url) => {
            if enabled {
                one_slash(url.as_str())
            } else {
                local(rtcfg.yaml.memos.port)
            }
        },
        None => local(rtcfg.yaml.memos.port),
    }
}

/// Whether `url` can be the address of a server. The caller tells the user
/// of a configured address that cannot.
pub fn is_valid_server_url(url: &str) -> (r: bool)
    ensures
        r == is_server_url(url@),
{
    has_prefix(&chars_of(url), &chars_of("http"))
}

/// Whether the server at `url` is the managed one on `port`: its address
/// begins with the loopback address and that port.
pub fn is_managed_url(url: &str, port: Option<u16>) -> (r: bool)
    ensures
        r == ("http://localhost:"@ + decimal(port_or_zero(port) as nat)).is_prefix_of(url@),
{
    let number: u16 = match port {
        Some(p) => p,
        None => 0,
    };
    let mut prefix = chars_of("http://localhost:");
    push_decimal(number as u64, &mut prefix);
    has_prefix(&chars_of(url), &prefix)
}

/// The address `url` as a window title shows it: without scheme and
/// without slashes at its end.
pub open spec fn bare_address(url: Seq<char>) -> Seq<char> {
    strip_trailing(strip_leading(strip_leading(url, "http://"@), "https://"@), '/')
}

/// The title of the main window: the product's name, followed by the
/// server's bare address if the server is a remote one.
pub fn main_title(is_managed_server: bool, url: &str) -> (r: String)
    ensures
        r@ == if is_managed_server {
            "Memospot"@
        } else {
            "Memospot - "@ + bare_address(url@)
        },
{
    if is_managed_server {
        String::from_str("Memospot")
    } else {
        let plain = without_leading(&chars_of(url), &chars_of("http://"));
        let plainer = without_leading(&plain, &chars_of("https://"));
        let bare = without_trailing(&plainer, '/');
        let mut title = chars_of("Memospot - ");
        push_all(&mut title, &bare);
        string_of(&title)
    }
}

/// The `User-Agent` header that the web view sends: the one configured for
/// a remote server that is switched on, if it is not empty, else that of a
/// common browser followed by the launcher's name and `app_version`.
pub open spec fn user_agent_for(remote: RemoteServerView, app_version: Seq<char>) -> Seq<char> {
    match remote.user_agent {
        Some(agent) if agent.len() > 0 && remote.enabled == Some(true) => agent,
        _ => BROWSER_USER_AGENT@ + app_version,
    }
}

/// The `User-Agent` of a common browser, up to the launcher's version.
pub const BROWSER_USER_AGENT: &'static str =
    "Mozilla/5.0 (x64) AppleWebKit/537.36 (KHTML, like Gecko) Chrome/120.0.0.0 Safari/537.36 Memospot/";

/// The `User-Agent` header that the web view sends.
pub fn user_agent(remote: &RemoteServer, app_version: &str) -> (r: String)
    ensures
        r@ == user_agent_for(remote@, app_version@),
{
    let enabled = match remote.enabled {
        Some(b) => b,
        None => false,
    };
    match &remote.user_agent {
        Some(agent) => {
            if enabled && agent.as_str().unicode_len() > 0 {
                return agent.clone();
            }
        },
        None => {},
    }
    let mut chars = chars_of(BROWSER_USER_AGENT);
    push_all(&mut chars, &chars_of(app_version));
    string_of(&chars)
}

/// The port that a development build uses: one above the configured one,
/// to keep its web view cache apart.
pub fn dev_port(port: Option<u16>) -> (r: u16)
    requires
        port_or_zero(port) < u16::MAX,
    ensures
        r == port_or_zero(port) + 1,
{
    match port {
        Some(p) => p + 1,
        None => 1,
    }
}

} // verus!
