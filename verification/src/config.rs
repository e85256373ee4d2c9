//! The DNS and hostname-resolution files written into the provisioned
//! tree.

use vstd::prelude::*;
use vstd::string::*;

verus! {

/// The fixed nameserver configuration written to `etc/resolv.conf`.
pub open spec fn spec_resolv_conf() -> Seq<char> {
    "nameserver 8.8.8.8\nnameserver 8.8.4.4\n"@
}

/// Returns the `etc/resolv.conf` contents: two fixed public
/// nameservers, replacing whatever the archive shipped.
pub fn resolv_conf_content() -> (r: String)
    ensures
        r@ == spec_resolv_conf(),
{
    String::from_str("nameserver 8.8.8.8\nnameserver 8.8.4.4\n")
}

/// The loopback entries written to `etc/hosts`.
pub open spec fn spec_hosts_base() -> Seq<char> {
    "127.0.0.1 localhost\n::1 localhost ip6-localhost ip6-loopback\n"@
}

/// The `etc/hosts` contents: loopback entries, plus one literal
/// `IP hostname` line when a repository address was resolved — the
/// permanent substitute for DNS for that endpoint.
pub open spec fn spec_hosts(extra: Option<(Seq<char>, Seq<char>)>) -> Seq<char> {
    match extra {
        Some((ip, host)) => spec_hosts_base() + ip + " "@ + host + "\n"@,
        None => spec_hosts_base(),
    }
}

/// Builds the `etc/hosts` contents, appending the resolved repository
/// line when one is given.
pub fn hosts_content(extra: Option<(String, String)>) -> (r: String)
    ensures
        match extra {
            Some((ip, host)) => r@ == spec_hosts(Some((ip@, host@))),
            None => r@ == spec_hosts(None),
        },
{
    let mut r = String::from_str("127.0.0.1 localhost\n::1 localhost ip6-localhost ip6-loopback\n");
    match extra {
        Some((ip, host)) => {
            r.append(ip.as_str());
            r.append(" ");
            r.append(host.as_str());
            r.append("\n");
            r
        },
        None => r,
    }
}

} // verus!
