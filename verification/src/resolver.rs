//! Parsing for the hostname-resolution workaround: the host blocks
//! ordinary name resolution, so addresses are read out of the
//! human-readable output of a reachability probe.

use vstd::prelude::*;
use vstd::string::*;
use crate::text::find_char;
use crate::text::first_index;
use crate::text::lemma_first_index;
use crate::text::spec_parse_dec;
use crate::text::spec_split;
use crate::text::parse_dec;
use crate::text::split_char;

verus! {

/// The literal address in a probe's output: the text between the
/// first `(` and the next `)`, accepted when it holds a dot or a
/// colon; `None` when no such token exists.
pub open spec fn spec_probe_address(s: Seq<char>) -> Option<Seq<char>> {
    let a = first_index(s, '(');
    if 0 <= a < s.len() {
        let rest = s.subrange(a + 1, s.len() as int);
        let b = first_index(rest, ')');
        if 0 <= b < rest.len() {
            let ip = rest.subrange(0, b);
            if first_index(ip, '.') >= 0 || first_index(ip, ':') >= 0 {
                Some(ip)
            } else {
                None
            }
        } else {
            None
        }
    } else {
        None
    }
}

/// Extracts the literal address from a probe's output, or reports the
/// raw text for diagnosis when the output is unparseable.
pub fn parse_probe_address(output: &str) -> (r: Result<String, String>)
    ensures
        match r {
            Ok(ip) => spec_probe_address(output@) == Some(ip@),
            Err(m) => spec_probe_address(output@) is None && m@
                == "Could not parse IP from ping output: "@ + output@,
        },
{
    let n = output.unicode_len();
    let parsed = match find_char(output, '(') {
        Some(a) => {
            proof {
                lemma_first_index(output@, '(');
            }
            let rest = output.substring_char(a + 1, n);
            proof {
                assert(rest@ =~= output@.subrange(a + 1, n as int));
            }
            match find_char(rest, ')') {
                Some(b) => {
                    proof {
                        lemma_first_index(rest@, ')');
                    }
                    let ip = rest.substring_char(0, b);
                    proof {
                        assert(ip@ =~= rest@.subrange(0, b as int));
                    }
                    let has_dot = match find_char(ip, '.') {
                        Some(_) => true,
                        None => false,
                    };
                    let has_colon = match find_char(ip, ':') {
                        Some(_) => true,
                        None => false,
                    };
                    if has_dot || has_colon {
                        Some(String::from_str(ip))
                    } else {
                        None
                    }
                },
                None => None,
            }
        },
        None => None,
    };
    match parsed {
        Some(ip) => Ok(ip),
        None => {
            let mut m = String::from_str("Could not parse IP from ping output: ");
            m.append(output);
            Err(m)
        },
    }
}

/// The host part of a `host:port` endpoint: everything before the
/// first colon.
pub open spec fn spec_netloc_host(s: Seq<char>) -> Seq<char> {
    spec_split(s, ':')[0]
}

/// The port of a `host:port` endpoint: the second colon-separated
/// field when it parses as a 16-bit number, else 443.
pub open spec fn spec_netloc_port(s: Seq<char>) -> int {
    let fields = spec_split(s, ':');
    if fields.len() >= 2 {
        match spec_parse_dec(fields[1], 65535) {
            Some(v) => v,
            None => 443,
        }
    } else {
        443
    }
}

/// Splits an endpoint into hostname and port, defaulting to 443 when
/// no usable port is present.
pub fn parse_netloc(netloc: &str) -> (r: (String, u16))
    ensures
        r.0@ == spec_netloc_host(netloc@),
        r.1 as int == spec_netloc_port(netloc@),
{
    let fields = split_char(netloc, ':');
    proof {
        assert(fields@[0]@ == fields.deep_view()[0]);
    }
    let host = fields[0].clone();
    let port: u16 = if fields.len() >= 2 {
        proof {
            assert(fields@[1]@ == fields.deep_view()[1]);
        }
        match parse_dec(fields[1].as_str(), 65535) {
            Some(v) => v as u16,
            None => 443,
        }
    } else {
        443
    };
    (host, port)
}

/// The repository endpoint resolved into `etc/hosts` for Void Linux.
pub fn void_repo_host() -> (r: &'static str)
    ensures
        r@ == "repo-default.voidlinux.org"@,
{
    "repo-default.voidlinux.org"
}

} // verus!
