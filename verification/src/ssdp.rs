//! SSDP discovery: the M-SEARCH request text and the reading of the one
//! response datagram.
//!
//! A response is an HTTP-style header block. The only header consumed is
//! `LOCATION` (matched ASCII-case-insensitively): its value — everything
//! after the first colon, trimmed — is the device-description URL. A
//! response without it yields no device, which is not a transport error;
//! resolution then fails downstream for want of a location.

use crate::device::UpnpDevice;
use crate::text::{
    chars_of, chars_to_string, find_char_at, find_char_from, has_prefix_ci,
    lemma_find_char_range, prefix_ci, sub_chars, trim_chars, trimmed,
};
use vstd::prelude::*;

verus! {

/// The M-SEARCH datagram that discovery multicasts.
pub open spec fn spec_search_message() -> Seq<char> {
    "M-SEARCH * HTTP/1.1\r\nHOST: 239.255.255.250:1900\r\nMAN: \"ssdp:discover\"\r\nST: urn:schemas-upnp-org:device:InternetGatewayDevice:1\r\nMX: 3\r\n\r\n"@
}

/// The M-SEARCH request for an Internet Gateway Device, max-wait hint 3.
pub fn search_message() -> (r: &'static str)
    ensures
        r@ == spec_search_message(),
{
    "M-SEARCH * HTTP/1.1\r\nHOST: 239.255.255.250:1900\r\nMAN: \"ssdp:discover\"\r\nST: urn:schemas-upnp-org:device:InternetGatewayDevice:1\r\nMX: 3\r\n\r\n"
}

/// The SSDP multicast group and port the request is sent to.
pub open spec fn spec_multicast_addr() -> Seq<char> {
    "239.255.255.250:1900"@
}

/// The SSDP multicast address, as `host:port` text.
pub fn multicast_addr() -> (r: &'static str)
    ensures
        r@ == spec_multicast_addr(),
{
    "239.255.255.250:1900"
}

/// A line with its terminating `\r`, if any, removed.
pub open spec fn strip_cr(l: Seq<char>) -> Seq<char> {
    if l.len() > 0 && l.last() == '\r' {
        l.drop_last()
    } else {
        l
    }
}

/// The lines of `s` from position `i` on: split at `\n`, a `\r` directly
/// before the `\n` stripped, the final line ending optional.
pub open spec fn split_lines_from(s: Seq<char>, i: int) -> Seq<Seq<char>>
    decreases s.len() - i,
    via split_lines_from_decreases
{
    if i < 0 || i >= s.len() {
        Seq::<Seq<char>>::empty()
    } else {
        match find_char_from(s, '\n', i) {
            None => seq![s.skip(i)],
            Some(j) => seq![strip_cr(s.subrange(i, j))] + split_lines_from(s, j + 1),
        }
    }
}

#[via_fn]
proof fn split_lines_from_decreases(s: Seq<char>, i: int) {
    if 0 <= i && i < s.len() {
        lemma_find_char_range(s, '\n', i);
    }
}

/// The lines of `s`.
pub open spec fn split_lines(s: Seq<char>) -> Seq<Seq<char>> {
    split_lines_from(s, 0)
}

/// The header name a location line begins with.
pub open spec fn location_prefix() -> Seq<char> {
    "location:"@
}

/// `l` carries the LOCATION header (ASCII-case-insensitively).
pub open spec fn is_location_line(l: Seq<char>) -> bool {
    prefix_ci(l, location_prefix())
}

/// The value of the first LOCATION header among the lines `ls`: the text
/// after the header name, trimmed.
pub open spec fn find_location_in(ls: Seq<Seq<char>>) -> Option<Seq<char>>
    decreases ls.len(),
{
    if ls.len() == 0 {
        None
    } else if is_location_line(ls[0]) {
        Some(trimmed(ls[0].skip(location_prefix().len() as int)))
    } else {
        find_location_in(ls.drop_first())
    }
}

/// The device-description URL an SSDP response carries, if any.
pub open spec fn extract_location_spec(resp: Seq<char>) -> Option<Seq<char>> {
    find_location_in(split_lines(resp))
}

/// The device-description URL in `response`: the value of its first
/// LOCATION header, or nothing when no line carries one.
pub fn extract_location(response: &str) -> (r: Option<String>)
    ensures
        match r {
            Some(v) => extract_location_spec(response@) == Some(v@),
            None => extract_location_spec(response@) is None,
        },
{
    let v = chars_of(response);
    let prefix = chars_of("location:");
    let mut pos: usize = 0;
    while pos < v.len()
        invariant
            v@ == response@,
            prefix@ == location_prefix(),
            pos <= v@.len(),
            extract_location_spec(response@) == find_location_in(
                split_lines_from(v@, pos as int),
            ),
        decreases v.len() - pos,
    {
        let line_end = find_char_at(&v, '\n', pos);
        proof {
            lemma_find_char_range(v@, '\n', pos as int);
        }
        let (line, next) = match line_end {
            Some(j) => {
                let mut l = sub_chars(&v, pos, j);
                if l.len() > 0 && l[l.len() - 1] == '\r' {
                    l.pop();
                }
                proof {
                    assert(l@ =~= strip_cr(v@.subrange(pos as int, j as int)));
                }
                (l, j + 1)
            },
            None => {
                let l = sub_chars(&v, pos, v.len());
                proof {
                    assert(l@ =~= v@.skip(pos as int));
                }
                (l, v.len())
            },
        };
        proof {
            let ls = split_lines_from(v@, pos as int);
            assert(ls.len() >= 1 && ls[0] == line@);
            assert(ls.drop_first() =~= split_lines_from(v@, next as int));
        }
        if has_prefix_ci(&line, &prefix) {
            let after = sub_chars(&line, prefix.len(), line.len());
            proof {
                assert(after@ =~= line@.skip(location_prefix().len() as int));
            }
            let value = trim_chars(&after);
            return Some(chars_to_string(&value));
        }
        pos = next;
    }
    None
}

/// The device an SSDP response names: its location is the LOCATION header's
/// value, and no service URL is known yet. A response without the header
/// names no device.
pub fn device_from_response(response: &str) -> (r: Option<UpnpDevice>)
    ensures
        match r {
            Some(d) => extract_location_spec(response@) == Some(d.location@)
                && d.wan_common_service_url is None && d.wan_ip_service_url is None,
            None => extract_location_spec(response@) is None,
        },
{
    match extract_location(response) {
        Some(loc) => Some(
            UpnpDevice {
                location: loc,
                wan_common_service_url: None,
                wan_ip_service_url: None,
            },
        ),
        None => None,
    }
}

/// A discovery response none of whose lines carries the LOCATION header
/// yields no location at all: the discovery step completes with nothing for
/// resolution to work on.
pub proof fn lemma_no_location_header(resp: Seq<char>)
    requires
        forall|i: int|
            0 <= i < split_lines(resp).len() ==> !is_location_line(
                #[trigger] split_lines(resp)[i],
            ),
    ensures
        extract_location_spec(resp) is None,
{
    lemma_find_location_none(split_lines(resp));
}

proof fn lemma_find_location_none(ls: Seq<Seq<char>>)
    requires
        forall|i: int| 0 <= i < ls.len() ==> !is_location_line(#[trigger] ls[i]),
    ensures
        find_location_in(ls) is None,
    decreases ls.len(),
{
    if ls.len() > 0 {
        assert(forall|i: int|
            0 <= i < ls.drop_first().len() ==> !is_location_line(#[trigger] ls.drop_first()[i]));
        lemma_find_location_none(ls.drop_first());
    }
}

} // verus!
