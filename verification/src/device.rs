//! The discovered gateway and the walk over its description document.
//!
//! The description document is scanned as a token stream. Entering a
//! `service` element clears two accumulators; character data inside
//! `serviceType` or `controlURL` fills them; leaving the `service` element
//! classifies the accumulated type by substring — a type naming
//! `WANCommonInterfaceConfig` records the common-interface control URL, one
//! naming `WANIPConnection` the IP-connection control URL (later services
//! overwrite earlier ones). A relative control URL is made absolute against
//! the scheme, host and port of the location URL the document came from.

use crate::error::UpnpError;
use crate::text::{
    chars_of, chars_to_string, concat_chars, contains_sub, eq_chars, find_char_at,
    find_char_from, find_sub_at, find_sub_from, has_substring, lemma_find_char_range,
    lemma_find_sub_range, seq_starts_with, starts_with_chars, sub_chars,
};
use crate::xmlscan::{scan_xml, toks_of, xml_tokens_of, Token, XmlToken};
use vstd::prelude::*;

verus! {

/// A gateway found by discovery: where its description document lives and,
/// once the document has been walked, the control URLs of its WAN services.
#[derive(Debug, Clone)]
pub struct UpnpDevice {
    /// The description document URL taken from the SSDP response.
    pub location: String,
    /// Control URL of the WAN common-interface service, if the description
    /// lists one.
    pub wan_common_service_url: Option<String>,
    /// Control URL of the WAN IP-connection service, if the description
    /// lists one.
    pub wan_ip_service_url: Option<String>,
}

/// The state of the walk over a description document.
pub struct ScanState {
    /// Inside a `service` element.
    pub in_service: bool,
    /// Inside a `serviceType` element (of a `service`).
    pub in_service_type: bool,
    /// Inside a `controlURL` element (of a `service`).
    pub in_control_url: bool,
    /// The service type accumulated for the current `service` element.
    pub service_type: Seq<char>,
    /// The control URL accumulated for the current `service` element.
    pub control_url: Seq<char>,
    /// The (unresolved) control URL of the last common-interface service.
    pub common_url: Option<Seq<char>>,
    /// The (unresolved) control URL of the last IP-connection service.
    pub ip_url: Option<Seq<char>>,
}

/// The walk starts outside any element with empty accumulators.
pub open spec fn scan_init() -> ScanState {
    ScanState {
        in_service: false,
        in_service_type: false,
        in_control_url: false,
        service_type: Seq::empty(),
        control_url: Seq::empty(),
        common_url: None,
        ip_url: None,
    }
}

/// The substring that marks a WAN common-interface service type.
pub open spec fn common_marker() -> Seq<char> {
    "WANCommonInterfaceConfig"@
}

/// The substring that marks a WAN IP-connection service type.
pub open spec fn ip_marker() -> Seq<char> {
    "WANIPConnection"@
}

/// One step of the walk.
pub open spec fn scan_step(st: ScanState, t: Token) -> ScanState {
    match t {
        Token::Start(n) => if n == "service"@ {
            ScanState {
                in_service: true,
                service_type: Seq::empty(),
                control_url: Seq::empty(),
                ..st
            }
        } else if n == "serviceType"@ && st.in_service {
            ScanState { in_service_type: true, ..st }
        } else if n == "controlURL"@ && st.in_service {
            ScanState { in_control_url: true, ..st }
        } else {
            st
        },
        Token::End(n) => if n == "service"@ {
            if has_substring(st.service_type, common_marker()) {
                ScanState { in_service: false, common_url: Some(st.control_url), ..st }
            } else if has_substring(st.service_type, ip_marker()) {
                ScanState { in_service: false, ip_url: Some(st.control_url), ..st }
            } else {
                ScanState { in_service: false, ..st }
            }
        } else if n == "serviceType"@ {
            ScanState { in_service_type: false, ..st }
        } else if n == "controlURL"@ {
            ScanState { in_control_url: false, ..st }
        } else {
            st
        },
        Token::Text(d) => if st.in_service_type {
            ScanState { service_type: d, ..st }
        } else if st.in_control_url {
            ScanState { control_url: d, ..st }
        } else {
            st
        },
    }
}

/// The walk over `toks` started in state `st`.
pub open spec fn scan_from(toks: Seq<Token>, st: ScanState) -> ScanState
    decreases toks.len(),
{
    if toks.len() == 0 {
        st
    } else {
        scan_from(toks.drop_first(), scan_step(st, toks[0]))
    }
}

/// The walk over a whole document's tokens.
pub open spec fn scan_services(toks: Seq<Token>) -> ScanState {
    scan_from(toks, scan_init())
}

/// The scheme-host-port prefix of `location`: everything before the first
/// `/` that follows the `://` separator; all of `location` when either is
/// missing.
pub open spec fn base_of(location: Seq<char>) -> Seq<char> {
    match find_sub_from(location, "://"@, 0) {
        None => location,
        Some(k) => match find_char_from(location, '/', k + 3) {
            None => location,
            Some(j) => location.take(j),
        },
    }
}

/// A control URL made absolute: one that already starts with `http` stands
/// as it is, any other is taken as a path under the authority of
/// `location`.
pub open spec fn resolve_url(control: Seq<char>, location: Seq<char>) -> Seq<char> {
    if seq_starts_with(control, "http"@) {
        control
    } else {
        base_of(location) + control
    }
}

/// A resolved control URL is never empty when the location it is resolved
/// against is non-empty.
pub proof fn lemma_resolved_url_nonempty(control: Seq<char>, location: Seq<char>)
    requires
        location.len() > 0,
    ensures
        resolve_url(control, location).len() > 0,
{
    if seq_starts_with(control, "http"@) {
        reveal_strlit("http");
    } else {
        match find_sub_from(location, "://"@, 0) {
            None => {},
            Some(k) => {
                lemma_find_sub_range(location, "://"@, 0);
                match find_char_from(location, '/', k + 3) {
                    None => {},
                    Some(j) => {
                        lemma_find_char_range(location, '/', k + 3);
                    },
                }
            },
        }
    }
}

/// The absolute form of `control` against `location`.
pub fn resolve_control_url(control: &Vec<char>, location: &Vec<char>) -> (r: Vec<char>)
    ensures
        r@ == resolve_url(control@, location@),
{
    let http = chars_of("http");
    if starts_with_chars(control, &http) {
        let r = sub_chars(control, 0, control.len());
        proof {
            assert(r@ =~= control@);
        }
        return r;
    }
    let sep = chars_of("://");
    proof {
        reveal_strlit("://");
    }
    let mut base_end: usize = location.len();
    match find_sub_at(location, &sep, 0) {
        Some(k) => {
            proof {
                lemma_find_sub_range(location@, "://"@, 0);
            }
            match find_char_at(location, '/', k + 3) {
                Some(j) => {
                    proof {
                        lemma_find_char_range(location@, '/', k as int + 3);
                        assert(location@.subrange(0, j as int) =~= location@.take(j as int));
                    }
                    base_end = j;
                },
                None => {},
            }
        },
        None => {},
    }
    let base = sub_chars(location, 0, base_end);
    proof {
        assert(location@.subrange(0, location@.len() as int) =~= location@);
    }
    concat_chars(&base, control)
}

/// The state the walk reaches, packaged from its parts.
pub open spec fn mk_state(
    in_service: bool,
    in_service_type: bool,
    in_control_url: bool,
    service_type: Seq<char>,
    control_url: Seq<char>,
    common_url: Option<Seq<char>>,
    ip_url: Option<Seq<char>>,
) -> ScanState {
    ScanState {
        in_service,
        in_service_type,
        in_control_url,
        service_type,
        control_url,
        common_url,
        ip_url,
    }
}

/// The view of an optional character buffer.
pub open spec fn opt_chars(o: Option<Vec<char>>) -> Option<Seq<char>> {
    match o {
        Some(v) => Some(v@),
        None => None,
    }
}

/// Walk a description document for the WAN service control URLs, resolved
/// against `location`. A document without a common-interface service is
/// rejected; a missing IP-connection service is not a fault.
pub fn parse_service_urls(xml: &str, location: &str) -> (r: Result<
    (Option<String>, Option<String>),
    UpnpError,
>)
    ensures
        ({
            let st = scan_services(xml_tokens_of(xml@));
            match r {
                Ok(urls) => match (urls.0, st.common_url) {
                    (Some(c), Some(u)) => c@ == resolve_url(u, location@) && match (
                        urls.1,
                        st.ip_url,
                    ) {
                        (Some(p), Some(v)) => p@ == resolve_url(v, location@),
                        (None, None) => true,
                        _ => false,
                    },
                    _ => false,
                },
                Err(e) => e == UpnpError::ServiceNotFound && st.common_url is None,
            }
        }),
{
    let toks = scan_xml(xml);
    let loc = chars_of(location);
    let svc = chars_of("service");
    let stype_name = chars_of("serviceType");
    let curl_name = chars_of("controlURL");
    let cmark = chars_of("WANCommonInterfaceConfig");
    let imark = chars_of("WANIPConnection");

    let mut in_service = false;
    let mut in_service_type = false;
    let mut in_control_url = false;
    let mut service_type: Vec<char> = Vec::new();
    let mut control_url: Vec<char> = Vec::new();
    let mut common: Option<Vec<char>> = None;
    let mut ip: Option<Vec<char>> = None;

    proof {
        assert(toks_of(toks@).skip(0) =~= toks_of(toks@));
        assert(mk_state(false, false, false, Seq::empty(), Seq::empty(), None, None)
            == scan_init());
    }
    let mut i: usize = 0;
    while i < toks.len()
        invariant
            toks_of(toks@) == xml_tokens_of(xml@),
            svc@ == "service"@,
            stype_name@ == "serviceType"@,
            curl_name@ == "controlURL"@,
            cmark@ == common_marker(),
            imark@ == ip_marker(),
            i <= toks@.len(),
            scan_services(xml_tokens_of(xml@)) == scan_from(
                toks_of(toks@).skip(i as int),
                mk_state(
                    in_service,
                    in_service_type,
                    in_control_url,
                    service_type@,
                    control_url@,
                    opt_chars(common),
                    opt_chars(ip),
                ),
            ),
        decreases toks.len() - i,
    {
        proof {
            assert(toks_of(toks@).skip(i as int).drop_first() =~= toks_of(toks@).skip(
                i as int + 1,
            ));
            assert(toks_of(toks@).skip(i as int)[0] == toks@[i as int]@);
        }
        match &toks[i] {
            XmlToken::Start(n) => {
                if eq_chars(n, &svc) {
                    in_service = true;
                    service_type = Vec::new();
                    control_url = Vec::new();
                } else if in_service && eq_chars(n, &stype_name) {
                    in_service_type = true;
                } else if in_service && eq_chars(n, &curl_name) {
                    in_control_url = true;
                }
            },
            XmlToken::End(n) => {
                if eq_chars(n, &svc) {
                    if contains_sub(&service_type, &cmark) {
                        common = Some(sub_chars(&control_url, 0, control_url.len()));
                        proof {
                            assert(opt_chars(common) == Some(control_url@)) by {
                                assert(control_url@.subrange(0, control_url@.len() as int)
                                    =~= control_url@);
                            }
                        }
                    } else if contains_sub(&service_type, &imark) {
                        ip = Some(sub_chars(&control_url, 0, control_url.len()));
                        proof {
                            assert(opt_chars(ip) == Some(control_url@)) by {
                                assert(control_url@.subrange(0, control_url@.len() as int)
                                    =~= control_url@);
                            }
                        }
                    }
                    in_service = false;
                } else if eq_chars(n, &stype_name) {
                    in_service_type = false;
                } else if eq_chars(n, &curl_name) {
                    in_control_url = false;
                }
            },
            XmlToken::Text(d) => {
                if in_service_type {
                    service_type = sub_chars(d, 0, d.len());
                    proof {
                        assert(service_type@ =~= d@);
                    }
                } else if in_control_url {
                    control_url = sub_chars(d, 0, d.len());
                    proof {
                        assert(control_url@ =~= d@);
                    }
                }
            },
        }
        i += 1;
    }
    match common {
        None => Err(UpnpError::ServiceNotFound),
        Some(c) => {
            let resolved_common = chars_to_string(&resolve_control_url(&c, &loc));
            let resolved_ip = match ip {
                Some(p) => Some(chars_to_string(&resolve_control_url(&p, &loc))),
                None => None,
            };
            Ok((Some(resolved_common), resolved_ip))
        },
    }
}

impl UpnpDevice {
    /// Walk a description document and record the WAN service control URLs
    /// on the device. A document without a common-interface service leaves
    /// the device unchanged and reports the missing service.
    pub fn apply_description(&mut self, xml: &str) -> (r: Result<(), UpnpError>)
        ensures
            final(self).location@ == old(self).location@,
            ({
                let st = scan_services(xml_tokens_of(xml@));
                match r {
                    Ok(()) => match (final(self).wan_common_service_url, st.common_url) {
                        (Some(c), Some(u)) => c@ == resolve_url(u, old(self).location@) && match (
                            final(self).wan_ip_service_url,
                            st.ip_url,
                        ) {
                            (Some(p), Some(v)) => p@ == resolve_url(v, old(self).location@),
                            (None, None) => true,
                            _ => false,
                        },
                        _ => false,
                    },
                    Err(e) => e == UpnpError::ServiceNotFound && st.common_url is None
                        && *final(self) == *old(self),
                }
            }),
    {
        match parse_service_urls(xml, self.location.as_str()) {
            Ok(urls) => {
                self.wan_common_service_url = urls.0;
                self.wan_ip_service_url = urls.1;
                Ok(())
            },
            Err(e) => Err(e),
        }
    }
}

/// Whether the token stream, walked from the given element state, closes
/// some `service` element whose accumulated type names the common-interface
/// marker. This follows only the parts of the walk that feed the service
/// type: the `service` and `serviceType` nesting and the text between.
pub open spec fn sees_common_service(
    toks: Seq<Token>,
    in_service: bool,
    in_service_type: bool,
    service_type: Seq<char>,
) -> bool
    decreases toks.len(),
{
    if toks.len() == 0 {
        false
    } else {
        match toks[0] {
            Token::Start(n) => if n == "service"@ {
                sees_common_service(toks.drop_first(), true, in_service_type, Seq::empty())
            } else if n == "serviceType"@ && in_service {
                sees_common_service(toks.drop_first(), in_service, true, service_type)
            } else {
                sees_common_service(toks.drop_first(), in_service, in_service_type, service_type)
            },
            Token::End(n) => if n == "service"@ {
                has_substring(service_type, common_marker()) || sees_common_service(
                    toks.drop_first(),
                    false,
                    in_service_type,
                    service_type,
                )
            } else if n == "serviceType"@ {
                sees_common_service(toks.drop_first(), in_service, false, service_type)
            } else {
                sees_common_service(toks.drop_first(), in_service, in_service_type, service_type)
            },
            Token::Text(d) => if in_service_type {
                sees_common_service(toks.drop_first(), in_service, in_service_type, d)
            } else {
                sees_common_service(toks.drop_first(), in_service, in_service_type, service_type)
            },
        }
    }
}

/// The walk records a common-interface URL exactly when one was already
/// recorded or the remaining stream closes a qualifying service.
proof fn lemma_scan_common_iff(toks: Seq<Token>, st: ScanState)
    ensures
        scan_from(toks, st).common_url is Some <==> (st.common_url is Some || sees_common_service(
            toks,
            st.in_service,
            st.in_service_type,
            st.service_type,
        )),
    decreases toks.len(),
{
    if toks.len() > 0 {
        lemma_scan_common_iff(toks.drop_first(), scan_step(st, toks[0]));
    }
}

/// A description document closes a service typed with the common-interface
/// marker if and only if the walk over it records a common URL: documents
/// with such a service resolve, documents without one are rejected.
pub proof fn lemma_common_service_found(toks: Seq<Token>)
    ensures
        scan_services(toks).common_url is Some <==> sees_common_service(
            toks,
            false,
            false,
            Seq::empty(),
        ),
{
    lemma_scan_common_iff(toks, scan_init());
}

/// A description document that closes a service typed with the
/// common-interface marker yields a common control URL, and that URL
/// resolves to non-empty text against any non-empty location; a document
/// that closes no such service yields none.
pub proof fn lemma_common_service_resolution(toks: Seq<Token>, location: Seq<char>)
    requires
        location.len() > 0,
    ensures
        sees_common_service(toks, false, false, Seq::empty()) <==> scan_services(
            toks,
        ).common_url is Some,
        (match scan_services(toks).common_url {
            Some(u) => resolve_url(u, location).len() > 0,
            None => true,
        }),
{
    lemma_common_service_found(toks);
    match scan_services(toks).common_url {
        Some(u) => lemma_resolved_url_nonempty(u, location),
        None => {},
    }
}

} // verus!
