//! The SOAP side of the client: the five counter actions, the request
//! texts they are invoked with, and the extraction of their scalar results
//! from response bodies.
//!
//! Every action is a zero-argument call in the WAN common-interface
//! namespace. A response is scanned for one element by local name; the
//! first character data inside it is the result. Numeric counters must read
//! as unsigned 64-bit decimals — a malformed value is a different failure
//! from a missing element.

use crate::error::UpnpError;
use crate::text::{chars_of, chars_to_string, parse_u64_chars, parsed_u64};
use crate::xmlscan::{find_first_text, first_text_inside, scan_xml, xml_tokens_of, Token};
use vstd::prelude::*;

verus! {

/// The five readings taken from the gateway, one SOAP action each.
#[derive(Debug, Clone, Copy, PartialEq, Eq, Structural)]
pub enum CounterKind {
    /// Total bytes sent over the WAN link.
    BytesSent,
    /// Total bytes received over the WAN link.
    BytesReceived,
    /// Total packets sent over the WAN link.
    PacketsSent,
    /// Total packets received over the WAN link.
    PacketsReceived,
    /// The physical link status string (commonly `Up` or `Down`).
    LinkStatus,
}

/// The UPnP action name a counter is read with.
pub open spec fn spec_action_name(k: CounterKind) -> Seq<char> {
    match k {
        CounterKind::BytesSent => "GetTotalBytesSent"@,
        CounterKind::BytesReceived => "GetTotalBytesReceived"@,
        CounterKind::PacketsSent => "GetTotalPacketsSent"@,
        CounterKind::PacketsReceived => "GetTotalPacketsReceived"@,
        CounterKind::LinkStatus => "GetCommonLinkProperties"@,
    }
}

/// The SOAPAction header value sent with a counter's request.
pub open spec fn spec_soap_action_header(k: CounterKind) -> Seq<char> {
    match k {
        CounterKind::BytesSent => "\"urn:schemas-upnp-org:service:WANCommonInterfaceConfig:1#GetTotalBytesSent\";"@,
        CounterKind::BytesReceived => "\"urn:schemas-upnp-org:service:WANCommonInterfaceConfig:1#GetTotalBytesReceived\";"@,
        CounterKind::PacketsSent => "\"urn:schemas-upnp-org:service:WANCommonInterfaceConfig:1#GetTotalPacketsSent\";"@,
        CounterKind::PacketsReceived => "\"urn:schemas-upnp-org:service:WANCommonInterfaceConfig:1#GetTotalPacketsReceived\";"@,
        CounterKind::LinkStatus => "\"urn:schemas-upnp-org:service:WANCommonInterfaceConfig:1#GetCommonLinkProperties\";"@,
    }
}

/// The SOAP 1.1 envelope that invokes a counter's zero-argument action.
pub open spec fn spec_soap_body(k: CounterKind) -> Seq<char> {
    match k {
        CounterKind::BytesSent => "<?xml version=\"1.0\" encoding=\"utf-8\"?>\n<s:Envelope xmlns:s=\"http://schemas.xmlsoap.org/soap/envelope/\" s:encodingStyle=\"http://schemas.xmlsoap.org/soap/encoding/\">\n    <s:Body>\n        <u:GetTotalBytesSent xmlns:u=\"urn:schemas-upnp-org:service:WANCommonInterfaceConfig:1\" />\n    </s:Body>\n</s:Envelope>"@,
        CounterKind::BytesReceived => "<?xml version=\"1.0\" encoding=\"utf-8\"?>\n<s:Envelope xmlns:s=\"http://schemas.xmlsoap.org/soap/envelope/\" s:encodingStyle=\"http://schemas.xmlsoap.org/soap/encoding/\">\n    <s:Body>\n        <u:GetTotalBytesReceived xmlns:u=\"urn:schemas-upnp-org:service:WANCommonInterfaceConfig:1\" />\n    </s:Body>\n</s:Envelope>"@,
        CounterKind::PacketsSent => "<?xml version=\"1.0\" encoding=\"utf-8\"?>\n<s:Envelope xmlns:s=\"http://schemas.xmlsoap.org/soap/envelope/\" s:encodingStyle=\"http://schemas.xmlsoap.org/soap/encoding/\">\n    <s:Body>\n        <u:GetTotalPacketsSent xmlns:u=\"urn:schemas-upnp-org:service:WANCommonInterfaceConfig:1\" />\n    </s:Body>\n</s:Envelope>"@,
        CounterKind::PacketsReceived => "<?xml version=\"1.0\" encoding=\"utf-8\"?>\n<s:Envelope xmlns:s=\"http://schemas.xmlsoap.org/soap/envelope/\" s:encodingStyle=\"http://schemas.xmlsoap.org/soap/encoding/\">\n    <s:Body>\n        <u:GetTotalPacketsReceived xmlns:u=\"urn:schemas-upnp-org:service:WANCommonInterfaceConfig:1\" />\n    </s:Body>\n</s:Envelope>"@,
        CounterKind::LinkStatus => "<?xml version=\"1.0\" encoding=\"utf-8\"?>\n<s:Envelope xmlns:s=\"http://schemas.xmlsoap.org/soap/envelope/\" s:encodingStyle=\"http://schemas.xmlsoap.org/soap/encoding/\">\n    <s:Body>\n        <u:GetCommonLinkProperties xmlns:u=\"urn:schemas-upnp-org:service:WANCommonInterfaceConfig:1\" />\n    </s:Body>\n</s:Envelope>"@,
    }
}

/// The local name of the response element that carries a counter's value.
pub open spec fn spec_element_name(k: CounterKind) -> Seq<char> {
    match k {
        CounterKind::BytesSent => "NewTotalBytesSent"@,
        CounterKind::BytesReceived => "NewTotalBytesReceived"@,
        CounterKind::PacketsSent => "NewTotalPacketsSent"@,
        CounterKind::PacketsReceived => "NewTotalPacketsReceived"@,
        CounterKind::LinkStatus => "NewPhysicalLinkStatus"@,
    }
}

impl CounterKind {
    /// The UPnP action this counter is read with.
    pub fn action_name(&self) -> (r: &'static str)
        ensures
            r@ == spec_action_name(*self),
    {
        match self {
            CounterKind::BytesSent => "GetTotalBytesSent",
            CounterKind::BytesReceived => "GetTotalBytesReceived",
            CounterKind::PacketsSent => "GetTotalPacketsSent",
            CounterKind::PacketsReceived => "GetTotalPacketsReceived",
            CounterKind::LinkStatus => "GetCommonLinkProperties",
        }
    }

    /// The SOAPAction header value for this counter's request.
    pub fn soap_action_header(&self) -> (r: &'static str)
        ensures
            r@ == spec_soap_action_header(*self),
    {
        match self {
            CounterKind::BytesSent => "\"urn:schemas-upnp-org:service:WANCommonInterfaceConfig:1#GetTotalBytesSent\";",
            CounterKind::BytesReceived => "\"urn:schemas-upnp-org:service:WANCommonInterfaceConfig:1#GetTotalBytesReceived\";",
            CounterKind::PacketsSent => "\"urn:schemas-upnp-org:service:WANCommonInterfaceConfig:1#GetTotalPacketsSent\";",
            CounterKind::PacketsReceived => "\"urn:schemas-upnp-org:service:WANCommonInterfaceConfig:1#GetTotalPacketsReceived\";",
            CounterKind::LinkStatus => "\"urn:schemas-upnp-org:service:WANCommonInterfaceConfig:1#GetCommonLinkProperties\";",
        }
    }

    /// The request body for this counter.
    pub fn soap_body(&self) -> (r: &'static str)
        ensures
            r@ == spec_soap_body(*self),
    {
        match self {
            CounterKind::BytesSent => "<?xml version=\"1.0\" encoding=\"utf-8\"?>\n<s:Envelope xmlns:s=\"http://schemas.xmlsoap.org/soap/envelope/\" s:encodingStyle=\"http://schemas.xmlsoap.org/soap/encoding/\">\n    <s:Body>\n        <u:GetTotalBytesSent xmlns:u=\"urn:schemas-upnp-org:service:WANCommonInterfaceConfig:1\" />\n    </s:Body>\n</s:Envelope>",
            CounterKind::BytesReceived => "<?xml version=\"1.0\" encoding=\"utf-8\"?>\n<s:Envelope xmlns:s=\"http://schemas.xmlsoap.org/soap/envelope/\" s:encodingStyle=\"http://schemas.xmlsoap.org/soap/encoding/\">\n    <s:Body>\n        <u:GetTotalBytesReceived xmlns:u=\"urn:schemas-upnp-org:service:WANCommonInterfaceConfig:1\" />\n    </s:Body>\n</s:Envelope>",
            CounterKind::PacketsSent => "<?xml version=\"1.0\" encoding=\"utf-8\"?>\n<s:Envelope xmlns:s=\"http://schemas.xmlsoap.org/soap/envelope/\" s:encodingStyle=\"http://schemas.xmlsoap.org/soap/encoding/\">\n    <s:Body>\n        <u:GetTotalPacketsSent xmlns:u=\"urn:schemas-upnp-org:service:WANCommonInterfaceConfig:1\" />\n    </s:Body>\n</s:Envelope>",
            CounterKind::PacketsReceived => "<?xml version=\"1.0\" encoding=\"utf-8\"?>\n<s:Envelope xmlns:s=\"http://schemas.xmlsoap.org/soap/envelope/\" s:encodingStyle=\"http://schemas.xmlsoap.org/soap/encoding/\">\n    <s:Body>\n        <u:GetTotalPacketsReceived xmlns:u=\"urn:schemas-upnp-org:service:WANCommonInterfaceConfig:1\" />\n    </s:Body>\n</s:Envelope>",
            CounterKind::LinkStatus => "<?xml version=\"1.0\" encoding=\"utf-8\"?>\n<s:Envelope xmlns:s=\"http://schemas.xmlsoap.org/soap/envelope/\" s:encodingStyle=\"http://schemas.xmlsoap.org/soap/encoding/\">\n    <s:Body>\n        <u:GetCommonLinkProperties xmlns:u=\"urn:schemas-upnp-org:service:WANCommonInterfaceConfig:1\" />\n    </s:Body>\n</s:Envelope>",
        }
    }

    /// The response element this counter's value is read from.
    pub fn element_name(&self) -> (r: &'static str)
        ensures
            r@ == spec_element_name(*self),
    {
        match self {
            CounterKind::BytesSent => "NewTotalBytesSent",
            CounterKind::BytesReceived => "NewTotalBytesReceived",
            CounterKind::PacketsSent => "NewTotalPacketsSent",
            CounterKind::PacketsReceived => "NewTotalPacketsReceived",
            CounterKind::LinkStatus => "NewPhysicalLinkStatus",
        }
    }
}

/// The Content-Type header value sent with every SOAP request.
pub open spec fn spec_soap_content_type() -> Seq<char> {
    "text/xml; charset=\"utf-8\""@
}

/// The Content-Type header value for SOAP requests.
pub fn soap_content_type() -> (r: &'static str)
    ensures
        r@ == spec_soap_content_type(),
{
    "text/xml; charset=\"utf-8\""
}

/// What reading a numeric counter out of a response's tokens yields: the
/// first text inside the named element parsed as an unsigned 64-bit
/// decimal; a missing element and an unparseable value are distinct
/// failures.
pub open spec fn spec_parse_u64_response(toks: Seq<Token>, name: Seq<char>) -> Result<
    u64,
    UpnpError,
> {
    match first_text_inside(toks, name, false) {
        None => Err(UpnpError::ElementNotFound),
        Some(t) => match parsed_u64(t) {
            Some(n) => Ok(n),
            None => Err(UpnpError::ValueParseError),
        },
    }
}

/// What reading a string counter out of a response's tokens yields: the
/// first text inside the named element, verbatim.
pub open spec fn spec_parse_string_response(toks: Seq<Token>, name: Seq<char>) -> Result<
    Seq<char>,
    UpnpError,
> {
    match first_text_inside(toks, name, false) {
        None => Err(UpnpError::ElementNotFound),
        Some(t) => Ok(t),
    }
}

/// Read the numeric value of the element locally named `element_name` from
/// a SOAP response body.
pub fn parse_u64_response(xml: &str, element_name: &str) -> (r: Result<u64, UpnpError>)
    ensures
        r == spec_parse_u64_response(xml_tokens_of(xml@), element_name@),
{
    let toks = scan_xml(xml);
    let name = chars_of(element_name);
    match find_first_text(&toks, &name) {
        None => Err(UpnpError::ElementNotFound),
        Some(t) => match parse_u64_chars(&t) {
            Some(n) => Ok(n),
            None => Err(UpnpError::ValueParseError),
        },
    }
}

/// Read the string value of the element locally named `element_name` from
/// a SOAP response body, verbatim.
pub fn parse_string_response(xml: &str, element_name: &str) -> (r: Result<String, UpnpError>)
    ensures
        match (r, spec_parse_string_response(xml_tokens_of(xml@), element_name@)) {
            (Ok(s), Ok(t)) => s@ == t,
            (Err(a), Err(b)) => a == b,
            _ => false,
        },
{
    let toks = scan_xml(xml);
    let name = chars_of(element_name);
    match find_first_text(&toks, &name) {
        None => Err(UpnpError::ElementNotFound),
        Some(t) => Ok(chars_to_string(&t)),
    }
}

/// Reading a counter depends on the response text alone: two reads of
/// equal response bodies yield equal results, so an unchanged endpoint
/// answers an unchanged link status on repeated calls.
pub proof fn lemma_status_read_idempotent(doc1: Seq<char>, doc2: Seq<char>, name: Seq<char>)
    requires
        doc1 == doc2,
    ensures
        spec_parse_string_response(xml_tokens_of(doc1), name) == spec_parse_string_response(
            xml_tokens_of(doc2),
            name,
        ),
{
}

} // verus!
