use upnp_wan_exporter_rs::device::parse_service_urls;
use upnp_wan_exporter_rs::ssdp::device_from_response;
use upnp_wan_exporter_rs::UpnpError;

const LOCATION: &str = "http://192.168.1.1:1900/desc.xml";

fn description(services: &str) -> String {
    let mut doc = String::new();
    doc.push_str("<?xml version=\"1.0\"?><root><device><serviceList>");
    doc.push_str(services);
    doc.push_str("</serviceList></device></root>");
    doc
}

const COMMON_SERVICE: &str = "<service><serviceType>urn:schemas-upnp-org:service:WANCommonInterfaceConfig:1</serviceType><controlURL>/upnp/control/WANCommonIFC1</controlURL></service>";
const IP_SERVICE: &str = "<service><serviceType>urn:schemas-upnp-org:service:WANIPConnection:1</serviceType><controlURL>/upnp/control/WANIPConn1</controlURL></service>";

#[test]
fn finds_common_service_and_resolves_relative_url() {
    let doc = description(COMMON_SERVICE);
    let (common, ip) = parse_service_urls(&doc, LOCATION).expect("service found");
    assert_eq!(
        common,
        Some("http://192.168.1.1:1900/upnp/control/WANCommonIFC1".to_string())
    );
    assert_eq!(ip, None);
}

#[test]
fn finds_both_services() {
    let doc = description(&(COMMON_SERVICE.to_string() + IP_SERVICE));
    let (common, ip) = parse_service_urls(&doc, LOCATION).expect("services found");
    assert_eq!(
        common,
        Some("http://192.168.1.1:1900/upnp/control/WANCommonIFC1".to_string())
    );
    assert_eq!(
        ip,
        Some("http://192.168.1.1:1900/upnp/control/WANIPConn1".to_string())
    );
}

#[test]
fn absolute_control_url_is_kept() {
    let doc = description(
        "<service><serviceType>urn:schemas-upnp-org:service:WANCommonInterfaceConfig:1</serviceType><controlURL>http://10.0.0.1:49152/ctl</controlURL></service>",
    );
    let (common, _) = parse_service_urls(&doc, LOCATION).expect("service found");
    assert_eq!(common, Some("http://10.0.0.1:49152/ctl".to_string()));
}

#[test]
fn service_type_matched_by_substring() {
    let doc = description(
        "<service><serviceType>urn:schemas-upnp-org:service:WANCommonInterfaceConfig:2</serviceType><controlURL>/ctl</controlURL></service>",
    );
    let (common, _) = parse_service_urls(&doc, LOCATION).expect("service found");
    assert_eq!(common, Some("http://192.168.1.1:1900/ctl".to_string()));
}

#[test]
fn no_common_service_is_service_not_found() {
    let doc = description(IP_SERVICE);
    assert_eq!(parse_service_urls(&doc, LOCATION), Err(UpnpError::ServiceNotFound));
}

#[test]
fn empty_document_is_service_not_found() {
    let doc = description("");
    assert_eq!(parse_service_urls(&doc, LOCATION), Err(UpnpError::ServiceNotFound));
}

#[test]
fn malformed_document_stops_gracefully() {
    let doc = "<?xml version=\"1.0\"?><root><device><serviceList><service><serviceType>urn";
    assert_eq!(parse_service_urls(doc, LOCATION), Err(UpnpError::ServiceNotFound));
}

#[test]
fn later_matching_service_overwrites_earlier() {
    let first = "<service><serviceType>urn:schemas-upnp-org:service:WANCommonInterfaceConfig:1</serviceType><controlURL>/first</controlURL></service>";
    let second = "<service><serviceType>urn:schemas-upnp-org:service:WANCommonInterfaceConfig:1</serviceType><controlURL>/second</controlURL></service>";
    let doc = description(&(first.to_string() + second));
    let (common, _) = parse_service_urls(&doc, LOCATION).expect("service found");
    assert_eq!(common, Some("http://192.168.1.1:1900/second".to_string()));
}

#[test]
fn apply_description_records_urls_on_the_device() {
    let response = "HTTP/1.1 200 OK\r\nLOCATION: http://192.168.1.1:1900/desc.xml\r\n\r\n";
    let mut device = device_from_response(response).expect("a device");
    let doc = description(COMMON_SERVICE);
    device.apply_description(&doc).expect("resolution succeeds");
    assert_eq!(
        device.wan_common_service_url,
        Some("http://192.168.1.1:1900/upnp/control/WANCommonIFC1".to_string())
    );
    assert_eq!(device.wan_ip_service_url, None);
    assert_eq!(device.location, "http://192.168.1.1:1900/desc.xml");
}

#[test]
fn apply_description_without_common_service_leaves_device_unchanged() {
    let response = "HTTP/1.1 200 OK\r\nLOCATION: http://192.168.1.1:1900/desc.xml\r\n\r\n";
    let mut device = device_from_response(response).expect("a device");
    let doc = description(IP_SERVICE);
    assert_eq!(device.apply_description(&doc), Err(UpnpError::ServiceNotFound));
    assert!(device.wan_common_service_url.is_none());
    assert!(device.wan_ip_service_url.is_none());
}
