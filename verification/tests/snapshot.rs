use upnp_wan_exporter_rs::device::parse_service_urls;
use upnp_wan_exporter_rs::soap::{parse_string_response, parse_u64_response, CounterKind};
use upnp_wan_exporter_rs::ssdp::device_from_response;
use upnp_wan_exporter_rs::stats::{assemble_stats, counters_url};
use upnp_wan_exporter_rs::{init_metrics, Config, MetricsCollector, TrafficStats, UpnpError};

#[test]
fn default_stats_are_all_zero_and_disconnected() {
    let stats = TrafficStats::default();
    assert_eq!(stats.bytes_sent, 0);
    assert_eq!(stats.bytes_received, 0);
    assert_eq!(stats.packets_sent, 0);
    assert_eq!(stats.packets_received, 0);
    assert_eq!(stats.connection_status, "Disconnected");
    assert!(!stats.is_up());
}

#[test]
fn assemble_takes_every_successful_reading() {
    let stats = assemble_stats(Some(1000), Some(2000), Some(10), Some(20), Some("Up".to_string()));
    assert_eq!(stats.bytes_sent, 1000);
    assert_eq!(stats.bytes_received, 2000);
    assert_eq!(stats.packets_sent, 10);
    assert_eq!(stats.packets_received, 20);
    assert_eq!(stats.connection_status, "Up");
    assert!(stats.is_up());
}

#[test]
fn one_failed_reading_defaults_only_its_field() {
    let stats = assemble_stats(Some(1000), Some(2000), Some(10), None, Some("Up".to_string()));
    assert_eq!(stats.packets_received, 0);
    assert_eq!(stats.bytes_sent, 1000);
    assert_eq!(stats.bytes_received, 2000);
    assert_eq!(stats.packets_sent, 10);
    assert_eq!(stats.connection_status, "Up");
}

#[test]
fn failed_status_reading_reads_disconnected() {
    let stats = assemble_stats(Some(1), Some(2), Some(3), Some(4), None);
    assert_eq!(stats.connection_status, "Disconnected");
    assert!(!stats.is_up());
}

#[test]
fn counters_need_a_device() {
    assert_eq!(counters_url(&None), Err(UpnpError::NoDevice));
}

#[test]
fn counters_need_a_common_service_url() {
    let response = "HTTP/1.1 200 OK\r\nLOCATION: http://192.168.1.1:1900/desc.xml\r\n\r\n";
    let device = device_from_response(response).expect("a device");
    assert_eq!(counters_url(&Some(device)), Err(UpnpError::NoServiceUrl));
}

#[test]
fn counters_url_is_the_resolved_common_url() {
    let response = "HTTP/1.1 200 OK\r\nLOCATION: http://192.168.1.1:1900/desc.xml\r\n\r\n";
    let mut device = device_from_response(response).expect("a device");
    let doc = "<?xml version=\"1.0\"?><root><serviceList><service><serviceType>urn:schemas-upnp-org:service:WANCommonInterfaceConfig:1</serviceType><controlURL>/upnp/control/WANCommonIFC1</controlURL></service></serviceList></root>";
    device.apply_description(doc).expect("resolution succeeds");
    assert_eq!(
        counters_url(&Some(device)),
        Ok("http://192.168.1.1:1900/upnp/control/WANCommonIFC1".to_string())
    );
}

#[test]
fn registry_starts_at_zero() {
    let registry = init_metrics();
    assert_eq!(registry.bytes_sent, 0);
    assert_eq!(registry.bytes_received, 0);
    assert_eq!(registry.packets_sent, 0);
    assert_eq!(registry.packets_received, 0);
    assert_eq!(registry.connection_status, 0);
    assert_eq!(registry.scrape_error, 0);
}

#[test]
fn update_metrics_copies_the_snapshot() {
    let mut registry = init_metrics();
    let stats = assemble_stats(Some(1000), Some(2000), Some(10), Some(20), Some("Up".to_string()));
    MetricsCollector::update_metrics(&mut registry, &stats);
    assert_eq!(registry.bytes_sent, 1000);
    assert_eq!(registry.bytes_received, 2000);
    assert_eq!(registry.packets_sent, 10);
    assert_eq!(registry.packets_received, 20);
    assert_eq!(registry.connection_status, 1);
    assert_eq!(registry.scrape_error, 0);
}

#[test]
fn link_not_up_reads_gauge_zero() {
    let mut registry = init_metrics();
    let stats = assemble_stats(Some(1), Some(2), Some(3), Some(4), Some("Down".to_string()));
    MetricsCollector::update_metrics(&mut registry, &stats);
    assert_eq!(registry.connection_status, 0);
}

#[test]
fn scrape_outcome_gauges() {
    let mut registry = init_metrics();
    let stats = assemble_stats(Some(1), Some(2), Some(3), Some(4), Some("Up".to_string()));
    MetricsCollector::update_metrics(&mut registry, &stats);
    registry.record_failure();
    assert_eq!(registry.scrape_error, 1);
    assert_eq!(registry.connection_status, 0);
    assert_eq!(registry.bytes_sent, 1);
    registry.record_success();
    assert_eq!(registry.scrape_error, 0);
    assert_eq!(registry.bytes_sent, 1);
}

#[test]
fn error_messages_name_the_failure() {
    assert_eq!(UpnpError::NoDevice.message(), "No device configured");
    assert_eq!(UpnpError::NoServiceUrl.message(), "No WANCommonInterfaceConfig service URL");
    assert_eq!(
        UpnpError::ServiceNotFound.message(),
        "WANCommonInterfaceConfig service not found"
    );
    assert_eq!(UpnpError::ElementNotFound.message(), "Element not found in response");
    assert_eq!(UpnpError::ValueParseError.message(), "Failed to parse element value");
}

#[test]
fn default_config_port() {
    let config = Config::default();
    assert_eq!(config.server.port, 9091);
}

fn soap_u64_response(action: &str, element: &str, value: &str) -> String {
    format!(
        "<?xml version=\"1.0\"?><s:Envelope xmlns:s=\"http://schemas.xmlsoap.org/soap/envelope/\"><s:Body><u:{0}Response xmlns:u=\"urn:schemas-upnp-org:service:WANCommonInterfaceConfig:1\"><{1}>{2}</{1}></u:{0}Response></s:Body></s:Envelope>",
        action, element, value
    )
}

#[test]
fn full_collection_cycle_assembles_the_snapshot() {
    let ssdp = "HTTP/1.1 200 OK\r\nLOCATION: http://192.168.1.1:1900/desc.xml\r\n\r\n";
    let mut device = device_from_response(ssdp).expect("a device");

    let description = "<?xml version=\"1.0\"?><root><serviceList><service><serviceType>urn:schemas-upnp-org:service:WANCommonInterfaceConfig:1</serviceType><controlURL>/upnp/control/WANCommonIFC1</controlURL></service></serviceList></root>";
    let (common, ip) = parse_service_urls(description, &device.location).expect("service found");
    assert_eq!(
        common,
        Some("http://192.168.1.1:1900/upnp/control/WANCommonIFC1".to_string())
    );
    device.apply_description(description).expect("resolution succeeds");
    assert_eq!(device.wan_common_service_url, common);
    assert_eq!(device.wan_ip_service_url, ip);

    let url = counters_url(&Some(device)).expect("a control url");
    assert_eq!(url, "http://192.168.1.1:1900/upnp/control/WANCommonIFC1");

    let bytes_sent = parse_u64_response(
        &soap_u64_response("GetTotalBytesSent", "NewTotalBytesSent", "1000"),
        CounterKind::BytesSent.element_name(),
    )
    .ok();
    let bytes_received = parse_u64_response(
        &soap_u64_response("GetTotalBytesReceived", "NewTotalBytesReceived", "2000"),
        CounterKind::BytesReceived.element_name(),
    )
    .ok();
    let packets_sent = parse_u64_response(
        &soap_u64_response("GetTotalPacketsSent", "NewTotalPacketsSent", "10"),
        CounterKind::PacketsSent.element_name(),
    )
    .ok();
    let packets_received = parse_u64_response(
        &soap_u64_response("GetTotalPacketsReceived", "NewTotalPacketsReceived", "20"),
        CounterKind::PacketsReceived.element_name(),
    )
    .ok();
    let status = parse_string_response(
        &soap_u64_response("GetCommonLinkProperties", "NewPhysicalLinkStatus", "Up"),
        CounterKind::LinkStatus.element_name(),
    )
    .ok();

    let stats = assemble_stats(bytes_sent, bytes_received, packets_sent, packets_received, status);
    assert_eq!(stats.bytes_sent, 1000);
    assert_eq!(stats.bytes_received, 2000);
    assert_eq!(stats.packets_sent, 10);
    assert_eq!(stats.packets_received, 20);
    assert_eq!(stats.connection_status, "Up");
}

#[test]
fn partial_failure_keeps_the_snapshot() {
    let packets_received: Option<u64> = None;
    let stats = assemble_stats(
        parse_u64_response(
            &soap_u64_response("GetTotalBytesSent", "NewTotalBytesSent", "1000"),
            "NewTotalBytesSent",
        )
        .ok(),
        parse_u64_response(
            &soap_u64_response("GetTotalBytesReceived", "NewTotalBytesReceived", "2000"),
            "NewTotalBytesReceived",
        )
        .ok(),
        parse_u64_response(
            &soap_u64_response("GetTotalPacketsSent", "NewTotalPacketsSent", "10"),
            "NewTotalPacketsSent",
        )
        .ok(),
        packets_received,
        parse_string_response(
            &soap_u64_response("GetCommonLinkProperties", "NewPhysicalLinkStatus", "Up"),
            "NewPhysicalLinkStatus",
        )
        .ok(),
    );
    assert_eq!(stats.packets_received, 0);
    assert_eq!(stats.bytes_sent, 1000);
    assert_eq!(stats.bytes_received, 2000);
    assert_eq!(stats.packets_sent, 10);
    assert_eq!(stats.connection_status, "Up");
}
