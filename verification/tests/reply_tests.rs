use ipbot::record::IpInfo;
use ipbot::reply::{format_error_reply, format_reply, processing_text};
use ipbot::resolver::ResolveError;

#[test]
fn ip_only_record_formats_into_exactly_one_line() {
    let info = IpInfo::from_ip(String::from("203.0.113.7"));
    let reply = format_reply(&info);
    assert_eq!(reply, "你的真实公网IP地址是: 203.0.113.7\n");
    assert_eq!(reply.matches('\n').count(), 1);
}

#[test]
fn full_record_formats_into_four_lines_in_order() {
    let info = IpInfo {
        ip: String::from("203.0.113.7"),
        country: Some(String::from("Iceland")),
        city: Some(String::from("Reykjavik")),
        isp: Some(String::from("Example Networks")),
    };
    let reply = format_reply(&info);
    assert_eq!(
        reply,
        "你的真实公网IP地址是: 203.0.113.7\n国家/地区: Iceland\n城市: Reykjavik\nISP: Example Networks\n"
    );
    assert_eq!(reply.matches('\n').count(), 4);
    let lines: Vec<&str> = reply.lines().collect();
    assert_eq!(lines.len(), 4);
    assert!(lines[0].contains("203.0.113.7"));
    assert!(lines[1].contains("Iceland"));
    assert!(lines[2].contains("Reykjavik"));
    assert!(lines[3].contains("Example Networks"));
}

#[test]
fn absent_optional_fields_leave_no_line() {
    let info = IpInfo {
        ip: String::from("198.51.100.2"),
        country: None,
        city: Some(String::from("Lyon")),
        isp: None,
    };
    let reply = format_reply(&info);
    assert_eq!(reply, "你的真实公网IP地址是: 198.51.100.2\n城市: Lyon\n");
    assert_eq!(reply.matches('\n').count(), 2);
}

#[test]
fn failure_formats_into_a_single_error_line() {
    let e = ResolveError::NoProviderAvailable;
    let reply = format_error_reply(e.message());
    assert_eq!(reply, "查询IP地址时出错: Failed to get public IP from any service");
    assert_eq!(reply.matches('\n').count(), 0);
    // no IP data in the failure reply
    assert!(!reply.contains("你的真实公网IP地址是"));
}

#[test]
fn placeholder_text_is_the_waiting_message() {
    assert_eq!(processing_text(), "正在查询你的真实公网IP地址，请稍候...");
}
