use ipbot::record::IpInfo;

#[test]
fn from_ip_keeps_only_ip() {
    let r = IpInfo::from_ip(String::from("1.2.3.4"));
    assert_eq!(r.ip, "1.2.3.4");
    assert!(r.country.is_none());
    assert!(r.city.is_none());
    assert!(r.isp.is_none());
}
