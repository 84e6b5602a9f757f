//! The transient IP-info record: one required IP address and three
//! optional descriptive fields, as a winning provider supplied them.

use vstd::prelude::*;

verus! {

/// A public-IP record returned by a provider: the IP address itself is
/// required; country, city and ISP name are present only when the
/// provider supplied them.
pub struct IpInfo {
    pub ip: String,
    pub country: Option<String>,
    pub city: Option<String>,
    pub isp: Option<String>,
}

impl IpInfo {
    /// A record that carries only the required IP address.
    pub fn from_ip(ip: String) -> (r: IpInfo)
        ensures
            r.ip@ == ip@,
            r.country is None,
            r.city is None,
            r.isp is None,
    {
        IpInfo { ip, country: None, city: None, isp: None }
    }
}

} // verus!
