//! Dial-up info of a provider's end point.
use crate::snp::snp_core_types::DialupInfo;
use crate::text::{decimal_digits, push_decimal, push_str};
use vstd::prelude::*;

verus! {

/// How dial-up info reads: its name, its address as host and port, its api
/// version and its network id.
pub open spec fn dialup_info_text(d: DialupInfo) -> Seq<char> {
    "name: "@ + d.name@ + ", address: "@ + d.ip_address@ + ":"@ + decimal_digits(d.port as nat)
        + ", api version: "@ + d.api_version@ + ", net_id: "@ + decimal_digits(d.net_id as nat)
}

impl DialupInfo {
    /// Dial-up info with every field empty or zero.
    pub fn new() -> (r: DialupInfo)
        ensures
            r.end_point == 0,
            r.api_version@ == Seq::<char>::empty(),
            r.ip_address@ == Seq::<char>::empty(),
            r.port == 0,
            r.net_id == 0,
            r.name@ == Seq::<char>::empty(),
    {
        DialupInfo {
            end_point: 0,
            api_version: String::new(),
            ip_address: String::new(),
            port: 0,
            net_id: 0,
            name: String::new(),
        }
    }

    /// The dial-up info as text, for display.
    pub fn describe(&self) -> (r: String)
        ensures
            r@ == dialup_info_text(*self),
    {
        let mut s = String::new();
        push_str(&mut s, "name: ");
        push_str(&mut s, self.name.as_str());
        push_str(&mut s, ", address: ");
        push_str(&mut s, self.ip_address.as_str());
        push_str(&mut s, ":");
        push_decimal(&mut s, self.port);
        push_str(&mut s, ", api version: ");
        push_str(&mut s, self.api_version.as_str());
        push_str(&mut s, ", net_id: ");
        push_decimal(&mut s, self.net_id);
        proof {
            assert(s@ =~= dialup_info_text(*self));
        }
        s
    }
}

} // verus!
