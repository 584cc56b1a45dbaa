//! The VMware gateway's VM listing, as the controller relays it.
use vstd::prelude::*;
use crate::text::push_str;

verus! {

/// `http://{gateway_hostname}/api/vms`.
pub open spec fn vms_url_spec(gateway_hostname: Seq<char>) -> Seq<char> {
    "http://"@ + gateway_hostname + "/api/vms"@
}

/// The URL of the gateway's VM listing.
pub fn vms_url(gateway_hostname: &str) -> (url: String)
    ensures
        url@ == "http://"@ + gateway_hostname@ + "/api/vms"@,
        url@ == vms_url_spec(gateway_hostname@),
{
    let mut url = String::new();
    push_str(&mut url, "http://");
    push_str(&mut url, gateway_hostname);
    push_str(&mut url, "/api/vms");
    assert(url@ =~= vms_url_spec(gateway_hostname@));
    url
}

/// Why the VM listing could not be relayed (answered as HTTP 502).
#[derive(PartialEq, Eq, Structural, Debug, Clone, Copy)]
pub enum GatewayError {
    /// The gateway answered with a status outside 2xx.
    BadStatus,
}

/// The gateway's VM list as it answers it.
pub struct VmwareVmList {
    pub vms: Vec<String>,
    pub count: usize,
    pub pattern: String,
}

/// Judges the gateway's HTTP status: the listing is read only after a 2xx.
pub fn check_gateway_status(status: u16) -> (r: Result<(), GatewayError>)
    ensures
        r is Ok <==> 200 <= status < 300,
        r is Err ==> r == Err::<(), GatewayError>(GatewayError::BadStatus),
{
    if 200 <= status && status < 300 {
        Ok(())
    } else {
        Err(GatewayError::BadStatus)
    }
}

/// The VM names relayed to the caller: the list's `vms`, in order.
pub fn relayed_vms(list: VmwareVmList) -> (vms: Vec<String>)
    ensures
        vms@ == list.vms@,
{
    list.vms
}

} // verus!
