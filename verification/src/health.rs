//! Health and status answers of the two backends.
use vstd::prelude::*;

verus! {

/// The controller's status: what it runs as and which hosts it talks to.
pub struct ControllerStatus {
    pub version: String,
    pub vmware_gateway_hostname: String,
    pub matrix_hostname: String,
    pub username: String,
}

/// The controller's configuration that its status reports.
pub struct ControllerIdentity {
    pub version: String,
    pub matrix_hostname: String,
    pub vmware_gateway_hostname: String,
    pub username: String,
}

/// The controller's status answer: its version, hosts and Matrix user name.
pub fn controller_status(identity: &ControllerIdentity) -> (s: ControllerStatus)
    ensures
        s.version@ == identity.version@,
        s.vmware_gateway_hostname@ == identity.vmware_gateway_hostname@,
        s.matrix_hostname@ == identity.matrix_hostname@,
        s.username@ == identity.username@,
{
    ControllerStatus {
        version: identity.version.clone(),
        vmware_gateway_hostname: identity.vmware_gateway_hostname.clone(),
        matrix_hostname: identity.matrix_hostname.clone(),
        username: identity.username.clone(),
    }
}

/// The UI backend's health answer.
pub struct HealthResponse {
    pub status: String,
    pub version: String,
}

/// The answer of `/health`: status `healthy` and the backend's version.
pub fn health_response(version: &str) -> (r: HealthResponse)
    ensures
        r.status@ == "healthy"@,
        r.version@ == version@,
{
    HealthResponse { status: "healthy".to_owned(), version: version.to_owned() }
}

/// The answer of `/api/v1/status`: status `ok` and the backend's version.
pub fn status_response(version: &str) -> (r: HealthResponse)
    ensures
        r.status@ == "ok"@,
        r.version@ == version@,
{
    HealthResponse { status: "ok".to_owned(), version: version.to_owned() }
}

} // verus!
