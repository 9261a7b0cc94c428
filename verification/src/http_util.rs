//! The pieces of a request to the proxy's controller.
use vstd::prelude::*;

use crate::proxy_service::ProxyApiInfo;

verus! {

/// The name of the user-agent header sent with every request.
pub const USER_AGENT_KEY: &'static str = "User-Agent";

/// The user agent sent with every request.
pub const USER_AGENT_VALUE: &'static str = "Mozilla/5.0 (Windows NT 10.0; Win64; x64) AppleWebKit/537.36 (KHTML, like Gecko) Chrome/120.0.0.0 Safari/537.36 Edg/120.0.0.0";

/// The `Authorization` header value for the controller: `Bearer ` and the
/// secret.
pub fn authorization_value(api_info: &ProxyApiInfo) -> (r: String)
    ensures
        r@ == "Bearer "@ + api_info.secret@,
{
    let mut r = "Bearer ".to_owned();
    r.append(api_info.secret.as_str());
    r
}

/// The address of `path` on the controller: `http://`, the controller's
/// address, then the path.
pub fn controller_url(api_info: &ProxyApiInfo, path: &str) -> (r: String)
    ensures
        r@ == "http://"@ + api_info.external_controller@ + path@,
{
    let mut r = "http://".to_owned();
    r.append(api_info.external_controller.as_str());
    r.append(path);
    r
}

} // verus!
