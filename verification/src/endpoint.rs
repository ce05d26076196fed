//! The address of the remote service.

use vstd::prelude::*;
use vstd::string::StringExecFns;

verus! {

/// The text of the service address for a host and an API key.
pub open spec fn url_text(rpc_url: Seq<char>, api_key: Seq<char>) -> Seq<char> {
    "https://"@ + rpc_url + "/?api-key="@ + api_key
}

/// Builds the service address `https://<rpc_url>/?api-key=<api_key>`.
pub fn get_url(rpc_url: &str, api_key: &str) -> (url: String)
    ensures
        url@ == url_text(rpc_url@, api_key@),
{
    let mut url = String::from_str("https://");
    url.append(rpc_url);
    url.append("/?api-key=");
    url.append(api_key);
    url
}

} // verus!
