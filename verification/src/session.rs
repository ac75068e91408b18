//! What is said to the server when a session is opened.

use vstd::prelude::*;

verus! {

/// The user agent that every request carries.
pub const USER_AGENT: &'static str =
    "Mozilla/5.0 (Windows NT 10.0; Win64; x64) AppleWebKit/537.36 (KHTML, like Gecko) Chrome/124.0.0.0 Safari/537.36";

/// The address that a login is posted to on `instance`.
pub fn login_url(instance: &str) -> (url: String)
    ensures
        url@ == "https://"@ + instance@ + "/api/v3/user/login"@,
{
    let mut url = String::from_str("https://");
    url.append(instance);
    url.append("/api/v3/user/login");
    url
}

/// The value of the authorization header for the token `jwt`.
pub fn bearer(jwt: &str) -> (value: String)
    ensures
        value@ == "Bearer "@ + jwt@,
{
    let mut value = String::from_str("Bearer ");
    value.append(jwt);
    value
}

} // verus!
