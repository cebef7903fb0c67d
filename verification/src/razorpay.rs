//! The client handle: credentials and transport configuration for the
//! service's fixed base URL.

use vstd::prelude::*;

use crate::api::{Api, ApiOptions};

verus! {

/// This library's version, as it announces itself to the service.
pub const VERSION: &'static str = "0.1.0";

/// A configured client for the service.
pub struct Razorpay {
    pub api: Api,
}

impl Razorpay {
    /// A client over the given credentials, aimed at the service's
    /// production host with default version `v1`.
    pub fn new(key_id: &str, key_secret: &str) -> (r: Razorpay)
        ensures
            r.api.key_id@ == key_id@,
            r.api.key_secret@ == key_secret@,
            r.api.base_url@ == "https://api.razorpay.com"@,
            r.api.version@ == "v1"@,
            r.api.user_agent@ == "rusty-razorpay@"@ + VERSION@,
    {
        let mut user_agent = String::from_str("rusty-razorpay@");
        user_agent.append(VERSION);
        Razorpay {
            api: Api::new(
                ApiOptions {
                    base_url: String::from_str("https://api.razorpay.com"),
                    user_agent,
                    key_id: key_id.to_owned(),
                    key_secret: key_secret.to_owned(),
                },
            ),
        }
    }
}

} // verus!
