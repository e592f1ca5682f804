//! The request bodies that callers hand to the library.

use vstd::prelude::*;

verus! {

/// A request to register a webhook.
#[derive(Debug)]
pub struct SubscribeBody {
    /// The channel id chosen by the caller.
    pub id: String,
    /// The address that receives the notifications.
    pub uri: String,
    /// A token that is echoed in every notification.
    pub token: Option<String>,
    /// The requested expiration, in seconds since the epoch.
    pub expiration: Option<u64>,
}

} // verus!
