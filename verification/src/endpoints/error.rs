//! Request targets for error-message sending.

use vstd::prelude::*;

verus! {

/// URL of the `send_error_message` operation.
pub fn send_error_message_url(channel_id: &str) -> (r: String)
    ensures
        r@ == "https://discord.com/api/v9/channels/"@ + channel_id@ + "/messages"@,
{
    let mut r: String = "https://discord.com/api/v9/channels/".to_owned();
    r.append(channel_id);
    r.append("/messages");
    r
}

} // verus!
