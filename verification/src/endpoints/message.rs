//! Request targets for message operations.

use vstd::prelude::*;

verus! {

/// URL of the `send_message` operation.
pub fn send_message_url(channel_id: &str) -> (r: String)
    ensures
        r@ == "https://discord.com/api/v9/channels/"@ + channel_id@ + "/messages"@,
{
    let mut r: String = "https://discord.com/api/v9/channels/".to_owned();
    r.append(channel_id);
    r.append("/messages");
    r
}

/// URL of the `edit_message` operation.
pub fn edit_message_url(channel_id: &str, message_id: &str) -> (r: String)
    ensures
        r@ == "https://discord.com/api/v9/channels/"@ + channel_id@ + "/messages/"@ + message_id@,
{
    let mut r: String = "https://discord.com/api/v9/channels/".to_owned();
    r.append(channel_id);
    r.append("/messages/");
    r.append(message_id);
    r
}

/// URL of the `delete_message` operation.
pub fn delete_message_url(channel_id: &str, message_id: &str) -> (r: String)
    ensures
        r@ == "https://discord.com/api/v9/channels/"@ + channel_id@ + "/messages/"@ + message_id@,
{
    let mut r: String = "https://discord.com/api/v9/channels/".to_owned();
    r.append(channel_id);
    r.append("/messages/");
    r.append(message_id);
    r
}

/// URL of the `pin_message` operation.
pub fn pin_message_url(channel_id: &str, message_id: &str) -> (r: String)
    ensures
        r@ == "https://discord.com/api/v9/channels/"@ + channel_id@ + "/pins/"@ + message_id@,
{
    let mut r: String = "https://discord.com/api/v9/channels/".to_owned();
    r.append(channel_id);
    r.append("/pins/");
    r.append(message_id);
    r
}

/// URL of the `unpin_message` operation.
pub fn unpin_message_url(channel_id: &str, message_id: &str) -> (r: String)
    ensures
        r@ == "https://discord.com/api/v9/channels/"@ + channel_id@ + "/pins/"@ + message_id@,
{
    let mut r: String = "https://discord.com/api/v9/channels/".to_owned();
    r.append(channel_id);
    r.append("/pins/");
    r.append(message_id);
    r
}

} // verus!
