//! Request targets for webhook operations.

use vstd::prelude::*;

verus! {

/// URL of the `create_webhook` operation.
pub fn create_webhook_url(channel_id: &str) -> (r: String)
    ensures
        r@ == "https://discord.com/api/v9/channels/"@ + channel_id@ + "/webhooks"@,
{
    let mut r: String = "https://discord.com/api/v9/channels/".to_owned();
    r.append(channel_id);
    r.append("/webhooks");
    r
}

/// URL of the `get_channel_webhooks` operation.
pub fn get_channel_webhooks_url(channel_id: &str) -> (r: String)
    ensures
        r@ == "https://discord.com/api/v9/channels/"@ + channel_id@ + "/webhooks"@,
{
    let mut r: String = "https://discord.com/api/v9/channels/".to_owned();
    r.append(channel_id);
    r.append("/webhooks");
    r
}

/// URL of the `get_guild_webhooks` operation.
pub fn get_guild_webhooks_url(guild_id: &str) -> (r: String)
    ensures
        r@ == "https://discord.com/api/v9/guilds/"@ + guild_id@ + "/webhooks"@,
{
    let mut r: String = "https://discord.com/api/v9/guilds/".to_owned();
    r.append(guild_id);
    r.append("/webhooks");
    r
}

/// URL of the `get_webhook` operation.
pub fn get_webhook_url(webhook_id: &str) -> (r: String)
    ensures
        r@ == "https://discord.com/api/v9/webhooks/"@ + webhook_id@,
{
    let mut r: String = "https://discord.com/api/v9/webhooks/".to_owned();
    r.append(webhook_id);
    r
}

/// URL of the `get_webhook_with_token` operation.
pub fn get_webhook_with_token_url(webhook_id: &str, webhook_token: &str) -> (r: String)
    ensures
        r@ == "https://discord.com/api/v9/webhooks/"@ + webhook_id@ + "/"@ + webhook_token@,
{
    let mut r: String = "https://discord.com/api/v9/webhooks/".to_owned();
    r.append(webhook_id);
    r.append("/");
    r.append(webhook_token);
    r
}

/// URL of the `modify_webhook` operation.
pub fn modify_webhook_url(webhook_id: &str) -> (r: String)
    ensures
        r@ == "https://discord.com/api/v9/webhooks/"@ + webhook_id@,
{
    let mut r: String = "https://discord.com/api/v9/webhooks/".to_owned();
    r.append(webhook_id);
    r
}

/// URL of the `modify_webhook_with_token` operation.
pub fn modify_webhook_with_token_url(webhook_id: &str, webhook_token: &str) -> (r: String)
    ensures
        r@ == "https://discord.com/api/v9/webhooks/"@ + webhook_id@ + "/"@ + webhook_token@,
{
    let mut r: String = "https://discord.com/api/v9/webhooks/".to_owned();
    r.append(webhook_id);
    r.append("/");
    r.append(webhook_token);
    r
}

/// URL of the `delete_webhook` operation.
pub fn delete_webhook_url(webhook_id: &str) -> (r: String)
    ensures
        r@ == "https://discord.com/api/v9/webhooks/"@ + webhook_id@,
{
    let mut r: String = "https://discord.com/api/v9/webhooks/".to_owned();
    r.append(webhook_id);
    r
}

/// URL of the `delete_webhook_with_token` operation.
pub fn delete_webhook_with_token_url(webhook_id: &str, webhook_token: &str) -> (r: String)
    ensures
        r@ == "https://discord.com/api/v9/webhooks/"@ + webhook_id@ + "/"@ + webhook_token@,
{
    let mut r: String = "https://discord.com/api/v9/webhooks/".to_owned();
    r.append(webhook_id);
    r.append("/");
    r.append(webhook_token);
    r
}

/// URL of the `execute_webhook` operation.
pub fn execute_webhook_url(webhook_id: &str, webhook_token: &str) -> (r: String)
    ensures
        r@ == "https://discord.com/api/v9/webhooks/"@ + webhook_id@ + "/"@ + webhook_token@,
{
    let mut r: String = "https://discord.com/api/v9/webhooks/".to_owned();
    r.append(webhook_id);
    r.append("/");
    r.append(webhook_token);
    r
}

/// URL of the `execute_slack_compatible_webhook` operation.
pub fn execute_slack_compatible_webhook_url(webhook_id: &str, webhook_token: &str) -> (r: String)
    ensures
        r@ == "https://discord.com/api/v9/webhooks/"@ + webhook_id@ + "/"@ + webhook_token@ + "/slack"@,
{
    let mut r: String = "https://discord.com/api/v9/webhooks/".to_owned();
    r.append(webhook_id);
    r.append("/");
    r.append(webhook_token);
    r.append("/slack");
    r
}

/// URL of the `execute_github_compatible_webhook` operation.
pub fn execute_github_compatible_webhook_url(webhook_id: &str, webhook_token: &str) -> (r: String)
    ensures
        r@ == "https://discord.com/api/v9/webhooks/"@ + webhook_id@ + "/"@ + webhook_token@ + "/github"@,
{
    let mut r: String = "https://discord.com/api/v9/webhooks/".to_owned();
    r.append(webhook_id);
    r.append("/");
    r.append(webhook_token);
    r.append("/github");
    r
}

/// URL of the `get_webhook_message` operation.
pub fn get_webhook_message_url(webhook_id: &str, webhook_token: &str, message_id: &str) -> (r: String)
    ensures
        r@ == "https://discord.com/api/v9/webhooks/"@ + webhook_id@ + "/"@ + webhook_token@ + "/messages/"@ + message_id@,
{
    let mut r: String = "https://discord.com/api/v9/webhooks/".to_owned();
    r.append(webhook_id);
    r.append("/");
    r.append(webhook_token);
    r.append("/messages/");
    r.append(message_id);
    r
}

/// URL of the `edit_webhook_message` operation.
pub fn edit_webhook_message_url(webhook_id: &str, webhook_token: &str, message_id: &str) -> (r: String)
    ensures
        r@ == "https://discord.com/api/v9/webhooks/"@ + webhook_id@ + "/"@ + webhook_token@ + "/messages/"@ + message_id@,
{
    let mut r: String = "https://discord.com/api/v9/webhooks/".to_owned();
    r.append(webhook_id);
    r.append("/");
    r.append(webhook_token);
    r.append("/messages/");
    r.append(message_id);
    r
}

/// URL of the `delete_webhook_message` operation.
pub fn delete_webhook_message_url(webhook_id: &str, webhook_token: &str, message_id: &str) -> (r: String)
    ensures
        r@ == "https://discord.com/api/v9/webhooks/"@ + webhook_id@ + "/"@ + webhook_token@ + "/messages/"@ + message_id@,
{
    let mut r: String = "https://discord.com/api/v9/webhooks/".to_owned();
    r.append(webhook_id);
    r.append("/");
    r.append(webhook_token);
    r.append("/messages/");
    r.append(message_id);
    r
}

} // verus!
