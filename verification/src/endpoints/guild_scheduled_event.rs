//! Request targets for guild scheduled-event operations.

use vstd::prelude::*;

verus! {

/// URL of the `list_scheduled_events` operation.
pub fn list_scheduled_events_url(guild_id: &str, event_id: &str) -> (r: String)
    ensures
        r@ == "https://discord.com/api/v9/guilds/"@ + guild_id@ + "/scheduled-events/"@ + event_id@,
{
    let mut r: String = "https://discord.com/api/v9/guilds/".to_owned();
    r.append(guild_id);
    r.append("/scheduled-events/");
    r.append(event_id);
    r
}

/// URL of the `create_scheduled_event` operation.
pub fn create_scheduled_event_url(guild_id: &str) -> (r: String)
    ensures
        r@ == "https://discord.com/api/v9/guilds/"@ + guild_id@ + "/scheduled-events"@,
{
    let mut r: String = "https://discord.com/api/v9/guilds/".to_owned();
    r.append(guild_id);
    r.append("/scheduled-events");
    r
}

/// URL of the `get_scheduled_event` operation.
pub fn get_scheduled_event_url(guild_id: &str, event_id: &str) -> (r: String)
    ensures
        r@ == "https://discord.com/api/v9/guilds/"@ + guild_id@ + "/scheduled-events/"@ + event_id@,
{
    let mut r: String = "https://discord.com/api/v9/guilds/".to_owned();
    r.append(guild_id);
    r.append("/scheduled-events/");
    r.append(event_id);
    r
}

/// URL of the `modify_scheduled_event` operation.
pub fn modify_scheduled_event_url(guild_id: &str, event_id: &str) -> (r: String)
    ensures
        r@ == "https://discord.com/api/v9/guilds/"@ + guild_id@ + "/scheduled-events/"@ + event_id@,
{
    let mut r: String = "https://discord.com/api/v9/guilds/".to_owned();
    r.append(guild_id);
    r.append("/scheduled-events/");
    r.append(event_id);
    r
}

/// URL of the `delete_scheduled_event` operation.
pub fn delete_scheduled_event_url(guild_id: &str, event_id: &str) -> (r: String)
    ensures
        r@ == "https://discord.com/api/v9/guilds/"@ + guild_id@ + "/scheduled-events/"@ + event_id@,
{
    let mut r: String = "https://discord.com/api/v9/guilds/".to_owned();
    r.append(guild_id);
    r.append("/scheduled-events/");
    r.append(event_id);
    r
}

/// URL of the `get_scheduled_event_users` operation.
pub fn get_scheduled_event_users_url(guild_id: &str, event_id: &str) -> (r: String)
    ensures
        r@ == "https://discord.com/api/v9/guilds/"@ + guild_id@ + "/scheduled-events/"@ + event_id@ + "/users"@,
{
    let mut r: String = "https://discord.com/api/v9/guilds/".to_owned();
    r.append(guild_id);
    r.append("/scheduled-events/");
    r.append(event_id);
    r.append("/users");
    r
}

/// URL of the `update_scheduled_event_status` operation.
pub fn update_scheduled_event_status_url(guild_id: &str, event_id: &str) -> (r: String)
    ensures
        r@ == "https://discord.com/api/v9/guilds/"@ + guild_id@ + "/scheduled-events/"@ + event_id@,
{
    let mut r: String = "https://discord.com/api/v9/guilds/".to_owned();
    r.append(guild_id);
    r.append("/scheduled-events/");
    r.append(event_id);
    r
}

/// URL of the `get_scheduled_event_permissions` operation.
pub fn get_scheduled_event_permissions_url() -> (r: String)
    ensures
        r@ == "https://discord.com/api/v9/scheduled-events/permissions"@,
{
    let r: String = "https://discord.com/api/v9/scheduled-events/permissions".to_owned();
    r
}

} // verus!
