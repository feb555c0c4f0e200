//! Request targets for user operations.

use vstd::prelude::*;

verus! {

/// URL of the `get_current_user` operation.
pub fn get_current_user_url() -> (r: String)
    ensures
        r@ == "https://discord.com/api/v9/users/@me"@,
{
    let r: String = "https://discord.com/api/v9/users/@me".to_owned();
    r
}

/// URL of the `get_user` operation.
pub fn get_user_url(user_id: &str) -> (r: String)
    ensures
        r@ == "https://discord.com/api/v9/users/"@ + user_id@,
{
    let mut r: String = "https://discord.com/api/v9/users/".to_owned();
    r.append(user_id);
    r
}

/// URL of the `modify_current_user` operation.
pub fn modify_current_user_url() -> (r: String)
    ensures
        r@ == "https://discord.com/api/v9/users/@me"@,
{
    let r: String = "https://discord.com/api/v9/users/@me".to_owned();
    r
}

/// URL of the `get_current_user_guilds` operation.
pub fn get_current_user_guilds_url() -> (r: String)
    ensures
        r@ == "https://discord.com/api/v9/users/@me/guilds"@,
{
    let r: String = "https://discord.com/api/v9/users/@me/guilds".to_owned();
    r
}

/// URL of the `get_current_user_guild_member` operation.
pub fn get_current_user_guild_member_url(guild_id: &str) -> (r: String)
    ensures
        r@ == "https://discord.com/api/v9/users/@me/guilds/"@ + guild_id@ + "/member"@,
{
    let mut r: String = "https://discord.com/api/v9/users/@me/guilds/".to_owned();
    r.append(guild_id);
    r.append("/member");
    r
}

/// URL of the `leave_guild` operation.
pub fn leave_guild_url(guild_id: &str) -> (r: String)
    ensures
        r@ == "https://discord.com/api/v9/users/@me/guilds/"@ + guild_id@,
{
    let mut r: String = "https://discord.com/api/v9/users/@me/guilds/".to_owned();
    r.append(guild_id);
    r
}

/// URL of the `create_dm` operation.
pub fn create_dm_url() -> (r: String)
    ensures
        r@ == "https://discord.com/api/v9/users/@me/channels"@,
{
    let r: String = "https://discord.com/api/v9/users/@me/channels".to_owned();
    r
}

/// URL of the `create_group_dm` operation.
pub fn create_group_dm_url() -> (r: String)
    ensures
        r@ == "https://discord.com/api/v9/users/@me/channels"@,
{
    let r: String = "https://discord.com/api/v9/users/@me/channels".to_owned();
    r
}

/// URL of the `get_current_user_connections` operation.
pub fn get_current_user_connections_url() -> (r: String)
    ensures
        r@ == "https://discord.com/api/v9/users/@me/connections"@,
{
    let r: String = "https://discord.com/api/v9/users/@me/connections".to_owned();
    r
}

/// URL of the `get_current_user_application_role_connection` operation.
pub fn get_current_user_application_role_connection_url(application_id: &str) -> (r: String)
    ensures
        r@ == "https://discord.com/api/v9/users/@me/applications/"@ + application_id@ + "/role-connection"@,
{
    let mut r: String = "https://discord.com/api/v9/users/@me/applications/".to_owned();
    r.append(application_id);
    r.append("/role-connection");
    r
}

/// URL of the `update_current_user_application_role_connection` operation.
pub fn update_current_user_application_role_connection_url(application_id: &str) -> (r: String)
    ensures
        r@ == "https://discord.com/api/v9/users/@me/applications/"@ + application_id@ + "/role-connection"@,
{
    let mut r: String = "https://discord.com/api/v9/users/@me/applications/".to_owned();
    r.append(application_id);
    r.append("/role-connection");
    r
}

/// URL of the `kick_user` operation.
pub fn kick_user_url(guild_id: &str, user_id: &str) -> (r: String)
    ensures
        r@ == "https://discord.com/api/v9/guilds/"@ + guild_id@ + "/members/"@ + user_id@,
{
    let mut r: String = "https://discord.com/api/v9/guilds/".to_owned();
    r.append(guild_id);
    r.append("/members/");
    r.append(user_id);
    r
}

/// URL of the `ban_user` operation.
pub fn ban_user_url(guild_id: &str, user_id: &str) -> (r: String)
    ensures
        r@ == "https://discord.com/api/v9/guilds/"@ + guild_id@ + "/bans/"@ + user_id@,
{
    let mut r: String = "https://discord.com/api/v9/guilds/".to_owned();
    r.append(guild_id);
    r.append("/bans/");
    r.append(user_id);
    r
}

} // verus!
