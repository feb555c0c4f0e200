//! Request targets for role operations.

use vstd::prelude::*;

verus! {

/// URL of the `add_role` operation.
pub fn add_role_url(guild_id: &str, user_id: &str, role_id: &str) -> (r: String)
    ensures
        r@ == "https://discord.com/api/v9/guilds/"@ + guild_id@ + "/members/"@ + user_id@ + "/roles/"@ + role_id@,
{
    let mut r: String = "https://discord.com/api/v9/guilds/".to_owned();
    r.append(guild_id);
    r.append("/members/");
    r.append(user_id);
    r.append("/roles/");
    r.append(role_id);
    r
}

/// URL of the `remove_role` operation.
pub fn remove_role_url(guild_id: &str, user_id: &str, role_id: &str) -> (r: String)
    ensures
        r@ == "https://discord.com/api/v9/guilds/"@ + guild_id@ + "/members/"@ + user_id@ + "/roles/"@ + role_id@,
{
    let mut r: String = "https://discord.com/api/v9/guilds/".to_owned();
    r.append(guild_id);
    r.append("/members/");
    r.append(user_id);
    r.append("/roles/");
    r.append(role_id);
    r
}

/// URL of the `fetch_role_info` operation.
pub fn fetch_role_info_url(guild_id: &str, role_id: &str) -> (r: String)
    ensures
        r@ == "https://discord.com/api/v9/guilds/"@ + guild_id@ + "/roles/"@ + role_id@,
{
    let mut r: String = "https://discord.com/api/v9/guilds/".to_owned();
    r.append(guild_id);
    r.append("/roles/");
    r.append(role_id);
    r
}

} // verus!
