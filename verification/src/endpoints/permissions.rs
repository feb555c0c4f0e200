//! Request targets for the permission check.

use vstd::prelude::*;

verus! {

/// URL of the `check_permission` operation.
pub fn check_permission_url(guild_id: &str, user_id: &str) -> (r: String)
    ensures
        r@ == "https://discord.com/api/v9/guilds/"@ + guild_id@ + "/members/"@ + user_id@,
{
    let mut r: String = "https://discord.com/api/v9/guilds/".to_owned();
    r.append(guild_id);
    r.append("/members/");
    r.append(user_id);
    r
}

} // verus!
