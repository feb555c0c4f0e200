//! Request targets for guild operations.

use crate::encode::dec_digits;
use crate::encode::u64_to_dec;
use vstd::prelude::*;

verus! {

/// URL of the `create_guild` operation.
pub fn create_guild_url() -> (r: String)
    ensures
        r@ == "https://discord.com/api/v9/guilds"@,
{
    let r: String = "https://discord.com/api/v9/guilds".to_owned();
    r
}

/// URL of the `get_guild` operation.
pub fn get_guild_url(guild_id: &str) -> (r: String)
    ensures
        r@ == "https://discord.com/api/v9/guilds/"@ + guild_id@,
{
    let mut r: String = "https://discord.com/api/v9/guilds/".to_owned();
    r.append(guild_id);
    r
}

/// URL of the `get_guild_preview` operation.
pub fn get_guild_preview_url(guild_id: &str) -> (r: String)
    ensures
        r@ == "https://discord.com/api/v9/guilds/"@ + guild_id@ + "/preview"@,
{
    let mut r: String = "https://discord.com/api/v9/guilds/".to_owned();
    r.append(guild_id);
    r.append("/preview");
    r
}

/// URL of the `modify_guild` operation.
pub fn modify_guild_url(guild_id: &str) -> (r: String)
    ensures
        r@ == "https://discord.com/api/v9/guilds/"@ + guild_id@,
{
    let mut r: String = "https://discord.com/api/v9/guilds/".to_owned();
    r.append(guild_id);
    r
}

/// URL of the `delete_guild` operation.
pub fn delete_guild_url(guild_id: &str) -> (r: String)
    ensures
        r@ == "https://discord.com/api/v9/guilds/"@ + guild_id@,
{
    let mut r: String = "https://discord.com/api/v9/guilds/".to_owned();
    r.append(guild_id);
    r
}

/// URL of the `get_guild_channels` operation.
pub fn get_guild_channels_url(guild_id: &str) -> (r: String)
    ensures
        r@ == "https://discord.com/api/v9/guilds/"@ + guild_id@ + "/channels"@,
{
    let mut r: String = "https://discord.com/api/v9/guilds/".to_owned();
    r.append(guild_id);
    r.append("/channels");
    r
}

/// URL of the `create_guild_channel` operation.
pub fn create_guild_channel_url(guild_id: &str) -> (r: String)
    ensures
        r@ == "https://discord.com/api/v9/guilds/"@ + guild_id@ + "/channels"@,
{
    let mut r: String = "https://discord.com/api/v9/guilds/".to_owned();
    r.append(guild_id);
    r.append("/channels");
    r
}

/// URL of the `modify_guild_channel_positions` operation.
pub fn modify_guild_channel_positions_url(guild_id: &str) -> (r: String)
    ensures
        r@ == "https://discord.com/api/v9/guilds/"@ + guild_id@ + "/channels"@,
{
    let mut r: String = "https://discord.com/api/v9/guilds/".to_owned();
    r.append(guild_id);
    r.append("/channels");
    r
}

/// URL of the `list_active_guild_threads` operation.
pub fn list_active_guild_threads_url(guild_id: &str) -> (r: String)
    ensures
        r@ == "https://discord.com/api/v9/guilds/"@ + guild_id@ + "/threads/active"@,
{
    let mut r: String = "https://discord.com/api/v9/guilds/".to_owned();
    r.append(guild_id);
    r.append("/threads/active");
    r
}

/// URL of the `get_guild_member` operation.
pub fn get_guild_member_url(guild_id: &str, user_id: &str) -> (r: String)
    ensures
        r@ == "https://discord.com/api/v9/guilds/"@ + guild_id@ + "/members/"@ + user_id@,
{
    let mut r: String = "https://discord.com/api/v9/guilds/".to_owned();
    r.append(guild_id);
    r.append("/members/");
    r.append(user_id);
    r
}

/// URL of the `list_guild_members` operation.
pub fn list_guild_members_url(guild_id: &str) -> (r: String)
    ensures
        r@ == "https://discord.com/api/v9/guilds/"@ + guild_id@ + "/members"@,
{
    let mut r: String = "https://discord.com/api/v9/guilds/".to_owned();
    r.append(guild_id);
    r.append("/members");
    r
}

/// URL of the `search_guild_members` operation.
pub fn search_guild_members_url(guild_id: &str, query: &str) -> (r: String)
    ensures
        r@ == "https://discord.com/api/v9/guilds/"@ + guild_id@ + "/members/search?query="@ + query@,
{
    let mut r: String = "https://discord.com/api/v9/guilds/".to_owned();
    r.append(guild_id);
    r.append("/members/search?query=");
    r.append(query);
    r
}

/// URL of the `add_guild_member` operation.
pub fn add_guild_member_url(guild_id: &str, user_id: &str) -> (r: String)
    ensures
        r@ == "https://discord.com/api/v9/guilds/"@ + guild_id@ + "/members/"@ + user_id@,
{
    let mut r: String = "https://discord.com/api/v9/guilds/".to_owned();
    r.append(guild_id);
    r.append("/members/");
    r.append(user_id);
    r
}

/// URL of the `modify_guild_member` operation.
pub fn modify_guild_member_url(guild_id: &str, user_id: &str) -> (r: String)
    ensures
        r@ == "https://discord.com/api/v9/guilds/"@ + guild_id@ + "/members/"@ + user_id@,
{
    let mut r: String = "https://discord.com/api/v9/guilds/".to_owned();
    r.append(guild_id);
    r.append("/members/");
    r.append(user_id);
    r
}

/// URL of the `modify_current_member` operation.
pub fn modify_current_member_url(guild_id: &str) -> (r: String)
    ensures
        r@ == "https://discord.com/api/v9/guilds/"@ + guild_id@ + "/members/@me"@,
{
    let mut r: String = "https://discord.com/api/v9/guilds/".to_owned();
    r.append(guild_id);
    r.append("/members/@me");
    r
}

/// URL of the `modify_current_user_nick` operation.
pub fn modify_current_user_nick_url(guild_id: &str) -> (r: String)
    ensures
        r@ == "https://discord.com/api/v9/guilds/"@ + guild_id@ + "/members/@me/nick"@,
{
    let mut r: String = "https://discord.com/api/v9/guilds/".to_owned();
    r.append(guild_id);
    r.append("/members/@me/nick");
    r
}

/// URL of the `add_guild_member_role` operation.
pub fn add_guild_member_role_url(guild_id: &str, user_id: &str, role_id: &str) -> (r: String)
    ensures
        r@ == "https://discord.com/api/v9/guilds/"@ + guild_id@ + "/members/"@ + user_id@ + "/roles/"@ + role_id@,
{
    let mut r: String = "https://discord.com/api/v9/guilds/".to_owned();
    r.append(guild_id);
    r.append("/members/");
    r.append(user_id);
    r.append("/roles/");
    r.append(role_id);
    r
}

/// URL of the `remove_guild_member_role` operation.
pub fn remove_guild_member_role_url(guild_id: &str, user_id: &str, role_id: &str) -> (r: String)
    ensures
        r@ == "https://discord.com/api/v9/guilds/"@ + guild_id@ + "/members/"@ + user_id@ + "/roles/"@ + role_id@,
{
    let mut r: String = "https://discord.com/api/v9/guilds/".to_owned();
    r.append(guild_id);
    r.append("/members/");
    r.append(user_id);
    r.append("/roles/");
    r.append(role_id);
    r
}

/// URL of the `remove_guild_member` operation.
pub fn remove_guild_member_url(guild_id: &str, user_id: &str) -> (r: String)
    ensures
        r@ == "https://discord.com/api/v9/guilds/"@ + guild_id@ + "/members/"@ + user_id@,
{
    let mut r: String = "https://discord.com/api/v9/guilds/".to_owned();
    r.append(guild_id);
    r.append("/members/");
    r.append(user_id);
    r
}

/// URL of the `get_guild_bans` operation.
pub fn get_guild_bans_url(guild_id: &str) -> (r: String)
    ensures
        r@ == "https://discord.com/api/v9/guilds/"@ + guild_id@ + "/bans"@,
{
    let mut r: String = "https://discord.com/api/v9/guilds/".to_owned();
    r.append(guild_id);
    r.append("/bans");
    r
}

/// URL of the `get_guild_ban` operation.
pub fn get_guild_ban_url(guild_id: &str, user_id: &str) -> (r: String)
    ensures
        r@ == "https://discord.com/api/v9/guilds/"@ + guild_id@ + "/bans/"@ + user_id@,
{
    let mut r: String = "https://discord.com/api/v9/guilds/".to_owned();
    r.append(guild_id);
    r.append("/bans/");
    r.append(user_id);
    r
}

/// URL of the `create_guild_ban` operation.
pub fn create_guild_ban_url(guild_id: &str, user_id: &str) -> (r: String)
    ensures
        r@ == "https://discord.com/api/v9/guilds/"@ + guild_id@ + "/bans/"@ + user_id@,
{
    let mut r: String = "https://discord.com/api/v9/guilds/".to_owned();
    r.append(guild_id);
    r.append("/bans/");
    r.append(user_id);
    r
}

/// URL of the `remove_guild_ban` operation.
pub fn remove_guild_ban_url(guild_id: &str, user_id: &str) -> (r: String)
    ensures
        r@ == "https://discord.com/api/v9/guilds/"@ + guild_id@ + "/bans/"@ + user_id@,
{
    let mut r: String = "https://discord.com/api/v9/guilds/".to_owned();
    r.append(guild_id);
    r.append("/bans/");
    r.append(user_id);
    r
}

/// URL of the `bulk_guild_ban` operation.
pub fn bulk_guild_ban_url(guild_id: &str) -> (r: String)
    ensures
        r@ == "https://discord.com/api/v9/guilds/"@ + guild_id@ + "/bans"@,
{
    let mut r: String = "https://discord.com/api/v9/guilds/".to_owned();
    r.append(guild_id);
    r.append("/bans");
    r
}

/// URL of the `get_guild_roles` operation.
pub fn get_guild_roles_url(guild_id: &str) -> (r: String)
    ensures
        r@ == "https://discord.com/api/v9/guilds/"@ + guild_id@ + "/roles"@,
{
    let mut r: String = "https://discord.com/api/v9/guilds/".to_owned();
    r.append(guild_id);
    r.append("/roles");
    r
}

/// URL of the `create_guild_role` operation.
pub fn create_guild_role_url(guild_id: &str) -> (r: String)
    ensures
        r@ == "https://discord.com/api/v9/guilds/"@ + guild_id@ + "/roles"@,
{
    let mut r: String = "https://discord.com/api/v9/guilds/".to_owned();
    r.append(guild_id);
    r.append("/roles");
    r
}

/// URL of the `modify_guild_role_positions` operation.
pub fn modify_guild_role_positions_url(guild_id: &str) -> (r: String)
    ensures
        r@ == "https://discord.com/api/v9/guilds/"@ + guild_id@ + "/roles"@,
{
    let mut r: String = "https://discord.com/api/v9/guilds/".to_owned();
    r.append(guild_id);
    r.append("/roles");
    r
}

/// URL of the `modify_guild_role` operation.
pub fn modify_guild_role_url(guild_id: &str, role_id: &str) -> (r: String)
    ensures
        r@ == "https://discord.com/api/v9/guilds/"@ + guild_id@ + "/roles/"@ + role_id@,
{
    let mut r: String = "https://discord.com/api/v9/guilds/".to_owned();
    r.append(guild_id);
    r.append("/roles/");
    r.append(role_id);
    r
}

/// URL of the `modify_guild_mfa_level` operation.
pub fn modify_guild_mfa_level_url(guild_id: &str) -> (r: String)
    ensures
        r@ == "https://discord.com/api/v9/guilds/"@ + guild_id@ + "/mfa"@,
{
    let mut r: String = "https://discord.com/api/v9/guilds/".to_owned();
    r.append(guild_id);
    r.append("/mfa");
    r
}

/// URL of the `delete_guild_role` operation.
pub fn delete_guild_role_url(guild_id: &str, role_id: &str) -> (r: String)
    ensures
        r@ == "https://discord.com/api/v9/guilds/"@ + guild_id@ + "/roles/"@ + role_id@,
{
    let mut r: String = "https://discord.com/api/v9/guilds/".to_owned();
    r.append(guild_id);
    r.append("/roles/");
    r.append(role_id);
    r
}

/// URL of the `get_guild_prune_count` operation.
pub fn get_guild_prune_count_url(guild_id: &str, days: u8) -> (r: String)
    ensures
        r@ == "https://discord.com/api/v9/guilds/"@ + guild_id@ + "/prune?days="@ + dec_digits(days as int),
{
    let mut r: String = "https://discord.com/api/v9/guilds/".to_owned();
    r.append(guild_id);
    r.append("/prune?days=");
    let days_dec = u64_to_dec(days as u64);
    r.append(days_dec.as_str());
    r
}

/// URL of the `begin_guild_prune` operation.
pub fn begin_guild_prune_url(guild_id: &str) -> (r: String)
    ensures
        r@ == "https://discord.com/api/v9/guilds/"@ + guild_id@ + "/prune"@,
{
    let mut r: String = "https://discord.com/api/v9/guilds/".to_owned();
    r.append(guild_id);
    r.append("/prune");
    r
}

/// URL of the `get_guild_voice_regions` operation.
pub fn get_guild_voice_regions_url(guild_id: &str) -> (r: String)
    ensures
        r@ == "https://discord.com/api/v9/guilds/"@ + guild_id@ + "/regions"@,
{
    let mut r: String = "https://discord.com/api/v9/guilds/".to_owned();
    r.append(guild_id);
    r.append("/regions");
    r
}

/// URL of the `get_guild_invites` operation.
pub fn get_guild_invites_url(guild_id: &str) -> (r: String)
    ensures
        r@ == "https://discord.com/api/v9/guilds/"@ + guild_id@ + "/invites"@,
{
    let mut r: String = "https://discord.com/api/v9/guilds/".to_owned();
    r.append(guild_id);
    r.append("/invites");
    r
}

/// URL of the `get_guild_integrations` operation.
pub fn get_guild_integrations_url(guild_id: &str) -> (r: String)
    ensures
        r@ == "https://discord.com/api/v9/guilds/"@ + guild_id@ + "/integrations"@,
{
    let mut r: String = "https://discord.com/api/v9/guilds/".to_owned();
    r.append(guild_id);
    r.append("/integrations");
    r
}

/// URL of the `delete_guild_integration` operation.
pub fn delete_guild_integration_url(guild_id: &str, integration_id: &str) -> (r: String)
    ensures
        r@ == "https://discord.com/api/v9/guilds/"@ + guild_id@ + "/integrations/"@ + integration_id@,
{
    let mut r: String = "https://discord.com/api/v9/guilds/".to_owned();
    r.append(guild_id);
    r.append("/integrations/");
    r.append(integration_id);
    r
}

/// URL of the `get_guild_widget_settings` operation.
pub fn get_guild_widget_settings_url(guild_id: &str) -> (r: String)
    ensures
        r@ == "https://discord.com/api/v9/guilds/"@ + guild_id@ + "/widget"@,
{
    let mut r: String = "https://discord.com/api/v9/guilds/".to_owned();
    r.append(guild_id);
    r.append("/widget");
    r
}

/// URL of the `modify_guild_widget_settings` operation.
pub fn modify_guild_widget_settings_url(guild_id: &str) -> (r: String)
    ensures
        r@ == "https://discord.com/api/v9/guilds/"@ + guild_id@ + "/widget"@,
{
    let mut r: String = "https://discord.com/api/v9/guilds/".to_owned();
    r.append(guild_id);
    r.append("/widget");
    r
}

/// URL of the `get_guild_widget` operation.
pub fn get_guild_widget_url(guild_id: &str) -> (r: String)
    ensures
        r@ == "https://discord.com/api/v9/guilds/"@ + guild_id@ + "/widget.json"@,
{
    let mut r: String = "https://discord.com/api/v9/guilds/".to_owned();
    r.append(guild_id);
    r.append("/widget.json");
    r
}

/// URL of the `get_guild_vanity_url` operation.
pub fn get_guild_vanity_url_url(guild_id: &str) -> (r: String)
    ensures
        r@ == "https://discord.com/api/v9/guilds/"@ + guild_id@ + "/vanity-url"@,
{
    let mut r: String = "https://discord.com/api/v9/guilds/".to_owned();
    r.append(guild_id);
    r.append("/vanity-url");
    r
}

/// URL of the `get_guild_widget_image` operation.
pub fn get_guild_widget_image_url(guild_id: &str) -> (r: String)
    ensures
        r@ == "https://discord.com/api/v9/guilds/"@ + guild_id@ + "/widget.png"@,
{
    let mut r: String = "https://discord.com/api/v9/guilds/".to_owned();
    r.append(guild_id);
    r.append("/widget.png");
    r
}

/// URL of the `get_guild_welcome_screen` operation.
pub fn get_guild_welcome_screen_url(guild_id: &str) -> (r: String)
    ensures
        r@ == "https://discord.com/api/v9/guilds/"@ + guild_id@ + "/welcome-screen"@,
{
    let mut r: String = "https://discord.com/api/v9/guilds/".to_owned();
    r.append(guild_id);
    r.append("/welcome-screen");
    r
}

/// URL of the `modify_guild_welcome_screen` operation.
pub fn modify_guild_welcome_screen_url(guild_id: &str) -> (r: String)
    ensures
        r@ == "https://discord.com/api/v9/guilds/"@ + guild_id@ + "/welcome-screen"@,
{
    let mut r: String = "https://discord.com/api/v9/guilds/".to_owned();
    r.append(guild_id);
    r.append("/welcome-screen");
    r
}

/// URL of the `get_guild_onboarding` operation.
pub fn get_guild_onboarding_url(guild_id: &str) -> (r: String)
    ensures
        r@ == "https://discord.com/api/v9/guilds/"@ + guild_id@ + "/onboarding"@,
{
    let mut r: String = "https://discord.com/api/v9/guilds/".to_owned();
    r.append(guild_id);
    r.append("/onboarding");
    r
}

/// URL of the `modify_guild_onboarding` operation.
pub fn modify_guild_onboarding_url(guild_id: &str) -> (r: String)
    ensures
        r@ == "https://discord.com/api/v9/guilds/"@ + guild_id@ + "/onboarding"@,
{
    let mut r: String = "https://discord.com/api/v9/guilds/".to_owned();
    r.append(guild_id);
    r.append("/onboarding");
    r
}

/// URL of the `modify_current_user_voice_state` operation.
pub fn modify_current_user_voice_state_url(guild_id: &str) -> (r: String)
    ensures
        r@ == "https://discord.com/api/v9/guilds/"@ + guild_id@ + "/voice-states/@me"@,
{
    let mut r: String = "https://discord.com/api/v9/guilds/".to_owned();
    r.append(guild_id);
    r.append("/voice-states/@me");
    r
}

/// URL of the `modify_user_voice_state` operation.
pub fn modify_user_voice_state_url(guild_id: &str, user_id: &str) -> (r: String)
    ensures
        r@ == "https://discord.com/api/v9/guilds/"@ + guild_id@ + "/voice-states/"@ + user_id@,
{
    let mut r: String = "https://discord.com/api/v9/guilds/".to_owned();
    r.append(guild_id);
    r.append("/voice-states/");
    r.append(user_id);
    r
}

} // verus!
