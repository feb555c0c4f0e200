//! Request targets for channel operations.

use vstd::prelude::*;

verus! {

/// URL of the `fetch_channel_info` operation.
pub fn fetch_channel_info_url(channel_id: &str) -> (r: String)
    ensures
        r@ == "https://discord.com/api/v9/channels/"@ + channel_id@,
{
    let mut r: String = "https://discord.com/api/v9/channels/".to_owned();
    r.append(channel_id);
    r
}

/// URL of the `modify_channel` operation.
pub fn modify_channel_url(channel_id: &str) -> (r: String)
    ensures
        r@ == "https://discord.com/api/v9/channels/"@ + channel_id@,
{
    let mut r: String = "https://discord.com/api/v9/channels/".to_owned();
    r.append(channel_id);
    r
}

/// URL of the `delete_channel` operation.
pub fn delete_channel_url(channel_id: &str) -> (r: String)
    ensures
        r@ == "https://discord.com/api/v9/channels/"@ + channel_id@,
{
    let mut r: String = "https://discord.com/api/v9/channels/".to_owned();
    r.append(channel_id);
    r
}

/// URL of the `get_channel_messages` operation.
pub fn get_channel_messages_url(channel_id: &str) -> (r: String)
    ensures
        r@ == "https://discord.com/api/v9/channels/"@ + channel_id@ + "/messages"@,
{
    let mut r: String = "https://discord.com/api/v9/channels/".to_owned();
    r.append(channel_id);
    r.append("/messages");
    r
}

/// URL of the `get_channel_message` operation.
pub fn get_channel_message_url(channel_id: &str, message_id: &str) -> (r: String)
    ensures
        r@ == "https://discord.com/api/v9/channels/"@ + channel_id@ + "/messages/"@ + message_id@,
{
    let mut r: String = "https://discord.com/api/v9/channels/".to_owned();
    r.append(channel_id);
    r.append("/messages/");
    r.append(message_id);
    r
}

/// URL of the `crosspost_message` operation.
pub fn crosspost_message_url(channel_id: &str, message_id: &str) -> (r: String)
    ensures
        r@ == "https://discord.com/api/v9/channels/"@ + channel_id@ + "/messages/"@ + message_id@ + "/crosspost"@,
{
    let mut r: String = "https://discord.com/api/v9/channels/".to_owned();
    r.append(channel_id);
    r.append("/messages/");
    r.append(message_id);
    r.append("/crosspost");
    r
}

/// URL of the `create_reaction` operation.
pub fn create_reaction_url(channel_id: &str, message_id: &str, emoji: &str) -> (r: String)
    ensures
        r@ == "https://discord.com/api/v9/channels/"@ + channel_id@ + "/messages/"@ + message_id@ + "/reactions/"@ + emoji@ + "/@me"@,
{
    let mut r: String = "https://discord.com/api/v9/channels/".to_owned();
    r.append(channel_id);
    r.append("/messages/");
    r.append(message_id);
    r.append("/reactions/");
    r.append(emoji);
    r.append("/@me");
    r
}

/// URL of the `delete_own_reaction` operation.
pub fn delete_own_reaction_url(channel_id: &str, message_id: &str, emoji: &str) -> (r: String)
    ensures
        r@ == "https://discord.com/api/v9/channels/"@ + channel_id@ + "/messages/"@ + message_id@ + "/reactions/"@ + emoji@ + "/@me"@,
{
    let mut r: String = "https://discord.com/api/v9/channels/".to_owned();
    r.append(channel_id);
    r.append("/messages/");
    r.append(message_id);
    r.append("/reactions/");
    r.append(emoji);
    r.append("/@me");
    r
}

/// URL of the `delete_user_reaction` operation.
pub fn delete_user_reaction_url(channel_id: &str, message_id: &str, emoji: &str, user_id: &str) -> (r: String)
    ensures
        r@ == "https://discord.com/api/v9/channels/"@ + channel_id@ + "/messages/"@ + message_id@ + "/reactions/"@ + emoji@ + "/"@ + user_id@,
{
    let mut r: String = "https://discord.com/api/v9/channels/".to_owned();
    r.append(channel_id);
    r.append("/messages/");
    r.append(message_id);
    r.append("/reactions/");
    r.append(emoji);
    r.append("/");
    r.append(user_id);
    r
}

/// URL of the `get_reactions` operation.
pub fn get_reactions_url(channel_id: &str, message_id: &str) -> (r: String)
    ensures
        r@ == "https://discord.com/api/v9/channels/"@ + channel_id@ + "/messages/"@ + message_id@ + "/reactions"@,
{
    let mut r: String = "https://discord.com/api/v9/channels/".to_owned();
    r.append(channel_id);
    r.append("/messages/");
    r.append(message_id);
    r.append("/reactions");
    r
}

/// URL of the `delete_all_reactions` operation.
pub fn delete_all_reactions_url(channel_id: &str, message_id: &str) -> (r: String)
    ensures
        r@ == "https://discord.com/api/v9/channels/"@ + channel_id@ + "/messages/"@ + message_id@ + "/reactions"@,
{
    let mut r: String = "https://discord.com/api/v9/channels/".to_owned();
    r.append(channel_id);
    r.append("/messages/");
    r.append(message_id);
    r.append("/reactions");
    r
}

/// URL of the `delete_all_reactions_for_emoji` operation.
pub fn delete_all_reactions_for_emoji_url(channel_id: &str, message_id: &str, emoji: &str) -> (r: String)
    ensures
        r@ == "https://discord.com/api/v9/channels/"@ + channel_id@ + "/messages/"@ + message_id@ + "/reactions/"@ + emoji@,
{
    let mut r: String = "https://discord.com/api/v9/channels/".to_owned();
    r.append(channel_id);
    r.append("/messages/");
    r.append(message_id);
    r.append("/reactions/");
    r.append(emoji);
    r
}

/// URL of the `edit_message` operation.
pub fn edit_message_url(channel_id: &str, message_id: &str) -> (r: String)
    ensures
        r@ == "https://discord.com/api/v9/channels/"@ + channel_id@ + "/messages/"@ + message_id@,
{
    let mut r: String = "https://discord.com/api/v9/channels/".to_owned();
    r.append(channel_id);
    r.append("/messages/");
    r.append(message_id);
    r
}

/// URL of the `delete_message` operation.
pub fn delete_message_url(channel_id: &str, message_id: &str) -> (r: String)
    ensures
        r@ == "https://discord.com/api/v9/channels/"@ + channel_id@ + "/messages/"@ + message_id@,
{
    let mut r: String = "https://discord.com/api/v9/channels/".to_owned();
    r.append(channel_id);
    r.append("/messages/");
    r.append(message_id);
    r
}

/// URL of the `bulk_delete_messages` operation.
pub fn bulk_delete_messages_url(channel_id: &str) -> (r: String)
    ensures
        r@ == "https://discord.com/api/v9/channels/"@ + channel_id@ + "/messages/bulk-delete"@,
{
    let mut r: String = "https://discord.com/api/v9/channels/".to_owned();
    r.append(channel_id);
    r.append("/messages/bulk-delete");
    r
}

/// URL of the `edit_channel_permissions` operation.
pub fn edit_channel_permissions_url(channel_id: &str, overwrite_id: &str) -> (r: String)
    ensures
        r@ == "https://discord.com/api/v9/channels/"@ + channel_id@ + "/permissions/"@ + overwrite_id@,
{
    let mut r: String = "https://discord.com/api/v9/channels/".to_owned();
    r.append(channel_id);
    r.append("/permissions/");
    r.append(overwrite_id);
    r
}

/// URL of the `get_channel_invites` operation.
pub fn get_channel_invites_url(channel_id: &str) -> (r: String)
    ensures
        r@ == "https://discord.com/api/v9/channels/"@ + channel_id@ + "/invites"@,
{
    let mut r: String = "https://discord.com/api/v9/channels/".to_owned();
    r.append(channel_id);
    r.append("/invites");
    r
}

/// URL of the `create_channel_invite` operation.
pub fn create_channel_invite_url(channel_id: &str) -> (r: String)
    ensures
        r@ == "https://discord.com/api/v9/channels/"@ + channel_id@ + "/invites"@,
{
    let mut r: String = "https://discord.com/api/v9/channels/".to_owned();
    r.append(channel_id);
    r.append("/invites");
    r
}

/// URL of the `delete_channel_permission` operation.
pub fn delete_channel_permission_url(channel_id: &str, overwrite_id: &str) -> (r: String)
    ensures
        r@ == "https://discord.com/api/v9/channels/"@ + channel_id@ + "/permissions/"@ + overwrite_id@,
{
    let mut r: String = "https://discord.com/api/v9/channels/".to_owned();
    r.append(channel_id);
    r.append("/permissions/");
    r.append(overwrite_id);
    r
}

/// URL of the `follow_announcement_channel` operation.
pub fn follow_announcement_channel_url(channel_id: &str) -> (r: String)
    ensures
        r@ == "https://discord.com/api/v9/channels/"@ + channel_id@ + "/followers"@,
{
    let mut r: String = "https://discord.com/api/v9/channels/".to_owned();
    r.append(channel_id);
    r.append("/followers");
    r
}

/// URL of the `trigger_typing_indicator` operation.
pub fn trigger_typing_indicator_url(channel_id: &str) -> (r: String)
    ensures
        r@ == "https://discord.com/api/v9/channels/"@ + channel_id@ + "/typing"@,
{
    let mut r: String = "https://discord.com/api/v9/channels/".to_owned();
    r.append(channel_id);
    r.append("/typing");
    r
}

/// URL of the `get_pinned_messages` operation.
pub fn get_pinned_messages_url(channel_id: &str) -> (r: String)
    ensures
        r@ == "https://discord.com/api/v9/channels/"@ + channel_id@ + "/pins"@,
{
    let mut r: String = "https://discord.com/api/v9/channels/".to_owned();
    r.append(channel_id);
    r.append("/pins");
    r
}

/// URL of the `pin_message` operation.
pub fn pin_message_url(channel_id: &str, message_id: &str) -> (r: String)
    ensures
        r@ == "https://discord.com/api/v9/channels/"@ + channel_id@ + "/pins/"@ + message_id@,
{
    let mut r: String = "https://discord.com/api/v9/channels/".to_owned();
    r.append(channel_id);
    r.append("/pins/");
    r.append(message_id);
    r
}

/// URL of the `unpin_message` operation.
pub fn unpin_message_url(channel_id: &str, message_id: &str) -> (r: String)
    ensures
        r@ == "https://discord.com/api/v9/channels/"@ + channel_id@ + "/pins/"@ + message_id@,
{
    let mut r: String = "https://discord.com/api/v9/channels/".to_owned();
    r.append(channel_id);
    r.append("/pins/");
    r.append(message_id);
    r
}

/// URL of the `group_dm_add_recipient` operation.
pub fn group_dm_add_recipient_url(channel_id: &str, user_id: &str) -> (r: String)
    ensures
        r@ == "https://discord.com/api/v9/channels/"@ + channel_id@ + "/recipients/"@ + user_id@,
{
    let mut r: String = "https://discord.com/api/v9/channels/".to_owned();
    r.append(channel_id);
    r.append("/recipients/");
    r.append(user_id);
    r
}

/// URL of the `group_dm_remove_recipient` operation.
pub fn group_dm_remove_recipient_url(channel_id: &str, user_id: &str) -> (r: String)
    ensures
        r@ == "https://discord.com/api/v9/channels/"@ + channel_id@ + "/recipients/"@ + user_id@,
{
    let mut r: String = "https://discord.com/api/v9/channels/".to_owned();
    r.append(channel_id);
    r.append("/recipients/");
    r.append(user_id);
    r
}

/// URL of the `start_thread_from_message` operation.
pub fn start_thread_from_message_url(channel_id: &str, message_id: &str) -> (r: String)
    ensures
        r@ == "https://discord.com/api/v9/channels/"@ + channel_id@ + "/messages/"@ + message_id@ + "/threads"@,
{
    let mut r: String = "https://discord.com/api/v9/channels/".to_owned();
    r.append(channel_id);
    r.append("/messages/");
    r.append(message_id);
    r.append("/threads");
    r
}

/// URL of the `start_thread_without_message` operation.
pub fn start_thread_without_message_url(channel_id: &str) -> (r: String)
    ensures
        r@ == "https://discord.com/api/v9/channels/"@ + channel_id@ + "/threads"@,
{
    let mut r: String = "https://discord.com/api/v9/channels/".to_owned();
    r.append(channel_id);
    r.append("/threads");
    r
}

/// URL of the `join_thread` operation.
pub fn join_thread_url(channel_id: &str) -> (r: String)
    ensures
        r@ == "https://discord.com/api/v9/channels/"@ + channel_id@ + "/thread-members/@me"@,
{
    let mut r: String = "https://discord.com/api/v9/channels/".to_owned();
    r.append(channel_id);
    r.append("/thread-members/@me");
    r
}

/// URL of the `add_thread_member` operation.
pub fn add_thread_member_url(channel_id: &str, user_id: &str) -> (r: String)
    ensures
        r@ == "https://discord.com/api/v9/channels/"@ + channel_id@ + "/thread-members/"@ + user_id@,
{
    let mut r: String = "https://discord.com/api/v9/channels/".to_owned();
    r.append(channel_id);
    r.append("/thread-members/");
    r.append(user_id);
    r
}

/// URL of the `remove_thread_member` operation.
pub fn remove_thread_member_url(channel_id: &str, user_id: &str) -> (r: String)
    ensures
        r@ == "https://discord.com/api/v9/channels/"@ + channel_id@ + "/thread-members/"@ + user_id@,
{
    let mut r: String = "https://discord.com/api/v9/channels/".to_owned();
    r.append(channel_id);
    r.append("/thread-members/");
    r.append(user_id);
    r
}

/// URL of the `get_thread_member` operation.
pub fn get_thread_member_url(channel_id: &str, user_id: &str) -> (r: String)
    ensures
        r@ == "https://discord.com/api/v9/channels/"@ + channel_id@ + "/thread-members/"@ + user_id@,
{
    let mut r: String = "https://discord.com/api/v9/channels/".to_owned();
    r.append(channel_id);
    r.append("/thread-members/");
    r.append(user_id);
    r
}

/// URL of the `list_thread_members` operation.
pub fn list_thread_members_url(channel_id: &str) -> (r: String)
    ensures
        r@ == "https://discord.com/api/v9/channels/"@ + channel_id@ + "/thread-members"@,
{
    let mut r: String = "https://discord.com/api/v9/channels/".to_owned();
    r.append(channel_id);
    r.append("/thread-members");
    r
}

/// URL of the `list_public_archived_threads` operation.
pub fn list_public_archived_threads_url(channel_id: &str) -> (r: String)
    ensures
        r@ == "https://discord.com/api/v9/channels/"@ + channel_id@ + "/threads/archived/public"@,
{
    let mut r: String = "https://discord.com/api/v9/channels/".to_owned();
    r.append(channel_id);
    r.append("/threads/archived/public");
    r
}

/// URL of the `list_private_archived_threads` operation.
pub fn list_private_archived_threads_url(channel_id: &str) -> (r: String)
    ensures
        r@ == "https://discord.com/api/v9/channels/"@ + channel_id@ + "/threads/archived/private"@,
{
    let mut r: String = "https://discord.com/api/v9/channels/".to_owned();
    r.append(channel_id);
    r.append("/threads/archived/private");
    r
}

/// URL of the `list_joined_private_archived_threads` operation.
pub fn list_joined_private_archived_threads_url(channel_id: &str) -> (r: String)
    ensures
        r@ == "https://discord.com/api/v9/channels/"@ + channel_id@ + "/users/@me/threads/archived/private"@,
{
    let mut r: String = "https://discord.com/api/v9/channels/".to_owned();
    r.append(channel_id);
    r.append("/users/@me/threads/archived/private");
    r
}

} // verus!
