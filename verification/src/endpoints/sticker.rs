//! Request targets for sticker operations.

use vstd::prelude::*;

verus! {

/// URL of the `get_sticker` operation.
pub fn get_sticker_url(sticker_id: &str) -> (r: String)
    ensures
        r@ == "https://discord.com/api/v9/stickers/"@ + sticker_id@,
{
    let mut r: String = "https://discord.com/api/v9/stickers/".to_owned();
    r.append(sticker_id);
    r
}

/// URL of the `list_sticker_packs` operation.
pub fn list_sticker_packs_url() -> (r: String)
    ensures
        r@ == "https://discord.com/api/v9/sticker-packs"@,
{
    let r: String = "https://discord.com/api/v9/sticker-packs".to_owned();
    r
}

/// URL of the `list_guild_stickers` operation.
pub fn list_guild_stickers_url(guild_id: &str) -> (r: String)
    ensures
        r@ == "https://discord.com/api/v9/guilds/"@ + guild_id@ + "/stickers"@,
{
    let mut r: String = "https://discord.com/api/v9/guilds/".to_owned();
    r.append(guild_id);
    r.append("/stickers");
    r
}

/// URL of the `get_guild_sticker` operation.
pub fn get_guild_sticker_url(guild_id: &str, sticker_id: &str) -> (r: String)
    ensures
        r@ == "https://discord.com/api/v9/guilds/"@ + guild_id@ + "/stickers/"@ + sticker_id@,
{
    let mut r: String = "https://discord.com/api/v9/guilds/".to_owned();
    r.append(guild_id);
    r.append("/stickers/");
    r.append(sticker_id);
    r
}

/// URL of the `create_guild_sticker` operation.
pub fn create_guild_sticker_url(guild_id: &str) -> (r: String)
    ensures
        r@ == "https://discord.com/api/v9/guilds/"@ + guild_id@ + "/stickers"@,
{
    let mut r: String = "https://discord.com/api/v9/guilds/".to_owned();
    r.append(guild_id);
    r.append("/stickers");
    r
}

/// URL of the `modify_guild_sticker` operation.
pub fn modify_guild_sticker_url(guild_id: &str, sticker_id: &str) -> (r: String)
    ensures
        r@ == "https://discord.com/api/v9/guilds/"@ + guild_id@ + "/stickers/"@ + sticker_id@,
{
    let mut r: String = "https://discord.com/api/v9/guilds/".to_owned();
    r.append(guild_id);
    r.append("/stickers/");
    r.append(sticker_id);
    r
}

/// URL of the `delete_guild_sticker` operation.
pub fn delete_guild_sticker_url(guild_id: &str, sticker_id: &str) -> (r: String)
    ensures
        r@ == "https://discord.com/api/v9/guilds/"@ + guild_id@ + "/stickers/"@ + sticker_id@,
{
    let mut r: String = "https://discord.com/api/v9/guilds/".to_owned();
    r.append(guild_id);
    r.append("/stickers/");
    r.append(sticker_id);
    r
}

} // verus!
