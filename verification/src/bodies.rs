//! Request bodies that are built from plain arguments: each builder states
//! the exact JSON text it produces, with every embedded string escaped.
//!
//! Bodies that a caller supplies wholesale as pre-built JSON are not built
//! here; the host passes them through unchanged.

use vstd::prelude::*;

use crate::encode::dec_digits;
use crate::encode::json_string;
use crate::encode::json_string_array;
use crate::encode::json_string_object;
use crate::encode::push_json_string;
use crate::encode::push_json_string_array;
use crate::encode::push_json_string_object;
use crate::encode::u64_to_dec;

verus! {

/// Body of a message send or edit: an object with one `content` member.
pub fn content_body(content: &str) -> (r: String)
    ensures
        r@ == "{\"content\":"@ + json_string(content@) + "}"@,
{
    let mut r: String = "{\"content\":".to_owned();
    push_json_string(&mut r, content);
    r.append("}");
    r
}

/// Body of an error report: a `content` member whose text is the error
/// message behind an `Error: ` marker.
pub fn error_content_body(error_message: &str) -> (r: String)
    ensures
        r@ == "{\"content\":"@ + json_string("Error: "@ + error_message@) + "}"@,
{
    let mut text: String = "Error: ".to_owned();
    text.append(error_message);
    content_body(text.as_str())
}

/// Body of an embed send: an `embed` object carrying the given title, the
/// given description, and the fixed accent color.
pub fn embed_body(title: &str, description: &str) -> (r: String)
    ensures
        r@ == "{\"embed\":{\"title\":"@ + json_string(title@) + ",\"description\":"@
            + json_string(description@) + ",\"color\":3447003}}"@,
{
    let mut r: String = "{\"embed\":{\"title\":".to_owned();
    push_json_string(&mut r, title);
    r.append(",\"description\":");
    push_json_string(&mut r, description);
    r.append(",\"color\":3447003}}");
    r
}

/// Body of a bulk message deletion: the message identifiers as a `messages`
/// array.
pub fn messages_body(message_ids: &Vec<String>) -> (r: String)
    ensures
        r@ == "{\"messages\":"@ + json_string_array(message_ids@.map_values(|t: String| t@))
            + "}"@,
{
    let mut r: String = "{\"messages\":".to_owned();
    push_json_string_array(&mut r, message_ids);
    r.append("}");
    r
}

/// Body of a bulk ban: the user identifiers as a `user_ids` array.
pub fn user_ids_body(user_ids: &Vec<String>) -> (r: String)
    ensures
        r@ == "{\"user_ids\":"@ + json_string_array(user_ids@.map_values(|t: String| t@)) + "}"@,
{
    let mut r: String = "{\"user_ids\":".to_owned();
    push_json_string_array(&mut r, user_ids);
    r.append("}");
    r
}

/// Body of a channel follow: the target webhook channel identifier.
pub fn webhook_channel_body(webhook_channel_id: &str) -> (r: String)
    ensures
        r@ == "{\"webhook_channel_id\":"@ + json_string(webhook_channel_id@) + "}"@,
{
    let mut r: String = "{\"webhook_channel_id\":".to_owned();
    push_json_string(&mut r, webhook_channel_id);
    r.append("}");
    r
}

/// Body of a group conversation recipient addition: the recipient's access
/// token and nickname.
pub fn group_recipient_body(access_token: &str, nick: &str) -> (r: String)
    ensures
        r@ == "{\"access_token\":"@ + json_string(access_token@) + ",\"nick\":"@ + json_string(
            nick@,
        ) + "}"@,
{
    let mut r: String = "{\"access_token\":".to_owned();
    push_json_string(&mut r, access_token);
    r.append(",\"nick\":");
    push_json_string(&mut r, nick);
    r.append("}");
    r
}

/// Body of a nickname change: an object with one `nick` member.
pub fn nick_body(nick: &str) -> (r: String)
    ensures
        r@ == "{\"nick\":"@ + json_string(nick@) + "}"@,
{
    let mut r: String = "{\"nick\":".to_owned();
    push_json_string(&mut r, nick);
    r.append("}");
    r
}

/// Body of a multi-factor-authentication level change: the numeric level.
pub fn mfa_level_body(level: u8) -> (r: String)
    ensures
        r@ == "{\"level\":"@ + dec_digits(level as int) + "}"@,
{
    let mut r: String = "{\"level\":".to_owned();
    let d = u64_to_dec(level as u64);
    r.append(d.as_str());
    r.append("}");
    r
}

/// Body of a prune start: the number of days of inactivity.
pub fn prune_days_body(days: u8) -> (r: String)
    ensures
        r@ == "{\"days\":"@ + dec_digits(days as int) + "}"@,
{
    let mut r: String = "{\"days\":".to_owned();
    let d = u64_to_dec(days as u64);
    r.append(d.as_str());
    r.append("}");
    r
}

/// Body of a scheduled-event status update: the status token.
pub fn event_status_body(status: &str) -> (r: String)
    ensures
        r@ == "{\"status\":"@ + json_string(status@) + "}"@,
{
    let mut r: String = "{\"status\":".to_owned();
    push_json_string(&mut r, status);
    r.append("}");
    r
}

/// Body of a direct-conversation creation: the recipient's identifier.
pub fn recipient_body(recipient_id: &str) -> (r: String)
    ensures
        r@ == "{\"recipient_id\":"@ + json_string(recipient_id@) + "}"@,
{
    let mut r: String = "{\"recipient_id\":".to_owned();
    push_json_string(&mut r, recipient_id);
    r.append("}");
    r
}

/// Body of a group conversation creation: the participants' access tokens,
/// and the nickname to use for each participant, keyed by user identifier.
pub fn group_dm_body(access_tokens: &Vec<String>, nicks: &Vec<(String, String)>) -> (r: String)
    ensures
        r@ == "{\"access_tokens\":"@ + json_string_array(
            access_tokens@.map_values(|t: String| t@),
        ) + ",\"nicks\":"@ + json_string_object(
            nicks@.map_values(|p: (String, String)| (p.0@, p.1@)),
        ) + "}"@,
{
    let mut r: String = "{\"access_tokens\":".to_owned();
    push_json_string_array(&mut r, access_tokens);
    r.append(",\"nicks\":");
    push_json_string_object(&mut r, nicks);
    r.append("}");
    r
}

/// Body of a ban: how many days of the user's messages to delete, and the
/// stated reason.
pub fn ban_body(delete_message_days: u8, reason: &str) -> (r: String)
    ensures
        r@ == "{\"delete_message_days\":"@ + dec_digits(delete_message_days as int)
            + ",\"reason\":"@ + json_string(reason@) + "}"@,
{
    let mut r: String = "{\"delete_message_days\":".to_owned();
    let d = u64_to_dec(delete_message_days as u64);
    r.append(d.as_str());
    r.append(",\"reason\":");
    push_json_string(&mut r, reason);
    r.append("}");
    r
}

} // verus!
