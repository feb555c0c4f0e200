use rustdiscordapi::bodies::ban_body;
use rustdiscordapi::bodies::content_body;
use rustdiscordapi::bodies::embed_body;
use rustdiscordapi::bodies::error_content_body;
use rustdiscordapi::bodies::event_status_body;
use rustdiscordapi::bodies::group_dm_body;
use rustdiscordapi::bodies::group_recipient_body;
use rustdiscordapi::bodies::messages_body;
use rustdiscordapi::bodies::mfa_level_body;
use rustdiscordapi::bodies::nick_body;
use rustdiscordapi::bodies::prune_days_body;
use rustdiscordapi::bodies::recipient_body;
use rustdiscordapi::bodies::user_ids_body;
use rustdiscordapi::encode::u64_to_dec;
use rustdiscordapi::endpoints::channel::get_channel_message_url;
use rustdiscordapi::endpoints::guild::get_guild_prune_count_url;
use rustdiscordapi::endpoints::guild::search_guild_members_url;
use rustdiscordapi::endpoints::message::send_message_url;
use rustdiscordapi::endpoints::poll::get_answer_voters_url;
use rustdiscordapi::endpoints::user::get_current_user_url;
use rustdiscordapi::endpoints::webhook::execute_webhook_url;

#[test]
fn decimal_rendering() {
    assert_eq!(u64_to_dec(0), "0");
    assert_eq!(u64_to_dec(7), "7");
    assert_eq!(u64_to_dec(10), "10");
    assert_eq!(u64_to_dec(1234567890), "1234567890");
    assert_eq!(u64_to_dec(u64::MAX), u64::MAX.to_string());
}

#[test]
fn plain_urls() {
    assert_eq!(
        send_message_url("42"),
        "https://discord.com/api/v9/channels/42/messages"
    );
    assert_eq!(
        get_channel_message_url("42", "99"),
        "https://discord.com/api/v9/channels/42/messages/99"
    );
    assert_eq!(get_current_user_url(), "https://discord.com/api/v9/users/@me");
    assert_eq!(
        execute_webhook_url("7", "tok"),
        "https://discord.com/api/v9/webhooks/7/tok"
    );
}

#[test]
fn urls_with_query_parameters() {
    assert_eq!(
        search_guild_members_url("5", "ada"),
        "https://discord.com/api/v9/guilds/5/members/search?query=ada"
    );
    assert_eq!(
        get_guild_prune_count_url("5", 7),
        "https://discord.com/api/v9/guilds/5/prune?days=7"
    );
}

#[test]
fn voters_url_query_forms() {
    let base = "https://discord.com/api/v9/channels/1/polls/2/answers/3/voters";
    assert_eq!(get_answer_voters_url("1", "2", "3", None, None), base);
    assert_eq!(
        get_answer_voters_url("1", "2", "3", Some("90"), None),
        format!("{}?after=90", base)
    );
    assert_eq!(
        get_answer_voters_url("1", "2", "3", None, Some(25)),
        format!("{}?limit=25", base)
    );
    assert_eq!(
        get_answer_voters_url("1", "2", "3", Some("90"), Some(25)),
        format!("{}?after=90&limit=25", base)
    );
}

#[test]
fn content_body_is_exact() {
    assert_eq!(content_body("hi"), "{\"content\":\"hi\"}");
}

#[test]
fn content_body_escapes_specials() {
    assert_eq!(
        content_body("a\"b\\c\nd\te\r"),
        "{\"content\":\"a\\\"b\\\\c\\nd\\te\\r\"}"
    );
    assert_eq!(content_body("\u{0001}"), "{\"content\":\"\\u0001\"}");
    assert_eq!(content_body("\u{0008}\u{000C}"), "{\"content\":\"\\b\\f\"}");
    assert_eq!(content_body("\u{001F}"), "{\"content\":\"\\u001f\"}");
}

#[test]
fn content_body_round_trips_through_a_json_parser() {
    let raw = "quote \" back \\ newline \n tab \t bell \u{0007} text";
    let body = content_body(raw);
    let v: serde_json::Value = serde_json::from_str(&body).unwrap();
    assert_eq!(v["content"].as_str().unwrap(), raw);
}

#[test]
fn error_body_prefixes_the_message() {
    assert_eq!(
        error_content_body("it broke"),
        "{\"content\":\"Error: it broke\"}"
    );
}

#[test]
fn embed_body_is_exact() {
    assert_eq!(
        embed_body("T", "D"),
        "{\"embed\":{\"title\":\"T\",\"description\":\"D\",\"color\":3447003}}"
    );
}

#[test]
fn array_bodies() {
    let ids = vec!["1".to_string(), "2".to_string()];
    assert_eq!(messages_body(&ids), "{\"messages\":[\"1\",\"2\"]}");
    assert_eq!(user_ids_body(&ids), "{\"user_ids\":[\"1\",\"2\"]}");
    let none: Vec<String> = Vec::new();
    assert_eq!(messages_body(&none), "{\"messages\":[]}");
    let one = vec!["9".to_string()];
    assert_eq!(user_ids_body(&one), "{\"user_ids\":[\"9\"]}");
}

#[test]
fn small_object_bodies() {
    assert_eq!(nick_body("Neo"), "{\"nick\":\"Neo\"}");
    assert_eq!(mfa_level_body(1), "{\"level\":1}");
    assert_eq!(prune_days_body(30), "{\"days\":30}");
    assert_eq!(event_status_body("2"), "{\"status\":\"2\"}");
    assert_eq!(recipient_body("77"), "{\"recipient_id\":\"77\"}");
    assert_eq!(
        group_recipient_body("tok", "nick"),
        "{\"access_token\":\"tok\",\"nick\":\"nick\"}"
    );
    assert_eq!(
        ban_body(7, "spam \"ads\""),
        "{\"delete_message_days\":7,\"reason\":\"spam \\\"ads\\\"\"}"
    );
}

#[test]
fn group_dm_body_builds_array_and_object() {
    let tokens = vec!["t1".to_string(), "t2".to_string()];
    let nicks = vec![("10".to_string(), "Ada".to_string()), ("11".to_string(), "Bob".to_string())];
    assert_eq!(
        group_dm_body(&tokens, &nicks),
        "{\"access_tokens\":[\"t1\",\"t2\"],\"nicks\":{\"10\":\"Ada\",\"11\":\"Bob\"}}"
    );
    let v: serde_json::Value = serde_json::from_str(&group_dm_body(&tokens, &nicks)).unwrap();
    assert_eq!(v["nicks"]["10"].as_str().unwrap(), "Ada");
}
