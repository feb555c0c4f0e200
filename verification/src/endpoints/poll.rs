//! Request targets for poll operations.

use vstd::prelude::*;

use crate::encode::dec_digits;
use crate::encode::u64_to_dec;

verus! {

/// The query-string suffix of a voter lookup: nothing when neither optional
/// parameter is given, otherwise `?` followed by the given parameters in
/// `after`, `limit` order, separated by `&`.
pub open spec fn voters_query(after: Option<&str>, limit: Option<u32>) -> Seq<char> {
    match (after, limit) {
        (Option::None, Option::None) => Seq::<char>::empty(),
        (Option::Some(a), Option::None) => "?after="@ + a@,
        (Option::None, Option::Some(l)) => "?limit="@ + dec_digits(l as int),
        (Option::Some(a), Option::Some(l)) => "?after="@ + a@ + "&limit="@ + dec_digits(l as int),
    }
}

/// URL of the `get_answer_voters` operation, with its optional pagination
/// parameters.
pub fn get_answer_voters_url(
    channel_id: &str,
    message_id: &str,
    answer_id: &str,
    after: Option<&str>,
    limit: Option<u32>,
) -> (r: String)
    ensures
        r@ == "https://discord.com/api/v9/channels/"@ + channel_id@ + "/polls/"@ + message_id@
            + "/answers/"@ + answer_id@ + "/voters"@ + voters_query(after, limit),
{
    let mut r: String = "https://discord.com/api/v9/channels/".to_owned();
    r.append(channel_id);
    r.append("/polls/");
    r.append(message_id);
    r.append("/answers/");
    r.append(answer_id);
    r.append("/voters");
    match after {
        Option::Some(a) => {
            r.append("?after=");
            r.append(a);
            match limit {
                Option::Some(l) => {
                    r.append("&limit=");
                    let l_dec = u64_to_dec(l as u64);
                    r.append(l_dec.as_str());
                },
                Option::None => {},
            }
        },
        Option::None => {
            match limit {
                Option::Some(l) => {
                    r.append("?limit=");
                    let l_dec = u64_to_dec(l as u64);
                    r.append(l_dec.as_str());
                },
                Option::None => {},
            }
        },
    }
    r
}

/// URL of the `end_poll` operation.
pub fn end_poll_url(channel_id: &str, message_id: &str) -> (r: String)
    ensures
        r@ == "https://discord.com/api/v9/channels/"@ + channel_id@ + "/polls/"@ + message_id@ + "/expire"@,
{
    let mut r: String = "https://discord.com/api/v9/channels/".to_owned();
    r.append(channel_id);
    r.append("/polls/");
    r.append(message_id);
    r.append("/expire");
    r
}

} // verus!
