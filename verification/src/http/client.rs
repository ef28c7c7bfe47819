//! What the HTTP client decides without touching the network: where a
//! request goes, how it is signed, and what a status means.

use crate::dataclasses::Snowflake;
use crate::decimal::decimal;
use vstd::prelude::*;

verus! {

/// The status of a response that was refused for too many requests.
pub const TOO_MANY_REQUESTS: u16 = 429;

/// The base of the API.
pub fn default_base() -> (r: &'static str)
    ensures
        r@ == "https://discord.com/api/v10"@,
{
    "https://discord.com/api/v10"
}

/// What the client calls itself.
pub fn user_agent() -> (r: &'static str)
    ensures
        r@ == "DiscordBot (https://github.com/AWeirdDev/omu)"@,
{
    "DiscordBot (https://github.com/AWeirdDev/omu)"
}

/// The value of the `Authorization` header of a bot: `Bot ` + the token.
pub fn authorization(token: &str) -> (r: String)
    ensures
        r@ == "Bot "@ + token@,
{
    let mut value = String::from_str("Bot ");
    value.append(token);
    value
}

/// Where a message for a channel is posted:
/// `{base}/channels/{channel id}/messages`.
pub fn create_message_url(base: &str, channel_id: &str) -> (r: String)
    ensures
        r@ == base@ + "/channels/"@ + channel_id@ + "/messages"@,
{
    let mut url = String::from_str(base);
    url.append("/channels/");
    url.append(channel_id);
    url.append("/messages");
    url
}

/// Where a channel is fetched: `{base}/channels/{channel id}`, the id in
/// decimal.
pub fn channel_url(base: &str, channel_id: &Snowflake) -> (r: String)
    ensures
        r@ == base@ + "/channels/"@ + decimal(channel_id.as_u64() as nat),
{
    let mut url = String::from_str(base);
    url.append("/channels/");
    let id = channel_id.to_string();
    url.append(id.as_str());
    url
}

/// Whether a response with this status was refused for too many requests,
/// so that its body says how long to wait and not what was asked for.
pub fn is_rate_limited(status: u16) -> (r: bool)
    ensures
        r == (status == TOO_MANY_REQUESTS),
{
    status == TOO_MANY_REQUESTS
}

} // verus!
