use vstd::prelude::*;

use crate::bot_cfg::BotList;
use crate::decimal::{decimal, law_parse_reads_rendered, parse_u64_spec, u64_to_decimal};

verus! {

/// The name of the bots.ondiscord.xyz entry among the configured bot lists.
pub const BOTS_ON_DISCORD: &'static str = "botsondiscord";

/// The name of the discordextremelist.xyz entry among the configured bot lists.
pub const DISCORD_EXTREME_LIST: &'static str = "discordextremelist";

/// The body posted to bots.ondiscord.xyz (`{"guildCount": ..}`).
#[derive(Debug, Clone, Copy, PartialEq, Eq)]
pub struct BodBody {
    /// The number of servers the bot is in.
    pub guild_count: usize,
}

/// The body posted to discordextremelist.xyz (`{"guildCount": .., "shardCount": ..}`).
#[derive(Debug, Clone, Copy, PartialEq, Eq)]
pub struct DelBody {
    /// The number of servers the bot is in.
    pub guild_count: usize,
    /// The number of shards the bot runs.
    pub shard_count: u64,
}

/// The body of a stats post.
#[derive(Debug, Clone, Copy, PartialEq, Eq)]
pub enum StatsBody {
    /// For bots.ondiscord.xyz.
    Bod(BodBody),
    /// For discordextremelist.xyz.
    Del(DelBody),
}

/// A POST request that reports the server count to a bot list.
#[derive(Debug, Clone, PartialEq)]
pub struct StatsPost {
    /// Where to post.
    pub url: String,
    /// The `authorization` header.
    pub authorization: String,
    /// The JSON body.
    pub body: StatsBody,
}

/// The bots.ondiscord.xyz endpoint for a bot.
pub open spec fn bod_url(bot_id: u64) -> Seq<char> {
    "https://bots.ondiscord.xyz/bot-api/bots/"@ + decimal(bot_id as nat) + "/guilds"@
}

/// The discordextremelist.xyz endpoint for a bot.
pub open spec fn del_url(bot_id: u64) -> Seq<char> {
    "https://api.discordextremelist.xyz/v2/bot/"@ + decimal(bot_id as nat) + "/stats"@
}

/// Both bot-list URLs carry the bot's id in full: the path segment holding
/// it reads back as the id.
pub proof fn law_urls_carry_bot_id(bot_id: u64)
    ensures
        exists|d: Seq<char>|
            #[trigger] parse_u64_spec(d) == Some(bot_id) && bod_url(bot_id)
                == "https://bots.ondiscord.xyz/bot-api/bots/"@ + d + "/guilds"@,
        exists|d: Seq<char>|
            #[trigger] parse_u64_spec(d) == Some(bot_id) && del_url(bot_id)
                == "https://api.discordextremelist.xyz/v2/bot/"@ + d + "/stats"@,
{
    law_parse_reads_rendered(bot_id);
    assert(parse_u64_spec(decimal(bot_id as nat)) == Some(bot_id));
}

/// The report of the server count to bots.ondiscord.xyz.
pub fn bod_post(list: &BotList, bot_id: u64, guild_count: usize) -> (p: StatsPost)
    ensures
        p.url@ == bod_url(bot_id),
        p.authorization@ == list.auth@,
        p.body == StatsBody::Bod(BodBody { guild_count }),
{
    let mut url = String::from_str("https://bots.ondiscord.xyz/bot-api/bots/");
    let id = u64_to_decimal(bot_id);
    url.append(id.as_str());
    url.append("/guilds");
    StatsPost { url, authorization: list.auth.clone(), body: StatsBody::Bod(BodBody { guild_count }) }
}

/// The report of the server and shard counts to discordextremelist.xyz.
pub fn del_post(list: &BotList, bot_id: u64, guild_count: usize, shard_count: u64) -> (p: StatsPost)
    ensures
        p.url@ == del_url(bot_id),
        p.authorization@ == list.auth@,
        p.body == StatsBody::Del(DelBody { guild_count, shard_count }),
{
    let mut url = String::from_str("https://api.discordextremelist.xyz/v2/bot/");
    let id = u64_to_decimal(bot_id);
    url.append(id.as_str());
    url.append("/stats");
    StatsPost {
        url,
        authorization: list.auth.clone(),
        body: StatsBody::Del(DelBody { guild_count, shard_count }),
    }
}

} // verus!
