use vstd::prelude::*;

use crate::decimal::{decimal, law_parse_reads_rendered, parse_u64_spec, u64_to_decimal};

verus! {

/// What the bot does when a shard's session is ready.
#[derive(Debug, Clone, PartialEq)]
pub struct ReadyPlan {
    /// Register the slash commands and record the bot's id and the shard
    /// count: done by the first shard only.
    pub first_shard: bool,
    /// The line to print about the shard, when the session belongs to one.
    pub announcement: Option<String>,
    /// Start posting the server count to the bot lists: done by the last
    /// shard only. A shard count of zero, which Discord never sends, has no
    /// last shard.
    pub last_shard: bool,
}

/// The line printed when a shard is ready.
pub open spec fn shard_ready_text(shard: u64, guilds: usize) -> Seq<char> {
    "Shard "@ + decimal(shard as nat) + " ready with "@ + decimal(guilds as nat) + " guilds"@
}

/// Plans the reaction to a ready session. `shard` is the shard's index and
/// the number of shards, when the session is sharded; `guilds` is the number
/// of servers the session reports.
pub fn ready_plan(shard: Option<(u64, u64)>, guilds: usize) -> (p: ReadyPlan)
    ensures
        match shard {
            None => !p.first_shard && p.announcement is None && !p.last_shard,
            Some((index, total)) => {
                &&& p.first_shard == (index == 0)
                &&& p.last_shard == (total >= 1 && index == total - 1)
                &&& p.announcement matches Some(a) && a@ == shard_ready_text(index, guilds)
            },
        },
{
    match shard {
        None => ReadyPlan { first_shard: false, announcement: None, last_shard: false },
        Some((index, total)) => {
            let mut a = String::from_str("Shard ");
            let i = u64_to_decimal(index);
            a.append(i.as_str());
            a.append(" ready with ");
            let g = u64_to_decimal(guilds as u64);
            a.append(g.as_str());
            a.append(" guilds");
            ReadyPlan { first_shard: index == 0, announcement: Some(a), last_shard: total >= 1 && index == total - 1 }
        },
    }
}

/// The bot's status line ("listening to ..."), with the number of servers.
pub open spec fn presence_text(guild_count: usize) -> Seq<char> {
    "/nsfw | "@ + decimal(guild_count as nat) + " servers"@
}

/// The status line shows the server count in full: it reads back as the count.
pub proof fn law_presence_shows_count(guild_count: usize)
    ensures
        exists|d: Seq<char>|
            #[trigger] parse_u64_spec(d) == Some(guild_count as u64) && presence_text(guild_count)
                == "/nsfw | "@ + d + " servers"@,
{
    law_parse_reads_rendered(guild_count as u64);
    assert(parse_u64_spec(decimal(guild_count as nat)) == Some(guild_count as u64));
}

/// The shard line shows the shard's index and the server count in full.
pub proof fn law_shard_line_shows_numbers(shard: u64, guilds: usize)
    ensures
        exists|s: Seq<char>, g: Seq<char>|
            #![trigger parse_u64_spec(s), parse_u64_spec(g)]
            parse_u64_spec(s) == Some(shard) && parse_u64_spec(g) == Some(guilds as u64)
                && shard_ready_text(shard, guilds) == "Shard "@ + s + " ready with "@ + g + " guilds"@,
{
    law_parse_reads_rendered(shard);
    law_parse_reads_rendered(guilds as u64);
    assert(parse_u64_spec(decimal(shard as nat)) == Some(shard));
    assert(parse_u64_spec(decimal(guilds as nat)) == Some(guilds as u64));
}

/// The bot's status line for a server count.
pub fn presence(guild_count: usize) -> (s: String)
    ensures
        s@ == presence_text(guild_count),
{
    let mut s = String::from_str("/nsfw | ");
    let n = u64_to_decimal(guild_count as u64);
    s.append(n.as_str());
    s.append(" servers");
    s
}

} // verus!
