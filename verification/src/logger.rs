use vstd::prelude::*;

use crate::bot_cfg::{BotConfig, Webhook};
use crate::text::opt_view;
use crate::decimal::{
    decimal, law_padded_reads_back, law_parse_reads_rendered, parse_u64_spec, u16_to_decimal_padded4,
    u64_to_decimal, zero_pad4,
};
use crate::interaction::{command_to_string, invocation_text, CommandData};

verus! {

/// A change in the servers the bot is in, to be logged.
#[derive(Debug, Clone, Copy, PartialEq, Eq)]
pub enum ServerLogAction {
    /// The bot joined the server with this id.
    Join(u64),
    /// The bot left the server with this id.
    Leave(u64),
}

/// A message to post through a webhook.
#[derive(Debug, Clone, PartialEq)]
pub struct WebhookPost {
    /// The webhook's id.
    pub webhook_id: u64,
    /// The webhook's token.
    pub token: String,
    /// The message's content.
    pub content: String,
}

/// The emoji a server log line starts with, when the configuration has one.
pub open spec fn server_log_emoji(config: BotConfig, action: ServerLogAction) -> Option<Seq<char>> {
    match config.emojis {
        Some(e) => match action {
            ServerLogAction::Join(_) => opt_view(e.join_server),
            ServerLogAction::Leave(_) => opt_view(e.leave_server),
        },
        None => None,
    }
}

/// The id of the server a log line is about.
pub open spec fn action_guild(action: ServerLogAction) -> u64 {
    match action {
        ServerLogAction::Join(id) => id,
        ServerLogAction::Leave(id) => id,
    }
}

/// The server log line: the join or leave emoji, then the server id in backticks.
pub open spec fn server_log_text(emoji: Seq<char>, action: ServerLogAction) -> Seq<char> {
    emoji + " `"@ + decimal(action_guild(action) as nat) + "`"@
}

/// Who used a command, and where.
#[derive(Debug, Clone, PartialEq)]
pub struct CommandUse {
    /// The user's name.
    pub user_name: String,
    /// The user's discriminator (the four digits after `#`).
    pub discriminator: u16,
    /// The user's id.
    pub user_id: u64,
    /// The channel the command was used in.
    pub channel_id: u64,
    /// The server the command was used in.
    pub guild_id: u64,
}

/// The command log line.
pub open spec fn cmd_log_text(who: CommandUse, data: CommandData) -> Seq<char> {
    ":wrench: "@ + who.user_name@ + "#"@ + zero_pad4(decimal(who.discriminator as nat)) + " (`"@
        + decimal(who.user_id as nat) + "`) used command `"@ + data.name@ + "` in channel `"@
        + decimal(who.channel_id as nat) + "` of guild `"@ + decimal(who.guild_id as nat)
        + "`\n> `"@ + invocation_text(Some(data)) + "`"@
}

/// A server log line is the emoji, a space, then in backticks the full
/// decimal id of the server joined or left, which reads back as that id.
pub proof fn law_server_log_names_server(emoji: Seq<char>, action: ServerLogAction)
    ensures
        exists|d: Seq<char>|
            #[trigger] parse_u64_spec(d) == Some(
                match action {
                    ServerLogAction::Join(id) => id,
                    ServerLogAction::Leave(id) => id,
                },
            ) && server_log_text(emoji, action) == emoji + " `"@ + d + "`"@,
{
    let id = match action {
        ServerLogAction::Join(id) => id,
        ServerLogAction::Leave(id) => id,
    };
    law_parse_reads_rendered(id);
    assert(parse_u64_spec(decimal(id as nat)) == Some(id));
}

/// The emoji of a server log line is the configured join emoji for a join
/// and the configured leave emoji for a leave.
pub proof fn law_server_log_emoji_by_action(config: BotConfig, id: u64)
    ensures
        server_log_emoji(config, ServerLogAction::Join(id)) == match config.emojis {
            Some(e) => opt_view(e.join_server),
            None => None,
        },
        server_log_emoji(config, ServerLogAction::Leave(id)) == match config.emojis {
            Some(e) => opt_view(e.leave_server),
            None => None,
        },
{
}

/// A command log line names the user, their four-digit discriminator, the
/// user id, the command, the channel and the server: every number is shown
/// in full and reads back as the value it stands for.
pub proof fn law_cmd_log_names_everything(who: CommandUse, data: CommandData)
    ensures
        exists|disc: Seq<char>, user: Seq<char>, channel: Seq<char>, guild: Seq<char>|
            #![trigger parse_u64_spec(disc), parse_u64_spec(user), parse_u64_spec(channel), parse_u64_spec(guild)]
            {
                &&& disc.len() >= 4
                &&& parse_u64_spec(disc) == Some(who.discriminator as u64)
                &&& parse_u64_spec(user) == Some(who.user_id)
                &&& parse_u64_spec(channel) == Some(who.channel_id)
                &&& parse_u64_spec(guild) == Some(who.guild_id)
                &&& cmd_log_text(who, data) == ":wrench: "@ + who.user_name@ + "#"@ + disc + " (`"@ + user
                    + "`) used command `"@ + data.name@ + "` in channel `"@ + channel
                    + "` of guild `"@ + guild + "`\n> `"@ + invocation_text(Some(data)) + "`"@
            },
{
    law_padded_reads_back(who.discriminator);
    law_parse_reads_rendered(who.user_id);
    law_parse_reads_rendered(who.channel_id);
    law_parse_reads_rendered(who.guild_id);
    let disc = zero_pad4(decimal(who.discriminator as nat));
    let user = decimal(who.user_id as nat);
    let channel = decimal(who.channel_id as nat);
    let guild = decimal(who.guild_id as nat);
    assert(parse_u64_spec(disc) == Some(who.discriminator as u64));
    assert(parse_u64_spec(user) == Some(who.user_id));
    assert(parse_u64_spec(channel) == Some(who.channel_id));
    assert(parse_u64_spec(guild) == Some(who.guild_id));
}

fn copy_webhook(w: &Webhook) -> (r: (u64, String))
    ensures
        r.0 == w.id,
        r.1@ == w.token@,
{
    (w.id, w.token.clone())
}

/// The server log post for a join or a leave, through the server-log
/// webhook; `None` when the configuration keeps no server log (no webhook,
/// or no emoji for this kind of change).
pub fn server_log(config: &BotConfig, action: ServerLogAction) -> (p: Option<WebhookPost>)
    ensures
        p is Some <==> (config.server_log is Some && server_log_emoji(*config, action) is Some),
        p matches Some(post) ==> {
            &&& post.webhook_id == config.server_log->0.id
            &&& post.token@ == config.server_log->0.token@
            &&& post.content@ == server_log_text(server_log_emoji(*config, action)->0, action)
        },
{
    let webhook = match &config.server_log {
        Some(w) => w,
        None => return None,
    };
    let emojis = match &config.emojis {
        Some(e) => e,
        None => return None,
    };
    let (id, emoji) = match action {
        ServerLogAction::Join(g) => (g, &emojis.join_server),
        ServerLogAction::Leave(g) => (g, &emojis.leave_server),
    };
    let mut content = match emoji {
        Some(e) => e.clone(),
        None => return None,
    };
    content.append(" `");
    let digits = u64_to_decimal(id);
    content.append(digits.as_str());
    content.append("`");
    let (webhook_id, token) = copy_webhook(webhook);
    Some(WebhookPost { webhook_id, token, content })
}

/// The command log post for a used command, through the command-log
/// webhook; `None` when the configuration keeps no command log.
pub fn cmd_log(config: &BotConfig, who: &CommandUse, data: &CommandData) -> (p: Option<WebhookPost>)
    ensures
        p is Some <==> config.cmd_log is Some,
        p matches Some(post) ==> {
            &&& post.webhook_id == config.cmd_log->0.id
            &&& post.token@ == config.cmd_log->0.token@
            &&& post.content@ == cmd_log_text(*who, *data)
        },
{
    let webhook = match &config.cmd_log {
        Some(w) => w,
        None => return None,
    };
    let mut c = String::from_str(":wrench: ");
    c.append(who.user_name.as_str());
    c.append("#");
    let disc = u16_to_decimal_padded4(who.discriminator);
    c.append(disc.as_str());
    c.append(" (`");
    let uid = u64_to_decimal(who.user_id);
    c.append(uid.as_str());
    c.append("`) used command `");
    c.append(data.name.as_str());
    c.append("` in channel `");
    let ch = u64_to_decimal(who.channel_id);
    c.append(ch.as_str());
    c.append("` of guild `");
    let g = u64_to_decimal(who.guild_id);
    c.append(g.as_str());
    c.append("`\n> `");
    let full = command_to_string(data);
    c.append(full.as_str());
    c.append("`");
    let (webhook_id, token) = copy_webhook(webhook);
    Some(WebhookPost { webhook_id, token, content: c })
}

} // verus!
