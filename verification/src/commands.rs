use vstd::prelude::*;

use crate::bot_cfg::BotConfig;
use crate::decimal::{decimal, digits_value, is_digit, law_decimal_reads_back, u128_to_decimal};

verus! {

/// The server the slash commands are registered in.
pub const COMMAND_GUILD_ID: u64 = 579466138992508928;

/// The bot's slash commands.
#[derive(Debug, Clone, Copy, PartialEq, Eq)]
pub enum Command {
    /// `/ping`: measures how long a reply takes.
    Ping,
    /// `/nsfw`: turns a channel's NSFW flag on or off.
    Nsfw,
    /// `/support`: gives the link to the support server.
    Support,
    /// `/invite`: gives the link that invites the bot.
    Invite,
}

/// The kind of a command option.
#[derive(Debug, Clone, Copy, PartialEq, Eq)]
pub enum OptionKind {
    /// A channel.
    Channel,
    /// A boolean.
    Boolean,
}

/// An option of a registered command.
#[derive(Debug, Clone, PartialEq)]
pub struct OptionDefinition {
    /// The option's name.
    pub name: String,
    /// The option's description.
    pub description: String,
    /// The option's kind.
    pub kind: OptionKind,
    /// Whether the option must be given.
    pub required: bool,
}

/// A slash command as it is registered with Discord.
#[derive(Debug, Clone, PartialEq)]
pub struct CommandDefinition {
    /// The command's name.
    pub name: String,
    /// The command's description.
    pub description: String,
    /// The command's options, in order.
    pub options: Vec<OptionDefinition>,
}

/// The name a command is invoked by.
pub open spec fn command_name(c: Command) -> Seq<char> {
    match c {
        Command::Ping => "ping"@,
        Command::Nsfw => "nsfw"@,
        Command::Support => "support"@,
        Command::Invite => "invite"@,
    }
}

/// The command with this name, if the bot has one.
pub open spec fn command_named(name: Seq<char>) -> Option<Command> {
    if name == "ping"@ {
        Some(Command::Ping)
    } else if name == "nsfw"@ {
        Some(Command::Nsfw)
    } else if name == "support"@ {
        Some(Command::Support)
    } else if name == "invite"@ {
        Some(Command::Invite)
    } else {
        None
    }
}

/// The command an interaction asks for, by its name; `None` for an unknown name.
pub fn route_command(name: &str) -> (r: Option<Command>)
    ensures
        r == command_named(name@),
{
    let n = String::from_str(name);
    if n == String::from_str("ping") {
        Some(Command::Ping)
    } else if n == String::from_str("nsfw") {
        Some(Command::Nsfw)
    } else if n == String::from_str("support") {
        Some(Command::Support)
    } else if n == String::from_str("invite") {
        Some(Command::Invite)
    } else {
        None
    }
}

/// An option definition as plain values: name, description, kind, required.
pub open spec fn option_definition_view(o: OptionDefinition) -> (Seq<char>, Seq<char>, OptionKind, bool) {
    (o.name@, o.description@, o.kind, o.required)
}

/// A command definition as plain values: name, description, options.
pub open spec fn command_definition_view(c: CommandDefinition) -> (Seq<char>, Seq<char>, Seq<
    (Seq<char>, Seq<char>, OptionKind, bool),
>) {
    (c.name@, c.description@, c.options@.map_values(|o: OptionDefinition| option_definition_view(o)))
}

/// The commands the bot registers: `ping`, `nsfw` (with its optional
/// `channel` and `enabled` options), `support` and `invite`.
pub open spec fn registered_commands() -> Seq<(Seq<char>, Seq<char>, Seq<(Seq<char>, Seq<char>, OptionKind, bool)>)> {
    seq![
        ("ping"@, "Pong! Test how long it takes for the bot to send a message."@, Seq::empty()),
        (
            "nsfw"@,
            "Enable or disable NSFW for a channel"@,
            seq![
                ("channel"@, "The channel to enable/disable NSFW for"@, OptionKind::Channel, false),
                ("enabled"@, "Choose whether or not NSFW should be enabled."@, OptionKind::Boolean, false),
            ],
        ),
        ("support"@, "Get the link to the bot's support server"@, Seq::empty()),
        ("invite"@, "Get an invite link for the bot"@, Seq::empty()),
    ]
}

fn definition(name: &str, description: &str, options: Vec<OptionDefinition>) -> (d: CommandDefinition)
    ensures
        d.name@ == name@,
        d.description@ == description@,
        d.options@ == options@,
{
    CommandDefinition { name: String::from_str(name), description: String::from_str(description), options }
}

/// The slash commands to register, in order.
pub fn application_commands() -> (v: Vec<CommandDefinition>)
    ensures
        v@.map_values(|c: CommandDefinition| command_definition_view(c)) == registered_commands(),
{
    let mut nsfw_options: Vec<OptionDefinition> = Vec::new();
    nsfw_options.push(OptionDefinition {
        name: String::from_str("channel"),
        description: String::from_str("The channel to enable/disable NSFW for"),
        kind: OptionKind::Channel,
        required: false,
    });
    nsfw_options.push(OptionDefinition {
        name: String::from_str("enabled"),
        description: String::from_str("Choose whether or not NSFW should be enabled."),
        kind: OptionKind::Boolean,
        required: false,
    });
    let mut v: Vec<CommandDefinition> = Vec::new();
    v.push(definition("ping", "Pong! Test how long it takes for the bot to send a message.", Vec::new()));
    v.push(definition("nsfw", "Enable or disable NSFW for a channel", nsfw_options));
    v.push(definition("support", "Get the link to the bot's support server", Vec::new()));
    v.push(definition("invite", "Get an invite link for the bot", Vec::new()));
    proof {
        let opts = v@[1].options@.map_values(|o: OptionDefinition| option_definition_view(o));
        assert(opts =~= registered_commands()[1].2);
        assert(v@[0].options@.map_values(|o: OptionDefinition| option_definition_view(o)) =~= Seq::<(Seq<char>, Seq<char>, OptionKind, bool)>::empty());
        assert(v@[2].options@.map_values(|o: OptionDefinition| option_definition_view(o)) =~= Seq::<(Seq<char>, Seq<char>, OptionKind, bool)>::empty());
        assert(v@[3].options@.map_values(|o: OptionDefinition| option_definition_view(o)) =~= Seq::<(Seq<char>, Seq<char>, OptionKind, bool)>::empty());
        assert(v@.map_values(|c: CommandDefinition| command_definition_view(c)) =~= registered_commands());
    }
    v
}

/// Every name the bot answers to is a registered command's name, and every
/// registered command is answered under its own name.
pub proof fn law_routes_match_registrations(name: Seq<char>)
    ensures
        command_named(name) is Some <==> exists|i: int|
            0 <= i < registered_commands().len() && #[trigger] registered_commands()[i].0 == name,
        forall|c: Command| command_named(#[trigger] command_name(c)) == Some(c),
{
    reveal_strlit("ping");
    reveal_strlit("nsfw");
    reveal_strlit("support");
    reveal_strlit("invite");
    assert forall|c: Command| command_named(#[trigger] command_name(c)) == Some(c) by {
        match c {
            Command::Ping => {},
            Command::Nsfw => {
                assert("nsfw"@[0] != "ping"@[0]);
            },
            Command::Support => {
                assert("support"@[0] != "ping"@[0]);
                assert("support"@[0] != "nsfw"@[0]);
            },
            Command::Invite => {
                assert("invite"@[0] != "ping"@[0]);
                assert("invite"@[0] != "nsfw"@[0]);
                assert("invite"@[0] != "support"@[0]);
            },
        }
    }
    if command_named(name) is Some {
        if name == "ping"@ {
            assert(registered_commands()[0].0 == name);
        } else if name == "nsfw"@ {
            assert(registered_commands()[1].0 == name);
        } else if name == "support"@ {
            assert(registered_commands()[2].0 == name);
        } else {
            assert(registered_commands()[3].0 == name);
        }
    }
}

/// The reply of the commands that answer with a link from the configuration:
/// `support` gives the support server, `invite` the bot's invite link.
pub fn link_reply(config: &BotConfig, command: Command) -> (r: Option<String>)
    ensures
        match command {
            Command::Support => r matches Some(s) && s@ == config.support_server@,
            Command::Invite => r matches Some(s) && s@ == config.bot_invite@,
            _ => r is None,
        },
{
    match command {
        Command::Support => Some(config.support_server.clone()),
        Command::Invite => Some(config.bot_invite.clone()),
        _ => None,
    }
}

/// The first reply to `/ping`.
pub open spec fn pong_text() -> Seq<char> {
    ":ping_pong: Pong!"@
}

/// The first reply to `/ping`.
pub fn pong() -> (s: String)
    ensures
        s@ == pong_text(),
{
    String::from_str(":ping_pong: Pong!")
}

/// The edited reply to `/ping`, once the time the first reply took is known.
pub open spec fn pong_timed_text(elapsed_ms: u128) -> Seq<char> {
    ":ping_pong: Pong! Message sent in "@ + decimal(elapsed_ms as nat) + "ms"@
}

/// The timed reply shows the elapsed milliseconds in full: a non-empty run
/// of digits whose value is the time.
pub proof fn law_pong_shows_time(elapsed_ms: u128)
    ensures
        exists|d: Seq<char>|
            #![trigger digits_value(d)]
            d.len() >= 1 && (forall|i: int| 0 <= i < d.len() ==> is_digit(#[trigger] d[i]))
                && digits_value(d) == elapsed_ms && pong_timed_text(elapsed_ms)
                == ":ping_pong: Pong! Message sent in "@ + d + "ms"@,
{
    law_decimal_reads_back(elapsed_ms as nat);
    assert(digits_value(decimal(elapsed_ms as nat)) == elapsed_ms);
}

/// The edited reply to `/ping`, with the time in milliseconds.
pub fn pong_timed(elapsed_ms: u128) -> (s: String)
    ensures
        s@ == pong_timed_text(elapsed_ms),
{
    let mut s = String::from_str(":ping_pong: Pong! Message sent in ");
    let ms = u128_to_decimal(elapsed_ms);
    s.append(ms.as_str());
    s.append("ms");
    s
}

} // verus!
