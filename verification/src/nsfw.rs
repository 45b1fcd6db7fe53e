use vstd::prelude::*;

use crate::decimal::{decimal, law_parse_reads_rendered, parse_u64, parse_u64_spec, u64_to_decimal};
use crate::interaction::{find_option, law_option_named_is_first, option_named, CommandOption, OptionValue};
use crate::permissions::{check_nsfw_permission, permission_verdict, PermissionVerdict};
use crate::text::opt_view;

verus! {

/// The reply to a member who may not change a channel's NSFW flag.
pub open spec fn no_permission_text() -> Seq<char> {
    ":x: You do not have permission to use this command."@
}

/// The reply when the chosen channel is not a text channel of a server.
pub open spec fn not_text_channel_text() -> Seq<char> {
    ":x: You can only mark text channels as NSFW."@
}

/// The reply when the chosen channel cannot be fetched.
pub open spec fn fetch_failed_text() -> Seq<char> {
    ":x: An error occurred while finding that channel. Please ensure you are inputting a valid channel."@
}

/// The reply when the channel already has the asked-for flag.
pub open spec fn already_marked_text(nsfw: bool) -> Seq<char> {
    ":x: That channel has already been marked as "@ + (if nsfw {
        "NSFW"@
    } else {
        "SFW"@
    })
}

/// The reply after the flag was changed.
pub open spec fn success_text(channel_id: u64, nsfw: bool) -> Seq<char> {
    ":white_check_mark: Successfully **"@ + (if nsfw {
        "enabled"@
    } else {
        "disabled"@
    }) + "** NSFW for <#"@ + decimal(channel_id as nat) + ">"@
}

/// The reply when Discord refuses the edit for lack of the bot's permission.
pub open spec fn bot_lacks_permission_text() -> Seq<char> {
    ":x: I do not have permission to edit this channel. Make sure I have `MANAGE_CHANNELS`"@
}

/// The reply when the edit fails for any other reason.
pub open spec fn edit_failed_text() -> Seq<char> {
    ":x: An error occurred. Please try again"@
}

/// Discord's error code for "Missing Permissions".
pub const MISSING_PERMISSIONS_CODE: isize = 50013;

/// The channel the command is about: the `channel` option when its value is
/// a string holding a decimal id, else the channel the command was used in.
pub open spec fn requested_channel(opts: Seq<CommandOption>, used_in: u64) -> u64 {
    match option_named(opts, "channel"@) {
        Some(op) => match op.value {
            Some(OptionValue::String(text)) => match parse_u64_spec(text@) {
                Some(id) => id,
                None => used_in,
            },
            _ => used_in,
        },
        None => used_in,
    }
}

/// The flag the command asks for: the `enabled` option when it holds a
/// boolean, else the opposite of the channel's current flag.
pub open spec fn requested_flag(opts: Seq<CommandOption>, current: bool) -> bool {
    match option_named(opts, "enabled"@) {
        Some(op) => match op.value {
            Some(OptionValue::Bool(b)) => b,
            _ => !current,
        },
        None => !current,
    }
}

/// An `enabled` option with a boolean value decides the flag, whatever the
/// channel's current flag is: the first such option, when no earlier option
/// is named `enabled`.
pub proof fn law_enabled_option_sets_flag(opts: Seq<CommandOption>, i: int, b: bool, current: bool)
    requires
        0 <= i < opts.len(),
        opts[i].name@ == "enabled"@,
        opts[i].value == Some(OptionValue::Bool(b)),
        forall|k: int| 0 <= k < i ==> #[trigger] opts[k].name@ != "enabled"@,
    ensures
        requested_flag(opts, current) == b,
        b != current ==> requested_flag(opts, current) != current,
{
    law_option_named_is_first(opts, "enabled"@, i);
}

/// Without an `enabled` option the command toggles the channel's flag.
pub proof fn law_no_enabled_option_toggles(opts: Seq<CommandOption>, current: bool)
    requires
        forall|k: int| 0 <= k < opts.len() ==> #[trigger] opts[k].name@ != "enabled"@,
    ensures
        requested_flag(opts, current) == !current,
{
    law_option_named_is_first(opts, "enabled"@, 0);
}

/// A `channel` option holding the decimal text of an id picks that channel;
/// without a `channel` option the command is about the channel it was used in.
pub proof fn law_channel_option_picks_channel(
    opts: Seq<CommandOption>,
    i: int,
    text: String,
    id: u64,
    used_in: u64,
)
    ensures
        0 <= i < opts.len() && opts[i].name@ == "channel"@ && opts[i].value == Some(
            OptionValue::String(text),
        ) && parse_u64_spec(text@) == Some(id) && (forall|k: int|
            0 <= k < i ==> #[trigger] opts[k].name@ != "channel"@) ==> requested_channel(
            opts,
            used_in,
        ) == id,
        (forall|k: int| 0 <= k < opts.len() ==> #[trigger] opts[k].name@ != "channel"@)
            ==> requested_channel(opts, used_in) == used_in,
{
    law_option_named_is_first(opts, "channel"@, i);
}

/// The success reply names the edited channel as `<#id>`, with the full
/// decimal id, which reads back as the channel's id.
pub proof fn law_success_names_channel(channel_id: u64, nsfw: bool)
    ensures
        exists|d: Seq<char>|
            #[trigger] parse_u64_spec(d) == Some(channel_id) && success_text(channel_id, nsfw) == (
            ":white_check_mark: Successfully **"@ + (if nsfw {
                "enabled"@
            } else {
                "disabled"@
            }) + "** NSFW for <#"@ + d + ">"@),
{
    law_parse_reads_rendered(channel_id);
    let d = decimal(channel_id as nat);
    assert(parse_u64_spec(d) == Some(channel_id));
}

/// The first step of the `nsfw` command.
#[derive(Debug, PartialEq)]
pub enum NsfwStart {
    /// Do nothing at all (the member's permissions could not be read).
    Ignore,
    /// Answer with this message and stop.
    Reply(String),
    /// Fetch this channel and go on with [`nsfw_after_fetch`].
    FetchChannel(u64),
}

/// What fetching the channel gave.
#[derive(Debug, Clone, PartialEq)]
pub enum FetchedChannel {
    /// The request failed.
    Failed,
    /// The channel exists but is not a text channel of a server.
    NotText,
    /// A text channel of a server, with its id and current NSFW flag.
    Text { id: u64, nsfw: bool },
}

/// The second step of the `nsfw` command.
#[derive(Debug, PartialEq)]
pub enum NsfwNext {
    /// Answer with this message and stop.
    Reply(String),
    /// Set the channel's NSFW flag to `nsfw`, then go on with [`nsfw_after_edit`].
    Edit { channel_id: u64, nsfw: bool },
}

/// What editing the channel gave.
#[derive(Debug, Clone, PartialEq)]
pub enum EditOutcome {
    /// The flag was changed.
    Done,
    /// Discord answered the request with an error; `code` is its JSON error
    /// code, when the failure was an unsuccessful HTTP request.
    Failed { code: Option<isize> },
}

/// The string behind an optional string value.
pub open spec fn string_value(v: Option<OptionValue>) -> Option<Seq<char>> {
    match v {
        Some(OptionValue::String(t)) => Some(t@),
        _ => None,
    }
}

/// Reads the channel the command is about.
pub fn requested_channel_of(opts: &Vec<CommandOption>, used_in: u64) -> (r: u64)
    ensures
        r == requested_channel(opts@, used_in),
{
    match find_option(opts, "channel") {
        Some(i) => match &opts[i].value {
            Some(OptionValue::String(text)) => match parse_u64(text.as_str()) {
                Some(id) => id,
                None => used_in,
            },
            _ => used_in,
        },
        None => used_in,
    }
}

/// Reads the flag the command asks for.
pub fn requested_flag_of(opts: &Vec<CommandOption>, current: bool) -> (r: bool)
    ensures
        r == requested_flag(opts@, current),
{
    match find_option(opts, "enabled") {
        Some(i) => match &opts[i].value {
            Some(OptionValue::Bool(b)) => *b,
            _ => !current,
        },
        None => !current,
    }
}

/// Starts the `nsfw` command: checks the member's permissions and picks the
/// channel. A member without the right never gets a channel fetched.
pub fn nsfw_start(permissions: &Option<String>, opts: &Vec<CommandOption>, used_in: u64) -> (r:
    NsfwStart)
    ensures
        match permission_verdict(opt_view(*permissions)) {
            PermissionVerdict::Unreadable => r == NsfwStart::Ignore,
            PermissionVerdict::Denied => r matches NsfwStart::Reply(m) && m@ == no_permission_text(),
            PermissionVerdict::Allowed => r == NsfwStart::FetchChannel(
                requested_channel(opts@, used_in),
            ),
        },
{
    match check_nsfw_permission(permissions) {
        PermissionVerdict::Unreadable => NsfwStart::Ignore,
        PermissionVerdict::Denied => NsfwStart::Reply(
            String::from_str(":x: You do not have permission to use this command."),
        ),
        PermissionVerdict::Allowed => NsfwStart::FetchChannel(requested_channel_of(opts, used_in)),
    }
}

/// Goes on once the channel was fetched: refuses what is not a text channel,
/// refuses a change to the flag the channel already has, and otherwise asks
/// for the edit. An edit, when asked for, always changes the flag.
pub fn nsfw_after_fetch(fetched: &FetchedChannel, opts: &Vec<CommandOption>) -> (r: NsfwNext)
    ensures
        match *fetched {
            FetchedChannel::Failed => r matches NsfwNext::Reply(m) && m@ == fetch_failed_text(),
            FetchedChannel::NotText => r matches NsfwNext::Reply(m) && m@
                == not_text_channel_text(),
            FetchedChannel::Text { id, nsfw } => if requested_flag(opts@, nsfw) == nsfw {
                r matches NsfwNext::Reply(m) && m@ == already_marked_text(nsfw)
            } else {
                r == (NsfwNext::Edit { channel_id: id, nsfw: !nsfw })
            },
        },
{
    match fetched {
        FetchedChannel::Failed => NsfwNext::Reply(
            String::from_str(
                ":x: An error occurred while finding that channel. Please ensure you are inputting a valid channel.",
            ),
        ),
        FetchedChannel::NotText => NsfwNext::Reply(
            String::from_str(":x: You can only mark text channels as NSFW."),
        ),
        FetchedChannel::Text { id, nsfw } => {
            let wanted = requested_flag_of(opts, *nsfw);
            if wanted == *nsfw {
                let mut m = String::from_str(":x: That channel has already been marked as ");
                if *nsfw {
                    m.append("NSFW");
                } else {
                    m.append("SFW");
                }
                NsfwNext::Reply(m)
            } else {
                NsfwNext::Edit { channel_id: *id, nsfw: wanted }
            }
        },
    }
}

/// Ends the `nsfw` command with the message that reports the edit.
pub fn nsfw_after_edit(outcome: &EditOutcome, channel_id: u64, nsfw: bool) -> (m: String)
    ensures
        m@ == match *outcome {
            EditOutcome::Done => success_text(channel_id, nsfw),
            EditOutcome::Failed { code } => if code == Some(MISSING_PERMISSIONS_CODE) {
                bot_lacks_permission_text()
            } else {
                edit_failed_text()
            },
        },
{
    match outcome {
        EditOutcome::Done => {
            let mut m = String::from_str(":white_check_mark: Successfully **");
            if nsfw {
                m.append("enabled");
            } else {
                m.append("disabled");
            }
            m.append("** NSFW for <#");
            let id = u64_to_decimal(channel_id);
            m.append(id.as_str());
            m.append(">");
            m
        },
        EditOutcome::Failed { code } => {
            let missing = match code {
                Some(c) => *c == MISSING_PERMISSIONS_CODE,
                None => false,
            };
            if missing {
                String::from_str(
                    ":x: I do not have permission to edit this channel. Make sure I have `MANAGE_CHANNELS`",
                )
            } else {
                String::from_str(":x: An error occurred. Please try again")
            }
        },
    }
}

} // verus!
