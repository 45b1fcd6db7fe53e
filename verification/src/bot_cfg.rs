use vstd::prelude::*;

verus! {

/// A Discord webhook: its id and token.
#[derive(Debug, Clone, PartialEq)]
pub struct Webhook {
    /// The webhook's id.
    pub id: u64,
    /// The webhook's token.
    pub token: String,
}

/// The emojis the log messages start with; each is configured only where
/// the log that uses it is kept.
#[derive(Debug, Clone, PartialEq)]
pub struct Emojis {
    /// Before a command log.
    pub cmd: Option<String>,
    /// Before a "joined a server" log.
    pub join_server: Option<String>,
    /// Before a "left a server" log.
    pub leave_server: Option<String>,
}

/// A bot list the server count is posted to, by name, with its API token.
#[derive(Debug, Clone, PartialEq)]
pub struct BotList {
    /// The list's name (`botsondiscord`, `discordextremelist`).
    pub name: String,
    /// The token sent in the `authorization` header.
    pub auth: String,
}

/// The bot's configuration.
#[derive(Debug, Clone, PartialEq)]
pub struct BotConfig {
    /// The bot's Discord token.
    pub bot_token: String,
    /// The link to the support server.
    pub support_server: String,
    /// The link that invites the bot to a server.
    pub bot_invite: String,
    /// Where commands are logged; no command log when absent.
    pub cmd_log: Option<Webhook>,
    /// Where joins and leaves are logged; no server log when absent.
    pub server_log: Option<Webhook>,
    /// The emojis of the log messages, when a log is kept.
    pub emojis: Option<Emojis>,
    /// The bot lists the server count is posted to (none when empty).
    pub bot_lists: Vec<BotList>,
}

/// The first bot list named `name`, as an index, if any.
pub open spec fn first_list_named(lists: Seq<BotList>, name: Seq<char>) -> Option<int>
    decreases lists.len(),
{
    if lists.len() == 0 {
        None
    } else if lists[0].name@ == name {
        Some(0)
    } else {
        match first_list_named(lists.drop_first(), name) {
            Some(i) => Some(i + 1),
            None => None,
        }
    }
}

proof fn lemma_first_list_named_skip(lists: Seq<BotList>, name: Seq<char>, i: int)
    requires
        0 <= i < lists.len(),
        forall|k: int| 0 <= k < i ==> lists[k].name@ != name,
    ensures
        first_list_named(lists, name) == match first_list_named(lists.skip(i), name) {
            Some(j) => Some(j + i),
            None => None::<int>,
        },
    decreases i,
{
    if i > 0 {
        lemma_first_list_named_skip(lists.drop_first(), name, i - 1);
        assert(lists.drop_first().skip(i - 1) =~= lists.skip(i));
    } else {
        assert(lists.skip(0) =~= lists);
    }
}

/// Looks up a bot list by name: the index of the first with that name.
pub fn find_bot_list(lists: &Vec<BotList>, name: &str) -> (r: Option<usize>)
    ensures
        match r {
            Some(i) => {
                &&& i < lists@.len()
                &&& lists@[i as int].name@ == name@
                &&& forall|k: int| 0 <= k < i ==> lists@[k].name@ != name@
                &&& first_list_named(lists@, name@) == Some(i as int)
            },
            None => first_list_named(lists@, name@) is None,
        },
{
    let target = String::from_str(name);
    let mut i: usize = 0;
    while i < lists.len()
        invariant
            0 <= i <= lists@.len(),
            target@ == name@,
            forall|k: int| 0 <= k < i ==> lists@[k].name@ != name@,
        decreases lists@.len() - i,
    {
        if lists[i].name == target {
            proof {
                lemma_first_list_named_skip(lists@, name@, i as int);
            }
            return Some(i);
        }
        i = i + 1;
    }
    proof {
        lemma_first_list_named_absent(lists@, name@);
    }
    None
}

proof fn lemma_first_list_named_absent(lists: Seq<BotList>, name: Seq<char>)
    requires
        forall|k: int| 0 <= k < lists.len() ==> lists[k].name@ != name,
    ensures
        first_list_named(lists, name) is None,
    decreases lists.len(),
{
    if lists.len() > 0 {
        assert(lists[0].name@ != name);
        assert forall|k: int| 0 <= k < lists.drop_first().len() implies lists.drop_first()[k].name@
            != name by {
            assert(lists.drop_first()[k] == lists[k + 1]);
        }
        lemma_first_list_named_absent(lists.drop_first(), name);
    }
}

} // verus!
