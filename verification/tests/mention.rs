use nsfw_bot::mention::{is_help_mention_message, mention_reply, white_space};
use regex::Regex;

fn pattern(id: u64) -> Regex {
    Regex::new(&format!("^<@!?{}>\\s?(help|commands|toggle|nsfw|invite|support)$", id)).unwrap()
}

#[test]
fn agrees_with_the_pattern() {
    let id = 123456789u64;
    let re = pattern(id);
    let cases = [
        "<@123456789>help", "<@123456789> help", "<@!123456789> nsfw", "<@!123456789>support",
        "<@123456789>\ttoggle", "<@123456789>\u{3000}invite", "<@123456789>\u{85}commands",
        "<@123456789>  help", "<@123456789> help ", " <@123456789> help", "<@123456789> Help",
        "<@12345678> help", "<@1234567890> help", "<@!!123456789> help", "<@123456789> helpme",
        "<@123456789>", "", "help", "<@123456789> nsfw\n", "<#123456789> help", "<@!123456789>\u{200b}help",
        "<@123456789>\u{a0}support", "<@123456789>\u{2029}invite",
    ];
    for c in cases {
        assert_eq!(is_help_mention_message(c, id), re.is_match(c), "message {:?}", c);
    }
}

#[test]
fn zero_id_mentions() {
    let re = pattern(0);
    for c in ["<@0> help", "<@00> help", "<@!0>invite"] {
        assert_eq!(is_help_mention_message(c, 0), re.is_match(c), "message {:?}", c);
    }
}

#[test]
fn white_space_matches_regex_class() {
    let re = Regex::new(r"^\s$").unwrap();
    for cp in 0u32..0x3100 {
        if let Some(c) = char::from_u32(cp) {
            assert_eq!(white_space(c), re.is_match(&c.to_string()), "char {:?}", c);
        }
    }
}

#[test]
fn reply_carries_invite_link() {
    let r = mention_reply("<@42> help", 42, "https://invite.example").unwrap();
    assert_eq!(
        r,
        ":information_source: I use slash commands now! You can view a list of my commands by pressing the `/` key.\n> If no commands appear, you may need to reauthorize with this link: <https://invite.example>"
    );
    assert_eq!(mention_reply("hello", 42, "x"), None);
}
