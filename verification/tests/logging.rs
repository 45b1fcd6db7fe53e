use nsfw_bot::bot_cfg::{BotConfig, BotList, Emojis, Webhook};
use nsfw_bot::interaction::{
    find_option, interaction_to_string, options_to_string, CommandData, CommandOption, JsonNumber,
    OptionValue,
};
use nsfw_bot::logger::{cmd_log, server_log, CommandUse, ServerLogAction};

fn config() -> BotConfig {
    BotConfig {
        bot_token: "token".to_string(),
        support_server: "https://discord.gg/support".to_string(),
        bot_invite: "https://invite".to_string(),
        cmd_log: Some(Webhook { id: 11, token: "cmdtok".to_string() }),
        server_log: Some(Webhook { id: 22, token: "srvtok".to_string() }),
        emojis: Some(Emojis {
            cmd: Some(":gear:".to_string()),
            join_server: Some(":inbox_tray:".to_string()),
            leave_server: Some(":outbox_tray:".to_string()),
        }),
        bot_lists: vec![BotList { name: "botsondiscord".to_string(), auth: "a".to_string() }],
    }
}

fn opt(name: &str, value: Option<OptionValue>) -> CommandOption {
    CommandOption { name: name.to_string(), value }
}

#[test]
fn invocation_text() {
    assert_eq!(interaction_to_string(&None), "/");
    let d = CommandData { name: "ping".to_string(), options: vec![] };
    assert_eq!(interaction_to_string(&Some(d)), "/ping");
    let d = CommandData {
        name: "nsfw".to_string(),
        options: vec![
            opt("channel", Some(OptionValue::String("123".to_string()))),
            opt("enabled", Some(OptionValue::Bool(true))),
        ],
    };
    assert_eq!(interaction_to_string(&Some(d)), "/nsfw channel: 123 enabled: true");
}

#[test]
fn option_words() {
    let ops = vec![
        opt("a", None),
        opt("n", Some(OptionValue::Number(JsonNumber::NegInt(-5)))),
        opt("p", Some(OptionValue::Number(JsonNumber::PosInt(7)))),
        opt("f", Some(OptionValue::Number(JsonNumber::Fractional("1.5".to_string())))),
        opt("o", Some(OptionValue::Other)),
        opt("b", Some(OptionValue::Bool(false))),
    ];
    assert_eq!(options_to_string(&ops), "a n: -5 p: 7 f: 1.5 o:  b: false");
    assert_eq!(options_to_string(&vec![]), "");
    assert_eq!(find_option(&ops, "p"), Some(2));
    assert_eq!(find_option(&ops, "zz"), None);
}

#[test]
fn server_log_lines() {
    let c = config();
    let p = server_log(&c, ServerLogAction::Join(42)).unwrap();
    assert_eq!(p.content, ":inbox_tray: `42`");
    assert_eq!(p.webhook_id, 22);
    assert_eq!(p.token, "srvtok");
    let p = server_log(&c, ServerLogAction::Leave(43)).unwrap();
    assert_eq!(p.content, ":outbox_tray: `43`");
}

#[test]
fn command_log_line() {
    let c = config();
    let who = CommandUse {
        user_name: "alice".to_string(),
        discriminator: 7,
        user_id: 100,
        channel_id: 200,
        guild_id: 300,
    };
    let d = CommandData {
        name: "nsfw".to_string(),
        options: vec![opt("enabled", Some(OptionValue::Bool(true)))],
    };
    let p = cmd_log(&c, &who, &d).unwrap();
    assert_eq!(
        p.content,
        ":wrench: alice#0007 (`100`) used command `nsfw` in channel `200` of guild `300`\n> `/nsfw enabled: true`"
    );
    assert_eq!(p.webhook_id, 11);
    assert_eq!(p.token, "cmdtok");
}

#[test]
fn logs_off_without_configuration() {
    let mut c = config();
    c.cmd_log = None;
    let who = CommandUse {
        user_name: "bob".to_string(),
        discriminator: 1234,
        user_id: 1,
        channel_id: 2,
        guild_id: 3,
    };
    let d = CommandData { name: "ping".to_string(), options: vec![] };
    assert_eq!(cmd_log(&c, &who, &d), None);

    let mut c = config();
    c.emojis.as_mut().unwrap().leave_server = None;
    assert!(server_log(&c, ServerLogAction::Join(1)).is_some());
    assert_eq!(server_log(&c, ServerLogAction::Leave(1)), None);
    c.server_log = None;
    assert_eq!(server_log(&c, ServerLogAction::Join(1)), None);
    let mut c = config();
    c.emojis = None;
    assert_eq!(server_log(&c, ServerLogAction::Join(1)), None);
}
