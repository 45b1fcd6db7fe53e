use nsfw_bot::bot_cfg::{find_bot_list, BotConfig, BotList, Emojis, Webhook};
use nsfw_bot::bot_list::{bod_post, del_post, BodBody, DelBody, StatsBody, BOTS_ON_DISCORD, DISCORD_EXTREME_LIST};
use nsfw_bot::commands::{
    application_commands, link_reply, pong, pong_timed, route_command, Command, OptionKind,
    COMMAND_GUILD_ID,
};
use nsfw_bot::ready::{presence, ready_plan};

fn config() -> BotConfig {
    BotConfig {
        bot_token: "token".to_string(),
        support_server: "https://discord.gg/support".to_string(),
        bot_invite: "https://invite".to_string(),
        cmd_log: Some(Webhook { id: 1, token: "t".to_string() }),
        server_log: Some(Webhook { id: 2, token: "u".to_string() }),
        emojis: Some(Emojis {
            cmd: Some("c".to_string()),
            join_server: Some("j".to_string()),
            leave_server: Some("l".to_string()),
        }),
        bot_lists: vec![
            BotList { name: "discordextremelist".to_string(), auth: "del-auth".to_string() },
            BotList { name: "botsondiscord".to_string(), auth: "bod-auth".to_string() },
            BotList { name: "botsondiscord".to_string(), auth: "second".to_string() },
        ],
    }
}

#[test]
fn routes_commands() {
    assert_eq!(route_command("ping"), Some(Command::Ping));
    assert_eq!(route_command("nsfw"), Some(Command::Nsfw));
    assert_eq!(route_command("support"), Some(Command::Support));
    assert_eq!(route_command("invite"), Some(Command::Invite));
    assert_eq!(route_command("help"), None);
    assert_eq!(route_command("Ping"), None);
}

#[test]
fn registered_commands() {
    let v = application_commands();
    let names: Vec<&str> = v.iter().map(|c| c.name.as_str()).collect();
    assert_eq!(names, vec!["ping", "nsfw", "support", "invite"]);
    for c in &v {
        assert!(route_command(&c.name).is_some());
    }
    assert_eq!(v[1].options.len(), 2);
    assert_eq!(v[1].options[0].name, "channel");
    assert_eq!(v[1].options[0].kind, OptionKind::Channel);
    assert!(!v[1].options[0].required);
    assert_eq!(v[1].options[1].name, "enabled");
    assert_eq!(v[1].options[1].kind, OptionKind::Boolean);
    assert_eq!(v[1].options[1].description, "Choose whether or not NSFW should be enabled.");
    assert_eq!(v[0].description, "Pong! Test how long it takes for the bot to send a message.");
    assert_eq!(COMMAND_GUILD_ID, 579466138992508928);
}

#[test]
fn link_replies() {
    let c = config();
    assert_eq!(link_reply(&c, Command::Support), Some("https://discord.gg/support".to_string()));
    assert_eq!(link_reply(&c, Command::Invite), Some("https://invite".to_string()));
    assert_eq!(link_reply(&c, Command::Ping), None);
}

#[test]
fn ping_texts() {
    assert_eq!(pong(), ":ping_pong: Pong!");
    assert_eq!(pong_timed(42), ":ping_pong: Pong! Message sent in 42ms");
}

#[test]
fn bot_list_posts() {
    let c = config();
    assert_eq!(find_bot_list(&c.bot_lists, BOTS_ON_DISCORD), Some(1));
    assert_eq!(find_bot_list(&c.bot_lists, DISCORD_EXTREME_LIST), Some(0));
    assert_eq!(find_bot_list(&c.bot_lists, "topgg"), None);
    let p = bod_post(&c.bot_lists[1], 555, 12);
    assert_eq!(p.url, "https://bots.ondiscord.xyz/bot-api/bots/555/guilds");
    assert_eq!(p.authorization, "bod-auth");
    assert_eq!(p.body, StatsBody::Bod(BodBody { guild_count: 12 }));
    let p = del_post(&c.bot_lists[0], 555, 12, 3);
    assert_eq!(p.url, "https://api.discordextremelist.xyz/v2/bot/555/stats");
    assert_eq!(p.authorization, "del-auth");
    assert_eq!(p.body, StatsBody::Del(DelBody { guild_count: 12, shard_count: 3 }));
}

#[test]
fn ready_plans() {
    let p = ready_plan(Some((0, 2)), 10);
    assert!(p.first_shard);
    assert!(!p.last_shard);
    assert_eq!(p.announcement.as_deref(), Some("Shard 0 ready with 10 guilds"));
    let p = ready_plan(Some((1, 2)), 3);
    assert!(!p.first_shard);
    assert!(p.last_shard);
    let p = ready_plan(Some((0, 1)), 0);
    assert!(p.first_shard && p.last_shard);
    let p = ready_plan(Some((0, 0)), 1);
    assert!(p.first_shard && !p.last_shard);
    let p = ready_plan(Some((u64::MAX, u64::MAX)), 1);
    assert!(!p.first_shard && !p.last_shard);
    let p = ready_plan(None, 4);
    assert!(!p.first_shard && !p.last_shard && p.announcement.is_none());
    assert_eq!(presence(57), "/nsfw | 57 servers");
}
