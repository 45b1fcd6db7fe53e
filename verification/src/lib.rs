//! The decisions of a Discord bot that turns the NSFW flag of text channels
//! on and off: who may use the `nsfw` command and what it does, the replies
//! and log lines the bot writes, the slash commands it registers, the cache
//! of servers it is in, and what it reports to bot lists.

pub mod decimal;
pub mod text;
pub mod mention;
pub mod permissions;
pub mod interaction;
pub mod nsfw;
pub mod guilds;
pub mod bot_cfg;
pub mod bot_list;
pub mod logger;
pub mod commands;
pub mod ready;
