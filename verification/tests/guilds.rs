use nsfw_bot::guilds::GuildCache;

#[test]
fn join_adds_once() {
    let mut c = GuildCache::new();
    assert!(c.guild_create(1));
    assert!(c.guild_create(2));
    assert!(!c.guild_create(1));
    assert_eq!(c.ids(), vec![1, 2]);
    assert_eq!(c.len(), 2);
    assert!(c.contains(2));
}

#[test]
fn leave_removes_first_entry() {
    let mut c = GuildCache::new();
    c.ready(vec![5, 6, 7]);
    assert!(c.guild_delete(6, false));
    assert_eq!(c.ids(), vec![5, 7]);
    assert!(!c.guild_delete(6, false));
    assert_eq!(c.ids(), vec![5, 7]);
}

#[test]
fn outage_keeps_server() {
    let mut c = GuildCache::new();
    c.guild_create(3);
    assert!(!c.guild_delete(3, true));
    assert_eq!(c.ids(), vec![3]);
}

#[test]
fn join_then_leave_restores() {
    let mut c = GuildCache::new();
    c.ready(vec![1, 2]);
    c.guild_create(9);
    c.guild_delete(9, false);
    assert_eq!(c.ids(), vec![1, 2]);
    assert!(!c.contains(9));
}

#[test]
fn ready_skips_known_servers() {
    let mut c = GuildCache::new();
    c.guild_create(1);
    c.ready(vec![1, 2, 2, 3]);
    assert_eq!(c.ids(), vec![1, 2, 3]);
    assert_eq!(c.len(), 3);
    c.ready(vec![3, 2, 1]);
    assert_eq!(c.ids(), vec![1, 2, 3]);
}
