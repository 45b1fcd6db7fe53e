use nsfw_bot::interaction::{CommandOption, OptionValue};
use nsfw_bot::nsfw::{
    nsfw_after_edit, nsfw_after_fetch, nsfw_start, requested_channel_of, requested_flag_of,
    EditOutcome, FetchedChannel, NsfwNext, NsfwStart,
};
use nsfw_bot::permissions::{check_nsfw_permission, PermissionVerdict};
use serenity::model::permissions::Permissions;

fn opt(name: &str, value: Option<OptionValue>) -> CommandOption {
    CommandOption { name: name.to_string(), value }
}

fn perms(s: &str) -> Option<String> {
    Some(s.to_string())
}

#[test]
fn permission_verdicts() {
    assert_eq!(check_nsfw_permission(&None), PermissionVerdict::Unreadable);
    assert_eq!(check_nsfw_permission(&perms("abc")), PermissionVerdict::Unreadable);
    assert_eq!(check_nsfw_permission(&perms("-16")), PermissionVerdict::Unreadable);
    assert_eq!(check_nsfw_permission(&perms("16")), PermissionVerdict::Allowed);
    assert_eq!(check_nsfw_permission(&perms("8")), PermissionVerdict::Allowed);
    assert_eq!(check_nsfw_permission(&perms("24")), PermissionVerdict::Allowed);
    assert_eq!(check_nsfw_permission(&perms("0")), PermissionVerdict::Denied);
    assert_eq!(check_nsfw_permission(&perms("32")), PermissionVerdict::Denied);
    assert_eq!(check_nsfw_permission(&perms("8589934592")), PermissionVerdict::Denied);
    assert_eq!(check_nsfw_permission(&perms("18446744073709551615")), PermissionVerdict::Allowed);
}

#[test]
fn permission_verdict_agrees_with_serenity() {
    for bits in [0u64, 1, 8, 16, 24, 32, 1 << 33, (1 << 33) | 16, 0x1FF_FFFF_FFFF, u64::MAX, 2147483648] {
        let p = Permissions::from_bits_truncate(bits);
        let expected = if p.manage_channels() || p.administrator() {
            PermissionVerdict::Allowed
        } else {
            PermissionVerdict::Denied
        };
        assert_eq!(check_nsfw_permission(&Some(bits.to_string())), expected);
        assert_eq!(p.bits, bits & 0x1FF_FFFF_FFFF);
    }
}

#[test]
fn start_refuses_members_without_permission() {
    match nsfw_start(&perms("0"), &vec![], 5) {
        NsfwStart::Reply(m) => assert_eq!(m, ":x: You do not have permission to use this command."),
        other => panic!("unexpected {:?}", other),
    }
    assert_eq!(nsfw_start(&None, &vec![], 5), NsfwStart::Ignore);
    assert_eq!(nsfw_start(&perms("x"), &vec![], 5), NsfwStart::Ignore);
}

#[test]
fn start_picks_channel() {
    assert_eq!(nsfw_start(&perms("16"), &vec![], 5), NsfwStart::FetchChannel(5));
    let o = vec![opt("channel", Some(OptionValue::String("777".to_string())))];
    assert_eq!(nsfw_start(&perms("16"), &o, 5), NsfwStart::FetchChannel(777));
    let o = vec![opt("channel", Some(OptionValue::String("not-an-id".to_string())))];
    assert_eq!(requested_channel_of(&o, 5), 5);
    let o = vec![opt("channel", Some(OptionValue::Bool(true)))];
    assert_eq!(requested_channel_of(&o, 5), 5);
    let o = vec![
        opt("enabled", Some(OptionValue::Bool(true))),
        opt("channel", Some(OptionValue::String("9".to_string()))),
        opt("channel", Some(OptionValue::String("10".to_string()))),
    ];
    assert_eq!(requested_channel_of(&o, 5), 9);
}

#[test]
fn flag_defaults_to_toggle() {
    assert!(requested_flag_of(&vec![], false));
    assert!(!requested_flag_of(&vec![], true));
    let o = vec![opt("enabled", Some(OptionValue::Bool(false)))];
    assert!(!requested_flag_of(&o, false));
    let o = vec![opt("enabled", Some(OptionValue::String("true".to_string())))];
    assert!(requested_flag_of(&o, false));
}

#[test]
fn after_fetch_replies() {
    match nsfw_after_fetch(&FetchedChannel::Failed, &vec![]) {
        NsfwNext::Reply(m) => assert_eq!(m, ":x: An error occurred while finding that channel. Please ensure you are inputting a valid channel."),
        other => panic!("unexpected {:?}", other),
    }
    match nsfw_after_fetch(&FetchedChannel::NotText, &vec![]) {
        NsfwNext::Reply(m) => assert_eq!(m, ":x: You can only mark text channels as NSFW."),
        other => panic!("unexpected {:?}", other),
    }
    let o = vec![opt("enabled", Some(OptionValue::Bool(true)))];
    match nsfw_after_fetch(&FetchedChannel::Text { id: 3, nsfw: true }, &o) {
        NsfwNext::Reply(m) => assert_eq!(m, ":x: That channel has already been marked as NSFW"),
        other => panic!("unexpected {:?}", other),
    }
    let o = vec![opt("enabled", Some(OptionValue::Bool(false)))];
    match nsfw_after_fetch(&FetchedChannel::Text { id: 3, nsfw: false }, &o) {
        NsfwNext::Reply(m) => assert_eq!(m, ":x: That channel has already been marked as SFW"),
        other => panic!("unexpected {:?}", other),
    }
    assert_eq!(
        nsfw_after_fetch(&FetchedChannel::Text { id: 3, nsfw: false }, &vec![]),
        NsfwNext::Edit { channel_id: 3, nsfw: true }
    );
    assert_eq!(
        nsfw_after_fetch(&FetchedChannel::Text { id: 3, nsfw: true }, &vec![]),
        NsfwNext::Edit { channel_id: 3, nsfw: false }
    );
}

#[test]
fn after_edit_messages() {
    assert_eq!(
        nsfw_after_edit(&EditOutcome::Done, 123, true),
        ":white_check_mark: Successfully **enabled** NSFW for <#123>"
    );
    assert_eq!(
        nsfw_after_edit(&EditOutcome::Done, 9, false),
        ":white_check_mark: Successfully **disabled** NSFW for <#9>"
    );
    assert_eq!(
        nsfw_after_edit(&EditOutcome::Failed { code: Some(50013) }, 9, false),
        ":x: I do not have permission to edit this channel. Make sure I have `MANAGE_CHANNELS`"
    );
    assert_eq!(
        nsfw_after_edit(&EditOutcome::Failed { code: Some(10003) }, 9, false),
        ":x: An error occurred. Please try again"
    );
    assert_eq!(
        nsfw_after_edit(&EditOutcome::Failed { code: None }, 9, false),
        ":x: An error occurred. Please try again"
    );
}
