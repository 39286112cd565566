use arzte_bot::binding::EmojiKey;
use arzte_bot::registration::{
    classify_emoji, parse_emoji_argument, parse_message_link, parse_role_argument, plan_registration,
    MessageRef, RegistrationError,
};

const LINK: &str = "https://discordapp.com/channels/197169999494774784/355889026726887426/703682563398697000";

#[test]
fn message_link_gives_channel_and_message() {
    assert_eq!(
        parse_message_link(LINK),
        Ok(MessageRef { channel_id: 355889026726887426, message_id: 703682563398697000 })
    );
}

#[test]
fn message_link_variants() {
    assert_eq!(
        parse_message_link("see http://ptb.discord.com/channels/1/2/3 please"),
        Ok(MessageRef { channel_id: 2, message_id: 3 })
    );
    assert_eq!(
        parse_message_link("https:/canary.discordapp.com/channels//20/30"),
        Ok(MessageRef { channel_id: 20, message_id: 30 })
    );
    assert_eq!(
        parse_message_link("http://x https://discord.com/channels/1/5/6"),
        Ok(MessageRef { channel_id: 5, message_id: 6 })
    );
}

#[test]
fn malformed_message_links() {
    let bad = RegistrationError::MalformedMessageReference;
    assert_eq!(parse_message_link(""), Err(bad));
    assert_eq!(parse_message_link("https://discord.com/channels/1/2"), Err(bad));
    assert_eq!(parse_message_link("https://discord.com/channels/1/2/"), Err(bad));
    assert_eq!(parse_message_link("https://discord.org/channels/1/2/3"), Err(bad));
    assert_eq!(parse_message_link("https://discord.com/channels/1/2/99999999999999999999"), Err(bad));
}

#[test]
fn role_argument_forms() {
    assert_eq!(parse_role_argument("<@&401927402072309760>"), Ok(401927402072309760));
    assert_eq!(parse_role_argument("401927402072309760"), Ok(401927402072309760));
    assert_eq!(parse_role_argument("+12"), Ok(12));
    assert_eq!(parse_role_argument("<@&+5>"), Ok(5));
    assert_eq!(parse_role_argument("<@&>"), Err(RegistrationError::UnresolvableRole));
    assert_eq!(parse_role_argument("moderators"), Err(RegistrationError::UnresolvableRole));
    assert_eq!(parse_role_argument("<@123>"), Err(RegistrationError::UnresolvableRole));
}

#[test]
fn custom_emoji_markup() {
    let e = parse_emoji_argument("<:blobwave:302516740095606785>").unwrap();
    assert!(e.key.same_as(&EmojiKey::Custom(302516740095606785)));
    assert_eq!(e.name, "blobwave");
}

#[test]
fn animated_emoji_markup() {
    let e = parse_emoji_argument("<a:party:123456789>").unwrap();
    assert!(e.key.same_as(&EmojiKey::Custom(123456789)));
    assert_eq!(e.name, "party");
    assert_eq!(parse_emoji_argument("<a:party>").unwrap_err(), RegistrationError::MalformedEmoji);
    assert_eq!(parse_emoji_argument("<a:party:x1>").unwrap_err(), RegistrationError::MalformedEmoji);
}

#[test]
fn unicode_emoji_literal() {
    let e = parse_emoji_argument("💙").unwrap();
    assert!(e.key.same_as(&EmojiKey::Unicode("💙".to_string())));
    assert_eq!(e.name, "💙");
}

#[test]
fn ascii_text_is_not_an_emoji() {
    assert_eq!(parse_emoji_argument(":blue_heart:").unwrap_err(), RegistrationError::MalformedEmoji);
    assert_eq!(parse_emoji_argument("").unwrap_err(), RegistrationError::MalformedEmoji);
}

#[test]
fn classify_uses_parser_answer() {
    let e = classify_emoji("anything", Some(("n".to_string(), 9))).unwrap();
    assert!(e.key.same_as(&EmojiKey::Custom(9)));
    assert_eq!(e.name, "n");
    assert_eq!(classify_emoji("abc", None).unwrap_err(), RegistrationError::MalformedEmoji);
}

#[test]
fn registration_plan() {
    let reg = plan_registration(197169999494774784, "💙", "<@&401927402072309760>", LINK).unwrap();
    assert_eq!(reg.binding.role_id, 401927402072309760);
    assert_eq!(reg.binding.tenant_id, 197169999494774784);
    assert_eq!(reg.binding.message_id, 703682563398697000);
    assert!(reg.binding.emoji.same_as(&EmojiKey::Unicode("💙".to_string())));
    assert_eq!(reg.channel_id, 355889026726887426);
    assert_eq!(reg.emoji_name, "💙");
}

#[test]
fn registration_errors_in_argument_order() {
    assert_eq!(plan_registration(1, "x", "nope", "nope").unwrap_err(), RegistrationError::MalformedEmoji);
    assert_eq!(plan_registration(1, "💙", "nope", "nope").unwrap_err(), RegistrationError::UnresolvableRole);
    assert_eq!(
        plan_registration(1, "💙", "5", "nope").unwrap_err(),
        RegistrationError::MalformedMessageReference
    );
}
