use skill_monitor::discord::{
    channel_slug, channel_topic, failed_message, login_message, monitored_message, thread_greeting,
};

#[test]
fn slug_has_dashes_for_spaces_and_apostrophes() {
    assert_eq!(channel_slug("Jane Doe"), "Jane-Doe");
    assert_eq!(channel_slug("O'Neil"), "O-Neil");
    assert_eq!(channel_slug("Jane O'Neil Doe"), "Jane-O-Neil-Doe");
    assert_eq!(channel_slug("' '"), "---");
}

#[test]
fn slug_keeps_every_other_character() {
    assert_eq!(channel_slug(""), "");
    assert_eq!(channel_slug("Jane"), "Jane");
    assert_eq!(channel_slug("Jane-Doe_2"), "Jane-Doe_2");
    assert_eq!(channel_slug("Jäne Dœ"), "Jäne-Dœ");
    assert_eq!(channel_slug("a\u{a0}b\"c"), "a\u{a0}b\"c");
}

#[test]
fn slug_agrees_with_replace() {
    let names = vec!["Jane Doe", "  ", "O'Neil's", "x", "日本 語"];
    for name in names {
        assert_eq!(channel_slug(name), name.replace(' ', "-").replace('\'', "-"));
    }
}

#[test]
fn topic_of_a_channel() {
    assert_eq!(channel_topic("Jane Doe"), "Skill training status of Jane Doe.");
    assert_eq!(channel_topic(""), "Skill training status of .");
}

#[test]
fn greeting_of_a_thread() {
    assert_eq!(
        thread_greeting(1251447020741464116),
        "<@1251447020741464116>: here I will let you know when a skill training finished."
    );
}

#[test]
fn message_that_starts_a_registration() {
    assert_eq!(
        login_message("https://example.com", "abc123"),
        "Visit https://example.com/login?state=abc123 to authenticate an EVE Online character to monitor."
    );
}

#[test]
fn messages_that_end_a_registration() {
    assert_eq!(monitored_message(9), "Your character is now monitored in <#9>");
    assert_eq!(
        failed_message("This character is already actively monitored."),
        "Failed to create channel: This character is already actively monitored."
    );
}
