use calendar2discord::commands::{
    add_event_mapping, failure_reply, help_command, limit_reply, list_event_mappings,
    remove_event_mapping, show_default, update_default, Failure, REPLY_LIMIT,
};
use calendar2discord::config::{Config, DiscordConfig, EventMapping, Mappings};
use calendar2discord::status::Status;

fn line(event: &str, message: Option<&str>, emoji: Option<&str>) -> EventMapping {
    EventMapping {
        event: event.to_string(),
        message: message.map(|m| m.to_string()),
        emoji: emoji.map(|e| e.to_string()),
    }
}

fn config(lines: Vec<EventMapping>) -> Config {
    Config {
        discord: DiscordConfig { token: "secret".to_string() },
        mappings: Mappings {
            default: Status { message: "Away".to_string(), emoji: "🌙".to_string() },
            mapping: lines,
        },
    }
}

fn some(s: &str) -> Option<String> {
    Some(s.to_string())
}

#[test]
fn reply_limit_is_1900_bytes() {
    assert_eq!(REPLY_LIMIT, 1900);
}

#[test]
fn short_reply_is_sent_whole() {
    assert_eq!(limit_reply(String::new()), "");
    assert_eq!(limit_reply("hello".to_string()), "hello");
    let full = "a".repeat(1900);
    assert_eq!(limit_reply(full.clone()), full);
    let full_wide = "é".repeat(950);
    assert_eq!(full_wide.len(), 1900);
    assert_eq!(limit_reply(full_wide.clone()), full_wide);
}

#[test]
fn long_reply_is_cut_and_marked() {
    let long = "a".repeat(1901);
    assert_eq!(limit_reply(long), format!("{}\n... (truncated)", "a".repeat(1900)));
    let longer = "b".repeat(5000);
    assert_eq!(limit_reply(longer), format!("{}\n... (truncated)", "b".repeat(1900)));
}

#[test]
fn long_reply_is_cut_between_characters() {
    let two_bytes = format!("a{}", "é".repeat(1000));
    assert_eq!(
        limit_reply(two_bytes),
        format!("a{}\n... (truncated)", "é".repeat(949))
    );
    for lead in 0..4 {
        let four_bytes = format!("{}{}", "a".repeat(lead), "📅".repeat(500));
        let whole = (1900 - lead) / 4;
        assert_eq!(
            limit_reply(four_bytes),
            format!("{}{}\n... (truncated)", "a".repeat(lead), "📅".repeat(whole))
        );
    }
    let three_bytes = "€".repeat(700);
    assert_eq!(limit_reply(three_bytes), format!("{}\n... (truncated)", "€".repeat(633)));
}

#[test]
fn failure_replies_name_what_failed() {
    assert_eq!(failure_reply(Failure::AddMapping, "disk full"), "❌ Failed to add mapping: disk full");
    assert_eq!(failure_reply(Failure::RemoveMapping, "e"), "❌ Failed to remove mapping: e");
    assert_eq!(failure_reply(Failure::ListMappings, "e"), "❌ Failed to list mappings: e");
    assert_eq!(failure_reply(Failure::UpdateDefault, "e"), "❌ Failed to update default settings: e");
    assert_eq!(failure_reply(Failure::LoadConfig, "e"), "❌ Failed to load config: e");
    assert_eq!(
        failure_reply(Failure::CreateDirectory, "e"),
        "❌ Failed to create calendar directory: e"
    );
    assert_eq!(failure_reply(Failure::SaveCalendar, "e"), "❌ Failed to save calendar file: e");
    assert_eq!(failure_reply(Failure::Download, "e"), "❌ Failed to download attachment: e");
    assert_eq!(failure_reply(Failure::RemoveCalendar, ""), "❌ Failed to remove calendar: ");
}

#[test]
fn add_event_mapping_adds_and_answers() {
    let mut c = config(vec![]);
    let answer = add_event_mapping(&mut c, "Standup".to_string(), some("In a meeting"), some("📅"));
    assert!(answer.changed);
    assert_eq!(
        answer.reply,
        "✅ Successfully added/updated mapping for event: `Standup`\nMessage: In a meeting\nEmoji: 📅"
    );
    assert_eq!(c.mappings.mapping.len(), 1);
    assert_eq!(c.mappings.mapping[0].event, "Standup");
    assert_eq!(c.mappings.mapping[0].message, some("In a meeting"));
    assert_eq!(c.mappings.mapping[0].emoji, some("📅"));
}

#[test]
fn add_event_mapping_answers_with_what_was_given() {
    let mut c = config(vec![line("standup", Some("old"), Some("o"))]);
    let answer = add_event_mapping(&mut c, "Standup".to_string(), some("new"), None);
    assert_eq!(
        answer.reply,
        "✅ Successfully added/updated mapping for event: `Standup`\nMessage: new\n"
    );
    assert_eq!(c.mappings.mapping.len(), 1);
    assert_eq!(c.mappings.mapping[0].event, "standup");
    assert_eq!(c.mappings.mapping[0].message, some("new"));
    assert_eq!(c.mappings.mapping[0].emoji, some("o"));
    let answer = add_event_mapping(&mut c, "x".to_string(), None, some("e"));
    assert_eq!(answer.reply, "✅ Successfully added/updated mapping for event: `x`\nEmoji: e");
    let answer = add_event_mapping(&mut c, "y".to_string(), None, None);
    assert_eq!(answer.reply, "✅ Successfully added/updated mapping for event: `y`\n");
    assert!(answer.changed);
    assert_eq!(c.mappings.mapping.len(), 3);
}

#[test]
fn remove_event_mapping_answers_whether_there_was_one() {
    let mut c = config(vec![line("standup", None, None), line("lunch", None, None)]);
    let answer = remove_event_mapping(&mut c, "Standup");
    assert!(answer.changed);
    assert_eq!(answer.reply, "✅ Successfully removed mapping for event: `Standup`");
    assert_eq!(c.mappings.mapping.len(), 1);
    let answer = remove_event_mapping(&mut c, "Standup");
    assert!(!answer.changed);
    assert_eq!(answer.reply, "⚠\u{fe0f} No mapping found for event: `Standup`");
    assert_eq!(c.mappings.mapping.len(), 1);
    assert_eq!(c.mappings.mapping[0].event, "lunch");
}

#[test]
fn list_event_mappings_of_empty_table() {
    assert_eq!(list_event_mappings(&config(vec![])), "📝 No event mappings configured.");
}

#[test]
fn list_event_mappings_shows_each_line() {
    let c = config(vec![
        line("standup", Some("In a meeting"), Some("📅")),
        line("lunch", Some("Eating"), None),
        line("focus", None, Some("🎧")),
        line("bare", None, None),
    ]);
    assert_eq!(
        list_event_mappings(&c),
        "📋 **Current Event Mappings:**\n\n\
         **Event:** `standup`\n  Message: In a meeting\n  Emoji: 📅\n\n\
         **Event:** `lunch`\n  Message: Eating\n\n\
         **Event:** `focus`\n  Emoji: 🎧\n\n\
         **Event:** `bare`\n\n"
    );
}

#[test]
fn list_event_mappings_cuts_a_long_list() {
    let lines: Vec<EventMapping> =
        (0..200).map(|i| line(&format!("event{:03}", i), Some("message"), None)).collect();
    let reply = list_event_mappings(&config(lines));
    let mut whole = String::from("📋 **Current Event Mappings:**\n\n");
    for i in 0..200 {
        whole.push_str(&format!("**Event:** `event{:03}`\n  Message: message\n\n", i));
    }
    assert!(whole.len() > 1900);
    assert_eq!(reply, format!("{}\n... (truncated)", &whole[..1900]));
    assert_eq!(reply.len(), 1900 + 16);
}

#[test]
fn update_default_without_anything_changes_nothing() {
    let mut c = config(vec![]);
    let answer = update_default(&mut c, None, None);
    assert!(!answer.changed);
    assert_eq!(
        answer.reply,
        "⚠\u{fe0f} Please provide at least one parameter (message or emoji) to update."
    );
    assert_eq!(c.mappings.default, Status { message: "Away".to_string(), emoji: "🌙".to_string() });
}

#[test]
fn update_default_replaces_and_answers() {
    let mut c = config(vec![]);
    let answer = update_default(&mut c, some("Gone"), some("🚪"));
    assert!(answer.changed);
    assert_eq!(
        answer.reply,
        "✅ Successfully updated default settings:\nDefault message: Gone\nDefault emoji: 🚪"
    );
    assert_eq!(c.mappings.default, Status { message: "Gone".to_string(), emoji: "🚪".to_string() });
    let answer = update_default(&mut c, some("Back"), None);
    assert_eq!(answer.reply, "✅ Successfully updated default settings:\nDefault message: Back\n");
    assert_eq!(c.mappings.default, Status { message: "Back".to_string(), emoji: "🚪".to_string() });
    let answer = update_default(&mut c, None, some("👋"));
    assert!(answer.changed);
    assert_eq!(answer.reply, "✅ Successfully updated default settings:\nDefault emoji: 👋");
    assert_eq!(c.mappings.default, Status { message: "Back".to_string(), emoji: "👋".to_string() });
}

#[test]
fn show_default_shows_both_parts() {
    assert_eq!(
        show_default(&config(vec![])),
        "⚙\u{fe0f} **Current Default Settings:**\n\nMessage: `Away`\nEmoji: `🌙`"
    );
}

#[test]
fn show_default_notes_an_empty_part() {
    let mut c = config(vec![]);
    c.mappings.default = Status { message: String::new(), emoji: "🌙".to_string() };
    assert_eq!(
        show_default(&c),
        "⚙\u{fe0f} **Current Default Settings:**\n\nMessage: `(none)`\nEmoji: `🌙`"
    );
    c.mappings.default = Status::default();
    assert_eq!(
        show_default(&c),
        "⚙\u{fe0f} **Current Default Settings:**\n\nMessage: `(none)`\nEmoji: `(none)`"
    );
}

#[test]
fn help_names_every_command() {
    let help = help_command();
    assert!(help.starts_with("\n**Calendar2Discord Bot Commands**\n\n"));
    assert!(help.ends_with("customize your status message and emoji.\n"));
    for command in [
        "• `/upload_calendar` - Upload a new .ics calendar file\n",
        "• `/list_calendars` - List all your uploaded calendars\n",
        "• `/remove_calendar` - Remove a calendar file\n",
        "• `/add_event_mapping` - Add or update an event mapping\n",
        "• `/remove_event_mapping` - Remove an event mapping\n",
        "• `/list_event_mappings` - List all current mappings\n",
        "• `/update_default` - Update default message/emoji\n",
        "• `/show_default` - Show current default settings\n",
        "• `/help_command` - Show this help message\n",
    ] {
        assert!(help.contains(command));
    }
    assert_eq!(help.len(), 836);
}
