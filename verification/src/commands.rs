//! The commands that edit and show the mappings: what each one changes and
//! what it answers.

use crate::config::{
    add_mapping, remove_mapping, update_default_mapping, updated_default, with_mapping,
    without_mapping, Config, ConfigView, EventMapping, EventMappingView, MappingsView,
};
use crate::status::StatusView;
use crate::text::text_of;
use vstd::prelude::*;
use vstd::string::{StringExecFns, StringSliceAdditionalSpecFns};
use vstd::utf8::{
    decode_utf8, encode_utf8, encode_utf8_decode_utf8, encode_utf8_valid_utf8, is_char_boundary,
    is_char_boundary_start_end_of_seq, valid_utf8,
};

verus! {

/// The longest answer, in bytes, that is sent as it is.
pub const REPLY_LIMIT: usize = 1900;

/// `cut` is the last place at or before `limit` at which `bytes` can be cut
/// between two characters.
pub open spec fn is_cut(bytes: Seq<u8>, limit: int, cut: int) -> bool {
    &&& 0 <= cut <= limit
    &&& is_char_boundary(bytes, cut)
    &&& forall|i: int| cut < i <= limit ==> !is_char_boundary(bytes, i)
}

/// The last place at or before `limit` at which `bytes` can be cut between
/// two characters.
pub open spec fn cut_point(bytes: Seq<u8>, limit: int) -> int {
    choose|cut: int| is_cut(bytes, limit, cut)
}

/// What marks an answer that was cut.
pub open spec fn cut_mark() -> Seq<char> {
    "\n... (truncated)"@
}

/// An answer as it is sent: whole where its UTF-8 form has no more bytes than
/// the limit; else cut at the last character that ends at or before the
/// limit, and marked.
pub open spec fn limited(reply: Seq<char>) -> Seq<char> {
    let bytes = encode_utf8(reply);
    if bytes.len() <= REPLY_LIMIT {
        reply
    } else {
        decode_utf8(bytes.subrange(0, cut_point(bytes, REPLY_LIMIT as int))) + cut_mark()
    }
}

/// Cuts an answer that is longer than the limit, and marks it.
pub fn limit_reply(reply: String) -> (sent: String)
    ensures
        sent@ == limited(reply@),
{
    let ghost bytes = encode_utf8(reply@);
    let text = reply.as_str();
    if text.as_bytes().len() <= REPLY_LIMIT {
        return reply;
    }
    proof {
        encode_utf8_valid_utf8(reply@);
        is_char_boundary_start_end_of_seq(bytes);
    }
    let mut cut: usize = REPLY_LIMIT;
    while !text.is_char_boundary(cut)
        invariant
            cut <= REPLY_LIMIT,
            REPLY_LIMIT < bytes.len(),
            bytes == text.spec_bytes(),
            valid_utf8(bytes),
            is_char_boundary(bytes, 0),
            forall|i: int| cut < i <= REPLY_LIMIT ==> !is_char_boundary(bytes, i),
        decreases cut,
    {
        cut -= 1;
    }
    let (head, _) = text.split_at(cut);
    let mut sent = head.to_owned();
    sent.append("\n... (truncated)");
    proof {
        assert(is_cut(bytes, REPLY_LIMIT as int, cut as int));
        let chosen = cut_point(bytes, REPLY_LIMIT as int);
        assert(is_cut(bytes, REPLY_LIMIT as int, chosen));
        assert(chosen == cut);
        encode_utf8_decode_utf8(head@);
    }
    sent
}

/// `text`, followed by `label`, the value and `end` where there is a value.
pub open spec fn with_part(
    text: Seq<char>,
    label: Seq<char>,
    value: Option<Seq<char>>,
    end: Seq<char>,
) -> Seq<char> {
    match value {
        Some(v) => text + label + v + end,
        None => text,
    }
}

fn add_part(text: &mut String, label: &str, value: &Option<String>, end: &str)
    ensures
        final(text)@ == with_part(old(text)@, label@, text_of(*value), end@),
{
    match value {
        Some(v) => {
            text.append(label);
            text.append(v.as_str());
            text.append(end);
        },
        None => {},
    }
}

/// What failed.
#[derive(Debug, Clone, Copy, PartialEq, Eq, Structural)]
pub enum Failure {
    AddMapping,
    RemoveMapping,
    ListMappings,
    UpdateDefault,
    LoadConfig,
    CreateDirectory,
    SaveCalendar,
    Download,
    RemoveCalendar,
}

/// How a failure is named in an answer.
pub open spec fn failure_name(failure: Failure) -> Seq<char> {
    match failure {
        Failure::AddMapping => "add mapping"@,
        Failure::RemoveMapping => "remove mapping"@,
        Failure::ListMappings => "list mappings"@,
        Failure::UpdateDefault => "update default settings"@,
        Failure::LoadConfig => "load config"@,
        Failure::CreateDirectory => "create calendar directory"@,
        Failure::SaveCalendar => "save calendar file"@,
        Failure::Download => "download attachment"@,
        Failure::RemoveCalendar => "remove calendar"@,
    }
}

/// The answer to a command that failed for the reason `error`.
pub open spec fn failure_text(failure: Failure, error: Seq<char>) -> Seq<char> {
    "❌ Failed to "@ + failure_name(failure) + ": "@ + error
}

/// The answer to a command that failed for the reason `error`.
pub fn failure_reply(failure: Failure, error: &str) -> (reply: String)
    ensures
        reply@ == failure_text(failure, error@),
{
    let mut reply = String::from_str("❌ Failed to ");
    reply.append(
        match failure {
            Failure::AddMapping => "add mapping",
            Failure::RemoveMapping => "remove mapping",
            Failure::ListMappings => "list mappings",
            Failure::UpdateDefault => "update default settings",
            Failure::LoadConfig => "load config",
            Failure::CreateDirectory => "create calendar directory",
            Failure::SaveCalendar => "save calendar file",
            Failure::Download => "download attachment",
            Failure::RemoveCalendar => "remove calendar",
        },
    );
    reply.append(": ");
    reply.append(error);
    reply
}

/// What a command answers, and whether it changed the configuration, which
/// then has to be stored.
#[derive(Debug)]
pub struct Answer {
    pub reply: String,
    pub changed: bool,
}

/// The answer after a mapping was added or updated.
pub open spec fn added_text(
    event: Seq<char>,
    message: Option<Seq<char>>,
    emoji: Option<Seq<char>>,
) -> Seq<char> {
    with_part(
        with_part(
            "✅ Successfully added/updated mapping for event: `"@ + event + "`\n"@,
            "Message: "@,
            message,
            "\n"@,
        ),
        "Emoji: "@,
        emoji,
        Seq::empty(),
    )
}

/// Adds a mapping for `event`, or updates the one that is there, and answers
/// with what was given.
pub fn add_event_mapping(
    config: &mut Config,
    event: String,
    message: Option<String>,
    emoji: Option<String>,
) -> (answer: Answer)
    ensures
        final(config)@ == (ConfigView {
            mappings: MappingsView {
                mapping: with_mapping(
                    old(config)@.mappings.mapping,
                    event@,
                    text_of(message),
                    text_of(emoji),
                ),
                ..old(config)@.mappings
            },
            ..old(config)@
        }),
        answer.changed,
        answer.reply@ == added_text(event@, text_of(message), text_of(emoji)),
{
    let mut reply = String::from_str("✅ Successfully added/updated mapping for event: `");
    reply.append(event.as_str());
    reply.append("`\n");
    add_part(&mut reply, "Message: ", &message, "\n");
    add_part(&mut reply, "Emoji: ", &emoji, "");
    proof {
        reveal_strlit("");
        assert(""@ =~= Seq::<char>::empty());
    }
    add_mapping(config, event, message, emoji);
    Answer { reply, changed: true }
}

/// The answer after the mappings for `event` were removed, or none was found.
pub open spec fn removed_text(event: Seq<char>, removed: bool) -> Seq<char> {
    if removed {
        "✅ Successfully removed mapping for event: `"@ + event + "`"@
    } else {
        "⚠️ No mapping found for event: `"@ + event + "`"@
    }
}

/// Removes every mapping whose key equals `event`, case ignored, and answers
/// whether there was one.
pub fn remove_event_mapping(config: &mut Config, event: &str) -> (answer: Answer)
    ensures
        final(config)@ == (ConfigView {
            mappings: MappingsView {
                mapping: without_mapping(old(config)@.mappings.mapping, event@),
                ..old(config)@.mappings
            },
            ..old(config)@
        }),
        answer.changed == (final(config).mappings.mapping.len() < old(
            config,
        ).mappings.mapping.len()),
        answer.reply@ == removed_text(event@, answer.changed),
{
    let removed = remove_mapping(config, event);
    let mut reply = if removed {
        String::from_str("✅ Successfully removed mapping for event: `")
    } else {
        String::from_str("⚠️ No mapping found for event: `")
    };
    reply.append(event);
    reply.append("`");
    Answer { reply, changed: removed }
}

/// `text`, followed by what the list of mappings shows of one line.
pub open spec fn with_line(text: Seq<char>, line: EventMappingView) -> Seq<char> {
    with_part(
        with_part(
            text + "**Event:** `"@ + line.event + "`\n"@,
            "  Message: "@,
            line.message,
            "\n"@,
        ),
        "  Emoji: "@,
        line.emoji,
        "\n"@,
    ) + "\n"@
}

/// `text`, followed by what the list of mappings shows of each line.
pub open spec fn with_lines(text: Seq<char>, lines: Seq<EventMappingView>) -> Seq<char>
    decreases lines.len(),
{
    if lines.len() == 0 {
        text
    } else {
        with_line(with_lines(text, lines.drop_last()), lines.last())
    }
}

/// The answer that lists the mappings.
pub open spec fn listed_text(lines: Seq<EventMappingView>) -> Seq<char> {
    if lines.len() == 0 {
        "📝 No event mappings configured."@
    } else {
        limited(with_lines("📋 **Current Event Mappings:**\n\n"@, lines))
    }
}

/// Lists the mappings in table order.
pub fn list_event_mappings(config: &Config) -> (reply: String)
    ensures
        reply@ == listed_text(config@.mappings.mapping),
{
    let table = &config.mappings.mapping;
    if table.len() == 0 {
        return String::from_str("📝 No event mappings configured.");
    }
    let ghost lines = config@.mappings.mapping;
    let ghost head = "📋 **Current Event Mappings:**\n\n"@;
    let mut reply = String::from_str("📋 **Current Event Mappings:**\n\n");
    let mut i: usize = 0;
    while i < table.len()
        invariant
            i <= table.len(),
            table == &config.mappings.mapping,
            lines == config@.mappings.mapping,
            reply@ == with_lines(head, lines.take(i as int)),
        decreases table.len() - i,
    {
        proof {
            assert(lines.take(i + 1).drop_last() =~= lines.take(i as int));
            assert(lines.take(i + 1).last() == table[i as int]@);
        }
        let line: &EventMapping = &table[i];
        reply.append("**Event:** `");
        reply.append(line.event.as_str());
        reply.append("`\n");
        add_part(&mut reply, "  Message: ", &line.message, "\n");
        add_part(&mut reply, "  Emoji: ", &line.emoji, "\n");
        reply.append("\n");
        i += 1;
    }
    proof {
        assert(lines.take(i as int) =~= lines);
    }
    limit_reply(reply)
}

/// The answer after the default status was updated.
pub open spec fn default_updated_text(
    message: Option<Seq<char>>,
    emoji: Option<Seq<char>>,
) -> Seq<char> {
    if message is None && emoji is None {
        "⚠️ Please provide at least one parameter (message or emoji) to update."@
    } else {
        with_part(
            with_part(
                "✅ Successfully updated default settings:\n"@,
                "Default message: "@,
                message,
                "\n"@,
            ),
            "Default emoji: "@,
            emoji,
            Seq::empty(),
        )
    }
}

/// Replaces the text, the icon or both of the default status. With neither
/// given, nothing changes and the answer asks for one.
pub fn update_default(
    config: &mut Config,
    message: Option<String>,
    emoji: Option<String>,
) -> (answer: Answer)
    ensures
        final(config)@ == (ConfigView {
            mappings: MappingsView {
                default: updated_default(
                    old(config)@.mappings.default,
                    text_of(message),
                    text_of(emoji),
                ),
                ..old(config)@.mappings
            },
            ..old(config)@
        }),
        answer.changed == (message is Some || emoji is Some),
        answer.reply@ == default_updated_text(text_of(message), text_of(emoji)),
{
    if message.is_none() && emoji.is_none() {
        return Answer {
            reply: String::from_str(
                "⚠️ Please provide at least one parameter (message or emoji) to update.",
            ),
            changed: false,
        };
    }
    let mut reply = String::from_str("✅ Successfully updated default settings:\n");
    add_part(&mut reply, "Default message: ", &message, "\n");
    add_part(&mut reply, "Default emoji: ", &emoji, "");
    proof {
        reveal_strlit("");
        assert(""@ =~= Seq::<char>::empty());
    }
    update_default_mapping(config, message, emoji);
    Answer { reply, changed: true }
}

/// A part of the default status as it is shown: itself, or a note that there
/// is none.
pub open spec fn shown_part(part: Seq<char>) -> Seq<char> {
    if part.len() == 0 {
        "(none)"@
    } else {
        part
    }
}

/// The answer that shows the default status.
pub open spec fn default_text(default: StatusView) -> Seq<char> {
    "⚙️ **Current Default Settings:**\n\nMessage: `"@ + shown_part(default.message)
        + "`\nEmoji: `"@ + shown_part(default.emoji) + "`"@
}

/// Shows the default status.
pub fn show_default(config: &Config) -> (reply: String)
    ensures
        reply@ == default_text(config@.mappings.default),
{
    let default = &config.mappings.default;
    let mut reply = String::from_str("⚙️ **Current Default Settings:**\n\nMessage: `");
    if default.message.as_str().is_empty() {
        reply.append("(none)");
    } else {
        reply.append(default.message.as_str());
    }
    reply.append("`\nEmoji: `");
    if default.emoji.as_str().is_empty() {
        reply.append("(none)");
    } else {
        reply.append(default.emoji.as_str());
    }
    reply.append("`");
    reply
}

/// The overview of the commands.
pub open spec fn help_text() -> Seq<char> {
    "\n**Calendar2Discord Bot Commands**\n\n**Calendar Management Commands:**\n• `/upload_calendar` - Upload a new .ics calendar file\n• `/list_calendars` - List all your uploaded calendars\n• `/remove_calendar` - Remove a calendar file\n\n**Event Mapping Commands:**\n• `/add_event_mapping` - Add or update an event mapping\n• `/remove_event_mapping` - Remove an event mapping\n• `/list_event_mappings` - List all current mappings\n\n**Default Settings Commands:**\n• `/update_default` - Update default message/emoji\n• `/show_default` - Show current default settings\n\n**General:**\n• `/help_command` - Show this help message\n\n**How it works:**\nThe bot automatically checks your calendar and sets your Discord status based on current events. You can configure mappings for specific event names to customize your status message and emoji.\n"@
}

/// Gives an overview of the commands.
pub fn help_command() -> (reply: String)
    ensures
        reply@ == help_text(),
{
    String::from_str(
        "\n**Calendar2Discord Bot Commands**\n\n**Calendar Management Commands:**\n• `/upload_calendar` - Upload a new .ics calendar file\n• `/list_calendars` - List all your uploaded calendars\n• `/remove_calendar` - Remove a calendar file\n\n**Event Mapping Commands:**\n• `/add_event_mapping` - Add or update an event mapping\n• `/remove_event_mapping` - Remove an event mapping\n• `/list_event_mappings` - List all current mappings\n\n**Default Settings Commands:**\n• `/update_default` - Update default message/emoji\n• `/show_default` - Show current default settings\n\n**General:**\n• `/help_command` - Show this help message\n\n**How it works:**\nThe bot automatically checks your calendar and sets your Discord status based on current events. You can configure mappings for specific event names to customize your status message and emoji.\n",
    )
}

} // verus!
