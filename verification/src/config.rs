//! The mapping table: which calendar event gives which status.

use crate::first::{is_first, lemma_first_true, lemma_first_true_at};
use crate::matching::{
    equal_flags, find_exact, find_mapping, first_exact, index_view, lemma_exact_match_wins,
    lemma_partial_match_needs_no_exact, select,
};
use crate::status::{empty_status, Status, StatusView};
use crate::text::{lowercase, text_of, to_lowercase};
use vstd::prelude::*;

verus! {

/// One line of the mapping table. A field left out falls back to the default
/// status at the moment a title is resolved.
#[derive(Debug)]
pub struct EventMapping {
    pub event: String,
    pub message: Option<String>,
    pub emoji: Option<String>,
}

/// What an [`EventMapping`] holds, as plain texts.
pub struct EventMappingView {
    pub event: Seq<char>,
    pub message: Option<Seq<char>>,
    pub emoji: Option<Seq<char>>,
}

impl View for EventMapping {
    type V = EventMappingView;

    open spec fn view(&self) -> EventMappingView {
        EventMappingView {
            event: self.event@,
            message: text_of(self.message),
            emoji: text_of(self.emoji),
        }
    }
}

fn clone_text(field: &Option<String>) -> (copy: Option<String>)
    ensures
        text_of(copy) == text_of(*field),
{
    match field {
        Some(s) => Some(s.clone()),
        None => None,
    }
}

impl Clone for EventMapping {
    fn clone(&self) -> (copy: Self)
        ensures
            copy@ == self@,
    {
        EventMapping {
            event: self.event.clone(),
            message: clone_text(&self.message),
            emoji: clone_text(&self.emoji),
        }
    }
}

/// The default status and the mapping table, in the order in which the lines
/// were added.
#[derive(Debug)]
pub struct Mappings {
    pub default: Status,
    pub mapping: Vec<EventMapping>,
}

/// What a [`Mappings`] holds, as plain texts.
pub struct MappingsView {
    pub default: StatusView,
    pub mapping: Seq<EventMappingView>,
}

/// The lines of a table, each as plain texts.
pub open spec fn lines_of(table: Seq<EventMapping>) -> Seq<EventMappingView> {
    Seq::new(table.len(), |i: int| table[i]@)
}

impl View for Mappings {
    type V = MappingsView;

    open spec fn view(&self) -> MappingsView {
        MappingsView { default: self.default@, mapping: lines_of(self.mapping@) }
    }
}

/// The credentials for the presence service.
#[derive(Debug)]
pub struct DiscordConfig {
    pub token: String,
}

/// Everything that is configured: the credentials and the mappings.
#[derive(Debug)]
pub struct Config {
    pub discord: DiscordConfig,
    pub mappings: Mappings,
}

/// What a [`Config`] holds, as plain texts.
pub struct ConfigView {
    pub token: Seq<char>,
    pub mappings: MappingsView,
}

impl View for Config {
    type V = ConfigView;

    open spec fn view(&self) -> ConfigView {
        ConfigView { token: self.discord.token@, mappings: self.mappings@ }
    }
}

/// The keys of a table in lower case, in table order.
pub open spec fn lowered_keys(table: Seq<EventMappingView>) -> Seq<Seq<char>> {
    Seq::new(table.len(), |i: int| lowercase(table[i].event))
}

/// The status that a line of the table gives: its own text and icon, and the
/// default's where the line leaves one out.
pub open spec fn status_of_line(line: EventMappingView, default: StatusView) -> StatusView {
    StatusView {
        message: match line.message {
            Some(m) => m,
            None => default.message,
        },
        emoji: match line.emoji {
            Some(e) => e,
            None => default.emoji,
        },
    }
}

/// The status for the line at `choice`, or the default where no line was chosen.
pub open spec fn status_of_choice(
    choice: Option<int>,
    table: Seq<EventMappingView>,
    default: StatusView,
) -> StatusView {
    match choice {
        Some(i) => status_of_line(table[i], default),
        None => default,
    }
}

/// The status that a title resolves to: that of the first line whose key equals
/// the title, case ignored; failing that, of the first line whose key the title
/// contains, case ignored; failing that, the default.
pub open spec fn resolved(
    title: Seq<char>,
    table: Seq<EventMappingView>,
    default: StatusView,
) -> StatusView {
    status_of_choice(select(lowered_keys(table), lowercase(title)), table, default)
}

/// The lower-case keys of the table, in table order.
pub fn lower_keys(table: &Vec<EventMapping>) -> (keys: Vec<String>)
    ensures
        keys.deep_view() == lowered_keys(lines_of(table@)),
{
    let mut keys: Vec<String> = Vec::new();
    let mut i: usize = 0;
    while i < table.len()
        invariant
            i <= table.len(),
            keys.len() == i,
            forall|j: int| 0 <= j < i ==> (#[trigger] keys[j])@ == lowercase(table[j].event@),
        decreases table.len() - i,
    {
        keys.push(to_lowercase(table[i].event.as_str()));
        i += 1;
    }
    assert(keys.deep_view() =~= lowered_keys(lines_of(table@)));
    keys
}

/// The status that the line `line` gives over the default `default`.
pub fn line_status(line: &EventMapping, default: &Status) -> (status: Status)
    ensures
        status@ == status_of_line(line@, default@),
{
    let message = match &line.message {
        Some(m) => m.clone(),
        None => default.message.clone(),
    };
    let emoji = match &line.emoji {
        Some(e) => e.clone(),
        None => default.emoji.clone(),
    };
    Status { message, emoji }
}

/// The status for the line at `choice`, or the default where there is none.
pub fn choice_status(
    choice: Option<usize>,
    table: &Vec<EventMapping>,
    default: &Status,
) -> (status: Status)
    requires
        choice matches Some(i) ==> i < table.len(),
    ensures
        status@ == status_of_choice(index_view(choice), lines_of(table@), default@),
{
    match choice {
        Some(i) => line_status(&table[i], default),
        None => default.clone(),
    }
}

/// Resolves an event title to a status over a mapping table and a default
/// status.
pub fn resolve(title: &str, mappings: &Vec<EventMapping>, default: &Status) -> (status: Status)
    ensures
        status@ == resolved(title@, lines_of(mappings@), default@),
{
    let keys = lower_keys(mappings);
    let lower_title = to_lowercase(title);
    let choice = find_mapping(&keys, lower_title.as_str());
    choice_status(choice, mappings, default)
}

/// The default status of a configuration, which is empty where the
/// configuration could not be had.
pub open spec fn default_of(config: Option<ConfigView>) -> StatusView {
    match config {
        Some(c) => c.mappings.default,
        None => empty_status(),
    }
}

/// The status for a title over a configuration, which is empty where the
/// configuration could not be had.
pub open spec fn status_for(config: Option<ConfigView>, title: Seq<char>) -> StatusView {
    match config {
        Some(c) => resolved(title, c.mappings.mapping, c.mappings.default),
        None => empty_status(),
    }
}

/// The configuration behind an optional reference, as plain texts.
pub open spec fn config_view(config: Option<&Config>) -> Option<ConfigView> {
    match config {
        Some(c) => Some(c@),
        None => None,
    }
}

/// The default status of a configuration; the empty status where the
/// configuration could not be had (`None`).
pub fn default_status(config: Option<&Config>) -> (status: Status)
    ensures
        status@ == default_of(config_view(config)),
{
    match config {
        Some(c) => c.mappings.default.clone(),
        None => Status::default(),
    }
}

/// The status for an event title. Where the configuration could not be had
/// (`None`), the status is empty.
pub fn map_event_to_status(config: Option<&Config>, event_name: &str) -> (status: Status)
    ensures
        status@ == status_for(config_view(config), event_name@),
{
    match config {
        Some(c) => resolve(event_name, &c.mappings.mapping, &c.mappings.default),
        None => Status::default(),
    }
}

/// A line after an update: the key stays, and each of text and icon is
/// replaced where a new one is given.
pub open spec fn updated_line(
    line: EventMappingView,
    message: Option<Seq<char>>,
    emoji: Option<Seq<char>>,
) -> EventMappingView {
    EventMappingView {
        event: line.event,
        message: if message is Some { message } else { line.message },
        emoji: if emoji is Some { emoji } else { line.emoji },
    }
}

/// The table after the line at `at` was updated, or, where `at` is `None`,
/// after a new line was added at the end.
pub open spec fn upserted(
    table: Seq<EventMappingView>,
    at: Option<int>,
    event: Seq<char>,
    message: Option<Seq<char>>,
    emoji: Option<Seq<char>>,
) -> Seq<EventMappingView> {
    match at {
        Some(i) => table.update(i, updated_line(table[i], message, emoji)),
        None => table.push(EventMappingView { event, message, emoji }),
    }
}

/// The table after a mapping for `event` was added: the first line whose key
/// equals `event`, case ignored, is updated; where there is none, a new line
/// is added at the end.
pub open spec fn with_mapping(
    table: Seq<EventMappingView>,
    event: Seq<char>,
    message: Option<Seq<char>>,
    emoji: Option<Seq<char>>,
) -> Seq<EventMappingView> {
    upserted(table, first_exact(lowered_keys(table), lowercase(event)), event, message, emoji)
}

/// Updates the line at `at`, or adds a new line at the end where `at` is `None`.
pub fn upsert_mapping(
    table: &mut Vec<EventMapping>,
    at: Option<usize>,
    event: String,
    message: Option<String>,
    emoji: Option<String>,
)
    requires
        at matches Some(i) ==> i < old(table).len(),
    ensures
        lines_of(final(table)@) == upserted(
            lines_of(old(table)@),
            index_view(at),
            event@,
            text_of(message),
            text_of(emoji),
        ),
{
    match at {
        Some(i) => {
            if let Some(m) = message {
                table[i].message = Some(m);
            }
            if let Some(e) = emoji {
                table[i].emoji = Some(e);
            }
            assert(lines_of(table@) =~= upserted(
                lines_of(old(table)@),
                index_view(at),
                event@,
                text_of(message),
                text_of(emoji),
            ));
        },
        None => {
            table.push(EventMapping { event, message, emoji });
            assert(lines_of(table@) =~= upserted(
                lines_of(old(table)@),
                index_view(at),
                event@,
                text_of(message),
                text_of(emoji),
            ));
        },
    }
}

/// Adds a mapping for `event`, or updates the one that is there.
pub fn add_mapping(
    config: &mut Config,
    event: String,
    message: Option<String>,
    emoji: Option<String>,
)
    ensures
        final(config)@ == (ConfigView {
            mappings: MappingsView {
                mapping: with_mapping(
                    old(config)@.mappings.mapping,
                    event@,
                    text_of(message),
                    text_of(emoji),
                ),
                ..old(config)@.mappings
            },
            ..old(config)@
        }),
{
    let keys = lower_keys(&config.mappings.mapping);
    let wanted = to_lowercase(event.as_str());
    let at = find_exact(&keys, wanted.as_str());
    upsert_mapping(&mut config.mappings.mapping, at, event, message, emoji);
}

/// The lines whose key differs from `wanted`, in table order, where `keys[i]`
/// is the key of `lines[i]`.
pub open spec fn lines_kept(
    lines: Seq<EventMappingView>,
    keys: Seq<Seq<char>>,
    wanted: Seq<char>,
) -> Seq<EventMappingView>
    decreases lines.len(),
{
    if lines.len() == 0 {
        lines
    } else {
        let before = lines_kept(lines.drop_last(), keys.drop_last(), wanted);
        if keys.last() != wanted {
            before.push(lines.last())
        } else {
            before
        }
    }
}

/// Whether a line has a key that differs from `event`, case ignored.
pub open spec fn key_differs(event: Seq<char>) -> spec_fn(EventMappingView) -> bool {
    |line: EventMappingView| lowercase(line.event) != lowercase(event)
}

/// The table without the lines whose key equals `event`, case ignored.
pub open spec fn without_mapping(
    table: Seq<EventMappingView>,
    event: Seq<char>,
) -> Seq<EventMappingView> {
    table.filter(key_differs(event))
}

/// Keeping the lines by their lower-case keys is filtering the table.
pub proof fn lemma_lines_kept_is_filter(table: Seq<EventMappingView>, event: Seq<char>)
    ensures
        lines_kept(table, lowered_keys(table), lowercase(event)) == without_mapping(table, event),
    decreases table.len(),
{
    reveal(Seq::filter);
    if table.len() > 0 {
        lemma_lines_kept_is_filter(table.drop_last(), event);
        assert(lowered_keys(table).drop_last() =~= lowered_keys(table.drop_last()));
    }
}

/// Removes the lines whose key, given in `keys` at the same position, equals
/// `wanted`. Says whether a line was removed.
pub fn remove_keyed(
    table: &mut Vec<EventMapping>,
    keys: &Vec<String>,
    wanted: &str,
) -> (removed: bool)
    requires
        keys.len() == old(table).len(),
    ensures
        lines_of(final(table)@) == lines_kept(lines_of(old(table)@), keys.deep_view(), wanted@),
        removed == (final(table).len() < old(table).len()),
{
    let wanted_text = wanted.to_owned();
    let mut kept: Vec<EventMapping> = Vec::new();
    let ghost lines = lines_of(table@);
    let mut i: usize = 0;
    while i < table.len()
        invariant
            i <= table.len(),
            keys.len() == table.len(),
            wanted_text@ == wanted@,
            lines == lines_of(table@),
            kept.len() <= i,
            lines_of(kept@) == lines_kept(
                lines.take(i as int),
                keys.deep_view().take(i as int),
                wanted@,
            ),
        decreases table.len() - i,
    {
        proof {
            assert(lines.take(i + 1).drop_last() =~= lines.take(i as int));
            assert(keys.deep_view().take(i + 1).drop_last() =~= keys.deep_view().take(i as int));
        }
        let ghost before = kept@;
        if keys[i] != wanted_text {
            kept.push(table[i].clone());
            assert(lines_of(kept@) =~= lines_of(before).push(lines[i as int]));
        }
        i += 1;
    }
    proof {
        assert(lines.take(i as int) =~= lines);
        assert(keys.deep_view().take(i as int) =~= keys.deep_view());
    }
    let removed = kept.len() < table.len();
    *table = kept;
    removed
}

/// Removes every mapping whose key equals `event`, case ignored. Says whether
/// there was one.
pub fn remove_mapping(config: &mut Config, event: &str) -> (removed: bool)
    ensures
        final(config)@ == (ConfigView {
            mappings: MappingsView {
                mapping: without_mapping(old(config)@.mappings.mapping, event@),
                ..old(config)@.mappings
            },
            ..old(config)@
        }),
        removed == (final(config).mappings.mapping.len() < old(config).mappings.mapping.len()),
{
    let keys = lower_keys(&config.mappings.mapping);
    let wanted = to_lowercase(event);
    proof {
        lemma_lines_kept_is_filter(config@.mappings.mapping, event@);
    }
    remove_keyed(&mut config.mappings.mapping, &keys, wanted.as_str())
}

/// The lines of the mapping table, in table order.
pub fn list_mappings(config: &Config) -> (lines: Vec<EventMapping>)
    ensures
        lines_of(lines@) == config@.mappings.mapping,
{
    let table = &config.mappings.mapping;
    let mut lines: Vec<EventMapping> = Vec::new();
    let mut i: usize = 0;
    while i < table.len()
        invariant
            i <= table.len(),
            lines.len() == i,
            forall|j: int| 0 <= j < i ==> (#[trigger] lines[j])@ == table[j]@,
        decreases table.len() - i,
    {
        lines.push(table[i].clone());
        i += 1;
    }
    assert(lines_of(lines@) =~= lines_of(table@));
    lines
}

/// The default status after an update: each of text and icon is replaced
/// where a new one is given.
pub open spec fn updated_default(
    default: StatusView,
    message: Option<Seq<char>>,
    emoji: Option<Seq<char>>,
) -> StatusView {
    StatusView {
        message: match message {
            Some(m) => m,
            None => default.message,
        },
        emoji: match emoji {
            Some(e) => e,
            None => default.emoji,
        },
    }
}

/// Replaces the text, the icon or both of the default status.
pub fn update_default_mapping(config: &mut Config, message: Option<String>, emoji: Option<String>)
    ensures
        final(config)@ == (ConfigView {
            mappings: MappingsView {
                default: updated_default(
                    old(config)@.mappings.default,
                    text_of(message),
                    text_of(emoji),
                ),
                ..old(config)@.mappings
            },
            ..old(config)@
        }),
{
    if let Some(m) = message {
        config.mappings.default.message = m;
    }
    if let Some(e) = emoji {
        config.mappings.default.emoji = e;
    }
}

/// Resolving is repeatable: the same title over the same mappings gives the
/// same status, however often it is asked for.
pub proof fn lemma_resolve_is_repeatable(
    title: &str,
    mappings: Vec<EventMapping>,
    default: Status,
    title_again: &str,
    mappings_again: Vec<EventMapping>,
    default_again: Status,
    first: Status,
    second: Status,
)
    requires
        title@ == title_again@,
        lines_of(mappings@) == lines_of(mappings_again@),
        default@ == default_again@,
        first@ == resolved(title@, lines_of(mappings@), default@),
        second@ == resolved(title_again@, lines_of(mappings_again@), default_again@),
    ensures
        first@ == second@,
{
}

/// Exact matches come first: where the key of some line equals the title,
/// case ignored, the title resolves through the first such line, also where a
/// line before it has a key that the title only contains.
pub proof fn lemma_resolve_prefers_exact(
    title: Seq<char>,
    table: Seq<EventMappingView>,
    default: StatusView,
    at: int,
)
    requires
        0 <= at < table.len(),
        lowercase(table[at].event) == lowercase(title),
    ensures
        exists|i: int|
            0 <= i <= at && is_first(equal_flags(lowered_keys(table), lowercase(title)), i)
                && resolved(title, table, default) == status_of_line(#[trigger] table[i], default),
{
    let keys = lowered_keys(table);
    lemma_exact_match_wins(keys, lowercase(title), at);
    let i = select(keys, lowercase(title))->0;
    assert(resolved(title, table, default) == status_of_line(table[i], default));
}

/// A line that leaves out its text or its icon takes them from the default as
/// it stands when the title is resolved: with another default, the parts that
/// the line leaves out follow, and the parts that it gives stay.
pub proof fn lemma_line_follows_default(line: EventMappingView, default: StatusView)
    ensures
        line.message is None ==> status_of_line(line, default).message == default.message,
        line.emoji is None ==> status_of_line(line, default).emoji == default.emoji,
        line.message matches Some(m) ==> status_of_line(line, default).message == m,
        line.emoji matches Some(e) ==> status_of_line(line, default).emoji == e,
{
}

/// A title resolves through a line whose key it only contains just where no
/// line has a key that equals the title, case ignored.
pub proof fn lemma_resolve_by_part_needs_no_exact(title: Seq<char>, table: Seq<EventMappingView>)
    requires
        select(lowered_keys(table), lowercase(title)) matches Some(i) && 0 <= i < table.len()
            && lowercase(table[i].event) != lowercase(title),
    ensures
        forall|j: int|
            0 <= j < table.len() ==> lowercase((#[trigger] table[j]).event) != lowercase(title),
{
    let keys = lowered_keys(table);
    lemma_partial_match_needs_no_exact(keys, lowercase(title));
    assert forall|j: int| 0 <= j < table.len() implies lowercase((#[trigger] table[j]).event)
        != lowercase(title) by {
        assert(keys[j] != lowercase(title));
    }
}

/// A mapping that was added with a text and an icon is what its event
/// resolves to from then on, whatever the table held before.
pub proof fn lemma_added_mapping_resolves(
    table: Seq<EventMappingView>,
    default: StatusView,
    event: Seq<char>,
    message: Seq<char>,
    emoji: Seq<char>,
)
    ensures
        resolved(event, with_mapping(table, event, Some(message), Some(emoji)), default) == (
        StatusView { message, emoji }),
{
    let keys = lowered_keys(table);
    let wanted = lowercase(event);
    let after = with_mapping(table, event, Some(message), Some(emoji));
    let flags = equal_flags(keys, wanted);
    lemma_first_true(flags);
    match first_exact(keys, wanted) {
        Some(i) => {
            assert(lowered_keys(after) =~= keys);
        },
        None => {
            let last = table.len() as int;
            let flags_after = equal_flags(lowered_keys(after), wanted);
            assert forall|j: int| 0 <= j < last implies !flags_after[j] by {
                assert(!flags[j]);
                assert(after[j] == table[j]);
            }
            assert(flags_after[last]);
            lemma_first_true_at(flags_after, last);
        },
    }
}

/// After the mappings for an event were removed, no line of the table has a
/// key that equals the event, case ignored, and every line that is left was
/// there before.
pub proof fn lemma_removed_mapping_is_gone(table: Seq<EventMappingView>, event: Seq<char>)
    ensures
        forall|j: int|
            0 <= j < without_mapping(table, event).len() ==> lowercase(
                (#[trigger] without_mapping(table, event)[j]).event,
            ) != lowercase(event) && table.contains(without_mapping(table, event)[j]),
        without_mapping(table, event).len() <= table.len(),
{
    let left = without_mapping(table, event);
    table.lemma_filter_len(key_differs(event));
    assert forall|j: int| 0 <= j < left.len() implies lowercase((#[trigger] left[j]).event)
        != lowercase(event) && table.contains(left[j]) by {
        table.lemma_filter_pred(key_differs(event), j);
        assert(left.contains(left[j]));
        table.lemma_filter_contains_rev(key_differs(event), left[j]);
    }
}

} // verus!
