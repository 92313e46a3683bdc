//! The calendar files of a user: how they are named, where they are kept, and
//! what the commands that list and remove them answer.

use crate::commands::{limit_reply, limited};
use crate::text::{
    alphanumeric, decimal, decimal_text, ends_with, is_alphanumeric, is_suffix, push_char, text_of,
};
use vstd::prelude::*;
use vstd::std_specs::iter::IteratorSpec;
use vstd::string::StringExecFns;

verus! {

/// Bytes in a kilobyte, as file sizes are shown.
pub const BYTES_PER_KILOBYTE: u64 = 1024;

/// The name ends in `.ics`.
pub open spec fn calendar_file_name(name: Seq<char>) -> bool {
    is_suffix(".ics"@, name)
}

/// Whether a file name ends in `.ics`.
pub fn is_calendar_file_name(name: &str) -> (yes: bool)
    ensures
        yes == calendar_file_name(name@),
{
    ends_with(name, ".ics")
}

/// The characters at the positions that `keep` marks, in their order.
pub open spec fn kept_chars(chars: Seq<char>, keep: Seq<bool>) -> Seq<char>
    decreases chars.len(),
{
    if chars.len() == 0 {
        chars
    } else {
        let before = kept_chars(chars.drop_last(), keep.drop_last());
        if keep.last() {
            before.push(chars.last())
        } else {
            before
        }
    }
}

/// Keeps the characters of `name` at the positions that `keep` marks.
pub fn keep_chars(name: &str, keep: &Vec<bool>) -> (kept: String)
    requires
        keep.len() == name@.len(),
    ensures
        kept@ == kept_chars(name@, keep@),
{
    let mut kept = String::new();
    let mut i: usize = 0;
    for c in it: name.chars()
        invariant
            it.seq() == name@,
            keep.len() == name@.len(),
            i == it.index(),
            kept@ == kept_chars(name@.take(i as int), keep@.take(i as int)),
    {
        proof {
            assert(name@.take(i + 1).drop_last() =~= name@.take(i as int));
            assert(keep@.take(i + 1).drop_last() =~= keep@.take(i as int));
        }
        if keep[i] {
            push_char(&mut kept, c);
        }
        i += 1;
    }
    proof {
        assert(name@.take(i as int) =~= name@);
        assert(keep@.take(i as int) =~= keep@);
    }
    kept
}

/// A character that may stand in the name of a calendar: a letter, a number,
/// an underscore or a hyphen.
pub open spec fn allowed_in_name(c: char) -> bool {
    alphanumeric(c) || c == '_' || c == '-'
}

/// For each character, whether it may stand in the name of a calendar.
pub open spec fn allowed_flags(name: Seq<char>) -> Seq<bool> {
    Seq::new(name.len(), |i: int| allowed_in_name(name[i]))
}

/// A name without the characters that may not stand in the name of a calendar.
pub open spec fn sanitized(name: Seq<char>) -> Seq<char> {
    name.filter(|c: char| allowed_in_name(c))
}

/// A sanitized name holds allowed characters only, and no more characters
/// than the name it was made from.
pub proof fn lemma_sanitized_is_clean(name: Seq<char>)
    ensures
        forall|i: int|
            0 <= i < sanitized(name).len() ==> allowed_in_name(#[trigger] sanitized(name)[i]),
        sanitized(name).len() <= name.len(),
{
    let allowed = |c: char| allowed_in_name(c);
    name.lemma_filter_len(allowed);
    assert forall|i: int| 0 <= i < sanitized(name).len() implies allowed_in_name(
        #[trigger] sanitized(name)[i],
    ) by {
        name.lemma_filter_pred(allowed, i);
    }
}

/// Keeping the allowed characters by their flags is filtering the name.
pub proof fn lemma_kept_chars_is_filter(name: Seq<char>)
    ensures
        kept_chars(name, allowed_flags(name)) == sanitized(name),
    decreases name.len(),
{
    reveal(Seq::filter);
    if name.len() > 0 {
        lemma_kept_chars_is_filter(name.drop_last());
        assert(allowed_flags(name).drop_last() =~= allowed_flags(name.drop_last()));
    }
}

/// Drops from a name every character that is no letter, number, underscore or
/// hyphen.
pub fn sanitize_calendar_name(name: &str) -> (clean: String)
    ensures
        clean@ == sanitized(name@),
{
    let mut keep: Vec<bool> = Vec::new();
    for c in it: name.chars()
        invariant
            it.seq() == name@,
            keep.len() == it.index(),
            forall|j: int| 0 <= j < keep.len() ==> keep[j] == allowed_in_name(name@[j]),
    {
        keep.push(is_alphanumeric(c) || c == '_' || c == '-');
    }
    proof {
        assert(keep@ =~= allowed_flags(name@));
        lemma_kept_chars_is_filter(name@);
    }
    keep_chars(name, &keep)
}

/// The directory that holds the calendar files of a user.
pub open spec fn directory_of(user_id: u64) -> Seq<char> {
    "calendars/"@ + decimal(user_id as nat)
}

/// The directory that holds the calendar files of a user.
pub fn user_calendar_dir(user_id: u64) -> (dir: String)
    ensures
        dir@ == directory_of(user_id),
{
    let mut dir = String::from_str("calendars/");
    let id = decimal_text(user_id);
    dir.append(id.as_str());
    dir
}

/// Where a calendar file of a user is kept.
pub open spec fn path_of(user_id: u64, file_name: Seq<char>) -> Seq<char> {
    directory_of(user_id) + "/"@ + file_name
}

/// Where a calendar file of a user is kept.
pub fn calendar_file_path(user_id: u64, file_name: &str) -> (path: String)
    ensures
        path@ == path_of(user_id, file_name@),
{
    let mut path = user_calendar_dir(user_id);
    path.append("/");
    path.append(file_name);
    path
}

/// A file in the directory of a user: its name, the extension of its name,
/// and its size in bytes where that is known.
#[derive(Debug)]
pub struct DirectoryEntry {
    pub name: String,
    pub extension: Option<String>,
    pub size: Option<u64>,
}

/// What a [`DirectoryEntry`] holds, with the texts as plain texts.
pub struct DirectoryEntryView {
    pub name: Seq<char>,
    pub extension: Option<Seq<char>>,
    pub size: Option<u64>,
}

impl View for DirectoryEntry {
    type V = DirectoryEntryView;

    open spec fn view(&self) -> DirectoryEntryView {
        DirectoryEntryView {
            name: self.name@,
            extension: text_of(self.extension),
            size: self.size,
        }
    }
}

/// The entries of a directory listing, each with its texts as plain texts.
pub open spec fn listing_of(entries: Seq<DirectoryEntry>) -> Seq<DirectoryEntryView> {
    Seq::new(entries.len(), |i: int| entries[i]@)
}

/// The file is a calendar file: the extension of its name is `ics`.
pub open spec fn is_calendar(entry: DirectoryEntryView) -> bool {
    entry.extension == Some("ics"@)
}

/// `text`, followed by the line that lists `entry` where it is a calendar
/// file: its name, and its size in whole kilobytes where that is known.
pub open spec fn with_entry(text: Seq<char>, entry: DirectoryEntryView) -> Seq<char> {
    if is_calendar(entry) {
        match entry.size {
            Some(size) => text + "• `"@ + entry.name + "` ("@ + decimal(
                (size / BYTES_PER_KILOBYTE) as nat,
            ) + " KB)\n"@,
            None => text + "• `"@ + entry.name + "`\n"@,
        }
    } else {
        text
    }
}

/// `text`, followed by the lines that list the calendar files among `entries`.
pub open spec fn with_entries(text: Seq<char>, entries: Seq<DirectoryEntryView>) -> Seq<char>
    decreases entries.len(),
{
    if entries.len() == 0 {
        text
    } else {
        with_entry(with_entries(text, entries.drop_last()), entries.last())
    }
}

/// One of the files is a calendar file.
pub open spec fn has_calendar(entries: Seq<DirectoryEntryView>) -> bool {
    exists|i: int| 0 <= i < entries.len() && is_calendar(#[trigger] entries[i])
}

/// The answer that lists the calendar files of a user. `None` stands for a
/// directory that could not be read.
pub open spec fn calendars_text(entries: Option<Seq<DirectoryEntryView>>) -> Seq<char> {
    match entries {
        None => "📅 No calendar directory found. Use `/upload_calendar` to add your first calendar!"@,
        Some(list) => if has_calendar(list) {
            limited(with_entries("📅 **Your Uploaded Calendars:**\n\n"@, list))
        } else {
            "📅 No calendar files found. Use `/upload_calendar` to add one!"@
        },
    }
}

/// Whether a file of the directory is a calendar file.
pub fn is_calendar_entry(entry: &DirectoryEntry) -> (yes: bool)
    ensures
        yes == is_calendar(entry@),
{
    match &entry.extension {
        Some(extension) => {
            let wanted = String::from_str("ics");
            *extension == wanted
        },
        None => false,
    }
}

/// The entries behind an optional reference to a directory listing.
pub open spec fn listing_view(
    entries: Option<&Vec<DirectoryEntry>>,
) -> Option<Seq<DirectoryEntryView>> {
    match entries {
        Some(entries) => Some(listing_of(entries@)),
        None => None,
    }
}

/// Lists the calendar files of a user, in the order of the directory listing.
/// `None` stands for a directory that could not be read.
pub fn list_calendars(entries: Option<&Vec<DirectoryEntry>>) -> (reply: String)
    ensures
        reply@ == calendars_text(listing_view(entries)),
{
    let list = match entries {
        Some(list) => list,
        None => {
            return String::from_str(
                "📅 No calendar directory found. Use `/upload_calendar` to add your first calendar!",
            );
        },
    };
    let ghost head = "📅 **Your Uploaded Calendars:**\n\n"@;
    let mut reply = String::from_str("📅 **Your Uploaded Calendars:**\n\n");
    let mut found = false;
    let mut i: usize = 0;
    while i < list.len()
        invariant
            i <= list.len(),
            entries == Some(list),
            reply@ == with_entries(head, listing_of(list@).take(i as int)),
            found == has_calendar(listing_of(list@).take(i as int)),
        decreases list.len() - i,
    {
        proof {
            let before = listing_of(list@).take(i as int);
            let after = listing_of(list@).take(i + 1);
            assert(after.drop_last() =~= before);
            if has_calendar(before) {
                let j = choose|j: int| 0 <= j < before.len() && is_calendar(#[trigger] before[j]);
                assert(is_calendar(after[j]));
            }
            if has_calendar(after) && !is_calendar(list@[i as int]@) {
                let j = choose|j: int| 0 <= j < after.len() && is_calendar(#[trigger] after[j]);
                assert(is_calendar(before[j]));
            }
            if is_calendar(list@[i as int]@) {
                assert(is_calendar(after[i as int]));
            }
        }
        let entry: &DirectoryEntry = &list[i];
        if is_calendar_entry(entry) {
            found = true;
            reply.append("• `");
            reply.append(entry.name.as_str());
            match entry.size {
                Some(size) => {
                    reply.append("` (");
                    let kilobytes = decimal_text(size / BYTES_PER_KILOBYTE);
                    reply.append(kilobytes.as_str());
                    reply.append(" KB)\n");
                },
                None => {
                    reply.append("`\n");
                },
            }
        }
        i += 1;
    }
    proof {
        assert(listing_of(list@).take(i as int) =~= listing_of(list@));
    }
    if !found {
        return String::from_str("📅 No calendar files found. Use `/upload_calendar` to add one!");
    }
    limit_reply(reply)
}

/// How the removal of a calendar file ended.
#[derive(Debug)]
pub enum Removal {
    /// The name does not end in `.ics`; nothing was tried.
    NotCalendarFile,
    /// The file is gone.
    Removed,
    /// There was no such file.
    NotFound,
    /// The file could not be removed.
    Failed(String),
}

/// What a [`Removal`] holds, with the text as plain text.
pub enum RemovalView {
    NotCalendarFile,
    Removed,
    NotFound,
    Failed(Seq<char>),
}

impl View for Removal {
    type V = RemovalView;

    open spec fn view(&self) -> RemovalView {
        match *self {
            Removal::NotCalendarFile => RemovalView::NotCalendarFile,
            Removal::Removed => RemovalView::Removed,
            Removal::NotFound => RemovalView::NotFound,
            Removal::Failed(error) => RemovalView::Failed(error@),
        }
    }
}

/// The path of the calendar file to remove, where the name ends in `.ics`.
pub fn removal_target(user_id: u64, file_name: &str) -> (path: Option<String>)
    ensures
        match path {
            Some(p) => calendar_file_name(file_name@) && p@ == path_of(user_id, file_name@),
            None => !calendar_file_name(file_name@),
        },
{
    if is_calendar_file_name(file_name) {
        Some(calendar_file_path(user_id, file_name))
    } else {
        None
    }
}

/// The answer after the removal of a calendar file was asked for.
pub open spec fn removal_text(file_name: Seq<char>, removal: RemovalView) -> Seq<char> {
    match removal {
        RemovalView::NotCalendarFile => "❌ Please specify a calendar filename with the .ics extension."@,
        RemovalView::Removed => "✅ Successfully removed calendar `"@ + file_name + "`"@,
        RemovalView::NotFound => "⚠️ Calendar file `"@ + file_name + "` not found."@,
        RemovalView::Failed(error) => "❌ Failed to remove calendar: "@ + error,
    }
}

/// The answer after the removal of a calendar file was asked for.
pub fn remove_calendar(file_name: &str, removal: &Removal) -> (reply: String)
    ensures
        reply@ == removal_text(file_name@, removal@),
{
    match removal {
        Removal::NotCalendarFile => String::from_str(
            "❌ Please specify a calendar filename with the .ics extension.",
        ),
        Removal::Removed => {
            let mut reply = String::from_str("✅ Successfully removed calendar `");
            reply.append(file_name);
            reply.append("`");
            reply
        },
        Removal::NotFound => {
            let mut reply = String::from_str("⚠️ Calendar file `");
            reply.append(file_name);
            reply.append("` not found.");
            reply
        },
        Removal::Failed(error) => {
            let mut reply = String::from_str("❌ Failed to remove calendar: ");
            reply.append(error.as_str());
            reply
        },
    }
}

} // verus!
