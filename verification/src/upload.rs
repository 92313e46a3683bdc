//! Storing a calendar file that a user sends: the checks it has to pass, the
//! order of the steps, and the answers.

use crate::files::{
    calendar_file_name, calendar_file_path, directory_of, is_calendar_file_name, path_of,
    sanitize_calendar_name, sanitized, user_calendar_dir,
};
use crate::text::{contains, is_substring, slice_text, text_of, utf8_text};
use vstd::prelude::*;
use vstd::string::{StringExecFns, StringSliceAdditionalSpecFns};
use vstd::utf8::{decode_utf8, encode_utf8_decode_utf8, valid_utf8};

verus! {

/// Why a calendar file was not stored.
#[derive(Debug)]
pub enum UploadProblem {
    /// The name of the file that was sent does not end in `.ics`.
    NotCalendarFile,
    /// The directory of the user could not be made.
    DirectoryFailed(String),
    /// Nothing is left of the name that was asked for.
    InvalidName,
    /// A file of this name is there already.
    AlreadyExists(String),
    /// The file could not be fetched.
    DownloadFailed(String),
    /// The file is no UTF-8 text.
    BadEncoding,
    /// The file holds no calendar.
    NotCalendar,
    /// The file could not be written.
    SaveFailed(String),
}

/// What an [`UploadProblem`] holds, with the texts as plain texts.
pub enum UploadProblemView {
    NotCalendarFile,
    DirectoryFailed(Seq<char>),
    InvalidName,
    AlreadyExists(Seq<char>),
    DownloadFailed(Seq<char>),
    BadEncoding,
    NotCalendar,
    SaveFailed(Seq<char>),
}

impl View for UploadProblem {
    type V = UploadProblemView;

    open spec fn view(&self) -> UploadProblemView {
        match *self {
            UploadProblem::NotCalendarFile => UploadProblemView::NotCalendarFile,
            UploadProblem::DirectoryFailed(error) => UploadProblemView::DirectoryFailed(error@),
            UploadProblem::InvalidName => UploadProblemView::InvalidName,
            UploadProblem::AlreadyExists(name) => UploadProblemView::AlreadyExists(name@),
            UploadProblem::DownloadFailed(error) => UploadProblemView::DownloadFailed(error@),
            UploadProblem::BadEncoding => UploadProblemView::BadEncoding,
            UploadProblem::NotCalendar => UploadProblemView::NotCalendar,
            UploadProblem::SaveFailed(error) => UploadProblemView::SaveFailed(error@),
        }
    }
}

impl PartialEq for UploadProblem {
    fn eq(&self, other: &Self) -> (equal: bool) {
        match (self, other) {
            (UploadProblem::NotCalendarFile, UploadProblem::NotCalendarFile) => true,
            (UploadProblem::DirectoryFailed(a), UploadProblem::DirectoryFailed(b)) => *a == *b,
            (UploadProblem::InvalidName, UploadProblem::InvalidName) => true,
            (UploadProblem::AlreadyExists(a), UploadProblem::AlreadyExists(b)) => *a == *b,
            (UploadProblem::DownloadFailed(a), UploadProblem::DownloadFailed(b)) => *a == *b,
            (UploadProblem::BadEncoding, UploadProblem::BadEncoding) => true,
            (UploadProblem::NotCalendar, UploadProblem::NotCalendar) => true,
            (UploadProblem::SaveFailed(a), UploadProblem::SaveFailed(b)) => *a == *b,
            _ => false,
        }
    }
}

impl vstd::std_specs::cmp::PartialEqSpecImpl for UploadProblem {
    open spec fn obeys_eq_spec() -> bool {
        true
    }

    open spec fn eq_spec(&self, other: &Self) -> bool {
        self@ == other@
    }
}

impl Eq for UploadProblem {}

/// The name under which a calendar file is stored, where `clean` is the name
/// that was asked for after sanitizing: that name with `.ics` added, or the
/// name of the file that was sent where no name was asked for. There is none
/// where nothing is left of the name that was asked for.
pub open spec fn stored_name_from(
    sent_as: Seq<char>,
    clean: Option<Seq<char>>,
) -> Option<Seq<char>> {
    match clean {
        Some(name) => if name.len() == 0 {
            None
        } else {
            Some(name + ".ics"@)
        },
        None => Some(sent_as),
    }
}

/// A name that was asked for, sanitized.
pub open spec fn sanitized_name(asked: Option<Seq<char>>) -> Option<Seq<char>> {
    match asked {
        Some(name) => Some(sanitized(name)),
        None => None,
    }
}

/// The name under which a calendar file is stored: the name that was asked
/// for, sanitized and with `.ics` added, or that of the file that was sent
/// where no name was asked for. There is none where nothing is left of the
/// name that was asked for.
pub open spec fn stored_name(sent_as: Seq<char>, asked: Option<Seq<char>>) -> Option<Seq<char>> {
    stored_name_from(sent_as, sanitized_name(asked))
}

/// Checks that the file that was sent is named as a calendar file.
pub fn check_sent_name(sent_as: &str) -> (checked: Result<(), UploadProblem>)
    ensures
        match checked {
            Ok(_) => calendar_file_name(sent_as@),
            Err(problem) => !calendar_file_name(sent_as@) && problem@
                == UploadProblemView::NotCalendarFile,
        },
{
    if is_calendar_file_name(sent_as) {
        Ok(())
    } else {
        Err(UploadProblem::NotCalendarFile)
    }
}

/// Chooses the name under which a calendar file is stored from the name of
/// the file that was sent and the name that was asked for, already sanitized.
pub fn name_for_storing(sent_as: &str, clean: Option<&str>) -> (name: Result<String, UploadProblem>)
    ensures
        match name {
            Ok(n) => stored_name_from(sent_as@, slice_text(clean)) == Some(n@),
            Err(problem) => stored_name_from(sent_as@, slice_text(clean)) is None && problem@
                == UploadProblemView::InvalidName,
        },
{
    match clean {
        Some(clean) => {
            if clean.is_empty() {
                Err(UploadProblem::InvalidName)
            } else {
                let mut name = String::from_str(clean);
                name.append(".ics");
                Ok(name)
            }
        },
        None => Ok(String::from_str(sent_as)),
    }
}

/// Chooses the name under which a calendar file is stored.
pub fn upload_file_name(sent_as: &str, asked: Option<&str>) -> (name: Result<String, UploadProblem>)
    ensures
        match name {
            Ok(n) => stored_name(sent_as@, slice_text(asked)) == Some(n@),
            Err(problem) => stored_name(sent_as@, slice_text(asked)) is None && problem@
                == UploadProblemView::InvalidName,
        },
{
    match asked {
        Some(asked) => {
            let clean = sanitize_calendar_name(asked);
            name_for_storing(sent_as, Some(clean.as_str()))
        },
        None => name_for_storing(sent_as, None),
    }
}

/// Checks that no file of the chosen name is there yet.
pub fn check_name_free(file_name: &str, exists: bool) -> (checked: Result<(), UploadProblem>)
    ensures
        match checked {
            Ok(_) => !exists,
            Err(problem) => exists && problem@ == UploadProblemView::AlreadyExists(file_name@),
        },
{
    if exists {
        Err(UploadProblem::AlreadyExists(String::from_str(file_name)))
    } else {
        Ok(())
    }
}

/// The text holds the line that opens a calendar and the line that closes it.
pub open spec fn holds_calendar(text: Seq<char>) -> bool {
    is_substring("BEGIN:VCALENDAR"@, text) && is_substring("END:VCALENDAR"@, text)
}

/// What is wrong with the content of a calendar file, if anything: it must be
/// UTF-8 text, and the text must hold a calendar.
pub open spec fn content_problem(content: Seq<u8>) -> Option<UploadProblemView> {
    if !valid_utf8(content) {
        Some(UploadProblemView::BadEncoding)
    } else if !holds_calendar(decode_utf8(content)) {
        Some(UploadProblemView::NotCalendar)
    } else {
        None
    }
}

/// Checks what a calendar file holds: UTF-8 text with the line that opens a
/// calendar and the line that closes it.
pub fn check_calendar_content(content: &[u8]) -> (checked: Result<(), UploadProblem>)
    ensures
        match checked {
            Ok(_) => content_problem(content@) is None,
            Err(problem) => content_problem(content@) == Some(problem@),
        },
{
    match utf8_text(content) {
        Some(text) => {
            proof {
                encode_utf8_decode_utf8(text@);
            }
            if contains(text, "BEGIN:VCALENDAR") && contains(text, "END:VCALENDAR") {
                Ok(())
            } else {
                Err(UploadProblem::NotCalendar)
            }
        },
        None => Err(UploadProblem::BadEncoding),
    }
}

/// The answer to an upload that did not store the file.
pub open spec fn problem_text(problem: UploadProblemView) -> Seq<char> {
    match problem {
        UploadProblemView::NotCalendarFile => "❌ Please upload a valid .ics calendar file."@,
        UploadProblemView::DirectoryFailed(error) => "❌ Failed to create calendar directory: "@
            + error,
        UploadProblemView::InvalidName => "❌ Invalid calendar name. Please use only alphanumeric characters, underscores, or hyphens."@,
        UploadProblemView::AlreadyExists(name) => "⚠️ A calendar with the name `"@ + name
            + "` already exists. Please choose a different name or remove the existing calendar first."@,
        UploadProblemView::DownloadFailed(error) => "❌ Failed to download attachment: "@ + error,
        UploadProblemView::BadEncoding => "❌ Invalid file encoding. Please ensure the calendar file is in UTF-8 format."@,
        UploadProblemView::NotCalendar => "❌ Invalid calendar file format. Please ensure it's a valid .ics file."@,
        UploadProblemView::SaveFailed(error) => "❌ Failed to save calendar file: "@ + error,
    }
}

/// The answer to an upload that did not store the file.
pub fn upload_problem_reply(problem: &UploadProblem) -> (reply: String)
    ensures
        reply@ == problem_text(problem@),
{
    match problem {
        UploadProblem::NotCalendarFile => String::from_str(
            "❌ Please upload a valid .ics calendar file.",
        ),
        UploadProblem::DirectoryFailed(error) => {
            let mut reply = String::from_str("❌ Failed to create calendar directory: ");
            reply.append(error.as_str());
            reply
        },
        UploadProblem::InvalidName => String::from_str(
            "❌ Invalid calendar name. Please use only alphanumeric characters, underscores, or hyphens.",
        ),
        UploadProblem::AlreadyExists(name) => {
            let mut reply = String::from_str("⚠️ A calendar with the name `");
            reply.append(name.as_str());
            reply.append(
                "` already exists. Please choose a different name or remove the existing calendar first.",
            );
            reply
        },
        UploadProblem::DownloadFailed(error) => {
            let mut reply = String::from_str("❌ Failed to download attachment: ");
            reply.append(error.as_str());
            reply
        },
        UploadProblem::BadEncoding => String::from_str(
            "❌ Invalid file encoding. Please ensure the calendar file is in UTF-8 format.",
        ),
        UploadProblem::NotCalendar => String::from_str(
            "❌ Invalid calendar file format. Please ensure it's a valid .ics file.",
        ),
        UploadProblem::SaveFailed(error) => {
            let mut reply = String::from_str("❌ Failed to save calendar file: ");
            reply.append(error.as_str());
            reply
        },
    }
}

/// The answer to an upload that stored the file.
pub open spec fn uploaded_text(file_name: Seq<char>, path: Seq<char>) -> Seq<char> {
    "✅ Successfully uploaded calendar `"@ + file_name
        + "` to your calendar directory!\n📁 File saved as: `"@ + path + "`"@
}

/// The answer to an upload that stored the file.
pub fn uploaded_reply(file_name: &str, path: &str) -> (reply: String)
    ensures
        reply@ == uploaded_text(file_name@, path@),
{
    let mut reply = String::from_str("✅ Successfully uploaded calendar `");
    reply.append(file_name);
    reply.append("` to your calendar directory!\n📁 File saved as: `");
    reply.append(path);
    reply.append("`");
    reply
}

/// How far an upload has come, with what the last step brought.
#[derive(Debug)]
pub enum Upload {
    /// A user has sent a file: who, the name of the file, and the name under
    /// which the user wants it stored, if any.
    Asked { user_id: u64, sent_as: String, asked: Option<String> },
    /// The directory of the user was made, or could not be made.
    DirectoryMade {
        user_id: u64,
        sent_as: String,
        asked: Option<String>,
        made: Result<(), String>,
    },
    /// It is known whether a file of the chosen name is there already.
    NameLooked { file_name: String, path: String, exists: bool },
    /// The file was fetched, or could not be fetched.
    Fetched { file_name: String, path: String, content: Result<Vec<u8>, String> },
    /// The file was written, or could not be written.
    Written { file_name: String, path: String, written: Result<(), String> },
}

/// What an [`Upload`] holds, with texts and bytes as plain values.
pub enum UploadView {
    Asked { user_id: u64, sent_as: Seq<char>, asked: Option<Seq<char>> },
    DirectoryMade {
        user_id: u64,
        sent_as: Seq<char>,
        asked: Option<Seq<char>>,
        made: Result<(), Seq<char>>,
    },
    NameLooked { file_name: Seq<char>, path: Seq<char>, exists: bool },
    Fetched { file_name: Seq<char>, path: Seq<char>, content: Result<Seq<u8>, Seq<char>> },
    Written { file_name: Seq<char>, path: Seq<char>, written: Result<(), Seq<char>> },
}

/// How a step ended, with the reason of a failure as plain text.
pub open spec fn outcome_view(outcome: Result<(), String>) -> Result<(), Seq<char>> {
    match outcome {
        Ok(_) => Ok(()),
        Err(error) => Err(error@),
    }
}

/// What was fetched, as plain bytes, or the reason of the failure as plain
/// text.
pub open spec fn content_view(content: Result<Vec<u8>, String>) -> Result<Seq<u8>, Seq<char>> {
    match content {
        Ok(bytes) => Ok(bytes@),
        Err(error) => Err(error@),
    }
}

impl View for Upload {
    type V = UploadView;

    open spec fn view(&self) -> UploadView {
        match *self {
            Upload::Asked { user_id, sent_as, asked } => UploadView::Asked {
                user_id,
                sent_as: sent_as@,
                asked: text_of(asked),
            },
            Upload::DirectoryMade { user_id, sent_as, asked, made } => UploadView::DirectoryMade {
                user_id,
                sent_as: sent_as@,
                asked: text_of(asked),
                made: outcome_view(made),
            },
            Upload::NameLooked { file_name, path, exists } => UploadView::NameLooked {
                file_name: file_name@,
                path: path@,
                exists,
            },
            Upload::Fetched { file_name, path, content } => UploadView::Fetched {
                file_name: file_name@,
                path: path@,
                content: content_view(content),
            },
            Upload::Written { file_name, path, written } => UploadView::Written {
                file_name: file_name@,
                path: path@,
                written: outcome_view(written),
            },
        }
    }
}

/// The next step of an upload. Each step but the last hands back what the
/// caller has to hold for the step after it.
#[derive(Debug)]
pub enum UploadAction {
    /// Make the directory, with all that leads to it.
    MakeDirectory { directory: String, user_id: u64, sent_as: String, asked: Option<String> },
    /// Look whether there is a file at the path.
    LookForFile { file_name: String, path: String },
    /// Fetch the file that was sent.
    Fetch { file_name: String, path: String },
    /// Write the content to the path.
    Write { file_name: String, path: String, content: Vec<u8> },
    /// Send the answer. The upload is over.
    Answer(String),
}

/// What an [`UploadAction`] holds, with texts and bytes as plain values.
pub enum UploadActionView {
    MakeDirectory {
        directory: Seq<char>,
        user_id: u64,
        sent_as: Seq<char>,
        asked: Option<Seq<char>>,
    },
    LookForFile { file_name: Seq<char>, path: Seq<char> },
    Fetch { file_name: Seq<char>, path: Seq<char> },
    Write { file_name: Seq<char>, path: Seq<char>, content: Seq<u8> },
    Answer(Seq<char>),
}

impl View for UploadAction {
    type V = UploadActionView;

    open spec fn view(&self) -> UploadActionView {
        match *self {
            UploadAction::MakeDirectory {
                directory,
                user_id,
                sent_as,
                asked,
            } => UploadActionView::MakeDirectory {
                directory: directory@,
                user_id,
                sent_as: sent_as@,
                asked: text_of(asked),
            },
            UploadAction::LookForFile { file_name, path } => UploadActionView::LookForFile {
                file_name: file_name@,
                path: path@,
            },
            UploadAction::Fetch { file_name, path } => UploadActionView::Fetch {
                file_name: file_name@,
                path: path@,
            },
            UploadAction::Write { file_name, path, content } => UploadActionView::Write {
                file_name: file_name@,
                path: path@,
                content: content@,
            },
            UploadAction::Answer(reply) => UploadActionView::Answer(reply@),
        }
    }
}

/// The step that follows on what an upload has come to.
///
/// A file whose name does not end in `.ics` is refused at once. Else the
/// directory of the user is made; then the name is chosen and looked for; a
/// name that is free has the file fetched; content that holds a calendar is
/// written; and the answer names the file and where it is kept. Whatever goes
/// wrong on the way ends the upload with an answer that says so.
pub open spec fn next_step(upload: UploadView) -> UploadActionView {
    match upload {
        UploadView::Asked { user_id, sent_as, asked } => if calendar_file_name(sent_as) {
            UploadActionView::MakeDirectory {
                directory: directory_of(user_id),
                user_id,
                sent_as,
                asked,
            }
        } else {
            UploadActionView::Answer(problem_text(UploadProblemView::NotCalendarFile))
        },
        UploadView::DirectoryMade { user_id, sent_as, asked, made } => match made {
            Err(error) => UploadActionView::Answer(
                problem_text(UploadProblemView::DirectoryFailed(error)),
            ),
            Ok(_) => match stored_name(sent_as, asked) {
                None => UploadActionView::Answer(problem_text(UploadProblemView::InvalidName)),
                Some(file_name) => UploadActionView::LookForFile {
                    file_name,
                    path: path_of(user_id, file_name),
                },
            },
        },
        UploadView::NameLooked { file_name, path, exists } => if exists {
            UploadActionView::Answer(problem_text(UploadProblemView::AlreadyExists(file_name)))
        } else {
            UploadActionView::Fetch { file_name, path }
        },
        UploadView::Fetched { file_name, path, content } => match content {
            Err(error) => UploadActionView::Answer(
                problem_text(UploadProblemView::DownloadFailed(error)),
            ),
            Ok(bytes) => match content_problem(bytes) {
                Some(problem) => UploadActionView::Answer(problem_text(problem)),
                None => UploadActionView::Write { file_name, path, content: bytes },
            },
        },
        UploadView::Written { file_name, path, written } => match written {
            Err(error) => UploadActionView::Answer(
                problem_text(UploadProblemView::SaveFailed(error)),
            ),
            Ok(_) => UploadActionView::Answer(uploaded_text(file_name, path)),
        },
    }
}

fn refuse(problem: UploadProblem) -> (action: UploadAction)
    ensures
        action@ == UploadActionView::Answer(problem_text(problem@)),
{
    UploadAction::Answer(upload_problem_reply(&problem))
}

fn as_slice(field: &Option<String>) -> (slice: Option<&str>)
    ensures
        slice_text(slice) == text_of(*field),
{
    match field {
        Some(s) => Some(s.as_str()),
        None => None,
    }
}

/// Decides the next step of an upload from what it has come to.
pub fn upload_calendar(upload: Upload) -> (action: UploadAction)
    ensures
        action@ == next_step(upload@),
{
    match upload {
        Upload::Asked { user_id, sent_as, asked } => {
            match check_sent_name(sent_as.as_str()) {
                Ok(_) => UploadAction::MakeDirectory {
                    directory: user_calendar_dir(user_id),
                    user_id,
                    sent_as,
                    asked,
                },
                Err(problem) => refuse(problem),
            }
        },
        Upload::DirectoryMade { user_id, sent_as, asked, made } => {
            match made {
                Err(error) => refuse(UploadProblem::DirectoryFailed(error)),
                Ok(_) => match upload_file_name(sent_as.as_str(), as_slice(&asked)) {
                    Ok(file_name) => {
                        let path = calendar_file_path(user_id, file_name.as_str());
                        UploadAction::LookForFile { file_name, path }
                    },
                    Err(problem) => refuse(problem),
                },
            }
        },
        Upload::NameLooked { file_name, path, exists } => {
            match check_name_free(file_name.as_str(), exists) {
                Ok(_) => UploadAction::Fetch { file_name, path },
                Err(problem) => refuse(problem),
            }
        },
        Upload::Fetched { file_name, path, content } => {
            match content {
                Err(error) => refuse(UploadProblem::DownloadFailed(error)),
                Ok(bytes) => match check_calendar_content(bytes.as_slice()) {
                    Ok(_) => UploadAction::Write { file_name, path, content: bytes },
                    Err(problem) => refuse(problem),
                },
            }
        },
        Upload::Written { file_name, path, written } => {
            match written {
                Err(error) => refuse(UploadProblem::SaveFailed(error)),
                Ok(_) => UploadAction::Answer(uploaded_reply(file_name.as_str(), path.as_str())),
            }
        },
    }
}

/// Nothing is written that has not passed the checks: the content of a file
/// that is to be written is UTF-8 text that holds a calendar, and it is what
/// was fetched.
pub proof fn lemma_only_calendars_are_written(upload: UploadView)
    requires
        next_step(upload) is Write,
    ensures
        upload matches UploadView::Fetched { file_name, path, content: Ok(bytes) }
            && next_step(upload) == (UploadActionView::Write { file_name, path, content: bytes })
            && valid_utf8(bytes) && holds_calendar(decode_utf8(bytes)),
{
}

/// The directory of a user is made only for a file whose name ends in `.ics`,
/// and it is the directory of the user who sent the file.
pub proof fn lemma_directory_is_made_for_calendar_files(upload: UploadView)
    requires
        next_step(upload) is MakeDirectory,
    ensures
        upload matches UploadView::Asked { user_id, sent_as, asked } && calendar_file_name(sent_as)
            && next_step(upload)->MakeDirectory_directory == directory_of(user_id),
{
}

/// A file is stored in the directory of the user who sent it, under a name
/// that ends in `.ics` where the user asked for a name.
pub proof fn lemma_file_is_stored_with_the_user(upload: UploadView)
    requires
        next_step(upload) is LookForFile,
    ensures
        upload matches UploadView::DirectoryMade { user_id, sent_as, asked, made } && stored_name(
            sent_as,
            asked,
        ) == Some(next_step(upload)->LookForFile_file_name) && next_step(upload)->LookForFile_path
            == path_of(user_id, next_step(upload)->LookForFile_file_name) && (asked is Some
            ==> calendar_file_name(next_step(upload)->LookForFile_file_name)),
{
    match upload {
        UploadView::DirectoryMade { user_id, sent_as, asked, made } => {
            if asked is Some {
                let name = stored_name(sent_as, asked)->0;
                let clean = sanitized(asked->0);
                assert(name == clean + ".ics"@);
                assert(name.subrange(name.len() - ".ics"@.len(), name.len() as int) =~= ".ics"@);
            }
        },
        _ => {},
    }
}

} // verus!
