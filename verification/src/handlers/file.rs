//! Attachments: upload, list, download, delete.

use crate::config::AppConfig;
use crate::effects::{
    fail_internal, fail_invalid, fail_not_found, fail_storage, internal, invalid, not_found,
    stand, storage_failed, Command, CommandView, Event, EventView, NewAttachment,
    NewAttachmentView, Step, StepView,
};
use crate::handlers::auth::{get_user_from_token, may_authenticate};
pub use crate::handlers::auth::Claims;
use crate::models::auth::{success_reply, Reply, ReplyView};
use crate::models::file::{
    AttachmentResponse, AttachmentResponseView, TaskAttachment, TaskAttachmentSimple,
    TaskAttachmentSimpleView, TaskAttachmentView, UploadResponse, UploadResponseView,
};
use crate::text::{
    decimal, decimal_nat, decimal_text, is_digit, join, lemma_decimal_nat_reads_back,
    lowercase_of, same_text, to_lowercase,
};
use crate::utils::errors::{outcome_view, ServiceError, ServiceErrorView};
use vstd::prelude::*;
use vstd::string::*;

verus! {

/// The most bytes a file may have: 10 MiB.
pub const MAX_FILE_SIZE: usize = 10_485_760;

/// The directory that uploads are stored in, relative to where the service
/// runs.
pub open spec fn upload_dir() -> Seq<char> {
    "uploads"@
}

/// What `Path::extension` returns for a path: the part of its file name
/// after the last dot, if the file name has one that is not its first
/// character.
pub uninterp spec fn path_extension(path: Seq<char>) -> Option<Seq<char>>;

/// Whether `text` has the shape of a hyphenated UUID in lower case:
/// 36 characters, hyphens at 8, 13, 18 and 23, hexadecimal digits elsewhere.
pub open spec fn hyphenated_uuid(text: Seq<char>) -> bool {
    &&& text.len() == 36
    &&& forall|i: int|
        0 <= i < 36 ==> if i == 8 || i == 13 || i == 18 || i == 23 {
            #[trigger] text[i] == '-'
        } else {
            ('0' <= text[i] <= '9') || ('a' <= text[i] <= 'f')
        }
}

/// `Path::new(path).extension()`, as text. The extension is a part of the
/// last component of the path, and no component holds a `/`, which sets
/// components apart.
#[verifier::external_body]
fn extension_of(path: &str) -> (ext: Option<String>)
    ensures
        ext.deep_view() == path_extension(path@),
        ext matches Some(e) ==> !e@.contains('/'),
{
    std::path::Path::new(path).extension().and_then(|ext| ext.to_str()).map(String::from)
}

/// `uuid::Uuid::new_v4().to_string()`: a random UUID in its hyphenated
/// lower-case form.
#[verifier::external_body]
fn fresh_file_id() -> (id: String)
    ensures
        hyphenated_uuid(id@),
{
    uuid::Uuid::new_v4().to_string()
}

/// The MIME type of each file extension that may be uploaded; nothing for
/// any other.
pub open spec fn mime_type_of(extension: Seq<char>) -> Option<Seq<char>> {
    if extension == "jpg"@ || extension == "jpeg"@ {
        Some("image/jpeg"@)
    } else if extension == "png"@ {
        Some("image/png"@)
    } else if extension == "gif"@ {
        Some("image/gif"@)
    } else if extension == "pdf"@ {
        Some("application/pdf"@)
    } else if extension == "doc"@ {
        Some("application/msword"@)
    } else if extension == "docx"@ {
        Some("application/vnd.openxmlformats-officedocument.wordprocessingml.document"@)
    } else if extension == "txt"@ {
        Some("text/plain"@)
    } else if extension == "zip"@ {
        Some("application/zip"@)
    } else if extension == "rar"@ {
        Some("application/x-rar-compressed"@)
    } else if extension == "json"@ {
        Some("application/json"@)
    } else if extension == "xml"@ {
        Some("application/xml"@)
    } else if extension == "csv"@ {
        Some("text/csv"@)
    } else if extension == "xlsx"@ {
        Some("application/vnd.openxmlformats-officedocument.spreadsheetml.sheet"@)
    } else {
        None
    }
}

/// What is said of a file of `size` bytes whose extension, in lower case,
/// is `extension`: its MIME type, or why it is refused. Size is judged
/// first.
pub open spec fn file_verdict(extension: Seq<char>, size: usize) -> Result<
    Seq<char>,
    ServiceErrorView,
> {
    if size > MAX_FILE_SIZE {
        Err(ServiceErrorView::ValidationError("File size exceeds 10MB limit"@))
    } else {
        match mime_type_of(extension) {
            Some(mime) => Ok(mime),
            None => Err(
                ServiceErrorView::ValidationError(
                    "File type '"@ + extension + "' not allowed"@,
                ),
            ),
        }
    }
}

/// The extension of a file name in lower case; empty where it has none.
pub open spec fn lowered_extension(file_name: Seq<char>) -> Seq<char> {
    lowercase_of(
        match path_extension(file_name) {
            Some(ext) => ext,
            None => Seq::empty(),
        },
    )
}

/// What is said of a file of `size` bytes named `file_name`.
pub open spec fn file_validation(file_name: Seq<char>, size: usize) -> Result<
    Seq<char>,
    ServiceErrorView,
> {
    file_verdict(lowered_extension(file_name), size)
}

/// The MIME type of a file extension that may be uploaded.
pub fn mime_type_for(extension: &str) -> (mime: Option<String>)
    ensures
        mime.deep_view() == mime_type_of(extension@),
{
    if same_text(extension, "jpg") || same_text(extension, "jpeg") {
        Some(String::from_str("image/jpeg"))
    } else if same_text(extension, "png") {
        Some(String::from_str("image/png"))
    } else if same_text(extension, "gif") {
        Some(String::from_str("image/gif"))
    } else if same_text(extension, "pdf") {
        Some(String::from_str("application/pdf"))
    } else if same_text(extension, "doc") {
        Some(String::from_str("application/msword"))
    } else if same_text(extension, "docx") {
        Some(
            String::from_str(
                "application/vnd.openxmlformats-officedocument.wordprocessingml.document",
            ),
        )
    } else if same_text(extension, "txt") {
        Some(String::from_str("text/plain"))
    } else if same_text(extension, "zip") {
        Some(String::from_str("application/zip"))
    } else if same_text(extension, "rar") {
        Some(String::from_str("application/x-rar-compressed"))
    } else if same_text(extension, "json") {
        Some(String::from_str("application/json"))
    } else if same_text(extension, "xml") {
        Some(String::from_str("application/xml"))
    } else if same_text(extension, "csv") {
        Some(String::from_str("text/csv"))
    } else if same_text(extension, "xlsx") {
        Some(
            String::from_str("application/vnd.openxmlformats-officedocument.spreadsheetml.sheet"),
        )
    } else {
        None
    }
}

/// Judges a file of `size` bytes whose extension, in lower case, is
/// `extension`.
pub fn check_file(extension: &str, size: usize) -> (r: Result<String, ServiceError>)
    ensures
        outcome_view(r) == file_verdict(extension@, size),
{
    if size > MAX_FILE_SIZE {
        return Err(ServiceError::ValidationError(String::from_str("File size exceeds 10MB limit")));
    }
    match mime_type_for(extension) {
        Some(mime) => Ok(mime),
        None => {
            let mut message = join("File type '", extension);
            message.append("' not allowed");
            Err(ServiceError::ValidationError(message))
        },
    }
}

/// Judges a file of `size` bytes named `file_name` by its size and its
/// extension, whatever the case of its letters.
pub fn validate_file(file_name: &str, size: usize) -> (r: Result<String, ServiceError>)
    ensures
        outcome_view(r) == file_validation(file_name@, size),
{
    let extension = match extension_of(file_name) {
        Some(ext) => to_lowercase(ext.as_str()),
        None => to_lowercase(""),
    };
    proof {
        reveal_strlit("");
        assert(""@ =~= Seq::<char>::empty());
    }
    check_file(extension.as_str(), size)
}

/// A file of more than 10 MiB is refused whatever its name, and a file
/// whose extension is not on the list is refused whatever its size.
pub proof fn oversized_or_unlisted_files_are_refused(file_name: Seq<char>, size: usize)
    ensures
        size > MAX_FILE_SIZE ==> file_validation(file_name, size) == Err::<
            Seq<char>,
            ServiceErrorView,
        >(ServiceErrorView::ValidationError("File size exceeds 10MB limit"@)),
        mime_type_of(lowered_extension(file_name)) is None ==> file_validation(file_name, size) is Err,
        file_validation(file_name, size) is Ok ==> size <= 10 * 1024 * 1024 && mime_type_of(
            lowered_extension(file_name),
        ) == Some(file_validation(file_name, size)->Ok_0),
{
}

/// The name a file is stored under: the task's id, an id of its own, and
/// the extension it came with, or `bin` where it came with none.
pub open spec fn stored_name_of(task_id: i32, file_id: Seq<char>, original_name: Seq<char>) -> Seq<
    char,
> {
    decimal(task_id as int) + "_"@ + file_id + "."@ + match path_extension(original_name) {
        Some(ext) => ext,
        None => "bin"@,
    }
}

/// Where a file with this stored name lies.
pub open spec fn stored_path_of(stored_name: Seq<char>) -> Seq<char> {
    upload_dir() + "/"@ + stored_name
}

/// Where an attachment can be downloaded.
pub open spec fn download_url_of(task_id: i32, attachment_id: i32) -> Seq<char> {
    "/api/tasks/"@ + decimal(task_id as int) + "/attachments/"@ + decimal(attachment_id as int)
        + "/download"@
}

impl TaskAttachmentView {
    /// The attachment as clients see it, reached through task `task_id`.
    pub open spec fn shown(self, task_id: i32) -> AttachmentResponseView {
        AttachmentResponseView {
            id: self.id,
            task_id: self.task_id,
            file_name: self.file_name,
            original_name: self.original_name,
            file_size: self.file_size,
            mime_type: self.mime_type,
            uploaded_by: self.uploaded_by,
            download_url: download_url_of(task_id, self.id),
            created_at: self.created_at,
        }
    }
}

/// Two texts without a `/` make a text without one.
proof fn lemma_joined_without_slash(a: Seq<char>, b: Seq<char>)
    requires
        !a.contains('/'),
        !b.contains('/'),
    ensures
        !(a + b).contains('/'),
{
    assert forall|k: int| 0 <= k < (a + b).len() implies (a + b)[k] != '/' by {
        if k < a.len() {
            assert(a[k] == (a + b)[k]);
        } else {
            assert(b[k - a.len()] == (a + b)[k]);
        }
    }
}

/// A stored name holds no `/` if the file's id is a UUID and its extension
/// holds none: it names a file in the upload directory itself, whatever
/// directories the name it came with led through.
pub proof fn stored_name_stays_in_the_upload_directory(
    task_id: i32,
    file_id: Seq<char>,
    original_name: Seq<char>,
)
    requires
        hyphenated_uuid(file_id),
        path_extension(original_name) matches Some(extension) ==> !extension.contains('/'),
    ensures
        !stored_name_of(task_id, file_id, original_name).contains('/'),
{
    let number = decimal(task_id as int);
    let extension = match path_extension(original_name) {
        Some(ext) => ext,
        None => "bin"@,
    };
    reveal_strlit("_");
    reveal_strlit(".");
    reveal_strlit("bin");
    assert(!number.contains('/')) by {
        let digits = if task_id < 0 {
            decimal_nat((-(task_id as int)) as nat)
        } else {
            decimal_nat(task_id as nat)
        };
        if task_id < 0 {
            lemma_decimal_nat_reads_back((-(task_id as int)) as nat);
        } else {
            lemma_decimal_nat_reads_back(task_id as nat);
        }
        assert forall|k: int| 0 <= k < digits.len() implies digits[k] != '/' by {
            assert(is_digit(digits[k]));
        }
        if task_id < 0 {
            assert(!seq!['-'].contains('/'));
            lemma_joined_without_slash(seq!['-'], digits);
        }
    }
    assert(!file_id.contains('/'));
    assert(!"_"@.contains('/'));
    assert(!"."@.contains('/'));
    assert(!extension.contains('/'));
    lemma_joined_without_slash(number, "_"@);
    lemma_joined_without_slash(number + "_"@, file_id);
    lemma_joined_without_slash(number + "_"@ + file_id, "."@);
    lemma_joined_without_slash(number + "_"@ + file_id + "."@, extension);
}

/// The name a file is stored under. With a UUID for the file's id it holds
/// no `/`.
pub fn stored_name(task_id: i32, file_id: &str, original_name: &str) -> (name: String)
    ensures
        name@ == stored_name_of(task_id, file_id@, original_name@),
        hyphenated_uuid(file_id@) ==> !name@.contains('/'),
{
    let extension = extension_of(original_name);
    proof {
        if hyphenated_uuid(file_id@) {
            stored_name_stays_in_the_upload_directory(task_id, file_id@, original_name@);
        }
    }
    let mut name = decimal_text(task_id as i64);
    name.append("_");
    name.append(file_id);
    name.append(".");
    match extension {
        Some(ext) => name.append(ext.as_str()),
        None => name.append("bin"),
    }
    name
}

/// Where an attachment can be downloaded.
pub fn download_url(task_id: i32, attachment_id: i32) -> (url: String)
    ensures
        url@ == download_url_of(task_id, attachment_id),
{
    let mut url = join("/api/tasks/", decimal_text(task_id as i64).as_str());
    url.append("/attachments/");
    url.append(decimal_text(attachment_id as i64).as_str());
    url.append("/download");
    url
}

/// The attachment as a task lists it: the name it is stored under, and
/// where it can be downloaded through task `task_id`.
pub open spec fn link_of(row: TaskAttachmentView, task_id: i32) -> TaskAttachmentSimpleView {
    TaskAttachmentSimpleView { name: row.file_name, url: download_url_of(task_id, row.id) }
}

/// The attachments as a task lists them, in the order of the rows.
pub open spec fn links_of(rows: Seq<TaskAttachmentView>, task_id: i32) -> Seq<
    TaskAttachmentSimpleView,
> {
    rows.map_values(|row: TaskAttachmentView| link_of(row, task_id))
}

/// The attachments as a task lists them, in the order of the rows.
pub fn links(rows: Vec<TaskAttachment>, task_id: i32) -> (out: Vec<TaskAttachmentSimple>)
    ensures
        out.deep_view() == links_of(rows.deep_view(), task_id),
{
    let mut out: Vec<TaskAttachmentSimple> = Vec::new();
    let mut i: usize = 0;
    while i < rows.len()
        invariant
            i <= rows.len(),
            out.len() == i,
            forall|k: int|
                0 <= k < i ==> (#[trigger] out@[k]).deep_view() == link_of(
                    rows.deep_view()[k],
                    task_id,
                ),
        decreases rows.len() - i,
    {
        let name = rows[i].file_name.clone();
        let url = download_url(task_id, rows[i].id);
        out.push(TaskAttachmentSimple { name, url });
        i += 1;
    }
    assert(out.deep_view() =~= links_of(rows.deep_view(), task_id));
    out
}

/// The address that a task lists for an attachment is the address that
/// the upload of the attachment answered with, and that the listing of
/// attachments shows: the download address made of the id of the task and
/// the id of the attachment.
pub proof fn listed_links_are_download_addresses(
    rows: Seq<TaskAttachmentView>,
    task_id: i32,
    i: int,
)
    requires
        0 <= i < rows.len(),
    ensures
        links_of(rows, task_id).len() == rows.len(),
        links_of(rows, task_id)[i].url == download_url_of(task_id, rows[i].id),
        links_of(rows, task_id)[i].url == rows[i].shown(task_id).download_url,
        links_of(rows, task_id)[i].url == shown_attachments(rows, task_id)[i].download_url,
        links_of(rows, task_id)[i].name == rows[i].file_name,
{
}

impl TaskAttachment {
    /// The attachment as clients see it, reached through task `task_id`.
    pub fn show(self, task_id: i32) -> (out: AttachmentResponse)
        ensures
            out.deep_view() == self.deep_view().shown(task_id),
    {
        let url = download_url(task_id, self.id);
        AttachmentResponse {
            id: self.id,
            task_id: self.task_id,
            file_name: self.file_name,
            original_name: self.original_name,
            file_size: self.file_size,
            mime_type: self.mime_type,
            uploaded_by: self.uploaded_by,
            download_url: url,
            created_at: self.created_at,
        }
    }
}

/// An upload in progress.
#[derive(Debug, PartialEq, Eq)]
pub enum UploadFlow {
    /// The task is being looked for.
    Checking { task_id: i32, user_id: i32 },
    /// The upload directory is being made sure of.
    Preparing { task_id: i32, user_id: i32 },
    /// The next field of the form is being read.
    Scanning { task_id: i32, user_id: i32 },
    /// The file is being received, chunk by chunk.
    Receiving {
        task_id: i32,
        user_id: i32,
        original_name: String,
        stored_name: String,
        data: Vec<u8>,
    },
    /// The file is being written.
    Saving { task_id: i32, record: NewAttachment },
    /// The attachment is being recorded; the file lies at `path`.
    Recording { task_id: i32, path: String },
    /// The file is being removed again, because it could not be recorded.
    Cleaning,
}

/// [`UploadFlow`] as contracts see it: text as sequences of characters.
pub enum UploadFlowView {
    Checking { task_id: i32, user_id: i32 },
    Preparing { task_id: i32, user_id: i32 },
    Scanning { task_id: i32, user_id: i32 },
    Receiving {
        task_id: i32,
        user_id: i32,
        original_name: Seq<char>,
        stored_name: Seq<char>,
        data: Seq<u8>,
    },
    Saving { task_id: i32, record: NewAttachmentView },
    Recording { task_id: i32, path: Seq<char> },
    Cleaning,
}

impl DeepView for UploadFlow {
    type V = UploadFlowView;

    open spec fn deep_view(&self) -> UploadFlowView {
        match self {
            UploadFlow::Checking { task_id, user_id } => UploadFlowView::Checking {
                task_id: *task_id,
                user_id: *user_id,
            },
            UploadFlow::Preparing { task_id, user_id } => UploadFlowView::Preparing {
                task_id: *task_id,
                user_id: *user_id,
            },
            UploadFlow::Scanning { task_id, user_id } => UploadFlowView::Scanning {
                task_id: *task_id,
                user_id: *user_id,
            },
            UploadFlow::Receiving {
                task_id,
                user_id,
                original_name,
                stored_name,
                data,
            } => UploadFlowView::Receiving {
                task_id: *task_id,
                user_id: *user_id,
                original_name: original_name@,
                stored_name: stored_name@,
                data: data@,
            },
            UploadFlow::Saving { task_id, record } => UploadFlowView::Saving {
                task_id: *task_id,
                record: record.deep_view(),
            },
            UploadFlow::Recording { task_id, path } => UploadFlowView::Recording {
                task_id: *task_id,
                path: path@,
            },
            UploadFlow::Cleaning => UploadFlowView::Cleaning,
        }
    }
}

/// Where the endpoint stands after a step, as contracts see it.
pub type UploadStep = StepView<UploadFlowView, ReplyView<UploadResponseView>>;

/// How an upload starts, by what authentication said.
pub open spec fn upload_file_plan(who: Result<i32, ServiceErrorView>, task_id: i32) -> UploadStep {
    match who {
        Err(e) => StepView::Done(Err(e)),
        Ok(user_id) => StepView::Ask(
            UploadFlowView::Checking { task_id, user_id },
            CommandView::CheckTask(task_id),
        ),
    }
}

/// What follows once a file has been received in full: it is judged, and
/// written if it passes.
pub open spec fn upload_received(
    task_id: i32,
    user_id: i32,
    original_name: Seq<char>,
    stored_name: Seq<char>,
    data: Seq<u8>,
) -> UploadStep {
    match file_validation(original_name, data.len() as usize) {
        Err(e) => StepView::Done(Err(e)),
        Ok(mime_type) => StepView::Ask(
            UploadFlowView::Saving {
                task_id,
                record: NewAttachmentView {
                    task_id,
                    file_name: stored_name,
                    original_name,
                    file_path: stored_path_of(stored_name),
                    file_size: data.len() as i64,
                    mime_type,
                    uploaded_by: user_id,
                },
            },
            CommandView::WriteFile { path: stored_path_of(stored_name), data },
        ),
    }
}

/// How an upload goes on after `event`, where `file_id` is the id that a
/// file gets if one starts here. The first field of the form that declares
/// a file name is the file; its size is watched while it comes in; and if
/// it cannot be recorded after it was written, it is removed again.
pub open spec fn upload_step(flow: UploadFlowView, event: EventView, file_id: Seq<char>) -> UploadStep {
    match flow {
        UploadFlowView::Checking { task_id, user_id } => match event {
            EventView::Exists(true) => StepView::Ask(
                UploadFlowView::Preparing { task_id, user_id },
                CommandView::EnsureUploadDir,
            ),
            EventView::Exists(false) => not_found("Task not found"@),
            _ => storage_failed("Failed to check task"@),
        },
        UploadFlowView::Preparing { task_id, user_id } => match event {
            EventView::Done => StepView::Ask(
                UploadFlowView::Scanning { task_id, user_id },
                CommandView::NextField,
            ),
            _ => internal("Failed to create upload directory"@),
        },
        UploadFlowView::Scanning { task_id, user_id } => match event {
            EventView::Field(Some(original_name)) => StepView::Ask(
                UploadFlowView::Receiving {
                    task_id,
                    user_id,
                    original_name,
                    stored_name: stored_name_of(task_id, file_id, original_name),
                    data: Seq::empty(),
                },
                CommandView::NextChunk,
            ),
            EventView::Field(None) => StepView::Ask(
                UploadFlowView::Scanning { task_id, user_id },
                CommandView::NextField,
            ),
            EventView::EndOfForm => invalid("No file found in request"@),
            _ => invalid("Invalid multipart data"@),
        },
        UploadFlowView::Receiving {
            task_id,
            user_id,
            original_name,
            stored_name,
            data,
        } => match event {
            EventView::Chunk(bytes) => if data.len() + bytes.len() > MAX_FILE_SIZE {
                invalid("File size exceeds 10MB limit"@)
            } else {
                StepView::Ask(
                    UploadFlowView::Receiving {
                        task_id,
                        user_id,
                        original_name,
                        stored_name,
                        data: data + bytes,
                    },
                    CommandView::NextChunk,
                )
            },
            EventView::EndOfFile => upload_received(
                task_id,
                user_id,
                original_name,
                stored_name,
                data,
            ),
            _ => invalid("Error reading file data"@),
        },
        UploadFlowView::Saving { task_id, record } => match event {
            EventView::Done => StepView::Ask(
                UploadFlowView::Recording { task_id, path: record.file_path },
                CommandView::InsertAttachment(record),
            ),
            _ => internal("Failed to save file"@),
        },
        UploadFlowView::Recording { task_id, path } => match event {
            EventView::Attachment(Some(row)) => StepView::Done(
                Ok(
                    success_reply(
                        201,
                        "File uploaded successfully"@,
                        UploadResponseView {
                            attachment: row.shown(task_id),
                            message: "File uploaded successfully"@,
                        },
                    ),
                ),
            ),
            _ => StepView::Ask(UploadFlowView::Cleaning, CommandView::RemoveFile(path)),
        },
        UploadFlowView::Cleaning => storage_failed("Failed to save attachment info"@),
    }
}

/// Starts an upload for whom authentication found.
pub fn upload_file_as(who: Result<i32, ServiceError>, task_id: i32) -> (step: Step<
    UploadFlow,
    Reply<UploadResponse>,
>)
    ensures
        step.deep_view() == upload_file_plan(outcome_view(who), task_id),
{
    match who {
        Err(e) => Step::Done(Err(e)),
        Ok(user_id) => Step::Ask(
            UploadFlow::Checking { task_id, user_id },
            Command::CheckTask(task_id),
        ),
    }
}

/// Starts an upload.
pub fn upload_file(authorization: Option<&str>, config: &AppConfig, task_id: i32) -> (step: Step<
    UploadFlow,
    Reply<UploadResponse>,
>)
    ensures
        exists|who: Result<i32, ServiceErrorView>|
            may_authenticate(authorization.deep_view(), who) && step.deep_view()
                == #[trigger] upload_file_plan(who, task_id),
{
    let who = get_user_from_token(authorization, config);
    let ghost seen = outcome_view(who);
    let step = upload_file_as(who, task_id);
    assert(step.deep_view() == upload_file_plan(seen, task_id));
    step
}

/// Judges a file that has been received in full, and has it written if it
/// passes.
fn received(
    task_id: i32,
    user_id: i32,
    original_name: String,
    stored_name: String,
    data: Vec<u8>,
) -> (step: Step<UploadFlow, Reply<UploadResponse>>)
    requires
        data.len() <= MAX_FILE_SIZE,
    ensures
        step.deep_view() == upload_received(task_id, user_id, original_name@, stored_name@, data@),
{
    match validate_file(original_name.as_str(), data.len()) {
        Err(e) => Step::Done(Err(e)),
        Ok(mime_type) => {
            let mut path = String::from_str("uploads");
            path.append("/");
            path.append(stored_name.as_str());
            let record = NewAttachment {
                task_id,
                file_name: stored_name,
                original_name,
                file_path: path.clone(),
                file_size: data.len() as i64,
                mime_type,
                uploaded_by: user_id,
            };
            Step::Ask(UploadFlow::Saving { task_id, record }, Command::WriteFile { path, data })
        },
    }
}

impl UploadFlow {
    /// Whether the flow waits for a field of the form.
    pub fn awaits_field(&self) -> (yes: bool)
        ensures
            yes == (self.deep_view() is Scanning),
    {
        match self {
            UploadFlow::Scanning { .. } => true,
            _ => false,
        }
    }

    /// Goes on with the upload after `event`, taking `file_id` as the id of
    /// a file that starts here.
    pub fn step_with(self, event: Event, file_id: &str) -> (step: Step<
        UploadFlow,
        Reply<UploadResponse>,
    >)
        ensures
            step.deep_view() == upload_step(self.deep_view(), event.deep_view(), file_id@),
            self.deep_view() is Scanning && hyphenated_uuid(file_id@) ==> (step.deep_view()
                matches StepView::Ask(UploadFlowView::Receiving { stored_name, .. }, _)
                ==> !stored_name.contains('/')),
    {
        match self {
            UploadFlow::Checking { task_id, user_id } => match event {
                Event::Exists(true) => Step::Ask(
                    UploadFlow::Preparing { task_id, user_id },
                    Command::EnsureUploadDir,
                ),
                Event::Exists(false) => fail_not_found("Task not found"),
                _ => fail_storage("Failed to check task"),
            },
            UploadFlow::Preparing { task_id, user_id } => match event {
                Event::Done => Step::Ask(
                    UploadFlow::Scanning { task_id, user_id },
                    Command::NextField,
                ),
                _ => fail_internal("Failed to create upload directory"),
            },
            UploadFlow::Scanning { task_id, user_id } => match event {
                Event::Field(Some(original_name)) => {
                    let stored_name = stored_name(task_id, file_id, original_name.as_str());
                    let data: Vec<u8> = Vec::new();
                    assert(data@ =~= Seq::empty());
                    Step::Ask(
                        UploadFlow::Receiving { task_id, user_id, original_name, stored_name, data },
                        Command::NextChunk,
                    )
                },
                Event::Field(None) => Step::Ask(
                    UploadFlow::Scanning { task_id, user_id },
                    Command::NextField,
                ),
                Event::EndOfForm => fail_invalid("No file found in request"),
                _ => fail_invalid("Invalid multipart data"),
            },
            UploadFlow::Receiving { task_id, user_id, original_name, stored_name, data } => match event {
                Event::Chunk(bytes) => {
                    if bytes.len() > MAX_FILE_SIZE || data.len() > MAX_FILE_SIZE - bytes.len() {
                        return fail_invalid("File size exceeds 10MB limit");
                    }
                    let mut data = data;
                    let mut bytes = bytes;
                    data.append(&mut bytes);
                    Step::Ask(
                        UploadFlow::Receiving { task_id, user_id, original_name, stored_name, data },
                        Command::NextChunk,
                    )
                },
                Event::EndOfFile => {
                    if data.len() > MAX_FILE_SIZE {
                        proof {
                            oversized_or_unlisted_files_are_refused(
                                original_name@,
                                data.len() as usize,
                            );
                        }
                        return fail_invalid("File size exceeds 10MB limit");
                    }
                    received(task_id, user_id, original_name, stored_name, data)
                },
                _ => fail_invalid("Error reading file data"),
            },
            UploadFlow::Saving { task_id, record } => match event {
                Event::Done => {
                    let path = record.file_path.clone();
                    Step::Ask(
                        UploadFlow::Recording { task_id, path },
                        Command::InsertAttachment(record),
                    )
                },
                _ => fail_internal("Failed to save file"),
            },
            UploadFlow::Recording { task_id, path } => match event {
                Event::Attachment(Some(row)) => {
                    let data = UploadResponse {
                        attachment: row.show(task_id),
                        message: String::from_str("File uploaded successfully"),
                    };
                    Step::Done(Ok(Reply::success(201, "File uploaded successfully", data)))
                },
                _ => Step::Ask(UploadFlow::Cleaning, Command::RemoveFile(path)),
            },
            UploadFlow::Cleaning => fail_storage("Failed to save attachment info"),
        }
    }

    /// Goes on with the upload after `event`. A file that starts here gets
    /// a fresh random id.
    pub fn step(self, event: Event) -> (step: Step<UploadFlow, Reply<UploadResponse>>)
        ensures
            exists|file_id: Seq<char>|
                (self.deep_view() is Scanning ==> hyphenated_uuid(file_id)) && step.deep_view()
                    == #[trigger] upload_step(self.deep_view(), event.deep_view(), file_id),
            self.deep_view() is Scanning ==> (step.deep_view() matches StepView::Ask(
                UploadFlowView::Receiving { stored_name, .. },
                _,
            ) ==> !stored_name.contains('/')),
    {
        let file_id = if self.awaits_field() {
            fresh_file_id()
        } else {
            String::new()
        };
        let ghost flow = self.deep_view();
        let ghost seen = event.deep_view();
        let step = self.step_with(event, file_id.as_str());
        assert(step.deep_view() == upload_step(flow, seen, file_id@));
        step
    }
}

/// A listing of the attachments of a task in progress.
#[derive(Debug, Clone, Copy, PartialEq, Eq, Structural)]
pub enum AttachmentListFlow {
    /// The task is being looked for.
    Checking { task_id: i32 },
    /// The attachments are being read.
    Listing { task_id: i32 },
}

impl DeepView for AttachmentListFlow {
    type V = AttachmentListFlow;

    open spec fn deep_view(&self) -> AttachmentListFlow {
        *self
    }
}

/// Where the endpoint stands after a step, as contracts see it.
pub type AttachmentListStep = StepView<AttachmentListFlow, ReplyView<Seq<AttachmentResponseView>>>;

/// How a listing of attachments starts, by what authentication said.
pub open spec fn get_task_attachments_plan(
    who: Result<i32, ServiceErrorView>,
    task_id: i32,
) -> AttachmentListStep {
    match who {
        Err(e) => StepView::Done(Err(e)),
        Ok(_) => StepView::Ask(
            AttachmentListFlow::Checking { task_id },
            CommandView::CheckTask(task_id),
        ),
    }
}

/// The rows as clients see them, reached through task `task_id`.
pub open spec fn shown_attachments(rows: Seq<TaskAttachmentView>, task_id: i32) -> Seq<
    AttachmentResponseView,
> {
    rows.map_values(|row: TaskAttachmentView| row.shown(task_id))
}

/// How a listing of attachments goes on after `event`.
pub open spec fn get_task_attachments_step(
    flow: AttachmentListFlow,
    event: EventView,
) -> AttachmentListStep {
    match flow {
        AttachmentListFlow::Checking { task_id } => match event {
            EventView::Exists(true) => StepView::Ask(
                AttachmentListFlow::Listing { task_id },
                CommandView::ListAttachments(task_id),
            ),
            EventView::Exists(false) => not_found("Task not found"@),
            _ => storage_failed("Failed to check task"@),
        },
        AttachmentListFlow::Listing { task_id } => match event {
            EventView::Attachments(rows) => StepView::Done(
                Ok(
                    success_reply(
                        200,
                        "Attachments retrieved successfully"@,
                        shown_attachments(rows, task_id),
                    ),
                ),
            ),
            _ => storage_failed("Failed to fetch attachments"@),
        },
    }
}

/// Starts a listing of attachments for whom authentication found.
pub fn get_task_attachments_as(who: Result<i32, ServiceError>, task_id: i32) -> (step: Step<
    AttachmentListFlow,
    Reply<Vec<AttachmentResponse>>,
>)
    ensures
        step.deep_view() == get_task_attachments_plan(outcome_view(who), task_id),
{
    match who {
        Err(e) => Step::Done(Err(e)),
        Ok(_) => Step::Ask(AttachmentListFlow::Checking { task_id }, Command::CheckTask(task_id)),
    }
}

/// Starts a listing of the attachments of a task.
pub fn get_task_attachments(
    authorization: Option<&str>,
    config: &AppConfig,
    task_id: i32,
) -> (step: Step<AttachmentListFlow, Reply<Vec<AttachmentResponse>>>)
    ensures
        exists|who: Result<i32, ServiceErrorView>|
            may_authenticate(authorization.deep_view(), who) && step.deep_view()
                == #[trigger] get_task_attachments_plan(who, task_id),
{
    let who = get_user_from_token(authorization, config);
    let ghost seen = outcome_view(who);
    let step = get_task_attachments_as(who, task_id);
    assert(step.deep_view() == get_task_attachments_plan(seen, task_id));
    step
}

/// The rows as clients see them, reached through task `task_id`.
fn show_all(rows: Vec<TaskAttachment>, task_id: i32) -> (out: Vec<AttachmentResponse>)
    ensures
        out.deep_view() == shown_attachments(rows.deep_view(), task_id),
{
    let ghost all = rows.deep_view();
    let mut rows = rows;
    let mut out: Vec<AttachmentResponse> = Vec::new();
    while rows.len() > 0
        invariant
            out.len() + rows.len() == all.len(),
            rows.deep_view() == all.skip(out.len() as int),
            forall|k: int|
                0 <= k < out.len() ==> (#[trigger] out@[k]).deep_view() == all[k].shown(task_id),
        decreases rows.len(),
    {
        let ghost rest = rows.deep_view();
        let row = rows.remove(0);
        assert(row.deep_view() == rest[0]);
        assert(rows.deep_view() =~= rest.skip(1));
        assert(rest.skip(1) =~= all.skip(out.len() + 1));
        out.push(row.show(task_id));
    }
    assert(out.deep_view() =~= shown_attachments(all, task_id));
    out
}

impl AttachmentListFlow {
    /// Goes on with the listing after `event`.
    pub fn step(self, event: Event) -> (step: Step<
        AttachmentListFlow,
        Reply<Vec<AttachmentResponse>>,
    >)
        ensures
            step.deep_view() == get_task_attachments_step(self, event.deep_view()),
    {
        match self {
            AttachmentListFlow::Checking { task_id } => match event {
                Event::Exists(true) => Step::Ask(
                    AttachmentListFlow::Listing { task_id },
                    Command::ListAttachments(task_id),
                ),
                Event::Exists(false) => fail_not_found("Task not found"),
                _ => fail_storage("Failed to check task"),
            },
            AttachmentListFlow::Listing { task_id } => match event {
                Event::Attachments(rows) => Step::Done(
                    Ok(
                        Reply::success(
                            200,
                            "Attachments retrieved successfully",
                            show_all(rows, task_id),
                        ),
                    ),
                ),
                _ => fail_storage("Failed to fetch attachments"),
            },
        }
    }
}

/// A file as it is handed to the client: the raw bytes, their type, and the
/// header that offers them for saving under the original name.
#[derive(Debug, PartialEq, Eq)]
pub struct FileDownload {
    pub content_type: String,
    pub content_disposition: String,
    pub body: Vec<u8>,
}

/// [`FileDownload`] as contracts see it: text as sequences of characters.
pub struct FileDownloadView {
    pub content_type: Seq<char>,
    pub content_disposition: Seq<char>,
    pub body: Seq<u8>,
}

impl DeepView for FileDownload {
    type V = FileDownloadView;

    open spec fn deep_view(&self) -> FileDownloadView {
        FileDownloadView {
            content_type: self.content_type@,
            content_disposition: self.content_disposition@,
            body: self.body@,
        }
    }
}

/// A download in progress.
#[derive(Debug, PartialEq, Eq)]
pub enum DownloadFlow {
    /// The attachment is being looked for.
    Finding,
    /// The file is being looked for.
    Probing { path: String, original_name: String, mime_type: String },
    /// The file is being read.
    Reading { original_name: String, mime_type: String },
}

/// [`DownloadFlow`] as contracts see it: text as sequences of characters.
pub enum DownloadFlowView {
    Finding,
    Probing { path: Seq<char>, original_name: Seq<char>, mime_type: Seq<char> },
    Reading { original_name: Seq<char>, mime_type: Seq<char> },
}

impl DeepView for DownloadFlow {
    type V = DownloadFlowView;

    open spec fn deep_view(&self) -> DownloadFlowView {
        match self {
            DownloadFlow::Finding => DownloadFlowView::Finding,
            DownloadFlow::Probing { path, original_name, mime_type } => DownloadFlowView::Probing {
                path: path@,
                original_name: original_name@,
                mime_type: mime_type@,
            },
            DownloadFlow::Reading { original_name, mime_type } => DownloadFlowView::Reading {
                original_name: original_name@,
                mime_type: mime_type@,
            },
        }
    }
}

/// Where the endpoint stands after a step, as contracts see it.
pub type DownloadStep = StepView<DownloadFlowView, FileDownloadView>;

/// How a download starts, by what authentication said.
pub open spec fn download_file_plan(
    who: Result<i32, ServiceErrorView>,
    task_id: i32,
    attachment_id: i32,
) -> DownloadStep {
    match who {
        Err(e) => StepView::Done(Err(e)),
        Ok(_) => StepView::Ask(
            DownloadFlowView::Finding,
            CommandView::FindAttachment { id: attachment_id, task_id },
        ),
    }
}

/// The header that offers a file for saving under `original_name`.
pub open spec fn disposition_of(original_name: Seq<char>) -> Seq<char> {
    "attachment; filename=\""@ + original_name + "\""@
}

/// How a download goes on after `event`.
pub open spec fn download_file_step(flow: DownloadFlowView, event: EventView) -> DownloadStep {
    match flow {
        DownloadFlowView::Finding => match event {
            EventView::Attachment(Some(row)) => StepView::Ask(
                DownloadFlowView::Probing {
                    path: row.file_path,
                    original_name: row.original_name,
                    mime_type: row.mime_type,
                },
                CommandView::CheckFile(row.file_path),
            ),
            EventView::Attachment(None) => not_found("Attachment not found"@),
            _ => storage_failed("Failed to fetch attachment"@),
        },
        DownloadFlowView::Probing { path, original_name, mime_type } => match event {
            EventView::Exists(true) => StepView::Ask(
                DownloadFlowView::Reading { original_name, mime_type },
                CommandView::ReadFile(path),
            ),
            _ => not_found("File not found on disk"@),
        },
        DownloadFlowView::Reading { original_name, mime_type } => match event {
            EventView::Bytes(body) => StepView::Done(
                Ok(
                    FileDownloadView {
                        content_type: mime_type,
                        content_disposition: disposition_of(original_name),
                        body,
                    },
                ),
            ),
            _ => internal("Failed to read file"@),
        },
    }
}

/// Starts a download for whom authentication found.
pub fn download_file_as(who: Result<i32, ServiceError>, task_id: i32, attachment_id: i32) -> (step:
    Step<DownloadFlow, FileDownload>)
    ensures
        step.deep_view() == download_file_plan(outcome_view(who), task_id, attachment_id),
{
    match who {
        Err(e) => Step::Done(Err(e)),
        Ok(_) => Step::Ask(
            DownloadFlow::Finding,
            Command::FindAttachment { id: attachment_id, task_id },
        ),
    }
}

/// Starts a download.
pub fn download_file(
    authorization: Option<&str>,
    config: &AppConfig,
    task_id: i32,
    attachment_id: i32,
) -> (step: Step<DownloadFlow, FileDownload>)
    ensures
        exists|who: Result<i32, ServiceErrorView>|
            may_authenticate(authorization.deep_view(), who) && step.deep_view()
                == #[trigger] download_file_plan(who, task_id, attachment_id),
{
    let who = get_user_from_token(authorization, config);
    let ghost seen = outcome_view(who);
    let step = download_file_as(who, task_id, attachment_id);
    assert(step.deep_view() == download_file_plan(seen, task_id, attachment_id));
    step
}

impl DownloadFlow {
    /// Goes on with the download after `event`.
    pub fn step(self, event: Event) -> (step: Step<DownloadFlow, FileDownload>)
        ensures
            step.deep_view() == download_file_step(self.deep_view(), event.deep_view()),
    {
        match self {
            DownloadFlow::Finding => match event {
                Event::Attachment(Some(row)) => {
                    let path = row.file_path.clone();
                    Step::Ask(
                        DownloadFlow::Probing {
                            path: row.file_path,
                            original_name: row.original_name,
                            mime_type: row.mime_type,
                        },
                        Command::CheckFile(path),
                    )
                },
                Event::Attachment(None) => fail_not_found("Attachment not found"),
                _ => fail_storage("Failed to fetch attachment"),
            },
            DownloadFlow::Probing { path, original_name, mime_type } => match event {
                Event::Exists(true) => Step::Ask(
                    DownloadFlow::Reading { original_name, mime_type },
                    Command::ReadFile(path),
                ),
                _ => fail_not_found("File not found on disk"),
            },
            DownloadFlow::Reading { original_name, mime_type } => match event {
                Event::Bytes(body) => {
                    let mut content_disposition = join(
                        "attachment; filename=\"",
                        original_name.as_str(),
                    );
                    content_disposition.append("\"");
                    Step::Done(
                        Ok(FileDownload { content_type: mime_type, content_disposition, body }),
                    )
                },
                _ => fail_internal("Failed to read file"),
            },
        }
    }
}

/// An attachment deletion in progress.
#[derive(Debug, PartialEq, Eq)]
pub enum DeleteAttachmentFlow {
    /// The attachment is being looked for.
    Finding { task_id: i32, attachment_id: i32 },
    /// The record is being deleted; the file lies at `path`.
    Deleting { path: String },
    /// The file is being removed.
    Removing,
}

/// [`DeleteAttachmentFlow`] as contracts see it: text as sequences of characters.
pub enum DeleteAttachmentFlowView {
    Finding { task_id: i32, attachment_id: i32 },
    Deleting { path: Seq<char> },
    Removing,
}

impl DeepView for DeleteAttachmentFlow {
    type V = DeleteAttachmentFlowView;

    open spec fn deep_view(&self) -> DeleteAttachmentFlowView {
        match self {
            DeleteAttachmentFlow::Finding { task_id, attachment_id } => {
                DeleteAttachmentFlowView::Finding {
                    task_id: *task_id,
                    attachment_id: *attachment_id,
                }
            },
            DeleteAttachmentFlow::Deleting { path } => DeleteAttachmentFlowView::Deleting {
                path: path@,
            },
            DeleteAttachmentFlow::Removing => DeleteAttachmentFlowView::Removing,
        }
    }
}

/// Where the endpoint stands after a step, as contracts see it.
pub type DeleteAttachmentStep = StepView<DeleteAttachmentFlowView, ReplyView<bool>>;

/// How an attachment deletion starts, by what authentication said.
pub open spec fn delete_attachment_plan(
    who: Result<i32, ServiceErrorView>,
    task_id: i32,
    attachment_id: i32,
) -> DeleteAttachmentStep {
    match who {
        Err(e) => StepView::Done(Err(e)),
        Ok(_) => StepView::Ask(
            DeleteAttachmentFlowView::Finding { task_id, attachment_id },
            CommandView::FindAttachment { id: attachment_id, task_id },
        ),
    }
}

/// How an attachment deletion goes on after `event`. The record goes
/// first; whether the file can then be removed does not change the answer.
pub open spec fn delete_attachment_step(
    flow: DeleteAttachmentFlowView,
    event: EventView,
) -> DeleteAttachmentStep {
    match flow {
        DeleteAttachmentFlowView::Finding { task_id, attachment_id } => match event {
            EventView::Attachment(Some(row)) => StepView::Ask(
                DeleteAttachmentFlowView::Deleting { path: row.file_path },
                CommandView::DeleteAttachment { id: attachment_id, task_id },
            ),
            EventView::Attachment(None) => not_found("Attachment not found"@),
            _ => storage_failed("Failed to fetch attachment"@),
        },
        DeleteAttachmentFlowView::Deleting { path } => match event {
            EventView::Affected(rows) => if rows == 0 {
                not_found("Attachment not found"@)
            } else {
                StepView::Ask(DeleteAttachmentFlowView::Removing, CommandView::RemoveFile(path))
            },
            _ => storage_failed("Failed to delete attachment"@),
        },
        DeleteAttachmentFlowView::Removing => StepView::Done(
            Ok(success_reply(200, "Attachment deleted successfully"@, true)),
        ),
    }
}

/// Starts an attachment deletion for whom authentication found.
pub fn delete_attachment_as(
    who: Result<i32, ServiceError>,
    task_id: i32,
    attachment_id: i32,
) -> (step: Step<DeleteAttachmentFlow, Reply<bool>>)
    ensures
        step.deep_view() == delete_attachment_plan(outcome_view(who), task_id, attachment_id),
{
    match who {
        Err(e) => Step::Done(Err(e)),
        Ok(_) => Step::Ask(
            DeleteAttachmentFlow::Finding { task_id, attachment_id },
            Command::FindAttachment { id: attachment_id, task_id },
        ),
    }
}

/// Starts an attachment deletion.
pub fn delete_attachment(
    authorization: Option<&str>,
    config: &AppConfig,
    task_id: i32,
    attachment_id: i32,
) -> (step: Step<DeleteAttachmentFlow, Reply<bool>>)
    ensures
        exists|who: Result<i32, ServiceErrorView>|
            may_authenticate(authorization.deep_view(), who) && step.deep_view()
                == #[trigger] delete_attachment_plan(who, task_id, attachment_id),
{
    let who = get_user_from_token(authorization, config);
    let ghost seen = outcome_view(who);
    let step = delete_attachment_as(who, task_id, attachment_id);
    assert(step.deep_view() == delete_attachment_plan(seen, task_id, attachment_id));
    step
}

impl DeleteAttachmentFlow {
    /// Goes on with the deletion after `event`.
    pub fn step(self, event: Event) -> (step: Step<DeleteAttachmentFlow, Reply<bool>>)
        ensures
            step.deep_view() == delete_attachment_step(self.deep_view(), event.deep_view()),
    {
        match self {
            DeleteAttachmentFlow::Finding { task_id, attachment_id } => match event {
                Event::Attachment(Some(row)) => Step::Ask(
                    DeleteAttachmentFlow::Deleting { path: row.file_path },
                    Command::DeleteAttachment { id: attachment_id, task_id },
                ),
                Event::Attachment(None) => fail_not_found("Attachment not found"),
                _ => fail_storage("Failed to fetch attachment"),
            },
            DeleteAttachmentFlow::Deleting { path } => match event {
                Event::Affected(rows) => {
                    if rows == 0 {
                        fail_not_found("Attachment not found")
                    } else {
                        Step::Ask(DeleteAttachmentFlow::Removing, Command::RemoveFile(path))
                    }
                },
                _ => fail_storage("Failed to delete attachment"),
            },
            DeleteAttachmentFlow::Removing => Step::Done(
                Ok(Reply::success(200, "Attachment deleted successfully", true)),
            ),
        }
    }
}

/// A file that was written but could not be recorded does not stay: the
/// next thing asked is its removal, and only then does the upload fail.
pub proof fn unrecorded_file_is_removed(
    task_id: i32,
    path: Seq<char>,
    event: EventView,
    after: EventView,
    file_id: Seq<char>,
)
    requires
        !(event matches EventView::Attachment(Some(_))),
    ensures
        upload_step(UploadFlowView::Recording { task_id, path }, event, file_id) == StepView::<
            UploadFlowView,
            ReplyView<UploadResponseView>,
        >::Ask(UploadFlowView::Cleaning, CommandView::RemoveFile(path)),
        upload_step(UploadFlowView::Cleaning, after, file_id) == storage_failed::<
            UploadFlowView,
            ReplyView<UploadResponseView>,
        >("Failed to save attachment info"@),
{
}

/// The file that an upload has written is the one it records: the path it
/// asks to have written is the path of the record, and the size of the
/// record is the number of bytes written.
pub proof fn upload_records_what_it_writes(
    task_id: i32,
    user_id: i32,
    original_name: Seq<char>,
    stored_name: Seq<char>,
    data: Seq<u8>,
)
    requires
        data.len() <= MAX_FILE_SIZE,
    ensures
        upload_received(task_id, user_id, original_name, stored_name, data) matches StepView::Ask(
            UploadFlowView::Saving { record, .. },
            CommandView::WriteFile { path, data: written },
        ) ==> record.file_path == path && record.file_size == written.len() && written == data
            && record.original_name == original_name && record.uploaded_by == user_id,
{
}

/// How an upload goes on, as a function, where `file_id` is the id that a
/// file gets.
pub open spec fn upload_stepper(file_id: Seq<char>) -> spec_fn(UploadFlowView, EventView) -> UploadStep {
    |flow: UploadFlowView, event: EventView| upload_step(flow, event, file_id)
}

/// Whether `command` is one that an upload at `flow` can wait on: a file
/// that is being written is written where its record says.
pub open spec fn upload_awaits(flow: UploadFlowView, command: CommandView) -> bool {
    match flow {
        UploadFlowView::Saving { record, .. } => command matches CommandView::WriteFile {
            path,
            ..
        } && path == record.file_path,
        UploadFlowView::Recording { .. } => command is InsertAttachment,
        _ => !(command is WriteFile) && !(command is InsertAttachment),
    }
}

/// Wherever an upload stands in a run, it waits on a command that fits its
/// state.
proof fn lemma_upload_stands_consistent(
    who: Result<i32, ServiceErrorView>,
    task_id: i32,
    file_id: Seq<char>,
    events: Seq<EventView>,
    count: nat,
)
    ensures
        stand(upload_stepper(file_id), upload_file_plan(who, task_id), events, count)
            matches StepView::Ask(flow, command) ==> upload_awaits(flow, command),
    decreases count,
{
    if count > 0 {
        lemma_upload_stands_consistent(who, task_id, file_id, events, (count - 1) as nat);
        let before = stand(
            upload_stepper(file_id),
            upload_file_plan(who, task_id),
            events,
            (count - 1) as nat,
        );
        match before {
            StepView::Done(_) => {},
            StepView::Ask(flow, _) => {
                assert(upload_stepper(file_id)(flow, events[count as int - 1]) == upload_step(
                    flow,
                    events[count as int - 1],
                    file_id,
                ));
            },
        }
    }
}

/// In every run of an upload: once a file has been written, if the store
/// then fails to record it, the upload asks to have that very file removed,
/// and after that it ends in failure.
pub proof fn unrecorded_upload_leaves_no_file(
    who: Result<i32, ServiceErrorView>,
    task_id: i32,
    file_id: Seq<char>,
    events: Seq<EventView>,
    count: nat,
)
    requires
        stand(upload_stepper(file_id), upload_file_plan(who, task_id), events, count)
            matches StepView::Ask(_, command) && command is WriteFile,
        events[count as int] == EventView::Done,
        !(events[count as int + 1] matches EventView::Attachment(Some(_))),
    ensures
        stand(upload_stepper(file_id), upload_file_plan(who, task_id), events, count)
            matches StepView::Ask(_, CommandView::WriteFile { path, .. }) && stand(
            upload_stepper(file_id),
            upload_file_plan(who, task_id),
            events,
            count + 2,
        ) matches StepView::Ask(_, CommandView::RemoveFile(removed)) && removed == path,
        stand(upload_stepper(file_id), upload_file_plan(who, task_id), events, count + 3)
            == storage_failed::<UploadFlowView, ReplyView<UploadResponseView>>(
            "Failed to save attachment info"@,
        ),
{
    let next = upload_stepper(file_id);
    let first = upload_file_plan(who, task_id);
    lemma_upload_stands_consistent(who, task_id, file_id, events, count);
    let k: int = count as int;
    let writing = stand(next, first, events, count);
    let recording = stand(next, first, events, count + 1);
    let cleaning = stand(next, first, events, count + 2);
    let failing = stand(next, first, events, count + 3);
    match writing {
        StepView::Done(_) => {},
        StepView::Ask(flow, _) => {
            assert(recording == next(flow, events[k]));
            assert(next(flow, events[k]) == upload_step(
                flow,
                events[k],
                file_id,
            ));
            match recording {
                StepView::Done(_) => {},
                StepView::Ask(flow, _) => {
                    assert(cleaning == next(flow, events[k + 1]));
                    assert(next(flow, events[k + 1]) == upload_step(
                        flow,
                        events[k + 1],
                        file_id,
                    ));
                    match cleaning {
                        StepView::Done(_) => {},
                        StepView::Ask(flow, _) => {
                            assert(failing == next(flow, events[k + 2]));
                            assert(next(flow, events[k + 2]) == upload_step(
                                flow,
                                events[k + 2],
                                file_id,
                            ));
                        },
                    }
                },
            }
        },
    }
}

} // verus!
