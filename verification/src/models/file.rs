//! Task attachments.

use crate::models::auth::Timestamp;
use vstd::prelude::*;

verus! {

/// An attachment as the store holds it.
#[derive(Debug, PartialEq, Eq)]
pub struct TaskAttachment {
    pub id: i32,
    pub task_id: i32,
    pub file_name: String,
    pub original_name: String,
    pub file_path: String,
    pub file_size: i64,
    pub mime_type: String,
    pub uploaded_by: i32,
    pub created_at: Timestamp,
}

/// [`TaskAttachment`] as contracts see it: text as sequences of characters.
pub struct TaskAttachmentView {
    pub id: i32,
    pub task_id: i32,
    pub file_name: Seq<char>,
    pub original_name: Seq<char>,
    pub file_path: Seq<char>,
    pub file_size: i64,
    pub mime_type: Seq<char>,
    pub uploaded_by: i32,
    pub created_at: Timestamp,
}

impl DeepView for TaskAttachment {
    type V = TaskAttachmentView;

    open spec fn deep_view(&self) -> TaskAttachmentView {
        TaskAttachmentView {
            id: self.id,
            task_id: self.task_id,
            file_name: self.file_name@,
            original_name: self.original_name@,
            file_path: self.file_path@,
            file_size: self.file_size,
            mime_type: self.mime_type@,
            uploaded_by: self.uploaded_by,
            created_at: self.created_at,
        }
    }
}

/// An attachment as clients see it.
#[derive(Debug, PartialEq, Eq)]
pub struct AttachmentResponse {
    pub id: i32,
    pub task_id: i32,
    pub file_name: String,
    pub original_name: String,
    pub file_size: i64,
    pub mime_type: String,
    pub uploaded_by: i32,
    pub download_url: String,
    pub created_at: Timestamp,
}

/// [`AttachmentResponse`] as contracts see it: text as sequences of characters.
pub struct AttachmentResponseView {
    pub id: i32,
    pub task_id: i32,
    pub file_name: Seq<char>,
    pub original_name: Seq<char>,
    pub file_size: i64,
    pub mime_type: Seq<char>,
    pub uploaded_by: i32,
    pub download_url: Seq<char>,
    pub created_at: Timestamp,
}

impl DeepView for AttachmentResponse {
    type V = AttachmentResponseView;

    open spec fn deep_view(&self) -> AttachmentResponseView {
        AttachmentResponseView {
            id: self.id,
            task_id: self.task_id,
            file_name: self.file_name@,
            original_name: self.original_name@,
            file_size: self.file_size,
            mime_type: self.mime_type@,
            uploaded_by: self.uploaded_by,
            download_url: self.download_url@,
            created_at: self.created_at,
        }
    }
}

/// What a successful upload hands back.
#[derive(Debug, PartialEq, Eq)]
pub struct UploadResponse {
    pub attachment: AttachmentResponse,
    pub message: String,
}

/// [`UploadResponse`] as contracts see it: text as sequences of characters.
pub struct UploadResponseView {
    pub attachment: AttachmentResponseView,
    pub message: Seq<char>,
}

impl DeepView for UploadResponse {
    type V = UploadResponseView;

    open spec fn deep_view(&self) -> UploadResponseView {
        UploadResponseView { attachment: self.attachment.deep_view(), message: self.message@ }
    }
}

/// What is known of a file before it is stored.
#[derive(Debug, PartialEq, Eq)]
pub struct FileUploadInfo {
    pub file_name: String,
    pub file_size: i64,
    pub mime_type: String,
}

/// [`FileUploadInfo`] as contracts see it: text as sequences of characters.
pub struct FileUploadInfoView {
    pub file_name: Seq<char>,
    pub file_size: i64,
    pub mime_type: Seq<char>,
}

impl DeepView for FileUploadInfo {
    type V = FileUploadInfoView;

    open spec fn deep_view(&self) -> FileUploadInfoView {
        FileUploadInfoView {
            file_name: self.file_name@,
            file_size: self.file_size,
            mime_type: self.mime_type@,
        }
    }
}

/// An attachment as a task response lists it: a name and where to get it.
#[derive(Debug, PartialEq, Eq)]
pub struct TaskAttachmentSimple {
    pub name: String,
    pub url: String,
}

/// [`TaskAttachmentSimple`] as contracts see it: text as sequences of characters.
pub struct TaskAttachmentSimpleView {
    pub name: Seq<char>,
    pub url: Seq<char>,
}

impl DeepView for TaskAttachmentSimple {
    type V = TaskAttachmentSimpleView;

    open spec fn deep_view(&self) -> TaskAttachmentSimpleView {
        TaskAttachmentSimpleView { name: self.name@, url: self.url@ }
    }
}

/// The one field of an upload form: the file itself.
#[derive(Debug, PartialEq, Eq)]
pub struct UploadFileRequest {
    pub file: String,
}

/// [`UploadFileRequest`] as contracts see it: text as sequences of characters.
pub struct UploadFileRequestView {
    pub file: Seq<char>,
}

impl DeepView for UploadFileRequest {
    type V = UploadFileRequestView;

    open spec fn deep_view(&self) -> UploadFileRequestView {
        UploadFileRequestView { file: self.file@ }
    }
}

} // verus!
