//! Tasks and teams.

use crate::models::auth::Timestamp;
use crate::models::file::{TaskAttachmentSimple, TaskAttachmentSimpleView};
use vstd::prelude::*;

verus! {

/// A task as the store holds it.
#[derive(Debug, PartialEq, Eq)]
pub struct Task {
    pub id: i32,
    pub name: String,
    pub description: Option<String>,
    pub status: String,
    pub external_link: Option<String>,
    pub created_by: i32,
    pub created_at: Timestamp,
    pub updated_at: Timestamp,
}

/// [`Task`] as contracts see it: text as sequences of characters.
pub struct TaskView {
    pub id: i32,
    pub name: Seq<char>,
    pub description: Option<Seq<char>>,
    pub status: Seq<char>,
    pub external_link: Option<Seq<char>>,
    pub created_by: i32,
    pub created_at: Timestamp,
    pub updated_at: Timestamp,
}

impl DeepView for Task {
    type V = TaskView;

    open spec fn deep_view(&self) -> TaskView {
        TaskView {
            id: self.id,
            name: self.name@,
            description: self.description.deep_view(),
            status: self.status@,
            external_link: self.external_link.deep_view(),
            created_by: self.created_by,
            created_at: self.created_at,
            updated_at: self.updated_at,
        }
    }
}

impl TaskView {
    /// The task as clients see it, with its team names and attachment links.
    pub open spec fn enriched(
        self,
        teams: Seq<Seq<char>>,
        attachments: Seq<TaskAttachmentSimpleView>,
    ) -> TaskResponseView {
        TaskResponseView {
            id: self.id,
            name: self.name,
            description: self.description,
            status: self.status,
            external_link: self.external_link,
            created_by: self.created_by,
            teams,
            attachments,
            created_at: self.created_at,
            updated_at: self.updated_at,
        }
    }
}

impl Task {
    /// The task as clients see it, with its team names and attachment links.
    pub fn enrich(self, teams: Vec<String>, attachments: Vec<TaskAttachmentSimple>) -> (out:
        TaskResponse)
        ensures
            out.deep_view() == self.deep_view().enriched(
                teams.deep_view(),
                attachments.deep_view(),
            ),
    {
        TaskResponse {
            id: self.id,
            name: self.name,
            description: self.description,
            status: self.status,
            external_link: self.external_link,
            created_by: self.created_by,
            teams,
            attachments,
            created_at: self.created_at,
            updated_at: self.updated_at,
        }
    }
}

/// A task as clients see it.
#[derive(Debug, PartialEq, Eq)]
pub struct TaskResponse {
    pub id: i32,
    pub name: String,
    pub description: Option<String>,
    pub status: String,
    pub external_link: Option<String>,
    pub created_by: i32,
    pub teams: Vec<String>,
    pub attachments: Vec<TaskAttachmentSimple>,
    pub created_at: Timestamp,
    pub updated_at: Timestamp,
}

/// [`TaskResponse`] as contracts see it: text as sequences of characters.
pub struct TaskResponseView {
    pub id: i32,
    pub name: Seq<char>,
    pub description: Option<Seq<char>>,
    pub status: Seq<char>,
    pub external_link: Option<Seq<char>>,
    pub created_by: i32,
    pub teams: Seq<Seq<char>>,
    pub attachments: Seq<TaskAttachmentSimpleView>,
    pub created_at: Timestamp,
    pub updated_at: Timestamp,
}

impl DeepView for TaskResponse {
    type V = TaskResponseView;

    open spec fn deep_view(&self) -> TaskResponseView {
        TaskResponseView {
            id: self.id,
            name: self.name@,
            description: self.description.deep_view(),
            status: self.status@,
            external_link: self.external_link.deep_view(),
            created_by: self.created_by,
            teams: self.teams.deep_view(),
            attachments: self.attachments.deep_view(),
            created_at: self.created_at,
            updated_at: self.updated_at,
        }
    }
}

/// The body of a request to create a task.
#[derive(Debug, PartialEq, Eq)]
pub struct CreateTaskRequest {
    pub name: String,
    pub description: Option<String>,
    pub status: String,
    pub external_link: Option<String>,
    pub teams: Option<Vec<String>>,
}

/// [`CreateTaskRequest`] as contracts see it: text as sequences of characters.
pub struct CreateTaskRequestView {
    pub name: Seq<char>,
    pub description: Option<Seq<char>>,
    pub status: Seq<char>,
    pub external_link: Option<Seq<char>>,
    pub teams: Option<Seq<Seq<char>>>,
}

impl DeepView for CreateTaskRequest {
    type V = CreateTaskRequestView;

    open spec fn deep_view(&self) -> CreateTaskRequestView {
        CreateTaskRequestView {
            name: self.name@,
            description: self.description.deep_view(),
            status: self.status@,
            external_link: self.external_link.deep_view(),
            teams: self.teams.deep_view(),
        }
    }
}

/// The body of a request to update a task: every field is optional, and
/// only those present are applied.
#[derive(Debug, PartialEq, Eq)]
pub struct UpdateTaskRequest {
    pub name: Option<String>,
    pub description: Option<String>,
    pub status: Option<String>,
    pub external_link: Option<String>,
    pub teams: Option<Vec<String>>,
}

/// [`UpdateTaskRequest`] as contracts see it: text as sequences of characters.
pub struct UpdateTaskRequestView {
    pub name: Option<Seq<char>>,
    pub description: Option<Seq<char>>,
    pub status: Option<Seq<char>>,
    pub external_link: Option<Seq<char>>,
    pub teams: Option<Seq<Seq<char>>>,
}

impl DeepView for UpdateTaskRequest {
    type V = UpdateTaskRequestView;

    open spec fn deep_view(&self) -> UpdateTaskRequestView {
        UpdateTaskRequestView {
            name: self.name.deep_view(),
            description: self.description.deep_view(),
            status: self.status.deep_view(),
            external_link: self.external_link.deep_view(),
            teams: self.teams.deep_view(),
        }
    }
}

/// A team.
#[derive(Debug, PartialEq, Eq)]
pub struct Team {
    pub id: i32,
    pub name: String,
    pub created_at: Timestamp,
}

/// [`Team`] as contracts see it: text as sequences of characters.
pub struct TeamView {
    pub id: i32,
    pub name: Seq<char>,
    pub created_at: Timestamp,
}

impl DeepView for Team {
    type V = TeamView;

    open spec fn deep_view(&self) -> TeamView {
        TeamView { id: self.id, name: self.name@, created_at: self.created_at }
    }
}

} // verus!
