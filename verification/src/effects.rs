//! The protocol between an endpoint and the world around it. An endpoint
//! never queries the store or touches the disk itself: it names the command
//! it wants performed, and is later told the event that came of it.

use crate::database::DatabaseStats;
use crate::models::auth::{User, UserView};
use crate::models::file::{TaskAttachment, TaskAttachmentView};
use crate::models::task::{Task, TaskView, Team, TeamView};
use crate::text::{decimal, decimal_text};
use crate::utils::errors::{ServiceError, ServiceErrorView};
use vstd::prelude::*;
use vstd::string::*;

verus! {

/// The columns of a task that is about to be inserted.
#[derive(Debug, PartialEq, Eq)]
pub struct NewTask {
    pub name: String,
    pub description: Option<String>,
    pub status: String,
    pub external_link: Option<String>,
    pub created_by: i32,
}

/// [`NewTask`] as contracts see it: text as sequences of characters.
pub struct NewTaskView {
    pub name: Seq<char>,
    pub description: Option<Seq<char>>,
    pub status: Seq<char>,
    pub external_link: Option<Seq<char>>,
    pub created_by: i32,
}

impl DeepView for NewTask {
    type V = NewTaskView;

    open spec fn deep_view(&self) -> NewTaskView {
        NewTaskView {
            name: self.name@,
            description: self.description.deep_view(),
            status: self.status@,
            external_link: self.external_link.deep_view(),
            created_by: self.created_by,
        }
    }
}

/// The columns of a task that an update sets: those that are present.
/// The time of the update is always set with them.
#[derive(Debug, PartialEq, Eq)]
pub struct TaskChanges {
    pub name: Option<String>,
    pub description: Option<String>,
    pub status: Option<String>,
    pub external_link: Option<String>,
}

/// [`TaskChanges`] as contracts see it: text as sequences of characters.
pub struct TaskChangesView {
    pub name: Option<Seq<char>>,
    pub description: Option<Seq<char>>,
    pub status: Option<Seq<char>>,
    pub external_link: Option<Seq<char>>,
}

impl DeepView for TaskChanges {
    type V = TaskChangesView;

    open spec fn deep_view(&self) -> TaskChangesView {
        TaskChangesView {
            name: self.name.deep_view(),
            description: self.description.deep_view(),
            status: self.status.deep_view(),
            external_link: self.external_link.deep_view(),
        }
    }
}

impl TaskChangesView {
    /// Whether no column is set.
    pub open spec fn is_empty(self) -> bool {
        self.name is None && self.description is None && self.status is None
            && self.external_link is None
    }

    /// The row that the update leaves where it found `row`, at time `now`.
    pub open spec fn applied_to(self, row: TaskView, now: i64) -> TaskView {
        TaskView {
            id: row.id,
            name: match self.name {
                Some(name) => name,
                None => row.name,
            },
            description: match self.description {
                Some(text) => Some(text),
                None => row.description,
            },
            status: match self.status {
                Some(status) => status,
                None => row.status,
            },
            external_link: match self.external_link {
                Some(link) => Some(link),
                None => row.external_link,
            },
            created_by: row.created_by,
            created_at: row.created_at,
            updated_at: now,
        }
    }
}

/// The columns of a task, as a statement returns them.
pub open spec fn task_columns() -> Seq<char> {
    "id, name, description, status, external_link, created_by, created_at, updated_at"@
}

/// The part of an update statement that sets `column` to the value bound
/// at `index`.
pub open spec fn assignment(column: Seq<char>, index: int) -> Seq<char> {
    ", "@ + column + " = $"@ + decimal(index)
}

/// An update statement in the making: the text so far, and the index of the
/// next value to be bound.
pub struct Draft {
    pub text: Seq<char>,
    pub next: int,
}

impl Draft {
    /// The draft with `column` set, if a value for it is `present`.
    pub open spec fn set(self, column: Seq<char>, present: bool) -> Draft {
        if present {
            Draft { text: self.text + assignment(column, self.next), next: self.next + 1 }
        } else {
            self
        }
    }
}

impl TaskChangesView {
    /// The statement that writes the changes to a task and returns the row:
    /// it always sets the time of the update, then each column that is
    /// present, in the order name, description, status, link. The values
    /// are bound in that order, and the id of the task after them.
    pub open spec fn statement(self) -> Seq<char> {
        let draft = (Draft { text: "UPDATE tasks SET updated_at = NOW()"@, next: 1 }).set(
            "name"@,
            self.name is Some,
        ).set("description"@, self.description is Some).set("status"@, self.status is Some).set(
            "external_link"@,
            self.external_link is Some,
        );
        draft.text + " WHERE id = $"@ + decimal(draft.next) + " RETURNING "@ + task_columns()
    }

    /// The values that the statement binds before the id of the task, in
    /// order.
    pub open spec fn values(self) -> Seq<Seq<char>> {
        let none = Seq::<Seq<char>>::empty();
        (if self.name is Some {
            seq![self.name->0]
        } else {
            none
        }) + (if self.description is Some {
            seq![self.description->0]
        } else {
            none
        }) + (if self.status is Some {
            seq![self.status->0]
        } else {
            none
        }) + (if self.external_link is Some {
            seq![self.external_link->0]
        } else {
            none
        })
    }
}

/// Appends to `text` the part that sets `column`, if a value for it is
/// `present`, and counts it.
fn set_column(text: &mut String, next: &mut u8, column: &str, present: bool)
    requires
        *old(next) < 100,
    ensures
        (Draft { text: final(text)@, next: *final(next) as int }) == (Draft {
            text: old(text)@,
            next: *old(next) as int,
        }).set(column@, present),
{
    if present {
        text.append(", ");
        text.append(column);
        text.append(" = $");
        text.append(decimal_text(*next as i64).as_str());
        *next = *next + 1;
        assert(final(text)@ == old(text)@ + assignment(column@, *old(next) as int)) by {
            assert(old(text)@ + ", "@ + column@ + " = $"@ + decimal(*old(next) as int) =~= old(
                text,
            )@ + (", "@ + column@ + " = $"@ + decimal(*old(next) as int)));
        }
    }
}

impl TaskChanges {
    /// The statement that writes the changes to a task and returns the row.
    pub fn statement(&self) -> (sql: String)
        ensures
            sql@ == self.deep_view().statement(),
    {
        let mut sql = String::from_str("UPDATE tasks SET updated_at = NOW()");
        let mut next: u8 = 1;
        set_column(&mut sql, &mut next, "name", self.name.is_some());
        set_column(&mut sql, &mut next, "description", self.description.is_some());
        set_column(&mut sql, &mut next, "status", self.status.is_some());
        set_column(&mut sql, &mut next, "external_link", self.external_link.is_some());
        sql.append(" WHERE id = $");
        sql.append(decimal_text(next as i64).as_str());
        sql.append(" RETURNING ");
        sql.append(
            "id, name, description, status, external_link, created_by, created_at, updated_at",
        );
        sql
    }

    /// The values that the statement binds before the id of the task, in
    /// order.
    pub fn values(self) -> (values: Vec<String>)
        ensures
            values.deep_view() == self.deep_view().values(),
    {
        let mut values: Vec<String> = Vec::new();
        let ghost mut so_far = Seq::<Seq<char>>::empty();
        assert(values.deep_view() =~= so_far);
        if let Some(name) = self.name {
            values.push(name);
            proof {
                so_far = so_far + seq![name@];
            }
            assert(values.deep_view() =~= so_far);
        }
        if let Some(description) = self.description {
            values.push(description);
            proof {
                so_far = so_far + seq![description@];
            }
            assert(values.deep_view() =~= so_far);
        }
        if let Some(status) = self.status {
            values.push(status);
            proof {
                so_far = so_far + seq![status@];
            }
            assert(values.deep_view() =~= so_far);
        }
        if let Some(link) = self.external_link {
            values.push(link);
            proof {
                so_far = so_far + seq![link@];
            }
            assert(values.deep_view() =~= so_far);
        }
        assert(so_far =~= self.deep_view().values());
        values
    }
}

/// The columns of an attachment that is about to be recorded.
#[derive(Debug, PartialEq, Eq)]
pub struct NewAttachment {
    pub task_id: i32,
    pub file_name: String,
    pub original_name: String,
    pub file_path: String,
    pub file_size: i64,
    pub mime_type: String,
    pub uploaded_by: i32,
}

/// [`NewAttachment`] as contracts see it: text as sequences of characters.
pub struct NewAttachmentView {
    pub task_id: i32,
    pub file_name: Seq<char>,
    pub original_name: Seq<char>,
    pub file_path: Seq<char>,
    pub file_size: i64,
    pub mime_type: Seq<char>,
    pub uploaded_by: i32,
}

impl DeepView for NewAttachment {
    type V = NewAttachmentView;

    open spec fn deep_view(&self) -> NewAttachmentView {
        NewAttachmentView {
            task_id: self.task_id,
            file_name: self.file_name@,
            original_name: self.original_name@,
            file_path: self.file_path@,
            file_size: self.file_size,
            mime_type: self.mime_type@,
            uploaded_by: self.uploaded_by,
        }
    }
}

/// What an endpoint asks to have performed.
#[derive(Debug, PartialEq, Eq)]
pub enum Command {
    /// Look a user up by exact username. Answered by `Event::User`.
    FindUserByUsername(String),
    /// Look a user up by id. Answered by `Event::User`.
    FindUserById(i32),
    /// Open a transaction. Answered by `Event::Done`. Whatever is written
    /// until `CommitTransaction` is undone if the endpoint finishes without it.
    BeginTransaction,
    /// Commit the open transaction. Answered by `Event::Done`.
    CommitTransaction,
    /// Whether a task with this id exists. Answered by `Event::Exists`.
    CheckTask(i32),
    /// Insert a task, in the open transaction. Answered by `Event::Task`
    /// with the new row.
    InsertTask(NewTask),
    /// All tasks, newest first. Answered by `Event::Tasks`.
    ListTasks,
    /// The task with this id. Answered by `Event::Task`.
    FindTask(i32),
    /// The task with this id, read in the open transaction. Answered by
    /// `Event::Task`.
    RereadTask(i32),
    /// Set the given columns of a task and its time of update, in the open
    /// transaction. Answered by `Event::Task` with the row as it is then.
    UpdateTask(i32, TaskChanges),
    /// Delete the task with this id. Answered by `Event::Affected`.
    DeleteTask(i32),
    /// The id of the team with this name. Answered by `Event::TeamId`.
    FindTeamId(String),
    /// Assign a team to a task, in the open transaction. Answered by
    /// `Event::Done`.
    AssignTeam { task_id: i32, team_id: i32 },
    /// Remove every team assignment of a task, in the open transaction.
    /// Answered by `Event::Done`.
    ClearTeams(i32),
    /// The names of the teams assigned to a task. Answered by `Event::Names`.
    ListTeamNames(i32),
    /// All teams, by name. Answered by `Event::Teams`.
    ListTeams,
    /// Record an attachment. Answered by `Event::Attachment` with the new row.
    InsertAttachment(NewAttachment),
    /// The attachments of a task, newest first. Answered by
    /// `Event::Attachments`.
    ListAttachments(i32),
    /// The attachment with this id, if it belongs to the task named. Answered by
    /// `Event::Attachment`.
    FindAttachment { id: i32, task_id: i32 },
    /// Delete the attachment with this id, if it belongs to the task named.
    /// Answered by `Event::Affected`.
    DeleteAttachment { id: i32, task_id: i32 },
    /// Create the upload directory unless it exists. Answered by `Event::Done`.
    EnsureUploadDir,
    /// Read the next field of the upload form. Answered by `Event::Field` or
    /// `Event::EndOfForm`.
    NextField,
    /// Read the next chunk of the current field. Answered by `Event::Chunk`
    /// or `Event::EndOfFile`.
    NextChunk,
    /// Write a file. Answered by `Event::Done`.
    WriteFile { path: String, data: Vec<u8> },
    /// Remove a file if it is there. The answer does not matter.
    RemoveFile(String),
    /// Whether a file exists. Answered by `Event::Exists`.
    CheckFile(String),
    /// The contents of a file. Answered by `Event::Bytes`.
    ReadFile(String),
    /// Open the connection to the store at this address. Answered by
    /// `Event::Done`.
    Connect(String),
    /// Make a round trip to the store that returns the number one. Answered
    /// by `Event::Number`.
    Ping,
    /// The names of those of the service's tables that the store has.
    /// Answered by `Event::Names`.
    ListTables,
    /// Count users, teams, tasks and attachments. Answered by `Event::Stats`.
    CountRows,
}

/// [`Command`] as contracts see it: text as sequences of characters.
pub enum CommandView {
    FindUserByUsername(Seq<char>),
    FindUserById(i32),
    BeginTransaction,
    CommitTransaction,
    CheckTask(i32),
    InsertTask(NewTaskView),
    ListTasks,
    FindTask(i32),
    RereadTask(i32),
    UpdateTask(i32, TaskChangesView),
    DeleteTask(i32),
    FindTeamId(Seq<char>),
    AssignTeam { task_id: i32, team_id: i32 },
    ClearTeams(i32),
    ListTeamNames(i32),
    ListTeams,
    InsertAttachment(NewAttachmentView),
    ListAttachments(i32),
    FindAttachment { id: i32, task_id: i32 },
    DeleteAttachment { id: i32, task_id: i32 },
    EnsureUploadDir,
    NextField,
    NextChunk,
    WriteFile { path: Seq<char>, data: Seq<u8> },
    RemoveFile(Seq<char>),
    CheckFile(Seq<char>),
    ReadFile(Seq<char>),
    Connect(Seq<char>),
    Ping,
    ListTables,
    CountRows,
}

impl DeepView for Command {
    type V = CommandView;

    open spec fn deep_view(&self) -> CommandView {
        match self {
            Command::FindUserByUsername(name) => CommandView::FindUserByUsername(name@),
            Command::FindUserById(id) => CommandView::FindUserById(*id),
            Command::BeginTransaction => CommandView::BeginTransaction,
            Command::CommitTransaction => CommandView::CommitTransaction,
            Command::CheckTask(id) => CommandView::CheckTask(*id),
            Command::InsertTask(task) => CommandView::InsertTask(task.deep_view()),
            Command::ListTasks => CommandView::ListTasks,
            Command::FindTask(id) => CommandView::FindTask(*id),
            Command::RereadTask(id) => CommandView::RereadTask(*id),
            Command::UpdateTask(id, changes) => CommandView::UpdateTask(*id, changes.deep_view()),
            Command::DeleteTask(id) => CommandView::DeleteTask(*id),
            Command::FindTeamId(name) => CommandView::FindTeamId(name@),
            Command::AssignTeam { task_id, team_id } => CommandView::AssignTeam {
                task_id: *task_id,
                team_id: *team_id,
            },
            Command::ClearTeams(id) => CommandView::ClearTeams(*id),
            Command::ListTeamNames(id) => CommandView::ListTeamNames(*id),
            Command::ListTeams => CommandView::ListTeams,
            Command::InsertAttachment(a) => CommandView::InsertAttachment(a.deep_view()),
            Command::ListAttachments(id) => CommandView::ListAttachments(*id),
            Command::FindAttachment { id, task_id } => CommandView::FindAttachment {
                id: *id,
                task_id: *task_id,
            },
            Command::DeleteAttachment { id, task_id } => CommandView::DeleteAttachment {
                id: *id,
                task_id: *task_id,
            },
            Command::EnsureUploadDir => CommandView::EnsureUploadDir,
            Command::NextField => CommandView::NextField,
            Command::NextChunk => CommandView::NextChunk,
            Command::WriteFile { path, data } => CommandView::WriteFile {
                path: path@,
                data: data@,
            },
            Command::RemoveFile(path) => CommandView::RemoveFile(path@),
            Command::CheckFile(path) => CommandView::CheckFile(path@),
            Command::ReadFile(path) => CommandView::ReadFile(path@),
            Command::Connect(url) => CommandView::Connect(url@),
            Command::Ping => CommandView::Ping,
            Command::ListTables => CommandView::ListTables,
            Command::CountRows => CommandView::CountRows,
        }
    }
}

impl CommandView {
    /// Whether the command changes what the store holds, or makes such
    /// changes permanent.
    pub open spec fn writes_store(self) -> bool {
        match self {
            CommandView::CommitTransaction => true,
            CommandView::InsertTask(_) => true,
            CommandView::UpdateTask(_, _) => true,
            CommandView::DeleteTask(_) => true,
            CommandView::AssignTeam { .. } => true,
            CommandView::ClearTeams(_) => true,
            CommandView::InsertAttachment(_) => true,
            CommandView::DeleteAttachment { .. } => true,
            _ => false,
        }
    }

    /// Whether the command changes the team assignments of a task.
    pub open spec fn touches_teams(self) -> bool {
        self is AssignTeam || self is ClearTeams
    }
}

/// What came of a command.
#[derive(Debug, PartialEq, Eq)]
pub enum Event {
    /// The command failed; the text says how, for the log.
    Failed(String),
    /// The command was performed and has nothing to report.
    Done,
    /// The number of rows that the command changed.
    Affected(u64),
    /// Whether what was asked after exists.
    Exists(bool),
    /// The user that was looked up, if there is one.
    User(Option<User>),
    /// The task that was looked up, inserted or updated, if there is one.
    Task(Option<Task>),
    /// The tasks that were listed.
    Tasks(Vec<Task>),
    /// The id of the team that was looked up, if there is one.
    TeamId(Option<i32>),
    /// The team names that were listed.
    Names(Vec<String>),
    /// The teams that were listed.
    Teams(Vec<Team>),
    /// The attachment that was looked up or recorded, if there is one.
    Attachment(Option<TaskAttachment>),
    /// The attachments that were listed.
    Attachments(Vec<TaskAttachment>),
    /// A field of the upload form, with the file name it declares, if any.
    Field(Option<String>),
    /// The upload form has no more fields.
    EndOfForm,
    /// A chunk of the current field.
    Chunk(Vec<u8>),
    /// The current field has no more chunks.
    EndOfFile,
    /// The contents of the file that was read.
    Bytes(Vec<u8>),
    /// The number that the store returned.
    Number(i32),
    /// The row counts of the store.
    Stats(DatabaseStats),
}

/// [`Event`] as contracts see it: text as sequences of characters.
pub enum EventView {
    Failed(Seq<char>),
    Done,
    Affected(u64),
    Exists(bool),
    User(Option<UserView>),
    Task(Option<TaskView>),
    Tasks(Seq<TaskView>),
    TeamId(Option<i32>),
    Names(Seq<Seq<char>>),
    Teams(Seq<TeamView>),
    Attachment(Option<TaskAttachmentView>),
    Attachments(Seq<TaskAttachmentView>),
    Field(Option<Seq<char>>),
    EndOfForm,
    Chunk(Seq<u8>),
    EndOfFile,
    Bytes(Seq<u8>),
    Number(i32),
    Stats(DatabaseStats),
}

impl DeepView for Event {
    type V = EventView;

    open spec fn deep_view(&self) -> EventView {
        match self {
            Event::Failed(text) => EventView::Failed(text@),
            Event::Done => EventView::Done,
            Event::Affected(n) => EventView::Affected(*n),
            Event::Exists(b) => EventView::Exists(*b),
            Event::User(user) => EventView::User(user.deep_view()),
            Event::Task(task) => EventView::Task(task.deep_view()),
            Event::Tasks(tasks) => EventView::Tasks(tasks.deep_view()),
            Event::TeamId(id) => EventView::TeamId(*id),
            Event::Names(names) => EventView::Names(names.deep_view()),
            Event::Teams(teams) => EventView::Teams(teams.deep_view()),
            Event::Attachment(a) => EventView::Attachment(a.deep_view()),
            Event::Attachments(list) => EventView::Attachments(list.deep_view()),
            Event::Field(name) => EventView::Field(name.deep_view()),
            Event::EndOfForm => EventView::EndOfForm,
            Event::Chunk(data) => EventView::Chunk(data@),
            Event::EndOfFile => EventView::EndOfFile,
            Event::Bytes(data) => EventView::Bytes(data@),
            Event::Number(n) => EventView::Number(*n),
            Event::Stats(stats) => EventView::Stats(*stats),
        }
    }
}

/// Where an endpoint stands after it was started or told an event: either
/// it asks for a command, to go on from the state it hands back, or it is
/// done and has its answer.
#[derive(Debug, PartialEq, Eq)]
pub enum Step<F, T> {
    Ask(F, Command),
    Done(Result<T, ServiceError>),
}

/// [`Step`] as contracts see it: text as sequences of characters.
pub enum StepView<F, T> {
    Ask(F, CommandView),
    Done(Result<T, ServiceErrorView>),
}

impl<F: DeepView, T: DeepView> DeepView for Step<F, T> {
    type V = StepView<F::V, T::V>;

    open spec fn deep_view(&self) -> StepView<F::V, T::V> {
        match self {
            Step::Ask(flow, command) => StepView::Ask(flow.deep_view(), command.deep_view()),
            Step::Done(Ok(answer)) => StepView::Done(Ok(answer.deep_view())),
            Step::Done(Err(e)) => StepView::Done(Err(e.deep_view())),
        }
    }
}

impl<F, T> StepView<F, T> {
    /// Whether the step asks for a command that writes to the store.
    pub open spec fn writes_store(self) -> bool {
        self matches StepView::Ask(_, command) && command.writes_store()
    }

    /// Whether the step ends the endpoint with this failure.
    pub open spec fn fails_with(self, e: ServiceErrorView) -> bool {
        self == StepView::<F, T>::Done(Err(e))
    }
}

/// The step that ends an endpoint with an `Unauthorized` failure.
pub open spec fn unauthorized<F, T>(message: Seq<char>) -> StepView<F, T> {
    StepView::Done(Err(ServiceErrorView::Unauthorized(message)))
}

/// The step that ends an endpoint with a `NotFound` failure.
pub open spec fn not_found<F, T>(message: Seq<char>) -> StepView<F, T> {
    StepView::Done(Err(ServiceErrorView::NotFound(message)))
}

/// The step that ends an endpoint with a `ValidationError`.
pub open spec fn invalid<F, T>(message: Seq<char>) -> StepView<F, T> {
    StepView::Done(Err(ServiceErrorView::ValidationError(message)))
}

/// The step that ends an endpoint with a `DatabaseError`.
pub open spec fn storage_failed<F, T>(message: Seq<char>) -> StepView<F, T> {
    StepView::Done(Err(ServiceErrorView::DatabaseError(message)))
}

/// The step that ends an endpoint with an `InternalError`.
pub open spec fn internal<F, T>(message: Seq<char>) -> StepView<F, T> {
    StepView::Done(Err(ServiceErrorView::InternalError(message)))
}

/// Ends an endpoint with an `Unauthorized` failure.
pub fn fail_unauthorized<F: DeepView, T: DeepView>(message: &str) -> (step: Step<F, T>)
    ensures
        step.deep_view() == unauthorized::<F::V, T::V>(message@),
{
    Step::Done(Err(ServiceError::Unauthorized(String::from_str(message))))
}

/// Ends an endpoint with a `NotFound` failure.
pub fn fail_not_found<F: DeepView, T: DeepView>(message: &str) -> (step: Step<F, T>)
    ensures
        step.deep_view() == not_found::<F::V, T::V>(message@),
{
    Step::Done(Err(ServiceError::NotFound(String::from_str(message))))
}

/// Ends an endpoint with a `ValidationError`.
pub fn fail_invalid<F: DeepView, T: DeepView>(message: &str) -> (step: Step<F, T>)
    ensures
        step.deep_view() == invalid::<F::V, T::V>(message@),
{
    Step::Done(Err(ServiceError::ValidationError(String::from_str(message))))
}

/// Ends an endpoint with a `DatabaseError`.
pub fn fail_storage<F: DeepView, T: DeepView>(message: &str) -> (step: Step<F, T>)
    ensures
        step.deep_view() == storage_failed::<F::V, T::V>(message@),
{
    Step::Done(Err(ServiceError::DatabaseError(String::from_str(message))))
}

/// Ends an endpoint with an `InternalError`.
pub fn fail_internal<F: DeepView, T: DeepView>(message: &str) -> (step: Step<F, T>)
    ensures
        step.deep_view() == internal::<F::V, T::V>(message@),
{
    Step::Done(Err(ServiceError::InternalError(String::from_str(message))))
}

/// The commands that an endpoint asks, in order, when it stands at `first`,
/// goes on by `next`, and is told `events` one after the other. The run ends
/// when the endpoint is done or the events are used up.
pub open spec fn asked<F, T>(
    next: spec_fn(F, EventView) -> StepView<F, T>,
    first: StepView<F, T>,
    events: Seq<EventView>,
) -> Seq<CommandView>
    decreases events.len(),
{
    match first {
        StepView::Done(_) => Seq::empty(),
        StepView::Ask(flow, command) => if events.len() == 0 {
            seq![command]
        } else {
            seq![command] + asked(next, next(flow, events[0]), events.skip(1))
        },
    }
}

/// How such a run ends, if the events suffice to end it.
pub open spec fn outcome<F, T>(
    next: spec_fn(F, EventView) -> StepView<F, T>,
    first: StepView<F, T>,
    events: Seq<EventView>,
) -> Option<Result<T, ServiceErrorView>>
    decreases events.len(),
{
    match first {
        StepView::Done(end) => Some(end),
        StepView::Ask(flow, _) => if events.len() == 0 {
            None
        } else {
            outcome(next, next(flow, events[0]), events.skip(1))
        },
    }
}

/// Whether, in such a run, the store answers some request for the id of a
/// team that there is no team of that name.
pub open spec fn misses_a_team<F, T>(
    next: spec_fn(F, EventView) -> StepView<F, T>,
    first: StepView<F, T>,
    events: Seq<EventView>,
) -> bool
    decreases events.len(),
{
    match first {
        StepView::Done(_) => false,
        StepView::Ask(flow, command) => events.len() > 0 && ((command is FindTeamId && events[0]
            == EventView::TeamId(None)) || misses_a_team(
            next,
            next(flow, events[0]),
            events.skip(1),
        )),
    }
}

/// A run that starts with a command asks what the command's successor run
/// asks, after the command.
pub proof fn lemma_asked_contains<F, T>(
    next: spec_fn(F, EventView) -> StepView<F, T>,
    flow: F,
    command: CommandView,
    events: Seq<EventView>,
    wanted: CommandView,
)
    requires
        events.len() > 0,
    ensures
        asked(next, StepView::Ask(flow, command), events).contains(wanted) <==> (command == wanted
            || asked(next, next(flow, events[0]), events.skip(1)).contains(wanted)),
{
    let rest = asked(next, next(flow, events[0]), events.skip(1));
    let all = asked(next, StepView::Ask(flow, command), events);
    assert(all == seq![command] + rest);
    if command == wanted {
        assert(all[0] == wanted);
    }
    if rest.contains(wanted) {
        let i = choose|i: int| 0 <= i < rest.len() && rest[i] == wanted;
        assert(all[i + 1] == wanted);
    }
    if all.contains(wanted) {
        let i = choose|i: int| 0 <= i < all.len() && all[i] == wanted;
        if i > 0 {
            assert(rest[i - 1] == wanted);
        }
    }
}

/// Where such a run stands after the first `count` of the events.
pub open spec fn stand<F, T>(
    next: spec_fn(F, EventView) -> StepView<F, T>,
    first: StepView<F, T>,
    events: Seq<EventView>,
    count: nat,
) -> StepView<F, T>
    decreases count,
{
    if count == 0 {
        first
    } else {
        match stand(next, first, events, (count - 1) as nat) {
            StepView::Done(end) => StepView::Done(end),
            StepView::Ask(flow, _) => next(flow, events[count - 1]),
        }
    }
}

} // verus!
