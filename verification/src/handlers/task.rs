//! Tasks and teams: create, list, read, update, delete.

use crate::config::AppConfig;
use crate::effects::{
    asked, fail_invalid, fail_not_found, fail_storage, invalid, lemma_asked_contains,
    misses_a_team, not_found, outcome, storage_failed, Command, CommandView, Event, EventView,
    NewTask, NewTaskView, Step, StepView, TaskChanges, TaskChangesView,
};
use crate::handlers::auth::{get_user_from_token, may_authenticate};
use crate::handlers::file::{links, links_of};
pub use crate::handlers::auth::Claims;
use crate::models::auth::{success_reply, Reply, ReplyView};
use crate::models::file::{TaskAttachmentSimple, TaskAttachmentSimpleView};
use crate::models::task::{
    CreateTaskRequest, CreateTaskRequestView, Task, TaskResponse, TaskResponseView, TaskView,
    Team, TeamView, UpdateTaskRequest, UpdateTaskRequestView,
};
use crate::text::{blank, is_blank, join, same_text};
use crate::utils::errors::{outcome_view, ServiceError, ServiceErrorView};
use vstd::prelude::*;
use vstd::string::*;

verus! {

/// Whether `status` is one of the three a task can have.
pub open spec fn valid_status(status: Seq<char>) -> bool {
    status == "TO_DO"@ || status == "DOING"@ || status == "DONE"@
}

/// Whether `status` is one of the three a task can have.
pub fn is_valid_status(status: &str) -> (yes: bool)
    ensures
        yes == valid_status(status@),
{
    same_text(status, "TO_DO") || same_text(status, "DOING") || same_text(status, "DONE")
}

/// The failure that reports a team name that no team has.
pub open spec fn team_missing(name: Seq<char>) -> ServiceErrorView {
    ServiceErrorView::ValidationError("Team '"@ + name + "' not found"@)
}

/// The work of giving a task its teams: first every name is resolved to an
/// id, in the order of the request, then every id is assigned.
#[derive(Debug, PartialEq, Eq)]
pub enum TeamWork {
    /// The name after those already resolved is being looked up.
    Resolving { names: Vec<String>, ids: Vec<i32> },
    /// The id at `next` is being assigned.
    Assigning { names: Vec<String>, ids: Vec<i32>, next: usize },
}

/// [`TeamWork`] as contracts see it: text as sequences of characters.
pub enum TeamWorkView {
    Resolving { names: Seq<Seq<char>>, ids: Seq<i32> },
    Assigning { names: Seq<Seq<char>>, ids: Seq<i32>, next: usize },
}

impl DeepView for TeamWork {
    type V = TeamWorkView;

    open spec fn deep_view(&self) -> TeamWorkView {
        match self {
            TeamWork::Resolving { names, ids } => TeamWorkView::Resolving {
                names: names.deep_view(),
                ids: ids@,
            },
            TeamWork::Assigning { names, ids, next } => TeamWorkView::Assigning {
                names: names.deep_view(),
                ids: ids@,
                next: *next,
            },
        }
    }
}

/// Where the team work stands after an event.
#[derive(Debug, PartialEq, Eq)]
pub enum TeamProgress {
    /// There is more to do.
    Ask(TeamWork, Command),
    /// Every team of these names is assigned.
    Finished(Vec<String>),
    /// The work is given up.
    Failed(ServiceError),
}

/// [`TeamProgress`] as contracts see it: text as sequences of characters.
pub enum TeamProgressView {
    Ask(TeamWorkView, CommandView),
    Finished(Seq<Seq<char>>),
    Failed(ServiceErrorView),
}

impl DeepView for TeamProgress {
    type V = TeamProgressView;

    open spec fn deep_view(&self) -> TeamProgressView {
        match self {
            TeamProgress::Ask(work, command) => TeamProgressView::Ask(
                work.deep_view(),
                command.deep_view(),
            ),
            TeamProgress::Finished(names) => TeamProgressView::Finished(names.deep_view()),
            TeamProgress::Failed(e) => TeamProgressView::Failed(e.deep_view()),
        }
    }
}

/// How the team work for task `task_id` goes on after `event`. A name that
/// no team has ends it at once; nothing is assigned before every name is
/// resolved. Work that has no name left to resolve takes whatever it is
/// told as a failed lookup.
pub open spec fn team_step(work: TeamWorkView, task_id: i32, event: EventView) -> TeamProgressView {
    match work {
        TeamWorkView::Resolving { names, ids } => if ids.len() >= names.len() {
            TeamProgressView::Failed(ServiceErrorView::DatabaseError("Failed to query team"@))
        } else {
            match event {
                EventView::TeamId(Some(id)) => {
                    let ids = ids.push(id);
                    if ids.len() < names.len() {
                        TeamProgressView::Ask(
                            TeamWorkView::Resolving { names, ids },
                            CommandView::FindTeamId(names[ids.len() as int]),
                        )
                    } else {
                        TeamProgressView::Ask(
                            TeamWorkView::Assigning { names, ids, next: 0 },
                            CommandView::AssignTeam { task_id, team_id: ids[0] },
                        )
                    }
                },
                EventView::TeamId(None) => TeamProgressView::Failed(
                    team_missing(names[ids.len() as int]),
                ),
                _ => TeamProgressView::Failed(
                    ServiceErrorView::DatabaseError("Failed to query team"@),
                ),
            }
        },
        TeamWorkView::Assigning { names, ids, next } => match event {
            EventView::Done => if next + 1 < ids.len() {
                TeamProgressView::Ask(
                    TeamWorkView::Assigning { names, ids, next: (next + 1) as usize },
                    CommandView::AssignTeam { task_id, team_id: ids[next + 1] },
                )
            } else {
                TeamProgressView::Finished(names)
            },
            _ => TeamProgressView::Failed(
                ServiceErrorView::DatabaseError("Failed to assign team"@),
            ),
        },
    }
}

impl TeamWork {
    /// Goes on with the team work for task `task_id` after `event`.
    pub fn step(self, task_id: i32, event: Event) -> (progress: TeamProgress)
        ensures
            progress.deep_view() == team_step(self.deep_view(), task_id, event.deep_view()),
    {
        match self {
            TeamWork::Resolving { names, ids } => {
                if ids.len() >= names.len() {
                    return TeamProgress::Failed(
                        ServiceError::DatabaseError(String::from_str("Failed to query team")),
                    );
                }
                match event {
                    Event::TeamId(Some(id)) => {
                        let mut ids = ids;
                        ids.push(id);
                        if ids.len() < names.len() {
                            let name = names[ids.len()].clone();
                            TeamProgress::Ask(
                                TeamWork::Resolving { names, ids },
                                Command::FindTeamId(name),
                            )
                        } else {
                            let team_id = ids[0];
                            TeamProgress::Ask(
                                TeamWork::Assigning { names, ids, next: 0 },
                                Command::AssignTeam { task_id, team_id },
                            )
                        }
                    },
                    Event::TeamId(None) => {
                        let mut message = join("Team '", names[ids.len()].as_str());
                        message.append("' not found");
                        TeamProgress::Failed(ServiceError::ValidationError(message))
                    },
                    _ => TeamProgress::Failed(
                        ServiceError::DatabaseError(String::from_str("Failed to query team")),
                    ),
                }
            },
            TeamWork::Assigning { names, ids, next } => match event {
                Event::Done => {
                    if next < ids.len() && next + 1 < ids.len() {
                        let team_id = ids[next + 1];
                        TeamProgress::Ask(
                            TeamWork::Assigning { names, ids, next: next + 1 },
                            Command::AssignTeam { task_id, team_id },
                        )
                    } else {
                        TeamProgress::Finished(names)
                    }
                },
                _ => TeamProgress::Failed(
                    ServiceError::DatabaseError(String::from_str("Failed to assign team")),
                ),
            },
        }
    }
}

/// A task creation in progress.
#[derive(Debug, PartialEq, Eq)]
pub enum CreateTaskFlow {
    /// The transaction is being opened.
    Beginning { user_id: i32, request: CreateTaskRequest },
    /// The task is being inserted; `names` are the teams it is to get.
    Inserting { names: Vec<String> },
    /// The task is there and is being given its teams.
    Teams { row: Task, work: TeamWork },
    /// The transaction is being committed.
    Committing { row: Task, teams: Vec<String> },
}

/// [`CreateTaskFlow`] as contracts see it: text as sequences of characters.
pub enum CreateTaskFlowView {
    Beginning { user_id: i32, request: CreateTaskRequestView },
    Inserting { names: Seq<Seq<char>> },
    Teams { row: TaskView, work: TeamWorkView },
    Committing { row: TaskView, teams: Seq<Seq<char>> },
}

impl DeepView for CreateTaskFlow {
    type V = CreateTaskFlowView;

    open spec fn deep_view(&self) -> CreateTaskFlowView {
        match self {
            CreateTaskFlow::Beginning { user_id, request } => CreateTaskFlowView::Beginning {
                user_id: *user_id,
                request: request.deep_view(),
            },
            CreateTaskFlow::Inserting { names } => CreateTaskFlowView::Inserting {
                names: names.deep_view(),
            },
            CreateTaskFlow::Teams { row, work } => CreateTaskFlowView::Teams {
                row: row.deep_view(),
                work: work.deep_view(),
            },
            CreateTaskFlow::Committing { row, teams } => CreateTaskFlowView::Committing {
                row: row.deep_view(),
                teams: teams.deep_view(),
            },
        }
    }
}

/// Where the endpoint stands after a step, as contracts see it.
pub type CreateTaskStep = StepView<CreateTaskFlowView, ReplyView<TaskResponseView>>;

/// The team names that a request lists; none where it has no list.
pub open spec fn listed_teams(teams: Option<Seq<Seq<char>>>) -> Seq<Seq<char>> {
    match teams {
        Some(names) => names,
        None => Seq::empty(),
    }
}

/// The row that a request asks to have inserted for user `user_id`.
pub open spec fn new_task_of(request: CreateTaskRequestView, user_id: i32) -> NewTaskView {
    NewTaskView {
        name: request.name,
        description: request.description,
        status: request.status,
        external_link: request.external_link,
        created_by: user_id,
    }
}

/// How a task creation starts, by what authentication said. A blank name
/// or a status that is none of the three is refused before anything is asked
/// of the store.
pub open spec fn create_task_plan(
    who: Result<i32, ServiceErrorView>,
    request: CreateTaskRequestView,
) -> CreateTaskStep {
    match who {
        Err(e) => StepView::Done(Err(e)),
        Ok(user_id) => if blank(request.name) {
            invalid("Task name is required"@)
        } else if !valid_status(request.status) {
            invalid("Invalid task status"@)
        } else {
            StepView::Ask(
                CreateTaskFlowView::Beginning { user_id, request },
                CommandView::BeginTransaction,
            )
        },
    }
}

/// What follows once the row of a task is there and `names` are the teams
/// it is to get: the first name is resolved, or, with no names, the
/// transaction is committed.
pub open spec fn create_with_teams(row: TaskView, names: Seq<Seq<char>>) -> CreateTaskStep {
    if names.len() > 0 {
        StepView::Ask(
            CreateTaskFlowView::Teams {
                row,
                work: TeamWorkView::Resolving { names, ids: Seq::empty() },
            },
            CommandView::FindTeamId(names[0]),
        )
    } else {
        StepView::Ask(
            CreateTaskFlowView::Committing { row, teams: names },
            CommandView::CommitTransaction,
        )
    }
}

/// How a task creation goes on after `event`.
pub open spec fn create_task_step(flow: CreateTaskFlowView, event: EventView) -> CreateTaskStep {
    match flow {
        CreateTaskFlowView::Beginning { user_id, request } => match event {
            EventView::Done => StepView::Ask(
                CreateTaskFlowView::Inserting { names: listed_teams(request.teams) },
                CommandView::InsertTask(new_task_of(request, user_id)),
            ),
            _ => storage_failed("Transaction failed"@),
        },
        CreateTaskFlowView::Inserting { names } => match event {
            EventView::Task(Some(row)) => create_with_teams(row, names),
            _ => storage_failed("Failed to create task"@),
        },
        CreateTaskFlowView::Teams { row, work } => match team_step(work, row.id, event) {
            TeamProgressView::Ask(work, command) => StepView::Ask(
                CreateTaskFlowView::Teams { row, work },
                command,
            ),
            TeamProgressView::Finished(teams) => StepView::Ask(
                CreateTaskFlowView::Committing { row, teams },
                CommandView::CommitTransaction,
            ),
            TeamProgressView::Failed(e) => StepView::Done(Err(e)),
        },
        CreateTaskFlowView::Committing { row, teams } => match event {
            EventView::Done => StepView::Done(
                Ok(
                    success_reply(
                        201,
                        "Task created successfully"@,
                        row.enriched(teams, Seq::empty()),
                    ),
                ),
            ),
            _ => storage_failed("Transaction failed"@),
        },
    }
}

/// Starts a task creation for whom authentication found.
pub fn create_task_as(who: Result<i32, ServiceError>, request: CreateTaskRequest) -> (step: Step<
    CreateTaskFlow,
    Reply<TaskResponse>,
>)
    ensures
        step.deep_view() == create_task_plan(outcome_view(who), request.deep_view()),
{
    let user_id = match who {
        Err(e) => { return Step::Done(Err(e)); },
        Ok(user_id) => user_id,
    };
    if is_blank(request.name.as_str()) {
        return fail_invalid("Task name is required");
    }
    if !is_valid_status(request.status.as_str()) {
        return fail_invalid("Invalid task status");
    }
    Step::Ask(CreateTaskFlow::Beginning { user_id, request }, Command::BeginTransaction)
}

/// Starts a task creation.
pub fn create_task(
    authorization: Option<&str>,
    config: &AppConfig,
    request: CreateTaskRequest,
) -> (step: Step<CreateTaskFlow, Reply<TaskResponse>>)
    ensures
        exists|who: Result<i32, ServiceErrorView>|
            may_authenticate(authorization.deep_view(), who) && step.deep_view()
                == #[trigger] create_task_plan(who, request.deep_view()),
{
    let who = get_user_from_token(authorization, config);
    let ghost seen = outcome_view(who);
    let ghost asked = request.deep_view();
    let step = create_task_as(who, request);
    assert(step.deep_view() == create_task_plan(seen, asked));
    step
}

/// Goes on once the row of a task is there and `names` are the teams it is
/// to get.
fn create_teams(row: Task, names: Vec<String>) -> (step: Step<CreateTaskFlow, Reply<TaskResponse>>)
    ensures
        step.deep_view() == create_with_teams(row.deep_view(), names.deep_view()),
{
    if names.len() > 0 {
        let first = names[0].clone();
        let ids: Vec<i32> = Vec::new();
        Step::Ask(
            CreateTaskFlow::Teams { row, work: TeamWork::Resolving { names, ids } },
            Command::FindTeamId(first),
        )
    } else {
        Step::Ask(CreateTaskFlow::Committing { row, teams: names }, Command::CommitTransaction)
    }
}

impl CreateTaskFlow {
    /// Goes on with the task creation after `event`.
    pub fn step(self, event: Event) -> (step: Step<CreateTaskFlow, Reply<TaskResponse>>)
        ensures
            step.deep_view() == create_task_step(self.deep_view(), event.deep_view()),
    {
        match self {
            CreateTaskFlow::Beginning { user_id, request } => match event {
                Event::Done => {
                    let names = match request.teams {
                        Some(names) => names,
                        None => Vec::new(),
                    };
                    assert(names.deep_view() =~= listed_teams(request.teams.deep_view()));
                    Step::Ask(
                        CreateTaskFlow::Inserting { names },
                        Command::InsertTask(
                            NewTask {
                                name: request.name,
                                description: request.description,
                                status: request.status,
                                external_link: request.external_link,
                                created_by: user_id,
                            },
                        ),
                    )
                },
                _ => fail_storage("Transaction failed"),
            },
            CreateTaskFlow::Inserting { names } => match event {
                Event::Task(Some(row)) => create_teams(row, names),
                _ => fail_storage("Failed to create task"),
            },
            CreateTaskFlow::Teams { row, work } => match work.step(row.id, event) {
                TeamProgress::Ask(work, command) => Step::Ask(
                    CreateTaskFlow::Teams { row, work },
                    command,
                ),
                TeamProgress::Finished(teams) => Step::Ask(
                    CreateTaskFlow::Committing { row, teams },
                    Command::CommitTransaction,
                ),
                TeamProgress::Failed(e) => Step::Done(Err(e)),
            },
            CreateTaskFlow::Committing { row, teams } => match event {
                Event::Done => {
                    let attachments: Vec<TaskAttachmentSimple> = Vec::new();
                    assert(attachments.deep_view() =~= Seq::empty());
                    Step::Done(
                        Ok(
                            Reply::success(
                                201,
                                "Task created successfully",
                                row.enrich(teams, attachments),
                            ),
                        ),
                    )
                },
                _ => fail_storage("Transaction failed"),
            },
        }
    }
}

/// A task update in progress.
#[derive(Debug, PartialEq, Eq)]
pub enum UpdateTaskFlow {
    /// The task is being looked for.
    Checking { task_id: i32, request: UpdateTaskRequest },
    /// The transaction is being opened.
    Beginning { task_id: i32, request: UpdateTaskRequest },
    /// The row is being written, where `updating`, or else read again;
    /// `listed` are the teams that the request lists, if it lists any.
    Writing { task_id: i32, updating: bool, listed: Option<Vec<String>> },
    /// The old team assignments are being removed, to be replaced by `names`.
    Clearing { task_id: i32, row: Task, names: Vec<String> },
    /// The task is being given its new teams.
    Teams { task_id: i32, row: Task, work: TeamWork },
    /// The teams that the task keeps are being read.
    ReadingTeams { task_id: i32, row: Task },
    /// The transaction is being committed.
    Committing { task_id: i32, row: Task, teams: Vec<String> },
    /// The attachments are being read, after the commit.
    Links { task_id: i32, row: Task, teams: Vec<String> },
}

/// [`UpdateTaskFlow`] as contracts see it: text as sequences of characters.
pub enum UpdateTaskFlowView {
    Checking { task_id: i32, request: UpdateTaskRequestView },
    Beginning { task_id: i32, request: UpdateTaskRequestView },
    Writing { task_id: i32, updating: bool, listed: Option<Seq<Seq<char>>> },
    Clearing { task_id: i32, row: TaskView, names: Seq<Seq<char>> },
    Teams { task_id: i32, row: TaskView, work: TeamWorkView },
    ReadingTeams { task_id: i32, row: TaskView },
    Committing { task_id: i32, row: TaskView, teams: Seq<Seq<char>> },
    Links { task_id: i32, row: TaskView, teams: Seq<Seq<char>> },
}

impl DeepView for UpdateTaskFlow {
    type V = UpdateTaskFlowView;

    open spec fn deep_view(&self) -> UpdateTaskFlowView {
        match self {
            UpdateTaskFlow::Checking { task_id, request } => UpdateTaskFlowView::Checking {
                task_id: *task_id,
                request: request.deep_view(),
            },
            UpdateTaskFlow::Beginning { task_id, request } => UpdateTaskFlowView::Beginning {
                task_id: *task_id,
                request: request.deep_view(),
            },
            UpdateTaskFlow::Writing { task_id, updating, listed } => UpdateTaskFlowView::Writing {
                task_id: *task_id,
                updating: *updating,
                listed: listed.deep_view(),
            },
            UpdateTaskFlow::Clearing { task_id, row, names } => UpdateTaskFlowView::Clearing {
                task_id: *task_id,
                row: row.deep_view(),
                names: names.deep_view(),
            },
            UpdateTaskFlow::Teams { task_id, row, work } => UpdateTaskFlowView::Teams {
                task_id: *task_id,
                row: row.deep_view(),
                work: work.deep_view(),
            },
            UpdateTaskFlow::ReadingTeams { task_id, row } => UpdateTaskFlowView::ReadingTeams {
                task_id: *task_id,
                row: row.deep_view(),
            },
            UpdateTaskFlow::Committing { task_id, row, teams } => UpdateTaskFlowView::Committing {
                task_id: *task_id,
                row: row.deep_view(),
                teams: teams.deep_view(),
            },
            UpdateTaskFlow::Links { task_id, row, teams } => UpdateTaskFlowView::Links {
                task_id: *task_id,
                row: row.deep_view(),
                teams: teams.deep_view(),
            },
        }
    }
}

/// Where the endpoint stands after a step, as contracts see it.
pub type UpdateTaskStep = StepView<UpdateTaskFlowView, ReplyView<TaskResponseView>>;

/// The columns that an update request sets: those it holds.
pub open spec fn changes_of(request: UpdateTaskRequestView) -> TaskChangesView {
    TaskChangesView {
        name: request.name,
        description: request.description,
        status: request.status,
        external_link: request.external_link,
    }
}

/// How a task update starts, by what authentication said.
pub open spec fn update_task_plan(
    who: Result<i32, ServiceErrorView>,
    task_id: i32,
    request: UpdateTaskRequestView,
) -> UpdateTaskStep {
    match who {
        Err(e) => StepView::Done(Err(e)),
        Ok(_) => StepView::Ask(
            UpdateTaskFlowView::Checking { task_id, request },
            CommandView::CheckTask(task_id),
        ),
    }
}

/// What follows once the row of the task is in hand: with a team list in
/// the request the old assignments are removed, without one those that the
/// task has are read.
pub open spec fn update_with_row(
    task_id: i32,
    row: TaskView,
    teams: Option<Seq<Seq<char>>>,
) -> UpdateTaskStep {
    match teams {
        Some(names) => StepView::Ask(
            UpdateTaskFlowView::Clearing { task_id, row, names },
            CommandView::ClearTeams(task_id),
        ),
        None => StepView::Ask(
            UpdateTaskFlowView::ReadingTeams { task_id, row },
            CommandView::ListTeamNames(task_id),
        ),
    }
}

/// How a task update goes on after `event`.
pub open spec fn update_task_step(flow: UpdateTaskFlowView, event: EventView) -> UpdateTaskStep {
    match flow {
        UpdateTaskFlowView::Checking { task_id, request } => match event {
            EventView::Exists(true) => if request.status is Some && !valid_status(
                request.status->0,
            ) {
                invalid("Invalid task status"@)
            } else {
                StepView::Ask(
                    UpdateTaskFlowView::Beginning { task_id, request },
                    CommandView::BeginTransaction,
                )
            },
            EventView::Exists(false) => not_found("Task not found"@),
            _ => storage_failed("Failed to check task"@),
        },
        UpdateTaskFlowView::Beginning { task_id, request } => match event {
            EventView::Done => if changes_of(request).is_empty() {
                StepView::Ask(
                    UpdateTaskFlowView::Writing { task_id, updating: false, listed: request.teams },
                    CommandView::RereadTask(task_id),
                )
            } else {
                StepView::Ask(
                    UpdateTaskFlowView::Writing { task_id, updating: true, listed: request.teams },
                    CommandView::UpdateTask(task_id, changes_of(request)),
                )
            },
            _ => storage_failed("Transaction failed"@),
        },
        UpdateTaskFlowView::Writing { task_id, updating, listed } => match event {
            EventView::Task(Some(row)) => update_with_row(task_id, row, listed),
            _ => if updating {
                storage_failed("Failed to update task"@)
            } else {
                storage_failed("Failed to fetch task"@)
            },
        },
        UpdateTaskFlowView::Clearing { task_id, row, names } => match event {
            EventView::Done => if names.len() > 0 {
                StepView::Ask(
                    UpdateTaskFlowView::Teams {
                        task_id,
                        row,
                        work: TeamWorkView::Resolving { names, ids: Seq::empty() },
                    },
                    CommandView::FindTeamId(names[0]),
                )
            } else {
                StepView::Ask(
                    UpdateTaskFlowView::Committing { task_id, row, teams: names },
                    CommandView::CommitTransaction,
                )
            },
            _ => storage_failed("Failed to remove team assignments"@),
        },
        UpdateTaskFlowView::Teams { task_id, row, work } => match team_step(work, task_id, event) {
            TeamProgressView::Ask(work, command) => StepView::Ask(
                UpdateTaskFlowView::Teams { task_id, row, work },
                command,
            ),
            TeamProgressView::Finished(teams) => StepView::Ask(
                UpdateTaskFlowView::Committing { task_id, row, teams },
                CommandView::CommitTransaction,
            ),
            TeamProgressView::Failed(e) => StepView::Done(Err(e)),
        },
        UpdateTaskFlowView::ReadingTeams { task_id, row } => match event {
            EventView::Names(teams) => StepView::Ask(
                UpdateTaskFlowView::Committing { task_id, row, teams },
                CommandView::CommitTransaction,
            ),
            _ => storage_failed("Failed to query task teams"@),
        },
        UpdateTaskFlowView::Committing { task_id, row, teams } => match event {
            EventView::Done => StepView::Ask(
                UpdateTaskFlowView::Links { task_id, row, teams },
                CommandView::ListAttachments(task_id),
            ),
            _ => storage_failed("Transaction failed"@),
        },
        UpdateTaskFlowView::Links { task_id, row, teams } => match event {
            EventView::Attachments(rows) => StepView::Done(
                Ok(
                    success_reply(
                        200,
                        "Task updated successfully"@,
                        row.enriched(teams, links_of(rows, task_id)),
                    ),
                ),
            ),
            _ => storage_failed("Failed to query task attachments"@),
        },
    }
}

/// Starts a task update for whom authentication found.
pub fn update_task_as(who: Result<i32, ServiceError>, task_id: i32, request: UpdateTaskRequest) -> (step:
    Step<UpdateTaskFlow, Reply<TaskResponse>>)
    ensures
        step.deep_view() == update_task_plan(outcome_view(who), task_id, request.deep_view()),
{
    match who {
        Err(e) => Step::Done(Err(e)),
        Ok(_) => Step::Ask(
            UpdateTaskFlow::Checking { task_id, request },
            Command::CheckTask(task_id),
        ),
    }
}

/// Starts a task update.
pub fn update_task(
    authorization: Option<&str>,
    config: &AppConfig,
    task_id: i32,
    request: UpdateTaskRequest,
) -> (step: Step<UpdateTaskFlow, Reply<TaskResponse>>)
    ensures
        exists|who: Result<i32, ServiceErrorView>|
            may_authenticate(authorization.deep_view(), who) && step.deep_view()
                == #[trigger] update_task_plan(who, task_id, request.deep_view()),
{
    let who = get_user_from_token(authorization, config);
    let ghost seen = outcome_view(who);
    let ghost asked = request.deep_view();
    let step = update_task_as(who, task_id, request);
    assert(step.deep_view() == update_task_plan(seen, task_id, asked));
    step
}

impl UpdateTaskFlow {
    /// Goes on with the task update after `event`.
    pub fn step(self, event: Event) -> (step: Step<UpdateTaskFlow, Reply<TaskResponse>>)
        ensures
            step.deep_view() == update_task_step(self.deep_view(), event.deep_view()),
    {
        match self {
            UpdateTaskFlow::Checking { task_id, request } => match event {
                Event::Exists(true) => {
                    let status_ok = match &request.status {
                        Some(status) => is_valid_status(status.as_str()),
                        None => true,
                    };
                    if !status_ok {
                        return fail_invalid("Invalid task status");
                    }
                    Step::Ask(
                        UpdateTaskFlow::Beginning { task_id, request },
                        Command::BeginTransaction,
                    )
                },
                Event::Exists(false) => fail_not_found("Task not found"),
                _ => fail_storage("Failed to check task"),
            },
            UpdateTaskFlow::Beginning { task_id, request } => match event {
                Event::Done => {
                    let updating = request.name.is_some() || request.description.is_some()
                        || request.status.is_some() || request.external_link.is_some();
                    if updating {
                        Step::Ask(
                            UpdateTaskFlow::Writing { task_id, updating: true, listed: request.teams },
                            Command::UpdateTask(
                                task_id,
                                TaskChanges {
                                    name: request.name,
                                    description: request.description,
                                    status: request.status,
                                    external_link: request.external_link,
                                },
                            ),
                        )
                    } else {
                        Step::Ask(
                            UpdateTaskFlow::Writing { task_id, updating: false, listed: request.teams },
                            Command::RereadTask(task_id),
                        )
                    }
                },
                _ => fail_storage("Transaction failed"),
            },
            UpdateTaskFlow::Writing { task_id, updating, listed } => match event {
                Event::Task(Some(row)) => match listed {
                    Some(names) => Step::Ask(
                        UpdateTaskFlow::Clearing { task_id, row, names },
                        Command::ClearTeams(task_id),
                    ),
                    None => Step::Ask(
                        UpdateTaskFlow::ReadingTeams { task_id, row },
                        Command::ListTeamNames(task_id),
                    ),
                },
                _ => if updating {
                    fail_storage("Failed to update task")
                } else {
                    fail_storage("Failed to fetch task")
                },
            },
            UpdateTaskFlow::Clearing { task_id, row, names } => match event {
                Event::Done => {
                    if names.len() > 0 {
                        let first = names[0].clone();
                        let ids: Vec<i32> = Vec::new();
                        Step::Ask(
                            UpdateTaskFlow::Teams {
                                task_id,
                                row,
                                work: TeamWork::Resolving { names, ids },
                            },
                            Command::FindTeamId(first),
                        )
                    } else {
                        Step::Ask(
                            UpdateTaskFlow::Committing { task_id, row, teams: names },
                            Command::CommitTransaction,
                        )
                    }
                },
                _ => fail_storage("Failed to remove team assignments"),
            },
            UpdateTaskFlow::Teams { task_id, row, work } => match work.step(task_id, event) {
                TeamProgress::Ask(work, command) => Step::Ask(
                    UpdateTaskFlow::Teams { task_id, row, work },
                    command,
                ),
                TeamProgress::Finished(teams) => Step::Ask(
                    UpdateTaskFlow::Committing { task_id, row, teams },
                    Command::CommitTransaction,
                ),
                TeamProgress::Failed(e) => Step::Done(Err(e)),
            },
            UpdateTaskFlow::ReadingTeams { task_id, row } => match event {
                Event::Names(teams) => Step::Ask(
                    UpdateTaskFlow::Committing { task_id, row, teams },
                    Command::CommitTransaction,
                ),
                _ => fail_storage("Failed to query task teams"),
            },
            UpdateTaskFlow::Committing { task_id, row, teams } => match event {
                Event::Done => Step::Ask(
                    UpdateTaskFlow::Links { task_id, row, teams },
                    Command::ListAttachments(task_id),
                ),
                _ => fail_storage("Transaction failed"),
            },
            UpdateTaskFlow::Links { task_id, row, teams } => match event {
                Event::Attachments(rows) => Step::Done(
                    Ok(
                        Reply::success(
                            200,
                            "Task updated successfully",
                            row.enrich(teams, links(rows, task_id)),
                        ),
                    ),
                ),
                _ => fail_storage("Failed to query task attachments"),
            },
        }
    }
}

/// A listing of all tasks in progress. The rows come newest first; each is
/// given its team names and its attachment links in turn.
#[derive(Debug, PartialEq, Eq)]
pub enum TaskListFlow {
    /// The rows are being read.
    Listing,
    /// The teams of the first of `rest` are being read.
    Teams { rest: Vec<Task>, done: Vec<TaskResponse> },
    /// The attachments of the first of `rest` are being read.
    Links { rest: Vec<Task>, done: Vec<TaskResponse>, teams: Vec<String> },
}

/// [`TaskListFlow`] as contracts see it: text as sequences of characters.
pub enum TaskListFlowView {
    Listing,
    Teams { rest: Seq<TaskView>, done: Seq<TaskResponseView> },
    Links { rest: Seq<TaskView>, done: Seq<TaskResponseView>, teams: Seq<Seq<char>> },
}

impl DeepView for TaskListFlow {
    type V = TaskListFlowView;

    open spec fn deep_view(&self) -> TaskListFlowView {
        match self {
            TaskListFlow::Listing => TaskListFlowView::Listing,
            TaskListFlow::Teams { rest, done } => TaskListFlowView::Teams {
                rest: rest.deep_view(),
                done: done.deep_view(),
            },
            TaskListFlow::Links { rest, done, teams } => TaskListFlowView::Links {
                rest: rest.deep_view(),
                done: done.deep_view(),
                teams: teams.deep_view(),
            },
        }
    }
}

/// Where the endpoint stands after a step, as contracts see it.
pub type TaskListStep = StepView<TaskListFlowView, ReplyView<Seq<TaskResponseView>>>;

/// How a listing of all tasks starts, by what authentication said.
pub open spec fn get_tasks_plan(who: Result<i32, ServiceErrorView>) -> TaskListStep {
    match who {
        Err(e) => StepView::Done(Err(e)),
        Ok(_) => StepView::Ask(TaskListFlowView::Listing, CommandView::ListTasks),
    }
}

/// What follows when `rest` are the rows still to be enriched and `done`
/// those that are: the teams of the next row are read, or the list is
/// answered.
pub open spec fn list_onward(rest: Seq<TaskView>, done: Seq<TaskResponseView>) -> TaskListStep {
    if rest.len() > 0 {
        StepView::Ask(
            TaskListFlowView::Teams { rest, done },
            CommandView::ListTeamNames(rest[0].id),
        )
    } else {
        StepView::Done(Ok(success_reply(200, "Tasks retrieved successfully"@, done)))
    }
}

/// How a listing of all tasks goes on after `event`.
pub open spec fn get_tasks_step(flow: TaskListFlowView, event: EventView) -> TaskListStep {
    match flow {
        TaskListFlowView::Listing => match event {
            EventView::Tasks(rows) => list_onward(rows, Seq::empty()),
            _ => storage_failed("Failed to fetch tasks"@),
        },
        TaskListFlowView::Teams { rest, done } => match event {
            EventView::Names(teams) => if rest.len() > 0 {
                StepView::Ask(
                    TaskListFlowView::Links { rest, done, teams },
                    CommandView::ListAttachments(rest[0].id),
                )
            } else {
                list_onward(rest, done)
            },
            _ => storage_failed("Failed to query task teams"@),
        },
        TaskListFlowView::Links { rest, done, teams } => match event {
            EventView::Attachments(rows) => if rest.len() > 0 {
                list_onward(
                    rest.skip(1),
                    done.push(rest[0].enriched(teams, links_of(rows, rest[0].id))),
                )
            } else {
                list_onward(rest, done)
            },
            _ => storage_failed("Failed to query task attachments"@),
        },
    }
}

/// Starts a listing of all tasks for whom authentication found.
pub fn get_tasks_as(who: Result<i32, ServiceError>) -> (step: Step<
    TaskListFlow,
    Reply<Vec<TaskResponse>>,
>)
    ensures
        step.deep_view() == get_tasks_plan(outcome_view(who)),
{
    match who {
        Err(e) => Step::Done(Err(e)),
        Ok(_) => Step::Ask(TaskListFlow::Listing, Command::ListTasks),
    }
}

/// Starts a listing of all tasks.
pub fn get_tasks(authorization: Option<&str>, config: &AppConfig) -> (step: Step<
    TaskListFlow,
    Reply<Vec<TaskResponse>>,
>)
    ensures
        exists|who: Result<i32, ServiceErrorView>|
            may_authenticate(authorization.deep_view(), who) && step.deep_view()
                == #[trigger] get_tasks_plan(who),
{
    let who = get_user_from_token(authorization, config);
    let ghost seen = outcome_view(who);
    let step = get_tasks_as(who);
    assert(step.deep_view() == get_tasks_plan(seen));
    step
}

/// Goes on with a listing where `rest` are the rows still to be enriched.
fn list_on(rest: Vec<Task>, done: Vec<TaskResponse>) -> (step: Step<
    TaskListFlow,
    Reply<Vec<TaskResponse>>,
>)
    ensures
        step.deep_view() == list_onward(rest.deep_view(), done.deep_view()),
{
    if rest.len() > 0 {
        let id = rest[0].id;
        Step::Ask(TaskListFlow::Teams { rest, done }, Command::ListTeamNames(id))
    } else {
        Step::Done(Ok(Reply::success(200, "Tasks retrieved successfully", done)))
    }
}

impl TaskListFlow {
    /// Goes on with the listing after `event`.
    pub fn step(self, event: Event) -> (step: Step<TaskListFlow, Reply<Vec<TaskResponse>>>)
        ensures
            step.deep_view() == get_tasks_step(self.deep_view(), event.deep_view()),
    {
        match self {
            TaskListFlow::Listing => match event {
                Event::Tasks(rows) => {
                    let done: Vec<TaskResponse> = Vec::new();
                    assert(done.deep_view() =~= Seq::empty());
                    list_on(rows, done)
                },
                _ => fail_storage("Failed to fetch tasks"),
            },
            TaskListFlow::Teams { rest, done } => match event {
                Event::Names(teams) => {
                    if rest.len() > 0 {
                        let id = rest[0].id;
                        Step::Ask(
                            TaskListFlow::Links { rest, done, teams },
                            Command::ListAttachments(id),
                        )
                    } else {
                        list_on(rest, done)
                    }
                },
                _ => fail_storage("Failed to query task teams"),
            },
            TaskListFlow::Links { rest, done, teams } => match event {
                Event::Attachments(rows) => {
                    if rest.len() > 0 {
                        let mut rest = rest;
                        let mut done = done;
                        let ghost before = rest.deep_view();
                        let ghost listed = done.deep_view();
                        let row = rest.remove(0);
                        assert(rest.deep_view() =~= before.skip(1));
                        assert(row.deep_view() == before[0]);
                        let id = row.id;
                        let entry = row.enrich(teams, links(rows, id));
                        let ghost shown = entry.deep_view();
                        done.push(entry);
                        assert(done.deep_view() =~= listed.push(shown));
                        list_on(rest, done)
                    } else {
                        list_on(rest, done)
                    }
                },
                _ => fail_storage("Failed to query task attachments"),
            },
        }
    }
}

/// A reading of one task in progress.
#[derive(Debug, PartialEq, Eq)]
pub enum TaskFlow {
    /// The row is being looked for.
    Finding { task_id: i32 },
    /// The teams of the task are being read.
    Teams { task_id: i32, row: Task },
    /// The attachments of the task are being read.
    Links { task_id: i32, row: Task, teams: Vec<String> },
}

/// [`TaskFlow`] as contracts see it: text as sequences of characters.
pub enum TaskFlowView {
    Finding { task_id: i32 },
    Teams { task_id: i32, row: TaskView },
    Links { task_id: i32, row: TaskView, teams: Seq<Seq<char>> },
}

impl DeepView for TaskFlow {
    type V = TaskFlowView;

    open spec fn deep_view(&self) -> TaskFlowView {
        match self {
            TaskFlow::Finding { task_id } => TaskFlowView::Finding { task_id: *task_id },
            TaskFlow::Teams { task_id, row } => TaskFlowView::Teams {
                task_id: *task_id,
                row: row.deep_view(),
            },
            TaskFlow::Links { task_id, row, teams } => TaskFlowView::Links {
                task_id: *task_id,
                row: row.deep_view(),
                teams: teams.deep_view(),
            },
        }
    }
}

/// Where the endpoint stands after a step, as contracts see it.
pub type TaskStep = StepView<TaskFlowView, ReplyView<Option<TaskResponseView>>>;

/// How a reading of one task starts, by what authentication said.
pub open spec fn get_task_plan(who: Result<i32, ServiceErrorView>, task_id: i32) -> TaskStep {
    match who {
        Err(e) => StepView::Done(Err(e)),
        Ok(_) => StepView::Ask(TaskFlowView::Finding { task_id }, CommandView::FindTask(task_id)),
    }
}

/// How a reading of one task goes on after `event`. A task that is not
/// there is answered as a success that carries no task.
pub open spec fn get_task_step(flow: TaskFlowView, event: EventView) -> TaskStep {
    match flow {
        TaskFlowView::Finding { task_id } => match event {
            EventView::Task(Some(row)) => StepView::Ask(
                TaskFlowView::Teams { task_id, row },
                CommandView::ListTeamNames(task_id),
            ),
            EventView::Task(None) => StepView::Done(
                Ok(success_reply(200, "Task not found"@, None)),
            ),
            _ => storage_failed("Failed to fetch task"@),
        },
        TaskFlowView::Teams { task_id, row } => match event {
            EventView::Names(teams) => StepView::Ask(
                TaskFlowView::Links { task_id, row, teams },
                CommandView::ListAttachments(task_id),
            ),
            _ => storage_failed("Failed to query task teams"@),
        },
        TaskFlowView::Links { task_id, row, teams } => match event {
            EventView::Attachments(rows) => StepView::Done(
                Ok(
                    success_reply(
                        200,
                        "Task retrieved successfully"@,
                        Some(row.enriched(teams, links_of(rows, task_id))),
                    ),
                ),
            ),
            _ => storage_failed("Failed to query task attachments"@),
        },
    }
}

/// Starts a reading of one task for whom authentication found.
pub fn get_task_as(who: Result<i32, ServiceError>, task_id: i32) -> (step: Step<
    TaskFlow,
    Reply<Option<TaskResponse>>,
>)
    ensures
        step.deep_view() == get_task_plan(outcome_view(who), task_id),
{
    match who {
        Err(e) => Step::Done(Err(e)),
        Ok(_) => Step::Ask(TaskFlow::Finding { task_id }, Command::FindTask(task_id)),
    }
}

/// Starts a reading of one task.
pub fn get_task(authorization: Option<&str>, config: &AppConfig, task_id: i32) -> (step: Step<
    TaskFlow,
    Reply<Option<TaskResponse>>,
>)
    ensures
        exists|who: Result<i32, ServiceErrorView>|
            may_authenticate(authorization.deep_view(), who) && step.deep_view()
                == #[trigger] get_task_plan(who, task_id),
{
    let who = get_user_from_token(authorization, config);
    let ghost seen = outcome_view(who);
    let step = get_task_as(who, task_id);
    assert(step.deep_view() == get_task_plan(seen, task_id));
    step
}

impl TaskFlow {
    /// Goes on with the reading after `event`.
    pub fn step(self, event: Event) -> (step: Step<TaskFlow, Reply<Option<TaskResponse>>>)
        ensures
            step.deep_view() == get_task_step(self.deep_view(), event.deep_view()),
    {
        match self {
            TaskFlow::Finding { task_id } => match event {
                Event::Task(Some(row)) => Step::Ask(
                    TaskFlow::Teams { task_id, row },
                    Command::ListTeamNames(task_id),
                ),
                Event::Task(None) => Step::Done(Ok(Reply::success(200, "Task not found", None))),
                _ => fail_storage("Failed to fetch task"),
            },
            TaskFlow::Teams { task_id, row } => match event {
                Event::Names(teams) => Step::Ask(
                    TaskFlow::Links { task_id, row, teams },
                    Command::ListAttachments(task_id),
                ),
                _ => fail_storage("Failed to query task teams"),
            },
            TaskFlow::Links { task_id, row, teams } => match event {
                Event::Attachments(rows) => Step::Done(
                    Ok(
                        Reply::success(
                            200,
                            "Task retrieved successfully",
                            Some(row.enrich(teams, links(rows, task_id))),
                        ),
                    ),
                ),
                _ => fail_storage("Failed to query task attachments"),
            },
        }
    }
}

/// A task deletion that waits for the store.
#[derive(Debug, Clone, Copy, PartialEq, Eq, Structural)]
pub struct DeleteTaskFlow {
    pub task_id: i32,
}

impl DeepView for DeleteTaskFlow {
    type V = DeleteTaskFlow;

    open spec fn deep_view(&self) -> DeleteTaskFlow {
        *self
    }
}

/// Where the endpoint stands after a step, as contracts see it.
pub type DeleteTaskStep = StepView<DeleteTaskFlow, ReplyView<bool>>;

/// How a task deletion starts, by what authentication said.
pub open spec fn delete_task_plan(who: Result<i32, ServiceErrorView>, task_id: i32) -> DeleteTaskStep {
    match who {
        Err(e) => StepView::Done(Err(e)),
        Ok(_) => StepView::Ask(DeleteTaskFlow { task_id }, CommandView::DeleteTask(task_id)),
    }
}

/// How a task deletion ends once the store has answered: where no row was
/// deleted, the task was not there.
pub open spec fn delete_task_step(event: EventView) -> DeleteTaskStep {
    match event {
        EventView::Affected(rows) => if rows == 0 {
            not_found("Task not found"@)
        } else {
            StepView::Done(Ok(success_reply(200, "Task deleted successfully"@, true)))
        },
        _ => storage_failed("Failed to delete task"@),
    }
}

/// Starts a task deletion for whom authentication found.
pub fn delete_task_as(who: Result<i32, ServiceError>, task_id: i32) -> (step: Step<
    DeleteTaskFlow,
    Reply<bool>,
>)
    ensures
        step.deep_view() == delete_task_plan(outcome_view(who), task_id),
{
    match who {
        Err(e) => Step::Done(Err(e)),
        Ok(_) => Step::Ask(DeleteTaskFlow { task_id }, Command::DeleteTask(task_id)),
    }
}

/// Starts a task deletion.
pub fn delete_task(authorization: Option<&str>, config: &AppConfig, task_id: i32) -> (step: Step<
    DeleteTaskFlow,
    Reply<bool>,
>)
    ensures
        exists|who: Result<i32, ServiceErrorView>|
            may_authenticate(authorization.deep_view(), who) && step.deep_view()
                == #[trigger] delete_task_plan(who, task_id),
{
    let who = get_user_from_token(authorization, config);
    let ghost seen = outcome_view(who);
    let step = delete_task_as(who, task_id);
    assert(step.deep_view() == delete_task_plan(seen, task_id));
    step
}

impl DeleteTaskFlow {
    /// Ends the deletion with what the store answered.
    pub fn step(self, event: Event) -> (step: Step<DeleteTaskFlow, Reply<bool>>)
        ensures
            step.deep_view() == delete_task_step(event.deep_view()),
    {
        match event {
            Event::Affected(rows) => {
                if rows == 0 {
                    fail_not_found("Task not found")
                } else {
                    Step::Done(Ok(Reply::success(200, "Task deleted successfully", true)))
                }
            },
            _ => fail_storage("Failed to delete task"),
        }
    }
}

/// A listing of all teams that waits for the store.
#[derive(Debug, Clone, Copy, PartialEq, Eq, Structural)]
pub struct TeamListFlow {}

impl DeepView for TeamListFlow {
    type V = TeamListFlow;

    open spec fn deep_view(&self) -> TeamListFlow {
        *self
    }
}

/// Where the endpoint stands after a step, as contracts see it.
pub type TeamListStep = StepView<TeamListFlow, ReplyView<Seq<TeamView>>>;

/// How a listing of all teams starts, by what authentication said.
pub open spec fn get_teams_plan(who: Result<i32, ServiceErrorView>) -> TeamListStep {
    match who {
        Err(e) => StepView::Done(Err(e)),
        Ok(_) => StepView::Ask(TeamListFlow {  }, CommandView::ListTeams),
    }
}

/// How a listing of all teams ends once the store has answered.
pub open spec fn get_teams_step(event: EventView) -> TeamListStep {
    match event {
        EventView::Teams(teams) => StepView::Done(
            Ok(success_reply(200, "Teams retrieved successfully"@, teams)),
        ),
        _ => storage_failed("Failed to fetch teams"@),
    }
}

/// Starts a listing of all teams for whom authentication found.
pub fn get_teams_as(who: Result<i32, ServiceError>) -> (step: Step<TeamListFlow, Reply<Vec<Team>>>)
    ensures
        step.deep_view() == get_teams_plan(outcome_view(who)),
{
    match who {
        Err(e) => Step::Done(Err(e)),
        Ok(_) => Step::Ask(TeamListFlow {  }, Command::ListTeams),
    }
}

/// Starts a listing of all teams.
pub fn get_teams(authorization: Option<&str>, config: &AppConfig) -> (step: Step<
    TeamListFlow,
    Reply<Vec<Team>>,
>)
    ensures
        exists|who: Result<i32, ServiceErrorView>|
            may_authenticate(authorization.deep_view(), who) && step.deep_view()
                == #[trigger] get_teams_plan(who),
{
    let who = get_user_from_token(authorization, config);
    let ghost seen = outcome_view(who);
    let step = get_teams_as(who);
    assert(step.deep_view() == get_teams_plan(seen));
    step
}

impl TeamListFlow {
    /// Ends the listing with what the store answered.
    pub fn step(self, event: Event) -> (step: Step<TeamListFlow, Reply<Vec<Team>>>)
        ensures
            step.deep_view() == get_teams_step(event.deep_view()),
    {
        match event {
            Event::Teams(teams) => Step::Done(
                Ok(Reply::success(200, "Teams retrieved successfully", teams)),
            ),
            _ => fail_storage("Failed to fetch teams"),
        }
    }
}

/// A task with a status that is none of the three is not created: the
/// request is refused before anything is asked of the store, and where the
/// caller is authenticated the refusal is a `ValidationError`.
pub proof fn invalid_status_creates_nothing(
    who: Result<i32, ServiceErrorView>,
    request: CreateTaskRequestView,
)
    requires
        !valid_status(request.status),
    ensures
        create_task_plan(who, request) is Done,
        who is Ok ==> (create_task_plan(who, request) matches StepView::Done(Err(e))
            && e is ValidationError),
        who is Ok && !blank(request.name) ==> create_task_plan(who, request) == invalid::<
            CreateTaskFlowView,
            ReplyView<TaskResponseView>,
        >("Invalid task status"@),
{
}

/// A task is not updated to a status that is none of the three: the one
/// command asked is the check that the task exists, which writes nothing,
/// and whatever the store answers to it ends the update. Where the task
/// exists, it ends with a `ValidationError`.
pub proof fn invalid_status_updates_nothing(
    who: Result<i32, ServiceErrorView>,
    task_id: i32,
    request: UpdateTaskRequestView,
    event: EventView,
)
    requires
        request.status is Some,
        !valid_status(request.status->0),
    ensures
        !update_task_plan(who, task_id, request).writes_store(),
        update_task_step(UpdateTaskFlowView::Checking { task_id, request }, event) is Done,
        event == EventView::Exists(true) ==> update_task_step(
            UpdateTaskFlowView::Checking { task_id, request },
            event,
        ) == invalid::<UpdateTaskFlowView, ReplyView<TaskResponseView>>("Invalid task status"@),
{
}

/// A team name that no team has ends the work on the teams of a task, in a
/// creation as in an update, with a `ValidationError` that names it. The
/// transaction that was opened is never committed: nothing is asked after.
pub proof fn missing_team_aborts(
    row: TaskView,
    task_id: i32,
    names: Seq<Seq<char>>,
    ids: Seq<i32>,
)
    requires
        ids.len() < names.len(),
    ensures
        team_step(TeamWorkView::Resolving { names, ids }, task_id, EventView::TeamId(None))
            == TeamProgressView::Failed(team_missing(names[ids.len() as int])),
        create_task_step(
            CreateTaskFlowView::Teams { row, work: TeamWorkView::Resolving { names, ids } },
            EventView::TeamId(None),
        ) == StepView::<CreateTaskFlowView, ReplyView<TaskResponseView>>::Done(
            Err(team_missing(names[ids.len() as int])),
        ),
        update_task_step(
            UpdateTaskFlowView::Teams { task_id, row, work: TeamWorkView::Resolving { names, ids } },
            EventView::TeamId(None),
        ) == StepView::<UpdateTaskFlowView, ReplyView<TaskResponseView>>::Done(
            Err(team_missing(names[ids.len() as int])),
        ),
{
}

/// No step of the work on the teams of a task asks to commit, and the work
/// asks to assign a team only once every name is resolved.
pub proof fn teams_are_assigned_after_all_are_resolved(
    work: TeamWorkView,
    task_id: i32,
    event: EventView,
)
    ensures
        team_step(work, task_id, event) matches TeamProgressView::Ask(next, command) ==> {
            &&& !(command is CommitTransaction)
            &&& command is AssignTeam ==> (next matches TeamWorkView::Assigning { names, ids, .. }
                && (work is Resolving ==> ids.len() == names.len()))
        },
{
}

/// An update sets the columns that the request holds and no others, and
/// always the time of the update: a column whose field is absent keeps the
/// value it had.
pub proof fn update_sets_only_what_is_present(request: UpdateTaskRequestView, row: TaskView, now: i64)
    ensures
        ({
            let after = changes_of(request).applied_to(row, now);
            &&& request.name is None ==> after.name == row.name
            &&& request.description is None ==> after.description == row.description
            &&& request.status is None ==> after.status == row.status
            &&& request.external_link is None ==> after.external_link == row.external_link
            &&& request.name is Some ==> after.name == request.name->0
            &&& request.description is Some ==> after.description == request.description
            &&& request.status is Some ==> after.status == request.status->0
            &&& request.external_link is Some ==> after.external_link == request.external_link
            &&& after.updated_at == now
            &&& after.id == row.id
            &&& after.created_by == row.created_by
            &&& after.created_at == row.created_at
        }),
{
}

/// An update that holds at least one column asks for exactly those columns
/// to be written; one that holds none asks for the row to be read, and
/// writes no column.
pub proof fn update_writes_the_columns_of_the_request(task_id: i32, request: UpdateTaskRequestView)
    ensures
        update_task_step(UpdateTaskFlowView::Beginning { task_id, request }, EventView::Done)
            matches StepView::Ask(_, command) && if changes_of(request).is_empty() {
            command == CommandView::RereadTask(task_id)
        } else {
            command == CommandView::UpdateTask(task_id, changes_of(request))
        },
{
}

/// The teams of an update. With an empty list, the assignments of the task
/// are removed and none is made: the next thing asked is the commit. With
/// no list, the assignments are read and neither removed nor made.
pub proof fn team_list_replaces_and_its_absence_keeps(task_id: i32, row: TaskView)
    ensures
        update_with_row(task_id, row, Some(Seq::empty())) == StepView::<
            UpdateTaskFlowView,
            ReplyView<TaskResponseView>,
        >::Ask(
            UpdateTaskFlowView::Clearing { task_id, row, names: Seq::empty() },
            CommandView::ClearTeams(task_id),
        ),
        update_task_step(
            UpdateTaskFlowView::Clearing { task_id, row, names: Seq::empty() },
            EventView::Done,
        ) == StepView::<UpdateTaskFlowView, ReplyView<TaskResponseView>>::Ask(
            UpdateTaskFlowView::Committing { task_id, row, teams: Seq::empty() },
            CommandView::CommitTransaction,
        ),
        update_with_row(task_id, row, None) == StepView::<
            UpdateTaskFlowView,
            ReplyView<TaskResponseView>,
        >::Ask(
            UpdateTaskFlowView::ReadingTeams { task_id, row },
            CommandView::ListTeamNames(task_id),
        ),
        forall|kept: Seq<Seq<char>>|
            #[trigger] update_task_step(
                UpdateTaskFlowView::ReadingTeams { task_id, row },
                EventView::Names(kept),
            ) == StepView::<UpdateTaskFlowView, ReplyView<TaskResponseView>>::Ask(
                UpdateTaskFlowView::Committing { task_id, row, teams: kept },
                CommandView::CommitTransaction,
            ),
        !CommandView::ListTeamNames(task_id).touches_teams(),
        !CommandView::CommitTransaction.touches_teams(),
{
}

/// A task that is not there reads as a success that carries no task, but
/// deleting or updating it fails with `NotFound`.
pub proof fn absent_task_reads_as_success_and_writes_as_failure(
    task_id: i32,
    request: UpdateTaskRequestView,
)
    ensures
        get_task_step(TaskFlowView::Finding { task_id }, EventView::Task(None)) == StepView::<
            TaskFlowView,
            ReplyView<Option<TaskResponseView>>,
        >::Done(Ok(success_reply(200, "Task not found"@, None))),
        delete_task_step(EventView::Affected(0)) == not_found::<DeleteTaskFlow, ReplyView<bool>>(
            "Task not found"@,
        ),
        update_task_step(
            UpdateTaskFlowView::Checking { task_id, request },
            EventView::Exists(false),
        ) == not_found::<UpdateTaskFlowView, ReplyView<TaskResponseView>>("Task not found"@),
        ServiceErrorView::NotFound("Task not found"@).status_code() == 404,
{
}

/// How a task creation goes on, as a function.
pub open spec fn create_task_stepper() -> spec_fn(CreateTaskFlowView, EventView) -> CreateTaskStep {
    |flow: CreateTaskFlowView, event: EventView| create_task_step(flow, event)
}

/// Whether `command` is the one that a task creation at `flow` waits on.
pub open spec fn create_awaits(flow: CreateTaskFlowView, command: CommandView) -> bool {
    match flow {
        CreateTaskFlowView::Beginning { .. } => command is BeginTransaction,
        CreateTaskFlowView::Inserting { .. } => command is InsertTask,
        CreateTaskFlowView::Teams { work, .. } => match work {
            TeamWorkView::Resolving { .. } => command is FindTeamId,
            TeamWorkView::Assigning { .. } => command is AssignTeam,
        },
        CreateTaskFlowView::Committing { .. } => command is CommitTransaction,
    }
}

/// Every step of a task creation asks the command that the state it hands
/// back waits on.
proof fn lemma_create_steps_are_consistent(flow: CreateTaskFlowView, event: EventView)
    ensures
        create_task_step(flow, event) matches StepView::Ask(next, command) ==> create_awaits(
            next,
            command,
        ),
{
}

/// The run of a task creation from a state that has not asked to commit.
proof fn lemma_create_never_commits_past_a_missing_team(
    flow: CreateTaskFlowView,
    command: CommandView,
    events: Seq<EventView>,
)
    requires
        create_awaits(flow, command),
        !(flow is Committing),
        misses_a_team(create_task_stepper(), StepView::Ask(flow, command), events),
    ensures
        !asked(create_task_stepper(), StepView::Ask(flow, command), events).contains(
            CommandView::CommitTransaction,
        ),
    decreases events.len(),
{
    let next = create_task_stepper();
    let after = create_task_step(flow, events[0]);
    let rest = events.skip(1);
    assert(next(flow, events[0]) == after);
    lemma_asked_contains(next, flow, command, events, CommandView::CommitTransaction);
    lemma_create_steps_are_consistent(flow, events[0]);
    match after {
        StepView::Done(_) => {
            assert(asked(next, after, rest) =~= Seq::empty());
        },
        StepView::Ask(onward, then) => {
            assert(!(command is FindTeamId && events[0] == EventView::TeamId(None)));
            assert(misses_a_team(next, after, rest));
            if onward is Committing {
                assert(next(onward, rest[0]) == create_task_step(onward, rest[0]));
                assert(create_task_step(onward, rest[0]) is Done);
                assert(!misses_a_team(next, next(onward, rest[0]), rest.skip(1)));
            } else {
                lemma_create_never_commits_past_a_missing_team(onward, then, rest);
            }
        },
    }
}

/// A task creation in which the store knows no team of one of the names
/// never asks to commit: the task and its assignments are not persisted.
pub proof fn create_with_a_missing_team_never_commits(
    who: Result<i32, ServiceErrorView>,
    request: CreateTaskRequestView,
    events: Seq<EventView>,
)
    requires
        misses_a_team(create_task_stepper(), create_task_plan(who, request), events),
    ensures
        !asked(create_task_stepper(), create_task_plan(who, request), events).contains(
            CommandView::CommitTransaction,
        ),
{
    match create_task_plan(who, request) {
        StepView::Done(_) => {},
        StepView::Ask(flow, command) => {
            lemma_create_never_commits_past_a_missing_team(flow, command, events);
        },
    }
}

/// How a task update goes on, as a function.
pub open spec fn update_task_stepper() -> spec_fn(UpdateTaskFlowView, EventView) -> UpdateTaskStep {
    |flow: UpdateTaskFlowView, event: EventView| update_task_step(flow, event)
}

/// Whether `command` is the one that a task update at `flow` waits on.
pub open spec fn update_awaits(flow: UpdateTaskFlowView, command: CommandView) -> bool {
    match flow {
        UpdateTaskFlowView::Checking { .. } => command is CheckTask,
        UpdateTaskFlowView::Beginning { .. } => command is BeginTransaction,
        UpdateTaskFlowView::Writing { .. } => command is UpdateTask || command is RereadTask,
        UpdateTaskFlowView::Clearing { .. } => command is ClearTeams,
        UpdateTaskFlowView::Teams { work, .. } => match work {
            TeamWorkView::Resolving { .. } => command is FindTeamId,
            TeamWorkView::Assigning { .. } => command is AssignTeam,
        },
        UpdateTaskFlowView::ReadingTeams { .. } => command is ListTeamNames,
        UpdateTaskFlowView::Committing { .. } => command is CommitTransaction,
        UpdateTaskFlowView::Links { .. } => command is ListAttachments,
    }
}

/// Every step of a task update asks the command that the state it hands
/// back waits on.
proof fn lemma_update_steps_are_consistent(flow: UpdateTaskFlowView, event: EventView)
    ensures
        update_task_step(flow, event) matches StepView::Ask(next, command) ==> update_awaits(
            next,
            command,
        ),
{
}

/// The run of a task update from a state that has not asked to commit.
proof fn lemma_update_never_commits_past_a_missing_team(
    flow: UpdateTaskFlowView,
    command: CommandView,
    events: Seq<EventView>,
)
    requires
        update_awaits(flow, command),
        !(flow is Committing),
        !(flow is Links),
        misses_a_team(update_task_stepper(), StepView::Ask(flow, command), events),
    ensures
        !asked(update_task_stepper(), StepView::Ask(flow, command), events).contains(
            CommandView::CommitTransaction,
        ),
    decreases events.len(),
{
    let next = update_task_stepper();
    let after = update_task_step(flow, events[0]);
    let rest = events.skip(1);
    assert(next(flow, events[0]) == after);
    lemma_asked_contains(next, flow, command, events, CommandView::CommitTransaction);
    lemma_update_steps_are_consistent(flow, events[0]);
    match after {
        StepView::Done(_) => {
            assert(asked(next, after, rest) =~= Seq::empty());
        },
        StepView::Ask(onward, then) => {
            assert(!(command is FindTeamId && events[0] == EventView::TeamId(None)));
            assert(misses_a_team(next, after, rest));
            if onward is Committing {
                let last = update_task_step(onward, rest[0]);
                assert(next(onward, rest[0]) == last);
                assert(misses_a_team(next, last, rest.skip(1)));
                match last {
                    StepView::Done(_) => {},
                    StepView::Ask(reading, _) => {
                        assert(reading is Links);
                        let end = update_task_step(reading, rest.skip(1)[0]);
                        assert(next(reading, rest.skip(1)[0]) == end);
                        assert(end is Done);
                        assert(!misses_a_team(next, end, rest.skip(1).skip(1)));
                    },
                }
            } else {
                assert(!(onward is Links));
                lemma_update_never_commits_past_a_missing_team(onward, then, rest);
            }
        },
    }
}

/// A task update in which the store knows no team of one of the names
/// never asks to commit: neither the columns that were written nor the
/// removal of the old assignments is persisted.
pub proof fn update_with_a_missing_team_never_commits(
    who: Result<i32, ServiceErrorView>,
    task_id: i32,
    request: UpdateTaskRequestView,
    events: Seq<EventView>,
)
    requires
        misses_a_team(update_task_stepper(), update_task_plan(who, task_id, request), events),
    ensures
        !asked(update_task_stepper(), update_task_plan(who, task_id, request), events).contains(
            CommandView::CommitTransaction,
        ),
{
    match update_task_plan(who, task_id, request) {
        StepView::Done(_) => {},
        StepView::Ask(flow, command) => {
            lemma_update_never_commits_past_a_missing_team(flow, command, events);
        },
    }
}

/// However the store answers, a task update to a status that is none of the
/// three asks for nothing that writes to the store, and a task creation
/// with such a status asks for nothing at all.
pub proof fn invalid_status_never_writes(
    who: Result<i32, ServiceErrorView>,
    task_id: i32,
    update: UpdateTaskRequestView,
    create: CreateTaskRequestView,
    events: Seq<EventView>,
)
    requires
        update.status is Some,
        !valid_status(update.status->0),
        !valid_status(create.status),
    ensures
        asked(create_task_stepper(), create_task_plan(who, create), events) == Seq::<
            CommandView,
        >::empty(),
        forall|i: int|
            0 <= i < asked(
                update_task_stepper(),
                update_task_plan(who, task_id, update),
                events,
            ).len() ==> !(#[trigger] asked(
                update_task_stepper(),
                update_task_plan(who, task_id, update),
                events,
            )[i]).writes_store(),
{
    let next = update_task_stepper();
    match update_task_plan(who, task_id, update) {
        StepView::Done(_) => {},
        StepView::Ask(flow, command) => {
            if events.len() > 0 {
                let after = update_task_step(flow, events[0]);
                assert(next(flow, events[0]) == after);
                assert(after is Done);
                assert(asked(next, after, events.skip(1)) =~= Seq::empty());
                assert(asked(next, StepView::Ask(flow, command), events) =~= seq![command]);
            }
        },
    }
}

/// Whether a task update at `flow` goes back to a request without a team
/// list.
pub open spec fn keeps_teams(flow: UpdateTaskFlowView) -> bool {
    match flow {
        UpdateTaskFlowView::Checking { request, .. } => request.teams is None,
        UpdateTaskFlowView::Beginning { request, .. } => request.teams is None,
        UpdateTaskFlowView::Writing { listed, .. } => listed is None,
        UpdateTaskFlowView::Clearing { .. } => false,
        UpdateTaskFlowView::Teams { .. } => false,
        UpdateTaskFlowView::ReadingTeams { .. } => true,
        UpdateTaskFlowView::Committing { .. } => true,
        UpdateTaskFlowView::Links { .. } => true,
    }
}

/// The run of a task update from a state that goes back to a request
/// without a team list.
proof fn lemma_update_without_team_list(
    flow: UpdateTaskFlowView,
    command: CommandView,
    events: Seq<EventView>,
)
    requires
        keeps_teams(flow),
        !command.touches_teams(),
    ensures
        forall|i: int|
            0 <= i < asked(update_task_stepper(), StepView::Ask(flow, command), events).len()
                ==> !(#[trigger] asked(
                update_task_stepper(),
                StepView::Ask(flow, command),
                events,
            )[i]).touches_teams(),
    decreases events.len(),
{
    let next = update_task_stepper();
    if events.len() > 0 {
        let after = update_task_step(flow, events[0]);
        let rest = events.skip(1);
        assert(next(flow, events[0]) == after);
        assert(asked(next, StepView::Ask(flow, command), events) == seq![command] + asked(
            next,
            after,
            rest,
        ));
        match after {
            StepView::Done(_) => {},
            StepView::Ask(onward, then) => {
                lemma_update_without_team_list(onward, then, rest);
            },
        }
    }
}

/// However the store answers, a task update whose request has no team list
/// asks neither to remove nor to make a team assignment: the task keeps the
/// teams it has.
pub proof fn update_without_team_list_keeps_teams(
    who: Result<i32, ServiceErrorView>,
    task_id: i32,
    request: UpdateTaskRequestView,
    events: Seq<EventView>,
)
    requires
        request.teams is None,
    ensures
        forall|i: int|
            0 <= i < asked(
                update_task_stepper(),
                update_task_plan(who, task_id, request),
                events,
            ).len() ==> !(#[trigger] asked(
                update_task_stepper(),
                update_task_plan(who, task_id, request),
                events,
            )[i]).touches_teams(),
{
    match update_task_plan(who, task_id, request) {
        StepView::Done(_) => {},
        StepView::Ask(flow, command) => {
            lemma_update_without_team_list(flow, command, events);
        },
    }
}

/// The id under which a task update at `flow` asks for the task.
pub open spec fn updated_task(flow: UpdateTaskFlowView) -> i32 {
    match flow {
        UpdateTaskFlowView::Checking { task_id, .. } => task_id,
        UpdateTaskFlowView::Beginning { task_id, .. } => task_id,
        UpdateTaskFlowView::Writing { task_id, .. } => task_id,
        UpdateTaskFlowView::Clearing { task_id, .. } => task_id,
        UpdateTaskFlowView::Teams { task_id, .. } => task_id,
        UpdateTaskFlowView::ReadingTeams { task_id, .. } => task_id,
        UpdateTaskFlowView::Committing { task_id, .. } => task_id,
        UpdateTaskFlowView::Links { task_id, .. } => task_id,
    }
}

/// Whether a task update at `flow` goes back to a request with an empty
/// team list.
pub open spec fn drops_teams(flow: UpdateTaskFlowView) -> bool {
    match flow {
        UpdateTaskFlowView::Checking { request, .. } => request.teams == Some(
            Seq::<Seq<char>>::empty(),
        ),
        UpdateTaskFlowView::Beginning { request, .. } => request.teams == Some(
            Seq::<Seq<char>>::empty(),
        ),
        UpdateTaskFlowView::Writing { listed, .. } => listed == Some(Seq::<Seq<char>>::empty()),
        UpdateTaskFlowView::Clearing { names, .. } => names.len() == 0,
        UpdateTaskFlowView::Teams { .. } => false,
        UpdateTaskFlowView::ReadingTeams { .. } => false,
        UpdateTaskFlowView::Committing { teams, .. } => teams.len() == 0,
        UpdateTaskFlowView::Links { teams, .. } => teams.len() == 0,
    }
}

/// The run of a task update from a state that goes back to a request with
/// an empty team list.
proof fn lemma_update_with_empty_team_list(
    flow: UpdateTaskFlowView,
    command: CommandView,
    events: Seq<EventView>,
)
    requires
        drops_teams(flow),
        update_awaits(flow, command),
    ensures
        forall|i: int|
            0 <= i < asked(update_task_stepper(), StepView::Ask(flow, command), events).len()
                ==> !(#[trigger] asked(
                update_task_stepper(),
                StepView::Ask(flow, command),
                events,
            )[i] is AssignTeam),
        !(flow is Committing) && !(flow is Links) && !(flow is Clearing) && asked(
            update_task_stepper(),
            StepView::Ask(flow, command),
            events,
        ).contains(CommandView::CommitTransaction) ==> asked(
            update_task_stepper(),
            StepView::Ask(flow, command),
            events,
        ).contains(CommandView::ClearTeams(updated_task(flow))),
        outcome(update_task_stepper(), StepView::Ask(flow, command), events) matches Some(
            Ok(reply),
        ) ==> reply.body.data matches Some(task) && task.teams.len() == 0,
    decreases events.len(),
{
    let next = update_task_stepper();
    if events.len() > 0 {
        let after = update_task_step(flow, events[0]);
        let rest = events.skip(1);
        assert(next(flow, events[0]) == after);
        assert(asked(next, StepView::Ask(flow, command), events) == seq![command] + asked(
            next,
            after,
            rest,
        ));
        lemma_update_steps_are_consistent(flow, events[0]);
        assert(outcome(next, StepView::Ask(flow, command), events) == outcome(next, after, rest));
        match after {
            StepView::Done(end) => {
                assert(asked(next, after, rest) =~= Seq::empty());
                assert(outcome(next, after, rest) == Some(end));
            },
            StepView::Ask(onward, then) => {
                lemma_update_with_empty_team_list(onward, then, rest);
                if !(flow is Committing) && !(flow is Links) && !(flow is Clearing) {
                    lemma_asked_contains(next, flow, command, events, CommandView::CommitTransaction);
                    lemma_asked_contains(
                        next,
                        flow,
                        command,
                        events,
                        CommandView::ClearTeams(updated_task(flow)),
                    );
                    if onward is Clearing && rest.len() > 0 {
                        lemma_asked_contains(
                            next,
                            onward,
                            then,
                            rest,
                            CommandView::ClearTeams(updated_task(flow)),
                        );
                    }
                }
            },
        }
    }
}

/// However the store answers, a task update whose request has an empty team
/// list never asks to assign a team; if it commits, it has asked before to
/// remove the assignments of the task; and if it succeeds, the task it shows
/// has no teams.
pub proof fn update_with_empty_team_list_drops_teams(
    who: Result<i32, ServiceErrorView>,
    task_id: i32,
    request: UpdateTaskRequestView,
    events: Seq<EventView>,
)
    requires
        request.teams == Some(Seq::<Seq<char>>::empty()),
    ensures
        forall|i: int|
            0 <= i < asked(
                update_task_stepper(),
                update_task_plan(who, task_id, request),
                events,
            ).len() ==> !(#[trigger] asked(
                update_task_stepper(),
                update_task_plan(who, task_id, request),
                events,
            )[i] is AssignTeam),
        asked(update_task_stepper(), update_task_plan(who, task_id, request), events).contains(
            CommandView::CommitTransaction,
        ) ==> asked(
            update_task_stepper(),
            update_task_plan(who, task_id, request),
            events,
        ).contains(CommandView::ClearTeams(task_id)),
        outcome(update_task_stepper(), update_task_plan(who, task_id, request), events)
            matches Some(Ok(reply)) ==> reply.body.data matches Some(task) && task.teams.len()
            == 0,
{
    match update_task_plan(who, task_id, request) {
        StepView::Done(_) => {},
        StepView::Ask(flow, command) => {
            lemma_update_with_empty_team_list(flow, command, events);
        },
    }
}

/// Whether `command` is among the writes that an update of task `task_id`
/// by `request` may ask for: the columns that the request holds, written to
/// that task; a change of team assignments; the commit.
pub open spec fn update_may_write(
    task_id: i32,
    request: UpdateTaskRequestView,
    command: CommandView,
) -> bool {
    command.writes_store() ==> command.touches_teams() || command is CommitTransaction || (
    !changes_of(request).is_empty() && command == CommandView::UpdateTask(
        task_id,
        changes_of(request),
    ))
}

/// Whether a task update at `flow` still holds the request, and if so,
/// whether it is `request` for task `task_id`.
pub open spec fn update_stems_from(
    flow: UpdateTaskFlowView,
    task_id: i32,
    request: UpdateTaskRequestView,
) -> bool {
    match flow {
        UpdateTaskFlowView::Checking { task_id: id, request: held } => id == task_id && held
            == request,
        UpdateTaskFlowView::Beginning { task_id: id, request: held } => id == task_id && held
            == request,
        _ => true,
    }
}

/// The run of a task update from a state that stems from `request`.
proof fn lemma_update_writes_what_the_request_holds(
    flow: UpdateTaskFlowView,
    command: CommandView,
    events: Seq<EventView>,
    task_id: i32,
    request: UpdateTaskRequestView,
)
    requires
        update_stems_from(flow, task_id, request),
        update_may_write(task_id, request, command),
    ensures
        forall|i: int|
            0 <= i < asked(update_task_stepper(), StepView::Ask(flow, command), events).len()
                ==> update_may_write(
                task_id,
                request,
                #[trigger] asked(update_task_stepper(), StepView::Ask(flow, command), events)[i],
            ),
    decreases events.len(),
{
    let next = update_task_stepper();
    if events.len() > 0 {
        let after = update_task_step(flow, events[0]);
        let rest = events.skip(1);
        assert(next(flow, events[0]) == after);
        assert(asked(next, StepView::Ask(flow, command), events) == seq![command] + asked(
            next,
            after,
            rest,
        ));
        match after {
            StepView::Done(_) => {},
            StepView::Ask(onward, then) => {
                lemma_update_writes_what_the_request_holds(onward, then, rest, task_id, request);
            },
        }
    }
}

/// However the store answers, the only columns that a task update asks to
/// have written are those that the request holds, and it asks to have them
/// written to the task of the request. With
/// `update_sets_only_what_is_present`: what the request does not hold
/// stays as it is.
pub proof fn update_writes_only_what_the_request_holds(
    who: Result<i32, ServiceErrorView>,
    task_id: i32,
    request: UpdateTaskRequestView,
    events: Seq<EventView>,
)
    ensures
        forall|i: int|
            0 <= i < asked(
                update_task_stepper(),
                update_task_plan(who, task_id, request),
                events,
            ).len() ==> update_may_write(
                task_id,
                request,
                #[trigger] asked(
                    update_task_stepper(),
                    update_task_plan(who, task_id, request),
                    events,
                )[i],
            ),
{
    match update_task_plan(who, task_id, request) {
        StepView::Done(_) => {},
        StepView::Ask(flow, command) => {
            lemma_update_writes_what_the_request_holds(flow, command, events, task_id, request);
        },
    }
}

} // verus!
