use kanban_backend::config::{AppConfig, Environment};
use kanban_backend::database::DatabaseStats;
use kanban_backend::effects::{Command, Event, Step, TaskChanges};
use kanban_backend::handlers::auth::{get_me, login, CurrentUserFlow, LoginFlow};
use kanban_backend::handlers::file::{
    delete_attachment, delete_attachment_as, download_file, download_file_as,
    get_task_attachments, get_task_attachments_as, upload_file, upload_file_as,
    AttachmentListFlow, DeleteAttachmentFlow, DownloadFlow, FileDownload, UploadFlow,
};
use kanban_backend::handlers::task::{
    create_task, create_task_as, delete_task, delete_task_as, get_task, get_task_as, get_tasks,
    get_tasks_as, get_teams, get_teams_as, update_task, update_task_as, CreateTaskFlow,
    DeleteTaskFlow, TaskFlow, TaskListFlow, TeamListFlow, TeamProgress, TeamWork, UpdateTaskFlow,
};
use kanban_backend::models::auth::{LoginRequest, LoginResponseData, Reply, User, UserResponse};
use kanban_backend::models::file::{
    AttachmentResponse, TaskAttachment, TaskAttachmentSimple, UploadResponse,
};
use kanban_backend::models::task::{
    CreateTaskRequest, Task, TaskResponse, Team, UpdateTaskRequest,
};
use kanban_backend::utils::errors::ServiceError;

const SECRET: &str = "an-example-secret-of-32-characters!!";

fn config() -> AppConfig {
    AppConfig::from_env(Environment {
        database_url: Some("postgres://localhost/kanban".to_string()),
        port: None,
        server_port: None,
        jwt_secret: Some(SECRET.to_string()),
        environment: None,
        frontend_urls: None,
        cors_allowed_origins: None,
        cloudinary_cloud_name: None,
        cloudinary_api_key: None,
        cloudinary_api_secret: None,
    })
    .unwrap()
}

fn copy_task(task: &Task) -> Task {
    Task {
        id: task.id,
        name: task.name.clone(),
        description: task.description.clone(),
        status: task.status.clone(),
        external_link: task.external_link.clone(),
        created_by: task.created_by,
        created_at: task.created_at,
        updated_at: task.updated_at,
    }
}

fn copy_attachment(row: &TaskAttachment) -> TaskAttachment {
    TaskAttachment {
        id: row.id,
        task_id: row.task_id,
        file_name: row.file_name.clone(),
        original_name: row.original_name.clone(),
        file_path: row.file_path.clone(),
        file_size: row.file_size,
        mime_type: row.mime_type.clone(),
        uploaded_by: row.uploaded_by,
        created_at: row.created_at,
    }
}

fn copy_user(user: &User) -> User {
    User {
        id: user.id,
        username: user.username.clone(),
        password_hash: user.password_hash.clone(),
        name: user.name.clone(),
        created_at: user.created_at,
        updated_at: user.updated_at,
    }
}

/// A store, a disk and an upload form, all in memory.
struct World {
    users: Vec<User>,
    teams: Vec<Team>,
    tasks: Vec<Task>,
    task_teams: Vec<(i32, i32)>,
    attachments: Vec<TaskAttachment>,
    files: Vec<(String, Vec<u8>)>,
    saved: Option<(Vec<Task>, Vec<(i32, i32)>)>,
    form: Vec<(Option<String>, Vec<Vec<u8>>)>,
    chunks: Vec<Vec<u8>>,
    clock: i64,
    next_id: i32,
    failing: Vec<&'static str>,
    asked: Vec<String>,
}

fn kind(command: &Command) -> &'static str {
    match command {
        Command::FindUserByUsername(_) => "FindUserByUsername",
        Command::FindUserById(_) => "FindUserById",
        Command::BeginTransaction => "BeginTransaction",
        Command::CommitTransaction => "CommitTransaction",
        Command::CheckTask(_) => "CheckTask",
        Command::InsertTask(_) => "InsertTask",
        Command::ListTasks => "ListTasks",
        Command::FindTask(_) => "FindTask",
        Command::RereadTask(_) => "RereadTask",
        Command::UpdateTask(_, _) => "UpdateTask",
        Command::DeleteTask(_) => "DeleteTask",
        Command::FindTeamId(_) => "FindTeamId",
        Command::AssignTeam { .. } => "AssignTeam",
        Command::ClearTeams(_) => "ClearTeams",
        Command::ListTeamNames(_) => "ListTeamNames",
        Command::ListTeams => "ListTeams",
        Command::InsertAttachment(_) => "InsertAttachment",
        Command::ListAttachments(_) => "ListAttachments",
        Command::FindAttachment { .. } => "FindAttachment",
        Command::DeleteAttachment { .. } => "DeleteAttachment",
        Command::EnsureUploadDir => "EnsureUploadDir",
        Command::NextField => "NextField",
        Command::NextChunk => "NextChunk",
        Command::WriteFile { .. } => "WriteFile",
        Command::RemoveFile(_) => "RemoveFile",
        Command::CheckFile(_) => "CheckFile",
        Command::ReadFile(_) => "ReadFile",
        Command::Connect(_) => "Connect",
        Command::Ping => "Ping",
        Command::ListTables => "ListTables",
        Command::CountRows => "CountRows",
    }
}

impl World {
    fn new() -> World {
        World {
            users: vec![User {
                id: 7,
                username: "alice".to_string(),
                password_hash: bcrypt::hash("wonderland", 4).unwrap(),
                name: "Alice A.".to_string(),
                created_at: 10,
                updated_at: 20,
            }],
            teams: vec![
                Team { id: 1, name: "Beta".to_string(), created_at: 1 },
                Team { id: 2, name: "Alpha".to_string(), created_at: 2 },
                Team { id: 3, name: "Gamma".to_string(), created_at: 3 },
            ],
            tasks: Vec::new(),
            task_teams: Vec::new(),
            attachments: Vec::new(),
            files: Vec::new(),
            saved: None,
            form: Vec::new(),
            chunks: Vec::new(),
            clock: 1_000,
            next_id: 100,
            failing: Vec::new(),
            asked: Vec::new(),
        }
    }

    fn tick(&mut self) -> i64 {
        self.clock += 1;
        self.clock
    }

    fn fresh_id(&mut self) -> i32 {
        self.next_id += 1;
        self.next_id
    }

    fn team_names(&self, task_id: i32) -> Vec<String> {
        let mut names = Vec::new();
        for (task, team) in &self.task_teams {
            if *task == task_id {
                for row in &self.teams {
                    if row.id == *team {
                        names.push(row.name.clone());
                    }
                }
            }
        }
        names
    }

    fn file(&self, path: &str) -> Option<&Vec<u8>> {
        self.files.iter().find(|(name, _)| name == path).map(|(_, data)| data)
    }

    fn task(&self, id: i32) -> Option<&Task> {
        self.tasks.iter().find(|task| task.id == id)
    }

    fn perform(&mut self, command: Command) -> Event {
        self.asked.push(kind(&command).to_string());
        if self.failing.contains(&kind(&command)) {
            return Event::Failed("injected failure".to_string());
        }
        match command {
            Command::FindUserByUsername(name) => {
                Event::User(self.users.iter().find(|u| u.username == name).map(copy_user))
            }
            Command::FindUserById(id) => {
                Event::User(self.users.iter().find(|u| u.id == id).map(copy_user))
            }
            Command::BeginTransaction => {
                self.saved =
                    Some((self.tasks.iter().map(copy_task).collect(), self.task_teams.clone()));
                Event::Done
            }
            Command::CommitTransaction => {
                self.saved = None;
                Event::Done
            }
            Command::CheckTask(id) => Event::Exists(self.task(id).is_some()),
            Command::InsertTask(new) => {
                let now = self.tick();
                let task = Task {
                    id: self.fresh_id(),
                    name: new.name,
                    description: new.description,
                    status: new.status,
                    external_link: new.external_link,
                    created_by: new.created_by,
                    created_at: now,
                    updated_at: now,
                };
                let row = copy_task(&task);
                self.tasks.push(task);
                Event::Task(Some(row))
            }
            Command::ListTasks => {
                let mut rows: Vec<Task> = self.tasks.iter().map(copy_task).collect();
                rows.sort_by(|a, b| b.created_at.cmp(&a.created_at));
                Event::Tasks(rows)
            }
            Command::FindTask(id) | Command::RereadTask(id) => {
                Event::Task(self.task(id).map(copy_task))
            }
            Command::UpdateTask(id, changes) => {
                let now = self.tick();
                match self.tasks.iter_mut().find(|task| task.id == id) {
                    None => Event::Task(None),
                    Some(task) => {
                        if let Some(name) = changes.name {
                            task.name = name;
                        }
                        if let Some(description) = changes.description {
                            task.description = Some(description);
                        }
                        if let Some(status) = changes.status {
                            task.status = status;
                        }
                        if let Some(link) = changes.external_link {
                            task.external_link = Some(link);
                        }
                        task.updated_at = now;
                        Event::Task(Some(copy_task(task)))
                    }
                }
            }
            Command::DeleteTask(id) => {
                let before = self.tasks.len();
                self.tasks.retain(|task| task.id != id);
                self.task_teams.retain(|(task, _)| *task != id);
                Event::Affected((before - self.tasks.len()) as u64)
            }
            Command::FindTeamId(name) => {
                Event::TeamId(self.teams.iter().find(|t| t.name == name).map(|t| t.id))
            }
            Command::AssignTeam { task_id, team_id } => {
                self.task_teams.push((task_id, team_id));
                Event::Done
            }
            Command::ClearTeams(task_id) => {
                self.task_teams.retain(|(task, _)| *task != task_id);
                Event::Done
            }
            Command::ListTeamNames(task_id) => Event::Names(self.team_names(task_id)),
            Command::ListTeams => {
                let mut rows: Vec<Team> = self
                    .teams
                    .iter()
                    .map(|t| Team { id: t.id, name: t.name.clone(), created_at: t.created_at })
                    .collect();
                rows.sort_by(|a, b| a.name.cmp(&b.name));
                Event::Teams(rows)
            }
            Command::InsertAttachment(new) => {
                let row = TaskAttachment {
                    id: self.fresh_id(),
                    task_id: new.task_id,
                    file_name: new.file_name,
                    original_name: new.original_name,
                    file_path: new.file_path,
                    file_size: new.file_size,
                    mime_type: new.mime_type,
                    uploaded_by: new.uploaded_by,
                    created_at: self.tick(),
                };
                let shown = copy_attachment(&row);
                self.attachments.push(row);
                Event::Attachment(Some(shown))
            }
            Command::ListAttachments(task_id) => {
                let mut rows: Vec<TaskAttachment> = self
                    .attachments
                    .iter()
                    .filter(|a| a.task_id == task_id)
                    .map(copy_attachment)
                    .collect();
                rows.sort_by(|a, b| b.created_at.cmp(&a.created_at));
                Event::Attachments(rows)
            }
            Command::FindAttachment { id, task_id } => Event::Attachment(
                self.attachments
                    .iter()
                    .find(|a| a.id == id && a.task_id == task_id)
                    .map(copy_attachment),
            ),
            Command::DeleteAttachment { id, task_id } => {
                let before = self.attachments.len();
                self.attachments.retain(|a| !(a.id == id && a.task_id == task_id));
                Event::Affected((before - self.attachments.len()) as u64)
            }
            Command::EnsureUploadDir => Event::Done,
            Command::NextField => {
                if self.form.is_empty() {
                    Event::EndOfForm
                } else {
                    let (name, chunks) = self.form.remove(0);
                    self.chunks = chunks;
                    Event::Field(name)
                }
            }
            Command::NextChunk => {
                if self.chunks.is_empty() {
                    Event::EndOfFile
                } else {
                    Event::Chunk(self.chunks.remove(0))
                }
            }
            Command::WriteFile { path, data } => {
                self.files.retain(|(name, _)| *name != path);
                self.files.push((path, data));
                Event::Done
            }
            Command::RemoveFile(path) => {
                self.files.retain(|(name, _)| *name != path);
                Event::Done
            }
            Command::CheckFile(path) => Event::Exists(self.file(&path).is_some()),
            Command::ReadFile(path) => match self.file(&path) {
                Some(data) => Event::Bytes(data.clone()),
                None => Event::Failed("no such file".to_string()),
            },
            Command::Connect(_) => Event::Done,
            Command::Ping => Event::Number(1),
            Command::ListTables => Event::Names(vec!["users".to_string()]),
            Command::CountRows => Event::Stats(DatabaseStats {
                users: self.users.len() as i64,
                teams: self.teams.len() as i64,
                tasks: self.tasks.len() as i64,
                attachments: self.attachments.len() as i64,
            }),
        }
    }

    /// What the end of a request does to a transaction that is still open.
    fn finish(&mut self) {
        if let Some((tasks, task_teams)) = self.saved.take() {
            self.tasks = tasks;
            self.task_teams = task_teams;
        }
    }
}

trait Flow: Sized {
    type Out;
    fn next(self, event: Event) -> Step<Self, Self::Out>;
}

impl Flow for LoginFlow {
    type Out = Reply<LoginResponseData>;
    fn next(self, event: Event) -> Step<Self, Self::Out> {
        self.step(event)
    }
}

impl Flow for CurrentUserFlow {
    type Out = Reply<UserResponse>;
    fn next(self, event: Event) -> Step<Self, Self::Out> {
        self.step(event)
    }
}

impl Flow for CreateTaskFlow {
    type Out = Reply<TaskResponse>;
    fn next(self, event: Event) -> Step<Self, Self::Out> {
        self.step(event)
    }
}

impl Flow for UpdateTaskFlow {
    type Out = Reply<TaskResponse>;
    fn next(self, event: Event) -> Step<Self, Self::Out> {
        self.step(event)
    }
}

impl Flow for TaskListFlow {
    type Out = Reply<Vec<TaskResponse>>;
    fn next(self, event: Event) -> Step<Self, Self::Out> {
        self.step(event)
    }
}

impl Flow for TaskFlow {
    type Out = Reply<Option<TaskResponse>>;
    fn next(self, event: Event) -> Step<Self, Self::Out> {
        self.step(event)
    }
}

impl Flow for DeleteTaskFlow {
    type Out = Reply<bool>;
    fn next(self, event: Event) -> Step<Self, Self::Out> {
        self.step(event)
    }
}

impl Flow for TeamListFlow {
    type Out = Reply<Vec<Team>>;
    fn next(self, event: Event) -> Step<Self, Self::Out> {
        self.step(event)
    }
}

impl Flow for UploadFlow {
    type Out = Reply<UploadResponse>;
    fn next(self, event: Event) -> Step<Self, Self::Out> {
        self.step(event)
    }
}

impl Flow for AttachmentListFlow {
    type Out = Reply<Vec<AttachmentResponse>>;
    fn next(self, event: Event) -> Step<Self, Self::Out> {
        self.step(event)
    }
}

impl Flow for DownloadFlow {
    type Out = FileDownload;
    fn next(self, event: Event) -> Step<Self, Self::Out> {
        self.step(event)
    }
}

impl Flow for DeleteAttachmentFlow {
    type Out = Reply<bool>;
    fn next(self, event: Event) -> Step<Self, Self::Out> {
        self.step(event)
    }
}

/// Performs what the endpoint asks until it is done.
fn run<F: Flow>(world: &mut World, first: Step<F, F::Out>) -> Result<F::Out, ServiceError> {
    world.asked.clear();
    let mut step = first;
    loop {
        match step {
            Step::Done(outcome) => {
                world.finish();
                return outcome;
            }
            Step::Ask(flow, command) => {
                let event = world.perform(command);
                step = flow.next(event);
            }
        }
    }
}

fn invalid(message: &str) -> ServiceError {
    ServiceError::ValidationError(message.to_string())
}

fn not_found(message: &str) -> ServiceError {
    ServiceError::NotFound(message.to_string())
}

fn storage(message: &str) -> ServiceError {
    ServiceError::DatabaseError(message.to_string())
}

fn names(list: &[&str]) -> Vec<String> {
    list.iter().map(|name| name.to_string()).collect()
}

fn new_task(name: &str, status: &str, teams: Option<&[&str]>) -> CreateTaskRequest {
    CreateTaskRequest {
        name: name.to_string(),
        description: Some("about it".to_string()),
        status: status.to_string(),
        external_link: None,
        teams: teams.map(names),
    }
}

fn no_changes() -> UpdateTaskRequest {
    UpdateTaskRequest { name: None, description: None, status: None, external_link: None, teams: None }
}

fn created(world: &mut World, teams: Option<&[&str]>) -> TaskResponse {
    let reply = run(world, create_task_as(Ok(7), new_task("Write report", "TO_DO", teams))).unwrap();
    assert_eq!(reply.status, 201);
    reply.body.data.unwrap()
}

fn sign_in(world: &mut World) -> String {
    let request = LoginRequest { username: "alice".to_string(), password: "wonderland".to_string() };
    let reply = run(world, login(request, &config())).unwrap();
    format!("Bearer {}", reply.body.data.unwrap().token)
}

fn upload(world: &mut World, task_id: i32, name: &str, chunks: Vec<Vec<u8>>) -> Result<Reply<UploadResponse>, ServiceError> {
    world.form = vec![(Some(name.to_string()), chunks)];
    run(world, upload_file_as(Ok(7), task_id))
}

#[test]
fn end_to_end_scenario() {
    let mut world = World::new();
    let config = config();
    let bearer = sign_in(&mut world);
    let auth = Some(bearer.as_str());

    let me = run(&mut world, get_me(auth, &config)).unwrap();
    assert_eq!(me.body.data.unwrap().id, 7);

    let reply = run(
        &mut world,
        create_task(auth, &config, new_task("Write report", "TO_DO", Some(&["Alpha", "Beta"]))),
    )
    .unwrap();
    assert_eq!(reply.status, 201);
    assert_eq!(reply.body.status, "success");
    assert_eq!(reply.body.message, "Task created successfully");
    let task = reply.body.data.unwrap();
    assert_eq!(task.name, "Write report");
    assert_eq!(task.created_by, 7);
    assert_eq!(task.teams, names(&["Alpha", "Beta"]));
    assert!(task.attachments.is_empty());

    let reply = run(&mut world, get_tasks(auth, &config)).unwrap();
    assert_eq!(reply.status, 200);
    assert_eq!(reply.body.message, "Tasks retrieved successfully");
    let listed = reply.body.data.unwrap();
    assert_eq!(listed.len(), 1);
    assert_eq!(listed[0].id, task.id);
    assert_eq!(listed[0].teams, names(&["Alpha", "Beta"]));
    assert_eq!(listed[0].attachments.len(), 0);

    world.form = vec![(Some("photo.png".to_string()), vec![vec![1, 2, 3], vec![4, 5]])];
    let reply = run(&mut world, upload_file(auth, &config, task.id)).unwrap();
    assert_eq!(reply.status, 201);
    let uploaded = reply.body.data.unwrap().attachment;
    assert_eq!(uploaded.task_id, task.id);
    assert_eq!(uploaded.file_size, 5);
    assert_eq!(uploaded.uploaded_by, 7);

    let reply = run(&mut world, get_task(auth, &config, task.id)).unwrap();
    assert_eq!(reply.body.message, "Task retrieved successfully");
    let shown = reply.body.data.unwrap().unwrap();
    assert_eq!(shown.attachments.len(), 1);
    assert_eq!(shown.attachments[0].name, uploaded.file_name);
    assert_eq!(shown.attachments[0].url, uploaded.download_url);
    assert_eq!(
        uploaded.download_url,
        format!("/api/tasks/{}/attachments/{}/download", task.id, uploaded.id)
    );

    let file = run(&mut world, download_file(auth, &config, task.id, uploaded.id)).unwrap();
    assert_eq!(file.body, vec![1, 2, 3, 4, 5]);

    let reply = run(&mut world, get_task_attachments(auth, &config, task.id)).unwrap();
    assert_eq!(reply.body.data.unwrap().len(), 1);

    let reply = run(&mut world, delete_task(auth, &config, task.id)).unwrap();
    assert_eq!(reply.status, 200);
    assert_eq!(reply.body.message, "Task deleted successfully");
    assert_eq!(reply.body.data, Some(true));

    let reply = run(&mut world, get_task(auth, &config, task.id)).unwrap();
    assert_eq!(reply.status, 200);
    assert_eq!(reply.body.status, "success");
    assert_eq!(reply.body.message, "Task not found");
    assert_eq!(reply.body.data, Some(None));

    let reply = run(&mut world, get_teams(auth, &config)).unwrap();
    let teams: Vec<String> = reply.body.data.unwrap().into_iter().map(|t| t.name).collect();
    assert_eq!(teams, names(&["Alpha", "Beta", "Gamma"]));

    let reply = run(&mut world, delete_attachment(auth, &config, task.id, uploaded.id)).unwrap();
    assert_eq!(reply.body.data, Some(true));
    assert!(world.files.is_empty());

    let reply = run(&mut world, update_task(auth, &config, task.id, no_changes()));
    assert_eq!(reply, Err(not_found("Task not found")));
}

#[test]
fn every_protected_endpoint_wants_a_token() {
    let mut world = World::new();
    let config = config();
    let wanted = Err(ServiceError::Unauthorized("Authentication required".to_string()));
    assert_eq!(run(&mut world, get_me(None, &config)).map(|_| ()), wanted);
    assert_eq!(
        run(&mut world, create_task(None, &config, new_task("n", "DONE", None))).map(|_| ()),
        wanted
    );
    assert_eq!(run(&mut world, get_tasks(None, &config)).map(|_| ()), wanted);
    assert_eq!(run(&mut world, get_task(None, &config, 1)).map(|_| ()), wanted);
    assert_eq!(run(&mut world, update_task(None, &config, 1, no_changes())).map(|_| ()), wanted);
    assert_eq!(run(&mut world, delete_task(None, &config, 1)).map(|_| ()), wanted);
    assert_eq!(run(&mut world, get_teams(None, &config)).map(|_| ()), wanted);
    assert_eq!(run(&mut world, upload_file(None, &config, 1)).map(|_| ()), wanted);
    assert_eq!(run(&mut world, get_task_attachments(None, &config, 1)).map(|_| ()), wanted);
    assert_eq!(run(&mut world, download_file(None, &config, 1, 1)).map(|_| ()), wanted);
    assert_eq!(run(&mut world, delete_attachment(None, &config, 1, 1)).map(|_| ()), wanted);
    assert!(world.asked.is_empty());
    let invalid_token = Err(ServiceError::Unauthorized("Invalid token".to_string()));
    assert_eq!(
        run(&mut world, delete_task(Some("Bearer nonsense"), &config, 1)).map(|_| ()),
        invalid_token
    );
    assert!(world.asked.is_empty());
}

#[test]
fn create_task_asks_in_order() {
    let mut world = World::new();
    created(&mut world, Some(&["Alpha", "Gamma"]));
    assert_eq!(
        world.asked,
        names(&[
            "BeginTransaction",
            "InsertTask",
            "FindTeamId",
            "FindTeamId",
            "AssignTeam",
            "AssignTeam",
            "CommitTransaction",
        ])
    );
    assert_eq!(world.task_teams, vec![(101, 2), (101, 3)]);
}

#[test]
fn create_task_without_teams() {
    let mut world = World::new();
    let task = created(&mut world, None);
    assert_eq!(task.teams, Vec::<String>::new());
    assert_eq!(world.asked, names(&["BeginTransaction", "InsertTask", "CommitTransaction"]));
    let task = created(&mut world, Some(&[]));
    assert_eq!(task.teams, Vec::<String>::new());
    assert_eq!(world.asked, names(&["BeginTransaction", "InsertTask", "CommitTransaction"]));
    assert_eq!(world.tasks.len(), 2);
}

#[test]
fn create_task_keeps_what_was_asked() {
    let mut world = World::new();
    let request = CreateTaskRequest {
        name: "  Plan  ".to_string(),
        description: None,
        status: "DOING".to_string(),
        external_link: Some("https://example.org/x".to_string()),
        teams: None,
    };
    let task = run(&mut world, create_task_as(Ok(7), request)).unwrap().body.data.unwrap();
    assert_eq!(task.name, "  Plan  ");
    assert_eq!(task.description, None);
    assert_eq!(task.status, "DOING");
    assert_eq!(task.external_link, Some("https://example.org/x".to_string()));
    assert_eq!(task.created_by, 7);
    assert_eq!(task.created_at, task.updated_at);
}

#[test]
fn create_task_wants_a_name() {
    let mut world = World::new();
    for name in ["", "   ", "\n"] {
        let outcome = run(&mut world, create_task_as(Ok(7), new_task(name, "TO_DO", None)));
        assert_eq!(outcome, Err(invalid("Task name is required")));
    }
    assert!(world.tasks.is_empty());
    assert!(world.asked.is_empty());
}

#[test]
fn create_task_with_invalid_status_creates_no_row() {
    let mut world = World::new();
    for status in ["", "todo", "TO_DO ", "TODO", "IN_PROGRESS", "done"] {
        let outcome = run(&mut world, create_task_as(Ok(7), new_task("Plan", status, Some(&["Alpha"]))));
        assert_eq!(outcome, Err(invalid("Invalid task status")));
        assert_eq!(outcome.unwrap_err().status_code(), 400);
        assert!(world.asked.is_empty());
    }
    assert!(world.tasks.is_empty());
    for status in ["TO_DO", "DOING", "DONE"] {
        assert!(run(&mut world, create_task_as(Ok(7), new_task("Plan", status, None))).is_ok());
    }
    assert_eq!(world.tasks.len(), 3);
}

#[test]
fn create_task_with_unknown_team_persists_nothing() {
    let mut world = World::new();
    let outcome = run(
        &mut world,
        create_task_as(Ok(7), new_task("Plan", "TO_DO", Some(&["Alpha", "DoesNotExist"]))),
    );
    assert_eq!(outcome, Err(invalid("Team 'DoesNotExist' not found")));
    assert!(world.tasks.is_empty());
    assert!(world.task_teams.is_empty());
    assert_eq!(
        world.asked,
        names(&["BeginTransaction", "InsertTask", "FindTeamId", "FindTeamId"])
    );
}

#[test]
fn create_task_fails_where_the_store_fails() {
    for (failing, message, rows) in [
        ("BeginTransaction", "Transaction failed", 0),
        ("InsertTask", "Failed to create task", 0),
        ("FindTeamId", "Failed to query team", 0),
        ("AssignTeam", "Failed to assign team", 0),
        ("CommitTransaction", "Transaction failed", 0),
    ] {
        let mut world = World::new();
        world.failing = vec![failing];
        let outcome = run(&mut world, create_task_as(Ok(7), new_task("Plan", "DONE", Some(&["Beta"]))));
        assert_eq!(outcome, Err(storage(message)));
        assert_eq!(world.tasks.len(), rows);
        assert!(world.task_teams.is_empty());
    }
}

#[test]
fn update_of_missing_task_is_not_found() {
    let mut world = World::new();
    let outcome = run(&mut world, update_task_as(Ok(7), 55, no_changes()));
    assert_eq!(outcome, Err(not_found("Task not found")));
    assert_eq!(outcome.unwrap_err().status_code(), 404);
    assert_eq!(world.asked, names(&["CheckTask"]));
}

#[test]
fn update_with_invalid_status_changes_no_row() {
    let mut world = World::new();
    let task = created(&mut world, Some(&["Alpha"]));
    let mut request = no_changes();
    request.status = Some("ARCHIVED".to_string());
    request.name = Some("Renamed".to_string());
    request.teams = Some(Vec::new());
    let outcome = run(&mut world, update_task_as(Ok(7), task.id, request));
    assert_eq!(outcome, Err(invalid("Invalid task status")));
    assert_eq!(world.asked, names(&["CheckTask"]));
    let row = world.task(task.id).unwrap();
    assert_eq!(row.name, "Write report");
    assert_eq!(row.status, "TO_DO");
    assert_eq!(row.updated_at, task.updated_at);
    assert_eq!(world.team_names(task.id), names(&["Alpha"]));
}

#[test]
fn partial_update_leaves_other_fields_alone() {
    let mut world = World::new();
    let task = created(&mut world, Some(&["Alpha", "Beta"]));
    let mut request = no_changes();
    request.description = Some("x".to_string());
    let reply = run(&mut world, update_task_as(Ok(7), task.id, request)).unwrap();
    assert_eq!(reply.status, 200);
    assert_eq!(reply.body.message, "Task updated successfully");
    let updated = reply.body.data.unwrap();
    assert_eq!(updated.description, Some("x".to_string()));
    assert_eq!(updated.name, task.name);
    assert_eq!(updated.status, task.status);
    assert_eq!(updated.external_link, task.external_link);
    assert_eq!(updated.teams, names(&["Alpha", "Beta"]));
    assert_eq!(updated.created_by, task.created_by);
    assert_eq!(updated.created_at, task.created_at);
    assert!(updated.updated_at > task.updated_at);
    assert_eq!(
        world.asked,
        names(&[
            "CheckTask",
            "BeginTransaction",
            "UpdateTask",
            "ListTeamNames",
            "CommitTransaction",
            "ListAttachments",
        ])
    );
}

#[test]
fn update_asks_for_the_columns_of_the_request_only() {
    let mut request = no_changes();
    request.description = Some("x".to_string());
    request.teams = Some(names(&["Alpha"]));
    let flow = UpdateTaskFlow::Beginning { task_id: 4, request };
    match flow.step(Event::Done) {
        Step::Ask(next, command) => {
            assert_eq!(
                command,
                Command::UpdateTask(
                    4,
                    TaskChanges {
                        name: None,
                        description: Some("x".to_string()),
                        status: None,
                        external_link: None,
                    }
                )
            );
            assert_eq!(
                next,
                UpdateTaskFlow::Writing { task_id: 4, updating: true, listed: Some(names(&["Alpha"])) }
            );
        }
        other => panic!("unexpected step: {:?}", other),
    }
}

#[test]
fn update_of_every_field() {
    let mut world = World::new();
    let task = created(&mut world, None);
    let request = UpdateTaskRequest {
        name: Some("New name".to_string()),
        description: Some("New text".to_string()),
        status: Some("DONE".to_string()),
        external_link: Some("https://example.org".to_string()),
        teams: Some(names(&["Gamma", "Alpha"])),
    };
    let updated = run(&mut world, update_task_as(Ok(7), task.id, request)).unwrap().body.data.unwrap();
    assert_eq!(updated.name, "New name");
    assert_eq!(updated.description, Some("New text".to_string()));
    assert_eq!(updated.status, "DONE");
    assert_eq!(updated.external_link, Some("https://example.org".to_string()));
    assert_eq!(updated.teams, names(&["Gamma", "Alpha"]));
    assert_eq!(world.team_names(task.id), names(&["Gamma", "Alpha"]));
    assert_eq!(
        world.asked,
        names(&[
            "CheckTask",
            "BeginTransaction",
            "UpdateTask",
            "ClearTeams",
            "FindTeamId",
            "FindTeamId",
            "AssignTeam",
            "AssignTeam",
            "CommitTransaction",
            "ListAttachments",
        ])
    );
}

#[test]
fn update_without_fields_reads_the_row_and_keeps_its_time() {
    let mut world = World::new();
    let task = created(&mut world, Some(&["Beta"]));
    let updated = run(&mut world, update_task_as(Ok(7), task.id, no_changes())).unwrap().body.data.unwrap();
    assert_eq!(updated.name, task.name);
    assert_eq!(updated.updated_at, task.updated_at);
    assert_eq!(updated.teams, names(&["Beta"]));
    assert_eq!(
        world.asked,
        names(&[
            "CheckTask",
            "BeginTransaction",
            "RereadTask",
            "ListTeamNames",
            "CommitTransaction",
            "ListAttachments",
        ])
    );
}

#[test]
fn update_with_empty_team_list_removes_all_teams() {
    let mut world = World::new();
    let task = created(&mut world, Some(&["Alpha", "Beta"]));
    let mut request = no_changes();
    request.teams = Some(Vec::new());
    let updated = run(&mut world, update_task_as(Ok(7), task.id, request)).unwrap().body.data.unwrap();
    assert_eq!(updated.teams, Vec::<String>::new());
    assert!(world.team_names(task.id).is_empty());
    assert_eq!(updated.updated_at, task.updated_at);
    assert_eq!(
        world.asked,
        names(&[
            "CheckTask",
            "BeginTransaction",
            "RereadTask",
            "ClearTeams",
            "CommitTransaction",
            "ListAttachments",
        ])
    );
}

#[test]
fn update_without_team_list_keeps_the_teams() {
    let mut world = World::new();
    let task = created(&mut world, Some(&["Alpha", "Beta"]));
    let mut request = no_changes();
    request.name = Some("Renamed".to_string());
    let updated = run(&mut world, update_task_as(Ok(7), task.id, request)).unwrap().body.data.unwrap();
    assert_eq!(updated.name, "Renamed");
    assert_eq!(updated.teams, names(&["Alpha", "Beta"]));
    assert_eq!(world.team_names(task.id), names(&["Alpha", "Beta"]));
    assert!(!world.asked.contains(&"ClearTeams".to_string()));
    assert!(!world.asked.contains(&"AssignTeam".to_string()));
}

#[test]
fn update_with_unknown_team_changes_nothing() {
    let mut world = World::new();
    let task = created(&mut world, Some(&["Alpha"]));
    let mut request = no_changes();
    request.name = Some("Renamed".to_string());
    request.teams = Some(names(&["Beta", "Nobody"]));
    let outcome = run(&mut world, update_task_as(Ok(7), task.id, request));
    assert_eq!(outcome, Err(invalid("Team 'Nobody' not found")));
    assert_eq!(world.task(task.id).unwrap().name, "Write report");
    assert_eq!(world.task(task.id).unwrap().updated_at, task.updated_at);
    assert_eq!(world.team_names(task.id), names(&["Alpha"]));
    assert!(!world.asked.contains(&"CommitTransaction".to_string()));
}

#[test]
fn update_fails_where_the_store_fails() {
    for (failing, message, with_name) in [
        ("CheckTask", "Failed to check task", true),
        ("BeginTransaction", "Transaction failed", true),
        ("UpdateTask", "Failed to update task", true),
        ("RereadTask", "Failed to fetch task", false),
        ("ClearTeams", "Failed to remove team assignments", true),
        ("FindTeamId", "Failed to query team", true),
        ("AssignTeam", "Failed to assign team", true),
        ("CommitTransaction", "Transaction failed", true),
    ] {
        let mut world = World::new();
        let task = created(&mut world, Some(&["Alpha"]));
        world.failing = vec![failing];
        let mut request = no_changes();
        if with_name {
            request.name = Some("Renamed".to_string());
        }
        request.teams = Some(names(&["Beta"]));
        let outcome = run(&mut world, update_task_as(Ok(7), task.id, request));
        assert_eq!(outcome, Err(storage(message)));
        assert_eq!(world.task(task.id).unwrap().name, "Write report");
        assert_eq!(world.team_names(task.id), names(&["Alpha"]));
    }
}

#[test]
fn update_reads_the_teams_it_keeps_and_the_links_after_the_commit() {
    let mut world = World::new();
    let task = created(&mut world, Some(&["Alpha"]));
    world.failing = vec!["ListTeamNames"];
    let mut request = no_changes();
    request.name = Some("Renamed".to_string());
    let outcome = run(&mut world, update_task_as(Ok(7), task.id, request));
    assert_eq!(outcome, Err(storage("Failed to query task teams")));
    assert_eq!(world.task(task.id).unwrap().name, "Write report");

    world.failing = vec!["ListAttachments"];
    let mut request = no_changes();
    request.name = Some("Renamed".to_string());
    let outcome = run(&mut world, update_task_as(Ok(7), task.id, request));
    assert_eq!(outcome, Err(storage("Failed to query task attachments")));
    assert_eq!(world.task(task.id).unwrap().name, "Renamed");
}

#[test]
fn team_work_resolves_every_name_before_it_assigns() {
    let work = TeamWork::Resolving { names: names(&["A", "B"]), ids: Vec::new() };
    let work = match work.step(9, Event::TeamId(Some(11))) {
        TeamProgress::Ask(work, command) => {
            assert_eq!(command, Command::FindTeamId("B".to_string()));
            work
        }
        other => panic!("unexpected progress: {:?}", other),
    };
    let work = match work.step(9, Event::TeamId(Some(12))) {
        TeamProgress::Ask(work, command) => {
            assert_eq!(command, Command::AssignTeam { task_id: 9, team_id: 11 });
            work
        }
        other => panic!("unexpected progress: {:?}", other),
    };
    let work = match work.step(9, Event::Done) {
        TeamProgress::Ask(work, command) => {
            assert_eq!(command, Command::AssignTeam { task_id: 9, team_id: 12 });
            work
        }
        other => panic!("unexpected progress: {:?}", other),
    };
    assert_eq!(work.step(9, Event::Done), TeamProgress::Finished(names(&["A", "B"])));
}

#[test]
fn team_work_that_resolves_nothing_fails() {
    let work = TeamWork::Resolving { names: names(&["A"]), ids: vec![1] };
    assert_eq!(
        work.step(9, Event::TeamId(Some(2))),
        TeamProgress::Failed(storage("Failed to query team"))
    );
    let work = TeamWork::Assigning { names: names(&["A"]), ids: Vec::new(), next: usize::MAX };
    assert_eq!(work.step(9, Event::Done), TeamProgress::Finished(names(&["A"])));
}

#[test]
fn tasks_are_listed_newest_first_with_teams_and_links() {
    let mut world = World::new();
    let first = created(&mut world, Some(&["Alpha"]));
    let second = created(&mut world, None);
    let third = created(&mut world, Some(&["Gamma", "Beta"]));
    upload(&mut world, second.id, "notes.txt", vec![vec![b'h', b'i']]).unwrap();
    let listed = run(&mut world, get_tasks_as(Ok(7))).unwrap().body.data.unwrap();
    let ids: Vec<i32> = listed.iter().map(|task| task.id).collect();
    assert_eq!(ids, vec![third.id, second.id, first.id]);
    assert_eq!(listed[0].teams, names(&["Gamma", "Beta"]));
    assert_eq!(listed[1].teams, Vec::<String>::new());
    assert_eq!(listed[2].teams, names(&["Alpha"]));
    assert_eq!(listed[1].attachments.len(), 1);
    assert_eq!(listed[0].attachments.len(), 0);
    assert_eq!(
        world.asked,
        names(&[
            "ListTasks",
            "ListTeamNames",
            "ListAttachments",
            "ListTeamNames",
            "ListAttachments",
            "ListTeamNames",
            "ListAttachments",
        ])
    );
}

#[test]
fn no_tasks_are_an_empty_list() {
    let mut world = World::new();
    let reply = run(&mut world, get_tasks_as(Ok(7))).unwrap();
    assert_eq!(reply.status, 200);
    assert_eq!(reply.body.data, Some(Vec::new()));
    assert_eq!(world.asked, names(&["ListTasks"]));
}

#[test]
fn listing_fails_where_the_store_fails() {
    for (failing, message) in [
        ("ListTasks", "Failed to fetch tasks"),
        ("ListTeamNames", "Failed to query task teams"),
        ("ListAttachments", "Failed to query task attachments"),
    ] {
        let mut world = World::new();
        created(&mut world, None);
        world.failing = vec![failing];
        assert_eq!(run(&mut world, get_tasks_as(Ok(7))), Err(storage(message)));
        let task_id = world.tasks[0].id;
        let failing_read = if failing == "ListTasks" { "FindTask" } else { failing };
        world.failing = vec![failing_read];
        let message = if failing == "ListTasks" { "Failed to fetch task" } else { message };
        assert_eq!(run(&mut world, get_task_as(Ok(7), task_id)), Err(storage(message)));
    }
}

#[test]
fn missing_task_reads_as_success_and_deletes_as_not_found() {
    let mut world = World::new();
    let reply = run(&mut world, get_task_as(Ok(7), 404)).unwrap();
    assert_eq!(reply.status, 200);
    assert_eq!(reply.body.status, "success");
    assert_eq!(reply.body.message, "Task not found");
    assert_eq!(reply.body.data, Some(None));

    let outcome = run(&mut world, delete_task_as(Ok(7), 404));
    assert_eq!(outcome, Err(not_found("Task not found")));
    let error = outcome.unwrap_err();
    assert_eq!(error.status_code(), 404);
    assert_eq!(error.error_response().body.status, "error");

    let outcome = run(&mut world, update_task_as(Ok(7), 404, no_changes()));
    assert_eq!(outcome, Err(not_found("Task not found")));
}

#[test]
fn delete_task_fails_where_the_store_fails() {
    let mut world = World::new();
    let task = created(&mut world, None);
    world.failing = vec!["DeleteTask"];
    assert_eq!(run(&mut world, delete_task_as(Ok(7), task.id)), Err(storage("Failed to delete task")));
    assert_eq!(world.tasks.len(), 1);
}

#[test]
fn teams_are_listed_by_name() {
    let mut world = World::new();
    let reply = run(&mut world, get_teams_as(Ok(7))).unwrap();
    assert_eq!(reply.status, 200);
    assert_eq!(reply.body.message, "Teams retrieved successfully");
    assert_eq!(
        reply.body.data.unwrap(),
        vec![
            Team { id: 2, name: "Alpha".to_string(), created_at: 2 },
            Team { id: 1, name: "Beta".to_string(), created_at: 1 },
            Team { id: 3, name: "Gamma".to_string(), created_at: 3 },
        ]
    );
    world.failing = vec!["ListTeams"];
    assert_eq!(run(&mut world, get_teams_as(Ok(7))), Err(storage("Failed to fetch teams")));
}

#[test]
fn upload_of_a_small_png_can_be_downloaded() {
    let mut world = World::new();
    let task = created(&mut world, None);
    let data = vec![7u8; 1024];
    let reply = upload(&mut world, task.id, "Holiday Photo.PNG", vec![data.clone()]).unwrap();
    assert_eq!(reply.status, 201);
    assert_eq!(reply.body.status, "success");
    assert_eq!(reply.body.message, "File uploaded successfully");
    let response = reply.body.data.unwrap();
    assert_eq!(response.message, "File uploaded successfully");
    let attachment = response.attachment;
    assert_eq!(attachment.original_name, "Holiday Photo.PNG");
    assert_eq!(attachment.mime_type, "image/png");
    assert_eq!(attachment.file_size, 1024);
    assert_eq!(attachment.task_id, task.id);
    assert_eq!(attachment.uploaded_by, 7);
    assert_eq!(
        world.asked,
        names(&[
            "CheckTask",
            "EnsureUploadDir",
            "NextField",
            "NextChunk",
            "NextChunk",
            "WriteFile",
            "InsertAttachment",
        ])
    );

    let prefix = format!("{}_", task.id);
    assert!(attachment.file_name.starts_with(&prefix));
    assert!(attachment.file_name.ends_with(".PNG"));
    let id = &attachment.file_name[prefix.len()..attachment.file_name.len() - 4];
    assert_eq!(id.len(), 36);
    assert_eq!(uuid::Uuid::parse_str(id).unwrap().get_version_num(), 4);
    assert_eq!(id, id.to_lowercase());
    let path = format!("uploads/{}", attachment.file_name);
    assert_eq!(world.attachments[0].file_path, path);
    assert_eq!(world.file(&path), Some(&data));

    let file = run(&mut world, download_file_as(Ok(7), task.id, attachment.id)).unwrap();
    assert_eq!(
        file,
        FileDownload {
            content_type: "image/png".to_string(),
            content_disposition: "attachment; filename=\"Holiday Photo.PNG\"".to_string(),
            body: data,
        }
    );
    assert_eq!(world.asked, names(&["FindAttachment", "CheckFile", "ReadFile"]));
}

#[test]
fn uploads_get_different_names() {
    let mut world = World::new();
    let task = created(&mut world, None);
    let first = upload(&mut world, task.id, "a.txt", vec![vec![1]]).unwrap();
    let second = upload(&mut world, task.id, "a.txt", vec![vec![2]]).unwrap();
    let first = first.body.data.unwrap().attachment.file_name;
    let second = second.body.data.unwrap().attachment.file_name;
    assert_ne!(first, second);
    assert_eq!(world.files.len(), 2);
}

#[test]
fn upload_of_eleven_mebibytes_is_refused_whatever_the_extension() {
    for name in ["big.png", "big.exe", "big"] {
        let mut world = World::new();
        let task = created(&mut world, None);
        let chunks: Vec<Vec<u8>> = (0..11).map(|_| vec![0u8; 1024 * 1024]).collect();
        let outcome = upload(&mut world, task.id, name, chunks);
        assert_eq!(outcome, Err(invalid("File size exceeds 10MB limit")));
        assert!(world.files.is_empty());
        assert!(world.attachments.is_empty());
        assert_eq!(world.asked.iter().filter(|kind| *kind == "NextChunk").count(), 11);
        assert!(!world.asked.contains(&"WriteFile".to_string()));
    }
}

#[test]
fn upload_of_exactly_ten_mebibytes_is_accepted() {
    let mut world = World::new();
    let task = created(&mut world, None);
    let chunks = vec![vec![0u8; 10 * 1024 * 1024 - 1], vec![1u8]];
    let reply = upload(&mut world, task.id, "big.zip", chunks).unwrap();
    assert_eq!(reply.body.data.unwrap().attachment.file_size, 10 * 1024 * 1024);
    let outcome = upload(&mut world, task.id, "big.zip", vec![vec![0u8; 10 * 1024 * 1024 + 1]]);
    assert_eq!(outcome, Err(invalid("File size exceeds 10MB limit")));
}

#[test]
fn upload_of_an_executable_is_refused_after_it_was_received() {
    let mut world = World::new();
    let task = created(&mut world, None);
    let outcome = upload(&mut world, task.id, "tool.exe", vec![vec![0u8; 1024]]);
    assert_eq!(outcome, Err(invalid("File type 'exe' not allowed")));
    assert!(world.files.is_empty());
    assert!(world.attachments.is_empty());
    assert_eq!(
        world.asked,
        names(&["CheckTask", "EnsureUploadDir", "NextField", "NextChunk", "NextChunk"])
    );
}

#[test]
fn upload_takes_the_first_field_that_names_a_file() {
    let mut world = World::new();
    let task = created(&mut world, None);
    world.form = vec![
        (None, vec![vec![1, 2, 3]]),
        (Some("first.txt".to_string()), vec![vec![b'a']]),
        (Some("second.txt".to_string()), vec![vec![b'b']]),
    ];
    let reply = run(&mut world, upload_file_as(Ok(7), task.id)).unwrap();
    assert_eq!(reply.body.data.unwrap().attachment.original_name, "first.txt");
    assert_eq!(world.files.len(), 1);
    assert_eq!(world.files[0].1, vec![b'a']);
}

#[test]
fn upload_without_a_file_is_refused() {
    let mut world = World::new();
    let task = created(&mut world, None);
    world.form = vec![(None, Vec::new())];
    let outcome = run(&mut world, upload_file_as(Ok(7), task.id));
    assert_eq!(outcome, Err(invalid("No file found in request")));
    world.form = Vec::new();
    let outcome = run(&mut world, upload_file_as(Ok(7), task.id));
    assert_eq!(outcome, Err(invalid("No file found in request")));
}

#[test]
fn upload_to_a_missing_task_is_not_found() {
    let mut world = World::new();
    let outcome = upload(&mut world, 5, "a.png", vec![vec![1]]);
    assert_eq!(outcome, Err(not_found("Task not found")));
    assert_eq!(world.asked, names(&["CheckTask"]));
}

#[test]
fn upload_fails_where_the_world_fails() {
    for (failing, error) in [
        ("CheckTask", storage("Failed to check task")),
        (
            "EnsureUploadDir",
            ServiceError::InternalError("Failed to create upload directory".to_string()),
        ),
        ("NextField", invalid("Invalid multipart data")),
        ("NextChunk", invalid("Error reading file data")),
        ("WriteFile", ServiceError::InternalError("Failed to save file".to_string())),
        ("InsertAttachment", storage("Failed to save attachment info")),
    ] {
        let mut world = World::new();
        let task = created(&mut world, None);
        world.failing = vec![failing];
        let outcome = upload(&mut world, task.id, "a.png", vec![vec![1]]);
        assert_eq!(outcome, Err(error));
        assert!(world.attachments.is_empty());
    }
}

#[test]
fn file_that_cannot_be_recorded_is_removed_again() {
    let mut world = World::new();
    let task = created(&mut world, None);
    world.failing = vec!["InsertAttachment"];
    let outcome = upload(&mut world, task.id, "a.png", vec![vec![1, 2, 3]]);
    assert_eq!(outcome, Err(storage("Failed to save attachment info")));
    assert_eq!(
        world.asked,
        names(&[
            "CheckTask",
            "EnsureUploadDir",
            "NextField",
            "NextChunk",
            "NextChunk",
            "WriteFile",
            "InsertAttachment",
            "RemoveFile",
        ])
    );
    assert!(world.files.is_empty());
    assert!(world.attachments.is_empty());
}

#[test]
fn removal_names_the_file_that_was_written() {
    let flow = UploadFlow::Recording { task_id: 3, path: "uploads/3_x.png".to_string() };
    match flow.step(Event::Failed("unique violation".to_string())) {
        Step::Ask(next, command) => {
            assert_eq!(command, Command::RemoveFile("uploads/3_x.png".to_string()));
            assert_eq!(next, UploadFlow::Cleaning);
            for event in [Event::Done, Event::Failed("busy".to_string())] {
                assert_eq!(
                    UploadFlow::Cleaning.step(event),
                    Step::Done(Err(storage("Failed to save attachment info")))
                );
            }
        }
        other => panic!("unexpected step: {:?}", other),
    }
}

#[test]
fn upload_with_a_given_file_id() {
    let flow = UploadFlow::Scanning { task_id: 3, user_id: 7 };
    assert!(flow.awaits_field());
    match flow.step_with(Event::Field(Some("a.b.Txt".to_string())), "the-id") {
        Step::Ask(next, command) => {
            assert_eq!(command, Command::NextChunk);
            assert_eq!(
                next,
                UploadFlow::Receiving {
                    task_id: 3,
                    user_id: 7,
                    original_name: "a.b.Txt".to_string(),
                    stored_name: "3_the-id.Txt".to_string(),
                    data: Vec::new(),
                }
            );
            assert!(!next.awaits_field());
        }
        other => panic!("unexpected step: {:?}", other),
    }
}

#[test]
fn attachments_are_listed_newest_first() {
    let mut world = World::new();
    let task = created(&mut world, None);
    let other = created(&mut world, None);
    let first = upload(&mut world, task.id, "a.txt", vec![vec![1]]).unwrap().body.data.unwrap();
    upload(&mut world, other.id, "b.txt", vec![vec![2]]).unwrap();
    let third = upload(&mut world, task.id, "c.csv", vec![vec![3, 4]]).unwrap().body.data.unwrap();
    let reply = run(&mut world, get_task_attachments_as(Ok(7), task.id)).unwrap();
    assert_eq!(reply.status, 200);
    assert_eq!(reply.body.message, "Attachments retrieved successfully");
    assert_eq!(reply.body.data.unwrap(), vec![third.attachment, first.attachment]);
    assert_eq!(world.asked, names(&["CheckTask", "ListAttachments"]));
}

#[test]
fn attachments_of_a_missing_task_are_not_found() {
    let mut world = World::new();
    assert_eq!(
        run(&mut world, get_task_attachments_as(Ok(7), 1)),
        Err(not_found("Task not found"))
    );
    let task = created(&mut world, None);
    assert_eq!(
        run(&mut world, get_task_attachments_as(Ok(7), task.id)).unwrap().body.data,
        Some(Vec::new())
    );
    world.failing = vec!["ListAttachments"];
    assert_eq!(
        run(&mut world, get_task_attachments_as(Ok(7), task.id)),
        Err(storage("Failed to fetch attachments"))
    );
    world.failing = vec!["CheckTask"];
    assert_eq!(
        run(&mut world, get_task_attachments_as(Ok(7), task.id)),
        Err(storage("Failed to check task"))
    );
}

#[test]
fn download_is_scoped_to_the_task() {
    let mut world = World::new();
    let task = created(&mut world, None);
    let other = created(&mut world, None);
    let attachment = upload(&mut world, task.id, "a.txt", vec![vec![1]]).unwrap().body.data.unwrap().attachment;
    assert_eq!(
        run(&mut world, download_file_as(Ok(7), other.id, attachment.id)),
        Err(not_found("Attachment not found"))
    );
    assert_eq!(
        run(&mut world, download_file_as(Ok(7), task.id, attachment.id + 1)),
        Err(not_found("Attachment not found"))
    );
    assert!(run(&mut world, download_file_as(Ok(7), task.id, attachment.id)).is_ok());
}

#[test]
fn download_of_a_file_that_is_gone_is_not_found() {
    let mut world = World::new();
    let task = created(&mut world, None);
    let attachment = upload(&mut world, task.id, "a.txt", vec![vec![1]]).unwrap().body.data.unwrap().attachment;
    world.files.clear();
    assert_eq!(
        run(&mut world, download_file_as(Ok(7), task.id, attachment.id)),
        Err(not_found("File not found on disk"))
    );
    assert_eq!(world.asked, names(&["FindAttachment", "CheckFile"]));
}

#[test]
fn download_fails_where_the_world_fails() {
    let mut world = World::new();
    let task = created(&mut world, None);
    let attachment = upload(&mut world, task.id, "a.txt", vec![vec![1]]).unwrap().body.data.unwrap().attachment;
    world.failing = vec!["FindAttachment"];
    assert_eq!(
        run(&mut world, download_file_as(Ok(7), task.id, attachment.id)),
        Err(storage("Failed to fetch attachment"))
    );
    world.failing = vec!["ReadFile"];
    assert_eq!(
        run(&mut world, download_file_as(Ok(7), task.id, attachment.id)),
        Err(ServiceError::InternalError("Failed to read file".to_string()))
    );
}

#[test]
fn deleting_an_attachment_removes_record_and_file() {
    let mut world = World::new();
    let task = created(&mut world, None);
    let attachment = upload(&mut world, task.id, "a.txt", vec![vec![1]]).unwrap().body.data.unwrap().attachment;
    let reply = run(&mut world, delete_attachment_as(Ok(7), task.id, attachment.id)).unwrap();
    assert_eq!(reply.status, 200);
    assert_eq!(reply.body.message, "Attachment deleted successfully");
    assert_eq!(reply.body.data, Some(true));
    assert_eq!(world.asked, names(&["FindAttachment", "DeleteAttachment", "RemoveFile"]));
    assert!(world.attachments.is_empty());
    assert!(world.files.is_empty());
    assert_eq!(
        run(&mut world, delete_attachment_as(Ok(7), task.id, attachment.id)),
        Err(not_found("Attachment not found"))
    );
}

#[test]
fn deleting_an_attachment_succeeds_though_the_file_cannot_be_removed() {
    let mut world = World::new();
    let task = created(&mut world, None);
    let attachment = upload(&mut world, task.id, "a.txt", vec![vec![1]]).unwrap().body.data.unwrap().attachment;
    world.failing = vec!["RemoveFile"];
    let reply = run(&mut world, delete_attachment_as(Ok(7), task.id, attachment.id)).unwrap();
    assert_eq!(reply.body.data, Some(true));
    assert!(world.attachments.is_empty());
    assert_eq!(world.files.len(), 1);
}

#[test]
fn deleting_an_attachment_fails_where_the_store_fails() {
    let mut world = World::new();
    let task = created(&mut world, None);
    let attachment = upload(&mut world, task.id, "a.txt", vec![vec![1]]).unwrap().body.data.unwrap().attachment;
    world.failing = vec!["FindAttachment"];
    assert_eq!(
        run(&mut world, delete_attachment_as(Ok(7), task.id, attachment.id)),
        Err(storage("Failed to fetch attachment"))
    );
    world.failing = vec!["DeleteAttachment"];
    assert_eq!(
        run(&mut world, delete_attachment_as(Ok(7), task.id, attachment.id)),
        Err(storage("Failed to delete attachment"))
    );
    assert_eq!(world.files.len(), 1);
    let flow = DeleteAttachmentFlow::Deleting { path: "uploads/x".to_string() };
    assert_eq!(flow.step(Event::Affected(0)), Step::Done(Err(not_found("Attachment not found"))));
}

#[test]
fn task_lists_each_attachment_with_its_download_address() {
    let mut world = World::new();
    let task = created(&mut world, Some(&["Alpha", "Beta"]));
    let data = vec![9u8, 8, 7];
    let uploaded = upload(&mut world, task.id, "pic.png", vec![data.clone()])
        .unwrap()
        .body
        .data
        .unwrap()
        .attachment;
    let shown = run(&mut world, get_task_as(Ok(7), task.id)).unwrap().body.data.unwrap().unwrap();
    assert_eq!(shown.id, task.id);
    assert_eq!(shown.teams, names(&["Alpha", "Beta"]));
    assert_eq!(
        shown.attachments,
        vec![TaskAttachmentSimple {
            name: uploaded.file_name.clone(),
            url: format!("/api/tasks/{}/attachments/{}/download", task.id, uploaded.id),
        }]
    );
    assert_eq!(shown.attachments[0].url, uploaded.download_url);
    assert_eq!(world.asked, names(&["FindTask", "ListTeamNames", "ListAttachments"]));
    let file = run(&mut world, download_file_as(Ok(7), task.id, uploaded.id)).unwrap();
    assert_eq!(file.body, data);
}
