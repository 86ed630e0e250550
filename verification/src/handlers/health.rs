//! Liveness: whether the service runs, and whether its store answers.

use crate::config::{AppConfig, AppConfigView};
use crate::database::{health_verdict, no_stats, probe_verdict, DatabaseStats};
use crate::effects::{Command, CommandView, Event, EventView, Step, StepView};
use crate::models::auth::{success_reply, Reply, ReplyView, Timestamp};
use vstd::prelude::*;
use vstd::string::*;

verus! {

/// What a healthy service reports of its store.
#[derive(Debug, PartialEq, Eq)]
pub struct HealthReport {
    pub status: String,
    pub database: String,
    pub stats: DatabaseStats,
}

/// [`HealthReport`] as contracts see it: text as sequences of characters.
pub struct HealthReportView {
    pub status: Seq<char>,
    pub database: Seq<char>,
    pub stats: DatabaseStats,
}

impl DeepView for HealthReport {
    type V = HealthReportView;

    open spec fn deep_view(&self) -> HealthReportView {
        HealthReportView { status: self.status@, database: self.database@, stats: self.stats }
    }
}

/// What a service reports whose store does not answer.
#[derive(Debug, PartialEq, Eq)]
pub struct Unavailable {
    pub status: String,
    pub message: String,
    pub error: String,
}

/// [`Unavailable`] as contracts see it: text as sequences of characters.
pub struct UnavailableView {
    pub status: Seq<char>,
    pub message: Seq<char>,
    pub error: Seq<char>,
}

impl DeepView for Unavailable {
    type V = UnavailableView;

    open spec fn deep_view(&self) -> UnavailableView {
        UnavailableView { status: self.status@, message: self.message@, error: self.error@ }
    }
}

/// The answer of the health check.
#[derive(Debug, PartialEq, Eq)]
pub enum HealthAnswer {
    /// The store answers.
    Up(Reply<HealthReport>),
    /// The store does not answer: the HTTP status, and what is reported.
    Down { status: u16, body: Unavailable },
}

/// [`HealthAnswer`] as contracts see it: text as sequences of characters.
pub enum HealthAnswerView {
    Up(ReplyView<HealthReportView>),
    Down { status: u16, body: UnavailableView },
}

impl DeepView for HealthAnswer {
    type V = HealthAnswerView;

    open spec fn deep_view(&self) -> HealthAnswerView {
        match self {
            HealthAnswer::Up(reply) => HealthAnswerView::Up(reply.deep_view()),
            HealthAnswer::Down { status, body } => HealthAnswerView::Down {
                status: *status,
                body: body.deep_view(),
            },
        }
    }
}

/// A health check in progress.
#[derive(Debug, Clone, Copy, PartialEq, Eq, Structural)]
pub enum HealthFlow {
    /// The store is being pinged.
    Pinging,
    /// The rows are being counted.
    Counting,
}

impl DeepView for HealthFlow {
    type V = HealthFlow;

    open spec fn deep_view(&self) -> HealthFlow {
        *self
    }
}

/// Where the endpoint stands after a step, as contracts see it.
pub type HealthStep = StepView<HealthFlow, HealthAnswerView>;

/// The answer of a service whose store answers, with these row counts.
pub open spec fn healthy(stats: DatabaseStats) -> HealthAnswerView {
    HealthAnswerView::Up(
        success_reply(
            200,
            "Kanban Backend API is running"@,
            HealthReportView { status: "ok"@, database: "connected"@, stats },
        ),
    )
}

/// The answer of a service whose store does not answer, for this reason.
pub open spec fn unhealthy(reason: Seq<char>) -> HealthAnswerView {
    HealthAnswerView::Down {
        status: 503,
        body: UnavailableView {
            status: "error"@,
            message: "Database connection failed"@,
            error: reason,
        },
    }
}

/// How a health check starts: with a ping.
pub open spec fn health_check_plan() -> HealthStep {
    StepView::Ask(HealthFlow::Pinging, CommandView::Ping)
}

/// How a health check goes on after `event`. Row counts that cannot be
/// had are reported as zero.
pub open spec fn health_check_step(flow: HealthFlow, event: EventView) -> HealthStep {
    match flow {
        HealthFlow::Pinging => match probe_verdict(event) {
            Ok(_) => StepView::Ask(HealthFlow::Counting, CommandView::CountRows),
            Err(reason) => StepView::Done(Ok(unhealthy(reason))),
        },
        HealthFlow::Counting => match event {
            EventView::Stats(stats) => StepView::Done(Ok(healthy(stats))),
            _ => StepView::Done(Ok(healthy(no_stats()))),
        },
    }
}

/// Reports a store that answers.
fn up(stats: DatabaseStats) -> (answer: HealthAnswer)
    ensures
        answer.deep_view() == healthy(stats),
{
    HealthAnswer::Up(
        Reply::success(
            200,
            "Kanban Backend API is running",
            HealthReport {
                status: String::from_str("ok"),
                database: String::from_str("connected"),
                stats,
            },
        ),
    )
}

/// Starts a health check.
pub fn health_check() -> (step: Step<HealthFlow, HealthAnswer>)
    ensures
        step.deep_view() == health_check_plan(),
{
    Step::Ask(HealthFlow::Pinging, Command::Ping)
}

impl HealthFlow {
    /// Goes on with the health check after `event`.
    pub fn step(self, event: Event) -> (step: Step<HealthFlow, HealthAnswer>)
        ensures
            step.deep_view() == health_check_step(self, event.deep_view()),
    {
        match self {
            HealthFlow::Pinging => match health_verdict(&event) {
                Ok(_) => Step::Ask(HealthFlow::Counting, Command::CountRows),
                Err(reason) => Step::Done(
                    Ok(
                        HealthAnswer::Down {
                            status: 503,
                            body: Unavailable {
                                status: String::from_str("error"),
                                message: String::from_str("Database connection failed"),
                                error: reason,
                            },
                        },
                    ),
                ),
            },
            HealthFlow::Counting => match event {
                Event::Stats(stats) => Step::Done(Ok(up(stats))),
                _ => Step::Done(Ok(up(DatabaseStats::zeroed()))),
            },
        }
    }
}

/// What the service reports of itself without asking the store.
#[derive(Debug, PartialEq, Eq)]
pub struct ProcessHealth {
    pub status: String,
    pub service: String,
    pub version: String,
    pub timestamp: Timestamp,
}

/// [`ProcessHealth`] as contracts see it: text as sequences of characters.
pub struct ProcessHealthView {
    pub status: Seq<char>,
    pub service: Seq<char>,
    pub version: Seq<char>,
    pub timestamp: Timestamp,
}

impl DeepView for ProcessHealth {
    type V = ProcessHealthView;

    open spec fn deep_view(&self) -> ProcessHealthView {
        ProcessHealthView {
            status: self.status@,
            service: self.service@,
            version: self.version@,
            timestamp: self.timestamp,
        }
    }
}

/// The answer of the process-only health check at time `now`.
pub open spec fn process_health_at(now: Timestamp) -> ReplyView<ProcessHealthView> {
    success_reply(
        200,
        "Kanban Backend API is running"@,
        ProcessHealthView {
            status: "healthy"@,
            service: "kanban-backend"@,
            version: "0.1.0"@,
            timestamp: now,
        },
    )
}

/// Reports that the process runs, at time `now`. Nothing outside the
/// process is asked.
pub fn process_health(now: Timestamp) -> (reply: Reply<ProcessHealth>)
    ensures
        reply.deep_view() == process_health_at(now),
{
    Reply::success(
        200,
        "Kanban Backend API is running",
        ProcessHealth {
            status: String::from_str("healthy"),
            service: String::from_str("kanban-backend"),
            version: String::from_str("0.1.0"),
            timestamp: now,
        },
    )
}

/// What the service says of itself: its name and version, the environment
/// it runs in, and whether cloud storage is configured.
#[derive(Debug, PartialEq, Eq)]
pub struct ApiInfo {
    pub name: String,
    pub version: String,
    pub environment: String,
    pub cloud_storage: bool,
}

/// [`ApiInfo`] as contracts see it: text as sequences of characters.
pub struct ApiInfoView {
    pub name: Seq<char>,
    pub version: Seq<char>,
    pub environment: Seq<char>,
    pub cloud_storage: bool,
}

impl DeepView for ApiInfo {
    type V = ApiInfoView;

    open spec fn deep_view(&self) -> ApiInfoView {
        ApiInfoView {
            name: self.name@,
            version: self.version@,
            environment: self.environment@,
            cloud_storage: self.cloud_storage,
        }
    }
}

/// What a service with this configuration says of itself.
pub open spec fn api_info_of(config: AppConfigView) -> ReplyView<ApiInfoView> {
    success_reply(
        200,
        "Kanban Backend API"@,
        ApiInfoView {
            name: "Kanban Backend API"@,
            version: "0.1.0"@,
            environment: config.environment,
            cloud_storage: config.cloudinary_cloud_name is Some && config.cloudinary_api_key
                is Some && config.cloudinary_api_secret is Some,
        },
    )
}

/// Says what the service is.
pub fn api_info(config: &AppConfig) -> (reply: Reply<ApiInfo>)
    ensures
        reply.deep_view() == api_info_of(config.deep_view()),
{
    Reply::success(
        200,
        "Kanban Backend API",
        ApiInfo {
            name: String::from_str("Kanban Backend API"),
            version: String::from_str("0.1.0"),
            environment: config.environment.clone(),
            cloud_storage: config.has_cloudinary_config(),
        },
    )
}

} // verus!
