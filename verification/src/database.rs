//! What the service decides about the store itself: whether it answers,
//! whether its tables are there, how its row counts are reported, and
//! whether the service may start.

use crate::effects::{Command, CommandView, Event, EventView, Step, StepView};
use crate::text::{decimal, decimal_text, join, same_text};
use vstd::prelude::*;
use vstd::string::*;

verus! {

/// Row counts of the store.
#[derive(Debug, Clone, Copy, PartialEq, Eq, Structural)]
pub struct DatabaseStats {
    pub users: i64,
    pub teams: i64,
    pub tasks: i64,
    pub attachments: i64,
}

impl DeepView for DatabaseStats {
    type V = DatabaseStats;

    open spec fn deep_view(&self) -> DatabaseStats {
        *self
    }
}

/// The counts that stand in where the store could not be asked.
pub open spec fn no_stats() -> DatabaseStats {
    DatabaseStats { users: 0, teams: 0, tasks: 0, attachments: 0 }
}

/// The lines that report `stats`.
pub open spec fn stats_lines(stats: DatabaseStats) -> Seq<Seq<char>> {
    seq![
        "Database Statistics:"@,
        "   Users: "@ + decimal(stats.users as int),
        "   Teams: "@ + decimal(stats.teams as int),
        "   Tasks: "@ + decimal(stats.tasks as int),
        "   Attachments: "@ + decimal(stats.attachments as int),
    ]
}

impl DatabaseStats {
    /// The counts that stand in where the store could not be asked.
    pub fn zeroed() -> (stats: DatabaseStats)
        ensures
            stats == no_stats(),
    {
        DatabaseStats { users: 0, teams: 0, tasks: 0, attachments: 0 }
    }

    /// The lines to log: a heading, then one line for each count.
    pub fn log_stats(&self) -> (lines: Vec<String>)
        ensures
            lines.deep_view() == stats_lines(*self),
    {
        let mut lines: Vec<String> = Vec::new();
        lines.push(String::from_str("Database Statistics:"));
        lines.push(join("   Users: ", decimal_text(self.users).as_str()));
        lines.push(join("   Teams: ", decimal_text(self.teams).as_str()));
        lines.push(join("   Tasks: ", decimal_text(self.tasks).as_str()));
        lines.push(join("   Attachments: ", decimal_text(self.attachments).as_str()));
        assert(lines.deep_view() =~= stats_lines(*self));
        lines
    }
}

/// What the answer to a `Ping` says of the store: it is healthy if it
/// returned the number one, and if not, the text says what went wrong.
pub open spec fn probe_verdict(event: EventView) -> Result<(), Seq<char>> {
    match event {
        EventView::Number(n) => if n == 1 {
            Ok(())
        } else {
            Err("Database health check failed"@)
        },
        _ => Err("Failed to execute health check query"@),
    }
}

/// The view of a result whose error is a text.
pub open spec fn verdict_view(r: Result<(), String>) -> Result<(), Seq<char>> {
    match r {
        Ok(_) => Ok(()),
        Err(text) => Err(text@),
    }
}

/// Judges the answer to a `Ping`.
pub fn health_verdict(event: &Event) -> (r: Result<(), String>)
    ensures
        verdict_view(r) == probe_verdict(event.deep_view()),
{
    match event {
        Event::Number(n) => {
            if *n == 1 {
                Ok(())
            } else {
                Err(String::from_str("Database health check failed"))
            }
        },
        _ => Err(String::from_str("Failed to execute health check query")),
    }
}

/// The tables the service works on.
pub open spec fn expected_tables() -> Seq<Seq<char>> {
    seq!["task_attachments"@, "task_teams"@, "tasks"@, "teams"@, "users"@]
}

/// Those of `expected` that `found` lacks, in the order of `expected`.
pub open spec fn lacking(expected: Seq<Seq<char>>, found: Seq<Seq<char>>) -> Seq<Seq<char>>
    decreases expected.len(),
{
    if expected.len() == 0 {
        Seq::empty()
    } else {
        let before = lacking(expected.drop_last(), found);
        if found.contains(expected.last()) {
            before
        } else {
            before.push(expected.last())
        }
    }
}

/// Whether `names` holds `name`.
fn holds(names: &Vec<String>, name: &str) -> (yes: bool)
    ensures
        yes == names.deep_view().contains(name@),
{
    let mut i: usize = 0;
    while i < names.len()
        invariant
            i <= names.len(),
            forall|k: int| 0 <= k < i ==> names.deep_view()[k] != name@,
        decreases names.len() - i,
    {
        if same_text(names[i].as_str(), name) {
            assert(names.deep_view()[i as int] == name@);
            return true;
        }
        i += 1;
    }
    false
}

/// The tables the service works on that are not among `found`.
pub fn missing_tables(found: &Vec<String>) -> (missing: Vec<String>)
    ensures
        missing.deep_view() == lacking(expected_tables(), found.deep_view()),
{
    let mut expected: Vec<String> = Vec::new();
    expected.push(String::from_str("task_attachments"));
    expected.push(String::from_str("task_teams"));
    expected.push(String::from_str("tasks"));
    expected.push(String::from_str("teams"));
    expected.push(String::from_str("users"));
    assert(expected.deep_view() =~= expected_tables());
    let mut missing: Vec<String> = Vec::new();
    let mut i: usize = 0;
    while i < expected.len()
        invariant
            i <= expected.len(),
            missing.deep_view() == lacking(expected.deep_view().take(i as int), found.deep_view()),
        decreases expected.len() - i,
    {
        assert(expected.deep_view().take(i + 1).drop_last() == expected.deep_view().take(i as int));
        if !holds(found, expected[i].as_str()) {
            let ghost before = missing.deep_view();
            missing.push(expected[i].clone());
            assert(missing.deep_view() =~= before.push(expected@[i as int]@));
        }
        i += 1;
    }
    assert(expected.deep_view().take(expected.len() as int) == expected.deep_view());
    missing
}

/// How the checks at startup ended.
#[derive(Debug, PartialEq, Eq)]
pub enum Startup {
    /// The service may start. `missing_tables` are the tables that were not
    /// found, to be warned about; `stats` are the row counts, all zero where
    /// they could not be had.
    Ready { missing_tables: Vec<String>, stats: DatabaseStats },
    /// The service must not start; the text says why.
    Abort(String),
}

/// [`Startup`] as contracts see it: text as sequences of characters.
pub enum StartupView {
    Ready { missing_tables: Seq<Seq<char>>, stats: DatabaseStats },
    Abort(Seq<char>),
}

impl DeepView for Startup {
    type V = StartupView;

    open spec fn deep_view(&self) -> StartupView {
        match self {
            Startup::Ready { missing_tables, stats } => StartupView::Ready {
                missing_tables: missing_tables.deep_view(),
                stats: *stats,
            },
            Startup::Abort(reason) => StartupView::Abort(reason@),
        }
    }
}

/// The checks at startup in progress.
#[derive(Debug, PartialEq, Eq)]
pub enum StartupFlow {
    /// The connection is being opened.
    Connecting,
    /// The store is being pinged.
    Probing,
    /// The tables are being listed.
    Inspecting,
    /// The rows are being counted.
    Counting { missing_tables: Vec<String> },
}

/// [`StartupFlow`] as contracts see it: text as sequences of characters.
pub enum StartupFlowView {
    Connecting,
    Probing,
    Inspecting,
    Counting { missing_tables: Seq<Seq<char>> },
}

impl DeepView for StartupFlow {
    type V = StartupFlowView;

    open spec fn deep_view(&self) -> StartupFlowView {
        match self {
            StartupFlow::Connecting => StartupFlowView::Connecting,
            StartupFlow::Probing => StartupFlowView::Probing,
            StartupFlow::Inspecting => StartupFlowView::Inspecting,
            StartupFlow::Counting { missing_tables } => StartupFlowView::Counting {
                missing_tables: missing_tables.deep_view(),
            },
        }
    }
}

/// Where the endpoint stands after a step, as contracts see it.
pub type StartupStep = StepView<StartupFlowView, StartupView>;

/// The step that ends the checks at startup with `outcome`.
pub open spec fn started(outcome: StartupView) -> StartupStep {
    StepView::Done(Ok(outcome))
}

/// How the checks at startup begin: with the connection.
pub open spec fn startup_plan(database_url: Seq<char>) -> StartupStep {
    StepView::Ask(StartupFlowView::Connecting, CommandView::Connect(database_url))
}

/// How the checks at startup go on after `event`. A store that cannot be
/// reached, does not answer the ping, or cannot list its tables stops the
/// service; missing tables do not, and row counts that cannot be had are
/// taken as zero.
pub open spec fn startup_step(flow: StartupFlowView, event: EventView) -> StartupStep {
    match flow {
        StartupFlowView::Connecting => match event {
            EventView::Done => StepView::Ask(StartupFlowView::Probing, CommandView::Ping),
            _ => started(StartupView::Abort("Failed to connect to the database"@)),
        },
        StartupFlowView::Probing => match probe_verdict(event) {
            Ok(_) => StepView::Ask(StartupFlowView::Inspecting, CommandView::ListTables),
            Err(reason) => started(StartupView::Abort(reason)),
        },
        StartupFlowView::Inspecting => match event {
            EventView::Names(found) => StepView::Ask(
                StartupFlowView::Counting { missing_tables: lacking(expected_tables(), found) },
                CommandView::CountRows,
            ),
            _ => started(StartupView::Abort("Failed to check database tables"@)),
        },
        StartupFlowView::Counting { missing_tables } => match event {
            EventView::Stats(stats) => started(StartupView::Ready { missing_tables, stats }),
            _ => started(StartupView::Ready { missing_tables, stats: no_stats() }),
        },
    }
}

/// Begins the checks at startup on the store at `database_url`.
pub fn startup(database_url: &str) -> (step: Step<StartupFlow, Startup>)
    ensures
        step.deep_view() == startup_plan(database_url@),
{
    Step::Ask(StartupFlow::Connecting, Command::Connect(String::from_str(database_url)))
}

impl StartupFlow {
    /// Goes on with the checks at startup after `event`.
    pub fn step(self, event: Event) -> (step: Step<StartupFlow, Startup>)
        ensures
            step.deep_view() == startup_step(self.deep_view(), event.deep_view()),
    {
        match self {
            StartupFlow::Connecting => match event {
                Event::Done => Step::Ask(StartupFlow::Probing, Command::Ping),
                _ => Step::Done(
                    Ok(Startup::Abort(String::from_str("Failed to connect to the database"))),
                ),
            },
            StartupFlow::Probing => match health_verdict(&event) {
                Ok(_) => Step::Ask(StartupFlow::Inspecting, Command::ListTables),
                Err(reason) => Step::Done(Ok(Startup::Abort(reason))),
            },
            StartupFlow::Inspecting => match event {
                Event::Names(found) => Step::Ask(
                    StartupFlow::Counting { missing_tables: missing_tables(&found) },
                    Command::CountRows,
                ),
                _ => Step::Done(
                    Ok(Startup::Abort(String::from_str("Failed to check database tables"))),
                ),
            },
            StartupFlow::Counting { missing_tables } => match event {
                Event::Stats(stats) => Step::Done(Ok(Startup::Ready { missing_tables, stats })),
                _ => Step::Done(
                    Ok(Startup::Ready { missing_tables, stats: DatabaseStats::zeroed() }),
                ),
            },
        }
    }
}

} // verus!
