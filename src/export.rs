//! The export plan (which schema goes to which file, in which order) and the
//! decisions of an export run: from each outcome of the file system to the
//! next thing to do.

use vstd::prelude::*;
use vstd::string::StringExecFns;

verus! {

/// A record type whose schema is exported.
#[derive(Clone, Copy, Debug, PartialEq, Eq, Structural)]
pub enum SchemaKind {
    ActionLog,
    InputLog,
    LaunchResult,
    LaunchLocalResult,
    LocalMessage,
}

/// The file stem of a schema: the snake-case name of its type.
pub open spec fn stem_of(k: SchemaKind) -> Seq<char> {
    match k {
        SchemaKind::ActionLog => "action_log"@,
        SchemaKind::InputLog => "input_log"@,
        SchemaKind::LaunchResult => "launch_result"@,
        SchemaKind::LaunchLocalResult => "launch_local_result"@,
        SchemaKind::LocalMessage => "local_message"@,
    }
}

/// The name of the file that holds a schema: its stem and `.json`.
pub open spec fn file_name_of(k: SchemaKind) -> Seq<char> {
    stem_of(k) + ".json"@
}

/// The schemas to export, in the order in which they are written.
pub open spec fn plan_spec() -> Seq<SchemaKind> {
    seq![
        SchemaKind::ActionLog,
        SchemaKind::InputLog,
        SchemaKind::LaunchResult,
        SchemaKind::LaunchLocalResult,
        SchemaKind::LocalMessage,
    ]
}

/// The number of schemas in the plan.
pub const SCHEMA_COUNT: usize = 5;

/// The name of the file for a schema with this stem: the stem and `.json`.
pub fn schema_file_name(stem: &str) -> (r: String)
    ensures
        r@ == stem@ + ".json"@,
{
    let mut name = String::from_str(stem);
    name.append(".json");
    name
}

/// The line that reports where a finished run wrote its schemas.
pub fn report_line(dir: &str) -> (r: String)
    ensures
        r@ == "Wrote schemas to "@ + dir@,
{
    let mut line = String::from_str("Wrote schemas to ");
    line.append(dir);
    line
}

impl SchemaKind {
    /// The file stem of this schema.
    pub fn stem(&self) -> (r: &'static str)
        ensures
            r@ == stem_of(*self),
    {
        match self {
            SchemaKind::ActionLog => "action_log",
            SchemaKind::InputLog => "input_log",
            SchemaKind::LaunchResult => "launch_result",
            SchemaKind::LaunchLocalResult => "launch_local_result",
            SchemaKind::LocalMessage => "local_message",
        }
    }

    /// The name of the file that holds this schema.
    pub fn file_name(&self) -> (r: String)
        ensures
            r@ == file_name_of(*self),
    {
        schema_file_name(self.stem())
    }
}

/// The schema at a position of the plan.
pub fn plan_entry(i: usize) -> (r: SchemaKind)
    requires
        i < SCHEMA_COUNT,
    ensures
        r == plan_spec()[i as int],
{
    if i == 0 {
        SchemaKind::ActionLog
    } else if i == 1 {
        SchemaKind::InputLog
    } else if i == 2 {
        SchemaKind::LaunchResult
    } else if i == 3 {
        SchemaKind::LaunchLocalResult
    } else {
        SchemaKind::LocalMessage
    }
}

/// The schemas to export, in the order in which they are written.
pub fn export_plan() -> (r: Vec<SchemaKind>)
    ensures
        r@ == plan_spec(),
{
    let mut plan: Vec<SchemaKind> = Vec::new();
    let mut i: usize = 0;
    while i < SCHEMA_COUNT
        invariant
            i <= SCHEMA_COUNT,
            plan@ == plan_spec().take(i as int),
        decreases SCHEMA_COUNT - i,
    {
        plan.push(plan_entry(i));
        i = i + 1;
        assert(plan@ =~= plan_spec().take(i as int));
    }
    assert(plan@ =~= plan_spec());
    plan
}

/// Each schema of the plan goes to a file of its own: the plan holds five
/// schemas, and no two of them share a file name.
pub proof fn lemma_plan_file_names_distinct()
    ensures
        plan_spec().len() == SCHEMA_COUNT,
        forall|i: int, j: int|
            0 <= i < plan_spec().len() && 0 <= j < plan_spec().len() && i != j
                ==> file_name_of(plan_spec()[i]) != file_name_of(plan_spec()[j]),
{
    reveal_strlit("action_log");
    reveal_strlit("input_log");
    reveal_strlit("launch_result");
    reveal_strlit("launch_local_result");
    reveal_strlit("local_message");
    reveal_strlit(".json");
    let p = plan_spec();
    assert forall|i: int, j: int|
        0 <= i < p.len() && 0 <= j < p.len() && i != j implies file_name_of(p[i]) != file_name_of(
            p[j],
        ) by {
        let a = stem_of(p[i]);
        let b = stem_of(p[j]);
        if a.len() == b.len() {
            assert(a[0] != b[0] || a[7] != b[7]);
            assert(file_name_of(p[i])[0] == a[0] && file_name_of(p[j])[0] == b[0]);
            assert(file_name_of(p[i])[7] == a[7] && file_name_of(p[j])[7] == b[7]);
        } else {
            assert(file_name_of(p[i]).len() != file_name_of(p[j]).len());
        }
    }
}

/// What the file system reported after the last action of a run.
#[derive(Clone, Copy, Debug, PartialEq, Eq, Structural)]
pub enum Event {
    /// The output directory was made.
    DirCreated,
    /// The output directory was there already.
    DirAlreadyExists,
    /// Making the output directory failed for another reason.
    DirFailed,
    /// The schema file asked for was written.
    FileWritten,
    /// Writing the schema file asked for failed.
    WriteFailed,
    /// The output directory was reported.
    Reported,
}

/// The next thing an export run asks for.
#[derive(Clone, Copy, Debug, PartialEq, Eq, Structural)]
pub enum Action {
    /// Make the output directory unless it is there.
    CreateDir,
    /// Write the schema of this type to its file in the output directory.
    Write(SchemaKind),
    /// Report the output directory.
    Report,
    /// Stop with success.
    Succeed,
    /// Stop with the failure just reported; nothing more is written.
    Fail,
}

/// How far a run has come.
#[derive(Clone, Copy, Debug, PartialEq, Eq, Structural)]
pub enum Stage {
    MakingDir,
    Writing,
    Finished,
    Failed,
}

/// The state of a run as a mathematical value: its stage and how many
/// schema files it has written.
pub struct RunView {
    pub stage: Stage,
    pub written: nat,
}

/// The state in which every run starts.
pub open spec fn run_start() -> RunView {
    RunView { stage: Stage::MakingDir, written: 0 }
}

/// A state that a run can reach: no more files written than the plan holds.
pub open spec fn run_wf(s: RunView) -> bool {
    s.written <= SCHEMA_COUNT
}

/// What a run asks for in a state.
pub open spec fn action_of(s: RunView) -> Action {
    match s.stage {
        Stage::MakingDir => Action::CreateDir,
        Stage::Writing => if s.written < SCHEMA_COUNT {
            Action::Write(plan_spec()[s.written as int])
        } else {
            Action::Report
        },
        Stage::Finished => Action::Succeed,
        Stage::Failed => Action::Fail,
    }
}

/// The state after an event. A directory that is there already serves as
/// well as a new one; any other failure ends the run. An event that does not
/// answer the action asked for leaves the state as it is.
pub open spec fn next_state(s: RunView, e: Event) -> RunView {
    match (s.stage, e) {
        (Stage::MakingDir, Event::DirCreated) => RunView { stage: Stage::Writing, written: 0 },
        (Stage::MakingDir, Event::DirAlreadyExists) => RunView { stage: Stage::Writing, written: 0 },
        (Stage::MakingDir, Event::DirFailed) => RunView { stage: Stage::Failed, ..s },
        (Stage::Writing, Event::FileWritten) => if s.written < SCHEMA_COUNT {
            RunView { written: s.written + 1, ..s }
        } else {
            s
        },
        (Stage::Writing, Event::WriteFailed) => if s.written < SCHEMA_COUNT {
            RunView { stage: Stage::Failed, ..s }
        } else {
            s
        },
        (Stage::Writing, Event::Reported) => if s.written == SCHEMA_COUNT {
            RunView { stage: Stage::Finished, ..s }
        } else {
            s
        },
        _ => s,
    }
}

/// The state after a sequence of events.
pub open spec fn run_after(s: RunView, events: Seq<Event>) -> RunView
    decreases events.len(),
{
    if events.len() == 0 {
        s
    } else {
        next_state(run_after(s, events.drop_last()), events.last())
    }
}

/// An export run: it asks for one action at a time and is told the outcome.
#[derive(Clone, Copy, Debug)]
pub struct ExportRun {
    stage: Stage,
    written: usize,
}

impl View for ExportRun {
    type V = RunView;

    closed spec fn view(&self) -> RunView {
        RunView { stage: self.stage, written: self.written as nat }
    }
}

impl ExportRun {
    /// A run that has done nothing yet.
    pub fn new() -> (r: ExportRun)
        ensures
            r@ == run_start(),
    {
        ExportRun { stage: Stage::MakingDir, written: 0 }
    }

    /// The next thing this run asks for.
    pub fn action(&self) -> (r: Action)
        requires
            run_wf(self@),
        ensures
            r == action_of(self@),
    {
        match self.stage {
            Stage::MakingDir => Action::CreateDir,
            Stage::Writing => if self.written < SCHEMA_COUNT {
                Action::Write(plan_entry(self.written))
            } else {
                Action::Report
            },
            Stage::Finished => Action::Succeed,
            Stage::Failed => Action::Fail,
        }
    }

    /// Tells this run what came of the action it asked for.
    pub fn step(&mut self, e: Event)
        requires
            run_wf(old(self)@),
        ensures
            final(self)@ == next_state(old(self)@, e),
            run_wf(final(self)@),
    {
        match (self.stage, e) {
            (Stage::MakingDir, Event::DirCreated) | (Stage::MakingDir, Event::DirAlreadyExists) => {
                self.stage = Stage::Writing;
                self.written = 0;
            },
            (Stage::MakingDir, Event::DirFailed) => {
                self.stage = Stage::Failed;
            },
            (Stage::Writing, Event::FileWritten) => {
                if self.written < SCHEMA_COUNT {
                    self.written = self.written + 1;
                }
            },
            (Stage::Writing, Event::WriteFailed) => {
                if self.written < SCHEMA_COUNT {
                    self.stage = Stage::Failed;
                }
            },
            (Stage::Writing, Event::Reported) => {
                if self.written == SCHEMA_COUNT {
                    self.stage = Stage::Finished;
                }
            },
            _ => {},
        }
    }
}

/// A directory that is there already serves as well as a new one: both
/// outcomes lead to the same state, which asks for the first schema file.
pub proof fn lemma_existing_dir_is_reused()
    ensures
        next_state(run_start(), Event::DirAlreadyExists) == next_state(
            run_start(),
            Event::DirCreated,
        ),
        action_of(next_state(run_start(), Event::DirAlreadyExists)) == Action::Write(
            SchemaKind::ActionLog,
        ),
{
}

/// A failed run stays failed whatever it is told next.
proof fn lemma_failed_is_final(s: RunView, events: Seq<Event>)
    requires
        s.stage == Stage::Failed,
    ensures
        run_after(s, events) == s,
    decreases events.len(),
{
    if events.len() > 0 {
        lemma_failed_is_final(s, events.drop_last());
    }
}

/// When the output directory cannot be made, nothing is written: after that
/// failure, whatever the run is told, it asks for no file and only fails.
pub proof fn lemma_dir_failure_writes_nothing(events: Seq<Event>)
    ensures
        action_of(run_after(next_state(run_start(), Event::DirFailed), events)) == Action::Fail,
        !(action_of(run_after(next_state(run_start(), Event::DirFailed), events)) is Write),
{
    lemma_failed_is_final(next_state(run_start(), Event::DirFailed), events);
}

/// The events of a run in which every file operation succeeds.
pub open spec fn clean_run_events() -> Seq<Event> {
    seq![
        Event::DirCreated,
        Event::FileWritten,
        Event::FileWritten,
        Event::FileWritten,
        Event::FileWritten,
        Event::FileWritten,
        Event::Reported,
    ]
}

/// A run in which every file operation succeeds writes the plan's files one
/// by one, in the plan's order, then reports the directory and succeeds.
pub proof fn lemma_clean_run()
    ensures
        forall|i: int|
            0 <= i < SCHEMA_COUNT ==> action_of(run_after(run_start(), clean_run_events().take(i + 1)))
                == Action::Write(plan_spec()[i]),
        action_of(run_after(run_start(), clean_run_events().take(SCHEMA_COUNT + 1)))
            == Action::Report,
        action_of(run_after(run_start(), clean_run_events())) == Action::Succeed,
{
    let ev = clean_run_events();
    assert forall|k: int| 1 <= k <= SCHEMA_COUNT + 1 implies run_after(run_start(), ev.take(k))
        == (RunView { stage: Stage::Writing, written: (k - 1) as nat }) by {
        lemma_clean_prefix(k);
    }
    assert(ev.take(ev.len() as int) =~= ev);
    assert(ev.take(ev.len() as int).drop_last() =~= ev.take(SCHEMA_COUNT + 1));
}

/// After the first `k` events of a clean run, `k - 1` files are written.
proof fn lemma_clean_prefix(k: int)
    requires
        1 <= k <= SCHEMA_COUNT + 1,
    ensures
        run_after(run_start(), clean_run_events().take(k)) == (RunView {
            stage: Stage::Writing,
            written: (k - 1) as nat,
        }),
    decreases k,
{
    let ev = clean_run_events();
    assert(ev.take(k).drop_last() =~= ev.take(k - 1));
    assert(ev.take(k).last() == ev[k - 1]);
    if k > 1 {
        lemma_clean_prefix(k - 1);
    } else {
        assert(ev.take(0).len() == 0);
    }
}

} // verus!
