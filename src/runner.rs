//! Driving one mutation through check, read, prepare, write, test and
//! restore. The decisions are made here, one event at a time; the caller
//! performs each action and reports what came of it.
use vstd::prelude::*;

use crate::codegen::{prepare_error, prepare_mutation, prepares};
use crate::config::{describe, description_of, Config, MutationConfig};
use crate::error::MutationError;
use crate::expr::Expr;
use crate::matcher::SourceFile;
use crate::text::{concat, occurs_in, text_contains};

verus! {

/// What became of one mutation.
pub enum MutationStatus {
    /// The tests failed: the mutation was detected.
    Killed,
    /// The tests passed: the mutation went unnoticed.
    Survived,
    Timeout,
    /// The mutated code did not compile.
    CompileError,
    /// The mutation could not be prepared, written or tested.
    ConfigError(String),
}

/// The outcome of one mutation, with what identifies it.
pub struct MutationResult {
    pub mutation_id: String,
    pub file: String,
    pub function: String,
    pub original: String,
    pub replacement: String,
    pub status: MutationStatus,
    /// Elapsed time in milliseconds.
    pub duration_ms: u64,
    pub line: Option<usize>,
    pub details: Option<String>,
}

impl MutationResult {
    /// `original -> replacement in file::function`.
    pub fn description(&self) -> (r: String)
        ensures
            r@ == describe(self.original@, self.replacement@, self.file@, self.function@),
    {
        description_of(&self.original, &self.replacement, &self.file, &self.function)
    }
}

/// What running the test command gave.
pub enum TestRun {
    /// It ran and exited with success.
    Passed,
    /// It ran and exited with failure; its standard output and error together.
    Failed { combined: String },
    TimedOut,
    /// It could not be run.
    Error(String),
}

/// Whether the command's output shows that the build failed.
pub open spec fn has_compile_marker(output: Seq<char>) -> bool {
    ||| occurs_in("error[E"@, output)
    ||| occurs_in("could not compile"@, output)
    ||| occurs_in("aborting due to"@, output)
}

/// `status` and `details` are what the test run `run` gives: success
/// survives; a failure is a compile error where its output shows one and a
/// kill otherwise; a timeout is a timeout; a run that could not start
/// is a configuration error with its message.
pub open spec fn classified(run: TestRun, status: MutationStatus, details: Option<String>) -> bool {
    match run {
        TestRun::Passed => status is Survived && details is None,
        TestRun::Failed { combined } => (if has_compile_marker(combined@) {
            status is CompileError
        } else {
            status is Killed
        }) && details == Some(combined),
        TestRun::TimedOut => status is Timeout && details is None,
        TestRun::Error(e) => (status matches MutationStatus::ConfigError(m) && m@ == e@) && details
            == Some(e),
    }
}

/// The status and details that a test run gives.
pub fn classify(run: TestRun) -> (r: (MutationStatus, Option<String>))
    ensures
        classified(run, r.0, r.1),
{
    match run {
        TestRun::Passed => (MutationStatus::Survived, None),
        TestRun::Failed { combined } => {
            let s = combined.as_str();
            if text_contains(s, "error[E") || text_contains(s, "could not compile")
                || text_contains(s, "aborting due to") {
                (MutationStatus::CompileError, Some(combined))
            } else {
                (MutationStatus::Killed, Some(combined))
            }
        },
        TestRun::TimedOut => (MutationStatus::Timeout, None),
        TestRun::Error(e) => (MutationStatus::ConfigError(e.clone()), Some(e)),
    }
}

/// Where one mutation's cycle stands.
pub enum Phase {
    /// Waiting to learn whether the file exists.
    Checking,
    /// Waiting for the file's content.
    Reading,
    /// Waiting for the prepared mutation.
    Preparing,
    /// The mutated text is being written: the file may hold it.
    Writing,
    /// The tests are running on the mutated file.
    Testing,
    /// The original content is being written back.
    Restoring,
    Done,
}

/// What the caller is asked to do next.
pub enum CycleAction {
    CheckFile,
    ReadFile,
    /// Prepare the mutation on this source text.
    Prepare(String),
    /// Write this text to the file.
    Write(String),
    RunTests,
    /// Write this original content back to the file.
    Restore(String),
    /// The cycle is over with this status, line and details.
    Finish { status: MutationStatus, line: Option<usize>, details: Option<String> },
}

/// What came of the last action.
pub enum CycleEvent {
    FileChecked(bool),
    FileRead(Result<String, String>),
    /// The mutated text and the line of the rewritten site, or the error's
    /// message.
    Prepared(Result<(String, usize), String>),
    Written(Result<(), String>),
    Tested(TestRun),
    Restored(Result<(), String>),
}

/// The state of one mutation's cycle.
pub struct Cycle {
    pub phase: Phase,
    /// The file's path, for messages.
    pub path: String,
    /// The file's content as read, kept to restore it.
    pub original_content: String,
    pub line: Option<usize>,
    pub status: Option<(MutationStatus, Option<String>)>,
}

/// Whether the file may hold something other than its original content.
pub open spec fn file_touched(phase: Phase) -> bool {
    phase is Writing || phase is Testing
}

fn unexpected() -> (r: MutationStatus)
    ensures
        r is ConfigError,
{
    MutationStatus::ConfigError("unexpected event".to_owned())
}

impl Cycle {
    /// A new cycle on the file at `path`; the first action checks the file.
    pub fn start(path: String) -> (r: (Cycle, CycleAction))
        ensures
            r.0.phase is Checking,
            r.0.path == path,
            r.0.original_content@ == Seq::<char>::empty(),
            r.0.line is None,
            r.0.status is None,
            r.1 is CheckFile,
    {
        (
            Cycle {
                phase: Phase::Checking,
                path,
                original_content: String::new(),
                line: None,
                status: None,
            },
            CycleAction::CheckFile,
        )
    }

    /// The next state and action after `event`.
    pub fn step(self, event: CycleEvent) -> (r: (Cycle, CycleAction))
        ensures
            r.0.path == self.path,
            // Checking: an existing file is read; a missing one ends the cycle.
            self.phase is Checking ==> (event == CycleEvent::FileChecked(true) ==> (
            r.0.phase is Reading && r.1 is ReadFile && r.0.original_content
                == self.original_content && r.0.line == self.line)),
            self.phase is Checking ==> (event == CycleEvent::FileChecked(false) ==> (
            r.0.phase is Done && (r.1 matches CycleAction::Finish { status, line, details }
                && line is None && details is None && (status matches MutationStatus::ConfigError(
                m,
            ) && m@ == "File not found: "@ + self.path@)))),
            // Reading: the content read is kept and handed on to be prepared.
            event matches CycleEvent::FileRead(Ok(content)) ==> (self.phase is Reading ==> (
            r.0.original_content == content && r.0.phase is Preparing && r.0.line == self.line
                && (r.1 matches CycleAction::Prepare(s) && s@ == content@))),
            event matches CycleEvent::FileRead(Err(e)) ==> (self.phase is Reading ==> (
            r.0.phase is Done && (r.1 matches CycleAction::Finish { status, line, details }
                && line is None && details is None && (status matches MutationStatus::ConfigError(
                m,
            ) && m@ == "Failed to read file: "@ + e@)))),
            // Preparing: the mutated text is written, and the site's line kept.
            event matches CycleEvent::Prepared(Ok(v)) ==> (self.phase is Preparing ==> (
            r.0.phase is Writing && r.0.line == Some(v.1) && r.0.original_content
                == self.original_content && (r.1 matches CycleAction::Write(t) && t == v.0))),
            event matches CycleEvent::Prepared(Err(e)) ==> (self.phase is Preparing ==> (
            r.0.phase is Done && r.1 == CycleAction::Finish {
                status: MutationStatus::ConfigError(e),
                line: None,
                details: Some(e),
            })),
            // Writing: a written file is tested; a failed write is still undone.
            self.phase is Writing ==> (event == CycleEvent::Written(Ok(())) ==> (
            r.0.phase is Testing && r.1 is RunTests && r.0.original_content
                == self.original_content && r.0.line == self.line)),
            event matches CycleEvent::Written(Err(e)) ==> (self.phase is Writing ==> (
            r.0.phase is Restoring && r.1 == CycleAction::Restore(self.original_content)
                && r.0.line == self.line && (r.0.status matches Some(v) && v.1 is None && (
            v.0 matches MutationStatus::ConfigError(m) && m@ == "Failed to write mutated file: "@
                + e@)))),
            // Testing: the run is classified and the original content restored.
            event matches CycleEvent::Tested(run) ==> (self.phase is Testing ==> (
            r.0.phase is Restoring && r.1 == CycleAction::Restore(self.original_content)
                && r.0.line == self.line && (r.0.status matches Some(v) && classified(
                run,
                v.0,
                v.1,
            )))),
            // Restoring: the cycle ends with the status decided before.
            self.phase is Restoring && self.status.is_some() ==> (r.1 matches CycleAction::Finish {
                status,
                line,
                details,
            } && Some((status, details)) == self.status && line == self.line),
            self.phase is Restoring ==> r.1 is Finish && r.0.phase is Done,
            // Whatever the event: only these transitions exist.
            // Once the mutated text may be on disk, the cycle does not end
            // before the original content is written back.
            file_touched(self.phase) ==> !(r.1 is Finish),
            self.phase is Testing ==> r.1 is Restore,
            self.phase is Writing ==> r.1 is RunTests || r.1 is Restore,
            !(r.1 is Finish) ==> !(r.0.phase is Done),
            r.1 is Finish ==> r.0.phase is Done,
            r.1 is Restore ==> r.0.phase is Restoring && file_touched(self.phase),
            r.1 is Prepare ==> self.phase is Reading && event is FileRead,
            r.1 is Write ==> self.phase is Preparing && event is Prepared,
            r.1 is RunTests ==> self.phase is Writing && event is Written,
            r.1 is ReadFile ==> self.phase is Checking && event is FileChecked,
            !(r.1 is CheckFile),
            !(self.phase is Reading) ==> r.0.original_content == self.original_content,
            r.1 matches CycleAction::Restore(c) ==> c == self.original_content,
            r.1 matches CycleAction::Finish { line, .. } ==> line == (if self.phase is Restoring {
                self.line
            } else {
                None
            }),
    {
        let Cycle { phase, path, original_content, line, status } = self;
        match (phase, event) {
            (Phase::Checking, CycleEvent::FileChecked(false)) => {
                let m = concat("File not found: ", path.as_str());
                let c = Cycle { phase: Phase::Done, path, original_content, line, status: None };
                (c, CycleAction::Finish { status: MutationStatus::ConfigError(m), line: None, details: None })
            },
            (Phase::Checking, CycleEvent::FileChecked(true)) => {
                (Cycle { phase: Phase::Reading, path, original_content, line, status }, CycleAction::ReadFile)
            },
            (Phase::Reading, CycleEvent::FileRead(Err(e))) => {
                let m = concat("Failed to read file: ", e.as_str());
                let c = Cycle { phase: Phase::Done, path, original_content, line, status: None };
                (c, CycleAction::Finish { status: MutationStatus::ConfigError(m), line: None, details: None })
            },
            (Phase::Reading, CycleEvent::FileRead(Ok(content))) => {
                let source = content.clone();
                let c = Cycle { phase: Phase::Preparing, path, original_content: content, line, status };
                (c, CycleAction::Prepare(source))
            },
            (Phase::Preparing, CycleEvent::Prepared(Err(e))) => {
                let d = e.clone();
                let c = Cycle { phase: Phase::Done, path, original_content, line, status: None };
                (c, CycleAction::Finish { status: MutationStatus::ConfigError(e), line: None, details: Some(d) })
            },
            (Phase::Preparing, CycleEvent::Prepared(Ok((text, at)))) => {
                let c = Cycle { phase: Phase::Writing, path, original_content, line: Some(at), status };
                (c, CycleAction::Write(text))
            },
            (Phase::Writing, CycleEvent::Written(Ok(()))) => {
                (Cycle { phase: Phase::Testing, path, original_content, line, status }, CycleAction::RunTests)
            },
            (Phase::Writing, CycleEvent::Written(Err(e))) => {
                let m = concat("Failed to write mutated file: ", e.as_str());
                let back = original_content.clone();
                let c = Cycle {
                    phase: Phase::Restoring,
                    path,
                    original_content,
                    line,
                    status: Some((MutationStatus::ConfigError(m), None)),
                };
                (c, CycleAction::Restore(back))
            },
            (Phase::Testing, CycleEvent::Tested(run)) => {
                let verdict = classify(run);
                let back = original_content.clone();
                let c = Cycle { phase: Phase::Restoring, path, original_content, line, status: Some(verdict) };
                (c, CycleAction::Restore(back))
            },
            (Phase::Writing, _) | (Phase::Testing, _) => {
                let back = original_content.clone();
                let c = Cycle {
                    phase: Phase::Restoring,
                    path,
                    original_content,
                    line,
                    status: Some((unexpected(), None)),
                };
                (c, CycleAction::Restore(back))
            },
            (Phase::Restoring, _) => {
                match status {
                    Some((s, d)) => {
                        let c = Cycle { phase: Phase::Done, path, original_content, line, status: None };
                        (c, CycleAction::Finish { status: s, line, details: d })
                    },
                    None => {
                        let c = Cycle { phase: Phase::Done, path, original_content, line, status: None };
                        (c, CycleAction::Finish { status: unexpected(), line, details: None })
                    },
                }
            },
            (_, _) => {
                let c = Cycle { phase: Phase::Done, path, original_content, line, status: None };
                (c, CycleAction::Finish { status: unexpected(), line: None, details: None })
            },
        }
    }
}

/// What the caller learned about one catalogue entry's file before preparing
/// it: that it is missing, that reading it failed, or what parsing the file,
/// the pattern and the replacement gave.
pub enum EntryCheck {
    Missing,
    Unreadable(String),
    Parsed {
        file: Result<SourceFile, String>,
        original: Result<Expr, String>,
        replacement: Result<Expr, String>,
    },
}

/// Runs the prepare phase for every entry of the catalogue, writing and running
/// nothing; one verdict per entry, in catalogue order.
pub fn validate_mutations(config: &Config, checks: Vec<EntryCheck>) -> (r: Vec<Result<(), MutationError>>)
    requires
        checks@.len() == config.mutations@.len(),
    ensures
        r@.len() == checks@.len(),
        forall|i: int| 0 <= i < r@.len() ==> match #[trigger] checks@[i] {
            EntryCheck::Missing => r@[i] matches Err(MutationError::FileNotFound { file })
                && file@ == config.mutations@[i].file@,
            EntryCheck::Unreadable(e) => r@[i] matches Err(MutationError::FileReadError { file, error })
                && file@ == config.mutations@[i].file@ && error@ == e@,
            EntryCheck::Parsed { file, original, replacement } => if prepares(
                file,
                original,
                replacement,
                config.mutations@[i],
            ) {
                r@[i] is Ok
            } else {
                r@[i] matches Err(e) && prepare_error(file, original, replacement, config.mutations@[i], e)
            },
        },
{
    let ghost all = checks@;
    let mut rest = checks;
    let mut out: Vec<Result<(), MutationError>> = Vec::new();
    while rest.len() > 0
        invariant
            out@.len() + rest@.len() == all.len(),
            all.len() == config.mutations@.len(),
            rest@ == all.subrange(out@.len() as int, all.len() as int),
            forall|i: int| 0 <= i < out@.len() ==> match #[trigger] all[i] {
                EntryCheck::Missing => out@[i] matches Err(MutationError::FileNotFound { file })
                    && file@ == config.mutations@[i].file@,
                EntryCheck::Unreadable(e) => out@[i] matches Err(
                    MutationError::FileReadError { file, error },
                ) && file@ == config.mutations@[i].file@ && error@ == e@,
                EntryCheck::Parsed { file, original, replacement } => if prepares(
                    file,
                    original,
                    replacement,
                    config.mutations@[i],
                ) {
                    out@[i] is Ok
                } else {
                    out@[i] matches Err(e) && prepare_error(
                        file,
                        original,
                        replacement,
                        config.mutations@[i],
                        e,
                    )
                },
            },
        decreases rest@.len(),
    {
        let i = out.len();
        let check = rest.remove(0);
        assert(check == all[i as int]);
        let mutation = &config.mutations[i];
        let verdict = match check {
            EntryCheck::Missing => Err(MutationError::FileNotFound { file: mutation.file.clone() }),
            EntryCheck::Unreadable(e) => Err(
                MutationError::FileReadError { file: mutation.file.clone(), error: e },
            ),
            EntryCheck::Parsed { file, original, replacement } => {
                match prepare_mutation(file, original, replacement, mutation) {
                    Ok(_) => Ok(()),
                    Err(e) => Err(e),
                }
            },
        };
        out.push(verdict);
        proof {
            assert(rest@ =~= all.subrange(out@.len() as int, all.len() as int));
        }
    }
    out
}

/// The result of `mutation` with the outcome that its cycle finished on.
pub fn result_of(
    mutation: &MutationConfig,
    status: MutationStatus,
    line: Option<usize>,
    details: Option<String>,
    duration_ms: u64,
) -> (r: MutationResult)
    ensures
        r.mutation_id == mutation.id,
        r.file == mutation.file,
        r.function == mutation.function,
        r.original == mutation.original,
        r.replacement == mutation.replacement,
        r.status == status,
        r.line == line,
        r.details == details,
        r.duration_ms == duration_ms,
{
    MutationResult {
        mutation_id: mutation.id.clone(),
        file: mutation.file.clone(),
        function: mutation.function.clone(),
        original: mutation.original.clone(),
        replacement: mutation.replacement.clone(),
        status,
        duration_ms,
        line,
        details,
    }
}

} // verus!
