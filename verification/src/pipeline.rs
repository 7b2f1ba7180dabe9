//! The emit pipeline: one record, from the level filter to the line in the
//! log file.
//!
//! The pipeline decides and the caller acts. [`execute`] looks at a record
//! and hands out the first [`Action`]; the caller performs it and reports
//! with an [`Event`], for which [`Execution::resume`] hands out the next
//! action, until the action is [`Action::Finish`] with the status of the
//! call. The order is fixed: the console line, then the size of the log
//! file, the listing of its directory, the removal of the oldest archive,
//! the renaming of the log file, and last the line appended to it.

use vstd::prelude::*;
use vstd::string::*;
use crate::clock::{
    archive_pattern, is_archive_stamp, is_timestamp, utc_now_formatted, utc_now_text,
};
use crate::config::{unconfigured, ConfigView, PluginConfig, STATUS_INVALID_PAYLOAD, STATUS_OK};
use crate::format::{is_decorated, plain_text, render, Lines};
use crate::record::{resolve_input, ExecutionInput, InputView, RawInput};
use crate::rotation::{
    archive_directory, archive_name, archive_path, archive_to_prune, directory_to_list,
    rotation_due, rotation_is_due, select_archive_to_prune, texts,
};

verus! {

/// Status of a call whose line could not be written to the log file.
pub const STATUS_FAILED: i32 = -1;

/// What the caller is asked to do next.
#[derive(Debug, PartialEq, Eq)]
pub enum Action {
    /// Write the line to standard output; answer [`Event::Done`].
    Print { line: String },
    /// Look up the size of the file; answer [`Event::Size`], with `None`
    /// where the file does not exist or cannot be examined.
    Stat { path: String },
    /// List the regular files of the directory; answer [`Event::Names`]
    /// with their names, or with no names where it cannot be read.
    List { dir: String },
    /// Delete the file; answer [`Event::Done`], whether or not it went.
    Remove { path: String },
    /// Rename the file; answer [`Event::Done`], whether or not it went.
    Rename { from: String, to: String },
    /// Append the line, and a line break, to the file, creating the file
    /// where it does not exist; answer [`Event::Written`].
    Append { path: String, line: String },
    /// Nothing is left to do: hand the status to the host.
    Finish { status: i32 },
}

/// What an [`Action`] holds, as mathematical values.
pub enum ActionView {
    Print { line: Seq<char> },
    Stat { path: Seq<char> },
    List { dir: Seq<char> },
    Remove { path: Seq<char> },
    Rename { from: Seq<char>, to: Seq<char> },
    Append { path: Seq<char>, line: Seq<char> },
    Finish { status: i32 },
}

impl View for Action {
    type V = ActionView;

    open spec fn view(&self) -> ActionView {
        match self {
            Action::Print { line } => ActionView::Print { line: line@ },
            Action::Stat { path } => ActionView::Stat { path: path@ },
            Action::List { dir } => ActionView::List { dir: dir@ },
            Action::Remove { path } => ActionView::Remove { path: path@ },
            Action::Rename { from, to } => ActionView::Rename { from: from@, to: to@ },
            Action::Append { path, line } => ActionView::Append { path: path@, line: line@ },
            Action::Finish { status } => ActionView::Finish { status: *status },
        }
    }
}

/// What came of the action that was handed out last.
#[derive(Debug, PartialEq, Eq)]
pub enum Event {
    /// The action was attempted; its outcome does not matter.
    Done,
    /// The size of the file in bytes, or `None` where there is no such file.
    Size(Option<u64>),
    /// The names of the regular files in the directory.
    Names(Vec<String>),
    /// Whether the line was written.
    Written(bool),
}

/// What an [`Event`] holds, as mathematical values.
pub enum EventView {
    Done,
    Size(Option<u64>),
    Names(Seq<Seq<char>>),
    Written(bool),
}

impl View for Event {
    type V = EventView;

    open spec fn view(&self) -> EventView {
        match self {
            Event::Done => EventView::Done,
            Event::Size(size) => EventView::Size(*size),
            Event::Names(names) => EventView::Names(texts(names@)),
            Event::Written(ok) => EventView::Written(*ok),
        }
    }
}

/// The answer that a run is waiting for.
#[derive(Clone, Copy, Debug, PartialEq, Eq, Structural)]
pub enum Phase {
    /// The console line was handed out.
    Console,
    /// The size of the log file was asked for.
    Size,
    /// The listing of the log directory was asked for.
    Names,
    /// The removal of the oldest archive was handed out.
    Removal,
    /// The renaming of the log file was handed out.
    Rename,
    /// The line for the log file was handed out.
    Append,
    /// The run is over.
    Finished { status: i32 },
}

/// One emit call in progress.
#[derive(Debug, PartialEq, Eq)]
pub struct Execution {
    config: PluginConfig,
    line: String,
    archive: String,
    phase: Phase,
}

/// What an [`Execution`] holds, as mathematical values.
pub struct ExecutionView {
    /// The configuration as it was when the call began.
    pub config: ConfigView,
    /// The line for the log file.
    pub line: Seq<char>,
    /// The path under which the log file is archived, once that is decided.
    pub archive: Seq<char>,
    pub phase: Phase,
}

impl View for Execution {
    type V = ExecutionView;

    closed spec fn view(&self) -> ExecutionView {
        ExecutionView {
            config: self.config@,
            line: self.line@,
            archive: self.archive@,
            phase: self.phase,
        }
    }
}

/// Whether a record passes the level threshold: its level is not strictly
/// below the configured minimum.
pub open spec fn admitted(config: ConfigView, input: InputView) -> bool {
    input.level.rank() >= config.minimum_log_level.rank()
}

/// The line that goes to the log file: the decorated one where the file is
/// to be coloured, else the plain one.
pub open spec fn file_line(config: ConfigView, decorated: Seq<char>, plain: Seq<char>) -> Seq<
    char,
> {
    if config.log_to_file_colored {
        decorated
    } else {
        plain
    }
}

/// The run ends with the status given.
pub open spec fn finish(state: ExecutionView, status: i32) -> (ExecutionView, ActionView) {
    (
        ExecutionView { phase: Phase::Finished { status: status }, ..state },
        ActionView::Finish { status: status },
    )
}

/// The line is handed out for the log file.
pub open spec fn append(state: ExecutionView) -> (ExecutionView, ActionView) {
    (
        ExecutionView { phase: Phase::Append, ..state },
        ActionView::Append { path: state.config.log_file, line: state.line },
    )
}

/// The log file is handed out to be renamed into its archive.
pub open spec fn rename(state: ExecutionView) -> (ExecutionView, ActionView) {
    (
        ExecutionView { phase: Phase::Rename, ..state },
        ActionView::Rename { from: state.config.log_file, to: state.archive },
    )
}

/// What follows the console: with file output off the run ends in success;
/// with rotation on the size of the log file is asked for; else the line is
/// handed out for the file at once.
pub open spec fn after_console(state: ExecutionView) -> (ExecutionView, ActionView) {
    if !state.config.log_to_file {
        finish(state, STATUS_OK)
    } else if state.config.enable_log_rotation {
        (
            ExecutionView { phase: Phase::Size, ..state },
            ActionView::Stat { path: state.config.log_file },
        )
    } else {
        append(state)
    }
}

/// The beginning of a run. A record below the threshold ends it at once,
/// in success and with nothing handed out. Else the decorated line goes to
/// the console where console output is on, and the run goes on as
/// [`after_console`] says.
pub open spec fn start(
    config: ConfigView,
    input: InputView,
    decorated: Seq<char>,
    plain: Seq<char>,
) -> (ExecutionView, ActionView) {
    if !admitted(config, input) {
        finish(
            ExecutionView {
                config: config,
                line: Seq::empty(),
                archive: Seq::empty(),
                phase: Phase::Console,
            },
            STATUS_OK,
        )
    } else {
        let state = ExecutionView {
            config: config,
            line: file_line(config, decorated, plain),
            archive: Seq::empty(),
            phase: Phase::Console,
        };
        if config.log_to_console {
            (state, ActionView::Print { line: decorated })
        } else {
            after_console(state)
        }
    }
}

/// One step of a run: the state and the action that follow an event. The
/// stamp is the time of the step, in the form that archives are named by.
///
/// An event that does not answer the pending action ends the run as failed.
/// A finished run stays finished, with its status.
pub open spec fn next(state: ExecutionView, event: EventView, stamp: Seq<char>) -> (
    ExecutionView,
    ActionView,
) {
    match (state.phase, event) {
        (Phase::Console, EventView::Done) => after_console(state),
        (Phase::Size, EventView::Size(size)) => if rotation_due(state.config, size) {
            (
                ExecutionView {
                    archive: archive_path(state.config.log_file, stamp),
                    phase: Phase::Names,
                    ..state
                },
                ActionView::List { dir: archive_directory(state.config.log_file) },
            )
        } else {
            append(state)
        },
        (Phase::Names, EventView::Names(names)) => match archive_to_prune(state.config, names) {
            Some(path) => (
                ExecutionView { phase: Phase::Removal, ..state },
                ActionView::Remove { path: path },
            ),
            None => rename(state),
        },
        (Phase::Removal, EventView::Done) => rename(state),
        (Phase::Rename, EventView::Done) => append(state),
        (Phase::Append, EventView::Written(ok)) => finish(
            state,
            if ok {
                STATUS_OK
            } else {
                STATUS_FAILED
            },
        ),
        (Phase::Finished { status }, _) => finish(state, status),
        _ => finish(state, STATUS_FAILED),
    }
}

/// The run of a payload that could not be read: over before it began.
pub open spec fn rejected(config: ConfigView) -> (ExecutionView, ActionView) {
    finish(
        ExecutionView {
            config: config,
            line: Seq::empty(),
            archive: Seq::empty(),
            phase: Phase::Console,
        },
        STATUS_INVALID_PAYLOAD,
    )
}

/// Whether `begun` is a beginning of the run of a record: for a record
/// below the threshold the one beginning that there is; else the beginning
/// with the lines of the record, rendered with a timestamp of the clock.
pub open spec fn is_start_of(
    begun: (ExecutionView, ActionView),
    config: ConfigView,
    input: InputView,
) -> bool {
    if !admitted(config, input) {
        begun == start(config, input, Seq::empty(), Seq::empty())
    } else {
        exists|timestamp: Seq<char>, decorated: Seq<char>|
            {
                &&& is_timestamp(timestamp)
                &&& is_decorated(decorated, config, input, timestamp)
                &&& begun == #[trigger] start(
                    config,
                    input,
                    decorated,
                    plain_text(config, input, timestamp),
                )
            }
    }
}

/// A record whose level is strictly below the configured minimum produces
/// nothing: its run is over as it begins, in success, and no line was handed
/// out for the console or for the file.
pub proof fn lemma_below_threshold_is_silent(
    config: ConfigView,
    input: InputView,
    decorated: Seq<char>,
    plain: Seq<char>,
)
    requires
        input.level.rank() < config.minimum_log_level.rank(),
    ensures
        start(config, input, decorated, plain).1 == (ActionView::Finish { status: STATUS_OK }),
        start(config, input, decorated, plain).0.phase == (Phase::Finished { status: STATUS_OK }),
{
}

/// A store that was torn down, or never configured, logs nothing: the run
/// of every record is over as it begins, in success.
pub proof fn lemma_unconfigured_is_silent(input: InputView, decorated: Seq<char>, plain: Seq<char>)
    ensures
        start(unconfigured(), input, decorated, plain).1 == (ActionView::Finish {
            status: STATUS_OK,
        }),
        start(unconfigured(), input, decorated, plain).0.phase == (Phase::Finished {
            status: STATUS_OK,
        }),
{
}

/// With console output on, the run of a record that passes the threshold
/// begins with its decorated line for the console.
pub proof fn lemma_console_line_comes_first(
    config: ConfigView,
    input: InputView,
    decorated: Seq<char>,
    plain: Seq<char>,
)
    requires
        admitted(config, input),
        config.log_to_console,
    ensures
        start(config, input, decorated, plain).1 == (ActionView::Print { line: decorated }),
{
}

/// No step of a run hands out a line for the console: a record gives at
/// most the one line with which its run begins.
pub proof fn lemma_no_second_console_line(state: ExecutionView, event: EventView, stamp: Seq<char>)
    ensures
        !(next(state, event, stamp).1 is Print),
{
}

/// A finished run stays as it is: every further step hands out its status
/// once more.
pub proof fn lemma_finished_stays_finished(
    state: ExecutionView,
    event: EventView,
    stamp: Seq<char>,
)
    requires
        state.phase is Finished,
    ensures
        next(state, event, stamp).0 == state,
        next(state, event, stamp).1 == (ActionView::Finish { status: state.phase->status }),
{
}

/// A run works on the configuration and the line with which it began: no
/// step changes either.
pub proof fn lemma_run_keeps_its_snapshot(state: ExecutionView, event: EventView, stamp: Seq<char>)
    ensures
        next(state, event, stamp).0.config == state.config,
        next(state, event, stamp).0.line == state.line,
{
}

/// The number of steps that a run can still take before it is over.
pub open spec fn steps_left(phase: Phase) -> nat {
    match phase {
        Phase::Console => 6,
        Phase::Size => 5,
        Phase::Names => 4,
        Phase::Removal => 3,
        Phase::Rename => 2,
        Phase::Append => 1,
        Phase::Finished { .. } => 0,
    }
}

/// Every run comes to its end: each step of an unfinished run, whatever the
/// event, leaves fewer steps to take, and a run with none left is finished.
pub proof fn lemma_run_comes_to_an_end(state: ExecutionView, event: EventView, stamp: Seq<char>)
    ensures
        steps_left(state.phase) == 0 <==> state.phase is Finished,
        !(state.phase is Finished) ==> steps_left(next(state, event, stamp).0.phase) < steps_left(
            state.phase,
        ),
        next(state, event, stamp).1 is Finish <==> next(state, event, stamp).0.phase is Finished,
{
}

/// A rotation runs in a fixed order. Once the log file is found above its
/// limit, the directory of the log file is listed; the oldest archive is
/// removed where the archives are as many as are kept; the log file is
/// renamed into its archive, named by the time at which the rotation was
/// decided; and only then is the line handed out, for the path of the log
/// file.
pub proof fn lemma_rotation_order(
    state: ExecutionView,
    size: u64,
    names: Seq<Seq<char>>,
    stamp: Seq<char>,
    later: Seq<char>,
)
    requires
        state.phase == Phase::Size,
        rotation_due(state.config, Some(size)),
    ensures
        ({
            let log_file = state.config.log_file;
            let archive = archive_path(log_file, stamp);
            let listed = next(state, EventView::Size(Some(size)), stamp);
            let chosen = next(listed.0, EventView::Names(names), later);
            let renamed = match archive_to_prune(state.config, names) {
                Some(_) => next(chosen.0, EventView::Done, later),
                None => chosen,
            };
            let appended = next(renamed.0, EventView::Done, later);
            &&& listed.1 == (ActionView::List { dir: archive_directory(log_file) })
            &&& match archive_to_prune(state.config, names) {
                Some(path) => chosen.1 == (ActionView::Remove { path: path }),
                None => true,
            }
            &&& renamed.1 == (ActionView::Rename { from: log_file, to: archive })
            &&& appended.1 == (ActionView::Append { path: log_file, line: state.line })
        }),
{
}

/// A log file that is missing, or within its limit, is left alone: the
/// line is handed out at once.
pub proof fn lemma_no_rotation_within_limit(
    state: ExecutionView,
    size: Option<u64>,
    stamp: Seq<char>,
)
    requires
        state.phase == Phase::Size,
        !rotation_due(state.config, size),
    ensures
        next(state, EventView::Size(size), stamp).1 == (ActionView::Append {
            path: state.config.log_file,
            line: state.line,
        }),
{
}

/// The status of a run that reached the log file says whether the line was
/// written.
pub proof fn lemma_status_tells_the_write(state: ExecutionView, ok: bool, stamp: Seq<char>)
    requires
        state.phase == Phase::Append,
    ensures
        next(state, EventView::Written(ok), stamp).1 == (ActionView::Finish {
            status: if ok {
                STATUS_OK
            } else {
                STATUS_FAILED
            },
        }),
{
}

impl Execution {
    /// The answer that the run is waiting for.
    pub fn phase(&self) -> (r: Phase)
        ensures
            r == self@.phase,
    {
        self.phase
    }

    fn finish(&mut self, status: i32) -> (action: Action)
        ensures
            (final(self)@, action@) == finish(old(self)@, status),
    {
        self.phase = Phase::Finished { status: status };
        Action::Finish { status: status }
    }

    fn append(&mut self) -> (action: Action)
        ensures
            (final(self)@, action@) == append(old(self)@),
    {
        self.phase = Phase::Append;
        Action::Append { path: self.config.log_file.clone(), line: self.line.clone() }
    }

    fn rename(&mut self) -> (action: Action)
        ensures
            (final(self)@, action@) == rename(old(self)@),
    {
        self.phase = Phase::Rename;
        Action::Rename { from: self.config.log_file.clone(), to: self.archive.clone() }
    }

    fn after_console(&mut self) -> (action: Action)
        ensures
            (final(self)@, action@) == after_console(old(self)@),
    {
        if !self.config.log_to_file {
            self.finish(STATUS_OK)
        } else if self.config.enable_log_rotation {
            self.phase = Phase::Size;
            Action::Stat { path: self.config.log_file.clone() }
        } else {
            self.append()
        }
    }

    /// Begins the run of a record whose two lines are given; see [`start`].
    pub fn begin(config: &PluginConfig, input: &ExecutionInput, lines: Lines) -> (begun: (
        Execution,
        Action,
    ))
        ensures
            (begun.0@, begun.1@) == start(config@, input@, lines.decorated@, lines.plain@),
    {
        if input.level < config.minimum_log_level {
            let mut run = Execution {
                config: config.snapshot(),
                line: String::new(),
                archive: String::new(),
                phase: Phase::Console,
            };
            let action = run.finish(STATUS_OK);
            return (run, action);
        }
        let Lines { decorated, plain } = lines;
        if config.log_to_console {
            let line = if config.log_to_file_colored {
                decorated.clone()
            } else {
                plain
            };
            let run = Execution {
                config: config.snapshot(),
                line: line,
                archive: String::new(),
                phase: Phase::Console,
            };
            (run, Action::Print { line: decorated })
        } else {
            let line = if config.log_to_file_colored {
                decorated
            } else {
                plain
            };
            let mut run = Execution {
                config: config.snapshot(),
                line: line,
                archive: String::new(),
                phase: Phase::Console,
            };
            let action = run.after_console();
            (run, action)
        }
    }

    /// Takes one step of the run at the time that `stamp` shows; see
    /// [`next`].
    pub fn step(&mut self, event: Event, stamp: &str) -> (action: Action)
        ensures
            (final(self)@, action@) == next(old(self)@, event@, stamp@),
    {
        match (self.phase, event) {
            (Phase::Console, Event::Done) => self.after_console(),
            (Phase::Size, Event::Size(size)) => {
                if rotation_is_due(&self.config, size) {
                    self.archive = archive_name(self.config.log_file.as_str(), stamp);
                    self.phase = Phase::Names;
                    Action::List { dir: directory_to_list(self.config.log_file.as_str()) }
                } else {
                    self.append()
                }
            },
            (Phase::Names, Event::Names(names)) => {
                match select_archive_to_prune(&self.config, &names) {
                    Some(path) => {
                        self.phase = Phase::Removal;
                        Action::Remove { path: path }
                    },
                    None => self.rename(),
                }
            },
            (Phase::Removal, Event::Done) => self.rename(),
            (Phase::Rename, Event::Done) => self.append(),
            (Phase::Append, Event::Written(ok)) => {
                if ok {
                    self.finish(STATUS_OK)
                } else {
                    self.finish(STATUS_FAILED)
                }
            },
            (Phase::Finished { status }, _) => self.finish(status),
            _ => self.finish(STATUS_FAILED),
        }
    }

    /// Takes one step of the run, now: the step of [`next`] with a stamp of
    /// the clock. The clock is read where the step decides that the log
    /// file is rotated, and only there.
    pub fn resume(&mut self, event: Event) -> (action: Action)
        ensures
            exists|stamp: Seq<char>|
                {
                    &&& is_archive_stamp(stamp)
                    &&& (final(self)@, action@) == #[trigger] next(old(self)@, event@, stamp)
                },
    {
        let rotates = match (self.phase, &event) {
            (Phase::Size, Event::Size(size)) => rotation_is_due(&self.config, *size),
            _ => false,
        };
        let stamp = if rotates {
            utc_now_formatted(archive_pattern())
        } else {
            String::new()
        };
        let ghost before = self@;
        let ghost answer = event@;
        let action = self.step(event, stamp.as_str());
        proof {
            if !rotates {
                // No stamp enters a step that does not rotate: any stamp gives the same step.
                let any = Seq::new(19, |i: int| '0');
                assert(is_archive_stamp(any));
                assert(next(before, answer, any) == next(before, answer, stamp@));
            }
        }
        action
    }
}

/// Begins the run of a record that arrives as a payload, now. A payload
/// that cannot be read ends the run at once with
/// [`STATUS_INVALID_PAYLOAD`]; a record below the threshold ends it at once
/// in success, and the clock is not read for it.
pub fn execute(store: &PluginConfig, raw: RawInput) -> (begun: (Execution, Action))
    ensures
        match resolve_input(raw@) {
            Err(_) => (begun.0@, begun.1@) == rejected(store@),
            Ok(input) => is_start_of((begun.0@, begun.1@), store@, input),
        },
{
    match ExecutionInput::from_raw(raw) {
        Err(_) => {
            let mut run = Execution {
                config: store.snapshot(),
                line: String::new(),
                archive: String::new(),
                phase: Phase::Console,
            };
            let action = run.finish(STATUS_INVALID_PAYLOAD);
            (run, action)
        },
        Ok(input) => {
            if input.level < store.minimum_log_level {
                Execution::begin(store, &input, Lines { decorated: String::new(), plain: String::new() })
            } else {
                let timestamp = utc_now_text();
                let lines = render(store, &input, timestamp.as_str());
                Execution::begin(store, &input, lines)
            }
        },
    }
}

} // verus!
