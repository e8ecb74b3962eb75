use vstd::prelude::*;
use vstd::string::*;
use crate::event::{Emission, normalize_stdout, stderr_emission, stderr_emission_ok, parsed_line, stdout_emission_ok};
use crate::text::{decimal, join_lines, joined, push_decimal, views};

verus! {

/// Why a run of the worker failed.
pub enum RunError {
    /// The packaged executable could not be started, and nothing was left to try.
    PackagedSpawnFailed(String),
    /// The interpreter running the worker script could not be started.
    SpawnFailed(String),
    /// The task could not be written to the worker's input.
    WriteFailed(String),
    /// The worker ended with a non-zero exit code, or with none.
    Exited(Option<i32>),
}

/// The decimal text of an exit code, with a leading `-` when negative.
pub open spec fn code_text(code: i32) -> Seq<char> {
    if code < 0 {
        seq!['-'] + decimal((-code) as nat)
    } else {
        decimal(code as nat)
    }
}

/// The message that describes an error.
pub open spec fn error_message(e: RunError) -> Seq<char> {
    match e {
        RunError::PackagedSpawnFailed(d) => "Failed to spawn packaged sidecar: "@ + d@,
        RunError::SpawnFailed(d) => "Failed to spawn python sidecar: "@ + d@,
        RunError::WriteFailed(d) => "Failed to write to stdin: "@ + d@,
        RunError::Exited(Some(c)) => "Sidecar exited with code: "@ + code_text(c),
        RunError::Exited(None) => "Sidecar exited with code: unknown"@,
    }
}

impl RunError {
    /// A one-line description of the failure; an exit code is written in decimal.
    pub fn message(&self) -> (r: String)
        ensures
            r@ == error_message(*self),
    {
        match self {
            RunError::PackagedSpawnFailed(d) => {
                let mut s = String::from_str("Failed to spawn packaged sidecar: ");
                s.append(d.as_str());
                s
            },
            RunError::SpawnFailed(d) => {
                let mut s = String::from_str("Failed to spawn python sidecar: ");
                s.append(d.as_str());
                s
            },
            RunError::WriteFailed(d) => {
                let mut s = String::from_str("Failed to write to stdin: ");
                s.append(d.as_str());
                s
            },
            RunError::Exited(Some(c)) => {
                let mut s = String::from_str("Sidecar exited with code: ");
                if *c < 0 {
                    s.append("-");
                    proof {
                        reveal_strlit("-");
                    }
                    let magnitude: u32 = if *c == i32::MIN {
                        2147483648u32
                    } else {
                        (-*c) as u32
                    };
                    push_decimal(&mut s, magnitude);
                } else {
                    push_decimal(&mut s, *c as u32);
                }
                s
            },
            RunError::Exited(None) => String::from_str("Sidecar exited with code: unknown"),
        }
    }
}

/// What to do once the task has been written to the worker's input.
pub struct WriteReport {
    /// Whether the input channel is to be closed now.
    pub close_input: bool,
    /// Whether the run goes on.
    pub result: Result<(), RunError>,
}

/// Decides what follows the single write of the task: the input is closed in
/// every case, and the run fails only when the write failed.
pub fn conclude_write(written: Result<(), String>) -> (r: WriteReport)
    ensures
        r.close_input,
        r.result is Ok <==> written is Ok,
        written matches Err(d) ==> (r.result matches Err(RunError::WriteFailed(e)) && e@ == d@),
{
    match written {
        Ok(()) => WriteReport { close_input: true, result: Ok(()) },
        Err(d) => WriteReport { close_input: true, result: Err(RunError::WriteFailed(d)) },
    }
}

/// The result owed for a termination with `code` after `lines` of standard output.
pub open spec fn exit_result_ok(code: Option<i32>, lines: Seq<Seq<char>>, r: Result<String, RunError>) -> bool {
    if code == Some(0i32) {
        r matches Ok(s) && s@ == joined(lines)
    } else {
        r == Err::<String, RunError>(RunError::Exited(code))
    }
}

/// Classifies the end of the worker: exit code zero gives the standard-output
/// lines joined by newlines; any other code, or none, is a failure naming it.
pub fn classify_exit(code: Option<i32>, lines: &Vec<String>) -> (r: Result<String, RunError>)
    ensures
        exit_result_ok(code, views(lines@), r),
{
    match code {
        Some(0) => Ok(join_lines(lines)),
        _ => Err(RunError::Exited(code)),
    }
}

/// One thing the worker's output source delivers.
pub enum WorkerEvent {
    /// A line of standard output.
    Stdout(String),
    /// A line of standard error.
    Stderr(String),
    /// The worker ended, with its exit code if there is one.
    Terminated(Option<i32>),
    /// Anything else the source reports; it is ignored.
    Other,
}

/// What one event gives: something to hand to the subscriber, and the outcome
/// of the run once it has ended.
pub struct Step {
    pub emit: Option<Emission>,
    pub outcome: Option<Result<String, RunError>>,
}

/// The state of draining a worker's output: the standard-output lines seen so
/// far, and whether the end has been classified.
pub struct Drain {
    lines: Vec<String>,
    finished: bool,
}

impl Drain {
    /// The standard-output lines accumulated so far.
    pub closed spec fn lines(&self) -> Seq<Seq<char>> {
        views(self.lines@)
    }

    /// Whether the termination has been classified.
    pub closed spec fn is_finished(&self) -> bool {
        self.finished
    }

    /// A drain that has seen nothing yet.
    pub fn new() -> (r: Drain)
        ensures
            r.lines() == Seq::<Seq<char>>::empty(),
            !r.is_finished(),
    {
        let r = Drain { lines: Vec::new(), finished: false };
        assert(r.lines() =~= Seq::<Seq<char>>::empty());
        r
    }

    /// Whether the termination has been classified.
    pub fn finished(&self) -> (r: bool)
        ensures
            r == self.is_finished(),
    {
        self.finished
    }

    /// The output accumulated so far, joined by newlines.
    pub fn output(&self) -> (r: String)
        ensures
            r@ == joined(self.lines()),
    {
        join_lines(&self.lines)
    }

    /// Handles one event. Standard output is appended to the output and
    /// normalised, standard error is only normalised, and termination is
    /// classified and ends the drain; once ended, events change nothing.
    pub fn on_event(&mut self, event: WorkerEvent) -> (r: Step)
        ensures
            old(self).is_finished() ==> (*final(self) == *old(self) && r.emit is None && r.outcome is None),
            !old(self).is_finished() ==> match event {
                WorkerEvent::Stdout(line) => {
                    &&& final(self).lines() == old(self).lines() + stdout_text(event)
                    &&& !final(self).is_finished()
                    &&& r.outcome is None
                    &&& stdout_emission_ok(line@, parsed_line(line@), r.emit)
                },
                WorkerEvent::Stderr(line) => {
                    &&& final(self).lines() == old(self).lines() + stdout_text(event)
                    &&& !final(self).is_finished()
                    &&& r.outcome is None
                    &&& stderr_emission_ok(line@, r.emit)
                },
                WorkerEvent::Terminated(code) => {
                    &&& final(self).lines() == old(self).lines()
                    &&& final(self).is_finished()
                    &&& r.emit is None
                    &&& r.outcome matches Some(res) && exit_result_ok(code, old(self).lines(), res)
                },
                WorkerEvent::Other => {
                    &&& final(self).lines() == old(self).lines() + stdout_text(event)
                    &&& *final(self) == *old(self)
                    &&& r.emit is None
                    &&& r.outcome is None
                },
            },
    {
        proof {
            assert(old(self).lines() + Seq::<Seq<char>>::empty() =~= old(self).lines());
            if event is Stdout {
                let line = event->Stdout_0;
                assert(old(self).lines() + seq![line@] =~= old(self).lines().push(line@));
            }
        }
        if self.finished {
            return Step { emit: None, outcome: None };
        }
        match event {
            WorkerEvent::Stdout(line) => {
                let emit = normalize_stdout(&line);
                self.lines.push(line);
                proof {
                    assert(self.lines() =~= old(self).lines().push(line@));
                }
                Step { emit, outcome: None }
            },
            WorkerEvent::Stderr(line) => {
                Step { emit: stderr_emission(&line), outcome: None }
            },
            WorkerEvent::Terminated(code) => {
                let res = classify_exit(code, &self.lines);
                self.finished = true;
                Step { emit: None, outcome: Some(res) }
            },
            WorkerEvent::Other => Step { emit: None, outcome: None },
        }
    }

    /// The result when the output source ends without a termination status:
    /// the output accumulated so far.
    pub fn end_of_stream(&self) -> (r: Result<String, RunError>)
        ensures
            r matches Ok(s) && s@ == joined(self.lines()),
    {
        Ok(self.output())
    }
}

/// The standard-output text an event adds to the accumulated output.
pub open spec fn stdout_text(e: WorkerEvent) -> Seq<Seq<char>> {
    match e {
        WorkerEvent::Stdout(l) => seq![l@],
        _ => Seq::empty(),
    }
}

/// The accumulated output after handing `evs`, none of them a termination, to
/// a drain that held `lines`, one step of `Drain::on_event` at a time.
pub open spec fn drained(lines: Seq<Seq<char>>, evs: Seq<WorkerEvent>) -> Seq<Seq<char>>
    decreases evs.len(),
{
    if evs.len() == 0 {
        lines
    } else {
        drained(lines + stdout_text(evs[0]), evs.drop_first())
    }
}

/// The standard-output lines among the events, in the order received.
pub open spec fn stdout_lines(evs: Seq<WorkerEvent>) -> Seq<Seq<char>>
    decreases evs.len(),
{
    if evs.len() == 0 {
        Seq::empty()
    } else {
        stdout_text(evs[0]) + stdout_lines(evs.drop_first())
    }
}

/// Draining events appends exactly their standard-output lines, in the order
/// received, whatever those lines hold and however they are interleaved with
/// standard error; so the output of a successful run is those lines joined.
pub proof fn lemma_drain_keeps_stdout_in_order(lines: Seq<Seq<char>>, evs: Seq<WorkerEvent>)
    ensures
        drained(lines, evs) == lines + stdout_lines(evs),
    decreases evs.len(),
{
    if evs.len() > 0 {
        lemma_drain_keeps_stdout_in_order(lines + stdout_text(evs[0]), evs.drop_first());
        assert((lines + stdout_text(evs[0])) + stdout_lines(evs.drop_first()) =~= lines
            + stdout_lines(evs));
    }
}

/// Standard-error lines never reach the accumulated output, whatever they hold.
pub proof fn lemma_stderr_never_accumulated(lines: Seq<Seq<char>>, evs: Seq<WorkerEvent>)
    requires
        forall|i: int| 0 <= i < evs.len() ==> (#[trigger] evs[i]) is Stderr,
    ensures
        drained(lines, evs) == lines,
    decreases evs.len(),
{
    if evs.len() > 0 {
        assert(evs[0] is Stderr);
        assert(lines + stdout_text(evs[0]) =~= lines);
        assert forall|i: int| 0 <= i < evs.drop_first().len() implies (#[trigger] evs.drop_first()[i]) is Stderr by {
            assert(evs.drop_first()[i] == evs[i + 1]);
        }
        lemma_stderr_never_accumulated(lines, evs.drop_first());
    }
}

} // verus!
