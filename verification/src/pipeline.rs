//! The print pipeline as a state machine.
//!
//! One invocation runs probe, discovery, selection, rendering, artifact
//! write, job submission and cleanup strictly in that order. Every blocking
//! operating-system step — the probe subprocess, the enumeration call, the
//! artifact write, the submission with its grace delay, the file removal —
//! is performed by the caller, which feeds each outcome back as an [`Input`]
//! and performs the next [`Action`]. All decisions between those steps live
//! here and are verified, among them the guarantee that a written artifact
//! is removed exactly once on every terminal path.

use vstd::prelude::*;
use vstd::string::StringExecFns;
use crate::error::PrintError;
use crate::event::Event;
use crate::printer::Printer;
use crate::probe::probe_allows;
use crate::probe::may_enumerate;
use crate::render::render;
use crate::render::render_spec;
use crate::selector::Selection;
use crate::selector::select;
use crate::selector::selection_ok;

verus! {

/// Where one invocation stands between two blocking steps.
pub enum Phase {
    /// The platform probe is running.
    Probing,
    /// The enumeration facility is running.
    Discovering,
    /// The rendered document is being written; the target is resolved.
    Writing { printer: Printer },
    /// The job is being submitted to the spooler.
    Submitting { printer: Printer },
    /// The artifact is being removed; the submission outcome is held.
    Cleanup { failure: Option<String> },
    /// The invocation is over, successfully or not.
    Finished { error: Option<PrintError> },
}

/// One in-flight print invocation: the caller's request, the current phase,
/// and whether the one artifact of this invocation has been written and
/// removed.
pub struct Pipeline {
    /// Whether this process runs on the platform family whose enumeration
    /// facility crashes when no printer is registered.
    pub defect_platform: bool,
    pub hint: Option<String>,
    pub content: String,
    pub phase: Phase,
    pub wrote: bool,
    pub removed: bool,
}

/// The next blocking step the caller must perform.
pub enum Action {
    /// Ask the operating system for its printer count, out of process; on a
    /// platform without the enumeration defect, answer "installed" directly.
    RunProbe,
    /// Invoke the printer-enumeration facility.
    EnumeratePrinters,
    /// Write the rendered document to a fresh temporary file.
    WriteArtifact { markup: String },
    /// Hand the artifact to the spooler under the given job name, then wait
    /// the grace period that lets the spooler finish reading the file.
    SubmitJob { printer: Printer, job_name: String },
    /// Delete the temporary file, best-effort.
    RemoveArtifact,
    /// Nothing is left to do: read the outcome off the machine.
    Report,
}

/// The outcome of one blocking step, fed back into the machine.
pub enum Input {
    /// The probe's raw answer; `None` stands for a probe that failed.
    ProbeOutput { output: Option<String> },
    /// What the enumeration facility returned.
    PrinterList { printers: Vec<Printer> },
    /// The write's diagnostic, if it failed.
    WriteOutcome { error: Option<String> },
    /// The submission's diagnostic, if the backend refused the job.
    SubmitOutcome { error: Option<String> },
    /// The artifact was removed (or its removal was attempted and the
    /// failure swallowed).
    ArtifactRemoved,
}

/// What one step hands back: the advanced machine, the status events to
/// forward to the sink, and the next blocking action.
pub struct StepOutcome {
    pub machine: Pipeline,
    pub events: Vec<Event>,
    pub action: Action,
}

impl Pipeline {
    /// The artifact bookkeeping every reachable machine satisfies: nothing
    /// is written before the write step, the artifact stays exactly from a
    /// successful write to its removal, and a finished invocation has
    /// removed precisely what it wrote.
    pub open spec fn wf(self) -> bool {
        match self.phase {
            Phase::Probing => !self.wrote && !self.removed,
            Phase::Discovering => !self.wrote && !self.removed,
            Phase::Writing { .. } => !self.wrote && !self.removed,
            Phase::Submitting { .. } => self.wrote && !self.removed,
            Phase::Cleanup { .. } => self.wrote && !self.removed,
            Phase::Finished { .. } => self.wrote == self.removed,
        }
    }

    /// The input a machine in this phase is waiting for.
    pub open spec fn accepts(self, input: Input) -> bool {
        match (self.phase, input) {
            (Phase::Probing, Input::ProbeOutput { .. }) => true,
            (Phase::Discovering, Input::PrinterList { .. }) => true,
            (Phase::Writing { .. }, Input::WriteOutcome { .. }) => true,
            (Phase::Submitting { .. }, Input::SubmitOutcome { .. }) => true,
            (Phase::Cleanup { .. }, Input::ArtifactRemoved) => true,
            _ => false,
        }
    }

    pub open spec fn finished(self) -> bool {
        self.phase is Finished
    }

    /// The terminal outcome of a finished machine.
    pub open spec fn outcome(self) -> Option<PrintError> {
        match self.phase {
            Phase::Finished { error } => error,
            _ => None,
        }
    }
}

/// The request's fields, the platform flag and the artifact flags carried
/// from one machine to the next: the flags record a successful write and the
/// removal the moment their inputs arrive.
pub open spec fn carries_over(pre: Pipeline, input: Input, post: Pipeline) -> bool {
    &&& post.defect_platform == pre.defect_platform
    &&& post.hint == pre.hint
    &&& post.content == pre.content
    &&& post.wrote == (pre.wrote || input matches Input::WriteOutcome { error: None })
    &&& post.removed == (pre.removed || input is ArtifactRemoved)
}

/// The whole transition relation of the pipeline: for each phase and its
/// input, the next phase, the events emitted, and the action demanded.
pub open spec fn step_spec(
    pre: Pipeline,
    input: Input,
    post: Pipeline,
    events: Seq<Event>,
    action: Action,
) -> bool {
    &&& carries_over(pre, input, post)
    &&& match (pre.phase, input) {
        (Phase::Probing, Input::ProbeOutput { output }) => if probe_allows(
            pre.defect_platform,
            output,
        ) {
            &&& post.phase is Discovering
            &&& events.len() == 0
            &&& action is EnumeratePrinters
        } else {
            &&& (post.phase matches Phase::Finished { error: Some(e) } && e
                is NoPrintersAvailable)
            &&& events.len() == 1 && events[0] is NoPrintersFound
            &&& action is Report
        },
        (Phase::Discovering, Input::PrinterList { printers }) => if printers@.len() == 0 {
            &&& (post.phase matches Phase::Finished { error: Some(e) } && e
                is NoPrintersAvailable)
            &&& events.len() == 1 && events[0] is NoPrintersFound
            &&& action is Report
        } else {
            exists|sel: Selection|
                {
                    &&& #[trigger] selection_ok(printers@, pre.hint, sel)
                    &&& (post.phase matches Phase::Writing { printer } && printer == printers@[sel.index as int])
                    &&& events.len() == 1
                    &&& if sel.fallback {
                        &&& pre.hint is Some
                        &&& (events[0] matches Event::SelectionFallback { requested, actual }
                            && requested@ == pre.hint->0@ && actual@ == printers@[sel.index as int].name@)
                    } else {
                        events[0] matches Event::PrinterSelected { name } && name@
                            == printers@[sel.index as int].name@
                    }
                    &&& (action matches Action::WriteArtifact { markup } && markup@
                        == render_spec(pre.content@))
                }
        },
        (Phase::Writing { printer }, Input::WriteOutcome { error }) => match error {
            Some(reason) => {
                &&& (post.phase matches Phase::Finished { error: Some(e) } && e
                    matches PrintError::ArtifactWriteFailure { reason: r } && r@ == reason@)
                &&& events.len() == 1
                &&& (events[0] matches Event::ArtifactWriteFailed { reason: r } && r@ == reason@)
                &&& action is Report
            },
            None => {
                &&& (post.phase matches Phase::Submitting { printer: p } && p == printer)
                &&& events.len() == 0
                &&& (action matches Action::SubmitJob { printer: p, job_name } && p == printer
                    && job_name@ == "Receipt Print Job"@)
            },
        },
        (Phase::Submitting { printer }, Input::SubmitOutcome { error }) => {
            &&& (post.phase matches Phase::Cleanup { failure } && failure == error)
            &&& action is RemoveArtifact
            &&& events.len() == 1
            &&& match error {
                None => events[0] matches Event::PrintSucceeded { name } && name@
                    == printer.name@,
                Some(reason) => events[0] matches Event::PrintFailed { name, reason: r }
                    && name@ == printer.name@ && r@ == reason@,
            }
        },
        (Phase::Cleanup { failure }, Input::ArtifactRemoved) => {
            &&& match failure {
                None => post.phase matches Phase::Finished { error: None },
                Some(reason) => post.phase matches Phase::Finished { error: Some(e) } && e
                    matches PrintError::JobSubmissionFailure { reason: r } && r@ == reason@,
            }
            &&& events.len() == 0
            &&& action is Report
        },
        _ => false,
    }
}

/// Opens one invocation: the machine waits for the probe, the caller runs it.
pub fn start(defect_platform: bool, hint: Option<String>, content: String) -> (r: (
    Pipeline,
    Action,
))
    ensures
        r.0.wf(),
        r.0.phase is Probing,
        !r.0.wrote && !r.0.removed,
        r.0.defect_platform == defect_platform,
        r.0.hint == hint,
        r.0.content == content,
        r.1 is RunProbe,
{
    (
        Pipeline {
            defect_platform,
            hint,
            content,
            phase: Phase::Probing,
            wrote: false,
            removed: false,
        },
        Action::RunProbe,
    )
}

impl Pipeline {
    /// Advances the invocation by one blocking step's outcome, according to
    /// the transition relation [`step_spec`].
    pub fn step(self, input: Input) -> (r: StepOutcome)
        requires
            self.wf(),
            self.accepts(input),
        ensures
            r.machine.wf(),
            step_spec(self, input, r.machine, r.events@, r.action),
    {
        let Pipeline { defect_platform, hint, content, phase, wrote, removed } = self;
        match (phase, input) {
            (Phase::Probing, Input::ProbeOutput { output }) => {
                if may_enumerate(defect_platform, &output) {
                    StepOutcome {
                        machine: Pipeline {
                            defect_platform,
                            hint,
                            content,
                            phase: Phase::Discovering,
                            wrote,
                            removed,
                        },
                        events: Vec::new(),
                        action: Action::EnumeratePrinters,
                    }
                } else {
                    let mut events: Vec<Event> = Vec::new();
                    events.push(Event::NoPrintersFound);
                    StepOutcome {
                        machine: Pipeline {
                            defect_platform,
                            hint,
                            content,
                            phase: Phase::Finished {
                                error: Some(PrintError::NoPrintersAvailable),
                            },
                            wrote,
                            removed,
                        },
                        events,
                        action: Action::Report,
                    }
                }
            },
            (Phase::Discovering, Input::PrinterList { printers }) => {
                if printers.len() == 0 {
                    let mut events: Vec<Event> = Vec::new();
                    events.push(Event::NoPrintersFound);
                    StepOutcome {
                        machine: Pipeline {
                            defect_platform,
                            hint,
                            content,
                            phase: Phase::Finished {
                                error: Some(PrintError::NoPrintersAvailable),
                            },
                            wrote,
                            removed,
                        },
                        events,
                        action: Action::Report,
                    }
                } else {
                    let sel = match select(&printers, &hint) {
                        Ok(s) => s,
                        Err(_) => Selection { index: 0, fallback: false },
                    };
                    let target = printers[sel.index].clone();
                    let mut events: Vec<Event> = Vec::new();
                    if sel.fallback {
                        let requested = match hint.as_ref() {
                            Some(h) => h.clone(),
                            None => String::new(),
                        };
                        events.push(
                            Event::SelectionFallback { requested, actual: target.name.clone() },
                        );
                    } else {
                        events.push(Event::PrinterSelected { name: target.name.clone() });
                    }
                    let doc = render(&content);
                    proof {
                        assert(selection_ok(printers@, self.hint, sel));
                    }
                    StepOutcome {
                        machine: Pipeline {
                            defect_platform,
                            hint,
                            content,
                            phase: Phase::Writing { printer: target },
                            wrote,
                            removed,
                        },
                        events,
                        action: Action::WriteArtifact { markup: doc.markup },
                    }
                }
            },
            (Phase::Writing { printer }, Input::WriteOutcome { error }) => match error {
                Some(reason) => {
                    let mut events: Vec<Event> = Vec::new();
                    events.push(Event::ArtifactWriteFailed { reason: reason.clone() });
                    StepOutcome {
                        machine: Pipeline {
                            defect_platform,
                            hint,
                            content,
                            phase: Phase::Finished {
                                error: Some(PrintError::ArtifactWriteFailure { reason }),
                            },
                            wrote,
                            removed,
                        },
                        events,
                        action: Action::Report,
                    }
                },
                None => {
                    let submit_to = printer.clone();
                    let job_name = "Receipt Print Job".to_owned();
                    StepOutcome {
                        machine: Pipeline {
                            defect_platform,
                            hint,
                            content,
                            phase: Phase::Submitting { printer },
                            wrote: true,
                            removed,
                        },
                        events: Vec::new(),
                        action: Action::SubmitJob { printer: submit_to, job_name },
                    }
                },
            },
            (Phase::Submitting { printer }, Input::SubmitOutcome { error }) => {
                let mut events: Vec<Event> = Vec::new();
                match &error {
                    None => events.push(Event::PrintSucceeded { name: printer.name.clone() }),
                    Some(reason) => events.push(
                        Event::PrintFailed { name: printer.name.clone(), reason: reason.clone() },
                    ),
                }
                StepOutcome {
                    machine: Pipeline {
                        defect_platform,
                        hint,
                        content,
                        phase: Phase::Cleanup { failure: error },
                        wrote,
                        removed,
                    },
                    events,
                    action: Action::RemoveArtifact,
                }
            },
            (Phase::Cleanup { failure }, Input::ArtifactRemoved) => {
                let error = match failure {
                    None => None,
                    Some(reason) => Some(PrintError::JobSubmissionFailure { reason }),
                };
                StepOutcome {
                    machine: Pipeline {
                        defect_platform,
                        hint,
                        content,
                        phase: Phase::Finished { error },
                        wrote,
                        removed: true,
                    },
                    events: Vec::new(),
                    action: Action::Report,
                }
            },
            (other, _) => StepOutcome {
                machine: Pipeline {
                    defect_platform,
                    hint,
                    content,
                    phase: other,
                    wrote,
                    removed,
                },
                events: Vec::new(),
                action: Action::Report,
            },
        }
    }

    /// Reads the terminal outcome off a finished machine: `Ok` on success,
    /// otherwise the human-readable diagnostic of the one error that ended
    /// the invocation.
    pub fn result(&self) -> (r: Result<(), String>)
        requires
            self.finished(),
        ensures
            match self.outcome() {
                None => r is Ok,
                Some(e) => r matches Err(m) && m@ == e.message_spec(),
            },
    {
        match &self.phase {
            Phase::Finished { error } => match error {
                None => Ok(()),
                Some(e) => Err(e.message()),
            },
            _ => Ok(()),
        }
    }
}

/// A run of the machine: machine `i` consumes input `i` and yields machine
/// `i + 1` together with the events and the action numbered `i`, always
/// according to the transition relation.
pub open spec fn is_run(
    ms: Seq<Pipeline>,
    ins: Seq<Input>,
    evs: Seq<Seq<Event>>,
    acts: Seq<Action>,
) -> bool {
    &&& ms.len() == ins.len() + 1
    &&& evs.len() == ins.len()
    &&& acts.len() == ins.len()
    &&& forall|i: int|
        0 <= i < ins.len() ==> #[trigger] step_spec(ms[i], ins[i], ms[i + 1], evs[i], acts[i])
}

/// How many removals a run demanded of the caller.
pub open spec fn removes_in(acts: Seq<Action>) -> nat
    decreases acts.len(),
{
    if acts.len() == 0 {
        0
    } else {
        removes_in(acts.drop_last()) + if acts.last() is RemoveArtifact {
            1nat
        } else {
            0nat
        }
    }
}

/// How many successful artifact writes a run reported to the machine.
pub open spec fn write_successes_in(ins: Seq<Input>) -> nat
    decreases ins.len(),
{
    if ins.len() == 0 {
        0
    } else {
        write_successes_in(ins.drop_last()) + if ins.last() matches Input::WriteOutcome {
            error: None,
        } {
            1nat
        } else {
            0nat
        }
    }
}

/// The transition relation preserves the artifact bookkeeping.
pub proof fn lemma_step_preserves_wf(
    pre: Pipeline,
    input: Input,
    post: Pipeline,
    events: Seq<Event>,
    action: Action,
)
    requires
        pre.wf(),
        step_spec(pre, input, post, events, action),
    ensures
        post.wf(),
{
}

proof fn lemma_run_counts(ms: Seq<Pipeline>, ins: Seq<Input>, evs: Seq<Seq<Event>>, acts: Seq<
    Action,
>, i: int)
    requires
        is_run(ms, ins, evs, acts),
        ms[0].wf(),
        !ms[0].wrote,
        !ms[0].removed,
        0 <= i <= ins.len(),
    ensures
        ms[i].wf(),
        write_successes_in(ins.take(i)) == if ms[i].wrote {
            1nat
        } else {
            0nat
        },
        removes_in(acts.take(i)) == if ms[i].removed || ms[i].phase is Cleanup {
            1nat
        } else {
            0nat
        },
    decreases i,
{
    if i == 0 {
        assert(ins.take(0) =~= Seq::<Input>::empty());
        assert(acts.take(0) =~= Seq::<Action>::empty());
    } else {
        lemma_run_counts(ms, ins, evs, acts, i - 1);
        let j = i - 1;
        assert(step_spec(ms[j], ins[j], ms[j + 1], evs[j], acts[j]));
        lemma_step_preserves_wf(ms[j], ins[j], ms[j + 1], evs[j], acts[j]);
        assert(ins.take(i).drop_last() =~= ins.take(i - 1));
        assert(acts.take(i).drop_last() =~= acts.take(i - 1));
        assert(ins.take(i).last() == ins[i - 1]);
        assert(acts.take(i).last() == acts[i - 1]);
    }
}

/// The artifact lifecycle law over whole invocations: however a run that
/// starts fresh ends, the caller was asked to remove the artifact exactly
/// as many times as it reported a successful write — once or not at all.
pub proof fn lemma_one_remove_per_write(
    ms: Seq<Pipeline>,
    ins: Seq<Input>,
    evs: Seq<Seq<Event>>,
    acts: Seq<Action>,
)
    requires
        is_run(ms, ins, evs, acts),
        ms.len() > 0,
        ms[0].wf(),
        !ms[0].wrote,
        !ms[0].removed,
        ms[ms.len() - 1].phase is Finished,
    ensures
        removes_in(acts) == write_successes_in(ins),
        removes_in(acts) <= 1,
{
    let n = ins.len() as int;
    lemma_run_counts(ms, ins, evs, acts, n);
    assert(ins.take(n) =~= ins);
    assert(acts.take(n) =~= acts);
}

/// The artifact contract: a finished invocation removed its temporary file
/// exactly when it wrote one — one removal per write, on success and on
/// every failure path alike.
pub proof fn lemma_cleanup_balanced(p: Pipeline)
    requires
        p.wf(),
        p.finished(),
    ensures
        p.wrote == p.removed,
{
}

/// Removal is demanded exactly once, at the step that leaves the submission
/// phase — the only phase reached with a live artifact and a submission
/// outcome in hand.
pub proof fn lemma_remove_follows_submission(
    pre: Pipeline,
    input: Input,
    post: Pipeline,
    events: Seq<Event>,
    action: Action,
)
    requires
        pre.wf(),
        step_spec(pre, input, post, events, action),
    ensures
        action is RemoveArtifact <==> pre.phase is Submitting,
        pre.phase is Submitting ==> pre.wrote && !pre.removed,
        action is RemoveArtifact ==> post.phase is Cleanup,
{
}

} // verus!
