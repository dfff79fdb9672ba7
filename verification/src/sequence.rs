//! Setup sequences: external programs run one after the other, each only once the
//! one before it has succeeded; the first failure ends the sequence with a report.
//!
//! The caller runs the programs. The sequence decides what runs next and what a
//! failure is reported as.

use vstd::prelude::*;
use crate::command::{CommandLine, CommandView};
use crate::status::{exit_message, succeeded, spec_exit_message, spec_succeeded};

verus! {

/// One program of a sequence, with the words that report its failure and its success.
pub struct Step {
    /// The program to run.
    pub command: CommandLine,
    /// What a failure of the program is reported as, before its exit code.
    pub failure: String,
    /// What a success of the program is reported as.
    pub success: String,
}

/// The abstract form of a step: its command, its failure report, its success report.
pub type StepView = (CommandView, Seq<char>, Seq<char>);

impl View for Step {
    type V = StepView;

    open spec fn view(&self) -> Self::V {
        (self.command@, self.failure@, self.success@)
    }
}

/// The abstract state of a sequence.
pub ghost struct SequenceState {
    /// The steps, in the order they run.
    pub steps: Seq<StepView>,
    /// How many steps have succeeded.
    pub done: nat,
    /// The report of the step that failed, if one did.
    pub failure: Option<Seq<char>>,
}

/// The state of a new sequence of `steps`: nothing has run.
pub open spec fn spec_start(steps: Seq<StepView>) -> SequenceState {
    SequenceState { steps, done: 0, failure: None }
}

/// Whether the sequence still has a step to run: none has failed and not all have run.
pub open spec fn spec_pending(s: SequenceState) -> bool {
    s.failure is None && s.done < s.steps.len()
}

/// The state after the pending step ended with exit code `code`; a sequence with
/// no pending step does not change.
pub open spec fn spec_record(s: SequenceState, code: Option<i32>) -> SequenceState {
    if !spec_pending(s) {
        s
    } else if spec_succeeded(code) {
        SequenceState { done: s.done + 1, ..s }
    } else {
        SequenceState { failure: Some(spec_exit_message(s.steps[s.done as int].1, code)), ..s }
    }
}

/// The state after the steps were run, in turn, with the exit codes `codes`.
pub open spec fn spec_run(steps: Seq<StepView>, codes: Seq<Option<i32>>) -> SequenceState
    decreases codes.len(),
{
    if codes.len() == 0 {
        spec_start(steps)
    } else {
        spec_record(spec_run(steps, codes.drop_last()), codes.last())
    }
}

/// How a sequence stands.
pub enum Outcome {
    /// A step is still to run.
    Pending,
    /// Every step succeeded.
    Finished,
    /// A step failed; the report says which and how.
    Failed(String),
}

/// Programs run one after the other until one fails.
pub struct Sequence {
    steps: Vec<Step>,
    done: usize,
    failure: Option<String>,
}

impl View for Sequence {
    type V = SequenceState;

    closed spec fn view(&self) -> SequenceState {
        SequenceState {
            steps: self.steps@.map_values(|s: Step| s@),
            done: self.done as nat,
            failure: match self.failure {
                Some(f) => Some(f@),
                None => None,
            },
        }
    }
}

impl Sequence {
    /// The sequence is well formed: no more steps have succeeded than there are,
    /// and a failure belongs to a step that exists.
    pub closed spec fn wf(&self) -> bool {
        &&& self.done <= self.steps@.len()
        &&& self.failure is Some ==> self.done < self.steps@.len()
    }

    /// A sequence of `steps` where nothing has run yet.
    pub fn new(steps: Vec<Step>) -> (s: Sequence)
        ensures
            s.wf(),
            s@ == spec_start(steps@.map_values(|st: Step| st@)),
    {
        Sequence { steps, done: 0, failure: None }
    }

    /// The step to run now: the first step not yet run, unless a step failed.
    pub fn next_step(&self) -> (st: Option<&Step>)
        requires
            self.wf(),
        ensures
            st is Some <==> spec_pending(self@),
            st matches Some(step) ==> step@ == self@.steps[self@.done as int],
    {
        if self.failure.is_none() && self.done < self.steps.len() {
            Some(&self.steps[self.done])
        } else {
            None
        }
    }

    /// Records how the program of the step handed out by `next_step` ended.
    pub fn record(&mut self, code: Option<i32>)
        requires
            old(self).wf(),
        ensures
            final(self).wf(),
            final(self)@ == spec_record(old(self)@, code),
    {
        if self.failure.is_none() && self.done < self.steps.len() {
            if succeeded(code) {
                self.done = self.done + 1;
            } else {
                let m = exit_message(self.steps[self.done].failure.as_str(), code);
                self.failure = Some(m);
            }
        }
    }

    /// How the sequence stands.
    pub fn outcome(&self) -> (o: Outcome)
        requires
            self.wf(),
        ensures
            o is Pending <==> spec_pending(self@),
            o is Finished <==> (self@.failure is None && self@.done == self@.steps.len()),
            o matches Outcome::Failed(m) ==> self@.failure == Some(m@),
    {
        match &self.failure {
            Some(m) => Outcome::Failed(m.clone()),
            None => {
                if self.done < self.steps.len() {
                    Outcome::Pending
                } else {
                    Outcome::Finished
                }
            },
        }
    }
}


/// While every program succeeds, the steps run in order: after `n` successful
/// programs (no more than there are steps), exactly the first `n` steps have run
/// and nothing has failed; after as many successes as steps, the sequence is finished.
pub proof fn lemma_successes_advance(steps: Seq<StepView>, codes: Seq<Option<i32>>)
    requires
        codes.len() <= steps.len(),
        forall|i: int| 0 <= i < codes.len() ==> spec_succeeded(#[trigger] codes[i]),
    ensures
        spec_run(steps, codes) == (SequenceState { steps, done: codes.len(), failure: None }),
    decreases codes.len(),
{
    if codes.len() > 0 {
        let prefix = codes.drop_last();
        assert forall|i: int| 0 <= i < prefix.len() implies spec_succeeded(#[trigger] prefix[i]) by {
            assert(prefix[i] == codes[i]);
        }
        lemma_successes_advance(steps, prefix);
        assert(spec_succeeded(codes[codes.len() - 1]));
    }
}

/// The first failure ends the sequence: when the programs of the first `k` steps
/// succeeded and that of step `k` did not, the sequence stops at step `k` with the
/// report of step `k` and its exit code, whatever exit codes follow, and no later
/// step is handed out.
pub proof fn lemma_first_failure_stops(
    steps: Seq<StepView>,
    codes: Seq<Option<i32>>,
    k: int,
)
    requires
        0 <= k < codes.len(),
        k < steps.len(),
        forall|i: int| 0 <= i < k ==> spec_succeeded(#[trigger] codes[i]),
        !spec_succeeded(codes[k]),
    ensures
        spec_run(steps, codes) == (SequenceState {
            steps,
            done: k as nat,
            failure: Some(spec_exit_message(steps[k].1, codes[k])),
        }),
        !spec_pending(spec_run(steps, codes)),
    decreases codes.len(),
{
    let prefix = codes.drop_last();
    if k == codes.len() - 1 {
        assert forall|i: int| 0 <= i < prefix.len() implies spec_succeeded(#[trigger] prefix[i]) by {
            assert(prefix[i] == codes[i]);
        }
        lemma_successes_advance(steps, prefix);
    } else {
        assert forall|i: int| 0 <= i < k implies spec_succeeded(#[trigger] prefix[i]) by {
            assert(prefix[i] == codes[i]);
        }
        assert(prefix[k] == codes[k]);
        lemma_first_failure_stops(steps, prefix, k);
    }
}

} // verus!
