use vstd::prelude::*;
use crate::model::Shape;

verus! {

/// What the training loop does next.
#[derive(Debug, Clone, Copy, PartialEq, Eq, Structural)]
pub enum TrainAction {
    /// Run sample `sample` forward, take its loss and apply one optimizer
    /// step; `epoch` counts from one.
    Step { epoch: usize, sample: usize },
    /// Epoch `epoch` is over: report the sum of its losses over `samples`.
    EndEpoch { epoch: usize, samples: usize },
    /// Every epoch has run.
    Finished,
}

/// The order of the per-sample training schedule: `epochs` passes over the
/// samples `0 .. num_samples`, in that order each time, each pass closed by
/// an end-of-epoch report.
#[derive(Debug)]
pub struct TrainSchedule {
    epochs: usize,
    num_samples: usize,
    epochs_done: usize,
    next_sample: usize,
}

impl TrainSchedule {
    pub closed spec fn spec_epochs(&self) -> nat {
        self.epochs as nat
    }

    pub closed spec fn spec_num_samples(&self) -> nat {
        self.num_samples as nat
    }

    /// Epochs already closed by an end-of-epoch report.
    pub closed spec fn spec_epochs_done(&self) -> nat {
        self.epochs_done as nat
    }

    /// The sample that the current epoch steps on next.
    pub closed spec fn spec_next_sample(&self) -> nat {
        self.next_sample as nat
    }

    pub closed spec fn wf(&self) -> bool {
        &&& self.epochs_done <= self.epochs
        &&& self.next_sample <= self.num_samples
        &&& self.epochs_done == self.epochs ==> self.next_sample == 0
    }

    /// Optimizer steps that are still to come.
    pub open spec fn steps_left(&self) -> int {
        (self.spec_epochs() - self.spec_epochs_done()) * self.spec_num_samples() - self.spec_next_sample()
    }

    /// A schedule at its start.
    pub fn new(epochs: usize, num_samples: usize) -> (r: TrainSchedule)
        ensures
            r.wf(),
            r.spec_epochs() == epochs,
            r.spec_num_samples() == num_samples,
            r.spec_epochs_done() == 0,
            r.spec_next_sample() == 0,
            r.steps_left() == epochs * num_samples,
    {
        TrainSchedule { epochs, num_samples, epochs_done: 0, next_sample: 0 }
    }

    /// The next action, and the schedule moved past it.
    pub fn next_action(&mut self) -> (r: TrainAction)
        requires
            old(self).wf(),
        ensures
            final(self).wf(),
            final(self).spec_epochs() == old(self).spec_epochs(),
            final(self).spec_num_samples() == old(self).spec_num_samples(),
            old(self).spec_epochs_done() == old(self).spec_epochs() ==> r == TrainAction::Finished
                && final(self).spec_epochs_done() == old(self).spec_epochs_done()
                && final(self).spec_next_sample() == old(self).spec_next_sample(),
            old(self).spec_epochs_done() < old(self).spec_epochs()
                && old(self).spec_next_sample() < old(self).spec_num_samples() ==> r == (TrainAction::Step {
                    epoch: (old(self).spec_epochs_done() + 1) as usize,
                    sample: old(self).spec_next_sample() as usize,
                })
                && final(self).spec_epochs_done() == old(self).spec_epochs_done()
                && final(self).spec_next_sample() == old(self).spec_next_sample() + 1,
            old(self).spec_epochs_done() < old(self).spec_epochs()
                && old(self).spec_next_sample() == old(self).spec_num_samples() ==> r == (TrainAction::EndEpoch {
                    epoch: (old(self).spec_epochs_done() + 1) as usize,
                    samples: old(self).spec_num_samples() as usize,
                })
                && final(self).spec_epochs_done() == old(self).spec_epochs_done() + 1
                && final(self).spec_next_sample() == 0,
            r is Step ==> final(self).steps_left() == old(self).steps_left() - 1,
            !(r is Step) ==> final(self).steps_left() == old(self).steps_left(),
            r is Finished <==> old(self).spec_epochs_done() == old(self).spec_epochs(),
    {
        if self.epochs_done == self.epochs {
            TrainAction::Finished
        } else if self.next_sample < self.num_samples {
            let action = TrainAction::Step { epoch: self.epochs_done + 1, sample: self.next_sample };
            self.next_sample = self.next_sample + 1;
            action
        } else {
            let action = TrainAction::EndEpoch { epoch: self.epochs_done + 1, samples: self.num_samples };
            self.epochs_done = self.epochs_done + 1;
            self.next_sample = 0;
            proof {
                let e = old(self).epochs - old(self).epochs_done;
                let n = self.num_samples as int;
                assert(e * n - n == (e - 1) * n) by (nonlinear_arith);
            }
            action
        }
    }

    /// Whether every epoch has run.
    pub fn is_finished(&self) -> (r: bool)
        ensures
            r == (self.spec_epochs_done() == self.spec_epochs()),
    {
        self.epochs_done == self.epochs
    }
}

/// Once every epoch has run, no optimizer step is left: the schedule takes
/// exactly `epochs · num_samples` steps from its start.
pub proof fn lemma_finished_has_no_steps_left(s: TrainSchedule)
    requires
        s.wf(),
        s.spec_epochs_done() == s.spec_epochs(),
    ensures
        s.steps_left() == 0,
{
    assert(s.spec_next_sample() == 0);
    assert((s.spec_epochs() - s.spec_epochs_done()) * s.spec_num_samples() == 0) by (nonlinear_arith)
        requires s.spec_epochs() - s.spec_epochs_done() == 0;
}

/// A schedule at its start, with at least one epoch and one sample, owes at
/// least one optimizer step, and its next action is the step on the first
/// sample of the first epoch.
pub proof fn lemma_fresh_schedule_steps(s: TrainSchedule)
    requires
        s.wf(),
        s.spec_epochs_done() == 0,
        s.spec_next_sample() == 0,
        s.spec_epochs() >= 1,
        s.spec_num_samples() >= 1,
    ensures
        s.steps_left() >= 1,
        s.spec_epochs_done() < s.spec_epochs() && s.spec_next_sample() < s.spec_num_samples(),
{
    assert(s.spec_epochs() * s.spec_num_samples() >= 1) by (nonlinear_arith)
        requires s.spec_epochs() >= 1, s.spec_num_samples() >= 1;
}

/// Why a sample's logits cannot be scored against its target.
#[derive(Debug, Clone, Copy, PartialEq, Eq, Structural)]
pub enum LossError {
    /// The logits have not one row per target position.
    RowMismatch,
    /// A target index is not below the number of logit columns.
    TargetOutOfRange,
}

/// Checks that cross-entropy can be taken between logits of shape `logits`
/// (one row of class scores per position) and the indices `target`.
pub fn check_loss_shapes(logits: Shape, target: &[usize]) -> (r: Result<(), LossError>)
    ensures
        logits.rows != target@.len() ==> r == Err::<(), LossError>(LossError::RowMismatch),
        logits.rows == target@.len() && !crate::data::indices_below(target@, logits.cols as nat)
            ==> r == Err::<(), LossError>(LossError::TargetOutOfRange),
        logits.rows == target@.len() && crate::data::indices_below(target@, logits.cols as nat) ==> r is Ok,
{
    if logits.rows != target.len() {
        return Err(LossError::RowMismatch);
    }
    let mut k: usize = 0;
    while k < target.len()
        invariant
            k <= target@.len(),
            logits.rows == target@.len(),
            forall|i: int| 0 <= i < k ==> target@[i] < logits.cols,
        decreases target@.len() - k,
    {
        if target[k] >= logits.cols {
            return Err(LossError::TargetOutOfRange);
        }
        k = k + 1;
    }
    Ok(())
}

} // verus!
