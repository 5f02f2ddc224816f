//! The coordinator of a batch: it keeps what is to be sent back, and knows
//! for how many outcomes it still waits.
//!
//! The coordinator does not run anything. Whoever drives it submits the
//! steps of the batch, makes the calls that come back from that, and reports
//! each outcome that is waited for as it arrives. The responses are kept in
//! the order in which they were reported.

use crate::dispatch::{Job, Step, StepView};
use crate::protocol::{
    all_identified, responses_are_identified, responses_view, Response, ResponseView,
};
use vstd::prelude::*;

verus! {

/// The state of a batch that is being carried out.
pub struct Batch {
    responses: Vec<Response>,
    pending: usize,
}

/// The state of a batch as a mathematical value: the responses so far, and
/// the number of outcomes that are still waited for.
pub ghost struct BatchView {
    pub responses: Seq<ResponseView>,
    pub pending: nat,
}

impl View for Batch {
    type V = BatchView;

    closed spec fn view(&self) -> BatchView {
        BatchView { responses: responses_view(self.responses@), pending: self.pending as nat }
    }
}

/// The state of a batch after one more step was submitted.
pub open spec fn submitted<H>(batch: BatchView, step: StepView<H>) -> BatchView {
    match step {
        StepView::Run(task) => BatchView {
            responses: batch.responses,
            pending: if task.id is Notification {
                batch.pending
            } else {
                batch.pending + 1
            },
        },
        StepView::Reply(response) => BatchView {
            responses: batch.responses.push(response),
            pending: batch.pending,
        },
        StepView::Skip => batch,
    }
}

impl Batch {
    /// A batch to which nothing was submitted yet.
    pub fn new() -> (r: Batch)
        ensures
            r@ == (BatchView { responses: Seq::empty(), pending: 0 }),
    {
        let r = Batch { responses: Vec::new(), pending: 0 };
        assert(responses_view(r.responses@) =~= Seq::empty());
        r
    }

    /// Takes note of a step of the batch, and hands back the call to make,
    /// if the step asks for one. A response that needs no call is kept at
    /// once; a call whose outcome the client waits for is counted.
    pub fn submit<'a, H>(&mut self, step: Step<'a, H>) -> (r: Option<Job<'a, H>>)
        requires
            old(self)@.pending < usize::MAX,
        ensures
            final(self)@ == submitted(old(self)@, step@),
            match step {
                Step::Run(job) => r == Some(job),
                _ => r is None,
            },
    {
        match step {
            Step::Run(job) => {
                if !job.id.is_notification() {
                    self.pending += 1;
                }
                Some(job)
            },
            Step::Reply(response) => {
                self.responses.push(response);
                assert(responses_view(self.responses@) =~= responses_view(
                    old(self).responses@,
                ).push(response@));
                None
            },
            Step::Skip => None,
        }
    }

    /// The number of outcomes that are still waited for.
    pub fn pending(&self) -> (r: usize)
        ensures
            r == self@.pending,
    {
        self.pending
    }

    /// Takes the response to a call whose outcome was waited for.
    pub fn complete(&mut self, response: Response)
        requires
            old(self)@.pending > 0,
        ensures
            final(self)@ == (BatchView {
                responses: old(self)@.responses.push(response@),
                pending: (old(self)@.pending - 1) as nat,
            }),
    {
        self.responses.push(response);
        self.pending -= 1;
        assert(responses_view(self.responses@) =~= responses_view(old(self).responses@).push(
            response@,
        ));
    }

    /// Gives up waiting: the outcomes that have not arrived will not come.
    pub fn close(&mut self)
        ensures
            final(self)@ == (BatchView { responses: old(self)@.responses, pending: 0 }),
    {
        self.pending = 0;
    }

    /// The responses of the batch, in the order in which they were kept.
    /// However the batch was driven, none of them carries the marker of a
    /// notification.
    pub fn finish(self) -> (r: Vec<Response>)
        ensures
            responses_view(r@) == self@.responses,
            all_identified(self@.responses),
    {
        proof {
            responses_are_identified(self.responses@);
        }
        self.responses
    }
}

} // verus!
