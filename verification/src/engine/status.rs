//! Progress bookkeeping shared by the generation back ends: whether a job
//! runs, what it is doing, and how far it has come.
use vstd::prelude::*;

use crate::text::owned;

verus! {

/// The state of a back end's generation job: whether a job runs, what it
/// is doing, and how far it has come in percent (never more than 100).
pub struct GenerationStatus {
    generating: bool,
    status: String,
    progress: u8,
}

/// A status as plain values: running, message, percent.
pub closed spec fn status_view(s: GenerationStatus) -> (bool, Seq<char>, u8) {
    (s.generating, s.status@, s.progress)
}

/// The state after asking to start a job: `None` when one already runs,
/// else the state with the job marked running.
pub open spec fn after_begin(s: (bool, Seq<char>, u8)) -> Option<(bool, Seq<char>, u8)> {
    if s.0 {
        None
    } else {
        Some((true, s.1, s.2))
    }
}

/// The state after a job ends, however it ended.
pub open spec fn after_finish() -> (bool, Seq<char>, u8) {
    (false, "Ready"@, 0)
}

impl GenerationStatus {
    /// The progress is a percentage, at most 100, in every state.
    #[verifier::type_invariant]
    spec fn progress_in_range(self) -> bool {
        self.progress <= 100
    }

    /// Whether a job runs.
    pub fn running(&self) -> (b: bool)
        ensures
            b == status_view(*self).0,
    {
        self.generating
    }

    /// What the job is doing.
    pub fn message(&self) -> (m: &str)
        ensures
            m@ == status_view(*self).1,
    {
        self.status.as_str()
    }

    /// How far the job has come, in percent: never more than 100.
    pub fn progress(&self) -> (p: u8)
        ensures
            p == status_view(*self).2,
            p <= 100,
    {
        proof {
            use_type_invariant(self);
        }
        self.progress
    }

    /// No job, no message, no progress.
    pub fn new() -> (s: Self)
        ensures
            status_view(s) == (false, Seq::<char>::empty(), 0u8),
    {
        GenerationStatus { generating: false, status: String::new(), progress: 0 }
    }

    /// Records what the job is doing and how far it has come, in percent.
    pub fn set_status(&mut self, status: &str, progress: u8)
        requires
            progress <= 100,
        ensures
            status_view(*final(self)) == (status_view(*old(self)).0, status@, progress),
    {
        proof {
            use_type_invariant(&*self);
        }
        self.status = owned(status);
        self.progress = progress;
    }

    /// Marks a job as running, unless one already runs: then the state is
    /// left as it was and `busy` is the error.
    pub fn try_begin(&mut self, busy: &str) -> (r: Result<(), String>)
        ensures
            match after_begin(status_view(*old(self))) {
                Some(t) => r is Ok && status_view(*final(self)) == t,
                None => match r {
                    Err(e) => e@ == busy@ && *final(self) == *old(self),
                    Ok(_) => false,
                },
            },
    {
        proof {
            use_type_invariant(&*self);
        }
        if self.generating {
            Err(owned(busy))
        } else {
            self.generating = true;
            Ok(())
        }
    }

    /// Ends the job: not running, status "Ready", no progress.
    pub fn finish(&mut self)
        ensures
            status_view(*final(self)) == after_finish(),
    {
        proof {
            use_type_invariant(&*self);
        }
        self.generating = false;
        self.status = owned("Ready");
        self.progress = 0;
    }
}

/// Once a job has been started, a second start is refused until it ends.
pub proof fn lemma_begin_excludes(s: (bool, Seq<char>, u8))
    requires
        after_begin(s) is Some,
    ensures
        after_begin(after_begin(s)->0) is None,
        after_begin(after_finish()) is Some,
{
}

} // verus!
