//! The outcome of one job submitted to a worker.
use crate::error::{describes, Error};
use crate::post::{decodes, AsJs, Post, Postable};
use crate::value::Value;
use vstd::prelude::*;

verus! {

/// How the channel that carries a job's result ended.
pub enum Outcome {
    /// The job finished and its output came back in boundary form.
    Returned(Value),
    /// The job raised this value inside the worker.
    Faulted(Value),
    /// The channel closed without a result: the worker was destroyed, or
    /// its context died, before the job finished.
    Severed,
}

/// Whether `r` is what a task whose channel ended in `o` resolves to.
pub open spec fn resolves<T: AsJs>(o: Outcome, r: Result<T, Error>) -> bool {
    match o {
        Outcome::Returned(v) => decodes(v, r),
        Outcome::Faulted(v) => r is Err && describes(r->Err_0, v),
        Outcome::Severed => r == Err::<T, Error>(Error::Killed),
    }
}

/// What a task resolves to once its channel has ended in `o`.
pub fn resolve<T: AsJs>(o: Outcome) -> (r: Result<T, Error>)
    ensures
        resolves(o, r),
{
    match o {
        Outcome::Returned(v) => T::from_js(v),
        Outcome::Faulted(v) => Err(Error::from_fault(v)),
        Outcome::Severed => Err(Error::Killed),
    }
}

/// Where a task stands.
pub enum Stage {
    /// The job was handed to a worker; its result has not been seen.
    Submitted,
    /// The job never reached a worker, because of this error.
    Rejected(Error),
    /// The task has resolved; it yields nothing more.
    Finished,
}

/// A job in flight: it resolves exactly once, to the job's output or to an
/// error, and never changes its outcome afterwards.
pub struct Task<T> {
    waiting: bool,
    rejection: Option<Error>,
    marker: std::marker::PhantomData<T>,
}

impl<T> Task<T> {
    pub closed spec fn stage(&self) -> Stage {
        if self.waiting {
            Stage::Submitted
        } else {
            match self.rejection {
                Some(e) => Stage::Rejected(e),
                None => Stage::Finished,
            }
        }
    }

    /// A task whose job has been handed to a worker.
    pub fn submitted() -> (r: Self)
        ensures
            r.stage() is Submitted,
    {
        Task { waiting: true, rejection: None, marker: std::marker::PhantomData }
    }

    /// A task whose job could not be sent, and that resolves to `error`
    /// without ever reaching a worker.
    pub fn rejected(error: Error) -> (r: Self)
        ensures
            r.stage() == Stage::Rejected(error),
    {
        Task { waiting: false, rejection: Some(error), marker: std::marker::PhantomData }
    }

    /// Whether the task still waits on the worker's result channel.
    pub fn is_waiting(&self) -> (r: bool)
        ensures
            r == self.stage() is Submitted,
    {
        self.waiting
    }

    /// Advances the task on what came back from the worker: `None` while
    /// nothing has. Gives the task's result the first time there is one,
    /// and `None` on every later call.
    pub fn poll(&mut self, ended: Option<Result<T, Error>>) -> (r: Option<Result<T, Error>>)
        ensures
            match old(self).stage() {
                Stage::Submitted => match ended {
                    Some(x) => {
                        &&& final(self).stage() is Finished
                        &&& r == Some(x)
                    },
                    None => r is None && final(self).stage() is Submitted,
                },
                Stage::Rejected(e) => {
                    &&& final(self).stage() is Finished
                    &&& r == Some(Err::<T, Error>(e))
                },
                Stage::Finished => r is None && final(self).stage() is Finished,
            },
    {
        if self.waiting {
            match ended {
                Some(x) => {
                    self.waiting = false;
                    self.rejection = None;
                    Some(x)
                },
                None => None,
            }
        } else {
            match self.rejection.take() {
                Some(e) => Some(Err(e)),
                None => None,
            }
        }
    }
}

/// Prepares a job's context for a worker, before anything is sent: its
/// boundary form and transfer list when it can be converted, and a task
/// waiting on the worker; otherwise no message, and a task that resolves to
/// the conversion error without the job ever reaching a worker.
pub fn prepare<T>(context: impl Post) -> (r: (Task<T>, Option<Postable>))
    ensures
        match context.encoding() {
            Some(v) => {
                &&& r.0.stage() is Submitted
                &&& r.1 is Some
                &&& r.1->0.message_spec() == v
                &&& r.1->0.transfer_spec() == context.transfer_list()
                &&& r.1->0.wf()
            },
            None => {
                &&& r.0.stage() is Rejected
                &&& r.0.stage()->Rejected_0 is Serialization
                &&& r.1 is None
            },
        },
{
    match Postable::new(context) {
        Ok(p) => (Task::submitted(), Some(p)),
        Err(e) => (Task::rejected(e), None),
    }
}

} // verus!
