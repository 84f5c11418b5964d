//! A payload that can be taken out exactly once.
use vstd::prelude::*;

verus! {

/// A one-shot cell: it starts holding a payload and, once the payload has
/// been taken, stays empty for good.
pub struct Once<T> {
    payload: Option<T>,
}

impl<T> Once<T> {
    /// The payload still held, if it has not been taken yet.
    pub closed spec fn held(&self) -> Option<T> {
        self.payload
    }

    pub open spec fn is_consumed(&self) -> bool {
        self.held() is None
    }

    /// A cell that holds `payload`.
    pub fn new(payload: T) -> (r: Self)
        ensures
            r.held() == Some(payload),
    {
        Once { payload: Some(payload) }
    }

    /// Whether the payload has already been taken.
    pub fn consumed(&self) -> (r: bool)
        ensures
            r == self.is_consumed(),
    {
        self.payload.is_none()
    }

    /// Takes the payload out; the cell is empty afterwards. Taking it twice is
    /// a contract violation that callers must rule out.
    pub fn take(&mut self) -> (r: T)
        requires
            !old(self).is_consumed(),
        ensures
            old(self).held() == Some(r),
            final(self).is_consumed(),
    {
        self.payload.take().unwrap()
    }

    /// Takes the payload out if it is still there; `None` on any later call.
    pub fn try_take(&mut self) -> (r: Option<T>)
        ensures
            r == old(self).held(),
            final(self).is_consumed(),
    {
        self.payload.take()
    }
}

} // verus!
