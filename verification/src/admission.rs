//! Admission control: a fixed pool of connection permits.
//!
//! The pool only counts. A caller that finds every permit taken waits for a
//! release and asks again; how it waits is its own business.

use vstd::prelude::*;

verus! {

/// The answer to a request for a permit.
#[derive(Clone, Copy, Debug, PartialEq, Eq, Structural)]
pub enum Admission {
    /// A permit was handed out; it is to be released exactly once.
    Granted,
    /// Every permit is taken: wait for a release, then ask again.
    Busy,
    /// The pool is closed for shutdown and hands out nothing.
    Unavailable,
}

/// What can be asked of the pool.
#[derive(Clone, Copy, Debug, PartialEq, Eq, Structural)]
pub enum AdmissionRequest {
    Acquire,
    Release,
    Close,
}

/// Mathematical value of an [`AdmissionController`].
pub struct AdmissionView {
    /// The size of the pool.
    pub capacity: usize,
    /// Permits handed out and not yet released.
    pub outstanding: usize,
    /// Whether the pool was closed for shutdown.
    pub closed: bool,
}

/// No more permits are out than the pool holds.
pub open spec fn admission_wf(v: AdmissionView) -> bool {
    v.outstanding <= v.capacity
}

/// A pool of `capacity` permits, all of them free.
pub open spec fn admission_start(capacity: usize) -> AdmissionView {
    AdmissionView { capacity, outstanding: 0, closed: false }
}

/// The answer that a request for a permit gets in `v`.
pub open spec fn admission_answer(v: AdmissionView) -> Admission {
    if v.closed {
        Admission::Unavailable
    } else if v.outstanding < v.capacity {
        Admission::Granted
    } else {
        Admission::Busy
    }
}

/// The pool after a request for a permit: one more is out where it was
/// granted, and nothing changed otherwise.
pub open spec fn after_acquire(v: AdmissionView) -> AdmissionView {
    if admission_answer(v) is Granted {
        AdmissionView { outstanding: (v.outstanding + 1) as usize, ..v }
    } else {
        v
    }
}

/// The pool after a release: one fewer permit is out, if any was.
pub open spec fn after_release(v: AdmissionView) -> AdmissionView {
    if v.outstanding > 0 {
        AdmissionView { outstanding: (v.outstanding - 1) as usize, ..v }
    } else {
        v
    }
}

/// The pool after one request.
pub open spec fn after_request(v: AdmissionView, request: AdmissionRequest) -> AdmissionView {
    match request {
        AdmissionRequest::Acquire => after_acquire(v),
        AdmissionRequest::Release => after_release(v),
        AdmissionRequest::Close => AdmissionView { closed: true, ..v },
    }
}

/// The pool after a run of requests.
pub open spec fn after_requests(v: AdmissionView, requests: Seq<AdmissionRequest>)
    -> AdmissionView
    decreases requests.len(),
{
    if requests.len() == 0 {
        v
    } else {
        after_requests(after_request(v, requests[0]), requests.drop_first())
    }
}

/// A pool of connection permits.
pub struct AdmissionController {
    capacity: usize,
    outstanding: usize,
    closed: bool,
}

impl View for AdmissionController {
    type V = AdmissionView;

    closed spec fn view(&self) -> AdmissionView {
        AdmissionView {
            capacity: self.capacity,
            outstanding: self.outstanding,
            closed: self.closed,
        }
    }
}

impl AdmissionController {
    #[verifier::type_invariant]
    spec fn inv(self) -> bool {
        admission_wf(self@)
    }

    /// A pool of `capacity` permits, all of them free.
    pub fn new(capacity: usize) -> (pool: AdmissionController)
        ensures
            pool@ == admission_start(capacity),
    {
        AdmissionController { capacity, outstanding: 0, closed: false }
    }

    /// Asks for a permit.
    pub fn acquire(&mut self) -> (answer: Admission)
        ensures
            answer == admission_answer(old(self)@),
            final(self)@ == after_acquire(old(self)@),
            admission_wf(final(self)@),
    {
        proof {
            use_type_invariant(&*self);
        }
        if self.closed {
            Admission::Unavailable
        } else if self.outstanding < self.capacity {
            self.outstanding = self.outstanding + 1;
            Admission::Granted
        } else {
            Admission::Busy
        }
    }

    /// Gives a permit back. A release with no permit out changes nothing.
    pub fn release(&mut self)
        ensures
            final(self)@ == after_release(old(self)@),
            admission_wf(final(self)@),
    {
        proof {
            use_type_invariant(&*self);
        }
        if self.outstanding > 0 {
            self.outstanding = self.outstanding - 1;
        }
    }

    /// Closes the pool: from now on it hands out nothing.
    pub fn close(&mut self)
        ensures
            final(self)@ == (AdmissionView { closed: true, ..old(self)@ }),
    {
        proof {
            use_type_invariant(&*self);
        }
        self.closed = true;
    }

    /// Permits handed out and not yet released; never more than the pool
    /// holds.
    pub fn outstanding(&self) -> (r: usize)
        ensures
            r == self@.outstanding,
            r <= self@.capacity,
    {
        proof {
            use_type_invariant(self);
        }
        self.outstanding
    }

    /// The size of the pool.
    pub fn capacity(&self) -> (r: usize)
        ensures
            r == self@.capacity,
    {
        self.capacity
    }
}

/// Whatever is asked of a pool, in whatever order, no more permits are ever
/// out than it holds, and its size never changes.
pub proof fn lemma_permits_within_capacity(v: AdmissionView, requests: Seq<AdmissionRequest>)
    requires
        admission_wf(v),
    ensures
        after_requests(v, requests).outstanding <= v.capacity,
        after_requests(v, requests).capacity == v.capacity,
    decreases requests.len(),
{
    if requests.len() > 0 {
        lemma_permits_within_capacity(after_request(v, requests[0]), requests.drop_first());
    }
}

} // verus!
