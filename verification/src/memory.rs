//! An actor that answers queries about an arena's use.

use core::marker::PhantomData;
use vstd::prelude::*;
use crate::handler::{Nothing, RequestHandler, Response};

verus! {

/// The question how much of the arena is in use.
pub struct Query;

/// How much of an arena is in use.
#[derive(Clone, Copy, Debug, PartialEq, Eq, Structural)]
pub struct Info {
    pub used: usize,
    pub free: usize,
    pub high_watermark: usize,
}

/// The actor that is asked about arena `A`.
pub struct Memory<A> {
    pub arena: PhantomData<A>,
}

/// What the memory actor answers with: nothing, and at once.
pub type MemoryResponse<A> = Response<Memory<A>, Nothing, Nothing, Nothing>;

impl<A> Memory<A> {
    /// The actor for arena `A`.
    pub fn new() -> (memory: Memory<A>)
        ensures
            memory == (Memory::<A> { arena: PhantomData }),
    {
        Memory { arena: PhantomData }
    }
}

impl<A> RequestHandler<Query> for Memory<A> {
    type Response = Nothing;

    type Deferred = Nothing;

    type FollowUp = Nothing;

    type Posts = Nothing;

    open spec fn receptive(&self) -> bool {
        true
    }

    /// Answers at once; the figures themselves are the arena's to report.
    fn on_request(self, message: Query) -> (handled: (MemoryResponse<A>, Nothing))
        ensures
            handled.0 == MemoryResponse::<A>::Immediate(self, ()),
    {
        (Response::immediate(self, ()), ())
    }
}

} // verus!
