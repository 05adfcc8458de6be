//! The single owned application context and the projection that hands a
//! self-contained value to detached work.

use vstd::prelude::*;

verus! {

/// The capability a context needs before any endpoint may use the detached
/// execution flavor: deriving an independently owned context for a unit of
/// detached work.
pub trait SpawnContext: Sized {
    type SpawnCtxt;

    /// The value the projection yields for a given context state.
    spec fn spawn_projection(&self) -> Self::SpawnCtxt;

    /// Projects a snapshot for detached work: the result is a function of
    /// the context at the moment of the call, holds no borrow of it, and
    /// the context itself is left as it was. The owner may mutate the
    /// context afterwards without affecting the projected value.
    fn spawn_ctxt(&mut self) -> (r: Self::SpawnCtxt)
        ensures
            r == old(self).spawn_projection(),
            *final(self) == *old(self),
    ;
}

/// The application state owned by the dispatcher. `a` counts inline handler
/// invocations; `b` is the part detached work needs.
#[derive(Clone, Copy, PartialEq, Eq, Structural, Debug)]
pub struct TestContext {
    pub a: u32,
    pub b: u32,
}

/// The independently owned state handed to one detached unit of work.
#[derive(Clone, Copy, PartialEq, Eq, Structural, Debug)]
pub struct TestSpawnContext {
    pub b: u32,
}

impl SpawnContext for TestContext {
    type SpawnCtxt = TestSpawnContext;

    open spec fn spawn_projection(&self) -> TestSpawnContext {
        TestSpawnContext { b: self.b }
    }

    fn spawn_ctxt(&mut self) -> (r: TestSpawnContext) {
        TestSpawnContext { b: self.b }
    }
}

} // verus!
