//! The one initialization of OLE.

use vstd::prelude::*;

verus! {

/// What came of the initialization of OLE, once it has been tried. `W` is the error of a system
/// call.
pub struct Ole<W> {
    pub result: Option<Result<(), W>>,
}

/// Whether a call of [`Ole::init_ole`] may lead from one state to another: the initialization is
/// run where it has not been tried, and its result remembered; else nothing happens.
pub open spec fn initializes<W, C: FnOnce() -> Result<(), W>>(
    before: Ole<W>,
    after: Ole<W>,
    initialize: C,
) -> bool {
    match before.result {
        Some(_) => after == before,
        None => exists|result: Result<(), W>|
            #[trigger] call_ensures(initialize, (), result) && after.result == Some(result),
    }
}

/// The first call remembers a result that the initialization may give, and every later one leaves
/// what is remembered.
pub proof fn law_first_result_is_remembered<W, C: FnOnce() -> Result<(), W>>(
    before: Ole<W>,
    after: Ole<W>,
    initialize: C,
)
    requires
        initializes(before, after, initialize),
    ensures
        before.result is Some ==> after.result == before.result,
        before.result is None ==> after.result is Some && call_ensures(
            initialize,
            (),
            after.result->0,
        ),
{
}

/// OLE is initialized once: whatever came of the first call stays, and is known to every drag.
pub proof fn law_ole_is_initialized_once<
    W,
    C: FnOnce() -> Result<(), W>,
    D: FnOnce() -> Result<(), W>,
>(before: Ole<W>, between: Ole<W>, after: Ole<W>, first: C, second: D)
    requires
        initializes(before, between, first),
        initializes(between, after, second),
    ensures
        after == between,
        after.result is Some,
{
}

impl<W> Ole<W> {
    /// OLE before the first drag.
    pub fn new() -> (ole: Self)
        ensures
            ole.result is None,
    {
        Self { result: None }
    }

    /// Initializes OLE the first time, and remembers what came of it. Later calls do nothing.
    pub fn init_ole<C: FnOnce() -> Result<(), W>>(&mut self, initialize: C)
        requires
            old(self).result is None ==> call_requires(initialize, ()),
        ensures
            initializes(*old(self), *final(self), initialize),
    {
        if self.result.is_none() {
            let result = initialize();
            self.result = Some(result);
        }
    }

    /// The error of the initialization, if it was tried and failed.
    pub fn error(&self) -> (error: Option<&W>)
        ensures
            error == (match self.result {
                Some(Err(error)) => Some(&error),
                _ => None,
            }),
    {
        match &self.result {
            Some(Err(error)) => Some(error),
            _ => None,
        }
    }
}

} // verus!
