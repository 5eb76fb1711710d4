//! The seam between the engine and whatever draws it.

use crate::error::GameResult;
use vstd::prelude::*;

verus! {

/// What the engine asks of a drawing backend.
pub trait RenderBackend {
    /// Whether opening this backend's window cannot fail. A backend that
    /// does not say so promises nothing.
    open spec fn always_opens(&self) -> bool {
        false
    }

    /// Opens the window that the backend draws into.
    fn create_window(&self) -> (res: GameResult)
        ensures
            self.always_opens() ==> res is Ok,
    ;
}

impl dyn RenderBackend {
    /// The backend that the engine starts with: the default one, whose window
    /// opens without fail.
    pub fn new() -> (backend: Box<dyn RenderBackend>)
        ensures
            backend.always_opens(),
    {
        return Box::new(RgxRenderBackend::new());
    }
}

/// The default backend. It holds no state, and opening its window cannot
/// fail.
pub struct RgxRenderBackend {}

impl RenderBackend for RgxRenderBackend {
    open spec fn always_opens(&self) -> bool {
        true
    }

    fn create_window(&self) -> (res: GameResult)
        ensures
            res is Ok,
    {
        Ok(())
    }
}

impl RgxRenderBackend {
    /// The default backend.
    pub fn new() -> (backend: RgxRenderBackend)
        ensures
            backend == (RgxRenderBackend {  }),
    {
        Self {  }
    }
}

} // verus!
